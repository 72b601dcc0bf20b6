use conway_life::audio::{BASE_PITCH, MAX_VOLUME, NUM_SUBGRIDS, PITCH_STEP};
use conway_life::conway::{Cell, Grid, ALIVE_COLOR, DEAD_COLOR, GRID_HEIGHT, GRID_WIDTH, NUM_CELLS};
use conway_life::error::GameError;

fn idx(x: usize, y: usize) -> usize {
    y * GRID_WIDTH + x
}

fn grid_with(alive: &[(usize, usize)]) -> Grid {
    let mut g = Grid::new();
    for &(x, y) in alive {
        g.set_cell(idx(x, y), true).unwrap();
    }
    g
}

fn alive_set(g: &Grid) -> Vec<(usize, usize)> {
    let mut out = Vec::new();
    for (i, c) in g.cells().iter().enumerate() {
        if c.alive {
            out.push((i % GRID_WIDTH, i / GRID_WIDTH));
        }
    }
    out
}

fn sorted(mut v: Vec<(usize, usize)>) -> Vec<(usize, usize)> {
    v.sort();
    v
}

#[test]
fn new_grid_is_dead_and_paused() {
    let g = Grid::new();
    assert_eq!(g.cells().len(), NUM_CELLS);
    assert_eq!(NUM_CELLS, GRID_WIDTH * GRID_HEIGHT);
    assert!(g.cells().iter().all(|c| !c.alive));
    assert!(!g.running());
    assert!(g.stopped());
}

#[test]
fn set_then_get_round_trips() {
    let mut g = Grid::new();
    for i in [0usize, 7, 42, NUM_CELLS - 1] {
        g.set_cell(i, true).unwrap();
        assert_eq!(g.get_cell(i), Ok(Cell { alive: true }));
        g.set_cell(i, false).unwrap();
        assert_eq!(g.get_cell(i), Ok(Cell { alive: false }));
    }
}

#[test]
fn set_cell_touches_one_cell() {
    let mut g = Grid::new();
    g.set_cell(13, true).unwrap();
    assert_eq!(alive_set(&g), vec![(3, 1)]);
}

#[test]
fn out_of_bounds_accessors_fail() {
    let mut g = Grid::new();
    for i in [NUM_CELLS, NUM_CELLS + 1, usize::MAX] {
        assert_eq!(g.get_cell(i), Err(GameError::IndexOutOfBounds(i)));
        assert_eq!(g.set_cell(i, true), Err(GameError::IndexOutOfBounds(i)));
    }
    assert!(g.cells().iter().all(|c| !c.alive));
}

#[test]
fn error_message() {
    assert_eq!(GameError::IndexOutOfBounds(100).message(), "index out of bounds");
}

#[test]
fn cell_colors_and_default() {
    assert!(!Cell::default().alive);
    assert_eq!(Cell { alive: true }.color(), ALIVE_COLOR);
    assert_eq!(Cell { alive: false }.color(), DEAD_COLOR);
    assert_ne!(ALIVE_COLOR, DEAD_COLOR);
}

#[test]
fn next_gen_is_deterministic() {
    let mut a = grid_with(&[(1, 1), (2, 1), (3, 1), (5, 5), (5, 6), (6, 5), (8, 8)]);
    a.start();
    let mut b = a.clone();
    a.next_gen();
    b.next_gen();
    assert_eq!(a.cells(), b.cells());
}

#[test]
fn block_is_still_life() {
    let block = vec![(4, 4), (5, 4), (4, 5), (5, 5)];
    let mut g = grid_with(&block);
    g.start();
    for _ in 0..5 {
        g.next_gen();
        assert_eq!(sorted(alive_set(&g)), sorted(block.clone()));
    }
}

#[test]
fn block_in_corner_is_still_life() {
    let block = vec![(8, 8), (9, 8), (8, 9), (9, 9)];
    let mut g = grid_with(&block);
    g.start();
    g.next_gen();
    g.next_gen();
    assert_eq!(sorted(alive_set(&g)), sorted(block));
}

#[test]
fn horizontal_blinker_oscillates() {
    let horizontal = vec![(3, 5), (4, 5), (5, 5)];
    let vertical = vec![(4, 4), (4, 5), (4, 6)];
    let mut g = grid_with(&horizontal);
    g.start();
    for _ in 0..3 {
        g.next_gen();
        assert_eq!(sorted(alive_set(&g)), sorted(vertical.clone()));
        g.next_gen();
        assert_eq!(sorted(alive_set(&g)), sorted(horizontal.clone()));
    }
}

#[test]
fn vertical_blinker_at_top_edge_turns_horizontal() {
    let mut g = grid_with(&[(1, 0), (1, 1), (1, 2)]);
    g.start();
    g.next_gen();
    assert_eq!(sorted(alive_set(&g)), vec![(0, 1), (1, 1), (2, 1)]);
}

#[test]
fn lone_corner_cell_dies() {
    let mut g = grid_with(&[(0, 0)]);
    g.start();
    g.next_gen();
    assert!(alive_set(&g).is_empty());
}

#[test]
fn edges_do_not_wrap() {
    // On a torus these three would be neighbours of (0, 0) and bring it to life.
    let mut g = grid_with(&[(GRID_WIDTH - 1, GRID_HEIGHT - 1), (GRID_WIDTH - 1, 0), (GRID_WIDTH - 1, 1)]);
    g.start();
    g.next_gen();
    assert_eq!(g.get_cell(idx(0, 0)), Ok(Cell { alive: false }));
    assert_eq!(g.get_cell(idx(0, 1)), Ok(Cell { alive: false }));
}

#[test]
fn birth_needs_exactly_three() {
    let mut g = grid_with(&[(1, 1), (3, 1), (2, 3)]);
    g.start();
    g.next_gen();
    assert_eq!(g.get_cell(idx(2, 2)), Ok(Cell { alive: true }));
    let mut h = grid_with(&[(1, 1), (3, 1), (2, 3), (1, 3)]);
    h.start();
    h.next_gen();
    assert_eq!(h.get_cell(idx(2, 2)), Ok(Cell { alive: false }));
}

#[test]
fn overcrowded_cell_dies() {
    let mut g = grid_with(&[(2, 2), (1, 1), (2, 1), (3, 1), (1, 2)]);
    g.start();
    g.next_gen();
    assert_eq!(g.get_cell(idx(2, 2)), Ok(Cell { alive: false }));
}

#[test]
fn toggle_twice_restores_running() {
    let mut g = grid_with(&[(2, 2)]);
    let before = g.running();
    g.toggle();
    assert_eq!(g.running(), !before);
    g.toggle();
    assert_eq!(g.running(), before);
    assert_eq!(alive_set(&g), vec![(2, 2)]);
}

#[test]
fn start_is_idempotent() {
    let mut g = Grid::new();
    g.start();
    assert!(g.running());
    g.start();
    assert!(g.running());
}

#[test]
fn next_gen_while_paused_changes_nothing() {
    let mut g = grid_with(&[(3, 5), (4, 5), (5, 5)]);
    g.next_gen();
    assert_eq!(sorted(alive_set(&g)), vec![(3, 5), (4, 5), (5, 5)]);
    assert!(!g.running());
}

#[test]
fn dead_board_is_silent() {
    let g = Grid::new();
    let params = g.get_pitch_and_volume_per_subgrid();
    assert_eq!(params.len(), NUM_SUBGRIDS);
    assert_eq!(params.len(), 4);
    for &(pitch, volume) in &params {
        assert_eq!(volume, 0);
        assert_eq!(pitch, BASE_PITCH);
    }
}

#[test]
fn audio_follows_density() {
    let mut full = Vec::new();
    for y in 0..5 {
        for x in 0..5 {
            full.push((x, y));
        }
    }
    full.push((9, 9));
    full.push((5, 0));
    full.push((6, 0));
    let g = grid_with(&full);
    let params = g.get_pitch_and_volume_per_subgrid();
    assert_eq!(params[0], (BASE_PITCH + 25 * PITCH_STEP, MAX_VOLUME));
    assert_eq!(params[0], (720, 100));
    assert_eq!(params[1], (260, 8));
    assert_eq!(params[2], (220, 0));
    assert_eq!(params[3], (240, 4));
}

#[test]
fn iter_walks_cells_in_row_major_order() {
    let g = grid_with(&[(2, 0), (0, 1)]);
    let flags: Vec<bool> = g.iter().map(|c| c.alive).collect();
    assert_eq!(flags.len(), NUM_CELLS);
    assert!(flags[2] && flags[GRID_WIDTH]);
    assert_eq!(flags.iter().filter(|a| **a).count(), 2);
    assert_eq!(g.iter().count(), g.iter().count());
}
