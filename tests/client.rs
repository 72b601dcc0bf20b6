use conway_life::client::{audible, cell_index_at, GridView, Message};
use conway_life::conway::{Cell, Grid, CELL_SIZE, GRID_WIDTH};
use conway_life::error::GameError;

#[test]
fn pixel_offsets_map_to_cells() {
    assert_eq!(cell_index_at(0, 0), 0);
    assert_eq!(cell_index_at(85, 130), 32);
    assert_eq!(cell_index_at((CELL_SIZE - 1) as u32, 0), 0);
    assert_eq!(cell_index_at(CELL_SIZE as u32, CELL_SIZE as u32), GRID_WIDTH + 1);
    assert_eq!(cell_index_at(u32::MAX, u32::MAX), 107374182 + 107374182 * 10);
}

#[test]
fn click_toggles_cell() {
    let mut v = GridView::new(Grid::new());
    let e = v.update(Message::ClickCanvas(85, 130));
    assert!(e.redraw);
    assert!(!e.should_render);
    assert!(e.error.is_none());
    assert_eq!(v.grid.get_cell(32), Ok(Cell { alive: true }));
    v.update(Message::ClickCanvas(90, 150));
    assert_eq!(v.grid.get_cell(32), Ok(Cell { alive: false }));
}

#[test]
fn click_off_board_reports_index() {
    let mut v = GridView::new(Grid::new());
    let e = v.update(Message::ClickCanvas(0, 400));
    assert_eq!(e.error, Some(GameError::IndexOutOfBounds(100)));
    assert!(!e.redraw);
    assert_eq!(v.toggle_cell(0, 4000), Err(GameError::IndexOutOfBounds(1000)));
    assert!(v.grid.cells().iter().all(|c| !c.alive));
}

#[test]
fn simulate_while_paused_does_nothing() {
    let mut v = GridView::new(Grid::new());
    v.update(Message::ClickCanvas(0, 0));
    let e = v.update(Message::Simulate);
    assert!(!e.redraw && !e.schedule_tick && !e.should_render);
    assert!(e.notes.is_empty());
    assert_eq!(v.grid.get_cell(0), Ok(Cell { alive: true }));
    assert!(v.stopped());
}

#[test]
fn toggle_simulation_steps_and_schedules() {
    let mut v = GridView::new(Grid::new());
    for x in [3u32, 4, 5] {
        v.update(Message::ClickCanvas(x * CELL_SIZE as u32, 5 * CELL_SIZE as u32));
    }
    let e = v.update(Message::ToggleSimulation);
    assert!(!v.stopped());
    assert!(e.should_render && e.redraw && e.schedule_tick);
    assert_eq!(v.grid.get_cell(4 * GRID_WIDTH + 4), Ok(Cell { alive: true }));
    assert_eq!(v.grid.get_cell(5 * GRID_WIDTH + 3), Ok(Cell { alive: false }));
    // vertical blinker at (4,4),(4,5),(4,6): one cell in region 0, two in region 2
    assert_eq!(e.notes, vec![240, 260]);
    let e = v.update(Message::Simulate);
    assert!(e.redraw && e.schedule_tick && !e.should_render);
    assert_eq!(v.grid.get_cell(5 * GRID_WIDTH + 3), Ok(Cell { alive: true }));
    let e = v.update(Message::ToggleSimulation);
    assert!(v.stopped());
    assert!(e.should_render && !e.redraw && !e.schedule_tick);
}

#[test]
fn audible_keeps_non_silent_pitches() {
    assert_eq!(audible(&vec![(220, 0), (240, 4), (220, 0), (300, 16)]), vec![240, 300]);
    assert!(audible(&vec![]).is_empty());
}
