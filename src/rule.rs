//! The mathematical model of the automaton: a board is a row-major sequence of
//! alive flags, and one generation is a pure function of that sequence.
use vstd::prelude::*;

use crate::conway::{GRID_HEIGHT, GRID_WIDTH, NUM_CELLS};

verus! {

/// Whether `(x, y)` names a cell of the board.
pub open spec fn in_bounds(x: int, y: int) -> bool {
    0 <= x < GRID_WIDTH as int && 0 <= y < GRID_HEIGHT as int
}

/// Row-major position of the cell at `(x, y)`.
pub open spec fn index_of(x: int, y: int) -> int {
    y * GRID_WIDTH as int + x
}

/// Whether the cell at `(x, y)` is alive; positions off the board are dead.
pub open spec fn alive_at(cells: Seq<bool>, x: int, y: int) -> bool {
    in_bounds(x, y) && cells[index_of(x, y)]
}

/// One for an alive flag, zero for a dead one.
pub open spec fn count(b: bool) -> nat {
    if b { 1 } else { 0 }
}

/// Alive cells among the eight cells around `(x, y)`, with no wrap-around.
pub open spec fn neighbor_count(cells: Seq<bool>, x: int, y: int) -> nat {
    count(alive_at(cells, x - 1, y - 1)) + count(alive_at(cells, x, y - 1))
        + count(alive_at(cells, x + 1, y - 1)) + count(alive_at(cells, x - 1, y))
        + count(alive_at(cells, x + 1, y)) + count(alive_at(cells, x - 1, y + 1))
        + count(alive_at(cells, x, y + 1)) + count(alive_at(cells, x + 1, y + 1))
}

/// Conway's rule for one cell.
pub open spec fn next_alive(alive: bool, neighbors: nat) -> bool {
    if alive {
        neighbors == 2 || neighbors == 3
    } else {
        neighbors == 3
    }
}

/// The whole board one generation later, computed from the current one only.
#[verifier::opaque]
pub open spec fn next_cells(cells: Seq<bool>) -> Seq<bool> {
    Seq::new(
        NUM_CELLS as nat,
        |i: int|
            next_alive(
                cells[i],
                neighbor_count(cells, i % GRID_WIDTH as int, i / GRID_WIDTH as int),
            ),
    )
}

/// The board after `n` generations.
pub open spec fn generations(cells: Seq<bool>, n: nat) -> Seq<bool>
    decreases n,
{
    if n == 0 {
        cells
    } else {
        next_cells(generations(cells, (n - 1) as nat))
    }
}

/// A board of dead cells.
pub open spec fn dead_cells() -> Seq<bool> {
    Seq::new(NUM_CELLS as nat, |i: int| false)
}

/// The board whose alive cells are exactly the on-board positions of `alive`.
pub open spec fn pattern(alive: Set<(int, int)>) -> Seq<bool> {
    Seq::new(
        NUM_CELLS as nat,
        |i: int| alive.contains((i % GRID_WIDTH as int, i / GRID_WIDTH as int)),
    )
}

/// The 2x2 block whose top-left cell is `(x, y)`.
pub open spec fn block(x: int, y: int) -> Set<(int, int)> {
    set![(x, y), (x + 1, y), (x, y + 1), (x + 1, y + 1)]
}

/// Three cells in a row, centred on `(x, y)`.
pub open spec fn horizontal_blinker(x: int, y: int) -> Set<(int, int)> {
    set![(x - 1, y), (x, y), (x + 1, y)]
}

/// Three cells in a column, centred on `(x, y)`.
pub open spec fn vertical_blinker(x: int, y: int) -> Set<(int, int)> {
    set![(x, y - 1), (x, y), (x, y + 1)]
}

proof fn lemma_index_coordinates(x: int, y: int)
    requires
        in_bounds(x, y),
    ensures
        0 <= index_of(x, y) < NUM_CELLS,
        index_of(x, y) % GRID_WIDTH as int == x,
        index_of(x, y) / GRID_WIDTH as int == y,
{
}

proof fn lemma_pattern_alive_at(s: Set<(int, int)>, x: int, y: int)
    ensures
        alive_at(pattern(s), x, y) == (in_bounds(x, y) && s.contains((x, y))),
{
    if in_bounds(x, y) {
        lemma_index_coordinates(x, y);
    }
}

proof fn lemma_pattern_neighbors(s: Set<(int, int)>, x: int, y: int)
    ensures
        neighbor_count(pattern(s), x, y) == count(in_bounds(x - 1, y - 1) && s.contains(
            (x - 1, y - 1),
        )) + count(in_bounds(x, y - 1) && s.contains((x, y - 1))) + count(
            in_bounds(x + 1, y - 1) && s.contains((x + 1, y - 1)),
        ) + count(in_bounds(x - 1, y) && s.contains((x - 1, y))) + count(
            in_bounds(x + 1, y) && s.contains((x + 1, y)),
        ) + count(in_bounds(x - 1, y + 1) && s.contains((x - 1, y + 1))) + count(
            in_bounds(x, y + 1) && s.contains((x, y + 1)),
        ) + count(in_bounds(x + 1, y + 1) && s.contains((x + 1, y + 1))),
{
    lemma_pattern_alive_at(s, x - 1, y - 1);
    lemma_pattern_alive_at(s, x, y - 1);
    lemma_pattern_alive_at(s, x + 1, y - 1);
    lemma_pattern_alive_at(s, x - 1, y);
    lemma_pattern_alive_at(s, x + 1, y);
    lemma_pattern_alive_at(s, x - 1, y + 1);
    lemma_pattern_alive_at(s, x, y + 1);
    lemma_pattern_alive_at(s, x + 1, y + 1);
}

/// A 2x2 block that fits on the board is a still life: one generation leaves
/// the board unchanged.
pub proof fn block_is_stable(x: int, y: int)
    requires
        in_bounds(x, y),
        in_bounds(x + 1, y + 1),
    ensures
        next_cells(pattern(block(x, y))) == pattern(block(x, y)),
{
    let s = block(x, y);
    reveal(next_cells);
    assert forall|i: int| 0 <= i < NUM_CELLS implies next_cells(pattern(s))[i] == pattern(s)[i] by {
        lemma_pattern_neighbors(s, i % GRID_WIDTH as int, i / GRID_WIDTH as int);
    }
    assert(next_cells(pattern(s)) =~= pattern(s));
}

/// A 2x2 block that fits on the board stays unchanged after any number of
/// generations.
pub proof fn block_stays_forever(x: int, y: int, n: nat)
    requires
        in_bounds(x, y),
        in_bounds(x + 1, y + 1),
    ensures
        generations(pattern(block(x, y)), n) == pattern(block(x, y)),
    decreases n,
{
    if n > 0 {
        block_stays_forever(x, y, (n - 1) as nat);
        block_is_stable(x, y);
    }
}

/// A horizontal blinker whose three cells and the cells above and below them
/// lie on the board turns into a vertical blinker in one generation.
pub proof fn horizontal_blinker_turns_vertical(x: int, y: int)
    requires
        in_bounds(x - 1, y - 1),
        in_bounds(x + 1, y + 1),
    ensures
        next_cells(pattern(horizontal_blinker(x, y))) == pattern(vertical_blinker(x, y)),
{
    let s = horizontal_blinker(x, y);
    let t = vertical_blinker(x, y);
    reveal(next_cells);
    assert forall|i: int| 0 <= i < NUM_CELLS implies next_cells(pattern(s))[i] == pattern(t)[i] by {
        lemma_pattern_neighbors(s, i % GRID_WIDTH as int, i / GRID_WIDTH as int);
    }
    assert(next_cells(pattern(s)) =~= pattern(t));
}

/// A vertical blinker away from the border turns into a horizontal blinker in
/// one generation.
pub proof fn vertical_blinker_turns_horizontal(x: int, y: int)
    requires
        in_bounds(x - 1, y - 1),
        in_bounds(x + 1, y + 1),
    ensures
        next_cells(pattern(vertical_blinker(x, y))) == pattern(horizontal_blinker(x, y)),
{
    let s = vertical_blinker(x, y);
    let t = horizontal_blinker(x, y);
    reveal(next_cells);
    assert forall|i: int| 0 <= i < NUM_CELLS implies next_cells(pattern(s))[i] == pattern(t)[i] by {
        lemma_pattern_neighbors(s, i % GRID_WIDTH as int, i / GRID_WIDTH as int);
    }
    assert(next_cells(pattern(s)) =~= pattern(t));
}

/// A blinker away from the border oscillates with period two: every even
/// generation is horizontal, every odd one vertical.
pub proof fn blinker_has_period_two(x: int, y: int, n: nat)
    requires
        in_bounds(x - 1, y - 1),
        in_bounds(x + 1, y + 1),
    ensures
        generations(pattern(horizontal_blinker(x, y)), n) == if n % 2 == 0 {
            pattern(horizontal_blinker(x, y))
        } else {
            pattern(vertical_blinker(x, y))
        },
    decreases n,
{
    let h = pattern(horizontal_blinker(x, y));
    let v = pattern(vertical_blinker(x, y));
    if n > 0 {
        let m = (n - 1) as nat;
        blinker_has_period_two(x, y, m);
        assert(generations(h, n) == next_cells(generations(h, m)));
        if m % 2 == 0 {
            horizontal_blinker_turns_vertical(x, y);
            assert(generations(h, n) == v);
        } else {
            vertical_blinker_turns_horizontal(x, y);
            assert(generations(h, n) == h);
        }
    }
}

/// A lone alive cell in the top-left corner dies of underpopulation.
pub proof fn lone_corner_cell_dies()
    ensures
        next_cells(pattern(set![(0int, 0int)])) == dead_cells(),
{
    let s = set![(0int, 0int)];
    reveal(next_cells);
    assert forall|i: int| 0 <= i < NUM_CELLS implies next_cells(pattern(s))[i] == dead_cells()[i] by {
        lemma_pattern_neighbors(s, i % GRID_WIDTH as int, i / GRID_WIDTH as int);
    }
    assert(next_cells(pattern(s)) =~= dead_cells());
}

/// Edges do not wrap: the corner cell `(0, 0)` counts only its three on-board
/// neighbours, whatever holds in the last row and column.
pub proof fn corner_counts_on_board_neighbors_only(cells: Seq<bool>)
    requires
        cells.len() == NUM_CELLS,
    ensures
        neighbor_count(cells, 0, 0) == count(cells[1]) + count(cells[GRID_WIDTH as int]) + count(
            cells[GRID_WIDTH as int + 1],
        ),
{
}

/// The step is a function of the cells alone: equal boards step to equal boards.
pub proof fn step_is_deterministic(a: Seq<bool>, b: Seq<bool>)
    requires
        a == b,
    ensures
        next_cells(a) == next_cells(b),
{
}

/// The cell at `(x, y)` of the next generation follows Conway's rule on the
/// current generation.
pub proof fn next_cell_follows_rule(cells: Seq<bool>, x: int, y: int)
    requires
        cells.len() == NUM_CELLS,
        in_bounds(x, y),
    ensures
        next_cells(cells).len() == NUM_CELLS,
        next_cells(cells)[index_of(x, y)] == next_alive(cells[index_of(x, y)], neighbor_count(cells, x, y)),
{
    reveal(next_cells);
    lemma_index_coordinates(x, y);
}

} // verus!
