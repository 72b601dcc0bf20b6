//! Audio parameters derived from the board: the board is cut into a regular
//! lattice of sub-regions, and each sub-region gives one `(pitch, volume)`
//! pair from the number of alive cells in it.
use vstd::prelude::*;

use crate::conway::{GRID_HEIGHT, GRID_WIDTH};
use crate::rule::{alive_at, count, dead_cells};

verus! {

/// Width of one sub-region, in cells.
pub const SUBGRID_WIDTH: usize = 5;

/// Height of one sub-region, in cells.
pub const SUBGRID_HEIGHT: usize = 5;

/// Cells in one sub-region.
pub const SUBGRID_CELLS: u32 = 25;

/// Sub-regions in one row of the lattice.
pub const SUBGRIDS_ACROSS: usize = 2;

/// Rows of sub-regions in the lattice.
pub const SUBGRIDS_DOWN: usize = 2;

/// The lattice covers the board exactly: no cell is left out, none counted twice.
pub proof fn lattice_covers_board()
    ensures
        SUBGRIDS_ACROSS * SUBGRID_WIDTH == GRID_WIDTH,
        SUBGRIDS_DOWN * SUBGRID_HEIGHT == GRID_HEIGHT,
        SUBGRID_WIDTH * SUBGRID_HEIGHT == SUBGRID_CELLS,
{
}

/// Number of sub-regions, and so of `(pitch, volume)` pairs.
pub const NUM_SUBGRIDS: usize = SUBGRIDS_ACROSS * SUBGRIDS_DOWN;

/// Pitch of a sub-region with no alive cell, in hertz.
pub const BASE_PITCH: u32 = 220;

/// Pitch added by each alive cell of a sub-region, in hertz.
pub const PITCH_STEP: u32 = 20;

/// Volume of a sub-region whose cells are all alive; a dead one is silent (0).
pub const MAX_VOLUME: u32 = 100;

/// Alive cells among the first `w` cells of row `y`, from column `x`.
pub open spec fn row_alive(cells: Seq<bool>, x: int, y: int, w: nat) -> nat
    decreases w,
{
    if w == 0 {
        0
    } else {
        row_alive(cells, x, y, (w - 1) as nat) + count(alive_at(cells, x + w - 1, y))
    }
}

/// Alive cells in the `w` by `h` rectangle whose top-left cell is `(x, y)`.
pub open spec fn rect_alive(cells: Seq<bool>, x: int, y: int, w: nat, h: nat) -> nat
    decreases h,
{
    if h == 0 {
        0
    } else {
        rect_alive(cells, x, y, w, (h - 1) as nat) + row_alive(cells, x, y + h - 1, w)
    }
}

/// Left column of sub-region `k`; sub-regions are numbered in row-major order.
pub open spec fn subgrid_x(k: int) -> int {
    (k % SUBGRIDS_ACROSS as int) * SUBGRID_WIDTH as int
}

/// Top row of sub-region `k`.
pub open spec fn subgrid_y(k: int) -> int {
    (k / SUBGRIDS_ACROSS as int) * SUBGRID_HEIGHT as int
}

/// Alive cells in sub-region `k`.
pub open spec fn subgrid_alive(cells: Seq<bool>, k: int) -> nat {
    rect_alive(
        cells,
        subgrid_x(k),
        subgrid_y(k),
        SUBGRID_WIDTH as nat,
        SUBGRID_HEIGHT as nat,
    )
}

/// Pitch for a sub-region with `alive` alive cells: it rises with the count.
pub open spec fn pitch_for(alive: nat) -> int {
    BASE_PITCH + PITCH_STEP * alive
}

/// Volume for a sub-region with `alive` alive cells: proportional to density.
pub open spec fn volume_for(alive: nat) -> int {
    alive * MAX_VOLUME / SUBGRID_CELLS as int
}

/// The `(pitch, volume)` pair of each sub-region, in row-major order.
pub open spec fn audio_params(cells: Seq<bool>) -> Seq<(u32, u32)> {
    Seq::new(
        NUM_SUBGRIDS as nat,
        |k: int|
            (
                pitch_for(subgrid_alive(cells, k)) as u32,
                volume_for(subgrid_alive(cells, k)) as u32,
            ),
    )
}

proof fn lemma_row_alive_dead(x: int, y: int, w: nat)
    ensures
        row_alive(dead_cells(), x, y, w) == 0,
    decreases w,
{
    if w > 0 {
        lemma_row_alive_dead(x, y, (w - 1) as nat);
    }
}

proof fn lemma_rect_alive_dead(x: int, y: int, w: nat, h: nat)
    ensures
        rect_alive(dead_cells(), x, y, w, h) == 0,
    decreases h,
{
    if h > 0 {
        lemma_rect_alive_dead(x, y, w, (h - 1) as nat);
        lemma_row_alive_dead(x, y + h - 1, w);
    }
}

/// On a board with no alive cell there is one pair per sub-region, and every
/// one of them is silent.
pub proof fn dead_board_is_silent()
    ensures
        audio_params(dead_cells()).len() == NUM_SUBGRIDS,
        forall|k: int| 0 <= k < NUM_SUBGRIDS ==> (#[trigger] audio_params(dead_cells())[k]).1 == 0,
{
    assert forall|k: int| 0 <= k < NUM_SUBGRIDS implies (#[trigger] audio_params(dead_cells())[k]).1
        == 0 by {
        lemma_rect_alive_dead(subgrid_x(k), subgrid_y(k), SUBGRID_WIDTH as nat, SUBGRID_HEIGHT as nat);
    }
}

} // verus!
