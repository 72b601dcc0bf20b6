//! The board: cells, the running flag, and the operations on them.
use vstd::prelude::*;

use crate::audio::{
    audio_params, pitch_for, rect_alive, row_alive, subgrid_alive, volume_for, BASE_PITCH,
    MAX_VOLUME, NUM_SUBGRIDS, PITCH_STEP, SUBGRIDS_ACROSS, SUBGRID_CELLS, SUBGRID_HEIGHT,
    SUBGRID_WIDTH,
};
use crate::error::{GameError, Index};
use vstd::std_specs::iter::IteratorSpec;
use crate::rule::{alive_at, dead_cells, index_of, neighbor_count, next_alive, next_cells};

verus! {

/// Side of one cell on the drawing surface, in pixels.
pub const CELL_SIZE: usize = 40;

/// Board width, in cells.
pub const GRID_WIDTH: usize = 10;

/// Board height, in cells.
pub const GRID_HEIGHT: usize = 10;

/// Number of cells on the board.
pub const NUM_CELLS: usize = GRID_WIDTH * GRID_HEIGHT;


/// Colour of an alive cell on the drawing surface.
pub const ALIVE_COLOR: &'static str = "#2b2d42";

/// Colour of a dead cell on the drawing surface.
pub const DEAD_COLOR: &'static str = "#edf2f4";

/// One unit of the automaton.
#[derive(Debug, Clone, Copy, PartialEq, Eq, Structural)]
pub struct Cell {
    pub alive: bool,
}

impl Default for Cell {
    fn default() -> (c: Cell)
        ensures
            !c.alive,
    {
        Cell { alive: false }
    }
}

impl Cell {
    /// Display colour, a pure function of the state.
    pub fn color(&self) -> (r: &'static str)
        ensures
            r@ == (if self.alive { ALIVE_COLOR@ } else { DEAD_COLOR@ }),
    {
        if self.alive {
            ALIVE_COLOR
        } else {
            DEAD_COLOR
        }
    }
}

/// The board: `NUM_CELLS` cells in row-major order and the running flag.
#[derive(Debug, Clone)]
pub struct Grid {
    cells: Vec<Cell>,
    running: bool,
}

impl View for Grid {
    type V = Seq<bool>;

    /// The alive flags, in row-major order.
    closed spec fn view(&self) -> Seq<bool> {
        self.cells@.map_values(|c: Cell| c.alive)
    }
}

impl Grid {
    /// The board holds exactly one flag per cell.
    pub open spec fn wf(&self) -> bool {
        self@.len() == NUM_CELLS
    }

    /// Whether the simulation is playing.
    pub closed spec fn is_running(&self) -> bool {
        self.running
    }

    /// `next` is `self` with the running flag flipped and the cells kept.
    pub open spec fn toggled(&self, next: &Grid) -> bool {
        next@ == self@ && next.is_running() == !self.is_running()
    }

    /// A board of dead cells, paused.
    pub fn new() -> (g: Grid)
        ensures
            g.wf(),
            g@ == dead_cells(),
            !g.is_running(),
    {
        let mut cells: Vec<Cell> = Vec::new();
        let mut i: usize = 0;
        while i < NUM_CELLS
            invariant
                i <= NUM_CELLS,
                cells@.len() == i,
                forall|j: int| 0 <= j < i ==> !(#[trigger] cells@[j]).alive,
            decreases NUM_CELLS - i,
        {
            cells.push(Cell { alive: false });
            i = i + 1;
        }
        let g = Grid { cells, running: false };
        assert(g@ =~= dead_cells());
        g
    }

    /// The cell at `index`, or `IndexOutOfBounds(index)` when it is off the board.
    pub fn get_cell(&self, index: Index) -> (r: Result<Cell, GameError>)
        requires
            self.wf(),
        ensures
            index < NUM_CELLS ==> r == Ok::<Cell, GameError>(Cell { alive: self@[index as int] }),
            index >= NUM_CELLS ==> r == Err::<Cell, GameError>(GameError::IndexOutOfBounds(index)),
    {
        if index < self.cells.len() {
            Ok(self.cells[index])
        } else {
            Err(GameError::IndexOutOfBounds(index))
        }
    }

    /// Writes the alive flag of the cell at `index`; off the board nothing
    /// changes and `IndexOutOfBounds(index)` is returned.
    pub fn set_cell(&mut self, index: Index, alive: bool) -> (r: Result<(), GameError>)
        requires
            old(self).wf(),
        ensures
            final(self).wf(),
            final(self).is_running() == old(self).is_running(),
            index < NUM_CELLS ==> r is Ok && final(self)@ == old(self)@.update(index as int, alive),
            index >= NUM_CELLS ==> r == Err::<(), GameError>(GameError::IndexOutOfBounds(index))
                && final(self)@ == old(self)@,
    {
        if index < self.cells.len() {
            self.cells.set(index, Cell { alive });
            assert(self@ =~= old(self)@.update(index as int, alive));
            Ok(())
        } else {
            Err(GameError::IndexOutOfBounds(index))
        }
    }

    /// All cells in row-major order.
    pub fn cells(&self) -> (r: &[Cell])
        requires
            self.wf(),
        ensures
            r@.len() == NUM_CELLS,
            forall|i: int| 0 <= i < NUM_CELLS ==> (#[trigger] r@[i]).alive == self@[i],
    {
        self.cells.as_slice()
    }

    /// The cells in row-major order, one pass over a read-only view.
    pub fn iter(&self) -> (r: std::slice::Iter<'_, Cell>)
        requires
            self.wf(),
        ensures
            r.remaining().len() == NUM_CELLS,
            forall|i: int| 0 <= i < NUM_CELLS ==> (#[trigger] r.remaining()[i]).alive == self@[i],
    {
        broadcast use vstd::std_specs::slice::group_slice_axioms;

        self.cells.as_slice().iter()
    }

    /// Whether the simulation is playing.
    pub fn running(&self) -> (r: bool)
        ensures
            r == self.is_running(),
    {
        self.running
    }

    /// Whether the simulation is paused.
    pub fn stopped(&self) -> (r: bool)
        ensures
            r == !self.is_running(),
    {
        !self.running
    }

    /// Sets the simulation playing; the cells are kept.
    pub fn start(&mut self)
        ensures
            final(self)@ == old(self)@,
            final(self).is_running(),
    {
        self.running = true;
    }

    /// Flips between playing and paused; the cells are kept.
    pub fn toggle(&mut self)
        ensures
            old(self).toggled(final(self)),
    {
        self.running = !self.running;
    }

    fn alive_at(&self, x: usize, y: usize) -> (r: bool)
        requires
            self.wf(),
            x < GRID_WIDTH,
            y < GRID_HEIGHT,
        ensures
            r == alive_at(self@, x as int, y as int),
    {
        self.cells[y * GRID_WIDTH + x].alive
    }

    fn count_neighbors(&self, x: usize, y: usize) -> (n: u8)
        requires
            self.wf(),
            x < GRID_WIDTH,
            y < GRID_HEIGHT,
        ensures
            n as nat == neighbor_count(self@, x as int, y as int),
    {
        let mut n: u8 = 0;
        let left = x > 0;
        let right = x + 1 < GRID_WIDTH;
        let up = y > 0;
        let down = y + 1 < GRID_HEIGHT;
        if up && left && self.alive_at(x - 1, y - 1) {
            n = n + 1;
        }
        if up && self.alive_at(x, y - 1) {
            n = n + 1;
        }
        if up && right && self.alive_at(x + 1, y - 1) {
            n = n + 1;
        }
        if left && self.alive_at(x - 1, y) {
            n = n + 1;
        }
        if right && self.alive_at(x + 1, y) {
            n = n + 1;
        }
        if down && left && self.alive_at(x - 1, y + 1) {
            n = n + 1;
        }
        if down && self.alive_at(x, y + 1) {
            n = n + 1;
        }
        if down && right && self.alive_at(x + 1, y + 1) {
            n = n + 1;
        }
        n
    }

    fn count_alive_in_subgrid(&self, k: usize) -> (n: u32)
        requires
            self.wf(),
            k < NUM_SUBGRIDS,
        ensures
            n as nat == subgrid_alive(self@, k as int),
            n <= SUBGRID_CELLS,
    {
        let x0 = (k % SUBGRIDS_ACROSS) * SUBGRID_WIDTH;
        let y0 = (k / SUBGRIDS_ACROSS) * SUBGRID_HEIGHT;
        let mut total: u32 = 0;
        let mut dy: usize = 0;
        while dy < SUBGRID_HEIGHT
            invariant
                self.wf(),
                x0 + SUBGRID_WIDTH <= GRID_WIDTH,
                y0 + SUBGRID_HEIGHT <= GRID_HEIGHT,
                dy <= SUBGRID_HEIGHT,
                total as nat == rect_alive(self@, x0 as int, y0 as int, SUBGRID_WIDTH as nat, dy as nat),
                total <= dy * SUBGRID_WIDTH,
            decreases SUBGRID_HEIGHT - dy,
        {
            let mut row: u32 = 0;
            let mut dx: usize = 0;
            while dx < SUBGRID_WIDTH
                invariant
                    self.wf(),
                    x0 + SUBGRID_WIDTH <= GRID_WIDTH,
                    y0 + SUBGRID_HEIGHT <= GRID_HEIGHT,
                    dy < SUBGRID_HEIGHT,
                    dx <= SUBGRID_WIDTH,
                    row as nat == row_alive(self@, x0 as int, (y0 + dy) as int, dx as nat),
                    row <= dx,
                decreases SUBGRID_WIDTH - dx,
            {
                if self.alive_at(x0 + dx, y0 + dy) {
                    row = row + 1;
                }
                dx = dx + 1;
            }
            total = total + row;
            dy = dy + 1;
        }
        total
    }

    /// One `(pitch, volume)` pair per sub-region, in row-major order of the
    /// sub-regions; a sub-region without alive cells has volume 0.
    pub fn get_pitch_and_volume_per_subgrid(&self) -> (r: Vec<(u32, u32)>)
        requires
            self.wf(),
        ensures
            r@ == audio_params(self@),
    {
        let mut r: Vec<(u32, u32)> = Vec::new();
        let mut k: usize = 0;
        while k < NUM_SUBGRIDS
            invariant
                self.wf(),
                k <= NUM_SUBGRIDS,
                r@.len() == k,
                forall|j: int| 0 <= j < k ==> #[trigger] r@[j] == audio_params(self@)[j],
            decreases NUM_SUBGRIDS - k,
        {
            let alive = self.count_alive_in_subgrid(k);
            let pitch = BASE_PITCH + PITCH_STEP * alive;
            let volume = alive * MAX_VOLUME / SUBGRID_CELLS;
            assert(pitch as int == pitch_for(alive as nat));
            assert(volume as int == volume_for(alive as nat));
            r.push((pitch, volume));
            k = k + 1;
        }
        assert(r@ =~= audio_params(self@));
        r
    }

    /// Advances the whole board one generation while the simulation is
    /// playing; while it is paused nothing changes.
    pub fn next_gen(&mut self)
        requires
            old(self).wf(),
        ensures
            final(self).wf(),
            final(self).is_running() == old(self).is_running(),
            final(self)@ == (if old(self).is_running() { next_cells(old(self)@) } else { old(self)@ }),
    {
        if !self.running {
            return;
        }
        let mut next: Vec<Cell> = Vec::new();
        let mut i: usize = 0;
        while i < NUM_CELLS
            invariant
                self.wf(),
                i <= NUM_CELLS,
                next@.len() == i,
                forall|j: int| 0 <= j < i ==> (#[trigger] next@[j]).alive == next_cells(self@)[j],
            decreases NUM_CELLS - i,
        {
            reveal(next_cells);
            let x = i % GRID_WIDTH;
            let y = i / GRID_WIDTH;
            let n = self.count_neighbors(x, y);
            let alive = self.cells[i].alive;
            let becomes = if alive {
                n == 2 || n == 3
            } else {
                n == 3
            };
            next.push(Cell { alive: becomes });
            i = i + 1;
        }
        let ghost before = self@;
        self.cells = next;
        reveal(next_cells);
        assert(self@ =~= next_cells(before));
    }
}

/// Writing a flag and reading it back gives the flag written; the other
/// cells keep theirs.
pub proof fn set_then_get(cells: Seq<bool>, index: int, alive: bool)
    requires
        cells.len() == NUM_CELLS,
        0 <= index < NUM_CELLS,
    ensures
        cells.update(index, alive).len() == NUM_CELLS,
        cells.update(index, alive)[index] == alive,
        forall|j: int| 0 <= j < NUM_CELLS && j != index ==> #[trigger] cells.update(index, alive)[j] == cells[j],
{
}

/// Toggling twice restores the running flag and keeps the cells.
pub proof fn toggle_twice_restores(g0: Grid, g1: Grid, g2: Grid)
    requires
        g0.toggled(&g1),
        g1.toggled(&g2),
    ensures
        g2@ == g0@,
        g2.is_running() == g0.is_running(),
{
}

} // verus!
