//! The decisions of one board's view, apart from drawing, timers and sound:
//! each message updates the board and says what the surrounding program must
//! do next.
use vstd::prelude::*;

use crate::audio::audio_params;
use crate::conway::{Grid, CELL_SIZE, GRID_WIDTH, NUM_CELLS};
use crate::error::{GameError, Index};
use crate::rule::next_cells;

verus! {

/// Delay between two generations while the simulation plays, in milliseconds.
pub const GENERATION_DELAY_MS: u64 = 300;

/// What can happen to a board's view.
#[derive(Debug, Clone, Copy, PartialEq, Eq, Structural)]
pub enum Message {
    /// A click on the drawing surface, at these pixel offsets from its corner.
    ClickCanvas(u32, u32),
    /// The delay between two generations has passed.
    Simulate,
    /// The play/pause button was pressed.
    ToggleSimulation,
}

/// What the surrounding program must do after a message was handled.
#[derive(Debug, Clone)]
pub struct Effects {
    /// The view's markup changed (the play/pause button).
    pub should_render: bool,
    /// The board changed and must be drawn again.
    pub redraw: bool,
    /// Pitches to play now, one per sub-region that is not silent.
    pub notes: Vec<u32>,
    /// Send `Message::Simulate` again after `GENERATION_DELAY_MS`.
    pub schedule_tick: bool,
    /// A click that fell off the board, to be reported.
    pub error: Option<GameError>,
}

/// The pitches of the pairs whose volume is not zero, in order.
pub open spec fn audible_pitches(params: Seq<(u32, u32)>) -> Seq<u32>
    decreases params.len(),
{
    if params.len() == 0 {
        Seq::empty()
    } else {
        let rest = audible_pitches(params.drop_last());
        if params.last().1 > 0 {
            rest.push(params.last().0)
        } else {
            rest
        }
    }
}

/// Index of the cell under the pixel offsets `(x_px, y_px)`.
pub open spec fn cell_index_spec(x_px: u32, y_px: u32) -> int {
    x_px as int / CELL_SIZE as int + (y_px as int / CELL_SIZE as int) * GRID_WIDTH as int
}

/// Effects that ask for nothing.
pub open spec fn is_quiet(e: Effects) -> bool {
    !e.should_render && !e.redraw && e.notes@.len() == 0 && !e.schedule_tick && e.error is None
}

/// Index of the cell under the pixel offsets `(x_px, y_px)`; it may lie off the
/// board, which the accessors then report.
pub fn cell_index_at(x_px: u32, y_px: u32) -> (r: Index)
    ensures
        r as int == cell_index_spec(x_px, y_px),
{
    let col = (x_px / CELL_SIZE as u32) as usize;
    let row = (y_px / CELL_SIZE as u32) as usize;
    assert(col <= 0xffff_ffffu32 / 40 && row <= 0xffff_ffffu32 / 40) by (nonlinear_arith)
        requires
            col == x_px / 40,
            row == y_px / 40,
    ;
    col + row * GRID_WIDTH
}

/// The pitches of the pairs whose volume is not zero, in order.
pub fn audible(params: &Vec<(u32, u32)>) -> (r: Vec<u32>)
    ensures
        r@ == audible_pitches(params@),
{
    let mut r: Vec<u32> = Vec::new();
    let mut i: usize = 0;
    while i < params.len()
        invariant
            i <= params@.len(),
            r@ == audible_pitches(params@.take(i as int)),
        decreases params@.len() - i,
    {
        assert(params@.take(i + 1).drop_last() =~= params@.take(i as int));
        let (pitch, volume) = params[i];
        if volume > 0 {
            r.push(pitch);
        }
        i = i + 1;
    }
    assert(params@.take(i as int) =~= params@);
    r
}

/// The state of one board's view: the board and its running flag.
#[derive(Debug, Clone)]
pub struct GridView {
    pub grid: Grid,
}

impl GridView {
    pub open spec fn wf(&self) -> bool {
        self.grid.wf()
    }

    /// A view of `grid`.
    pub fn new(grid: Grid) -> (v: GridView)
        requires
            grid.wf(),
        ensures
            v.wf(),
            v.grid == grid,
    {
        GridView { grid }
    }

    /// Whether the simulation is paused, which the play/pause button shows.
    pub fn stopped(&self) -> (r: bool)
        ensures
            r == !self.grid.is_running(),
    {
        self.grid.stopped()
    }

    /// Flips the cell under the pixel offsets `(x_px, y_px)`; off the board
    /// nothing changes and the offending index is returned as an error.
    pub fn toggle_cell(&mut self, x_px: u32, y_px: u32) -> (r: Result<(), GameError>)
        requires
            old(self).wf(),
        ensures
            final(self).wf(),
            final(self).grid.is_running() == old(self).grid.is_running(),
            ({
                let i = cell_index_spec(x_px, y_px);
                &&& i < NUM_CELLS ==> r is Ok && final(self).grid@ == old(self).grid@.update(
                    i,
                    !old(self).grid@[i],
                )
                &&& i >= NUM_CELLS ==> r == Err::<(), GameError>(
                    GameError::IndexOutOfBounds(i as usize),
                ) && final(self).grid@ == old(self).grid@
            }),
    {
        let index = cell_index_at(x_px, y_px);
        match self.grid.get_cell(index) {
            Ok(cell) => self.grid.set_cell(index, !cell.alive),
            Err(e) => Err(e),
        }
    }

    /// One tick of the simulation: while it plays, the board advances one
    /// generation, is drawn, its audible sub-regions are played and the next
    /// tick is scheduled; while it is paused nothing happens.
    pub fn simulate(&mut self) -> (e: Effects)
        requires
            old(self).wf(),
        ensures
            final(self).wf(),
            final(self).grid.is_running() == old(self).grid.is_running(),
            old(self).grid.is_running() ==> final(self).grid@ == next_cells(old(self).grid@)
                && !e.should_render && e.redraw && e.schedule_tick && e.error is None
                && e.notes@ == audible_pitches(audio_params(final(self).grid@)),
            !old(self).grid.is_running() ==> final(self).grid@ == old(self).grid@ && is_quiet(e),
    {
        if self.grid.running() {
            self.grid.start();
            self.grid.next_gen();
            let params = self.grid.get_pitch_and_volume_per_subgrid();
            let notes = audible(&params);
            Effects { should_render: false, redraw: true, notes, schedule_tick: true, error: None }
        } else {
            Effects {
                should_render: false,
                redraw: false,
                notes: Vec::new(),
                schedule_tick: false,
                error: None,
            }
        }
    }

    /// Handles one message and says what must follow.
    pub fn update(&mut self, msg: Message) -> (e: Effects)
        requires
            old(self).wf(),
        ensures
            final(self).wf(),
            match msg {
                Message::ClickCanvas(x_px, y_px) => {
                    let i = cell_index_spec(x_px, y_px);
                    &&& final(self).grid.is_running() == old(self).grid.is_running()
                    &&& !e.should_render && e.notes@.len() == 0 && !e.schedule_tick
                    &&& i < NUM_CELLS ==> final(self).grid@ == old(self).grid@.update(
                        i,
                        !old(self).grid@[i],
                    ) && e.redraw && e.error is None
                    &&& i >= NUM_CELLS ==> final(self).grid@ == old(self).grid@ && !e.redraw
                        && e.error == Some(GameError::IndexOutOfBounds(i as usize))
                },
                Message::Simulate => {
                    &&& final(self).grid.is_running() == old(self).grid.is_running()
                    &&& old(self).grid.is_running() ==> final(self).grid@ == next_cells(
                        old(self).grid@,
                    ) && !e.should_render && e.redraw && e.schedule_tick && e.error is None
                        && e.notes@ == audible_pitches(audio_params(final(self).grid@))
                    &&& !old(self).grid.is_running() ==> final(self).grid@ == old(self).grid@
                        && is_quiet(e)
                },
                Message::ToggleSimulation => {
                    &&& final(self).grid.is_running() == !old(self).grid.is_running()
                    &&& e.should_render && e.error is None
                    &&& !old(self).grid.is_running() ==> final(self).grid@ == next_cells(
                        old(self).grid@,
                    ) && e.redraw && e.schedule_tick && e.notes@ == audible_pitches(
                        audio_params(final(self).grid@),
                    )
                    &&& old(self).grid.is_running() ==> final(self).grid@ == old(self).grid@
                        && !e.redraw && !e.schedule_tick && e.notes@.len() == 0
                },
            },
    {
        match msg {
            Message::ClickCanvas(x_px, y_px) => {
                let r = self.toggle_cell(x_px, y_px);
                let (redraw, error) = match r {
                    Ok(()) => (true, None),
                    Err(e) => (false, Some(e)),
                };
                Effects { should_render: false, redraw, notes: Vec::new(), schedule_tick: false, error }
            },
            Message::Simulate => self.simulate(),
            Message::ToggleSimulation => {
                self.grid.toggle();
                let mut e = self.simulate();
                e.should_render = true;
                e
            },
        }
    }
}

} // verus!
