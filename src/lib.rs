//! A fixed-size Game of Life board: the cell grid, its synchronous step rule,
//! the play/pause flag, and the mapping from live cells to audio parameters.
pub mod audio;
pub mod client;
pub mod conway;
pub mod error;
pub mod rule;
