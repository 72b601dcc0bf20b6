use vstd::prelude::*;

verus! {

/// Position of one cell in the board's row-major cell sequence.
pub type Index = usize;

/// The single failure of the board's indexed accessors.
#[derive(Debug, Clone, Copy, PartialEq, Eq, Structural)]
pub enum GameError {
    /// The requested index lies outside the board; carries the offending index.
    IndexOutOfBounds(Index),
}

impl GameError {
    /// Human-readable description of the error.
    pub fn message(&self) -> (r: String)
        ensures
            r@ == "index out of bounds"@,
    {
        String::from_str("index out of bounds")
    }
}

} // verus!
