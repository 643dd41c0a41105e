use vstd::prelude::*;
use crate::hyped_core::comms::boards::Board;

verus! {

/// A transition of a board to a new state, carried by the state's wire code.
#[derive(Debug, PartialEq, Eq, Clone, Copy, Structural)]
pub struct StateTransition {
    pub board: Board,
    pub to_state: u8,
}

impl StateTransition {
    pub fn new(board: Board, to_state: u8) -> (r: Self)
        ensures
            r == (StateTransition { board, to_state }),
    {
        StateTransition { board, to_state }
    }
}

} // verus!
