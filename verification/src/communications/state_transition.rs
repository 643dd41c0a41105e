use vstd::prelude::*;
use crate::communications::boards::Board;

verus! {

/// A request from a board to move the pod to a new state. The state is
/// carried by its wire code, as the state machine numbers it.
/// It is input to the state machine, which outputs a command to move to the
/// new state if the request is valid.
#[derive(Debug, PartialEq, Eq, Clone, Copy, Structural)]
pub struct StateTransitionRequest {
    pub requesting_board: Board,
    pub to_state: u8,
}

impl StateTransitionRequest {
    pub fn new(requesting_board: Board, to_state: u8) -> (r: Self)
        ensures
            r == (StateTransitionRequest { requesting_board, to_state }),
    {
        StateTransitionRequest { requesting_board, to_state }
    }
}

/// A command to move to a new state, which all boards must obey.
/// `from_board` is needed for the CAN identifier.
#[derive(Debug, PartialEq, Eq, Clone, Copy, Structural)]
pub struct StateTransitionCommand {
    pub from_board: Board,
    pub to_state: u8,
}

impl StateTransitionCommand {
    pub fn new(from_board: Board, to_state: u8) -> (r: Self)
        ensures
            r == (StateTransitionCommand { from_board, to_state }),
    {
        StateTransitionCommand { from_board, to_state }
    }
}

} // verus!
