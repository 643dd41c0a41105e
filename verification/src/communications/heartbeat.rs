use vstd::prelude::*;
use crate::communications::boards::Board;

verus! {

/// A heartbeat sent by one board to another.
#[derive(Debug, Clone, Copy, PartialEq, Eq, Structural)]
pub struct Heartbeat {
    pub to: Board,
    pub from: Board,
}

impl Heartbeat {
    pub fn new(to: Board, from: Board) -> (r: Self)
        ensures
            r == (Heartbeat { to, from }),
    {
        Heartbeat { to, from }
    }
}

} // verus!
