use vstd::prelude::*;
use vstd::std_specs::convert::FromSpecImpl;

verus! {

/// The boards on the bus, numbered in declaration order.
#[derive(Debug, Clone, Copy, PartialEq, Eq, Structural)]
pub enum Board {
    Telemetry,
    Navigation,
    Pneumatics,
    Test,
}

impl Board {
    /// Wire index of a board.
    pub open spec fn index_spec(self) -> u8 {
        match self {
            Board::Telemetry => 0,
            Board::Navigation => 1,
            Board::Pneumatics => 2,
            Board::Test => 3,
        }
    }

    /// The board with a given wire index, if any.
    pub open spec fn from_index_spec(index: u8) -> Option<Board> {
        if index == 0 {
            Some(Board::Telemetry)
        } else if index == 1 {
            Some(Board::Navigation)
        } else if index == 2 {
            Some(Board::Pneumatics)
        } else if index == 3 {
            Some(Board::Test)
        } else {
            None
        }
    }

    /// The board with the given wire index; the index must be below 4.
    pub fn from_index(index: u8) -> (r: Board)
        requires
            index < 4,
        ensures
            Some(r) == Board::from_index_spec(index),
    {
        match index {
            0 => Board::Telemetry,
            1 => Board::Navigation,
            2 => Board::Pneumatics,
            _ => Board::Test,
        }
    }
}

impl From<Board> for u8 {
    fn from(board: Board) -> (r: u8) {
        match board {
            Board::Telemetry => 0,
            Board::Navigation => 1,
            Board::Pneumatics => 2,
            Board::Test => 3,
        }
    }
}

impl FromSpecImpl<Board> for u8 {
    open spec fn obeys_from_spec() -> bool {
        true
    }

    open spec fn from_spec(v: Board) -> u8 {
        v.index_spec()
    }
}

/// Decoding a board's index gives the board back; the indices that decode are 0 to 3.
pub proof fn lemma_board_index_roundtrip(board: Board, index: u8)
    ensures
        Board::from_index_spec(board.index_spec()) == Some(board),
        board.index_spec() < 4,
        Board::from_index_spec(index) is Some <==> index < 4,
        Board::from_index_spec(index) matches Some(b) ==> b.index_spec() == index,
{
}

/// The boards are numbered in declaration order: telemetry 0, navigation 1,
/// pneumatics 2, test 3.
pub proof fn lemma_board_indices()
    ensures
        Board::Telemetry.index_spec() == 0,
        Board::Navigation.index_spec() == 1,
        Board::Pneumatics.index_spec() == 2,
        Board::Test.index_spec() == 3,
{
}

} // verus!
