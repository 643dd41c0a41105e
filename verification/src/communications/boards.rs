use vstd::prelude::*;
use vstd::std_specs::convert::FromSpecImpl;
use vstd::std_specs::convert::TryFromSpecImpl;

verus! {

/// The boards that take part in CAN communication, numbered in declaration order.
#[derive(Debug, Clone, Copy, PartialEq, Eq, Structural)]
pub enum Board {
    Telemetry,
    Navigation,
    Pneumatics,
    Test,
    TemperatureTester,
    KeyenceTester,
    StateMachineTester,
    Mqtt,
}

/// Number of boards; every index below it names a board.
pub const BOARD_COUNT: u8 = 8;

impl Board {
    /// The wire index of a board.
    pub open spec fn index_spec(self) -> u8 {
        match self {
            Board::Telemetry => 0,
            Board::Navigation => 1,
            Board::Pneumatics => 2,
            Board::Test => 3,
            Board::TemperatureTester => 4,
            Board::KeyenceTester => 5,
            Board::StateMachineTester => 6,
            Board::Mqtt => 7,
        }
    }

    /// The board with a given wire index, if any.
    pub open spec fn from_index_spec(index: u8) -> Option<Board> {
        if index == 0 {
            Some(Board::Telemetry)
        } else if index == 1 {
            Some(Board::Navigation)
        } else if index == 2 {
            Some(Board::Pneumatics)
        } else if index == 3 {
            Some(Board::Test)
        } else if index == 4 {
            Some(Board::TemperatureTester)
        } else if index == 5 {
            Some(Board::KeyenceTester)
        } else if index == 6 {
            Some(Board::StateMachineTester)
        } else if index == 7 {
            Some(Board::Mqtt)
        } else {
            None
        }
    }
}

impl From<Board> for u8 {
    fn from(board: Board) -> (r: u8) {
        match board {
            Board::Telemetry => 0,
            Board::Navigation => 1,
            Board::Pneumatics => 2,
            Board::Test => 3,
            Board::TemperatureTester => 4,
            Board::KeyenceTester => 5,
            Board::StateMachineTester => 6,
            Board::Mqtt => 7,
        }
    }
}

impl FromSpecImpl<Board> for u8 {
    open spec fn obeys_from_spec() -> bool {
        true
    }

    open spec fn from_spec(v: Board) -> u8 {
        v.index_spec()
    }
}

impl TryFrom<u8> for Board {
    type Error = &'static str;

    fn try_from(index: u8) -> (r: Result<Board, &'static str>) {
        match index {
            0 => Ok(Board::Telemetry),
            1 => Ok(Board::Navigation),
            2 => Ok(Board::Pneumatics),
            3 => Ok(Board::Test),
            4 => Ok(Board::TemperatureTester),
            5 => Ok(Board::KeyenceTester),
            6 => Ok(Board::StateMachineTester),
            7 => Ok(Board::Mqtt),
            _ => Err("Invalid Board index"),
        }
    }
}

impl TryFromSpecImpl<u8> for Board {
    open spec fn obeys_try_from_spec() -> bool {
        true
    }

    open spec fn try_from_spec(v: u8) -> Result<Board, &'static str> {
        match Board::from_index_spec(v) {
            Some(b) => Ok(b),
            None => Err("Invalid Board index"),
        }
    }
}

/// Decoding the index of a board gives the board back.
pub proof fn lemma_board_index_roundtrip(board: Board)
    ensures
        Board::from_index_spec(board.index_spec()) == Some(board),
        board.index_spec() < BOARD_COUNT,
{
}

/// An index decodes to a board exactly when it is below the board count, and
/// the board it decodes to has that index.
pub proof fn lemma_board_from_index(index: u8)
    ensures
        Board::from_index_spec(index) is Some <==> index < BOARD_COUNT,
        Board::from_index_spec(index) matches Some(b) ==> b.index_spec() == index,
{
}

/// The boards are numbered in declaration order, from 0 for telemetry to 7
/// for MQTT.
pub proof fn lemma_board_indices()
    ensures
        Board::Telemetry.index_spec() == 0,
        Board::Navigation.index_spec() == 1,
        Board::Pneumatics.index_spec() == 2,
        Board::Test.index_spec() == 3,
        Board::TemperatureTester.index_spec() == 4,
        Board::KeyenceTester.index_spec() == 5,
        Board::StateMachineTester.index_spec() == 6,
        Board::Mqtt.index_spec() == 7,
        Board::from_index_spec(0) == Some(Board::Telemetry),
        Board::from_index_spec(3) == Some(Board::Test),
        Board::from_index_spec(5) == Some(Board::KeyenceTester),
        Board::from_index_spec(7) == Some(Board::Mqtt),
{
}

} // verus!
