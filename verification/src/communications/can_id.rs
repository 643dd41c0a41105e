use vstd::prelude::*;
use vstd::std_specs::convert::FromSpecImpl;
use crate::communications::boards::Board;
use crate::communications::data::CanDataType;
use crate::communications::identifier::MessageIdentifier;

verus! {

/// The fields of a 29-bit extended CAN identifier.
///
/// Layout, from the top: priority (1 bit, bit 28) | message data type (8 bits,
/// bits 20 to 27) | message identifier (12 bits, bits 8 to 19) | board (8 bits,
/// bits 0 to 7).
#[derive(Debug, PartialEq, Eq, Clone, Copy, Structural)]
pub struct CanId {
    pub priority: bool,
    pub board: Board,
    pub message_data_type: CanDataType,
    pub message_identifier: MessageIdentifier,
}

/// The 29-bit identifier with the given field values.
pub open spec fn pack_can_id(priority: u32, data_type: u32, identifier: u32, board: u32) -> u32 {
    (priority << 28u32) | (data_type << 20u32) | (identifier << 8u32) | board
}

/// The priority bit of an identifier.
pub open spec fn priority_field(id: u32) -> u32 {
    (id >> 28u32) & 0x1
}

/// The data type field of an identifier.
pub open spec fn data_type_field(id: u32) -> u32 {
    (id >> 20u32) & 0xFF
}

/// The message identifier field of an identifier.
pub open spec fn identifier_field(id: u32) -> u32 {
    (id >> 8u32) & 0xFFF
}

/// The board field of an identifier.
pub open spec fn board_field(id: u32) -> u32 {
    id & 0xFF
}

/// Packing fields that fit their widths and reading them back gives the fields.
pub proof fn lemma_pack_can_id_fields(p: u32, t: u32, i: u32, b: u32)
    requires
        p <= 1,
        t < 0x100,
        i < 0x1000,
        b < 0x100,
    ensures
        priority_field(pack_can_id(p, t, i, b)) == p,
        data_type_field(pack_can_id(p, t, i, b)) == t,
        identifier_field(pack_can_id(p, t, i, b)) == i,
        board_field(pack_can_id(p, t, i, b)) == b,
        pack_can_id(p, t, i, b) < 0x2000_0000,
{
    let v = pack_can_id(p, t, i, b);
    assert(((v >> 28u32) & 0x1) == p && ((v >> 20u32) & 0xFF) == t && ((v >> 8u32) & 0xFFF) == i
        && (v & 0xFF) == b && v < 0x2000_0000) by (bit_vector)
        requires
            v == (p << 28u32) | (t << 20u32) | (i << 8u32) | b,
            p <= 1,
            t < 0x100,
            i < 0x1000,
            b < 0x100,
    ;
}

/// The 29-bit layout as arithmetic: the priority bit is worth 2^28, the data
/// type 2^20, the message identifier 2^8 and the board 1.
pub proof fn lemma_pack_can_id_value(p: u32, t: u32, i: u32, b: u32)
    requires
        p <= 1,
        t < 0x100,
        i < 0x1000,
        b < 0x100,
    ensures
        pack_can_id(p, t, i, b) == p * 0x1000_0000 + t * 0x10_0000 + i * 0x100 + b,
{
    let v = pack_can_id(p, t, i, b);
    assert(v == p * 0x1000_0000 + t * 0x10_0000 + i * 0x100 + b) by (bit_vector)
        requires
            v == (p << 28u32) | (t << 20u32) | (i << 8u32) | b,
            p <= 1,
            t < 0x100,
            i < 0x1000,
            b < 0x100,
    ;
}

impl CanId {
    /// The 29-bit value of the identifier.
    pub open spec fn to_u32_spec(self) -> u32 {
        pack_can_id(
            if self.priority { 1 } else { 0 },
            self.message_data_type.index_spec() as u32,
            self.message_identifier.code_spec() as u32,
            self.board.index_spec() as u32,
        )
    }

    /// Whether every field of a 29-bit value names a value of its kind.
    pub open spec fn decodable_spec(id: u32) -> bool {
        &&& Board::from_index_spec(board_field(id) as u8) is Some
        &&& CanDataType::from_index_spec(data_type_field(id) as u8) is Some
        &&& MessageIdentifier::from_code_spec(identifier_field(id) as u16) is Some
    }

    /// The identifier that a decodable 29-bit value stands for.
    pub open spec fn from_u32_spec(id: u32) -> CanId {
        CanId {
            priority: priority_field(id) == 1,
            board: Board::from_index_spec(board_field(id) as u8).unwrap(),
            message_data_type: CanDataType::from_index_spec(data_type_field(id) as u8).unwrap(),
            message_identifier: MessageIdentifier::from_code_spec(
                identifier_field(id) as u16,
            ).unwrap(),
        }
    }

    /// Creates a new `CanId` with the given parameters. Defaults to standard priority.
    pub fn new(board: Board, message_type: CanDataType, message_identifier: MessageIdentifier) -> (r:
        Self)
        ensures
            r == (CanId {
                priority: false,
                board,
                message_data_type: message_type,
                message_identifier,
            }),
    {
        CanId { priority: false, board, message_data_type: message_type, message_identifier }
    }

    /// Creates a new `CanId` with the given parameters. Sets the priority to high.
    pub fn new_high_priority(
        board: Board,
        message_type: CanDataType,
        message_identifier: MessageIdentifier,
    ) -> (r: Self)
        ensures
            r == (CanId {
                priority: true,
                board,
                message_data_type: message_type,
                message_identifier,
            }),
    {
        CanId { priority: true, board, message_data_type: message_type, message_identifier }
    }

    /// The 29-bit value of the identifier.
    pub fn to_u32(&self) -> (r: u32)
        ensures
            r == self.to_u32_spec(),
            r < 0x2000_0000,
    {
        let priority: u32 = if self.priority {
            1
        } else {
            0
        };
        let board: u32 = u8::from(self.board) as u32;
        let message_type: u32 = u8::from(self.message_data_type) as u32;
        let message_identifier: u32 = self.message_identifier.code() as u32;
        proof {
            crate::communications::identifier::lemma_identifier_code_roundtrip(
                self.message_identifier,
                0,
            );
            lemma_pack_can_id_fields(priority, message_type, message_identifier, board);
        }
        (priority << 28) | (message_type << 20) | (message_identifier << 8) | board
    }

    /// The identifier that a 29-bit value stands for; every field must name a
    /// value of its kind.
    pub fn from_u32(id: u32) -> (r: CanId)
        requires
            CanId::decodable_spec(id),
        ensures
            r == CanId::from_u32_spec(id),
    {
        let priority = (id >> 28) & 0x1 == 1;
        let board = match Board::try_from((id & 0xFF) as u8) {
            Ok(b) => b,
            Err(_) => Board::Test,
        };
        let message_type = match CanDataType::try_from(((id >> 20) & 0xFF) as u8) {
            Ok(t) => t,
            Err(_) => CanDataType::Bool,
        };
        let message_identifier = MessageIdentifier::from_code(((id >> 8) & 0xFFF) as u16);
        CanId { priority, board, message_data_type: message_type, message_identifier }
    }
}

impl From<CanId> for u32 {
    fn from(can_id: CanId) -> (r: u32) {
        can_id.to_u32()
    }
}

impl FromSpecImpl<CanId> for u32 {
    open spec fn obeys_from_spec() -> bool {
        true
    }

    open spec fn from_spec(v: CanId) -> u32 {
        v.to_u32_spec()
    }
}

/// Decoding the 29-bit value of an identifier gives the identifier back.
pub proof fn lemma_can_id_roundtrip(can_id: CanId)
    ensures
        CanId::decodable_spec(can_id.to_u32_spec()),
        CanId::from_u32_spec(can_id.to_u32_spec()) == can_id,
        can_id.to_u32_spec() < 0x2000_0000,
{
    crate::communications::identifier::lemma_identifier_code_roundtrip(
        can_id.message_identifier,
        0,
    );
    crate::communications::boards::lemma_board_index_roundtrip(can_id.board);
    crate::communications::data::lemma_can_data_type_index_roundtrip(
        can_id.message_data_type,
        0,
    );
    lemma_pack_can_id_fields(
        if can_id.priority { 1 } else { 0 },
        can_id.message_data_type.index_spec() as u32,
        can_id.message_identifier.code_spec() as u32,
        can_id.board.index_spec() as u32,
    );
}

/// The value of an identifier: 2^28 when it has priority, plus its data
/// type's index times 2^20, its message code times 2^8 and its board's index.
pub proof fn lemma_can_id_value(can_id: CanId)
    ensures
        can_id.to_u32_spec() == (if can_id.priority { 0x1000_0000int } else { 0int })
            + can_id.message_data_type.index_spec() * 0x10_0000 + can_id.message_identifier.code_spec()
            * 0x100 + can_id.board.index_spec(),
{
    lemma_can_id_roundtrip(can_id);
    crate::communications::identifier::lemma_identifier_code_roundtrip(
        can_id.message_identifier,
        0,
    );
    crate::communications::boards::lemma_board_index_roundtrip(can_id.board);
    crate::communications::data::lemma_can_data_type_index_roundtrip(
        can_id.message_data_type,
        0,
    );
    lemma_pack_can_id_value(
        if can_id.priority { 1 } else { 0 },
        can_id.message_data_type.index_spec() as u32,
        can_id.message_identifier.code_spec() as u32,
        can_id.board.index_spec() as u32,
    );
}

} // verus!
