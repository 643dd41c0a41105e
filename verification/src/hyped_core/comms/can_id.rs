use vstd::prelude::*;
use vstd::std_specs::convert::FromSpecImpl;
use crate::hyped_core::comms::boards::Board;
use crate::hyped_core::comms::data::CanDataType;
use crate::hyped_core::comms::messages::MessageIdentifier;

verus! {

/// The fields of a 32-bit CAN identifier.
///
/// Layout, from the top: board (8 bits, bits 24 to 31) | data type (8 bits,
/// bits 16 to 23) | message identifier (16 bits, bits 0 to 15).
#[derive(Debug, PartialEq, Eq, Clone, Copy, Structural)]
pub struct CanId {
    pub board: Board,
    pub message_type: CanDataType,
    pub message_identifier: MessageIdentifier,
}

/// The 32-bit identifier with the given field values.
pub open spec fn pack_can_id(board: u32, data_type: u32, identifier: u32) -> u32 {
    (board << 24u32) | (data_type << 16u32) | identifier
}

/// Packing fields that fit their widths and reading them back gives the fields.
pub proof fn lemma_pack_can_id_fields(b: u32, t: u32, i: u32)
    requires
        b < 0x100,
        t < 0x100,
        i < 0x10000,
    ensures
        (pack_can_id(b, t, i) >> 24u32) & 0xFF == b,
        (pack_can_id(b, t, i) >> 16u32) & 0xFF == t,
        pack_can_id(b, t, i) & 0xFFFF == i,
{
    let v = pack_can_id(b, t, i);
    assert(((v >> 24u32) & 0xFF) == b && ((v >> 16u32) & 0xFF) == t && (v & 0xFFFF) == i)
        by (bit_vector)
        requires
            v == (b << 24u32) | (t << 16u32) | i,
            b < 0x100,
            t < 0x100,
            i < 0x10000,
    ;
}

impl CanId {
    /// The 32-bit value of an identifier.
    pub open spec fn to_u32_spec(self) -> u32 {
        pack_can_id(
            self.board.index_spec() as u32,
            self.message_type.index_spec() as u32,
            self.message_identifier.code_spec() as u32,
        )
    }

    /// Whether every field of a 32-bit value names a value of its kind.
    pub open spec fn decodable_spec(id: u32) -> bool {
        &&& Board::from_index_spec(((id >> 24u32) & 0xFF) as u8) is Some
        &&& CanDataType::from_index_spec(((id >> 16u32) & 0xFF) as u8) is Some
        &&& MessageIdentifier::from_code_spec((id & 0xFFFF) as u16) is Some
    }

    /// The identifier that a decodable 32-bit value stands for.
    pub open spec fn from_u32_spec(id: u32) -> CanId {
        CanId {
            board: Board::from_index_spec(((id >> 24u32) & 0xFF) as u8).unwrap(),
            message_type: CanDataType::from_index_spec(((id >> 16u32) & 0xFF) as u8).unwrap(),
            message_identifier: MessageIdentifier::from_code_spec((id & 0xFFFF) as u16).unwrap(),
        }
    }

    pub fn new(board: Board, message_type: CanDataType, message_identifier: MessageIdentifier) -> (r:
        Self)
        ensures
            r == (CanId { board, message_type, message_identifier }),
    {
        CanId { board, message_type, message_identifier }
    }

    /// The 32-bit value of the identifier.
    pub fn to_u32(&self) -> (r: u32)
        ensures
            r == self.to_u32_spec(),
    {
        let board: u8 = u8::from(self.board);
        let message_type: u8 = u8::from(self.message_type);
        let message_identifier: u16 = u16::from(self.message_identifier);
        ((board as u32) << 24) | ((message_type as u32) << 16) | (message_identifier as u32)
    }

    /// The identifier that a 32-bit value stands for; every field must name a
    /// value of its kind.
    pub fn from_u32(id: u32) -> (r: CanId)
        requires
            CanId::decodable_spec(id),
        ensures
            r == CanId::from_u32_spec(id),
    {
        let board = Board::from_index(((id >> 24) & 0xFF) as u8);
        let message_type = CanDataType::from_index(((id >> 16) & 0xFF) as u8);
        let message_identifier = MessageIdentifier::from_code((id & 0xFFFF) as u16);
        CanId { board, message_type, message_identifier }
    }
}

impl From<CanId> for u32 {
    fn from(can_id: CanId) -> (r: u32) {
        can_id.to_u32()
    }
}

impl FromSpecImpl<CanId> for u32 {
    open spec fn obeys_from_spec() -> bool {
        true
    }

    open spec fn from_spec(v: CanId) -> u32 {
        v.to_u32_spec()
    }
}

/// Decoding the 32-bit value of an identifier gives the identifier back.
pub proof fn lemma_can_id_roundtrip(can_id: CanId)
    ensures
        CanId::decodable_spec(can_id.to_u32_spec()),
        CanId::from_u32_spec(can_id.to_u32_spec()) == can_id,
{
    crate::hyped_core::comms::boards::lemma_board_index_roundtrip(can_id.board, 0);
    crate::hyped_core::comms::data::lemma_can_data_type_index_roundtrip(can_id.message_type, 0);
    crate::hyped_core::comms::messages::lemma_message_identifier_roundtrip(
        can_id.message_identifier,
        0,
    );
    lemma_pack_can_id_fields(
        can_id.board.index_spec() as u32,
        can_id.message_type.index_spec() as u32,
        can_id.message_identifier.code_spec() as u32,
    );
}

/// The value of an identifier: its board's index times 2^24, plus its data
/// type's index times 2^16, plus its message code.
pub proof fn lemma_can_id_value(can_id: CanId)
    ensures
        can_id.to_u32_spec() == can_id.board.index_spec() * 0x100_0000
            + can_id.message_type.index_spec() * 0x1_0000 + can_id.message_identifier.code_spec(),
{
    lemma_can_id_roundtrip(can_id);
    let b = can_id.board.index_spec() as u32;
    let t = can_id.message_type.index_spec() as u32;
    let i = can_id.message_identifier.code_spec() as u32;
    crate::hyped_core::comms::boards::lemma_board_index_roundtrip(can_id.board, 0);
    crate::hyped_core::comms::data::lemma_can_data_type_index_roundtrip(can_id.message_type, 0);
    crate::hyped_core::comms::measurements::lemma_measurement_index_roundtrip(
        can_id.message_identifier->Measurement_0,
        0,
    );
    assert(pack_can_id(b, t, i) == b * 0x100_0000 + t * 0x1_0000 + i) by (bit_vector)
        requires
            b < 0x100,
            t < 0x100,
            i < 0x10000,
    ;
}

} // verus!
