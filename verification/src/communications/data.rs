use vstd::prelude::*;
use vstd::std_specs::convert::FromSpecImpl;
use vstd::std_specs::convert::TryFromSpecImpl;
use crate::bytes::{
    lemma_u16_le_value, lemma_u32_le_value,
    lemma_u16_le_roundtrip, lemma_u32_le_roundtrip, u16_byte0, u16_byte1, u16_from_le, u16_of_le,
    u16_to_le, u32_byte, u32_from_le, u32_of_le, u32_to_le,
};
use crate::communications::boards::Board;
use crate::communications::emergency::Reason;

verus! {

/// The payload of a CAN message. A 32-bit float reading is carried by its
/// IEEE-754 bit pattern, which is exactly what travels on the bus.
#[derive(Debug, Clone, Copy, PartialEq, Eq)]
pub enum CanData {
    Bool(bool),
    TwoU16([u16; 2]),
    F32(u32),
    State(u8),
    U32(u32),
    Heartbeat(Board),
    Emergency(Reason),
}

/// The data type of a CAN message's payload, numbered in declaration order.
#[derive(Debug, Clone, Copy, PartialEq, Eq, Structural)]
pub enum CanDataType {
    Bool,
    TwoU16,
    F32,
    State,
    U32,
    Heartbeat,
    Emergency,
}

/// Number of data types; every index below it names a data type.
pub const CAN_DATA_TYPE_COUNT: u8 = 7;

impl CanDataType {
    /// Wire index of a data type.
    pub open spec fn index_spec(self) -> u8 {
        match self {
            CanDataType::Bool => 0,
            CanDataType::TwoU16 => 1,
            CanDataType::F32 => 2,
            CanDataType::State => 3,
            CanDataType::U32 => 4,
            CanDataType::Heartbeat => 5,
            CanDataType::Emergency => 6,
        }
    }

    /// The data type with a given wire index, if any.
    pub open spec fn from_index_spec(index: u8) -> Option<CanDataType> {
        if index == 0 {
            Some(CanDataType::Bool)
        } else if index == 1 {
            Some(CanDataType::TwoU16)
        } else if index == 2 {
            Some(CanDataType::F32)
        } else if index == 3 {
            Some(CanDataType::State)
        } else if index == 4 {
            Some(CanDataType::U32)
        } else if index == 5 {
            Some(CanDataType::Heartbeat)
        } else if index == 6 {
            Some(CanDataType::Emergency)
        } else {
            None
        }
    }

    /// The zero-valued payload of a data type.
    pub open spec fn default_data_spec(self) -> CanData {
        match self {
            CanDataType::Bool => CanData::Bool(false),
            CanDataType::TwoU16 => CanData::TwoU16([0, 0]),
            CanDataType::F32 => CanData::F32(0),
            CanDataType::State => CanData::State(0),
            CanDataType::U32 => CanData::U32(0),
            CanDataType::Heartbeat => CanData::Heartbeat(Board::Test),
            CanDataType::Emergency => CanData::Emergency(Reason::Unknown),
        }
    }
}

impl CanData {
    /// Index of the payload's variant, which is the first byte of its encoding.
    pub open spec fn type_index_spec(self) -> u8 {
        match self {
            CanData::Bool(_) => 0,
            CanData::TwoU16(_) => 1,
            CanData::F32(_) => 2,
            CanData::State(_) => 3,
            CanData::U32(_) => 4,
            CanData::Heartbeat(_) => 5,
            CanData::Emergency(_) => 6,
        }
    }

    /// The data type of a payload: the one with the same name.
    pub open spec fn data_type_spec(self) -> CanDataType {
        match self {
            CanData::Bool(_) => CanDataType::Bool,
            CanData::TwoU16(_) => CanDataType::TwoU16,
            CanData::F32(_) => CanDataType::F32,
            CanData::State(_) => CanDataType::State,
            CanData::U32(_) => CanDataType::U32,
            CanData::Heartbeat(_) => CanDataType::Heartbeat,
            CanData::Emergency(_) => CanDataType::Emergency,
        }
    }

    /// The eight payload bytes: the variant index, then the value in
    /// little-endian order, then zeros.
    pub open spec fn encode_spec(self) -> Seq<u8> {
        match self {
            CanData::Bool(b) => seq![0u8, if b { 1u8 } else { 0u8 }, 0u8, 0u8, 0u8, 0u8, 0u8, 0u8],
            CanData::TwoU16(v) => seq![
                1u8,
                u16_byte0(v[0]),
                u16_byte1(v[0]),
                u16_byte0(v[1]),
                u16_byte1(v[1]),
                0u8,
                0u8,
                0u8,
            ],
            CanData::F32(bits) => seq![
                2u8,
                u32_byte(bits, 0),
                u32_byte(bits, 1),
                u32_byte(bits, 2),
                u32_byte(bits, 3),
                0u8,
                0u8,
                0u8,
            ],
            CanData::State(s) => seq![3u8, s, 0u8, 0u8, 0u8, 0u8, 0u8, 0u8],
            CanData::U32(u) => seq![
                4u8,
                u32_byte(u, 0),
                u32_byte(u, 1),
                u32_byte(u, 2),
                u32_byte(u, 3),
                0u8,
                0u8,
                0u8,
            ],
            CanData::Heartbeat(board) => seq![5u8, board.index_spec(), 0u8, 0u8, 0u8, 0u8, 0u8, 0u8],
            CanData::Emergency(reason) => seq![6u8, reason.code_spec(), 0u8, 0u8, 0u8, 0u8, 0u8, 0u8],
        }
    }

    /// Whether eight payload bytes can be decoded: the first byte names a
    /// variant, and a board or reason value is valid.
    pub open spec fn decodable_spec(data: Seq<u8>) -> bool {
        &&& data.len() == 8
        &&& data[0] < CAN_DATA_TYPE_COUNT
        &&& data[0] == 5 ==> Board::from_index_spec(data[1]) is Some
        &&& data[0] == 6 ==> Reason::from_code_spec(data[1]) is Some
    }

    /// The payload that eight decodable bytes stand for.
    pub open spec fn decode_spec(data: Seq<u8>) -> CanData {
        if data[0] == 0 {
            CanData::Bool(data[1] != 0)
        } else if data[0] == 1 {
            CanData::TwoU16([u16_from_le(data[1], data[2]), u16_from_le(data[3], data[4])])
        } else if data[0] == 2 {
            CanData::F32(u32_from_le(data[1], data[2], data[3], data[4]))
        } else if data[0] == 3 {
            CanData::State(data[1])
        } else if data[0] == 4 {
            CanData::U32(u32_from_le(data[1], data[2], data[3], data[4]))
        } else if data[0] == 5 {
            CanData::Heartbeat(Board::from_index_spec(data[1]).unwrap())
        } else {
            CanData::Emergency(Reason::from_code_spec(data[1]).unwrap())
        }
    }

    /// Index of the payload's variant.
    pub fn type_index(&self) -> (r: u8)
        ensures
            r == self.type_index_spec(),
    {
        match self {
            CanData::Bool(_) => 0,
            CanData::TwoU16(_) => 1,
            CanData::F32(_) => 2,
            CanData::State(_) => 3,
            CanData::U32(_) => 4,
            CanData::Heartbeat(_) => 5,
            CanData::Emergency(_) => 6,
        }
    }

    /// The zero-valued payload of the variant with the given index; the index
    /// must name a variant.
    pub fn from_type_index(index: u8) -> (r: CanData)
        requires
            index < CAN_DATA_TYPE_COUNT,
        ensures
            r == CanDataType::from_index_spec(index).unwrap().default_data_spec(),
            r.type_index_spec() == index,
    {
        match index {
            0 => CanData::Bool(false),
            1 => CanData::TwoU16([0, 0]),
            2 => CanData::F32(0),
            3 => CanData::State(0),
            4 => CanData::U32(0),
            5 => CanData::Heartbeat(Board::Test),
            _ => CanData::Emergency(Reason::Unknown),
        }
    }

    /// The eight payload bytes of the payload.
    pub fn to_bytes(&self) -> (r: [u8; 8])
        ensures
            r@ == self.encode_spec(),
    {
        let r: [u8; 8] = match *self {
            CanData::Bool(b) => [0, if b { 1 } else { 0 }, 0, 0, 0, 0, 0, 0],
            CanData::TwoU16(v) => {
                let (a0, a1) = u16_to_le(v[0]);
                let (b0, b1) = u16_to_le(v[1]);
                [1, a0, a1, b0, b1, 0, 0, 0]
            },
            CanData::F32(bits) => {
                let (b0, b1, b2, b3) = u32_to_le(bits);
                [2, b0, b1, b2, b3, 0, 0, 0]
            },
            CanData::State(s) => [3, s, 0, 0, 0, 0, 0, 0],
            CanData::U32(u) => {
                let (b0, b1, b2, b3) = u32_to_le(u);
                [4, b0, b1, b2, b3, 0, 0, 0]
            },
            CanData::Heartbeat(board) => [5, u8::from(board), 0, 0, 0, 0, 0, 0],
            CanData::Emergency(reason) => [6, reason.code(), 0, 0, 0, 0, 0, 0],
        };
        assert(r@ =~= self.encode_spec());
        r
    }

    /// The payload that eight bytes stand for; the bytes must be decodable.
    pub fn from_bytes(data: [u8; 8]) -> (r: CanData)
        requires
            CanData::decodable_spec(data@),
        ensures
            r == CanData::decode_spec(data@),
    {
        let t = data[0];
        if t == 0 {
            CanData::Bool(data[1] != 0)
        } else if t == 1 {
            CanData::TwoU16([u16_of_le(data[1], data[2]), u16_of_le(data[3], data[4])])
        } else if t == 2 {
            CanData::F32(u32_of_le(data[1], data[2], data[3], data[4]))
        } else if t == 3 {
            CanData::State(data[1])
        } else if t == 4 {
            CanData::U32(u32_of_le(data[1], data[2], data[3], data[4]))
        } else if t == 5 {
            match Board::try_from(data[1]) {
                Ok(board) => CanData::Heartbeat(board),
                Err(_) => CanData::Heartbeat(Board::Test),
            }
        } else {
            match Reason::try_from(data[1]) {
                Ok(reason) => CanData::Emergency(reason),
                Err(_) => CanData::Emergency(Reason::Unknown),
            }
        }
    }

    /// The data type of the payload.
    pub fn data_type(&self) -> (r: CanDataType)
        ensures
            r == self.data_type_spec(),
    {
        match self {
            CanData::Bool(_) => CanDataType::Bool,
            CanData::TwoU16(_) => CanDataType::TwoU16,
            CanData::F32(_) => CanDataType::F32,
            CanData::State(_) => CanDataType::State,
            CanData::U32(_) => CanDataType::U32,
            CanData::Heartbeat(_) => CanDataType::Heartbeat,
            CanData::Emergency(_) => CanDataType::Emergency,
        }
    }
}

impl From<CanData> for u8 {
    fn from(data: CanData) -> (r: u8) {
        data.type_index()
    }
}

impl FromSpecImpl<CanData> for u8 {
    open spec fn obeys_from_spec() -> bool {
        true
    }

    open spec fn from_spec(v: CanData) -> u8 {
        v.type_index_spec()
    }
}

impl From<CanData> for CanDataType {
    fn from(data: CanData) -> (r: CanDataType) {
        data.data_type()
    }
}

impl FromSpecImpl<CanData> for CanDataType {
    open spec fn obeys_from_spec() -> bool {
        true
    }

    open spec fn from_spec(v: CanData) -> CanDataType {
        v.data_type_spec()
    }
}

impl From<CanDataType> for CanData {
    fn from(data_type: CanDataType) -> (r: CanData) {
        match data_type {
            CanDataType::Bool => CanData::Bool(false),
            CanDataType::TwoU16 => CanData::TwoU16([0, 0]),
            CanDataType::F32 => CanData::F32(0),
            CanDataType::State => CanData::State(0),
            CanDataType::U32 => CanData::U32(0),
            CanDataType::Heartbeat => CanData::Heartbeat(Board::Test),
            CanDataType::Emergency => CanData::Emergency(Reason::Unknown),
        }
    }
}

impl FromSpecImpl<CanDataType> for CanData {
    open spec fn obeys_from_spec() -> bool {
        true
    }

    open spec fn from_spec(v: CanDataType) -> CanData {
        v.default_data_spec()
    }
}

impl From<CanDataType> for u8 {
    fn from(data_type: CanDataType) -> (r: u8) {
        match data_type {
            CanDataType::Bool => 0,
            CanDataType::TwoU16 => 1,
            CanDataType::F32 => 2,
            CanDataType::State => 3,
            CanDataType::U32 => 4,
            CanDataType::Heartbeat => 5,
            CanDataType::Emergency => 6,
        }
    }
}

impl FromSpecImpl<CanDataType> for u8 {
    open spec fn obeys_from_spec() -> bool {
        true
    }

    open spec fn from_spec(v: CanDataType) -> u8 {
        v.index_spec()
    }
}

impl TryFrom<u8> for CanDataType {
    type Error = &'static str;

    fn try_from(index: u8) -> (r: Result<CanDataType, &'static str>) {
        match index {
            0 => Ok(CanDataType::Bool),
            1 => Ok(CanDataType::TwoU16),
            2 => Ok(CanDataType::F32),
            3 => Ok(CanDataType::State),
            4 => Ok(CanDataType::U32),
            5 => Ok(CanDataType::Heartbeat),
            6 => Ok(CanDataType::Emergency),
            _ => Err("Invalid CanDataType index"),
        }
    }
}

impl TryFromSpecImpl<u8> for CanDataType {
    open spec fn obeys_try_from_spec() -> bool {
        true
    }

    open spec fn try_from_spec(v: u8) -> Result<CanDataType, &'static str> {
        match CanDataType::from_index_spec(v) {
            Some(t) => Ok(t),
            None => Err("Invalid CanDataType index"),
        }
    }
}

/// Every payload's encoding is decodable and decodes to the payload itself.
pub proof fn lemma_can_data_roundtrip(data: CanData)
    ensures
        CanData::decodable_spec(data.encode_spec()),
        CanData::decode_spec(data.encode_spec()) == data,
        data.encode_spec()[0] == data.type_index_spec(),
{
    match data {
        CanData::TwoU16(v) => {
            lemma_u16_le_roundtrip(v[0]);
            lemma_u16_le_roundtrip(v[1]);
            let d = CanData::decode_spec(data.encode_spec());
            assert(d->TwoU16_0 =~= v);
        },
        CanData::F32(bits) => {
            lemma_u32_le_roundtrip(bits);
        },
        CanData::U32(u) => {
            lemma_u32_le_roundtrip(u);
        },
        CanData::Heartbeat(board) => {
            crate::communications::boards::lemma_board_index_roundtrip(board);
        },
        CanData::Emergency(reason) => {
            crate::communications::emergency::lemma_reason_code_roundtrip(reason, 0);
        },
        _ => {},
    }
}

/// Decoding a data type's index gives it back; the indices that decode are those
/// below the count.
pub proof fn lemma_can_data_type_index_roundtrip(data_type: CanDataType, index: u8)
    ensures
        CanDataType::from_index_spec(data_type.index_spec()) == Some(data_type),
        CanDataType::from_index_spec(index) is Some <==> index < CAN_DATA_TYPE_COUNT,
        CanDataType::from_index_spec(index) matches Some(t) ==> t.index_spec() == index,
{
}

/// A payload's data type has the payload's own tag as its index, and the
/// zero payload of that type has the same tag.
pub proof fn lemma_data_type_matches_tag(data: CanData)
    ensures
        data.data_type_spec().index_spec() == data.type_index_spec(),
        data.data_type_spec().default_data_spec().type_index_spec() == data.type_index_spec(),
{
}

/// The payload bytes, value by value: the first byte is the variant's tag
/// (0 bool, 1 two u16s, 2 f32 bits, 3 state, 4 u32, 5 heartbeat, 6 emergency);
/// a bool is 1 for true and 0 for false; numbers follow least significant
/// byte first; a board or a reason follows as its code; the rest is zeros.
pub proof fn lemma_payload_bytes(data: CanData)
    ensures
        CanData::Bool(true).encode_spec() == seq![0u8, 1u8, 0u8, 0u8, 0u8, 0u8, 0u8, 0u8],
        CanData::Bool(false).encode_spec() == seq![0u8, 0u8, 0u8, 0u8, 0u8, 0u8, 0u8, 0u8],
        data.encode_spec().len() == 8,
        forall|k: int| 5 <= k < 8 ==> data.encode_spec()[k] == 0,
        data matches CanData::TwoU16(v) ==> data.encode_spec().take(5) == seq![
            1u8,
            (v[0] % 256) as u8,
            (v[0] / 256) as u8,
            (v[1] % 256) as u8,
            (v[1] / 256) as u8,
        ],
        data matches CanData::F32(bits) ==> data.encode_spec().take(5) == seq![
            2u8,
            (bits % 0x100) as u8,
            ((bits / 0x100) % 0x100) as u8,
            ((bits / 0x1_0000) % 0x100) as u8,
            (bits / 0x100_0000) as u8,
        ],
        data matches CanData::State(st) ==> data.encode_spec().take(5) == seq![
            3u8,
            st,
            0u8,
            0u8,
            0u8,
        ],
        data matches CanData::U32(u) ==> data.encode_spec().take(5) == seq![
            4u8,
            (u % 0x100) as u8,
            ((u / 0x100) % 0x100) as u8,
            ((u / 0x1_0000) % 0x100) as u8,
            (u / 0x100_0000) as u8,
        ],
        data matches CanData::Heartbeat(b) ==> data.encode_spec().take(5) == seq![
            5u8,
            b.index_spec(),
            0u8,
            0u8,
            0u8,
        ],
        data matches CanData::Emergency(r) ==> data.encode_spec().take(5) == seq![
            6u8,
            r.code_spec(),
            0u8,
            0u8,
            0u8,
        ],
{
    match data {
        CanData::TwoU16(v) => {
            lemma_u16_le_value(v[0], 0, 0);
            lemma_u16_le_value(v[1], 0, 0);
        },
        CanData::F32(bits) => {
            lemma_u32_le_value(bits, 0, 0, 0, 0);
        },
        CanData::U32(u) => {
            lemma_u32_le_value(u, 0, 0, 0, 0);
        },
        _ => {},
    }
}

/// Reading payload bytes, value by value: a bool is true exactly when its
/// byte is not zero, and numbers are read least significant byte first.
pub proof fn lemma_payload_read(data: Seq<u8>)
    requires
        CanData::decodable_spec(data),
    ensures
        data[0] == 0 ==> CanData::decode_spec(data) == CanData::Bool(data[1] != 0),
        data[0] == 1 ==> CanData::decode_spec(data) == CanData::TwoU16(
            [(data[1] + 256 * data[2]) as u16, (data[3] + 256 * data[4]) as u16],
        ),
        data[0] == 2 ==> CanData::decode_spec(data) == CanData::F32(
            (data[1] + 0x100 * data[2] + 0x1_0000 * data[3] + 0x100_0000 * data[4]) as u32,
        ),
        data[0] == 3 ==> CanData::decode_spec(data) == CanData::State(data[1]),
        data[0] == 4 ==> CanData::decode_spec(data) == CanData::U32(
            (data[1] + 0x100 * data[2] + 0x1_0000 * data[3] + 0x100_0000 * data[4]) as u32,
        ),
        data[0] == 5 ==> CanData::decode_spec(data) == CanData::Heartbeat(
            Board::from_index_spec(data[1]).unwrap(),
        ),
        data[0] == 6 ==> CanData::decode_spec(data) == CanData::Emergency(
            Reason::from_code_spec(data[1]).unwrap(),
        ),
{
    lemma_u16_le_value(0, data[1], data[2]);
    lemma_u16_le_value(0, data[3], data[4]);
    lemma_u32_le_value(0, data[1], data[2], data[3], data[4]);
    if data[0] == 1 {
        assert(CanData::decode_spec(data)->TwoU16_0 =~= [
            (data[1] + 256 * data[2]) as u16,
            (data[3] + 256 * data[4]) as u16,
        ]);
    }
}

/// The data types are numbered in declaration order: bool 0, two u16s 1,
/// f32 2, state 3, u32 4, heartbeat 5, emergency 6.
pub proof fn lemma_data_type_indices()
    ensures
        CanDataType::Bool.index_spec() == 0,
        CanDataType::TwoU16.index_spec() == 1,
        CanDataType::F32.index_spec() == 2,
        CanDataType::State.index_spec() == 3,
        CanDataType::U32.index_spec() == 4,
        CanDataType::Heartbeat.index_spec() == 5,
        CanDataType::Emergency.index_spec() == 6,
        CanData::U32(0).data_type_spec() == CanDataType::U32,
        CanData::F32(0).data_type_spec() == CanDataType::F32,
{
}

} // verus!
