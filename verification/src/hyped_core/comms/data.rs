use vstd::prelude::*;
use vstd::std_specs::convert::FromSpecImpl;
use crate::bytes::{
    lemma_u16_le_value, lemma_u32_le_value,
    lemma_u16_le_roundtrip, lemma_u32_le_roundtrip, u16_byte0, u16_byte1, u16_from_le, u16_of_le,
    u16_to_le, u32_byte, u32_from_le, u32_of_le, u32_to_le,
};

verus! {

/// The payload of a CAN message. A 32-bit float reading is carried by its
/// IEEE-754 bit pattern, which is exactly what travels on the bus.
#[derive(Debug, Clone, Copy, PartialEq, Eq)]
pub enum CanData {
    Bool(bool),
    TwoU16([u16; 2]),
    F32(u32),
    State(u8),
}

/// The data type of a payload, numbered in declaration order.
#[derive(Debug, Clone, Copy, PartialEq, Eq, Structural)]
pub enum CanDataType {
    Bool,
    TwoU16,
    F32,
    State,
}

impl CanDataType {
    /// Wire index of a data type.
    pub open spec fn index_spec(self) -> u8 {
        match self {
            CanDataType::Bool => 0,
            CanDataType::TwoU16 => 1,
            CanDataType::F32 => 2,
            CanDataType::State => 3,
        }
    }

    /// The data type with a given wire index, if any.
    pub open spec fn from_index_spec(index: u8) -> Option<CanDataType> {
        if index == 0 {
            Some(CanDataType::Bool)
        } else if index == 1 {
            Some(CanDataType::TwoU16)
        } else if index == 2 {
            Some(CanDataType::F32)
        } else if index == 3 {
            Some(CanDataType::State)
        } else {
            None
        }
    }

    /// The zero-valued payload of a data type.
    pub open spec fn default_data_spec(self) -> CanData {
        match self {
            CanDataType::Bool => CanData::Bool(false),
            CanDataType::TwoU16 => CanData::TwoU16([0, 0]),
            CanDataType::F32 => CanData::F32(0),
            CanDataType::State => CanData::State(0),
        }
    }

    /// The data type with the given wire index; the index must be below 4.
    pub fn from_index(index: u8) -> (r: CanDataType)
        requires
            index < 4,
        ensures
            Some(r) == CanDataType::from_index_spec(index),
    {
        match index {
            0 => CanDataType::Bool,
            1 => CanDataType::TwoU16,
            2 => CanDataType::F32,
            _ => CanDataType::State,
        }
    }
}

impl CanData {
    /// Index of a payload's variant, the first byte of its encoding.
    pub open spec fn type_index_spec(self) -> u8 {
        match self {
            CanData::Bool(_) => 0,
            CanData::TwoU16(_) => 1,
            CanData::F32(_) => 2,
            CanData::State(_) => 3,
        }
    }

    /// The data type of a payload.
    pub open spec fn data_type_spec(self) -> CanDataType {
        match self {
            CanData::Bool(_) => CanDataType::Bool,
            CanData::TwoU16(_) => CanDataType::TwoU16,
            CanData::F32(_) => CanDataType::F32,
            CanData::State(_) => CanDataType::State,
        }
    }

    /// The eight payload bytes: the variant index, then the value in
    /// little-endian order, then zeros.
    pub open spec fn encode_spec(self) -> Seq<u8> {
        match self {
            CanData::Bool(b) => seq![0u8, if b { 1u8 } else { 0u8 }, 0u8, 0u8, 0u8, 0u8, 0u8, 0u8],
            CanData::TwoU16(v) => seq![
                1u8,
                u16_byte0(v[0]),
                u16_byte1(v[0]),
                u16_byte0(v[1]),
                u16_byte1(v[1]),
                0u8,
                0u8,
                0u8,
            ],
            CanData::F32(bits) => seq![
                2u8,
                u32_byte(bits, 0),
                u32_byte(bits, 1),
                u32_byte(bits, 2),
                u32_byte(bits, 3),
                0u8,
                0u8,
                0u8,
            ],
            CanData::State(s) => seq![3u8, s, 0u8, 0u8, 0u8, 0u8, 0u8, 0u8],
        }
    }

    /// The payload that eight bytes whose first byte is below 4 stand for.
    pub open spec fn decode_spec(data: Seq<u8>) -> CanData {
        if data[0] == 0 {
            CanData::Bool(data[1] != 0)
        } else if data[0] == 1 {
            CanData::TwoU16([u16_from_le(data[1], data[2]), u16_from_le(data[3], data[4])])
        } else if data[0] == 2 {
            CanData::F32(u32_from_le(data[1], data[2], data[3], data[4]))
        } else {
            CanData::State(data[1])
        }
    }

    /// Index of the payload's variant.
    pub fn type_index(&self) -> (r: u8)
        ensures
            r == self.type_index_spec(),
    {
        match self {
            CanData::Bool(_) => 0,
            CanData::TwoU16(_) => 1,
            CanData::F32(_) => 2,
            CanData::State(_) => 3,
        }
    }

    /// The zero-valued payload of the variant with the given index; the index
    /// must be below 4.
    pub fn from_type_index(index: u8) -> (r: CanData)
        requires
            index < 4,
        ensures
            r == CanDataType::from_index_spec(index).unwrap().default_data_spec(),
    {
        match index {
            0 => CanData::Bool(false),
            1 => CanData::TwoU16([0, 0]),
            2 => CanData::F32(0),
            _ => CanData::State(0),
        }
    }

    /// The data type of the payload.
    pub fn data_type(&self) -> (r: CanDataType)
        ensures
            r == self.data_type_spec(),
    {
        match self {
            CanData::Bool(_) => CanDataType::Bool,
            CanData::TwoU16(_) => CanDataType::TwoU16,
            CanData::F32(_) => CanDataType::F32,
            CanData::State(_) => CanDataType::State,
        }
    }

    /// The eight payload bytes of the payload.
    pub fn to_bytes(&self) -> (r: [u8; 8])
        ensures
            r@ == self.encode_spec(),
    {
        let r: [u8; 8] = match *self {
            CanData::Bool(b) => [0, if b { 1 } else { 0 }, 0, 0, 0, 0, 0, 0],
            CanData::TwoU16(v) => {
                let (a0, a1) = u16_to_le(v[0]);
                let (b0, b1) = u16_to_le(v[1]);
                [1, a0, a1, b0, b1, 0, 0, 0]
            },
            CanData::F32(bits) => {
                let (b0, b1, b2, b3) = u32_to_le(bits);
                [2, b0, b1, b2, b3, 0, 0, 0]
            },
            CanData::State(s) => [3, s, 0, 0, 0, 0, 0, 0],
        };
        assert(r@ =~= self.encode_spec());
        r
    }

    /// The payload that eight bytes stand for; the first byte must be below 4.
    pub fn from_bytes(data: [u8; 8]) -> (r: CanData)
        requires
            data[0] < 4,
        ensures
            r == CanData::decode_spec(data@),
    {
        let t = data[0];
        if t == 0 {
            CanData::Bool(data[1] != 0)
        } else if t == 1 {
            CanData::TwoU16([u16_of_le(data[1], data[2]), u16_of_le(data[3], data[4])])
        } else if t == 2 {
            CanData::F32(u32_of_le(data[1], data[2], data[3], data[4]))
        } else {
            CanData::State(data[1])
        }
    }
}

impl From<CanData> for u8 {
    fn from(data: CanData) -> (r: u8) {
        data.type_index()
    }
}

impl FromSpecImpl<CanData> for u8 {
    open spec fn obeys_from_spec() -> bool {
        true
    }

    open spec fn from_spec(v: CanData) -> u8 {
        v.type_index_spec()
    }
}

impl From<CanData> for CanDataType {
    fn from(data: CanData) -> (r: CanDataType) {
        data.data_type()
    }
}

impl FromSpecImpl<CanData> for CanDataType {
    open spec fn obeys_from_spec() -> bool {
        true
    }

    open spec fn from_spec(v: CanData) -> CanDataType {
        v.data_type_spec()
    }
}

impl From<CanDataType> for CanData {
    fn from(data_type: CanDataType) -> (r: CanData) {
        match data_type {
            CanDataType::Bool => CanData::Bool(false),
            CanDataType::TwoU16 => CanData::TwoU16([0, 0]),
            CanDataType::F32 => CanData::F32(0),
            CanDataType::State => CanData::State(0),
        }
    }
}

impl FromSpecImpl<CanDataType> for CanData {
    open spec fn obeys_from_spec() -> bool {
        true
    }

    open spec fn from_spec(v: CanDataType) -> CanData {
        v.default_data_spec()
    }
}

impl From<CanDataType> for u8 {
    fn from(data_type: CanDataType) -> (r: u8) {
        match data_type {
            CanDataType::Bool => 0,
            CanDataType::TwoU16 => 1,
            CanDataType::F32 => 2,
            CanDataType::State => 3,
        }
    }
}

impl FromSpecImpl<CanDataType> for u8 {
    open spec fn obeys_from_spec() -> bool {
        true
    }

    open spec fn from_spec(v: CanDataType) -> u8 {
        v.index_spec()
    }
}

/// Every payload's encoding starts with its variant index and decodes to the
/// payload itself.
pub proof fn lemma_can_data_roundtrip(data: CanData)
    ensures
        data.encode_spec()[0] == data.type_index_spec(),
        data.type_index_spec() < 4,
        CanData::decode_spec(data.encode_spec()) == data,
{
    match data {
        CanData::TwoU16(v) => {
            lemma_u16_le_roundtrip(v[0]);
            lemma_u16_le_roundtrip(v[1]);
            let d = CanData::decode_spec(data.encode_spec());
            assert(d->TwoU16_0 =~= v);
        },
        CanData::F32(bits) => {
            lemma_u32_le_roundtrip(bits);
        },
        _ => {},
    }
}

/// Decoding a data type's index gives it back; the indices that decode are 0 to 3.
pub proof fn lemma_can_data_type_index_roundtrip(data_type: CanDataType, index: u8)
    ensures
        CanDataType::from_index_spec(data_type.index_spec()) == Some(data_type),
        data_type.index_spec() < 4,
        CanDataType::from_index_spec(index) is Some <==> index < 4,
        CanDataType::from_index_spec(index) matches Some(t) ==> t.index_spec() == index,
{
}

/// The data types are numbered in declaration order (bool 0, two u16s 1,
/// f32 2, state 3), and the payload bytes are the tag, then the value least
/// significant byte first (a bool as 1 or 0), then zeros; reading them back,
/// a bool is true exactly when its byte is not zero.
pub proof fn lemma_payload_bytes(data: CanData, bytes: Seq<u8>)
    requires
        bytes.len() == 8,
    ensures
        CanDataType::Bool.index_spec() == 0,
        CanDataType::TwoU16.index_spec() == 1,
        CanDataType::F32.index_spec() == 2,
        CanDataType::State.index_spec() == 3,
        CanData::Bool(true).encode_spec() == seq![0u8, 1u8, 0u8, 0u8, 0u8, 0u8, 0u8, 0u8],
        CanData::Bool(false).encode_spec() == seq![0u8, 0u8, 0u8, 0u8, 0u8, 0u8, 0u8, 0u8],
        data.encode_spec().len() == 8,
        data.encode_spec()[0] == data.data_type_spec().index_spec(),
        forall|k: int| 5 <= k < 8 ==> data.encode_spec()[k] == 0,
        data matches CanData::TwoU16(v) ==> data.encode_spec().take(5) == seq![
            1u8,
            (v[0] % 256) as u8,
            (v[0] / 256) as u8,
            (v[1] % 256) as u8,
            (v[1] / 256) as u8,
        ],
        data matches CanData::F32(bits) ==> data.encode_spec().take(5) == seq![
            2u8,
            (bits % 0x100) as u8,
            ((bits / 0x100) % 0x100) as u8,
            ((bits / 0x1_0000) % 0x100) as u8,
            (bits / 0x100_0000) as u8,
        ],
        data matches CanData::State(st) ==> data.encode_spec().take(5) == seq![
            3u8,
            st,
            0u8,
            0u8,
            0u8,
        ],
        bytes[0] == 0 ==> CanData::decode_spec(bytes) == CanData::Bool(bytes[1] != 0),
        bytes[0] == 1 ==> CanData::decode_spec(bytes) == CanData::TwoU16(
            [(bytes[1] + 256 * bytes[2]) as u16, (bytes[3] + 256 * bytes[4]) as u16],
        ),
        bytes[0] == 2 ==> CanData::decode_spec(bytes) == CanData::F32(
            (bytes[1] + 0x100 * bytes[2] + 0x1_0000 * bytes[3] + 0x100_0000 * bytes[4]) as u32,
        ),
        bytes[0] == 3 ==> CanData::decode_spec(bytes) == CanData::State(bytes[1]),
{
    match data {
        CanData::TwoU16(v) => {
            lemma_u16_le_value(v[0], 0, 0);
            lemma_u16_le_value(v[1], 0, 0);
        },
        CanData::F32(bits) => {
            lemma_u32_le_value(bits, 0, 0, 0, 0);
        },
        _ => {},
    }
    lemma_u16_le_value(0, bytes[1], bytes[2]);
    lemma_u16_le_value(0, bytes[3], bytes[4]);
    lemma_u32_le_value(0, bytes[1], bytes[2], bytes[3], bytes[4]);
    if bytes[0] == 1 {
        assert(CanData::decode_spec(bytes)->TwoU16_0 =~= [
            (bytes[1] + 256 * bytes[2]) as u16,
            (bytes[3] + 256 * bytes[4]) as u16,
        ]);
    }
}

} // verus!
