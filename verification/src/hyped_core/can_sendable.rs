//! Values that fit in one CAN frame, and the three-frame position delta.
//!
//! Every frame starts with a header byte: the sending board in the high
//! nibble and the message type in the low nibble.

use vstd::prelude::*;
use crate::bytes::{
    lemma_u16_le_value, lemma_u32_le_value,
    lemma_u16_le_roundtrip, lemma_u32_from_le_bytes, lemma_u32_le_roundtrip, u16_byte0, u16_byte1,
    u16_from_le, u16_of_le, u16_to_le, u32_byte, u32_from_le, u32_of_le, u32_to_le,
};

verus! {

pub const CAN_MSG_TYPE_BOOL: u8 = 0;

pub const CAN_MSG_TYPE_F32: u8 = 1;

pub const CAN_MSG_TYPE_U32: u8 = 2;

pub const CAN_MSG_TYPE_POSDELTA: u8 = 3;

/// The message types that the low nibble of a header byte names.
#[derive(Debug, Clone, Copy, PartialEq, Eq, Structural)]
pub enum CanMsgType {
    Bool,
    F32,
    U32,
    PosDelta,
}

/// The message type named by a header's low nibble, if any.
pub open spec fn msg_type_of_nibble(nibble: u8) -> Option<CanMsgType> {
    if nibble == CAN_MSG_TYPE_BOOL {
        Some(CanMsgType::Bool)
    } else if nibble == CAN_MSG_TYPE_F32 {
        Some(CanMsgType::F32)
    } else if nibble == CAN_MSG_TYPE_U32 {
        Some(CanMsgType::U32)
    } else if nibble == CAN_MSG_TYPE_POSDELTA {
        Some(CanMsgType::PosDelta)
    } else {
        None
    }
}

/// The message type of a frame; the low nibble of its header must name one.
pub fn can_msg_type_from_u8(msg_type: &[u8; 8]) -> (r: CanMsgType)
    requires
        msg_type_of_nibble(msg_type[0] & 0x0F) is Some,
    ensures
        Some(r) == msg_type_of_nibble(msg_type[0] & 0x0F),
{
    let nibble = msg_type[0] & 0x0F;
    if nibble == CAN_MSG_TYPE_BOOL {
        CanMsgType::Bool
    } else if nibble == CAN_MSG_TYPE_F32 {
        CanMsgType::F32
    } else if nibble == CAN_MSG_TYPE_U32 {
        CanMsgType::U32
    } else {
        CanMsgType::PosDelta
    }
}

/// The header byte of a frame sent by `board_id` with type `msg_type`.
pub open spec fn can_header(board_id: u8, msg_type: u8) -> u8 {
    (board_id << 4u8) | msg_type
}

/// Builds the header byte: 4 bits for each of board_id and msg_type.
pub fn build_can_header(board_id: u8, msg_type: u8) -> (r: u8)
    ensures
        r == can_header(board_id, msg_type),
{
    (board_id << 4) | msg_type
}

/// The board and the type of a header built from values below 16 can be read back.
pub proof fn lemma_can_header_fields(board_id: u8, msg_type: u8)
    requires
        board_id < 16,
        msg_type < 16,
    ensures
        can_header(board_id, msg_type) >> 4u8 == board_id,
        can_header(board_id, msg_type) & 0x0F == msg_type,
{
    let h = can_header(board_id, msg_type);
    assert((h >> 4u8) == board_id && (h & 0x0F) == msg_type) by (bit_vector)
        requires
            h == (board_id << 4u8) | msg_type,
            board_id < 16,
            msg_type < 16,
    ;
}

/// A value that travels in a single CAN frame.
pub trait CanSendable: Sized {
    fn encode_to_can(&self, board_id: u8) -> [u8; 8];

    fn can_decode(can_msg: &[u8; 8]) -> Self;
}

/// The frame that carries a bool with the given header.
pub open spec fn bool_frame(header: u8, b: bool) -> Seq<u8> {
    seq![header, if b { 1u8 } else { 0u8 }, 0u8, 0u8, 0u8, 0u8, 0u8, 0u8]
}

/// The frame that carries two 16-bit values with the given header.
pub open spec fn two_u16_frame(header: u8, v: [u16; 2]) -> Seq<u8> {
    seq![
        header,
        u16_byte0(v[0]),
        u16_byte1(v[0]),
        u16_byte0(v[1]),
        u16_byte1(v[1]),
        0u8,
        0u8,
        0u8,
    ]
}

impl CanSendable for bool {
    fn encode_to_can(&self, board_id: u8) -> (r: [u8; 8])
        ensures
            r@ == bool_frame(can_header(board_id, CAN_MSG_TYPE_BOOL), *self),
    {
        let r: [u8; 8] = [
            build_can_header(board_id, CAN_MSG_TYPE_BOOL),
            if *self {
                1
            } else {
                0
            },
            0,
            0,
            0,
            0,
            0,
            0,
        ];
        assert(r@ =~= bool_frame(can_header(board_id, CAN_MSG_TYPE_BOOL), *self));
        r
    }

    fn can_decode(can_msg: &[u8; 8]) -> (r: bool)
        ensures
            r == (can_msg[1] != 0),
    {
        can_msg[1] != 0
    }
}

impl CanSendable for [u16; 2] {
    fn encode_to_can(&self, board_id: u8) -> (r: [u8; 8])
        ensures
            r@ == two_u16_frame(can_header(board_id, CAN_MSG_TYPE_U32), *self),
    {
        let (a0, a1) = u16_to_le(self[0]);
        let (b0, b1) = u16_to_le(self[1]);
        let r: [u8; 8] = [build_can_header(board_id, CAN_MSG_TYPE_U32), a0, a1, b0, b1, 0, 0, 0];
        assert(r@ =~= two_u16_frame(can_header(board_id, CAN_MSG_TYPE_U32), *self));
        r
    }

    fn can_decode(can_msg: &[u8; 8]) -> (r: [u16; 2])
        ensures
            r[0] == u16_from_le(can_msg[1], can_msg[2]),
            r[1] == u16_from_le(can_msg[3], can_msg[4]),
    {
        [u16_of_le(can_msg[1], can_msg[2]), u16_of_le(can_msg[3], can_msg[4])]
    }
}

/// A 32-bit float carried by its IEEE-754 bit pattern, as it travels on the bus.
#[derive(Debug, Clone, Copy, PartialEq, Eq, Structural)]
pub struct F32Bits {
    pub bits: u32,
}

/// The frame that carries a float's bit pattern with the given header.
pub open spec fn f32_frame(header: u8, bits: u32) -> Seq<u8> {
    seq![
        header,
        u32_byte(bits, 0),
        u32_byte(bits, 1),
        u32_byte(bits, 2),
        u32_byte(bits, 3),
        0u8,
        0u8,
        0u8,
    ]
}

impl CanSendable for F32Bits {
    fn encode_to_can(&self, board_id: u8) -> (r: [u8; 8])
        ensures
            r@ == f32_frame(can_header(board_id, CAN_MSG_TYPE_F32), self.bits),
    {
        let (b0, b1, b2, b3) = u32_to_le(self.bits);
        let r: [u8; 8] = [build_can_header(board_id, CAN_MSG_TYPE_F32), b0, b1, b2, b3, 0, 0, 0];
        assert(r@ =~= f32_frame(can_header(board_id, CAN_MSG_TYPE_F32), self.bits));
        r
    }

    fn can_decode(can_msg: &[u8; 8]) -> (r: F32Bits)
        ensures
            r.bits == u32_from_le(can_msg[1], can_msg[2], can_msg[3], can_msg[4]),
    {
        F32Bits { bits: u32_of_le(can_msg[1], can_msg[2], can_msg[3], can_msg[4]) }
    }
}

/// Decoding the frame of a bool gives the bool back.
pub proof fn lemma_bool_frame_roundtrip(header: u8, b: bool)
    ensures
        (bool_frame(header, b)[1] != 0) == b,
{
}

/// Decoding the frame of two 16-bit values gives them back.
pub proof fn lemma_two_u16_frame_roundtrip(header: u8, v: [u16; 2])
    ensures
        u16_from_le(two_u16_frame(header, v)[1], two_u16_frame(header, v)[2]) == v[0],
        u16_from_le(two_u16_frame(header, v)[3], two_u16_frame(header, v)[4]) == v[1],
{
    lemma_u16_le_roundtrip(v[0]);
    lemma_u16_le_roundtrip(v[1]);
}

/// Decoding the frame of a float's bit pattern gives the bit pattern back.
pub proof fn lemma_f32_frame_roundtrip(header: u8, bits: u32)
    ensures
        u32_from_le(
            f32_frame(header, bits)[1],
            f32_frame(header, bits)[2],
            f32_frame(header, bits)[3],
            f32_frame(header, bits)[4],
        ) == bits,
{
    lemma_u32_le_roundtrip(bits);
}


/// A change of position sent as three frames, one per axis, tagged with a
/// wrapping clock so that the receiver can tell the cycles apart. Each axis
/// is a 32-bit float carried by its IEEE-754 bit pattern.
#[derive(Debug, Clone, Copy, PartialEq, Eq, Structural)]
pub struct PositionDelta {
    pub clock: Option<u8>,
    pub x: Option<u32>,
    pub y: Option<u32>,
    pub z: Option<u32>,
}

/// All the possible failure reasons for failing to decode a position delta step.
#[derive(Debug, Clone, Copy, PartialEq, Eq, Structural)]
pub enum PositionDeltaDecodeError {
    /// The x, y or z value for a given clock cycle has already been received.
    /// This should never be seen in normal operation: either the sender is
    /// sending repeats or the receiver is a whole clock period out of sync.
    PositionAlreadyReceived,
    /// The clock value received is in the future, so the current cycle should
    /// be discarded. When discarded cycles reach a threshold (3 to 5) the pod
    /// should come to a stop, as its readings are too out of date.
    ClockInFuture,
    /// A value of an old clock cycle has been received.
    ClockOutdated,
}

/// Whether `new` is ahead of `old` on the wrapping clock: less than half the
/// clock's period ahead.
pub open spec fn clock_in_future(old: u8, new: u8) -> bool {
    ((new - old) % 256) < 128
}

/// The step that follows `old` on the wrapping clock.
pub open spec fn clock_after(old: u8) -> u8 {
    ((old + 1) % 256) as u8
}

/// The frame that carries axis `axis` of a delta with header `header`.
pub open spec fn position_delta_frame(header: u8, bits: u32, axis: u8, clock: u8) -> Seq<u8> {
    seq![
        header,
        u32_byte(bits, 0),
        u32_byte(bits, 1),
        u32_byte(bits, 2),
        u32_byte(bits, 3),
        axis,
        clock,
        0u8,
    ]
}

impl PositionDelta {
    /// Whether the delta holds a clock and all three axes.
    pub open spec fn is_complete_spec(self) -> bool {
        self.clock is Some && self.x is Some && self.y is Some && self.z is Some
    }

    /// The delta with nothing received.
    pub open spec fn empty_spec() -> PositionDelta {
        PositionDelta { clock: None, x: None, y: None, z: None }
    }

    /// The value of axis `axis` (0 for x, 1 for y, 2 for z).
    pub open spec fn axis_spec(self, axis: u8) -> Option<u32> {
        if axis == 0 {
            self.x
        } else if axis == 1 {
            self.y
        } else {
            self.z
        }
    }

    /// The delta with axis `axis` set to `value`.
    pub open spec fn with_axis_spec(self, axis: u8, value: u32) -> PositionDelta {
        if axis == 0 {
            PositionDelta { x: Some(value), ..self }
        } else if axis == 1 {
            PositionDelta { y: Some(value), ..self }
        } else {
            PositionDelta { z: Some(value), ..self }
        }
    }

    /// Whether a step may be offered: a step of an unknown axis is offered only
    /// when its clock is rejected first.
    pub open spec fn step_acceptable_spec(self, step: Seq<u8>) -> bool {
        step[5] <= 2 || (self.clock is Some && self.clock.unwrap() != step[6])
    }

    /// The delta and error after offering a step: a step of another clock cycle
    /// is rejected as in the future or outdated; otherwise the clock is
    /// adopted and the step's axis is filled, unless it was already filled.
    pub open spec fn decode_step_spec(self, step: Seq<u8>) -> (PositionDelta, Option<
        PositionDeltaDecodeError,
    >) {
        let step_type = step[5];
        let step_clock = step[6];
        let value = u32_from_le(step[1], step[2], step[3], step[4]);
        if self.clock is Some && self.clock.unwrap() != step_clock {
            (
                self,
                Some(
                    if clock_in_future(self.clock.unwrap(), step_clock) {
                        PositionDeltaDecodeError::ClockInFuture
                    } else {
                        PositionDeltaDecodeError::ClockOutdated
                    },
                ),
            )
        } else {
            let adopted = PositionDelta { clock: Some(step_clock), ..self };
            if adopted.axis_spec(step_type) is None {
                (adopted.with_axis_spec(step_type, value), None)
            } else {
                (adopted, Some(PositionDeltaDecodeError::PositionAlreadyReceived))
            }
        }
    }

    /// A complete delta from a clock value and the bit patterns of its axes.
    pub fn new(clock: u8, x: u32, y: u32, z: u32) -> (r: Self)
        ensures
            r == (PositionDelta { clock: Some(clock), x: Some(x), y: Some(y), z: Some(z) }),
    {
        PositionDelta { clock: Some(clock), x: Some(x), y: Some(y), z: Some(z) }
    }

    /// The three frames of a complete delta, one per axis, each tagged with
    /// its axis and the clock.
    pub fn encode_to_can(&self, board_id: u8) -> (r: [[u8; 8]; 3])
        requires
            self.is_complete_spec(),
        ensures
            r[0]@ == position_delta_frame(
                can_header(board_id, CAN_MSG_TYPE_POSDELTA),
                self.x.unwrap(),
                0,
                self.clock.unwrap(),
            ),
            r[1]@ == position_delta_frame(
                can_header(board_id, CAN_MSG_TYPE_POSDELTA),
                self.y.unwrap(),
                1,
                self.clock.unwrap(),
            ),
            r[2]@ == position_delta_frame(
                can_header(board_id, CAN_MSG_TYPE_POSDELTA),
                self.z.unwrap(),
                2,
                self.clock.unwrap(),
            ),
    {
        let header = build_can_header(board_id, CAN_MSG_TYPE_POSDELTA);
        let clock = self.clock.unwrap();
        let x = PositionDelta::axis_frame(header, self.x.unwrap(), 0, clock);
        let y = PositionDelta::axis_frame(header, self.y.unwrap(), 1, clock);
        let z = PositionDelta::axis_frame(header, self.z.unwrap(), 2, clock);
        [x, y, z]
    }

    /// The frame of one axis: the float frame of its value, with the header
    /// replaced and the axis and clock in bytes 5 and 6.
    fn axis_frame(header: u8, bits: u32, axis: u8, clock: u8) -> (r: [u8; 8])
        ensures
            r@ == position_delta_frame(header, bits, axis, clock),
    {
        let f = F32Bits { bits }.encode_to_can(0);
        let r: [u8; 8] = [header, f[1], f[2], f[3], f[4], axis, clock, f[7]];
        assert(r@ =~= position_delta_frame(header, bits, axis, clock));
        r
    }

    /// Create an empty delta to fill.
    pub fn create_new() -> (r: Self)
        ensures
            r == PositionDelta::empty_spec(),
    {
        PositionDelta { clock: None, x: None, y: None, z: None }
    }

    /// Reset the delta to empty.
    pub fn clear(&mut self)
        ensures
            *final(self) == PositionDelta::empty_spec(),
    {
        self.clock = None;
        self.x = None;
        self.y = None;
        self.z = None;
    }

    /// Whether a complete delta has been received: the clock and all of x, y, z.
    pub fn is_complete(&self) -> (r: bool)
        ensures
            r == self.is_complete_spec(),
    {
        self.clock.is_some() && self.x.is_some() && self.y.is_some() && self.z.is_some()
    }

    /// The bit patterns of the three axes of a complete delta.
    pub fn return_complete(&self) -> (r: [u32; 3])
        requires
            self.is_complete_spec(),
        ensures
            r@ == seq![self.x.unwrap(), self.y.unwrap(), self.z.unwrap()],
    {
        let r: [u32; 3] = [self.x.unwrap(), self.y.unwrap(), self.z.unwrap()];
        assert(r@ =~= seq![self.x.unwrap(), self.y.unwrap(), self.z.unwrap()]);
        r
    }

    /// Attempt to decode one frame of a delta and add it to the current one.
    pub fn can_decode_step(&mut self, step: [u8; 8]) -> (r: Option<PositionDeltaDecodeError>)
        requires
            old(self).step_acceptable_spec(step@),
        ensures
            (*final(self), r) == old(self).decode_step_spec(step@),
    {
        let step_type = step[5];
        let step_clock = step[6];

        match self.clock {
            None => {
                self.clock = Some(step_clock);
            },
            Some(clock) => {
                if clock != step_clock {
                    return Some(
                        if PositionDelta::is_clock_infuture(clock, step_clock) {
                            PositionDeltaDecodeError::ClockInFuture
                        } else {
                            PositionDeltaDecodeError::ClockOutdated
                        },
                    );
                }
            },
        }

        let step_data = F32Bits::can_decode(&step).bits;
        if step_type == 0 {
            if self.x.is_none() {
                self.x = Some(step_data);
            } else {
                return Some(PositionDeltaDecodeError::PositionAlreadyReceived);
            }
        } else if step_type == 1 {
            if self.y.is_none() {
                self.y = Some(step_data);
            } else {
                return Some(PositionDeltaDecodeError::PositionAlreadyReceived);
            }
        } else {
            if self.z.is_none() {
                self.z = Some(step_data);
            } else {
                return Some(PositionDeltaDecodeError::PositionAlreadyReceived);
            }
        }
        None
    }

    /// Checks if the new clock is ahead of the old one; a difference of 128
    /// or more is taken as a wraparound.
    pub fn is_clock_infuture(old: u8, new: u8) -> (r: bool)
        ensures
            r == clock_in_future(old, new),
    {
        let diff = new.wrapping_sub(old);
        diff < 128
    }

    /// The next clock value (`old.wrapping_add(1)`).
    pub fn next_clock(old: u8) -> (r: u8)
        ensures
            r == clock_after(old),
    {
        old.wrapping_add(1)
    }
}

/// The step after a clock value is in its future, and so is the value itself.
pub proof fn lemma_clock_after_is_future(clock: u8)
    ensures
        clock_in_future(clock, clock_after(clock)),
        clock_in_future(clock, clock),
{
}

/// Of two different clock values that are not exactly half the period apart,
/// exactly one is in the future of the other.
pub proof fn lemma_clock_order(old: u8, new: u8)
    requires
        old != new,
        (new - old) % 256 != 128,
    ensures
        clock_in_future(old, new) != clock_in_future(new, old),
{
}

/// A frame whose clock `s` differs from the clock `c` a delta already holds
/// leaves the delta unchanged and is reported as from the future exactly when
/// `s` is less than half the clock's period ahead of `c` going round the
/// clock (`(s - c) mod 256 < 128`), and as outdated otherwise. So the clock
/// wraps: 0 is just after 255.
pub proof fn lemma_decode_step_other_cycle(delta: PositionDelta, step: Seq<u8>)
    requires
        step.len() == 8,
        delta.clock is Some,
        step[6] != delta.clock.unwrap(),
    ensures
        delta.decode_step_spec(step).0 == delta,
        delta.decode_step_spec(step).1 == Some(
            if (step[6] as int - delta.clock.unwrap() as int) % 256 < 128 {
                PositionDeltaDecodeError::ClockInFuture
            } else {
                PositionDeltaDecodeError::ClockOutdated
            },
        ),
        delta.clock.unwrap() == 255 && step[6] == 0 ==> delta.decode_step_spec(step).1 == Some(
            PositionDeltaDecodeError::ClockInFuture,
        ),
        delta.clock.unwrap() == 0 && step[6] == 255 ==> delta.decode_step_spec(step).1 == Some(
            PositionDeltaDecodeError::ClockOutdated,
        ),
{
}

/// The step after a clock value is one more, except after 255, which is
/// followed by 0; and a clock value is ahead of another exactly when going
/// round the clock from the other reaches it in fewer than 128 steps.
pub proof fn lemma_clock_arithmetic(old: u8, new: u8)
    ensures
        old < 255 ==> clock_after(old) == old + 1,
        old == 255 ==> clock_after(old) == 0,
        clock_in_future(old, new) == (if new >= old {
            new - old < 128
        } else {
            new + 256 - old < 128
        }),
{
}

/// The first step offered to an empty delta never fails: it sets the clock and
/// the step's axis.
pub proof fn lemma_first_step_after_clear(step: Seq<u8>)
    requires
        step.len() == 8,
        PositionDelta::empty_spec().step_acceptable_spec(step),
    ensures
        PositionDelta::empty_spec().decode_step_spec(step).1 is None,
        PositionDelta::empty_spec().decode_step_spec(step).0.clock == Some(step[6]),
{
}

/// Offering to an empty delta the three frames of a complete delta, in any
/// order, gives back the complete delta, each step without error; offering
/// any of the frames again is then rejected as already received and changes
/// nothing.
pub proof fn lemma_position_delta_reassembly(
    delta: PositionDelta,
    board_id: u8,
    a: u8,
    b: u8,
    c: u8,
)
    requires
        delta.is_complete_spec(),
        a <= 2,
        b <= 2,
        c <= 2,
        a != b,
        b != c,
        a != c,
    ensures
        ({
            let header = can_header(board_id, CAN_MSG_TYPE_POSDELTA);
            let clock = delta.clock.unwrap();
            let fa = position_delta_frame(header, delta.axis_spec(a).unwrap(), a, clock);
            let fb = position_delta_frame(header, delta.axis_spec(b).unwrap(), b, clock);
            let fc = position_delta_frame(header, delta.axis_spec(c).unwrap(), c, clock);
            let s1 = PositionDelta::empty_spec().decode_step_spec(fa);
            let s2 = s1.0.decode_step_spec(fb);
            let s3 = s2.0.decode_step_spec(fc);
            &&& PositionDelta::empty_spec().step_acceptable_spec(fa)
            &&& s1.0.step_acceptable_spec(fb)
            &&& s2.0.step_acceptable_spec(fc)
            &&& s1.1 is None
            &&& s2.1 is None
            &&& s3.1 is None
            &&& s3.0 == delta
            &&& s3.0.decode_step_spec(fa) == (delta, Some(
                PositionDeltaDecodeError::PositionAlreadyReceived,
            ))
        }),
{
    lemma_u32_le_roundtrip(delta.x.unwrap());
    lemma_u32_le_roundtrip(delta.y.unwrap());
    lemma_u32_le_roundtrip(delta.z.unwrap());
}

/// The header byte is the board times 16 plus the message type, with the
/// types bool 0, f32 1, u32 2 and position delta 3; other low nibbles name no
/// type.
pub proof fn lemma_header_value(board_id: u8, msg_type: u8, nibble: u8)
    requires
        board_id < 16,
        msg_type < 16,
    ensures
        can_header(board_id, msg_type) == board_id * 16 + msg_type,
        msg_type_of_nibble(0) == Some(CanMsgType::Bool),
        msg_type_of_nibble(1) == Some(CanMsgType::F32),
        msg_type_of_nibble(2) == Some(CanMsgType::U32),
        msg_type_of_nibble(3) == Some(CanMsgType::PosDelta),
        nibble > 3 ==> msg_type_of_nibble(nibble) is None,
        CAN_MSG_TYPE_BOOL == 0 && CAN_MSG_TYPE_F32 == 1 && CAN_MSG_TYPE_U32 == 2
            && CAN_MSG_TYPE_POSDELTA == 3,
{
    assert((board_id << 4u8) | msg_type == board_id * 16 + msg_type) by (bit_vector)
        requires
            board_id < 16,
            msg_type < 16,
    ;
}

/// The single frames, byte by byte after the header: a bool is 1 for true and
/// 0 for false; numbers are least significant byte first; a position delta
/// frame carries the axis (0 for x, 1 for y, 2 for z) in byte 5 and the clock
/// in byte 6; the rest is zeros.
pub proof fn lemma_frame_bytes(header: u8, v: [u16; 2], bits: u32, axis: u8, clock: u8)
    ensures
        bool_frame(header, true) == seq![header, 1u8, 0u8, 0u8, 0u8, 0u8, 0u8, 0u8],
        bool_frame(header, false) == seq![header, 0u8, 0u8, 0u8, 0u8, 0u8, 0u8, 0u8],
        two_u16_frame(header, v) == seq![
            header,
            (v[0] % 256) as u8,
            (v[0] / 256) as u8,
            (v[1] % 256) as u8,
            (v[1] / 256) as u8,
            0u8,
            0u8,
            0u8,
        ],
        f32_frame(header, bits) == seq![
            header,
            (bits % 0x100) as u8,
            ((bits / 0x100) % 0x100) as u8,
            ((bits / 0x1_0000) % 0x100) as u8,
            (bits / 0x100_0000) as u8,
            0u8,
            0u8,
            0u8,
        ],
        position_delta_frame(header, bits, axis, clock) == seq![
            header,
            (bits % 0x100) as u8,
            ((bits / 0x100) % 0x100) as u8,
            ((bits / 0x1_0000) % 0x100) as u8,
            (bits / 0x100_0000) as u8,
            axis,
            clock,
            0u8,
        ],
{
    lemma_u16_le_value(v[0], 0, 0);
    lemma_u16_le_value(v[1], 0, 0);
    lemma_u32_le_value(bits, 0, 0, 0, 0);
    assert(two_u16_frame(header, v) =~= seq![
        header,
        (v[0] % 256) as u8,
        (v[0] / 256) as u8,
        (v[1] % 256) as u8,
        (v[1] / 256) as u8,
        0u8,
        0u8,
        0u8,
    ]);
}

/// A frame offered to a delta that has no clock yet, or has the frame's clock,
/// fills the axis that byte 5 names (0 x, 1 y, 2 z) with the value of bytes 1
/// to 4, least significant first, unless that axis is already filled.
pub proof fn lemma_decode_step_fills_axis(delta: PositionDelta, step: Seq<u8>)
    requires
        step.len() == 8,
        step[5] <= 2,
        delta.clock is None || delta.clock == Some(step[6]),
    ensures
        ({
            let value = (step[1] + 0x100 * step[2] + 0x1_0000 * step[3] + 0x100_0000 * step[4]) as u32;
            let (next, err) = delta.decode_step_spec(step);
            &&& next.clock == Some(step[6])
            &&& step[5] == 0 && delta.x is None ==> err is None && next == (PositionDelta {
                clock: Some(step[6]),
                x: Some(value),
                ..delta
            })
            &&& step[5] == 1 && delta.y is None ==> err is None && next == (PositionDelta {
                clock: Some(step[6]),
                y: Some(value),
                ..delta
            })
            &&& step[5] == 2 && delta.z is None ==> err is None && next == (PositionDelta {
                clock: Some(step[6]),
                z: Some(value),
                ..delta
            })
            &&& step[5] == 0 && delta.x is Some ==> err == Some(
                PositionDeltaDecodeError::PositionAlreadyReceived,
            ) && next.x == delta.x && next.y == delta.y && next.z == delta.z
            &&& step[5] == 1 && delta.y is Some ==> err == Some(
                PositionDeltaDecodeError::PositionAlreadyReceived,
            ) && next.x == delta.x && next.y == delta.y && next.z == delta.z
            &&& step[5] == 2 && delta.z is Some ==> err == Some(
                PositionDeltaDecodeError::PositionAlreadyReceived,
            ) && next.x == delta.x && next.y == delta.y && next.z == delta.z
        }),
{
    lemma_u32_le_value(0, step[1], step[2], step[3], step[4]);
}

} // verus!
