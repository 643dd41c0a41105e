//! A raw CAN frame: a 29-bit extended identifier and eight payload bytes.

use vstd::prelude::*;

verus! {

/// A frame as sent on or read from the CAN bus.
#[derive(Debug, Clone, Copy, PartialEq, Eq)]
pub struct HypedCanFrame {
    pub can_id: u32,
    pub data: [u8; 8],
}

impl HypedCanFrame {
    /// A frame with the given identifier and payload.
    pub fn new(can_id: u32, data: [u8; 8]) -> (r: HypedCanFrame)
        ensures
            r.can_id == can_id,
            r.data == data,
    {
        HypedCanFrame { can_id, data }
    }
}

} // verus!
