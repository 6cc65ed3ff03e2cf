//! The outbound MIDI Control Change message.

use vstd::prelude::*;

verus! {

/// The status byte of a Control Change message on channel 1.
pub const CC_STATUS: u8 = 0xB0;

/// One Control Change message: a controller number and a value, both of
/// which must be valid MIDI data bytes (0..=127).
#[derive(Clone, Copy, PartialEq, Eq, Structural, Debug)]
pub struct CcMessage {
    pub cc: u8,
    pub value: u8,
}

impl CcMessage {
    /// Well-formedness: both data bytes stay below the status-byte range.
    pub open spec fn wf(self) -> bool {
        &&& self.cc <= 127
        &&& self.value <= 127
    }

    /// The three bytes placed on the wire, in order: status, controller
    /// number, value.
    pub fn to_bytes(&self) -> (r: Vec<u8>)
        ensures
            r@ =~= seq![CC_STATUS, self.cc, self.value],
            r@.len() == 3,
    {
        let mut bytes: Vec<u8> = Vec::new();
        bytes.push(CC_STATUS);
        bytes.push(self.cc);
        bytes.push(self.value);
        bytes
    }
}

} // verus!
