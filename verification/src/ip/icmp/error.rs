use vstd::prelude::*;

verus! {

/// Why an ICMP packet was not acted on.
#[derive(Debug, Clone, Copy, PartialEq, Eq, Structural)]
pub enum IcmpError {
    UnsupportedType(u8),
    UnsupportedCode(u8),
    Unimplemented,
    InvalidIcmpPacket,
    InvalidChecksum,
    NoEmptyEchoBuffer,
}

} // verus!
