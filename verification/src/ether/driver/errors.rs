use vstd::prelude::*;

verus! {

/// Why an ARP packet was not acted on.
#[derive(Debug, Clone, Copy, PartialEq, Eq, Structural)]
pub enum ARPError {
    UnsupportedHardwareAddressSpace(u16),
    UnsupportedProtocolAddressSpace(u16),
    UnsupportedOperationCode(u16),
    InvalidARPPacket,
}

} // verus!
