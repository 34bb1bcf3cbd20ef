use vstd::prelude::*;
use crate::ip::icmp::error::IcmpError;

verus! {

/// Why an IPv4 packet was not acted on.
#[derive(Debug, Clone, Copy, PartialEq, Eq, Structural)]
pub enum IpError {
    UnsupportedProtocol(u8),
    Unimplemented,
    InvalidIpPacket,
    InvalidChecksum,
    IcmpError(IcmpError),
}

} // verus!
