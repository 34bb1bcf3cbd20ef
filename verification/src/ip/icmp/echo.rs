use vstd::prelude::*;
use crate::ip::IpAddress;

verus! {

/// Parsed Echo sub-header, fields in host order (wire is big-endian).
#[derive(Debug, Clone, Copy, PartialEq, Eq, Structural)]
pub struct EchoPacketWithoutData {
    pub identifier: u16,
    pub sequence_id: u16,
}

/// One answer to a registered Echo exchange, handed to the registrant.
#[derive(Debug, Clone)]
pub struct EchoReply {
    pub src: IpAddress,
    pub sequence_id: u16,
    pub data: Vec<u8>,
}

} // verus!
