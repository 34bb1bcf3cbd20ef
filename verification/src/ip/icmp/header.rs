use vstd::prelude::*;
use crate::utils::be16;

verus! {

/// Bytes of the fixed ICMP header: type, code, checksum.
pub const ICMP_HEADER_LEN: usize = 4;

/// Parsed ICMP header; the checksum is kept in host order.
#[derive(Debug, Clone, Copy, PartialEq, Eq, Structural)]
pub struct ICMPHeader {
    pub icmp_type: u8,
    pub code: u8,
    pub checksum: u16,
}

pub open spec fn spec_icmp_header(d: Seq<u8>) -> ICMPHeader {
    ICMPHeader { icmp_type: d[0], code: d[1], checksum: be16(d, 2) }
}

/// Read the fixed ICMP header, if the buffer can hold one.
pub fn parse_icmp_header(data: &[u8]) -> (r: Option<ICMPHeader>)
    ensures
        r is Some <==> data@.len() >= ICMP_HEADER_LEN,
        r matches Some(h) ==> h == spec_icmp_header(data@),
{
    if data.len() < ICMP_HEADER_LEN {
        None
    } else {
        Some(
            ICMPHeader {
                icmp_type: data[0],
                code: data[1],
                checksum: crate::utils::read_be16(data, 2),
            },
        )
    }
}

} // verus!
