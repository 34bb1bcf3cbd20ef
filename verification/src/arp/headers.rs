use vstd::prelude::*;
use crate::utils::be16;

verus! {

pub const ARPHRD_ETHER: u16 = 1;

pub const ETHERTYPE_IP: u16 = 0x0800;

pub const ARPOP_REQUEST: u16 = 1;

pub const ARPOP_REPLY: u16 = 2;

/// Bytes of the fixed ARP header.
pub const ARP_HEADER_LEN: usize = 8;

/// Bytes of a whole ARP packet over Ethernet/IPv4: the fixed header
/// and the four addresses.
pub const ARP_PACKET_LEN: usize = 28;

/// Parsed ARP header, fields in host order (wire is big-endian).
#[derive(Debug, Clone, Copy, PartialEq, Eq, Structural)]
pub struct ARPHeader {
    pub hard_addr_space: u16,
    pub proto_addr_space: u16,
    pub hard_addr_len: u8,
    pub proto_addr_len: u8,
    pub op_code: u16,
}

pub open spec fn spec_arp_header(d: Seq<u8>) -> ARPHeader {
    ARPHeader {
        hard_addr_space: be16(d, 0),
        proto_addr_space: be16(d, 2),
        hard_addr_len: d[4],
        proto_addr_len: d[5],
        op_code: be16(d, 6),
    }
}

/// Read the fixed ARP header, if the buffer can hold one.
pub fn parse_arp_header(data: &[u8]) -> (r: Option<ARPHeader>)
    ensures
        r is Some <==> data@.len() >= ARP_HEADER_LEN,
        r matches Some(h) ==> h == spec_arp_header(data@),
{
    if data.len() < ARP_HEADER_LEN {
        None
    } else {
        Some(
            ARPHeader {
                hard_addr_space: crate::utils::read_be16(data, 0),
                proto_addr_space: crate::utils::read_be16(data, 2),
                hard_addr_len: data[4],
                proto_addr_len: data[5],
                op_code: crate::utils::read_be16(data, 6),
            },
        )
    }
}

} // verus!
