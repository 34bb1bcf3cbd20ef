use vstd::prelude::*;
use crate::ip::IpAddress;
use crate::utils::{be16, be32, spec_checksum};

verus! {

/// Bytes of an IPv4 header without options.
pub const IP_HEADER_LEN: usize = 20;

/// Parsed IPv4 header prefix; multi-byte fields and addresses are kept
/// in host order (the wire is big-endian), and options are skipped.
#[derive(Debug, Clone, Copy, PartialEq, Eq, Structural)]
pub struct IpHeaderWithoutOptions {
    pub version_ihl: u8,
    pub type_of_service: u8,
    pub total_length: u16,
    pub identification: u16,
    pub flags_fragment_offset: u16,
    pub ttl: u8,
    pub protocol: u8,
    pub checksum: u16,
    pub src_addr: IpAddress,
    pub dst_addr: IpAddress,
}

pub open spec fn spec_ip_header(d: Seq<u8>) -> IpHeaderWithoutOptions {
    IpHeaderWithoutOptions {
        version_ihl: d[0],
        type_of_service: d[1],
        total_length: be16(d, 2),
        identification: be16(d, 4),
        flags_fragment_offset: be16(d, 6),
        ttl: d[8],
        protocol: d[9],
        checksum: be16(d, 10),
        src_addr: IpAddress(be32(d, 12)),
        dst_addr: IpAddress(be32(d, 16)),
    }
}

impl IpHeaderWithoutOptions {
    /// Version field: the high four bits of the first byte.
    pub open spec fn spec_version(self) -> u8 {
        self.version_ihl / 16
    }

    /// Header length in 4-byte words: the low four bits of the first byte.
    pub open spec fn spec_ihl(self) -> u8 {
        self.version_ihl % 16
    }

    pub fn version(&self) -> (r: u8)
        ensures
            r == self.spec_version(),
    {
        self.version_ihl / 16
    }

    pub fn ihl(&self) -> (r: u8)
        ensures
            r == self.spec_ihl(),
    {
        self.version_ihl % 16
    }

    /// The header checksum verifies: summing the declared `IHL * 4`
    /// leading bytes of the incoming buffer gives zero.
    pub fn is_valid(&self, orig_data: &[u8]) -> (r: bool)
        requires
            (self.spec_ihl() as int) * 4 <= orig_data@.len(),
        ensures
            r == (spec_checksum(orig_data@.take((self.spec_ihl() as int) * 4)) == 0),
    {
        let len: usize = (self.version_ihl % 16) as usize * 4;
        let head = vstd::slice::slice_subrange(orig_data, 0, len);
        crate::utils::checksum(head) == 0
    }
}

/// Read the 20-byte IPv4 header prefix, if the buffer can hold one.
pub fn parse_ip_header(data: &[u8]) -> (r: Option<IpHeaderWithoutOptions>)
    ensures
        r is Some <==> data@.len() >= IP_HEADER_LEN,
        r matches Some(h) ==> h == spec_ip_header(data@),
{
    if data.len() < IP_HEADER_LEN {
        None
    } else {
        Some(
            IpHeaderWithoutOptions {
                version_ihl: data[0],
                type_of_service: data[1],
                total_length: crate::utils::read_be16(data, 2),
                identification: crate::utils::read_be16(data, 4),
                flags_fragment_offset: crate::utils::read_be16(data, 6),
                ttl: data[8],
                protocol: data[9],
                checksum: crate::utils::read_be16(data, 10),
                src_addr: IpAddress(crate::utils::read_be32(data, 12)),
                dst_addr: IpAddress(crate::utils::read_be32(data, 16)),
            },
        )
    }
}

} // verus!
