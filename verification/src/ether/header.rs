use vstd::prelude::*;
use crate::ether::{read_mac, MacAddress};
use crate::utils::{be16, be16_bytes, read_be16};

verus! {

pub const ETHERTYPE_IP: u16 = 0x0800;

pub const ETHERTYPE_ARP: u16 = 0x0806;

/// Bytes of an Ethernet header: destination, source, EtherType.
pub const MAC_HEADER_LEN: usize = 14;

/// Shortest Ethernet frame; outgoing frames are padded up to this.
pub const MIN_FRAME_LEN: usize = 60;

/// Parsed Ethernet header. The EtherType is kept in host order; the
/// wire carries it big-endian.
#[derive(Debug, Clone)]
pub struct MacHeader {
    pub dst_mac: MacAddress,
    pub src_mac: MacAddress,
    pub ether_type: u16,
}

pub open spec fn spec_frame_dst_mac(d: Seq<u8>) -> Seq<u8> {
    d.subrange(0, 6)
}

pub open spec fn spec_frame_src_mac(d: Seq<u8>) -> Seq<u8> {
    d.subrange(6, 12)
}

pub open spec fn spec_frame_ether_type(d: Seq<u8>) -> u16 {
    be16(d, 12)
}

/// Split off the 14-byte Ethernet header, if the frame can hold one.
pub fn parse_mac_header(frame: &[u8]) -> (r: Option<MacHeader>)
    ensures
        r is Some <==> frame@.len() >= MAC_HEADER_LEN,
        r matches Some(h) ==> {
            &&& h.dst_mac.address@ == spec_frame_dst_mac(frame@)
            &&& h.src_mac.address@ == spec_frame_src_mac(frame@)
            &&& h.ether_type == spec_frame_ether_type(frame@)
        },
{
    if frame.len() < MAC_HEADER_LEN {
        None
    } else {
        Some(
            MacHeader {
                dst_mac: read_mac(frame, 0),
                src_mac: read_mac(frame, 6),
                ether_type: read_be16(frame, 12),
            },
        )
    }
}

/// An Ethernet frame around `payload`: destination and source address,
/// big-endian EtherType, then the payload, zero-padded to the minimum
/// frame length.
pub open spec fn spec_ethernet_frame(
    dst: Seq<u8>,
    src: Seq<u8>,
    ether_type: u16,
    payload: Seq<u8>,
) -> Seq<u8> {
    let raw = dst + src + be16_bytes(ether_type) + payload;
    if raw.len() < MIN_FRAME_LEN {
        raw + Seq::new((MIN_FRAME_LEN - raw.len()) as nat, |i: int| 0u8)
    } else {
        raw
    }
}

/// Serialize an Ethernet frame carrying `data`.
pub fn construct_ethernet_frame(dst: &MacAddress, src: &MacAddress, ether_type: u16, data: &[u8])
    -> (r: Vec<u8>)
    requires
        data@.len() <= 65535,
    ensures
        r@ == spec_ethernet_frame(dst.address@, src.address@, ether_type, data@),
{
    let mut out: Vec<u8> = Vec::new();
    let mut i: usize = 0;
    while i < 6
        invariant
            i <= 6,
            out@ == dst.address@.subrange(0, i as int),
        decreases 6 - i,
    {
        out.push(dst.address[i]);
        proof {
            assert(out@ =~= dst.address@.subrange(0, i + 1));
        }
        i = i + 1;
    }
    proof {
        assert(dst.address@.subrange(0, 6) =~= dst.address@);
    }
    let mut i: usize = 0;
    while i < 6
        invariant
            i <= 6,
            out@ == dst.address@ + src.address@.subrange(0, i as int),
        decreases 6 - i,
    {
        out.push(src.address[i]);
        proof {
            assert(out@ =~= dst.address@ + src.address@.subrange(0, i + 1));
        }
        i = i + 1;
    }
    proof {
        assert(src.address@.subrange(0, 6) =~= src.address@);
    }
    crate::utils::push_be16(&mut out, ether_type);
    let ghost head: Seq<u8> = dst.address@ + src.address@ + be16_bytes(ether_type);
    proof {
        assert(out@ =~= head);
    }
    let mut i: usize = 0;
    while i < data.len()
        invariant
            i <= data@.len(),
            data@.len() <= 65535,
            out@ == head + data@.subrange(0, i as int),
            head.len() == 14,
        decreases data@.len() - i,
    {
        out.push(data[i]);
        proof {
            assert(out@ =~= head + data@.subrange(0, i + 1));
        }
        i = i + 1;
    }
    proof {
        assert(data@.subrange(0, data@.len() as int) =~= data@);
    }
    let ghost raw: Seq<u8> = head + data@;
    while out.len() < MIN_FRAME_LEN
        invariant
            raw.len() <= out@.len(),
            out@.len() <= vstd::math::max(raw.len() as int, MIN_FRAME_LEN as int),
            out@.subrange(0, raw.len() as int) == raw,
            forall|j: int| raw.len() <= j < out@.len() ==> out@[j] == 0u8,
        decreases MIN_FRAME_LEN - out.len(),
    {
        out.push(0u8);
        proof {
            assert(out@.subrange(0, raw.len() as int) =~= raw);
        }
    }
    proof {
        if raw.len() < MIN_FRAME_LEN {
            assert(out@ =~= raw + Seq::new((MIN_FRAME_LEN - raw.len()) as nat, |i: int| 0u8));
        } else {
            assert(out@ =~= raw);
        }
    }
    out
}

} // verus!
