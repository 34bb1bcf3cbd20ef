use vstd::prelude::*;
use crate::Destination;
use crate::utils::{
    be16_bytes, be32, be32_bytes, checksum, lemma_checksum_patch_zero, spec_checksum,
    spec_patch_checksum,
};
use error::IpError;
use header::{parse_ip_header, spec_ip_header, IpHeaderWithoutOptions, IP_HEADER_LEN};
use icmp::{icmp_step, IcmpDriver, IcmpReply, IcmpStep, ICMP_PROTOCOL_NUMBER};
use icmp::error::IcmpError;

pub mod error;
pub mod header;
pub mod icmp;

verus! {

/// An IPv4 address, kept as the big-endian reading of its four wire
/// bytes (so `192.168.1.111` is `0xC0A8016F` whatever the machine).
#[derive(Debug, Clone, Copy, PartialEq, Eq, Structural, Hash)]
pub struct IpAddress(pub u32);

pub enum IpReply {
    Reply { dst: IpAddress, data: Vec<u8> },
    Nop,
}

/// The four bytes of `x` in reverse order.
pub open spec fn spec_swap_bytes(x: u32) -> u32 {
    ((x % 0x100) * 0x1000000 + ((x / 0x100) % 0x100) * 0x10000 + ((x / 0x10000) % 0x100) * 0x100
        + x / 0x1000000) as u32
}

impl IpAddress {
    /// Adopt four bytes given in wire (big-endian) order.
    pub fn new_be_bytes(addr: [u8; 4]) -> (r: Self)
        ensures
            r.0 == be32(addr@, 0),
    {
        IpAddress(
            (addr[0] as u32) * 0x1000000 + (addr[1] as u32) * 0x10000 + (addr[2] as u32) * 0x100
                + (addr[3] as u32),
        )
    }

    /// Adopt a 32-bit value whose bytes were loaded in the other
    /// order, as a little-endian host reads raw wire memory.
    pub fn from_be_int(addr: u32) -> (r: IpAddress)
        ensures
            r.0 == spec_swap_bytes(addr),
    {
        IpAddress(
            (addr % 0x100) * 0x1000000 + ((addr / 0x100) % 0x100) * 0x10000 + ((addr / 0x10000)
                % 0x100) * 0x100 + addr / 0x1000000,
        )
    }

    pub fn from_be(addr: IpAddress) -> (r: IpAddress)
        ensures
            r.0 == spec_swap_bytes(addr.0),
    {
        IpAddress::from_be_int(addr.0)
    }

    pub fn to_be(addr: IpAddress) -> (r: IpAddress)
        ensures
            r.0 == spec_swap_bytes(addr.0),
    {
        IpAddress::from_be_int(addr.0)
    }
}

/// What one IPv4 ingest step does, computed by `ip_step` from the
/// packet bytes alone.
pub enum IpStep {
    /// Too short, an IHL pointing outside the buffer or inside the
    /// fixed header, or no payload after the header.
    Malformed,
    /// Not version 4.
    BadVersion,
    BadChecksum,
    /// A transport protocol this stack does not speak.
    BadProtocol,
    /// An ICMP payload to hand on, with the sender address.
    Icmp { from: u32, payload: Seq<u8> },
}

pub open spec fn ip_step(d: Seq<u8>) -> IpStep {
    if d.len() < IP_HEADER_LEN {
        IpStep::Malformed
    } else {
        let h = spec_ip_header(d);
        let header_len = (h.spec_ihl() as int) * 4;
        if h.spec_version() != 4 {
            IpStep::BadVersion
        } else if header_len < IP_HEADER_LEN || header_len > d.len() {
            IpStep::Malformed
        } else if spec_checksum(d.take(header_len)) != 0 {
            IpStep::BadChecksum
        } else if header_len >= d.len() {
            IpStep::Malformed
        } else if h.protocol == ICMP_PROTOCOL_NUMBER {
            IpStep::Icmp { from: h.src_addr.0, payload: d.skip(header_len) }
        } else {
            IpStep::BadProtocol
        }
    }
}

/// An outgoing IPv4 header with a zeroed checksum field: version 4,
/// no options, default type of service, zero identification and
/// fragment fields, a fixed time-to-live of 64.
pub open spec fn spec_ip_header_bytes(proto: u8, total_len: u16, src: u32, dst: u32) -> Seq<u8> {
    seq![0x45u8, 0u8] + be16_bytes(total_len) + be16_bytes(0) + be16_bytes(0) + seq![64u8, proto]
        + seq![0u8, 0u8] + be32_bytes(src) + be32_bytes(dst)
}

/// A complete outgoing IPv4 packet: the header above with its checksum
/// patched in, then the payload.
pub open spec fn spec_ip_packet(proto: u8, src: u32, dst: u32, payload: Seq<u8>) -> Seq<u8> {
    spec_patch_checksum(
        spec_ip_header_bytes(proto, (IP_HEADER_LEN + payload.len()) as u16, src, dst),
        5,
    ) + payload
}

/// Wrap `payload` in a fresh IPv4 envelope from `src` to `dst`.
pub fn construct_packet(proto: u8, src: IpAddress, dst: IpAddress, payload: &[u8]) -> (r: Vec<u8>)
    requires
        payload@.len() + IP_HEADER_LEN <= 65535,
    ensures
        r@ == spec_ip_packet(proto, src.0, dst.0, payload@),
        r@.len() == IP_HEADER_LEN + payload@.len(),
        spec_checksum(r@.take(IP_HEADER_LEN as int)) == 0,
{
    let total_len: u16 = (IP_HEADER_LEN + payload.len()) as u16;
    let ghost base: Seq<u8> = spec_ip_header_bytes(proto, total_len, src.0, dst.0);
    let mut out: Vec<u8> = Vec::new();
    out.push(0x45);
    out.push(0);
    crate::utils::push_be16(&mut out, total_len);
    crate::utils::push_be16(&mut out, 0);
    crate::utils::push_be16(&mut out, 0);
    out.push(64);
    out.push(proto);
    out.push(0);
    out.push(0);
    crate::utils::push_be32(&mut out, src.0);
    crate::utils::push_be32(&mut out, dst.0);
    proof {
        assert(out@ =~= base);
    }
    let c = checksum(out.as_slice());
    out[10] = (c % 0x100) as u8;
    out[11] = (c / 0x100) as u8;
    proof {
        lemma_checksum_patch_zero(base, 5);
        assert(out@ =~= spec_patch_checksum(base, 5));
    }
    let ghost header: Seq<u8> = out@;
    let mut i: usize = 0;
    while i < payload.len()
        invariant
            i <= payload@.len(),
            header.len() == IP_HEADER_LEN,
            out@ == header + payload@.subrange(0, i as int),
        decreases payload@.len() - i,
    {
        out.push(payload[i]);
        proof {
            assert(out@ =~= header + payload@.subrange(0, i as int + 1));
        }
        i = i + 1;
    }
    proof {
        assert(out@ =~= header + payload@);
        assert(out@.take(IP_HEADER_LEN as int) =~= header);
    }
    out
}

/// A validator and router for inbound IPv4 packets.
pub trait IpParse: Sized {
    spec fn wf(&self) -> bool;

    fn new(my_addr: IpAddress) -> (r: Self)
        ensures
            r.wf(),
    ;

    fn parse(&mut self, data: &[u8], frame_dst: Destination) -> (r: Result<IpReply, IpError>)
        requires
            old(self).wf(),
            data@.len() <= 65535,
        ensures
            final(self).wf(),
    ;
}

/// Validates IPv4 headers and routes ICMP payloads to the Echo driver.
pub struct IpDriver {
    pub my_addr: IpAddress,
    pub icmp_driver: IcmpDriver,
}

impl IpDriver {
    /// Hand an ICMP payload to the Echo driver and, if it answers,
    /// wrap the answer in an IPv4 envelope back to the sender.
    fn parse_and_reply_icmp(&mut self, from: IpAddress, data: &[u8]) -> (r: Result<
        IpReply,
        IcmpError,
    >)
        requires
            old(self).icmp_driver.wf(),
            data@.len() + IP_HEADER_LEN <= 65535,
        ensures
            final(self).icmp_driver.wf(),
            final(self).icmp_driver.registered() == old(self).icmp_driver.registered(),
            final(self).my_addr == old(self).my_addr,
            ({
                let step = icmp_step(old(self).icmp_driver.registered(), data@);
                match step {
                    IcmpStep::Malformed => r == Err::<IpReply, IcmpError>(
                        IcmpError::InvalidIcmpPacket,
                    ),
                    IcmpStep::BadChecksum => r == Err::<IpReply, IcmpError>(
                        IcmpError::InvalidChecksum,
                    ),
                    IcmpStep::BadCode { .. } => r == Err::<IpReply, IcmpError>(
                        IcmpError::Unimplemented,
                    ),
                    IcmpStep::BadType { .. } => r == Err::<IpReply, IcmpError>(
                        IcmpError::Unimplemented,
                    ),
                    IcmpStep::EchoAnswer { packet } => {
                        &&& r matches Ok(IpReply::Reply { dst, data: out })
                        &&& dst == from
                        &&& out@ == spec_ip_packet(
                            ICMP_PROTOCOL_NUMBER,
                            old(self).my_addr.0,
                            from.0,
                            packet,
                        )
                    },
                    IcmpStep::Deliver { .. } => r == Ok::<IpReply, IcmpError>(IpReply::Nop) || r
                        == Err::<IpReply, IcmpError>(IcmpError::NoEmptyEchoBuffer),
                }
            }),
    {
        let reply = self.icmp_driver.parse(from, data)?;
        match reply {
            IcmpReply::Reply { dst, data } => Ok(
                IpReply::Reply {
                    dst,
                    data: construct_packet(
                        ICMP_PROTOCOL_NUMBER,
                        self.my_addr,
                        dst,
                        data.as_slice(),
                    ),
                },
            ),
            IcmpReply::Nop => Ok(IpReply::Nop),
        }
    }
}

impl IpParse for IpDriver {
    open spec fn wf(&self) -> bool {
        self.icmp_driver.wf()
    }

    fn new(my_addr: IpAddress) -> (r: Self)
        ensures
            r.my_addr == my_addr,
            r.icmp_driver.registered() == Set::<u16>::empty(),
    {
        IpDriver { my_addr, icmp_driver: IcmpDriver::new() }
    }

    /// Validate the header (version, bounds, checksum), slice off the
    /// payload, and route it by protocol number.
    fn parse(&mut self, data: &[u8], frame_dst: Destination) -> (r: Result<IpReply, IpError>)
        ensures
            final(self).my_addr == old(self).my_addr,
            final(self).icmp_driver.registered() == old(self).icmp_driver.registered(),
            ({
                let step = ip_step(data@);
                match step {
                    IpStep::Malformed => r == Err::<IpReply, IpError>(IpError::InvalidIpPacket),
                    IpStep::BadVersion => r == Err::<IpReply, IpError>(IpError::Unimplemented),
                    IpStep::BadChecksum => r == Err::<IpReply, IpError>(IpError::InvalidChecksum),
                    IpStep::BadProtocol => r == Err::<IpReply, IpError>(IpError::Unimplemented),
                    IpStep::Icmp { from, payload } => match icmp_step(
                        old(self).icmp_driver.registered(),
                        payload,
                    ) {
                        IcmpStep::Malformed => r == Err::<IpReply, IpError>(
                            IpError::IcmpError(IcmpError::InvalidIcmpPacket),
                        ),
                        IcmpStep::BadChecksum => r == Err::<IpReply, IpError>(
                            IpError::IcmpError(IcmpError::InvalidChecksum),
                        ),
                        IcmpStep::BadCode { .. } => r == Err::<IpReply, IpError>(
                            IpError::IcmpError(IcmpError::Unimplemented),
                        ),
                        IcmpStep::BadType { .. } => r == Err::<IpReply, IpError>(
                            IpError::IcmpError(IcmpError::Unimplemented),
                        ),
                        IcmpStep::EchoAnswer { packet } => {
                            &&& r matches Ok(IpReply::Reply { dst, data: out })
                            &&& dst.0 == from
                            &&& out@ == spec_ip_packet(
                                ICMP_PROTOCOL_NUMBER,
                                old(self).my_addr.0,
                                from,
                                packet,
                            )
                        },
                        IcmpStep::Deliver { .. } => r == Ok::<IpReply, IpError>(IpReply::Nop) || r
                            == Err::<IpReply, IpError>(
                            IpError::IcmpError(IcmpError::NoEmptyEchoBuffer),
                        ),
                    },
                }
            }),
    {
        let header = match parse_ip_header(data) {
            Some(h) => h,
            None => {
                return Err(IpError::InvalidIpPacket);
            },
        };
        if header.version() != 4 {
            return Err(IpError::Unimplemented);
        }
        let header_length_in_byte: usize = (header.ihl() as usize) * 4;
        if header_length_in_byte < IP_HEADER_LEN || header_length_in_byte > data.len() {
            return Err(IpError::InvalidIpPacket);
        }
        if !header.is_valid(data) {
            return Err(IpError::InvalidChecksum);
        }
        if header_length_in_byte >= data.len() {
            return Err(IpError::InvalidIpPacket);
        }
        let payload = vstd::slice::slice_subrange(data, header_length_in_byte, data.len());
        proof {
            assert(payload@ =~= data@.skip(header_length_in_byte as int));
        }
        if header.protocol == ICMP_PROTOCOL_NUMBER {
            match self.parse_and_reply_icmp(header.src_addr, payload) {
                Ok(reply) => Ok(reply),
                Err(e) => Err(IpError::IcmpError(e)),
            }
        } else {
            Err(IpError::Unimplemented)
        }
    }
}

} // verus!
