use vstd::prelude::*;
use std::collections::{HashMap, HashSet};
use futures::channel::mpsc;
use crate::channel::{mpsc_channel_echo, mpsc_try_send_echo};
use crate::ip::IpAddress;
use crate::utils::{
    be16, be16_bytes, checksum, read_be16, spec_checksum, spec_patch_checksum,
    lemma_checksum_patch_zero, MAX_CHECKSUM_LEN,
};

pub mod echo;
pub mod error;
pub mod header;

use echo::{EchoPacketWithoutData, EchoReply};
use error::IcmpError;

verus! {

broadcast use vstd::std_specs::hash::group_hash_axioms;

pub const ICMP_PROTOCOL_NUMBER: u8 = 1;

pub const ECHO_REPLY_TYPE: u8 = 0;

pub const ECHO_TYPE: u8 = 8;

pub const ECHO_CODE: u8 = 0;

/// How many undrained Echo replies one registration can buffer.
const BUFFER_SIZE: usize = 32;

/// Bytes of an Echo packet before its opaque payload: the ICMP header
/// and the Echo sub-header.
pub const ECHO_PACKET_PREFIX_LEN: usize = 8;

pub enum IcmpReply {
    Reply { dst: IpAddress, data: Vec<u8> },
    Nop,
}

/// Tracks outstanding Echo exchanges: one reply sink per identifier in
/// use. Identifiers are never reused while the driver lives.
pub struct IcmpDriver {
    pub echo_requests: HashMap<u16, mpsc::Sender<EchoReply>>,
    pub used_identifier: HashSet<u16>,
}

/// Sequence numbers advance by one and wrap at the 16-bit boundary.
pub open spec fn seq_plus_one(s: u16) -> u16 {
    ((s + 1) % 0x10000) as u16
}

/// An Echo packet with a zeroed checksum field: type, code 0, zero
/// checksum, identifier, sequence number, payload.
pub open spec fn spec_echo_packet(
    icmp_type: u8,
    identifier: u16,
    sequence_id: u16,
    payload: Seq<u8>,
) -> Seq<u8> {
    seq![icmp_type, ECHO_CODE, 0u8, 0u8] + be16_bytes(identifier) + be16_bytes(sequence_id)
        + payload
}

/// What one ICMP ingest step does, computed by `icmp_step` from the
/// registered identifiers and the packet bytes alone.
pub enum IcmpStep {
    /// Too short, or an Echo reply naming an unknown identifier.
    Malformed,
    BadChecksum,
    BadCode { code: u8 },
    BadType { icmp_type: u8 },
    /// An Echo request for us: answer with this ready-to-send packet.
    EchoAnswer { packet: Seq<u8> },
    /// An Echo reply for a registered exchange: hand it over.
    Deliver { id: u16, sequence: u16, payload: Seq<u8> },
}

pub open spec fn icmp_step(registered: Set<u16>, d: Seq<u8>) -> IcmpStep {
    if d.len() < 4 {
        IcmpStep::Malformed
    } else if spec_checksum(d) != 0 {
        IcmpStep::BadChecksum
    } else if d[1] != ECHO_CODE {
        IcmpStep::BadCode { code: d[1] }
    } else if d[0] == ECHO_TYPE {
        if d.len() < 8 {
            IcmpStep::Malformed
        } else {
            IcmpStep::EchoAnswer {
                packet: spec_patch_checksum(
                    spec_echo_packet(
                        ECHO_REPLY_TYPE,
                        be16(d, 4),
                        seq_plus_one(be16(d, 6)),
                        d.skip(8),
                    ),
                    1,
                ),
            }
        }
    } else if d[0] == ECHO_REPLY_TYPE {
        if d.len() < 8 {
            IcmpStep::Malformed
        } else if !registered.contains(be16(d, 4)) {
            IcmpStep::Malformed
        } else {
            IcmpStep::Deliver {
                id: be16(d, 4),
                sequence: seq_plus_one(be16(d, 6)),
                payload: d.skip(8),
            }
        }
    } else {
        IcmpStep::BadType { icmp_type: d[0] }
    }
}

/// Law: a well-formed Echo Reply that names a registered identifier is
/// classified for delivery to that identifier's sink, carrying the
/// next sequence number and the payload intact.
pub proof fn lemma_echo_reply_is_delivered(
    registered: Set<u16>,
    identifier: u16,
    sequence_id: u16,
    payload: Seq<u8>,
)
    requires
        registered.contains(identifier),
    ensures
        icmp_step(
            registered,
            spec_patch_checksum(
                spec_echo_packet(ECHO_REPLY_TYPE, identifier, sequence_id, payload),
                1,
            ),
        ) == (IcmpStep::Deliver {
            id: identifier,
            sequence: seq_plus_one(sequence_id),
            payload,
        }),
{
    let base = spec_echo_packet(ECHO_REPLY_TYPE, identifier, sequence_id, payload);
    let p = spec_patch_checksum(base, 1);
    assert(base.len() == 8 + payload.len());
    assert(base[2] == 0);
    assert(base[3] == 0);
    lemma_checksum_patch_zero(base, 1);
    assert(p[0] == ECHO_REPLY_TYPE);
    assert(p[1] == ECHO_CODE);
    assert(be16(p, 4) == identifier) by {
        assert(p[4] == (identifier / 0x100) as u8);
        assert(p[5] == (identifier % 0x100) as u8);
        vstd::arithmetic::div_mod::lemma_fundamental_div_mod(identifier as int, 0x100);
    }
    assert(be16(p, 6) == sequence_id) by {
        assert(p[6] == (sequence_id / 0x100) as u8);
        assert(p[7] == (sequence_id % 0x100) as u8);
        vstd::arithmetic::div_mod::lemma_fundamental_div_mod(sequence_id as int, 0x100);
    }
    assert(p.skip(8) =~= payload);
}

/// Serialize an Echo packet: header and sub-header around `data`, with
/// the checksum over the whole packet patched into bytes 2 and 3.
pub fn construct_echo_packet(icmp_type: u8, echo_wo_data: EchoPacketWithoutData, data: &[u8]) -> (r:
    Vec<u8>)
    requires
        data@.len() + 8 <= MAX_CHECKSUM_LEN,
    ensures
        r@ == spec_patch_checksum(
            spec_echo_packet(icmp_type, echo_wo_data.identifier, echo_wo_data.sequence_id, data@),
            1,
        ),
        r@.len() == 8 + data@.len(),
        spec_checksum(r@) == 0,
{
    let ghost base: Seq<u8> = spec_echo_packet(
        icmp_type,
        echo_wo_data.identifier,
        echo_wo_data.sequence_id,
        data@,
    );
    let mut out: Vec<u8> = Vec::new();
    out.push(icmp_type);
    out.push(ECHO_CODE);
    out.push(0);
    out.push(0);
    crate::utils::push_be16(&mut out, echo_wo_data.identifier);
    crate::utils::push_be16(&mut out, echo_wo_data.sequence_id);
    proof {
        assert(out@ =~= base.take(8));
    }
    let mut i: usize = 0;
    while i < data.len()
        invariant
            i <= data@.len(),
            base == spec_echo_packet(
                icmp_type,
                echo_wo_data.identifier,
                echo_wo_data.sequence_id,
                data@,
            ),
            base.len() == 8 + data@.len(),
            out@ == base.take(8 + i as int),
        decreases data@.len() - i,
    {
        out.push(data[i]);
        proof {
            assert(out@ =~= base.take(8 + i as int + 1));
        }
        i = i + 1;
    }
    proof {
        assert(out@ =~= base);
    }
    let c = checksum(out.as_slice());
    out[2] = (c % 0x100) as u8;
    out[3] = (c / 0x100) as u8;
    proof {
        lemma_checksum_patch_zero(base, 1);
        assert(out@ =~= spec_patch_checksum(base, 1));
    }
    out
}

impl IcmpDriver {
    /// Identifiers with a live registration.
    pub open spec fn registered(self) -> Set<u16> {
        self.echo_requests@.dom()
    }

    /// The identifier ledger and the sink table always agree.
    pub open spec fn wf(self) -> bool {
        self.used_identifier@ == self.echo_requests@.dom()
    }

    pub fn new() -> (r: Self)
        ensures
            r.wf(),
            r.registered() == Set::<u16>::empty(),
    {
        let r = IcmpDriver { echo_requests: HashMap::new(), used_identifier: HashSet::new() };
        proof {
            assert(r.used_identifier@ =~= r.echo_requests@.dom());
        }
        r
    }

    /// Open a new Echo exchange: take the lowest identifier not yet in
    /// use (there may be none), build the Echo request around `data`,
    /// and return the packet plus the sink where replies will land.
    pub fn register_echo(&mut self, data: &[u8]) -> (r: Option<
        (u16, Vec<u8>, mpsc::Receiver<EchoReply>),
    >)
        requires
            old(self).wf(),
            data@.len() + 8 <= MAX_CHECKSUM_LEN,
        ensures
            final(self).wf(),
            r matches Some(t) ==> {
                &&& !old(self).registered().contains(t.0)
                &&& forall|j: u16| j < t.0 ==> old(self).registered().contains(j)
                &&& final(self).registered() == old(self).registered().insert(t.0)
                &&& t.1@ == spec_patch_checksum(spec_echo_packet(ECHO_TYPE, t.0, 0, data@), 1)
                &&& spec_checksum(t.1@) == 0
            },
            r is None ==> {
                &&& forall|j: u16| old(self).registered().contains(j)
                &&& final(self).registered() == old(self).registered()
            },
    {
        let mut identifier: u16 = 0;
        while self.used_identifier.contains(&identifier)
            invariant
                self.echo_requests@ == old(self).echo_requests@,
                self.used_identifier@ == old(self).used_identifier@,
                self.wf(),
                forall|j: u16| j < identifier ==> old(self).registered().contains(j),
            decreases 0x10000 - identifier,
        {
            if identifier == 0xFFFF {
                proof {
                    assert forall|j: u16| old(self).registered().contains(j) by {
                        if j < 0xFFFF {
                        }
                    }
                }
                return None;
            }
            identifier = identifier + 1;
        }
        let (sender, receiver) = mpsc_channel_echo(BUFFER_SIZE);
        self.used_identifier.insert(identifier);
        self.echo_requests.insert(identifier, sender);
        proof {
            assert(self.used_identifier@ =~= self.echo_requests@.dom());
        }
        let packet = construct_echo_packet(
            ECHO_TYPE,
            EchoPacketWithoutData { identifier, sequence_id: 0 },
            data,
        );
        Some((identifier, packet, receiver))
    }

    /// Ingest one ICMP packet from `from`. Echo requests produce the
    /// reply packet to send back; Echo replies are delivered to their
    /// registered sink (a full sink loses the reply and reports it).
    pub fn parse(&mut self, from: IpAddress, data: &[u8]) -> (r: Result<IcmpReply, IcmpError>)
        requires
            old(self).wf(),
            data@.len() <= MAX_CHECKSUM_LEN,
        ensures
            final(self).wf(),
            final(self).registered() == old(self).registered(),
            ({
                let step = icmp_step(old(self).registered(), data@);
                match step {
                    IcmpStep::Malformed => r == Err::<IcmpReply, IcmpError>(
                        IcmpError::InvalidIcmpPacket,
                    ),
                    IcmpStep::BadChecksum => r == Err::<IcmpReply, IcmpError>(
                        IcmpError::InvalidChecksum,
                    ),
                    IcmpStep::BadCode { code } => r == Err::<IcmpReply, IcmpError>(
                        IcmpError::Unimplemented,
                    ),
                    IcmpStep::BadType { icmp_type } => r == Err::<IcmpReply, IcmpError>(
                        IcmpError::Unimplemented,
                    ),
                    IcmpStep::EchoAnswer { packet } => {
                        &&& r matches Ok(IcmpReply::Reply { dst, data: out })
                        &&& dst == from
                        &&& out@ == packet
                    },
                    IcmpStep::Deliver { id, sequence, payload } => r == Ok::<
                        IcmpReply,
                        IcmpError,
                    >(IcmpReply::Nop) || r == Err::<IcmpReply, IcmpError>(
                        IcmpError::NoEmptyEchoBuffer,
                    ),
                }
            }),
    {
        let header = match header::parse_icmp_header(data) {
            Some(h) => h,
            None => {
                return Err(IcmpError::InvalidIcmpPacket);
            },
        };
        if checksum(data) != 0 {
            return Err(IcmpError::InvalidChecksum);
        }
        if header.code != ECHO_CODE {
            return Err(IcmpError::Unimplemented);
        }
        if header.icmp_type == ECHO_TYPE {
            if data.len() < ECHO_PACKET_PREFIX_LEN {
                return Err(IcmpError::InvalidIcmpPacket);
            }
            let id = read_be16(data, 4);
            let sq = read_be16(data, 6);
            let next: u16 = if sq == 0xFFFF {
                0
            } else {
                sq + 1
            };
            let payload = vstd::slice::slice_subrange(data, 8, data.len());
            proof {
                assert(payload@ =~= data@.skip(8));
            }
            let out = construct_echo_packet(
                ECHO_REPLY_TYPE,
                EchoPacketWithoutData { identifier: id, sequence_id: next },
                payload,
            );
            Ok(IcmpReply::Reply { dst: from, data: out })
        } else if header.icmp_type == ECHO_REPLY_TYPE {
            if data.len() < ECHO_PACKET_PREFIX_LEN {
                return Err(IcmpError::InvalidIcmpPacket);
            }
            let id = read_be16(data, 4);
            let sq = read_be16(data, 6);
            match self.echo_requests.remove(&id) {
                None => {
                    proof {
                        assert(self.echo_requests@ =~= old(self).echo_requests@);
                    }
                    Err(IcmpError::InvalidIcmpPacket)
                },
                Some(sender) => {
                    let mut sender = sender;
                    let next: u16 = if sq == 0xFFFF {
                        0
                    } else {
                        sq + 1
                    };
                    let payload = vstd::slice::slice_to_vec(
                        vstd::slice::slice_subrange(data, 8, data.len()),
                    );
                    proof {
                        assert(payload@ =~= data@.skip(8));
                    }
                    let ok = mpsc_try_send_echo(
                        &mut sender,
                        EchoReply { src: from, sequence_id: next, data: payload },
                    );
                    self.echo_requests.insert(id, sender);
                    proof {
                        assert(self.echo_requests@.dom() =~= old(self).echo_requests@.dom());
                        assert(self.used_identifier@ =~= self.echo_requests@.dom());
                    }
                    if ok {
                        Ok(IcmpReply::Nop)
                    } else {
                        Err(IcmpError::NoEmptyEchoBuffer)
                    }
                },
            }
        } else {
            Err(IcmpError::Unimplemented)
        }
    }
}

} // verus!
