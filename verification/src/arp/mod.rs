use vstd::prelude::*;
use std::collections::HashMap;
use futures::channel::oneshot;
use crate::channel::{oneshot_channel_mac, oneshot_send_mac};
use crate::ether::{broadcast_mac_addr, push_mac, read_mac, spec_broadcast_mac, MacAddress};
use crate::ether::driver::errors::ARPError;
use crate::ip::IpAddress;
use crate::utils::{be16, be16_bytes, be32, be32_bytes, read_be32};
use crate::Destination;
use headers::{
    parse_arp_header, ARPHeader, ARPHRD_ETHER, ARPOP_REPLY, ARPOP_REQUEST, ARP_HEADER_LEN,
    ARP_PACKET_LEN, ETHERTYPE_IP,
};

pub mod headers;

verus! {

broadcast use vstd::std_specs::hash::group_hash_axioms;

pub enum ArpReply<T> {
    Reply { dst: T, data: Vec<u8> },
    Nop,
}

/// Parsed ARP body for the Ethernet/IPv4 case; the IP addresses are
/// converted to the internal (host) representation.
#[derive(Debug, Clone, Copy)]
pub struct EtherIpPayload {
    pub sender_mac_addr: MacAddress,
    pub sender_ip_addr: IpAddress,
    pub target_mac_addr: MacAddress,
    pub target_ip_addr: IpAddress,
}

/// What a resolution attempt yields: either the cached link address,
/// or a request packet to broadcast together with the handle that a
/// later matching reply completes.
#[verifier::reject_recursive_types(T)]
pub enum ResolveResult<T> {
    Found(T),
    NotFound { packet_to_send: Vec<u8>, result: oneshot::Receiver<T> },
}

pub open spec fn spec_sender_mac(d: Seq<u8>) -> Seq<u8> {
    d.subrange(8, 14)
}

pub open spec fn spec_sender_ip(d: Seq<u8>) -> u32 {
    be32(d, 14)
}

pub open spec fn spec_target_mac(d: Seq<u8>) -> Seq<u8> {
    d.subrange(18, 24)
}

pub open spec fn spec_target_ip(d: Seq<u8>) -> u32 {
    be32(d, 24)
}

/// Read the four addresses of an ARP packet (they follow the header).
pub fn parse_ether_ip_payload(data: &[u8]) -> (r: Option<EtherIpPayload>)
    ensures
        r is Some <==> data@.len() >= ARP_PACKET_LEN,
        r matches Some(p) ==> {
            &&& p.sender_mac_addr.address@ == spec_sender_mac(data@)
            &&& p.sender_ip_addr.0 == spec_sender_ip(data@)
            &&& p.target_mac_addr.address@ == spec_target_mac(data@)
            &&& p.target_ip_addr.0 == spec_target_ip(data@)
        },
{
    if data.len() < ARP_PACKET_LEN {
        None
    } else {
        Some(
            EtherIpPayload {
                sender_mac_addr: read_mac(data, 8),
                sender_ip_addr: IpAddress(read_be32(data, 14)),
                target_mac_addr: read_mac(data, 18),
                target_ip_addr: IpAddress(read_be32(data, 24)),
            },
        )
    }
}

/// A whole ARP packet for Ethernet/IPv4: hardware space Ethernet,
/// protocol space IPv4, address lengths 6 and 4, then the operation
/// and the four addresses, IP addresses serialized big-endian.
pub open spec fn spec_arp_packet(
    op_code: u16,
    sender_mac: Seq<u8>,
    sender_ip: u32,
    target_mac: Seq<u8>,
    target_ip: u32,
) -> Seq<u8> {
    be16_bytes(ARPHRD_ETHER) + be16_bytes(ETHERTYPE_IP) + seq![6u8, 4u8] + be16_bytes(op_code)
        + sender_mac + be32_bytes(sender_ip) + target_mac + be32_bytes(target_ip)
}

/// Serialize an ARP packet.
pub fn construct_arp_packet(
    op_code: u16,
    sender_mac: &MacAddress,
    sender_ip: IpAddress,
    target_mac: &MacAddress,
    target_ip: IpAddress,
) -> (r: Vec<u8>)
    ensures
        r@ == spec_arp_packet(
            op_code,
            sender_mac.address@,
            sender_ip.0,
            target_mac.address@,
            target_ip.0,
        ),
        r@.len() == ARP_PACKET_LEN,
{
    let mut out: Vec<u8> = Vec::new();
    crate::utils::push_be16(&mut out, ARPHRD_ETHER);
    crate::utils::push_be16(&mut out, ETHERTYPE_IP);
    out.push(6);
    out.push(4);
    crate::utils::push_be16(&mut out, op_code);
    push_mac(&mut out, sender_mac);
    crate::utils::push_be32(&mut out, sender_ip.0);
    push_mac(&mut out, target_mac);
    crate::utils::push_be32(&mut out, target_ip.0);
    proof {
        assert(out@ =~= spec_arp_packet(
            op_code,
            sender_mac.address@,
            sender_ip.0,
            target_mac.address@,
            target_ip.0,
        ));
    }
    out
}

/// What one ARP ingest step does, computed by `arp_step` from our own
/// addresses, the packet bytes and the frame classification alone.
pub enum ArpStep {
    /// Too short, or a packet that should not have reached us.
    Malformed,
    BadHardware { space: u16 },
    BadProtocol { space: u16 },
    BadOp { op: u16 },
    /// A request overheard in promiscuous mode for another host.
    Ignored,
    /// A reply addressed to us: learn the sender's mapping and wake
    /// whoever waits on it.
    CacheUpdate { ip: u32, mac: Seq<u8> },
    /// A reply overheard in promiscuous mode: wake a waiter, but do
    /// not touch the cache.
    Overheard { ip: u32, mac: Seq<u8> },
    /// A request for our address: answer it.
    Answer { requester_mac: Seq<u8>, packet: Seq<u8> },
}

pub open spec fn arp_step(my_mac: Seq<u8>, my_ip: u32, d: Seq<u8>, dst: Destination) -> ArpStep {
    if d.len() < ARP_HEADER_LEN {
        ArpStep::Malformed
    } else if be16(d, 0) != ARPHRD_ETHER {
        ArpStep::BadHardware { space: be16(d, 0) }
    } else if be16(d, 2) != ETHERTYPE_IP {
        ArpStep::BadProtocol { space: be16(d, 2) }
    } else if be16(d, 6) == ARPOP_REPLY {
        if d.len() < ARP_PACKET_LEN {
            ArpStep::Malformed
        } else if spec_target_mac(d) == my_mac && spec_target_ip(d) == my_ip {
            ArpStep::CacheUpdate { ip: spec_sender_ip(d), mac: spec_sender_mac(d) }
        } else if dst != Destination::Promisc {
            ArpStep::Malformed
        } else {
            ArpStep::Overheard { ip: spec_sender_ip(d), mac: spec_sender_mac(d) }
        }
    } else if be16(d, 6) == ARPOP_REQUEST {
        if d.len() < ARP_PACKET_LEN {
            ArpStep::Malformed
        } else if spec_target_ip(d) == my_ip {
            ArpStep::Answer {
                requester_mac: spec_sender_mac(d),
                packet: spec_arp_packet(
                    ARPOP_REPLY,
                    my_mac,
                    my_ip,
                    spec_sender_mac(d),
                    spec_sender_ip(d),
                ),
            }
        } else if dst != Destination::Promisc {
            ArpStep::Malformed
        } else {
            ArpStep::Ignored
        }
    } else {
        ArpStep::BadOp { op: be16(d, 6) }
    }
}

/// The ARP engine: the address cache and the pending resolutions.
pub struct EtherIpResolver {
    pub arp_table: HashMap<u32, MacAddress>,
    pub my_mac_addr: MacAddress,
    pub my_ip_addr: IpAddress,
    pub requests: HashMap<u32, oneshot::Sender<MacAddress>>,
}

impl EtherIpResolver {
    /// The learned mapping from IP addresses to link addresses.
    pub open spec fn cache(self) -> Map<u32, Seq<u8>> {
        self.arp_table@.map_values(|m: MacAddress| m.address@)
    }

    /// The addresses with a resolution in flight.
    pub open spec fn pending(self) -> Set<u32> {
        self.requests@.dom()
    }

    pub fn new(mac_addr: MacAddress, ip_addr: IpAddress) -> (r: Self)
        ensures
            r.my_mac_addr == mac_addr,
            r.my_ip_addr == ip_addr,
            r.cache() == Map::<u32, Seq<u8>>::empty(),
            r.pending() == Set::<u32>::empty(),
    {
        let r = EtherIpResolver {
            arp_table: HashMap::new(),
            my_mac_addr: mac_addr,
            my_ip_addr: ip_addr,
            requests: HashMap::new(),
        };
        proof {
            assert(r.cache() =~= Map::<u32, Seq<u8>>::empty());
            assert(r.pending() =~= Set::<u32>::empty());
        }
        r
    }

    /// Look `key` up in the cache; on a miss, build the broadcast ARP
    /// request and register a pending resolution for `key` (replacing
    /// any earlier one: only the newest waiter will be woken).
    pub fn resolve(&mut self, key: IpAddress) -> (r: ResolveResult<MacAddress>)
        ensures
            final(self).my_mac_addr == old(self).my_mac_addr,
            final(self).my_ip_addr == old(self).my_ip_addr,
            final(self).cache() == old(self).cache(),
            old(self).cache().contains_key(key.0) ==> {
                &&& r matches ResolveResult::Found(m) && m.address@ == old(self).cache()[key.0]
                &&& final(self).pending() == old(self).pending()
            },
            !old(self).cache().contains_key(key.0) ==> {
                &&& r matches ResolveResult::NotFound { packet_to_send, result }
                    && packet_to_send@ == spec_arp_packet(
                    ARPOP_REQUEST,
                    old(self).my_mac_addr.address@,
                    old(self).my_ip_addr.0,
                    spec_broadcast_mac(),
                    key.0,
                )
                &&& final(self).pending() == old(self).pending().insert(key.0)
            },
    {
        proof {
            assert(old(self).cache().contains_key(key.0) == old(self).arp_table@.contains_key(
                key.0,
            ));
        }
        match self.arp_table.get(&key.0) {
            Some(mac) => {
                let m = *mac;
                proof {
                    assert(old(self).cache()[key.0] == m.address@);
                }
                ResolveResult::Found(m)
            },
            None => {
                let broadcast = broadcast_mac_addr();
                let packet = construct_arp_packet(
                    ARPOP_REQUEST,
                    &self.my_mac_addr,
                    self.my_ip_addr,
                    &broadcast,
                    key,
                );
                let (sender, receiver) = oneshot_channel_mac();
                self.requests.insert(key.0, sender);
                proof {
                    assert(self.pending() =~= old(self).pending().insert(key.0));
                }
                ResolveResult::NotFound { packet_to_send: packet, result: receiver }
            },
        }
    }

    /// Ingest one ARP packet. Replies addressed to us update the cache
    /// and complete a pending resolution; requests for our address are
    /// answered; what a promiscuous interface overhears is handled per
    /// `arp_step`.
    pub fn parse(&mut self, data: &[u8], dst: Destination) -> (r: Result<
        ArpReply<MacAddress>,
        ARPError,
    >)
        ensures
            final(self).my_mac_addr == old(self).my_mac_addr,
            final(self).my_ip_addr == old(self).my_ip_addr,
            ({
                let step = arp_step(
                    old(self).my_mac_addr.address@,
                    old(self).my_ip_addr.0,
                    data@,
                    dst,
                );
                match step {
                    ArpStep::Malformed => {
                        &&& r == Err::<ArpReply<MacAddress>, ARPError>(ARPError::InvalidARPPacket)
                        &&& final(self).cache() == old(self).cache()
                        &&& final(self).pending() == old(self).pending()
                    },
                    ArpStep::BadHardware { space } => {
                        &&& r == Err::<ArpReply<MacAddress>, ARPError>(
                            ARPError::UnsupportedHardwareAddressSpace(space),
                        )
                        &&& final(self).cache() == old(self).cache()
                        &&& final(self).pending() == old(self).pending()
                    },
                    ArpStep::BadProtocol { space } => {
                        &&& r == Err::<ArpReply<MacAddress>, ARPError>(
                            ARPError::UnsupportedProtocolAddressSpace(space),
                        )
                        &&& final(self).cache() == old(self).cache()
                        &&& final(self).pending() == old(self).pending()
                    },
                    ArpStep::BadOp { op } => {
                        &&& r == Err::<ArpReply<MacAddress>, ARPError>(
                            ARPError::UnsupportedOperationCode(op),
                        )
                        &&& final(self).cache() == old(self).cache()
                        &&& final(self).pending() == old(self).pending()
                    },
                    ArpStep::Ignored => {
                        &&& r == Ok::<ArpReply<MacAddress>, ARPError>(ArpReply::Nop)
                        &&& final(self).cache() == old(self).cache()
                        &&& final(self).pending() == old(self).pending()
                    },
                    ArpStep::CacheUpdate { ip, mac } => {
                        &&& r == Ok::<ArpReply<MacAddress>, ARPError>(ArpReply::Nop)
                        &&& final(self).cache() == old(self).cache().insert(ip, mac)
                        &&& final(self).pending() == old(self).pending().remove(ip)
                    },
                    ArpStep::Overheard { ip, mac } => {
                        &&& r == Ok::<ArpReply<MacAddress>, ARPError>(ArpReply::Nop)
                        &&& final(self).cache() == old(self).cache()
                        &&& final(self).pending() == old(self).pending().remove(ip)
                    },
                    ArpStep::Answer { requester_mac, packet } => {
                        &&& r matches Ok(ArpReply::Reply { dst: reply_dst, data: reply_data })
                            && reply_dst.address@ == requester_mac && reply_data@ == packet
                        &&& final(self).cache() == old(self).cache()
                        &&& final(self).pending() == old(self).pending()
                    },
                }
            }),
    {
        let header = match parse_arp_header(data) {
            Some(h) => h,
            None => {
                return Err(ARPError::InvalidARPPacket);
            },
        };
        if header.hard_addr_space != ARPHRD_ETHER {
            return Err(ARPError::UnsupportedHardwareAddressSpace(header.hard_addr_space));
        }
        if header.proto_addr_space != ETHERTYPE_IP {
            return Err(ARPError::UnsupportedProtocolAddressSpace(header.proto_addr_space));
        }
        if header.op_code == ARPOP_REPLY {
            let payload = match parse_ether_ip_payload(data) {
                Some(p) => p,
                None => {
                    return Err(ARPError::InvalidARPPacket);
                },
            };
            if payload.target_mac_addr == self.my_mac_addr && payload.target_ip_addr
                == self.my_ip_addr {
                self.arp_table.insert(payload.sender_ip_addr.0, payload.sender_mac_addr);
                proof {
                    assert(self.cache() =~= old(self).cache().insert(
                        payload.sender_ip_addr.0,
                        payload.sender_mac_addr.address@,
                    ));
                }
            } else if dst != Destination::Promisc {
                return Err(ARPError::InvalidARPPacket);
            }
            match self.requests.remove(&payload.sender_ip_addr.0) {
                Some(sender) => {
                    oneshot_send_mac(sender, payload.sender_mac_addr);
                },
                None => {},
            }
            proof {
                assert(self.pending() =~= old(self).pending().remove(payload.sender_ip_addr.0));
            }
            Ok(ArpReply::Nop)
        } else if header.op_code == ARPOP_REQUEST {
            let payload = match parse_ether_ip_payload(data) {
                Some(p) => p,
                None => {
                    return Err(ARPError::InvalidARPPacket);
                },
            };
            if payload.target_ip_addr != self.my_ip_addr {
                if dst != Destination::Promisc {
                    return Err(ARPError::InvalidARPPacket);
                }
                return Ok(ArpReply::Nop);
            }
            let result = construct_arp_packet(
                ARPOP_REPLY,
                &self.my_mac_addr,
                self.my_ip_addr,
                &payload.sender_mac_addr,
                payload.sender_ip_addr,
            );
            Ok(ArpReply::Reply { dst: payload.sender_mac_addr, data: result })
        } else {
            Err(ARPError::UnsupportedOperationCode(header.op_code))
        }
    }
}

} // verus!
