use vstd::prelude::*;
use futures::channel::oneshot;
use crate::arp::headers::ARPOP_REQUEST;
use crate::arp::{arp_step, spec_arp_packet, ArpReply, ArpStep, EtherIpResolver, ResolveResult};
use crate::ether::header::{
    construct_ethernet_frame, parse_mac_header, spec_ethernet_frame, spec_frame_dst_mac,
    spec_frame_ether_type, ETHERTYPE_ARP, ETHERTYPE_IP, MAC_HEADER_LEN,
};
use crate::ether::{broadcast_mac_addr, spec_broadcast_mac, MacAddress};
use crate::ip::icmp::error::IcmpError;
use crate::ip::icmp::{icmp_step, IcmpStep, ICMP_PROTOCOL_NUMBER};
use crate::ip::error::IpError;
use crate::ip::{ip_step, spec_ip_packet, IpAddress, IpDriver, IpParse, IpReply, IpStep};
use crate::Destination;
use errors::ARPError;

pub mod errors;

verus! {

/// What the dispatcher found wrong with a frame; reported, never fatal.
#[derive(Debug)]
pub enum EtherError {
    Arp(ARPError),
    Ip(IpError),
}

/// What the caller of `analyze` has to do next: nothing, transmit a
/// frame, or transmit an ARP request and hold a reply frame back until
/// the resolution it started completes.
pub enum EtherReply {
    Nop,
    Send { frame: Vec<u8> },
    WaitAndSend {
        request_frame: Vec<u8>,
        resolved: oneshot::Receiver<MacAddress>,
        pending_packet: Vec<u8>,
    },
}

/// Outcome of a caller-initiated resolution: the address, or the frame
/// to broadcast plus the handle a matching reply completes.
pub enum ResolveAction {
    Found(MacAddress),
    Request { frame: Vec<u8>, resolved: oneshot::Receiver<MacAddress> },
}

/// Where a frame with this destination address is headed, seen from a
/// host with address `my_mac`.
pub open spec fn spec_classify(my_mac: Seq<u8>, dst_mac: Seq<u8>) -> Destination {
    if dst_mac == my_mac {
        Destination::ToMyself
    } else if dst_mac == spec_broadcast_mac() {
        Destination::Broadcast
    } else {
        Destination::Promisc
    }
}

/// The frame-level dispatcher: classifies inbound frames, gates what a
/// non-promiscuous interface should not see, routes by EtherType, and
/// wraps replies into outbound frames.
pub struct EthernetDriver {
    pub promisc: bool,
    pub arp_resolver: EtherIpResolver,
    pub ip_parser: IpDriver,
    pub mac_addr: MacAddress,
}

impl EthernetDriver {
    pub open spec fn my_mac(self) -> Seq<u8> {
        self.mac_addr.address@
    }

    pub open spec fn my_ip(self) -> u32 {
        self.arp_resolver.my_ip_addr.0
    }

    pub open spec fn cache(self) -> Map<u32, Seq<u8>> {
        self.arp_resolver.cache()
    }

    pub open spec fn pending(self) -> Set<u32> {
        self.arp_resolver.pending()
    }

    pub open spec fn registered(self) -> Set<u16> {
        self.ip_parser.icmp_driver.registered()
    }

    /// The three components agree on whose addresses they speak for,
    /// and the Echo registry is consistent.
    pub open spec fn wf(self) -> bool {
        &&& self.ip_parser.icmp_driver.wf()
        &&& self.arp_resolver.my_mac_addr.address@ == self.mac_addr.address@
        &&& self.ip_parser.my_addr == self.arp_resolver.my_ip_addr
    }

    pub fn new(mac_addr: MacAddress, ip_addr: IpAddress, promisc: bool) -> (r: Self)
        ensures
            r.wf(),
            r.promisc == promisc,
            r.my_mac() == mac_addr.address@,
            r.my_ip() == ip_addr.0,
            r.cache() == Map::<u32, Seq<u8>>::empty(),
            r.pending() == Set::<u32>::empty(),
            r.registered() == Set::<u16>::empty(),
    {
        EthernetDriver {
            promisc,
            arp_resolver: EtherIpResolver::new(mac_addr, ip_addr),
            ip_parser: IpDriver::new(ip_addr),
            mac_addr,
        }
    }

    /// Handle one ARP payload: parse it, and wrap any answer into a
    /// frame back to the requester.
    fn analyze_arp(&mut self, data: &[u8], frame_dst: Destination) -> (r: Result<
        EtherReply,
        EtherError,
    >)
        requires
            old(self).wf(),
        ensures
            final(self).wf(),
            final(self).promisc == old(self).promisc,
            final(self).mac_addr == old(self).mac_addr,
            final(self).my_ip() == old(self).my_ip(),
            final(self).registered() == old(self).registered(),
            ({
                let step = arp_step(old(self).my_mac(), old(self).my_ip(), data@, frame_dst);
                match step {
                    ArpStep::Malformed => {
                        &&& r == Err::<EtherReply, EtherError>(
                            EtherError::Arp(ARPError::InvalidARPPacket),
                        )
                        &&& final(self).cache() == old(self).cache()
                        &&& final(self).pending() == old(self).pending()
                    },
                    ArpStep::BadHardware { space } => {
                        &&& r == Err::<EtherReply, EtherError>(
                            EtherError::Arp(ARPError::UnsupportedHardwareAddressSpace(space)),
                        )
                        &&& final(self).cache() == old(self).cache()
                        &&& final(self).pending() == old(self).pending()
                    },
                    ArpStep::BadProtocol { space } => {
                        &&& r == Err::<EtherReply, EtherError>(
                            EtherError::Arp(ARPError::UnsupportedProtocolAddressSpace(space)),
                        )
                        &&& final(self).cache() == old(self).cache()
                        &&& final(self).pending() == old(self).pending()
                    },
                    ArpStep::BadOp { op } => {
                        &&& r == Err::<EtherReply, EtherError>(
                            EtherError::Arp(ARPError::UnsupportedOperationCode(op)),
                        )
                        &&& final(self).cache() == old(self).cache()
                        &&& final(self).pending() == old(self).pending()
                    },
                    ArpStep::Ignored => {
                        &&& r == Ok::<EtherReply, EtherError>(EtherReply::Nop)
                        &&& final(self).cache() == old(self).cache()
                        &&& final(self).pending() == old(self).pending()
                    },
                    ArpStep::CacheUpdate { ip, mac } => {
                        &&& r == Ok::<EtherReply, EtherError>(EtherReply::Nop)
                        &&& final(self).cache() == old(self).cache().insert(ip, mac)
                        &&& final(self).pending() == old(self).pending().remove(ip)
                    },
                    ArpStep::Overheard { ip, mac } => {
                        &&& r == Ok::<EtherReply, EtherError>(EtherReply::Nop)
                        &&& final(self).cache() == old(self).cache()
                        &&& final(self).pending() == old(self).pending().remove(ip)
                    },
                    ArpStep::Answer { requester_mac, packet } => {
                        &&& r matches Ok(EtherReply::Send { frame }) && frame@
                            == spec_ethernet_frame(
                            requester_mac,
                            old(self).my_mac(),
                            ETHERTYPE_ARP,
                            packet,
                        )
                        &&& final(self).cache() == old(self).cache()
                        &&& final(self).pending() == old(self).pending()
                    },
                }
            }),
    {
        match self.arp_resolver.parse(data, frame_dst) {
            Err(err) => Err(EtherError::Arp(err)),
            Ok(ArpReply::Nop) => Ok(EtherReply::Nop),
            Ok(ArpReply::Reply { dst, data }) => Ok(
                EtherReply::Send {
                    frame: construct_ethernet_frame(
                        &dst,
                        &self.mac_addr,
                        ETHERTYPE_ARP,
                        data.as_slice(),
                    ),
                },
            ),
        }
    }

    /// Handle one IPv4 payload: parse it, and wrap any ICMP answer
    /// into a frame, resolving the destination address first if the
    /// cache does not know it yet.
    fn analyze_ipv4(&mut self, data: &[u8], frame_dst: Destination) -> (r: Result<
        EtherReply,
        EtherError,
    >)
        requires
            old(self).wf(),
            data@.len() <= 65535,
        ensures
            final(self).wf(),
            final(self).promisc == old(self).promisc,
            final(self).mac_addr == old(self).mac_addr,
            final(self).my_ip() == old(self).my_ip(),
            final(self).registered() == old(self).registered(),
            final(self).cache() == old(self).cache(),
            ({
                let step = ip_step(data@);
                match step {
                    IpStep::Malformed => {
                        &&& r == Err::<EtherReply, EtherError>(
                            EtherError::Ip(IpError::InvalidIpPacket),
                        )
                        &&& final(self).pending() == old(self).pending()
                    },
                    IpStep::BadVersion => {
                        &&& r == Err::<EtherReply, EtherError>(
                            EtherError::Ip(IpError::Unimplemented),
                        )
                        &&& final(self).pending() == old(self).pending()
                    },
                    IpStep::BadChecksum => {
                        &&& r == Err::<EtherReply, EtherError>(
                            EtherError::Ip(IpError::InvalidChecksum),
                        )
                        &&& final(self).pending() == old(self).pending()
                    },
                    IpStep::BadProtocol => {
                        &&& r == Err::<EtherReply, EtherError>(
                            EtherError::Ip(IpError::Unimplemented),
                        )
                        &&& final(self).pending() == old(self).pending()
                    },
                    IpStep::Icmp { from, payload } => match icmp_step(
                        old(self).registered(),
                        payload,
                    ) {
                        IcmpStep::Malformed => {
                            &&& r == Err::<EtherReply, EtherError>(
                                EtherError::Ip(IpError::IcmpError(IcmpError::InvalidIcmpPacket)),
                            )
                            &&& final(self).pending() == old(self).pending()
                        },
                        IcmpStep::BadChecksum => {
                            &&& r == Err::<EtherReply, EtherError>(
                                EtherError::Ip(IpError::IcmpError(IcmpError::InvalidChecksum)),
                            )
                            &&& final(self).pending() == old(self).pending()
                        },
                        IcmpStep::BadCode { .. } => {
                            &&& r == Err::<EtherReply, EtherError>(
                                EtherError::Ip(IpError::IcmpError(IcmpError::Unimplemented)),
                            )
                            &&& final(self).pending() == old(self).pending()
                        },
                        IcmpStep::BadType { .. } => {
                            &&& r == Err::<EtherReply, EtherError>(
                                EtherError::Ip(IpError::IcmpError(IcmpError::Unimplemented)),
                            )
                            &&& final(self).pending() == old(self).pending()
                        },
                        IcmpStep::Deliver { .. } => {
                            &&& (r == Ok::<EtherReply, EtherError>(EtherReply::Nop) || r == Err::<
                                EtherReply,
                                EtherError,
                            >(EtherError::Ip(IpError::IcmpError(IcmpError::NoEmptyEchoBuffer))))
                            &&& final(self).pending() == old(self).pending()
                        },
                        IcmpStep::EchoAnswer { packet } => {
                            let ip_pkt = spec_ip_packet(
                                ICMP_PROTOCOL_NUMBER,
                                old(self).my_ip(),
                                from,
                                packet,
                            );
                            if old(self).cache().contains_key(from) {
                                &&& r matches Ok(EtherReply::Send { frame }) && frame@
                                    == spec_ethernet_frame(
                                    old(self).cache()[from],
                                    old(self).my_mac(),
                                    ETHERTYPE_IP,
                                    ip_pkt,
                                )
                                &&& final(self).pending() == old(self).pending()
                            } else {
                                &&& r matches Ok(
                                    EtherReply::WaitAndSend {
                                        request_frame,
                                        resolved,
                                        pending_packet,
                                    },
                                ) && request_frame@ == spec_ethernet_frame(
                                    spec_broadcast_mac(),
                                    old(self).my_mac(),
                                    ETHERTYPE_ARP,
                                    spec_arp_packet(
                                        ARPOP_REQUEST,
                                        old(self).my_mac(),
                                        old(self).my_ip(),
                                        spec_broadcast_mac(),
                                        from,
                                    ),
                                ) && pending_packet@ == ip_pkt
                                &&& final(self).pending() == old(self).pending().insert(from)
                            }
                        },
                    },
                }
            }),
    {
        match self.ip_parser.parse(data, frame_dst) {
            Err(err) => Err(EtherError::Ip(err)),
            Ok(IpReply::Nop) => Ok(EtherReply::Nop),
            Ok(IpReply::Reply { dst, data }) => {
                match self.arp_resolver.resolve(dst) {
                    ResolveResult::Found(mac_addr) => Ok(
                        EtherReply::Send {
                            frame: construct_ethernet_frame(
                                &mac_addr,
                                &self.mac_addr,
                                ETHERTYPE_IP,
                                data.as_slice(),
                            ),
                        },
                    ),
                    ResolveResult::NotFound { packet_to_send, result } => {
                        let broadcast = broadcast_mac_addr();
                        Ok(
                            EtherReply::WaitAndSend {
                                request_frame: construct_ethernet_frame(
                                    &broadcast,
                                    &self.mac_addr,
                                    ETHERTYPE_ARP,
                                    packet_to_send.as_slice(),
                                ),
                                resolved: result,
                                pending_packet: data,
                            },
                        )
                    },
                }
            },
        }
    }

    /// Ingest one raw frame. Frames for other stations are dropped
    /// unless the interface is promiscuous, and in that case nothing
    /// of the driver's state changes.
    pub fn analyze(&mut self, frame: &[u8]) -> (r: Result<EtherReply, EtherError>)
        requires
            old(self).wf(),
            frame@.len() <= 65549,
        ensures
            final(self).wf(),
            final(self).promisc == old(self).promisc,
            final(self).mac_addr == old(self).mac_addr,
            final(self).my_ip() == old(self).my_ip(),
            final(self).registered() == old(self).registered(),
            frame@.len() < MAC_HEADER_LEN ==> {
                &&& r == Ok::<EtherReply, EtherError>(EtherReply::Nop)
                &&& final(self).cache() == old(self).cache()
                &&& final(self).pending() == old(self).pending()
            },
            frame@.len() >= MAC_HEADER_LEN ==> ({
                let dst_class = spec_classify(old(self).my_mac(), spec_frame_dst_mac(frame@));
                let et = spec_frame_ether_type(frame@);
                let payload = frame@.skip(MAC_HEADER_LEN as int);
                if !old(self).promisc && dst_class == Destination::Promisc {
                    &&& r == Ok::<EtherReply, EtherError>(EtherReply::Nop)
                    &&& final(self).cache() == old(self).cache()
                    &&& final(self).pending() == old(self).pending()
                } else if et == ETHERTYPE_IP {
                    ({
                        let step = ip_step(payload);
                        match step {
                            IpStep::Malformed => {
                                &&& r == Err::<EtherReply, EtherError>(
                                    EtherError::Ip(IpError::InvalidIpPacket),
                                )
                                &&& final(self).cache() == old(self).cache()
                                &&& final(self).pending() == old(self).pending()
                            },
                            IpStep::BadVersion => {
                                &&& r == Err::<EtherReply, EtherError>(
                                    EtherError::Ip(IpError::Unimplemented),
                                )
                                &&& final(self).cache() == old(self).cache()
                                &&& final(self).pending() == old(self).pending()
                            },
                            IpStep::BadChecksum => {
                                &&& r == Err::<EtherReply, EtherError>(
                                    EtherError::Ip(IpError::InvalidChecksum),
                                )
                                &&& final(self).cache() == old(self).cache()
                                &&& final(self).pending() == old(self).pending()
                            },
                            IpStep::BadProtocol => {
                                &&& r == Err::<EtherReply, EtherError>(
                                    EtherError::Ip(IpError::Unimplemented),
                                )
                                &&& final(self).cache() == old(self).cache()
                                &&& final(self).pending() == old(self).pending()
                            },
                            IpStep::Icmp { from, payload: pl } => match icmp_step(
                                old(self).registered(),
                                pl,
                            ) {
                                IcmpStep::Malformed => {
                                    &&& r == Err::<EtherReply, EtherError>(
                                        EtherError::Ip(
                                            IpError::IcmpError(IcmpError::InvalidIcmpPacket),
                                        ),
                                    )
                                    &&& final(self).cache() == old(self).cache()
                                    &&& final(self).pending() == old(self).pending()
                                },
                                IcmpStep::BadChecksum => {
                                    &&& r == Err::<EtherReply, EtherError>(
                                        EtherError::Ip(
                                            IpError::IcmpError(IcmpError::InvalidChecksum),
                                        ),
                                    )
                                    &&& final(self).cache() == old(self).cache()
                                    &&& final(self).pending() == old(self).pending()
                                },
                                IcmpStep::BadCode { .. } => {
                                    &&& r == Err::<EtherReply, EtherError>(
                                        EtherError::Ip(IpError::IcmpError(IcmpError::Unimplemented)),
                                    )
                                    &&& final(self).cache() == old(self).cache()
                                    &&& final(self).pending() == old(self).pending()
                                },
                                IcmpStep::BadType { .. } => {
                                    &&& r == Err::<EtherReply, EtherError>(
                                        EtherError::Ip(IpError::IcmpError(IcmpError::Unimplemented)),
                                    )
                                    &&& final(self).cache() == old(self).cache()
                                    &&& final(self).pending() == old(self).pending()
                                },
                                IcmpStep::Deliver { .. } => {
                                    &&& (r == Ok::<EtherReply, EtherError>(EtherReply::Nop) || r
                                        == Err::<EtherReply, EtherError>(
                                        EtherError::Ip(
                                            IpError::IcmpError(IcmpError::NoEmptyEchoBuffer),
                                        ),
                                    ))
                                    &&& final(self).cache() == old(self).cache()
                                    &&& final(self).pending() == old(self).pending()
                                },
                                IcmpStep::EchoAnswer { packet } => {
                                    let ip_pkt = spec_ip_packet(
                                        ICMP_PROTOCOL_NUMBER,
                                        old(self).my_ip(),
                                        from,
                                        packet,
                                    );
                                    if old(self).cache().contains_key(from) {
                                        &&& r matches Ok(EtherReply::Send { frame: f }) && f@
                                            == spec_ethernet_frame(
                                            old(self).cache()[from],
                                            old(self).my_mac(),
                                            ETHERTYPE_IP,
                                            ip_pkt,
                                        )
                                        &&& final(self).cache() == old(self).cache()
                                        &&& final(self).pending() == old(self).pending()
                                    } else {
                                        &&& r matches Ok(
                                            EtherReply::WaitAndSend {
                                                request_frame,
                                                resolved,
                                                pending_packet,
                                            },
                                        ) && request_frame@ == spec_ethernet_frame(
                                            spec_broadcast_mac(),
                                            old(self).my_mac(),
                                            ETHERTYPE_ARP,
                                            spec_arp_packet(
                                                ARPOP_REQUEST,
                                                old(self).my_mac(),
                                                old(self).my_ip(),
                                                spec_broadcast_mac(),
                                                from,
                                            ),
                                        ) && pending_packet@ == ip_pkt
                                        &&& final(self).cache() == old(self).cache()
                                        &&& final(self).pending() == old(self).pending().insert(
                                            from,
                                        )
                                    }
                                },
                            },
                        }
                    })
                } else if et == ETHERTYPE_ARP {
                    ({
                        let step = arp_step(old(self).my_mac(), old(self).my_ip(), payload, dst_class);
                        match step {
                            ArpStep::Malformed => {
                                &&& r == Err::<EtherReply, EtherError>(
                                    EtherError::Arp(ARPError::InvalidARPPacket),
                                )
                                &&& final(self).cache() == old(self).cache()
                                &&& final(self).pending() == old(self).pending()
                            },
                            ArpStep::BadHardware { space } => {
                                &&& r == Err::<EtherReply, EtherError>(
                                    EtherError::Arp(ARPError::UnsupportedHardwareAddressSpace(space)),
                                )
                                &&& final(self).cache() == old(self).cache()
                                &&& final(self).pending() == old(self).pending()
                            },
                            ArpStep::BadProtocol { space } => {
                                &&& r == Err::<EtherReply, EtherError>(
                                    EtherError::Arp(ARPError::UnsupportedProtocolAddressSpace(space)),
                                )
                                &&& final(self).cache() == old(self).cache()
                                &&& final(self).pending() == old(self).pending()
                            },
                            ArpStep::BadOp { op } => {
                                &&& r == Err::<EtherReply, EtherError>(
                                    EtherError::Arp(ARPError::UnsupportedOperationCode(op)),
                                )
                                &&& final(self).cache() == old(self).cache()
                                &&& final(self).pending() == old(self).pending()
                            },
                            ArpStep::Ignored => {
                                &&& r == Ok::<EtherReply, EtherError>(EtherReply::Nop)
                                &&& final(self).cache() == old(self).cache()
                                &&& final(self).pending() == old(self).pending()
                            },
                            ArpStep::CacheUpdate { ip, mac } => {
                                &&& r == Ok::<EtherReply, EtherError>(EtherReply::Nop)
                                &&& final(self).cache() == old(self).cache().insert(ip, mac)
                                &&& final(self).pending() == old(self).pending().remove(ip)
                            },
                            ArpStep::Overheard { ip, mac } => {
                                &&& r == Ok::<EtherReply, EtherError>(EtherReply::Nop)
                                &&& final(self).cache() == old(self).cache()
                                &&& final(self).pending() == old(self).pending().remove(ip)
                            },
                            ArpStep::Answer { requester_mac, packet } => {
                                &&& r matches Ok(EtherReply::Send { frame: f }) && f@
                                    == spec_ethernet_frame(
                                    requester_mac,
                                    old(self).my_mac(),
                                    ETHERTYPE_ARP,
                                    packet,
                                )
                                &&& final(self).cache() == old(self).cache()
                                &&& final(self).pending() == old(self).pending()
                            },
                        }
                    })
                } else {
                    &&& r == Ok::<EtherReply, EtherError>(EtherReply::Nop)
                    &&& final(self).cache() == old(self).cache()
                    &&& final(self).pending() == old(self).pending()
                }
            }),
    {
        let mac_header = match parse_mac_header(frame) {
            Some(h) => h,
            None => {
                return Ok(EtherReply::Nop);
            },
        };
        let frame_dst = if mac_header.dst_mac == self.mac_addr {
            Destination::ToMyself
        } else if mac_header.dst_mac == broadcast_mac_addr() {
            Destination::Broadcast
        } else {
            Destination::Promisc
        };
        if !self.promisc && frame_dst == Destination::Promisc {
            return Ok(EtherReply::Nop);
        }
        let data = vstd::slice::slice_subrange(frame, MAC_HEADER_LEN, frame.len());
        proof {
            assert(data@ =~= frame@.skip(MAC_HEADER_LEN as int));
        }
        if mac_header.ether_type == ETHERTYPE_IP {
            self.analyze_ipv4(data, frame_dst)
        } else if mac_header.ether_type == ETHERTYPE_ARP {
            self.analyze_arp(data, frame_dst)
        } else {
            Ok(EtherReply::Nop)
        }
    }

    /// Resolve `ip_addr` for a caller: the cached address, or the ARP
    /// request frame to broadcast plus the completion handle.
    pub fn resolve(&mut self, ip_addr: IpAddress) -> (r: ResolveAction)
        requires
            old(self).wf(),
        ensures
            final(self).wf(),
            final(self).promisc == old(self).promisc,
            final(self).mac_addr == old(self).mac_addr,
            final(self).my_ip() == old(self).my_ip(),
            final(self).registered() == old(self).registered(),
            final(self).cache() == old(self).cache(),
            old(self).cache().contains_key(ip_addr.0) ==> {
                &&& r matches ResolveAction::Found(m) && m.address@ == old(self).cache()[ip_addr.0]
                &&& final(self).pending() == old(self).pending()
            },
            !old(self).cache().contains_key(ip_addr.0) ==> {
                &&& r matches ResolveAction::Request { frame, resolved } && frame@
                    == spec_ethernet_frame(
                    spec_broadcast_mac(),
                    old(self).my_mac(),
                    ETHERTYPE_ARP,
                    spec_arp_packet(
                        ARPOP_REQUEST,
                        old(self).my_mac(),
                        old(self).my_ip(),
                        spec_broadcast_mac(),
                        ip_addr.0,
                    ),
                )
                &&& final(self).pending() == old(self).pending().insert(ip_addr.0)
            },
    {
        match self.arp_resolver.resolve(ip_addr) {
            ResolveResult::Found(value) => ResolveAction::Found(value),
            ResolveResult::NotFound { packet_to_send, result } => {
                let broadcast = broadcast_mac_addr();
                ResolveAction::Request {
                    frame: construct_ethernet_frame(
                        &broadcast,
                        &self.mac_addr,
                        ETHERTYPE_ARP,
                        packet_to_send.as_slice(),
                    ),
                    resolved: result,
                }
            },
        }
    }

    /// Wrap a suspended IP reply into its frame once the destination
    /// address has been resolved.
    pub fn complete_ip_reply(&self, mac_addr: &MacAddress, packet: &[u8]) -> (r: Vec<u8>)
        requires
            packet@.len() <= 65535,
        ensures
            r@ == spec_ethernet_frame(mac_addr.address@, self.my_mac(), ETHERTYPE_IP, packet@),
    {
        construct_ethernet_frame(mac_addr, &self.mac_addr, ETHERTYPE_IP, packet)
    }
}

} // verus!
