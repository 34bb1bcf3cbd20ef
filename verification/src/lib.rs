use vstd::prelude::*;

pub mod arp;
pub mod channel;
pub mod ether;
pub mod ip;
pub mod utils;

verus! {

/// Where an inbound Ethernet frame was addressed: directly to this host,
/// to the broadcast address, or to some other station (only visible when
/// the interface runs in promiscuous mode).
#[derive(Debug, Copy, Clone, Eq, PartialEq, Structural)]
pub enum Destination {
    ToMyself,
    Broadcast,
    Promisc,
}

} // verus!
