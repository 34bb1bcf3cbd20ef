use virtual_ip_host::arp::{ArpReply, EtherIpResolver, ResolveResult};
use virtual_ip_host::ether::driver::errors::ARPError;
use virtual_ip_host::ether::MacAddress;
use virtual_ip_host::ip::IpAddress;
use virtual_ip_host::Destination;

const MY_MAC: [u8; 6] = [0x02, 0x00, 0x00, 0xEF, 0x24, 0xA8];
const MY_IP: [u8; 4] = [192, 168, 1, 111];
const PEER_MAC: [u8; 6] = [0x0A, 0x0B, 0x0C, 0x0D, 0x0E, 0x0F];
const PEER_IP: [u8; 4] = [192, 168, 1, 19];

fn resolver() -> EtherIpResolver {
    EtherIpResolver::new(MacAddress::new(MY_MAC), IpAddress::new_be_bytes(MY_IP))
}

fn arp_packet(
    op: u16,
    sender_mac: [u8; 6],
    sender_ip: [u8; 4],
    target_mac: [u8; 6],
    target_ip: [u8; 4],
) -> Vec<u8> {
    let mut p = vec![0x00, 0x01, 0x08, 0x00, 0x06, 0x04, (op / 0x100) as u8, (op % 0x100) as u8];
    p.extend_from_slice(&sender_mac);
    p.extend_from_slice(&sender_ip);
    p.extend_from_slice(&target_mac);
    p.extend_from_slice(&target_ip);
    p
}

#[test]
fn resolve_round_trip() {
    let mut r = resolver();

    // on an empty cache, resolve builds a broadcast-destined request
    let (request, mut handle) = match r.resolve(IpAddress::new_be_bytes(PEER_IP)) {
        ResolveResult::NotFound { packet_to_send, result } => (packet_to_send, result),
        ResolveResult::Found(_) => panic!("empty cache answered"),
    };
    let expected = arp_packet(1, MY_MAC, MY_IP, [0xFF; 6], PEER_IP);
    assert_eq!(expected, request);
    assert_eq!(Ok(None), handle.try_recv().map_err(|_| ()));

    // a well-formed reply naming this host fulfills the resolution
    let reply = arp_packet(2, PEER_MAC, PEER_IP, MY_MAC, MY_IP);
    let parsed = r.parse(&reply, Destination::ToMyself);
    assert!(matches!(parsed, Ok(ArpReply::Nop)));
    let resolved = handle.try_recv().expect("waiter was dropped");
    assert_eq!(Some(MacAddress::new(PEER_MAC)), resolved);

    // and inserts the sender into the cache
    match r.resolve(IpAddress::new_be_bytes(PEER_IP)) {
        ResolveResult::Found(mac) => assert_eq!(MacAddress::new(PEER_MAC), mac),
        ResolveResult::NotFound { .. } => panic!("cache did not learn the reply"),
    }
}

#[test]
fn request_for_this_host_is_answered() {
    let mut r = resolver();
    let request = arp_packet(1, PEER_MAC, PEER_IP, [0x00; 6], MY_IP);
    match r.parse(&request, Destination::Broadcast) {
        Ok(ArpReply::Reply { dst, data }) => {
            assert_eq!(MacAddress::new(PEER_MAC), dst);
            assert_eq!(arp_packet(2, MY_MAC, MY_IP, PEER_MAC, PEER_IP), data);
        }
        _ => panic!("request for this host was not answered"),
    }
}

#[test]
fn request_for_other_host_fails_when_not_promiscuous() {
    let mut r = resolver();
    let request = arp_packet(1, PEER_MAC, PEER_IP, [0x00; 6], [192, 168, 1, 77]);
    let parsed = r.parse(&request, Destination::Broadcast);
    assert!(matches!(parsed, Err(ARPError::InvalidARPPacket)));
}

#[test]
fn request_for_other_host_is_ignored_in_promiscuous_mode() {
    let mut r = resolver();
    let request = arp_packet(1, PEER_MAC, PEER_IP, [0x00; 6], [192, 168, 1, 77]);
    let parsed = r.parse(&request, Destination::Promisc);
    assert!(matches!(parsed, Ok(ArpReply::Nop)));
}

#[test]
fn unsupported_operation_code_is_reported() {
    let mut r = resolver();
    let packet = arp_packet(7, PEER_MAC, PEER_IP, MY_MAC, MY_IP);
    let parsed = r.parse(&packet, Destination::ToMyself);
    assert!(matches!(parsed, Err(ARPError::UnsupportedOperationCode(7))));
}

#[test]
fn unsupported_address_spaces_are_reported() {
    let mut r = resolver();
    let mut packet = arp_packet(2, PEER_MAC, PEER_IP, MY_MAC, MY_IP);
    packet[1] = 0x06; // hardware space 0x0006
    let parsed = r.parse(&packet, Destination::ToMyself);
    assert!(matches!(
        parsed,
        Err(ARPError::UnsupportedHardwareAddressSpace(6))
    ));

    let mut packet = arp_packet(2, PEER_MAC, PEER_IP, MY_MAC, MY_IP);
    packet[2] = 0x86;
    packet[3] = 0xDD; // protocol space 0x86DD
    let parsed = r.parse(&packet, Destination::ToMyself);
    assert!(matches!(
        parsed,
        Err(ARPError::UnsupportedProtocolAddressSpace(0x86DD))
    ));
}

#[test]
fn truncated_arp_packet_is_invalid() {
    let mut r = resolver();
    let packet = arp_packet(2, PEER_MAC, PEER_IP, MY_MAC, MY_IP);
    let parsed = r.parse(&packet[..20], Destination::ToMyself);
    assert!(matches!(parsed, Err(ARPError::InvalidARPPacket)));
    let parsed = r.parse(&packet[..5], Destination::ToMyself);
    assert!(matches!(parsed, Err(ARPError::InvalidARPPacket)));
}

#[test]
fn reply_for_other_host_is_invalid_when_not_promiscuous() {
    let mut r = resolver();
    let reply = arp_packet(2, PEER_MAC, PEER_IP, [0x22; 6], [192, 168, 1, 77]);
    let parsed = r.parse(&reply, Destination::ToMyself);
    assert!(matches!(parsed, Err(ARPError::InvalidARPPacket)));
}

#[test]
fn overheard_reply_does_not_fill_the_cache() {
    let mut r = resolver();
    let reply = arp_packet(2, PEER_MAC, PEER_IP, [0x22; 6], [192, 168, 1, 77]);
    let parsed = r.parse(&reply, Destination::Promisc);
    assert!(matches!(parsed, Ok(ArpReply::Nop)));
    // the sender was observed but not learned
    assert!(matches!(
        r.resolve(IpAddress::new_be_bytes(PEER_IP)),
        ResolveResult::NotFound { .. }
    ));
}
