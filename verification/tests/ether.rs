use virtual_ip_host::ether::driver::{EtherReply, EthernetDriver, ResolveAction};
use virtual_ip_host::ether::header::construct_ethernet_frame;
use virtual_ip_host::ether::MacAddress;
use virtual_ip_host::ip::icmp::echo::EchoPacketWithoutData;
use virtual_ip_host::ip::icmp::construct_echo_packet;
use virtual_ip_host::ip::{construct_packet, IpAddress};
use virtual_ip_host::utils::checksum;

const MY_MAC: [u8; 6] = [0x02, 0x00, 0x00, 0xEF, 0x24, 0xA8];
const MY_IP: [u8; 4] = [192, 168, 1, 111];
const PEER_MAC: [u8; 6] = [0x0A, 0x0B, 0x0C, 0x0D, 0x0E, 0x0F];
const PEER_IP: [u8; 4] = [192, 168, 1, 19];

fn driver(promisc: bool) -> EthernetDriver {
    EthernetDriver::new(
        MacAddress::new(MY_MAC),
        IpAddress::new_be_bytes(MY_IP),
        promisc,
    )
}

fn frame(dst: [u8; 6], src: [u8; 6], ether_type: u16, payload: &[u8]) -> Vec<u8> {
    let mut f = dst.to_vec();
    f.extend_from_slice(&src);
    f.push((ether_type / 0x100) as u8);
    f.push((ether_type % 0x100) as u8);
    f.extend_from_slice(payload);
    f
}

fn arp_reply_to_me() -> Vec<u8> {
    let mut p = vec![0x00, 0x01, 0x08, 0x00, 0x06, 0x04, 0x00, 0x02];
    p.extend_from_slice(&PEER_MAC);
    p.extend_from_slice(&PEER_IP);
    p.extend_from_slice(&MY_MAC);
    p.extend_from_slice(&MY_IP);
    p
}

#[test]
fn foreign_frame_is_dropped_and_nothing_changes() {
    let mut d = driver(false);
    // a reply that would normally teach the cache about the peer,
    // inside a frame addressed to some other station
    let f = frame([0x22; 6], PEER_MAC, 0x0806, &arp_reply_to_me());
    let r = d.analyze(&f);
    assert!(matches!(r, Ok(EtherReply::Nop)));
    // the ARP cache was not touched
    assert!(matches!(
        d.resolve(IpAddress::new_be_bytes(PEER_IP)),
        ResolveAction::Request { .. }
    ));
}

#[test]
fn frame_to_this_host_feeds_the_resolver() {
    let mut d = driver(false);
    let f = frame(MY_MAC, PEER_MAC, 0x0806, &arp_reply_to_me());
    let r = d.analyze(&f);
    assert!(matches!(r, Ok(EtherReply::Nop)));
    match d.resolve(IpAddress::new_be_bytes(PEER_IP)) {
        ResolveAction::Found(mac) => assert_eq!(MacAddress::new(PEER_MAC), mac),
        ResolveAction::Request { .. } => panic!("reply did not reach the cache"),
    }
}

#[test]
fn unknown_ethertype_is_dropped() {
    let mut d = driver(false);
    let f = frame(MY_MAC, PEER_MAC, 0x86DD, &[0u8; 40]);
    assert!(matches!(d.analyze(&f), Ok(EtherReply::Nop)));
}

#[test]
fn short_frame_is_dropped() {
    let mut d = driver(false);
    assert!(matches!(d.analyze(&[1, 2, 3]), Ok(EtherReply::Nop)));
}

#[test]
fn arp_request_is_answered_with_a_padded_frame() {
    let mut d = driver(false);
    let mut request = vec![0x00, 0x01, 0x08, 0x00, 0x06, 0x04, 0x00, 0x01];
    request.extend_from_slice(&PEER_MAC);
    request.extend_from_slice(&PEER_IP);
    request.extend_from_slice(&[0x00; 6]);
    request.extend_from_slice(&MY_IP);
    let f = frame([0xFF; 6], PEER_MAC, 0x0806, &request);
    match d.analyze(&f) {
        Ok(EtherReply::Send { frame: out }) => {
            assert_eq!(60, out.len()); // 42 bytes padded to the minimum
            assert_eq!(PEER_MAC.to_vec(), out[0..6].to_vec());
            assert_eq!(MY_MAC.to_vec(), out[6..12].to_vec());
            assert_eq!([0x08, 0x06], [out[12], out[13]]);
            assert_eq!([0x00, 0x02], [out[20], out[21]]); // ARP reply op
            assert_eq!(MY_MAC.to_vec(), out[22..28].to_vec());
            assert_eq!(MY_IP.to_vec(), out[28..32].to_vec());
            assert_eq!(PEER_MAC.to_vec(), out[32..38].to_vec());
            assert_eq!(PEER_IP.to_vec(), out[38..42].to_vec());
            assert!(out[42..].iter().all(|&b| b == 0));
        }
        _ => panic!("request for this host was not answered"),
    }
}

#[test]
fn echo_request_with_known_peer_is_answered_directly() {
    let mut d = driver(false);
    // teach the cache the peer's address first
    let learn = frame(MY_MAC, PEER_MAC, 0x0806, &arp_reply_to_me());
    assert!(matches!(d.analyze(&learn), Ok(EtherReply::Nop)));

    let echo = construct_echo_packet(
        8,
        EchoPacketWithoutData { identifier: 9, sequence_id: 4 },
        &[5, 5, 5, 5],
    );
    let packet = construct_packet(
        1,
        IpAddress::new_be_bytes(PEER_IP),
        IpAddress::new_be_bytes(MY_IP),
        &echo,
    );
    let f = frame(MY_MAC, PEER_MAC, 0x0800, &packet);
    match d.analyze(&f) {
        Ok(EtherReply::Send { frame: out }) => {
            assert_eq!(PEER_MAC.to_vec(), out[0..6].to_vec());
            assert_eq!(MY_MAC.to_vec(), out[6..12].to_vec());
            assert_eq!([0x08, 0x00], [out[12], out[13]]);
            assert_eq!(0, checksum(&out[14..34])); // IP header verifies
            assert_eq!(MY_IP.to_vec(), out[26..30].to_vec());
            assert_eq!(PEER_IP.to_vec(), out[30..34].to_vec());
            assert_eq!(0, out[34]); // Echo Reply
            assert_eq!([0x00, 0x05], [out[40], out[41]]); // sequence 4 + 1
            assert_eq!(vec![5, 5, 5, 5], out[42..46].to_vec());
        }
        _ => panic!("echo request was not answered"),
    }
}

#[test]
fn echo_request_with_unknown_peer_suspends_behind_resolution() {
    let mut d = driver(false);
    let echo = construct_echo_packet(
        8,
        EchoPacketWithoutData { identifier: 9, sequence_id: 0 },
        &[6, 6],
    );
    let packet = construct_packet(
        1,
        IpAddress::new_be_bytes(PEER_IP),
        IpAddress::new_be_bytes(MY_IP),
        &echo,
    );
    let f = frame(MY_MAC, PEER_MAC, 0x0800, &packet);
    match d.analyze(&f) {
        Ok(EtherReply::WaitAndSend { request_frame, mut resolved, pending_packet }) => {
            // an ARP request for the peer goes out to the broadcast address
            assert_eq!([0xFF; 6].to_vec(), request_frame[0..6].to_vec());
            assert_eq!([0x08, 0x06], [request_frame[12], request_frame[13]]);
            assert_eq!(PEER_IP.to_vec(), request_frame[38..42].to_vec());
            assert!(resolved.try_recv().unwrap().is_none());

            // once the matching reply arrives, the handle completes and
            // the suspended packet can be framed and sent
            let learn = frame(MY_MAC, PEER_MAC, 0x0806, &arp_reply_to_me());
            assert!(matches!(d.analyze(&learn), Ok(EtherReply::Nop)));
            let mac = resolved.try_recv().unwrap().expect("resolution still pending");
            assert_eq!(MacAddress::new(PEER_MAC), mac);
            let out = d.complete_ip_reply(&mac, &pending_packet);
            assert_eq!(PEER_MAC.to_vec(), out[0..6].to_vec());
            assert_eq!([0x08, 0x00], [out[12], out[13]]);
            assert_eq!(pending_packet, out[14..14 + pending_packet.len()].to_vec());
        }
        _ => panic!("echo reply was not suspended on resolution"),
    }
}

#[test]
fn promiscuous_interface_observes_foreign_replies_without_learning() {
    let mut d = driver(true);
    // a reply between two other stations: accepted, but not learned
    let mut p = vec![0x00, 0x01, 0x08, 0x00, 0x06, 0x04, 0x00, 0x02];
    p.extend_from_slice(&PEER_MAC);
    p.extend_from_slice(&PEER_IP);
    p.extend_from_slice(&[0x22; 6]);
    p.extend_from_slice(&[192, 168, 1, 77]);
    let f = frame([0x22; 6], PEER_MAC, 0x0806, &p);
    assert!(matches!(d.analyze(&f), Ok(EtherReply::Nop)));
    assert!(matches!(
        d.resolve(IpAddress::new_be_bytes(PEER_IP)),
        ResolveAction::Request { .. }
    ));
}

#[test]
fn construct_ethernet_frame_pads_to_minimum() {
    let out = construct_ethernet_frame(
        &MacAddress::new(PEER_MAC),
        &MacAddress::new(MY_MAC),
        0x0800,
        &[1, 2, 3],
    );
    assert_eq!(60, out.len());
    assert_eq!([1, 2, 3], [out[14], out[15], out[16]]);
    assert!(out[17..].iter().all(|&b| b == 0));
}
