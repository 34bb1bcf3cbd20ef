use virtual_ip_host::ip::error::IpError;
use virtual_ip_host::ip::icmp::echo::EchoPacketWithoutData;
use virtual_ip_host::ip::icmp::{construct_echo_packet, error::IcmpError};
use virtual_ip_host::ip::{construct_packet, IpAddress, IpDriver, IpParse, IpReply};
use virtual_ip_host::utils::checksum;
use virtual_ip_host::Destination;

const MY_IP: [u8; 4] = [192, 168, 1, 111];
const PEER_IP: [u8; 4] = [192, 168, 1, 19];

fn driver() -> IpDriver {
    IpDriver::new(IpAddress::new_be_bytes(MY_IP))
}

/// A syntactically valid IPv4 packet around `payload`, built by hand.
fn ip_packet(proto: u8, src: [u8; 4], dst: [u8; 4], payload: &[u8]) -> Vec<u8> {
    let total = (20 + payload.len()) as u16;
    let mut header = vec![
        0x45,
        0x00,
        (total / 0x100) as u8,
        (total % 0x100) as u8,
        0,
        0,
        0,
        0,
        64,
        proto,
        0,
        0,
    ];
    header.extend_from_slice(&src);
    header.extend_from_slice(&dst);
    let c = checksum(&header);
    header[10] = (c % 0x100) as u8;
    header[11] = (c / 0x100) as u8;
    header.extend_from_slice(payload);
    header
}

#[test]
fn truncating_ihl_is_rejected() {
    let mut d = driver();
    // the declared IHL (6 words = 24 bytes) runs past the buffer
    let mut packet = ip_packet(1, PEER_IP, MY_IP, &[]);
    packet[0] = 0x46;
    let parsed = d.parse(&packet, Destination::ToMyself);
    assert!(matches!(parsed, Err(IpError::InvalidIpPacket)));
}

#[test]
fn ihl_shorter_than_the_fixed_header_is_rejected() {
    let mut d = driver();
    let mut packet = ip_packet(1, PEER_IP, MY_IP, &[1, 2, 3, 4]);
    packet[0] = 0x44;
    let parsed = d.parse(&packet, Destination::ToMyself);
    assert!(matches!(parsed, Err(IpError::InvalidIpPacket)));
}

#[test]
fn nonzero_header_checksum_is_rejected() {
    let mut d = driver();
    let mut packet = ip_packet(1, PEER_IP, MY_IP, &[1, 2, 3, 4]);
    packet[10] ^= 0x01;
    let parsed = d.parse(&packet, Destination::ToMyself);
    assert!(matches!(parsed, Err(IpError::InvalidChecksum)));
}

#[test]
fn other_version_is_unimplemented() {
    let mut d = driver();
    let mut packet = ip_packet(1, PEER_IP, MY_IP, &[1, 2, 3, 4]);
    packet[0] = 0x65;
    let parsed = d.parse(&packet, Destination::ToMyself);
    assert!(matches!(parsed, Err(IpError::Unimplemented)));
}

#[test]
fn other_protocol_is_unimplemented() {
    let mut d = driver();
    let packet = ip_packet(6, PEER_IP, MY_IP, &[1, 2, 3, 4]);
    let parsed = d.parse(&packet, Destination::ToMyself);
    assert!(matches!(parsed, Err(IpError::Unimplemented)));
}

#[test]
fn header_without_payload_is_rejected() {
    let mut d = driver();
    let packet = ip_packet(1, PEER_IP, MY_IP, &[]);
    let parsed = d.parse(&packet, Destination::ToMyself);
    assert!(matches!(parsed, Err(IpError::InvalidIpPacket)));
}

#[test]
fn too_short_buffer_is_rejected() {
    let mut d = driver();
    let parsed = d.parse(&[0x45, 0, 0, 0], Destination::ToMyself);
    assert!(matches!(parsed, Err(IpError::InvalidIpPacket)));
}

#[test]
fn echo_request_in_ip_packet_gets_wrapped_reply() {
    let mut d = driver();
    let payload = [7, 7, 7];
    let echo = construct_echo_packet(
        8,
        EchoPacketWithoutData { identifier: 3, sequence_id: 0 },
        &payload,
    );
    let packet = ip_packet(1, PEER_IP, MY_IP, &echo);
    match d.parse(&packet, Destination::ToMyself) {
        Ok(IpReply::Reply { dst, data }) => {
            // addressed back to the echo sender
            assert_eq!(IpAddress::new_be_bytes(PEER_IP), dst);
            // a fresh valid IPv4 envelope: version 4, IHL 5, ICMP
            assert_eq!(0x45, data[0]);
            assert_eq!(1, data[9]);
            assert_eq!(0, checksum(&data[..20]));
            assert_eq!(MY_IP.to_vec(), data[12..16].to_vec());
            assert_eq!(PEER_IP.to_vec(), data[16..20].to_vec());
            // carrying the echo reply with the next sequence number
            assert_eq!(0, data[20]);
            assert_eq!([0, 1], [data[26], data[27]]);
            assert_eq!(payload.to_vec(), data[28..].to_vec());
            assert_eq!(0, checksum(&data[20..]));
        }
        _ => panic!("echo request was not answered"),
    }
}

#[test]
fn icmp_error_is_wrapped() {
    let mut d = driver();
    let mut echo = construct_echo_packet(
        8,
        EchoPacketWithoutData { identifier: 3, sequence_id: 0 },
        &[1],
    );
    echo[2] ^= 0x10;
    let packet = ip_packet(1, PEER_IP, MY_IP, &echo);
    let parsed = d.parse(&packet, Destination::ToMyself);
    assert!(matches!(
        parsed,
        Err(IpError::IcmpError(IcmpError::InvalidChecksum))
    ));
}

#[test]
fn construct_packet_writes_a_valid_header() {
    let packet = construct_packet(
        1,
        IpAddress::new_be_bytes(MY_IP),
        IpAddress::new_be_bytes(PEER_IP),
        &[1, 2, 3, 4],
    );
    assert_eq!(24, packet.len());
    assert_eq!(0x45, packet[0]);
    assert_eq!([0x00, 24], [packet[2], packet[3]]);
    assert_eq!(64, packet[8]);
    assert_eq!(1, packet[9]);
    assert_eq!(0, checksum(&packet[..20]));
    assert_eq!(MY_IP.to_vec(), packet[12..16].to_vec());
    assert_eq!(PEER_IP.to_vec(), packet[16..20].to_vec());
    assert_eq!(vec![1, 2, 3, 4], packet[20..].to_vec());
}

#[test]
fn ip_address_conversions_swap_bytes() {
    let a = IpAddress::new_be_bytes([1, 2, 3, 4]);
    assert_eq!(IpAddress::from_be_int(0x04030201), a);
    assert_eq!(IpAddress::from_be(IpAddress::from_be(a)), a);
    assert_eq!(IpAddress::to_be(a), IpAddress::from_be(a));
}
