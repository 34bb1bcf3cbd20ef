use virtual_ip_host::ip::icmp::echo::EchoPacketWithoutData;
use virtual_ip_host::ip::icmp::error::IcmpError;
use virtual_ip_host::ip::icmp::{construct_echo_packet, IcmpDriver, IcmpReply};
use virtual_ip_host::ip::IpAddress;
use virtual_ip_host::utils::checksum;

const PEER: [u8; 4] = [192, 168, 1, 19];

#[test]
fn register_echo_then_reply_reaches_the_sink() {
    let mut driver = IcmpDriver::new();
    let payload = [0xDE, 0xAD, 0xBE, 0xEF];
    let (identifier, request, mut sink) = driver.register_echo(&payload).expect("no identifier");

    assert_eq!(0, identifier);
    assert_eq!(8, request[0]); // type: Echo
    assert_eq!(0, request[1]); // code
    assert_eq!([0x00, 0x00], [request[4], request[5]]); // identifier 0
    assert_eq!([0x00, 0x00], [request[6], request[7]]); // sequence 0
    assert_eq!(payload.to_vec(), request[8..].to_vec());
    assert_eq!(0, checksum(&request));

    // feed back a well-formed Echo Reply with the same identifier
    let reply = construct_echo_packet(
        0,
        EchoPacketWithoutData { identifier, sequence_id: 0 },
        &payload,
    );
    let from = IpAddress::new_be_bytes(PEER);
    let parsed = driver.parse(from, &reply);
    assert!(matches!(parsed, Ok(IcmpReply::Nop)));

    // exactly one EchoReply arrives, with sequence_id 1 and the payload
    let delivered = sink.try_next().expect("sink was empty").expect("sink closed");
    assert_eq!(from, delivered.src);
    assert_eq!(1, delivered.sequence_id);
    assert_eq!(payload.to_vec(), delivered.data);
    assert!(sink.try_next().is_err());
}

#[test]
fn identifiers_are_allocated_lowest_first() {
    let mut driver = IcmpDriver::new();
    let (first, _, _r1) = driver.register_echo(&[]).unwrap();
    let (second, _, _r2) = driver.register_echo(&[]).unwrap();
    assert_eq!(0, first);
    assert_eq!(1, second);
}

#[test]
fn echo_request_is_answered_with_next_sequence() {
    let mut driver = IcmpDriver::new();
    let payload = [1, 2, 3, 4, 5];
    let request = construct_echo_packet(
        8,
        EchoPacketWithoutData { identifier: 0x1234, sequence_id: 4 },
        &payload,
    );
    let from = IpAddress::new_be_bytes(PEER);
    match driver.parse(from, &request) {
        Ok(IcmpReply::Reply { dst, data }) => {
            assert_eq!(from, dst);
            assert_eq!(0, data[0]); // type: Echo Reply
            assert_eq!(0, data[1]); // code
            assert_eq!([0x12, 0x34], [data[4], data[5]]); // identifier kept
            assert_eq!([0x00, 0x05], [data[6], data[7]]); // sequence 4 + 1
            assert_eq!(payload.to_vec(), data[8..].to_vec());
            assert_eq!(0, checksum(&data)); // checksum valid over the whole output
        }
        _ => panic!("echo request was not answered"),
    }
}

#[test]
fn corrupted_checksum_is_rejected() {
    let mut driver = IcmpDriver::new();
    let mut request = construct_echo_packet(
        8,
        EchoPacketWithoutData { identifier: 1, sequence_id: 0 },
        &[9, 9],
    );
    request[2] ^= 0x40;
    let parsed = driver.parse(IpAddress::new_be_bytes(PEER), &request);
    assert!(matches!(parsed, Err(IcmpError::InvalidChecksum)));
}

#[test]
fn nonzero_code_is_unimplemented() {
    let mut driver = IcmpDriver::new();
    // type 8, code 1, checksum chosen so the packet sums to zero
    let mut packet = vec![8, 1, 0, 0, 0, 0, 0, 0];
    let c = checksum(&packet);
    packet[2] = (c % 0x100) as u8;
    packet[3] = (c / 0x100) as u8;
    let parsed = driver.parse(IpAddress::new_be_bytes(PEER), &packet);
    assert!(matches!(parsed, Err(IcmpError::Unimplemented)));
}

#[test]
fn unknown_type_is_unimplemented() {
    let mut driver = IcmpDriver::new();
    let mut packet = vec![13, 0, 0, 0, 0, 0, 0, 0];
    let c = checksum(&packet);
    packet[2] = (c % 0x100) as u8;
    packet[3] = (c / 0x100) as u8;
    let parsed = driver.parse(IpAddress::new_be_bytes(PEER), &packet);
    assert!(matches!(parsed, Err(IcmpError::Unimplemented)));
}

#[test]
fn reply_for_unknown_identifier_is_invalid() {
    let mut driver = IcmpDriver::new();
    let reply = construct_echo_packet(
        0,
        EchoPacketWithoutData { identifier: 42, sequence_id: 0 },
        &[],
    );
    let parsed = driver.parse(IpAddress::new_be_bytes(PEER), &reply);
    assert!(matches!(parsed, Err(IcmpError::InvalidIcmpPacket)));
}

#[test]
fn truncated_icmp_packet_is_invalid() {
    let mut driver = IcmpDriver::new();
    let parsed = driver.parse(IpAddress::new_be_bytes(PEER), &[8, 0, 0]);
    assert!(matches!(parsed, Err(IcmpError::InvalidIcmpPacket)));
}

#[test]
fn overfilled_sink_reports_no_empty_echo_buffer() {
    let mut driver = IcmpDriver::new();
    let (identifier, _request, mut sink) = driver.register_echo(&[]).unwrap();
    let reply = construct_echo_packet(
        0,
        EchoPacketWithoutData { identifier, sequence_id: 0 },
        &[],
    );
    let from = IpAddress::new_be_bytes(PEER);
    // the sink buffers a bounded number of replies; once full, the
    // next delivery fails instead of blocking the receive path
    let mut saw_full = false;
    for _ in 0..64 {
        match driver.parse(from, &reply) {
            Ok(IcmpReply::Nop) => {}
            Err(IcmpError::NoEmptyEchoBuffer) => {
                saw_full = true;
                break;
            }
            other => panic!("unexpected outcome: {:?}", other.is_ok()),
        }
    }
    assert!(saw_full);
    assert!(sink.try_next().unwrap().is_some());
}
