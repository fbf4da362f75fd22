use tracer::codec::{Icmpv4Message, Icmpv4Packet, TracerError};

fn ip_header() -> Vec<u8> {
    vec![0x45, 0, 0, 28, 0, 0, 0, 0, 64, 1, 0, 0, 10, 0, 0, 1, 10, 0, 0, 2]
}

#[test]
fn encode_echo_request_layout() {
    let mut p = Icmpv4Packet::echo_request(0x1234, 0x0102, vec![0xAA, 0xBB]);
    p.checksum = 0xBEEF;
    let b = p.encode().unwrap();
    assert_eq!(b, vec![8, 0, 0xBE, 0xEF, 0x12, 0x34, 0x01, 0x02, 0xAA, 0xBB]);
}

#[test]
fn encode_refuses_other_messages() {
    let p = Icmpv4Packet {
        icmp_type: 0,
        code: 0,
        checksum: 0,
        message: Icmpv4Message::EchoReply { id: 1, seq_num: 2, data: vec![] },
    };
    assert!(matches!(p.encode(), Err(TracerError::Internal(_))));
}

#[test]
fn echo_request_decodes_as_reply_when_type_forced() {
    let p = Icmpv4Packet::echo_request(42, 7, vec![1, 2, 3]);
    let mut b = ip_header();
    let mut e = p.encode().unwrap();
    e[0] = 0;
    b.extend_from_slice(&e);
    let d = Icmpv4Packet::decode(&b).unwrap();
    assert_eq!(d.icmp_type, 0);
    assert_eq!(
        d.message,
        Icmpv4Message::EchoReply { id: 42, seq_num: 7, data: vec![1, 2, 3] }
    );
}

#[test]
fn time_exceeded_isolates_embedded_header_and_original_bytes() {
    let mut b = ip_header();
    b.extend_from_slice(&[11, 0, 0xF4, 0xFF, 0, 0, 0, 0]);
    // embedded header of 24 bytes (IHL 6)
    let mut inner: Vec<u8> = vec![0x46];
    for i in 1..24u8 {
        inner.push(i);
    }
    b.extend_from_slice(&inner);
    b.extend_from_slice(&[8, 0, 0xF7, 0xD4, 0, 42, 0, 1]);
    b.extend_from_slice(&[0xEE, 0xEE]);
    let d = Icmpv4Packet::decode(&b).unwrap();
    assert_eq!(d.icmp_type, 11);
    assert_eq!(d.checksum, 0xF4FF);
    assert_eq!(
        d.message,
        Icmpv4Message::TimeLimitExceeded {
            raw_ip_header: inner,
            original_8b: [8, 0, 0xF7, 0xD4, 0, 42, 0, 1],
        }
    );
}

#[test]
fn unknown_type_is_a_parse_error() {
    let mut b = ip_header();
    b.extend_from_slice(&[3, 1, 0, 0, 0, 0, 0, 0]);
    assert!(matches!(Icmpv4Packet::decode(&b), Err(TracerError::ParseError)));
    let mut b = ip_header();
    b.extend_from_slice(&[8, 0, 0, 0, 0, 42, 0, 1]);
    assert!(matches!(Icmpv4Packet::decode(&b), Err(TracerError::ParseError)));
}

#[test]
fn truncated_buffers_are_parse_errors() {
    assert!(matches!(Icmpv4Packet::decode(&[]), Err(TracerError::ParseError)));
    let mut b = ip_header();
    b.extend_from_slice(&[0, 0, 0, 0, 0, 1, 0]);
    assert!(matches!(Icmpv4Packet::decode(&b), Err(TracerError::ParseError)));
    let mut b = ip_header();
    b.extend_from_slice(&[11, 0, 0, 0, 0, 0, 0, 0]);
    assert!(matches!(Icmpv4Packet::decode(&b), Err(TracerError::ParseError)));
    let mut b = ip_header();
    b.extend_from_slice(&[11, 0, 0, 0, 0, 0, 0, 0]);
    b.extend_from_slice(&ip_header());
    b.extend_from_slice(&[1, 2, 3, 4, 5, 6, 7]);
    assert!(matches!(Icmpv4Packet::decode(&b), Err(TracerError::ParseError)));
}

#[test]
fn error_texts() {
    assert_eq!(TracerError::BadAddress.to_string(), "Could not convert to IP address");
    assert_eq!(TracerError::ParseError.to_string(), "Could not parse the incoming packet");
    assert_eq!(TracerError::Internal("x".to_string()).to_string(), "x");
}
