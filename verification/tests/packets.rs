use cableguard::{IpAddr, Packet, Tunn, WireGuardError};

/// Bytes that count up, behind the given type.
fn datagram(message_type: u8, length: usize) -> Vec<u8> {
    let mut bytes: Vec<u8> = (0..length).map(|i| (i % 251) as u8).collect();
    bytes[0] = message_type;
    bytes[1] = 0;
    bytes[2] = 0;
    bytes[3] = 0;
    bytes
}

#[test]
fn short_datagrams_are_refused() {
    for length in 0..4 {
        let bytes = vec![1u8; length];
        let packet = Tunn::consume_incoming_packet(&bytes);
        assert_eq!(packet.unwrap_err(), WireGuardError::InvalidPacket);
    }
}

#[test]
fn handshake_initiation_fields() {
    let bytes = datagram(1, 340);
    match Tunn::consume_incoming_packet(&bytes) {
        Ok(Packet::HandshakeInit(p)) => {
            assert_eq!(p.sender_session_index, 0x0706_0504);
            assert_eq!(&p.unencrypted_ephemeral[..], &bytes[8..40]);
            assert_eq!(p.encrypted_static, &bytes[40..88]);
            assert_eq!(p.encrypted_timestamp, &bytes[88..116]);
            assert_eq!(&p.rodt_id[..], &bytes[116..244]);
            assert_eq!(&p.rodt_id_signature[..], &bytes[244..308]);
        }
        other => panic!("{:?}", other),
    }
    assert!(Tunn::consume_incoming_packet(&datagram(1, 339)).is_err());
    assert!(Tunn::consume_incoming_packet(&datagram(1, 341)).is_err());
}

#[test]
fn handshake_response_fields() {
    let bytes = datagram(2, 284);
    match Tunn::consume_incoming_packet(&bytes) {
        Ok(Packet::HandshakeResponse(p)) => {
            assert_eq!(p.sender_session_index, 0x0706_0504);
            assert_eq!(p.receiver_session_index, 0x0b0a_0908);
            assert_eq!(&p.unencrypted_ephemeral[..], &bytes[12..44]);
            assert_eq!(p.encrypted_nothing, &bytes[44..60]);
            assert_eq!(&p.rodt_id[..], &bytes[60..188]);
            assert_eq!(&p.rodt_id_signature[..], &bytes[188..252]);
        }
        other => panic!("{:?}", other),
    }
    assert!(Tunn::consume_incoming_packet(&datagram(2, 340)).is_err());
}

#[test]
fn cookie_reply_fields() {
    let bytes = datagram(3, 64);
    match Tunn::consume_incoming_packet(&bytes) {
        Ok(Packet::PacketCookieReply(p)) => {
            assert_eq!(p.receiver_session_index, 0x0706_0504);
            assert_eq!(p.nonce, &bytes[8..32]);
            assert_eq!(p.encrypted_cookie, &bytes[32..64]);
        }
        other => panic!("{:?}", other),
    }
    assert!(Tunn::consume_incoming_packet(&datagram(3, 63)).is_err());
}

#[test]
fn data_fields() {
    let bytes = datagram(4, 50);
    match Tunn::consume_incoming_packet(&bytes) {
        Ok(Packet::PacketData(p)) => {
            assert_eq!(p.receiver_session_index, 0x0706_0504);
            assert_eq!(p.counter, 0x0f0e_0d0c_0b0a_0908);
            assert_eq!(p.encrypted_encapsulated_packet, &bytes[16..]);
        }
        other => panic!("{:?}", other),
    }
    assert!(Tunn::consume_incoming_packet(&datagram(4, 32)).is_ok());
    assert!(Tunn::consume_incoming_packet(&datagram(4, 31)).is_err());
}

#[test]
fn reserved_bytes_must_be_zero() {
    for at in 1..4 {
        let mut bytes = datagram(4, 50);
        bytes[at] = 1;
        assert!(Tunn::consume_incoming_packet(&bytes).is_err());
    }
    assert!(Tunn::consume_incoming_packet(&datagram(0, 50)).is_err());
    assert!(Tunn::consume_incoming_packet(&datagram(5, 50)).is_err());
}

#[test]
fn authentication_codes_are_not_read() {
    let a = datagram(1, 340);
    let mut b = a.clone();
    for byte in &mut b[308..] {
        *byte = !*byte;
    }
    let a = format!("{:?}", Tunn::consume_incoming_packet(&a).unwrap());
    let b = format!("{:?}", Tunn::consume_incoming_packet(&b).unwrap());
    assert_eq!(a, b);
}

#[test]
fn cookie_and_data_messages_keep_every_byte() {
    for message in [datagram(3, 64), datagram(4, 40)] {
        let read = format!("{:?}", Tunn::consume_incoming_packet(&message).unwrap());
        for at in 4..message.len() {
            let mut other = message.clone();
            other[at] ^= 1;
            let other = format!("{:?}", Tunn::consume_incoming_packet(&other).unwrap());
            assert_ne!(read, other);
        }
    }
}

#[test]
fn destination_addresses() {
    let mut v4 = vec![0u8; 20];
    v4[0] = 0x45;
    v4[16..20].copy_from_slice(&[10, 1, 2, 3]);
    assert_eq!(Tunn::dst_address(&v4), Some(IpAddr::V4([10, 1, 2, 3])));
    assert_eq!(Tunn::dst_address(&v4[..19]), None);

    let mut v6 = vec![0u8; 40];
    v6[0] = 0x60;
    let address: [u8; 16] = [1, 2, 3, 4, 5, 6, 7, 8, 9, 10, 11, 12, 13, 14, 15, 16];
    v6[24..40].copy_from_slice(&address);
    assert_eq!(Tunn::dst_address(&v6), Some(IpAddr::V6(address)));
    assert_eq!(Tunn::dst_address(&v6[..39]), None);

    assert_eq!(Tunn::dst_address(&[]), None);
    let mut other = vec![0u8; 40];
    other[0] = 0x55;
    assert_eq!(Tunn::dst_address(&other), None);
}

#[test]
fn sources_and_lengths() {
    let mut v4 = vec![0u8; 30];
    v4[0] = 0x45;
    v4[3] = 28;
    v4[12..16].copy_from_slice(&[192, 168, 1, 2]);
    let source = IpAddr::V4([192, 168, 1, 2]);
    assert_eq!(cableguard::source_and_length(&v4), Some((source, 28)));
    v4[3] = 31;
    assert_eq!(cableguard::source_and_length(&v4), None);
    v4[2] = 1;
    v4[3] = 0;
    v4.resize(300, 0);
    assert_eq!(cableguard::source_and_length(&v4), Some((source, 256)));

    let mut v6 = vec![0u8; 45];
    v6[0] = 0x6f;
    v6[5] = 3;
    v6[8] = 0xfe;
    let mut address = [0u8; 16];
    address[0] = 0xfe;
    assert_eq!(cableguard::source_and_length(&v6), Some((IpAddr::V6(address), 43)));
    v6[5] = 6;
    assert_eq!(cableguard::source_and_length(&v6), None);
}
