use mqtt_tenant::publish::decode;
use mqtt_tenant::publish::len;
use mqtt_tenant::publish::write_remaining_length;
use mqtt_tenant::publish::CodecError;
use mqtt_tenant::publish::Publish;
use mqtt_tenant::publish::QoS;

fn sample(qos: QoS, pkid: u16, topic: &str, payload: &[u8]) -> Publish {
    Publish {
        dup: false,
        retain: false,
        qos,
        pkid,
        topic: topic.as_bytes().to_vec(),
        payload: payload.to_vec(),
    }
}

#[test]
fn end_to_end_qos1_tenant_topic() {
    // Publish{qos=AtLeastOnce, packetId=7, topic="/v2.0/users/alice/data",
    // payload=[1,2,3]} must encode with remaining length
    // 2 + len("/v2.0/data") + 3 + 2 = 17.
    let p = sample(QoS::AtLeastOnce, 7, "/v2.0/users/alice/data", &[1, 2, 3]);
    let mut buffer: Vec<u8> = Vec::new();
    let n = mqtt_tenant::publish::write(&p, &mut buffer).unwrap();
    assert_eq!(buffer[1], 17);
    assert_eq!(n, 2 + 17);
    assert_eq!(buffer.len(), n);

    let back = decode(&buffer).unwrap();
    assert_eq!(back.qos, QoS::AtLeastOnce);
    assert_eq!(back.pkid, 7);
    assert_eq!(back.topic, b"/v2.0/data".to_vec());
    assert_eq!(back.payload, vec![1, 2, 3]);
    assert!(!back.dup);
    assert!(!back.retain);
}

#[test]
fn remaining_length_after_strip() {
    // topic "/v1.6/users/bob/temp" (20 bytes) strips to "/v1.6/temp"
    // (10 bytes); with a 5-byte payload and qos at-most-once the
    // remaining length must be 2 + 10 + 5 = 17.
    let p = sample(QoS::AtMostOnce, 0, "/v1.6/users/bob/temp", &[9, 9, 9, 9, 9]);
    let mut buffer: Vec<u8> = Vec::new();
    let n = mqtt_tenant::publish::write(&p, &mut buffer).unwrap();
    assert_eq!(buffer[1], 17);
    assert_eq!(n, 2 + 17);
}

#[test]
fn round_trip_qos0() {
    // decode(encode(p)) reproduces p except for one namespace-strip
    // pass over the topic; packet identifier zero on both sides.
    let p = Publish {
        dup: true,
        retain: true,
        qos: QoS::AtMostOnce,
        pkid: 0,
        topic: b"/a/users/bob/b".to_vec(),
        payload: b"payload".to_vec(),
    };
    let mut buffer: Vec<u8> = Vec::new();
    mqtt_tenant::publish::write(&p, &mut buffer).unwrap();
    let back = decode(&buffer).unwrap();
    assert_eq!(back.dup, p.dup);
    assert_eq!(back.retain, p.retain);
    assert_eq!(back.qos, QoS::AtMostOnce);
    assert_eq!(back.pkid, 0);
    assert_eq!(back.topic, b"/a/b".to_vec());
    assert_eq!(back.payload, p.payload);
}

#[test]
fn round_trip_qos2() {
    let p = sample(QoS::ExactlyOnce, 513, "/no/marker/here", b"x");
    let mut buffer: Vec<u8> = Vec::new();
    mqtt_tenant::publish::write(&p, &mut buffer).unwrap();
    let back = decode(&buffer).unwrap();
    assert_eq!(back, p);
}

#[test]
fn encode_packet_id_zero() {
    // For qos above at-most-once, encode fails with PacketIdZero
    // exactly when the packet identifier is zero.
    let mut buffer: Vec<u8> = Vec::new();
    let bad = sample(QoS::AtLeastOnce, 0, "/t", b"");
    assert_eq!(mqtt_tenant::publish::write(&bad, &mut buffer), Err(CodecError::PacketIdZero));
    assert!(buffer.is_empty());
    let bad2 = sample(QoS::ExactlyOnce, 0, "/t", b"");
    assert_eq!(mqtt_tenant::publish::write(&bad2, &mut buffer), Err(CodecError::PacketIdZero));
    let good = sample(QoS::AtLeastOnce, 1, "/t", b"");
    assert!(mqtt_tenant::publish::write(&good, &mut buffer).is_ok());
}

#[test]
fn decode_packet_id_zero() {
    // A wire packet with qos bits 01 and identifier bytes 00 00 fails
    // with PacketIdZero; the same packet with a nonzero identifier
    // decodes.
    let wire = vec![0x32, 5, 0, 1, b't', 0, 0];
    assert_eq!(decode(&wire), Err(CodecError::PacketIdZero));
    let wire_ok = vec![0x32, 5, 0, 1, b't', 0, 1];
    let p = decode(&wire_ok).unwrap();
    assert_eq!(p.pkid, 1);
    assert_eq!(p.qos, QoS::AtLeastOnce);
}

#[test]
fn decode_qos_bits() {
    // Raw qos bits 0b11 are the one undefined combination; 0b00, 0b01
    // and 0b10 succeed.
    let wire_invalid = vec![0x36, 5, 0, 1, b't', 0, 1];
    assert_eq!(decode(&wire_invalid), Err(CodecError::InvalidQoS(3)));
    let wire_q0 = vec![0x30, 3, 0, 1, b't'];
    assert_eq!(decode(&wire_q0).unwrap().qos, QoS::AtMostOnce);
    let wire_q1 = vec![0x32, 5, 0, 1, b't', 0, 1];
    assert_eq!(decode(&wire_q1).unwrap().qos, QoS::AtLeastOnce);
    let wire_q2 = vec![0x34, 5, 0, 1, b't', 0, 2];
    assert_eq!(decode(&wire_q2).unwrap().qos, QoS::ExactlyOnce);
}

#[test]
fn multi_byte_remaining_length() {
    // remaining length 153 = 2 + 1 + 150 takes two varint bytes:
    // 0x99 0x01.
    let p = sample(QoS::AtMostOnce, 0, "t", &[7u8; 150]);
    let mut buffer: Vec<u8> = Vec::new();
    let n = mqtt_tenant::publish::write(&p, &mut buffer).unwrap();
    assert_eq!(buffer[1], 0x99);
    assert_eq!(buffer[2], 0x01);
    assert_eq!(n, 3 + 153);
    let back = decode(&buffer).unwrap();
    assert_eq!(back.payload.len(), 150);
}

#[test]
fn truncated_buffers() {
    assert_eq!(decode(&vec![]), Err(CodecError::TruncatedBuffer));
    assert_eq!(decode(&vec![0x30]), Err(CodecError::TruncatedBuffer));
    // topic length prefix missing a byte
    assert_eq!(decode(&vec![0x30, 4, 0]), Err(CodecError::TruncatedBuffer));
    // declared topic longer than the buffer
    assert_eq!(decode(&vec![0x30, 4, 0, 9, b't']), Err(CodecError::TruncatedBuffer));
    // qos 1 but no packet identifier bytes
    assert_eq!(decode(&vec![0x32, 3, 0, 1, b't']), Err(CodecError::TruncatedBuffer));
    // varint never terminates within the buffer
    assert_eq!(decode(&vec![0x30, 0x80, 0x80]), Err(CodecError::TruncatedBuffer));
}

#[test]
fn varint_ceiling() {
    // Values at or above 2^28 cannot be written.
    let mut buffer: Vec<u8> = Vec::new();
    assert_eq!(
        write_remaining_length(&mut buffer, 0x1000_0000),
        Err(CodecError::LengthOverflow)
    );
    assert!(buffer.is_empty());
    let c = write_remaining_length(&mut buffer, 0x0FFF_FFFF).unwrap();
    assert_eq!(c, 4);
    assert_eq!(buffer, vec![0xFF, 0xFF, 0xFF, 0x7F]);
    // a varint with a continuation bit on its fourth byte overflows
    assert_eq!(
        decode(&vec![0x30, 0x80, 0x80, 0x80, 0x80, 0x01]),
        Err(CodecError::LengthOverflow)
    );
}

#[test]
fn len_counts_packet_id_only_when_nonzero() {
    let with_id = sample(QoS::AtLeastOnce, 5, "/ab", b"xyz");
    assert_eq!(len(&with_id), 2 + 3 + 3 + 2);
    let qos0 = sample(QoS::AtMostOnce, 0, "/ab", b"xyz");
    assert_eq!(len(&qos0), 2 + 3 + 3);
    let odd = sample(QoS::AtLeastOnce, 0, "/ab", b"xyz");
    assert_eq!(len(&odd), 2 + 3 + 3);
}
