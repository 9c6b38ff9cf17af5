use poe_packet::{Direction, Error, Ipv4Addr, PoePacket};

fn header(direction: u8, port: u16, ip: [u8; 4], size: u16) -> Vec<u8> {
    vec![
        direction,
        (port >> 8) as u8,
        (port & 0xFF) as u8,
        ip[0],
        ip[1],
        ip[2],
        ip[3],
        (size >> 8) as u8,
        (size & 0xFF) as u8,
    ]
}

#[test]
fn direction_from_byte_canonical_codes() {
    assert_eq!(Direction::from_byte(0), Direction::ToGameserver);
    assert_eq!(Direction::from_byte(1), Direction::FromGameserver);
    assert_eq!(Direction::from_byte(2), Direction::ToLoginserver);
    assert_eq!(Direction::from_byte(3), Direction::FromLoginserver);
}

#[test]
fn direction_to_byte_canonical_codes() {
    assert_eq!(Direction::ToGameserver.to_byte(), 0);
    assert_eq!(Direction::FromGameserver.to_byte(), 1);
    assert_eq!(Direction::ToLoginserver.to_byte(), 2);
    assert_eq!(Direction::FromLoginserver.to_byte(), 3);
}

#[test]
fn direction_mapping_totality() {
    for b in 0..=255u8 {
        let d = Direction::from_byte(b);
        if b <= 3 {
            assert_eq!(d.to_byte(), b);
        } else {
            assert_ne!(d.to_byte(), b);
        }
        if b >= 3 {
            assert_eq!(d, Direction::FromLoginserver);
        }
    }
}

#[test]
fn direction_labels() {
    assert_eq!(Direction::ToGameserver.display(), "C  -> GS");
    assert_eq!(Direction::FromGameserver.display(), "C <-  GS");
    assert_eq!(Direction::ToLoginserver.display(), "C  -> LS");
    assert_eq!(Direction::FromLoginserver.display(), "C <-  LS");
}

#[test]
fn new_copies_payload_and_sets_fields() {
    let ip = Ipv4Addr { a: 192, b: 168, c: 0, d: 7 };
    let p = PoePacket::new(&[9, 8, 7], Direction::ToLoginserver, ip, 4000);
    assert_eq!(p.direction, Direction::ToLoginserver);
    assert_eq!(p.ip, ip);
    assert_eq!(p.port, 4000);
    assert_eq!(p.payload, vec![9, 8, 7]);
}

#[test]
fn encoding_layout_exact_bytes() {
    let p = PoePacket::new(
        &[0xDE, 0xAD],
        Direction::FromLoginserver,
        Ipv4Addr { a: 1, b: 2, c: 3, d: 4 },
        6112,
    );
    let buf = p.to_buf();
    assert_eq!(
        buf,
        vec![0x03, 0x17, 0xE0, 0x01, 0x02, 0x03, 0x04, 0x00, 0x02, 0xDE, 0xAD]
    );
}

#[test]
fn encoding_empty_payload() {
    let p = PoePacket::new(
        &[],
        Direction::ToGameserver,
        Ipv4Addr { a: 0, b: 0, c: 0, d: 0 },
        0,
    );
    let buf = p.to_buf();
    assert_eq!(buf, vec![0, 0, 0, 0, 0, 0, 0, 0, 0]);
}

#[test]
fn round_trip_preserves_packet() {
    let p = PoePacket::new(
        &[0x11, 0x22, 0x33, 0x44, 0x55],
        Direction::FromGameserver,
        Ipv4Addr { a: 10, b: 20, c: 30, d: 40 },
        2000,
    );
    let q = PoePacket::from_buf(&p.to_buf()).unwrap();
    assert_eq!(q, p);
    assert_eq!(q.direction, Direction::FromGameserver);
    assert_eq!(q.ip, Ipv4Addr { a: 10, b: 20, c: 30, d: 40 });
    assert_eq!(q.port, 2000);
    assert_eq!(q.payload, vec![0x11, 0x22, 0x33, 0x44, 0x55]);
}

#[test]
fn round_trip_largest_payload() {
    let payload = vec![0xA5u8; 65535];
    let p = PoePacket::new(
        &payload,
        Direction::ToGameserver,
        Ipv4Addr { a: 255, b: 255, c: 255, d: 255 },
        65535,
    );
    let buf = p.to_buf();
    assert_eq!(buf.len(), 9 + 65535);
    let q = PoePacket::from_buf(&buf).unwrap();
    assert_eq!(q, p);
}

#[test]
fn decode_rejects_short_buffers() {
    for n in 0..9usize {
        let buf = vec![0u8; n];
        assert_eq!(PoePacket::from_buf(&buf), Err(Error::CanNotDeserialize));
    }
}

#[test]
fn decode_rejects_declared_length_past_buffer() {
    // Header alone, declaring one payload byte that is not there.
    let buf = header(0, 80, [127, 0, 0, 1], 1);
    assert_eq!(PoePacket::from_buf(&buf), Err(Error::CanNotDeserialize));

    // Declares three bytes, carries two.
    let mut buf = header(1, 80, [127, 0, 0, 1], 3);
    buf.extend_from_slice(&[0x12, 0x34]);
    assert_eq!(PoePacket::from_buf(&buf), Err(Error::CanNotDeserialize));
}

#[test]
fn decode_exact_fit_payload() {
    let mut buf = header(0, 80, [127, 0, 0, 1], 2);
    buf.extend_from_slice(&[0x12, 0x34]);
    let p = PoePacket::from_buf(&buf).unwrap();
    assert_eq!(p.direction, Direction::ToGameserver);
    assert_eq!(p.port, 80);
    assert_eq!(p.ip, Ipv4Addr { a: 127, b: 0, c: 0, d: 1 });
    assert_eq!(p.payload, vec![0x12, 0x34]);
}

#[test]
fn decode_padded_buffer_takes_tail_bytes() {
    // The header declares two payload bytes, but four bytes follow it: the
    // codec reads the payload from the tail of the buffer, so the two
    // unknown padding bytes after the header are skipped.
    let mut buf = header(0, 80, [127, 0, 0, 1], 2);
    buf.extend_from_slice(&[0xAA, 0xAA, 0x12, 0x34]);
    assert_eq!(buf.len(), 13);
    let p = PoePacket::from_buf(&buf).unwrap();
    assert_eq!(p.payload, vec![0x12, 0x34]);
    assert_ne!(p.payload, vec![0xAA, 0xAA]);
}

#[test]
fn decode_folds_unknown_direction_codes() {
    let mut buf = header(200, 1234, [8, 8, 8, 8], 2);
    buf.extend_from_slice(&[1, 2]);
    let p = PoePacket::from_buf(&buf).unwrap();
    assert_eq!(p.direction, Direction::FromLoginserver);
}

#[test]
fn display_formatting() {
    let p = PoePacket::new(
        &[0x01, 0x02, 0x03],
        Direction::ToGameserver,
        Ipv4Addr { a: 10, b: 0, c: 0, d: 1 },
        1337,
    );
    assert_eq!(p.display(), "C  -> GS(10.0.0.1) id: [01, 02], size: 3");
}

#[test]
fn display_hex_and_decimal_digits() {
    let p = PoePacket::new(
        &[0xFE, 0x0B],
        Direction::FromGameserver,
        Ipv4Addr { a: 255, b: 0, c: 16, d: 254 },
        1,
    );
    assert_eq!(p.display(), "C <-  GS(255.0.16.254) id: [fe, 0b], size: 2");
}

#[test]
fn display_short_payload_omits_id() {
    let ip = Ipv4Addr { a: 1, b: 2, c: 3, d: 4 };
    let empty = PoePacket::new(&[], Direction::FromLoginserver, ip, 5);
    assert_eq!(empty.display(), "C <-  LS(1.2.3.4), size: 0");
    let one = PoePacket::new(&[0xFF], Direction::ToLoginserver, ip, 5);
    assert_eq!(one.display(), "C  -> LS(1.2.3.4), size: 1");
}

#[test]
fn packet_equality_is_by_value() {
    let ip = Ipv4Addr { a: 1, b: 1, c: 1, d: 1 };
    let p = PoePacket::new(&[1, 2], Direction::ToGameserver, ip, 7);
    let q = PoePacket::new(&[1, 2], Direction::ToGameserver, ip, 7);
    assert_eq!(p, q);
    let r = PoePacket::new(&[1, 3], Direction::ToGameserver, ip, 7);
    assert_ne!(p, r);
    let s = PoePacket::new(&[1, 2], Direction::FromGameserver, ip, 7);
    assert_ne!(p, s);
}
