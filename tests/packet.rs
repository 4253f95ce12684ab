use hftwo::Error;
use hftwo::Packet;
use hftwo::PacketKind;

/// Example frames of the protocol.
const TEST_PACKET: &[&[u8]] = &[
    &[0x83, 0x01, 0x02, 0x03, 0xAB, 0xFF, 0xFF, 0xFF],
    &[0x85, 0x04, 0x05, 0x06, 0x07, 0x08],
    &[0x80, 0xDE, 0x42, 0x42, 0x42, 0x42, 0xFF, 0xFF],
    &[
        0xD0, 0x09, 0x0A, 0x0B, 0x0C, 0x0D, 0x0E, 0x0F, 0x10, 0x11, 0x12, 0x13, 0x14, 0x15, 0x16,
        0x17, 0xFF, 0xFF, 0xFF,
    ],
];

#[test]
fn test_packet() {
    let packet = Packet::from_bytes(&[0, 0xFF, 0xFF]).unwrap();
    assert!(packet.kind() == PacketKind::CommandInner);
    let packet = Packet::from_bytes(&[0x40, 0xFF, 0xFF]).unwrap();
    assert!(packet.kind() == PacketKind::CommandFinal);
    let packet = Packet::from_bytes(&[0x80, 0xFF, 0xFF]).unwrap();
    assert!(packet.kind() == PacketKind::StdOut);
    let packet = Packet::from_bytes(&[0xC0, 0xFF, 0xFF]).unwrap();
    assert!(packet.kind() == PacketKind::StdErr);
}

#[test]
fn test_stdout() {
    let packet = Packet::from_bytes(TEST_PACKET[0]).unwrap();
    assert!(packet.kind() == PacketKind::StdOut);
    assert_eq!(packet.len(), 4);
    assert_eq!(packet.data().len(), 3);
    assert_eq!(packet.data(), &[0x01, 0x02, 0x03]);

    let packet = Packet::from_bytes(TEST_PACKET[1]).unwrap();
    assert!(packet.kind() == PacketKind::StdOut);
    assert_eq!(packet.len(), 6);
    assert_eq!(packet.data().len(), 5);
    assert_eq!(packet.data(), &[0x04, 0x05, 0x06, 0x07, 0x08]);

    let packet = Packet::from_bytes(TEST_PACKET[2]).unwrap();
    assert!(packet.kind() == PacketKind::StdOut);
    assert_eq!(packet.len(), 1);
    assert_eq!(packet.data().len(), 0);
    assert_eq!(packet.data(), &[]);

    let packet = Packet::from_bytes(TEST_PACKET[3]).unwrap();
    assert!(packet.kind() == PacketKind::StdErr);
    assert_eq!(packet.len(), 17);
    assert_eq!(
        packet.data(),
        &[
            0x09, 0x0A, 0x0B, 0x0C, 0x0D, 0x0E, 0x0F, 0x10, 0x11, 0x12, 0x13, 0x14, 0x15, 0x16,
            0x17, 0xFF
        ]
    );
}

#[test]
fn frame_round_trip_each_kind() {
    let payload = [0x10u8, 0x20, 0x30];
    for kind in [
        PacketKind::CommandInner,
        PacketKind::CommandFinal,
        PacketKind::StdOut,
        PacketKind::StdErr,
    ] {
        let mut buf = [0xEEu8; 8];
        {
            let packet = Packet::new(&mut buf, kind, &payload).unwrap();
            assert!(packet.kind() == kind);
            assert_eq!(packet.data(), &payload);
            assert_eq!(packet.len(), 4);
        }
        assert_eq!(buf[4..], [0xEE; 4]);
        let decoded = Packet::from_bytes(&buf).unwrap();
        assert!(decoded.kind() == kind);
        assert_eq!(decoded.data(), &payload);
    }
}

#[test]
fn encode_frame_header_byte() {
    let mut buf = [0u8; 4];
    Packet::new(&mut buf, PacketKind::StdErr, &[0xAA, 0xBB]).unwrap();
    assert_eq!(buf, [0xC2, 0xAA, 0xBB, 0x00]);
    let mut buf = [0u8; 1];
    Packet::new(&mut buf, PacketKind::CommandFinal, &[]).unwrap();
    assert_eq!(buf, [0x40]);
}

#[test]
fn encode_largest_payload() {
    let payload = [0x5Au8; 63];
    let mut buf = [0u8; 64];
    let packet = Packet::new(&mut buf, PacketKind::CommandInner, &payload).unwrap();
    assert_eq!(packet.len(), 64);
    assert_eq!(packet.data(), &payload[..]);
    assert_eq!(buf[0], 0x3F);
    let decoded = Packet::from_bytes(&buf).unwrap();
    assert!(decoded.kind() == PacketKind::CommandInner);
    assert_eq!(decoded.data().len(), 63);
}

#[test]
fn encode_rejects_long_payload() {
    let payload = [0u8; 64];
    let mut buf = [0x11u8; 100];
    assert_eq!(
        Packet::new(&mut buf, PacketKind::StdOut, &payload).unwrap_err(),
        Error::PayloadTooLong
    );
    assert_eq!(buf, [0x11u8; 100]);
}

#[test]
fn encode_rejects_small_buffer() {
    let mut buf = [0x11u8; 3];
    assert_eq!(
        Packet::new(&mut buf, PacketKind::StdOut, &[1, 2, 3]).unwrap_err(),
        Error::BufferTooSmall
    );
    assert_eq!(buf, [0x11u8; 3]);
}

#[test]
fn decode_rejects_empty_frame() {
    assert_eq!(Packet::from_bytes(&[]).unwrap_err(), Error::FrameLength);
}

#[test]
fn decode_rejects_oversized_frame() {
    let frame = [0u8; 65];
    assert_eq!(Packet::from_bytes(&frame).unwrap_err(), Error::FrameLength);
    let frame = [0u8; 64];
    assert!(Packet::from_bytes(&frame).is_ok());
}

#[test]
fn decode_rejects_payload_overrun() {
    assert_eq!(
        Packet::from_bytes(&[0x85, 0x01, 0x02]).unwrap_err(),
        Error::PayloadOverrun
    );
}

#[test]
fn kind_from_header_byte() {
    assert!(PacketKind::from(0x3Fu8) == PacketKind::CommandInner);
    assert!(PacketKind::from(0x41u8) == PacketKind::CommandFinal);
    assert!(PacketKind::from(0xBFu8) == PacketKind::StdOut);
    assert!(PacketKind::from(0xFFu8) == PacketKind::StdErr);
    let packet = Packet::from_bytes(&[0xC1, 0x07]).unwrap();
    assert!(PacketKind::from(&packet) == PacketKind::StdErr);
    assert_eq!(PacketKind::StdOut.tag(), 0x80);
}
