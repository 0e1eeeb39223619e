use bytes::{Bytes, BytesMut};
use poster::codec::ack::{AckReason, AckRx, AckTxBuilder};
use poster::codec::puback::PubackReason;
use poster::codec::pubcomp::PubcompReason;
use poster::codec::pubrec::PubrecReason;
use poster::codec::pubrel::PubrelReason;
use poster::types::base_types::{NonZero, UTF8StringPairRef, UTF8StringRef};
use poster::types::properties::{REASON_STRING, USER_PROPERTY};
use std::fmt::Debug;

fn full_packet<R: AckReason>() -> Vec<u8> {
    let fixed_hdr = R::packet_id() << 4;
    vec![
        fixed_hdr,
        25,   // Remaining length
        0x45, // Packet ID MSB
        0x73, // Packet ID LSB
        0,    // Success
        21,   // Property length
        REASON_STRING,
        0, // Reason string size
        7,
        b'S',
        b'u',
        b'c',
        b'c',
        b'e',
        b's',
        b's',
        USER_PROPERTY,
        0, // User property key size
        3,
        b'k',
        b'e',
        b'y',
        0, // User property value size
        3,
        b'v',
        b'a',
        b'l',
    ]
}

fn from_bytes_impl<R: AckReason + Debug + PartialEq + Default>() {
    let input_packet = full_packet::<R>();
    let packet = AckRx::<R>::try_decode(Bytes::copy_from_slice(&input_packet)).unwrap();

    assert_eq!(packet.packet_identifier, NonZero::try_from(0x4573u16).unwrap());
    assert_eq!(packet.reason, R::default());
    assert_eq!(packet.reason_string.unwrap().as_str(), "Success");
    assert_eq!(packet.user_property.len(), 1);
    assert_eq!(packet.user_property.iter()[0], ("key", "val"));
}

fn from_bytes_short_impl<R: AckReason + Debug + PartialEq + Default>() {
    let fixed_hdr = R::packet_id() << 4;
    let input_packet = [
        fixed_hdr, 2,    // Remaining length
        0x45, // Packet ID MSB
        0x73, // Packet ID LSB
    ];

    let packet = AckRx::<R>::try_decode(Bytes::copy_from_slice(&input_packet)).unwrap();

    assert_eq!(packet.packet_identifier.get(), 0x4573);
    assert_eq!(packet.reason, R::default());
}

fn to_bytes_impl<R: AckReason + Default>() {
    let expected_packet = full_packet::<R>();

    let mut builder = AckTxBuilder::<R>::default();
    builder.packet_identifier(NonZero::try_from(0x4573u16).unwrap());
    builder.reason(R::default());
    builder.reason_string(UTF8StringRef("Success"));
    builder.user_property(UTF8StringPairRef("key", "val"));

    let packet = builder.build().unwrap();
    let mut buf = BytesMut::new();
    packet.encode(&mut buf);
    assert_eq!(packet.packet_len(), expected_packet.len());
    assert_eq!(buf.split().freeze(), &expected_packet[..]);
}

fn to_bytes_short_impl<R: AckReason>() {
    let fixed_hdr = R::packet_id() << 4;
    let expected_packet = [
        fixed_hdr, 2,    // Remaining length
        0x45, // Packet ID MSB
        0x73, // Packet ID LSB
    ];

    let mut builder = AckTxBuilder::<R>::default();
    builder.packet_identifier(NonZero::try_from(0x4573u16).unwrap());

    let packet = builder.build().unwrap();
    let mut buf = BytesMut::new();
    packet.encode(&mut buf);
    assert_eq!(packet.packet_len(), expected_packet.len());
    assert_eq!(buf.split().freeze(), &expected_packet[..]);
}

#[test]
fn puback_from_bytes_0() {
    from_bytes_impl::<PubackReason>();
}

#[test]
fn puback_from_bytes_1() {
    from_bytes_short_impl::<PubackReason>();
}

#[test]
fn puback_to_bytes_0() {
    to_bytes_impl::<PubackReason>();
}

#[test]
fn puback_to_bytes_1() {
    to_bytes_short_impl::<PubackReason>();
}

#[test]
fn pubcomp_from_bytes_0() {
    from_bytes_impl::<PubcompReason>();
}

#[test]
fn pubcomp_from_bytes_1() {
    from_bytes_short_impl::<PubcompReason>();
}

#[test]
fn pubcomp_to_bytes_0() {
    to_bytes_impl::<PubcompReason>();
}

#[test]
fn pubcomp_to_bytes_1() {
    to_bytes_short_impl::<PubcompReason>();
}

#[test]
fn pubrec_from_bytes_0() {
    from_bytes_impl::<PubrecReason>();
}

#[test]
fn pubrec_from_bytes_1() {
    from_bytes_short_impl::<PubrecReason>();
}

#[test]
fn pubrec_to_bytes_0() {
    to_bytes_impl::<PubrecReason>();
}

#[test]
fn pubrec_to_bytes_1() {
    to_bytes_short_impl::<PubrecReason>();
}

#[test]
fn pubrel_from_bytes_0() {
    from_bytes_impl::<PubrelReason>();
}

#[test]
fn pubrel_from_bytes_1() {
    from_bytes_short_impl::<PubrelReason>();
}

#[test]
fn pubrel_to_bytes_0() {
    to_bytes_impl::<PubrelReason>();
}

#[test]
fn pubrel_to_bytes_1() {
    to_bytes_short_impl::<PubrelReason>();
}

#[test]
fn ack_refuses_wrong_header() {
    let input = [0x50u8, 2, 0x45, 0x73];
    assert!(AckRx::<PubackReason>::try_decode(Bytes::copy_from_slice(&input)).is_err());
}

#[test]
fn ack_refuses_unknown_reason() {
    let input = [0x40u8, 4, 0x45, 0x73, 0x01, 0];
    assert!(AckRx::<PubackReason>::try_decode(Bytes::copy_from_slice(&input)).is_err());
}

#[test]
fn ack_refuses_zero_packet_identifier() {
    let input = [0x40u8, 2, 0, 0];
    assert!(AckRx::<PubackReason>::try_decode(Bytes::copy_from_slice(&input)).is_err());
}

#[test]
fn ack_refuses_too_long_remaining_length() {
    let input = [0x40u8, 9, 0x45, 0x73];
    assert!(AckRx::<PubackReason>::try_decode(Bytes::copy_from_slice(&input)).is_err());
}

#[test]
fn ack_refuses_unexpected_property() {
    // Topic alias is not a property of an acknowledgement.
    let input = [0x40u8, 7, 0x45, 0x73, 0x10, 3, 0x23, 0, 1];
    assert!(AckRx::<PubackReason>::try_decode(Bytes::copy_from_slice(&input)).is_err());
}

#[test]
fn ack_with_error_reason_is_not_shortened() {
    let mut builder = AckTxBuilder::<PubackReason>::default();
    builder.packet_identifier(NonZero::try_from(7u16).unwrap());
    builder.reason(PubackReason::QuotaExceeded);
    let packet = builder.build().unwrap();
    let mut buf = BytesMut::new();
    packet.encode(&mut buf);
    assert_eq!(&buf[..], &[0x40, 4, 0, 7, 0x97, 0][..]);
}

#[test]
fn ack_builder_needs_packet_identifier() {
    let builder = AckTxBuilder::<PubackReason>::default();
    assert!(builder.build().is_err());
}

fn round_trip_impl<R: AckReason + Debug + PartialEq>(reason: R) {
    let mut builder = AckTxBuilder::<R>::default();
    builder.packet_identifier(NonZero::try_from(0x1234u16).unwrap());
    builder.reason(reason);
    builder.reason_string(UTF8StringRef("why"));
    builder.user_property(UTF8StringPairRef("a", "1"));
    builder.user_property(UTF8StringPairRef("b", "2"));
    let packet = builder.build().unwrap();
    let mut buf = BytesMut::new();
    packet.encode(&mut buf);
    assert_eq!(packet.packet_len(), buf.len());
    let rx = AckRx::<R>::try_decode(buf.freeze()).unwrap();
    assert_eq!(rx.packet_identifier.get(), 0x1234);
    assert_eq!(rx.reason, reason);
    assert_eq!(rx.reason_string.unwrap().as_str(), "why");
    assert_eq!(rx.user_property.iter(), vec![("a", "1"), ("b", "2")]);
}

#[test]
fn ack_round_trip() {
    round_trip_impl(PubackReason::NoMatchingSubscribers);
    round_trip_impl(PubrecReason::Success);
    round_trip_impl(PubrelReason::PacketIdentifierNotFound);
    round_trip_impl(PubcompReason::Success);
}

#[test]
fn ack_round_trip_shortened() {
    let mut builder = AckTxBuilder::<PubrelReason>::default();
    builder.packet_identifier(NonZero::try_from(9u16).unwrap());
    let packet = builder.build().unwrap();
    let mut buf = BytesMut::new();
    packet.encode(&mut buf);
    assert_eq!(&buf[..], &[0x60, 2, 0, 9][..]);
    let rx = AckRx::<PubrelReason>::try_decode(buf.freeze()).unwrap();
    assert_eq!(rx.packet_identifier.get(), 9);
    assert_eq!(rx.reason, PubrelReason::Success);
    assert!(rx.reason_string.is_none());
    assert_eq!(rx.user_property.len(), 0);
}

#[test]
fn pubrel_from_bytes() {
    from_bytes_impl::<PubrelReason>();
}
