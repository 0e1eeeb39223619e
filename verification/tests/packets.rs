use bytes::{Bytes, BytesMut};
use poster::codec::auth::{AuthReason, AuthRx, AuthTxBuilder};
use poster::codec::connack::{ConnackRx, ConnectReason};
use poster::codec::connect::ConnectTxBuilder;
use poster::codec::disconnect::{DisconnectReason, DisconnectRx, DisconnectTxBuilder};
use poster::codec::packets::{RxPacket, TxPacket};
use poster::codec::ping::{PingreqTxBuilder, PingrespRx};
use poster::codec::publish::{PublishRx, PublishTxBuilder};
use poster::codec::suback::{SubackReason, SubackRx};
use poster::codec::subscribe::{RetainHandling, SubscribeTxBuilder, SubscriptionOptions};
use poster::codec::unsuback::{UnsubackReason, UnsubackRx};
use poster::codec::unsubscribe::UnsubscribeTxBuilder;
use poster::types::base_types::{BinaryRef, NonZero, PayloadRef, QoS, UTF8StringPairRef, UTF8StringRef};
use poster::types::error::CodecError;
use poster::types::properties::{REASON_STRING, USER_PROPERTY};

#[test]
fn auth_from_bytes_1() {
    const PACKET: [u8; 2] = [0xf0, 0];
    let packet = AuthRx::try_decode(Bytes::from_static(&PACKET));
    assert!(packet.is_ok());
    assert_eq!(packet.unwrap().reason, AuthReason::Success);
}

#[test]
fn auth_to_bytes_1() {
    const EXPECTED: [u8; 2] = [0xf0, 0];
    let builder = AuthTxBuilder::default();
    let packet = builder.build().unwrap();
    let mut buf = BytesMut::new();
    packet.encode(&mut buf);
    assert_eq!(&buf.split().freeze()[..], EXPECTED);
}

#[test]
fn auth_needs_method_and_data() {
    let mut builder = AuthTxBuilder::default();
    builder.reason(AuthReason::ContinueAuthentication);
    builder.authentication_method(UTF8StringRef("m"));
    assert!(matches!(builder.build(), Err(CodecError::MandatoryPropertyMissing(_))));

    // A received packet that is not the bare success needs them too.
    const PACKET: [u8; 4] = [0xf0, 2, 0x18, 0];
    assert!(matches!(
        AuthRx::try_decode(Bytes::from_static(&PACKET)),
        Err(CodecError::MandatoryPropertyMissing(_))
    ));
}

#[test]
fn auth_round_trip_continue() {
    let mut builder = AuthTxBuilder::default();
    builder.reason(AuthReason::ContinueAuthentication);
    builder.authentication_method(UTF8StringRef("m"));
    builder.authentication_data(BinaryRef(&[9, 8]));
    let packet = builder.build().unwrap();
    let mut buf = BytesMut::new();
    packet.encode(&mut buf);
    assert_eq!(
        &buf[..],
        &[0xf0, 11, 0x18, 9, 0x15, 0, 1, b'm', 0x16, 0, 2, 9, 8][..]
    );
    assert_eq!(packet.packet_len(), buf.len());
    let rx = AuthRx::try_decode(buf.freeze()).unwrap();
    assert_eq!(rx.reason, AuthReason::ContinueAuthentication);
    assert_eq!(rx.authentication_method.unwrap().as_str(), "m");
    assert_eq!(&rx.authentication_data.unwrap().0[..], &[9, 8]);
}

#[test]
fn connack_from_bytes_0() {
    const PACKET: [u8; 5] = [0x20, 3, 0, 0, 0];
    let result = ConnackRx::try_decode(Bytes::from_static(&PACKET)).unwrap();
    assert!(!result.session_present);
    assert_eq!(result.reason, ConnectReason::Success);
    assert_eq!(result.receive_maximum.get(), 65535);
    assert_eq!(result.topic_alias_maximum, 0);
    assert_eq!(result.maximum_qos, QoS::ExactlyOnce);
    assert!(result.retain_available);
    assert!(result.maximum_packet_size.is_none());
    assert!(result.wildcard_subscription_available);
    assert!(result.subscription_identifier_available);
    assert!(result.shared_subscription_available);
}

#[test]
fn connack_from_bytes_1() {
    const PACKET: [u8; 14] = [0x20, 12, 0, 0, 9, 34, 0, 10, 19, 255, 255, 33, 0, 20];
    let result = ConnackRx::try_decode(Bytes::from_static(&PACKET)).unwrap();
    assert!(!result.session_present);
    assert!(result.maximum_packet_size.is_none());
    assert_eq!(result.reason, ConnectReason::Success);
    assert_eq!(result.receive_maximum.get(), 20);
    assert_eq!(result.topic_alias_maximum, 10);
    assert_eq!(result.maximum_qos, QoS::ExactlyOnce);
    assert_eq!(result.server_keep_alive, Some(0xffff));
    assert!(result.retain_available);
    assert!(result.wildcard_subscription_available);
    assert!(result.subscription_identifier_available);
    assert!(result.shared_subscription_available);
}

#[test]
fn from_bytes_2() {
    const PACKET: [u8; 65] = [
        0x20, 63, 0x00, 0x00, 60, 0x11, 0x00, 0x00, 0x03, 0x84, 0x21, 0x4e, 0x20, 0x24, 0x01,
        0x25, 0x01, 0x27, 0x00, 0x00, 0x01, 0x00, 0x12, 0x00, 0x04, b't', b'e', b's', b't', 0x22,
        0x00, 0x0a, 0x1f, 0x00, 0x07, b's', b'u', b'c', b'c', b'e', b's', b's', 0x28, 0x01, 0x29,
        0x01, 0x2a, 0x01, 0x13, 0x00, 0x64, 0x1a, 0x00, 0x04, b't', b'e', b's', b't', 0x1c, 0x00,
        0x04, b't', b'e', b's', b't',
    ];
    let result = ConnackRx::try_decode(Bytes::from_static(&PACKET)).unwrap();
    assert!(result.user_property.is_empty());
    assert!(result.authentication_data.is_none());
    assert!(result.authentication_method.is_none());
    assert!(!result.session_present);
    assert_eq!(result.reason, ConnectReason::Success);
    assert_eq!(result.session_expiry_interval.unwrap(), 900);
    assert_eq!(result.receive_maximum.get(), 20000);
    assert_eq!(result.maximum_qos, QoS::AtLeastOnce);
    assert!(result.retain_available);
    assert_eq!(result.maximum_packet_size.unwrap().get(), 256);
    assert_eq!(result.assigned_client_identifier.unwrap().as_str(), "test");
    assert_eq!(result.topic_alias_maximum, 10);
    assert_eq!(result.reason_string.unwrap().as_str(), "success");
    assert!(result.wildcard_subscription_available);
    assert!(result.subscription_identifier_available);
    assert!(result.shared_subscription_available);
    assert_eq!(result.server_keep_alive, Some(100));
    assert_eq!(result.response_information.unwrap().as_str(), "test");
    assert_eq!(result.server_reference.unwrap().as_str(), "test");
}

#[test]
fn connack_refuses_bad_header_and_size() {
    assert!(matches!(
        ConnackRx::try_decode(Bytes::from_static(&[0x30, 3, 0, 0, 0])),
        Err(CodecError::InvalidPacketHeader(_))
    ));
    assert!(matches!(
        ConnackRx::try_decode(Bytes::from_static(&[0x20, 9, 0, 0, 0])),
        Err(CodecError::InvalidPacketSize(_))
    ));
    assert!(matches!(
        ConnackRx::try_decode(Bytes::from_static(&[0x20, 3, 0, 0, 5])),
        Err(CodecError::InvalidPropertyLength(_))
    ));
}

#[test]
fn connect_to_bytes_0() {
    const EXPECTED: [u8; 22] = [
        0x10, 20, 0, 4, b'M', b'Q', b'T', b'T', 5, 0, 0, 0, 0, 0, 7, b't', b'e', b's', b't',
        b'1', b'2', b'3',
    ];
    let mut builder = ConnectTxBuilder::default();
    builder.client_identifier(UTF8StringRef("test123"));
    let packet = builder.build().unwrap();
    let mut buf = BytesMut::new();
    packet.encode(&mut buf);
    assert_eq!(packet.packet_len(), EXPECTED.len());
    assert_eq!(&buf.split().freeze()[..], &EXPECTED[..]);
}

#[test]
fn connect_builder_errors() {
    // Without a client identifier the packet carries the empty one.
    let builder = ConnectTxBuilder::default();
    let packet = builder.build().unwrap();
    assert_eq!(packet.client_identifier.0, "");

    let mut builder = ConnectTxBuilder::default();
    builder.client_identifier(UTF8StringRef("id"));
    builder.authentication_data(BinaryRef(&[1]));
    assert!(matches!(builder.build(), Err(CodecError::UnexpectedProperty(_))));
}

#[test]
fn connect_with_flags_and_will() {
    let mut builder = ConnectTxBuilder::default();
    builder.client_identifier(UTF8StringRef("c"));
    builder.clean_start(true);
    builder.keep_alive(60);
    builder.receive_maximum(NonZero::try_from(10u16).unwrap());
    builder.will_qos(QoS::AtLeastOnce);
    builder.will_topic(UTF8StringRef("w"));
    builder.will_payload(BinaryRef(&[7]));
    builder.username(UTF8StringRef("u"));
    let packet = builder.build().unwrap();
    let mut buf = BytesMut::new();
    packet.encode(&mut buf);
    let expected: Vec<u8> = vec![
        0x10, 27, 0, 4, b'M', b'Q', b'T', b'T', 5,
        0x80 | 0x08 | 0x04 | 0x02, // user name, will QoS 1, will flag, clean start
        0, 60, // keep alive
        3, 0x21, 0, 10, // receive maximum
        0, 1, b'c', // client identifier
        0, // will property length
        0, 1, b'w', // will topic
        0, 1, 7, // will payload
        0, 1, b'u', // user name
    ];
    assert_eq!(&buf[..], &expected[..]);
    assert_eq!(packet.packet_len(), expected.len());
}

const DISCONNECT_PACKET: [u8; 25] = [
    0xe0, 23, 0x00, 21, REASON_STRING, 0, 7, b'S', b'u', b'c', b'c', b'e', b's', b's',
    USER_PROPERTY, 0, 3, b'k', b'e', b'y', 0, 3, b'v', b'a', b'l',
];

#[test]
fn disconnect_from_bytes_0() {
    let packet = DisconnectRx::try_decode(Bytes::from_static(&DISCONNECT_PACKET)).unwrap();
    assert_eq!(packet.reason, DisconnectReason::Success);
    assert_eq!(packet.reason_string.unwrap().as_str(), "Success");
    assert_eq!(packet.user_property.len(), 1);
    assert_eq!(packet.user_property.iter(), vec![("key", "val")]);
}

#[test]
fn disconnect_to_bytes_0() {
    let mut builder = DisconnectTxBuilder::default();
    builder.reason(DisconnectReason::Success);
    builder.reason_string(UTF8StringRef("Success"));
    builder.user_property(UTF8StringPairRef("key", "val"));
    let packet = builder.build().unwrap();
    let mut buf = BytesMut::new();
    packet.encode(&mut buf);
    assert_eq!(&buf.split().freeze()[..], &DISCONNECT_PACKET);
}

#[test]
fn disconnect_refuses_session_expiry_interval() {
    const PACKET: [u8; 9] = [0xe0, 7, 0x00, 5, 0x11, 0, 0, 0, 1];
    assert!(matches!(
        DisconnectRx::try_decode(Bytes::from_static(&PACKET)),
        Err(CodecError::UnexpectedProperty(_))
    ));
}

#[test]
fn disconnect_short_form_and_session_expiry() {
    let packet = DisconnectRx::try_decode(Bytes::from_static(&[0xe0, 1, 0x8e])).unwrap();
    assert_eq!(packet.reason, DisconnectReason::SessionTakenOver);

    let mut builder = DisconnectTxBuilder::default();
    builder.session_expiry_interval(3);
    let packet = builder.build().unwrap();
    let mut buf = BytesMut::new();
    packet.encode(&mut buf);
    assert_eq!(&buf[..], &[0xe0, 7, 0, 5, 0x11, 0, 0, 0, 3][..]);
}

const PUBLISH_PACKET: [u8; 15] = [
    0x3b, 13, 0, 4, b't', b'e', b's', b't', 0, 13, 0, b't', b'e', b's', b't',
];

#[test]
fn publish_from_bytes_0() {
    let packet = PublishRx::try_decode(Bytes::from_static(&PUBLISH_PACKET)).unwrap();
    assert!(packet.dup);
    assert!(packet.retain);
    assert_eq!(packet.qos, QoS::AtLeastOnce);
    assert_eq!(packet.packet_identifier.unwrap().get(), 13);
    assert_eq!(&packet.payload.0[..], b"test");
    assert_eq!(packet.topic_name.as_str(), "test");
}

#[test]
fn publish_to_bytes_0() {
    let mut builder = PublishTxBuilder::default();
    builder.dup(true);
    builder.qos(QoS::AtLeastOnce);
    builder.retain(true);
    builder.packet_identifier(NonZero::try_from(13u16).unwrap());
    builder.topic_name(UTF8StringRef("test"));
    builder.payload(PayloadRef(&[b't', b'e', b's', b't']));
    let packet = builder.build().unwrap();
    let mut buf = BytesMut::new();
    packet.encode(&mut buf);
    assert_eq!(packet.packet_len(), PUBLISH_PACKET.len());
    assert_eq!(&buf.split().freeze()[..], &PUBLISH_PACKET);
}

#[test]
fn publish_needs_packet_identifier_above_qos_0() {
    let mut builder = PublishTxBuilder::default();
    builder.qos(QoS::ExactlyOnce);
    builder.topic_name(UTF8StringRef("t"));
    assert!(matches!(builder.build(), Err(CodecError::MandatoryPropertyMissing(_))));
}

#[test]
fn publish_refuses_qos_3() {
    let packet = [0x36u8, 3, 0, 1, b't'];
    assert!(PublishRx::try_decode(Bytes::copy_from_slice(&packet)).is_err());
}

#[test]
fn publish_qos_0_with_properties() {
    let mut builder = PublishTxBuilder::default();
    builder.topic_name(UTF8StringRef("a"));
    builder.payload_format_indicator(true);
    builder.message_expiry_interval(5);
    builder.content_type(UTF8StringRef("t"));
    builder.payload(PayloadRef(&[1, 2]));
    let packet = builder.build().unwrap();
    let mut buf = BytesMut::new();
    packet.encode(&mut buf);
    let rx = PublishRx::try_decode(buf.freeze()).unwrap();
    assert_eq!(rx.qos, QoS::AtMostOnce);
    assert!(rx.packet_identifier.is_none());
    assert_eq!(rx.payload_format_indicator, Some(true));
    assert_eq!(rx.message_expiry_interval, Some(5));
    assert_eq!(rx.content_type.unwrap().as_str(), "t");
    assert_eq!(&rx.payload.0[..], &[1, 2]);
    assert_eq!(rx.topic_name.as_str(), "a");
}

const SUB_ACK_PACKET: [u8; 24] = [
    0x00, 22, 0x45, 0x73, 18, REASON_STRING, 0, 4, b't', b'e', b's', b't', USER_PROPERTY, 0, 3,
    b'k', b'e', b'y', 0, 3, b'v', b'a', b'l', 0x00,
];

#[test]
fn unsuback_from_bytes_0() {
    let mut packet_bytes = SUB_ACK_PACKET;
    packet_bytes[0] = 0xb0;
    packet_bytes[23] = u8::from(UnsubackReason::Success);
    let packet = UnsubackRx::try_decode(Bytes::copy_from_slice(&packet_bytes)).unwrap();
    assert_eq!(packet.packet_identifier, NonZero::try_from(0x4573u16).unwrap());
    assert_eq!(packet.reason_string.unwrap().as_str(), "test");
    assert_eq!(packet.user_property.len(), 1);
    assert_eq!(packet.user_property.get("key"), vec!["val"]);
    assert_eq!(packet.payload.len(), 1);
    assert_eq!(packet.payload[0], UnsubackReason::Success)
}

#[test]
fn suback_from_bytes_0() {
    let mut packet_bytes = SUB_ACK_PACKET;
    packet_bytes[0] = 0x90;
    packet_bytes[23] = u8::from(SubackReason::GranteedQoS2);
    let packet = SubackRx::try_decode(Bytes::copy_from_slice(&packet_bytes)).unwrap();
    assert_eq!(packet.packet_identifier.get(), 0x4573);
    assert_eq!(packet.reason_string.unwrap().as_str(), "test");
    assert_eq!(packet.user_property.len(), 1);
    assert_eq!(packet.user_property.iter(), vec![("key", "val")]);
    assert_eq!(packet.payload.len(), 1);
    assert_eq!(packet.payload[0], SubackReason::GranteedQoS2)
}

#[test]
fn suback_refuses_unknown_reason() {
    let mut packet_bytes = SUB_ACK_PACKET;
    packet_bytes[0] = 0x90;
    packet_bytes[23] = 0x03;
    assert!(SubackRx::try_decode(Bytes::copy_from_slice(&packet_bytes)).is_err());
}

#[test]
fn subscribe_to_bytes_0() {
    const EXPECTED: [u8; 11] = [0x82, 9, 0, 32, 0, 0, 3, b'a', b'/', b'b', 0b10];
    let mut builder = SubscribeTxBuilder::default();
    builder.packet_identifier(NonZero::try_from(32u16).unwrap());
    builder.payload((
        UTF8StringRef("a/b"),
        SubscriptionOptions {
            maximum_qos: QoS::ExactlyOnce,
            no_local: false,
            retain_as_published: false,
            retain_handling: RetainHandling::SendOnSubscribe,
        },
    ));
    let packet = builder.build().unwrap();
    let mut buf = BytesMut::new();
    packet.encode(&mut buf);
    assert_eq!(packet.packet_len(), EXPECTED.len());
    assert_eq!(&buf.split().freeze()[..], &EXPECTED);
}

#[test]
fn connect_will_flags_need_a_will() {
    // Will QoS and will retain stay 0 while no will message is set.
    let mut builder = ConnectTxBuilder::default();
    builder.client_identifier(UTF8StringRef("c"));
    builder.will_qos(QoS::AtLeastOnce);
    builder.will_retain(true);
    let packet = builder.build().unwrap();
    let mut buf = BytesMut::new();
    packet.encode(&mut buf);
    assert_eq!(buf[9], 0x00);

    let mut builder = ConnectTxBuilder::default();
    builder.client_identifier(UTF8StringRef("c"));
    builder.will_qos(QoS::ExactlyOnce);
    builder.will_retain(true);
    builder.will_topic(UTF8StringRef("w"));
    builder.will_payload(BinaryRef(&[7]));
    let packet = builder.build().unwrap();
    let mut buf = BytesMut::new();
    packet.encode(&mut buf);
    assert_eq!(buf[9], 0x20 | 0x10 | 0x04);
}

#[test]
fn subscription_options_byte() {
    let opts = SubscriptionOptions {
        maximum_qos: QoS::AtLeastOnce,
        no_local: true,
        retain_as_published: true,
        retain_handling: RetainHandling::NoSendOnSubscribe,
    };
    assert_eq!(opts.to_byte(), 1 | 4 | 8 | (2 << 4));
    assert!(SubscribeTxBuilder::default().build().is_err());
}

#[test]
fn unsubscribe_to_bytes_0() {
    const EXPECTED: [u8; 15] = [0xa2, 13, 0, 13, 0, 0, 3, b'a', b'/', b'b', 0, 3, b'c', b'/', b'd'];
    let mut builder = UnsubscribeTxBuilder::default();
    builder.packet_identifier(NonZero::try_from(13u16).unwrap());
    builder.payload(UTF8StringRef("a/b"));
    builder.payload(UTF8StringRef("c/d"));
    let packet = builder.build().unwrap();
    let mut buf = BytesMut::new();
    packet.encode(&mut buf);
    assert_eq!(packet.packet_len(), EXPECTED.len());
    assert_eq!(&buf.split().freeze()[..], &EXPECTED);
}

#[test]
fn pingreq_to_bytes_0() {
    const EXPECTED: [u8; 2] = [0xc0, 0];
    let builder = PingreqTxBuilder::default();
    let packet = builder.build().unwrap();
    let mut buf = BytesMut::new();
    packet.encode(&mut buf);
    assert_eq!(&buf.split().freeze()[..], EXPECTED);
}

#[test]
fn pingresp_from_bytes_0() {
    const PACKET: [u8; 1] = [0xd0];
    let _ = PingrespRx::try_decode(Bytes::from_static(&PACKET)).unwrap();
}

#[test]
fn pingresp_from_bytes() {
    const PACKET: [u8; 2] = [0xd0, 0];
    assert!(PingrespRx::try_decode(Bytes::from_static(&PACKET)).is_ok());
    assert!(PingrespRx::try_decode(Bytes::from_static(&[0xc0])).is_err());
}

#[test]
fn rx_packet_dispatch() {
    match RxPacket::try_decode(Bytes::from_static(&[0xd0, 0])).unwrap() {
        RxPacket::Pingresp(_) => {}
        _ => panic!("wrong packet"),
    }
    match RxPacket::try_decode(Bytes::from_static(&PUBLISH_PACKET)).unwrap() {
        RxPacket::Publish(p) => assert_eq!(p.topic_name.as_str(), "test"),
        _ => panic!("wrong packet"),
    }
    assert!(matches!(
        RxPacket::try_decode(Bytes::from_static(&[0x10, 0])),
        Err(CodecError::InvalidPacketHeader(_))
    ));
}

#[test]
fn tx_packet_encode() {
    let packet = TxPacket::Pingreq(PingreqTxBuilder::default().build().unwrap());
    let mut buf = BytesMut::new();
    packet.encode(&mut buf);
    assert_eq!(packet.packet_len(), 2);
    assert_eq!(&buf[..], &[0xc0, 0][..]);
}

#[test]
fn access() {
    let packet_bytes: Vec<u8> = vec![
        0x40, 43, 0x45, 0x73, 0, 39, USER_PROPERTY, 0, 4, b'k', b'e', b'y', b'0', 0, 4, b'v', b'a',
        b'l', b'0', USER_PROPERTY, 0, 4, b'k', b'e', b'y', b'1', 0, 4, b'v', b'a', b'l', b'1',
        USER_PROPERTY, 0, 4, b'k', b'e', b'y', b'1', 0, 4, b'v', b'a', b'l', b'2',
    ];
    let packet = poster::codec::puback::PubackRx::try_decode(Bytes::from(packet_bytes.clone()));
    let properties = packet.unwrap().user_property;

    assert!(!properties.is_empty());
    assert_eq!(properties.len(), 3);
    assert!(properties.contains_key("key0"));
    assert!(properties.contains_key("key1"));
    assert!(!properties.contains_key("key2"));
    assert_eq!(properties.get("key0"), ["val0"]);
    assert_eq!(properties.get("key1"), ["val1", "val2"]);
    assert_eq!(properties.keys(), ["key0", "key1", "key1"]);
    assert_eq!(properties.values(), ["val0", "val1", "val2"]);
    assert_eq!(
        properties.iter(),
        [("key0", "val0"), ("key1", "val1"), ("key1", "val2")]
    );
}

#[test]
fn size() {
    let properties = poster::types::collections::UserProperties::new();
    assert!(properties.is_empty());
    assert_eq!(properties.len(), 0);
}

#[test]
fn disconnect_round_trip() {
    let mut builder = DisconnectTxBuilder::default();
    builder.reason(DisconnectReason::DisconnectWithWillMessage);
    builder.reason_string(UTF8StringRef("bye"));
    builder.server_reference(UTF8StringRef("srv"));
    builder.user_property(UTF8StringPairRef("k", "v"));
    let packet = builder.build().unwrap();
    let mut buf = BytesMut::new();
    packet.encode(&mut buf);
    assert_eq!(packet.packet_len(), buf.len());
    let rx = DisconnectRx::try_decode(buf.freeze()).unwrap();
    assert_eq!(rx.reason, DisconnectReason::DisconnectWithWillMessage);
    assert_eq!(rx.session_expiry_interval, 0);
    assert_eq!(rx.reason_string.unwrap().as_str(), "bye");
    assert_eq!(rx.server_reference.unwrap().as_str(), "srv");
    assert_eq!(rx.user_property.iter(), vec![("k", "v")]);
}

#[test]
fn disconnect_round_trip_refuses_session_expiry() {
    let mut builder = DisconnectTxBuilder::default();
    builder.session_expiry_interval(60);
    builder.reason_string(UTF8StringRef("bye"));
    let packet = builder.build().unwrap();
    let mut buf = BytesMut::new();
    packet.encode(&mut buf);
    assert!(matches!(
        DisconnectRx::try_decode(buf.freeze()),
        Err(CodecError::UnexpectedProperty(_))
    ));
}

#[test]
fn publish_round_trip_all_properties() {
    let mut builder = PublishTxBuilder::default();
    builder.qos(QoS::ExactlyOnce);
    builder.packet_identifier(NonZero::try_from(7u16).unwrap());
    builder.topic_name(UTF8StringRef("a/b"));
    builder.payload_format_indicator(false);
    builder.topic_alias(NonZero::try_from(3u16).unwrap());
    builder.message_expiry_interval(70000);
    builder.correlation_data(BinaryRef(&[1, 2, 3]));
    builder.response_topic(UTF8StringRef("r"));
    builder.content_type(UTF8StringRef("c"));
    builder.user_property(UTF8StringPairRef("k1", "v1"));
    builder.user_property(UTF8StringPairRef("k2", "v2"));
    builder.payload(PayloadRef(&[9, 9]));
    let packet = builder.build().unwrap();
    let mut buf = BytesMut::new();
    packet.encode(&mut buf);
    assert_eq!(packet.packet_len(), buf.len());
    let rx = PublishRx::try_decode(buf.freeze()).unwrap();
    assert!(!rx.dup);
    assert!(!rx.retain);
    assert_eq!(rx.qos, QoS::ExactlyOnce);
    assert_eq!(rx.topic_name.as_str(), "a/b");
    assert_eq!(rx.packet_identifier.unwrap().get(), 7);
    assert_eq!(rx.payload_format_indicator, Some(false));
    assert_eq!(rx.topic_alias.unwrap().get(), 3);
    assert_eq!(rx.message_expiry_interval, Some(70000));
    assert!(rx.subscription_identifier.is_none());
    assert_eq!(&rx.correlation_data.unwrap().0[..], &[1, 2, 3]);
    assert_eq!(rx.response_topic.unwrap().as_str(), "r");
    assert_eq!(rx.content_type.unwrap().as_str(), "c");
    assert_eq!(rx.user_property.iter(), vec![("k1", "v1"), ("k2", "v2")]);
    assert_eq!(&rx.payload.0[..], &[9, 9]);
}

#[test]
fn disconnect_from_bytes() {
    let packet = DisconnectRx::try_decode(Bytes::from_static(&DISCONNECT_PACKET)).unwrap();
    assert_eq!(packet.reason, DisconnectReason::Success);
    assert_eq!(packet.reason_string.unwrap().as_str(), "Success");
    assert_eq!(packet.user_property.len(), 1);
    assert_eq!(packet.user_property.iter()[0], ("key", "val"));
}

#[test]
fn suback_from_bytes() {
    let mut packet_bytes = SUB_ACK_PACKET;
    packet_bytes[0] = 0x90;
    packet_bytes[23] = u8::from(SubackReason::GranteedQoS2);
    let packet = SubackRx::try_decode(Bytes::copy_from_slice(&packet_bytes)).unwrap();
    assert_eq!(packet.packet_identifier.get(), 0x4573);
    assert_eq!(packet.reason_string.unwrap().as_str(), "test");
    assert_eq!(packet.user_property.len(), 1);
    assert_eq!(packet.user_property.iter()[0], ("key", "val"));
    assert_eq!(packet.payload.len(), 1);
    assert_eq!(packet.payload[0], SubackReason::GranteedQoS2);
}

#[test]
fn unsuback_from_bytes() {
    let mut packet_bytes = SUB_ACK_PACKET;
    packet_bytes[0] = 0xb0;
    packet_bytes[23] = u8::from(UnsubackReason::Success);
    let packet = UnsubackRx::try_decode(Bytes::copy_from_slice(&packet_bytes)).unwrap();
    assert_eq!(packet.packet_identifier.get(), 0x4573);
    assert_eq!(packet.reason_string.unwrap().as_str(), "test");
    assert_eq!(packet.user_property.len(), 1);
    assert_eq!(packet.user_property.iter()[0], ("key", "val"));
    assert_eq!(packet.payload.len(), 1);
    assert_eq!(packet.payload[0], UnsubackReason::Success);
}

#[test]
fn unsubscribe_to_bytes() {
    const EXPECTED: [u8; 15] = [0xa2, 13, 0, 13, 0, 0, 3, b'a', b'/', b'b', 0, 3, b'c', b'/', b'd'];
    let mut builder = UnsubscribeTxBuilder::default();
    builder.packet_identifier(NonZero::try_from(13u16).unwrap());
    builder.payload(UTF8StringRef("a/b"));
    builder.payload(UTF8StringRef("c/d"));
    let packet = builder.build().unwrap();
    let mut buf = BytesMut::new();
    packet.encode(&mut buf);
    assert_eq!(&buf[..], &EXPECTED);
}

#[test]
fn rx_packet_reads_tx_packet() {
    let mut builder = poster::codec::ack::AckTxBuilder::<poster::codec::pubcomp::PubcompReason>::default();
    builder.packet_identifier(NonZero::try_from(77u16).unwrap());
    builder.reason_string(UTF8StringRef("done"));
    let packet = TxPacket::Pubcomp(builder.build().unwrap());
    assert!(packet.fits());
    let mut buf = BytesMut::new();
    packet.encode(&mut buf);
    match RxPacket::try_decode(buf.freeze()).unwrap() {
        RxPacket::Pubcomp(p) => {
            assert_eq!(p.packet_identifier.get(), 77);
            assert_eq!(p.reason_string.unwrap().as_str(), "done");
        }
        _ => panic!("wrong packet"),
    }

    let mut builder = DisconnectTxBuilder::default();
    builder.session_expiry_interval(1);
    let packet = TxPacket::Disconnect(builder.build().unwrap());
    let mut buf = BytesMut::new();
    packet.encode(&mut buf);
    assert!(matches!(RxPacket::try_decode(buf.freeze()), Err(CodecError::UnexpectedProperty(_))));
}
