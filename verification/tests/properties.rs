use bytes::{Bytes, BytesMut};
use poster::types::base_types::{BinaryRef, QoS, UTF8StringRef, VarSizeInt};
use poster::types::decoder::Decoder;
use poster::types::properties::{
    encode_bin_property, encode_byte_property, encode_str_property, encode_u16_property,
    encode_u32_property, encode_user_properties, encode_var_int_property, Property,
    CORRELATION_DATA, MAXIMUM_PACKET_SIZE, MAXIMUM_QOS, MESSAGE_EXPIRY_INTERVAL,
    PAYLOAD_FORMAT_INDICATOR, RECEIVE_MAXIMUM, REQUEST_PROBLEM_INFORMATION,
    REQUEST_RESPONSE_INFORMATION, RETAIN_AVAILABLE, SERVER_KEEP_ALIVE, SESSION_EXPIRY_INTERVAL,
    SHARED_SUBSCRIPTION_AVAILABLE, SUBSCRIPTION_IDENTIFIER, SUBSCRIPTION_IDENTIFIER_AVAILABLE,
    TOPIC_ALIAS, TOPIC_ALIAS_MAXIMUM, USER_PROPERTY, WILDCARD_SUBSCRIPTION_AVAILABLE,
    WILL_DELAY_INTERVAL, CONTENT_TYPE,
};
use poster::types::base_types::UTF8StringPairRef;

fn decode(buf: &[u8]) -> Property {
    let mut decoder = Decoder::from_bytes(Bytes::copy_from_slice(buf));
    let property = decoder.try_decode_property().unwrap();
    assert_eq!(decoder.remaining(), 0);
    property
}

#[test]
fn properties_u8() {
    assert!(matches!(decode(&[PAYLOAD_FORMAT_INDICATOR, 1]), Property::PayloadFormatIndicator(true)));
    assert!(matches!(decode(&[REQUEST_RESPONSE_INFORMATION, 1]), Property::RequestResponseInformation(true)));
    assert!(matches!(decode(&[WILDCARD_SUBSCRIPTION_AVAILABLE, 1]), Property::WildcardSubscriptionAvailable(true)));
    assert!(matches!(decode(&[SUBSCRIPTION_IDENTIFIER_AVAILABLE, 1]), Property::SubscriptionIdentifierAvailable(true)));
    assert!(matches!(decode(&[SHARED_SUBSCRIPTION_AVAILABLE, 1]), Property::SharedSubscriptionAvailable(true)));
    assert!(matches!(decode(&[MAXIMUM_QOS, 1]), Property::MaximumQoS(QoS::AtLeastOnce)));
    assert!(matches!(decode(&[RETAIN_AVAILABLE, 1]), Property::RetainAvailable(true)));
    assert!(matches!(decode(&[REQUEST_PROBLEM_INFORMATION, 1]), Property::RequestProblemInformation(true)));
}

#[test]
fn properties_u16() {
    const EXPECTED_VAL: u16 = 965;
    let bytes = EXPECTED_VAL.to_be_bytes();
    assert!(matches!(decode(&[SERVER_KEEP_ALIVE, bytes[0], bytes[1]]), Property::ServerKeepAlive(EXPECTED_VAL)));
    match decode(&[RECEIVE_MAXIMUM, bytes[0], bytes[1]]) {
        Property::ReceiveMaximum(v) => assert_eq!(v.get(), EXPECTED_VAL),
        _ => panic!("wrong property"),
    }
    assert!(matches!(decode(&[TOPIC_ALIAS_MAXIMUM, bytes[0], bytes[1]]), Property::TopicAliasMaximum(EXPECTED_VAL)));
    match decode(&[TOPIC_ALIAS, bytes[0], bytes[1]]) {
        Property::TopicAlias(v) => assert_eq!(v.get(), EXPECTED_VAL),
        _ => panic!("wrong property"),
    }
}

#[test]
fn properties_u32() {
    const EXPECTED_VAL: u32 = 44568;
    let tail = [0x00, 0x00, 0xae, 0x18];
    for id in [MESSAGE_EXPIRY_INTERVAL, SESSION_EXPIRY_INTERVAL, WILL_DELAY_INTERVAL, MAXIMUM_PACKET_SIZE] {
        let buf = [id, tail[0], tail[1], tail[2], tail[3]];
        match decode(&buf) {
            Property::MessageExpiryInterval(v) => assert_eq!((id, v), (MESSAGE_EXPIRY_INTERVAL, EXPECTED_VAL)),
            Property::SessionExpiryInterval(v) => assert_eq!((id, v), (SESSION_EXPIRY_INTERVAL, EXPECTED_VAL)),
            Property::WillDelayInterval(v) => assert_eq!((id, v), (WILL_DELAY_INTERVAL, EXPECTED_VAL)),
            Property::MaximumPacketSize(v) => assert_eq!((id, v.get()), (MAXIMUM_PACKET_SIZE, EXPECTED_VAL)),
            _ => panic!("wrong property"),
        }
    }
}

#[test]
fn properties_var_size_int_decode() {
    match decode(&[SUBSCRIPTION_IDENTIFIER, 64]) {
        Property::SubscriptionIdentifier(v) => assert_eq!(v.get().value(), 64),
        _ => panic!("wrong property"),
    }
}

#[test]
fn properties_binary() {
    match decode(&[CORRELATION_DATA, 0, 3, 0x02, 0xae, 0x18]) {
        Property::CorrelationData(v) => assert_eq!(&v.0[..], &[0x02, 0xae, 0x18]),
        _ => panic!("wrong property"),
    }
}

#[test]
fn properties_utf8_string() {
    match decode(&[CONTENT_TYPE, 0, 3, b'v', b'a', b'l']) {
        Property::ContentType(v) => assert_eq!(v.as_str(), "val"),
        _ => panic!("wrong property"),
    }
}

#[test]
fn properties_utf8_string_pair() {
    let buf = [USER_PROPERTY, 0, 3, b'k', b'e', b'y', 0, 3, b'v', b'a', b'l'];
    assert_eq!(buf.len(), 11);
    match decode(&buf) {
        Property::UserProperty(v) => {
            assert_eq!(v.key_str(), "key");
            assert_eq!(v.val_str(), "val");
        }
        _ => panic!("wrong property"),
    }
}

#[test]
fn properties_unknown_identifier() {
    let mut decoder = Decoder::from_bytes(Bytes::copy_from_slice(&[0x7f, 1]));
    assert!(decoder.try_decode_property().is_err());
}

#[test]
fn properties_byte() {
    const EXPECTED_VAL: u8 = 1;
    for id in [
        PAYLOAD_FORMAT_INDICATOR,
        REQUEST_RESPONSE_INFORMATION,
        WILDCARD_SUBSCRIPTION_AVAILABLE,
        SUBSCRIPTION_IDENTIFIER_AVAILABLE,
        SHARED_SUBSCRIPTION_AVAILABLE,
        MAXIMUM_QOS,
        RETAIN_AVAILABLE,
        REQUEST_PROBLEM_INFORMATION,
    ] {
        let mut buf = BytesMut::new();
        encode_byte_property(id, EXPECTED_VAL, &mut buf);
        assert_eq!(&buf.split().freeze()[..], &[id, EXPECTED_VAL][..]);
    }
}

#[test]
fn properties_two_byte_int() {
    const EXPECTED_VAL: u16 = 0x1234;
    for id in [SERVER_KEEP_ALIVE, RECEIVE_MAXIMUM, TOPIC_ALIAS_MAXIMUM, TOPIC_ALIAS] {
        let mut buf = BytesMut::new();
        encode_u16_property(id, EXPECTED_VAL, &mut buf);
        assert_eq!(&buf.split().freeze()[..], &[&[id][..], &EXPECTED_VAL.to_be_bytes()[..]].concat()[..]);
    }
}

#[test]
fn properties_four_byte_int() {
    const EXPECTED_VAL: u32 = 0x12345678;
    for id in [MESSAGE_EXPIRY_INTERVAL, SESSION_EXPIRY_INTERVAL, WILL_DELAY_INTERVAL, MAXIMUM_PACKET_SIZE] {
        let mut buf = BytesMut::new();
        encode_u32_property(id, EXPECTED_VAL, &mut buf);
        assert_eq!(&buf.split().freeze()[..], &[&[id][..], &EXPECTED_VAL.to_be_bytes()[..]].concat()[..]);
    }
}

#[test]
fn properties_var_size_int() {
    const INPUT_VAL: u16 = 16383;
    const EXPECTED_BUF: &[u8] = &[0xff, 0x7f];

    let mut buf = BytesMut::new();
    encode_var_int_property(SUBSCRIPTION_IDENTIFIER, VarSizeInt::from(INPUT_VAL), &mut buf);
    let written = buf.split().freeze();
    assert_eq!(&written[..], &[&[SUBSCRIPTION_IDENTIFIER][..], EXPECTED_BUF].concat()[..]);

    match decode(&written) {
        Property::SubscriptionIdentifier(v) => assert_eq!(v.get().value(), INPUT_VAL as u32),
        _ => panic!("wrong property"),
    }
}

#[test]
fn properties_encode_strings() {
    let mut buf = BytesMut::new();
    encode_str_property(CONTENT_TYPE, UTF8StringRef("val"), &mut buf);
    assert_eq!(&buf.split().freeze()[..], &[CONTENT_TYPE, 0, 3, b'v', b'a', b'l'][..]);

    let mut buf = BytesMut::new();
    encode_bin_property(CORRELATION_DATA, BinaryRef(&[1, 2]), &mut buf);
    assert_eq!(&buf.split().freeze()[..], &[CORRELATION_DATA, 0, 2, 1, 2][..]);

    let mut buf = BytesMut::new();
    encode_user_properties(&vec![UTF8StringPairRef("key", "val")], &mut buf);
    assert_eq!(
        &buf.split().freeze()[..],
        &[USER_PROPERTY, 0, 3, b'k', b'e', b'y', 0, 3, b'v', b'a', b'l'][..]
    );
}
