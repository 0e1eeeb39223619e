use bytes::{Bytes, BytesMut};
use poster::types::base_types::{
    Binary, BinaryRef, ByteLen, NonZero, Payload, PayloadRef, QoS, UTF8StringPairRef, UTF8StringRef,
    VarSizeInt,
};
use poster::types::decoder::Decoder;
use std::mem;

#[test]
fn base_types_u8() {
    const VALUE: u8 = 17;
    assert_eq!(VALUE.byte_len(), mem::size_of::<u8>());
}

#[test]
fn base_types_u16() {
    const VALUE: u16 = 4096;
    assert_eq!(VALUE.byte_len(), mem::size_of::<u16>());
}

#[test]
fn base_types_u32() {
    const VALUE: u32 = 409665;
    assert_eq!(VALUE.byte_len(), mem::size_of::<u32>());
}

#[test]
fn base_types_var_size_int() {
    let input: [(VarSizeInt, usize); 5] = [
        (VarSizeInt::from(127u8), 1),
        (VarSizeInt::from(128u8), 2),
        (VarSizeInt::from(16383u16), 2),
        (VarSizeInt::try_from(2097151u32).unwrap(), 3),
        (VarSizeInt::try_from(268435455u32).unwrap(), 4),
    ];

    for (var_size_int, expected_size) in input {
        assert_eq!(var_size_int.byte_len(), expected_size);
    }
}

#[test]
fn base_types_binary() {
    const VALUE: [u8; 8] = [0x00, 0x06, 0x00, 0x04, 0x03, 0x76, 0x61, 0x6c];
    let binary = Binary(Bytes::from_static(&VALUE[2..]));
    assert_eq!(VALUE.len(), binary.byte_len());
}

#[test]
fn base_types_binary_ref() {
    const VALUE: [u8; 8] = [0x00, 0x06, 0x00, 0x04, 0x03, 0x76, 0x61, 0x6c];
    let binary = BinaryRef(&VALUE[2..]);
    assert_eq!(VALUE.len(), binary.byte_len());
}

#[test]
fn base_types_payload() {
    const VALUE: [u8; 6] = [0x00, 0x04, 0x03, 0x76, 0x61, 0x6c];
    let payload = Payload(Bytes::from_static(&VALUE));
    assert_eq!(VALUE.len(), payload.byte_len());
}

#[test]
fn base_types_payload_ref() {
    const VALUE: [u8; 6] = [0x00, 0x04, 0x03, 0x76, 0x61, 0x6c];
    let payload = PayloadRef(&VALUE);
    assert_eq!(VALUE.len(), payload.byte_len());
}

#[test]
fn base_types_string() {
    const INPUT: [u8; 5] = [0x00, 0x03, b'v', b'a', b'l'];
    let mut decoder = Decoder::from_bytes(Bytes::from_static(&INPUT));
    let utf8_str = decoder.try_decode_utf8_string().unwrap();
    assert_eq!("val".len() + 2, utf8_str.byte_len());
}

#[test]
fn base_types_string_ref() {
    const INPUT: &str = "val";
    let utf8_str = UTF8StringRef(INPUT);
    assert_eq!(INPUT.len() + 2, utf8_str.byte_len());
}

#[test]
fn base_types_string_pair() {
    const INPUT: [u8; 10] = [0x00, 0x03, b'k', b'e', b'y', 0x00, 0x03, b'v', b'a', b'l'];
    let mut decoder = Decoder::from_bytes(Bytes::from_static(&INPUT));
    let pair = decoder.try_decode_utf8_string_pair().unwrap();
    assert_eq!(4 + "key".len() + "val".len(), pair.byte_len());
    assert_eq!(pair.key_str(), "key");
    assert_eq!(pair.val_str(), "val");
}

#[test]
fn base_types_string_pair_ref() {
    const KEY: &str = "key";
    const VAL: &str = "val";
    let utf8_str_pair = UTF8StringPairRef(KEY, VAL);

    assert_eq!(4 + KEY.len() + VAL.len(), utf8_str_pair.byte_len());
}

#[test]
fn base_types_encode_var_size_int() {
    let input: [(VarSizeInt, &[u8]); 5] = [
        (VarSizeInt::from(127u8), &[0x7f]),
        (VarSizeInt::from(128u8), &[0x80, 0x01]),
        (VarSizeInt::from(16383u16), &[0xff, 0x7f]),
        (VarSizeInt::try_from(2097151u32).unwrap(), &[0xff, 0xff, 0x7f]),
        (VarSizeInt::try_from(268435455u32).unwrap(), &[0xff, 0xff, 0xff, 0x7f]),
    ];

    for (var_size_int, expected_bytes) in input {
        let mut buf = BytesMut::new();
        var_size_int.encode(&mut buf);
        assert_eq!(expected_bytes, &buf.split().freeze()[..]);
    }
}

#[test]
fn base_types_encode_binary() {
    const VALUE: [u8; 8] = [0x00, 0x06, 0x00, 0x04, 0x03, 0x76, 0x61, 0x6c];
    let mut buf = BytesMut::new();
    Binary(Bytes::from_static(&VALUE[2..])).encode(&mut buf);
    assert_eq!(&VALUE[..], &buf.split().freeze()[..]);

    let mut buf = BytesMut::new();
    BinaryRef(&VALUE[2..]).encode(&mut buf);
    assert_eq!(&VALUE[..], &buf.split().freeze()[..]);
}

#[test]
fn base_types_encode_payload() {
    const VALUE: [u8; 6] = [0x00, 0x04, 0x03, 0x76, 0x61, 0x6c];
    let mut buf = BytesMut::new();
    Payload(Bytes::from_static(&VALUE)).encode(&mut buf);
    assert_eq!(&VALUE[..], &buf.split().freeze()[..]);

    let mut buf = BytesMut::new();
    PayloadRef(&VALUE).encode(&mut buf);
    assert_eq!(&VALUE[..], &buf.split().freeze()[..]);
}

#[test]
fn base_types_encode_strings() {
    let mut buf = BytesMut::new();
    UTF8StringRef("val").encode(&mut buf);
    assert_eq!(&[0x00, 0x03, b'v', b'a', b'l'][..], &buf.split().freeze()[..]);

    let mut buf = BytesMut::new();
    UTF8StringPairRef("key", "val").encode(&mut buf);
    assert_eq!(
        &[0x00, 0x03, b'k', b'e', b'y', 0x00, 0x03, b'v', b'a', b'l'][..],
        &buf.split().freeze()[..]
    );
}

#[test]
fn base_types_try_decode_integers() {
    let mut decoder = Decoder::from_bytes(Bytes::from_static(&[73]));
    assert_eq!(decoder.try_decode_u8().unwrap(), 73);

    let mut decoder = Decoder::from_bytes(Bytes::from_static(&[0x1, 0x40]));
    assert_eq!(decoder.try_decode_u16().unwrap(), 0x140);

    let mut decoder = Decoder::from_bytes(Bytes::from_static(&[0x00, 0x00, 0x7d, 0x40]));
    assert_eq!(decoder.try_decode_u32().unwrap(), 0x7d40);
}

#[test]
fn base_types_try_decode_var_size_int() {
    let input: [(&[u8], usize, u32); 4] = [
        (&[0x7f], 1, 127),
        (&[0xff, 0x7f], 2, 16383),
        (&[0xff, 0xff, 0x7f], 3, 2097151),
        (&[0xff, 0xff, 0xff, 0x7f], 4, 268435455),
    ];

    for (bytes, expected_size, expected_value) in input {
        let result = VarSizeInt::try_from(bytes);
        assert!(result.is_ok());
        assert_eq!(result.as_ref().unwrap().len(), expected_size);
        assert_eq!(result.as_ref().unwrap().value(), expected_value);
    }
}

#[test]
fn var_size_int_invalid() {
    let input: [&[u8]; 4] = [&[0xff], &[0xff, 0xff], &[0xff, 0xff, 0xff], &[0xff, 0xff, 0xff, 0xff]];

    for bytes in input {
        assert!(VarSizeInt::try_from(bytes).is_err());
    }
}

#[test]
fn var_size_int_five_bytes_exceeds_maximum() {
    let bytes: &[u8] = &[0xff, 0xff, 0xff, 0xff, 0x01];
    assert!(VarSizeInt::try_from(bytes).is_err());
}

#[test]
fn base_types_try_decode_binary_and_payload() {
    let mut decoder = Decoder::from_bytes(Bytes::from_static(&[0x00, 0x04, 0x03, 0x76, 0x61, 0x6c]));
    let val = decoder.try_decode_binary().unwrap();
    assert_eq!(&val.0[..], &[0x03, 0x76, 0x61, 0x6c]);

    let mut decoder = Decoder::from_bytes(Bytes::from_static(&[0x03, 0x76, 0x61, 0x6c]));
    let val = decoder.try_decode_payload().unwrap();
    assert_eq!(&val.0[..], &[0x03, 0x76, 0x61, 0x6c]);
}

#[test]
fn binary_invalid_size() {
    let mut decoder = Decoder::from_bytes(Bytes::from_static(&[0xff, 0xff, 0x03, 0x76, 0x61, 0x6c]));
    assert!(decoder.try_decode_binary().is_err());
}

#[test]
fn string_invalid_size() {
    let mut decoder = Decoder::from_bytes(Bytes::from_static(&[0xff, 0xff, b'v', b'a', b'l']));
    assert!(decoder.try_decode_utf8_string().is_err());
}

#[test]
fn string_invalid_utf8() {
    let mut decoder = Decoder::from_bytes(Bytes::from_static(&[0x00, 0x02, 0xc3, 0x28]));
    assert!(decoder.try_decode_utf8_string().is_err());
}

#[test]
fn utf8string_pair_invalid_size() {
    let mut decoder = Decoder::from_bytes(Bytes::from_static(&[
        0x00, 0x03, b'k', b'e', b'y', 0xff, 0xff, b'v', b'a', b'l',
    ]));
    assert!(decoder.try_decode_utf8_string_pair().is_err());
}

#[test]
fn var_size_int_from_u8() {
    const INPUT: [(u8, usize); 4] = [(0, 1), (u8::MAX, 2), (0b10000000, 2), (0b01111111, 1)];

    for (val, expected_len) in INPUT {
        let result = VarSizeInt::from(val);

        assert_eq!(expected_len, result.len());
        assert_eq!(val as u32, result.value());
    }
}

#[test]
fn var_size_int_from_u16() {
    const INPUT: [(u16, usize); 5] =
        [(0, 1), (u16::MAX, 3), (u8::MAX as u16, 2), (0b10000000, 2), (0b01111111, 1)];

    for (val, expected_len) in INPUT {
        let result = VarSizeInt::from(val);

        assert_eq!(expected_len, result.len());
        assert_eq!(val as u32, result.value());
    }
}

#[test]
fn var_size_int_from_u32() {
    const INPUT: [(u32, usize); 6] = [
        (0, 1),
        (VarSizeInt::MAX as u32, 4),
        (u16::MAX as u32, 3),
        (u8::MAX as u32, 2),
        (0b10000000, 2),
        (0b01111111, 1),
    ];

    for (val, expected_len) in INPUT {
        let result = VarSizeInt::try_from(val).unwrap();

        assert_eq!(expected_len, result.len());
        assert_eq!(val as u32, result.value());
    }
}

#[test]
fn var_size_int_from_usize() {
    const INPUT: [(usize, usize); 6] = [
        (0, 1),
        (VarSizeInt::MAX as usize, 4),
        (u16::MAX as usize, 3),
        (u8::MAX as usize, 2),
        (0b10000000, 2),
        (0b01111111, 1),
    ];

    for (val, expected_len) in INPUT {
        let result = VarSizeInt::try_from(val).unwrap();

        assert_eq!(expected_len, result.len());
        assert_eq!(val as usize, result.value() as usize);
    }
}

#[test]
fn var_size_int_above_maximum() {
    assert!(VarSizeInt::try_from(VarSizeInt::MAX as u32 + 1).is_err());
    assert!(VarSizeInt::try_from(VarSizeInt::MAX + 1).is_err());
}

#[test]
fn var_size_int_round_trip() {
    for val in [0u32, 1, 127, 128, 16383, 16384, 2097151, 2097152, 268435455] {
        let v = VarSizeInt::try_from(val).unwrap();
        let mut buf = BytesMut::new();
        v.encode(&mut buf);
        let decoded = VarSizeInt::try_from(&buf[..]).unwrap();
        assert_eq!(decoded.value(), val);
        assert_eq!(decoded.len(), buf.len());
    }
}

#[test]
fn var_size_int_narrowing() {
    assert_eq!(u8::try_from(VarSizeInt::from(200u8)).unwrap(), 200);
    assert!(u8::try_from(VarSizeInt::from(300u16)).is_err());
    assert_eq!(u16::try_from(VarSizeInt::from(300u16)).unwrap(), 300);
    assert_eq!(u32::from(VarSizeInt::try_from(70000u32).unwrap()), 70000);
    assert_eq!(usize::from(VarSizeInt::try_from(70000u32).unwrap()), 70000);
}

#[test]
fn non_zero_from_0() {
    assert!(NonZero::<u8>::try_from(0).is_err());
}

#[test]
fn non_zero_from_1() {
    assert!(NonZero::<u8>::try_from(1).is_ok());
}

#[test]
fn non_zero_wider_types() {
    assert!(NonZero::<u16>::try_from(0u16).is_err());
    assert_eq!(NonZero::<u16>::try_from(5u16).unwrap().get(), 5);
    assert!(NonZero::<u32>::try_from(0u32).is_err());
    assert!(NonZero::<VarSizeInt>::try_from(VarSizeInt::from(0u8)).is_err());
    assert!(NonZero::<VarSizeInt>::try_from(VarSizeInt::from(3u8)).is_ok());
}

#[test]
fn qos_conversions() {
    assert_eq!(QoS::try_from(0u8).unwrap(), QoS::AtMostOnce);
    assert_eq!(QoS::try_from(1u8).unwrap(), QoS::AtLeastOnce);
    assert_eq!(QoS::try_from(2u8).unwrap(), QoS::ExactlyOnce);
    assert!(QoS::try_from(3u8).is_err());
    assert_eq!(u8::from(QoS::ExactlyOnce), 2);
    assert_eq!(QoS::default(), QoS::AtMostOnce);
}
