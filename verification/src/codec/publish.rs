//! The PUBLISH packet: an application message, sent in both directions.
use crate::buffer::{bytes_mut_view, bytes_new, bytes_slice, bytes_view, put_u16, put_u8};
use crate::codec::ack::opt_str_view;
use crate::types::base_types::{
    spec_var_size_int_from, spec_length_prefixed, spec_qos_byte, spec_qos_from_byte, spec_u16_be, var_size_int_from_usize,
    Binary, BinaryRef, NonZero, Payload, PayloadRef, QoS, UTF8String, UTF8StringPairRef, UTF8StringRef,
    VarSizeInt,
};
use crate::types::collections::UserProperties;
use crate::types::decoder::{
    lemma_parse_u16_roundtrip, lemma_skip_prefix, lemma_utf8_string_prefix, spec_parse_non_zero_u16, spec_parse_utf8_string, spec_parse_var_size_int, Decoder,
};
use crate::types::error::{
    codec_error_of, CodecError, ConversionError, InsufficientBufferSize, InvalidPacketHeader,
    InvalidPacketSize, InvalidPropertyLength, MandatoryPropertyMissing, UnexpectedProperty,
};
use crate::types::properties::{
    lemma_fold_one_property, lemma_parse_bool_property_bytes, lemma_parse_empty_user_property_bytes,
    lemma_parse_one_byte_data_property_bytes, lemma_parse_subscription_identifier_bytes,
    lemma_parse_u16_property_bytes, lemma_parse_u32_property_bytes, spec_parse_property,
    lemma_apply_all_at_most_one, lemma_apply_all_concat, lemma_apply_all_single,
    lemma_fold_properties_roundtrip, lemma_opt_bin_prop_encoding, lemma_opt_bool_prop_encoding,
    lemma_opt_str_prop_encoding, lemma_opt_u16_prop_encoding, lemma_opt_u32_prop_encoding,
    lemma_parse_var_int_roundtrip, lemma_props_encoding_concat, lemma_props_valid_concat,
    lemma_user_props_encoding, lemma_var_int_prefix, spec_apply_all, spec_opt_bin_fits, spec_opt_bin_prop_vs,
    spec_opt_bool_prop_vs, spec_opt_str_fits, spec_opt_str_prop_vs, spec_opt_u16_prop_vs,
    spec_opt_u32_prop_vs, spec_pair_bytes, spec_pairs_fit, spec_props_encoding, spec_props_valid,
    spec_user_prop_v, spec_user_prop_vs,
    encode_opt_bin_property, encode_opt_bool_property, encode_opt_str_property,
    encode_opt_u16_property, encode_opt_u32_property, encode_user_properties, lemma_user_props_prefix,
    lemma_var_int_encoding_len, opt_bin_prop_len, opt_str_prop_len, spec_builder_pairs,
    spec_fold_properties, spec_opt_bin_prop, spec_opt_bool_prop, spec_opt_str_prop, spec_opt_u16_prop,
    spec_opt_u32_prop, spec_user_props, spec_var_int_encoding, spec_var_int_len, user_properties_len,
    PropVal, Property, PropertyV, CONTENT_TYPE, CORRELATION_DATA, MESSAGE_EXPIRY_INTERVAL,
    PAYLOAD_FORMAT_INDICATOR, RESPONSE_TOPIC, SUBSCRIPTION_IDENTIFIER, TOPIC_ALIAS, USER_PROPERTY,
};
use crate::types::size::{
    capped, capped_add, capped_opt_bin_prop, capped_opt_str_prop, capped_plus, capped_user_props,
    remaining_fits, spec_capped,
};
use bytes::{Bytes, BytesMut};
use vstd::prelude::*;
use vstd::string::StringSliceAdditionalSpecFns;
use vstd::utf8::{encode_utf8_valid_utf8, valid_utf8};

verus! {

/// The packet type of PUBLISH.
pub const PUBLISH_PACKET_ID: u8 = 3;

/// The value held by an optional non-zero integer.
pub open spec fn opt_nz_u16(o: Option<NonZero<u16>>) -> Option<u16> {
    match o {
        Some(v) => Some(v.spec_get()),
        None => None,
    }
}

/// The value held by an optional non-zero integer.
fn opt_nz_u16_get(o: Option<NonZero<u16>>) -> (r: Option<u16>)
    ensures
        r == opt_nz_u16(o),
{
    match o {
        Some(v) => Some(v.get()),
        None => None,
    }
}

/// PUBLISH packet to be sent.
#[derive(Debug)]
pub struct PublishTx<'a> {
    /// Whether this is a redelivery.
    pub dup: bool,
    /// Whether the server should retain the message.
    pub retain: bool,
    /// Quality of service.
    pub qos: QoS,
    /// Topic name.
    pub topic_name: UTF8StringRef<'a>,
    /// Packet identifier, present for QoS above 0.
    pub packet_identifier: Option<NonZero<u16>>,
    /// Whether the payload is UTF-8 text.
    pub payload_format_indicator: Option<bool>,
    /// Topic alias.
    pub topic_alias: Option<NonZero<u16>>,
    /// Message expiry interval in seconds.
    pub message_expiry_interval: Option<u32>,
    /// Correlation data.
    pub correlation_data: Option<BinaryRef<'a>>,
    /// Response topic.
    pub response_topic: Option<UTF8StringRef<'a>>,
    /// Content type.
    pub content_type: Option<UTF8StringRef<'a>>,
    /// User properties, in order.
    pub user_property: Vec<UTF8StringPairRef<'a>>,
    /// Application data.
    pub payload: Option<PayloadRef<'a>>,
}

/// The first byte of a PUBLISH packet: packet type, then the DUP flag,
/// the QoS level and the RETAIN flag.
pub open spec fn spec_publish_fixed_hdr(dup: bool, qos: QoS, retain: bool) -> u8 {
    (48 + (if dup { 8int } else { 0int }) + 2 * spec_qos_byte(qos) + (if retain { 1int } else { 0int })) as u8
}

/// The first byte of a PUBLISH packet follows MQTT 5: packet type 3 in the
/// high four bits, DUP in bit 3, QoS in bits 1-2 and RETAIN in bit 0.
pub proof fn lemma_publish_fixed_hdr_bits(dup: bool, qos: QoS, retain: bool)
    ensures
        spec_publish_fixed_hdr(dup, qos, retain) >> 4 == 3,
        (spec_publish_fixed_hdr(dup, qos, retain) & 8 != 0) == dup,
        (spec_publish_fixed_hdr(dup, qos, retain) >> 1) & 3 == spec_qos_byte(qos),
        (spec_publish_fixed_hdr(dup, qos, retain) & 1 != 0) == retain,
{
    let d: u8 = if dup { 1 } else { 0 };
    let q = spec_qos_byte(qos);
    let r: u8 = if retain { 1 } else { 0 };
    let h = spec_publish_fixed_hdr(dup, qos, retain);
    assert(h == (48 + 8 * d + 2 * q + r) as u8);
    assert(h >> 4 == 3 && (h & 8 != 0) == (d == 1) && (h >> 1) & 3 == q && (h & 1 != 0) == (r == 1)) by (bit_vector)
        requires
            d <= 1,
            q <= 2,
            r <= 1,
            h == (48 + 8 * d + 2 * q + r) as u8,
    ;
}

/// The properties of a PUBLISH packet in the order they are written.
pub open spec fn spec_publish_props(tx: PublishTx) -> Seq<u8> {
    spec_opt_bool_prop(PAYLOAD_FORMAT_INDICATOR, tx.payload_format_indicator) + spec_opt_u16_prop(
        TOPIC_ALIAS,
        opt_nz_u16(tx.topic_alias),
    ) + spec_opt_u32_prop(MESSAGE_EXPIRY_INTERVAL, tx.message_expiry_interval) + spec_opt_bin_prop(
        CORRELATION_DATA,
        tx.correlation_data,
    ) + spec_opt_str_prop(RESPONSE_TOPIC, tx.response_topic) + spec_opt_str_prop(CONTENT_TYPE, tx.content_type)
        + spec_user_props(tx.user_property@)
}

/// The packet identifier as written: nothing when absent.
pub open spec fn spec_opt_packet_id(o: Option<NonZero<u16>>) -> Seq<u8> {
    match o {
        Some(v) => spec_u16_be(v.spec_get()),
        None => Seq::empty(),
    }
}

/// The payload as written: nothing when absent.
pub open spec fn spec_opt_payload(o: Option<PayloadRef>) -> Seq<u8> {
    match o {
        Some(p) => p.0@,
        None => Seq::empty(),
    }
}

/// The remaining length of a PUBLISH packet.
pub open spec fn spec_publish_remaining_len(tx: PublishTx) -> nat {
    let pl = spec_publish_props(tx).len();
    spec_length_prefixed(tx.topic_name.0.spec_bytes()).len() + spec_opt_packet_id(tx.packet_identifier).len()
        + spec_var_int_len(pl) + pl + spec_opt_payload(tx.payload).len()
}

/// The bytes of a PUBLISH packet: fixed header, remaining length, topic
/// name, packet identifier, property length, properties and payload.
pub open spec fn spec_publish_encoding(tx: PublishTx) -> Seq<u8> {
    let props = spec_publish_props(tx);
    seq![spec_publish_fixed_hdr(tx.dup, tx.qos, tx.retain)] + spec_var_int_encoding(
        spec_publish_remaining_len(tx),
    ) + spec_length_prefixed(tx.topic_name.0.spec_bytes()) + spec_opt_packet_id(tx.packet_identifier)
        + spec_var_int_encoding(props.len()) + props + spec_opt_payload(tx.payload)
}

impl<'a> PublishTx<'a> {
    /// The first byte of the packet.
    fn fixed_hdr(&self) -> (r: u8)
        ensures
            r == spec_publish_fixed_hdr(self.dup, self.qos, self.retain),
    {
        let d: u8 = if self.dup { 1 } else { 0 };
        let q: u8 = u8::from(self.qos);
        let r: u8 = if self.retain { 1 } else { 0 };
        assert(((3u8 << 4u8) | (d << 3u8) | (q << 1u8) | r) == 48 + 8 * d + 2 * q + r) by (bit_vector)
            requires
                d <= 1,
                q <= 2,
                r <= 1,
        ;
        (PUBLISH_PACKET_ID << 4u8) | (d << 3u8) | (q << 1u8) | r
    }

    /// Number of bytes of the properties.
    fn property_len(&self) -> (r: VarSizeInt)
        requires
            spec_publish_props(*self).len() <= VarSizeInt::MAX,
        ensures
            r.spec_value() == spec_publish_props(*self).len(),
            r.spec_encode() == spec_var_int_encoding(spec_publish_props(*self).len()),
            r.spec_len() == spec_var_int_len(spec_publish_props(*self).len()),
    {
        proof {
            lemma_user_props_prefix(self.user_property@, 0);
        }
        let pfi: usize = if self.payload_format_indicator.is_some() { 2 } else { 0 };
        let alias: usize = if self.topic_alias.is_some() { 3 } else { 0 };
        let expiry: usize = if self.message_expiry_interval.is_some() { 5 } else { 0 };
        let len = pfi + alias + expiry + opt_bin_prop_len(CORRELATION_DATA, self.correlation_data)
            + opt_str_prop_len(RESPONSE_TOPIC, self.response_topic) + opt_str_prop_len(
            CONTENT_TYPE,
            self.content_type,
        ) + user_properties_len(&self.user_property);
        proof {
            lemma_var_int_encoding_len(spec_publish_props(*self).len());
        }
        var_size_int_from_usize(len)
    }

    /// The remaining length of the packet.
    fn remaining_len(&self) -> (r: VarSizeInt)
        requires
            spec_publish_remaining_len(*self) <= VarSizeInt::MAX,
        ensures
            r.spec_value() == spec_publish_remaining_len(*self),
            r.spec_encode() == spec_var_int_encoding(spec_publish_remaining_len(*self)),
            r.spec_len() == spec_var_int_len(spec_publish_remaining_len(*self)),
    {
        proof {
            lemma_var_int_encoding_len(spec_publish_remaining_len(*self));
            lemma_var_int_encoding_len(spec_publish_props(*self).len());
        }
        let property_len = self.property_len();
        let pid: usize = if self.packet_identifier.is_some() { 2 } else { 0 };
        let payload: usize = match self.payload {
            Some(p) => p.byte_len(),
            None => 0,
        };
        var_size_int_from_usize(
            self.topic_name.byte_len() + pid + property_len.len() + property_len.value() as usize + payload,
        )
    }

    /// The bytes the properties take, capped.
    fn capped_props(&self) -> (r: u64)
        ensures
            r == spec_capped(spec_publish_props(*self).len() as int),
    {
        let pfi: u64 = if self.payload_format_indicator.is_some() { 2 } else { 0 };
        let ta: u64 = if self.topic_alias.is_some() { 3 } else { 0 };
        let mei: u64 = if self.message_expiry_interval.is_some() { 5 } else { 0 };
        let ghost l1 = spec_opt_bool_prop(PAYLOAD_FORMAT_INDICATOR, self.payload_format_indicator).len();
        let ghost l2 = spec_opt_u16_prop(TOPIC_ALIAS, opt_nz_u16(self.topic_alias)).len();
        let ghost l3 = spec_opt_u32_prop(MESSAGE_EXPIRY_INTERVAL, self.message_expiry_interval).len();
        assert(pfi + ta + mei == l1 + l2 + l3);
        let a = pfi + ta + mei;
        let b = capped_add(a, capped_opt_bin_prop(CORRELATION_DATA, self.correlation_data));
        let c = capped_add(b, capped_opt_str_prop(RESPONSE_TOPIC, self.response_topic));
        let d = capped_add(c, capped_opt_str_prop(CONTENT_TYPE, self.content_type));
        capped_add(d, capped_user_props(&self.user_property))
    }

    /// Whether the remaining length fits a variable byte integer, which
    /// writing the packet needs.
    pub fn fits(&self) -> (r: bool)
        ensures
            r == (spec_publish_remaining_len(*self) <= VarSizeInt::MAX),
    {
        let props = self.capped_props();
        let pid: u64 = if self.packet_identifier.is_some() { 2 } else { 0 };
        let payload = match self.payload {
            Some(p) => capped(p.0.len()),
            None => 0,
        };
        let topic = capped_plus(2, self.topic_name.0.as_bytes().len());
        let ghost lt = spec_length_prefixed(self.topic_name.0.spec_bytes()).len();
        let ghost lp = spec_opt_payload(self.payload).len();
        let t1 = capped_add(topic, pid);
        assert(t1 == spec_capped((lt + spec_opt_packet_id(self.packet_identifier).len()) as int));
        let tail = capped_add(t1, payload);
        assert(tail == spec_capped((lt + spec_opt_packet_id(self.packet_identifier).len() + lp) as int));
        remaining_fits(0, props, tail)
    }

    /// Number of bytes of the whole packet.
    pub fn packet_len(&self) -> (r: usize)
        requires
            spec_publish_remaining_len(*self) <= VarSizeInt::MAX,
        ensures
            r == spec_publish_encoding(*self).len(),
    {
        let remaining_len = self.remaining_len();
        proof {
            lemma_var_int_encoding_len(spec_publish_props(*self).len());
        }
        1 + remaining_len.len() + remaining_len.value() as usize
    }

    /// Writes the properties, in order.
    fn encode_properties(&self, buf: &mut BytesMut)
        requires
            bytes_mut_view(*old(buf)).len() + spec_publish_props(*self).len() <= isize::MAX,
        ensures
            bytes_mut_view(*final(buf)) == bytes_mut_view(*old(buf)) + spec_publish_props(*self),
    {
        let ghost b0 = bytes_mut_view(*buf);
        encode_opt_bool_property(PAYLOAD_FORMAT_INDICATOR, self.payload_format_indicator, buf);
        encode_opt_u16_property(TOPIC_ALIAS, opt_nz_u16_get(self.topic_alias), buf);
        encode_opt_u32_property(MESSAGE_EXPIRY_INTERVAL, self.message_expiry_interval, buf);
        encode_opt_bin_property(CORRELATION_DATA, self.correlation_data, buf);
        encode_opt_str_property(RESPONSE_TOPIC, self.response_topic, buf);
        encode_opt_str_property(CONTENT_TYPE, self.content_type, buf);
        encode_user_properties(&self.user_property, buf);
        assert(bytes_mut_view(*buf) =~= b0 + spec_publish_props(*self));
    }

    /// Writes the fixed header, remaining length, topic name and packet
    /// identifier.
    #[verifier::rlimit(40)]
    fn encode_header(&self, buf: &mut BytesMut)
        requires
            spec_publish_remaining_len(*self) <= VarSizeInt::MAX,
            bytes_mut_view(*old(buf)).len() + spec_publish_encoding(*self).len() <= isize::MAX,
        ensures
            bytes_mut_view(*final(buf)) == bytes_mut_view(*old(buf)) + seq![
                spec_publish_fixed_hdr(self.dup, self.qos, self.retain),
            ] + spec_var_int_encoding(spec_publish_remaining_len(*self)) + spec_length_prefixed(
                self.topic_name.0.spec_bytes(),
            ) + spec_opt_packet_id(self.packet_identifier),
    {
        let ghost b0 = bytes_mut_view(*buf);
        let remaining_len = self.remaining_len();
        put_u8(buf, self.fixed_hdr());
        remaining_len.encode(buf);
        self.topic_name.encode(buf);
        let ghost b1 = bytes_mut_view(*buf);
        if let Some(val) = self.packet_identifier {
            put_u16(buf, val.get());
        }
        assert(bytes_mut_view(*buf) =~= b1 + spec_opt_packet_id(self.packet_identifier));
    }

    /// Writes the packet to `buf`.
    #[verifier::rlimit(30)]
    pub fn encode(&self, buf: &mut BytesMut)
        requires
            spec_publish_remaining_len(*self) <= VarSizeInt::MAX,
            bytes_mut_view(*old(buf)).len() + spec_publish_encoding(*self).len() <= isize::MAX,
        ensures
            bytes_mut_view(*final(buf)) == bytes_mut_view(*old(buf)) + spec_publish_encoding(*self),
    {
        let ghost b0 = bytes_mut_view(*buf);
        let ghost hdr = seq![spec_publish_fixed_hdr(self.dup, self.qos, self.retain)] + spec_var_int_encoding(
            spec_publish_remaining_len(*self),
        ) + spec_length_prefixed(self.topic_name.0.spec_bytes()) + spec_opt_packet_id(self.packet_identifier);
        let ghost props = spec_publish_props(*self);
        let ghost tail = spec_opt_payload(self.payload);
        proof {
            lemma_var_int_encoding_len(props.len());
            assert(spec_publish_encoding(*self) =~= hdr + spec_var_int_encoding(props.len()) + props + tail);
        }
        self.encode_header(buf);
        let property_len = self.property_len();
        property_len.encode(buf);
        self.encode_properties(buf);
        let ghost b2 = bytes_mut_view(*buf);
        if let Some(payload) = self.payload {
            payload.encode(buf);
        }
        assert(bytes_mut_view(*buf) =~= b2 + tail);
        assert(bytes_mut_view(*buf) =~= b0 + (hdr + spec_var_int_encoding(props.len()) + props + tail));
    }
}

/// Builder of a [PublishTx]: each field stays unset until a setter is called.
#[derive(Debug)]
pub struct PublishTxBuilder<'a> {
    /// DUP flag, if set.
    pub dup: Option<bool>,
    /// RETAIN flag, if set.
    pub retain: Option<bool>,
    /// Quality of service, if set.
    pub qos: Option<QoS>,
    /// Topic name, if set.
    pub topic_name: Option<UTF8StringRef<'a>>,
    /// Packet identifier, if set.
    pub packet_identifier: Option<NonZero<u16>>,
    /// Payload format indicator, if set.
    pub payload_format_indicator: Option<bool>,
    /// Topic alias, if set.
    pub topic_alias: Option<NonZero<u16>>,
    /// Message expiry interval, if set.
    pub message_expiry_interval: Option<u32>,
    /// Correlation data, if set.
    pub correlation_data: Option<BinaryRef<'a>>,
    /// Response topic, if set.
    pub response_topic: Option<UTF8StringRef<'a>>,
    /// Content type, if set.
    pub content_type: Option<UTF8StringRef<'a>>,
    /// User properties, if any was added.
    pub user_property: Option<Vec<UTF8StringPairRef<'a>>>,
    /// Payload, if set.
    pub payload: Option<PayloadRef<'a>>,
}

/// The quality of service a builder stands for: at most once unless set.
pub open spec fn spec_builder_qos(o: Option<QoS>) -> QoS {
    match o {
        Some(q) => q,
        None => QoS::AtMostOnce,
    }
}

/// A PUBLISH packet can be built once the topic name is set and, for QoS
/// above 0, the packet identifier.
pub open spec fn spec_publish_builder_valid(b: PublishTxBuilder) -> bool {
    &&& b.topic_name is Some
    &&& (spec_builder_qos(b.qos) == QoS::AtMostOnce || b.packet_identifier is Some)
}

impl<'a> PublishTxBuilder<'a> {
    /// A builder with nothing set.
    pub open spec fn spec_new() -> Self {
        PublishTxBuilder {
            dup: None,
            retain: None,
            qos: None,
            topic_name: None,
            packet_identifier: None,
            payload_format_indicator: None,
            topic_alias: None,
            message_expiry_interval: None,
            correlation_data: None,
            response_topic: None,
            content_type: None,
            user_property: None,
            payload: None,
        }
    }

    /// A builder with nothing set.
    pub fn new() -> (r: Self)
        ensures
            r == Self::spec_new(),
    {
        PublishTxBuilder {
            dup: None,
            retain: None,
            qos: None,
            topic_name: None,
            packet_identifier: None,
            payload_format_indicator: None,
            topic_alias: None,
            message_expiry_interval: None,
            correlation_data: None,
            response_topic: None,
            content_type: None,
            user_property: None,
            payload: None,
        }
    }

    /// Sets the DUP flag.
    pub fn dup(&mut self, val: bool)
        ensures
            *final(self) == (PublishTxBuilder { dup: Some(val), ..*old(self) }),
    {
        self.dup = Some(val);
    }

    /// Sets the RETAIN flag.
    pub fn retain(&mut self, val: bool)
        ensures
            *final(self) == (PublishTxBuilder { retain: Some(val), ..*old(self) }),
    {
        self.retain = Some(val);
    }

    /// Sets the quality of service.
    pub fn qos(&mut self, val: QoS)
        ensures
            *final(self) == (PublishTxBuilder { qos: Some(val), ..*old(self) }),
    {
        self.qos = Some(val);
    }

    /// Sets the topic name.
    pub fn topic_name(&mut self, val: UTF8StringRef<'a>)
        ensures
            *final(self) == (PublishTxBuilder { topic_name: Some(val), ..*old(self) }),
    {
        self.topic_name = Some(val);
    }

    /// Sets the packet identifier.
    pub fn packet_identifier(&mut self, val: NonZero<u16>)
        ensures
            *final(self) == (PublishTxBuilder { packet_identifier: Some(val), ..*old(self) }),
    {
        self.packet_identifier = Some(val);
    }

    /// Sets the payload format indicator.
    pub fn payload_format_indicator(&mut self, val: bool)
        ensures
            *final(self) == (PublishTxBuilder { payload_format_indicator: Some(val), ..*old(self) }),
    {
        self.payload_format_indicator = Some(val);
    }

    /// Sets the topic alias.
    pub fn topic_alias(&mut self, val: NonZero<u16>)
        ensures
            *final(self) == (PublishTxBuilder { topic_alias: Some(val), ..*old(self) }),
    {
        self.topic_alias = Some(val);
    }

    /// Sets the message expiry interval in seconds.
    pub fn message_expiry_interval(&mut self, val: u32)
        ensures
            *final(self) == (PublishTxBuilder { message_expiry_interval: Some(val), ..*old(self) }),
    {
        self.message_expiry_interval = Some(val);
    }

    /// Sets the correlation data.
    pub fn correlation_data(&mut self, val: BinaryRef<'a>)
        ensures
            *final(self) == (PublishTxBuilder { correlation_data: Some(val), ..*old(self) }),
    {
        self.correlation_data = Some(val);
    }

    /// Sets the response topic.
    pub fn response_topic(&mut self, val: UTF8StringRef<'a>)
        ensures
            *final(self) == (PublishTxBuilder { response_topic: Some(val), ..*old(self) }),
    {
        self.response_topic = Some(val);
    }

    /// Sets the content type.
    pub fn content_type(&mut self, val: UTF8StringRef<'a>)
        ensures
            *final(self) == (PublishTxBuilder { content_type: Some(val), ..*old(self) }),
    {
        self.content_type = Some(val);
    }

    /// Adds a user property after those added before.
    pub fn user_property(&mut self, val: UTF8StringPairRef<'a>)
        ensures
            final(self).user_property is Some,
            spec_builder_pairs(final(self).user_property) == spec_builder_pairs(old(self).user_property).push(val),
            *final(self) == (PublishTxBuilder { user_property: final(self).user_property, ..*old(self) }),
    {
        let mut v = match self.user_property.take() {
            Some(v) => v,
            None => Vec::new(),
        };
        v.push(val);
        self.user_property = Some(v);
    }

    /// Sets the payload.
    pub fn payload(&mut self, val: PayloadRef<'a>)
        ensures
            *final(self) == (PublishTxBuilder { payload: Some(val), ..*old(self) }),
    {
        self.payload = Some(val);
    }

    /// Builds the packet: unset flags are false, the quality of service at
    /// most once; the topic name, and for QoS above 0 the packet identifier,
    /// must be set.
    pub fn build(self) -> (r: Result<PublishTx<'a>, CodecError>)
        ensures
            spec_publish_builder_valid(self) ==> (r matches Ok(tx) && tx.dup == (self.dup == Some(true))
                && tx.retain == (self.retain == Some(true)) && tx.qos == spec_builder_qos(self.qos)
                && Some(tx.topic_name) == self.topic_name && tx.packet_identifier == self.packet_identifier
                && tx.payload_format_indicator == self.payload_format_indicator
                && tx.topic_alias == self.topic_alias
                && tx.message_expiry_interval == self.message_expiry_interval
                && tx.correlation_data == self.correlation_data && tx.response_topic == self.response_topic
                && tx.content_type == self.content_type
                && tx.user_property@ == spec_builder_pairs(self.user_property)
                && tx.payload == self.payload),
            !spec_publish_builder_valid(self) ==> r == Err::<PublishTx<'a>, CodecError>(
                CodecError::MandatoryPropertyMissing(MandatoryPropertyMissing),
            ),
    {
        let qos = match self.qos {
            Some(q) => q,
            None => QoS::AtMostOnce,
        };
        let needs_id = match qos {
            QoS::AtMostOnce => false,
            _ => true,
        };
        if needs_id && self.packet_identifier.is_none() {
            return Err(CodecError::MandatoryPropertyMissing(MandatoryPropertyMissing));
        }
        let topic_name = match self.topic_name {
            Some(t) => t,
            None => return Err(CodecError::MandatoryPropertyMissing(MandatoryPropertyMissing)),
        };
        let user_property = match self.user_property {
            Some(v) => v,
            None => Vec::new(),
        };
        Ok(
            PublishTx {
                dup: match self.dup {
                    Some(v) => v,
                    None => false,
                },
                retain: match self.retain {
                    Some(v) => v,
                    None => false,
                },
                qos,
                topic_name,
                packet_identifier: self.packet_identifier,
                payload_format_indicator: self.payload_format_indicator,
                topic_alias: self.topic_alias,
                message_expiry_interval: self.message_expiry_interval,
                correlation_data: self.correlation_data,
                response_topic: self.response_topic,
                content_type: self.content_type,
                user_property,
                payload: self.payload,
            },
        )
    }
}

/// Received PUBLISH packet as plain data.
pub struct PublishV {
    /// Whether this is a redelivery.
    pub dup: bool,
    /// Whether the message was retained.
    pub retain: bool,
    /// Quality of service.
    pub qos: QoS,
    /// Topic name.
    pub topic_name: Seq<u8>,
    /// Packet identifier, present for QoS above 0.
    pub packet_identifier: Option<u16>,
    /// Whether the payload is UTF-8 text.
    pub payload_format_indicator: Option<bool>,
    /// Topic alias.
    pub topic_alias: Option<u16>,
    /// Message expiry interval in seconds.
    pub message_expiry_interval: Option<u32>,
    /// Identifier of the subscription that matched.
    pub subscription_identifier: Option<VarSizeInt>,
    /// Correlation data.
    pub correlation_data: Option<Seq<u8>>,
    /// Response topic.
    pub response_topic: Option<Seq<u8>>,
    /// Content type.
    pub content_type: Option<Seq<u8>>,
    /// User properties, in order.
    pub user_property: Seq<(Seq<u8>, Seq<u8>)>,
    /// Application data.
    pub payload: Seq<u8>,
}

/// Received PUBLISH packet.
#[derive(Debug)]
pub struct PublishRx {
    /// Whether this is a redelivery.
    pub dup: bool,
    /// Whether the message was retained.
    pub retain: bool,
    /// Quality of service.
    pub qos: QoS,
    /// Topic name.
    pub topic_name: UTF8String,
    /// Packet identifier, present for QoS above 0.
    pub packet_identifier: Option<NonZero<u16>>,
    /// Whether the payload is UTF-8 text.
    pub payload_format_indicator: Option<bool>,
    /// Topic alias.
    pub topic_alias: Option<NonZero<u16>>,
    /// Message expiry interval in seconds.
    pub message_expiry_interval: Option<u32>,
    /// Identifier of the subscription that matched.
    pub subscription_identifier: Option<NonZero<VarSizeInt>>,
    /// Correlation data.
    pub correlation_data: Option<Binary>,
    /// Response topic.
    pub response_topic: Option<UTF8String>,
    /// Content type.
    pub content_type: Option<UTF8String>,
    /// User properties, in order.
    pub user_property: UserProperties,
    /// Application data.
    pub payload: Payload,
}

impl View for PublishRx {
    type V = PublishV;

    open spec fn view(&self) -> PublishV {
        PublishV {
            dup: self.dup,
            retain: self.retain,
            qos: self.qos,
            topic_name: self.topic_name@,
            packet_identifier: opt_nz_u16(self.packet_identifier),
            payload_format_indicator: self.payload_format_indicator,
            topic_alias: opt_nz_u16(self.topic_alias),
            message_expiry_interval: self.message_expiry_interval,
            subscription_identifier: match self.subscription_identifier {
                Some(v) => Some(v.spec_get()),
                None => None,
            },
            correlation_data: match self.correlation_data {
                Some(b) => Some(b@),
                None => None,
            },
            response_topic: opt_str_view(self.response_topic),
            content_type: opt_str_view(self.content_type),
            user_property: self.user_property@,
            payload: self.payload@,
        }
    }
}

/// A received PUBLISH packet before its properties and payload are read.
pub open spec fn spec_publish_empty(
    dup: bool,
    retain: bool,
    qos: QoS,
    topic_name: Seq<u8>,
    packet_identifier: Option<u16>,
) -> PublishV {
    PublishV {
        dup,
        retain,
        qos,
        topic_name,
        packet_identifier,
        payload_format_indicator: None,
        topic_alias: None,
        message_expiry_interval: None,
        subscription_identifier: None,
        correlation_data: None,
        response_topic: None,
        content_type: None,
        user_property: Seq::empty(),
        payload: Seq::empty(),
    }
}

/// The effect of a property on a received PUBLISH packet.
pub open spec fn publish_apply(acc: PublishV, p: PropertyV) -> Option<PublishV> {
    match p.val {
        PropVal::Bool(b) => if p.id == PAYLOAD_FORMAT_INDICATOR {
            Some(PublishV { payload_format_indicator: Some(b), ..acc })
        } else {
            None
        },
        PropVal::U16(v) => if p.id == TOPIC_ALIAS {
            Some(PublishV { topic_alias: Some(v), ..acc })
        } else {
            None
        },
        PropVal::U32(v) => if p.id == MESSAGE_EXPIRY_INTERVAL {
            Some(PublishV { message_expiry_interval: Some(v), ..acc })
        } else {
            None
        },
        PropVal::VarInt(v) => if p.id == SUBSCRIPTION_IDENTIFIER {
            Some(PublishV { subscription_identifier: Some(v), ..acc })
        } else {
            None
        },
        PropVal::Data(d) => if p.id == CORRELATION_DATA {
            Some(PublishV { correlation_data: Some(d), ..acc })
        } else if p.id == RESPONSE_TOPIC {
            Some(PublishV { response_topic: Some(d), ..acc })
        } else if p.id == CONTENT_TYPE {
            Some(PublishV { content_type: Some(d), ..acc })
        } else {
            None
        },
        PropVal::Pair(k, v) => if p.id == USER_PROPERTY {
            Some(PublishV { user_property: acc.user_property.push((k, v)), ..acc })
        } else {
            None
        },
        PropVal::Qos(_) => None,
    }
}

/// [publish_apply] as a function value.
pub open spec fn publish_apply_fn() -> spec_fn(PublishV, PropertyV) -> Option<PublishV> {
    |a: PublishV, p: PropertyV| publish_apply(a, p)
}

/// Reading the part of a PUBLISH packet after its fixed header, once the
/// flags are known: remaining length (at most the bytes that follow), topic
/// name, a packet identifier for QoS above 0, property length (at most the
/// bytes that follow), the properties that fill it, and the payload, which
/// is everything after them.
pub open spec fn spec_decode_publish_body(s1: Seq<u8>, dup: bool, retain: bool, qos: QoS) -> Result<PublishV, CodecError> {
    match spec_parse_var_size_int(s1) {
        Err(e) => Err(codec_error_of(e)),
        Ok((rl, n1)) => {
            let s2 = s1.skip(n1 as int);
            if rl.spec_value() > s2.len() {
                Err(CodecError::InvalidPacketSize(InvalidPacketSize))
            } else {
                match spec_parse_utf8_string(s2) {
                    Err(e) => Err(codec_error_of(e)),
                    Ok((topic, n2)) => {
                        let s3 = s2.skip(n2 as int);
                        let pid: Result<(Option<u16>, nat), ConversionError> = if qos == QoS::AtMostOnce {
                            Ok((None, 0))
                        } else {
                            match spec_parse_non_zero_u16(s3) {
                                Err(e) => Err(e),
                                Ok((v, n)) => Ok((Some(v), n)),
                            }
                        };
                        match pid {
                            Err(e) => Err(codec_error_of(e)),
                            Ok((packet_identifier, n3)) => {
                                let s4 = s3.skip(n3 as int);
                                match spec_parse_var_size_int(s4) {
                                    Err(e) => Err(codec_error_of(e)),
                                    Ok((pl, n4)) => {
                                        let s5 = s4.skip(n4 as int);
                                        if pl.spec_value() > s5.len() {
                                            Err(CodecError::InvalidPropertyLength(InvalidPropertyLength))
                                        } else {
                                            match spec_fold_properties(
                                                s5.take(pl.spec_value() as int),
                                                spec_publish_empty(dup, retain, qos, topic, packet_identifier),
                                                publish_apply_fn(),
                                            ) {
                                                Err(e) => Err(e),
                                                Ok(v) => Ok(PublishV { payload: s5.skip(pl.spec_value() as int), ..v }),
                                            }
                                        }
                                    },
                                }
                            },
                        }
                    },
                }
            }
        },
    }
}

/// Reading a PUBLISH packet from `s`: a fixed header of packet type 3
/// whose bits hold the DUP flag, the QoS level (3 is refused) and the
/// RETAIN flag, then the rest as [spec_decode_publish_body] reads it.
pub open spec fn spec_decode_publish(s: Seq<u8>) -> Result<PublishV, CodecError> {
    if s.len() == 0 {
        Err(codec_error_of(ConversionError::InsufficientBufferSize(InsufficientBufferSize)))
    } else if s[0] / 16 != PUBLISH_PACKET_ID {
        Err(CodecError::InvalidPacketHeader(InvalidPacketHeader))
    } else {
        match spec_qos_from_byte((s[0] / 2) % 4) {
            Err(e) => Err(codec_error_of(e)),
            Ok(qos) => spec_decode_publish_body(s.skip(1), (s[0] / 8) % 2 == 1, s[0] % 2 == 1, qos),
        }
    }
}

/// What a written PUBLISH packet carries, as received plain data.
pub open spec fn spec_publish_sent(tx: PublishTx) -> PublishV {
    PublishV {
        dup: tx.dup,
        retain: tx.retain,
        qos: tx.qos,
        topic_name: tx.topic_name.0.spec_bytes(),
        packet_identifier: opt_nz_u16(tx.packet_identifier),
        payload_format_indicator: tx.payload_format_indicator,
        topic_alias: opt_nz_u16(tx.topic_alias),
        message_expiry_interval: tx.message_expiry_interval,
        subscription_identifier: None,
        correlation_data: match tx.correlation_data {
            Some(d) => Some(d.0@),
            None => None,
        },
        response_topic: match tx.response_topic {
            Some(t) => Some(t.0.spec_bytes()),
            None => None,
        },
        content_type: match tx.content_type {
            Some(t) => Some(t.0.spec_bytes()),
            None => None,
        },
        user_property: spec_pair_bytes(tx.user_property@),
        payload: spec_opt_payload(tx.payload),
    }
}

/// Texts and data of a packet to be sent each fit a two byte length, and
/// its non-zero integers hold no zero.
pub open spec fn spec_publish_fits(tx: PublishTx) -> bool {
    &&& tx.topic_name.0.spec_bytes().len() <= 65535
    &&& spec_opt_bin_fits(tx.correlation_data)
    &&& spec_opt_str_fits(tx.response_topic)
    &&& spec_opt_str_fits(tx.content_type)
    &&& spec_pairs_fit(tx.user_property@)
    &&& opt_nz_u16(tx.packet_identifier) != Some(0u16)
    &&& opt_nz_u16(tx.topic_alias) != Some(0u16)
}

/// The flags of the fixed header of a PUBLISH packet read back.
proof fn lemma_publish_fixed_hdr_fields(dup: bool, qos: QoS, retain: bool)
    ensures
        ({
            let h = spec_publish_fixed_hdr(dup, qos, retain);
            &&& h / 16 == PUBLISH_PACKET_ID
            &&& spec_qos_from_byte((h / 2) % 4) == Ok::<QoS, ConversionError>(qos)
            &&& ((h / 8) % 2 == 1) == dup
            &&& (h % 2 == 1) == retain
        }),
{
}

/// Applying the user properties that pairs are written as appends their
/// bytes to those received before.
proof fn lemma_publish_apply_user_props(ups: Seq<UTF8StringPairRef>, acc: PublishV)
    ensures
        spec_apply_all(spec_user_prop_vs(ups), acc, publish_apply_fn()) == Some(
            PublishV { user_property: acc.user_property + spec_pair_bytes(ups), ..acc },
        ),
    decreases ups.len(),
{
    if ups.len() == 0 {
        assert(acc.user_property + spec_pair_bytes(ups) =~= acc.user_property);
        assert(spec_user_prop_vs(ups) =~= Seq::<PropertyV>::empty());
    } else {
        let init = ups.drop_last();
        let last = spec_user_prop_v(ups.last());
        lemma_publish_apply_user_props(init, acc);
        assert(spec_user_prop_vs(ups) =~= spec_user_prop_vs(init) + seq![last]);
        lemma_apply_all_concat(spec_user_prop_vs(init), seq![last], acc, publish_apply_fn());
        let mid = PublishV { user_property: acc.user_property + spec_pair_bytes(init), ..acc };
        lemma_apply_all_single(last, mid, publish_apply_fn());
        assert(mid.user_property.push((ups.last().0.spec_bytes(), ups.last().1.spec_bytes()))
            =~= acc.user_property + spec_pair_bytes(ups));
    }
}

/// The properties of a PUBLISH packet as a sequence, in the order they are
/// written.
pub open spec fn spec_publish_prop_vs(tx: PublishTx) -> Seq<PropertyV> {
    spec_opt_bool_prop_vs(PAYLOAD_FORMAT_INDICATOR, tx.payload_format_indicator) + spec_opt_u16_prop_vs(
        TOPIC_ALIAS,
        opt_nz_u16(tx.topic_alias),
    ) + spec_opt_u32_prop_vs(MESSAGE_EXPIRY_INTERVAL, tx.message_expiry_interval) + spec_opt_bin_prop_vs(
        CORRELATION_DATA,
        tx.correlation_data,
    ) + spec_opt_str_prop_vs(RESPONSE_TOPIC, tx.response_topic) + spec_opt_str_prop_vs(
        CONTENT_TYPE,
        tx.content_type,
    ) + spec_user_prop_vs(tx.user_property@)
}

/// The written properties of a PUBLISH packet are the encodings of its
/// properties, which each read back as themselves.
#[verifier::spinoff_prover]
proof fn lemma_publish_props_encoding(tx: PublishTx)
    requires
        spec_publish_fits(tx),
    ensures
        spec_publish_props(tx) == spec_props_encoding(spec_publish_prop_vs(tx)),
        spec_props_valid(spec_publish_prop_vs(tx)),
{
    let a = spec_opt_bool_prop_vs(PAYLOAD_FORMAT_INDICATOR, tx.payload_format_indicator);
    let b = spec_opt_u16_prop_vs(TOPIC_ALIAS, opt_nz_u16(tx.topic_alias));
    let c = spec_opt_u32_prop_vs(MESSAGE_EXPIRY_INTERVAL, tx.message_expiry_interval);
    let d = spec_opt_bin_prop_vs(CORRELATION_DATA, tx.correlation_data);
    let e = spec_opt_str_prop_vs(RESPONSE_TOPIC, tx.response_topic);
    let f = spec_opt_str_prop_vs(CONTENT_TYPE, tx.content_type);
    let u = spec_user_prop_vs(tx.user_property@);
    lemma_opt_bool_prop_encoding(PAYLOAD_FORMAT_INDICATOR, tx.payload_format_indicator);
    lemma_opt_u16_prop_encoding(TOPIC_ALIAS, opt_nz_u16(tx.topic_alias));
    lemma_opt_u32_prop_encoding(MESSAGE_EXPIRY_INTERVAL, tx.message_expiry_interval);
    lemma_opt_bin_prop_encoding(CORRELATION_DATA, tx.correlation_data);
    lemma_opt_str_prop_encoding(RESPONSE_TOPIC, tx.response_topic);
    lemma_opt_str_prop_encoding(CONTENT_TYPE, tx.content_type);
    lemma_user_props_encoding(tx.user_property@);
    lemma_props_encoding_concat(a, b);
    lemma_props_encoding_concat(a + b, c);
    lemma_props_encoding_concat(a + b + c, d);
    lemma_props_encoding_concat(a + b + c + d, e);
    lemma_props_encoding_concat(a + b + c + d + e, f);
    lemma_props_encoding_concat(a + b + c + d + e + f, u);
    lemma_props_valid_concat(a, b);
    lemma_props_valid_concat(a + b, c);
    lemma_props_valid_concat(a + b + c, d);
    lemma_props_valid_concat(a + b + c + d, e);
    lemma_props_valid_concat(a + b + c + d + e, f);
    lemma_props_valid_concat(a + b + c + d + e + f, u);
}

/// Applying the properties of a PUBLISH packet fills in each of them.
#[verifier::spinoff_prover]
#[verifier::rlimit(30)]
proof fn lemma_publish_apply_props(tx: PublishTx, acc: PublishV)
    requires
        acc.payload_format_indicator is None,
        acc.topic_alias is None,
        acc.message_expiry_interval is None,
        acc.correlation_data is None,
        acc.response_topic is None,
        acc.content_type is None,
        acc.user_property.len() == 0,
    ensures
        spec_apply_all(spec_publish_prop_vs(tx), acc, publish_apply_fn()) == Some(
            PublishV {
                payload_format_indicator: tx.payload_format_indicator,
                topic_alias: opt_nz_u16(tx.topic_alias),
                message_expiry_interval: tx.message_expiry_interval,
                correlation_data: spec_publish_sent(tx).correlation_data,
                response_topic: spec_publish_sent(tx).response_topic,
                content_type: spec_publish_sent(tx).content_type,
                user_property: spec_pair_bytes(tx.user_property@),
                ..acc
            },
        ),
{
    let sent = spec_publish_sent(tx);
    let a = spec_opt_bool_prop_vs(PAYLOAD_FORMAT_INDICATOR, tx.payload_format_indicator);
    let b = spec_opt_u16_prop_vs(TOPIC_ALIAS, opt_nz_u16(tx.topic_alias));
    let c = spec_opt_u32_prop_vs(MESSAGE_EXPIRY_INTERVAL, tx.message_expiry_interval);
    let d = spec_opt_bin_prop_vs(CORRELATION_DATA, tx.correlation_data);
    let e = spec_opt_str_prop_vs(RESPONSE_TOPIC, tx.response_topic);
    let f = spec_opt_str_prop_vs(CONTENT_TYPE, tx.content_type);
    let u = spec_user_prop_vs(tx.user_property@);
    let g = publish_apply_fn();
    let x1 = PublishV { payload_format_indicator: tx.payload_format_indicator, ..acc };
    let x2 = PublishV { topic_alias: opt_nz_u16(tx.topic_alias), ..x1 };
    let x3 = PublishV { message_expiry_interval: tx.message_expiry_interval, ..x2 };
    let x4 = PublishV { correlation_data: sent.correlation_data, ..x3 };
    let x5 = PublishV { response_topic: sent.response_topic, ..x4 };
    let x6 = PublishV { content_type: sent.content_type, ..x5 };
    lemma_apply_all_at_most_one(a, acc, g);
    assert(spec_apply_all(a, acc, g) == Some(x1));
    lemma_apply_all_concat(a, b, acc, g);
    lemma_apply_all_at_most_one(b, x1, g);
    assert(spec_apply_all(a + b, acc, g) == Some(x2));
    lemma_apply_all_concat(a + b, c, acc, g);
    lemma_apply_all_at_most_one(c, x2, g);
    assert(spec_apply_all(a + b + c, acc, g) == Some(x3));
    lemma_apply_all_concat(a + b + c, d, acc, g);
    lemma_apply_all_at_most_one(d, x3, g);
    assert(spec_apply_all(a + b + c + d, acc, g) == Some(x4));
    lemma_apply_all_concat(a + b + c + d, e, acc, g);
    lemma_apply_all_at_most_one(e, x4, g);
    assert(spec_apply_all(a + b + c + d + e, acc, g) == Some(x5));
    lemma_apply_all_concat(a + b + c + d + e, f, acc, g);
    lemma_apply_all_at_most_one(f, x5, g);
    assert(spec_apply_all(a + b + c + d + e + f, acc, g) == Some(x6));
    lemma_apply_all_concat(a + b + c + d + e + f, u, acc, g);
    lemma_publish_apply_user_props(tx.user_property@, x6);
    assert(x6.user_property + spec_pair_bytes(tx.user_property@) =~= spec_pair_bytes(tx.user_property@));
}

/// The steps of reading a PUBLISH packet, each taken as given.
proof fn lemma_decode_publish_steps(
    s: Seq<u8>,
    qos: QoS,
    rl: VarSizeInt,
    n1: nat,
    topic: Seq<u8>,
    n2: nat,
    pid: Option<u16>,
    n3: nat,
    pl: VarSizeInt,
    n4: nat,
    v0: PublishV,
)
    requires
        s.len() > 0,
        s[0] / 16 == PUBLISH_PACKET_ID,
        spec_qos_from_byte((s[0] / 2) % 4) == Ok::<QoS, ConversionError>(qos),
        spec_parse_var_size_int(s.skip(1)) == Ok::<(VarSizeInt, nat), ConversionError>((rl, n1)),
        ({
            let s2 = s.skip(1).skip(n1 as int);
            let s3 = s2.skip(n2 as int);
            let s4 = s3.skip(n3 as int);
            let s5 = s4.skip(n4 as int);
            &&& rl.spec_value() <= s2.len()
            &&& spec_parse_utf8_string(s2) == Ok::<(Seq<u8>, nat), ConversionError>((topic, n2))
            &&& qos == QoS::AtMostOnce ==> pid is None && n3 == 0
            &&& qos != QoS::AtMostOnce ==> pid is Some && n3 == 2 && spec_parse_non_zero_u16(s3)
                == Ok::<(u16, nat), ConversionError>((pid.unwrap(), 2))
            &&& spec_parse_var_size_int(s4) == Ok::<(VarSizeInt, nat), ConversionError>((pl, n4))
            &&& pl.spec_value() <= s5.len()
            &&& spec_fold_properties(
                s5.take(pl.spec_value() as int),
                spec_publish_empty((s[0] / 8) % 2 == 1, s[0] % 2 == 1, qos, topic, pid),
                publish_apply_fn(),
            ) == Ok::<PublishV, CodecError>(v0)
        }),
    ensures
        spec_decode_publish(s) == Ok::<PublishV, CodecError>(
            PublishV { payload: s.skip(1).skip(n1 as int).skip(n2 as int).skip(n3 as int).skip(n4 as int).skip(
                pl.spec_value() as int,
            ), ..v0 },
        ),
{
}

/// The bytes of a PUBLISH packet after its topic name read step by step:
/// the packet identifier, the property length, the properties and the
/// payload.
#[verifier::spinoff_prover]
proof fn lemma_publish_tail_bytes(
    s3: Seq<u8>,
    qos: QoS,
    pid: Option<NonZero<u16>>,
    props: Seq<u8>,
    payload: Seq<u8>,
)
    requires
        s3 == spec_opt_packet_id(pid) + (spec_var_int_encoding(props.len()) + (props + payload)),
        props.len() <= VarSizeInt::MAX,
        (pid is Some) == (qos != QoS::AtMostOnce),
        opt_nz_u16(pid) != Some(0u16),
    ensures
        ({
            let pl = props.len();
            let n3 = spec_opt_packet_id(pid).len();
            let n4 = spec_var_int_len(pl);
            let s4 = s3.skip(n3 as int);
            let s5 = s4.skip(n4 as int);
            &&& qos == QoS::AtMostOnce ==> opt_nz_u16(pid) is None && n3 == 0
            &&& qos != QoS::AtMostOnce ==> opt_nz_u16(pid) is Some && n3 == 2 && spec_parse_non_zero_u16(s3)
                == Ok::<(u16, nat), ConversionError>((opt_nz_u16(pid).unwrap(), 2))
            &&& spec_parse_var_size_int(s4) == Ok::<(VarSizeInt, nat), ConversionError>(
                (spec_var_size_int_from(pl).unwrap(), n4),
            )
            &&& spec_var_size_int_from(pl).unwrap().spec_value() == pl
            &&& pl <= s5.len()
            &&& s5.take(pl as int) == props
            &&& s5.skip(pl as int) == payload
        }),
{
    let pl = props.len();
    let pidb = spec_opt_packet_id(pid);
    let s5 = props + payload;
    let s4 = spec_var_int_encoding(pl) + s5;
    match pid {
        Some(p) => {
            lemma_parse_u16_roundtrip(p.spec_get(), s4);
        },
        None => {},
    }
    lemma_skip_prefix(pidb, s4);
    lemma_parse_var_int_roundtrip(pl, s5);
    lemma_skip_prefix(spec_var_int_encoding(pl), s5);
    lemma_skip_prefix(props, payload);
}

/// A written PUBLISH packet is its fixed header and then its remaining
/// length, topic name, and the rest.
#[verifier::spinoff_prover]
proof fn lemma_publish_split(tx: PublishTx, s: Seq<u8>)
    requires
        s == spec_publish_encoding(tx),
    ensures
        s.len() > 0,
        s[0] == spec_publish_fixed_hdr(tx.dup, tx.qos, tx.retain),
        s.skip(1) == spec_var_int_encoding(spec_publish_remaining_len(tx)) + (spec_length_prefixed(
            tx.topic_name.0.spec_bytes(),
        ) + (spec_opt_packet_id(tx.packet_identifier) + (spec_var_int_encoding(
            spec_publish_props(tx).len(),
        ) + (spec_publish_props(tx) + spec_opt_payload(tx.payload))))),
{
    assert(s.skip(1) =~= spec_var_int_encoding(spec_publish_remaining_len(tx)) + (spec_length_prefixed(
        tx.topic_name.0.spec_bytes(),
    ) + (spec_opt_packet_id(tx.packet_identifier) + (spec_var_int_encoding(
        spec_publish_props(tx).len(),
    ) + (spec_publish_props(tx) + spec_opt_payload(tx.payload))))));
}

/// Reading back a written PUBLISH packet gives its flags, topic name,
/// packet identifier, properties and payload; this holds of every packet
/// that carries a packet identifier exactly when its QoS is above 0, whose
/// remaining length fits a variable byte integer and whose texts and data
/// each fit a two byte length.
#[verifier::spinoff_prover]
pub proof fn lemma_publish_roundtrip(tx: PublishTx)
    requires
        (tx.packet_identifier is Some) == (tx.qos != QoS::AtMostOnce),
        spec_publish_remaining_len(tx) <= VarSizeInt::MAX,
        spec_publish_fits(tx),
    ensures
        spec_decode_publish(spec_publish_encoding(tx)) == Ok::<PublishV, CodecError>(spec_publish_sent(tx)),
        spec_publish_encoding(tx).len() > 0,
        spec_publish_encoding(tx)[0] / 16 == PUBLISH_PACKET_ID,
{
    let s = spec_publish_encoding(tx);
    let props = spec_publish_props(tx);
    let pl = props.len();
    let rl = spec_publish_remaining_len(tx);
    let topic = tx.topic_name.0.spec_bytes();
    let s3 = spec_opt_packet_id(tx.packet_identifier) + (spec_var_int_encoding(pl) + (props
        + spec_opt_payload(tx.payload)));
    let s2 = spec_length_prefixed(topic) + s3;
    lemma_var_int_encoding_len(pl);
    lemma_publish_split(tx, s);
    lemma_publish_fixed_hdr_fields(tx.dup, tx.qos, tx.retain);
    encode_utf8_valid_utf8(tx.topic_name.0@);
    lemma_var_int_prefix(rl, s2);
    lemma_utf8_string_prefix(topic, s3);
    lemma_publish_tail_bytes(s3, tx.qos, tx.packet_identifier, props, spec_opt_payload(tx.payload));
    lemma_publish_props_encoding(tx);
    let acc = spec_publish_empty(tx.dup, tx.retain, tx.qos, topic, opt_nz_u16(tx.packet_identifier));
    lemma_fold_properties_roundtrip(spec_publish_prop_vs(tx), acc, publish_apply_fn());
    lemma_publish_apply_props(tx, acc);
    let v0 = PublishV { payload: Seq::empty(), ..spec_publish_sent(tx) };
    lemma_decode_publish_steps(
        s,
        tx.qos,
        spec_var_size_int_from(rl).unwrap(),
        spec_var_int_len(rl),
        topic,
        topic.len() + 2,
        opt_nz_u16(tx.packet_identifier),
        spec_opt_packet_id(tx.packet_identifier).len(),
        spec_var_size_int_from(pl).unwrap(),
        spec_var_int_len(pl),
        v0,
    );
}

impl PublishRx {
    /// Decodes a PUBLISH packet from a received buffer.
    #[verifier::rlimit(40)]
    pub fn try_decode(buf: Bytes) -> (r: Result<Self, CodecError>)
        ensures
            match spec_decode_publish(bytes_view(buf)) {
                Ok(v) => r matches Ok(p) && p@ == v,
                Err(e) => r == Err::<Self, CodecError>(e),
            },
    {
        let ghost s = bytes_view(buf);
        let mut decoder = Decoder::from_bytes(buf);
        let fixed_hdr = match decoder.try_decode_u8() {
            Ok(v) => v,
            Err(e) => return Err(e.into_codec_error()),
        };
        assert(fixed_hdr >> 4u8 == fixed_hdr / 16) by (bit_vector);
        if fixed_hdr >> 4u8 != PUBLISH_PACKET_ID {
            return Err(CodecError::InvalidPacketHeader(InvalidPacketHeader));
        }
        assert((fixed_hdr >> 1u8) & 0x03u8 == (fixed_hdr / 2) % 4) by (bit_vector);
        let qos = match QoS::try_from((fixed_hdr >> 1u8) & 0x03u8) {
            Ok(q) => q,
            Err(e) => return Err(e.into_codec_error()),
        };
        assert((fixed_hdr & (1u8 << 3u8) != 0) == ((fixed_hdr / 8) % 2 == 1)) by (bit_vector);
        assert((fixed_hdr & 1u8 != 0) == (fixed_hdr % 2 == 1)) by (bit_vector);
        let dup = fixed_hdr & (1u8 << 3u8) != 0;
        let retain = fixed_hdr & 1u8 != 0;
        assert(decoder.rest() =~= s.skip(1));
        Self::decode_body(&mut decoder, dup, retain, qos)
    }

    /// Reads what follows the fixed header.
    #[verifier::rlimit(40)]
    fn decode_body(decoder: &mut Decoder, dup: bool, retain: bool, qos: QoS) -> (r: Result<Self, CodecError>)
        requires
            old(decoder).wf(),
        ensures
            match spec_decode_publish_body(old(decoder).rest(), dup, retain, qos) {
                Ok(v) => r matches Ok(p) && p@ == v,
                Err(e) => r == Err::<Self, CodecError>(e),
            },
    {
        let remaining_len = match decoder.try_decode_var_size_int() {
            Ok(v) => v,
            Err(e) => return Err(e.into_codec_error()),
        };
        if remaining_len.value() as usize > decoder.remaining() {
            return Err(CodecError::InvalidPacketSize(InvalidPacketSize));
        }
        let topic_name = match decoder.try_decode_utf8_string() {
            Ok(v) => v,
            Err(e) => return Err(e.into_codec_error()),
        };
        let ghost d3 = *decoder;
        let packet_identifier = match qos {
            QoS::AtMostOnce => None,
            _ => match decoder.try_decode_non_zero_u16() {
                Ok(v) => Some(v),
                Err(e) => return Err(e.into_codec_error()),
            },
        };
        proof {
            if qos == QoS::AtMostOnce {
                assert(d3.rest().skip(0) =~= decoder.rest());
            }
        }
        let property_len = match decoder.try_decode_var_size_int() {
            Ok(v) => v,
            Err(e) => return Err(e.into_codec_error()),
        };
        let pl = property_len.value() as usize;
        if pl > decoder.remaining() {
            return Err(CodecError::InvalidPropertyLength(InvalidPropertyLength));
        }
        let rest = decoder.get_buf();
        let mut props = Decoder::from_bytes(bytes_slice(&rest, 0, pl));
        let init = PublishRx::empty(dup, retain, qos, topic_name, packet_identifier);
        let packet = match Self::decode_properties(&mut props, init) {
            Ok(p) => p,
            Err(e) => return Err(e),
        };
        decoder.advance_by(pl);
        let payload = match decoder.try_decode_payload() {
            Ok(p) => p,
            Err(e) => return Err(e.into_codec_error()),
        };
        let mut packet = packet;
        packet.payload = payload;
        Ok(packet)
    }

    /// A packet before its properties and payload are read.
    fn empty(
        dup: bool,
        retain: bool,
        qos: QoS,
        topic_name: UTF8String,
        packet_identifier: Option<NonZero<u16>>,
    ) -> (r: Self)
        ensures
            r@ == spec_publish_empty(dup, retain, qos, topic_name@, opt_nz_u16(packet_identifier)),
    {
        let r = PublishRx {
            dup,
            retain,
            qos,
            topic_name,
            packet_identifier,
            payload_format_indicator: None,
            topic_alias: None,
            message_expiry_interval: None,
            subscription_identifier: None,
            correlation_data: None,
            response_topic: None,
            content_type: None,
            user_property: UserProperties::new(),
            payload: Payload(bytes_new()),
        };
        assert(r@.user_property =~= Seq::<(Seq<u8>, Seq<u8>)>::empty());
        r
    }

    /// Applies a property read from the packet; false where the packet
    /// does not accept it.
    fn apply_property(&mut self, property: Property) -> (ok: bool)
        ensures
            ok == publish_apply(old(self)@, property@) is Some,
            ok ==> final(self)@ == publish_apply(old(self)@, property@).unwrap(),
    {
        match property {
            Property::PayloadFormatIndicator(val) => {
                self.payload_format_indicator = Some(val);
            },
            Property::TopicAlias(val) => {
                self.topic_alias = Some(val);
            },
            Property::MessageExpiryInterval(val) => {
                self.message_expiry_interval = Some(val);
            },
            Property::SubscriptionIdentifier(val) => {
                self.subscription_identifier = Some(val);
            },
            Property::CorrelationData(val) => {
                self.correlation_data = Some(val);
            },
            Property::ResponseTopic(val) => {
                self.response_topic = Some(val);
            },
            Property::ContentType(val) => {
                self.content_type = Some(val);
            },
            Property::UserProperty(val) => {
                self.user_property.push(val);
            },
            _ => {
                return false;
            },
        }
        true
    }

    /// Reads the properties that fill `decoder` into `init`.
    #[verifier::rlimit(30)]
    fn decode_properties(decoder: &mut Decoder, init: Self) -> (r: Result<Self, CodecError>)
        requires
            old(decoder).wf(),
        ensures
            match spec_fold_properties(old(decoder).rest(), init@, publish_apply_fn()) {
                Ok(v) => r matches Ok(p) && p@ == v && p.payload@ == init.payload@,
                Err(e) => r == Err::<Self, CodecError>(e),
            },
    {
        let ghost target = spec_fold_properties(decoder.rest(), init@, publish_apply_fn());
        let mut packet = init;
        while decoder.remaining() != 0
            invariant
                decoder.wf(),
                target == spec_fold_properties(old(decoder).rest(), init@, publish_apply_fn()),
                spec_fold_properties(decoder.rest(), packet@, publish_apply_fn()) == target,
                packet.payload@ == init.payload@,
            decreases decoder.rest().len(),
        {
            assert(decoder.rest().len() > 0);
            let property = match decoder.try_decode_property() {
                Ok(p) => p,
                Err(e) => return Err(e.into_codec_error()),
            };
            if !packet.apply_property(property) {
                return Err(CodecError::UnexpectedProperty(UnexpectedProperty));
            }
        }
        Ok(packet)
    }
}


impl<'a> Default for PublishTxBuilder<'a> {
    fn default() -> (r: Self)
        ensures
            r == Self::spec_new(),
    {
        Self::new()
    }
}


/// A written PUBLISH packet is its fixed header, the shortest encoding of its
/// remaining length and that many bytes.
pub proof fn lemma_publish_framed(tx: PublishTx)
    requires
        spec_publish_remaining_len(tx) <= VarSizeInt::MAX,
    ensures
        spec_publish_encoding(tx).len() == 1 + spec_var_int_len(spec_publish_remaining_len(tx)) + spec_publish_remaining_len(tx),
        spec_publish_encoding(tx).subrange(1, 1 + spec_var_int_len(spec_publish_remaining_len(tx)) as int)
            == spec_var_int_encoding(spec_publish_remaining_len(tx)),
{
    let s = spec_publish_encoding(tx);
    let rl = spec_publish_remaining_len(tx);
    lemma_var_int_encoding_len(rl);
    lemma_var_int_encoding_len(spec_publish_props(tx).len());
    assert(s.subrange(1, 1 + spec_var_int_len(rl) as int) =~= spec_var_int_encoding(rl));
}


/// A PUBLISH packet of QoS 0 with an empty topic name and no payload whose
/// property bytes are the single property `e` reads as that property
/// applied to the packet without properties.
proof fn lemma_publish_one_property(e: Seq<u8>)
    requires
        e.len() <= 120,
        spec_parse_property(e) is Ok,
        spec_parse_property(e)->Ok_0.1 == e.len(),
    ensures
        spec_decode_publish(seq![0x30u8, (e.len() + 3) as u8, 0, 0, e.len() as u8] + e) == match publish_apply(
            spec_publish_bare(),
            spec_parse_property(e)->Ok_0.0,
        ) {
            Some(a) => Ok::<PublishV, CodecError>(a),
            None => Err(CodecError::UnexpectedProperty(UnexpectedProperty)),
        },
{
    let s = seq![0x30u8, (e.len() + 3) as u8, 0, 0, e.len() as u8] + e;
    let s1 = s.skip(1);
    assert(s1[0] == (e.len() + 3) as u8);
    let s2 = s1.skip(1);
    assert(s2[0] == 0 && s2[1] == 0);
    assert(s2.subrange(2, 2) =~= Seq::<u8>::empty());
    let s3 = s2.skip(2);
    assert(s3[0] == e.len() as u8);
    assert(s3.skip(0) =~= s3);
    let s5 = s3.skip(1);
    assert(s5 =~= e);
    assert(s5.take(e.len() as int) =~= e);
    assert(s5.skip(e.len() as int) =~= Seq::<u8>::empty());
    lemma_publish_header_flags(0, 0, 0);
    assert(seq![(0x30 + 8 * 0u8 + 0u8) as u8, 3, 0, 0, 0] =~= seq![0x30u8, 3, 0, 0, 0]);
    lemma_fold_one_property(
        e,
        spec_publish_empty(false, false, QoS::AtMostOnce, Seq::empty(), None),
        publish_apply_fn(),
    );
    match publish_apply(spec_publish_empty(false, false, QoS::AtMostOnce, Seq::empty(), None), spec_parse_property(e)->Ok_0.0) {
        Some(a) => {
            assert(a.payload == Seq::<u8>::empty());
            assert(PublishV { payload: Seq::<u8>::empty(), ..a } == a);
        },
        None => {},
    }
}

/// What a PUBLISH packet of QoS 0 with an empty topic name, no properties
/// and no payload reads as.
pub open spec fn spec_publish_bare() -> PublishV {
    spec_decode_publish(seq![0x30u8, 3, 0, 0, 0])->Ok_0
}

/// The first byte of a PUBLISH packet of QoS 0 carries the DUP flag in bit
/// 3 and the RETAIN flag in bit 0, and whatever follows the property
/// length is the payload; nothing else is set without properties.
pub proof fn lemma_publish_header_flags(d: u8, r: u8, x: u8)
    requires
        d <= 1,
        r <= 1,
    ensures
        spec_decode_publish(seq![(0x30 + 8 * d + r) as u8, 3, 0, 0, 0]) == Ok::<PublishV, CodecError>(
            PublishV {
                dup: d == 1,
                retain: r == 1,
                qos: QoS::AtMostOnce,
                topic_name: Seq::empty(),
                packet_identifier: None,
                payload_format_indicator: None,
                topic_alias: None,
                message_expiry_interval: None,
                subscription_identifier: None,
                correlation_data: None,
                response_topic: None,
                content_type: None,
                user_property: Seq::empty(),
                payload: Seq::empty(),
            },
        ),
        spec_decode_publish(seq![(0x30 + 8 * d + r) as u8, 4, 0, 0, 0, x]) == Ok::<PublishV, CodecError>(
            PublishV { payload: seq![x], ..spec_decode_publish(seq![(0x30 + 8 * d + r) as u8, 3, 0, 0, 0])->Ok_0 },
        ),
{
    let h = (0x30 + 8 * d + r) as u8;
    assert(h / 16 == 3 && (h / 2) % 4 == 0 && (h / 8) % 2 == d && h % 2 == r);
    let s = seq![h, 3, 0, 0, 0];
    let s2 = s.skip(1).skip(1);
    assert(s2 =~= seq![0u8, 0, 0]);
    assert(s2.subrange(2, 2) =~= Seq::<u8>::empty());
    assert(s2.skip(2) =~= seq![0u8]);
    assert(s2.skip(2).skip(0) =~= seq![0u8]);
    assert(s2.skip(2).skip(1) =~= Seq::<u8>::empty());
    assert(Seq::<u8>::empty().take(0) =~= Seq::<u8>::empty());
    assert(Seq::<u8>::empty().skip(0) =~= Seq::<u8>::empty());
    assert(spec_decode_publish_body(s.skip(1), d == 1, r == 1, QoS::AtMostOnce) == Ok::<PublishV, CodecError>(
        PublishV { payload: Seq::empty(), ..spec_publish_empty(d == 1, r == 1, QoS::AtMostOnce, Seq::empty(), None) },
    ));
    let t = seq![h, 4, 0, 0, 0, x];
    let t2 = t.skip(1).skip(1);
    assert(t2 =~= seq![0u8, 0, 0, x]);
    assert(t2.subrange(2, 2) =~= Seq::<u8>::empty());
    assert(t2.skip(2) =~= seq![0u8, x]);
    assert(t2.skip(2).skip(0) =~= seq![0u8, x]);
    assert(t2.skip(2).skip(1) =~= seq![x]);
    assert(seq![x].take(0) =~= Seq::<u8>::empty());
    assert(seq![x].skip(0) =~= seq![x]);
}

/// The first byte of a PUBLISH packet of QoS 1 or 2 carries the QoS in bits
/// 1-2, and a non-zero packet identifier follows the topic name.
pub proof fn lemma_publish_qos_and_packet_identifier(q: u8, hi: u8, lo: u8)
    requires
        1 <= q <= 2,
        hi * 256 + lo != 0,
    ensures
        spec_decode_publish(seq![(0x30 + 2 * q) as u8, 5, 0, 0, hi, lo, 0]) == Ok::<PublishV, CodecError>(
            PublishV {
                qos: if q == 1 { QoS::AtLeastOnce } else { QoS::ExactlyOnce },
                packet_identifier: Some((hi * 256 + lo) as u16),
                ..spec_publish_bare()
            },
        ),
{
    lemma_publish_header_flags(0, 0, 0);
    let h = (0x30 + 2 * q) as u8;
    assert(h / 16 == 3 && (h / 2) % 4 == q && (h / 8) % 2 == 0 && h % 2 == 0);
    let s2 = seq![h, 5, 0, 0, hi, lo, 0].skip(1).skip(1);
    assert(s2 =~= seq![0u8, 0, hi, lo, 0]);
    assert(s2.subrange(2, 2) =~= Seq::<u8>::empty());
    assert(s2.skip(2) =~= seq![hi, lo, 0]);
    assert(s2.skip(2).skip(2) =~= seq![0u8]);
    assert(Seq::<u8>::empty().skip(0) =~= Seq::<u8>::empty());
    assert(s2.skip(2).skip(2).skip(1) =~= Seq::<u8>::empty());
    assert(Seq::<u8>::empty().take(0) =~= Seq::<u8>::empty());
}

/// A PUBLISH packet whose only property sets `payload_format_indicator`.
proof fn lemma_publish_payload_format_indicator_property(b: u8)
    requires
        b <= 1,
    ensures
        spec_decode_publish(seq![0x30u8, 5, 0, 0, 2, 0x01, b]) == Ok::<PublishV, CodecError>(PublishV { payload_format_indicator: Some(b == 1), ..spec_publish_bare() }),
{
    lemma_publish_header_flags(0, 0, 0);
    lemma_parse_bool_property_bytes(0x01, b);
    lemma_publish_one_property(seq![0x01u8, b]);
    assert(seq![0x30u8, 5, 0, 0, 2, 0x01, b] =~= seq![0x30u8, 5, 0, 0, 2] + seq![0x01u8, b]);
}

/// A PUBLISH packet whose only property sets `topic_alias`.
proof fn lemma_publish_topic_alias_property(hi: u8, lo: u8)
    requires
        hi * 256 + lo != 0,
    ensures
        spec_decode_publish(seq![0x30u8, 6, 0, 0, 3, 0x23, hi, lo]) == Ok::<PublishV, CodecError>(PublishV { topic_alias: Some((hi * 256 + lo) as u16), ..spec_publish_bare() }),
{
    lemma_publish_header_flags(0, 0, 0);
    lemma_parse_u16_property_bytes(0x23, hi, lo);
    lemma_publish_one_property(seq![0x23u8, hi, lo]);
    assert(seq![0x30u8, 6, 0, 0, 3, 0x23, hi, lo] =~= seq![0x30u8, 6, 0, 0, 3] + seq![0x23u8, hi, lo]);
}

/// A PUBLISH packet whose only property sets `message_expiry_interval`.
proof fn lemma_publish_message_expiry_interval_property(b0: u8, b1: u8, b2: u8, b3: u8)
    ensures
        spec_decode_publish(seq![0x30u8, 8, 0, 0, 5, 0x02, b0, b1, b2, b3]) == Ok::<PublishV, CodecError>(PublishV { message_expiry_interval: Some((b0 * 0x1000000 + b1 * 0x10000 + b2 * 256 + b3) as u32), ..spec_publish_bare() }),
{
    lemma_publish_header_flags(0, 0, 0);
    lemma_parse_u32_property_bytes(0x02, b0, b1, b2, b3);
    lemma_publish_one_property(seq![0x02u8, b0, b1, b2, b3]);
    assert(seq![0x30u8, 8, 0, 0, 5, 0x02, b0, b1, b2, b3] =~= seq![0x30u8, 8, 0, 0, 5] + seq![0x02u8, b0, b1, b2, b3]);
}

/// A PUBLISH packet whose only property sets `correlation_data`.
proof fn lemma_publish_correlation_data_property(c: u8)
    requires
        c < 0x80,
    ensures
        spec_decode_publish(seq![0x30u8, 7, 0, 0, 4, 0x09, 0, 1, c]) == Ok::<PublishV, CodecError>(PublishV { correlation_data: Some(seq![c]), ..spec_publish_bare() }),
{
    lemma_publish_header_flags(0, 0, 0);
    lemma_parse_one_byte_data_property_bytes(0x09, c);
    lemma_publish_one_property(seq![0x09u8, 0, 1, c]);
    assert(seq![0x30u8, 7, 0, 0, 4, 0x09, 0, 1, c] =~= seq![0x30u8, 7, 0, 0, 4] + seq![0x09u8, 0, 1, c]);
}

/// A PUBLISH packet whose only property sets `response_topic`.
proof fn lemma_publish_response_topic_property(c: u8)
    requires
        c < 0x80,
    ensures
        spec_decode_publish(seq![0x30u8, 7, 0, 0, 4, 0x08, 0, 1, c]) == Ok::<PublishV, CodecError>(PublishV { response_topic: Some(seq![c]), ..spec_publish_bare() }),
{
    lemma_publish_header_flags(0, 0, 0);
    lemma_parse_one_byte_data_property_bytes(0x08, c);
    lemma_publish_one_property(seq![0x08u8, 0, 1, c]);
    assert(seq![0x30u8, 7, 0, 0, 4, 0x08, 0, 1, c] =~= seq![0x30u8, 7, 0, 0, 4] + seq![0x08u8, 0, 1, c]);
}

/// A PUBLISH packet whose only property sets `content_type`.
proof fn lemma_publish_content_type_property(c: u8)
    requires
        c < 0x80,
    ensures
        spec_decode_publish(seq![0x30u8, 7, 0, 0, 4, 0x03, 0, 1, c]) == Ok::<PublishV, CodecError>(PublishV { content_type: Some(seq![c]), ..spec_publish_bare() }),
{
    lemma_publish_header_flags(0, 0, 0);
    lemma_parse_one_byte_data_property_bytes(0x03, c);
    lemma_publish_one_property(seq![0x03u8, 0, 1, c]);
    assert(seq![0x30u8, 7, 0, 0, 4, 0x03, 0, 1, c] =~= seq![0x30u8, 7, 0, 0, 4] + seq![0x03u8, 0, 1, c]);
}

/// A PUBLISH packet whose only property sets `user_property`.
proof fn lemma_publish_user_property_property()
    ensures
        spec_decode_publish(seq![0x30u8, 8, 0, 0, 5, 0x26, 0, 0, 0, 0]) == Ok::<PublishV, CodecError>(PublishV { user_property: seq![(Seq::empty(), Seq::empty())], ..spec_publish_bare() }),
{
    lemma_publish_header_flags(0, 0, 0);
    lemma_parse_empty_user_property_bytes();
    lemma_publish_one_property(seq![0x26u8, 0, 0, 0, 0]);
    assert(seq![0x30u8, 8, 0, 0, 5, 0x26, 0, 0, 0, 0] =~= seq![0x30u8, 8, 0, 0, 5] + seq![0x26u8, 0, 0, 0, 0]);
    assert(Seq::<(Seq<u8>, Seq<u8>)>::empty().push((Seq::<u8>::empty(), Seq::<u8>::empty())) =~= seq![
        (Seq::<u8>::empty(), Seq::<u8>::empty()),
    ]);
}

/// A Subscription Identifier property (0x0b) of a PUBLISH packet sets the
/// subscription identifier, and nothing else.
pub proof fn lemma_publish_subscription_identifier_property(v: u8)
    requires
        1 <= v < 128,
    ensures
        spec_decode_publish(seq![0x30u8, 5, 0, 0, 2, 0x0b, v]) is Ok,
        spec_decode_publish(seq![0x30u8, 5, 0, 0, 2, 0x0b, v])->Ok_0 == (PublishV {
            subscription_identifier: spec_decode_publish(seq![0x30u8, 5, 0, 0, 2, 0x0b, v])->Ok_0.subscription_identifier,
            ..spec_publish_bare()
        }),
        spec_decode_publish(seq![0x30u8, 5, 0, 0, 2, 0x0b, v])->Ok_0.subscription_identifier is Some,
        spec_decode_publish(seq![0x30u8, 5, 0, 0, 2, 0x0b, v])->Ok_0.subscription_identifier->Some_0.spec_value() == v,
{
    lemma_publish_header_flags(0, 0, 0);
    lemma_parse_subscription_identifier_bytes(v);
    lemma_publish_one_property(seq![0x0bu8, v]);
    assert(seq![0x30u8, 5, 0, 0, 2, 0x0b, v] =~= seq![0x30u8, 5, 0, 0, 2] + seq![0x0bu8, v]);
}

/// Each property of a received PUBLISH packet sets its own field and
/// nothing else: Payload Format Indicator (0x01), Topic Alias (0x23, not
/// zero), Message Expiry Interval (0x02), Correlation Data (0x09), Response
/// Topic (0x08) and Content Type (0x03), here one ASCII byte each, and a
/// User Property (0x26) is added to the user properties.
pub proof fn lemma_publish_properties(b: u8, hi: u8, lo: u8, b0: u8, b1: u8, b2: u8, b3: u8, c: u8)
    ensures
        (b <= 1) ==> spec_decode_publish(seq![0x30u8, 5, 0, 0, 2, 0x01, b]) == Ok::<PublishV, CodecError>(PublishV { payload_format_indicator: Some(b == 1), ..spec_publish_bare() }),
        (hi * 256 + lo != 0) ==> spec_decode_publish(seq![0x30u8, 6, 0, 0, 3, 0x23, hi, lo]) == Ok::<PublishV, CodecError>(PublishV { topic_alias: Some((hi * 256 + lo) as u16), ..spec_publish_bare() }),
        spec_decode_publish(seq![0x30u8, 8, 0, 0, 5, 0x02, b0, b1, b2, b3]) == Ok::<PublishV, CodecError>(PublishV { message_expiry_interval: Some((b0 * 0x1000000 + b1 * 0x10000 + b2 * 256 + b3) as u32), ..spec_publish_bare() }),
        (c < 0x80) ==> spec_decode_publish(seq![0x30u8, 7, 0, 0, 4, 0x09, 0, 1, c]) == Ok::<PublishV, CodecError>(PublishV { correlation_data: Some(seq![c]), ..spec_publish_bare() }),
        (c < 0x80) ==> spec_decode_publish(seq![0x30u8, 7, 0, 0, 4, 0x08, 0, 1, c]) == Ok::<PublishV, CodecError>(PublishV { response_topic: Some(seq![c]), ..spec_publish_bare() }),
        (c < 0x80) ==> spec_decode_publish(seq![0x30u8, 7, 0, 0, 4, 0x03, 0, 1, c]) == Ok::<PublishV, CodecError>(PublishV { content_type: Some(seq![c]), ..spec_publish_bare() }),
        spec_decode_publish(seq![0x30u8, 8, 0, 0, 5, 0x26, 0, 0, 0, 0]) == Ok::<PublishV, CodecError>(PublishV { user_property: seq![(Seq::empty(), Seq::empty())], ..spec_publish_bare() }),
{
    if b <= 1 {
        lemma_publish_payload_format_indicator_property(b);
    }
    if hi * 256 + lo != 0 {
        lemma_publish_topic_alias_property(hi, lo);
    }
    lemma_publish_message_expiry_interval_property(b0, b1, b2, b3);
    if c < 0x80 {
        lemma_publish_correlation_data_property(c);
    }
    if c < 0x80 {
        lemma_publish_response_topic_property(c);
    }
    if c < 0x80 {
        lemma_publish_content_type_property(c);
    }
    lemma_publish_user_property_property();
}

} // verus!
