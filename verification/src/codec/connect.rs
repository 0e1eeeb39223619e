//! The CONNECT packet: the client's request to open a session.
use crate::buffer::{bytes_mut_view, put_slice, put_u16, put_u8};
use crate::types::base_types::{
    spec_length_prefixed, spec_qos_byte, spec_u16_be, spec_u32_be, var_size_int_from_usize, BinaryRef, NonZero, QoS,
    UTF8StringPairRef, UTF8StringRef, VarSizeInt,
};
use crate::types::error::{CodecError, UnexpectedProperty};
use crate::types::properties::{
    encode_opt_bin_property, encode_opt_bool_property, encode_opt_str_property, encode_opt_u16_property,
    encode_opt_u32_property, encode_user_properties, lemma_user_props_prefix, lemma_var_int_encoding_len,
    opt_bin_prop_len, opt_str_prop_len, spec_builder_pairs, spec_opt_bin_prop, spec_opt_bool_prop,
    spec_opt_str_prop, spec_opt_u16_prop, spec_opt_u32_prop, spec_user_props, spec_var_int_encoding,
    spec_var_int_len, user_properties_len, AUTHENTICATION_DATA, AUTHENTICATION_METHOD, CONTENT_TYPE,
    CORRELATION_DATA, MAXIMUM_PACKET_SIZE, MESSAGE_EXPIRY_INTERVAL, PAYLOAD_FORMAT_INDICATOR,
    RECEIVE_MAXIMUM, REQUEST_PROBLEM_INFORMATION, REQUEST_RESPONSE_INFORMATION, RESPONSE_TOPIC,
    SESSION_EXPIRY_INTERVAL, TOPIC_ALIAS_MAXIMUM, WILL_DELAY_INTERVAL,
};
use crate::codec::publish::opt_nz_u16;
use crate::types::size::{
    capped_add, capped_opt_bin, capped_opt_bin_prop, capped_opt_str, capped_opt_str_prop, capped_plus,
    capped_user_props, remaining_fits, spec_capped, SIZE_LIMIT,
};
use bytes::BytesMut;
use vstd::prelude::*;
use vstd::string::StringSliceAdditionalSpecFns;

verus! {

/// The first byte of a CONNECT packet.
pub const CONNECT_FIXED_HDR: u8 = 0x10;

/// The protocol version this library speaks.
pub const PROTOCOL_VERSION: u8 = 5;

/// The protocol name with its length: "MQTT".
pub open spec fn spec_protocol_name() -> Seq<u8> {
    seq![0u8, 4u8, 77u8, 81u8, 84u8, 84u8]
}

/// The value held by an optional non-zero integer.
pub open spec fn opt_nz_u32(o: Option<NonZero<u32>>) -> Option<u32> {
    match o {
        Some(v) => Some(v.spec_get()),
        None => None,
    }
}

/// CONNECT packet to be sent.
#[derive(Debug)]
pub struct ConnectTx<'a> {
    /// Keep alive interval in seconds.
    pub keep_alive: u16,
    /// Session expiry interval in seconds.
    pub session_expiry_interval: Option<u32>,
    /// QoS>0 publications the client handles at once.
    pub receive_maximum: Option<NonZero<u16>>,
    /// Largest packet the client accepts.
    pub maximum_packet_size: Option<NonZero<u32>>,
    /// Highest topic alias the client accepts.
    pub topic_alias_maximum: Option<u16>,
    /// Whether the server should return response information.
    pub request_response_information: Option<bool>,
    /// Whether the server may return reason strings and user properties.
    pub request_problem_information: Option<bool>,
    /// Name of the authentication method.
    pub authentication_method: Option<UTF8StringRef<'a>>,
    /// Authentication data.
    pub authentication_data: Option<BinaryRef<'a>>,
    /// User properties, in order.
    pub user_property: Vec<UTF8StringPairRef<'a>>,
    /// QoS of the will message.
    pub will_qos: QoS,
    /// Whether the will message is retained.
    pub will_retain: bool,
    /// Whether the session starts anew.
    pub clean_start: bool,
    /// Client identifier.
    pub client_identifier: UTF8StringRef<'a>,
    /// Delay before the will message is published, in seconds.
    pub will_delay_interval: Option<u32>,
    /// Whether the will payload is UTF-8 text.
    pub will_payload_format_indicator: Option<bool>,
    /// Expiry interval of the will message, in seconds.
    pub will_message_expiry_interval: Option<u32>,
    /// Content type of the will message.
    pub will_content_type: Option<UTF8StringRef<'a>>,
    /// Response topic of the will message.
    pub will_response_topic: Option<UTF8StringRef<'a>>,
    /// Correlation data of the will message.
    pub will_correlation_data: Option<BinaryRef<'a>>,
    /// User properties of the will message, in order.
    pub will_user_property: Vec<UTF8StringPairRef<'a>>,
    /// Topic of the will message.
    pub will_topic: Option<UTF8StringRef<'a>>,
    /// Payload of the will message.
    pub will_payload: Option<BinaryRef<'a>>,
    /// User name.
    pub username: Option<UTF8StringRef<'a>>,
    /// Password.
    pub password: Option<BinaryRef<'a>>,
}

/// A will message is sent when both its topic and its payload are set.
pub open spec fn spec_will_flag(tx: ConnectTx) -> bool {
    tx.will_topic is Some && tx.will_payload is Some
}

/// The connect flags byte: user name in bit 7, password in bit 6, will
/// retain in bit 5, will QoS in bits 3-4, will flag in bit 2 and clean
/// start in bit 1. Without a will message, will retain and will QoS are 0.
pub open spec fn spec_connect_flags(tx: ConnectTx) -> u8 {
    ((if tx.username is Some { 128int } else { 0int }) + (if tx.password is Some { 64int } else { 0int }) + (
    if spec_will_flag(tx) && tx.will_retain {
        32int
    } else {
        0int
    }) + (if spec_will_flag(tx) { 8 * spec_qos_byte(tx.will_qos) } else { 0int }) + (if spec_will_flag(tx) {
        4int
    } else {
        0int
    }) + (if tx.clean_start {
        2int
    } else {
        0int
    })) as u8
}

/// The connect flags byte follows MQTT 5: User Name Flag in bit 7, Password
/// Flag in bit 6, Will Retain in bit 5, Will QoS in bits 3-4, Will Flag in
/// bit 2, Clean Start in bit 1 and the reserved bit 0 clear; without a will
/// message the will retain and will QoS bits are clear.
pub proof fn lemma_connect_flags_bits(tx: ConnectTx)
    ensures
        (spec_connect_flags(tx) & 0x80 != 0) == (tx.username is Some),
        (spec_connect_flags(tx) & 0x40 != 0) == (tx.password is Some),
        (spec_connect_flags(tx) & 0x20 != 0) == (spec_will_flag(tx) && tx.will_retain),
        (spec_connect_flags(tx) >> 3) & 3 == (if spec_will_flag(tx) { spec_qos_byte(tx.will_qos) } else { 0 }),
        (spec_connect_flags(tx) & 0x04 != 0) == spec_will_flag(tx),
        (spec_connect_flags(tx) & 0x02 != 0) == tx.clean_start,
        spec_connect_flags(tx) & 0x01 == 0,
{
    let u: u8 = if tx.username is Some { 1 } else { 0 };
    let p: u8 = if tx.password is Some { 1 } else { 0 };
    let w: u8 = if spec_will_flag(tx) { 1 } else { 0 };
    let wr: u8 = if spec_will_flag(tx) && tx.will_retain { 1 } else { 0 };
    let q: u8 = if spec_will_flag(tx) { spec_qos_byte(tx.will_qos) } else { 0 };
    let cs: u8 = if tx.clean_start { 1 } else { 0 };
    let f = spec_connect_flags(tx);
    assert(f == (128 * u + 64 * p + 32 * wr + 8 * q + 4 * w + 2 * cs) as u8);
    assert((f & 0x80 != 0) == (u == 1) && (f & 0x40 != 0) == (p == 1) && (f & 0x20 != 0) == (wr == 1) && (f >> 3)
        & 3 == q && (f & 0x04 != 0) == (w == 1) && (f & 0x02 != 0) == (cs == 1) && f & 0x01 == 0) by (bit_vector)
        requires
            u <= 1,
            p <= 1,
            wr <= 1,
            q <= 2,
            w <= 1,
            cs <= 1,
            f == (128 * u + 64 * p + 32 * wr + 8 * q + 4 * w + 2 * cs) as u8,
    ;
}

/// The properties of a CONNECT packet in the order they are written.
#[verifier::opaque]
pub open spec fn spec_connect_props(tx: ConnectTx) -> Seq<u8> {
    spec_opt_u32_prop(SESSION_EXPIRY_INTERVAL, tx.session_expiry_interval) + spec_opt_u16_prop(
        RECEIVE_MAXIMUM,
        opt_nz_u16(tx.receive_maximum),
    ) + spec_opt_u32_prop(MAXIMUM_PACKET_SIZE, opt_nz_u32(tx.maximum_packet_size)) + spec_opt_u16_prop(
        TOPIC_ALIAS_MAXIMUM,
        tx.topic_alias_maximum,
    ) + spec_opt_bool_prop(REQUEST_RESPONSE_INFORMATION, tx.request_response_information)
        + spec_opt_bool_prop(REQUEST_PROBLEM_INFORMATION, tx.request_problem_information)
        + spec_opt_str_prop(AUTHENTICATION_METHOD, tx.authentication_method) + spec_opt_bin_prop(
        AUTHENTICATION_DATA,
        tx.authentication_data,
    ) + spec_user_props(tx.user_property@)
}

/// The properties of the will message in the order they are written.
#[verifier::opaque]
pub open spec fn spec_will_props(tx: ConnectTx) -> Seq<u8> {
    spec_opt_u32_prop(WILL_DELAY_INTERVAL, tx.will_delay_interval) + spec_opt_bool_prop(
        PAYLOAD_FORMAT_INDICATOR,
        tx.will_payload_format_indicator,
    ) + spec_opt_u32_prop(MESSAGE_EXPIRY_INTERVAL, tx.will_message_expiry_interval) + spec_opt_str_prop(
        CONTENT_TYPE,
        tx.will_content_type,
    ) + spec_opt_str_prop(RESPONSE_TOPIC, tx.will_response_topic) + spec_opt_bin_prop(
        CORRELATION_DATA,
        tx.will_correlation_data,
    ) + spec_user_props(tx.will_user_property@)
}

/// A CONNECT packet that sets none of the properties of its variable
/// header.
pub open spec fn spec_connect_no_props(tx: ConnectTx) -> bool {
    &&& tx.session_expiry_interval is None
    &&& tx.receive_maximum is None
    &&& tx.maximum_packet_size is None
    &&& tx.topic_alias_maximum is None
    &&& tx.request_response_information is None
    &&& tx.request_problem_information is None
    &&& tx.authentication_method is None
    &&& tx.authentication_data is None
    &&& tx.user_property@.len() == 0
}

/// A CONNECT packet whose will message sets none of its properties.
pub open spec fn spec_connect_no_will_props(tx: ConnectTx) -> bool {
    &&& tx.will_delay_interval is None
    &&& tx.will_payload_format_indicator is None
    &&& tx.will_message_expiry_interval is None
    &&& tx.will_content_type is None
    &&& tx.will_response_topic is None
    &&& tx.will_correlation_data is None
    &&& tx.will_user_property@.len() == 0
}

/// Each property of a CONNECT packet is written under its MQTT 5
/// identifier: Session Expiry Interval 0x11 and Maximum Packet Size 0x27 as
/// four bytes, Receive Maximum 0x21 and Topic Alias Maximum 0x22 as two
/// bytes, Request Response Information 0x19 and Request Problem
/// Information 0x17 as one byte, Authentication Method 0x15 and
/// Authentication Data 0x16 with their length; nothing is written for a
/// property that is not set.
pub proof fn lemma_connect_property_ids<'a>(
    tx: ConnectTx<'a>,
    v32: u32,
    v16: u16,
    nz16: NonZero<u16>,
    nz32: NonZero<u32>,
    b: bool,
    m: UTF8StringRef<'a>,
    d: BinaryRef<'a>,
)
    requires
        spec_connect_no_props(tx),
    ensures
        spec_connect_props(tx) == Seq::<u8>::empty(),
        spec_connect_props(ConnectTx { session_expiry_interval: Some(v32), ..tx }) == seq![0x11u8] + spec_u32_be(v32),
        spec_connect_props(ConnectTx { receive_maximum: Some(nz16), ..tx }) == seq![0x21u8] + spec_u16_be(nz16.spec_get()),
        spec_connect_props(ConnectTx { maximum_packet_size: Some(nz32), ..tx }) == seq![0x27u8] + spec_u32_be(nz32.spec_get()),
        spec_connect_props(ConnectTx { topic_alias_maximum: Some(v16), ..tx }) == seq![0x22u8] + spec_u16_be(v16),
        spec_connect_props(ConnectTx { request_response_information: Some(b), ..tx }) == seq![
            0x19u8,
            if b { 1u8 } else { 0u8 },
        ],
        spec_connect_props(ConnectTx { request_problem_information: Some(b), ..tx }) == seq![
            0x17u8,
            if b { 1u8 } else { 0u8 },
        ],
        spec_connect_props(ConnectTx { authentication_method: Some(m), ..tx }) == seq![0x15u8] + spec_length_prefixed(
            m.0.spec_bytes(),
        ),
        spec_connect_props(ConnectTx { authentication_data: Some(d), ..tx }) == seq![0x16u8] + spec_length_prefixed(d.0@),
{
    reveal(spec_connect_props);
    assert(spec_user_props(tx.user_property@) == Seq::<u8>::empty());
    assert(spec_connect_props(tx) =~= Seq::<u8>::empty());
    assert(spec_connect_props(ConnectTx { session_expiry_interval: Some(v32), ..tx }) =~= seq![0x11u8] + spec_u32_be(v32));
    assert(spec_connect_props(ConnectTx { receive_maximum: Some(nz16), ..tx }) =~= seq![0x21u8] + spec_u16_be(nz16.spec_get()));
    assert(spec_connect_props(ConnectTx { maximum_packet_size: Some(nz32), ..tx }) =~= seq![0x27u8] + spec_u32_be(nz32.spec_get()));
    assert(spec_connect_props(ConnectTx { topic_alias_maximum: Some(v16), ..tx }) =~= seq![0x22u8] + spec_u16_be(v16));
    assert(spec_connect_props(ConnectTx { request_response_information: Some(b), ..tx }) =~= seq![
        0x19u8,
        if b { 1u8 } else { 0u8 },
    ]);
    assert(spec_connect_props(ConnectTx { request_problem_information: Some(b), ..tx }) =~= seq![
        0x17u8,
        if b { 1u8 } else { 0u8 },
    ]);
    assert(spec_connect_props(ConnectTx { authentication_method: Some(m), ..tx }) =~= seq![0x15u8] + spec_length_prefixed(
        m.0.spec_bytes(),
    ));
    assert(spec_connect_props(ConnectTx { authentication_data: Some(d), ..tx }) =~= seq![0x16u8] + spec_length_prefixed(d.0@));
}

/// Each property of the will message of a CONNECT packet is written under
/// its MQTT 5 identifier: Will Delay Interval 0x18 and Message Expiry
/// Interval 0x02 as four bytes, Payload Format Indicator 0x01 as one byte,
/// Content Type 0x03, Response Topic 0x08 and Correlation Data 0x09 with
/// their length; nothing is written for a property that is not set.
pub proof fn lemma_connect_will_property_ids<'a>(tx: ConnectTx<'a>, v32: u32, b: bool, t: UTF8StringRef<'a>, d: BinaryRef<'a>)
    requires
        spec_connect_no_will_props(tx),
    ensures
        spec_will_props(tx) == Seq::<u8>::empty(),
        spec_will_props(ConnectTx { will_delay_interval: Some(v32), ..tx }) == seq![0x18u8] + spec_u32_be(v32),
        spec_will_props(ConnectTx { will_payload_format_indicator: Some(b), ..tx }) == seq![
            0x01u8,
            if b { 1u8 } else { 0u8 },
        ],
        spec_will_props(ConnectTx { will_message_expiry_interval: Some(v32), ..tx }) == seq![0x02u8] + spec_u32_be(v32),
        spec_will_props(ConnectTx { will_content_type: Some(t), ..tx }) == seq![0x03u8] + spec_length_prefixed(t.0.spec_bytes()),
        spec_will_props(ConnectTx { will_response_topic: Some(t), ..tx }) == seq![0x08u8] + spec_length_prefixed(t.0.spec_bytes()),
        spec_will_props(ConnectTx { will_correlation_data: Some(d), ..tx }) == seq![0x09u8] + spec_length_prefixed(d.0@),
{
    reveal(spec_will_props);
    assert(spec_user_props(tx.will_user_property@) == Seq::<u8>::empty());
    assert(spec_will_props(tx) =~= Seq::<u8>::empty());
    assert(spec_will_props(ConnectTx { will_delay_interval: Some(v32), ..tx }) =~= seq![0x18u8] + spec_u32_be(v32));
    assert(spec_will_props(ConnectTx { will_payload_format_indicator: Some(b), ..tx }) =~= seq![
        0x01u8,
        if b { 1u8 } else { 0u8 },
    ]);
    assert(spec_will_props(ConnectTx { will_message_expiry_interval: Some(v32), ..tx }) =~= seq![0x02u8] + spec_u32_be(v32));
    assert(spec_will_props(ConnectTx { will_content_type: Some(t), ..tx }) =~= seq![0x03u8] + spec_length_prefixed(t.0.spec_bytes()));
    assert(spec_will_props(ConnectTx { will_response_topic: Some(t), ..tx }) =~= seq![0x08u8] + spec_length_prefixed(t.0.spec_bytes()));
    assert(spec_will_props(ConnectTx { will_correlation_data: Some(d), ..tx }) =~= seq![0x09u8] + spec_length_prefixed(d.0@));
}

/// Optional text with its length: nothing when absent.
pub open spec fn spec_opt_str(o: Option<UTF8StringRef>) -> Seq<u8> {
    match o {
        Some(s) => spec_length_prefixed(s.0.spec_bytes()),
        None => Seq::empty(),
    }
}

/// Optional binary data with its length: nothing when absent.
pub open spec fn spec_opt_bin(o: Option<BinaryRef>) -> Seq<u8> {
    match o {
        Some(b) => spec_length_prefixed(b.0@),
        None => Seq::empty(),
    }
}

/// The will part of the payload: will property length, will properties,
/// will topic and will payload; nothing without a will message.
pub open spec fn spec_will_section(tx: ConnectTx) -> Seq<u8> {
    if spec_will_flag(tx) {
        let wp = spec_will_props(tx);
        spec_var_int_encoding(wp.len()) + wp + spec_opt_str(tx.will_topic) + spec_opt_bin(tx.will_payload)
    } else {
        Seq::empty()
    }
}

/// The payload of a CONNECT packet: client identifier, the will part, user
/// name and password.
#[verifier::opaque]
pub open spec fn spec_connect_payload(tx: ConnectTx) -> Seq<u8> {
    spec_length_prefixed(tx.client_identifier.0.spec_bytes()) + spec_will_section(tx) + spec_opt_str(tx.username)
        + spec_opt_bin(tx.password)
}

/// The remaining length of a CONNECT packet.
pub open spec fn spec_connect_remaining_len(tx: ConnectTx) -> nat {
    let pl = spec_connect_props(tx).len();
    10 + spec_var_int_len(pl) + pl + spec_connect_payload(tx).len()
}

/// The fixed header, remaining length and variable header up to the
/// property length.
pub open spec fn spec_connect_header(tx: ConnectTx) -> Seq<u8> {
    seq![CONNECT_FIXED_HDR] + spec_var_int_encoding(spec_connect_remaining_len(tx)) + spec_protocol_name()
        + seq![PROTOCOL_VERSION, spec_connect_flags(tx)] + spec_u16_be(tx.keep_alive)
}

/// The bytes of a CONNECT packet.
pub open spec fn spec_connect_encoding(tx: ConnectTx) -> Seq<u8> {
    let props = spec_connect_props(tx);
    spec_connect_header(tx) + spec_var_int_encoding(props.len()) + props + spec_connect_payload(tx)
}

/// The sizes of a CONNECT packet fit a variable byte integer.
pub open spec fn spec_connect_fits(tx: ConnectTx) -> bool {
    &&& spec_connect_remaining_len(tx) <= VarSizeInt::MAX
    &&& spec_will_props(tx).len() <= VarSizeInt::MAX
}

impl<'a> ConnectTx<'a> {
    /// Whether a will message is sent.
    fn will_flag(&self) -> (r: bool)
        ensures
            r == spec_will_flag(*self),
    {
        self.will_topic.is_some() && self.will_payload.is_some()
    }

    /// The connect flags byte.
    fn payload_flags(&self) -> (r: u8)
        ensures
            r == spec_connect_flags(*self),
    {
        let u: u8 = if self.username.is_some() { 1 } else { 0 };
        let p: u8 = if self.password.is_some() { 1 } else { 0 };
        let will = self.will_flag();
        let wr: u8 = if will && self.will_retain { 1 } else { 0 };
        let q: u8 = if will { u8::from(self.will_qos) } else { 0 };
        let wf: u8 = if will { 1 } else { 0 };
        let cs: u8 = if self.clean_start { 1 } else { 0 };
        assert(((u << 7u8) | (p << 6u8) | (wr << 5u8) | (q << 3u8) | (wf << 2u8) | (cs << 1u8)) == 128 * u + 64
            * p + 32 * wr + 8 * q + 4 * wf + 2 * cs) by (bit_vector)
            requires
                u <= 1,
                p <= 1,
                wr <= 1,
                q <= 2,
                wf <= 1,
                cs <= 1,
        ;
        (u << 7u8) | (p << 6u8) | (wr << 5u8) | (q << 3u8) | (wf << 2u8) | (cs << 1u8)
    }

    /// Number of bytes of the properties.
    fn property_len(&self) -> (r: VarSizeInt)
        requires
            spec_connect_props(*self).len() <= VarSizeInt::MAX,
        ensures
            r.spec_value() == spec_connect_props(*self).len(),
            r.spec_encode() == spec_var_int_encoding(spec_connect_props(*self).len()),
            r.spec_len() == spec_var_int_len(spec_connect_props(*self).len()),
    {
        proof {
            reveal(spec_connect_props);
        }
        proof {
            lemma_user_props_prefix(self.user_property@, 0);
        }
        let sei: usize = if self.session_expiry_interval.is_some() { 5 } else { 0 };
        let rm: usize = if self.receive_maximum.is_some() { 3 } else { 0 };
        let mps: usize = if self.maximum_packet_size.is_some() { 5 } else { 0 };
        let tam: usize = if self.topic_alias_maximum.is_some() { 3 } else { 0 };
        let rri: usize = if self.request_response_information.is_some() { 2 } else { 0 };
        let rpi: usize = if self.request_problem_information.is_some() { 2 } else { 0 };
        let len = sei + rm + mps + tam + rri + rpi + opt_str_prop_len(AUTHENTICATION_METHOD, self.authentication_method)
            + opt_bin_prop_len(AUTHENTICATION_DATA, self.authentication_data) + user_properties_len(
            &self.user_property,
        );
        proof {
            lemma_var_int_encoding_len(spec_connect_props(*self).len());
        }
        var_size_int_from_usize(len)
    }

    /// Number of bytes of the will properties.
    fn will_property_len(&self) -> (r: VarSizeInt)
        requires
            spec_will_props(*self).len() <= VarSizeInt::MAX,
        ensures
            r.spec_value() == spec_will_props(*self).len(),
            r.spec_encode() == spec_var_int_encoding(spec_will_props(*self).len()),
            r.spec_len() == spec_var_int_len(spec_will_props(*self).len()),
    {
        proof {
            reveal(spec_will_props);
        }
        proof {
            lemma_user_props_prefix(self.will_user_property@, 0);
        }
        let wdi: usize = if self.will_delay_interval.is_some() { 5 } else { 0 };
        let pfi: usize = if self.will_payload_format_indicator.is_some() { 2 } else { 0 };
        let mei: usize = if self.will_message_expiry_interval.is_some() { 5 } else { 0 };
        let len = wdi + pfi + mei + opt_str_prop_len(CONTENT_TYPE, self.will_content_type) + opt_str_prop_len(
            RESPONSE_TOPIC,
            self.will_response_topic,
        ) + opt_bin_prop_len(CORRELATION_DATA, self.will_correlation_data) + user_properties_len(
            &self.will_user_property,
        );
        proof {
            lemma_var_int_encoding_len(spec_will_props(*self).len());
        }
        var_size_int_from_usize(len)
    }

    /// Number of bytes of the payload.
    fn payload_len(&self) -> (r: usize)
        requires
            spec_connect_fits(*self),
        ensures
            r == spec_connect_payload(*self).len(),
    {
        proof {
            reveal(spec_connect_payload);
        }
        proof {
            lemma_var_int_encoding_len(spec_will_props(*self).len());
        }
        let username: usize = match self.username {
            Some(s) => s.byte_len(),
            None => 0,
        };
        let password: usize = match self.password {
            Some(b) => b.byte_len(),
            None => 0,
        };
        let rest = self.client_identifier.byte_len() + username + password;
        if self.will_flag() {
            let will_properties_len = self.will_property_len();
            let will_topic: usize = match self.will_topic {
                Some(s) => s.byte_len(),
                None => 0,
            };
            let will_payload: usize = match self.will_payload {
                Some(b) => b.byte_len(),
                None => 0,
            };
            will_properties_len.len() + will_properties_len.value() as usize + rest + will_topic + will_payload
        } else {
            rest
        }
    }

    /// The remaining length of the packet.
    fn remaining_len(&self) -> (r: VarSizeInt)
        requires
            spec_connect_fits(*self),
        ensures
            r.spec_value() == spec_connect_remaining_len(*self),
            r.spec_encode() == spec_var_int_encoding(spec_connect_remaining_len(*self)),
            r.spec_len() == spec_var_int_len(spec_connect_remaining_len(*self)),
    {
        proof {
            lemma_var_int_encoding_len(spec_connect_remaining_len(*self));
            lemma_var_int_encoding_len(spec_connect_props(*self).len());
        }
        let property_len = self.property_len();
        var_size_int_from_usize(6 + 1 + 1 + 2 + property_len.len() + property_len.value() as usize + self.payload_len())
    }

    /// The bytes the properties take, capped.
    fn capped_props(&self) -> (r: u64)
        ensures
            r == spec_capped(spec_connect_props(*self).len() as int),
    {
        reveal(spec_connect_props);
        let sei: u64 = if self.session_expiry_interval.is_some() { 5 } else { 0 };
        let rm: u64 = if self.receive_maximum.is_some() { 3 } else { 0 };
        let mps: u64 = if self.maximum_packet_size.is_some() { 5 } else { 0 };
        let tam: u64 = if self.topic_alias_maximum.is_some() { 3 } else { 0 };
        let rri: u64 = if self.request_response_information.is_some() { 2 } else { 0 };
        let rpi: u64 = if self.request_problem_information.is_some() { 2 } else { 0 };
        let ghost fixed = spec_opt_u32_prop(SESSION_EXPIRY_INTERVAL, self.session_expiry_interval).len()
            + spec_opt_u16_prop(RECEIVE_MAXIMUM, opt_nz_u16(self.receive_maximum)).len() + spec_opt_u32_prop(
            MAXIMUM_PACKET_SIZE,
            opt_nz_u32(self.maximum_packet_size),
        ).len() + spec_opt_u16_prop(TOPIC_ALIAS_MAXIMUM, self.topic_alias_maximum).len() + spec_opt_bool_prop(
            REQUEST_RESPONSE_INFORMATION,
            self.request_response_information,
        ).len() + spec_opt_bool_prop(REQUEST_PROBLEM_INFORMATION, self.request_problem_information).len();
        assert(sei + rm + mps + tam + rri + rpi == fixed);
        let a = sei + rm + mps + tam + rri + rpi;
        let b = capped_add(a, capped_opt_str_prop(AUTHENTICATION_METHOD, self.authentication_method));
        let c = capped_add(b, capped_opt_bin_prop(AUTHENTICATION_DATA, self.authentication_data));
        capped_add(c, capped_user_props(&self.user_property))
    }

    /// The bytes the will properties take, capped.
    fn capped_will_props(&self) -> (r: u64)
        ensures
            r == spec_capped(spec_will_props(*self).len() as int),
    {
        reveal(spec_will_props);
        let wdi: u64 = if self.will_delay_interval.is_some() { 5 } else { 0 };
        let pfi: u64 = if self.will_payload_format_indicator.is_some() { 2 } else { 0 };
        let mei: u64 = if self.will_message_expiry_interval.is_some() { 5 } else { 0 };
        let ghost fixed = spec_opt_u32_prop(WILL_DELAY_INTERVAL, self.will_delay_interval).len()
            + spec_opt_bool_prop(PAYLOAD_FORMAT_INDICATOR, self.will_payload_format_indicator).len()
            + spec_opt_u32_prop(MESSAGE_EXPIRY_INTERVAL, self.will_message_expiry_interval).len();
        assert(wdi + pfi + mei == fixed);
        let a = wdi + pfi + mei;
        let b = capped_add(a, capped_opt_str_prop(CONTENT_TYPE, self.will_content_type));
        let c = capped_add(b, capped_opt_str_prop(RESPONSE_TOPIC, self.will_response_topic));
        let d = capped_add(c, capped_opt_bin_prop(CORRELATION_DATA, self.will_correlation_data));
        capped_add(d, capped_user_props(&self.will_user_property))
    }

    /// The bytes the will part of the payload takes, capped.
    fn capped_will_section(&self) -> (r: u64)
        requires
            spec_will_props(*self).len() <= VarSizeInt::MAX,
        ensures
            r == spec_capped(spec_will_section(*self).len() as int),
    {
        if !self.will_flag() {
            return 0;
        }
        let wp = self.capped_will_props();
        let vl = var_size_int_from_usize(wp as usize);
        proof {
            lemma_var_int_encoding_len(wp as nat);
        }
        let w1 = capped_add(vl.len() as u64, wp);
        let w2 = capped_add(w1, capped_opt_str(self.will_topic));
        capped_add(w2, capped_opt_bin(self.will_payload))
    }

    /// The bytes the payload takes, capped.
    fn capped_payload(&self) -> (r: u64)
        requires
            spec_will_props(*self).len() <= VarSizeInt::MAX,
        ensures
            r == spec_capped(spec_connect_payload(*self).len() as int),
    {
        reveal(spec_connect_payload);
        let will = self.capped_will_section();
        let p1 = capped_add(capped_plus(2, self.client_identifier.0.as_bytes().len()), will);
        let p2 = capped_add(p1, capped_opt_str(self.username));
        capped_add(p2, capped_opt_bin(self.password))
    }

    /// Whether the remaining length and the will property length fit a
    /// variable byte integer, which writing the packet needs.
    pub fn fits(&self) -> (r: bool)
        ensures
            r == spec_connect_fits(*self),
    {
        if self.capped_will_props() >= SIZE_LIMIT {
            return false;
        }
        remaining_fits(10, self.capped_props(), self.capped_payload())
    }

    /// Number of bytes of the whole packet.
    pub fn packet_len(&self) -> (r: usize)
        requires
            spec_connect_fits(*self),
        ensures
            r == spec_connect_encoding(*self).len(),
    {
        let remaining_len = self.remaining_len();
        proof {
            lemma_var_int_encoding_len(spec_connect_props(*self).len());
        }
        1 + remaining_len.len() + remaining_len.value() as usize
    }

    /// Writes the fixed header, remaining length and variable header up to
    /// the property length.
    #[verifier::rlimit(40)]
    fn encode_header(&self, buf: &mut BytesMut)
        requires
            spec_connect_fits(*self),
            bytes_mut_view(*old(buf)).len() + spec_connect_encoding(*self).len() <= isize::MAX,
        ensures
            bytes_mut_view(*final(buf)) == bytes_mut_view(*old(buf)) + spec_connect_header(*self),
    {
        let ghost b0 = bytes_mut_view(*buf);
        let remaining_len = self.remaining_len();
        proof {
            lemma_var_int_encoding_len(spec_connect_props(*self).len());
        }
        put_u8(buf, CONNECT_FIXED_HDR);
        remaining_len.encode(buf);
        put_u16(buf, 4);
        let name: [u8; 4] = [77, 81, 84, 84];
        put_slice(buf, name.as_slice());
        put_u8(buf, PROTOCOL_VERSION);
        put_u8(buf, self.payload_flags());
        put_u16(buf, self.keep_alive);
        assert(name@ =~= seq![77u8, 81u8, 84u8, 84u8]);
        assert(bytes_mut_view(*buf) =~= b0 + spec_connect_header(*self));
    }

    /// Writes the properties, in order.
    #[verifier::rlimit(40)]
    fn encode_properties(&self, buf: &mut BytesMut)
        requires
            bytes_mut_view(*old(buf)).len() + spec_connect_props(*self).len() <= isize::MAX,
        ensures
            bytes_mut_view(*final(buf)) == bytes_mut_view(*old(buf)) + spec_connect_props(*self),
    {
        proof {
            reveal(spec_connect_props);
        }
        let ghost b0 = bytes_mut_view(*buf);
        let rm = match self.receive_maximum {
            Some(v) => Some(v.get()),
            None => None,
        };
        let mps = match self.maximum_packet_size {
            Some(v) => Some(v.get()),
            None => None,
        };
        encode_opt_u32_property(SESSION_EXPIRY_INTERVAL, self.session_expiry_interval, buf);
        encode_opt_u16_property(RECEIVE_MAXIMUM, rm, buf);
        encode_opt_u32_property(MAXIMUM_PACKET_SIZE, mps, buf);
        encode_opt_u16_property(TOPIC_ALIAS_MAXIMUM, self.topic_alias_maximum, buf);
        encode_opt_bool_property(REQUEST_RESPONSE_INFORMATION, self.request_response_information, buf);
        encode_opt_bool_property(REQUEST_PROBLEM_INFORMATION, self.request_problem_information, buf);
        encode_opt_str_property(AUTHENTICATION_METHOD, self.authentication_method, buf);
        encode_opt_bin_property(AUTHENTICATION_DATA, self.authentication_data, buf);
        encode_user_properties(&self.user_property, buf);
        assert(bytes_mut_view(*buf) =~= b0 + spec_connect_props(*self));
    }

    /// Writes the will properties, in order.
    #[verifier::rlimit(40)]
    fn encode_will_properties(&self, buf: &mut BytesMut)
        requires
            bytes_mut_view(*old(buf)).len() + spec_will_props(*self).len() <= isize::MAX,
        ensures
            bytes_mut_view(*final(buf)) == bytes_mut_view(*old(buf)) + spec_will_props(*self),
    {
        proof {
            reveal(spec_will_props);
        }
        let ghost b0 = bytes_mut_view(*buf);
        encode_opt_u32_property(WILL_DELAY_INTERVAL, self.will_delay_interval, buf);
        encode_opt_bool_property(PAYLOAD_FORMAT_INDICATOR, self.will_payload_format_indicator, buf);
        encode_opt_u32_property(MESSAGE_EXPIRY_INTERVAL, self.will_message_expiry_interval, buf);
        encode_opt_str_property(CONTENT_TYPE, self.will_content_type, buf);
        encode_opt_str_property(RESPONSE_TOPIC, self.will_response_topic, buf);
        encode_opt_bin_property(CORRELATION_DATA, self.will_correlation_data, buf);
        encode_user_properties(&self.will_user_property, buf);
        assert(bytes_mut_view(*buf) =~= b0 + spec_will_props(*self));
    }

    /// Writes the payload.
    #[verifier::rlimit(40)]
    fn encode_payload(&self, buf: &mut BytesMut)
        requires
            spec_connect_fits(*self),
            bytes_mut_view(*old(buf)).len() + spec_connect_payload(*self).len() <= isize::MAX,
        ensures
            bytes_mut_view(*final(buf)) == bytes_mut_view(*old(buf)) + spec_connect_payload(*self),
    {
        proof {
            reveal(spec_connect_payload);
        }
        let ghost b0 = bytes_mut_view(*buf);
        self.client_identifier.encode(buf);
        let ghost b1 = bytes_mut_view(*buf);
        if self.will_flag() {
            let will_properties_len = self.will_property_len();
            proof {
                lemma_var_int_encoding_len(spec_will_props(*self).len());
            }
            will_properties_len.encode(buf);
            self.encode_will_properties(buf);
            if let Some(val) = self.will_topic {
                val.encode(buf);
            }
            if let Some(val) = self.will_payload {
                val.encode(buf);
            }
        }
        assert(bytes_mut_view(*buf) =~= b1 + spec_will_section(*self));
        let ghost b2 = bytes_mut_view(*buf);
        if let Some(val) = self.username {
            val.encode(buf);
        }
        assert(bytes_mut_view(*buf) =~= b2 + spec_opt_str(self.username));
        let ghost b3 = bytes_mut_view(*buf);
        if let Some(val) = self.password {
            val.encode(buf);
        }
        assert(bytes_mut_view(*buf) =~= b3 + spec_opt_bin(self.password));
        assert(bytes_mut_view(*buf) =~= b0 + spec_connect_payload(*self));
    }

    /// Writes the packet to `buf`.
    #[verifier::rlimit(40)]
    pub fn encode(&self, buf: &mut BytesMut)
        requires
            spec_connect_fits(*self),
            bytes_mut_view(*old(buf)).len() + spec_connect_encoding(*self).len() <= isize::MAX,
        ensures
            bytes_mut_view(*final(buf)) == bytes_mut_view(*old(buf)) + spec_connect_encoding(*self),
    {
        let ghost b0 = bytes_mut_view(*buf);
        proof {
            lemma_var_int_encoding_len(spec_connect_props(*self).len());
        }
        self.encode_header(buf);
        let property_len = self.property_len();
        property_len.encode(buf);
        self.encode_properties(buf);
        self.encode_payload(buf);
        assert(bytes_mut_view(*buf) =~= b0 + spec_connect_encoding(*self));
    }
}

/// Builder of a [ConnectTx]: each field stays unset until a setter is called.
#[derive(Debug)]
pub struct ConnectTxBuilder<'a> {
    /// The keep alive interval in seconds, if set.
    pub keep_alive: Option<u16>,
    /// The session expiry interval in seconds, if set.
    pub session_expiry_interval: Option<u32>,
    /// The receive maximum, if set.
    pub receive_maximum: Option<NonZero<u16>>,
    /// The maximum packet size, if set.
    pub maximum_packet_size: Option<NonZero<u32>>,
    /// The topic alias maximum, if set.
    pub topic_alias_maximum: Option<u16>,
    /// The request for response information, if set.
    pub request_response_information: Option<bool>,
    /// The request for problem information, if set.
    pub request_problem_information: Option<bool>,
    /// The authentication method, if set.
    pub authentication_method: Option<UTF8StringRef<'a>>,
    /// The authentication data, if set.
    pub authentication_data: Option<BinaryRef<'a>>,
    /// The user properties, if any was added.
    pub user_property: Option<Vec<UTF8StringPairRef<'a>>>,
    /// The QoS of the will message, if set.
    pub will_qos: Option<QoS>,
    /// The will retain flag, if set.
    pub will_retain: Option<bool>,
    /// The clean start flag, if set.
    pub clean_start: Option<bool>,
    /// The client identifier, if set.
    pub client_identifier: Option<UTF8StringRef<'a>>,
    /// The will delay interval in seconds, if set.
    pub will_delay_interval: Option<u32>,
    /// The will payload format indicator, if set.
    pub will_payload_format_indicator: Option<bool>,
    /// The will message expiry interval in seconds, if set.
    pub will_message_expiry_interval: Option<u32>,
    /// The will content type, if set.
    pub will_content_type: Option<UTF8StringRef<'a>>,
    /// The will response topic, if set.
    pub will_response_topic: Option<UTF8StringRef<'a>>,
    /// The will correlation data, if set.
    pub will_correlation_data: Option<BinaryRef<'a>>,
    /// The will user properties, if any was added.
    pub will_user_property: Option<Vec<UTF8StringPairRef<'a>>>,
    /// The will topic, if set.
    pub will_topic: Option<UTF8StringRef<'a>>,
    /// The will payload, if set.
    pub will_payload: Option<BinaryRef<'a>>,
    /// The user name, if set.
    pub username: Option<UTF8StringRef<'a>>,
    /// The password, if set.
    pub password: Option<BinaryRef<'a>>,
}

/// What a CONNECT builder refuses: authentication data without an
/// authentication method.
pub open spec fn spec_connect_build_error(b: ConnectTxBuilder) -> Option<CodecError> {
    if b.authentication_method is None && b.authentication_data is Some {
        Some(CodecError::UnexpectedProperty(UnexpectedProperty))
    } else {
        None
    }
}

/// The client identifier a builder holds, or the empty one, with which the
/// server assigns an identifier.
pub open spec fn spec_client_identifier<'a>(o: Option<UTF8StringRef<'a>>) -> UTF8StringRef<'a> {
    spec_or(o, UTF8StringRef(""))
}

/// The value a builder holds, or the default.
pub open spec fn spec_or<T>(o: Option<T>, d: T) -> T {
    match o {
        Some(v) => v,
        None => d,
    }
}

impl<'a> ConnectTxBuilder<'a> {
    /// A builder with nothing set.
    pub open spec fn spec_new() -> Self {
        ConnectTxBuilder {
            keep_alive: None,
            session_expiry_interval: None,
            receive_maximum: None,
            maximum_packet_size: None,
            topic_alias_maximum: None,
            request_response_information: None,
            request_problem_information: None,
            authentication_method: None,
            authentication_data: None,
            user_property: None,
            will_qos: None,
            will_retain: None,
            clean_start: None,
            client_identifier: None,
            will_delay_interval: None,
            will_payload_format_indicator: None,
            will_message_expiry_interval: None,
            will_content_type: None,
            will_response_topic: None,
            will_correlation_data: None,
            will_user_property: None,
            will_topic: None,
            will_payload: None,
            username: None,
            password: None,
        }
    }

    /// A builder with nothing set.
    pub fn new() -> (r: Self)
        ensures
            r == Self::spec_new(),
    {
        ConnectTxBuilder {
            keep_alive: None,
            session_expiry_interval: None,
            receive_maximum: None,
            maximum_packet_size: None,
            topic_alias_maximum: None,
            request_response_information: None,
            request_problem_information: None,
            authentication_method: None,
            authentication_data: None,
            user_property: None,
            will_qos: None,
            will_retain: None,
            clean_start: None,
            client_identifier: None,
            will_delay_interval: None,
            will_payload_format_indicator: None,
            will_message_expiry_interval: None,
            will_content_type: None,
            will_response_topic: None,
            will_correlation_data: None,
            will_user_property: None,
            will_topic: None,
            will_payload: None,
            username: None,
            password: None,
        }
    }

    /// Sets the keep alive interval in seconds.
    pub fn keep_alive(&mut self, val: u16)
        ensures
            *final(self) == (ConnectTxBuilder { keep_alive: Some(val), ..*old(self) }),
    {
        self.keep_alive = Some(val);
    }

    /// Sets the session expiry interval in seconds.
    pub fn session_expiry_interval(&mut self, val: u32)
        ensures
            *final(self) == (ConnectTxBuilder { session_expiry_interval: Some(val), ..*old(self) }),
    {
        self.session_expiry_interval = Some(val);
    }

    /// Sets the receive maximum.
    pub fn receive_maximum(&mut self, val: NonZero<u16>)
        ensures
            *final(self) == (ConnectTxBuilder { receive_maximum: Some(val), ..*old(self) }),
    {
        self.receive_maximum = Some(val);
    }

    /// Sets the maximum packet size.
    pub fn maximum_packet_size(&mut self, val: NonZero<u32>)
        ensures
            *final(self) == (ConnectTxBuilder { maximum_packet_size: Some(val), ..*old(self) }),
    {
        self.maximum_packet_size = Some(val);
    }

    /// Sets the topic alias maximum.
    pub fn topic_alias_maximum(&mut self, val: u16)
        ensures
            *final(self) == (ConnectTxBuilder { topic_alias_maximum: Some(val), ..*old(self) }),
    {
        self.topic_alias_maximum = Some(val);
    }

    /// Sets the request for response information.
    pub fn request_response_information(&mut self, val: bool)
        ensures
            *final(self) == (ConnectTxBuilder { request_response_information: Some(val), ..*old(self) }),
    {
        self.request_response_information = Some(val);
    }

    /// Sets the request for problem information.
    pub fn request_problem_information(&mut self, val: bool)
        ensures
            *final(self) == (ConnectTxBuilder { request_problem_information: Some(val), ..*old(self) }),
    {
        self.request_problem_information = Some(val);
    }

    /// Sets the authentication method.
    pub fn authentication_method(&mut self, val: UTF8StringRef<'a>)
        ensures
            *final(self) == (ConnectTxBuilder { authentication_method: Some(val), ..*old(self) }),
    {
        self.authentication_method = Some(val);
    }

    /// Sets the authentication data.
    pub fn authentication_data(&mut self, val: BinaryRef<'a>)
        ensures
            *final(self) == (ConnectTxBuilder { authentication_data: Some(val), ..*old(self) }),
    {
        self.authentication_data = Some(val);
    }

    /// Adds one of the user properties after those added before.
    pub fn user_property(&mut self, val: UTF8StringPairRef<'a>)
        ensures
            final(self).user_property is Some,
            spec_builder_pairs(final(self).user_property) == spec_builder_pairs(old(self).user_property).push(val),
            *final(self) == (ConnectTxBuilder { user_property: final(self).user_property, ..*old(self) }),
    {
        let mut v = match self.user_property.take() {
            Some(v) => v,
            None => Vec::new(),
        };
        v.push(val);
        self.user_property = Some(v);
    }

    /// Sets the QoS of the will message.
    pub fn will_qos(&mut self, val: QoS)
        ensures
            *final(self) == (ConnectTxBuilder { will_qos: Some(val), ..*old(self) }),
    {
        self.will_qos = Some(val);
    }

    /// Sets the will retain flag.
    pub fn will_retain(&mut self, val: bool)
        ensures
            *final(self) == (ConnectTxBuilder { will_retain: Some(val), ..*old(self) }),
    {
        self.will_retain = Some(val);
    }

    /// Sets the clean start flag.
    pub fn clean_start(&mut self, val: bool)
        ensures
            *final(self) == (ConnectTxBuilder { clean_start: Some(val), ..*old(self) }),
    {
        self.clean_start = Some(val);
    }

    /// Sets the client identifier.
    pub fn client_identifier(&mut self, val: UTF8StringRef<'a>)
        ensures
            *final(self) == (ConnectTxBuilder { client_identifier: Some(val), ..*old(self) }),
    {
        self.client_identifier = Some(val);
    }

    /// Sets the will delay interval in seconds.
    pub fn will_delay_interval(&mut self, val: u32)
        ensures
            *final(self) == (ConnectTxBuilder { will_delay_interval: Some(val), ..*old(self) }),
    {
        self.will_delay_interval = Some(val);
    }

    /// Sets the will payload format indicator.
    pub fn will_payload_format_indicator(&mut self, val: bool)
        ensures
            *final(self) == (ConnectTxBuilder { will_payload_format_indicator: Some(val), ..*old(self) }),
    {
        self.will_payload_format_indicator = Some(val);
    }

    /// Sets the will message expiry interval in seconds.
    pub fn will_message_expiry_interval(&mut self, val: u32)
        ensures
            *final(self) == (ConnectTxBuilder { will_message_expiry_interval: Some(val), ..*old(self) }),
    {
        self.will_message_expiry_interval = Some(val);
    }

    /// Sets the will content type.
    pub fn will_content_type(&mut self, val: UTF8StringRef<'a>)
        ensures
            *final(self) == (ConnectTxBuilder { will_content_type: Some(val), ..*old(self) }),
    {
        self.will_content_type = Some(val);
    }

    /// Sets the will response topic.
    pub fn will_response_topic(&mut self, val: UTF8StringRef<'a>)
        ensures
            *final(self) == (ConnectTxBuilder { will_response_topic: Some(val), ..*old(self) }),
    {
        self.will_response_topic = Some(val);
    }

    /// Sets the will correlation data.
    pub fn will_correlation_data(&mut self, val: BinaryRef<'a>)
        ensures
            *final(self) == (ConnectTxBuilder { will_correlation_data: Some(val), ..*old(self) }),
    {
        self.will_correlation_data = Some(val);
    }

    /// Adds one of the will user properties after those added before.
    pub fn will_user_property(&mut self, val: UTF8StringPairRef<'a>)
        ensures
            final(self).will_user_property is Some,
            spec_builder_pairs(final(self).will_user_property) == spec_builder_pairs(old(self).will_user_property).push(val),
            *final(self) == (ConnectTxBuilder { will_user_property: final(self).will_user_property, ..*old(self) }),
    {
        let mut v = match self.will_user_property.take() {
            Some(v) => v,
            None => Vec::new(),
        };
        v.push(val);
        self.will_user_property = Some(v);
    }

    /// Sets the will topic.
    pub fn will_topic(&mut self, val: UTF8StringRef<'a>)
        ensures
            *final(self) == (ConnectTxBuilder { will_topic: Some(val), ..*old(self) }),
    {
        self.will_topic = Some(val);
    }

    /// Sets the will payload.
    pub fn will_payload(&mut self, val: BinaryRef<'a>)
        ensures
            *final(self) == (ConnectTxBuilder { will_payload: Some(val), ..*old(self) }),
    {
        self.will_payload = Some(val);
    }

    /// Sets the user name.
    pub fn username(&mut self, val: UTF8StringRef<'a>)
        ensures
            *final(self) == (ConnectTxBuilder { username: Some(val), ..*old(self) }),
    {
        self.username = Some(val);
    }

    /// Sets the password.
    pub fn password(&mut self, val: BinaryRef<'a>)
        ensures
            *final(self) == (ConnectTxBuilder { password: Some(val), ..*old(self) }),
    {
        self.password = Some(val);
    }

    /// Builds the packet: unset fields take their defaults, the client
    /// identifier the empty one; authentication data needs an authentication
    /// method.
    pub fn build(self) -> (r: Result<ConnectTx<'a>, CodecError>)
        ensures
            match spec_connect_build_error(self) {
                Some(e) => r == Err::<ConnectTx<'a>, CodecError>(e),
                None => r matches Ok(tx)
                    && tx.keep_alive == spec_or(self.keep_alive, 0u16)
                    && tx.session_expiry_interval == self.session_expiry_interval
                    && tx.receive_maximum == self.receive_maximum
                    && tx.maximum_packet_size == self.maximum_packet_size
                    && tx.topic_alias_maximum == self.topic_alias_maximum
                    && tx.request_response_information == self.request_response_information
                    && tx.request_problem_information == self.request_problem_information
                    && tx.authentication_method == self.authentication_method
                    && tx.authentication_data == self.authentication_data
                    && tx.user_property@ == spec_builder_pairs(self.user_property)
                    && tx.will_qos == spec_or(self.will_qos, QoS::AtMostOnce)
                    && tx.will_retain == spec_or(self.will_retain, false)
                    && tx.clean_start == spec_or(self.clean_start, false)
                    && tx.client_identifier == spec_client_identifier(self.client_identifier)
                    && tx.will_delay_interval == self.will_delay_interval
                    && tx.will_payload_format_indicator == self.will_payload_format_indicator
                    && tx.will_message_expiry_interval == self.will_message_expiry_interval
                    && tx.will_content_type == self.will_content_type
                    && tx.will_response_topic == self.will_response_topic
                    && tx.will_correlation_data == self.will_correlation_data
                    && tx.will_user_property@ == spec_builder_pairs(self.will_user_property)
                    && tx.will_topic == self.will_topic
                    && tx.will_payload == self.will_payload
                    && tx.username == self.username
                    && tx.password == self.password,
            },
    {
        if self.authentication_method.is_none() && self.authentication_data.is_some() {
            return Err(CodecError::UnexpectedProperty(UnexpectedProperty));
        }
        let client_identifier = match self.client_identifier {
            Some(v) => v,
            None => UTF8StringRef(""),
        };
        Ok(
            ConnectTx {
                keep_alive: match self.keep_alive {
                    Some(v) => v,
                    None => 0u16,
                },
                session_expiry_interval: self.session_expiry_interval,
                receive_maximum: self.receive_maximum,
                maximum_packet_size: self.maximum_packet_size,
                topic_alias_maximum: self.topic_alias_maximum,
                request_response_information: self.request_response_information,
                request_problem_information: self.request_problem_information,
                authentication_method: self.authentication_method,
                authentication_data: self.authentication_data,
                user_property: match self.user_property {
                    Some(v) => v,
                    None => Vec::new(),
                },
                will_qos: match self.will_qos {
                    Some(v) => v,
                    None => QoS::AtMostOnce,
                },
                will_retain: match self.will_retain {
                    Some(v) => v,
                    None => false,
                },
                clean_start: match self.clean_start {
                    Some(v) => v,
                    None => false,
                },
                client_identifier,
                will_delay_interval: self.will_delay_interval,
                will_payload_format_indicator: self.will_payload_format_indicator,
                will_message_expiry_interval: self.will_message_expiry_interval,
                will_content_type: self.will_content_type,
                will_response_topic: self.will_response_topic,
                will_correlation_data: self.will_correlation_data,
                will_user_property: match self.will_user_property {
                    Some(v) => v,
                    None => Vec::new(),
                },
                will_topic: self.will_topic,
                will_payload: self.will_payload,
                username: self.username,
                password: self.password,
            },
        )
    }
}


impl<'a> Default for ConnectTxBuilder<'a> {
    fn default() -> (r: Self)
        ensures
            r == Self::spec_new(),
    {
        Self::new()
    }
}


/// A written CONNECT packet is its fixed header, the shortest encoding of its
/// remaining length and that many bytes.
pub proof fn lemma_connect_framed(tx: ConnectTx)
    requires
        spec_connect_remaining_len(tx) <= VarSizeInt::MAX,
    ensures
        spec_connect_encoding(tx).len() == 1 + spec_var_int_len(spec_connect_remaining_len(tx)) + spec_connect_remaining_len(tx),
        spec_connect_encoding(tx).subrange(1, 1 + spec_var_int_len(spec_connect_remaining_len(tx)) as int)
            == spec_var_int_encoding(spec_connect_remaining_len(tx)),
{
    let s = spec_connect_encoding(tx);
    let rl = spec_connect_remaining_len(tx);
    lemma_var_int_encoding_len(rl);
    lemma_var_int_encoding_len(spec_connect_props(tx).len());
    assert(s.subrange(1, 1 + spec_var_int_len(rl) as int) =~= spec_var_int_encoding(rl));
}

} // verus!
