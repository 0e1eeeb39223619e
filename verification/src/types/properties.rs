//! Properties of MQTT 5 packets: identifiers, the values they carry, how
//! they are read from a received packet and how they are written.
use crate::buffer::{bytes_mut_view, put_slice, put_u16, put_u32, put_u8};
use crate::types::base_types::{
    lemma_var_size_int_from_valid, lemma_var_size_int_roundtrip, spec_length_prefixed, spec_pair_encoding, spec_qos_byte, spec_u16_be, spec_u32_be,
    spec_var_size_int_from, var_size_int_from_usize, Binary, BinaryRef, NonZero, QoS, UTF8String,
    UTF8StringPair, UTF8StringPairRef, UTF8StringRef, VarSizeInt,
};
use crate::types::decoder::{
    lemma_parse_binary_roundtrip, lemma_parse_u16_roundtrip, lemma_skip_prefix, lemma_parse_u32_roundtrip,
    lemma_parse_utf8_string_pair_roundtrip, lemma_parse_utf8_string_roundtrip, spec_parse_var_size_int,
    spec_parse_binary, spec_parse_bool, spec_parse_non_zero_u16, spec_parse_non_zero_u32,
    spec_parse_non_zero_var_size_int, spec_parse_qos, spec_parse_u16, spec_parse_u32,
    spec_parse_utf8_string, spec_parse_utf8_string_pair, too_short, Decoder,
};
use crate::types::error::{
    CodecError, ConversionError, InsufficientBufferSize, InvalidPropertyId, PropertyError,
    UnexpectedProperty,
};
use bytes::BytesMut;
use vstd::prelude::*;
use vstd::string::StringSliceAdditionalSpecFns;
use vstd::utf8::{encode_utf8_valid_utf8, pop_first_scalar, valid_utf8};

verus! {

/// Identifier of the payload format indicator property.
pub const PAYLOAD_FORMAT_INDICATOR: u8 = 0x01;
/// Identifier of the message expiry interval property.
pub const MESSAGE_EXPIRY_INTERVAL: u8 = 0x02;
/// Identifier of the content type property.
pub const CONTENT_TYPE: u8 = 0x03;
/// Identifier of the response topic property.
pub const RESPONSE_TOPIC: u8 = 0x08;
/// Identifier of the correlation data property.
pub const CORRELATION_DATA: u8 = 0x09;
/// Identifier of the subscription identifier property.
pub const SUBSCRIPTION_IDENTIFIER: u8 = 0x0b;
/// Identifier of the session expiry interval property.
pub const SESSION_EXPIRY_INTERVAL: u8 = 0x11;
/// Identifier of the assigned client identifier property.
pub const ASSIGNED_CLIENT_IDENTIFIER: u8 = 0x12;
/// Identifier of the server keep alive property.
pub const SERVER_KEEP_ALIVE: u8 = 0x13;
/// Identifier of the authentication method property.
pub const AUTHENTICATION_METHOD: u8 = 0x15;
/// Identifier of the authentication data property.
pub const AUTHENTICATION_DATA: u8 = 0x16;
/// Identifier of the request problem information property.
pub const REQUEST_PROBLEM_INFORMATION: u8 = 0x17;
/// Identifier of the will delay interval property.
pub const WILL_DELAY_INTERVAL: u8 = 0x18;
/// Identifier of the request response information property.
pub const REQUEST_RESPONSE_INFORMATION: u8 = 0x19;
/// Identifier of the response information property.
pub const RESPONSE_INFORMATION: u8 = 0x1a;
/// Identifier of the server reference property.
pub const SERVER_REFERENCE: u8 = 0x1c;
/// Identifier of the reason string property.
pub const REASON_STRING: u8 = 0x1f;
/// Identifier of the receive maximum property.
pub const RECEIVE_MAXIMUM: u8 = 0x21;
/// Identifier of the topic alias maximum property.
pub const TOPIC_ALIAS_MAXIMUM: u8 = 0x22;
/// Identifier of the topic alias property.
pub const TOPIC_ALIAS: u8 = 0x23;
/// Identifier of the maximum QoS property.
pub const MAXIMUM_QOS: u8 = 0x24;
/// Identifier of the retain available property.
pub const RETAIN_AVAILABLE: u8 = 0x25;
/// Identifier of the user property.
pub const USER_PROPERTY: u8 = 0x26;
/// Identifier of the maximum packet size property.
pub const MAXIMUM_PACKET_SIZE: u8 = 0x27;
/// Identifier of the wildcard subscription available property.
pub const WILDCARD_SUBSCRIPTION_AVAILABLE: u8 = 0x28;
/// Identifier of the subscription identifier available property.
pub const SUBSCRIPTION_IDENTIFIER_AVAILABLE: u8 = 0x29;
/// Identifier of the shared subscription available property.
pub const SHARED_SUBSCRIPTION_AVAILABLE: u8 = 0x2a;

/// The value a property carries, as plain data.
pub enum PropVal {
    /// A boolean byte.
    Bool(bool),
    /// A two byte integer.
    U16(u16),
    /// A four byte integer.
    U32(u32),
    /// Binary data or the bytes of a text.
    Data(Seq<u8>),
    /// The bytes of a key and a value.
    Pair(Seq<u8>, Seq<u8>),
    /// A variable byte integer.
    VarInt(VarSizeInt),
    /// A quality of service level.
    Qos(QoS),
}

/// A property as plain data: its identifier and its value.
pub struct PropertyV {
    /// The property identifier.
    pub id: u8,
    /// The value.
    pub val: PropVal,
}

/// Properties whose value is a boolean byte.
pub open spec fn is_bool_id(id: u8) -> bool {
    id == PAYLOAD_FORMAT_INDICATOR || id == REQUEST_RESPONSE_INFORMATION
        || id == WILDCARD_SUBSCRIPTION_AVAILABLE || id == SUBSCRIPTION_IDENTIFIER_AVAILABLE
        || id == SHARED_SUBSCRIPTION_AVAILABLE || id == RETAIN_AVAILABLE
        || id == REQUEST_PROBLEM_INFORMATION
}

/// Properties whose value is a two byte integer that may be zero.
pub open spec fn is_u16_id(id: u8) -> bool {
    id == SERVER_KEEP_ALIVE || id == TOPIC_ALIAS_MAXIMUM
}

/// Properties whose value is a two byte integer that must not be zero.
pub open spec fn is_non_zero_u16_id(id: u8) -> bool {
    id == RECEIVE_MAXIMUM || id == TOPIC_ALIAS
}

/// Properties whose value is a four byte integer that may be zero.
pub open spec fn is_u32_id(id: u8) -> bool {
    id == MESSAGE_EXPIRY_INTERVAL || id == SESSION_EXPIRY_INTERVAL || id == WILL_DELAY_INTERVAL
}

/// Properties whose value is binary data.
pub open spec fn is_binary_id(id: u8) -> bool {
    id == CORRELATION_DATA || id == AUTHENTICATION_DATA
}

/// Properties whose value is a UTF-8 string.
pub open spec fn is_string_id(id: u8) -> bool {
    id == CONTENT_TYPE || id == RESPONSE_TOPIC || id == ASSIGNED_CLIENT_IDENTIFIER
        || id == AUTHENTICATION_METHOD || id == RESPONSE_INFORMATION || id == SERVER_REFERENCE
        || id == REASON_STRING
}

/// Reading the value of the property with identifier `id` from the start of
/// `s`; `None` for an unknown identifier.
#[verifier::opaque]
pub open spec fn spec_parse_property_value(id: u8, s: Seq<u8>) -> Option<Result<(PropVal, nat), ConversionError>> {
    if is_bool_id(id) {
        Some(
            match spec_parse_bool(s) {
                Ok((v, n)) => Ok((PropVal::Bool(v), n)),
                Err(e) => Err(e),
            },
        )
    } else if id == MAXIMUM_QOS {
        Some(
            match spec_parse_qos(s) {
                Ok((v, n)) => Ok((PropVal::Qos(v), n)),
                Err(e) => Err(e),
            },
        )
    } else if is_u16_id(id) {
        Some(
            match spec_parse_u16(s) {
                Ok((v, n)) => Ok((PropVal::U16(v), n)),
                Err(e) => Err(e),
            },
        )
    } else if is_non_zero_u16_id(id) {
        Some(
            match spec_parse_non_zero_u16(s) {
                Ok((v, n)) => Ok((PropVal::U16(v), n)),
                Err(e) => Err(e),
            },
        )
    } else if is_u32_id(id) {
        Some(
            match spec_parse_u32(s) {
                Ok((v, n)) => Ok((PropVal::U32(v), n)),
                Err(e) => Err(e),
            },
        )
    } else if id == MAXIMUM_PACKET_SIZE {
        Some(
            match spec_parse_non_zero_u32(s) {
                Ok((v, n)) => Ok((PropVal::U32(v), n)),
                Err(e) => Err(e),
            },
        )
    } else if id == SUBSCRIPTION_IDENTIFIER {
        Some(
            match spec_parse_non_zero_var_size_int(s) {
                Ok((v, n)) => Ok((PropVal::VarInt(v), n)),
                Err(e) => Err(e),
            },
        )
    } else if is_binary_id(id) {
        Some(
            match spec_parse_binary(s) {
                Ok((v, n)) => Ok((PropVal::Data(v), n)),
                Err(e) => Err(e),
            },
        )
    } else if is_string_id(id) {
        Some(
            match spec_parse_utf8_string(s) {
                Ok((v, n)) => Ok((PropVal::Data(v), n)),
                Err(e) => Err(e),
            },
        )
    } else if id == USER_PROPERTY {
        Some(
            match spec_parse_utf8_string_pair(s) {
                Ok((v, n)) => Ok((PropVal::Pair(v.0, v.1), n)),
                Err(e) => Err(e),
            },
        )
    } else {
        None
    }
}

/// Reading one property from the start of `s`: its identifier byte, then
/// the value of the kind that the identifier names.
pub open spec fn spec_parse_property(s: Seq<u8>) -> Result<(PropertyV, nat), PropertyError> {
    if s.len() == 0 {
        Err(PropertyError::ConversionError(ConversionError::InsufficientBufferSize(InsufficientBufferSize)))
    } else {
        match spec_parse_property_value(s[0], s.skip(1)) {
            None => Err(PropertyError::InvalidPropertyId(InvalidPropertyId)),
            Some(Err(e)) => Err(PropertyError::ConversionError(e)),
            Some(Ok((v, n))) => Ok((PropertyV { id: s[0], val: v }, n + 1)),
        }
    }
}

/// The encoding of a property value.
pub open spec fn spec_prop_val_encoding(val: PropVal) -> Seq<u8> {
    match val {
        PropVal::Bool(b) => seq![if b { 1u8 } else { 0u8 }],
        PropVal::U16(v) => spec_u16_be(v),
        PropVal::U32(v) => spec_u32_be(v),
        PropVal::Data(d) => spec_length_prefixed(d),
        PropVal::Pair(k, v) => spec_pair_encoding(k, v),
        PropVal::VarInt(v) => v.spec_encode(),
        PropVal::Qos(q) => seq![spec_qos_byte(q)],
    }
}

/// The encoding of a property: its identifier byte, then its value.
pub open spec fn spec_property_encoding(p: PropertyV) -> Seq<u8> {
    seq![p.id] + spec_prop_val_encoding(p.val)
}

/// Property found in a received packet.
#[derive(Debug)]
pub enum Property {
    /// Payload format indicator.
    PayloadFormatIndicator(bool),
    /// Message expiry interval.
    MessageExpiryInterval(u32),
    /// Content type.
    ContentType(UTF8String),
    /// Response topic.
    ResponseTopic(UTF8String),
    /// Correlation data.
    CorrelationData(Binary),
    /// Subscription identifier.
    SubscriptionIdentifier(NonZero<VarSizeInt>),
    /// Session expiry interval.
    SessionExpiryInterval(u32),
    /// Assigned client identifier.
    AssignedClientIdentifier(UTF8String),
    /// Server keep alive.
    ServerKeepAlive(u16),
    /// Authentication method.
    AuthenticationMethod(UTF8String),
    /// Authentication data.
    AuthenticationData(Binary),
    /// Request problem information.
    RequestProblemInformation(bool),
    /// Will delay interval.
    WillDelayInterval(u32),
    /// Request response information.
    RequestResponseInformation(bool),
    /// Response information.
    ResponseInformation(UTF8String),
    /// Server reference.
    ServerReference(UTF8String),
    /// Reason string.
    ReasonString(UTF8String),
    /// Receive maximum.
    ReceiveMaximum(NonZero<u16>),
    /// Topic alias maximum.
    TopicAliasMaximum(u16),
    /// Topic alias.
    TopicAlias(NonZero<u16>),
    /// Maximum QoS.
    MaximumQoS(QoS),
    /// Retain available.
    RetainAvailable(bool),
    /// User property.
    UserProperty(UTF8StringPair),
    /// Maximum packet size.
    MaximumPacketSize(NonZero<u32>),
    /// Wildcard subscription available.
    WildcardSubscriptionAvailable(bool),
    /// Subscription identifier available.
    SubscriptionIdentifierAvailable(bool),
    /// Shared subscription available.
    SharedSubscriptionAvailable(bool),
}

impl View for Property {
    type V = PropertyV;

    open spec fn view(&self) -> PropertyV {
        match self {
            Property::PayloadFormatIndicator(v) => PropertyV { id: PAYLOAD_FORMAT_INDICATOR, val: PropVal::Bool(*v) },
            Property::MessageExpiryInterval(v) => PropertyV { id: MESSAGE_EXPIRY_INTERVAL, val: PropVal::U32(*v) },
            Property::ContentType(v) => PropertyV { id: CONTENT_TYPE, val: PropVal::Data(v@) },
            Property::ResponseTopic(v) => PropertyV { id: RESPONSE_TOPIC, val: PropVal::Data(v@) },
            Property::CorrelationData(v) => PropertyV { id: CORRELATION_DATA, val: PropVal::Data(v@) },
            Property::SubscriptionIdentifier(v) => PropertyV { id: SUBSCRIPTION_IDENTIFIER, val: PropVal::VarInt(v.spec_get()) },
            Property::SessionExpiryInterval(v) => PropertyV { id: SESSION_EXPIRY_INTERVAL, val: PropVal::U32(*v) },
            Property::AssignedClientIdentifier(v) => PropertyV { id: ASSIGNED_CLIENT_IDENTIFIER, val: PropVal::Data(v@) },
            Property::ServerKeepAlive(v) => PropertyV { id: SERVER_KEEP_ALIVE, val: PropVal::U16(*v) },
            Property::AuthenticationMethod(v) => PropertyV { id: AUTHENTICATION_METHOD, val: PropVal::Data(v@) },
            Property::AuthenticationData(v) => PropertyV { id: AUTHENTICATION_DATA, val: PropVal::Data(v@) },
            Property::RequestProblemInformation(v) => PropertyV { id: REQUEST_PROBLEM_INFORMATION, val: PropVal::Bool(*v) },
            Property::WillDelayInterval(v) => PropertyV { id: WILL_DELAY_INTERVAL, val: PropVal::U32(*v) },
            Property::RequestResponseInformation(v) => PropertyV { id: REQUEST_RESPONSE_INFORMATION, val: PropVal::Bool(*v) },
            Property::ResponseInformation(v) => PropertyV { id: RESPONSE_INFORMATION, val: PropVal::Data(v@) },
            Property::ServerReference(v) => PropertyV { id: SERVER_REFERENCE, val: PropVal::Data(v@) },
            Property::ReasonString(v) => PropertyV { id: REASON_STRING, val: PropVal::Data(v@) },
            Property::ReceiveMaximum(v) => PropertyV { id: RECEIVE_MAXIMUM, val: PropVal::U16(v.spec_get()) },
            Property::TopicAliasMaximum(v) => PropertyV { id: TOPIC_ALIAS_MAXIMUM, val: PropVal::U16(*v) },
            Property::TopicAlias(v) => PropertyV { id: TOPIC_ALIAS, val: PropVal::U16(v.spec_get()) },
            Property::MaximumQoS(v) => PropertyV { id: MAXIMUM_QOS, val: PropVal::Qos(*v) },
            Property::RetainAvailable(v) => PropertyV { id: RETAIN_AVAILABLE, val: PropVal::Bool(*v) },
            Property::UserProperty(v) => PropertyV { id: USER_PROPERTY, val: PropVal::Pair(v@.0, v@.1) },
            Property::MaximumPacketSize(v) => PropertyV { id: MAXIMUM_PACKET_SIZE, val: PropVal::U32(v.spec_get()) },
            Property::WildcardSubscriptionAvailable(v) => PropertyV { id: WILDCARD_SUBSCRIPTION_AVAILABLE, val: PropVal::Bool(*v) },
            Property::SubscriptionIdentifierAvailable(v) => PropertyV { id: SUBSCRIPTION_IDENTIFIER_AVAILABLE, val: PropVal::Bool(*v) },
            Property::SharedSubscriptionAvailable(v) => PropertyV { id: SHARED_SUBSCRIPTION_AVAILABLE, val: PropVal::Bool(*v) },
        }
    }
}

/// A property value read from a packet, before it is tagged with its property.
enum RawVal {
    Bool(bool),
    U16(u16),
    NonZeroU16(NonZero<u16>),
    U32(u32),
    NonZeroU32(NonZero<u32>),
    VarInt(NonZero<VarSizeInt>),
    Bin(Binary),
    Str(UTF8String),
    Pair(UTF8StringPair),
    Qos(QoS),
}

impl View for RawVal {
    type V = PropVal;

    closed spec fn view(&self) -> PropVal {
        match self {
            RawVal::Bool(v) => PropVal::Bool(*v),
            RawVal::U16(v) => PropVal::U16(*v),
            RawVal::NonZeroU16(v) => PropVal::U16(v.spec_get()),
            RawVal::U32(v) => PropVal::U32(*v),
            RawVal::NonZeroU32(v) => PropVal::U32(v.spec_get()),
            RawVal::VarInt(v) => PropVal::VarInt(v.spec_get()),
            RawVal::Bin(v) => PropVal::Data(v@),
            RawVal::Str(v) => PropVal::Data(v@),
            RawVal::Pair(v) => PropVal::Pair(v@.0, v@.1),
            RawVal::Qos(v) => PropVal::Qos(*v),
        }
    }
}

/// The value kind that a property identifier names matches the raw value.
spec fn raw_fits(id: u8, raw: RawVal) -> bool {
    match raw {
        RawVal::Bool(_) => is_bool_id(id),
        RawVal::U16(_) => is_u16_id(id),
        RawVal::NonZeroU16(_) => is_non_zero_u16_id(id),
        RawVal::U32(_) => is_u32_id(id),
        RawVal::NonZeroU32(_) => id == MAXIMUM_PACKET_SIZE,
        RawVal::VarInt(_) => id == SUBSCRIPTION_IDENTIFIER,
        RawVal::Bin(_) => is_binary_id(id),
        RawVal::Str(_) => is_string_id(id),
        RawVal::Pair(_) => id == USER_PROPERTY,
        RawVal::Qos(_) => id == MAXIMUM_QOS,
    }
}

impl Property {
    /// Tags a raw value with the property that `id` names.
    fn from_raw(id: u8, raw: RawVal) -> (r: Property)
        requires
            raw_fits(id, raw),
        ensures
            r@ == (PropertyV { id, val: raw@ }),
    {
        match raw {
            RawVal::Bool(v) => {
                if id == PAYLOAD_FORMAT_INDICATOR {
                    Property::PayloadFormatIndicator(v)
                } else if id == REQUEST_RESPONSE_INFORMATION {
                    Property::RequestResponseInformation(v)
                } else if id == WILDCARD_SUBSCRIPTION_AVAILABLE {
                    Property::WildcardSubscriptionAvailable(v)
                } else if id == SUBSCRIPTION_IDENTIFIER_AVAILABLE {
                    Property::SubscriptionIdentifierAvailable(v)
                } else if id == SHARED_SUBSCRIPTION_AVAILABLE {
                    Property::SharedSubscriptionAvailable(v)
                } else if id == RETAIN_AVAILABLE {
                    Property::RetainAvailable(v)
                } else {
                    Property::RequestProblemInformation(v)
                }
            },
            RawVal::U16(v) => {
                if id == SERVER_KEEP_ALIVE {
                    Property::ServerKeepAlive(v)
                } else {
                    Property::TopicAliasMaximum(v)
                }
            },
            RawVal::NonZeroU16(v) => {
                if id == RECEIVE_MAXIMUM {
                    Property::ReceiveMaximum(v)
                } else {
                    Property::TopicAlias(v)
                }
            },
            RawVal::U32(v) => {
                if id == MESSAGE_EXPIRY_INTERVAL {
                    Property::MessageExpiryInterval(v)
                } else if id == SESSION_EXPIRY_INTERVAL {
                    Property::SessionExpiryInterval(v)
                } else {
                    Property::WillDelayInterval(v)
                }
            },
            RawVal::NonZeroU32(v) => Property::MaximumPacketSize(v),
            RawVal::VarInt(v) => Property::SubscriptionIdentifier(v),
            RawVal::Bin(v) => {
                if id == CORRELATION_DATA {
                    Property::CorrelationData(v)
                } else {
                    Property::AuthenticationData(v)
                }
            },
            RawVal::Str(v) => {
                if id == CONTENT_TYPE {
                    Property::ContentType(v)
                } else if id == RESPONSE_TOPIC {
                    Property::ResponseTopic(v)
                } else if id == ASSIGNED_CLIENT_IDENTIFIER {
                    Property::AssignedClientIdentifier(v)
                } else if id == AUTHENTICATION_METHOD {
                    Property::AuthenticationMethod(v)
                } else if id == RESPONSE_INFORMATION {
                    Property::ResponseInformation(v)
                } else if id == SERVER_REFERENCE {
                    Property::ServerReference(v)
                } else {
                    Property::ReasonString(v)
                }
            },
            RawVal::Pair(v) => Property::UserProperty(v),
            RawVal::Qos(v) => Property::MaximumQoS(v),
        }
    }
}

impl Decoder {
    /// Reads the value of a property of a known identifier.
    fn try_decode_property_value(&mut self, id: u8) -> (r: Result<RawVal, ConversionError>)
        requires
            old(self).wf(),
            spec_parse_property_value(id, old(self).rest()) is Some,
        ensures
            final(self).wf(),
            match spec_parse_property_value(id, old(self).rest()).unwrap() {
                Ok((v, n)) => r matches Ok(raw) && raw@ == v && raw_fits(id, raw)
                    && final(self).advanced_from(*old(self), n),
                Err(e) => r == Err::<RawVal, ConversionError>(e),
            },
    {
        proof {
            reveal(spec_parse_property_value);
        }
        if id == PAYLOAD_FORMAT_INDICATOR || id == REQUEST_RESPONSE_INFORMATION
            || id == WILDCARD_SUBSCRIPTION_AVAILABLE || id == SUBSCRIPTION_IDENTIFIER_AVAILABLE
            || id == SHARED_SUBSCRIPTION_AVAILABLE || id == RETAIN_AVAILABLE
            || id == REQUEST_PROBLEM_INFORMATION {
            Ok(RawVal::Bool(self.try_decode_bool()?))
        } else if id == MAXIMUM_QOS {
            Ok(RawVal::Qos(self.try_decode_qos()?))
        } else if id == SERVER_KEEP_ALIVE || id == TOPIC_ALIAS_MAXIMUM {
            Ok(RawVal::U16(self.try_decode_u16()?))
        } else if id == RECEIVE_MAXIMUM || id == TOPIC_ALIAS {
            Ok(RawVal::NonZeroU16(self.try_decode_non_zero_u16()?))
        } else if id == MESSAGE_EXPIRY_INTERVAL || id == SESSION_EXPIRY_INTERVAL || id == WILL_DELAY_INTERVAL {
            Ok(RawVal::U32(self.try_decode_u32()?))
        } else if id == MAXIMUM_PACKET_SIZE {
            Ok(RawVal::NonZeroU32(self.try_decode_non_zero_u32()?))
        } else if id == SUBSCRIPTION_IDENTIFIER {
            Ok(RawVal::VarInt(self.try_decode_non_zero_var_size_int()?))
        } else if id == CORRELATION_DATA || id == AUTHENTICATION_DATA {
            Ok(RawVal::Bin(self.try_decode_binary()?))
        } else if id == CONTENT_TYPE || id == RESPONSE_TOPIC || id == ASSIGNED_CLIENT_IDENTIFIER
            || id == AUTHENTICATION_METHOD || id == RESPONSE_INFORMATION || id == SERVER_REFERENCE
            || id == REASON_STRING {
            Ok(RawVal::Str(self.try_decode_utf8_string()?))
        } else {
            Ok(RawVal::Pair(self.try_decode_utf8_string_pair()?))
        }
    }

    /// Whether `id` names a known property.
    fn is_known_property(id: u8) -> (r: bool)
        ensures
            r == (spec_parse_property_value(id, Seq::empty()) is Some),
    {
        proof {
            reveal(spec_parse_property_value);
        }
        id == PAYLOAD_FORMAT_INDICATOR || id == REQUEST_RESPONSE_INFORMATION
            || id == WILDCARD_SUBSCRIPTION_AVAILABLE || id == SUBSCRIPTION_IDENTIFIER_AVAILABLE
            || id == SHARED_SUBSCRIPTION_AVAILABLE || id == RETAIN_AVAILABLE
            || id == REQUEST_PROBLEM_INFORMATION || id == MAXIMUM_QOS || id == SERVER_KEEP_ALIVE
            || id == TOPIC_ALIAS_MAXIMUM || id == RECEIVE_MAXIMUM || id == TOPIC_ALIAS
            || id == MESSAGE_EXPIRY_INTERVAL || id == SESSION_EXPIRY_INTERVAL
            || id == WILL_DELAY_INTERVAL || id == MAXIMUM_PACKET_SIZE || id == SUBSCRIPTION_IDENTIFIER
            || id == CORRELATION_DATA || id == AUTHENTICATION_DATA || id == CONTENT_TYPE
            || id == RESPONSE_TOPIC || id == ASSIGNED_CLIENT_IDENTIFIER || id == AUTHENTICATION_METHOD
            || id == RESPONSE_INFORMATION || id == SERVER_REFERENCE || id == REASON_STRING
            || id == USER_PROPERTY
    }

    /// Reads one property: its identifier, then its value.
    pub fn try_decode_property(&mut self) -> (r: Result<Property, PropertyError>)
        requires
            old(self).wf(),
        ensures
            final(self).wf(),
            match spec_parse_property(old(self).rest()) {
                Ok((v, n)) => r matches Ok(p) && p@ == v && final(self).advanced_from(*old(self), n),
                Err(e) => r == Err::<Property, PropertyError>(e),
            },
    {
        proof {
            reveal(spec_parse_property_value);
        }
        let ghost d0 = *self;
        let id = match self.try_decode_u8() {
            Ok(id) => id,
            Err(e) => return Err(e.into_property_error()),
        };
        assert(self.rest() =~= d0.rest().skip(1));
        if !Self::is_known_property(id) {
            return Err(PropertyError::InvalidPropertyId(InvalidPropertyId));
        }
        match self.try_decode_property_value(id) {
            Ok(raw) => {
                assert(self.rest() =~= d0.rest().subrange((self.pos - d0.pos) as int, d0.rest().len() as int));
                Ok(Property::from_raw(id, raw))
            },
            Err(e) => Err(e.into_property_error()),
        }
    }
}

/// Reading the properties that fill `s` one after another and applying
/// each to `acc`: a property that cannot be read ends with its error, one
/// that `apply` refuses ends with [UnexpectedProperty].
pub open spec fn spec_fold_properties<A>(
    s: Seq<u8>,
    acc: A,
    apply: spec_fn(A, PropertyV) -> Option<A>,
) -> Result<A, CodecError>
    decreases s.len(),
{
    if s.len() == 0 {
        Ok(acc)
    } else {
        match spec_parse_property(s) {
            Err(e) => Err(CodecError::PropertyError(e)),
            Ok((p, n)) => match apply(acc, p) {
                None => Err(CodecError::UnexpectedProperty(UnexpectedProperty)),
                Some(a) => if 0 < n <= s.len() {
                    spec_fold_properties(s.subrange(n as int, s.len() as int), a, apply)
                } else {
                    Ok(a)
                },
            },
        }
    }
}

/// Properties that are exactly one property: the fold applies that one
/// property to `acc`, or ends with [UnexpectedProperty] where it is refused.
pub proof fn lemma_fold_one_property<A>(e: Seq<u8>, acc: A, apply: spec_fn(A, PropertyV) -> Option<A>)
    requires
        spec_parse_property(e) is Ok,
        spec_parse_property(e)->Ok_0.1 == e.len(),
    ensures
        spec_fold_properties(e, acc, apply) == match apply(acc, spec_parse_property(e)->Ok_0.0) {
            Some(a) => Ok::<A, CodecError>(a),
            None => Err(CodecError::UnexpectedProperty(UnexpectedProperty)),
        },
{
    let n = spec_parse_property(e)->Ok_0.1;
    assert(e.len() > 0);
    assert(e.subrange(n as int, e.len() as int) =~= Seq::<u8>::empty());
    match apply(acc, spec_parse_property(e)->Ok_0.0) {
        Some(a) => {
            assert(spec_fold_properties(Seq::<u8>::empty(), a, apply) == Ok::<A, CodecError>(a));
        },
        None => {},
    }
}

/// A boolean property byte 0 or 1 after its identifier reads as false or
/// true.
pub proof fn lemma_parse_bool_property_bytes(id: u8, b: u8)
    requires
        is_bool_id(id),
        b <= 1,
    ensures
        spec_parse_property(seq![id, b]) == Ok::<(PropertyV, nat), PropertyError>(
            (PropertyV { id, val: PropVal::Bool(b == 1) }, 2),
        ),
{
    reveal(spec_parse_property_value);
    assert(seq![id, b].skip(1) =~= seq![b]);
}

/// A QoS property byte 0, 1 or 2 after its identifier reads as that level.
pub proof fn lemma_parse_qos_property_bytes(q: u8)
    requires
        q <= 2,
    ensures
        spec_parse_property(seq![MAXIMUM_QOS, q]) == Ok::<(PropertyV, nat), PropertyError>(
            (
                PropertyV {
                    id: MAXIMUM_QOS,
                    val: PropVal::Qos(if q == 0 { QoS::AtMostOnce } else if q == 1 { QoS::AtLeastOnce } else { QoS::ExactlyOnce }),
                },
                2,
            ),
        ),
{
    reveal(spec_parse_property_value);
    assert(seq![MAXIMUM_QOS, q].skip(1) =~= seq![q]);
}

/// A two byte property value after its identifier reads big-endian; a
/// property that must not be zero needs a value other than zero.
pub proof fn lemma_parse_u16_property_bytes(id: u8, hi: u8, lo: u8)
    requires
        is_u16_id(id) || (is_non_zero_u16_id(id) && hi * 256 + lo != 0),
    ensures
        spec_parse_property(seq![id, hi, lo]) == Ok::<(PropertyV, nat), PropertyError>(
            (PropertyV { id, val: PropVal::U16((hi * 256 + lo) as u16) }, 3),
        ),
{
    reveal(spec_parse_property_value);
    assert(seq![id, hi, lo].skip(1) =~= seq![hi, lo]);
}

/// A four byte property value after its identifier reads big-endian; the
/// maximum packet size needs a value other than zero.
pub proof fn lemma_parse_u32_property_bytes(id: u8, b0: u8, b1: u8, b2: u8, b3: u8)
    requires
        is_u32_id(id) || (id == MAXIMUM_PACKET_SIZE && b0 * 0x1000000 + b1 * 0x10000 + b2 * 256 + b3 != 0),
    ensures
        spec_parse_property(seq![id, b0, b1, b2, b3]) == Ok::<(PropertyV, nat), PropertyError>(
            (PropertyV { id, val: PropVal::U32((b0 * 0x1000000 + b1 * 0x10000 + b2 * 256 + b3) as u32) }, 5),
        ),
{
    reveal(spec_parse_property_value);
    assert(seq![id, b0, b1, b2, b3].skip(1) =~= seq![b0, b1, b2, b3]);
}

/// An empty text or binary property value after its identifier reads as
/// empty data.
pub proof fn lemma_parse_empty_data_property_bytes(id: u8)
    requires
        is_binary_id(id) || is_string_id(id),
    ensures
        spec_parse_property(seq![id, 0u8, 0u8]) == Ok::<(PropertyV, nat), PropertyError>(
            (PropertyV { id, val: PropVal::Data(Seq::empty()) }, 3),
        ),
{
    reveal(spec_parse_property_value);
    let s = seq![id, 0u8, 0u8].skip(1);
    assert(s =~= seq![0u8, 0u8]);
    assert(s.subrange(2, 2) =~= Seq::<u8>::empty());
}

/// A one byte text or binary property value after its identifier reads as
/// that byte; a text needs an ASCII byte.
pub proof fn lemma_parse_one_byte_data_property_bytes(id: u8, c: u8)
    requires
        is_binary_id(id) || (is_string_id(id) && c < 0x80),
    ensures
        spec_parse_property(seq![id, 0u8, 1u8, c]) == Ok::<(PropertyV, nat), PropertyError>(
            (PropertyV { id, val: PropVal::Data(seq![c]) }, 4),
        ),
{
    reveal(spec_parse_property_value);
    let s = seq![id, 0u8, 1u8, c].skip(1);
    assert(s =~= seq![0u8, 1u8, c]);
    assert(s.subrange(2, 3) =~= seq![c]);
    if c < 0x80 {
        lemma_ascii_byte_valid_utf8(c);
    }
}

/// A single ASCII byte is valid UTF-8.
pub proof fn lemma_ascii_byte_valid_utf8(c: u8)
    requires
        c < 0x80,
    ensures
        valid_utf8(seq![c]),
{
    assert(c & 0x7f <= 0x7f) by (bit_vector);
    let d = seq![c];
    assert(pop_first_scalar(d) =~= Seq::<u8>::empty());
    assert(valid_utf8(pop_first_scalar(d)));
}

/// A user property with an empty key and an empty value.
pub proof fn lemma_parse_empty_user_property_bytes()
    ensures
        spec_parse_property(seq![USER_PROPERTY, 0u8, 0u8, 0u8, 0u8]) == Ok::<(PropertyV, nat), PropertyError>(
            (PropertyV { id: USER_PROPERTY, val: PropVal::Pair(Seq::empty(), Seq::empty()) }, 5),
        ),
{
    reveal(spec_parse_property_value);
    let s = seq![USER_PROPERTY, 0u8, 0u8, 0u8, 0u8].skip(1);
    assert(s =~= seq![0u8, 0u8, 0u8, 0u8]);
    assert(s.subrange(2, 2) =~= Seq::<u8>::empty());
    assert(s.skip(2) =~= seq![0u8, 0u8]);
    assert(s.skip(2).subrange(2, 2) =~= Seq::<u8>::empty());
}

/// A one byte subscription identifier 1 to 127 after its identifier reads
/// as that number.
pub proof fn lemma_parse_subscription_identifier_bytes(v: u8)
    requires
        1 <= v < 128,
    ensures
        spec_parse_property(seq![SUBSCRIPTION_IDENTIFIER, v]) is Ok,
        spec_parse_property(seq![SUBSCRIPTION_IDENTIFIER, v])->Ok_0.1 == 2,
        spec_parse_property(seq![SUBSCRIPTION_IDENTIFIER, v])->Ok_0.0.id == SUBSCRIPTION_IDENTIFIER,
        spec_parse_property(seq![SUBSCRIPTION_IDENTIFIER, v])->Ok_0.0.val matches PropVal::VarInt(x) && x.spec_value()
            == v,
{
    reveal(spec_parse_property_value);
    assert(seq![SUBSCRIPTION_IDENTIFIER, v].skip(1) =~= seq![v]);
}

/// Number of bytes of the shortest encoding of `n` as variable byte integer.
pub open spec fn spec_var_int_len(n: nat) -> nat {
    if n <= 127 {
        1
    } else if n <= 16383 {
        2
    } else if n <= 2097151 {
        3
    } else {
        4
    }
}

/// The shortest encoding of `n` as variable byte integer.
pub open spec fn spec_var_int_encoding(n: nat) -> Seq<u8> {
    match spec_var_size_int_from(n) {
        Ok(v) => v.spec_encode(),
        Err(_) => Seq::empty(),
    }
}

/// Length of [spec_var_int_encoding].
pub proof fn lemma_var_int_encoding_len(n: nat)
    requires
        n <= VarSizeInt::MAX,
    ensures
        spec_var_int_encoding(n).len() == spec_var_int_len(n),
        1 <= spec_var_int_len(n) <= 4,
{
}

/// Writes `n` as the shortest variable byte integer.
pub fn encode_var_int(n: usize, buf: &mut BytesMut)
    requires
        n <= VarSizeInt::MAX,
        bytes_mut_view(*old(buf)).len() + 4 <= isize::MAX,
    ensures
        bytes_mut_view(*final(buf)) == bytes_mut_view(*old(buf)) + spec_var_int_encoding(n as nat),
{
    let v = var_size_int_from_usize(n);
    v.encode(buf);
}

/// A one byte property.
pub open spec fn spec_byte_prop(id: u8, b: u8) -> Seq<u8> {
    seq![id, b]
}

/// A two byte integer property.
pub open spec fn spec_u16_prop(id: u8, v: u16) -> Seq<u8> {
    seq![id] + spec_u16_be(v)
}

/// A four byte integer property.
pub open spec fn spec_u32_prop(id: u8, v: u32) -> Seq<u8> {
    seq![id] + spec_u32_be(v)
}

/// A property holding a variable byte integer.
pub open spec fn spec_var_int_prop(id: u8, v: VarSizeInt) -> Seq<u8> {
    seq![id] + v.spec_encode()
}

/// A property holding text or binary data.
pub open spec fn spec_data_prop(id: u8, d: Seq<u8>) -> Seq<u8> {
    seq![id] + spec_length_prefixed(d)
}

/// An optional text property: nothing when absent.
pub open spec fn spec_opt_str_prop(id: u8, o: Option<UTF8StringRef>) -> Seq<u8> {
    match o {
        Some(s) => spec_data_prop(id, s.0.spec_bytes()),
        None => Seq::empty(),
    }
}

/// An optional binary property: nothing when absent.
pub open spec fn spec_opt_bin_prop(id: u8, o: Option<BinaryRef>) -> Seq<u8> {
    match o {
        Some(b) => spec_data_prop(id, b.0@),
        None => Seq::empty(),
    }
}

/// An optional two byte integer property: nothing when absent.
pub open spec fn spec_opt_u16_prop(id: u8, o: Option<u16>) -> Seq<u8> {
    match o {
        Some(v) => spec_u16_prop(id, v),
        None => Seq::empty(),
    }
}

/// An optional four byte integer property: nothing when absent.
pub open spec fn spec_opt_u32_prop(id: u8, o: Option<u32>) -> Seq<u8> {
    match o {
        Some(v) => spec_u32_prop(id, v),
        None => Seq::empty(),
    }
}

/// An optional boolean property: nothing when absent.
pub open spec fn spec_opt_bool_prop(id: u8, o: Option<bool>) -> Seq<u8> {
    match o {
        Some(v) => spec_byte_prop(id, if v { 1 } else { 0 }),
        None => Seq::empty(),
    }
}

/// The user properties, each written as a key-value property, in order.
pub open spec fn spec_user_props(ups: Seq<UTF8StringPairRef>) -> Seq<u8>
    decreases ups.len(),
{
    if ups.len() == 0 {
        Seq::empty()
    } else {
        spec_user_props(ups.drop_last()) + seq![USER_PROPERTY] + spec_pair_encoding(
            ups.last().0.spec_bytes(),
            ups.last().1.spec_bytes(),
        )
    }
}

/// The user properties of a prefix take no more bytes than all of them.
pub proof fn lemma_user_props_prefix(ups: Seq<UTF8StringPairRef>, i: int)
    requires
        0 <= i <= ups.len(),
    ensures
        spec_user_props(ups.take(i)).len() <= spec_user_props(ups).len(),
    decreases ups.len() - i,
{
    if i < ups.len() {
        lemma_user_props_prefix(ups, i + 1);
        assert(ups.take(i + 1).drop_last() =~= ups.take(i));
    } else {
        assert(ups.take(i) =~= ups);
    }
}

/// Number of bytes that the user properties take.
pub fn user_properties_len(ups: &Vec<UTF8StringPairRef>) -> (r: usize)
    requires
        spec_user_props(ups@).len() <= VarSizeInt::MAX,
    ensures
        r == spec_user_props(ups@).len(),
{
    let mut total: usize = 0;
    let mut i: usize = 0;
    while i < ups.len()
        invariant
            i <= ups@.len(),
            spec_user_props(ups@).len() <= VarSizeInt::MAX,
            total == spec_user_props(ups@.take(i as int)).len(),
        decreases ups@.len() - i,
    {
        proof {
            lemma_user_props_prefix(ups@, i + 1);
            assert(ups@.take(i + 1).drop_last() =~= ups@.take(i as int));
        }
        let p = ups[i];
        total = total + 1 + p.byte_len();
        i = i + 1;
    }
    assert(ups@.take(ups@.len() as int) =~= ups@);
    total
}

/// Writes the user properties, in order.
pub fn encode_user_properties(ups: &Vec<UTF8StringPairRef>, buf: &mut BytesMut)
    requires
        bytes_mut_view(*old(buf)).len() + spec_user_props(ups@).len() <= isize::MAX,
    ensures
        bytes_mut_view(*final(buf)) == bytes_mut_view(*old(buf)) + spec_user_props(ups@),
{
    let mut i: usize = 0;
    while i < ups.len()
        invariant
            i <= ups@.len(),
            bytes_mut_view(*old(buf)).len() + spec_user_props(ups@).len() <= isize::MAX,
            bytes_mut_view(*buf) == bytes_mut_view(*old(buf)) + spec_user_props(ups@.take(i as int)),
        decreases ups@.len() - i,
    {
        proof {
            lemma_user_props_prefix(ups@, i + 1);
            assert(ups@.take(i + 1).drop_last() =~= ups@.take(i as int));
        }
        let p = ups[i];
        put_u8(buf, USER_PROPERTY);
        p.encode(buf);
        i = i + 1;
        assert(bytes_mut_view(*buf) =~= bytes_mut_view(*old(buf)) + spec_user_props(ups@.take(i as int)));
    }
    assert(ups@.take(ups@.len() as int) =~= ups@);
}

/// Writes a one byte property.
pub fn encode_byte_property(id: u8, b: u8, buf: &mut BytesMut)
    requires
        bytes_mut_view(*old(buf)).len() + 2 <= isize::MAX,
    ensures
        bytes_mut_view(*final(buf)) == bytes_mut_view(*old(buf)) + spec_byte_prop(id, b),
{
    put_u8(buf, id);
    put_u8(buf, b);
    assert(bytes_mut_view(*buf) =~= bytes_mut_view(*old(buf)) + spec_byte_prop(id, b));
}

/// Writes a two byte integer property.
pub fn encode_u16_property(id: u8, v: u16, buf: &mut BytesMut)
    requires
        bytes_mut_view(*old(buf)).len() + 3 <= isize::MAX,
    ensures
        bytes_mut_view(*final(buf)) == bytes_mut_view(*old(buf)) + spec_u16_prop(id, v),
{
    put_u8(buf, id);
    put_u16(buf, v);
    assert(bytes_mut_view(*buf) =~= bytes_mut_view(*old(buf)) + spec_u16_prop(id, v));
}

/// Writes a four byte integer property.
pub fn encode_u32_property(id: u8, v: u32, buf: &mut BytesMut)
    requires
        bytes_mut_view(*old(buf)).len() + 5 <= isize::MAX,
    ensures
        bytes_mut_view(*final(buf)) == bytes_mut_view(*old(buf)) + spec_u32_prop(id, v),
{
    put_u8(buf, id);
    put_u32(buf, v);
    assert(bytes_mut_view(*buf) =~= bytes_mut_view(*old(buf)) + spec_u32_prop(id, v));
}

/// Writes a property holding a variable byte integer.
pub fn encode_var_int_property(id: u8, v: VarSizeInt, buf: &mut BytesMut)
    requires
        bytes_mut_view(*old(buf)).len() + spec_var_int_prop(id, v).len() <= isize::MAX,
    ensures
        bytes_mut_view(*final(buf)) == bytes_mut_view(*old(buf)) + spec_var_int_prop(id, v),
{
    put_u8(buf, id);
    v.encode(buf);
    assert(bytes_mut_view(*buf) =~= bytes_mut_view(*old(buf)) + spec_var_int_prop(id, v));
}

/// Writes a text property.
pub fn encode_str_property(id: u8, s: UTF8StringRef, buf: &mut BytesMut)
    requires
        bytes_mut_view(*old(buf)).len() + 3 + s.0.spec_bytes().len() <= isize::MAX,
    ensures
        bytes_mut_view(*final(buf)) == bytes_mut_view(*old(buf)) + spec_data_prop(id, s.0.spec_bytes()),
{
    put_u8(buf, id);
    s.encode(buf);
    assert(bytes_mut_view(*buf) =~= bytes_mut_view(*old(buf)) + spec_data_prop(id, s.0.spec_bytes()));
}

/// Writes a binary property.
pub fn encode_bin_property(id: u8, b: BinaryRef, buf: &mut BytesMut)
    requires
        bytes_mut_view(*old(buf)).len() + 3 + b.0@.len() <= isize::MAX,
    ensures
        bytes_mut_view(*final(buf)) == bytes_mut_view(*old(buf)) + spec_data_prop(id, b.0@),
{
    put_u8(buf, id);
    b.encode(buf);
    assert(bytes_mut_view(*buf) =~= bytes_mut_view(*old(buf)) + spec_data_prop(id, b.0@));
}

/// Writes an optional text property; nothing when absent.
pub fn encode_opt_str_property(id: u8, o: Option<UTF8StringRef>, buf: &mut BytesMut)
    requires
        bytes_mut_view(*old(buf)).len() + spec_opt_str_prop(id, o).len() <= isize::MAX,
    ensures
        bytes_mut_view(*final(buf)) == bytes_mut_view(*old(buf)) + spec_opt_str_prop(id, o),
{
    match o {
        Some(s) => encode_str_property(id, s, buf),
        None => {
            assert(bytes_mut_view(*buf) =~= bytes_mut_view(*old(buf)) + spec_opt_str_prop(id, o));
        },
    }
}

/// Writes an optional binary property; nothing when absent.
pub fn encode_opt_bin_property(id: u8, o: Option<BinaryRef>, buf: &mut BytesMut)
    requires
        bytes_mut_view(*old(buf)).len() + spec_opt_bin_prop(id, o).len() <= isize::MAX,
    ensures
        bytes_mut_view(*final(buf)) == bytes_mut_view(*old(buf)) + spec_opt_bin_prop(id, o),
{
    match o {
        Some(b) => encode_bin_property(id, b, buf),
        None => {
            assert(bytes_mut_view(*buf) =~= bytes_mut_view(*old(buf)) + spec_opt_bin_prop(id, o));
        },
    }
}

/// Writes an optional two byte integer property; nothing when absent.
pub fn encode_opt_u16_property(id: u8, o: Option<u16>, buf: &mut BytesMut)
    requires
        bytes_mut_view(*old(buf)).len() + spec_opt_u16_prop(id, o).len() <= isize::MAX,
    ensures
        bytes_mut_view(*final(buf)) == bytes_mut_view(*old(buf)) + spec_opt_u16_prop(id, o),
{
    match o {
        Some(v) => encode_u16_property(id, v, buf),
        None => {
            assert(bytes_mut_view(*buf) =~= bytes_mut_view(*old(buf)) + spec_opt_u16_prop(id, o));
        },
    }
}

/// Writes an optional four byte integer property; nothing when absent.
pub fn encode_opt_u32_property(id: u8, o: Option<u32>, buf: &mut BytesMut)
    requires
        bytes_mut_view(*old(buf)).len() + spec_opt_u32_prop(id, o).len() <= isize::MAX,
    ensures
        bytes_mut_view(*final(buf)) == bytes_mut_view(*old(buf)) + spec_opt_u32_prop(id, o),
{
    match o {
        Some(v) => encode_u32_property(id, v, buf),
        None => {
            assert(bytes_mut_view(*buf) =~= bytes_mut_view(*old(buf)) + spec_opt_u32_prop(id, o));
        },
    }
}

/// Writes an optional boolean property; nothing when absent.
pub fn encode_opt_bool_property(id: u8, o: Option<bool>, buf: &mut BytesMut)
    requires
        bytes_mut_view(*old(buf)).len() + spec_opt_bool_prop(id, o).len() <= isize::MAX,
    ensures
        bytes_mut_view(*final(buf)) == bytes_mut_view(*old(buf)) + spec_opt_bool_prop(id, o),
{
    match o {
        Some(v) => encode_byte_property(id, if v { 1 } else { 0 }, buf),
        None => {
            assert(bytes_mut_view(*buf) =~= bytes_mut_view(*old(buf)) + spec_opt_bool_prop(id, o));
        },
    }
}

/// Number of bytes of an optional text property.
pub fn opt_str_prop_len(id: u8, o: Option<UTF8StringRef>) -> (r: usize)
    requires
        spec_opt_str_prop(id, o).len() <= VarSizeInt::MAX,
    ensures
        r == spec_opt_str_prop(id, o).len(),
{
    match o {
        Some(s) => 1 + s.byte_len(),
        None => 0,
    }
}

/// Number of bytes of an optional binary property.
pub fn opt_bin_prop_len(id: u8, o: Option<BinaryRef>) -> (r: usize)
    requires
        spec_opt_bin_prop(id, o).len() <= VarSizeInt::MAX,
    ensures
        r == spec_opt_bin_prop(id, o).len(),
{
    match o {
        Some(b) => 1 + b.byte_len(),
        None => 0,
    }
}

/// The user properties that a builder holds.
pub open spec fn spec_builder_pairs<'a>(o: Option<Vec<UTF8StringPairRef<'a>>>) -> Seq<UTF8StringPairRef<'a>> {
    match o {
        Some(v) => v@,
        None => Seq::empty(),
    }
}


/// Reading back the shortest encoding of a value up to the maximum gives
/// that value, whatever bytes follow it.
pub proof fn lemma_parse_var_int_roundtrip(n: nat, rest: Seq<u8>)
    requires
        n <= VarSizeInt::MAX,
    ensures
        spec_parse_var_size_int(spec_var_int_encoding(n) + rest) == Ok::<(VarSizeInt, nat), ConversionError>(
            (spec_var_size_int_from(n).unwrap(), spec_var_int_len(n)),
        ),
        spec_var_size_int_from(n).unwrap().spec_value() == n,
        spec_var_int_encoding(n).len() == spec_var_int_len(n),
{
    lemma_var_size_int_from_valid(n);
    let v = spec_var_size_int_from(n).unwrap();
    lemma_var_size_int_roundtrip(v, rest);
}

/// Reading back the shortest encoding of a value at the start of `s`, and
/// the bytes after it.
pub proof fn lemma_var_int_prefix(n: nat, rest: Seq<u8>)
    requires
        n <= VarSizeInt::MAX,
    ensures
        spec_parse_var_size_int(spec_var_int_encoding(n) + rest) == Ok::<(VarSizeInt, nat), ConversionError>(
            (spec_var_size_int_from(n).unwrap(), spec_var_int_len(n)),
        ),
        spec_var_size_int_from(n).unwrap().spec_value() == n,
        (spec_var_int_encoding(n) + rest).skip(spec_var_int_len(n) as int) == rest,
{
    lemma_parse_var_int_roundtrip(n, rest);
    lemma_skip_prefix(spec_var_int_encoding(n), rest);
}

/// A property that reads back as itself: its identifier is known, its
/// value is of the kind the identifier names and within its limits
/// (texts and data of at most 65535 bytes, texts valid UTF-8, no zero
/// where zero is refused).
pub open spec fn spec_property_valid(p: PropertyV) -> bool {
    if is_bool_id(p.id) {
        p.val is Bool
    } else if p.id == MAXIMUM_QOS {
        p.val is Qos
    } else if is_u16_id(p.id) {
        p.val is U16
    } else if is_non_zero_u16_id(p.id) {
        p.val matches PropVal::U16(v) && v != 0
    } else if is_u32_id(p.id) {
        p.val is U32
    } else if p.id == MAXIMUM_PACKET_SIZE {
        p.val matches PropVal::U32(v) && v != 0
    } else if p.id == SUBSCRIPTION_IDENTIFIER {
        p.val matches PropVal::VarInt(v) && v.wf() && v.spec_value() != 0
    } else if is_binary_id(p.id) {
        p.val matches PropVal::Data(d) && d.len() <= 65535
    } else if is_string_id(p.id) {
        p.val matches PropVal::Data(d) && d.len() <= 65535 && valid_utf8(d)
    } else if p.id == USER_PROPERTY {
        p.val matches PropVal::Pair(k, v) && k.len() <= 65535 && v.len() <= 65535 && valid_utf8(k)
            && valid_utf8(v)
    } else {
        false
    }
}

/// Reading back a boolean property value.
proof fn lemma_parse_bool_value(id: u8, b: bool, rest: Seq<u8>)
    requires
        is_bool_id(id),
    ensures
        spec_parse_property_value(id, spec_prop_val_encoding(PropVal::Bool(b)) + rest) == Some(
            Ok::<(PropVal, nat), ConversionError>((PropVal::Bool(b), 1)),
        ),
{
    reveal(spec_parse_property_value);
    let body = spec_prop_val_encoding(PropVal::Bool(b)) + rest;
    assert(body[0] == if b { 1u8 } else { 0u8 });
}

/// Reading back a quality of service property value.
proof fn lemma_parse_qos_value(id: u8, q: QoS, rest: Seq<u8>)
    requires
        id == MAXIMUM_QOS,
    ensures
        spec_parse_property_value(id, spec_prop_val_encoding(PropVal::Qos(q)) + rest) == Some(
            Ok::<(PropVal, nat), ConversionError>((PropVal::Qos(q), 1)),
        ),
{
    reveal(spec_parse_property_value);
    let body = spec_prop_val_encoding(PropVal::Qos(q)) + rest;
    assert(body[0] == spec_qos_byte(q));
}

/// Reading back a two byte integer property value.
proof fn lemma_parse_u16_value(id: u8, v: u16, rest: Seq<u8>)
    requires
        is_u16_id(id) || (is_non_zero_u16_id(id) && v != 0),
    ensures
        spec_parse_property_value(id, spec_prop_val_encoding(PropVal::U16(v)) + rest) == Some(
            Ok::<(PropVal, nat), ConversionError>((PropVal::U16(v), 2)),
        ),
{
    reveal(spec_parse_property_value);
    lemma_parse_u16_roundtrip(v, rest);
}

/// Reading back a four byte integer property value.
proof fn lemma_parse_u32_value(id: u8, v: u32, rest: Seq<u8>)
    requires
        is_u32_id(id) || (id == MAXIMUM_PACKET_SIZE && v != 0),
    ensures
        spec_parse_property_value(id, spec_prop_val_encoding(PropVal::U32(v)) + rest) == Some(
            Ok::<(PropVal, nat), ConversionError>((PropVal::U32(v), 4)),
        ),
{
    reveal(spec_parse_property_value);
    lemma_parse_u32_roundtrip(v, rest);
}

/// Reading back a subscription identifier property value.
proof fn lemma_parse_var_int_value(id: u8, v: VarSizeInt, rest: Seq<u8>)
    requires
        id == SUBSCRIPTION_IDENTIFIER,
        v.wf(),
        v.spec_value() != 0,
    ensures
        spec_parse_property_value(id, spec_prop_val_encoding(PropVal::VarInt(v)) + rest) == Some(
            Ok::<(PropVal, nat), ConversionError>((PropVal::VarInt(v), v.spec_len())),
        ),
        v.spec_encode().len() == v.spec_len(),
{
    reveal(spec_parse_property_value);
    lemma_var_size_int_roundtrip(v, rest);
}

/// Reading back a binary or text property value.
proof fn lemma_parse_data_value(id: u8, d: Seq<u8>, rest: Seq<u8>)
    requires
        is_binary_id(id) || is_string_id(id),
        d.len() <= 65535,
        is_string_id(id) ==> valid_utf8(d),
    ensures
        spec_parse_property_value(id, spec_prop_val_encoding(PropVal::Data(d)) + rest) == Some(
            Ok::<(PropVal, nat), ConversionError>((PropVal::Data(d), d.len() + 2)),
        ),
{
    reveal(spec_parse_property_value);
    lemma_parse_binary_roundtrip(d, rest);
    if is_string_id(id) {
        lemma_parse_utf8_string_roundtrip(d, rest);
    }
}

/// Reading back a user property value.
proof fn lemma_parse_pair_value(id: u8, k: Seq<u8>, v: Seq<u8>, rest: Seq<u8>)
    requires
        id == USER_PROPERTY,
        k.len() <= 65535,
        v.len() <= 65535,
        valid_utf8(k),
        valid_utf8(v),
    ensures
        spec_parse_property_value(id, spec_prop_val_encoding(PropVal::Pair(k, v)) + rest) == Some(
            Ok::<(PropVal, nat), ConversionError>((PropVal::Pair(k, v), spec_pair_encoding(k, v).len())),
        ),
{
    reveal(spec_parse_property_value);
    lemma_parse_utf8_string_pair_roundtrip(k, v, rest);
}

/// Reading back the value of a property gives the same value, whatever
/// bytes follow it.
proof fn lemma_parse_property_value_roundtrip(p: PropertyV, rest: Seq<u8>)
    requires
        spec_property_valid(p),
    ensures
        spec_parse_property_value(p.id, spec_prop_val_encoding(p.val) + rest) == Some(
            Ok::<(PropVal, nat), ConversionError>((p.val, spec_prop_val_encoding(p.val).len())),
        ),
{
    match p.val {
        PropVal::Bool(b) => lemma_parse_bool_value(p.id, b, rest),
        PropVal::Qos(q) => lemma_parse_qos_value(p.id, q, rest),
        PropVal::U16(v) => lemma_parse_u16_value(p.id, v, rest),
        PropVal::U32(v) => lemma_parse_u32_value(p.id, v, rest),
        PropVal::VarInt(v) => lemma_parse_var_int_value(p.id, v, rest),
        PropVal::Data(d) => lemma_parse_data_value(p.id, d, rest),
        PropVal::Pair(k, v) => lemma_parse_pair_value(p.id, k, v, rest),
    }
}

/// Reading back a written property gives the same property, whatever
/// bytes follow it.
pub proof fn lemma_parse_property_roundtrip(p: PropertyV, rest: Seq<u8>)
    requires
        spec_property_valid(p),
    ensures
        spec_parse_property(spec_property_encoding(p) + rest) == Ok::<(PropertyV, nat), PropertyError>(
            (p, spec_property_encoding(p).len()),
        ),
{
    let s = spec_property_encoding(p) + rest;
    let body = spec_prop_val_encoding(p.val) + rest;
    assert(s[0] == p.id);
    assert(s.skip(1) =~= body);
    lemma_parse_property_value_roundtrip(p, rest);
}

/// The encodings of properties, one after another.
pub open spec fn spec_props_encoding(ps: Seq<PropertyV>) -> Seq<u8>
    decreases ps.len(),
{
    if ps.len() == 0 {
        Seq::empty()
    } else {
        spec_property_encoding(ps[0]) + spec_props_encoding(ps.skip(1))
    }
}

/// Applying properties in order to `acc`; `None` where one is refused.
pub open spec fn spec_apply_all<A>(
    ps: Seq<PropertyV>,
    acc: A,
    apply: spec_fn(A, PropertyV) -> Option<A>,
) -> Option<A>
    decreases ps.len(),
{
    if ps.len() == 0 {
        Some(acc)
    } else {
        match apply(acc, ps[0]) {
            None => None,
            Some(a) => spec_apply_all(ps.skip(1), a, apply),
        }
    }
}

/// Reading back written properties applies each of them in order: the
/// result is what applying them gives, or [UnexpectedProperty] where one
/// is refused.
pub proof fn lemma_fold_properties_roundtrip<A>(
    ps: Seq<PropertyV>,
    acc: A,
    apply: spec_fn(A, PropertyV) -> Option<A>,
)
    requires
        forall|i: int| 0 <= i < ps.len() ==> spec_property_valid(#[trigger] ps[i]),
    ensures
        spec_fold_properties(spec_props_encoding(ps), acc, apply) == match spec_apply_all(ps, acc, apply) {
            Some(a) => Ok::<A, CodecError>(a),
            None => Err(CodecError::UnexpectedProperty(UnexpectedProperty)),
        },
    decreases ps.len(),
{
    if ps.len() > 0 {
        let s = spec_props_encoding(ps);
        let tail = spec_props_encoding(ps.skip(1));
        let e0 = spec_property_encoding(ps[0]);
        assert(spec_property_valid(ps[0]));
        lemma_parse_property_roundtrip(ps[0], tail);
        assert(s.subrange(e0.len() as int, s.len() as int) =~= tail);
        assert forall|i: int| 0 <= i < ps.skip(1).len() implies spec_property_valid(#[trigger] ps.skip(1)[i]) by {
            assert(spec_property_valid(ps[i + 1]));
        }
        match apply(acc, ps[0]) {
            Some(a) => {
                lemma_fold_properties_roundtrip(ps.skip(1), a, apply);
            },
            None => {},
        }
    }
}

/// The encoding of properties one after another splits where the
/// sequence does.
pub proof fn lemma_props_encoding_concat(a: Seq<PropertyV>, b: Seq<PropertyV>)
    ensures
        spec_props_encoding(a + b) == spec_props_encoding(a) + spec_props_encoding(b),
    decreases a.len(),
{
    if a.len() == 0 {
        assert(a + b =~= b);
        assert(spec_props_encoding(a) + spec_props_encoding(b) =~= spec_props_encoding(b));
    } else {
        assert((a + b).skip(1) =~= a.skip(1) + b);
        lemma_props_encoding_concat(a.skip(1), b);
        assert((a + b)[0] == a[0]);
        assert(spec_props_encoding(a + b) =~= spec_props_encoding(a) + spec_props_encoding(b));
    }
}

/// The encoding of a single property.
pub proof fn lemma_props_encoding_single(p: PropertyV)
    ensures
        spec_props_encoding(seq![p]) == spec_property_encoding(p),
{
    let one = seq![p];
    assert(one.skip(1) =~= Seq::<PropertyV>::empty());
    assert(spec_props_encoding(one.skip(1)) == Seq::<u8>::empty());
    assert(spec_props_encoding(one) =~= spec_property_encoding(p));
}

/// Applying a single property.
pub proof fn lemma_apply_all_single<A>(p: PropertyV, acc: A, apply: spec_fn(A, PropertyV) -> Option<A>)
    ensures
        spec_apply_all(seq![p], acc, apply) == apply(acc, p),
{
    let one = seq![p];
    assert(one.skip(1) =~= Seq::<PropertyV>::empty());
    match apply(acc, p) {
        Some(a) => {
            assert(spec_apply_all(one.skip(1), a, apply) == Some(a));
        },
        None => {},
    }
}

/// Applying properties one after another splits where the sequence does.
pub proof fn lemma_apply_all_concat<A>(
    a: Seq<PropertyV>,
    b: Seq<PropertyV>,
    acc: A,
    apply: spec_fn(A, PropertyV) -> Option<A>,
)
    ensures
        spec_apply_all(a + b, acc, apply) == match spec_apply_all(a, acc, apply) {
            Some(x) => spec_apply_all(b, x, apply),
            None => None,
        },
    decreases a.len(),
{
    if a.len() == 0 {
        assert(a + b =~= b);
    } else {
        assert((a + b).skip(1) =~= a.skip(1) + b);
        assert((a + b)[0] == a[0]);
        match apply(acc, a[0]) {
            Some(x) => {
                lemma_apply_all_concat(a.skip(1), b, x, apply);
            },
            None => {},
        }
    }
}

/// The user property that a key-value pair is written as.
pub open spec fn spec_user_prop_v(u: UTF8StringPairRef) -> PropertyV {
    PropertyV { id: USER_PROPERTY, val: PropVal::Pair(u.0.spec_bytes(), u.1.spec_bytes()) }
}

/// The user properties that key-value pairs are written as, in order.
pub open spec fn spec_user_prop_vs(ups: Seq<UTF8StringPairRef>) -> Seq<PropertyV> {
    ups.map_values(|u: UTF8StringPairRef| spec_user_prop_v(u))
}

/// The bytes of key and value of each pair to be written, in order.
pub open spec fn spec_pair_bytes(v: Seq<UTF8StringPairRef>) -> Seq<(Seq<u8>, Seq<u8>)> {
    v.map_values(|p: UTF8StringPairRef| (p.0.spec_bytes(), p.1.spec_bytes()))
}

/// Key and value of each pair fit a two byte length.
pub open spec fn spec_pairs_fit(ups: Seq<UTF8StringPairRef>) -> bool {
    forall|i: int|
        0 <= i < ups.len() ==> (#[trigger] ups[i]).0.spec_bytes().len() <= 65535
            && ups[i].1.spec_bytes().len() <= 65535
}

/// Written user properties are the encodings of their properties, and
/// each of them reads back as itself when its texts fit.
pub proof fn lemma_user_props_encoding(ups: Seq<UTF8StringPairRef>)
    ensures
        spec_user_props(ups) == spec_props_encoding(spec_user_prop_vs(ups)),
        spec_pairs_fit(ups) ==> forall|i: int|
            0 <= i < spec_user_prop_vs(ups).len() ==> spec_property_valid(#[trigger] spec_user_prop_vs(ups)[i]),
    decreases ups.len(),
{
    if ups.len() > 0 {
        let init = ups.drop_last();
        lemma_user_props_encoding(init);
        assert(spec_user_prop_vs(ups) =~= spec_user_prop_vs(init) + seq![spec_user_prop_v(ups.last())]);
        lemma_props_encoding_concat(spec_user_prop_vs(init), seq![spec_user_prop_v(ups.last())]);
        lemma_props_encoding_single(spec_user_prop_v(ups.last()));
        assert(spec_user_props(ups) =~= spec_props_encoding(spec_user_prop_vs(ups)));
    }
    assert forall|i: int|
        spec_pairs_fit(ups) && 0 <= i < spec_user_prop_vs(ups).len() implies spec_property_valid(
        #[trigger] spec_user_prop_vs(ups)[i],
    ) by {
        let u = ups[i];
        encode_utf8_valid_utf8(u.0@);
        encode_utf8_valid_utf8(u.1@);
    }
}

/// The optional text property that a field is written as.
pub open spec fn spec_opt_str_prop_vs(id: u8, o: Option<UTF8StringRef>) -> Seq<PropertyV> {
    match o {
        Some(s) => seq![PropertyV { id, val: PropVal::Data(s.0.spec_bytes()) }],
        None => Seq::empty(),
    }
}

/// An optional text fits a two byte length.
pub open spec fn spec_opt_str_fits(o: Option<UTF8StringRef>) -> bool {
    match o {
        Some(s) => s.0.spec_bytes().len() <= 65535,
        None => true,
    }
}

/// A written optional text property is the encoding of its property, which
/// reads back as itself when its identifier names a text and it fits.
pub proof fn lemma_opt_str_prop_encoding(id: u8, o: Option<UTF8StringRef>)
    ensures
        spec_opt_str_prop(id, o) == spec_props_encoding(spec_opt_str_prop_vs(id, o)),
        is_string_id(id) && spec_opt_str_fits(o) ==> forall|i: int|
            0 <= i < spec_opt_str_prop_vs(id, o).len() ==> spec_property_valid(
                #[trigger] spec_opt_str_prop_vs(id, o)[i],
            ),
{
    match o {
        Some(s) => {
            lemma_props_encoding_single(PropertyV { id, val: PropVal::Data(s.0.spec_bytes()) });
            encode_utf8_valid_utf8(s.0@);
        },
        None => {},
    }
}


/// The optional binary property that a field is written as.
pub open spec fn spec_opt_bin_prop_vs(id: u8, o: Option<BinaryRef>) -> Seq<PropertyV> {
    match o {
        Some(b) => seq![PropertyV { id, val: PropVal::Data(b.0@) }],
        None => Seq::empty(),
    }
}

/// Optional binary data fits a two byte length.
pub open spec fn spec_opt_bin_fits(o: Option<BinaryRef>) -> bool {
    match o {
        Some(b) => b.0@.len() <= 65535,
        None => true,
    }
}

/// A written optional binary property is the encoding of its property,
/// which reads back as itself when its identifier names binary data and
/// it fits.
pub proof fn lemma_opt_bin_prop_encoding(id: u8, o: Option<BinaryRef>)
    ensures
        spec_opt_bin_prop(id, o) == spec_props_encoding(spec_opt_bin_prop_vs(id, o)),
        is_binary_id(id) && spec_opt_bin_fits(o) ==> spec_props_valid(spec_opt_bin_prop_vs(id, o)),
{
    match o {
        Some(b) => {
            lemma_props_encoding_single(PropertyV { id, val: PropVal::Data(b.0@) });
        },
        None => {},
    }
}

/// Each of the properties reads back as itself.
pub open spec fn spec_props_valid(ps: Seq<PropertyV>) -> bool {
    forall|i: int| 0 <= i < ps.len() ==> spec_property_valid(#[trigger] ps[i])
}

/// Properties that each read back as themselves, one after another.
pub proof fn lemma_props_valid_concat(a: Seq<PropertyV>, b: Seq<PropertyV>)
    requires
        spec_props_valid(a),
        spec_props_valid(b),
    ensures
        spec_props_valid(a + b),
{
    assert forall|i: int| 0 <= i < (a + b).len() implies spec_property_valid(#[trigger] (a + b)[i]) by {
        if i < a.len() {
            assert(spec_property_valid(a[i]));
        } else {
            assert(spec_property_valid(b[i - a.len()]));
        }
    }
}

/// Applying at most one property.
pub proof fn lemma_apply_all_at_most_one<A>(
    ps: Seq<PropertyV>,
    acc: A,
    apply: spec_fn(A, PropertyV) -> Option<A>,
)
    requires
        ps.len() <= 1,
    ensures
        spec_apply_all(ps, acc, apply) == if ps.len() == 0 {
            Some(acc)
        } else {
            apply(acc, ps[0])
        },
{
    if ps.len() == 1 {
        assert(ps =~= seq![ps[0]]);
        lemma_apply_all_single(ps[0], acc, apply);
    }
}


/// The optional boolean property that a field is written as.
pub open spec fn spec_opt_bool_prop_vs(id: u8, o: Option<bool>) -> Seq<PropertyV> {
    match o {
        Some(b) => seq![PropertyV { id, val: PropVal::Bool(b) }],
        None => Seq::empty(),
    }
}

/// A written optional boolean property is the encoding of its property,
/// which reads back as itself when its identifier names a boolean.
pub proof fn lemma_opt_bool_prop_encoding(id: u8, o: Option<bool>)
    ensures
        spec_opt_bool_prop(id, o) == spec_props_encoding(spec_opt_bool_prop_vs(id, o)),
        is_bool_id(id) ==> spec_props_valid(spec_opt_bool_prop_vs(id, o)),
{
    match o {
        Some(b) => {
            let p = PropertyV { id, val: PropVal::Bool(b) };
            lemma_props_encoding_single(p);
            assert(spec_property_encoding(p) =~= spec_opt_bool_prop(id, o));
        },
        None => {},
    }
}

/// The optional two byte integer property that a field is written as.
pub open spec fn spec_opt_u16_prop_vs(id: u8, o: Option<u16>) -> Seq<PropertyV> {
    match o {
        Some(v) => seq![PropertyV { id, val: PropVal::U16(v) }],
        None => Seq::empty(),
    }
}

/// A written optional two byte integer property is the encoding of its
/// property, which reads back as itself when its identifier names a two
/// byte integer that is not zero where zero is refused.
pub proof fn lemma_opt_u16_prop_encoding(id: u8, o: Option<u16>)
    ensures
        spec_opt_u16_prop(id, o) == spec_props_encoding(spec_opt_u16_prop_vs(id, o)),
        is_u16_id(id) || (is_non_zero_u16_id(id) && o != Some(0u16)) ==> spec_props_valid(
            spec_opt_u16_prop_vs(id, o),
        ),
{
    match o {
        Some(v) => {
            let p = PropertyV { id, val: PropVal::U16(v) };
            lemma_props_encoding_single(p);
        },
        None => {},
    }
}

/// The optional four byte integer property that a field is written as.
pub open spec fn spec_opt_u32_prop_vs(id: u8, o: Option<u32>) -> Seq<PropertyV> {
    match o {
        Some(v) => seq![PropertyV { id, val: PropVal::U32(v) }],
        None => Seq::empty(),
    }
}

/// A written optional four byte integer property is the encoding of its
/// property, which reads back as itself when its identifier names a four
/// byte integer.
pub proof fn lemma_opt_u32_prop_encoding(id: u8, o: Option<u32>)
    ensures
        spec_opt_u32_prop(id, o) == spec_props_encoding(spec_opt_u32_prop_vs(id, o)),
        is_u32_id(id) ==> spec_props_valid(spec_opt_u32_prop_vs(id, o)),
{
    match o {
        Some(v) => {
            let p = PropertyV { id, val: PropVal::U32(v) };
            lemma_props_encoding_single(p);
        },
        None => {},
    }
}

} // verus!
