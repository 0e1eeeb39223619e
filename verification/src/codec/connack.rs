//! The CONNACK packet: the server's answer to a connection request.
use crate::buffer::{bytes_as_slice, bytes_view};
use crate::types::base_types::{Binary, NonZero, QoS, UTF8String, VarSizeInt};
use crate::types::collections::UserProperties;
use crate::types::decoder::{spec_parse_bool, spec_parse_var_size_int, Decoder};
use crate::types::error::{
    codec_error_of, CodecError, ConversionError, InsufficientBufferSize, InvalidPacketHeader,
    InvalidPacketSize, InvalidPropertyLength, InvalidValue, UnexpectedProperty,
};
use crate::types::properties::{
    lemma_fold_one_property, lemma_parse_bool_property_bytes, lemma_parse_empty_data_property_bytes,
    lemma_parse_empty_user_property_bytes, lemma_parse_qos_property_bytes, lemma_parse_u16_property_bytes,
    lemma_parse_u32_property_bytes, spec_fold_properties, spec_parse_property, PropVal, Property, PropertyV, ASSIGNED_CLIENT_IDENTIFIER,
    AUTHENTICATION_DATA, AUTHENTICATION_METHOD, MAXIMUM_PACKET_SIZE, MAXIMUM_QOS, REASON_STRING,
    RECEIVE_MAXIMUM, RESPONSE_INFORMATION, RETAIN_AVAILABLE, SERVER_KEEP_ALIVE, SERVER_REFERENCE,
    SESSION_EXPIRY_INTERVAL, SHARED_SUBSCRIPTION_AVAILABLE, SUBSCRIPTION_IDENTIFIER_AVAILABLE,
    TOPIC_ALIAS_MAXIMUM, USER_PROPERTY, WILDCARD_SUBSCRIPTION_AVAILABLE,
};
use crate::codec::ack::opt_str_view;
use bytes::Bytes;
use vstd::prelude::*;

verus! {

/// Reason for CONNACK packet.
#[derive(Copy, Clone, Debug, PartialEq, Eq, Structural)]
pub enum ConnectReason {
    /// Success.
    Success,
    /// Unspecified error.
    UnspecifiedError,
    /// Malformed packet.
    MalformedPacket,
    /// Protocol error.
    ProtocolError,
    /// Implementation specific error.
    ImplementationSpecificError,
    /// Unsupported protocol version.
    UnsupportedProtocolVersion,
    /// Client identifier not valid.
    ClientIdentifierNotValid,
    /// Bad user name or password.
    BadUserNameOrPassword,
    /// Not authorized.
    NotAuthorized,
    /// Server unavailable.
    ServerUnavailable,
    /// Server busy.
    ServerBusy,
    /// Banned.
    Banned,
    /// Bad uthentication method.
    BadUthenticationMethod,
    /// Topic name invalid.
    TopicNameInvalid,
    /// Packet too large.
    PacketTooLarge,
    /// Quota exceeded.
    QuotaExceeded,
    /// Payload format invalid.
    PayloadFormatInvalid,
    /// Retain not supported.
    RetainNotSupported,
    /// Qosnot supported.
    QoSNotSupported,
    /// Use another server.
    UseAnotherServer,
    /// Server moved.
    ServerMoved,
    /// Connection rate exceeded.
    ConnectionRateExceeded,
}

/// The reason code of a [ConnectReason] on the wire.
pub open spec fn spec_connect_reason_byte(r: ConnectReason) -> u8 {
    match r {
        ConnectReason::Success => 0x00,
        ConnectReason::UnspecifiedError => 0x80,
        ConnectReason::MalformedPacket => 0x81,
        ConnectReason::ProtocolError => 0x82,
        ConnectReason::ImplementationSpecificError => 0x83,
        ConnectReason::UnsupportedProtocolVersion => 0x84,
        ConnectReason::ClientIdentifierNotValid => 0x85,
        ConnectReason::BadUserNameOrPassword => 0x86,
        ConnectReason::NotAuthorized => 0x87,
        ConnectReason::ServerUnavailable => 0x88,
        ConnectReason::ServerBusy => 0x89,
        ConnectReason::Banned => 0x8a,
        ConnectReason::BadUthenticationMethod => 0x8c,
        ConnectReason::TopicNameInvalid => 0x90,
        ConnectReason::PacketTooLarge => 0x95,
        ConnectReason::QuotaExceeded => 0x97,
        ConnectReason::PayloadFormatInvalid => 0x99,
        ConnectReason::RetainNotSupported => 0x9a,
        ConnectReason::QoSNotSupported => 0x9b,
        ConnectReason::UseAnotherServer => 0x9c,
        ConnectReason::ServerMoved => 0x9d,
        ConnectReason::ConnectionRateExceeded => 0x9f,
    }
}

/// The [ConnectReason] with the given reason code, if there is one.
pub open spec fn spec_connect_reason_from_byte(val: u8) -> Result<ConnectReason, ConversionError> {
    if val == 0x00 {
        Ok(ConnectReason::Success)
    } else if val == 0x80 {
        Ok(ConnectReason::UnspecifiedError)
    } else if val == 0x81 {
        Ok(ConnectReason::MalformedPacket)
    } else if val == 0x82 {
        Ok(ConnectReason::ProtocolError)
    } else if val == 0x83 {
        Ok(ConnectReason::ImplementationSpecificError)
    } else if val == 0x84 {
        Ok(ConnectReason::UnsupportedProtocolVersion)
    } else if val == 0x85 {
        Ok(ConnectReason::ClientIdentifierNotValid)
    } else if val == 0x86 {
        Ok(ConnectReason::BadUserNameOrPassword)
    } else if val == 0x87 {
        Ok(ConnectReason::NotAuthorized)
    } else if val == 0x88 {
        Ok(ConnectReason::ServerUnavailable)
    } else if val == 0x89 {
        Ok(ConnectReason::ServerBusy)
    } else if val == 0x8a {
        Ok(ConnectReason::Banned)
    } else if val == 0x8c {
        Ok(ConnectReason::BadUthenticationMethod)
    } else if val == 0x90 {
        Ok(ConnectReason::TopicNameInvalid)
    } else if val == 0x95 {
        Ok(ConnectReason::PacketTooLarge)
    } else if val == 0x97 {
        Ok(ConnectReason::QuotaExceeded)
    } else if val == 0x99 {
        Ok(ConnectReason::PayloadFormatInvalid)
    } else if val == 0x9a {
        Ok(ConnectReason::RetainNotSupported)
    } else if val == 0x9b {
        Ok(ConnectReason::QoSNotSupported)
    } else if val == 0x9c {
        Ok(ConnectReason::UseAnotherServer)
    } else if val == 0x9d {
        Ok(ConnectReason::ServerMoved)
    } else if val == 0x9f {
        Ok(ConnectReason::ConnectionRateExceeded)
    } else {
        Err(ConversionError::InvalidValue(InvalidValue))
    }
}

impl TryFrom<u8> for ConnectReason {
    type Error = ConversionError;

    fn try_from(val: u8) -> (r: Result<Self, Self::Error>) {
        match val {
            0x00 => Ok(ConnectReason::Success),
            0x80 => Ok(ConnectReason::UnspecifiedError),
            0x81 => Ok(ConnectReason::MalformedPacket),
            0x82 => Ok(ConnectReason::ProtocolError),
            0x83 => Ok(ConnectReason::ImplementationSpecificError),
            0x84 => Ok(ConnectReason::UnsupportedProtocolVersion),
            0x85 => Ok(ConnectReason::ClientIdentifierNotValid),
            0x86 => Ok(ConnectReason::BadUserNameOrPassword),
            0x87 => Ok(ConnectReason::NotAuthorized),
            0x88 => Ok(ConnectReason::ServerUnavailable),
            0x89 => Ok(ConnectReason::ServerBusy),
            0x8a => Ok(ConnectReason::Banned),
            0x8c => Ok(ConnectReason::BadUthenticationMethod),
            0x90 => Ok(ConnectReason::TopicNameInvalid),
            0x95 => Ok(ConnectReason::PacketTooLarge),
            0x97 => Ok(ConnectReason::QuotaExceeded),
            0x99 => Ok(ConnectReason::PayloadFormatInvalid),
            0x9a => Ok(ConnectReason::RetainNotSupported),
            0x9b => Ok(ConnectReason::QoSNotSupported),
            0x9c => Ok(ConnectReason::UseAnotherServer),
            0x9d => Ok(ConnectReason::ServerMoved),
            0x9f => Ok(ConnectReason::ConnectionRateExceeded),
            _ => Err(ConversionError::InvalidValue(InvalidValue)),
        }
    }
}

impl vstd::std_specs::convert::TryFromSpecImpl<u8> for ConnectReason {
    open spec fn obeys_try_from_spec() -> bool {
        true
    }

    open spec fn try_from_spec(val: u8) -> Result<Self, ConversionError> {
        spec_connect_reason_from_byte(val)
    }
}

impl From<ConnectReason> for u8 {
    fn from(val: ConnectReason) -> (r: u8) {
        match val {
            ConnectReason::Success => 0x00,
            ConnectReason::UnspecifiedError => 0x80,
            ConnectReason::MalformedPacket => 0x81,
            ConnectReason::ProtocolError => 0x82,
            ConnectReason::ImplementationSpecificError => 0x83,
            ConnectReason::UnsupportedProtocolVersion => 0x84,
            ConnectReason::ClientIdentifierNotValid => 0x85,
            ConnectReason::BadUserNameOrPassword => 0x86,
            ConnectReason::NotAuthorized => 0x87,
            ConnectReason::ServerUnavailable => 0x88,
            ConnectReason::ServerBusy => 0x89,
            ConnectReason::Banned => 0x8a,
            ConnectReason::BadUthenticationMethod => 0x8c,
            ConnectReason::TopicNameInvalid => 0x90,
            ConnectReason::PacketTooLarge => 0x95,
            ConnectReason::QuotaExceeded => 0x97,
            ConnectReason::PayloadFormatInvalid => 0x99,
            ConnectReason::RetainNotSupported => 0x9a,
            ConnectReason::QoSNotSupported => 0x9b,
            ConnectReason::UseAnotherServer => 0x9c,
            ConnectReason::ServerMoved => 0x9d,
            ConnectReason::ConnectionRateExceeded => 0x9f,
        }
    }
}

impl vstd::std_specs::convert::FromSpecImpl<ConnectReason> for u8 {
    open spec fn obeys_from_spec() -> bool {
        true
    }

    open spec fn from_spec(val: ConnectReason) -> u8 {
        spec_connect_reason_byte(val)
    }
}

/// Reading back the code of a [ConnectReason] gives the same reason.
pub proof fn lemma_connect_reason_byte_roundtrip(r: ConnectReason)
    ensures
        spec_connect_reason_from_byte(spec_connect_reason_byte(r)) == Ok::<ConnectReason, ConversionError>(r),
{
}

/// The reason codes of a CONNACK packet are the MQTT 5 ones: each reason is
/// written as its code, a byte that is a code reads back as the reason with
/// that code, any other byte is an invalid value, and the reasons below
/// 0x80 are exactly the ones that report no failure.
pub proof fn lemma_connect_reason_codes()
    ensures
        spec_connect_reason_byte(ConnectReason::Success) == 0x00u8,
        spec_connect_reason_byte(ConnectReason::UnspecifiedError) == 0x80u8,
        spec_connect_reason_byte(ConnectReason::MalformedPacket) == 0x81u8,
        spec_connect_reason_byte(ConnectReason::ProtocolError) == 0x82u8,
        spec_connect_reason_byte(ConnectReason::ImplementationSpecificError) == 0x83u8,
        spec_connect_reason_byte(ConnectReason::UnsupportedProtocolVersion) == 0x84u8,
        spec_connect_reason_byte(ConnectReason::ClientIdentifierNotValid) == 0x85u8,
        spec_connect_reason_byte(ConnectReason::BadUserNameOrPassword) == 0x86u8,
        spec_connect_reason_byte(ConnectReason::NotAuthorized) == 0x87u8,
        spec_connect_reason_byte(ConnectReason::ServerUnavailable) == 0x88u8,
        spec_connect_reason_byte(ConnectReason::ServerBusy) == 0x89u8,
        spec_connect_reason_byte(ConnectReason::Banned) == 0x8au8,
        spec_connect_reason_byte(ConnectReason::BadUthenticationMethod) == 0x8cu8,
        spec_connect_reason_byte(ConnectReason::TopicNameInvalid) == 0x90u8,
        spec_connect_reason_byte(ConnectReason::PacketTooLarge) == 0x95u8,
        spec_connect_reason_byte(ConnectReason::QuotaExceeded) == 0x97u8,
        spec_connect_reason_byte(ConnectReason::PayloadFormatInvalid) == 0x99u8,
        spec_connect_reason_byte(ConnectReason::RetainNotSupported) == 0x9au8,
        spec_connect_reason_byte(ConnectReason::QoSNotSupported) == 0x9bu8,
        spec_connect_reason_byte(ConnectReason::UseAnotherServer) == 0x9cu8,
        spec_connect_reason_byte(ConnectReason::ServerMoved) == 0x9du8,
        spec_connect_reason_byte(ConnectReason::ConnectionRateExceeded) == 0x9fu8,
        forall|b: u8|
            (#[trigger] spec_connect_reason_from_byte(b)) is Ok <==> (b == 0x00 || b == 0x80 || b == 0x81 || b == 0x82 || b == 0x83 || b == 0x84 ||
                b == 0x85 || b == 0x86 || b == 0x87 || b == 0x88 || b == 0x89 || b == 0x8a ||
                b == 0x8c || b == 0x90 || b == 0x95 || b == 0x97 || b == 0x99 || b == 0x9a ||
                b == 0x9b || b == 0x9c || b == 0x9d || b == 0x9f),
        forall|b: u8| (#[trigger] spec_connect_reason_from_byte(b)) matches Ok(r) ==> spec_connect_reason_byte(r) == b,
        forall|b: u8|
            (#[trigger] spec_connect_reason_from_byte(b)) is Err ==> spec_connect_reason_from_byte(b) == Err::<
                ConnectReason,
                ConversionError,
            >(ConversionError::InvalidValue(InvalidValue)),
        forall|r: ConnectReason|
            (#[trigger] spec_connect_reason_byte(r)) < 0x80 <==> (r == ConnectReason::Success),
{
}

impl Default for ConnectReason {
    fn default() -> (r: Self)
        ensures
            r == ConnectReason::Success,
    {
        ConnectReason::Success
    }
}

/// The packet type of CONNACK.
pub const CONNACK_PACKET_ID: u8 = 2;

/// Received CONNACK packet as plain data.
pub struct ConnackV {
    /// Whether the server holds a session for the client.
    pub session_present: bool,
    /// Reason code.
    pub reason: ConnectReason,
    /// Whether wildcard subscriptions are available.
    pub wildcard_subscription_available: bool,
    /// Whether subscription identifiers are available.
    pub subscription_identifier_available: bool,
    /// Whether shared subscriptions are available.
    pub shared_subscription_available: bool,
    /// Highest QoS the server accepts.
    pub maximum_qos: QoS,
    /// Whether retained messages are available.
    pub retain_available: bool,
    /// Keep alive that the server asks for.
    pub server_keep_alive: Option<u16>,
    /// QoS>0 publications the server handles at once.
    pub receive_maximum: u16,
    /// Highest topic alias the server accepts.
    pub topic_alias_maximum: u16,
    /// Session expiry interval that the server chose.
    pub session_expiry_interval: Option<u32>,
    /// Largest packet the server accepts.
    pub maximum_packet_size: Option<u32>,
    /// Authentication data.
    pub authentication_data: Option<Seq<u8>>,
    /// Client identifier that the server assigned.
    pub assigned_client_identifier: Option<Seq<u8>>,
    /// Reason string.
    pub reason_string: Option<Seq<u8>>,
    /// Response information.
    pub response_information: Option<Seq<u8>>,
    /// Server reference.
    pub server_reference: Option<Seq<u8>>,
    /// Name of the authentication method.
    pub authentication_method: Option<Seq<u8>>,
    /// User properties, in order.
    pub user_property: Seq<(Seq<u8>, Seq<u8>)>,
}

/// Received CONNACK packet.
#[derive(Debug)]
pub struct ConnackRx {
    /// Whether the server holds a session for the client.
    pub session_present: bool,
    /// Reason code.
    pub reason: ConnectReason,
    /// Whether wildcard subscriptions are available.
    pub wildcard_subscription_available: bool,
    /// Whether subscription identifiers are available.
    pub subscription_identifier_available: bool,
    /// Whether shared subscriptions are available.
    pub shared_subscription_available: bool,
    /// Highest QoS the server accepts.
    pub maximum_qos: QoS,
    /// Whether retained messages are available.
    pub retain_available: bool,
    /// Keep alive that the server asks for.
    pub server_keep_alive: Option<u16>,
    /// QoS>0 publications the server handles at once.
    pub receive_maximum: NonZero<u16>,
    /// Highest topic alias the server accepts.
    pub topic_alias_maximum: u16,
    /// Session expiry interval that the server chose.
    pub session_expiry_interval: Option<u32>,
    /// Largest packet the server accepts.
    pub maximum_packet_size: Option<NonZero<u32>>,
    /// Authentication data.
    pub authentication_data: Option<Binary>,
    /// Client identifier that the server assigned.
    pub assigned_client_identifier: Option<UTF8String>,
    /// Reason string.
    pub reason_string: Option<UTF8String>,
    /// Response information.
    pub response_information: Option<UTF8String>,
    /// Server reference.
    pub server_reference: Option<UTF8String>,
    /// Name of the authentication method.
    pub authentication_method: Option<UTF8String>,
    /// User properties, in order.
    pub user_property: UserProperties,
}

impl View for ConnackRx {
    type V = ConnackV;

    open spec fn view(&self) -> ConnackV {
        ConnackV {
            session_present: self.session_present,
            reason: self.reason,
            wildcard_subscription_available: self.wildcard_subscription_available,
            subscription_identifier_available: self.subscription_identifier_available,
            shared_subscription_available: self.shared_subscription_available,
            maximum_qos: self.maximum_qos,
            retain_available: self.retain_available,
            server_keep_alive: self.server_keep_alive,
            receive_maximum: self.receive_maximum.spec_get(),
            topic_alias_maximum: self.topic_alias_maximum,
            session_expiry_interval: self.session_expiry_interval,
            maximum_packet_size: match self.maximum_packet_size {
                Some(v) => Some(v.spec_get()),
                None => None,
            },
            authentication_data: match self.authentication_data {
                Some(b) => Some(b@),
                None => None,
            },
            assigned_client_identifier: opt_str_view(self.assigned_client_identifier),
            reason_string: opt_str_view(self.reason_string),
            response_information: opt_str_view(self.response_information),
            server_reference: opt_str_view(self.server_reference),
            authentication_method: opt_str_view(self.authentication_method),
            user_property: self.user_property@,
        }
    }
}

/// A CONNACK packet without properties: every property has its default.
pub open spec fn spec_connack_empty(session_present: bool, reason: ConnectReason) -> ConnackV {
    ConnackV {
        session_present,
        reason,
        wildcard_subscription_available: true,
        subscription_identifier_available: true,
        shared_subscription_available: true,
        maximum_qos: QoS::ExactlyOnce,
        retain_available: true,
        server_keep_alive: None,
        receive_maximum: 65535,
        topic_alias_maximum: 0,
        session_expiry_interval: None,
        maximum_packet_size: None,
        authentication_data: None,
        assigned_client_identifier: None,
        reason_string: None,
        response_information: None,
        server_reference: None,
        authentication_method: None,
        user_property: Seq::empty(),
    }
}

/// The effect of a property on a received CONNACK packet.
pub open spec fn connack_apply(acc: ConnackV, p: PropertyV) -> Option<ConnackV> {
    match p.val {
        PropVal::Bool(b) => if p.id == WILDCARD_SUBSCRIPTION_AVAILABLE {
            Some(ConnackV { wildcard_subscription_available: b, ..acc })
        } else if p.id == SUBSCRIPTION_IDENTIFIER_AVAILABLE {
            Some(ConnackV { subscription_identifier_available: b, ..acc })
        } else if p.id == SHARED_SUBSCRIPTION_AVAILABLE {
            Some(ConnackV { shared_subscription_available: b, ..acc })
        } else if p.id == RETAIN_AVAILABLE {
            Some(ConnackV { retain_available: b, ..acc })
        } else {
            None
        },
        PropVal::Qos(q) => if p.id == MAXIMUM_QOS {
            Some(ConnackV { maximum_qos: q, ..acc })
        } else {
            None
        },
        PropVal::U16(v) => if p.id == SERVER_KEEP_ALIVE {
            Some(ConnackV { server_keep_alive: Some(v), ..acc })
        } else if p.id == RECEIVE_MAXIMUM {
            Some(ConnackV { receive_maximum: v, ..acc })
        } else if p.id == TOPIC_ALIAS_MAXIMUM {
            Some(ConnackV { topic_alias_maximum: v, ..acc })
        } else {
            None
        },
        PropVal::U32(v) => if p.id == SESSION_EXPIRY_INTERVAL {
            Some(ConnackV { session_expiry_interval: Some(v), ..acc })
        } else if p.id == MAXIMUM_PACKET_SIZE {
            Some(ConnackV { maximum_packet_size: Some(v), ..acc })
        } else {
            None
        },
        PropVal::Data(d) => if p.id == AUTHENTICATION_DATA {
            Some(ConnackV { authentication_data: Some(d), ..acc })
        } else if p.id == ASSIGNED_CLIENT_IDENTIFIER {
            Some(ConnackV { assigned_client_identifier: Some(d), ..acc })
        } else if p.id == REASON_STRING {
            Some(ConnackV { reason_string: Some(d), ..acc })
        } else if p.id == RESPONSE_INFORMATION {
            Some(ConnackV { response_information: Some(d), ..acc })
        } else if p.id == SERVER_REFERENCE {
            Some(ConnackV { server_reference: Some(d), ..acc })
        } else if p.id == AUTHENTICATION_METHOD {
            Some(ConnackV { authentication_method: Some(d), ..acc })
        } else {
            None
        },
        PropVal::Pair(k, v) => if p.id == USER_PROPERTY {
            Some(ConnackV { user_property: acc.user_property.push((k, v)), ..acc })
        } else {
            None
        },
        PropVal::VarInt(_) => None,
    }
}

/// [connack_apply] as a function value.
pub open spec fn connack_apply_fn() -> spec_fn(ConnackV, PropertyV) -> Option<ConnackV> {
    |a: ConnackV, p: PropertyV| connack_apply(a, p)
}

/// Reading a CONNACK packet from `s`: a fixed header of packet type 2
/// (flags are not looked at), remaining length (the whole packet may not
/// exceed `s`), the session present flag, reason code, property length
/// (at most the bytes that follow) and the properties up to the end of `s`.
pub open spec fn spec_decode_connack(s: Seq<u8>) -> Result<ConnackV, CodecError> {
    if s.len() == 0 {
        Err(codec_error_of(ConversionError::InsufficientBufferSize(InsufficientBufferSize)))
    } else if s[0] / 16 != CONNACK_PACKET_ID {
        Err(CodecError::InvalidPacketHeader(InvalidPacketHeader))
    } else {
        let s1 = s.skip(1);
        match spec_parse_var_size_int(s1) {
            Err(e) => Err(codec_error_of(e)),
            Ok((rl, n1)) => {
                let s2 = s1.skip(n1 as int);
                if 1 + rl.spec_len() + rl.spec_value() > s.len() {
                    Err(CodecError::InvalidPacketSize(InvalidPacketSize))
                } else {
                    match spec_parse_bool(s2) {
                        Err(e) => Err(codec_error_of(e)),
                        Ok((session_present, n2)) => {
                            let s3 = s2.skip(n2 as int);
                            if s3.len() == 0 {
                                Err(codec_error_of(ConversionError::InsufficientBufferSize(InsufficientBufferSize)))
                            } else {
                                match spec_connect_reason_from_byte(s3[0]) {
                                    Err(e) => Err(codec_error_of(e)),
                                    Ok(reason) => {
                                        let s4 = s3.skip(1);
                                        match spec_parse_var_size_int(s4) {
                                            Err(e) => Err(codec_error_of(e)),
                                            Ok((pl, n4)) => {
                                                let s5 = s4.skip(n4 as int);
                                                if pl.spec_value() > s5.len() {
                                                    Err(CodecError::InvalidPropertyLength(InvalidPropertyLength))
                                                } else {
                                                    spec_fold_properties(
                                                        s5,
                                                        spec_connack_empty(session_present, reason),
                                                        connack_apply_fn(),
                                                    )
                                                }
                                            },
                                        }
                                    },
                                }
                            }
                        },
                    }
                }
            },
        }
    }
}

impl ConnackRx {
    /// Decodes a CONNACK packet from a received buffer.
    #[verifier::rlimit(40)]
    pub fn try_decode(buf: Bytes) -> (r: Result<Self, CodecError>)
        ensures
            match spec_decode_connack(bytes_view(buf)) {
                Ok(v) => r matches Ok(p) && p@ == v,
                Err(e) => r == Err::<Self, CodecError>(e),
            },
    {
        let ghost s = bytes_view(buf);
        let total = bytes_as_slice(&buf).len();
        let mut decoder = Decoder::from_bytes(buf);
        let fixed_hdr = match decoder.try_decode_u8() {
            Ok(v) => v,
            Err(e) => return Err(e.into_codec_error()),
        };
        assert(fixed_hdr >> 4u8 == fixed_hdr / 16) by (bit_vector);
        if fixed_hdr >> 4u8 != CONNACK_PACKET_ID {
            return Err(CodecError::InvalidPacketHeader(InvalidPacketHeader));
        }
        assert(decoder.rest() =~= s.skip(1));
        let remaining_len = match decoder.try_decode_var_size_int() {
            Ok(v) => v,
            Err(e) => return Err(e.into_codec_error()),
        };
        let packet_size = 1 + remaining_len.len() + remaining_len.value() as usize;
        if packet_size > total {
            return Err(CodecError::InvalidPacketSize(InvalidPacketSize));
        }
        let session_present = match decoder.try_decode_bool() {
            Ok(v) => v,
            Err(e) => return Err(e.into_codec_error()),
        };
        let code = match decoder.try_decode_u8() {
            Ok(v) => v,
            Err(e) => return Err(e.into_codec_error()),
        };
        let reason = match ConnectReason::try_from(code) {
            Ok(v) => v,
            Err(e) => return Err(e.into_codec_error()),
        };
        let property_len = match decoder.try_decode_var_size_int() {
            Ok(v) => v,
            Err(e) => return Err(e.into_codec_error()),
        };
        if property_len.value() as usize > decoder.remaining() {
            return Err(CodecError::InvalidPropertyLength(InvalidPropertyLength));
        }
        Self::decode_properties(&mut decoder, ConnackRx::empty(session_present, reason))
    }

    /// A packet without properties.
    fn empty(session_present: bool, reason: ConnectReason) -> (r: Self)
        ensures
            r@ == spec_connack_empty(session_present, reason),
    {
        let r = ConnackRx {
            session_present,
            reason,
            wildcard_subscription_available: true,
            subscription_identifier_available: true,
            shared_subscription_available: true,
            maximum_qos: QoS::ExactlyOnce,
            retain_available: true,
            server_keep_alive: None,
            receive_maximum: NonZero(65535u16),
            topic_alias_maximum: 0,
            session_expiry_interval: None,
            maximum_packet_size: None,
            authentication_data: None,
            assigned_client_identifier: None,
            reason_string: None,
            response_information: None,
            server_reference: None,
            authentication_method: None,
            user_property: UserProperties::new(),
        };
        assert(r@.user_property =~= Seq::<(Seq<u8>, Seq<u8>)>::empty());
        r
    }

    /// Applies a property read from the packet; false where the packet
    /// does not accept it.
    fn apply_property(&mut self, property: Property) -> (ok: bool)
        ensures
            ok == connack_apply(old(self)@, property@) is Some,
            ok ==> final(self)@ == connack_apply(old(self)@, property@).unwrap(),
    {
        match property {
            Property::WildcardSubscriptionAvailable(val) => {
                self.wildcard_subscription_available = val;
            },
            Property::SubscriptionIdentifierAvailable(val) => {
                self.subscription_identifier_available = val;
            },
            Property::SharedSubscriptionAvailable(val) => {
                self.shared_subscription_available = val;
            },
            Property::MaximumQoS(val) => {
                self.maximum_qos = val;
            },
            Property::RetainAvailable(val) => {
                self.retain_available = val;
            },
            Property::ServerKeepAlive(val) => {
                self.server_keep_alive = Some(val);
            },
            Property::ReceiveMaximum(val) => {
                self.receive_maximum = val;
            },
            Property::TopicAliasMaximum(val) => {
                self.topic_alias_maximum = val;
            },
            Property::SessionExpiryInterval(val) => {
                self.session_expiry_interval = Some(val);
            },
            Property::MaximumPacketSize(val) => {
                self.maximum_packet_size = Some(val);
            },
            Property::AuthenticationData(val) => {
                self.authentication_data = Some(val);
            },
            Property::AssignedClientIdentifier(val) => {
                self.assigned_client_identifier = Some(val);
            },
            Property::ReasonString(val) => {
                self.reason_string = Some(val);
            },
            Property::ResponseInformation(val) => {
                self.response_information = Some(val);
            },
            Property::ServerReference(val) => {
                self.server_reference = Some(val);
            },
            Property::AuthenticationMethod(val) => {
                self.authentication_method = Some(val);
            },
            Property::UserProperty(val) => {
                self.user_property.push(val);
            },
            _ => {
                return false;
            },
        }
        true
    }

    /// Reads the properties that fill the rest of the packet into `init`.
    #[verifier::rlimit(30)]
    fn decode_properties(decoder: &mut Decoder, init: Self) -> (r: Result<Self, CodecError>)
        requires
            old(decoder).wf(),
        ensures
            match spec_fold_properties(old(decoder).rest(), init@, connack_apply_fn()) {
                Ok(v) => r matches Ok(p) && p@ == v,
                Err(e) => r == Err::<Self, CodecError>(e),
            },
    {
        let ghost target = spec_fold_properties(decoder.rest(), init@, connack_apply_fn());
        let mut packet = init;
        while decoder.remaining() != 0
            invariant
                decoder.wf(),
                target == spec_fold_properties(old(decoder).rest(), init@, connack_apply_fn()),
                spec_fold_properties(decoder.rest(), packet@, connack_apply_fn()) == target,
            decreases decoder.rest().len(),
        {
            assert(decoder.rest().len() > 0);
            let property = match decoder.try_decode_property() {
                Ok(p) => p,
                Err(e) => return Err(e.into_codec_error()),
            };
            if !packet.apply_property(property) {
                return Err(CodecError::UnexpectedProperty(UnexpectedProperty));
            }
        }
        Ok(packet)
    }
}


/// A CONNACK packet with the given flags byte, reason code byte and the
/// single property `e` reads as that property applied to the packet
/// without properties.
proof fn lemma_connack_one_property(sp: u8, rb: u8, e: Seq<u8>)
    requires
        sp <= 1,
        spec_connect_reason_from_byte(rb) is Ok,
        e.len() <= 124,
        spec_parse_property(e) is Ok,
        spec_parse_property(e)->Ok_0.1 == e.len(),
    ensures
        spec_decode_connack(seq![0x20u8, (e.len() + 3) as u8, sp, rb, e.len() as u8] + e) == match connack_apply(
            spec_connack_bare(sp, rb),
            spec_parse_property(e)->Ok_0.0,
        ) {
            Some(a) => Ok::<ConnackV, CodecError>(a),
            None => Err(CodecError::UnexpectedProperty(UnexpectedProperty)),
        },
{
    let s = seq![0x20u8, (e.len() + 3) as u8, sp, rb, e.len() as u8] + e;
    let s1 = s.skip(1);
    assert(s1[0] == (e.len() + 3) as u8);
    let s2 = s1.skip(1);
    assert(s2[0] == sp);
    let s3 = s2.skip(1);
    assert(s3[0] == rb);
    let s4 = s3.skip(1);
    assert(s4[0] == e.len() as u8);
    assert(s4.skip(1) =~= e);
    lemma_connack_defaults(sp, rb);
    lemma_fold_one_property(e, spec_connack_empty(sp == 1, spec_connect_reason_from_byte(rb)->Ok_0), connack_apply_fn());
}

/// What a CONNACK packet without properties reads as.
pub open spec fn spec_connack_bare(sp: u8, rb: u8) -> ConnackV {
    spec_decode_connack(seq![0x20u8, 3, sp, rb, 0])->Ok_0
}

/// A CONNACK packet without properties reads as its session present flag and
/// reason, with every property at its MQTT 5 default: wildcard,
/// subscription identifier and shared subscriptions and retained messages
/// available, QoS 2, a receive maximum of 65535, no topic aliases, and
/// nothing else set.
pub proof fn lemma_connack_defaults(sp: u8, rb: u8)
    requires
        sp <= 1,
        spec_connect_reason_from_byte(rb) is Ok,
    ensures
        spec_decode_connack(seq![0x20u8, 3, sp, rb, 0]) == Ok::<ConnackV, CodecError>(
            ConnackV {
                session_present: sp == 1,
                reason: spec_connect_reason_from_byte(rb)->Ok_0,
                wildcard_subscription_available: true,
                subscription_identifier_available: true,
                shared_subscription_available: true,
                maximum_qos: QoS::ExactlyOnce,
                retain_available: true,
                server_keep_alive: None,
                receive_maximum: 65535,
                topic_alias_maximum: 0,
                session_expiry_interval: None,
                maximum_packet_size: None,
                authentication_data: None,
                assigned_client_identifier: None,
                reason_string: None,
                response_information: None,
                server_reference: None,
                authentication_method: None,
                user_property: Seq::empty(),
            },
        ),
{
    let s = seq![0x20u8, 3, sp, rb, 0];
    let s1 = s.skip(1);
    assert(s1[0] == 3);
    let s2 = s1.skip(1);
    assert(s2[0] == sp);
    let s3 = s2.skip(1);
    assert(s3[0] == rb);
    let s4 = s3.skip(1);
    assert(s4[0] == 0);
    assert(s4.skip(1) =~= Seq::<u8>::empty());
}


/// A CONNACK packet whose only property sets `wildcard_subscription_available`.
proof fn lemma_connack_wildcard_subscription_available_property(sp: u8, rb: u8, b: u8)
    requires
        sp <= 1,
        b <= 1,
        spec_connect_reason_from_byte(rb) is Ok,
    ensures
        spec_decode_connack(seq![0x20u8, 5, sp, rb, 2, 0x28, b]) == Ok::<ConnackV, CodecError>(ConnackV { wildcard_subscription_available: b == 1, ..spec_connack_bare(sp, rb) }),
{
    lemma_connack_defaults(sp, rb);
    lemma_parse_bool_property_bytes(0x28, b);
    lemma_connack_one_property(sp, rb, seq![0x28u8, b]);
    assert(seq![0x20u8, 5, sp, rb, 2, 0x28, b] =~= seq![0x20u8, 5, sp, rb, 2] + seq![0x28u8, b]);
}

/// A CONNACK packet whose only property sets `subscription_identifier_available`.
proof fn lemma_connack_subscription_identifier_available_property(sp: u8, rb: u8, b: u8)
    requires
        sp <= 1,
        b <= 1,
        spec_connect_reason_from_byte(rb) is Ok,
    ensures
        spec_decode_connack(seq![0x20u8, 5, sp, rb, 2, 0x29, b]) == Ok::<ConnackV, CodecError>(ConnackV { subscription_identifier_available: b == 1, ..spec_connack_bare(sp, rb) }),
{
    lemma_connack_defaults(sp, rb);
    lemma_parse_bool_property_bytes(0x29, b);
    lemma_connack_one_property(sp, rb, seq![0x29u8, b]);
    assert(seq![0x20u8, 5, sp, rb, 2, 0x29, b] =~= seq![0x20u8, 5, sp, rb, 2] + seq![0x29u8, b]);
}

/// A CONNACK packet whose only property sets `shared_subscription_available`.
proof fn lemma_connack_shared_subscription_available_property(sp: u8, rb: u8, b: u8)
    requires
        sp <= 1,
        b <= 1,
        spec_connect_reason_from_byte(rb) is Ok,
    ensures
        spec_decode_connack(seq![0x20u8, 5, sp, rb, 2, 0x2a, b]) == Ok::<ConnackV, CodecError>(ConnackV { shared_subscription_available: b == 1, ..spec_connack_bare(sp, rb) }),
{
    lemma_connack_defaults(sp, rb);
    lemma_parse_bool_property_bytes(0x2a, b);
    lemma_connack_one_property(sp, rb, seq![0x2au8, b]);
    assert(seq![0x20u8, 5, sp, rb, 2, 0x2a, b] =~= seq![0x20u8, 5, sp, rb, 2] + seq![0x2au8, b]);
}

/// A CONNACK packet whose only property sets `retain_available`.
proof fn lemma_connack_retain_available_property(sp: u8, rb: u8, b: u8)
    requires
        sp <= 1,
        b <= 1,
        spec_connect_reason_from_byte(rb) is Ok,
    ensures
        spec_decode_connack(seq![0x20u8, 5, sp, rb, 2, 0x25, b]) == Ok::<ConnackV, CodecError>(ConnackV { retain_available: b == 1, ..spec_connack_bare(sp, rb) }),
{
    lemma_connack_defaults(sp, rb);
    lemma_parse_bool_property_bytes(0x25, b);
    lemma_connack_one_property(sp, rb, seq![0x25u8, b]);
    assert(seq![0x20u8, 5, sp, rb, 2, 0x25, b] =~= seq![0x20u8, 5, sp, rb, 2] + seq![0x25u8, b]);
}

/// Each availability property of a CONNACK packet sets its own flag and
/// nothing else: Wildcard Subscription Available (0x28), Subscription
/// Identifier Available (0x29), Shared Subscription Available (0x2a) and
/// Retain Available (0x25), each a byte 0 or 1.
pub proof fn lemma_connack_availability_properties(sp: u8, rb: u8, b: u8)
    requires
        sp <= 1,
        b <= 1,
        spec_connect_reason_from_byte(rb) is Ok,
    ensures
        spec_decode_connack(seq![0x20u8, 5, sp, rb, 2, 0x28, b]) == Ok::<ConnackV, CodecError>(ConnackV { wildcard_subscription_available: b == 1, ..spec_connack_bare(sp, rb) }),
        spec_decode_connack(seq![0x20u8, 5, sp, rb, 2, 0x29, b]) == Ok::<ConnackV, CodecError>(ConnackV { subscription_identifier_available: b == 1, ..spec_connack_bare(sp, rb) }),
        spec_decode_connack(seq![0x20u8, 5, sp, rb, 2, 0x2a, b]) == Ok::<ConnackV, CodecError>(ConnackV { shared_subscription_available: b == 1, ..spec_connack_bare(sp, rb) }),
        spec_decode_connack(seq![0x20u8, 5, sp, rb, 2, 0x25, b]) == Ok::<ConnackV, CodecError>(ConnackV { retain_available: b == 1, ..spec_connack_bare(sp, rb) }),
{
    lemma_connack_wildcard_subscription_available_property(sp, rb, b);
    lemma_connack_subscription_identifier_available_property(sp, rb, b);
    lemma_connack_shared_subscription_available_property(sp, rb, b);
    lemma_connack_retain_available_property(sp, rb, b);
}

/// A CONNACK packet whose only property sets `maximum_qos`.
proof fn lemma_connack_maximum_qos_property(sp: u8, rb: u8, q: u8)
    requires
        sp <= 1,
        q <= 2,
        spec_connect_reason_from_byte(rb) is Ok,
    ensures
        spec_decode_connack(seq![0x20u8, 5, sp, rb, 2, 0x24, q]) == Ok::<ConnackV, CodecError>(ConnackV { maximum_qos: if q == 0 { QoS::AtMostOnce } else if q == 1 { QoS::AtLeastOnce } else { QoS::ExactlyOnce }, ..spec_connack_bare(sp, rb) }),
{
    lemma_connack_defaults(sp, rb);
    lemma_parse_qos_property_bytes(q);
    lemma_connack_one_property(sp, rb, seq![0x24u8, q]);
    assert(seq![0x20u8, 5, sp, rb, 2, 0x24, q] =~= seq![0x20u8, 5, sp, rb, 2] + seq![0x24u8, q]);
}

/// The Maximum QoS property (0x24) of a CONNACK packet, a byte 0, 1 or 2,
/// sets the highest QoS the server accepts, and nothing else.
pub proof fn lemma_connack_maximum_qos(sp: u8, rb: u8, q: u8)
    requires
        sp <= 1,
        q <= 2,
        spec_connect_reason_from_byte(rb) is Ok,
    ensures
        spec_decode_connack(seq![0x20u8, 5, sp, rb, 2, 0x24, q]) == Ok::<ConnackV, CodecError>(ConnackV { maximum_qos: if q == 0 { QoS::AtMostOnce } else if q == 1 { QoS::AtLeastOnce } else { QoS::ExactlyOnce }, ..spec_connack_bare(sp, rb) }),
{
    lemma_connack_maximum_qos_property(sp, rb, q);
}

/// A CONNACK packet whose only property sets `server_keep_alive`.
proof fn lemma_connack_server_keep_alive_property(sp: u8, rb: u8, hi: u8, lo: u8)
    requires
        sp <= 1,
        spec_connect_reason_from_byte(rb) is Ok,
    ensures
        spec_decode_connack(seq![0x20u8, 6, sp, rb, 3, 0x13, hi, lo]) == Ok::<ConnackV, CodecError>(ConnackV { server_keep_alive: Some((hi * 256 + lo) as u16), ..spec_connack_bare(sp, rb) }),
{
    lemma_connack_defaults(sp, rb);
    lemma_parse_u16_property_bytes(0x13, hi, lo);
    lemma_connack_one_property(sp, rb, seq![0x13u8, hi, lo]);
    assert(seq![0x20u8, 6, sp, rb, 3, 0x13, hi, lo] =~= seq![0x20u8, 6, sp, rb, 3] + seq![0x13u8, hi, lo]);
}

/// A CONNACK packet whose only property sets `receive_maximum`.
proof fn lemma_connack_receive_maximum_property(sp: u8, rb: u8, hi: u8, lo: u8)
    requires
        sp <= 1,
        hi * 256 + lo != 0,
        spec_connect_reason_from_byte(rb) is Ok,
    ensures
        spec_decode_connack(seq![0x20u8, 6, sp, rb, 3, 0x21, hi, lo]) == Ok::<ConnackV, CodecError>(ConnackV { receive_maximum: (hi * 256 + lo) as u16, ..spec_connack_bare(sp, rb) }),
{
    lemma_connack_defaults(sp, rb);
    lemma_parse_u16_property_bytes(0x21, hi, lo);
    lemma_connack_one_property(sp, rb, seq![0x21u8, hi, lo]);
    assert(seq![0x20u8, 6, sp, rb, 3, 0x21, hi, lo] =~= seq![0x20u8, 6, sp, rb, 3] + seq![0x21u8, hi, lo]);
}

/// A CONNACK packet whose only property sets `topic_alias_maximum`.
proof fn lemma_connack_topic_alias_maximum_property(sp: u8, rb: u8, hi: u8, lo: u8)
    requires
        sp <= 1,
        spec_connect_reason_from_byte(rb) is Ok,
    ensures
        spec_decode_connack(seq![0x20u8, 6, sp, rb, 3, 0x22, hi, lo]) == Ok::<ConnackV, CodecError>(ConnackV { topic_alias_maximum: (hi * 256 + lo) as u16, ..spec_connack_bare(sp, rb) }),
{
    lemma_connack_defaults(sp, rb);
    lemma_parse_u16_property_bytes(0x22, hi, lo);
    lemma_connack_one_property(sp, rb, seq![0x22u8, hi, lo]);
    assert(seq![0x20u8, 6, sp, rb, 3, 0x22, hi, lo] =~= seq![0x20u8, 6, sp, rb, 3] + seq![0x22u8, hi, lo]);
}

/// The two byte properties of a CONNACK packet each set their own field,
/// read big-endian, and nothing else: Server Keep Alive (0x13), Receive
/// Maximum (0x21, not zero) and Topic Alias Maximum (0x22).
pub proof fn lemma_connack_two_byte_properties(sp: u8, rb: u8, hi: u8, lo: u8)
    requires
        sp <= 1,
        spec_connect_reason_from_byte(rb) is Ok,
    ensures
        spec_decode_connack(seq![0x20u8, 6, sp, rb, 3, 0x13, hi, lo]) == Ok::<ConnackV, CodecError>(ConnackV { server_keep_alive: Some((hi * 256 + lo) as u16), ..spec_connack_bare(sp, rb) }),
        (hi * 256 + lo != 0) ==> spec_decode_connack(seq![0x20u8, 6, sp, rb, 3, 0x21, hi, lo]) == Ok::<ConnackV, CodecError>(ConnackV { receive_maximum: (hi * 256 + lo) as u16, ..spec_connack_bare(sp, rb) }),
        spec_decode_connack(seq![0x20u8, 6, sp, rb, 3, 0x22, hi, lo]) == Ok::<ConnackV, CodecError>(ConnackV { topic_alias_maximum: (hi * 256 + lo) as u16, ..spec_connack_bare(sp, rb) }),
{
    lemma_connack_server_keep_alive_property(sp, rb, hi, lo);
    if hi * 256 + lo != 0 {
        lemma_connack_receive_maximum_property(sp, rb, hi, lo);
    }
    lemma_connack_topic_alias_maximum_property(sp, rb, hi, lo);
}

/// A CONNACK packet whose only property sets `session_expiry_interval`.
proof fn lemma_connack_session_expiry_interval_property(sp: u8, rb: u8, b0: u8, b1: u8, b2: u8, b3: u8)
    requires
        sp <= 1,
        spec_connect_reason_from_byte(rb) is Ok,
    ensures
        spec_decode_connack(seq![0x20u8, 8, sp, rb, 5, 0x11, b0, b1, b2, b3]) == Ok::<ConnackV, CodecError>(ConnackV { session_expiry_interval: Some((b0 * 0x1000000 + b1 * 0x10000 + b2 * 256 + b3) as u32), ..spec_connack_bare(sp, rb) }),
{
    lemma_connack_defaults(sp, rb);
    lemma_parse_u32_property_bytes(0x11, b0, b1, b2, b3);
    lemma_connack_one_property(sp, rb, seq![0x11u8, b0, b1, b2, b3]);
    assert(seq![0x20u8, 8, sp, rb, 5, 0x11, b0, b1, b2, b3] =~= seq![0x20u8, 8, sp, rb, 5] + seq![0x11u8, b0, b1, b2, b3]);
}

/// A CONNACK packet whose only property sets `maximum_packet_size`.
proof fn lemma_connack_maximum_packet_size_property(sp: u8, rb: u8, b0: u8, b1: u8, b2: u8, b3: u8)
    requires
        sp <= 1,
        b0 * 0x1000000 + b1 * 0x10000 + b2 * 256 + b3 != 0,
        spec_connect_reason_from_byte(rb) is Ok,
    ensures
        spec_decode_connack(seq![0x20u8, 8, sp, rb, 5, 0x27, b0, b1, b2, b3]) == Ok::<ConnackV, CodecError>(ConnackV { maximum_packet_size: Some((b0 * 0x1000000 + b1 * 0x10000 + b2 * 256 + b3) as u32), ..spec_connack_bare(sp, rb) }),
{
    lemma_connack_defaults(sp, rb);
    lemma_parse_u32_property_bytes(0x27, b0, b1, b2, b3);
    lemma_connack_one_property(sp, rb, seq![0x27u8, b0, b1, b2, b3]);
    assert(seq![0x20u8, 8, sp, rb, 5, 0x27, b0, b1, b2, b3] =~= seq![0x20u8, 8, sp, rb, 5] + seq![0x27u8, b0, b1, b2, b3]);
}

/// The four byte properties of a CONNACK packet each set their own field,
/// read big-endian, and nothing else: Session Expiry Interval (0x11) and
/// Maximum Packet Size (0x27, not zero).
pub proof fn lemma_connack_four_byte_properties(sp: u8, rb: u8, b0: u8, b1: u8, b2: u8, b3: u8)
    requires
        sp <= 1,
        spec_connect_reason_from_byte(rb) is Ok,
    ensures
        spec_decode_connack(seq![0x20u8, 8, sp, rb, 5, 0x11, b0, b1, b2, b3]) == Ok::<ConnackV, CodecError>(ConnackV { session_expiry_interval: Some((b0 * 0x1000000 + b1 * 0x10000 + b2 * 256 + b3) as u32), ..spec_connack_bare(sp, rb) }),
        (b0 * 0x1000000 + b1 * 0x10000 + b2 * 256 + b3 != 0) ==> spec_decode_connack(seq![0x20u8, 8, sp, rb, 5, 0x27, b0, b1, b2, b3]) == Ok::<ConnackV, CodecError>(ConnackV { maximum_packet_size: Some((b0 * 0x1000000 + b1 * 0x10000 + b2 * 256 + b3) as u32), ..spec_connack_bare(sp, rb) }),
{
    lemma_connack_session_expiry_interval_property(sp, rb, b0, b1, b2, b3);
    if b0 * 0x1000000 + b1 * 0x10000 + b2 * 256 + b3 != 0 {
        lemma_connack_maximum_packet_size_property(sp, rb, b0, b1, b2, b3);
    }
}

/// A CONNACK packet whose only property sets `assigned_client_identifier`.
proof fn lemma_connack_assigned_client_identifier_property(sp: u8, rb: u8)
    requires
        sp <= 1,
        spec_connect_reason_from_byte(rb) is Ok,
    ensures
        spec_decode_connack(seq![0x20u8, 6, sp, rb, 3, 0x12, 0, 0]) == Ok::<ConnackV, CodecError>(ConnackV { assigned_client_identifier: Some(Seq::empty()), ..spec_connack_bare(sp, rb) }),
{
    lemma_connack_defaults(sp, rb);
    lemma_parse_empty_data_property_bytes(0x12);
    lemma_connack_one_property(sp, rb, seq![0x12u8, 0, 0]);
    assert(seq![0x20u8, 6, sp, rb, 3, 0x12, 0, 0] =~= seq![0x20u8, 6, sp, rb, 3] + seq![0x12u8, 0, 0]);
}

/// A CONNACK packet whose only property sets `reason_string`.
proof fn lemma_connack_reason_string_property(sp: u8, rb: u8)
    requires
        sp <= 1,
        spec_connect_reason_from_byte(rb) is Ok,
    ensures
        spec_decode_connack(seq![0x20u8, 6, sp, rb, 3, 0x1f, 0, 0]) == Ok::<ConnackV, CodecError>(ConnackV { reason_string: Some(Seq::empty()), ..spec_connack_bare(sp, rb) }),
{
    lemma_connack_defaults(sp, rb);
    lemma_parse_empty_data_property_bytes(0x1f);
    lemma_connack_one_property(sp, rb, seq![0x1fu8, 0, 0]);
    assert(seq![0x20u8, 6, sp, rb, 3, 0x1f, 0, 0] =~= seq![0x20u8, 6, sp, rb, 3] + seq![0x1fu8, 0, 0]);
}

/// A CONNACK packet whose only property sets `response_information`.
proof fn lemma_connack_response_information_property(sp: u8, rb: u8)
    requires
        sp <= 1,
        spec_connect_reason_from_byte(rb) is Ok,
    ensures
        spec_decode_connack(seq![0x20u8, 6, sp, rb, 3, 0x1a, 0, 0]) == Ok::<ConnackV, CodecError>(ConnackV { response_information: Some(Seq::empty()), ..spec_connack_bare(sp, rb) }),
{
    lemma_connack_defaults(sp, rb);
    lemma_parse_empty_data_property_bytes(0x1a);
    lemma_connack_one_property(sp, rb, seq![0x1au8, 0, 0]);
    assert(seq![0x20u8, 6, sp, rb, 3, 0x1a, 0, 0] =~= seq![0x20u8, 6, sp, rb, 3] + seq![0x1au8, 0, 0]);
}

/// A CONNACK packet whose only property sets `server_reference`.
proof fn lemma_connack_server_reference_property(sp: u8, rb: u8)
    requires
        sp <= 1,
        spec_connect_reason_from_byte(rb) is Ok,
    ensures
        spec_decode_connack(seq![0x20u8, 6, sp, rb, 3, 0x1c, 0, 0]) == Ok::<ConnackV, CodecError>(ConnackV { server_reference: Some(Seq::empty()), ..spec_connack_bare(sp, rb) }),
{
    lemma_connack_defaults(sp, rb);
    lemma_parse_empty_data_property_bytes(0x1c);
    lemma_connack_one_property(sp, rb, seq![0x1cu8, 0, 0]);
    assert(seq![0x20u8, 6, sp, rb, 3, 0x1c, 0, 0] =~= seq![0x20u8, 6, sp, rb, 3] + seq![0x1cu8, 0, 0]);
}

/// A CONNACK packet whose only property sets `authentication_method`.
proof fn lemma_connack_authentication_method_property(sp: u8, rb: u8)
    requires
        sp <= 1,
        spec_connect_reason_from_byte(rb) is Ok,
    ensures
        spec_decode_connack(seq![0x20u8, 6, sp, rb, 3, 0x15, 0, 0]) == Ok::<ConnackV, CodecError>(ConnackV { authentication_method: Some(Seq::empty()), ..spec_connack_bare(sp, rb) }),
{
    lemma_connack_defaults(sp, rb);
    lemma_parse_empty_data_property_bytes(0x15);
    lemma_connack_one_property(sp, rb, seq![0x15u8, 0, 0]);
    assert(seq![0x20u8, 6, sp, rb, 3, 0x15, 0, 0] =~= seq![0x20u8, 6, sp, rb, 3] + seq![0x15u8, 0, 0]);
}

/// A CONNACK packet whose only property sets `authentication_data`.
proof fn lemma_connack_authentication_data_property(sp: u8, rb: u8)
    requires
        sp <= 1,
        spec_connect_reason_from_byte(rb) is Ok,
    ensures
        spec_decode_connack(seq![0x20u8, 6, sp, rb, 3, 0x16, 0, 0]) == Ok::<ConnackV, CodecError>(ConnackV { authentication_data: Some(Seq::empty()), ..spec_connack_bare(sp, rb) }),
{
    lemma_connack_defaults(sp, rb);
    lemma_parse_empty_data_property_bytes(0x16);
    lemma_connack_one_property(sp, rb, seq![0x16u8, 0, 0]);
    assert(seq![0x20u8, 6, sp, rb, 3, 0x16, 0, 0] =~= seq![0x20u8, 6, sp, rb, 3] + seq![0x16u8, 0, 0]);
}

/// A CONNACK packet whose only property sets `user_property`.
proof fn lemma_connack_user_property_property(sp: u8, rb: u8)
    requires
        sp <= 1,
        spec_connect_reason_from_byte(rb) is Ok,
    ensures
        spec_decode_connack(seq![0x20u8, 8, sp, rb, 5, 0x26, 0, 0, 0, 0]) == Ok::<ConnackV, CodecError>(ConnackV { user_property: seq![(Seq::empty(), Seq::empty())], ..spec_connack_bare(sp, rb) }),
{
    lemma_connack_defaults(sp, rb);
    lemma_parse_empty_user_property_bytes();
    lemma_connack_one_property(sp, rb, seq![0x26u8, 0, 0, 0, 0]);
    assert(seq![0x20u8, 8, sp, rb, 5, 0x26, 0, 0, 0, 0] =~= seq![0x20u8, 8, sp, rb, 5] + seq![0x26u8, 0, 0, 0, 0]);
    assert(Seq::<(Seq<u8>, Seq<u8>)>::empty().push((Seq::<u8>::empty(), Seq::<u8>::empty())) =~= seq![
        (Seq::<u8>::empty(), Seq::<u8>::empty()),
    ]);
}

/// The text and binary properties of a CONNACK packet each set their own
/// field, and nothing else: Assigned Client Identifier (0x12), Reason
/// String (0x1f), Response Information (0x1a), Server Reference (0x1c),
/// Authentication Method (0x15) and Authentication Data (0x16); a User
/// Property (0x26) is added to the user properties.
pub proof fn lemma_connack_data_properties(sp: u8, rb: u8)
    requires
        sp <= 1,
        spec_connect_reason_from_byte(rb) is Ok,
    ensures
        spec_decode_connack(seq![0x20u8, 6, sp, rb, 3, 0x12, 0, 0]) == Ok::<ConnackV, CodecError>(ConnackV { assigned_client_identifier: Some(Seq::empty()), ..spec_connack_bare(sp, rb) }),
        spec_decode_connack(seq![0x20u8, 6, sp, rb, 3, 0x1f, 0, 0]) == Ok::<ConnackV, CodecError>(ConnackV { reason_string: Some(Seq::empty()), ..spec_connack_bare(sp, rb) }),
        spec_decode_connack(seq![0x20u8, 6, sp, rb, 3, 0x1a, 0, 0]) == Ok::<ConnackV, CodecError>(ConnackV { response_information: Some(Seq::empty()), ..spec_connack_bare(sp, rb) }),
        spec_decode_connack(seq![0x20u8, 6, sp, rb, 3, 0x1c, 0, 0]) == Ok::<ConnackV, CodecError>(ConnackV { server_reference: Some(Seq::empty()), ..spec_connack_bare(sp, rb) }),
        spec_decode_connack(seq![0x20u8, 6, sp, rb, 3, 0x15, 0, 0]) == Ok::<ConnackV, CodecError>(ConnackV { authentication_method: Some(Seq::empty()), ..spec_connack_bare(sp, rb) }),
        spec_decode_connack(seq![0x20u8, 6, sp, rb, 3, 0x16, 0, 0]) == Ok::<ConnackV, CodecError>(ConnackV { authentication_data: Some(Seq::empty()), ..spec_connack_bare(sp, rb) }),
        spec_decode_connack(seq![0x20u8, 8, sp, rb, 5, 0x26, 0, 0, 0, 0]) == Ok::<ConnackV, CodecError>(ConnackV { user_property: seq![(Seq::empty(), Seq::empty())], ..spec_connack_bare(sp, rb) }),
{
    lemma_connack_assigned_client_identifier_property(sp, rb);
    lemma_connack_reason_string_property(sp, rb);
    lemma_connack_response_information_property(sp, rb);
    lemma_connack_server_reference_property(sp, rb);
    lemma_connack_authentication_method_property(sp, rb);
    lemma_connack_authentication_data_property(sp, rb);
    lemma_connack_user_property_property(sp, rb);
}

} // verus!
