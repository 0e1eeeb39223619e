//! The DISCONNECT packet, sent by either side before it closes the connection.
use crate::buffer::{bytes_mut_view, bytes_view, put_u8};
use crate::types::base_types::{
    spec_var_size_int_from, spec_u32_be, var_size_int_from_usize, UTF8String, UTF8StringPair, UTF8StringPairRef, UTF8StringRef, VarSizeInt,
};
use crate::types::decoder::{spec_parse_var_size_int, Decoder};
use crate::types::error::{
    codec_error_of, CodecError, ConversionError, InsufficientBufferSize, InvalidPacketHeader,
    InvalidPacketSize, InvalidPropertyLength, InvalidValue, UnexpectedProperty,
};
use crate::types::properties::{
    lemma_fold_one_property, lemma_parse_empty_user_property_bytes, lemma_parse_one_byte_data_property_bytes,
    spec_parse_property,
    lemma_apply_all_at_most_one, lemma_apply_all_concat, lemma_apply_all_single,
    lemma_fold_properties_roundtrip, lemma_opt_str_prop_encoding, lemma_parse_var_int_roundtrip,
    lemma_props_encoding_concat, lemma_props_encoding_single, lemma_props_valid_concat,
    lemma_user_props_encoding, spec_apply_all, spec_opt_str_fits, spec_opt_str_prop_vs, spec_pair_bytes,
    spec_pairs_fit, spec_props_encoding, spec_props_valid, spec_user_prop_v, spec_user_prop_vs,
    encode_opt_str_property, encode_u32_property, encode_user_properties, lemma_user_props_prefix,
    lemma_var_int_encoding_len, opt_str_prop_len, spec_builder_pairs, spec_fold_properties,
    spec_opt_str_prop, spec_u32_prop, spec_user_props, spec_var_int_encoding, spec_var_int_len,
    user_properties_len, PropVal, Property, PropertyV, REASON_STRING, SERVER_REFERENCE,
    SESSION_EXPIRY_INTERVAL, USER_PROPERTY,
};
use crate::codec::ack::opt_str_view;
use crate::types::size::{capped_add, capped_opt_str_prop, capped_user_props, remaining_fits, spec_capped};
use bytes::{Bytes, BytesMut};
use crate::types::collections::UserProperties;
use vstd::prelude::*;
use vstd::string::StringSliceAdditionalSpecFns;

verus! {

/// Reason for DISCONNECT packet.
#[derive(Copy, Clone, Debug, PartialEq, Eq, Structural)]
pub enum DisconnectReason {
    /// Success.
    Success,
    /// Disconnect with will message.
    DisconnectWithWillMessage,
    /// Unspecified error.
    UnspecifiedError,
    /// Malformed packet.
    MalformedPacket,
    /// Protocol error.
    ProtocolError,
    /// Implementation specific error.
    ImplementationSpecificError,
    /// Not authorized.
    NotAuthorized,
    /// Server busy.
    ServerBusy,
    /// Server shutting down.
    ServerShuttingDown,
    /// Keep alive timeout.
    KeepAliveTimeout,
    /// Session taken over.
    SessionTakenOver,
    /// Topic filter invalid.
    TopicFilterInvalid,
    /// Topic name invalid.
    TopicNameInvalid,
    /// Receive maximum excceeded.
    ReceiveMaximumExcceeded,
    /// Topic alias invalid.
    TopicAliasInvalid,
    /// Packet too large.
    PacketTooLarge,
    /// Message rate too high.
    MessageRateTooHigh,
    /// Quota exceeded.
    QuotaExceeded,
    /// Administrative action.
    AdministrativeAction,
    /// Payload format invalid.
    PayloadFormatInvalid,
    /// Retain not supported.
    RetainNotSupported,
    /// Qosnot supported.
    QoSNotSupported,
    /// Use another server.
    UseAnotherServer,
    /// Server moved.
    ServerMoved,
    /// Shared subscriptions not supported.
    SharedSubscriptionsNotSupported,
    /// Connection rate exceeded.
    ConnectionRateExceeded,
    /// Maximum connect time.
    MaximumConnectTime,
    /// Subscription identifiers not supported.
    SubscriptionIdentifiersNotSupported,
    /// Wildcard subscriptions not supported.
    WildcardSubscriptionsNotSupported,
}

/// The reason code of a [DisconnectReason] on the wire.
pub open spec fn spec_disconnect_reason_byte(r: DisconnectReason) -> u8 {
    match r {
        DisconnectReason::Success => 0x00,
        DisconnectReason::DisconnectWithWillMessage => 0x04,
        DisconnectReason::UnspecifiedError => 0x80,
        DisconnectReason::MalformedPacket => 0x81,
        DisconnectReason::ProtocolError => 0x82,
        DisconnectReason::ImplementationSpecificError => 0x83,
        DisconnectReason::NotAuthorized => 0x87,
        DisconnectReason::ServerBusy => 0x89,
        DisconnectReason::ServerShuttingDown => 0x8b,
        DisconnectReason::KeepAliveTimeout => 0x8d,
        DisconnectReason::SessionTakenOver => 0x8e,
        DisconnectReason::TopicFilterInvalid => 0x8f,
        DisconnectReason::TopicNameInvalid => 0x90,
        DisconnectReason::ReceiveMaximumExcceeded => 0x93,
        DisconnectReason::TopicAliasInvalid => 0x94,
        DisconnectReason::PacketTooLarge => 0x95,
        DisconnectReason::MessageRateTooHigh => 0x96,
        DisconnectReason::QuotaExceeded => 0x97,
        DisconnectReason::AdministrativeAction => 0x98,
        DisconnectReason::PayloadFormatInvalid => 0x99,
        DisconnectReason::RetainNotSupported => 0x9a,
        DisconnectReason::QoSNotSupported => 0x9b,
        DisconnectReason::UseAnotherServer => 0x9c,
        DisconnectReason::ServerMoved => 0x9d,
        DisconnectReason::SharedSubscriptionsNotSupported => 0x9e,
        DisconnectReason::ConnectionRateExceeded => 0x9f,
        DisconnectReason::MaximumConnectTime => 0xa0,
        DisconnectReason::SubscriptionIdentifiersNotSupported => 0xa1,
        DisconnectReason::WildcardSubscriptionsNotSupported => 0xa2,
    }
}

/// The [DisconnectReason] with the given reason code, if there is one.
pub open spec fn spec_disconnect_reason_from_byte(val: u8) -> Result<DisconnectReason, ConversionError> {
    if val == 0x00 {
        Ok(DisconnectReason::Success)
    } else if val == 0x04 {
        Ok(DisconnectReason::DisconnectWithWillMessage)
    } else if val == 0x80 {
        Ok(DisconnectReason::UnspecifiedError)
    } else if val == 0x81 {
        Ok(DisconnectReason::MalformedPacket)
    } else if val == 0x82 {
        Ok(DisconnectReason::ProtocolError)
    } else if val == 0x83 {
        Ok(DisconnectReason::ImplementationSpecificError)
    } else if val == 0x87 {
        Ok(DisconnectReason::NotAuthorized)
    } else if val == 0x89 {
        Ok(DisconnectReason::ServerBusy)
    } else if val == 0x8b {
        Ok(DisconnectReason::ServerShuttingDown)
    } else if val == 0x8d {
        Ok(DisconnectReason::KeepAliveTimeout)
    } else if val == 0x8e {
        Ok(DisconnectReason::SessionTakenOver)
    } else if val == 0x8f {
        Ok(DisconnectReason::TopicFilterInvalid)
    } else if val == 0x90 {
        Ok(DisconnectReason::TopicNameInvalid)
    } else if val == 0x93 {
        Ok(DisconnectReason::ReceiveMaximumExcceeded)
    } else if val == 0x94 {
        Ok(DisconnectReason::TopicAliasInvalid)
    } else if val == 0x95 {
        Ok(DisconnectReason::PacketTooLarge)
    } else if val == 0x96 {
        Ok(DisconnectReason::MessageRateTooHigh)
    } else if val == 0x97 {
        Ok(DisconnectReason::QuotaExceeded)
    } else if val == 0x98 {
        Ok(DisconnectReason::AdministrativeAction)
    } else if val == 0x99 {
        Ok(DisconnectReason::PayloadFormatInvalid)
    } else if val == 0x9a {
        Ok(DisconnectReason::RetainNotSupported)
    } else if val == 0x9b {
        Ok(DisconnectReason::QoSNotSupported)
    } else if val == 0x9c {
        Ok(DisconnectReason::UseAnotherServer)
    } else if val == 0x9d {
        Ok(DisconnectReason::ServerMoved)
    } else if val == 0x9e {
        Ok(DisconnectReason::SharedSubscriptionsNotSupported)
    } else if val == 0x9f {
        Ok(DisconnectReason::ConnectionRateExceeded)
    } else if val == 0xa0 {
        Ok(DisconnectReason::MaximumConnectTime)
    } else if val == 0xa1 {
        Ok(DisconnectReason::SubscriptionIdentifiersNotSupported)
    } else if val == 0xa2 {
        Ok(DisconnectReason::WildcardSubscriptionsNotSupported)
    } else {
        Err(ConversionError::InvalidValue(InvalidValue))
    }
}

impl TryFrom<u8> for DisconnectReason {
    type Error = ConversionError;

    fn try_from(val: u8) -> (r: Result<Self, Self::Error>) {
        match val {
            0x00 => Ok(DisconnectReason::Success),
            0x04 => Ok(DisconnectReason::DisconnectWithWillMessage),
            0x80 => Ok(DisconnectReason::UnspecifiedError),
            0x81 => Ok(DisconnectReason::MalformedPacket),
            0x82 => Ok(DisconnectReason::ProtocolError),
            0x83 => Ok(DisconnectReason::ImplementationSpecificError),
            0x87 => Ok(DisconnectReason::NotAuthorized),
            0x89 => Ok(DisconnectReason::ServerBusy),
            0x8b => Ok(DisconnectReason::ServerShuttingDown),
            0x8d => Ok(DisconnectReason::KeepAliveTimeout),
            0x8e => Ok(DisconnectReason::SessionTakenOver),
            0x8f => Ok(DisconnectReason::TopicFilterInvalid),
            0x90 => Ok(DisconnectReason::TopicNameInvalid),
            0x93 => Ok(DisconnectReason::ReceiveMaximumExcceeded),
            0x94 => Ok(DisconnectReason::TopicAliasInvalid),
            0x95 => Ok(DisconnectReason::PacketTooLarge),
            0x96 => Ok(DisconnectReason::MessageRateTooHigh),
            0x97 => Ok(DisconnectReason::QuotaExceeded),
            0x98 => Ok(DisconnectReason::AdministrativeAction),
            0x99 => Ok(DisconnectReason::PayloadFormatInvalid),
            0x9a => Ok(DisconnectReason::RetainNotSupported),
            0x9b => Ok(DisconnectReason::QoSNotSupported),
            0x9c => Ok(DisconnectReason::UseAnotherServer),
            0x9d => Ok(DisconnectReason::ServerMoved),
            0x9e => Ok(DisconnectReason::SharedSubscriptionsNotSupported),
            0x9f => Ok(DisconnectReason::ConnectionRateExceeded),
            0xa0 => Ok(DisconnectReason::MaximumConnectTime),
            0xa1 => Ok(DisconnectReason::SubscriptionIdentifiersNotSupported),
            0xa2 => Ok(DisconnectReason::WildcardSubscriptionsNotSupported),
            _ => Err(ConversionError::InvalidValue(InvalidValue)),
        }
    }
}

impl vstd::std_specs::convert::TryFromSpecImpl<u8> for DisconnectReason {
    open spec fn obeys_try_from_spec() -> bool {
        true
    }

    open spec fn try_from_spec(val: u8) -> Result<Self, ConversionError> {
        spec_disconnect_reason_from_byte(val)
    }
}

impl From<DisconnectReason> for u8 {
    fn from(val: DisconnectReason) -> (r: u8) {
        match val {
            DisconnectReason::Success => 0x00,
            DisconnectReason::DisconnectWithWillMessage => 0x04,
            DisconnectReason::UnspecifiedError => 0x80,
            DisconnectReason::MalformedPacket => 0x81,
            DisconnectReason::ProtocolError => 0x82,
            DisconnectReason::ImplementationSpecificError => 0x83,
            DisconnectReason::NotAuthorized => 0x87,
            DisconnectReason::ServerBusy => 0x89,
            DisconnectReason::ServerShuttingDown => 0x8b,
            DisconnectReason::KeepAliveTimeout => 0x8d,
            DisconnectReason::SessionTakenOver => 0x8e,
            DisconnectReason::TopicFilterInvalid => 0x8f,
            DisconnectReason::TopicNameInvalid => 0x90,
            DisconnectReason::ReceiveMaximumExcceeded => 0x93,
            DisconnectReason::TopicAliasInvalid => 0x94,
            DisconnectReason::PacketTooLarge => 0x95,
            DisconnectReason::MessageRateTooHigh => 0x96,
            DisconnectReason::QuotaExceeded => 0x97,
            DisconnectReason::AdministrativeAction => 0x98,
            DisconnectReason::PayloadFormatInvalid => 0x99,
            DisconnectReason::RetainNotSupported => 0x9a,
            DisconnectReason::QoSNotSupported => 0x9b,
            DisconnectReason::UseAnotherServer => 0x9c,
            DisconnectReason::ServerMoved => 0x9d,
            DisconnectReason::SharedSubscriptionsNotSupported => 0x9e,
            DisconnectReason::ConnectionRateExceeded => 0x9f,
            DisconnectReason::MaximumConnectTime => 0xa0,
            DisconnectReason::SubscriptionIdentifiersNotSupported => 0xa1,
            DisconnectReason::WildcardSubscriptionsNotSupported => 0xa2,
        }
    }
}

impl vstd::std_specs::convert::FromSpecImpl<DisconnectReason> for u8 {
    open spec fn obeys_from_spec() -> bool {
        true
    }

    open spec fn from_spec(val: DisconnectReason) -> u8 {
        spec_disconnect_reason_byte(val)
    }
}

/// Reading back the code of a [DisconnectReason] gives the same reason.
pub proof fn lemma_disconnect_reason_byte_roundtrip(r: DisconnectReason)
    ensures
        spec_disconnect_reason_from_byte(spec_disconnect_reason_byte(r)) == Ok::<DisconnectReason, ConversionError>(r),
{
}

/// The reason codes of a DISCONNECT packet are the MQTT 5 ones: each reason is
/// written as its code, a byte that is a code reads back as the reason with
/// that code, any other byte is an invalid value, and the reasons below
/// 0x80 are exactly the ones that report no failure.
pub proof fn lemma_disconnect_reason_codes()
    ensures
        spec_disconnect_reason_byte(DisconnectReason::Success) == 0x00u8,
        spec_disconnect_reason_byte(DisconnectReason::DisconnectWithWillMessage) == 0x04u8,
        spec_disconnect_reason_byte(DisconnectReason::UnspecifiedError) == 0x80u8,
        spec_disconnect_reason_byte(DisconnectReason::MalformedPacket) == 0x81u8,
        spec_disconnect_reason_byte(DisconnectReason::ProtocolError) == 0x82u8,
        spec_disconnect_reason_byte(DisconnectReason::ImplementationSpecificError) == 0x83u8,
        spec_disconnect_reason_byte(DisconnectReason::NotAuthorized) == 0x87u8,
        spec_disconnect_reason_byte(DisconnectReason::ServerBusy) == 0x89u8,
        spec_disconnect_reason_byte(DisconnectReason::ServerShuttingDown) == 0x8bu8,
        spec_disconnect_reason_byte(DisconnectReason::KeepAliveTimeout) == 0x8du8,
        spec_disconnect_reason_byte(DisconnectReason::SessionTakenOver) == 0x8eu8,
        spec_disconnect_reason_byte(DisconnectReason::TopicFilterInvalid) == 0x8fu8,
        spec_disconnect_reason_byte(DisconnectReason::TopicNameInvalid) == 0x90u8,
        spec_disconnect_reason_byte(DisconnectReason::ReceiveMaximumExcceeded) == 0x93u8,
        spec_disconnect_reason_byte(DisconnectReason::TopicAliasInvalid) == 0x94u8,
        spec_disconnect_reason_byte(DisconnectReason::PacketTooLarge) == 0x95u8,
        spec_disconnect_reason_byte(DisconnectReason::MessageRateTooHigh) == 0x96u8,
        spec_disconnect_reason_byte(DisconnectReason::QuotaExceeded) == 0x97u8,
        spec_disconnect_reason_byte(DisconnectReason::AdministrativeAction) == 0x98u8,
        spec_disconnect_reason_byte(DisconnectReason::PayloadFormatInvalid) == 0x99u8,
        spec_disconnect_reason_byte(DisconnectReason::RetainNotSupported) == 0x9au8,
        spec_disconnect_reason_byte(DisconnectReason::QoSNotSupported) == 0x9bu8,
        spec_disconnect_reason_byte(DisconnectReason::UseAnotherServer) == 0x9cu8,
        spec_disconnect_reason_byte(DisconnectReason::ServerMoved) == 0x9du8,
        spec_disconnect_reason_byte(DisconnectReason::SharedSubscriptionsNotSupported) == 0x9eu8,
        spec_disconnect_reason_byte(DisconnectReason::ConnectionRateExceeded) == 0x9fu8,
        spec_disconnect_reason_byte(DisconnectReason::MaximumConnectTime) == 0xa0u8,
        spec_disconnect_reason_byte(DisconnectReason::SubscriptionIdentifiersNotSupported) == 0xa1u8,
        spec_disconnect_reason_byte(DisconnectReason::WildcardSubscriptionsNotSupported) == 0xa2u8,
        forall|b: u8|
            (#[trigger] spec_disconnect_reason_from_byte(b)) is Ok <==> (b == 0x00 || b == 0x04 || b == 0x80 || b == 0x81 || b == 0x82 || b == 0x83 ||
                b == 0x87 || b == 0x89 || b == 0x8b || b == 0x8d || b == 0x8e || b == 0x8f ||
                b == 0x90 || b == 0x93 || b == 0x94 || b == 0x95 || b == 0x96 || b == 0x97 ||
                b == 0x98 || b == 0x99 || b == 0x9a || b == 0x9b || b == 0x9c || b == 0x9d ||
                b == 0x9e || b == 0x9f || b == 0xa0 || b == 0xa1 || b == 0xa2),
        forall|b: u8| (#[trigger] spec_disconnect_reason_from_byte(b)) matches Ok(r) ==> spec_disconnect_reason_byte(r) == b,
        forall|b: u8|
            (#[trigger] spec_disconnect_reason_from_byte(b)) is Err ==> spec_disconnect_reason_from_byte(b) == Err::<
                DisconnectReason,
                ConversionError,
            >(ConversionError::InvalidValue(InvalidValue)),
        forall|r: DisconnectReason|
            (#[trigger] spec_disconnect_reason_byte(r)) < 0x80 <==> (r == DisconnectReason::Success ||
                r == DisconnectReason::DisconnectWithWillMessage),
{
}

impl Default for DisconnectReason {
    fn default() -> (r: Self)
        ensures
            r == DisconnectReason::Success,
    {
        DisconnectReason::Success
    }
}

/// The first byte of a DISCONNECT packet.
pub const DISCONNECT_FIXED_HDR: u8 = 0xe0;

/// DISCONNECT packet to be sent.
#[derive(Debug)]
pub struct DisconnectTx<'a> {
    /// Reason code.
    pub reason: DisconnectReason,
    /// Session expiry interval in seconds; zero is not written.
    pub session_expiry_interval: u32,
    /// Reason string.
    pub reason_string: Option<UTF8StringRef<'a>>,
    /// Server reference.
    pub server_reference: Option<UTF8StringRef<'a>>,
    /// User properties, in order.
    pub user_property: Vec<UTF8StringPairRef<'a>>,
}

/// The session expiry interval property, left out when it is zero.
pub open spec fn spec_session_expiry_prop(v: u32) -> Seq<u8> {
    if v == 0 {
        Seq::empty()
    } else {
        spec_u32_prop(SESSION_EXPIRY_INTERVAL, v)
    }
}

/// The properties of a DISCONNECT packet in the order they are written.
pub open spec fn spec_disconnect_props(tx: DisconnectTx) -> Seq<u8> {
    spec_session_expiry_prop(tx.session_expiry_interval) + spec_opt_str_prop(REASON_STRING, tx.reason_string)
        + spec_opt_str_prop(SERVER_REFERENCE, tx.server_reference) + spec_user_props(tx.user_property@)
}

/// The remaining length of a DISCONNECT packet.
pub open spec fn spec_disconnect_remaining_len(tx: DisconnectTx) -> nat {
    let pl = spec_disconnect_props(tx).len();
    1 + spec_var_int_len(pl) + pl
}

/// The bytes of a DISCONNECT packet: fixed header, remaining length,
/// reason code, property length and properties.
pub open spec fn spec_disconnect_encoding(tx: DisconnectTx) -> Seq<u8> {
    let props = spec_disconnect_props(tx);
    seq![DISCONNECT_FIXED_HDR] + spec_var_int_encoding(spec_disconnect_remaining_len(tx)) + seq![
        spec_disconnect_reason_byte(tx.reason),
    ] + spec_var_int_encoding(props.len()) + props
}

impl<'a> DisconnectTx<'a> {
    /// Number of bytes of the properties.
    fn property_len(&self) -> (r: VarSizeInt)
        requires
            spec_disconnect_props(*self).len() <= VarSizeInt::MAX,
        ensures
            r.spec_value() == spec_disconnect_props(*self).len(),
            r.spec_encode() == spec_var_int_encoding(spec_disconnect_props(*self).len()),
            r.spec_len() == spec_var_int_len(spec_disconnect_props(*self).len()),
    {
        proof {
            lemma_user_props_prefix(self.user_property@, 0);
        }
        let session_expiry_interval_len: usize = if self.session_expiry_interval == 0 {
            0
        } else {
            5
        };
        let len = session_expiry_interval_len + opt_str_prop_len(REASON_STRING, self.reason_string)
            + opt_str_prop_len(SERVER_REFERENCE, self.server_reference) + user_properties_len(
            &self.user_property,
        );
        proof {
            lemma_var_int_encoding_len(spec_disconnect_props(*self).len());
        }
        var_size_int_from_usize(len)
    }

    /// The remaining length of the packet.
    fn remaining_len(&self) -> (r: VarSizeInt)
        requires
            spec_disconnect_remaining_len(*self) <= VarSizeInt::MAX,
        ensures
            r.spec_value() == spec_disconnect_remaining_len(*self),
            r.spec_encode() == spec_var_int_encoding(spec_disconnect_remaining_len(*self)),
            r.spec_len() == spec_var_int_len(spec_disconnect_remaining_len(*self)),
    {
        proof {
            lemma_var_int_encoding_len(spec_disconnect_remaining_len(*self));
        }
        let property_len = self.property_len();
        var_size_int_from_usize(1 + property_len.len() + property_len.value() as usize)
    }

    /// Whether the remaining length fits a variable byte integer, which
    /// writing the packet needs.
    pub fn fits(&self) -> (r: bool)
        ensures
            r == (spec_disconnect_remaining_len(*self) <= VarSizeInt::MAX),
    {
        let sei: u64 = if self.session_expiry_interval != 0 { 5 } else { 0 };
        assert(sei == spec_capped(spec_session_expiry_prop(self.session_expiry_interval).len() as int));
        let a = capped_add(sei, capped_opt_str_prop(REASON_STRING, self.reason_string));
        let b = capped_add(a, capped_opt_str_prop(SERVER_REFERENCE, self.server_reference));
        let props = capped_add(b, capped_user_props(&self.user_property));
        remaining_fits(1, props, 0)
    }

    /// Number of bytes of the whole packet.
    pub fn packet_len(&self) -> (r: usize)
        requires
            spec_disconnect_remaining_len(*self) <= VarSizeInt::MAX,
        ensures
            r == spec_disconnect_encoding(*self).len(),
    {
        let remaining_len = self.remaining_len();
        proof {
            lemma_var_int_encoding_len(spec_disconnect_props(*self).len());
        }
        1 + remaining_len.len() + remaining_len.value() as usize
    }

    /// Writes the packet to `buf`.
    #[verifier::rlimit(30)]
    pub fn encode(&self, buf: &mut BytesMut)
        requires
            spec_disconnect_remaining_len(*self) <= VarSizeInt::MAX,
            bytes_mut_view(*old(buf)).len() + spec_disconnect_encoding(*self).len() <= isize::MAX,
        ensures
            bytes_mut_view(*final(buf)) == bytes_mut_view(*old(buf)) + spec_disconnect_encoding(*self),
    {
        let ghost b0 = bytes_mut_view(*buf);
        let remaining_len = self.remaining_len();
        let property_len = self.property_len();
        proof {
            lemma_var_int_encoding_len(spec_disconnect_props(*self).len());
        }
        put_u8(buf, DISCONNECT_FIXED_HDR);
        remaining_len.encode(buf);
        put_u8(buf, u8::from(self.reason));
        property_len.encode(buf);
        let ghost b1 = bytes_mut_view(*buf);
        if self.session_expiry_interval != 0 {
            encode_u32_property(SESSION_EXPIRY_INTERVAL, self.session_expiry_interval, buf);
        }
        assert(bytes_mut_view(*buf) =~= b1 + spec_session_expiry_prop(self.session_expiry_interval));
        encode_opt_str_property(REASON_STRING, self.reason_string, buf);
        encode_opt_str_property(SERVER_REFERENCE, self.server_reference, buf);
        encode_user_properties(&self.user_property, buf);
        assert(bytes_mut_view(*buf) =~= b0 + spec_disconnect_encoding(*self));
    }
}

/// Builder of a [DisconnectTx]: each field stays unset until a setter is called.
#[derive(Debug)]
pub struct DisconnectTxBuilder<'a> {
    /// Reason code, if set.
    pub reason: Option<DisconnectReason>,
    /// Session expiry interval, if set.
    pub session_expiry_interval: Option<u32>,
    /// Reason string, if set.
    pub reason_string: Option<UTF8StringRef<'a>>,
    /// Server reference, if set.
    pub server_reference: Option<UTF8StringRef<'a>>,
    /// User properties, if any was added.
    pub user_property: Option<Vec<UTF8StringPairRef<'a>>>,
}

impl<'a> DisconnectTxBuilder<'a> {
    /// A builder with nothing set.
    pub open spec fn spec_new() -> Self {
        DisconnectTxBuilder {
            reason: None,
            session_expiry_interval: None,
            reason_string: None,
            server_reference: None,
            user_property: None,
        }
    }

    /// A builder with nothing set.
    pub fn new() -> (r: Self)
        ensures
            r == Self::spec_new(),
    {
        DisconnectTxBuilder {
            reason: None,
            session_expiry_interval: None,
            reason_string: None,
            server_reference: None,
            user_property: None,
        }
    }

    /// Sets the reason code.
    pub fn reason(&mut self, val: DisconnectReason)
        ensures
            *final(self) == (DisconnectTxBuilder { reason: Some(val), ..*old(self) }),
    {
        self.reason = Some(val);
    }

    /// Sets the session expiry interval in seconds.
    pub fn session_expiry_interval(&mut self, val: u32)
        ensures
            *final(self) == (DisconnectTxBuilder { session_expiry_interval: Some(val), ..*old(self) }),
    {
        self.session_expiry_interval = Some(val);
    }

    /// Sets the reason string.
    pub fn reason_string(&mut self, val: UTF8StringRef<'a>)
        ensures
            *final(self) == (DisconnectTxBuilder { reason_string: Some(val), ..*old(self) }),
    {
        self.reason_string = Some(val);
    }

    /// Sets the server reference.
    pub fn server_reference(&mut self, val: UTF8StringRef<'a>)
        ensures
            *final(self) == (DisconnectTxBuilder { server_reference: Some(val), ..*old(self) }),
    {
        self.server_reference = Some(val);
    }

    /// Adds a user property after those added before.
    pub fn user_property(&mut self, val: UTF8StringPairRef<'a>)
        ensures
            final(self).user_property is Some,
            spec_builder_pairs(final(self).user_property) == spec_builder_pairs(old(self).user_property).push(val),
            *final(self) == (DisconnectTxBuilder { user_property: final(self).user_property, ..*old(self) }),
    {
        let mut v = match self.user_property.take() {
            Some(v) => v,
            None => Vec::new(),
        };
        v.push(val);
        self.user_property = Some(v);
    }

    /// Builds the packet: unset fields take their defaults.
    pub fn build(self) -> (r: Result<DisconnectTx<'a>, CodecError>)
        ensures
            r matches Ok(tx) && tx.reason == (match self.reason {
                Some(v) => v,
                None => DisconnectReason::Success,
            }) && tx.session_expiry_interval == (match self.session_expiry_interval {
                Some(v) => v,
                None => 0,
            }) && tx.reason_string == self.reason_string && tx.server_reference == self.server_reference
                && tx.user_property@ == spec_builder_pairs(self.user_property),
    {
        let reason = match self.reason {
            Some(v) => v,
            None => DisconnectReason::Success,
        };
        let session_expiry_interval = match self.session_expiry_interval {
            Some(v) => v,
            None => 0,
        };
        let user_property = match self.user_property {
            Some(v) => v,
            None => Vec::new(),
        };
        Ok(
            DisconnectTx {
                reason,
                session_expiry_interval,
                reason_string: self.reason_string,
                server_reference: self.server_reference,
                user_property,
            },
        )
    }
}

/// Received DISCONNECT packet as plain data.
pub struct DisconnectV {
    /// Reason code.
    pub reason: DisconnectReason,
    /// Session expiry interval; a server never sends one.
    pub session_expiry_interval: u32,
    /// Reason string.
    pub reason_string: Option<Seq<u8>>,
    /// Server reference.
    pub server_reference: Option<Seq<u8>>,
    /// User properties, in order.
    pub user_property: Seq<(Seq<u8>, Seq<u8>)>,
}

/// Received DISCONNECT packet.
#[derive(Debug)]
pub struct DisconnectRx {
    /// Reason code.
    pub reason: DisconnectReason,
    /// Session expiry interval; a server never sends one, so it stays zero.
    pub session_expiry_interval: u32,
    /// Reason string.
    pub reason_string: Option<UTF8String>,
    /// Server reference.
    pub server_reference: Option<UTF8String>,
    /// User properties, in order.
    pub user_property: UserProperties,
}

impl View for DisconnectRx {
    type V = DisconnectV;

    open spec fn view(&self) -> DisconnectV {
        DisconnectV {
            reason: self.reason,
            session_expiry_interval: self.session_expiry_interval,
            reason_string: opt_str_view(self.reason_string),
            server_reference: opt_str_view(self.server_reference),
            user_property: self.user_property@,
        }
    }
}

/// A DISCONNECT packet with the given reason and no properties.
pub open spec fn spec_disconnect_empty(reason: DisconnectReason) -> DisconnectV {
    DisconnectV {
        reason,
        session_expiry_interval: 0,
        reason_string: None,
        server_reference: None,
        user_property: Seq::empty(),
    }
}

/// The effect of a property on a received DISCONNECT packet: a session
/// expiry interval is refused like any property it does not take.
pub open spec fn disconnect_apply(acc: DisconnectV, p: PropertyV) -> Option<DisconnectV> {
    match p.val {
        PropVal::Data(d) => if p.id == REASON_STRING {
            Some(DisconnectV { reason_string: Some(d), ..acc })
        } else if p.id == SERVER_REFERENCE {
            Some(DisconnectV { server_reference: Some(d), ..acc })
        } else {
            None
        },
        PropVal::Pair(k, v) => if p.id == USER_PROPERTY {
            Some(DisconnectV { user_property: acc.user_property.push((k, v)), ..acc })
        } else {
            None
        },
        _ => None,
    }
}

/// [disconnect_apply] as a function value.
pub open spec fn disconnect_apply_fn() -> spec_fn(DisconnectV, PropertyV) -> Option<DisconnectV> {
    |a: DisconnectV, p: PropertyV| disconnect_apply(a, p)
}

/// Reading a DISCONNECT packet from `s`: fixed header, remaining length
/// (at most the bytes that follow), reason code; where nothing follows the
/// reason the packet ends there, else the property length (at most the
/// bytes that follow) and the properties up to the end of `s`.
pub open spec fn spec_decode_disconnect(s: Seq<u8>) -> Result<DisconnectV, CodecError> {
    if s.len() == 0 {
        Err(codec_error_of(ConversionError::InsufficientBufferSize(InsufficientBufferSize)))
    } else if s[0] != DISCONNECT_FIXED_HDR {
        Err(CodecError::InvalidPacketHeader(InvalidPacketHeader))
    } else {
        let s1 = s.skip(1);
        match spec_parse_var_size_int(s1) {
            Err(e) => Err(codec_error_of(e)),
            Ok((rl, n1)) => {
                let s2 = s1.skip(n1 as int);
                if rl.spec_value() > s2.len() {
                    Err(CodecError::InvalidPacketSize(InvalidPacketSize))
                } else if s2.len() == 0 {
                    Err(codec_error_of(ConversionError::InsufficientBufferSize(InsufficientBufferSize)))
                } else {
                    match spec_disconnect_reason_from_byte(s2[0]) {
                        Err(e) => Err(codec_error_of(e)),
                        Ok(reason) => {
                            let s3 = s2.skip(1);
                            if s3.len() == 0 {
                                Ok(spec_disconnect_empty(reason))
                            } else {
                                match spec_parse_var_size_int(s3) {
                                    Err(e) => Err(codec_error_of(e)),
                                    Ok((pl, n3)) => {
                                        let s4 = s3.skip(n3 as int);
                                        if pl.spec_value() > s4.len() {
                                            Err(CodecError::InvalidPropertyLength(InvalidPropertyLength))
                                        } else {
                                            spec_fold_properties(s4, spec_disconnect_empty(reason), disconnect_apply_fn())
                                        }
                                    },
                                }
                            }
                        },
                    }
                }
            },
        }
    }
}

/// What a written DISCONNECT packet carries, as received plain data.
pub open spec fn spec_disconnect_sent(tx: DisconnectTx) -> DisconnectV {
    DisconnectV {
        reason: tx.reason,
        session_expiry_interval: tx.session_expiry_interval,
        reason_string: match tx.reason_string {
            Some(r) => Some(r.0.spec_bytes()),
            None => None,
        },
        server_reference: match tx.server_reference {
            Some(r) => Some(r.0.spec_bytes()),
            None => None,
        },
        user_property: spec_pair_bytes(tx.user_property@),
    }
}

/// The session expiry interval property that is written, if any.
pub open spec fn spec_session_expiry_prop_vs(v: u32) -> Seq<PropertyV> {
    if v == 0 {
        Seq::empty()
    } else {
        seq![PropertyV { id: SESSION_EXPIRY_INTERVAL, val: PropVal::U32(v) }]
    }
}

/// Applying the user properties that pairs are written as appends their
/// bytes to those received before.
proof fn lemma_disconnect_apply_user_props(ups: Seq<UTF8StringPairRef>, acc: DisconnectV)
    ensures
        spec_apply_all(spec_user_prop_vs(ups), acc, disconnect_apply_fn()) == Some(
            DisconnectV { user_property: acc.user_property + spec_pair_bytes(ups), ..acc },
        ),
    decreases ups.len(),
{
    if ups.len() == 0 {
        assert(acc.user_property + spec_pair_bytes(ups) =~= acc.user_property);
        assert(spec_user_prop_vs(ups) =~= Seq::<PropertyV>::empty());
    } else {
        let init = ups.drop_last();
        let last = spec_user_prop_v(ups.last());
        lemma_disconnect_apply_user_props(init, acc);
        assert(spec_user_prop_vs(ups) =~= spec_user_prop_vs(init) + seq![last]);
        lemma_apply_all_concat(spec_user_prop_vs(init), seq![last], acc, disconnect_apply_fn());
        let mid = DisconnectV { user_property: acc.user_property + spec_pair_bytes(init), ..acc };
        lemma_apply_all_single(last, mid, disconnect_apply_fn());
        assert(mid.user_property.push((ups.last().0.spec_bytes(), ups.last().1.spec_bytes()))
            =~= acc.user_property + spec_pair_bytes(ups));
    }
}

/// Texts of a packet to be sent each fit a two byte length.
pub open spec fn spec_disconnect_fits(tx: DisconnectTx) -> bool {
    &&& spec_opt_str_fits(tx.reason_string)
    &&& spec_opt_str_fits(tx.server_reference)
    &&& spec_pairs_fit(tx.user_property@)
}

/// Reading back the properties of a written DISCONNECT packet fills in
/// each of them, but a session expiry interval is refused.
#[verifier::spinoff_prover]
proof fn lemma_disconnect_props_roundtrip(tx: DisconnectTx)
    requires
        spec_disconnect_fits(tx),
    ensures
        spec_fold_properties(
            spec_disconnect_props(tx),
            spec_disconnect_empty(tx.reason),
            disconnect_apply_fn(),
        ) == if tx.session_expiry_interval == 0 {
            Ok::<DisconnectV, CodecError>(spec_disconnect_sent(tx))
        } else {
            Err(CodecError::UnexpectedProperty(UnexpectedProperty))
        },
{
    let ups = tx.user_property@;
    let x = spec_session_expiry_prop_vs(tx.session_expiry_interval);
    let r = spec_opt_str_prop_vs(REASON_STRING, tx.reason_string);
    let v = spec_opt_str_prop_vs(SERVER_REFERENCE, tx.server_reference);
    let u = spec_user_prop_vs(ups);
    if tx.session_expiry_interval != 0 {
        lemma_props_encoding_single(x[0]);
        assert(x =~= seq![x[0]]);
    }
    assert(spec_session_expiry_prop(tx.session_expiry_interval) == spec_props_encoding(x));
    lemma_opt_str_prop_encoding(REASON_STRING, tx.reason_string);
    lemma_opt_str_prop_encoding(SERVER_REFERENCE, tx.server_reference);
    lemma_user_props_encoding(ups);
    lemma_props_encoding_concat(x, r);
    lemma_props_encoding_concat(x + r, v);
    lemma_props_encoding_concat(x + r + v, u);
    let all = x + r + v + u;
    assert(spec_disconnect_props(tx) == spec_props_encoding(all));
    assert(spec_props_valid(x));
    lemma_props_valid_concat(x, r);
    lemma_props_valid_concat(x + r, v);
    lemma_props_valid_concat(x + r + v, u);
    let e = spec_disconnect_empty(tx.reason);
    lemma_fold_properties_roundtrip(all, e, disconnect_apply_fn());
    lemma_apply_all_concat(x + r + v, u, e, disconnect_apply_fn());
    lemma_apply_all_concat(x + r, v, e, disconnect_apply_fn());
    lemma_apply_all_concat(x, r, e, disconnect_apply_fn());
    lemma_apply_all_at_most_one(x, e, disconnect_apply_fn());
    if tx.session_expiry_interval == 0 {
        let sent = spec_disconnect_sent(tx);
        let e1 = DisconnectV { reason_string: sent.reason_string, ..e };
        let e2 = DisconnectV { server_reference: sent.server_reference, ..e1 };
        lemma_apply_all_at_most_one(r, e, disconnect_apply_fn());
        lemma_apply_all_at_most_one(v, e1, disconnect_apply_fn());
        lemma_disconnect_apply_user_props(ups, e2);
        assert(e2.user_property + spec_pair_bytes(ups) =~= spec_pair_bytes(ups));
    }
}

/// The steps of reading a DISCONNECT packet, each taken as given.
proof fn lemma_decode_disconnect_steps(
    s: Seq<u8>,
    rl: VarSizeInt,
    n1: nat,
    reason: DisconnectReason,
    pl: VarSizeInt,
    n3: nat,
    r: Result<DisconnectV, CodecError>,
)
    requires
        s.len() > 0,
        s[0] == DISCONNECT_FIXED_HDR,
        spec_parse_var_size_int(s.skip(1)) == Ok::<(VarSizeInt, nat), ConversionError>((rl, n1)),
        ({
            let s2 = s.skip(1).skip(n1 as int);
            &&& rl.spec_value() <= s2.len()
            &&& s2.len() > 0
            &&& spec_disconnect_reason_from_byte(s2[0]) == Ok::<DisconnectReason, ConversionError>(reason)
            &&& s2.skip(1).len() > 0
            &&& spec_parse_var_size_int(s2.skip(1)) == Ok::<(VarSizeInt, nat), ConversionError>((pl, n3))
            &&& pl.spec_value() <= s2.skip(1).skip(n3 as int).len()
            &&& spec_fold_properties(
                s2.skip(1).skip(n3 as int),
                spec_disconnect_empty(reason),
                disconnect_apply_fn(),
            ) == r
        }),
    ensures
        spec_decode_disconnect(s) == r,
{
}

/// Reading back a written DISCONNECT packet gives its reason, reason
/// string, server reference and user properties; a packet with a session
/// expiry interval is refused, as a server never sends one. This holds of
/// every packet whose remaining length fits a variable byte integer and
/// whose texts each fit a two byte length.
#[verifier::spinoff_prover]
pub proof fn lemma_disconnect_roundtrip(tx: DisconnectTx)
    requires
        spec_disconnect_remaining_len(tx) <= VarSizeInt::MAX,
        spec_disconnect_fits(tx),
    ensures
        spec_decode_disconnect(spec_disconnect_encoding(tx)) == if tx.session_expiry_interval == 0 {
            Ok::<DisconnectV, CodecError>(spec_disconnect_sent(tx))
        } else {
            Err(CodecError::UnexpectedProperty(UnexpectedProperty))
        },
        spec_disconnect_encoding(tx).len() > 0,
        spec_disconnect_encoding(tx)[0] == DISCONNECT_FIXED_HDR,
{
    let s = spec_disconnect_encoding(tx);
    let props = spec_disconnect_props(tx);
    let pl = props.len();
    let rl = spec_disconnect_remaining_len(tx);
    let n1 = spec_var_int_len(rl);
    lemma_var_int_encoding_len(pl);
    let s2 = seq![spec_disconnect_reason_byte(tx.reason)] + (spec_var_int_encoding(pl) + props);
    assert(s =~= seq![DISCONNECT_FIXED_HDR] + (spec_var_int_encoding(rl) + s2));
    lemma_parse_var_int_roundtrip(rl, s2);
    assert(s.skip(1) =~= spec_var_int_encoding(rl) + s2);
    assert(s.skip(1).skip(n1 as int) =~= s2);
    lemma_disconnect_reason_byte_roundtrip(tx.reason);
    lemma_parse_var_int_roundtrip(pl, props);
    assert(s2.skip(1) =~= spec_var_int_encoding(pl) + props);
    assert(s2.skip(1).skip(spec_var_int_len(pl) as int) =~= props);
    lemma_disconnect_props_roundtrip(tx);
    lemma_decode_disconnect_steps(
        s,
        spec_var_size_int_from(rl).unwrap(),
        n1,
        tx.reason,
        spec_var_size_int_from(pl).unwrap(),
        spec_var_int_len(pl),
        if tx.session_expiry_interval == 0 {
            Ok::<DisconnectV, CodecError>(spec_disconnect_sent(tx))
        } else {
            Err(CodecError::UnexpectedProperty(UnexpectedProperty))
        },
    );
}

impl DisconnectRx {
    /// Decodes a DISCONNECT packet from a received buffer.
    #[verifier::rlimit(40)]
    pub fn try_decode(buf: Bytes) -> (r: Result<Self, CodecError>)
        ensures
            match spec_decode_disconnect(bytes_view(buf)) {
                Ok(v) => r matches Ok(p) && p@ == v,
                Err(e) => r == Err::<Self, CodecError>(e),
            },
    {
        let ghost s = bytes_view(buf);
        let mut decoder = Decoder::from_bytes(buf);
        let fixed_hdr = match decoder.try_decode_u8() {
            Ok(v) => v,
            Err(e) => return Err(e.into_codec_error()),
        };
        if fixed_hdr != DISCONNECT_FIXED_HDR {
            return Err(CodecError::InvalidPacketHeader(InvalidPacketHeader));
        }
        assert(decoder.rest() =~= s.skip(1));
        let remaining_len = match decoder.try_decode_var_size_int() {
            Ok(v) => v,
            Err(e) => return Err(e.into_codec_error()),
        };
        if remaining_len.value() as usize > decoder.remaining() {
            return Err(CodecError::InvalidPacketSize(InvalidPacketSize));
        }
        let code = match decoder.try_decode_u8() {
            Ok(v) => v,
            Err(e) => return Err(e.into_codec_error()),
        };
        let reason = match DisconnectReason::try_from(code) {
            Ok(v) => v,
            Err(e) => return Err(e.into_codec_error()),
        };
        if decoder.remaining() == 0 {
            return Ok(DisconnectRx::empty(reason));
        }
        let property_len = match decoder.try_decode_var_size_int() {
            Ok(v) => v,
            Err(e) => return Err(e.into_codec_error()),
        };
        if property_len.value() as usize > decoder.remaining() {
            return Err(CodecError::InvalidPropertyLength(InvalidPropertyLength));
        }
        Self::decode_properties(&mut decoder, DisconnectRx::empty(reason))
    }

    /// A packet with the given reason and no properties.
    fn empty(reason: DisconnectReason) -> (r: Self)
        ensures
            r@ == spec_disconnect_empty(reason),
    {
        let r = DisconnectRx {
            reason,
            session_expiry_interval: 0,
            reason_string: None,
            server_reference: None,
            user_property: UserProperties::new(),
        };
        assert(r@.user_property =~= Seq::<(Seq<u8>, Seq<u8>)>::empty());
        r
    }

    /// Applies a property read from the packet; false where the packet
    /// does not accept it.
    fn apply_property(&mut self, property: Property) -> (ok: bool)
        ensures
            ok == disconnect_apply(old(self)@, property@) is Some,
            ok ==> final(self)@ == disconnect_apply(old(self)@, property@).unwrap(),
    {
        let ghost p = property@;
        match property {
            Property::ReasonString(val) => {
                self.reason_string = Some(val);
            },
            Property::ServerReference(val) => {
                self.server_reference = Some(val);
            },
            Property::UserProperty(val) => {
                self.user_property.push(val);
            },
            _ => {
                return false;
            },
        }
        assert(self@.user_property =~= disconnect_apply(old(self)@, p).unwrap().user_property);
        true
    }

    /// Reads the properties that fill the rest of the packet into `init`.
    #[verifier::rlimit(30)]
    fn decode_properties(decoder: &mut Decoder, init: Self) -> (r: Result<Self, CodecError>)
        requires
            old(decoder).wf(),
        ensures
            match spec_fold_properties(old(decoder).rest(), init@, disconnect_apply_fn()) {
                Ok(v) => r matches Ok(p) && p@ == v,
                Err(e) => r == Err::<Self, CodecError>(e),
            },
    {
        let ghost target = spec_fold_properties(decoder.rest(), init@, disconnect_apply_fn());
        let mut packet = init;
        while decoder.remaining() != 0
            invariant
                decoder.wf(),
                target == spec_fold_properties(old(decoder).rest(), init@, disconnect_apply_fn()),
                spec_fold_properties(decoder.rest(), packet@, disconnect_apply_fn()) == target,
            decreases decoder.rest().len(),
        {
            assert(decoder.rest().len() > 0);
            let property = match decoder.try_decode_property() {
                Ok(p) => p,
                Err(e) => return Err(e.into_codec_error()),
            };
            if !packet.apply_property(property) {
                return Err(CodecError::UnexpectedProperty(UnexpectedProperty));
            }
        }
        Ok(packet)
    }
}


impl<'a> Default for DisconnectTxBuilder<'a> {
    fn default() -> (r: Self)
        ensures
            r == Self::spec_new(),
    {
        Self::new()
    }
}


/// A written DISCONNECT packet is its fixed header, the shortest encoding of its
/// remaining length and that many bytes.
pub proof fn lemma_disconnect_framed(tx: DisconnectTx)
    requires
        spec_disconnect_remaining_len(tx) <= VarSizeInt::MAX,
    ensures
        spec_disconnect_encoding(tx).len() == 1 + spec_var_int_len(spec_disconnect_remaining_len(tx)) + spec_disconnect_remaining_len(tx),
        spec_disconnect_encoding(tx).subrange(1, 1 + spec_var_int_len(spec_disconnect_remaining_len(tx)) as int)
            == spec_var_int_encoding(spec_disconnect_remaining_len(tx)),
{
    let s = spec_disconnect_encoding(tx);
    let rl = spec_disconnect_remaining_len(tx);
    lemma_var_int_encoding_len(rl);
    lemma_var_int_encoding_len(spec_disconnect_props(tx).len());
    assert(s.subrange(1, 1 + spec_var_int_len(rl) as int) =~= spec_var_int_encoding(rl));
}


/// A DISCONNECT packet with the given reason code byte and the single
/// property `e` reads as that property applied to the packet without
/// properties.
proof fn lemma_disconnect_one_property(rb: u8, e: Seq<u8>)
    requires
        spec_disconnect_reason_from_byte(rb) is Ok,
        e.len() <= 120,
        spec_parse_property(e) is Ok,
        spec_parse_property(e)->Ok_0.1 == e.len(),
    ensures
        spec_decode_disconnect(seq![0xe0u8, (e.len() + 2) as u8, rb, e.len() as u8] + e) == match disconnect_apply(
            spec_disconnect_bare(rb),
            spec_parse_property(e)->Ok_0.0,
        ) {
            Some(a) => Ok::<DisconnectV, CodecError>(a),
            None => Err(CodecError::UnexpectedProperty(UnexpectedProperty)),
        },
{
    let s = seq![0xe0u8, (e.len() + 2) as u8, rb, e.len() as u8] + e;
    let s1 = s.skip(1);
    assert(s1[0] == (e.len() + 2) as u8);
    let s2 = s1.skip(1);
    assert(s2[0] == rb);
    let s3 = s2.skip(1);
    assert(s3[0] == e.len() as u8);
    assert(s3.skip(1) =~= e);
    lemma_disconnect_defaults(rb);
    lemma_fold_one_property(e, spec_disconnect_empty(spec_disconnect_reason_from_byte(rb)->Ok_0), disconnect_apply_fn());
}

/// What a DISCONNECT packet without properties reads as.
pub open spec fn spec_disconnect_bare(rb: u8) -> DisconnectV {
    spec_decode_disconnect(seq![0xe0u8, 1, rb])->Ok_0
}

/// A DISCONNECT packet that ends after its reason code reads as that reason
/// with nothing else set.
pub proof fn lemma_disconnect_defaults(rb: u8)
    requires
        spec_disconnect_reason_from_byte(rb) is Ok,
    ensures
        spec_decode_disconnect(seq![0xe0u8, 1, rb]) == Ok::<DisconnectV, CodecError>(
            DisconnectV {
                reason: spec_disconnect_reason_from_byte(rb)->Ok_0,
                session_expiry_interval: 0,
                reason_string: None,
                server_reference: None,
                user_property: Seq::empty(),
            },
        ),
{
    let s = seq![0xe0u8, 1, rb];
    let s1 = s.skip(1);
    assert(s1[0] == 1);
    let s2 = s1.skip(1);
    assert(s2[0] == rb);
    assert(s2.skip(1) =~= Seq::<u8>::empty());
}

/// A DISCONNECT packet whose only property is a Reason String (0x1f).
proof fn lemma_disconnect_reason_string_property(rb: u8, c: u8)
    requires
        spec_disconnect_reason_from_byte(rb) is Ok,
        c < 0x80,
    ensures
        spec_decode_disconnect(seq![0xe0u8, 6, rb, 4, 0x1f, 0, 1, c]) == Ok::<DisconnectV, CodecError>(
            DisconnectV { reason_string: Some(seq![c]), ..spec_disconnect_bare(rb) },
        ),
{
    lemma_disconnect_defaults(rb);
    lemma_parse_one_byte_data_property_bytes(0x1f, c);
    lemma_disconnect_one_property(rb, seq![0x1fu8, 0, 1, c]);
    assert(seq![0xe0u8, 6, rb, 4, 0x1f, 0, 1, c] =~= seq![0xe0u8, 6, rb, 4] + seq![0x1fu8, 0, 1, c]);
}

/// A DISCONNECT packet whose only property is a Server Reference (0x1c).
proof fn lemma_disconnect_server_reference_property(rb: u8, c: u8)
    requires
        spec_disconnect_reason_from_byte(rb) is Ok,
        c < 0x80,
    ensures
        spec_decode_disconnect(seq![0xe0u8, 6, rb, 4, 0x1c, 0, 1, c]) == Ok::<DisconnectV, CodecError>(
            DisconnectV { server_reference: Some(seq![c]), ..spec_disconnect_bare(rb) },
        ),
{
    lemma_disconnect_defaults(rb);
    lemma_parse_one_byte_data_property_bytes(0x1c, c);
    lemma_disconnect_one_property(rb, seq![0x1cu8, 0, 1, c]);
    assert(seq![0xe0u8, 6, rb, 4, 0x1c, 0, 1, c] =~= seq![0xe0u8, 6, rb, 4] + seq![0x1cu8, 0, 1, c]);
}

/// A DISCONNECT packet whose only property is a User Property (0x26).
proof fn lemma_disconnect_user_property(rb: u8)
    requires
        spec_disconnect_reason_from_byte(rb) is Ok,
    ensures
        spec_decode_disconnect(seq![0xe0u8, 7, rb, 5, 0x26, 0, 0, 0, 0]) == Ok::<DisconnectV, CodecError>(
            DisconnectV { user_property: seq![(Seq::empty(), Seq::empty())], ..spec_disconnect_bare(rb) },
        ),
{
    lemma_disconnect_defaults(rb);
    lemma_parse_empty_user_property_bytes();
    lemma_disconnect_one_property(rb, seq![0x26u8, 0, 0, 0, 0]);
    assert(seq![0xe0u8, 7, rb, 5, 0x26, 0, 0, 0, 0] =~= seq![0xe0u8, 7, rb, 5] + seq![0x26u8, 0, 0, 0, 0]);
    assert(Seq::<(Seq<u8>, Seq<u8>)>::empty().push((Seq::<u8>::empty(), Seq::<u8>::empty())) =~= seq![
        (Seq::<u8>::empty(), Seq::<u8>::empty()),
    ]);
}

/// Each property of a received DISCONNECT packet sets its own field and
/// nothing else: Reason String (0x1f) and Server Reference (0x1c), each
/// text here one ASCII byte, and a User Property (0x26) is added to the
/// user properties.
pub proof fn lemma_disconnect_properties(rb: u8, c: u8)
    requires
        spec_disconnect_reason_from_byte(rb) is Ok,
        c < 0x80,
    ensures
        spec_decode_disconnect(seq![0xe0u8, 6, rb, 4, 0x1f, 0, 1, c]) == Ok::<DisconnectV, CodecError>(
            DisconnectV { reason_string: Some(seq![c]), ..spec_disconnect_bare(rb) },
        ),
        spec_decode_disconnect(seq![0xe0u8, 6, rb, 4, 0x1c, 0, 1, c]) == Ok::<DisconnectV, CodecError>(
            DisconnectV { server_reference: Some(seq![c]), ..spec_disconnect_bare(rb) },
        ),
        spec_decode_disconnect(seq![0xe0u8, 7, rb, 5, 0x26, 0, 0, 0, 0]) == Ok::<DisconnectV, CodecError>(
            DisconnectV { user_property: seq![(Seq::empty(), Seq::empty())], ..spec_disconnect_bare(rb) },
        ),
{
    lemma_disconnect_reason_string_property(rb, c);
    lemma_disconnect_server_reference_property(rb, c);
    lemma_disconnect_user_property(rb);
}

} // verus!
