//! The SUBACK packet: the server's answer to a subscription request.
use crate::codec::sub_ack::{lemma_sub_ack_decode_one_reason, spec_decode_sub_ack, SubAckV, SubAckReason, SubAckRx};
use crate::types::error::{CodecError, ConversionError, InvalidValue};
use vstd::prelude::*;

verus! {

/// Reason code for a topic filter in a SUBACK packet.
#[derive(Copy, Clone, Debug, PartialEq, Eq, Structural)]
pub enum SubackReason {
    /// Granted QoS 0.
    GranteedQoS0,
    /// Granted QoS 1.
    GranteedQoS1,
    /// Granted QoS 2.
    GranteedQoS2,
    /// Unspecified error.
    UnspecifiedError,
    /// Implementation specific error.
    ImplementationSpecificError,
    /// Not authorized.
    NotAuthorized,
    /// Topic filter invalid.
    TopicFilterInvalid,
    /// Packet identifier in use.
    PacketIdentifierInUse,
    /// Quota exceeded.
    QuotaExceeded,
    /// Shared subscriptions not supported.
    SharedSubscriptionsNotSupported,
    /// Subscription identifiers not supported.
    SubscriptionIdentifiersNotSupported,
    /// Wildcard subscriptions not supported.
    WildcardSubscriptionsNotSupported,
}

/// The reason code of a [SubackReason] on the wire.
pub open spec fn spec_suback_reason_byte(r: SubackReason) -> u8 {
    match r {
        SubackReason::GranteedQoS0 => 0x00,
        SubackReason::GranteedQoS1 => 0x01,
        SubackReason::GranteedQoS2 => 0x02,
        SubackReason::UnspecifiedError => 0x80,
        SubackReason::ImplementationSpecificError => 0x83,
        SubackReason::NotAuthorized => 0x87,
        SubackReason::TopicFilterInvalid => 0x8f,
        SubackReason::PacketIdentifierInUse => 0x91,
        SubackReason::QuotaExceeded => 0x97,
        SubackReason::SharedSubscriptionsNotSupported => 0x9e,
        SubackReason::SubscriptionIdentifiersNotSupported => 0xa1,
        SubackReason::WildcardSubscriptionsNotSupported => 0xa2,
    }
}

/// The [SubackReason] with the given reason code, if there is one.
pub open spec fn spec_suback_reason_from_byte(val: u8) -> Result<SubackReason, ConversionError> {
    if val == 0x00 {
        Ok(SubackReason::GranteedQoS0)
    } else if val == 0x01 {
        Ok(SubackReason::GranteedQoS1)
    } else if val == 0x02 {
        Ok(SubackReason::GranteedQoS2)
    } else if val == 0x80 {
        Ok(SubackReason::UnspecifiedError)
    } else if val == 0x83 {
        Ok(SubackReason::ImplementationSpecificError)
    } else if val == 0x87 {
        Ok(SubackReason::NotAuthorized)
    } else if val == 0x8f {
        Ok(SubackReason::TopicFilterInvalid)
    } else if val == 0x91 {
        Ok(SubackReason::PacketIdentifierInUse)
    } else if val == 0x97 {
        Ok(SubackReason::QuotaExceeded)
    } else if val == 0x9e {
        Ok(SubackReason::SharedSubscriptionsNotSupported)
    } else if val == 0xa1 {
        Ok(SubackReason::SubscriptionIdentifiersNotSupported)
    } else if val == 0xa2 {
        Ok(SubackReason::WildcardSubscriptionsNotSupported)
    } else {
        Err(ConversionError::InvalidValue(InvalidValue))
    }
}

impl TryFrom<u8> for SubackReason {
    type Error = ConversionError;

    fn try_from(val: u8) -> (r: Result<Self, Self::Error>) {
        match val {
            0x00 => Ok(SubackReason::GranteedQoS0),
            0x01 => Ok(SubackReason::GranteedQoS1),
            0x02 => Ok(SubackReason::GranteedQoS2),
            0x80 => Ok(SubackReason::UnspecifiedError),
            0x83 => Ok(SubackReason::ImplementationSpecificError),
            0x87 => Ok(SubackReason::NotAuthorized),
            0x8f => Ok(SubackReason::TopicFilterInvalid),
            0x91 => Ok(SubackReason::PacketIdentifierInUse),
            0x97 => Ok(SubackReason::QuotaExceeded),
            0x9e => Ok(SubackReason::SharedSubscriptionsNotSupported),
            0xa1 => Ok(SubackReason::SubscriptionIdentifiersNotSupported),
            0xa2 => Ok(SubackReason::WildcardSubscriptionsNotSupported),
            _ => Err(ConversionError::InvalidValue(InvalidValue)),
        }
    }
}

impl vstd::std_specs::convert::TryFromSpecImpl<u8> for SubackReason {
    open spec fn obeys_try_from_spec() -> bool {
        true
    }

    open spec fn try_from_spec(val: u8) -> Result<Self, ConversionError> {
        spec_suback_reason_from_byte(val)
    }
}

impl From<SubackReason> for u8 {
    fn from(val: SubackReason) -> (r: u8) {
        match val {
            SubackReason::GranteedQoS0 => 0x00,
            SubackReason::GranteedQoS1 => 0x01,
            SubackReason::GranteedQoS2 => 0x02,
            SubackReason::UnspecifiedError => 0x80,
            SubackReason::ImplementationSpecificError => 0x83,
            SubackReason::NotAuthorized => 0x87,
            SubackReason::TopicFilterInvalid => 0x8f,
            SubackReason::PacketIdentifierInUse => 0x91,
            SubackReason::QuotaExceeded => 0x97,
            SubackReason::SharedSubscriptionsNotSupported => 0x9e,
            SubackReason::SubscriptionIdentifiersNotSupported => 0xa1,
            SubackReason::WildcardSubscriptionsNotSupported => 0xa2,
        }
    }
}

impl vstd::std_specs::convert::FromSpecImpl<SubackReason> for u8 {
    open spec fn obeys_from_spec() -> bool {
        true
    }

    open spec fn from_spec(val: SubackReason) -> u8 {
        spec_suback_reason_byte(val)
    }
}

/// Reading back the code of a [SubackReason] gives the same reason.
pub proof fn lemma_suback_reason_byte_roundtrip(r: SubackReason)
    ensures
        spec_suback_reason_from_byte(spec_suback_reason_byte(r)) == Ok::<SubackReason, ConversionError>(r),
{
}

/// The reason codes of a SUBACK packet are the MQTT 5 ones: each reason is
/// written as its code, a byte that is a code reads back as the reason with
/// that code, any other byte is an invalid value, and the reasons below
/// 0x80 are exactly the ones that report no failure.
pub proof fn lemma_suback_reason_codes()
    ensures
        spec_suback_reason_byte(SubackReason::GranteedQoS0) == 0x00u8,
        spec_suback_reason_byte(SubackReason::GranteedQoS1) == 0x01u8,
        spec_suback_reason_byte(SubackReason::GranteedQoS2) == 0x02u8,
        spec_suback_reason_byte(SubackReason::UnspecifiedError) == 0x80u8,
        spec_suback_reason_byte(SubackReason::ImplementationSpecificError) == 0x83u8,
        spec_suback_reason_byte(SubackReason::NotAuthorized) == 0x87u8,
        spec_suback_reason_byte(SubackReason::TopicFilterInvalid) == 0x8fu8,
        spec_suback_reason_byte(SubackReason::PacketIdentifierInUse) == 0x91u8,
        spec_suback_reason_byte(SubackReason::QuotaExceeded) == 0x97u8,
        spec_suback_reason_byte(SubackReason::SharedSubscriptionsNotSupported) == 0x9eu8,
        spec_suback_reason_byte(SubackReason::SubscriptionIdentifiersNotSupported) == 0xa1u8,
        spec_suback_reason_byte(SubackReason::WildcardSubscriptionsNotSupported) == 0xa2u8,
        forall|b: u8|
            (#[trigger] spec_suback_reason_from_byte(b)) is Ok <==> (b == 0x00 || b == 0x01 || b == 0x02 || b == 0x80 || b == 0x83 || b == 0x87 ||
                b == 0x8f || b == 0x91 || b == 0x97 || b == 0x9e || b == 0xa1 || b == 0xa2),
        forall|b: u8| (#[trigger] spec_suback_reason_from_byte(b)) matches Ok(r) ==> spec_suback_reason_byte(r) == b,
        forall|b: u8|
            (#[trigger] spec_suback_reason_from_byte(b)) is Err ==> spec_suback_reason_from_byte(b) == Err::<
                SubackReason,
                ConversionError,
            >(ConversionError::InvalidValue(InvalidValue)),
        forall|r: SubackReason|
            (#[trigger] spec_suback_reason_byte(r)) < 0x80 <==> (r == SubackReason::GranteedQoS0 || r == SubackReason::GranteedQoS1 ||
                r == SubackReason::GranteedQoS2),
        forall|b: u8| #[trigger] <SubackReason as SubAckReason>::spec_from_byte(b) == spec_suback_reason_from_byte(b),
{
}

impl SubAckReason for SubackReason {
    open spec fn spec_from_byte(b: u8) -> Result<Self, ConversionError> {
        spec_suback_reason_from_byte(b)
    }

    open spec fn spec_packet_id() -> u8 {
        9
    }

    fn try_from_byte(b: u8) -> (r: Result<Self, ConversionError>) {
        match b {
            0x00 => Ok(SubackReason::GranteedQoS0),
            0x01 => Ok(SubackReason::GranteedQoS1),
            0x02 => Ok(SubackReason::GranteedQoS2),
            0x80 => Ok(SubackReason::UnspecifiedError),
            0x83 => Ok(SubackReason::ImplementationSpecificError),
            0x87 => Ok(SubackReason::NotAuthorized),
            0x8f => Ok(SubackReason::TopicFilterInvalid),
            0x91 => Ok(SubackReason::PacketIdentifierInUse),
            0x97 => Ok(SubackReason::QuotaExceeded),
            0x9e => Ok(SubackReason::SharedSubscriptionsNotSupported),
            0xa1 => Ok(SubackReason::SubscriptionIdentifiersNotSupported),
            0xa2 => Ok(SubackReason::WildcardSubscriptionsNotSupported),
            _ => Err(ConversionError::InvalidValue(InvalidValue)),
        }
    }

    fn packet_id() -> (r: u8) {
        9
    }
}

/// Received SUBACK packet.
pub type SubackRx = SubAckRx<SubackReason>;


/// A SUBACK packet (first byte 0x90) with no properties and one
/// reason code byte reads as its packet identifier and the reason with that
/// code.
pub proof fn lemma_suback_decoding(hi: u8, lo: u8, rb: u8)
    requires
        hi * 256 + lo != 0,
        spec_suback_reason_from_byte(rb) is Ok,
    ensures
        spec_decode_sub_ack::<SubackReason>(seq![0x90u8, 4, hi, lo, 0, rb]) == Ok::<SubAckV<SubackReason>, CodecError>(
            SubAckV {
                packet_identifier: (hi * 256 + lo) as u16,
                reason_string: None,
                user_property: Seq::empty(),
                payload: seq![spec_suback_reason_from_byte(rb)->Ok_0],
            },
        ),
{
    lemma_sub_ack_decode_one_reason::<SubackReason>(hi, lo, rb);
    assert(seq![((<SubackReason as SubAckReason>::spec_packet_id()) * 16) as u8, 4, hi, lo, 0, rb] =~= seq![0x90u8, 4, hi, lo, 0, rb]);
}

} // verus!
