//! The UNSUBACK packet: the server's answer to an unsubscription request.
use crate::codec::sub_ack::{lemma_sub_ack_decode_one_reason, spec_decode_sub_ack, SubAckV, SubAckReason, SubAckRx};
use crate::types::error::{CodecError, ConversionError, InvalidValue};
use vstd::prelude::*;

verus! {

/// Reason code for a topic filter in a UNSUBACK packet.
#[derive(Copy, Clone, Debug, PartialEq, Eq, Structural)]
pub enum UnsubackReason {
    /// Success.
    Success,
    /// No subscription existed.
    NoSubscriptionExisted,
    /// Unspecified error.
    UnspecifiedError,
    /// Implementation specific error.
    ImplementationSpecificError,
    /// Not authorized.
    NotAuthorized,
    /// Topic filter invalid.
    TopicFilterInvalid,
    /// Packet identifier in use.
    PacketIdentifierInUse,
}

/// The reason code of a [UnsubackReason] on the wire.
pub open spec fn spec_unsuback_reason_byte(r: UnsubackReason) -> u8 {
    match r {
        UnsubackReason::Success => 0x00,
        UnsubackReason::NoSubscriptionExisted => 0x11,
        UnsubackReason::UnspecifiedError => 0x80,
        UnsubackReason::ImplementationSpecificError => 0x83,
        UnsubackReason::NotAuthorized => 0x87,
        UnsubackReason::TopicFilterInvalid => 0x8f,
        UnsubackReason::PacketIdentifierInUse => 0x91,
    }
}

/// The [UnsubackReason] with the given reason code, if there is one.
pub open spec fn spec_unsuback_reason_from_byte(val: u8) -> Result<UnsubackReason, ConversionError> {
    if val == 0x00 {
        Ok(UnsubackReason::Success)
    } else if val == 0x11 {
        Ok(UnsubackReason::NoSubscriptionExisted)
    } else if val == 0x80 {
        Ok(UnsubackReason::UnspecifiedError)
    } else if val == 0x83 {
        Ok(UnsubackReason::ImplementationSpecificError)
    } else if val == 0x87 {
        Ok(UnsubackReason::NotAuthorized)
    } else if val == 0x8f {
        Ok(UnsubackReason::TopicFilterInvalid)
    } else if val == 0x91 {
        Ok(UnsubackReason::PacketIdentifierInUse)
    } else {
        Err(ConversionError::InvalidValue(InvalidValue))
    }
}

impl TryFrom<u8> for UnsubackReason {
    type Error = ConversionError;

    fn try_from(val: u8) -> (r: Result<Self, Self::Error>) {
        match val {
            0x00 => Ok(UnsubackReason::Success),
            0x11 => Ok(UnsubackReason::NoSubscriptionExisted),
            0x80 => Ok(UnsubackReason::UnspecifiedError),
            0x83 => Ok(UnsubackReason::ImplementationSpecificError),
            0x87 => Ok(UnsubackReason::NotAuthorized),
            0x8f => Ok(UnsubackReason::TopicFilterInvalid),
            0x91 => Ok(UnsubackReason::PacketIdentifierInUse),
            _ => Err(ConversionError::InvalidValue(InvalidValue)),
        }
    }
}

impl vstd::std_specs::convert::TryFromSpecImpl<u8> for UnsubackReason {
    open spec fn obeys_try_from_spec() -> bool {
        true
    }

    open spec fn try_from_spec(val: u8) -> Result<Self, ConversionError> {
        spec_unsuback_reason_from_byte(val)
    }
}

impl From<UnsubackReason> for u8 {
    fn from(val: UnsubackReason) -> (r: u8) {
        match val {
            UnsubackReason::Success => 0x00,
            UnsubackReason::NoSubscriptionExisted => 0x11,
            UnsubackReason::UnspecifiedError => 0x80,
            UnsubackReason::ImplementationSpecificError => 0x83,
            UnsubackReason::NotAuthorized => 0x87,
            UnsubackReason::TopicFilterInvalid => 0x8f,
            UnsubackReason::PacketIdentifierInUse => 0x91,
        }
    }
}

impl vstd::std_specs::convert::FromSpecImpl<UnsubackReason> for u8 {
    open spec fn obeys_from_spec() -> bool {
        true
    }

    open spec fn from_spec(val: UnsubackReason) -> u8 {
        spec_unsuback_reason_byte(val)
    }
}

/// Reading back the code of a [UnsubackReason] gives the same reason.
pub proof fn lemma_unsuback_reason_byte_roundtrip(r: UnsubackReason)
    ensures
        spec_unsuback_reason_from_byte(spec_unsuback_reason_byte(r)) == Ok::<UnsubackReason, ConversionError>(r),
{
}

/// The reason codes of an UNSUBACK packet are the MQTT 5 ones: each reason is
/// written as its code, a byte that is a code reads back as the reason with
/// that code, any other byte is an invalid value, and the reasons below
/// 0x80 are exactly the ones that report no failure.
pub proof fn lemma_unsuback_reason_codes()
    ensures
        spec_unsuback_reason_byte(UnsubackReason::Success) == 0x00u8,
        spec_unsuback_reason_byte(UnsubackReason::NoSubscriptionExisted) == 0x11u8,
        spec_unsuback_reason_byte(UnsubackReason::UnspecifiedError) == 0x80u8,
        spec_unsuback_reason_byte(UnsubackReason::ImplementationSpecificError) == 0x83u8,
        spec_unsuback_reason_byte(UnsubackReason::NotAuthorized) == 0x87u8,
        spec_unsuback_reason_byte(UnsubackReason::TopicFilterInvalid) == 0x8fu8,
        spec_unsuback_reason_byte(UnsubackReason::PacketIdentifierInUse) == 0x91u8,
        forall|b: u8|
            (#[trigger] spec_unsuback_reason_from_byte(b)) is Ok <==> (b == 0x00 || b == 0x11 || b == 0x80 || b == 0x83 || b == 0x87 || b == 0x8f ||
                b == 0x91),
        forall|b: u8| (#[trigger] spec_unsuback_reason_from_byte(b)) matches Ok(r) ==> spec_unsuback_reason_byte(r) == b,
        forall|b: u8|
            (#[trigger] spec_unsuback_reason_from_byte(b)) is Err ==> spec_unsuback_reason_from_byte(b) == Err::<
                UnsubackReason,
                ConversionError,
            >(ConversionError::InvalidValue(InvalidValue)),
        forall|r: UnsubackReason|
            (#[trigger] spec_unsuback_reason_byte(r)) < 0x80 <==> (r == UnsubackReason::Success || r == UnsubackReason::NoSubscriptionExisted),
        forall|b: u8| #[trigger] <UnsubackReason as SubAckReason>::spec_from_byte(b) == spec_unsuback_reason_from_byte(b),
{
}

impl Default for UnsubackReason {
    fn default() -> (r: Self)
        ensures
            r == UnsubackReason::Success,
    {
        UnsubackReason::Success
    }
}

impl SubAckReason for UnsubackReason {
    open spec fn spec_from_byte(b: u8) -> Result<Self, ConversionError> {
        spec_unsuback_reason_from_byte(b)
    }

    open spec fn spec_packet_id() -> u8 {
        11
    }

    fn try_from_byte(b: u8) -> (r: Result<Self, ConversionError>) {
        match b {
            0x00 => Ok(UnsubackReason::Success),
            0x11 => Ok(UnsubackReason::NoSubscriptionExisted),
            0x80 => Ok(UnsubackReason::UnspecifiedError),
            0x83 => Ok(UnsubackReason::ImplementationSpecificError),
            0x87 => Ok(UnsubackReason::NotAuthorized),
            0x8f => Ok(UnsubackReason::TopicFilterInvalid),
            0x91 => Ok(UnsubackReason::PacketIdentifierInUse),
            _ => Err(ConversionError::InvalidValue(InvalidValue)),
        }
    }

    fn packet_id() -> (r: u8) {
        11
    }
}

/// Received UNSUBACK packet.
pub type UnsubackRx = SubAckRx<UnsubackReason>;


/// An UNSUBACK packet (first byte 0xb0) with no properties and one
/// reason code byte reads as its packet identifier and the reason with that
/// code.
pub proof fn lemma_unsuback_decoding(hi: u8, lo: u8, rb: u8)
    requires
        hi * 256 + lo != 0,
        spec_unsuback_reason_from_byte(rb) is Ok,
    ensures
        spec_decode_sub_ack::<UnsubackReason>(seq![0xb0u8, 4, hi, lo, 0, rb]) == Ok::<SubAckV<UnsubackReason>, CodecError>(
            SubAckV {
                packet_identifier: (hi * 256 + lo) as u16,
                reason_string: None,
                user_property: Seq::empty(),
                payload: seq![spec_unsuback_reason_from_byte(rb)->Ok_0],
            },
        ),
{
    lemma_sub_ack_decode_one_reason::<UnsubackReason>(hi, lo, rb);
    assert(seq![((<UnsubackReason as SubAckReason>::spec_packet_id()) * 16) as u8, 4, hi, lo, 0, rb] =~= seq![0xb0u8, 4, hi, lo, 0, rb]);
}

} // verus!
