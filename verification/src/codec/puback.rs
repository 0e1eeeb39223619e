//! The PUBACK packet: acknowledgement of a QoS 1 PUBLISH.
use crate::codec::ack::{lemma_ack_decode_short, spec_decode_ack, AckV, AckReason, AckRx, AckTx};
use crate::types::error::{CodecError, ConversionError, InvalidValue};
use vstd::prelude::*;

verus! {

/// Reason code of a PUBACK packet.
#[derive(Copy, Clone, Debug, PartialEq, Eq, Structural)]
pub enum PubackReason {
    /// Success.
    Success,
    /// No matching subscribers.
    NoMatchingSubscribers,
    /// Unspecified error.
    UnspecifiedError,
    /// Implementation specific error.
    ImplementationSpecificError,
    /// Not authorized.
    NotAuthorized,
    /// Topic name invalid.
    TopicNameInvalid,
    /// Packet identifier in use.
    PacketIdentifierInUse,
    /// Quota exceeded.
    QuotaExceeded,
    /// Payload format invalid.
    PayloadFormatInvalid,
}

/// The reason code of a [PubackReason] on the wire.
pub open spec fn spec_puback_reason_byte(r: PubackReason) -> u8 {
    match r {
        PubackReason::Success => 0x00,
        PubackReason::NoMatchingSubscribers => 0x10,
        PubackReason::UnspecifiedError => 0x80,
        PubackReason::ImplementationSpecificError => 0x83,
        PubackReason::NotAuthorized => 0x87,
        PubackReason::TopicNameInvalid => 0x90,
        PubackReason::PacketIdentifierInUse => 0x91,
        PubackReason::QuotaExceeded => 0x97,
        PubackReason::PayloadFormatInvalid => 0x99,
    }
}

/// The [PubackReason] with the given reason code, if there is one.
pub open spec fn spec_puback_reason_from_byte(val: u8) -> Result<PubackReason, ConversionError> {
    if val == 0x00 {
        Ok(PubackReason::Success)
    } else if val == 0x10 {
        Ok(PubackReason::NoMatchingSubscribers)
    } else if val == 0x80 {
        Ok(PubackReason::UnspecifiedError)
    } else if val == 0x83 {
        Ok(PubackReason::ImplementationSpecificError)
    } else if val == 0x87 {
        Ok(PubackReason::NotAuthorized)
    } else if val == 0x90 {
        Ok(PubackReason::TopicNameInvalid)
    } else if val == 0x91 {
        Ok(PubackReason::PacketIdentifierInUse)
    } else if val == 0x97 {
        Ok(PubackReason::QuotaExceeded)
    } else if val == 0x99 {
        Ok(PubackReason::PayloadFormatInvalid)
    } else {
        Err(ConversionError::InvalidValue(InvalidValue))
    }
}

impl TryFrom<u8> for PubackReason {
    type Error = ConversionError;

    fn try_from(val: u8) -> (r: Result<Self, Self::Error>) {
        match val {
            0x00 => Ok(PubackReason::Success),
            0x10 => Ok(PubackReason::NoMatchingSubscribers),
            0x80 => Ok(PubackReason::UnspecifiedError),
            0x83 => Ok(PubackReason::ImplementationSpecificError),
            0x87 => Ok(PubackReason::NotAuthorized),
            0x90 => Ok(PubackReason::TopicNameInvalid),
            0x91 => Ok(PubackReason::PacketIdentifierInUse),
            0x97 => Ok(PubackReason::QuotaExceeded),
            0x99 => Ok(PubackReason::PayloadFormatInvalid),
            _ => Err(ConversionError::InvalidValue(InvalidValue)),
        }
    }
}

impl vstd::std_specs::convert::TryFromSpecImpl<u8> for PubackReason {
    open spec fn obeys_try_from_spec() -> bool {
        true
    }

    open spec fn try_from_spec(val: u8) -> Result<Self, ConversionError> {
        spec_puback_reason_from_byte(val)
    }
}

impl From<PubackReason> for u8 {
    fn from(val: PubackReason) -> (r: u8) {
        match val {
            PubackReason::Success => 0x00,
            PubackReason::NoMatchingSubscribers => 0x10,
            PubackReason::UnspecifiedError => 0x80,
            PubackReason::ImplementationSpecificError => 0x83,
            PubackReason::NotAuthorized => 0x87,
            PubackReason::TopicNameInvalid => 0x90,
            PubackReason::PacketIdentifierInUse => 0x91,
            PubackReason::QuotaExceeded => 0x97,
            PubackReason::PayloadFormatInvalid => 0x99,
        }
    }
}

impl vstd::std_specs::convert::FromSpecImpl<PubackReason> for u8 {
    open spec fn obeys_from_spec() -> bool {
        true
    }

    open spec fn from_spec(val: PubackReason) -> u8 {
        spec_puback_reason_byte(val)
    }
}

/// Reading back the code of a [PubackReason] gives the same reason.
pub proof fn lemma_puback_reason_byte_roundtrip(r: PubackReason)
    ensures
        spec_puback_reason_from_byte(spec_puback_reason_byte(r)) == Ok::<PubackReason, ConversionError>(r),
{
}

/// The reason codes of a PUBACK packet are the MQTT 5 ones: each reason is
/// written as its code, a byte that is a code reads back as the reason with
/// that code, any other byte is an invalid value, and the reasons below
/// 0x80 are exactly the ones that report no failure.
pub proof fn lemma_puback_reason_codes()
    ensures
        spec_puback_reason_byte(PubackReason::Success) == 0x00u8,
        spec_puback_reason_byte(PubackReason::NoMatchingSubscribers) == 0x10u8,
        spec_puback_reason_byte(PubackReason::UnspecifiedError) == 0x80u8,
        spec_puback_reason_byte(PubackReason::ImplementationSpecificError) == 0x83u8,
        spec_puback_reason_byte(PubackReason::NotAuthorized) == 0x87u8,
        spec_puback_reason_byte(PubackReason::TopicNameInvalid) == 0x90u8,
        spec_puback_reason_byte(PubackReason::PacketIdentifierInUse) == 0x91u8,
        spec_puback_reason_byte(PubackReason::QuotaExceeded) == 0x97u8,
        spec_puback_reason_byte(PubackReason::PayloadFormatInvalid) == 0x99u8,
        forall|b: u8|
            (#[trigger] spec_puback_reason_from_byte(b)) is Ok <==> (b == 0x00 || b == 0x10 || b == 0x80 || b == 0x83 || b == 0x87 || b == 0x90 ||
                b == 0x91 || b == 0x97 || b == 0x99),
        forall|b: u8| (#[trigger] spec_puback_reason_from_byte(b)) matches Ok(r) ==> spec_puback_reason_byte(r) == b,
        forall|b: u8|
            (#[trigger] spec_puback_reason_from_byte(b)) is Err ==> spec_puback_reason_from_byte(b) == Err::<
                PubackReason,
                ConversionError,
            >(ConversionError::InvalidValue(InvalidValue)),
        forall|r: PubackReason|
            (#[trigger] spec_puback_reason_byte(r)) < 0x80 <==> (r == PubackReason::Success || r == PubackReason::NoMatchingSubscribers),
        forall|b: u8| #[trigger] <PubackReason as AckReason>::spec_from_byte(b) == spec_puback_reason_from_byte(b),
        forall|r: PubackReason| #[trigger] r.spec_byte() == spec_puback_reason_byte(r),
{
}

impl Default for PubackReason {
    fn default() -> (r: Self)
        ensures
            r == PubackReason::Success,
    {
        PubackReason::Success
    }
}

impl AckReason for PubackReason {
    open spec fn spec_from_byte(b: u8) -> Result<Self, ConversionError> {
        spec_puback_reason_from_byte(b)
    }

    open spec fn spec_byte(self) -> u8 {
        spec_puback_reason_byte(self)
    }

    open spec fn spec_default() -> Self {
        PubackReason::Success
    }

    open spec fn spec_packet_id() -> u8 {
        4
    }

    fn try_from_byte(b: u8) -> (r: Result<Self, ConversionError>) {
        match b {
            0x00 => Ok(PubackReason::Success),
            0x10 => Ok(PubackReason::NoMatchingSubscribers),
            0x80 => Ok(PubackReason::UnspecifiedError),
            0x83 => Ok(PubackReason::ImplementationSpecificError),
            0x87 => Ok(PubackReason::NotAuthorized),
            0x90 => Ok(PubackReason::TopicNameInvalid),
            0x91 => Ok(PubackReason::PacketIdentifierInUse),
            0x97 => Ok(PubackReason::QuotaExceeded),
            0x99 => Ok(PubackReason::PayloadFormatInvalid),
            _ => Err(ConversionError::InvalidValue(InvalidValue)),
        }
    }

    fn to_byte(self) -> (r: u8) {
        match self {
            PubackReason::Success => 0x00,
            PubackReason::NoMatchingSubscribers => 0x10,
            PubackReason::UnspecifiedError => 0x80,
            PubackReason::ImplementationSpecificError => 0x83,
            PubackReason::NotAuthorized => 0x87,
            PubackReason::TopicNameInvalid => 0x90,
            PubackReason::PacketIdentifierInUse => 0x91,
            PubackReason::QuotaExceeded => 0x97,
            PubackReason::PayloadFormatInvalid => 0x99,
        }
    }

    fn default_reason() -> (r: Self) {
        PubackReason::Success
    }

    fn is_default(self) -> (r: bool) {
        match self {
            PubackReason::Success => true,
            _ => false,
        }
    }

    fn packet_id() -> (r: u8) {
        4
    }

    proof fn lemma_byte_roundtrip(r: Self) {
    }

    proof fn lemma_packet_id_bound() {
    }
}

/// Received PUBACK packet.
pub type PubackRx = AckRx<PubackReason>;

/// PUBACK packet to be sent.
pub type PubackTx<'a> = AckTx<'a, PubackReason>;


/// A PUBACK packet (first byte 0x40) with only its packet identifier
/// reads as success; with a reason code byte and no properties it reads as
/// the reason with that code.
pub proof fn lemma_puback_decoding(hi: u8, lo: u8, rb: u8)
    requires
        hi * 256 + lo != 0,
    ensures
        spec_decode_ack::<PubackReason>(seq![0x40u8, 2, hi, lo]) == Ok::<AckV<PubackReason>, CodecError>(
            AckV {
                packet_identifier: (hi * 256 + lo) as u16,
                reason: PubackReason::Success,
                reason_string: None,
                user_property: Seq::empty(),
            },
        ),
        spec_puback_reason_from_byte(rb) is Ok ==> spec_decode_ack::<PubackReason>(seq![0x40u8, 4, hi, lo, rb, 0])
            == Ok::<AckV<PubackReason>, CodecError>(
            AckV {
                packet_identifier: (hi * 256 + lo) as u16,
                reason: spec_puback_reason_from_byte(rb)->Ok_0,
                reason_string: None,
                user_property: Seq::empty(),
            },
        ),
{
    lemma_ack_decode_short::<PubackReason>(hi, lo, rb);
    assert(seq![((<PubackReason as AckReason>::spec_packet_id()) * 16) as u8, 2, hi, lo] =~= seq![0x40u8, 2, hi, lo]);
    assert(seq![((<PubackReason as AckReason>::spec_packet_id()) * 16) as u8, 4, hi, lo, rb, 0] =~= seq![0x40u8, 4, hi, lo, rb, 0]);
}

} // verus!
