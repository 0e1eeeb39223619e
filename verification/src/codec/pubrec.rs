//! The PUBREC packet: first acknowledgement of a QoS 2 PUBLISH.
use crate::codec::ack::{lemma_ack_decode_short, spec_decode_ack, AckV, AckReason, AckRx, AckTx};
use crate::types::error::{CodecError, ConversionError, InvalidValue};
use vstd::prelude::*;

verus! {

/// Reason code of a PUBREC packet.
#[derive(Copy, Clone, Debug, PartialEq, Eq, Structural)]
pub enum PubrecReason {
    /// Success.
    Success,
    /// No matching subscribers.
    NoMatchingSubscribers,
    /// Unspecified error.
    UnspecifiedError,
    /// Implementation specific error.
    ImplementationSpecificError,
    /// Not authorized.
    NotAuthorized,
    /// Topic name invalid.
    TopicNameInvalid,
    /// Packet identifier in use.
    PacketIdentifierInUse,
    /// Quota exceeded.
    QuotaExceeded,
    /// Payload format invalid.
    PayloadFormatInvalid,
}

/// The reason code of a [PubrecReason] on the wire.
pub open spec fn spec_pubrec_reason_byte(r: PubrecReason) -> u8 {
    match r {
        PubrecReason::Success => 0x00,
        PubrecReason::NoMatchingSubscribers => 0x10,
        PubrecReason::UnspecifiedError => 0x80,
        PubrecReason::ImplementationSpecificError => 0x83,
        PubrecReason::NotAuthorized => 0x87,
        PubrecReason::TopicNameInvalid => 0x90,
        PubrecReason::PacketIdentifierInUse => 0x91,
        PubrecReason::QuotaExceeded => 0x97,
        PubrecReason::PayloadFormatInvalid => 0x99,
    }
}

/// The [PubrecReason] with the given reason code, if there is one.
pub open spec fn spec_pubrec_reason_from_byte(val: u8) -> Result<PubrecReason, ConversionError> {
    if val == 0x00 {
        Ok(PubrecReason::Success)
    } else if val == 0x10 {
        Ok(PubrecReason::NoMatchingSubscribers)
    } else if val == 0x80 {
        Ok(PubrecReason::UnspecifiedError)
    } else if val == 0x83 {
        Ok(PubrecReason::ImplementationSpecificError)
    } else if val == 0x87 {
        Ok(PubrecReason::NotAuthorized)
    } else if val == 0x90 {
        Ok(PubrecReason::TopicNameInvalid)
    } else if val == 0x91 {
        Ok(PubrecReason::PacketIdentifierInUse)
    } else if val == 0x97 {
        Ok(PubrecReason::QuotaExceeded)
    } else if val == 0x99 {
        Ok(PubrecReason::PayloadFormatInvalid)
    } else {
        Err(ConversionError::InvalidValue(InvalidValue))
    }
}

impl TryFrom<u8> for PubrecReason {
    type Error = ConversionError;

    fn try_from(val: u8) -> (r: Result<Self, Self::Error>) {
        match val {
            0x00 => Ok(PubrecReason::Success),
            0x10 => Ok(PubrecReason::NoMatchingSubscribers),
            0x80 => Ok(PubrecReason::UnspecifiedError),
            0x83 => Ok(PubrecReason::ImplementationSpecificError),
            0x87 => Ok(PubrecReason::NotAuthorized),
            0x90 => Ok(PubrecReason::TopicNameInvalid),
            0x91 => Ok(PubrecReason::PacketIdentifierInUse),
            0x97 => Ok(PubrecReason::QuotaExceeded),
            0x99 => Ok(PubrecReason::PayloadFormatInvalid),
            _ => Err(ConversionError::InvalidValue(InvalidValue)),
        }
    }
}

impl vstd::std_specs::convert::TryFromSpecImpl<u8> for PubrecReason {
    open spec fn obeys_try_from_spec() -> bool {
        true
    }

    open spec fn try_from_spec(val: u8) -> Result<Self, ConversionError> {
        spec_pubrec_reason_from_byte(val)
    }
}

impl From<PubrecReason> for u8 {
    fn from(val: PubrecReason) -> (r: u8) {
        match val {
            PubrecReason::Success => 0x00,
            PubrecReason::NoMatchingSubscribers => 0x10,
            PubrecReason::UnspecifiedError => 0x80,
            PubrecReason::ImplementationSpecificError => 0x83,
            PubrecReason::NotAuthorized => 0x87,
            PubrecReason::TopicNameInvalid => 0x90,
            PubrecReason::PacketIdentifierInUse => 0x91,
            PubrecReason::QuotaExceeded => 0x97,
            PubrecReason::PayloadFormatInvalid => 0x99,
        }
    }
}

impl vstd::std_specs::convert::FromSpecImpl<PubrecReason> for u8 {
    open spec fn obeys_from_spec() -> bool {
        true
    }

    open spec fn from_spec(val: PubrecReason) -> u8 {
        spec_pubrec_reason_byte(val)
    }
}

/// Reading back the code of a [PubrecReason] gives the same reason.
pub proof fn lemma_pubrec_reason_byte_roundtrip(r: PubrecReason)
    ensures
        spec_pubrec_reason_from_byte(spec_pubrec_reason_byte(r)) == Ok::<PubrecReason, ConversionError>(r),
{
}

/// The reason codes of a PUBREC packet are the MQTT 5 ones: each reason is
/// written as its code, a byte that is a code reads back as the reason with
/// that code, any other byte is an invalid value, and the reasons below
/// 0x80 are exactly the ones that report no failure.
pub proof fn lemma_pubrec_reason_codes()
    ensures
        spec_pubrec_reason_byte(PubrecReason::Success) == 0x00u8,
        spec_pubrec_reason_byte(PubrecReason::NoMatchingSubscribers) == 0x10u8,
        spec_pubrec_reason_byte(PubrecReason::UnspecifiedError) == 0x80u8,
        spec_pubrec_reason_byte(PubrecReason::ImplementationSpecificError) == 0x83u8,
        spec_pubrec_reason_byte(PubrecReason::NotAuthorized) == 0x87u8,
        spec_pubrec_reason_byte(PubrecReason::TopicNameInvalid) == 0x90u8,
        spec_pubrec_reason_byte(PubrecReason::PacketIdentifierInUse) == 0x91u8,
        spec_pubrec_reason_byte(PubrecReason::QuotaExceeded) == 0x97u8,
        spec_pubrec_reason_byte(PubrecReason::PayloadFormatInvalid) == 0x99u8,
        forall|b: u8|
            (#[trigger] spec_pubrec_reason_from_byte(b)) is Ok <==> (b == 0x00 || b == 0x10 || b == 0x80 || b == 0x83 || b == 0x87 || b == 0x90 ||
                b == 0x91 || b == 0x97 || b == 0x99),
        forall|b: u8| (#[trigger] spec_pubrec_reason_from_byte(b)) matches Ok(r) ==> spec_pubrec_reason_byte(r) == b,
        forall|b: u8|
            (#[trigger] spec_pubrec_reason_from_byte(b)) is Err ==> spec_pubrec_reason_from_byte(b) == Err::<
                PubrecReason,
                ConversionError,
            >(ConversionError::InvalidValue(InvalidValue)),
        forall|r: PubrecReason|
            (#[trigger] spec_pubrec_reason_byte(r)) < 0x80 <==> (r == PubrecReason::Success || r == PubrecReason::NoMatchingSubscribers),
        forall|b: u8| #[trigger] <PubrecReason as AckReason>::spec_from_byte(b) == spec_pubrec_reason_from_byte(b),
        forall|r: PubrecReason| #[trigger] r.spec_byte() == spec_pubrec_reason_byte(r),
{
}

impl Default for PubrecReason {
    fn default() -> (r: Self)
        ensures
            r == PubrecReason::Success,
    {
        PubrecReason::Success
    }
}

impl AckReason for PubrecReason {
    open spec fn spec_from_byte(b: u8) -> Result<Self, ConversionError> {
        spec_pubrec_reason_from_byte(b)
    }

    open spec fn spec_byte(self) -> u8 {
        spec_pubrec_reason_byte(self)
    }

    open spec fn spec_default() -> Self {
        PubrecReason::Success
    }

    open spec fn spec_packet_id() -> u8 {
        5
    }

    fn try_from_byte(b: u8) -> (r: Result<Self, ConversionError>) {
        match b {
            0x00 => Ok(PubrecReason::Success),
            0x10 => Ok(PubrecReason::NoMatchingSubscribers),
            0x80 => Ok(PubrecReason::UnspecifiedError),
            0x83 => Ok(PubrecReason::ImplementationSpecificError),
            0x87 => Ok(PubrecReason::NotAuthorized),
            0x90 => Ok(PubrecReason::TopicNameInvalid),
            0x91 => Ok(PubrecReason::PacketIdentifierInUse),
            0x97 => Ok(PubrecReason::QuotaExceeded),
            0x99 => Ok(PubrecReason::PayloadFormatInvalid),
            _ => Err(ConversionError::InvalidValue(InvalidValue)),
        }
    }

    fn to_byte(self) -> (r: u8) {
        match self {
            PubrecReason::Success => 0x00,
            PubrecReason::NoMatchingSubscribers => 0x10,
            PubrecReason::UnspecifiedError => 0x80,
            PubrecReason::ImplementationSpecificError => 0x83,
            PubrecReason::NotAuthorized => 0x87,
            PubrecReason::TopicNameInvalid => 0x90,
            PubrecReason::PacketIdentifierInUse => 0x91,
            PubrecReason::QuotaExceeded => 0x97,
            PubrecReason::PayloadFormatInvalid => 0x99,
        }
    }

    fn default_reason() -> (r: Self) {
        PubrecReason::Success
    }

    fn is_default(self) -> (r: bool) {
        match self {
            PubrecReason::Success => true,
            _ => false,
        }
    }

    fn packet_id() -> (r: u8) {
        5
    }

    proof fn lemma_byte_roundtrip(r: Self) {
    }

    proof fn lemma_packet_id_bound() {
    }
}

/// Received PUBREC packet.
pub type PubrecRx = AckRx<PubrecReason>;

/// PUBREC packet to be sent.
pub type PubrecTx<'a> = AckTx<'a, PubrecReason>;


/// A PUBREC packet (first byte 0x50) with only its packet identifier
/// reads as success; with a reason code byte and no properties it reads as
/// the reason with that code.
pub proof fn lemma_pubrec_decoding(hi: u8, lo: u8, rb: u8)
    requires
        hi * 256 + lo != 0,
    ensures
        spec_decode_ack::<PubrecReason>(seq![0x50u8, 2, hi, lo]) == Ok::<AckV<PubrecReason>, CodecError>(
            AckV {
                packet_identifier: (hi * 256 + lo) as u16,
                reason: PubrecReason::Success,
                reason_string: None,
                user_property: Seq::empty(),
            },
        ),
        spec_pubrec_reason_from_byte(rb) is Ok ==> spec_decode_ack::<PubrecReason>(seq![0x50u8, 4, hi, lo, rb, 0])
            == Ok::<AckV<PubrecReason>, CodecError>(
            AckV {
                packet_identifier: (hi * 256 + lo) as u16,
                reason: spec_pubrec_reason_from_byte(rb)->Ok_0,
                reason_string: None,
                user_property: Seq::empty(),
            },
        ),
{
    lemma_ack_decode_short::<PubrecReason>(hi, lo, rb);
    assert(seq![((<PubrecReason as AckReason>::spec_packet_id()) * 16) as u8, 2, hi, lo] =~= seq![0x50u8, 2, hi, lo]);
    assert(seq![((<PubrecReason as AckReason>::spec_packet_id()) * 16) as u8, 4, hi, lo, rb, 0] =~= seq![0x50u8, 4, hi, lo, rb, 0]);
}

} // verus!
