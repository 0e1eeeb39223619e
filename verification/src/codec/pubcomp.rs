//! The PUBCOMP packet: completion of a QoS 2 PUBLISH.
use crate::codec::ack::{lemma_ack_decode_short, spec_decode_ack, AckV, AckReason, AckRx, AckTx};
use crate::types::error::{CodecError, ConversionError, InvalidValue};
use vstd::prelude::*;

verus! {

/// Reason code of a PUBCOMP packet.
#[derive(Copy, Clone, Debug, PartialEq, Eq, Structural)]
pub enum PubcompReason {
    /// Success.
    Success,
    /// Packet identifier not found.
    PacketIdentifierNotFound,
}

/// The reason code of a [PubcompReason] on the wire.
pub open spec fn spec_pubcomp_reason_byte(r: PubcompReason) -> u8 {
    match r {
        PubcompReason::Success => 0x00,
        PubcompReason::PacketIdentifierNotFound => 0x92,
    }
}

/// The [PubcompReason] with the given reason code, if there is one.
pub open spec fn spec_pubcomp_reason_from_byte(val: u8) -> Result<PubcompReason, ConversionError> {
    if val == 0x00 {
        Ok(PubcompReason::Success)
    } else if val == 0x92 {
        Ok(PubcompReason::PacketIdentifierNotFound)
    } else {
        Err(ConversionError::InvalidValue(InvalidValue))
    }
}

impl TryFrom<u8> for PubcompReason {
    type Error = ConversionError;

    fn try_from(val: u8) -> (r: Result<Self, Self::Error>) {
        match val {
            0x00 => Ok(PubcompReason::Success),
            0x92 => Ok(PubcompReason::PacketIdentifierNotFound),
            _ => Err(ConversionError::InvalidValue(InvalidValue)),
        }
    }
}

impl vstd::std_specs::convert::TryFromSpecImpl<u8> for PubcompReason {
    open spec fn obeys_try_from_spec() -> bool {
        true
    }

    open spec fn try_from_spec(val: u8) -> Result<Self, ConversionError> {
        spec_pubcomp_reason_from_byte(val)
    }
}

impl From<PubcompReason> for u8 {
    fn from(val: PubcompReason) -> (r: u8) {
        match val {
            PubcompReason::Success => 0x00,
            PubcompReason::PacketIdentifierNotFound => 0x92,
        }
    }
}

impl vstd::std_specs::convert::FromSpecImpl<PubcompReason> for u8 {
    open spec fn obeys_from_spec() -> bool {
        true
    }

    open spec fn from_spec(val: PubcompReason) -> u8 {
        spec_pubcomp_reason_byte(val)
    }
}

/// Reading back the code of a [PubcompReason] gives the same reason.
pub proof fn lemma_pubcomp_reason_byte_roundtrip(r: PubcompReason)
    ensures
        spec_pubcomp_reason_from_byte(spec_pubcomp_reason_byte(r)) == Ok::<PubcompReason, ConversionError>(r),
{
}

/// The reason codes of a PUBCOMP packet are the MQTT 5 ones: each reason is
/// written as its code, a byte that is a code reads back as the reason with
/// that code, any other byte is an invalid value, and the reasons below
/// 0x80 are exactly the ones that report no failure.
pub proof fn lemma_pubcomp_reason_codes()
    ensures
        spec_pubcomp_reason_byte(PubcompReason::Success) == 0x00u8,
        spec_pubcomp_reason_byte(PubcompReason::PacketIdentifierNotFound) == 0x92u8,
        forall|b: u8|
            (#[trigger] spec_pubcomp_reason_from_byte(b)) is Ok <==> (b == 0x00 || b == 0x92),
        forall|b: u8| (#[trigger] spec_pubcomp_reason_from_byte(b)) matches Ok(r) ==> spec_pubcomp_reason_byte(r) == b,
        forall|b: u8|
            (#[trigger] spec_pubcomp_reason_from_byte(b)) is Err ==> spec_pubcomp_reason_from_byte(b) == Err::<
                PubcompReason,
                ConversionError,
            >(ConversionError::InvalidValue(InvalidValue)),
        forall|r: PubcompReason|
            (#[trigger] spec_pubcomp_reason_byte(r)) < 0x80 <==> (r == PubcompReason::Success),
        forall|b: u8| #[trigger] <PubcompReason as AckReason>::spec_from_byte(b) == spec_pubcomp_reason_from_byte(b),
        forall|r: PubcompReason| #[trigger] r.spec_byte() == spec_pubcomp_reason_byte(r),
{
}

impl Default for PubcompReason {
    fn default() -> (r: Self)
        ensures
            r == PubcompReason::Success,
    {
        PubcompReason::Success
    }
}

impl AckReason for PubcompReason {
    open spec fn spec_from_byte(b: u8) -> Result<Self, ConversionError> {
        spec_pubcomp_reason_from_byte(b)
    }

    open spec fn spec_byte(self) -> u8 {
        spec_pubcomp_reason_byte(self)
    }

    open spec fn spec_default() -> Self {
        PubcompReason::Success
    }

    open spec fn spec_packet_id() -> u8 {
        7
    }

    fn try_from_byte(b: u8) -> (r: Result<Self, ConversionError>) {
        match b {
            0x00 => Ok(PubcompReason::Success),
            0x92 => Ok(PubcompReason::PacketIdentifierNotFound),
            _ => Err(ConversionError::InvalidValue(InvalidValue)),
        }
    }

    fn to_byte(self) -> (r: u8) {
        match self {
            PubcompReason::Success => 0x00,
            PubcompReason::PacketIdentifierNotFound => 0x92,
        }
    }

    fn default_reason() -> (r: Self) {
        PubcompReason::Success
    }

    fn is_default(self) -> (r: bool) {
        match self {
            PubcompReason::Success => true,
            _ => false,
        }
    }

    fn packet_id() -> (r: u8) {
        7
    }

    proof fn lemma_byte_roundtrip(r: Self) {
    }

    proof fn lemma_packet_id_bound() {
    }
}

/// Received PUBCOMP packet.
pub type PubcompRx = AckRx<PubcompReason>;

/// PUBCOMP packet to be sent.
pub type PubcompTx<'a> = AckTx<'a, PubcompReason>;


/// A PUBCOMP packet (first byte 0x70) with only its packet identifier
/// reads as success; with a reason code byte and no properties it reads as
/// the reason with that code.
pub proof fn lemma_pubcomp_decoding(hi: u8, lo: u8, rb: u8)
    requires
        hi * 256 + lo != 0,
    ensures
        spec_decode_ack::<PubcompReason>(seq![0x70u8, 2, hi, lo]) == Ok::<AckV<PubcompReason>, CodecError>(
            AckV {
                packet_identifier: (hi * 256 + lo) as u16,
                reason: PubcompReason::Success,
                reason_string: None,
                user_property: Seq::empty(),
            },
        ),
        spec_pubcomp_reason_from_byte(rb) is Ok ==> spec_decode_ack::<PubcompReason>(seq![0x70u8, 4, hi, lo, rb, 0])
            == Ok::<AckV<PubcompReason>, CodecError>(
            AckV {
                packet_identifier: (hi * 256 + lo) as u16,
                reason: spec_pubcomp_reason_from_byte(rb)->Ok_0,
                reason_string: None,
                user_property: Seq::empty(),
            },
        ),
{
    lemma_ack_decode_short::<PubcompReason>(hi, lo, rb);
    assert(seq![((<PubcompReason as AckReason>::spec_packet_id()) * 16) as u8, 2, hi, lo] =~= seq![0x70u8, 2, hi, lo]);
    assert(seq![((<PubcompReason as AckReason>::spec_packet_id()) * 16) as u8, 4, hi, lo, rb, 0] =~= seq![0x70u8, 4, hi, lo, rb, 0]);
}

} // verus!
