//! The PUBREL packet: release of a QoS 2 PUBLISH.
use crate::codec::ack::{AckReason, AckRx, AckTx};
use crate::types::error::{ConversionError, InvalidValue};
use vstd::prelude::*;

verus! {

/// Reason code of a PUBREL packet.
#[derive(Copy, Clone, Debug, PartialEq, Eq, Structural)]
pub enum PubrelReason {
    /// Success.
    Success,
    /// Packet identifier not found.
    PacketIdentifierNotFound,
}

/// The reason code of a [PubrelReason] on the wire.
pub open spec fn spec_pubrel_reason_byte(r: PubrelReason) -> u8 {
    match r {
        PubrelReason::Success => 0x00,
        PubrelReason::PacketIdentifierNotFound => 0x92,
    }
}

/// The [PubrelReason] with the given reason code, if there is one.
pub open spec fn spec_pubrel_reason_from_byte(val: u8) -> Result<PubrelReason, ConversionError> {
    if val == 0x00 {
        Ok(PubrelReason::Success)
    } else if val == 0x92 {
        Ok(PubrelReason::PacketIdentifierNotFound)
    } else {
        Err(ConversionError::InvalidValue(InvalidValue))
    }
}

impl TryFrom<u8> for PubrelReason {
    type Error = ConversionError;

    fn try_from(val: u8) -> (r: Result<Self, Self::Error>) {
        match val {
            0x00 => Ok(PubrelReason::Success),
            0x92 => Ok(PubrelReason::PacketIdentifierNotFound),
            _ => Err(ConversionError::InvalidValue(InvalidValue)),
        }
    }
}

impl vstd::std_specs::convert::TryFromSpecImpl<u8> for PubrelReason {
    open spec fn obeys_try_from_spec() -> bool {
        true
    }

    open spec fn try_from_spec(val: u8) -> Result<Self, ConversionError> {
        spec_pubrel_reason_from_byte(val)
    }
}

impl From<PubrelReason> for u8 {
    fn from(val: PubrelReason) -> (r: u8) {
        match val {
            PubrelReason::Success => 0x00,
            PubrelReason::PacketIdentifierNotFound => 0x92,
        }
    }
}

impl vstd::std_specs::convert::FromSpecImpl<PubrelReason> for u8 {
    open spec fn obeys_from_spec() -> bool {
        true
    }

    open spec fn from_spec(val: PubrelReason) -> u8 {
        spec_pubrel_reason_byte(val)
    }
}

/// Reading back the code of a [PubrelReason] gives the same reason.
pub proof fn lemma_pubrel_reason_byte_roundtrip(r: PubrelReason)
    ensures
        spec_pubrel_reason_from_byte(spec_pubrel_reason_byte(r)) == Ok::<PubrelReason, ConversionError>(r),
{
}

/// The reason codes of a PUBREL packet are the MQTT 5 ones: each reason is
/// written as its code, a byte that is a code reads back as the reason with
/// that code, any other byte is an invalid value, and the reasons below
/// 0x80 are exactly the ones that report no failure.
pub proof fn lemma_pubrel_reason_codes()
    ensures
        spec_pubrel_reason_byte(PubrelReason::Success) == 0x00u8,
        spec_pubrel_reason_byte(PubrelReason::PacketIdentifierNotFound) == 0x92u8,
        forall|b: u8|
            (#[trigger] spec_pubrel_reason_from_byte(b)) is Ok <==> (b == 0x00 || b == 0x92),
        forall|b: u8| (#[trigger] spec_pubrel_reason_from_byte(b)) matches Ok(r) ==> spec_pubrel_reason_byte(r) == b,
        forall|b: u8|
            (#[trigger] spec_pubrel_reason_from_byte(b)) is Err ==> spec_pubrel_reason_from_byte(b) == Err::<
                PubrelReason,
                ConversionError,
            >(ConversionError::InvalidValue(InvalidValue)),
        forall|r: PubrelReason|
            (#[trigger] spec_pubrel_reason_byte(r)) < 0x80 <==> (r == PubrelReason::Success),
        forall|b: u8| #[trigger] <PubrelReason as AckReason>::spec_from_byte(b) == spec_pubrel_reason_from_byte(b),
        forall|r: PubrelReason| #[trigger] r.spec_byte() == spec_pubrel_reason_byte(r),
{
}

impl Default for PubrelReason {
    fn default() -> (r: Self)
        ensures
            r == PubrelReason::Success,
    {
        PubrelReason::Success
    }
}

impl AckReason for PubrelReason {
    open spec fn spec_from_byte(b: u8) -> Result<Self, ConversionError> {
        spec_pubrel_reason_from_byte(b)
    }

    open spec fn spec_byte(self) -> u8 {
        spec_pubrel_reason_byte(self)
    }

    open spec fn spec_default() -> Self {
        PubrelReason::Success
    }

    open spec fn spec_packet_id() -> u8 {
        6
    }

    fn try_from_byte(b: u8) -> (r: Result<Self, ConversionError>) {
        match b {
            0x00 => Ok(PubrelReason::Success),
            0x92 => Ok(PubrelReason::PacketIdentifierNotFound),
            _ => Err(ConversionError::InvalidValue(InvalidValue)),
        }
    }

    fn to_byte(self) -> (r: u8) {
        match self {
            PubrelReason::Success => 0x00,
            PubrelReason::PacketIdentifierNotFound => 0x92,
        }
    }

    fn default_reason() -> (r: Self) {
        PubrelReason::Success
    }

    fn is_default(self) -> (r: bool) {
        match self {
            PubrelReason::Success => true,
            _ => false,
        }
    }

    fn packet_id() -> (r: u8) {
        6
    }

    proof fn lemma_byte_roundtrip(r: Self) {
    }

    proof fn lemma_packet_id_bound() {
    }
}

/// Received PUBREL packet.
pub type PubrelRx = AckRx<PubrelReason>;

/// PUBREL packet to be sent.
pub type PubrelTx<'a> = AckTx<'a, PubrelReason>;

} // verus!
