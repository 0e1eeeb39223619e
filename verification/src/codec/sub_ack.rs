//! Acknowledgements of subscription requests that share one layout:
//! SUBACK and UNSUBACK. Each has a packet identifier, optional reason
//! string and user properties, and one reason code per topic filter.
use crate::buffer::bytes_view;
use crate::codec::ack::opt_str_view;
use crate::types::base_types::{NonZero, UTF8String};
use crate::types::collections::UserProperties;
use crate::types::decoder::{spec_parse_non_zero_u16, spec_parse_var_size_int, Decoder};
use crate::types::error::{
    codec_error_of, CodecError, ConversionError, InsufficientBufferSize, InvalidPacketHeader,
    InvalidPacketSize, InvalidPropertyLength, UnexpectedProperty,
};
use crate::buffer::bytes_slice;
use crate::types::properties::{
    spec_fold_properties, PropVal, Property, PropertyV, REASON_STRING, USER_PROPERTY,
};
use bytes::Bytes;
use vstd::prelude::*;

verus! {

/// Reason codes of a subscription acknowledgement, and the packet type they
/// belong to.
pub trait SubAckReason: Sized + Copy {
    /// The reason with the given code, if there is one.
    spec fn spec_from_byte(b: u8) -> Result<Self, ConversionError>;

    /// The MQTT packet type.
    spec fn spec_packet_id() -> u8;

    /// The reason with the given code, if there is one.
    fn try_from_byte(b: u8) -> (r: Result<Self, ConversionError>)
        ensures
            r == Self::spec_from_byte(b),
    ;

    /// The MQTT packet type.
    fn packet_id() -> (r: u8)
        ensures
            r == Self::spec_packet_id(),
            r < 16,
    ;
}

/// The reason codes read one byte each from `s`; the first byte that is no
/// reason code ends with its error.
pub open spec fn spec_decode_reasons<R: SubAckReason>(s: Seq<u8>) -> Result<Seq<R>, ConversionError>
    decreases s.len(),
{
    if s.len() == 0 {
        Ok(Seq::empty())
    } else {
        match spec_decode_reasons::<R>(s.drop_last()) {
            Err(e) => Err(e),
            Ok(rs) => match R::spec_from_byte(s.last()) {
                Err(e) => Err(e),
                Ok(r) => Ok(rs.push(r)),
            },
        }
    }
}

/// An error in a prefix is the error of the whole.
proof fn lemma_reasons_error_extends<R: SubAckReason>(s: Seq<u8>, j: int)
    requires
        0 <= j <= s.len(),
        spec_decode_reasons::<R>(s.take(j)) is Err,
    ensures
        spec_decode_reasons::<R>(s) == spec_decode_reasons::<R>(s.take(j)),
    decreases s.len() - j,
{
    if j < s.len() {
        assert(s.take(j + 1).drop_last() =~= s.take(j));
        lemma_reasons_error_extends::<R>(s, j + 1);
    } else {
        assert(s.take(j) =~= s);
    }
}

/// Received subscription acknowledgement as plain data.
pub struct SubAckV<R> {
    /// Packet identifier.
    pub packet_identifier: u16,
    /// Reason string.
    pub reason_string: Option<Seq<u8>>,
    /// User properties, in order.
    pub user_property: Seq<(Seq<u8>, Seq<u8>)>,
    /// One reason code per topic filter of the request, in order.
    pub payload: Seq<R>,
}

/// Received subscription acknowledgement.
#[derive(Debug)]
pub struct SubAckRx<R> {
    /// Packet identifier.
    pub packet_identifier: NonZero<u16>,
    /// Reason string.
    pub reason_string: Option<UTF8String>,
    /// User properties, in order.
    pub user_property: UserProperties,
    /// One reason code per topic filter of the request, in order.
    pub payload: Vec<R>,
}

impl<R> View for SubAckRx<R> {
    type V = SubAckV<R>;

    open spec fn view(&self) -> SubAckV<R> {
        SubAckV {
            packet_identifier: self.packet_identifier.spec_get(),
            reason_string: opt_str_view(self.reason_string),
            user_property: self.user_property@,
            payload: self.payload@,
        }
    }
}

/// A subscription acknowledgement before its properties and payload are read.
pub open spec fn spec_sub_ack_empty<R>(packet_identifier: u16) -> SubAckV<R> {
    SubAckV { packet_identifier, reason_string: None, user_property: Seq::empty(), payload: Seq::empty() }
}

/// The effect of a property: only a reason string and user properties are
/// accepted.
pub open spec fn sub_ack_apply<R>(acc: SubAckV<R>, p: PropertyV) -> Option<SubAckV<R>> {
    match p.val {
        PropVal::Data(d) => if p.id == REASON_STRING {
            Some(SubAckV { reason_string: Some(d), ..acc })
        } else {
            None
        },
        PropVal::Pair(k, v) => if p.id == USER_PROPERTY {
            Some(SubAckV { user_property: acc.user_property.push((k, v)), ..acc })
        } else {
            None
        },
        _ => None,
    }
}

/// [sub_ack_apply] as a function value.
pub open spec fn sub_ack_apply_fn<R>() -> spec_fn(SubAckV<R>, PropertyV) -> Option<SubAckV<R>> {
    |a: SubAckV<R>, p: PropertyV| sub_ack_apply(a, p)
}

/// Reading a subscription acknowledgement from `s`: fixed header of the
/// packet type, remaining length (at most the bytes that follow), packet
/// identifier, property length (at most the bytes that follow), the
/// properties that fill it, then one reason code per remaining byte.
pub open spec fn spec_decode_sub_ack<R: SubAckReason>(s: Seq<u8>) -> Result<SubAckV<R>, CodecError> {
    if s.len() == 0 {
        Err(codec_error_of(ConversionError::InsufficientBufferSize(InsufficientBufferSize)))
    } else if s[0] != R::spec_packet_id() * 16 {
        Err(CodecError::InvalidPacketHeader(InvalidPacketHeader))
    } else {
        let s1 = s.skip(1);
        match spec_parse_var_size_int(s1) {
            Err(e) => Err(codec_error_of(e)),
            Ok((rl, n1)) => {
                let s2 = s1.skip(n1 as int);
                if rl.spec_value() > s2.len() {
                    Err(CodecError::InvalidPacketSize(InvalidPacketSize))
                } else {
                    match spec_parse_non_zero_u16(s2) {
                        Err(e) => Err(codec_error_of(e)),
                        Ok((pid, n2)) => {
                            let s3 = s2.skip(n2 as int);
                            match spec_parse_var_size_int(s3) {
                                Err(e) => Err(codec_error_of(e)),
                                Ok((pl, n3)) => {
                                    let s4 = s3.skip(n3 as int);
                                    let n = pl.spec_value() as int;
                                    if n > s4.len() {
                                        Err(CodecError::InvalidPropertyLength(InvalidPropertyLength))
                                    } else {
                                        match spec_fold_properties(s4.take(n), spec_sub_ack_empty::<R>(pid), sub_ack_apply_fn()) {
                                            Err(e) => Err(e),
                                            Ok(v) => match spec_decode_reasons::<R>(s4.skip(n)) {
                                                Err(e) => Err(codec_error_of(e)),
                                                Ok(rs) => Ok(SubAckV { payload: rs, ..v }),
                                            },
                                        }
                                    }
                                },
                            }
                        },
                    }
                }
            },
        }
    }
}

impl<R: SubAckReason> SubAckRx<R> {
    /// Decodes a subscription acknowledgement of this type from a received buffer.
    #[verifier::rlimit(40)]
    pub fn try_decode(buf: Bytes) -> (r: Result<Self, CodecError>)
        ensures
            match spec_decode_sub_ack::<R>(bytes_view(buf)) {
                Ok(v) => r matches Ok(p) && p@ == v,
                Err(e) => r == Err::<Self, CodecError>(e),
            },
    {
        let ghost s = bytes_view(buf);
        let mut decoder = Decoder::from_bytes(buf);
        let fixed_hdr = match decoder.try_decode_u8() {
            Ok(v) => v,
            Err(e) => return Err(e.into_codec_error()),
        };
        if fixed_hdr != R::packet_id() * 16 {
            return Err(CodecError::InvalidPacketHeader(InvalidPacketHeader));
        }
        assert(decoder.rest() =~= s.skip(1));
        let remaining_len = match decoder.try_decode_var_size_int() {
            Ok(v) => v,
            Err(e) => return Err(e.into_codec_error()),
        };
        if remaining_len.value() as usize > decoder.remaining() {
            return Err(CodecError::InvalidPacketSize(InvalidPacketSize));
        }
        let packet_identifier = match decoder.try_decode_non_zero_u16() {
            Ok(v) => v,
            Err(e) => return Err(e.into_codec_error()),
        };
        let property_len = match decoder.try_decode_var_size_int() {
            Ok(v) => v,
            Err(e) => return Err(e.into_codec_error()),
        };
        let pl = property_len.value() as usize;
        if pl > decoder.remaining() {
            return Err(CodecError::InvalidPropertyLength(InvalidPropertyLength));
        }
        let rest = decoder.get_buf();
        let mut props = Decoder::from_bytes(bytes_slice(&rest, 0, pl));
        let init = SubAckRx {
            packet_identifier,
            reason_string: None,
            user_property: UserProperties::new(),
            payload: Vec::new(),
        };
        assert(init@.user_property =~= Seq::<(Seq<u8>, Seq<u8>)>::empty());
        assert(init@.payload =~= Seq::<R>::empty());
        let packet = match Self::decode_properties(&mut props, init) {
            Ok(p) => p,
            Err(e) => return Err(e),
        };
        decoder.advance_by(pl);
        let payload = match Self::decode_reasons(&mut decoder) {
            Ok(p) => p,
            Err(e) => return Err(e.into_codec_error()),
        };
        let mut packet = packet;
        packet.payload = payload;
        Ok(packet)
    }

    /// Reads one reason code per remaining byte.
    fn decode_reasons(decoder: &mut Decoder) -> (r: Result<Vec<R>, ConversionError>)
        requires
            old(decoder).wf(),
        ensures
            match spec_decode_reasons::<R>(old(decoder).rest()) {
                Ok(rs) => r matches Ok(v) && v@ == rs,
                Err(e) => r == Err::<Vec<R>, ConversionError>(e),
            },
    {
        let ghost s = decoder.rest();
        assert(s.skip(0) =~= s);
        assert(s.take(0) =~= Seq::<u8>::empty());
        let mut out: Vec<R> = Vec::new();
        let mut i: usize = 0;
        while decoder.remaining() != 0
            invariant
                decoder.wf(),
                s == old(decoder).rest(),
                s.len() <= usize::MAX,
                i <= s.len(),
                decoder.rest() == s.skip(i as int),
                spec_decode_reasons::<R>(s.take(i as int)) == Ok::<Seq<R>, ConversionError>(out@),
            decreases decoder.rest().len(),
        {
            let b = match decoder.try_decode_u8() {
                Ok(b) => b,
                Err(e) => return Err(e),
            };
            assert(s.take(i + 1).drop_last() =~= s.take(i as int));
            assert(s.take(i + 1).last() == b);
            match R::try_from_byte(b) {
                Ok(r) => out.push(r),
                Err(e) => {
                    proof {
                        lemma_reasons_error_extends::<R>(s, i + 1);
                    }
                    return Err(e);
                },
            }
            i = i + 1;
            assert(decoder.rest() =~= s.skip(i as int));
        }
        assert(s.take(i as int) =~= s);
        Ok(out)
    }

    /// Applies a property read from the packet; false where the packet
    /// does not accept it.
    fn apply_property(&mut self, property: Property) -> (ok: bool)
        ensures
            ok == sub_ack_apply(old(self)@, property@) is Some,
            ok ==> final(self)@ == sub_ack_apply(old(self)@, property@).unwrap(),
            final(self).payload@ == old(self).payload@,
    {
        match property {
            Property::ReasonString(val) => {
                self.reason_string = Some(val);
            },
            Property::UserProperty(val) => {
                self.user_property.push(val);
            },
            _ => {
                return false;
            },
        }
        true
    }

    /// Reads the properties that fill `decoder` into `init`.
    #[verifier::rlimit(30)]
    fn decode_properties(decoder: &mut Decoder, init: Self) -> (r: Result<Self, CodecError>)
        requires
            old(decoder).wf(),
        ensures
            match spec_fold_properties(old(decoder).rest(), init@, sub_ack_apply_fn()) {
                Ok(v) => r matches Ok(p) && p@ == v,
                Err(e) => r == Err::<Self, CodecError>(e),
            },
    {
        let ghost target = spec_fold_properties(decoder.rest(), init@, sub_ack_apply_fn());
        let mut packet = init;
        while decoder.remaining() != 0
            invariant
                decoder.wf(),
                target == spec_fold_properties(old(decoder).rest(), init@, sub_ack_apply_fn()),
                spec_fold_properties(decoder.rest(), packet@, sub_ack_apply_fn()) == target,
            decreases decoder.rest().len(),
        {
            assert(decoder.rest().len() > 0);
            let property = match decoder.try_decode_property() {
                Ok(p) => p,
                Err(e) => return Err(e.into_codec_error()),
            };
            if !packet.apply_property(property) {
                return Err(CodecError::UnexpectedProperty(UnexpectedProperty));
            }
        }
        Ok(packet)
    }
}


/// A subscription acknowledgement with no properties and one reason code
/// byte reads as its packet identifier and the reason with that code.
pub proof fn lemma_sub_ack_decode_one_reason<R: SubAckReason>(hi: u8, lo: u8, rb: u8)
    requires
        hi * 256 + lo != 0,
        R::spec_packet_id() < 16,
        R::spec_from_byte(rb) is Ok,
    ensures
        spec_decode_sub_ack::<R>(seq![(R::spec_packet_id() * 16) as u8, 4, hi, lo, 0, rb]) == Ok::<
            SubAckV<R>,
            CodecError,
        >(
            SubAckV {
                packet_identifier: (hi * 256 + lo) as u16,
                reason_string: None,
                user_property: Seq::empty(),
                payload: seq![R::spec_from_byte(rb)->Ok_0],
            },
        ),
{
    let h = (R::spec_packet_id() * 16) as u8;
    let t = seq![h, 4, hi, lo, 0, rb];
    let t2 = t.skip(1).skip(1);
    assert(t2 =~= seq![hi, lo, 0, rb]);
    assert(t2.skip(2) =~= seq![0u8, rb]);
    let t4 = t2.skip(2).skip(1);
    assert(t4 =~= seq![rb]);
    assert(t4.take(0) =~= Seq::<u8>::empty());
    assert(t4.skip(0) =~= seq![rb]);
    let one = seq![rb];
    assert(one.drop_last() =~= Seq::<u8>::empty());
    assert(Seq::<R>::empty().push(R::spec_from_byte(rb)->Ok_0) =~= seq![R::spec_from_byte(rb)->Ok_0]);
    assert(spec_decode_reasons::<R>(Seq::<u8>::empty()) == Ok::<Seq<R>, ConversionError>(Seq::empty()));
    assert(spec_decode_reasons::<R>(one) == Ok::<Seq<R>, ConversionError>(seq![R::spec_from_byte(rb)->Ok_0]));
    assert(spec_fold_properties(Seq::<u8>::empty(), spec_sub_ack_empty::<R>((hi * 256 + lo) as u16), sub_ack_apply_fn())
        == Ok::<SubAckV<R>, CodecError>(spec_sub_ack_empty::<R>((hi * 256 + lo) as u16)));
}

} // verus!
