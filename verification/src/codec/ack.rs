//! Acknowledgement packets that share one layout: PUBACK, PUBREC, PUBREL
//! and PUBCOMP. Each has a packet identifier, a reason code and optional
//! reason string and user properties.
use crate::buffer::{bytes_mut_view, bytes_view, put_u8};
use crate::types::base_types::{
    spec_var_size_int_from, spec_u16_be, var_size_int_from_usize, NonZero, UTF8String, UTF8StringPair, UTF8StringPairRef,
    UTF8StringRef, VarSizeInt,
};
use crate::types::decoder::{lemma_parse_u16_roundtrip, spec_parse_non_zero_u16, spec_parse_var_size_int, Decoder};
use crate::types::error::{
    codec_error_of, CodecError, ConversionError, InsufficientBufferSize, InvalidPacketHeader,
    InvalidPacketSize, InvalidPropertyLength, MandatoryPropertyMissing, UnexpectedProperty,
};
use crate::types::properties::{
    lemma_apply_all_concat, lemma_apply_all_single, lemma_fold_properties_roundtrip,
    lemma_opt_str_prop_encoding, lemma_parse_var_int_roundtrip, lemma_props_encoding_concat,
    lemma_user_props_encoding, spec_apply_all, spec_opt_str_fits, spec_opt_str_prop_vs,
    spec_pair_bytes, spec_pairs_fit, spec_props_encoding, spec_property_valid, spec_user_prop_v, spec_user_prop_vs,
    encode_opt_str_property, encode_user_properties, encode_var_int, lemma_user_props_prefix,
    lemma_var_int_encoding_len, spec_builder_pairs, spec_fold_properties, spec_opt_str_prop, spec_parse_property,
    spec_user_props, spec_var_int_encoding, spec_var_int_len, user_properties_len, PropVal,
    Property, PropertyV, REASON_STRING, USER_PROPERTY,
};
use crate::types::size::{capped_add, capped_opt_str_prop, capped_user_props, remaining_fits};
use bytes::{Bytes, BytesMut};
use crate::types::collections::UserProperties;
use vstd::prelude::*;
use vstd::string::StringSliceAdditionalSpecFns;

verus! {

/// Reason codes of an acknowledgement packet, and the packet type they belong to.
pub trait AckReason: Sized + Copy {
    /// The reason with the given code, if there is one.
    spec fn spec_from_byte(b: u8) -> Result<Self, ConversionError>;

    /// The code of a reason.
    spec fn spec_byte(self) -> u8;

    /// The reason that a shortened packet stands for.
    spec fn spec_default() -> Self;

    /// The MQTT packet type.
    spec fn spec_packet_id() -> u8;

    /// The reason with the given code, if there is one.
    fn try_from_byte(b: u8) -> (r: Result<Self, ConversionError>)
        ensures
            r == Self::spec_from_byte(b),
    ;

    /// The code of a reason.
    fn to_byte(self) -> (r: u8)
        ensures
            r == self.spec_byte(),
    ;

    /// The reason that a shortened packet stands for.
    fn default_reason() -> (r: Self)
        ensures
            r == Self::spec_default(),
    ;

    /// Whether this is the reason that a shortened packet stands for.
    fn is_default(self) -> (r: bool)
        ensures
            r == (self == Self::spec_default()),
    ;

    /// The MQTT packet type.
    fn packet_id() -> (r: u8)
        ensures
            r == Self::spec_packet_id(),
            r < 16,
    ;

    /// Reading back the code of a reason gives the same reason.
    proof fn lemma_byte_roundtrip(r: Self)
        ensures
            Self::spec_from_byte(r.spec_byte()) == Ok::<Self, ConversionError>(r),
    ;

    /// The packet type fits the four high bits of the header byte.
    proof fn lemma_packet_id_bound()
        ensures
            Self::spec_packet_id() < 16,
    ;
}

/// Received acknowledgement as plain data.
pub struct AckV<R> {
    /// Packet identifier.
    pub packet_identifier: u16,
    /// Reason code.
    pub reason: R,
    /// Reason string.
    pub reason_string: Option<Seq<u8>>,
    /// User properties, in order.
    pub user_property: Seq<(Seq<u8>, Seq<u8>)>,
}

/// The bytes of an optional text.
pub open spec fn opt_str_view(o: Option<UTF8String>) -> Option<Seq<u8>> {
    match o {
        Some(s) => Some(s@),
        None => None,
    }
}

/// Received acknowledgement packet.
#[derive(Debug)]
pub struct AckRx<R> {
    /// Packet identifier.
    pub packet_identifier: NonZero<u16>,
    /// Reason code.
    pub reason: R,
    /// Reason string.
    pub reason_string: Option<UTF8String>,
    /// User properties, in order.
    pub user_property: UserProperties,
}

impl<R> View for AckRx<R> {
    type V = AckV<R>;

    open spec fn view(&self) -> AckV<R> {
        AckV {
            packet_identifier: self.packet_identifier.spec_get(),
            reason: self.reason,
            reason_string: opt_str_view(self.reason_string),
            user_property: self.user_property@,
        }
    }
}

/// The effect of a property on a received acknowledgement: only a reason
/// string and user properties are accepted.
pub open spec fn ack_apply<R>(acc: AckV<R>, p: PropertyV) -> Option<AckV<R>> {
    if p.id == REASON_STRING {
        match p.val {
            PropVal::Data(d) => Some(
                AckV {
                    packet_identifier: acc.packet_identifier,
                    reason: acc.reason,
                    reason_string: Some(d),
                    user_property: acc.user_property,
                },
            ),
            _ => None,
        }
    } else if p.id == USER_PROPERTY {
        match p.val {
            PropVal::Pair(k, v) => Some(
                AckV {
                    packet_identifier: acc.packet_identifier,
                    reason: acc.reason,
                    reason_string: acc.reason_string,
                    user_property: acc.user_property.push((k, v)),
                },
            ),
            _ => None,
        }
    } else {
        None
    }
}

/// [ack_apply] as a function value.
pub open spec fn ack_apply_fn<R>() -> spec_fn(AckV<R>, PropertyV) -> Option<AckV<R>> {
    |a: AckV<R>, p: PropertyV| ack_apply(a, p)
}

/// Reading an acknowledgement packet from `s`: fixed header of the packet
/// type, remaining length (at most the bytes that follow), packet
/// identifier; a remaining length of 2 ends the packet with the default
/// reason. Otherwise the reason code, the property length (at most the
/// bytes that follow) and the properties up to the end of `s`.
pub open spec fn spec_decode_ack<R: AckReason>(s: Seq<u8>) -> Result<AckV<R>, CodecError> {
    if s.len() == 0 {
        Err(codec_error_of(ConversionError::InsufficientBufferSize(InsufficientBufferSize)))
    } else if s[0] != R::spec_packet_id() * 16 {
        Err(CodecError::InvalidPacketHeader(InvalidPacketHeader))
    } else {
        let s1 = s.skip(1);
        match spec_parse_var_size_int(s1) {
            Err(e) => Err(codec_error_of(e)),
            Ok((rl, n1)) => {
                let s2 = s1.skip(n1 as int);
                if rl.spec_value() > s2.len() {
                    Err(CodecError::InvalidPacketSize(InvalidPacketSize))
                } else {
                    match spec_parse_non_zero_u16(s2) {
                        Err(e) => Err(codec_error_of(e)),
                        Ok((pid, n2)) => {
                            let s3 = s2.skip(n2 as int);
                            if rl.spec_value() == 2 {
                                Ok(
                                    AckV {
                                        packet_identifier: pid,
                                        reason: R::spec_default(),
                                        reason_string: None,
                                        user_property: Seq::empty(),
                                    },
                                )
                            } else if s3.len() == 0 {
                                Err(codec_error_of(ConversionError::InsufficientBufferSize(InsufficientBufferSize)))
                            } else {
                                match R::spec_from_byte(s3[0]) {
                                    Err(e) => Err(codec_error_of(e)),
                                    Ok(reason) => {
                                        let s4 = s3.skip(1);
                                        match spec_parse_var_size_int(s4) {
                                            Err(e) => Err(codec_error_of(e)),
                                            Ok((pl, n4)) => {
                                                let s5 = s4.skip(n4 as int);
                                                if pl.spec_value() > s5.len() {
                                                    Err(CodecError::InvalidPropertyLength(InvalidPropertyLength))
                                                } else {
                                                    spec_fold_properties(
                                                        s5,
                                                        AckV {
                                                            packet_identifier: pid,
                                                            reason,
                                                            reason_string: None,
                                                            user_property: Seq::empty(),
                                                        },
                                                        ack_apply_fn(),
                                                    )
                                                }
                                            },
                                        }
                                    },
                                }
                            }
                        },
                    }
                }
            },
        }
    }
}

impl<R: AckReason> AckRx<R> {
    /// Decodes an acknowledgement packet of this type from a received buffer.
    #[verifier::rlimit(40)]
    pub fn try_decode(buf: Bytes) -> (r: Result<Self, CodecError>)
        ensures
            match spec_decode_ack::<R>(bytes_view(buf)) {
                Ok(v) => r matches Ok(p) && p@ == v,
                Err(e) => r == Err::<Self, CodecError>(e),
            },
    {
        let ghost s = bytes_view(buf);
        let mut decoder = Decoder::from_bytes(buf);
        let fixed_hdr = match decoder.try_decode_u8() {
            Ok(v) => v,
            Err(e) => return Err(e.into_codec_error()),
        };
        if fixed_hdr != R::packet_id() * 16 {
            return Err(CodecError::InvalidPacketHeader(InvalidPacketHeader));
        }
        assert(decoder.rest() =~= s.skip(1));
        let remaining_len = match decoder.try_decode_var_size_int() {
            Ok(v) => v,
            Err(e) => return Err(e.into_codec_error()),
        };
        if remaining_len.value() as usize > decoder.remaining() {
            return Err(CodecError::InvalidPacketSize(InvalidPacketSize));
        }
        let packet_identifier = match decoder.try_decode_non_zero_u16() {
            Ok(v) => v,
            Err(e) => return Err(e.into_codec_error()),
        };
        if remaining_len.value() == 2 {
            let r = AckRx {
                packet_identifier,
                reason: R::default_reason(),
                reason_string: None,
                user_property: UserProperties::new(),
            };
            assert(r@.user_property =~= Seq::<(Seq<u8>, Seq<u8>)>::empty());
            return Ok(r);
        }
        let code = match decoder.try_decode_u8() {
            Ok(v) => v,
            Err(e) => return Err(e.into_codec_error()),
        };
        let reason = match R::try_from_byte(code) {
            Ok(v) => v,
            Err(e) => return Err(e.into_codec_error()),
        };
        let property_len = match decoder.try_decode_var_size_int() {
            Ok(v) => v,
            Err(e) => return Err(e.into_codec_error()),
        };
        if property_len.value() as usize > decoder.remaining() {
            return Err(CodecError::InvalidPropertyLength(InvalidPropertyLength));
        }
        let packet = AckRx { packet_identifier, reason, reason_string: None, user_property: UserProperties::new() };
        assert(packet@.user_property =~= Seq::<(Seq<u8>, Seq<u8>)>::empty());
        Self::decode_properties(&mut decoder, packet)
    }

    /// Applies a property read from the packet; false where the packet
    /// does not accept it.
    fn apply_property(&mut self, property: Property) -> (ok: bool)
        ensures
            ok == ack_apply(old(self)@, property@) is Some,
            ok ==> final(self)@ == ack_apply(old(self)@, property@).unwrap(),
    {
        let ghost p = property@;
        match property {
            Property::ReasonString(val) => {
                self.reason_string = Some(val);
            },
            Property::UserProperty(val) => {
                self.user_property.push(val);
            },
            _ => {
                return false;
            },
        }
        assert(self@.user_property =~= ack_apply(old(self)@, p).unwrap().user_property);
        true
    }

    /// Reads the properties that fill the rest of the packet into `packet`.
    #[verifier::rlimit(30)]
    fn decode_properties(decoder: &mut Decoder, init: Self) -> (r: Result<Self, CodecError>)
        requires
            old(decoder).wf(),
        ensures
            match spec_fold_properties(old(decoder).rest(), init@, ack_apply_fn()) {
                Ok(v) => r matches Ok(p) && p@ == v,
                Err(e) => r == Err::<Self, CodecError>(e),
            },
    {
        let ghost target = spec_fold_properties(decoder.rest(), init@, ack_apply_fn());
        let mut packet = init;
        while decoder.remaining() != 0
            invariant
                decoder.wf(),
                target == spec_fold_properties(old(decoder).rest(), init@, ack_apply_fn()),
                spec_fold_properties(decoder.rest(), packet@, ack_apply_fn()) == target,
            decreases decoder.rest().len(),
        {
            assert(decoder.rest().len() > 0);
            let property = match decoder.try_decode_property() {
                Ok(p) => p,
                Err(e) => return Err(e.into_codec_error()),
            };
            if !packet.apply_property(property) {
                return Err(CodecError::UnexpectedProperty(UnexpectedProperty));
            }
        }
        Ok(packet)
    }
}

/// Acknowledgement packet to be sent.
#[derive(Debug)]
pub struct AckTx<'a, R> {
    /// Packet identifier.
    pub packet_identifier: NonZero<u16>,
    /// Reason code.
    pub reason: R,
    /// Reason string.
    pub reason_string: Option<UTF8StringRef<'a>>,
    /// User properties, in order.
    pub user_property: Vec<UTF8StringPairRef<'a>>,
}

/// The properties of an acknowledgement: reason string, then user properties.
pub open spec fn spec_ack_props<R>(tx: AckTx<R>) -> Seq<u8> {
    spec_opt_str_prop(REASON_STRING, tx.reason_string) + spec_user_props(tx.user_property@)
}

/// An acknowledgement with the default reason and no properties is sent
/// shortened to its packet identifier.
pub open spec fn spec_ack_shortened<R: AckReason>(tx: AckTx<R>) -> bool {
    tx.reason == R::spec_default() && spec_ack_props(tx).len() == 0
}

/// The remaining length of an acknowledgement.
pub open spec fn spec_ack_remaining_len<R: AckReason>(tx: AckTx<R>) -> nat {
    let pl = spec_ack_props(tx).len();
    if spec_ack_shortened(tx) {
        2
    } else {
        3 + spec_var_int_len(pl) + pl
    }
}

/// The bytes of an acknowledgement: fixed header, remaining length, packet
/// identifier and, unless shortened, reason code, property length and
/// properties.
pub open spec fn spec_ack_encoding<R: AckReason>(tx: AckTx<R>) -> Seq<u8> {
    let props = spec_ack_props(tx);
    seq![(R::spec_packet_id() * 16) as u8] + spec_var_int_encoding(spec_ack_remaining_len(tx))
        + spec_u16_be(tx.packet_identifier.spec_get()) + if spec_ack_shortened(tx) {
        Seq::empty()
    } else {
        seq![tx.reason.spec_byte()] + spec_var_int_encoding(props.len()) + props
    }
}

impl<'a, R: AckReason> AckTx<'a, R> {
    /// Number of bytes of the properties.
    fn property_len(&self) -> (r: VarSizeInt)
        requires
            spec_ack_remaining_len(*self) <= VarSizeInt::MAX,
        ensures
            r.spec_value() == spec_ack_props(*self).len(),
            r.spec_encode() == spec_var_int_encoding(spec_ack_props(*self).len()),
            r.spec_len() == spec_var_int_len(spec_ack_props(*self).len()),
    {
        proof {
            lemma_user_props_prefix(self.user_property@, 0);
        }
        let rs = match self.reason_string {
            Some(s) => 1 + s.byte_len(),
            None => 0,
        };
        let r = var_size_int_from_usize(rs + user_properties_len(&self.user_property));
        proof {
            lemma_var_int_encoding_len(spec_ack_props(*self).len());
        }
        r
    }

    /// The remaining length of the packet.
    fn remaining_len(&self) -> (r: VarSizeInt)
        requires
            spec_ack_remaining_len(*self) <= VarSizeInt::MAX,
        ensures
            r.spec_value() == spec_ack_remaining_len(*self),
            r.spec_encode() == spec_var_int_encoding(spec_ack_remaining_len(*self)),
            r.spec_len() == spec_var_int_len(spec_ack_remaining_len(*self)),
    {
        let byte_len = self.property_len();
        proof {
            lemma_var_int_encoding_len(spec_ack_remaining_len(*self));
        }
        let is_shortened = self.reason.is_default() && byte_len.value() == 0;
        if is_shortened {
            return var_size_int_from_usize(2);
        }
        var_size_int_from_usize(2 + 1 + byte_len.len() + byte_len.value() as usize)
    }

    /// Whether the remaining length fits a variable byte integer, which
    /// writing the packet needs.
    pub fn fits(&self) -> (r: bool)
        ensures
            r == (spec_ack_remaining_len(*self) <= VarSizeInt::MAX),
    {
        let props = capped_add(
            capped_opt_str_prop(REASON_STRING, self.reason_string),
            capped_user_props(&self.user_property),
        );
        if props == 0 && self.reason.is_default() {
            return true;
        }
        remaining_fits(3, props, 0)
    }

    /// Number of bytes of the whole packet.
    pub fn packet_len(&self) -> (r: usize)
        requires
            spec_ack_remaining_len(*self) <= VarSizeInt::MAX,
        ensures
            r == spec_ack_encoding(*self).len(),
    {
        let remaining_len = self.remaining_len();
        proof {
            lemma_var_int_encoding_len(spec_ack_props(*self).len());
        }
        1 + remaining_len.len() + remaining_len.value() as usize
    }

    /// Writes the packet to `buf`.
    #[verifier::rlimit(40)]
    pub fn encode(&self, buf: &mut BytesMut)
        requires
            spec_ack_remaining_len(*self) <= VarSizeInt::MAX,
            bytes_mut_view(*old(buf)).len() + spec_ack_encoding(*self).len() <= isize::MAX,
        ensures
            bytes_mut_view(*final(buf)) == bytes_mut_view(*old(buf)) + spec_ack_encoding(*self),
    {
        let ghost b0 = bytes_mut_view(*buf);
        let rem_len = self.remaining_len();
        proof {
            lemma_var_int_encoding_len(spec_ack_props(*self).len());
        }
        put_u8(buf, R::packet_id() * 16);
        rem_len.encode(buf);
        crate::buffer::put_u16(buf, self.packet_identifier.get());
        if rem_len.value() == 2 {
            assert(bytes_mut_view(*buf) =~= b0 + spec_ack_encoding(*self));
            return;
        }
        put_u8(buf, self.reason.to_byte());
        let property_len = self.property_len();
        property_len.encode(buf);
        encode_opt_str_property(REASON_STRING, self.reason_string, buf);
        encode_user_properties(&self.user_property, buf);
        assert(bytes_mut_view(*buf) =~= b0 + spec_ack_encoding(*self));
    }
}


/// What a written acknowledgement carries, as received plain data.
pub open spec fn spec_ack_sent<R>(tx: AckTx<R>) -> AckV<R> {
    AckV {
        packet_identifier: tx.packet_identifier.spec_get(),
        reason: tx.reason,
        reason_string: match tx.reason_string {
            Some(s) => Some(s.0.spec_bytes()),
            None => None,
        },
        user_property: spec_pair_bytes(tx.user_property@),
    }
}

/// Applying the user properties that pairs are written as appends their
/// bytes to those received before.
proof fn lemma_ack_apply_user_props<R>(ups: Seq<UTF8StringPairRef>, acc: AckV<R>)
    ensures
        spec_apply_all(spec_user_prop_vs(ups), acc, ack_apply_fn()) == Some(
            AckV { user_property: acc.user_property + spec_pair_bytes(ups), ..acc },
        ),
    decreases ups.len(),
{
    if ups.len() == 0 {
        assert(acc.user_property + spec_pair_bytes(ups) =~= acc.user_property);
        assert(spec_user_prop_vs(ups) =~= Seq::<PropertyV>::empty());
    } else {
        let init = ups.drop_last();
        let last = spec_user_prop_v(ups.last());
        lemma_ack_apply_user_props(init, acc);
        assert(spec_user_prop_vs(ups) =~= spec_user_prop_vs(init) + seq![last]);
        lemma_apply_all_concat(spec_user_prop_vs(init), seq![last], acc, ack_apply_fn());
        let mid = AckV { user_property: acc.user_property + spec_pair_bytes(init), ..acc };
        lemma_apply_all_single(last, mid, ack_apply_fn());
        assert(mid.user_property.push((ups.last().0.spec_bytes(), ups.last().1.spec_bytes()))
            =~= acc.user_property + spec_pair_bytes(ups));
    }
}

/// Reading back the properties of a written acknowledgement fills in its
/// reason string and user properties.
#[verifier::spinoff_prover]
proof fn lemma_ack_props_roundtrip<R: AckReason>(tx: AckTx<R>)
    requires
        spec_opt_str_fits(tx.reason_string),
        spec_pairs_fit(tx.user_property@),
    ensures
        spec_fold_properties(
            spec_ack_props(tx),
            AckV::<R> {
                packet_identifier: tx.packet_identifier.spec_get(),
                reason: tx.reason,
                reason_string: None,
                user_property: Seq::empty(),
            },
            ack_apply_fn(),
        ) == Ok::<AckV<R>, CodecError>(spec_ack_sent(tx)),
{
    let ups = tx.user_property@;
    let opt_vs = spec_opt_str_prop_vs(REASON_STRING, tx.reason_string);
    let user_vs = spec_user_prop_vs(ups);
    lemma_opt_str_prop_encoding(REASON_STRING, tx.reason_string);
    lemma_user_props_encoding(ups);
    lemma_props_encoding_concat(opt_vs, user_vs);
    assert(spec_ack_props(tx) == spec_props_encoding(opt_vs + user_vs));
    let init = AckV::<R> {
        packet_identifier: tx.packet_identifier.spec_get(),
        reason: tx.reason,
        reason_string: None,
        user_property: Seq::empty(),
    };
    assert forall|i: int| 0 <= i < (opt_vs + user_vs).len() implies spec_property_valid(
        #[trigger] (opt_vs + user_vs)[i],
    ) by {
        if i < opt_vs.len() {
            assert(spec_property_valid(opt_vs[i]));
        } else {
            assert(spec_property_valid(user_vs[i - opt_vs.len()]));
        }
    }
    lemma_fold_properties_roundtrip(opt_vs + user_vs, init, ack_apply_fn());
    lemma_apply_all_concat(opt_vs, user_vs, init, ack_apply_fn());
    let after_rs = AckV::<R> { reason_string: spec_ack_sent(tx).reason_string, ..init };
    match tx.reason_string {
        Some(rs) => {
            lemma_apply_all_single(opt_vs[0], init, ack_apply_fn());
            assert(opt_vs =~= seq![opt_vs[0]]);
        },
        None => {},
    }
    assert(spec_apply_all(opt_vs, init, ack_apply_fn()) == Some(after_rs));
    lemma_ack_apply_user_props(ups, after_rs);
    assert(after_rs.user_property + spec_pair_bytes(ups) =~= spec_pair_bytes(ups));
}

/// A shortened acknowledgement has no reason string and no user property.
proof fn lemma_ack_shortened_bare<R: AckReason>(tx: AckTx<R>)
    requires
        spec_ack_shortened(tx),
    ensures
        tx.reason_string is None,
        tx.user_property@.len() == 0,
        spec_pair_bytes(tx.user_property@) == Seq::<(Seq<u8>, Seq<u8>)>::empty(),
{
    let ups = tx.user_property@;
    if ups.len() > 0 {
        assert(spec_user_props(ups).len() > 0);
    }
    assert(spec_pair_bytes(ups) =~= Seq::<(Seq<u8>, Seq<u8>)>::empty());
}

/// The steps of reading an acknowledgement, each taken as given: the
/// header, the remaining length, the packet identifier and then either
/// nothing more or the reason, the property length and the properties.
proof fn lemma_decode_ack_steps<R: AckReason>(
    s: Seq<u8>,
    rl: VarSizeInt,
    n1: nat,
    pid: u16,
    tail: Seq<u8>,
    pl: VarSizeInt,
    n4: nat,
    v: AckV<R>,
)
    requires
        s.len() > 0,
        s[0] == R::spec_packet_id() * 16,
        spec_parse_var_size_int(s.skip(1)) == Ok::<(VarSizeInt, nat), ConversionError>((rl, n1)),
        s.skip(1).skip(n1 as int).len() == rl.spec_value(),
        spec_parse_non_zero_u16(s.skip(1).skip(n1 as int)) == Ok::<(u16, nat), ConversionError>((pid, 2)),
        s.skip(1).skip(n1 as int).skip(2) == tail,
        rl.spec_value() == 2 ==> v == (AckV::<R> {
            packet_identifier: pid,
            reason: R::spec_default(),
            reason_string: None,
            user_property: Seq::empty(),
        }),
        rl.spec_value() != 2 ==> {
            &&& tail.len() > 0
            &&& R::spec_from_byte(tail[0]) == Ok::<R, ConversionError>(v.reason)
            &&& spec_parse_var_size_int(tail.skip(1)) == Ok::<(VarSizeInt, nat), ConversionError>((pl, n4))
            &&& pl.spec_value() == tail.skip(1).skip(n4 as int).len()
            &&& spec_fold_properties(
                tail.skip(1).skip(n4 as int),
                AckV::<R> {
                    packet_identifier: pid,
                    reason: v.reason,
                    reason_string: None,
                    user_property: Seq::empty(),
                },
                ack_apply_fn(),
            ) == Ok::<AckV<R>, CodecError>(v)
        },
    ensures
        spec_decode_ack::<R>(s) == Ok::<AckV<R>, CodecError>(v),
{
}

/// The bytes after the packet identifier of a written acknowledgement.
pub open spec fn spec_ack_tail<R: AckReason>(tx: AckTx<R>) -> Seq<u8> {
    if spec_ack_shortened(tx) {
        Seq::empty()
    } else {
        seq![tx.reason.spec_byte()] + spec_var_int_encoding(spec_ack_props(tx).len()) + spec_ack_props(tx)
    }
}

/// A written acknowledgement is its header, its remaining length, its
/// packet identifier and the rest.
proof fn lemma_ack_layout<R: AckReason>(tx: AckTx<R>, s: Seq<u8>)
    requires
        spec_ack_remaining_len(tx) <= VarSizeInt::MAX,
        s == spec_ack_encoding(tx),
    ensures
        s.len() > 0,
        s[0] == R::spec_packet_id() * 16,
        s.skip(1) == spec_var_int_encoding(spec_ack_remaining_len(tx)) + (spec_u16_be(
            tx.packet_identifier.spec_get(),
        ) + spec_ack_tail(tx)),
        spec_ack_remaining_len(tx) == 2 + spec_ack_tail(tx).len(),
{
    let props = spec_ack_props(tx);
    if !spec_ack_shortened(tx) {
        lemma_var_int_encoding_len(props.len());
    }
    R::lemma_packet_id_bound();
    assert(s.skip(1) =~= spec_var_int_encoding(spec_ack_remaining_len(tx)) + (spec_u16_be(
        tx.packet_identifier.spec_get(),
    ) + spec_ack_tail(tx)));
}

/// Reading back a written acknowledgement gives its packet identifier,
/// reason, reason string and user properties; this holds of every packet
/// whose remaining length fits a variable byte integer and whose texts
/// each fit a two byte length.
#[verifier::spinoff_prover]
pub proof fn lemma_ack_roundtrip<R: AckReason>(tx: AckTx<R>)
    requires
        tx.packet_identifier.spec_get() != 0,
        spec_ack_remaining_len(tx) <= VarSizeInt::MAX,
        spec_opt_str_fits(tx.reason_string),
        spec_pairs_fit(tx.user_property@),
    ensures
        spec_decode_ack::<R>(spec_ack_encoding(tx)) == Ok::<AckV<R>, CodecError>(spec_ack_sent(tx)),
        spec_ack_encoding(tx).len() > 0,
        spec_ack_encoding(tx)[0] / 16 == R::spec_packet_id(),
{
    let s = spec_ack_encoding(tx);
    let props = spec_ack_props(tx);
    let pl = props.len();
    let rl = spec_ack_remaining_len(tx);
    let pid = tx.packet_identifier.spec_get();
    let pidb = spec_u16_be(pid);
    let tail = spec_ack_tail(tx);
    let n1 = spec_var_int_len(rl);
    lemma_ack_layout(tx, s);
    lemma_parse_var_int_roundtrip(rl, pidb + tail);
    assert(s.skip(1).skip(n1 as int) =~= pidb + tail);
    lemma_parse_u16_roundtrip(pid, tail);
    assert((pidb + tail).skip(2) =~= tail);
    if spec_ack_shortened(tx) {
        lemma_ack_shortened_bare(tx);
    } else {
        lemma_var_int_encoding_len(pl);
        R::lemma_byte_roundtrip(tx.reason);
        lemma_parse_var_int_roundtrip(pl, props);
        assert(tail.skip(1) =~= spec_var_int_encoding(pl) + props);
        assert(tail.skip(1).skip(spec_var_int_len(pl) as int) =~= props);
        lemma_ack_props_roundtrip(tx);
    }
    lemma_decode_ack_steps::<R>(
        s,
        spec_var_size_int_from(rl).unwrap(),
        n1,
        pid,
        tail,
        spec_var_size_int_from(pl).unwrap(),
        spec_var_int_len(pl),
        spec_ack_sent(tx),
    );
}

/// Builder of an [AckTx]: each field stays unset until a setter is called.
#[derive(Debug)]
pub struct AckTxBuilder<'a, R> {
    /// Packet identifier, if set.
    pub packet_identifier: Option<NonZero<u16>>,
    /// Reason code, if set.
    pub reason: Option<R>,
    /// Reason string, if set.
    pub reason_string: Option<UTF8StringRef<'a>>,
    /// User properties, if any was added.
    pub user_property: Option<Vec<UTF8StringPairRef<'a>>>,
}

impl<'a, R: AckReason> AckTxBuilder<'a, R> {
    /// A builder with nothing set.
    pub open spec fn spec_new() -> Self {
        AckTxBuilder { packet_identifier: None, reason: None, reason_string: None, user_property: None }
    }

    /// A builder with nothing set.
    pub fn new() -> (r: Self)
        ensures
            r == Self::spec_new(),
    {
        AckTxBuilder { packet_identifier: None, reason: None, reason_string: None, user_property: None }
    }

    /// Sets the packet identifier.
    pub fn packet_identifier(&mut self, val: NonZero<u16>)
        ensures
            *final(self) == (AckTxBuilder { packet_identifier: Some(val), ..*old(self) }),
    {
        self.packet_identifier = Some(val);
    }

    /// Sets the reason code.
    pub fn reason(&mut self, val: R)
        ensures
            *final(self) == (AckTxBuilder { reason: Some(val), ..*old(self) }),
    {
        self.reason = Some(val);
    }

    /// Sets the reason string.
    pub fn reason_string(&mut self, val: UTF8StringRef<'a>)
        ensures
            *final(self) == (AckTxBuilder { reason_string: Some(val), ..*old(self) }),
    {
        self.reason_string = Some(val);
    }

    /// Adds a user property after those added before.
    pub fn user_property(&mut self, val: UTF8StringPairRef<'a>)
        ensures
            final(self).user_property is Some,
            spec_builder_pairs(final(self).user_property) == spec_builder_pairs(old(self).user_property).push(val),
            *final(self) == (AckTxBuilder { user_property: final(self).user_property, ..*old(self) }),
    {
        let mut v = match self.user_property.take() {
            Some(v) => v,
            None => Vec::new(),
        };
        v.push(val);
        self.user_property = Some(v);
    }

    /// Builds the packet: the packet identifier must be set; the reason
    /// defaults to the one a shortened packet stands for.
    pub fn build(self) -> (r: Result<AckTx<'a, R>, CodecError>)
        ensures
            self.packet_identifier is Some ==> (r matches Ok(tx) && Some(tx.packet_identifier) == self.packet_identifier
                && tx.reason == (match self.reason {
                Some(v) => v,
                None => R::spec_default(),
            }) && tx.reason_string == self.reason_string
                && tx.user_property@ == spec_builder_pairs(self.user_property)),
            self.packet_identifier is None ==> r == Err::<AckTx<'a, R>, CodecError>(
                CodecError::MandatoryPropertyMissing(MandatoryPropertyMissing),
            ),
    {
        let packet_identifier = match self.packet_identifier {
            Some(v) => v,
            None => return Err(CodecError::MandatoryPropertyMissing(MandatoryPropertyMissing)),
        };
        let reason = match self.reason {
            Some(v) => v,
            None => R::default_reason(),
        };
        let user_property = match self.user_property {
            Some(v) => v,
            None => Vec::new(),
        };
        Ok(AckTx { packet_identifier, reason, reason_string: self.reason_string, user_property })
    }
}

impl<'a, R: AckReason> Default for AckTxBuilder<'a, R> {
    fn default() -> (r: Self)
        ensures
            r == Self::spec_new(),
    {
        Self::new()
    }
}


/// A written acknowledgement packet is its fixed header, the shortest encoding of its
/// remaining length and that many bytes.
pub proof fn lemma_ack_framed<R: AckReason>(tx: AckTx<R>)
    requires
        spec_ack_remaining_len(tx) <= VarSizeInt::MAX,
    ensures
        spec_ack_encoding(tx).len() == 1 + spec_var_int_len(spec_ack_remaining_len(tx)) + spec_ack_remaining_len(tx),
        spec_ack_encoding(tx).subrange(1, 1 + spec_var_int_len(spec_ack_remaining_len(tx)) as int)
            == spec_var_int_encoding(spec_ack_remaining_len(tx)),
{
    let s = spec_ack_encoding(tx);
    let rl = spec_ack_remaining_len(tx);
    lemma_var_int_encoding_len(rl);
    lemma_var_int_encoding_len(spec_ack_props(tx).len());
    assert(s.subrange(1, 1 + spec_var_int_len(rl) as int) =~= spec_var_int_encoding(rl));
}


/// An acknowledgement with a remaining length of 2 reads as its packet
/// identifier and the default reason; one with a reason code byte and an
/// empty property length reads as that reason.
pub proof fn lemma_ack_decode_short<R: AckReason>(hi: u8, lo: u8, rb: u8)
    requires
        hi * 256 + lo != 0,
    ensures
        spec_decode_ack::<R>(seq![(R::spec_packet_id() * 16) as u8, 2, hi, lo]) == Ok::<AckV<R>, CodecError>(
            AckV {
                packet_identifier: (hi * 256 + lo) as u16,
                reason: R::spec_default(),
                reason_string: None,
                user_property: Seq::empty(),
            },
        ),
        R::spec_from_byte(rb) is Ok ==> spec_decode_ack::<R>(seq![(R::spec_packet_id() * 16) as u8, 4, hi, lo, rb, 0])
            == Ok::<AckV<R>, CodecError>(
            AckV {
                packet_identifier: (hi * 256 + lo) as u16,
                reason: R::spec_from_byte(rb)->Ok_0,
                reason_string: None,
                user_property: Seq::empty(),
            },
        ),
{
    R::lemma_packet_id_bound();
    let h = (R::spec_packet_id() * 16) as u8;
    let s = seq![h, 2, hi, lo];
    assert(s.skip(1).skip(1) =~= seq![hi, lo]);
    let t = seq![h, 4, hi, lo, rb, 0];
    let t2 = t.skip(1).skip(1);
    assert(t2 =~= seq![hi, lo, rb, 0]);
    assert(t2.skip(2) =~= seq![rb, 0]);
    assert(t2.skip(2).skip(1) =~= seq![0u8]);
    assert(t2.skip(2).skip(1).skip(1) =~= Seq::<u8>::empty());
}

} // verus!
