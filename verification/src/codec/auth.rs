//! The AUTH packet, exchanged during extended authentication.
use crate::buffer::{bytes_mut_view, bytes_view, put_u8};
use crate::types::base_types::{
    spec_var_size_int_from, var_size_int_from_usize, Binary, BinaryRef, UTF8String, UTF8StringPairRef, UTF8StringRef, VarSizeInt,
};
use crate::types::collections::UserProperties;
use crate::types::decoder::{spec_parse_var_size_int, Decoder};
use crate::types::error::{
    codec_error_of, CodecError, ConversionError, InsufficientBufferSize, InvalidPacketHeader,
    InvalidPacketSize, InvalidPropertyLength, InvalidValue, MandatoryPropertyMissing,
    UnexpectedProperty,
};
use crate::types::properties::{
    lemma_ascii_byte_valid_utf8, lemma_props_encoding_single, spec_property_encoding, spec_property_valid,
    lemma_apply_all_at_most_one, lemma_apply_all_concat, lemma_apply_all_single,
    lemma_fold_properties_roundtrip, lemma_opt_bin_prop_encoding, lemma_opt_str_prop_encoding,
    lemma_parse_var_int_roundtrip, lemma_props_encoding_concat, lemma_props_valid_concat,
    lemma_user_props_encoding, spec_apply_all, spec_opt_bin_fits, spec_opt_bin_prop_vs,
    spec_opt_str_fits, spec_opt_str_prop_vs, spec_pair_bytes, spec_pairs_fit, spec_props_encoding,
    spec_user_prop_v, spec_user_prop_vs,
    encode_opt_bin_property, encode_opt_str_property, encode_user_properties, lemma_user_props_prefix,
    lemma_var_int_encoding_len, opt_bin_prop_len, spec_builder_pairs, opt_str_prop_len, spec_fold_properties,
    spec_opt_bin_prop, spec_opt_str_prop, spec_user_props, spec_var_int_encoding, spec_var_int_len,
    user_properties_len, PropVal, Property, PropertyV, AUTHENTICATION_DATA, AUTHENTICATION_METHOD,
    REASON_STRING, USER_PROPERTY,
};
use crate::types::size::{capped_add, capped_opt_bin_prop, capped_opt_str_prop, capped_user_props, remaining_fits};
use bytes::{Bytes, BytesMut};
use vstd::prelude::*;
use vstd::string::StringSliceAdditionalSpecFns;

verus! {

/// Reason for AUTH packet.
#[derive(Copy, Clone, Debug, PartialEq, Eq, Structural)]
pub enum AuthReason {
    /// Success.
    Success,
    /// Continue authentication.
    ContinueAuthentication,
    /// Re-authenticate.
    ReAuthenticate,
}

/// The reason code of a [AuthReason] on the wire.
pub open spec fn spec_auth_reason_byte(r: AuthReason) -> u8 {
    match r {
        AuthReason::Success => 0x00,
        AuthReason::ContinueAuthentication => 0x18,
        AuthReason::ReAuthenticate => 0x19,
    }
}

/// The [AuthReason] with the given reason code, if there is one.
pub open spec fn spec_auth_reason_from_byte(val: u8) -> Result<AuthReason, ConversionError> {
    if val == 0x00 {
        Ok(AuthReason::Success)
    } else if val == 0x18 {
        Ok(AuthReason::ContinueAuthentication)
    } else if val == 0x19 {
        Ok(AuthReason::ReAuthenticate)
    } else {
        Err(ConversionError::InvalidValue(InvalidValue))
    }
}

impl TryFrom<u8> for AuthReason {
    type Error = ConversionError;

    fn try_from(val: u8) -> (r: Result<Self, Self::Error>) {
        match val {
            0x00 => Ok(AuthReason::Success),
            0x18 => Ok(AuthReason::ContinueAuthentication),
            0x19 => Ok(AuthReason::ReAuthenticate),
            _ => Err(ConversionError::InvalidValue(InvalidValue)),
        }
    }
}

impl vstd::std_specs::convert::TryFromSpecImpl<u8> for AuthReason {
    open spec fn obeys_try_from_spec() -> bool {
        true
    }

    open spec fn try_from_spec(val: u8) -> Result<Self, ConversionError> {
        spec_auth_reason_from_byte(val)
    }
}

impl From<AuthReason> for u8 {
    fn from(val: AuthReason) -> (r: u8) {
        match val {
            AuthReason::Success => 0x00,
            AuthReason::ContinueAuthentication => 0x18,
            AuthReason::ReAuthenticate => 0x19,
        }
    }
}

impl vstd::std_specs::convert::FromSpecImpl<AuthReason> for u8 {
    open spec fn obeys_from_spec() -> bool {
        true
    }

    open spec fn from_spec(val: AuthReason) -> u8 {
        spec_auth_reason_byte(val)
    }
}

/// Reading back the code of a [AuthReason] gives the same reason.
pub proof fn lemma_auth_reason_byte_roundtrip(r: AuthReason)
    ensures
        spec_auth_reason_from_byte(spec_auth_reason_byte(r)) == Ok::<AuthReason, ConversionError>(r),
{
}

/// The reason codes of an AUTH packet are the MQTT 5 ones: each reason is
/// written as its code, a byte that is a code reads back as the reason with
/// that code, any other byte is an invalid value, and the reasons below
/// 0x80 are exactly the ones that report no failure.
pub proof fn lemma_auth_reason_codes()
    ensures
        spec_auth_reason_byte(AuthReason::Success) == 0x00u8,
        spec_auth_reason_byte(AuthReason::ContinueAuthentication) == 0x18u8,
        spec_auth_reason_byte(AuthReason::ReAuthenticate) == 0x19u8,
        forall|b: u8|
            (#[trigger] spec_auth_reason_from_byte(b)) is Ok <==> (b == 0x00 || b == 0x18 || b == 0x19),
        forall|b: u8| (#[trigger] spec_auth_reason_from_byte(b)) matches Ok(r) ==> spec_auth_reason_byte(r) == b,
        forall|b: u8|
            (#[trigger] spec_auth_reason_from_byte(b)) is Err ==> spec_auth_reason_from_byte(b) == Err::<
                AuthReason,
                ConversionError,
            >(ConversionError::InvalidValue(InvalidValue)),
        forall|r: AuthReason|
            (#[trigger] spec_auth_reason_byte(r)) < 0x80 <==> (r == AuthReason::Success || r == AuthReason::ContinueAuthentication ||
                r == AuthReason::ReAuthenticate),
{
}

impl Default for AuthReason {
    fn default() -> (r: Self)
        ensures
            r == AuthReason::Success,
    {
        AuthReason::Success
    }
}

/// The first byte of an AUTH packet.
pub const AUTH_FIXED_HDR: u8 = 0xf0;

/// AUTH packet to be sent.
#[derive(Debug)]
pub struct AuthTx<'a> {
    /// Reason code.
    pub reason: AuthReason,
    /// Name of the authentication method.
    pub authentication_method: Option<UTF8StringRef<'a>>,
    /// Authentication data.
    pub authentication_data: Option<BinaryRef<'a>>,
    /// Reason string.
    pub reason_string: Option<UTF8StringRef<'a>>,
    /// User properties, in order.
    pub user_property: Vec<UTF8StringPairRef<'a>>,
}

/// The properties of an AUTH packet in the order they are written.
pub open spec fn spec_auth_props(tx: AuthTx) -> Seq<u8> {
    spec_opt_str_prop(AUTHENTICATION_METHOD, tx.authentication_method) + spec_opt_bin_prop(
        AUTHENTICATION_DATA,
        tx.authentication_data,
    ) + spec_opt_str_prop(REASON_STRING, tx.reason_string) + spec_user_props(tx.user_property@)
}

/// An AUTH packet with the success reason and nothing else is sent as
/// its fixed header and a zero remaining length.
pub open spec fn spec_auth_shortened(tx: AuthTx) -> bool {
    &&& tx.reason == AuthReason::Success
    &&& tx.authentication_method is None
    &&& tx.authentication_data is None
    &&& tx.reason_string is None
    &&& tx.user_property@.len() == 0
}

/// A packet that is not shortened carries both the authentication method
/// and the authentication data.
pub open spec fn spec_auth_tx_valid(tx: AuthTx) -> bool {
    spec_auth_shortened(tx) || (tx.authentication_method is Some && tx.authentication_data is Some)
}

/// The remaining length of an AUTH packet.
pub open spec fn spec_auth_remaining_len(tx: AuthTx) -> nat {
    let pl = spec_auth_props(tx).len();
    if spec_auth_shortened(tx) {
        0
    } else {
        1 + spec_var_int_len(pl) + pl
    }
}

/// The bytes of an AUTH packet.
pub open spec fn spec_auth_encoding(tx: AuthTx) -> Seq<u8> {
    let props = spec_auth_props(tx);
    if spec_auth_shortened(tx) {
        seq![AUTH_FIXED_HDR, 0u8]
    } else {
        seq![AUTH_FIXED_HDR] + spec_var_int_encoding(spec_auth_remaining_len(tx)) + seq![
            spec_auth_reason_byte(tx.reason),
        ] + spec_var_int_encoding(props.len()) + props
    }
}

impl<'a> AuthTx<'a> {
    /// Whether the packet is sent shortened.
    fn is_shortened(&self) -> (r: bool)
        ensures
            r == spec_auth_shortened(*self),
    {
        let is_success = match self.reason {
            AuthReason::Success => true,
            _ => false,
        };
        is_success && self.authentication_method.is_none() && self.authentication_data.is_none()
            && self.reason_string.is_none() && self.user_property.len() == 0
    }

    /// Number of bytes of the properties.
    fn property_len(&self) -> (r: VarSizeInt)
        requires
            spec_auth_props(*self).len() <= VarSizeInt::MAX,
        ensures
            r.spec_value() == spec_auth_props(*self).len(),
            r.spec_encode() == spec_var_int_encoding(spec_auth_props(*self).len()),
            r.spec_len() == spec_var_int_len(spec_auth_props(*self).len()),
    {
        proof {
            lemma_user_props_prefix(self.user_property@, 0);
        }
        let len = opt_str_prop_len(AUTHENTICATION_METHOD, self.authentication_method) + opt_bin_prop_len(
            AUTHENTICATION_DATA,
            self.authentication_data,
        ) + opt_str_prop_len(REASON_STRING, self.reason_string) + user_properties_len(&self.user_property);
        proof {
            lemma_var_int_encoding_len(spec_auth_props(*self).len());
        }
        var_size_int_from_usize(len)
    }

    /// The remaining length of the packet.
    fn remaining_len(&self) -> (r: VarSizeInt)
        requires
            spec_auth_remaining_len(*self) <= VarSizeInt::MAX,
        ensures
            r.spec_value() == spec_auth_remaining_len(*self),
            r.spec_encode() == spec_var_int_encoding(spec_auth_remaining_len(*self)),
            r.spec_len() == spec_var_int_len(spec_auth_remaining_len(*self)),
    {
        proof {
            lemma_var_int_encoding_len(spec_auth_remaining_len(*self));
        }
        if self.is_shortened() {
            return var_size_int_from_usize(0);
        }
        let property_len = self.property_len();
        var_size_int_from_usize(1 + property_len.len() + property_len.value() as usize)
    }

    /// Whether the packet can be written: it carries what a packet that is
    /// not shortened needs, and its remaining length fits a variable byte
    /// integer.
    pub fn fits(&self) -> (r: bool)
        ensures
            r == (spec_auth_tx_valid(*self) && spec_auth_remaining_len(*self) <= VarSizeInt::MAX),
    {
        if self.is_shortened() {
            return true;
        }
        if self.authentication_method.is_none() || self.authentication_data.is_none() {
            return false;
        }
        let a = capped_add(
            capped_opt_str_prop(AUTHENTICATION_METHOD, self.authentication_method),
            capped_opt_bin_prop(AUTHENTICATION_DATA, self.authentication_data),
        );
        let b = capped_add(a, capped_opt_str_prop(REASON_STRING, self.reason_string));
        let props = capped_add(b, capped_user_props(&self.user_property));
        remaining_fits(1, props, 0)
    }

    /// Number of bytes of the whole packet.
    pub fn packet_len(&self) -> (r: usize)
        requires
            spec_auth_remaining_len(*self) <= VarSizeInt::MAX,
        ensures
            r == spec_auth_encoding(*self).len(),
    {
        let remaining_len = self.remaining_len();
        proof {
            lemma_var_int_encoding_len(spec_auth_props(*self).len());
            lemma_var_int_encoding_len(0);
        }
        1 + remaining_len.len() + remaining_len.value() as usize
    }

    /// Writes the packet to `buf`.
    #[verifier::rlimit(30)]
    pub fn encode(&self, buf: &mut BytesMut)
        requires
            spec_auth_tx_valid(*self),
            spec_auth_remaining_len(*self) <= VarSizeInt::MAX,
            bytes_mut_view(*old(buf)).len() + spec_auth_encoding(*self).len() <= isize::MAX,
        ensures
            bytes_mut_view(*final(buf)) == bytes_mut_view(*old(buf)) + spec_auth_encoding(*self),
    {
        let ghost b0 = bytes_mut_view(*buf);
        if self.is_shortened() {
            put_u8(buf, AUTH_FIXED_HDR);
            put_u8(buf, 0);
            assert(bytes_mut_view(*buf) =~= b0 + spec_auth_encoding(*self));
            return;
        }
        let remaining_len = self.remaining_len();
        let property_len = self.property_len();
        proof {
            lemma_var_int_encoding_len(spec_auth_props(*self).len());
        }
        put_u8(buf, AUTH_FIXED_HDR);
        remaining_len.encode(buf);
        put_u8(buf, u8::from(self.reason));
        property_len.encode(buf);
        encode_opt_str_property(AUTHENTICATION_METHOD, self.authentication_method, buf);
        encode_opt_bin_property(AUTHENTICATION_DATA, self.authentication_data, buf);
        encode_opt_str_property(REASON_STRING, self.reason_string, buf);
        encode_user_properties(&self.user_property, buf);
        assert(bytes_mut_view(*buf) =~= b0 + spec_auth_encoding(*self));
    }
}

/// Builder of an [AuthTx]: each field stays unset until a setter is called.
#[derive(Debug)]
pub struct AuthTxBuilder<'a> {
    /// Reason code, if set.
    pub reason: Option<AuthReason>,
    /// Name of the authentication method, if set.
    pub authentication_method: Option<UTF8StringRef<'a>>,
    /// Authentication data, if set.
    pub authentication_data: Option<BinaryRef<'a>>,
    /// Reason string, if set.
    pub reason_string: Option<UTF8StringRef<'a>>,
    /// User properties, if any was added.
    pub user_property: Option<Vec<UTF8StringPairRef<'a>>>,
}

/// Whether what a builder holds stands for a shortened AUTH packet.
pub open spec fn spec_auth_builder_shortened(b: AuthTxBuilder) -> bool {
    &&& (b.reason is None || b.reason == Some(AuthReason::Success))
    &&& b.authentication_method is None
    &&& b.authentication_data is None
    &&& b.reason_string is None
    &&& b.user_property is None
}

/// The check made when a builder builds: a packet that is not shortened
/// needs both the authentication method and the authentication data.
pub open spec fn spec_auth_builder_valid(b: AuthTxBuilder) -> bool {
    spec_auth_builder_shortened(b) || (b.authentication_method is Some && b.authentication_data is Some)
}

impl<'a> AuthTxBuilder<'a> {
    /// A builder with nothing set.
    pub open spec fn spec_new() -> Self {
        AuthTxBuilder {
            reason: None,
            authentication_method: None,
            authentication_data: None,
            reason_string: None,
            user_property: None,
        }
    }

    /// A builder with nothing set.
    pub fn new() -> (r: Self)
        ensures
            r == Self::spec_new(),
    {
        AuthTxBuilder {
            reason: None,
            authentication_method: None,
            authentication_data: None,
            reason_string: None,
            user_property: None,
        }
    }

    /// Sets the reason code.
    pub fn reason(&mut self, val: AuthReason)
        ensures
            *final(self) == (AuthTxBuilder { reason: Some(val), ..*old(self) }),
    {
        self.reason = Some(val);
    }

    /// Sets the authentication method.
    pub fn authentication_method(&mut self, val: UTF8StringRef<'a>)
        ensures
            *final(self) == (AuthTxBuilder { authentication_method: Some(val), ..*old(self) }),
    {
        self.authentication_method = Some(val);
    }

    /// Sets the authentication data.
    pub fn authentication_data(&mut self, val: BinaryRef<'a>)
        ensures
            *final(self) == (AuthTxBuilder { authentication_data: Some(val), ..*old(self) }),
    {
        self.authentication_data = Some(val);
    }

    /// Sets the reason string.
    pub fn reason_string(&mut self, val: UTF8StringRef<'a>)
        ensures
            *final(self) == (AuthTxBuilder { reason_string: Some(val), ..*old(self) }),
    {
        self.reason_string = Some(val);
    }

    /// Adds a user property after those added before.
    pub fn user_property(&mut self, val: UTF8StringPairRef<'a>)
        ensures
            final(self).user_property is Some,
            spec_builder_pairs(final(self).user_property) == spec_builder_pairs(old(self).user_property).push(val),
            *final(self) == (AuthTxBuilder { user_property: final(self).user_property, ..*old(self) }),
    {
        let mut v = match self.user_property.take() {
            Some(v) => v,
            None => Vec::new(),
        };
        v.push(val);
        self.user_property = Some(v);
    }

    /// Checks that the packet can be built.
    fn validate(&self) -> (r: Result<(), CodecError>)
        ensures
            r is Ok <==> spec_auth_builder_valid(*self),
            r is Err ==> r == Err::<(), CodecError>(CodecError::MandatoryPropertyMissing(MandatoryPropertyMissing)),
    {
        let default_reason = match self.reason {
            None => true,
            Some(AuthReason::Success) => true,
            Some(_) => false,
        };
        let shortened = default_reason && self.authentication_method.is_none()
            && self.authentication_data.is_none() && self.reason_string.is_none()
            && self.user_property.is_none();
        if !shortened && (self.authentication_method.is_none() || self.authentication_data.is_none()) {
            Err(CodecError::MandatoryPropertyMissing(MandatoryPropertyMissing))
        } else {
            Ok(())
        }
    }

    /// Builds the packet: unset fields take their defaults.
    pub fn build(self) -> (r: Result<AuthTx<'a>, CodecError>)
        ensures
            spec_auth_builder_valid(self) ==> (r matches Ok(tx) && tx.reason == (match self.reason {
                Some(v) => v,
                None => AuthReason::Success,
            }) && tx.authentication_method == self.authentication_method
                && tx.authentication_data == self.authentication_data
                && tx.reason_string == self.reason_string
                && tx.user_property@ == spec_builder_pairs(self.user_property)
                && spec_auth_tx_valid(tx)),
            !spec_auth_builder_valid(self) ==> r == Err::<AuthTx<'a>, CodecError>(
                CodecError::MandatoryPropertyMissing(MandatoryPropertyMissing),
            ),
    {
        if let Err(e) = self.validate() {
            return Err(e);
        }
        let reason = match self.reason {
            Some(v) => v,
            None => AuthReason::Success,
        };
        let user_property = match self.user_property {
            Some(v) => v,
            None => Vec::new(),
        };
        Ok(
            AuthTx {
                reason,
                authentication_method: self.authentication_method,
                authentication_data: self.authentication_data,
                reason_string: self.reason_string,
                user_property,
            },
        )
    }
}

/// Received AUTH packet as plain data.
pub struct AuthV {
    /// Reason code.
    pub reason: AuthReason,
    /// Name of the authentication method.
    pub authentication_method: Option<Seq<u8>>,
    /// Authentication data.
    pub authentication_data: Option<Seq<u8>>,
    /// Reason string.
    pub reason_string: Option<Seq<u8>>,
    /// User properties, in order.
    pub user_property: Seq<(Seq<u8>, Seq<u8>)>,
}

/// Received AUTH packet.
#[derive(Debug)]
pub struct AuthRx {
    /// Reason code.
    pub reason: AuthReason,
    /// Name of the authentication method.
    pub authentication_method: Option<UTF8String>,
    /// Authentication data.
    pub authentication_data: Option<Binary>,
    /// Reason string.
    pub reason_string: Option<UTF8String>,
    /// User properties, in order.
    pub user_property: UserProperties,
}

impl View for AuthRx {
    type V = AuthV;

    open spec fn view(&self) -> AuthV {
        AuthV {
            reason: self.reason,
            authentication_method: match self.authentication_method {
                Some(s) => Some(s@),
                None => None,
            },
            authentication_data: match self.authentication_data {
                Some(b) => Some(b@),
                None => None,
            },
            reason_string: match self.reason_string {
                Some(s) => Some(s@),
                None => None,
            },
            user_property: self.user_property@,
        }
    }
}

/// An AUTH packet with the given reason and no properties.
pub open spec fn spec_auth_empty(reason: AuthReason) -> AuthV {
    AuthV {
        reason,
        authentication_method: None,
        authentication_data: None,
        reason_string: None,
        user_property: Seq::empty(),
    }
}

/// The effect of a property on a received AUTH packet.
pub open spec fn auth_apply(acc: AuthV, p: PropertyV) -> Option<AuthV> {
    match p.val {
        PropVal::Data(d) => if p.id == AUTHENTICATION_METHOD {
            Some(AuthV { authentication_method: Some(d), ..acc })
        } else if p.id == AUTHENTICATION_DATA {
            Some(AuthV { authentication_data: Some(d), ..acc })
        } else if p.id == REASON_STRING {
            Some(AuthV { reason_string: Some(d), ..acc })
        } else {
            None
        },
        PropVal::Pair(k, v) => if p.id == USER_PROPERTY {
            Some(AuthV { user_property: acc.user_property.push((k, v)), ..acc })
        } else {
            None
        },
        _ => None,
    }
}

/// [auth_apply] as a function value.
pub open spec fn auth_apply_fn() -> spec_fn(AuthV, PropertyV) -> Option<AuthV> {
    |a: AuthV, p: PropertyV| auth_apply(a, p)
}

/// A received AUTH packet that is not the bare success needs both the
/// authentication method and the authentication data.
pub open spec fn spec_auth_rx_check(v: AuthV) -> Result<AuthV, CodecError> {
    let shortened = v.reason == AuthReason::Success && v.authentication_method is None
        && v.authentication_data is None && v.reason_string is None && v.user_property.len() == 0;
    if !shortened && (v.authentication_method is None || v.authentication_data is None) {
        Err(CodecError::MandatoryPropertyMissing(MandatoryPropertyMissing))
    } else {
        Ok(v)
    }
}

/// Reading an AUTH packet from `s`: fixed header, remaining length (zero
/// stands for success with nothing else, and it may not exceed the whole
/// buffer), reason code, property length (at most the bytes that follow)
/// and the properties up to the end of `s`, which are then checked.
pub open spec fn spec_decode_auth(s: Seq<u8>) -> Result<AuthV, CodecError> {
    if s.len() == 0 {
        Err(codec_error_of(ConversionError::InsufficientBufferSize(InsufficientBufferSize)))
    } else if s[0] != AUTH_FIXED_HDR {
        Err(CodecError::InvalidPacketHeader(InvalidPacketHeader))
    } else {
        let s1 = s.skip(1);
        match spec_parse_var_size_int(s1) {
            Err(e) => Err(codec_error_of(e)),
            Ok((rl, n1)) => {
                let s2 = s1.skip(n1 as int);
                if rl.spec_value() == 0 {
                    Ok(spec_auth_empty(AuthReason::Success))
                } else if rl.spec_value() > s.len() {
                    Err(CodecError::InvalidPacketSize(InvalidPacketSize))
                } else if s2.len() == 0 {
                    Err(codec_error_of(ConversionError::InsufficientBufferSize(InsufficientBufferSize)))
                } else {
                    match spec_auth_reason_from_byte(s2[0]) {
                        Err(e) => Err(codec_error_of(e)),
                        Ok(reason) => {
                            let s3 = s2.skip(1);
                            match spec_parse_var_size_int(s3) {
                                Err(e) => Err(codec_error_of(e)),
                                Ok((pl, n3)) => {
                                    let s4 = s3.skip(n3 as int);
                                    if pl.spec_value() > s4.len() {
                                        Err(CodecError::InvalidPropertyLength(InvalidPropertyLength))
                                    } else {
                                        match spec_fold_properties(s4, spec_auth_empty(reason), auth_apply_fn()) {
                                            Err(e) => Err(e),
                                            Ok(v) => spec_auth_rx_check(v),
                                        }
                                    }
                                },
                            }
                        },
                    }
                }
            },
        }
    }
}

/// What a written AUTH packet carries, as received plain data.
pub open spec fn spec_auth_sent(tx: AuthTx) -> AuthV {
    AuthV {
        reason: tx.reason,
        authentication_method: match tx.authentication_method {
            Some(m) => Some(m.0.spec_bytes()),
            None => None,
        },
        authentication_data: match tx.authentication_data {
            Some(d) => Some(d.0@),
            None => None,
        },
        reason_string: match tx.reason_string {
            Some(r) => Some(r.0.spec_bytes()),
            None => None,
        },
        user_property: spec_pair_bytes(tx.user_property@),
    }
}

/// Applying the user properties that pairs are written as appends their
/// bytes to those received before.
proof fn lemma_auth_apply_user_props(ups: Seq<UTF8StringPairRef>, acc: AuthV)
    ensures
        spec_apply_all(spec_user_prop_vs(ups), acc, auth_apply_fn()) == Some(
            AuthV { user_property: acc.user_property + spec_pair_bytes(ups), ..acc },
        ),
    decreases ups.len(),
{
    if ups.len() == 0 {
        assert(acc.user_property + spec_pair_bytes(ups) =~= acc.user_property);
        assert(spec_user_prop_vs(ups) =~= Seq::<PropertyV>::empty());
    } else {
        let init = ups.drop_last();
        let last = spec_user_prop_v(ups.last());
        lemma_auth_apply_user_props(init, acc);
        assert(spec_user_prop_vs(ups) =~= spec_user_prop_vs(init) + seq![last]);
        lemma_apply_all_concat(spec_user_prop_vs(init), seq![last], acc, auth_apply_fn());
        let mid = AuthV { user_property: acc.user_property + spec_pair_bytes(init), ..acc };
        lemma_apply_all_single(last, mid, auth_apply_fn());
        assert(mid.user_property.push((ups.last().0.spec_bytes(), ups.last().1.spec_bytes()))
            =~= acc.user_property + spec_pair_bytes(ups));
    }
}

/// Texts and data of a packet to be sent each fit a two byte length.
pub open spec fn spec_auth_fits(tx: AuthTx) -> bool {
    &&& spec_opt_str_fits(tx.authentication_method)
    &&& spec_opt_bin_fits(tx.authentication_data)
    &&& spec_opt_str_fits(tx.reason_string)
    &&& spec_pairs_fit(tx.user_property@)
}

/// Reading back the properties of a written AUTH packet fills in each of
/// them.
#[verifier::spinoff_prover]
proof fn lemma_auth_props_roundtrip(tx: AuthTx)
    requires
        spec_auth_fits(tx),
    ensures
        spec_fold_properties(spec_auth_props(tx), spec_auth_empty(tx.reason), auth_apply_fn())
            == Ok::<AuthV, CodecError>(spec_auth_sent(tx)),
{
    let ups = tx.user_property@;
    let m = spec_opt_str_prop_vs(AUTHENTICATION_METHOD, tx.authentication_method);
    let d = spec_opt_bin_prop_vs(AUTHENTICATION_DATA, tx.authentication_data);
    let r = spec_opt_str_prop_vs(REASON_STRING, tx.reason_string);
    let u = spec_user_prop_vs(ups);
    lemma_opt_str_prop_encoding(AUTHENTICATION_METHOD, tx.authentication_method);
    lemma_opt_bin_prop_encoding(AUTHENTICATION_DATA, tx.authentication_data);
    lemma_opt_str_prop_encoding(REASON_STRING, tx.reason_string);
    lemma_user_props_encoding(ups);
    lemma_props_encoding_concat(m, d);
    lemma_props_encoding_concat(m + d, r);
    lemma_props_encoding_concat(m + d + r, u);
    let all = m + d + r + u;
    assert(spec_auth_props(tx) == spec_props_encoding(all));
    lemma_props_valid_concat(m, d);
    lemma_props_valid_concat(m + d, r);
    lemma_props_valid_concat(m + d + r, u);
    let e = spec_auth_empty(tx.reason);
    lemma_fold_properties_roundtrip(all, e, auth_apply_fn());
    lemma_apply_all_concat(m + d + r, u, e, auth_apply_fn());
    lemma_apply_all_concat(m + d, r, e, auth_apply_fn());
    lemma_apply_all_concat(m, d, e, auth_apply_fn());
    let sent = spec_auth_sent(tx);
    let e1 = AuthV { authentication_method: sent.authentication_method, ..e };
    let e2 = AuthV { authentication_data: sent.authentication_data, ..e1 };
    let e3 = AuthV { reason_string: sent.reason_string, ..e2 };
    lemma_apply_all_at_most_one(m, e, auth_apply_fn());
    lemma_apply_all_at_most_one(d, e1, auth_apply_fn());
    lemma_apply_all_at_most_one(r, e2, auth_apply_fn());
    lemma_auth_apply_user_props(ups, e3);
    assert(e3.user_property + spec_pair_bytes(ups) =~= spec_pair_bytes(ups));
}

/// The steps of reading an AUTH packet, each taken as given.
proof fn lemma_decode_auth_steps(
    s: Seq<u8>,
    rl: VarSizeInt,
    n1: nat,
    reason: AuthReason,
    pl: VarSizeInt,
    n3: nat,
    v0: AuthV,
    v: AuthV,
)
    requires
        s.len() > 0,
        s[0] == AUTH_FIXED_HDR,
        spec_parse_var_size_int(s.skip(1)) == Ok::<(VarSizeInt, nat), ConversionError>((rl, n1)),
        rl.spec_value() == 0 ==> v == spec_auth_empty(AuthReason::Success),
        rl.spec_value() != 0 ==> {
            let s2 = s.skip(1).skip(n1 as int);
            &&& rl.spec_value() <= s.len()
            &&& s2.len() > 0
            &&& spec_auth_reason_from_byte(s2[0]) == Ok::<AuthReason, ConversionError>(reason)
            &&& spec_parse_var_size_int(s2.skip(1)) == Ok::<(VarSizeInt, nat), ConversionError>((pl, n3))
            &&& pl.spec_value() <= s2.skip(1).skip(n3 as int).len()
            &&& spec_fold_properties(s2.skip(1).skip(n3 as int), spec_auth_empty(reason), auth_apply_fn())
                == Ok::<AuthV, CodecError>(v0)
            &&& spec_auth_rx_check(v0) == Ok::<AuthV, CodecError>(v)
        },
    ensures
        spec_decode_auth(s) == Ok::<AuthV, CodecError>(v),
{
}

/// Reading back a written AUTH packet gives its reason, authentication
/// method and data, reason string and user properties; this holds of every
/// packet that [AuthTx::encode] accepts whose texts and data each fit a
/// two byte length.
#[verifier::spinoff_prover]
pub proof fn lemma_auth_roundtrip(tx: AuthTx)
    requires
        spec_auth_tx_valid(tx),
        spec_auth_remaining_len(tx) <= VarSizeInt::MAX,
        spec_auth_fits(tx),
    ensures
        spec_decode_auth(spec_auth_encoding(tx)) == Ok::<AuthV, CodecError>(spec_auth_sent(tx)),
        spec_auth_encoding(tx).len() > 0,
        spec_auth_encoding(tx)[0] == AUTH_FIXED_HDR,
{
    let s = spec_auth_encoding(tx);
    let props = spec_auth_props(tx);
    let pl = props.len();
    let rl = spec_auth_remaining_len(tx);
    let n1 = spec_var_int_len(rl);
    let sent = spec_auth_sent(tx);
    if spec_auth_shortened(tx) {
        lemma_parse_var_int_roundtrip(0, Seq::empty());
        assert(spec_var_int_encoding(0) =~= seq![0u8]);
        assert(s.skip(1) =~= spec_var_int_encoding(0) + Seq::<u8>::empty());
        assert(spec_pair_bytes(tx.user_property@) =~= Seq::<(Seq<u8>, Seq<u8>)>::empty());
        assert(sent.user_property =~= Seq::<(Seq<u8>, Seq<u8>)>::empty());
        lemma_decode_auth_steps(
            s,
            spec_var_size_int_from(0).unwrap(),
            1,
            AuthReason::Success,
            spec_var_size_int_from(0).unwrap(),
            1,
            sent,
            sent,
        );
    } else {
        lemma_var_int_encoding_len(pl);
        let s2 = seq![spec_auth_reason_byte(tx.reason)] + (spec_var_int_encoding(pl) + props);
        assert(s =~= seq![AUTH_FIXED_HDR] + (spec_var_int_encoding(rl) + s2));
        lemma_parse_var_int_roundtrip(rl, s2);
        assert(s.skip(1) =~= spec_var_int_encoding(rl) + s2);
        assert(s.skip(1).skip(n1 as int) =~= s2);
        lemma_auth_reason_byte_roundtrip(tx.reason);
        lemma_parse_var_int_roundtrip(pl, props);
        assert(s2.skip(1) =~= spec_var_int_encoding(pl) + props);
        assert(s2.skip(1).skip(spec_var_int_len(pl) as int) =~= props);
        lemma_auth_props_roundtrip(tx);
        lemma_decode_auth_steps(
            s,
            spec_var_size_int_from(rl).unwrap(),
            n1,
            tx.reason,
            spec_var_size_int_from(pl).unwrap(),
            spec_var_int_len(pl),
            sent,
            sent,
        );
    }
}

impl AuthRx {
    /// Decodes an AUTH packet from a received buffer.
    #[verifier::rlimit(40)]
    pub fn try_decode(buf: Bytes) -> (r: Result<Self, CodecError>)
        ensures
            match spec_decode_auth(bytes_view(buf)) {
                Ok(v) => r matches Ok(p) && p@ == v,
                Err(e) => r == Err::<Self, CodecError>(e),
            },
    {
        let ghost s = bytes_view(buf);
        let total = crate::buffer::bytes_as_slice(&buf).len();
        let mut decoder = Decoder::from_bytes(buf);
        let fixed_hdr = match decoder.try_decode_u8() {
            Ok(v) => v,
            Err(e) => return Err(e.into_codec_error()),
        };
        if fixed_hdr != AUTH_FIXED_HDR {
            return Err(CodecError::InvalidPacketHeader(InvalidPacketHeader));
        }
        assert(decoder.rest() =~= s.skip(1));
        let remaining_len = match decoder.try_decode_var_size_int() {
            Ok(v) => v,
            Err(e) => return Err(e.into_codec_error()),
        };
        if remaining_len.value() == 0 {
            let r = AuthRx::empty(AuthReason::Success);
            return Ok(r);
        }
        if remaining_len.value() as usize > total {
            return Err(CodecError::InvalidPacketSize(InvalidPacketSize));
        }
        let code = match decoder.try_decode_u8() {
            Ok(v) => v,
            Err(e) => return Err(e.into_codec_error()),
        };
        let reason = match AuthReason::try_from(code) {
            Ok(v) => v,
            Err(e) => return Err(e.into_codec_error()),
        };
        let property_len = match decoder.try_decode_var_size_int() {
            Ok(v) => v,
            Err(e) => return Err(e.into_codec_error()),
        };
        if property_len.value() as usize > decoder.remaining() {
            return Err(CodecError::InvalidPropertyLength(InvalidPropertyLength));
        }
        let packet = match Self::decode_properties(&mut decoder, AuthRx::empty(reason)) {
            Ok(p) => p,
            Err(e) => return Err(e),
        };
        packet.check()
    }

    /// A packet with the given reason and no properties.
    fn empty(reason: AuthReason) -> (r: Self)
        ensures
            r@ == spec_auth_empty(reason),
    {
        let r = AuthRx {
            reason,
            authentication_method: None,
            authentication_data: None,
            reason_string: None,
            user_property: UserProperties::new(),
        };
        assert(r@.user_property =~= Seq::<(Seq<u8>, Seq<u8>)>::empty());
        r
    }

    /// Checks that a packet that is not the bare success carries both
    /// authentication properties.
    fn check(self) -> (r: Result<Self, CodecError>)
        ensures
            match spec_auth_rx_check(self@) {
                Ok(v) => r matches Ok(p) && p@ == v,
                Err(e) => r == Err::<Self, CodecError>(e),
            },
    {
        let is_success = match self.reason {
            AuthReason::Success => true,
            _ => false,
        };
        let shortened = is_success && self.authentication_method.is_none()
            && self.authentication_data.is_none() && self.reason_string.is_none()
            && self.user_property.is_empty();
        if !shortened && (self.authentication_method.is_none() || self.authentication_data.is_none()) {
            Err(CodecError::MandatoryPropertyMissing(MandatoryPropertyMissing))
        } else {
            Ok(self)
        }
    }

    /// Applies a property read from the packet; false where the packet
    /// does not accept it.
    fn apply_property(&mut self, property: Property) -> (ok: bool)
        ensures
            ok == auth_apply(old(self)@, property@) is Some,
            ok ==> final(self)@ == auth_apply(old(self)@, property@).unwrap(),
    {
        match property {
            Property::AuthenticationMethod(val) => {
                self.authentication_method = Some(val);
            },
            Property::AuthenticationData(val) => {
                self.authentication_data = Some(val);
            },
            Property::ReasonString(val) => {
                self.reason_string = Some(val);
            },
            Property::UserProperty(val) => {
                self.user_property.push(val);
            },
            _ => {
                return false;
            },
        }
        true
    }

    /// Reads the properties that fill the rest of the packet into `init`.
    #[verifier::rlimit(30)]
    fn decode_properties(decoder: &mut Decoder, init: Self) -> (r: Result<Self, CodecError>)
        requires
            old(decoder).wf(),
        ensures
            match spec_fold_properties(old(decoder).rest(), init@, auth_apply_fn()) {
                Ok(v) => r matches Ok(p) && p@ == v,
                Err(e) => r == Err::<Self, CodecError>(e),
            },
    {
        let ghost target = spec_fold_properties(decoder.rest(), init@, auth_apply_fn());
        let mut packet = init;
        while decoder.remaining() != 0
            invariant
                decoder.wf(),
                target == spec_fold_properties(old(decoder).rest(), init@, auth_apply_fn()),
                spec_fold_properties(decoder.rest(), packet@, auth_apply_fn()) == target,
            decreases decoder.rest().len(),
        {
            assert(decoder.rest().len() > 0);
            let property = match decoder.try_decode_property() {
                Ok(p) => p,
                Err(e) => return Err(e.into_codec_error()),
            };
            if !packet.apply_property(property) {
                return Err(CodecError::UnexpectedProperty(UnexpectedProperty));
            }
        }
        Ok(packet)
    }
}


impl<'a> Default for AuthTxBuilder<'a> {
    fn default() -> (r: Self)
        ensures
            r == Self::spec_new(),
    {
        Self::new()
    }
}


/// A written AUTH packet is its fixed header, the shortest encoding of its
/// remaining length and that many bytes.
pub proof fn lemma_auth_framed(tx: AuthTx)
    requires
        spec_auth_remaining_len(tx) <= VarSizeInt::MAX,
    ensures
        spec_auth_encoding(tx).len() == 1 + spec_var_int_len(spec_auth_remaining_len(tx)) + spec_auth_remaining_len(tx),
        spec_auth_encoding(tx).subrange(1, 1 + spec_var_int_len(spec_auth_remaining_len(tx)) as int)
            == spec_var_int_encoding(spec_auth_remaining_len(tx)),
{
    let s = spec_auth_encoding(tx);
    let rl = spec_auth_remaining_len(tx);
    lemma_var_int_encoding_len(rl);
    lemma_var_int_encoding_len(spec_auth_props(tx).len());
    assert(s.subrange(1, 1 + spec_var_int_len(rl) as int) =~= spec_var_int_encoding(rl));
}


/// An AUTH packet that is only its fixed header and a zero remaining length
/// reads as the bare success.
pub proof fn lemma_auth_bare()
    ensures
        spec_decode_auth(seq![0xf0u8, 0]) == Ok::<AuthV, CodecError>(
            AuthV {
                reason: AuthReason::Success,
                authentication_method: None,
                authentication_data: None,
                reason_string: None,
                user_property: Seq::empty(),
            },
        ),
{
    let s = seq![0xf0u8, 0];
    assert(s.skip(1)[0] == 0);
}

/// An AUTH packet with the reason code byte `rb` and the properties `ps`,
/// each of which reads back as itself.
proof fn lemma_auth_with_properties(rb: u8, ps: Seq<PropertyV>)
    requires
        spec_auth_reason_from_byte(rb) is Ok,
        spec_props_encoding(ps).len() <= 100,
        forall|i: int| 0 <= i < ps.len() ==> spec_property_valid(#[trigger] ps[i]),
    ensures
        spec_decode_auth(
            seq![0xf0u8, (spec_props_encoding(ps).len() + 2) as u8, rb, spec_props_encoding(ps).len() as u8]
                + spec_props_encoding(ps),
        ) == match spec_apply_all(ps, spec_auth_empty(spec_auth_reason_from_byte(rb)->Ok_0), auth_apply_fn()) {
            Some(v) => spec_auth_rx_check(v),
            None => Err(CodecError::UnexpectedProperty(UnexpectedProperty)),
        },
{
    let e = spec_props_encoding(ps);
    let s = seq![0xf0u8, (e.len() + 2) as u8, rb, e.len() as u8] + e;
    let s1 = s.skip(1);
    assert(s1[0] == (e.len() + 2) as u8);
    let s2 = s1.skip(1);
    assert(s2[0] == rb);
    let s3 = s2.skip(1);
    assert(s3[0] == e.len() as u8);
    assert(s3.skip(1) =~= e);
    lemma_fold_properties_roundtrip(ps, spec_auth_empty(spec_auth_reason_from_byte(rb)->Ok_0), auth_apply_fn());
}

/// Three properties one after another: their bytes follow each other, and
/// applying them applies each in turn.
proof fn lemma_three_props(p0: PropertyV, p1: PropertyV, p2: PropertyV, acc: AuthV)
    ensures
        spec_props_encoding(seq![p0, p1, p2]) == spec_property_encoding(p0) + spec_property_encoding(p1)
            + spec_property_encoding(p2),
        spec_apply_all(seq![p0, p1, p2], acc, auth_apply_fn()) == match auth_apply(acc, p0) {
            Some(a) => match auth_apply(a, p1) {
                Some(b) => auth_apply(b, p2),
                None => None,
            },
            None => None,
        },
{
    assert(seq![p0, p1, p2] =~= seq![p0] + seq![p1] + seq![p2]);
    lemma_props_encoding_concat(seq![p0] + seq![p1], seq![p2]);
    lemma_props_encoding_concat(seq![p0], seq![p1]);
    lemma_props_encoding_single(p0);
    lemma_props_encoding_single(p1);
    lemma_props_encoding_single(p2);
    lemma_apply_all_concat(seq![p0] + seq![p1], seq![p2], acc, auth_apply_fn());
    lemma_apply_all_concat(seq![p0], seq![p1], acc, auth_apply_fn());
    lemma_apply_all_single(p0, acc, auth_apply_fn());
    match auth_apply(acc, p0) {
        Some(a) => {
            lemma_apply_all_single(p1, a, auth_apply_fn());
            match auth_apply(a, p1) {
                Some(b) => lemma_apply_all_single(p2, b, auth_apply_fn()),
                None => {},
            }
        },
        None => {},
    }
}

/// Each property of a received AUTH packet sets its own field and nothing
/// else: an AUTH packet with an Authentication Method (0x15, here empty),
/// Authentication Data (0x16, here the byte `d`) and a Reason String (0x1f,
/// here the ASCII byte `c`) reads as exactly those, and one with a User
/// Property (0x26) in place of the reason string adds that pair to the
/// user properties.
pub proof fn lemma_auth_properties(rb: u8, d: u8, c: u8)
    requires
        spec_auth_reason_from_byte(rb) is Ok,
        c < 0x80,
    ensures
        spec_decode_auth(seq![0xf0u8, 13, rb, 11, 0x15, 0, 0, 0x16, 0, 1, d, 0x1f, 0, 1, c]) == Ok::<
            AuthV,
            CodecError,
        >(
            AuthV {
                reason: spec_auth_reason_from_byte(rb)->Ok_0,
                authentication_method: Some(Seq::empty()),
                authentication_data: Some(seq![d]),
                reason_string: Some(seq![c]),
                user_property: Seq::empty(),
            },
        ),
        spec_decode_auth(seq![0xf0u8, 14, rb, 12, 0x15, 0, 0, 0x16, 0, 1, d, 0x26, 0, 0, 0, 0]) == Ok::<
            AuthV,
            CodecError,
        >(
            AuthV {
                reason: spec_auth_reason_from_byte(rb)->Ok_0,
                authentication_method: Some(Seq::empty()),
                authentication_data: Some(seq![d]),
                reason_string: None,
                user_property: seq![(Seq::empty(), Seq::empty())],
            },
        ),
{
    lemma_ascii_byte_valid_utf8(c);
    let empty = Seq::<u8>::empty();
    let pm = PropertyV { id: AUTHENTICATION_METHOD, val: PropVal::Data(empty) };
    let pd = PropertyV { id: AUTHENTICATION_DATA, val: PropVal::Data(seq![d]) };
    let pr = PropertyV { id: REASON_STRING, val: PropVal::Data(seq![c]) };
    let pu = PropertyV { id: USER_PROPERTY, val: PropVal::Pair(empty, empty) };
    assert(spec_property_encoding(pm) =~= seq![0x15u8, 0, 0]);
    assert(spec_property_encoding(pd) =~= seq![0x16u8, 0, 1, d]);
    assert(spec_property_encoding(pr) =~= seq![0x1fu8, 0, 1, c]);
    assert(spec_property_encoding(pu) =~= seq![0x26u8, 0, 0, 0, 0]);
    let r = spec_auth_reason_from_byte(rb)->Ok_0;
    let a0 = spec_auth_empty(r);
    let a1 = AuthV { authentication_method: Some(empty), ..a0 };
    let a2 = AuthV { authentication_data: Some(seq![d]), ..a1 };

    let ps = seq![pm, pd, pr];
    lemma_three_props(pm, pd, pr, a0);
    assert(spec_apply_all(ps, a0, auth_apply_fn()) == Some(AuthV { reason_string: Some(seq![c]), ..a2 }));
    assert(forall|i: int| 0 <= i < ps.len() ==> spec_property_valid(#[trigger] ps[i])) by {
        assert(spec_property_valid(ps[0]));
        assert(spec_property_valid(ps[1]));
        assert(spec_property_valid(ps[2]));
    }
    lemma_auth_with_properties(rb, ps);
    assert(seq![0xf0u8, 13, rb, 11, 0x15, 0, 0, 0x16, 0, 1, d, 0x1f, 0, 1, c] =~= seq![0xf0u8, 13, rb, 11]
        + spec_props_encoding(ps));

    let qs = seq![pm, pd, pu];
    lemma_three_props(pm, pd, pu, a0);
    assert(Seq::<(Seq<u8>, Seq<u8>)>::empty().push((empty, empty)) =~= seq![(empty, empty)]);
    assert(spec_apply_all(qs, a0, auth_apply_fn()) == Some(AuthV { user_property: seq![(empty, empty)], ..a2 }));
    assert(forall|i: int| 0 <= i < qs.len() ==> spec_property_valid(#[trigger] qs[i])) by {
        assert(spec_property_valid(qs[0]));
        assert(spec_property_valid(qs[1]));
        assert(spec_property_valid(qs[2]));
    }
    lemma_auth_with_properties(rb, qs);
    assert(seq![0xf0u8, 14, rb, 12, 0x15, 0, 0, 0x16, 0, 1, d, 0x26, 0, 0, 0, 0] =~= seq![0xf0u8, 14, rb, 12]
        + spec_props_encoding(qs));
}

} // verus!
