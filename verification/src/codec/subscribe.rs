//! The SUBSCRIBE packet: a request for one or more subscriptions.
use crate::buffer::{bytes_mut_view, put_u16, put_u8};
use crate::types::base_types::{
    lemma_var_size_int_roundtrip, spec_length_prefixed, spec_qos_byte, spec_u16_be, var_size_int_from_usize, NonZero, QoS,
    UTF8StringPairRef, UTF8StringRef, VarSizeInt,
};
use crate::types::error::{CodecError, MandatoryPropertyMissing};
use crate::types::properties::{
    encode_user_properties, encode_var_int_property, lemma_user_props_prefix, lemma_var_int_encoding_len,
    spec_builder_pairs, spec_user_props, spec_var_int_encoding, spec_var_int_len, spec_var_int_prop,
    user_properties_len, SUBSCRIPTION_IDENTIFIER,
};
use crate::types::size::{capped_add, capped_plus, capped_user_props, remaining_fits, spec_capped};
use bytes::BytesMut;
use vstd::prelude::*;
use vstd::string::StringSliceAdditionalSpecFns;

verus! {

/// Whether the server sends retained messages when a subscription is made.
#[derive(Copy, Clone, Debug, PartialEq, Eq, Structural)]
pub enum RetainHandling {
    /// Send retained messages at the time of the subscribe.
    SendOnSubscribe,
    /// Send retained messages only if the subscription does not exist yet.
    SendIfNoSubscription,
    /// Do not send retained messages.
    NoSendOnSubscribe,
}

/// The number of a retain handling option on the wire.
pub open spec fn spec_retain_handling_byte(r: RetainHandling) -> u8 {
    match r {
        RetainHandling::SendOnSubscribe => 0,
        RetainHandling::SendIfNoSubscription => 1,
        RetainHandling::NoSendOnSubscribe => 2,
    }
}

impl From<RetainHandling> for u8 {
    fn from(val: RetainHandling) -> (r: u8) {
        match val {
            RetainHandling::SendOnSubscribe => 0,
            RetainHandling::SendIfNoSubscription => 1,
            RetainHandling::NoSendOnSubscribe => 2,
        }
    }
}

impl vstd::std_specs::convert::FromSpecImpl<RetainHandling> for u8 {
    open spec fn obeys_from_spec() -> bool {
        true
    }

    open spec fn from_spec(val: RetainHandling) -> u8 {
        spec_retain_handling_byte(val)
    }
}

/// Options of one subscription.
#[derive(Copy, Clone, Debug, PartialEq, Eq, Structural)]
pub struct SubscriptionOptions {
    /// Highest QoS the server may use for messages of the subscription.
    pub maximum_qos: QoS,
    /// Whether the client's own publications are left out.
    pub no_local: bool,
    /// Whether messages keep the RETAIN flag they were published with.
    pub retain_as_published: bool,
    /// Whether retained messages are sent when the subscription is made.
    pub retain_handling: RetainHandling,
}

impl Default for SubscriptionOptions {
    fn default() -> (r: Self)
        ensures
            r == (SubscriptionOptions {
                maximum_qos: QoS::ExactlyOnce,
                no_local: false,
                retain_as_published: false,
                retain_handling: RetainHandling::SendOnSubscribe,
            }),
    {
        SubscriptionOptions {
            maximum_qos: QoS::ExactlyOnce,
            no_local: false,
            retain_as_published: false,
            retain_handling: RetainHandling::SendOnSubscribe,
        }
    }
}

/// The byte of subscription options: QoS in bits 0-1, no local in bit 2,
/// retain as published in bit 3 and retain handling in bits 4-5; bits 6-7
/// are reserved and stay zero.
pub open spec fn spec_subscription_options_byte(o: SubscriptionOptions) -> u8 {
    (spec_qos_byte(o.maximum_qos) + (if o.no_local { 4int } else { 0int }) + (if o.retain_as_published {
        8int
    } else {
        0int
    }) + 16 * spec_retain_handling_byte(o.retain_handling)) as u8
}

/// The retain handling options are numbered 0, 1 and 2 on the wire.
pub proof fn lemma_retain_handling_codes()
    ensures
        spec_retain_handling_byte(RetainHandling::SendOnSubscribe) == 0u8,
        spec_retain_handling_byte(RetainHandling::SendIfNoSubscription) == 1u8,
        spec_retain_handling_byte(RetainHandling::NoSendOnSubscribe) == 2u8,
{
}

/// The subscription options byte follows MQTT 5: the maximum QoS in bits
/// 0-1, No Local in bit 2, Retain As Published in bit 3, Retain Handling
/// in bits 4-5, and the reserved bits 6-7 clear.
pub proof fn lemma_subscription_options_bits(o: SubscriptionOptions)
    ensures
        spec_subscription_options_byte(o) & 3 == spec_qos_byte(o.maximum_qos),
        (spec_subscription_options_byte(o) & 4 != 0) == o.no_local,
        (spec_subscription_options_byte(o) & 8 != 0) == o.retain_as_published,
        (spec_subscription_options_byte(o) >> 4) & 3 == spec_retain_handling_byte(o.retain_handling),
        spec_subscription_options_byte(o) & 0xc0 == 0,
{
    let q = spec_qos_byte(o.maximum_qos);
    let nl: u8 = if o.no_local { 1 } else { 0 };
    let rap: u8 = if o.retain_as_published { 1 } else { 0 };
    let rh = spec_retain_handling_byte(o.retain_handling);
    let b = spec_subscription_options_byte(o);
    assert(b == (q + 4 * nl + 8 * rap + 16 * rh) as u8);
    assert(b & 3 == q && (b & 4 != 0) == (nl == 1) && (b & 8 != 0) == (rap == 1) && (b >> 4) & 3 == rh && b & 0xc0
        == 0) by (bit_vector)
        requires
            q <= 2,
            nl <= 1,
            rap <= 1,
            rh <= 2,
            b == (q + 4 * nl + 8 * rap + 16 * rh) as u8,
    ;
}

impl SubscriptionOptions {
    /// The byte that encodes these options.
    pub fn to_byte(&self) -> (r: u8)
        ensures
            r == spec_subscription_options_byte(*self),
    {
        let q = u8::from(self.maximum_qos);
        let nl: u8 = if self.no_local { 1 } else { 0 };
        let rap: u8 = if self.retain_as_published { 1 } else { 0 };
        let rh = u8::from(self.retain_handling);
        assert((q | (nl << 2u8) | (rap << 3u8) | (rh << 4u8)) == q + 4 * nl + 8 * rap + 16 * rh) by (bit_vector)
            requires
                q <= 2,
                nl <= 1,
                rap <= 1,
                rh <= 2,
        ;
        q | (nl << 2u8) | (rap << 3u8) | (rh << 4u8)
    }
}

/// The subscriptions, each a topic filter with its length, then its options
/// byte, in order.
pub open spec fn spec_subscriptions(subs: Seq<(UTF8StringRef, SubscriptionOptions)>) -> Seq<u8>
    decreases subs.len(),
{
    if subs.len() == 0 {
        Seq::empty()
    } else {
        spec_subscriptions(subs.drop_last()) + spec_length_prefixed(subs.last().0.0.spec_bytes()) + seq![
            spec_subscription_options_byte(subs.last().1),
        ]
    }
}

/// The subscriptions of a prefix take no more bytes than all of them.
pub proof fn lemma_subscriptions_prefix(subs: Seq<(UTF8StringRef, SubscriptionOptions)>, i: int)
    requires
        0 <= i <= subs.len(),
    ensures
        spec_subscriptions(subs.take(i)).len() <= spec_subscriptions(subs).len(),
    decreases subs.len() - i,
{
    if i < subs.len() {
        lemma_subscriptions_prefix(subs, i + 1);
        assert(subs.take(i + 1).drop_last() =~= subs.take(i));
    } else {
        assert(subs.take(i) =~= subs);
    }
}

/// Number of bytes that the subscriptions take.
fn subscriptions_len(subs: &Vec<(UTF8StringRef, SubscriptionOptions)>) -> (r: usize)
    requires
        spec_subscriptions(subs@).len() <= VarSizeInt::MAX,
    ensures
        r == spec_subscriptions(subs@).len(),
{
    let mut total: usize = 0;
    let mut i: usize = 0;
    while i < subs.len()
        invariant
            i <= subs@.len(),
            spec_subscriptions(subs@).len() <= VarSizeInt::MAX,
            total == spec_subscriptions(subs@.take(i as int)).len(),
        decreases subs@.len() - i,
    {
        proof {
            lemma_subscriptions_prefix(subs@, i + 1);
            assert(subs@.take(i + 1).drop_last() =~= subs@.take(i as int));
        }
        let (topic, _opts) = subs[i];
        total = total + topic.byte_len() + 1;
        i = i + 1;
    }
    assert(subs@.take(subs@.len() as int) =~= subs@);
    total
}

/// Writes the subscriptions, in order.
fn encode_subscriptions(subs: &Vec<(UTF8StringRef, SubscriptionOptions)>, buf: &mut BytesMut)
    requires
        bytes_mut_view(*old(buf)).len() + spec_subscriptions(subs@).len() <= isize::MAX,
    ensures
        bytes_mut_view(*final(buf)) == bytes_mut_view(*old(buf)) + spec_subscriptions(subs@),
{
    let mut i: usize = 0;
    while i < subs.len()
        invariant
            i <= subs@.len(),
            bytes_mut_view(*old(buf)).len() + spec_subscriptions(subs@).len() <= isize::MAX,
            bytes_mut_view(*buf) == bytes_mut_view(*old(buf)) + spec_subscriptions(subs@.take(i as int)),
        decreases subs@.len() - i,
    {
        proof {
            lemma_subscriptions_prefix(subs@, i + 1);
            assert(subs@.take(i + 1).drop_last() =~= subs@.take(i as int));
        }
        let (topic, opts) = subs[i];
        topic.encode(buf);
        put_u8(buf, opts.to_byte());
        i = i + 1;
        assert(bytes_mut_view(*buf) =~= bytes_mut_view(*old(buf)) + spec_subscriptions(subs@.take(i as int)));
    }
    assert(subs@.take(subs@.len() as int) =~= subs@);
}

/// The bytes the subscriptions take, capped.
fn capped_subscriptions(subs: &Vec<(UTF8StringRef, SubscriptionOptions)>) -> (r: u64)
    ensures
        r == spec_capped(spec_subscriptions(subs@).len() as int),
{
    let mut total: u64 = 0;
    let mut i: usize = 0;
    while i < subs.len()
        invariant
            i <= subs@.len(),
            total == spec_capped(spec_subscriptions(subs@.take(i as int)).len() as int),
        decreases subs@.len() - i,
    {
        assert(subs@.take(i + 1).drop_last() =~= subs@.take(i as int));
        let t = subs[i].0;
        total = capped_add(total, capped_plus(3, t.0.as_bytes().len()));
        i = i + 1;
    }
    assert(subs@.take(subs@.len() as int) =~= subs@);
    total
}

/// The first byte of a SUBSCRIBE packet.
pub const SUBSCRIBE_FIXED_HDR: u8 = 0x82;

/// SUBSCRIBE packet to be sent.
#[derive(Debug)]
pub struct SubscribeTx<'a> {
    /// Packet identifier.
    pub packet_identifier: NonZero<u16>,
    /// Identifier that the server attaches to messages of these subscriptions.
    pub subscription_identifier: Option<NonZero<VarSizeInt>>,
    /// User properties, in order.
    pub user_property: Vec<UTF8StringPairRef<'a>>,
    /// Topic filters with their options, in order.
    pub payload: Vec<(UTF8StringRef<'a>, SubscriptionOptions)>,
}

/// The subscription identifier property: nothing when absent.
pub open spec fn spec_opt_sub_id_prop(o: Option<NonZero<VarSizeInt>>) -> Seq<u8> {
    match o {
        Some(v) => spec_var_int_prop(SUBSCRIPTION_IDENTIFIER, v.spec_get()),
        None => Seq::empty(),
    }
}

/// The properties of a SUBSCRIBE packet in the order they are written.
pub open spec fn spec_subscribe_props(tx: SubscribeTx) -> Seq<u8> {
    spec_opt_sub_id_prop(tx.subscription_identifier) + spec_user_props(tx.user_property@)
}

/// The remaining length of a SUBSCRIBE packet.
pub open spec fn spec_subscribe_remaining_len(tx: SubscribeTx) -> nat {
    let pl = spec_subscribe_props(tx).len();
    2 + spec_var_int_len(pl) + pl + spec_subscriptions(tx.payload@).len()
}

/// The bytes of a SUBSCRIBE packet: fixed header, remaining length, packet
/// identifier, property length, properties and subscriptions.
pub open spec fn spec_subscribe_encoding(tx: SubscribeTx) -> Seq<u8> {
    let props = spec_subscribe_props(tx);
    seq![SUBSCRIBE_FIXED_HDR] + spec_var_int_encoding(spec_subscribe_remaining_len(tx)) + spec_u16_be(
        tx.packet_identifier.spec_get(),
    ) + spec_var_int_encoding(props.len()) + props + spec_subscriptions(tx.payload@)
}

impl<'a> SubscribeTx<'a> {
    /// Number of bytes of the properties.
    fn property_len(&self) -> (r: VarSizeInt)
        requires
            spec_subscribe_props(*self).len() <= VarSizeInt::MAX,
        ensures
            r.spec_value() == spec_subscribe_props(*self).len(),
            r.spec_encode() == spec_var_int_encoding(spec_subscribe_props(*self).len()),
            r.spec_len() == spec_var_int_len(spec_subscribe_props(*self).len()),
    {
        proof {
            lemma_user_props_prefix(self.user_property@, 0);
        }
        let sid: usize = match self.subscription_identifier {
            Some(v) => {
                let inner = v.get();
                proof {
                    use_type_invariant(&inner);
                    crate::types::base_types::lemma_var_size_int_roundtrip(inner, Seq::empty());
                }
                1 + inner.len()
            },
            None => 0,
        };
        let len = sid + user_properties_len(&self.user_property);
        proof {
            lemma_var_int_encoding_len(spec_subscribe_props(*self).len());
        }
        var_size_int_from_usize(len)
    }

    /// The remaining length of the packet.
    fn remaining_len(&self) -> (r: VarSizeInt)
        requires
            spec_subscribe_remaining_len(*self) <= VarSizeInt::MAX,
        ensures
            r.spec_value() == spec_subscribe_remaining_len(*self),
            r.spec_encode() == spec_var_int_encoding(spec_subscribe_remaining_len(*self)),
            r.spec_len() == spec_var_int_len(spec_subscribe_remaining_len(*self)),
    {
        proof {
            lemma_var_int_encoding_len(spec_subscribe_remaining_len(*self));
            lemma_var_int_encoding_len(spec_subscribe_props(*self).len());
            lemma_subscriptions_prefix(self.payload@, 0);
        }
        let property_len = self.property_len();
        var_size_int_from_usize(
            2 + property_len.len() + property_len.value() as usize + subscriptions_len(&self.payload),
        )
    }

    /// Whether the remaining length fits a variable byte integer, which
    /// writing the packet needs.
    pub fn fits(&self) -> (r: bool)
        ensures
            r == (spec_subscribe_remaining_len(*self) <= VarSizeInt::MAX),
    {
        let sub_id: u64 = match self.subscription_identifier {
            Some(v) => {
                let x = v.get();
                proof {
                    use_type_invariant(&x);
                    lemma_var_size_int_roundtrip(x, Seq::empty());
                }
                1 + x.len() as u64
            },
            None => 0,
        };
        assert(sub_id == spec_capped(spec_opt_sub_id_prop(self.subscription_identifier).len() as int));
        let props = capped_add(sub_id, capped_user_props(&self.user_property));
        remaining_fits(2, props, capped_subscriptions(&self.payload))
    }

    /// Number of bytes of the whole packet.
    pub fn packet_len(&self) -> (r: usize)
        requires
            spec_subscribe_remaining_len(*self) <= VarSizeInt::MAX,
        ensures
            r == spec_subscribe_encoding(*self).len(),
    {
        let remaining_len = self.remaining_len();
        proof {
            lemma_var_int_encoding_len(spec_subscribe_props(*self).len());
        }
        1 + remaining_len.len() + remaining_len.value() as usize
    }

    /// Writes the packet to `buf`.
    #[verifier::rlimit(30)]
    pub fn encode(&self, buf: &mut BytesMut)
        requires
            spec_subscribe_remaining_len(*self) <= VarSizeInt::MAX,
            bytes_mut_view(*old(buf)).len() + spec_subscribe_encoding(*self).len() <= isize::MAX,
        ensures
            bytes_mut_view(*final(buf)) == bytes_mut_view(*old(buf)) + spec_subscribe_encoding(*self),
    {
        let ghost b0 = bytes_mut_view(*buf);
        let remaining_len = self.remaining_len();
        let property_len = self.property_len();
        proof {
            lemma_var_int_encoding_len(spec_subscribe_props(*self).len());
        }
        put_u8(buf, SUBSCRIBE_FIXED_HDR);
        remaining_len.encode(buf);
        put_u16(buf, self.packet_identifier.get());
        property_len.encode(buf);
        let ghost b1 = bytes_mut_view(*buf);
        if let Some(val) = self.subscription_identifier {
            encode_var_int_property(SUBSCRIPTION_IDENTIFIER, val.get(), buf);
        }
        assert(bytes_mut_view(*buf) =~= b1 + spec_opt_sub_id_prop(self.subscription_identifier));
        encode_user_properties(&self.user_property, buf);
        encode_subscriptions(&self.payload, buf);
        assert(bytes_mut_view(*buf) =~= b0 + spec_subscribe_encoding(*self));
    }
}

/// Builder of a [SubscribeTx]: each field stays unset until a setter is called.
#[derive(Debug)]
pub struct SubscribeTxBuilder<'a> {
    /// Packet identifier, if set.
    pub packet_identifier: Option<NonZero<u16>>,
    /// Subscription identifier, if set.
    pub subscription_identifier: Option<NonZero<VarSizeInt>>,
    /// User properties, if any was added.
    pub user_property: Option<Vec<UTF8StringPairRef<'a>>>,
    /// Subscriptions, if any was added.
    pub payload: Option<Vec<(UTF8StringRef<'a>, SubscriptionOptions)>>,
}

/// The subscriptions that a builder holds.
pub open spec fn spec_builder_subscriptions<'a>(
    o: Option<Vec<(UTF8StringRef<'a>, SubscriptionOptions)>>,
) -> Seq<(UTF8StringRef<'a>, SubscriptionOptions)> {
    match o {
        Some(v) => v@,
        None => Seq::empty(),
    }
}

impl<'a> SubscribeTxBuilder<'a> {
    /// A builder with nothing set.
    pub open spec fn spec_new() -> Self {
        SubscribeTxBuilder { packet_identifier: None, subscription_identifier: None, user_property: None, payload: None }
    }

    /// A builder with nothing set.
    pub fn new() -> (r: Self)
        ensures
            r == Self::spec_new(),
    {
        SubscribeTxBuilder { packet_identifier: None, subscription_identifier: None, user_property: None, payload: None }
    }

    /// Sets the packet identifier.
    pub fn packet_identifier(&mut self, val: NonZero<u16>)
        ensures
            *final(self) == (SubscribeTxBuilder { packet_identifier: Some(val), ..*old(self) }),
    {
        self.packet_identifier = Some(val);
    }

    /// Sets the subscription identifier.
    pub fn subscription_identifier(&mut self, val: NonZero<VarSizeInt>)
        ensures
            *final(self) == (SubscribeTxBuilder { subscription_identifier: Some(val), ..*old(self) }),
    {
        self.subscription_identifier = Some(val);
    }

    /// Adds a user property after those added before.
    pub fn user_property(&mut self, val: UTF8StringPairRef<'a>)
        ensures
            final(self).user_property is Some,
            spec_builder_pairs(final(self).user_property) == spec_builder_pairs(old(self).user_property).push(val),
            *final(self) == (SubscribeTxBuilder { user_property: final(self).user_property, ..*old(self) }),
    {
        let mut v = match self.user_property.take() {
            Some(v) => v,
            None => Vec::new(),
        };
        v.push(val);
        self.user_property = Some(v);
    }

    /// Adds a subscription after those added before.
    pub fn payload(&mut self, val: (UTF8StringRef<'a>, SubscriptionOptions))
        ensures
            final(self).payload is Some,
            spec_builder_subscriptions(final(self).payload) == spec_builder_subscriptions(old(self).payload).push(val),
            *final(self) == (SubscribeTxBuilder { payload: final(self).payload, ..*old(self) }),
    {
        let mut v = match self.payload.take() {
            Some(v) => v,
            None => Vec::new(),
        };
        v.push(val);
        self.payload = Some(v);
    }

    /// Builds the packet: the packet identifier and at least one
    /// subscription must be set.
    pub fn build(self) -> (r: Result<SubscribeTx<'a>, CodecError>)
        ensures
            (self.packet_identifier is Some && self.payload is Some) ==> (r matches Ok(tx)
                && Some(tx.packet_identifier) == self.packet_identifier
                && tx.subscription_identifier == self.subscription_identifier
                && tx.user_property@ == spec_builder_pairs(self.user_property)
                && tx.payload@ == spec_builder_subscriptions(self.payload)),
            !(self.packet_identifier is Some && self.payload is Some) ==> r == Err::<SubscribeTx<'a>, CodecError>(
                CodecError::MandatoryPropertyMissing(MandatoryPropertyMissing),
            ),
    {
        let payload = match self.payload {
            Some(v) => v,
            None => return Err(CodecError::MandatoryPropertyMissing(MandatoryPropertyMissing)),
        };
        let packet_identifier = match self.packet_identifier {
            Some(v) => v,
            None => return Err(CodecError::MandatoryPropertyMissing(MandatoryPropertyMissing)),
        };
        let user_property = match self.user_property {
            Some(v) => v,
            None => Vec::new(),
        };
        Ok(
            SubscribeTx {
                packet_identifier,
                subscription_identifier: self.subscription_identifier,
                user_property,
                payload,
            },
        )
    }
}


impl<'a> Default for SubscribeTxBuilder<'a> {
    fn default() -> (r: Self)
        ensures
            r == Self::spec_new(),
    {
        Self::new()
    }
}


/// A written SUBSCRIBE packet is its fixed header, the shortest encoding of its
/// remaining length and that many bytes.
pub proof fn lemma_subscribe_framed(tx: SubscribeTx)
    requires
        spec_subscribe_remaining_len(tx) <= VarSizeInt::MAX,
    ensures
        spec_subscribe_encoding(tx).len() == 1 + spec_var_int_len(spec_subscribe_remaining_len(tx)) + spec_subscribe_remaining_len(tx),
        spec_subscribe_encoding(tx).subrange(1, 1 + spec_var_int_len(spec_subscribe_remaining_len(tx)) as int)
            == spec_var_int_encoding(spec_subscribe_remaining_len(tx)),
{
    let s = spec_subscribe_encoding(tx);
    let rl = spec_subscribe_remaining_len(tx);
    lemma_var_int_encoding_len(rl);
    lemma_var_int_encoding_len(spec_subscribe_props(tx).len());
    assert(s.subrange(1, 1 + spec_var_int_len(rl) as int) =~= spec_var_int_encoding(rl));
}

} // verus!
