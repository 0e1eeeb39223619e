//! The UNSUBSCRIBE packet: a request to end one or more subscriptions.
use crate::buffer::{bytes_mut_view, put_u16, put_u8};
use crate::types::base_types::{
    spec_length_prefixed, spec_u16_be, var_size_int_from_usize, NonZero, UTF8StringPairRef, UTF8StringRef,
    VarSizeInt,
};
use crate::types::error::{CodecError, MandatoryPropertyMissing};
use crate::types::properties::{
    encode_user_properties, lemma_user_props_prefix, lemma_var_int_encoding_len, spec_builder_pairs,
    spec_user_props, spec_var_int_encoding, spec_var_int_len, user_properties_len,
};
use crate::types::size::{capped_add, capped_plus, capped_user_props, remaining_fits, spec_capped};
use bytes::BytesMut;
use vstd::prelude::*;
use vstd::string::StringSliceAdditionalSpecFns;

verus! {

/// The topic filters, each with its length, in order.
pub open spec fn spec_topics(topics: Seq<UTF8StringRef>) -> Seq<u8>
    decreases topics.len(),
{
    if topics.len() == 0 {
        Seq::empty()
    } else {
        spec_topics(topics.drop_last()) + spec_length_prefixed(topics.last().0.spec_bytes())
    }
}

/// The topic filters of a prefix take no more bytes than all of them.
pub proof fn lemma_topics_prefix(topics: Seq<UTF8StringRef>, i: int)
    requires
        0 <= i <= topics.len(),
    ensures
        spec_topics(topics.take(i)).len() <= spec_topics(topics).len(),
    decreases topics.len() - i,
{
    if i < topics.len() {
        lemma_topics_prefix(topics, i + 1);
        assert(topics.take(i + 1).drop_last() =~= topics.take(i));
    } else {
        assert(topics.take(i) =~= topics);
    }
}

/// Number of bytes that the topic filters take.
fn topics_len(topics: &Vec<UTF8StringRef>) -> (r: usize)
    requires
        spec_topics(topics@).len() <= VarSizeInt::MAX,
    ensures
        r == spec_topics(topics@).len(),
{
    let mut total: usize = 0;
    let mut i: usize = 0;
    while i < topics.len()
        invariant
            i <= topics@.len(),
            spec_topics(topics@).len() <= VarSizeInt::MAX,
            total == spec_topics(topics@.take(i as int)).len(),
        decreases topics@.len() - i,
    {
        proof {
            lemma_topics_prefix(topics@, i + 1);
            assert(topics@.take(i + 1).drop_last() =~= topics@.take(i as int));
        }
        total = total + topics[i].byte_len();
        i = i + 1;
    }
    assert(topics@.take(topics@.len() as int) =~= topics@);
    total
}

/// Writes the topic filters, in order.
fn encode_topics(topics: &Vec<UTF8StringRef>, buf: &mut BytesMut)
    requires
        bytes_mut_view(*old(buf)).len() + spec_topics(topics@).len() <= isize::MAX,
    ensures
        bytes_mut_view(*final(buf)) == bytes_mut_view(*old(buf)) + spec_topics(topics@),
{
    let mut i: usize = 0;
    while i < topics.len()
        invariant
            i <= topics@.len(),
            bytes_mut_view(*old(buf)).len() + spec_topics(topics@).len() <= isize::MAX,
            bytes_mut_view(*buf) == bytes_mut_view(*old(buf)) + spec_topics(topics@.take(i as int)),
        decreases topics@.len() - i,
    {
        proof {
            lemma_topics_prefix(topics@, i + 1);
            assert(topics@.take(i + 1).drop_last() =~= topics@.take(i as int));
        }
        topics[i].encode(buf);
        i = i + 1;
        assert(bytes_mut_view(*buf) =~= bytes_mut_view(*old(buf)) + spec_topics(topics@.take(i as int)));
    }
    assert(topics@.take(topics@.len() as int) =~= topics@);
}

/// The bytes the topic filters take, capped.
fn capped_topics(topics: &Vec<UTF8StringRef>) -> (r: u64)
    ensures
        r == spec_capped(spec_topics(topics@).len() as int),
{
    let mut total: u64 = 0;
    let mut i: usize = 0;
    while i < topics.len()
        invariant
            i <= topics@.len(),
            total == spec_capped(spec_topics(topics@.take(i as int)).len() as int),
        decreases topics@.len() - i,
    {
        assert(topics@.take(i + 1).drop_last() =~= topics@.take(i as int));
        let t = topics[i];
        total = capped_add(total, capped_plus(2, t.0.as_bytes().len()));
        i = i + 1;
    }
    assert(topics@.take(topics@.len() as int) =~= topics@);
    total
}

/// The first byte of an UNSUBSCRIBE packet.
pub const UNSUBSCRIBE_FIXED_HDR: u8 = 0xa2;

/// UNSUBSCRIBE packet to be sent.
#[derive(Debug)]
pub struct UnsubscribeTx<'a> {
    /// Packet identifier.
    pub packet_identifier: NonZero<u16>,
    /// User properties, in order.
    pub user_property: Vec<UTF8StringPairRef<'a>>,
    /// Topic filters, in order.
    pub payload: Vec<UTF8StringRef<'a>>,
}

/// The remaining length of an UNSUBSCRIBE packet.
pub open spec fn spec_unsubscribe_remaining_len(tx: UnsubscribeTx) -> nat {
    let pl = spec_user_props(tx.user_property@).len();
    2 + spec_var_int_len(pl) + pl + spec_topics(tx.payload@).len()
}

/// The bytes of an UNSUBSCRIBE packet: fixed header, remaining length,
/// packet identifier, property length, user properties and topic filters.
pub open spec fn spec_unsubscribe_encoding(tx: UnsubscribeTx) -> Seq<u8> {
    let props = spec_user_props(tx.user_property@);
    seq![UNSUBSCRIBE_FIXED_HDR] + spec_var_int_encoding(spec_unsubscribe_remaining_len(tx)) + spec_u16_be(
        tx.packet_identifier.spec_get(),
    ) + spec_var_int_encoding(props.len()) + props + spec_topics(tx.payload@)
}

impl<'a> UnsubscribeTx<'a> {
    /// Number of bytes of the properties.
    fn property_len(&self) -> (r: VarSizeInt)
        requires
            spec_user_props(self.user_property@).len() <= VarSizeInt::MAX,
        ensures
            r.spec_value() == spec_user_props(self.user_property@).len(),
            r.spec_encode() == spec_var_int_encoding(spec_user_props(self.user_property@).len()),
            r.spec_len() == spec_var_int_len(spec_user_props(self.user_property@).len()),
    {
        proof {
            lemma_var_int_encoding_len(spec_user_props(self.user_property@).len());
        }
        var_size_int_from_usize(user_properties_len(&self.user_property))
    }

    /// The remaining length of the packet.
    fn remaining_len(&self) -> (r: VarSizeInt)
        requires
            spec_unsubscribe_remaining_len(*self) <= VarSizeInt::MAX,
        ensures
            r.spec_value() == spec_unsubscribe_remaining_len(*self),
            r.spec_encode() == spec_var_int_encoding(spec_unsubscribe_remaining_len(*self)),
            r.spec_len() == spec_var_int_len(spec_unsubscribe_remaining_len(*self)),
    {
        proof {
            lemma_var_int_encoding_len(spec_unsubscribe_remaining_len(*self));
            lemma_var_int_encoding_len(spec_user_props(self.user_property@).len());
        }
        let property_len = self.property_len();
        var_size_int_from_usize(2 + property_len.len() + property_len.value() as usize + topics_len(&self.payload))
    }

    /// Whether the remaining length fits a variable byte integer, which
    /// writing the packet needs.
    pub fn fits(&self) -> (r: bool)
        ensures
            r == (spec_unsubscribe_remaining_len(*self) <= VarSizeInt::MAX),
    {
        remaining_fits(2, capped_user_props(&self.user_property), capped_topics(&self.payload))
    }

    /// Number of bytes of the whole packet.
    pub fn packet_len(&self) -> (r: usize)
        requires
            spec_unsubscribe_remaining_len(*self) <= VarSizeInt::MAX,
        ensures
            r == spec_unsubscribe_encoding(*self).len(),
    {
        let remaining_len = self.remaining_len();
        proof {
            lemma_var_int_encoding_len(spec_user_props(self.user_property@).len());
        }
        1 + remaining_len.len() + remaining_len.value() as usize
    }

    /// Writes the packet to `buf`.
    #[verifier::rlimit(40)]
    pub fn encode(&self, buf: &mut BytesMut)
        requires
            spec_unsubscribe_remaining_len(*self) <= VarSizeInt::MAX,
            bytes_mut_view(*old(buf)).len() + spec_unsubscribe_encoding(*self).len() <= isize::MAX,
        ensures
            bytes_mut_view(*final(buf)) == bytes_mut_view(*old(buf)) + spec_unsubscribe_encoding(*self),
    {
        let ghost b0 = bytes_mut_view(*buf);
        let remaining_len = self.remaining_len();
        let property_len = self.property_len();
        proof {
            lemma_var_int_encoding_len(spec_user_props(self.user_property@).len());
        }
        put_u8(buf, UNSUBSCRIBE_FIXED_HDR);
        remaining_len.encode(buf);
        put_u16(buf, self.packet_identifier.get());
        property_len.encode(buf);
        encode_user_properties(&self.user_property, buf);
        encode_topics(&self.payload, buf);
        assert(bytes_mut_view(*buf) =~= b0 + spec_unsubscribe_encoding(*self));
    }
}

/// Builder of an [UnsubscribeTx]: each field stays unset until a setter is called.
#[derive(Debug)]
pub struct UnsubscribeTxBuilder<'a> {
    /// Packet identifier, if set.
    pub packet_identifier: Option<NonZero<u16>>,
    /// User properties, if any was added.
    pub user_property: Option<Vec<UTF8StringPairRef<'a>>>,
    /// Topic filters, if any was added.
    pub payload: Option<Vec<UTF8StringRef<'a>>>,
}

/// The topic filters that a builder holds.
pub open spec fn spec_builder_topics<'a>(o: Option<Vec<UTF8StringRef<'a>>>) -> Seq<UTF8StringRef<'a>> {
    match o {
        Some(v) => v@,
        None => Seq::empty(),
    }
}

impl<'a> UnsubscribeTxBuilder<'a> {
    /// A builder with nothing set.
    pub open spec fn spec_new() -> Self {
        UnsubscribeTxBuilder { packet_identifier: None, user_property: None, payload: None }
    }

    /// A builder with nothing set.
    pub fn new() -> (r: Self)
        ensures
            r == Self::spec_new(),
    {
        UnsubscribeTxBuilder { packet_identifier: None, user_property: None, payload: None }
    }

    /// Sets the packet identifier.
    pub fn packet_identifier(&mut self, val: NonZero<u16>)
        ensures
            *final(self) == (UnsubscribeTxBuilder { packet_identifier: Some(val), ..*old(self) }),
    {
        self.packet_identifier = Some(val);
    }

    /// Adds a user property after those added before.
    pub fn user_property(&mut self, val: UTF8StringPairRef<'a>)
        ensures
            final(self).user_property is Some,
            spec_builder_pairs(final(self).user_property) == spec_builder_pairs(old(self).user_property).push(val),
            *final(self) == (UnsubscribeTxBuilder { user_property: final(self).user_property, ..*old(self) }),
    {
        let mut v = match self.user_property.take() {
            Some(v) => v,
            None => Vec::new(),
        };
        v.push(val);
        self.user_property = Some(v);
    }

    /// Adds a topic filter after those added before.
    pub fn payload(&mut self, val: UTF8StringRef<'a>)
        ensures
            final(self).payload is Some,
            spec_builder_topics(final(self).payload) == spec_builder_topics(old(self).payload).push(val),
            *final(self) == (UnsubscribeTxBuilder { payload: final(self).payload, ..*old(self) }),
    {
        let mut v = match self.payload.take() {
            Some(v) => v,
            None => Vec::new(),
        };
        v.push(val);
        self.payload = Some(v);
    }

    /// Builds the packet: the packet identifier and at least one topic
    /// filter must be set.
    pub fn build(self) -> (r: Result<UnsubscribeTx<'a>, CodecError>)
        ensures
            (self.packet_identifier is Some && self.payload is Some) ==> (r matches Ok(tx)
                && Some(tx.packet_identifier) == self.packet_identifier
                && tx.user_property@ == spec_builder_pairs(self.user_property)
                && tx.payload@ == spec_builder_topics(self.payload)),
            !(self.packet_identifier is Some && self.payload is Some) ==> r == Err::<UnsubscribeTx<'a>, CodecError>(
                CodecError::MandatoryPropertyMissing(MandatoryPropertyMissing),
            ),
    {
        let payload = match self.payload {
            Some(v) => v,
            None => return Err(CodecError::MandatoryPropertyMissing(MandatoryPropertyMissing)),
        };
        let packet_identifier = match self.packet_identifier {
            Some(v) => v,
            None => return Err(CodecError::MandatoryPropertyMissing(MandatoryPropertyMissing)),
        };
        let user_property = match self.user_property {
            Some(v) => v,
            None => Vec::new(),
        };
        Ok(UnsubscribeTx { packet_identifier, user_property, payload })
    }
}


impl<'a> Default for UnsubscribeTxBuilder<'a> {
    fn default() -> (r: Self)
        ensures
            r == Self::spec_new(),
    {
        Self::new()
    }
}


/// A written UNSUBSCRIBE packet is its fixed header, the shortest encoding of its
/// remaining length and that many bytes.
pub proof fn lemma_unsubscribe_framed(tx: UnsubscribeTx)
    requires
        spec_unsubscribe_remaining_len(tx) <= VarSizeInt::MAX,
    ensures
        spec_unsubscribe_encoding(tx).len() == 1 + spec_var_int_len(spec_unsubscribe_remaining_len(tx)) + spec_unsubscribe_remaining_len(tx),
        spec_unsubscribe_encoding(tx).subrange(1, 1 + spec_var_int_len(spec_unsubscribe_remaining_len(tx)) as int)
            == spec_var_int_encoding(spec_unsubscribe_remaining_len(tx)),
{
    let s = spec_unsubscribe_encoding(tx);
    let rl = spec_unsubscribe_remaining_len(tx);
    lemma_var_int_encoding_len(rl);
    lemma_var_int_encoding_len(spec_user_props(tx.user_property@).len());
    assert(s.subrange(1, 1 + spec_var_int_len(rl) as int) =~= spec_var_int_encoding(rl));
}

} // verus!
