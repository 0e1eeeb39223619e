//! Sequential reading of the wire types from a received buffer, and the
//! specification of what each read gives.
use crate::buffer::{bytes_as_slice, bytes_clone, bytes_slice, bytes_view, str_from_utf8};
use crate::types::base_types::{
    spec_decode_var_size_int, spec_length_prefixed, spec_pair_encoding, spec_u16_be, spec_u32_be, spec_qos_from_byte, Binary, NonZero, Payload, QoS, UTF8String,
    UTF8StringPair, VarSizeInt,
};
use crate::types::error::{
    ConversionError, InsufficientBufferSize, InvalidValue, Utf8Error, ValueIsZero,
};
use bytes::Bytes;
use vstd::prelude::*;
use vstd::utf8::valid_utf8;

verus! {

/// The error of reading from a buffer that is too short.
pub open spec fn too_short<T>() -> Result<T, ConversionError> {
    Err(ConversionError::InsufficientBufferSize(InsufficientBufferSize))
}

/// A one byte integer read from the start of `s`, and the bytes it takes.
pub open spec fn spec_parse_u8(s: Seq<u8>) -> Result<(u8, nat), ConversionError> {
    if s.len() == 0 {
        too_short()
    } else {
        Ok((s[0], 1))
    }
}

/// A boolean byte: 0 or 1, anything else is invalid.
pub open spec fn spec_parse_bool(s: Seq<u8>) -> Result<(bool, nat), ConversionError> {
    if s.len() == 0 {
        too_short()
    } else if s[0] == 0 {
        Ok((false, 1))
    } else if s[0] == 1 {
        Ok((true, 1))
    } else {
        Err(ConversionError::InvalidValue(InvalidValue))
    }
}

/// A quality of service byte.
pub open spec fn spec_parse_qos(s: Seq<u8>) -> Result<(QoS, nat), ConversionError> {
    if s.len() == 0 {
        too_short()
    } else {
        match spec_qos_from_byte(s[0]) {
            Ok(q) => Ok((q, 1)),
            Err(e) => Err(e),
        }
    }
}

/// A big-endian two byte integer.
pub open spec fn spec_parse_u16(s: Seq<u8>) -> Result<(u16, nat), ConversionError> {
    if s.len() < 2 {
        too_short()
    } else {
        Ok(((s[0] * 256 + s[1]) as u16, 2))
    }
}

/// A big-endian four byte integer.
pub open spec fn spec_parse_u32(s: Seq<u8>) -> Result<(u32, nat), ConversionError> {
    if s.len() < 4 {
        too_short()
    } else {
        Ok(((s[0] * 0x1000000 + s[1] * 0x10000 + s[2] * 256 + s[3]) as u32, 4))
    }
}

/// A two byte integer that must not be zero.
pub open spec fn spec_parse_non_zero_u16(s: Seq<u8>) -> Result<(u16, nat), ConversionError> {
    match spec_parse_u16(s) {
        Ok((v, n)) => if v == 0 {
            Err(ConversionError::ValueIsZero(ValueIsZero))
        } else {
            Ok((v, n))
        },
        Err(e) => Err(e),
    }
}

/// A four byte integer that must not be zero.
pub open spec fn spec_parse_non_zero_u32(s: Seq<u8>) -> Result<(u32, nat), ConversionError> {
    match spec_parse_u32(s) {
        Ok((v, n)) => if v == 0 {
            Err(ConversionError::ValueIsZero(ValueIsZero))
        } else {
            Ok((v, n))
        },
        Err(e) => Err(e),
    }
}

/// A variable byte integer.
pub open spec fn spec_parse_var_size_int(s: Seq<u8>) -> Result<(VarSizeInt, nat), ConversionError> {
    match spec_decode_var_size_int(s) {
        Ok(v) => Ok((v, v.spec_len())),
        Err(e) => Err(e),
    }
}

/// A variable byte integer that must not be zero.
pub open spec fn spec_parse_non_zero_var_size_int(s: Seq<u8>) -> Result<(VarSizeInt, nat), ConversionError> {
    match spec_parse_var_size_int(s) {
        Ok((v, n)) => if v.spec_value() == 0 {
            Err(ConversionError::ValueIsZero(ValueIsZero))
        } else {
            Ok((v, n))
        },
        Err(e) => Err(e),
    }
}

/// Length-prefixed binary data: the data and the bytes the field takes.
pub open spec fn spec_parse_binary(s: Seq<u8>) -> Result<(Seq<u8>, nat), ConversionError> {
    if s.len() < 2 {
        too_short()
    } else {
        let size = s[0] * 256 + s[1];
        if size > s.len() - 2 {
            too_short()
        } else {
            Ok((s.subrange(2, 2 + size), (2 + size) as nat))
        }
    }
}

/// Length-prefixed text: as binary data, and the data must be valid UTF-8.
pub open spec fn spec_parse_utf8_string(s: Seq<u8>) -> Result<(Seq<u8>, nat), ConversionError> {
    match spec_parse_binary(s) {
        Ok((data, n)) => if valid_utf8(data) {
            Ok((data, n))
        } else {
            Err(ConversionError::Utf8Error(Utf8Error))
        },
        Err(e) => Err(e),
    }
}

/// A key and a value, each length-prefixed text. The key is checked before
/// the value is read.
pub open spec fn spec_parse_utf8_string_pair(s: Seq<u8>) -> Result<((Seq<u8>, Seq<u8>), nat), ConversionError> {
    match spec_parse_utf8_string(s) {
        Ok((key, n)) => match spec_parse_utf8_string(s.skip(n as int)) {
            Ok((val, m)) => Ok(((key, val), n + m)),
            Err(e) => Err(e),
        },
        Err(e) => Err(e),
    }
}

/// What follows a prefix, and the prefix itself.
pub proof fn lemma_skip_prefix<A>(a: Seq<A>, b: Seq<A>)
    ensures
        (a + b).skip(a.len() as int) == b,
        (a + b).take(a.len() as int) == a,
{
    assert((a + b).skip(a.len() as int) =~= b);
    assert((a + b).take(a.len() as int) =~= a);
}

/// Reading back a two byte integer written big-endian.
pub proof fn lemma_parse_u16_roundtrip(v: u16, rest: Seq<u8>)
    ensures
        spec_parse_u16(spec_u16_be(v) + rest) == Ok::<(u16, nat), ConversionError>((v, 2)),
{
    let s = spec_u16_be(v) + rest;
    assert(s[0] == (v / 256) as u8);
    assert(s[1] == (v % 256) as u8);
}

/// Reading back a four byte integer written big-endian.
pub proof fn lemma_parse_u32_roundtrip(v: u32, rest: Seq<u8>)
    ensures
        spec_parse_u32(spec_u32_be(v) + rest) == Ok::<(u32, nat), ConversionError>((v, 4)),
{
    let s = spec_u32_be(v) + rest;
    assert(s[0] == (v / 0x1000000) as u8);
    assert(s[1] == ((v / 0x10000) % 256) as u8);
    assert(s[2] == ((v / 256) % 256) as u8);
    assert(s[3] == (v % 256) as u8);
}

/// Reading back data written with its two byte length.
pub proof fn lemma_parse_binary_roundtrip(d: Seq<u8>, rest: Seq<u8>)
    requires
        d.len() <= 65535,
    ensures
        spec_parse_binary(spec_length_prefixed(d) + rest) == Ok::<(Seq<u8>, nat), ConversionError>(
            (d, d.len() + 2),
        ),
{
    let s = spec_length_prefixed(d) + rest;
    lemma_parse_u16_roundtrip(d.len() as u16, d + rest);
    assert(s =~= spec_u16_be(d.len() as u16) + (d + rest));
    assert(s.subrange(2, 2 + d.len() as int) =~= d);
}

/// Reading back valid UTF-8 text written with its two byte length.
pub proof fn lemma_parse_utf8_string_roundtrip(d: Seq<u8>, rest: Seq<u8>)
    requires
        d.len() <= 65535,
        valid_utf8(d),
    ensures
        spec_parse_utf8_string(spec_length_prefixed(d) + rest) == Ok::<(Seq<u8>, nat), ConversionError>(
            (d, d.len() + 2),
        ),
{
    lemma_parse_binary_roundtrip(d, rest);
}

/// Reading back valid UTF-8 text at the start of `s`, and the bytes
/// after it.
pub proof fn lemma_utf8_string_prefix(d: Seq<u8>, rest: Seq<u8>)
    requires
        d.len() <= 65535,
        valid_utf8(d),
    ensures
        spec_parse_utf8_string(spec_length_prefixed(d) + rest) == Ok::<(Seq<u8>, nat), ConversionError>(
            (d, d.len() + 2),
        ),
        (spec_length_prefixed(d) + rest).skip(d.len() as int + 2) == rest,
{
    lemma_parse_utf8_string_roundtrip(d, rest);
    lemma_skip_prefix(spec_length_prefixed(d), rest);
}

/// Reading back a key and a value of valid UTF-8 text.
#[verifier::rlimit(30)]
pub proof fn lemma_parse_utf8_string_pair_roundtrip(k: Seq<u8>, v: Seq<u8>, rest: Seq<u8>)
    requires
        k.len() <= 65535,
        v.len() <= 65535,
        valid_utf8(k),
        valid_utf8(v),
    ensures
        spec_parse_utf8_string_pair(spec_pair_encoding(k, v) + rest) == Ok::<
            ((Seq<u8>, Seq<u8>), nat),
            ConversionError,
        >(((k, v), spec_pair_encoding(k, v).len())),
{
    let a = spec_length_prefixed(k);
    let b = spec_length_prefixed(v) + rest;
    let s = spec_pair_encoding(k, v) + rest;
    assert(s =~= a + b);
    lemma_parse_utf8_string_roundtrip(k, b);
    assert((a + b).skip(a.len() as int) =~= b);
    lemma_parse_utf8_string_roundtrip(v, rest);
}

/// Reads the wire types one after another from a received buffer.
pub struct Decoder {
    pub(crate) buf: Bytes,
    pub(crate) pos: usize,
}

impl Decoder {
    /// The read position lies within the buffer.
    pub open(crate) spec fn wf(&self) -> bool {
        self.pos <= bytes_view(self.buf).len() <= usize::MAX
    }

    /// The bytes not yet read.
    pub open(crate) spec fn rest(&self) -> Seq<u8> {
        bytes_view(self.buf).subrange(self.pos as int, bytes_view(self.buf).len() as int)
    }

    /// `self` moved `n` bytes further over the same buffer than `before`.
    pub open(crate) spec fn advanced_from(&self, before: Decoder, n: nat) -> bool {
        &&& self.buf == before.buf
        &&& self.pos == before.pos + n
        &&& self.wf()
        &&& self.rest() == before.rest().subrange(n as int, before.rest().len() as int)
    }

    /// A decoder at the start of `buf`.
    pub fn from_bytes(buf: Bytes) -> (r: Decoder)
        ensures
            r.wf(),
            r.rest() == bytes_view(buf),
    {
        let _len = bytes_as_slice(&buf).len();
        let r = Decoder { buf, pos: 0 };
        assert(r.rest() =~= bytes_view(buf));
        r
    }

    /// Number of bytes not yet read.
    pub fn remaining(&self) -> (r: usize)
        requires
            self.wf(),
        ensures
            r == self.rest().len(),
    {
        bytes_as_slice(&self.buf).len() - self.pos
    }

    /// Skips `n` bytes.
    pub fn advance_by(&mut self, n: usize)
        requires
            old(self).wf(),
            n <= old(self).rest().len(),
        ensures
            final(self).advanced_from(*old(self), n as nat),
    {
        self.pos = self.pos + n;
        assert(self.rest() =~= old(self).rest().subrange(n as int, old(self).rest().len() as int));
    }

    /// A buffer holding the bytes not yet read.
    pub fn get_buf(&self) -> (r: Bytes)
        requires
            self.wf(),
        ensures
            bytes_view(r) == self.rest(),
    {
        let len = bytes_as_slice(&self.buf).len();
        bytes_slice(&self.buf, self.pos, len)
    }

    /// Reads one byte.
    pub fn try_decode_u8(&mut self) -> (r: Result<u8, ConversionError>)
        requires
            old(self).wf(),
        ensures
            match spec_parse_u8(old(self).rest()) {
                Ok((v, n)) => r == Ok::<u8, ConversionError>(v) && final(self).advanced_from(*old(self), n),
                Err(e) => r == Err::<u8, ConversionError>(e) && *final(self) == *old(self),
            },
    {
        let s = bytes_as_slice(&self.buf);
        if self.pos < s.len() {
            let v = s[self.pos];
            self.advance_by(1);
            Ok(v)
        } else {
            Err(ConversionError::InsufficientBufferSize(InsufficientBufferSize))
        }
    }

    /// Reads a boolean byte.
    pub fn try_decode_bool(&mut self) -> (r: Result<bool, ConversionError>)
        requires
            old(self).wf(),
        ensures
            match spec_parse_bool(old(self).rest()) {
                Ok((v, n)) => r == Ok::<bool, ConversionError>(v) && final(self).advanced_from(*old(self), n),
                Err(e) => r == Err::<bool, ConversionError>(e) && *final(self) == *old(self),
            },
    {
        let s = bytes_as_slice(&self.buf);
        if self.pos < s.len() {
            let v = s[self.pos];
            if v == 0 {
                self.advance_by(1);
                Ok(false)
            } else if v == 1 {
                self.advance_by(1);
                Ok(true)
            } else {
                Err(ConversionError::InvalidValue(InvalidValue))
            }
        } else {
            Err(ConversionError::InsufficientBufferSize(InsufficientBufferSize))
        }
    }

    /// Reads a quality of service byte.
    pub fn try_decode_qos(&mut self) -> (r: Result<QoS, ConversionError>)
        requires
            old(self).wf(),
        ensures
            match spec_parse_qos(old(self).rest()) {
                Ok((v, n)) => r == Ok::<QoS, ConversionError>(v) && final(self).advanced_from(*old(self), n),
                Err(e) => r == Err::<QoS, ConversionError>(e) && *final(self) == *old(self),
            },
    {
        let s = bytes_as_slice(&self.buf);
        if self.pos < s.len() {
            let v = s[self.pos];
            match QoS::try_from(v) {
                Ok(q) => {
                    self.advance_by(1);
                    Ok(q)
                },
                Err(e) => Err(e),
            }
        } else {
            Err(ConversionError::InsufficientBufferSize(InsufficientBufferSize))
        }
    }

    /// Reads a big-endian two byte integer.
    pub fn try_decode_u16(&mut self) -> (r: Result<u16, ConversionError>)
        requires
            old(self).wf(),
        ensures
            match spec_parse_u16(old(self).rest()) {
                Ok((v, n)) => r == Ok::<u16, ConversionError>(v) && final(self).advanced_from(*old(self), n),
                Err(e) => r == Err::<u16, ConversionError>(e) && *final(self) == *old(self),
            },
    {
        let s = bytes_as_slice(&self.buf);
        if s.len() - self.pos >= 2 {
            let v = (s[self.pos] as u16) * 256 + (s[self.pos + 1] as u16);
            self.advance_by(2);
            Ok(v)
        } else {
            Err(ConversionError::InsufficientBufferSize(InsufficientBufferSize))
        }
    }

    /// Reads a big-endian four byte integer.
    pub fn try_decode_u32(&mut self) -> (r: Result<u32, ConversionError>)
        requires
            old(self).wf(),
        ensures
            match spec_parse_u32(old(self).rest()) {
                Ok((v, n)) => r == Ok::<u32, ConversionError>(v) && final(self).advanced_from(*old(self), n),
                Err(e) => r == Err::<u32, ConversionError>(e) && *final(self) == *old(self),
            },
    {
        let s = bytes_as_slice(&self.buf);
        if s.len() - self.pos >= 4 {
            let p = self.pos;
            let v = (s[p] as u32) * 0x1000000 + (s[p + 1] as u32) * 0x10000 + (s[p + 2] as u32) * 256
                + (s[p + 3] as u32);
            self.advance_by(4);
            Ok(v)
        } else {
            Err(ConversionError::InsufficientBufferSize(InsufficientBufferSize))
        }
    }

    /// Reads a two byte integer that must not be zero.
    pub fn try_decode_non_zero_u16(&mut self) -> (r: Result<NonZero<u16>, ConversionError>)
        requires
            old(self).wf(),
        ensures
            match spec_parse_non_zero_u16(old(self).rest()) {
                Ok((v, n)) => r matches Ok(x) && x.spec_get() == v && final(self).advanced_from(*old(self), n),
                Err(e) => r == Err::<NonZero<u16>, ConversionError>(e),
            },
            final(self).wf(),
    {
        let v = self.try_decode_u16()?;
        NonZero::<u16>::try_from(v)
    }

    /// Reads a four byte integer that must not be zero.
    pub fn try_decode_non_zero_u32(&mut self) -> (r: Result<NonZero<u32>, ConversionError>)
        requires
            old(self).wf(),
        ensures
            match spec_parse_non_zero_u32(old(self).rest()) {
                Ok((v, n)) => r matches Ok(x) && x.spec_get() == v && final(self).advanced_from(*old(self), n),
                Err(e) => r == Err::<NonZero<u32>, ConversionError>(e),
            },
            final(self).wf(),
    {
        let v = self.try_decode_u32()?;
        NonZero::<u32>::try_from(v)
    }

    /// Reads a variable byte integer.
    pub fn try_decode_var_size_int(&mut self) -> (r: Result<VarSizeInt, ConversionError>)
        requires
            old(self).wf(),
        ensures
            match spec_parse_var_size_int(old(self).rest()) {
                Ok((v, n)) => r == Ok::<VarSizeInt, ConversionError>(v) && final(self).advanced_from(*old(self), n),
                Err(e) => r == Err::<VarSizeInt, ConversionError>(e) && *final(self) == *old(self),
            },
    {
        let s = bytes_as_slice(&self.buf);
        let tail = vstd::slice::slice_subrange(s, self.pos, s.len());
        assert(tail@ =~= self.rest());
        let v = VarSizeInt::decode(tail)?;
        let n = v.len();
        self.advance_by(n);
        Ok(v)
    }

    /// Reads a variable byte integer that must not be zero.
    pub fn try_decode_non_zero_var_size_int(&mut self) -> (r: Result<NonZero<VarSizeInt>, ConversionError>)
        requires
            old(self).wf(),
        ensures
            match spec_parse_non_zero_var_size_int(old(self).rest()) {
                Ok((v, n)) => r matches Ok(x) && x.spec_get() == v && final(self).advanced_from(*old(self), n),
                Err(e) => r == Err::<NonZero<VarSizeInt>, ConversionError>(e),
            },
            final(self).wf(),
    {
        let v = self.try_decode_var_size_int()?;
        NonZero::<VarSizeInt>::try_from(v)
    }

    /// Reads the length and the bytes of a length-prefixed field, without
    /// checking their content.
    fn take_length_prefixed(&mut self) -> (r: Result<Bytes, ConversionError>)
        requires
            old(self).wf(),
        ensures
            match spec_parse_binary(old(self).rest()) {
                Ok((v, n)) => r matches Ok(b) && bytes_view(b) == v && final(self).advanced_from(*old(self), n),
                Err(e) => r == Err::<Bytes, ConversionError>(e) && *final(self) == *old(self),
            },
    {
        let s = bytes_as_slice(&self.buf);
        if s.len() - self.pos < 2 {
            return Err(ConversionError::InsufficientBufferSize(InsufficientBufferSize));
        }
        let size = (s[self.pos] as usize) * 256 + (s[self.pos + 1] as usize);
        if size > s.len() - self.pos - 2 {
            return Err(ConversionError::InsufficientBufferSize(InsufficientBufferSize));
        }
        let start = self.pos + 2;
        let chunk = bytes_slice(&self.buf, start, start + size);
        assert(bytes_view(chunk) =~= self.rest().subrange(2, 2 + size));
        self.advance_by(2 + size);
        Ok(chunk)
    }

    /// Reads length-prefixed binary data.
    pub fn try_decode_binary(&mut self) -> (r: Result<Binary, ConversionError>)
        requires
            old(self).wf(),
        ensures
            match spec_parse_binary(old(self).rest()) {
                Ok((v, n)) => r matches Ok(b) && b@ == v && final(self).advanced_from(*old(self), n),
                Err(e) => r == Err::<Binary, ConversionError>(e) && *final(self) == *old(self),
            },
    {
        let chunk = self.take_length_prefixed()?;
        Ok(Binary(chunk))
    }

    /// Reads length-prefixed text, which must be valid UTF-8.
    pub fn try_decode_utf8_string(&mut self) -> (r: Result<UTF8String, ConversionError>)
        requires
            old(self).wf(),
        ensures
            match spec_parse_utf8_string(old(self).rest()) {
                Ok((v, n)) => r matches Ok(b) && b@ == v && final(self).advanced_from(*old(self), n),
                Err(e) => r == Err::<UTF8String, ConversionError>(e),
            },
            final(self).wf(),
    {
        let chunk = self.take_length_prefixed()?;
        match str_from_utf8(bytes_as_slice(&chunk)) {
            Ok(_) => Ok(UTF8String::from_checked(chunk)),
            Err(_) => Err(ConversionError::Utf8Error(Utf8Error)),
        }
    }

    /// Reads a key and a value, each length-prefixed text.
    pub fn try_decode_utf8_string_pair(&mut self) -> (r: Result<UTF8StringPair, ConversionError>)
        requires
            old(self).wf(),
        ensures
            match spec_parse_utf8_string_pair(old(self).rest()) {
                Ok((v, n)) => r matches Ok(b) && b@ == v && final(self).advanced_from(*old(self), n),
                Err(e) => r == Err::<UTF8StringPair, ConversionError>(e),
            },
            final(self).wf(),
    {
        let ghost s0 = self.rest();
        let ghost d0 = *self;
        let key = self.try_decode_utf8_string()?;
        let ghost d1 = *self;
        let ghost n = (self.pos - d0.pos) as nat;
        assert(s0.skip(n as int) =~= self.rest());
        let val = self.try_decode_utf8_string()?;
        proof {
            use_type_invariant(&key);
            use_type_invariant(&val);
        }
        let r = UTF8StringPair::from_checked(key.0, val.0);
        assert(self.rest() =~= s0.subrange((self.pos - d0.pos) as int, s0.len() as int));
        Ok(r)
    }

    /// Reads all remaining bytes as application data.
    pub fn try_decode_payload(&mut self) -> (r: Result<Payload, ConversionError>)
        requires
            old(self).wf(),
        ensures
            r matches Ok(p) && p@ == old(self).rest(),
            final(self).advanced_from(*old(self), old(self).rest().len()),
    {
        let b = self.get_buf();
        let n = self.remaining();
        self.advance_by(n);
        Ok(Payload(b))
    }
}

} // verus!
