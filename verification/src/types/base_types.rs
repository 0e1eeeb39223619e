//! Data representations of the MQTT wire format: variable byte integers,
//! non-zero integers, quality of service, binary data and UTF-8 strings.
use crate::buffer::{bytes_as_slice, bytes_mut_view, bytes_view, put_slice, put_u16, put_u32, put_u8, str_from_utf8, bytes_clone};
use crate::types::error::{
    ConversionError, InsufficientBufferSize, InvalidValue, Utf8Error, ValueExceedesMaximum, ValueIsZero,
};
use bytes::{Bytes, BytesMut};
use vstd::prelude::*;
use vstd::string::StringSliceAdditionalSpecFns;
use vstd::utf8::valid_utf8;

verus! {

/// Largest value a variable byte integer can hold.
pub const VAR_SIZE_INT_MAX: u32 = 0x0fffffff;

/// The big-endian encoding of a two byte integer.
pub open spec fn spec_u16_be(v: u16) -> Seq<u8> {
    seq![(v / 256) as u8, (v % 256) as u8]
}

/// The big-endian encoding of a four byte integer.
pub open spec fn spec_u32_be(v: u32) -> Seq<u8> {
    seq![(v / 0x1000000) as u8, ((v / 0x10000) % 256) as u8, ((v / 256) % 256) as u8, (v % 256) as u8]
}

/// Storage of a variable byte integer; the variant is the number of bytes of
/// its encoding.
#[derive(Copy, Clone, PartialEq, Eq, Debug, Structural)]
pub enum VarSizeIntState {
    /// Encoded in one byte.
    SingleByte(u8),
    /// Encoded in two bytes.
    TwoByte(u16),
    /// Encoded in three bytes.
    ThreeByte(u32),
    /// Encoded in four bytes.
    FourByte(u32),
}

/// Variable byte integer of the MQTT protocol: seven bits of value per
/// byte, least significant group first, the high bit marking a
/// continuation byte. It remembers how many bytes encode it.
#[derive(Copy, Clone, PartialEq, Eq, Debug, Structural)]
pub struct VarSizeInt(pub(crate) VarSizeIntState);

/// A variable byte integer with `len` bytes and value `value`.
pub open(crate) spec fn var_size_int_of(len: nat, value: int) -> VarSizeInt {
    if len == 1 {
        VarSizeInt(VarSizeIntState::SingleByte(value as u8))
    } else if len == 2 {
        VarSizeInt(VarSizeIntState::TwoByte(value as u16))
    } else if len == 3 {
        VarSizeInt(VarSizeIntState::ThreeByte(value as u32))
    } else {
        VarSizeInt(VarSizeIntState::FourByte(value as u32))
    }
}

/// The variable byte integer that `TryFrom<u32>` and `TryFrom<usize>` build:
/// the shortest encoding of `val`, or an error above [VAR_SIZE_INT_MAX].
pub open(crate) spec fn spec_var_size_int_from(val: nat) -> Result<VarSizeInt, ConversionError> {
    if val <= 127 {
        Ok(var_size_int_of(1, val as int))
    } else if val <= 16383 {
        Ok(var_size_int_of(2, val as int))
    } else if val <= 2097151 {
        Ok(var_size_int_of(3, val as int))
    } else if val <= 0x0fffffff {
        Ok(var_size_int_of(4, val as int))
    } else {
        Err(ConversionError::ValueExceedesMaximum(ValueExceedesMaximum))
    }
}

/// Reading a variable byte integer from the start of `s`: the first byte
/// among the first four without the continuation bit ends it; a fifth byte
/// exceeds the maximum; a buffer that ends before is too short.
pub open(crate) spec fn spec_decode_var_size_int(s: Seq<u8>) -> Result<VarSizeInt, ConversionError> {
    if s.len() == 0 {
        Err(ConversionError::InsufficientBufferSize(InsufficientBufferSize))
    } else if s[0] < 128 {
        Ok(var_size_int_of(1, s[0] as int))
    } else if s.len() == 1 {
        Err(ConversionError::InsufficientBufferSize(InsufficientBufferSize))
    } else if s[1] < 128 {
        Ok(var_size_int_of(2, (s[0] - 128) + 128 * s[1]))
    } else if s.len() == 2 {
        Err(ConversionError::InsufficientBufferSize(InsufficientBufferSize))
    } else if s[2] < 128 {
        Ok(var_size_int_of(3, (s[0] - 128) + 128 * (s[1] - 128) + 16384 * s[2]))
    } else if s.len() == 3 {
        Err(ConversionError::InsufficientBufferSize(InsufficientBufferSize))
    } else if s[3] < 128 {
        Ok(
            var_size_int_of(
                4,
                (s[0] - 128) + 128 * (s[1] - 128) + 16384 * (s[2] - 128) + 2097152 * s[3],
            ),
        )
    } else if s.len() == 4 {
        Err(ConversionError::InsufficientBufferSize(InsufficientBufferSize))
    } else {
        Err(ConversionError::ValueExceedesMaximum(ValueExceedesMaximum))
    }
}

impl VarSizeInt {
    /// Largest value a variable byte integer can hold.
    pub const MAX: usize = 0x0fffffff;

    /// Each variant holds a value that fits its number of bytes.
    #[verifier::type_invariant]
    pub closed spec fn wf(self) -> bool {
        match self.0 {
            VarSizeIntState::SingleByte(v) => v < 128,
            VarSizeIntState::TwoByte(v) => v < 16384,
            VarSizeIntState::ThreeByte(v) => v < 2097152,
            VarSizeIntState::FourByte(v) => v < 268435456,
        }
    }

    /// Number of bytes of the encoding.
    pub open(crate) spec fn spec_len(self) -> nat {
        match self.0 {
            VarSizeIntState::SingleByte(_) => 1,
            VarSizeIntState::TwoByte(_) => 2,
            VarSizeIntState::ThreeByte(_) => 3,
            VarSizeIntState::FourByte(_) => 4,
        }
    }

    /// The integer value.
    pub open(crate) spec fn spec_value(self) -> nat {
        match self.0 {
            VarSizeIntState::SingleByte(v) => v as nat,
            VarSizeIntState::TwoByte(v) => v as nat,
            VarSizeIntState::ThreeByte(v) => v as nat,
            VarSizeIntState::FourByte(v) => v as nat,
        }
    }

    /// The bytes that encode this integer.
    pub open(crate) spec fn spec_encode(self) -> Seq<u8> {
        let v = self.spec_value();
        match self.0 {
            VarSizeIntState::SingleByte(_) => seq![v as u8],
            VarSizeIntState::TwoByte(_) => seq![(v % 128 + 128) as u8, (v / 128) as u8],
            VarSizeIntState::ThreeByte(_) => seq![
                (v % 128 + 128) as u8,
                ((v / 128) % 128 + 128) as u8,
                (v / 16384) as u8,
            ],
            VarSizeIntState::FourByte(_) => seq![
                (v % 128 + 128) as u8,
                ((v / 128) % 128 + 128) as u8,
                ((v / 16384) % 128 + 128) as u8,
                (v / 2097152) as u8,
            ],
        }
    }

    /// Number of bytes of the encoding.
    pub fn len(&self) -> (r: usize)
        ensures
            r == self.spec_len(),
            1 <= r <= 4,
    {
        match self.0 {
            VarSizeIntState::SingleByte(_) => 1,
            VarSizeIntState::TwoByte(_) => 2,
            VarSizeIntState::ThreeByte(_) => 3,
            VarSizeIntState::FourByte(_) => 4,
        }
    }

    /// The integer value.
    pub fn value(&self) -> (r: u32)
        ensures
            r == self.spec_value(),
            r <= VAR_SIZE_INT_MAX,
            self.spec_len() == 1 ==> r < 128,
            self.spec_len() == 2 ==> r < 16384,
            self.spec_len() == 3 ==> r < 2097152,
    {
        proof {
            use_type_invariant(self);
        }
        match self.0 {
            VarSizeIntState::SingleByte(val) => val as u32,
            VarSizeIntState::TwoByte(val) => val as u32,
            VarSizeIntState::ThreeByte(val) => val,
            VarSizeIntState::FourByte(val) => val,
        }
    }

    /// Number of bytes of the encoding, as `ByteLen` reports it.
    pub fn byte_len(&self) -> (r: usize)
        ensures
            r == self.spec_len(),
            r == self.spec_encode().len(),
    {
        self.len()
    }

    /// Reads a variable byte integer from the start of `bytes`.
    pub fn decode(bytes: &[u8]) -> (r: Result<VarSizeInt, ConversionError>)
        ensures
            r == spec_decode_var_size_int(bytes@),
            r matches Ok(v) ==> v.spec_len() <= bytes@.len(),
    {
        if bytes.len() == 0 {
            return Err(ConversionError::InsufficientBufferSize(InsufficientBufferSize));
        }
        let b0 = bytes[0];
        if b0 < 128 {
            return Ok(VarSizeInt(VarSizeIntState::SingleByte(b0)));
        }
        if bytes.len() == 1 {
            return Err(ConversionError::InsufficientBufferSize(InsufficientBufferSize));
        }
        let b1 = bytes[1];
        if b1 < 128 {
            let v: u16 = (b0 - 128) as u16 + 128 * (b1 as u16);
            return Ok(VarSizeInt(VarSizeIntState::TwoByte(v)));
        }
        if bytes.len() == 2 {
            return Err(ConversionError::InsufficientBufferSize(InsufficientBufferSize));
        }
        let b2 = bytes[2];
        if b2 < 128 {
            let v: u32 = (b0 - 128) as u32 + 128 * ((b1 - 128) as u32) + 16384 * (b2 as u32);
            return Ok(VarSizeInt(VarSizeIntState::ThreeByte(v)));
        }
        if bytes.len() == 3 {
            return Err(ConversionError::InsufficientBufferSize(InsufficientBufferSize));
        }
        let b3 = bytes[3];
        if b3 < 128 {
            let v: u32 = (b0 - 128) as u32 + 128 * ((b1 - 128) as u32) + 16384 * ((b2 - 128) as u32)
                + 2097152 * (b3 as u32);
            return Ok(VarSizeInt(VarSizeIntState::FourByte(v)));
        }
        if bytes.len() == 4 {
            return Err(ConversionError::InsufficientBufferSize(InsufficientBufferSize));
        }
        Err(ConversionError::ValueExceedesMaximum(ValueExceedesMaximum))
    }

    /// Appends the encoding of this integer to `buf`.
    pub fn encode(&self, buf: &mut BytesMut)
        requires
            bytes_mut_view(*old(buf)).len() + self.spec_encode().len() <= isize::MAX,
        ensures
            bytes_mut_view(*final(buf)) == bytes_mut_view(*old(buf)) + self.spec_encode(),
    {
        proof {
            use_type_invariant(self);
        }
        match self.0 {
            VarSizeIntState::SingleByte(val) => {
                put_u8(buf, val);
                assert(bytes_mut_view(*buf) =~= bytes_mut_view(*old(buf)) + self.spec_encode());
            },
            VarSizeIntState::TwoByte(val) => {
                let byte0 = (val % 0x80) as u8 + 0x80;
                let byte1 = (val / 0x80) as u8;
                let arr = [byte0, byte1];
                put_slice(buf, arr.as_slice());
                assert(arr@ =~= self.spec_encode());
            },
            VarSizeIntState::ThreeByte(val) => {
                let byte0 = (val % 0x80) as u8 + 0x80;
                let byte1 = ((val / 0x80) % 0x80) as u8 + 0x80;
                let byte2 = (val / 0x4000) as u8;
                let arr = [byte0, byte1, byte2];
                put_slice(buf, arr.as_slice());
                assert(arr@ =~= self.spec_encode());
            },
            VarSizeIntState::FourByte(val) => {
                let byte0 = (val % 0x80) as u8 + 0x80;
                let byte1 = ((val / 0x80) % 0x80) as u8 + 0x80;
                let byte2 = ((val / 0x4000) % 0x80) as u8 + 0x80;
                let byte3 = (val / 0x200000) as u8;
                let arr = [byte0, byte1, byte2, byte3];
                put_slice(buf, arr.as_slice());
                assert(arr@ =~= self.spec_encode());
            },
        }
    }
}

/// Reading back the encoding of a variable byte integer gives the same
/// integer, whatever bytes follow it.
pub proof fn lemma_var_size_int_roundtrip(v: VarSizeInt, rest: Seq<u8>)
    requires
        v.wf(),
    ensures
        spec_decode_var_size_int(v.spec_encode() + rest) == Ok::<VarSizeInt, ConversionError>(v),
        v.spec_encode().len() == v.spec_len(),
{
    let s = v.spec_encode() + rest;
    let x = v.spec_value();
    match v.0 {
        VarSizeIntState::SingleByte(_) => {
            assert(s[0] == x as u8);
        },
        VarSizeIntState::TwoByte(_) => {
            assert(s[0] == (x % 128 + 128) as u8);
            assert(s[1] == (x / 128) as u8);
        },
        VarSizeIntState::ThreeByte(_) => {
            assert(s[0] == (x % 128 + 128) as u8);
            assert(s[1] == ((x / 128) % 128 + 128) as u8);
            assert(s[2] == (x / 16384) as u8);
        },
        VarSizeIntState::FourByte(_) => {
            assert(s[0] == (x % 128 + 128) as u8);
            assert(s[1] == ((x / 128) % 128 + 128) as u8);
            assert(s[2] == ((x / 16384) % 128 + 128) as u8);
            assert(s[3] == (x / 2097152) as u8);
        },
    }
}

/// The shortest encoding of a value up to the maximum holds that value.
pub proof fn lemma_var_size_int_from_valid(n: nat)
    requires
        n <= 0x0fffffff,
    ensures
        spec_var_size_int_from(n) is Ok,
        spec_var_size_int_from(n).unwrap().wf(),
        spec_var_size_int_from(n).unwrap().spec_value() == n,
{
}

impl TryFrom<&[u8]> for VarSizeInt {
    type Error = ConversionError;

    fn try_from(bytes: &[u8]) -> (r: Result<Self, Self::Error>) {
        Self::decode(bytes)
    }
}

impl vstd::std_specs::convert::TryFromSpecImpl<&[u8]> for VarSizeInt {
    open spec fn obeys_try_from_spec() -> bool {
        true
    }

    open spec fn try_from_spec(bytes: &[u8]) -> Result<Self, ConversionError> {
        spec_decode_var_size_int(bytes@)
    }
}

impl Default for VarSizeInt {
    fn default() -> (r: Self)
        ensures
            r.spec_len() == 1,
            r.spec_value() == 0,
    {
        VarSizeInt(VarSizeIntState::SingleByte(0))
    }
}

/// The variable byte integer that `From<u8>` builds.
pub open(crate) spec fn spec_var_size_int_from_u8(val: u8) -> VarSizeInt {
    if val <= 127 {
        var_size_int_of(1, val as int)
    } else {
        var_size_int_of(2, val as int)
    }
}

/// The variable byte integer that `From<u16>` builds.
pub open(crate) spec fn spec_var_size_int_from_u16(val: u16) -> VarSizeInt {
    if val <= 127 {
        var_size_int_of(1, val as int)
    } else if val <= 16383 {
        var_size_int_of(2, val as int)
    } else {
        var_size_int_of(3, val as int)
    }
}

impl From<u8> for VarSizeInt {
    fn from(val: u8) -> (r: Self) {
        if val <= 127 {
            Self(VarSizeIntState::SingleByte(val))
        } else {
            Self(VarSizeIntState::TwoByte(val as u16))
        }
    }
}

impl vstd::std_specs::convert::FromSpecImpl<u8> for VarSizeInt {
    open spec fn obeys_from_spec() -> bool {
        true
    }

    open spec fn from_spec(val: u8) -> Self {
        spec_var_size_int_from_u8(val)
    }
}

impl From<u16> for VarSizeInt {
    fn from(val: u16) -> (r: Self) {
        if val <= 127 {
            return Self(VarSizeIntState::SingleByte(val as u8));
        } else if 128 <= val && val <= 16383 {
            return Self(VarSizeIntState::TwoByte(val));
        }
        Self(VarSizeIntState::ThreeByte(val as u32))
    }
}

impl vstd::std_specs::convert::FromSpecImpl<u16> for VarSizeInt {
    open spec fn obeys_from_spec() -> bool {
        true
    }

    open spec fn from_spec(val: u16) -> Self {
        spec_var_size_int_from_u16(val)
    }
}

impl TryFrom<u32> for VarSizeInt {
    type Error = ConversionError;

    fn try_from(val: u32) -> (r: Result<Self, Self::Error>) {
        if val <= 127 {
            Ok(Self(VarSizeIntState::SingleByte(val as u8)))
        } else if 128 <= val && val <= 16383 {
            Ok(Self(VarSizeIntState::TwoByte(val as u16)))
        } else if 16384 <= val && val <= 2097151 {
            Ok(Self(VarSizeIntState::ThreeByte(val)))
        } else if val as usize <= Self::MAX {
            Ok(Self(VarSizeIntState::FourByte(val)))
        } else {
            Err(ConversionError::ValueExceedesMaximum(ValueExceedesMaximum))
        }
    }
}

impl vstd::std_specs::convert::TryFromSpecImpl<u32> for VarSizeInt {
    open spec fn obeys_try_from_spec() -> bool {
        true
    }

    open spec fn try_from_spec(val: u32) -> Result<Self, ConversionError> {
        spec_var_size_int_from(val as nat)
    }
}

impl TryFrom<usize> for VarSizeInt {
    type Error = ConversionError;

    fn try_from(val: usize) -> (r: Result<Self, Self::Error>) {
        if val <= 127 {
            Ok(Self(VarSizeIntState::SingleByte(val as u8)))
        } else if 128 <= val && val <= 16383 {
            Ok(Self(VarSizeIntState::TwoByte(val as u16)))
        } else if 16384 <= val && val <= 2097151 {
            Ok(Self(VarSizeIntState::ThreeByte(val as u32)))
        } else if val <= Self::MAX {
            Ok(Self(VarSizeIntState::FourByte(val as u32)))
        } else {
            Err(ConversionError::ValueExceedesMaximum(ValueExceedesMaximum))
        }
    }
}

impl vstd::std_specs::convert::TryFromSpecImpl<usize> for VarSizeInt {
    open spec fn obeys_try_from_spec() -> bool {
        true
    }

    open spec fn try_from_spec(val: usize) -> Result<Self, ConversionError> {
        spec_var_size_int_from(val as nat)
    }
}

/// The shortest encoding of a value, as `TryFrom<usize>` builds it.
pub fn var_size_int_from_usize(val: usize) -> (r: VarSizeInt)
    requires
        val <= VarSizeInt::MAX,
    ensures
        Ok::<VarSizeInt, ConversionError>(r) == spec_var_size_int_from(val as nat),
        r.spec_value() == val,
        r.spec_encode().len() == r.spec_len(),
        r.wf(),
{
    let r = VarSizeInt::try_from(val);
    match r {
        Ok(v) => {
            proof {
                use_type_invariant(&v);
            }
            v
        },
        Err(_) => {
            assert(false);
            VarSizeInt::default()
        },
    }
}

/// The value of a variable byte integer as `u8`, when its encoding is at
/// most two bytes and the value fits.
pub open(crate) spec fn spec_u8_from_var_size_int(val: VarSizeInt) -> Result<u8, ConversionError> {
    match val.0 {
        VarSizeIntState::SingleByte(v) => Ok(v),
        VarSizeIntState::TwoByte(v) => if v > 0xff {
            Err(ConversionError::ValueExceedesMaximum(ValueExceedesMaximum))
        } else {
            Ok(v as u8)
        },
        _ => Err(ConversionError::ValueExceedesMaximum(ValueExceedesMaximum)),
    }
}

impl TryFrom<VarSizeInt> for u8 {
    type Error = ConversionError;

    fn try_from(val: VarSizeInt) -> (r: Result<Self, Self::Error>) {
        match val.0 {
            VarSizeIntState::SingleByte(val) => Ok(val),
            VarSizeIntState::TwoByte(val) => {
                if val > 0xff {
                    Err(ConversionError::ValueExceedesMaximum(ValueExceedesMaximum))
                } else {
                    Ok(val as u8)
                }
            },
            _ => Err(ConversionError::ValueExceedesMaximum(ValueExceedesMaximum)),
        }
    }
}

impl vstd::std_specs::convert::TryFromSpecImpl<VarSizeInt> for u8 {
    open spec fn obeys_try_from_spec() -> bool {
        true
    }

    open spec fn try_from_spec(val: VarSizeInt) -> Result<Self, ConversionError> {
        spec_u8_from_var_size_int(val)
    }
}

/// The value of a variable byte integer as `u16`, when its encoding is at
/// most three bytes and the value fits.
pub open(crate) spec fn spec_u16_from_var_size_int(val: VarSizeInt) -> Result<u16, ConversionError> {
    match val.0 {
        VarSizeIntState::SingleByte(v) => Ok(v as u16),
        VarSizeIntState::TwoByte(v) => Ok(v),
        VarSizeIntState::ThreeByte(v) => if v > 0xffff {
            Err(ConversionError::ValueExceedesMaximum(ValueExceedesMaximum))
        } else {
            Ok(v as u16)
        },
        _ => Err(ConversionError::ValueExceedesMaximum(ValueExceedesMaximum)),
    }
}

impl TryFrom<VarSizeInt> for u16 {
    type Error = ConversionError;

    fn try_from(val: VarSizeInt) -> (r: Result<Self, Self::Error>) {
        match val.0 {
            VarSizeIntState::SingleByte(val) => Ok(val as u16),
            VarSizeIntState::TwoByte(val) => Ok(val),
            VarSizeIntState::ThreeByte(val) => {
                if val > 0xffff {
                    Err(ConversionError::ValueExceedesMaximum(ValueExceedesMaximum))
                } else {
                    Ok(val as u16)
                }
            },
            _ => Err(ConversionError::ValueExceedesMaximum(ValueExceedesMaximum)),
        }
    }
}

impl vstd::std_specs::convert::TryFromSpecImpl<VarSizeInt> for u16 {
    open spec fn obeys_try_from_spec() -> bool {
        true
    }

    open spec fn try_from_spec(val: VarSizeInt) -> Result<Self, ConversionError> {
        spec_u16_from_var_size_int(val)
    }
}

impl From<VarSizeInt> for u32 {
    fn from(val: VarSizeInt) -> (r: Self) {
        val.value()
    }
}

impl vstd::std_specs::convert::FromSpecImpl<VarSizeInt> for u32 {
    open spec fn obeys_from_spec() -> bool {
        true
    }

    open spec fn from_spec(val: VarSizeInt) -> Self {
        val.spec_value() as u32
    }
}

impl From<VarSizeInt> for usize {
    fn from(val: VarSizeInt) -> (r: Self) {
        val.value() as usize
    }
}

impl vstd::std_specs::convert::FromSpecImpl<VarSizeInt> for usize {
    open spec fn obeys_from_spec() -> bool {
        true
    }

    open spec fn from_spec(val: VarSizeInt) -> Self {
        val.spec_value() as usize
    }
}

} // verus!

verus! {

/// Number of bytes that a value of a fixed-size wire type takes.
pub trait ByteLen {
    /// Number of bytes that the value takes on the wire.
    spec fn spec_byte_len(&self) -> nat;

    /// Number of bytes that the value takes on the wire.
    fn byte_len(&self) -> (r: usize)
        ensures
            r == self.spec_byte_len(),
    ;
}

impl ByteLen for u8 {
    open spec fn spec_byte_len(&self) -> nat {
        1
    }

    fn byte_len(&self) -> (r: usize) {
        1
    }
}

impl ByteLen for u16 {
    open spec fn spec_byte_len(&self) -> nat {
        2
    }

    fn byte_len(&self) -> (r: usize) {
        2
    }
}

impl ByteLen for u32 {
    open spec fn spec_byte_len(&self) -> nat {
        4
    }

    fn byte_len(&self) -> (r: usize) {
        4
    }
}

/// Integer that is never zero. Values are built by `try_from`, which
/// refuses zero.
#[derive(Clone, Copy, Debug, PartialEq, Eq)]
pub struct NonZero<T: Copy>(pub(crate) T);

impl<T: Copy> NonZero<T> {
    /// The held value.
    pub open(crate) spec fn spec_get(self) -> T {
        self.0
    }

    /// The held value.
    pub fn get(&self) -> (r: T)
        ensures
            r == self.spec_get(),
    {
        self.0
    }
}

/// `NonZero` of a value: refused for zero.
pub open(crate) spec fn spec_non_zero_u8(val: u8) -> Result<NonZero<u8>, ConversionError> {
    if val == 0 {
        Err(ConversionError::ValueIsZero(ValueIsZero))
    } else {
        Ok(NonZero(val))
    }
}

/// `NonZero` of a value: refused for zero.
pub open(crate) spec fn spec_non_zero_u16(val: u16) -> Result<NonZero<u16>, ConversionError> {
    if val == 0 {
        Err(ConversionError::ValueIsZero(ValueIsZero))
    } else {
        Ok(NonZero(val))
    }
}

/// `NonZero` of a value: refused for zero.
pub open(crate) spec fn spec_non_zero_u32(val: u32) -> Result<NonZero<u32>, ConversionError> {
    if val == 0 {
        Err(ConversionError::ValueIsZero(ValueIsZero))
    } else {
        Ok(NonZero(val))
    }
}

/// `NonZero` of a variable byte integer: refused when its value is zero.
pub open(crate) spec fn spec_non_zero_var_size_int(val: VarSizeInt) -> Result<NonZero<VarSizeInt>, ConversionError> {
    if val.spec_value() == 0 {
        Err(ConversionError::ValueIsZero(ValueIsZero))
    } else {
        Ok(NonZero(val))
    }
}

impl TryFrom<u8> for NonZero<u8> {
    type Error = ConversionError;

    fn try_from(val: u8) -> (r: Result<Self, Self::Error>) {
        if val == 0 {
            return Err(ConversionError::ValueIsZero(ValueIsZero));
        }
        Ok(Self(val))
    }
}

impl vstd::std_specs::convert::TryFromSpecImpl<u8> for NonZero<u8> {
    open spec fn obeys_try_from_spec() -> bool {
        true
    }

    open spec fn try_from_spec(val: u8) -> Result<Self, ConversionError> {
        spec_non_zero_u8(val)
    }
}

impl TryFrom<u16> for NonZero<u16> {
    type Error = ConversionError;

    fn try_from(val: u16) -> (r: Result<Self, Self::Error>) {
        if val == 0 {
            return Err(ConversionError::ValueIsZero(ValueIsZero));
        }
        Ok(Self(val))
    }
}

impl vstd::std_specs::convert::TryFromSpecImpl<u16> for NonZero<u16> {
    open spec fn obeys_try_from_spec() -> bool {
        true
    }

    open spec fn try_from_spec(val: u16) -> Result<Self, ConversionError> {
        spec_non_zero_u16(val)
    }
}

impl TryFrom<u32> for NonZero<u32> {
    type Error = ConversionError;

    fn try_from(val: u32) -> (r: Result<Self, Self::Error>) {
        if val == 0 {
            return Err(ConversionError::ValueIsZero(ValueIsZero));
        }
        Ok(Self(val))
    }
}

impl vstd::std_specs::convert::TryFromSpecImpl<u32> for NonZero<u32> {
    open spec fn obeys_try_from_spec() -> bool {
        true
    }

    open spec fn try_from_spec(val: u32) -> Result<Self, ConversionError> {
        spec_non_zero_u32(val)
    }
}

impl TryFrom<VarSizeInt> for NonZero<VarSizeInt> {
    type Error = ConversionError;

    fn try_from(val: VarSizeInt) -> (r: Result<Self, Self::Error>) {
        if val.value() == 0 {
            return Err(ConversionError::ValueIsZero(ValueIsZero));
        }
        Ok(Self(val))
    }
}

impl vstd::std_specs::convert::TryFromSpecImpl<VarSizeInt> for NonZero<VarSizeInt> {
    open spec fn obeys_try_from_spec() -> bool {
        true
    }

    open spec fn try_from_spec(val: VarSizeInt) -> Result<Self, ConversionError> {
        spec_non_zero_var_size_int(val)
    }
}

/// Enum representing Quality Of Service
#[derive(Copy, Clone, PartialEq, Eq, Debug, Structural)]
pub enum QoS {
    /// At most once QoS
    AtMostOnce,
    /// At least once QoS
    AtLeastOnce,
    /// Exactly once QoS
    ExactlyOnce,
}

/// The number of a quality of service level on the wire.
pub open spec fn spec_qos_byte(q: QoS) -> u8 {
    match q {
        QoS::AtMostOnce => 0,
        QoS::AtLeastOnce => 1,
        QoS::ExactlyOnce => 2,
    }
}

/// The quality of service level with the given number, if there is one.
pub open spec fn spec_qos_from_byte(val: u8) -> Result<QoS, ConversionError> {
    if val == 0 {
        Ok(QoS::AtMostOnce)
    } else if val == 1 {
        Ok(QoS::AtLeastOnce)
    } else if val == 2 {
        Ok(QoS::ExactlyOnce)
    } else {
        Err(ConversionError::InvalidValue(InvalidValue))
    }
}

/// The QoS levels are numbered 0, 1 and 2 on the wire, and any other byte
/// is an invalid value.
pub proof fn lemma_qos_codes()
    ensures
        spec_qos_byte(QoS::AtMostOnce) == 0u8,
        spec_qos_byte(QoS::AtLeastOnce) == 1u8,
        spec_qos_byte(QoS::ExactlyOnce) == 2u8,
        forall|b: u8| (#[trigger] spec_qos_from_byte(b)) is Ok <==> b <= 2,
        forall|b: u8| (#[trigger] spec_qos_from_byte(b)) matches Ok(q) ==> spec_qos_byte(q) == b,
        forall|b: u8|
            (#[trigger] spec_qos_from_byte(b)) is Err ==> spec_qos_from_byte(b) == Err::<QoS, ConversionError>(
                ConversionError::InvalidValue(InvalidValue),
            ),
{
}

impl TryFrom<u8> for QoS {
    type Error = ConversionError;

    fn try_from(val: u8) -> (r: Result<Self, Self::Error>) {
        match val {
            0 => Ok(QoS::AtMostOnce),
            1 => Ok(QoS::AtLeastOnce),
            2 => Ok(QoS::ExactlyOnce),
            _ => Err(ConversionError::InvalidValue(InvalidValue)),
        }
    }
}

impl vstd::std_specs::convert::TryFromSpecImpl<u8> for QoS {
    open spec fn obeys_try_from_spec() -> bool {
        true
    }

    open spec fn try_from_spec(val: u8) -> Result<Self, ConversionError> {
        spec_qos_from_byte(val)
    }
}

impl From<QoS> for u8 {
    fn from(val: QoS) -> (r: u8) {
        match val {
            QoS::AtMostOnce => 0,
            QoS::AtLeastOnce => 1,
            QoS::ExactlyOnce => 2,
        }
    }
}

impl vstd::std_specs::convert::FromSpecImpl<QoS> for u8 {
    open spec fn obeys_from_spec() -> bool {
        true
    }

    open spec fn from_spec(val: QoS) -> u8 {
        spec_qos_byte(val)
    }
}

impl Default for QoS {
    fn default() -> (r: Self)
        ensures
            r == QoS::AtMostOnce,
    {
        QoS::AtMostOnce
    }
}

/// The encoding of text or binary data: its length as two byte integer,
/// then its bytes. A length beyond `u16::MAX` is cut to its low 16 bits, as
/// the encoders write it.
pub open spec fn spec_length_prefixed(data: Seq<u8>) -> Seq<u8> {
    spec_u16_be(data.len() as u16) + data
}

/// The encoding of a key-value pair of strings.
pub open spec fn spec_pair_encoding(key: Seq<u8>, val: Seq<u8>) -> Seq<u8> {
    spec_length_prefixed(key) + spec_length_prefixed(val)
}

/// Binary data read from a packet: a two byte length, then the data.
#[derive(Debug)]
pub struct Binary(pub Bytes);

impl View for Binary {
    type V = Seq<u8>;

    open spec fn view(&self) -> Seq<u8> {
        bytes_view(self.0)
    }
}

impl Binary {
    /// Size of the encoding: the data and its two byte length.
    pub fn byte_len(&self) -> (r: usize)
        requires
            self@.len() + 2 <= usize::MAX,
        ensures
            r == self@.len() + 2,
            r == spec_length_prefixed(self@).len(),
    {
        bytes_as_slice(&self.0).len() + 2
    }

    /// Appends the length and the data to `buf`.
    pub fn encode(&self, buf: &mut BytesMut)
        requires
            bytes_mut_view(*old(buf)).len() + 2 + self@.len() <= isize::MAX,
        ensures
            bytes_mut_view(*final(buf)) == bytes_mut_view(*old(buf)) + spec_length_prefixed(self@),
    {
        let data = bytes_as_slice(&self.0);
        put_u16(buf, data.len() as u16);
        put_slice(buf, data);
        assert(bytes_mut_view(*buf) =~= bytes_mut_view(*old(buf)) + spec_length_prefixed(self@));
    }
}

impl Clone for Binary {
    fn clone(&self) -> (r: Self)
        ensures
            r@ == self@,
    {
        Binary(bytes_clone(&self.0))
    }
}

/// Binary data to be written into a packet.
#[derive(Clone, Copy, Debug)]
pub struct BinaryRef<'a>(pub &'a [u8]);

impl<'a> BinaryRef<'a> {
    /// Size of the encoding: the data and its two byte length.
    pub fn byte_len(&self) -> (r: usize)
        requires
            self.0@.len() + 2 <= usize::MAX,
        ensures
            r == self.0@.len() + 2,
            r == spec_length_prefixed(self.0@).len(),
    {
        2 + self.0.len()
    }

    /// Appends the length and the data to `buf`.
    pub fn encode(&self, buf: &mut BytesMut)
        requires
            bytes_mut_view(*old(buf)).len() + 2 + self.0@.len() <= isize::MAX,
        ensures
            bytes_mut_view(*final(buf)) == bytes_mut_view(*old(buf)) + spec_length_prefixed(self.0@),
    {
        put_u16(buf, self.0.len() as u16);
        put_slice(buf, self.0);
        assert(bytes_mut_view(*buf) =~= bytes_mut_view(*old(buf)) + spec_length_prefixed(self.0@));
    }
}

/// Application data that fills the rest of a packet, without length.
#[derive(Debug)]
pub struct Payload(pub Bytes);

impl View for Payload {
    type V = Seq<u8>;

    open spec fn view(&self) -> Seq<u8> {
        bytes_view(self.0)
    }
}

impl Payload {
    /// Size of the encoding: the data alone.
    pub fn byte_len(&self) -> (r: usize)
        ensures
            r == self@.len(),
    {
        bytes_as_slice(&self.0).len()
    }

    /// Appends the data to `buf`.
    pub fn encode(&self, buf: &mut BytesMut)
        requires
            bytes_mut_view(*old(buf)).len() + self@.len() <= isize::MAX,
        ensures
            bytes_mut_view(*final(buf)) == bytes_mut_view(*old(buf)) + self@,
    {
        put_slice(buf, bytes_as_slice(&self.0));
    }
}

impl Clone for Payload {
    fn clone(&self) -> (r: Self)
        ensures
            r@ == self@,
    {
        Payload(bytes_clone(&self.0))
    }
}

/// Application data to be written into a packet.
#[derive(Clone, Copy, Debug)]
pub struct PayloadRef<'a>(pub &'a [u8]);

impl<'a> PayloadRef<'a> {
    /// Size of the encoding: the data alone.
    pub fn byte_len(&self) -> (r: usize)
        ensures
            r == self.0@.len(),
    {
        self.0.len()
    }

    /// Appends the data to `buf`.
    pub fn encode(&self, buf: &mut BytesMut)
        requires
            bytes_mut_view(*old(buf)).len() + self.0@.len() <= isize::MAX,
        ensures
            bytes_mut_view(*final(buf)) == bytes_mut_view(*old(buf)) + self.0@,
    {
        put_slice(buf, self.0);
    }
}

/// UTF-8 text read from a packet: a two byte length, then the text.
#[derive(Debug)]
pub struct UTF8String(pub(crate) Bytes);

impl UTF8String {
    /// The held bytes are valid UTF-8.
    #[verifier::type_invariant]
    pub closed spec fn wf(self) -> bool {
        valid_utf8(bytes_view(self.0))
    }

    /// The bytes of the text.
    pub open(crate) spec fn spec_bytes(&self) -> Seq<u8> {
        bytes_view(self.0)
    }

    /// Text from bytes that were checked to be valid UTF-8.
    pub(crate) fn from_checked(b: Bytes) -> (r: UTF8String)
        requires
            valid_utf8(bytes_view(b)),
        ensures
            r@ == bytes_view(b),
    {
        UTF8String(b)
    }

    /// Size of the encoding: the text and its two byte length.
    pub fn byte_len(&self) -> (r: usize)
        requires
            self@.len() + 2 <= usize::MAX,
        ensures
            r == self@.len() + 2,
            r == spec_length_prefixed(self@).len(),
    {
        bytes_as_slice(&self.0).len() + 2
    }

    /// Appends the length and the text to `buf`.
    pub fn encode(&self, buf: &mut BytesMut)
        requires
            bytes_mut_view(*old(buf)).len() + 2 + self@.len() <= isize::MAX,
        ensures
            bytes_mut_view(*final(buf)) == bytes_mut_view(*old(buf)) + spec_length_prefixed(self@),
    {
        let data = bytes_as_slice(&self.0);
        put_u16(buf, data.len() as u16);
        put_slice(buf, data);
        assert(bytes_mut_view(*buf) =~= bytes_mut_view(*old(buf)) + spec_length_prefixed(self@));
    }

    /// The text as a string slice.
    pub fn as_str(&self) -> (r: &str)
        ensures
            r.spec_bytes() == self@,
    {
        proof {
            use_type_invariant(self);
        }
        match str_from_utf8(bytes_as_slice(&self.0)) {
            Ok(s) => s,
            Err(_) => {
                assert(false);
                ""
            },
        }
    }
}

impl View for UTF8String {
    type V = Seq<u8>;

    open spec fn view(&self) -> Seq<u8> {
        self.spec_bytes()
    }
}

impl Clone for UTF8String {
    fn clone(&self) -> (r: Self)
        ensures
            r@ == self@,
    {
        proof {
            use_type_invariant(self);
        }
        UTF8String(bytes_clone(&self.0))
    }
}

/// UTF-8 text to be written into a packet.
#[derive(Clone, Copy, Debug, Default)]
pub struct UTF8StringRef<'a>(pub &'a str);

impl<'a> UTF8StringRef<'a> {
    /// Size of the encoding: the text and its two byte length.
    pub fn byte_len(&self) -> (r: usize)
        requires
            self.0.spec_bytes().len() + 2 <= usize::MAX,
        ensures
            r == self.0.spec_bytes().len() + 2,
            r == spec_length_prefixed(self.0.spec_bytes()).len(),
    {
        self.0.len() + 2
    }

    /// Appends the length and the text to `buf`.
    pub fn encode(&self, buf: &mut BytesMut)
        requires
            bytes_mut_view(*old(buf)).len() + 2 + self.0.spec_bytes().len() <= isize::MAX,
        ensures
            bytes_mut_view(*final(buf)) == bytes_mut_view(*old(buf)) + spec_length_prefixed(self.0.spec_bytes()),
    {
        let data = self.0.as_bytes();
        put_u16(buf, data.len() as u16);
        put_slice(buf, data);
        assert(bytes_mut_view(*buf) =~= bytes_mut_view(*old(buf)) + spec_length_prefixed(self.0.spec_bytes()));
    }
}

/// Key-value pair of UTF-8 strings read from a packet.
#[derive(Debug)]
pub struct UTF8StringPair(pub(crate) Bytes, pub(crate) Bytes);

impl UTF8StringPair {
    /// Key and value are valid UTF-8.
    #[verifier::type_invariant]
    pub closed spec fn wf(self) -> bool {
        valid_utf8(bytes_view(self.0)) && valid_utf8(bytes_view(self.1))
    }

    /// The bytes of key and value.
    pub open(crate) spec fn spec_pair(&self) -> (Seq<u8>, Seq<u8>) {
        (bytes_view(self.0), bytes_view(self.1))
    }

    /// Pair from bytes that were checked to be valid UTF-8.
    pub(crate) fn from_checked(key: Bytes, val: Bytes) -> (r: UTF8StringPair)
        requires
            valid_utf8(bytes_view(key)),
            valid_utf8(bytes_view(val)),
        ensures
            r@ == (bytes_view(key), bytes_view(val)),
    {
        UTF8StringPair(key, val)
    }

    /// Size of the encoding: both strings with their lengths.
    pub fn byte_len(&self) -> (r: usize)
        requires
            self@.0.len() + self@.1.len() + 4 <= usize::MAX,
        ensures
            r == self@.0.len() + self@.1.len() + 4,
            r == spec_pair_encoding(self@.0, self@.1).len(),
    {
        4 + bytes_as_slice(&self.0).len() + bytes_as_slice(&self.1).len()
    }

    /// Appends key and value, each with its length, to `buf`.
    pub fn encode(&self, buf: &mut BytesMut)
        requires
            bytes_mut_view(*old(buf)).len() + 4 + self@.0.len() + self@.1.len() <= isize::MAX,
        ensures
            bytes_mut_view(*final(buf)) == bytes_mut_view(*old(buf)) + spec_pair_encoding(self@.0, self@.1),
    {
        let key = bytes_as_slice(&self.0);
        put_u16(buf, key.len() as u16);
        put_slice(buf, key);
        let val = bytes_as_slice(&self.1);
        put_u16(buf, val.len() as u16);
        put_slice(buf, val);
        assert(bytes_mut_view(*buf) =~= bytes_mut_view(*old(buf)) + spec_pair_encoding(self@.0, self@.1));
    }

    /// The key as a string slice.
    pub fn key_str(&self) -> (r: &str)
        ensures
            r.spec_bytes() == self@.0,
    {
        proof {
            use_type_invariant(self);
        }
        match str_from_utf8(bytes_as_slice(&self.0)) {
            Ok(s) => s,
            Err(_) => {
                assert(false);
                ""
            },
        }
    }

    /// The value as a string slice.
    pub fn val_str(&self) -> (r: &str)
        ensures
            r.spec_bytes() == self@.1,
    {
        proof {
            use_type_invariant(self);
        }
        match str_from_utf8(bytes_as_slice(&self.1)) {
            Ok(s) => s,
            Err(_) => {
                assert(false);
                ""
            },
        }
    }
}

impl View for UTF8StringPair {
    type V = (Seq<u8>, Seq<u8>);

    open spec fn view(&self) -> (Seq<u8>, Seq<u8>) {
        self.spec_pair()
    }
}

impl Clone for UTF8StringPair {
    fn clone(&self) -> (r: Self)
        ensures
            r@ == self@,
    {
        proof {
            use_type_invariant(self);
        }
        UTF8StringPair(bytes_clone(&self.0), bytes_clone(&self.1))
    }
}

/// Key-value pair of strings to be written into a packet.
#[derive(Clone, Copy, Debug)]
pub struct UTF8StringPairRef<'a>(pub &'a str, pub &'a str);

impl<'a> UTF8StringPairRef<'a> {
    /// Size of the encoding: both strings with their lengths.
    pub fn byte_len(&self) -> (r: usize)
        requires
            self.0.spec_bytes().len() + self.1.spec_bytes().len() + 4 <= usize::MAX,
        ensures
            r == self.0.spec_bytes().len() + self.1.spec_bytes().len() + 4,
            r == spec_pair_encoding(self.0.spec_bytes(), self.1.spec_bytes()).len(),
    {
        4 + self.0.len() + self.1.len()
    }

    /// Appends key and value, each with its length, to `buf`.
    pub fn encode(&self, buf: &mut BytesMut)
        requires
            bytes_mut_view(*old(buf)).len() + 4 + self.0.spec_bytes().len() + self.1.spec_bytes().len()
                <= isize::MAX,
        ensures
            bytes_mut_view(*final(buf)) == bytes_mut_view(*old(buf)) + spec_pair_encoding(
                self.0.spec_bytes(),
                self.1.spec_bytes(),
            ),
    {
        let key = self.0.as_bytes();
        put_u16(buf, key.len() as u16);
        put_slice(buf, key);
        let val = self.1.as_bytes();
        put_u16(buf, val.len() as u16);
        put_slice(buf, val);
        assert(bytes_mut_view(*buf) =~= bytes_mut_view(*old(buf)) + spec_pair_encoding(
            self.0.spec_bytes(),
            self.1.spec_bytes(),
        ));
    }
}

} // verus!
