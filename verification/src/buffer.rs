//! Byte buffers of the `bytes` crate and the UTF-8 check of `std`, as the
//! codec uses them. Each item here is trusted: its contract restates what
//! the documentation and source of the called function show.
use bytes::{BufMut, Bytes, BytesMut};
use vstd::prelude::*;
use vstd::string::StringSliceAdditionalSpecFns;
use vstd::utf8::valid_utf8;

verus! {

/// Immutable, cheaply cloneable byte buffer of the `bytes` crate.
#[verifier::external_type_specification]
#[verifier::external_body]
pub struct ExBytes(Bytes);

/// Growable byte buffer of the `bytes` crate.
#[verifier::external_type_specification]
#[verifier::external_body]
pub struct ExBytesMut(BytesMut);

/// Error of `std::str::from_utf8`.
#[verifier::external_type_specification]
#[verifier::external_body]
pub struct ExUtf8Error(core::str::Utf8Error);

/// The bytes that a `Bytes` handle refers to, in order.
pub uninterp spec fn bytes_view(b: Bytes) -> Seq<u8>;

/// The bytes written so far into a `BytesMut`, in order.
pub uninterp spec fn bytes_mut_view(b: BytesMut) -> Seq<u8>;

/// `<Bytes as AsRef<[u8]>>::as_ref`: the slice of the bytes the handle refers to.
#[verifier::external_body]
pub fn bytes_as_slice(b: &Bytes) -> (r: &[u8])
    ensures
        r@ == bytes_view(*b),
{
    b.as_ref()
}

/// `Bytes::new`: an empty buffer.
#[verifier::external_body]
pub fn bytes_new() -> (r: Bytes)
    ensures
        bytes_view(r) == Seq::<u8>::empty(),
{
    Bytes::new()
}

/// `Bytes::slice(start..end)`: a handle to the bytes `start..end` of `b`,
/// sharing its memory. The crate panics unless `start <= end <= len`.
#[verifier::external_body]
pub fn bytes_slice(b: &Bytes, start: usize, end: usize) -> (r: Bytes)
    requires
        start <= end <= bytes_view(*b).len(),
    ensures
        bytes_view(r) == bytes_view(*b).subrange(start as int, end as int),
{
    b.slice(start..end)
}

/// `<Bytes as Clone>::clone`: a second handle to the same bytes.
#[verifier::external_body]
pub fn bytes_clone(b: &Bytes) -> (r: Bytes)
    ensures
        bytes_view(r) == bytes_view(*b),
{
    b.clone()
}

/// `BufMut::put_u8` on `BytesMut`: appends one byte. The crate panics when
/// the length would pass `isize::MAX`.
#[verifier::external_body]
pub fn put_u8(buf: &mut BytesMut, n: u8)
    requires
        bytes_mut_view(*old(buf)).len() + 1 <= isize::MAX,
    ensures
        bytes_mut_view(*final(buf)) == bytes_mut_view(*old(buf)).push(n),
{
    buf.put_u8(n)
}

/// `BufMut::put_u16` on `BytesMut`: appends `n` in big-endian byte order.
#[verifier::external_body]
pub fn put_u16(buf: &mut BytesMut, n: u16)
    requires
        bytes_mut_view(*old(buf)).len() + 2 <= isize::MAX,
    ensures
        bytes_mut_view(*final(buf)) == bytes_mut_view(*old(buf)) + seq![(n / 256) as u8, (n % 256) as u8],
{
    buf.put_u16(n)
}

/// `BufMut::put_u32` on `BytesMut`: appends `n` in big-endian byte order.
#[verifier::external_body]
pub fn put_u32(buf: &mut BytesMut, n: u32)
    requires
        bytes_mut_view(*old(buf)).len() + 4 <= isize::MAX,
    ensures
        bytes_mut_view(*final(buf)) == bytes_mut_view(*old(buf)) + seq![
            (n / 0x1000000) as u8,
            ((n / 0x10000) % 256) as u8,
            ((n / 256) % 256) as u8,
            (n % 256) as u8,
        ],
{
    buf.put_u32(n)
}

/// `BufMut::put_slice` on `BytesMut`: appends the bytes of `src`.
#[verifier::external_body]
pub fn put_slice(buf: &mut BytesMut, src: &[u8])
    requires
        bytes_mut_view(*old(buf)).len() + src@.len() <= isize::MAX,
    ensures
        bytes_mut_view(*final(buf)) == bytes_mut_view(*old(buf)) + src@,
{
    buf.put_slice(src)
}

/// `std::str::from_utf8`: succeeds exactly when the bytes are valid UTF-8,
/// and then the string holds those bytes.
#[verifier::external_body]
pub fn str_from_utf8(v: &[u8]) -> (r: Result<&str, core::str::Utf8Error>)
    ensures
        r is Ok <==> valid_utf8(v@),
        r matches Ok(s) ==> s.spec_bytes() == v@,
{
    core::str::from_utf8(v)
}

} // verus!
