//! Contracts for the byte buffers of the `bytes` crate.
//!
//! [`Bytes`] and [`BytesMut`] are opaque to the verifier. Each is modelled by
//! the sequence of bytes that it holds: [`octets`] for a shared buffer,
//! [`buffered`] for a growable one. Everything the library does with a buffer
//! goes through the items of this module.
//!
//! A growable buffer never holds more than `isize::MAX` bytes, so an operation
//! that appends asks for that much room. Memory exhaustion is outside the
//! model, as it is for the collections of `std`.

use bytes::{Buf, BufMut, Bytes, BytesMut};
use vstd::prelude::*;

verus! {

/// `bytes::Bytes`, a cheaply cloneable slice of shared memory.
#[verifier::external_type_specification]
#[verifier::external_body]
pub struct ExBytes(Bytes);

/// `bytes::BytesMut`, a growable buffer.
#[verifier::external_type_specification]
#[verifier::external_body]
pub struct ExBytesMut(BytesMut);

/// The bytes that a shared buffer gives access to.
pub uninterp spec fn octets(b: Bytes) -> Seq<u8>;

/// The bytes that a growable buffer holds.
pub uninterp spec fn buffered(b: BytesMut) -> Seq<u8>;

/// `BytesMut::new` makes a buffer that holds nothing.
pub assume_specification[ BytesMut::new ]() -> (b: BytesMut)
    ensures
        buffered(b) == Seq::<u8>::empty(),
;

/// `BytesMut::len` counts the bytes held.
pub assume_specification[ BytesMut::len ](b: &BytesMut) -> (n: usize)
    ensures
        n == buffered(*b).len(),
;

/// `BytesMut::truncate` keeps the first `len` bytes, and does nothing to a
/// buffer that is no longer than that.
pub assume_specification[ BytesMut::truncate ](b: &mut BytesMut, len: usize)
    ensures
        buffered(*final(b)) == if len <= buffered(*old(b)).len() {
            buffered(*old(b)).take(len as int)
        } else {
            buffered(*old(b))
        },
;

/// `BytesMut::clear` drops every byte held.
pub assume_specification[ BytesMut::clear ](b: &mut BytesMut)
    ensures
        buffered(*final(b)) == Seq::<u8>::empty(),
;

/// `BytesMut::split` hands over every byte held, and leaves none.
pub assume_specification[ BytesMut::split ](b: &mut BytesMut) -> (r: BytesMut)
    ensures
        buffered(r) == buffered(*old(b)),
        buffered(*final(b)) == Seq::<u8>::empty(),
;

/// `Buf::advance` on a `BytesMut` drops bytes off the front. It panics where
/// there are fewer than that.
#[verifier::external_body]
pub(crate) fn advance_held(b: &mut BytesMut, cnt: usize)
    requires
        cnt <= buffered(*old(b)).len(),
    ensures
        buffered(*final(b)) == buffered(*old(b)).skip(cnt as int),
{
    b.advance(cnt)
}

/// `BytesMut::deref` gives the bytes held as a slice.
#[verifier::external_body]
pub(crate) fn held_slice(b: &BytesMut) -> (s: &[u8])
    ensures
        s@ == buffered(*b),
{
    b
}

/// `BytesMut::freeze` hands over the same bytes as a shared buffer.
pub assume_specification[ BytesMut::freeze ](b: BytesMut) -> (r: Bytes)
    ensures
        octets(r) == buffered(b),
;

/// `BufMut::put_u8` on a `BytesMut` appends one byte.
#[verifier::external_body]
pub(crate) fn put_u8(b: &mut BytesMut, n: u8)
    requires
        buffered(*old(b)).len() + 1 <= isize::MAX,
    ensures
        buffered(*final(b)) == buffered(*old(b)).push(n),
{
    b.put_u8(n)
}

/// `BufMut::put_u16` on a `BytesMut` appends two bytes, the high one first.
#[verifier::external_body]
pub(crate) fn put_u16(b: &mut BytesMut, n: u16)
    requires
        buffered(*old(b)).len() + 2 <= isize::MAX,
    ensures
        buffered(*final(b)) == buffered(*old(b)).push((n / 256) as u8).push((n % 256) as u8),
{
    b.put_u16(n)
}

/// `BufMut::put_u16_le` on a `BytesMut` appends two bytes, the low one first.
#[verifier::external_body]
pub(crate) fn put_u16_le(b: &mut BytesMut, n: u16)
    requires
        buffered(*old(b)).len() + 2 <= isize::MAX,
    ensures
        buffered(*final(b)) == buffered(*old(b)).push((n % 256) as u8).push((n / 256) as u8),
{
    b.put_u16_le(n)
}

/// `BytesMut::extend_from_slice` appends a slice.
pub assume_specification[ BytesMut::extend_from_slice ](b: &mut BytesMut, extend: &[u8])
    requires
        buffered(*old(b)).len() + extend@.len() <= isize::MAX,
    ensures
        buffered(*final(b)) == buffered(*old(b)) + extend@,
;

/// `Bytes::len` counts the bytes of a shared buffer.
pub assume_specification[ Bytes::len ](b: &Bytes) -> (n: usize)
    ensures
        n == octets(*b).len(),
;

/// `Bytes::is_empty` says whether a shared buffer has no bytes.
pub assume_specification[ Bytes::is_empty ](b: &Bytes) -> (r: bool)
    ensures
        r == (octets(*b).len() == 0),
;

/// `Bytes::copy_from_slice` makes a shared buffer with a copy of the slice.
pub assume_specification[ Bytes::copy_from_slice ](data: &[u8]) -> (b: Bytes)
    ensures
        octets(b) == data@,
;

/// `Bytes::clone` gives access to the same bytes.
pub assume_specification[ <Bytes as Clone>::clone ](b: &Bytes) -> (r: Bytes)
    ensures
        octets(r) == octets(*b),
;

/// `Bytes::slice` gives access to a part of the same bytes. It panics on a range
/// that is not within them.
#[verifier::external_body]
pub(crate) fn slice(b: &Bytes, begin: usize, end: usize) -> (r: Bytes)
    requires
        begin <= end <= octets(*b).len(),
    ensures
        octets(r) == octets(*b).subrange(begin as int, end as int),
{
    b.slice(begin..end)
}

/// `Buf::advance` on a `Bytes` drops bytes off the front. It panics where there
/// are fewer than that.
#[verifier::external_body]
pub(crate) fn advance(b: &mut Bytes, cnt: usize)
    requires
        cnt <= octets(*old(b)).len(),
    ensures
        octets(*final(b)) == octets(*old(b)).skip(cnt as int),
{
    b.advance(cnt)
}

/// `Bytes::deref` gives the bytes of a shared buffer as a slice.
#[verifier::external_body]
pub(crate) fn as_slice(b: &Bytes) -> (s: &[u8])
    ensures
        s@ == octets(*b),
{
    b
}

/// `Buf::get_u8` on a `Bytes` takes one byte off the front. It panics on an
/// empty buffer.
#[verifier::external_body]
pub(crate) fn get_u8(b: &mut Bytes) -> (n: u8)
    requires
        octets(*old(b)).len() >= 1,
    ensures
        n == octets(*old(b))[0],
        octets(*final(b)) == octets(*old(b)).skip(1),
{
    b.get_u8()
}

/// `Buf::get_u16` on a `Bytes` takes two bytes off the front and reads them
/// with the high byte first. It panics on a buffer with fewer than two bytes.
#[verifier::external_body]
pub(crate) fn get_u16(b: &mut Bytes) -> (n: u16)
    requires
        octets(*old(b)).len() >= 2,
    ensures
        n == octets(*old(b))[0] * 256 + octets(*old(b))[1],
        octets(*final(b)) == octets(*old(b)).skip(2),
{
    b.get_u16()
}

} // verus!
