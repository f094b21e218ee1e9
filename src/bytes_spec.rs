//! Trusted declarations of the shared byte buffers, the integer formatter and
//! the few std conversions that the verified code calls.

use vstd::prelude::*;
use bytes::{Bytes, BytesMut};
use vstd::string::StringSliceAdditionalSpecFns;
use crate::text::{all_ascii, ascii_chars, decimal, lex_order};

verus! {

#[verifier::external_type_specification]
#[verifier::external_body]
pub struct ExBytes(Bytes);

#[verifier::external_type_specification]
#[verifier::external_body]
pub struct ExBytesMut(BytesMut);

/// The bytes held by an immutable shared buffer.
pub uninterp spec fn shared_contents(b: Bytes) -> Seq<u8>;

/// The bytes written so far into a growable buffer.
pub uninterp spec fn buffer_contents(b: BytesMut) -> Seq<u8>;

/// How many more bytes a growable buffer takes before it has to grow.
pub uninterp spec fn buffer_room(b: BytesMut) -> nat;

/// Relies on `<Bytes as From<&[u8]>>::from`: the new buffer holds a copy of `src`.
#[verifier::external_body]
pub(crate) fn shared_from_slice(src: &[u8]) -> (r: Bytes)
    ensures
        shared_contents(r) == src@,
{
    Bytes::from(src)
}

/// Relies on `<Bytes as Clone>::clone`: a second handle on the same bytes.
pub assume_specification[ <Bytes as Clone>::clone ](b: &Bytes) -> (r: Bytes)
    ensures
        shared_contents(r) == shared_contents(*b),
;

/// Relies on `Bytes::from_static`: the buffer borrows `src` and holds its bytes.
#[verifier::external_body]
pub(crate) fn shared_from_static(src: &'static [u8]) -> (r: Bytes)
    ensures
        shared_contents(r) == src@,
{
    Bytes::from_static(src)
}

/// Relies on `<Bytes as AsRef<[u8]>>::as_ref`: a view of the bytes held.
#[verifier::external_body]
pub(crate) fn shared_as_slice(b: &Bytes) -> (r: &[u8])
    ensures
        r@ == shared_contents(*b),
{
    b.as_ref()
}

/// Relies on `BytesMut::new`: an empty buffer whose inline storage takes one
/// byte less than the buffer's own size.
#[verifier::external_body]
pub(crate) fn buffer_new() -> (r: BytesMut)
    ensures
        buffer_contents(r) == Seq::<u8>::empty(),
        buffer_room(r) + 1 >= vstd::layout::size_of::<BytesMut>(),
{
    BytesMut::new()
}

/// Relies on `BytesMut::with_capacity`: an empty buffer that holds at least
/// `capacity` bytes without growing.
#[verifier::external_body]
pub(crate) fn buffer_with_capacity(capacity: usize) -> (r: BytesMut)
    ensures
        buffer_contents(r) == Seq::<u8>::empty(),
        buffer_room(r) >= capacity,
{
    BytesMut::with_capacity(capacity)
}

/// Relies on `BytesMut::freeze`: the same bytes, now immutable and shareable.
#[verifier::external_body]
pub(crate) fn buffer_freeze(b: BytesMut) -> (r: Bytes)
    ensures
        shared_contents(r) == buffer_contents(b),
{
    b.freeze()
}

/// Relies on `itoa::fmt` writing into a `BytesMut`: the decimal digits of `n`
/// are appended when they fit in the room left, otherwise nothing is written.
#[verifier::external_body]
pub(crate) fn buffer_write_decimal(buf: &mut BytesMut, n: i128) -> (r: bool)
    ensures
        r == (decimal(n as int).len() <= buffer_room(*old(buf))),
        r ==> buffer_contents(*final(buf)) == buffer_contents(*old(buf)) + decimal(n as int),
        r ==> buffer_room(*final(buf)) + decimal(n as int).len() == buffer_room(*old(buf)),
        !r ==> *final(buf) == *old(buf),
{
    itoa::fmt(&mut *buf, n).is_ok()
}

/// Relies on `<[u8] as Ord>::cmp`: slices are ordered lexicographically.
#[verifier::external_body]
pub(crate) fn slice_cmp(a: &[u8], b: &[u8]) -> (r: core::cmp::Ordering)
    ensures
        r == lex_order(a@, b@),
{
    a.cmp(b)
}

/// Relies on `std::str::from_utf8`: bytes that are all ASCII are valid UTF-8,
/// and the text it returns holds exactly the bytes given.
#[verifier::external_body]
pub(crate) fn str_from_bytes(b: &[u8]) -> (r: Option<&str>)
    ensures
        all_ascii(b@) ==> r.is_some(),
        r matches Some(s) ==> s.spec_bytes() == b@,
{
    std::str::from_utf8(b).ok()
}

/// Relies on `String::from_utf8`: ASCII bytes are valid UTF-8, one character each.
#[verifier::external_body]
pub(crate) fn string_from_bytes(v: Vec<u8>) -> (r: Option<String>)
    requires
        all_ascii(v@),
    ensures
        r.is_some(),
        r matches Some(s) ==> s@ == ascii_chars(v@),
{
    String::from_utf8(v).ok()
}

} // verus!
