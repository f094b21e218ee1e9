//! The header value: an immutable, shareable byte buffer whose bytes are all
//! valid header-value bytes, and a sensitivity flag that only changes how the
//! value is rendered for debugging.

use vstd::prelude::*;
use vstd::string::StringSliceAdditionalSpecFns;
use vstd::utf8::encode_utf8;
use bytes::{Bytes, BytesMut};
use crate::bytes_spec::{
    buffer_freeze, buffer_new, buffer_with_capacity, buffer_write_decimal, shared_as_slice,
    shared_contents, shared_from_slice, shared_from_static, slice_cmp, str_from_bytes,
    string_from_bytes,
};
use crate::name::{HeaderName, lemma_name_byte_is_valid};
use crate::numeric::{
    lemma_decimal_len, lemma_decimal_nonempty, lemma_decimal_valid, lemma_pow10_values, numeral_fits,
};
use crate::text::{
    all_ascii, ascii_chars, decimal, escape_byte, escaped, lemma_lex_equal, lex_order, quoted,
};
use crate::validate::{all_bytes_valid, all_bytes_visible, all_valid, all_visible, visible_byte};

verus! {

/// An HTTP header field value.
///
/// The bytes are opaque: besides visible ASCII they may hold octets from 128
/// to 255. Equality and order look at the bytes only, never at the
/// sensitivity flag.
pub struct HeaderValue {
    inner: Bytes,
    is_sensitive: bool,
}

/// The error returned when bytes or text hold a byte a header value may not hold.
#[derive(Debug)]
pub struct InvalidHeaderValue {
    _priv: (),
}

/// The error returned when a shared buffer holds a byte a header value may not hold.
#[derive(Debug)]
pub struct InvalidHeaderValueBytes(InvalidHeaderValue);

/// The error returned when a header value holds bytes that are not visible ASCII.
#[derive(Debug)]
pub struct ToStrError {
    _priv: (),
}

impl InvalidHeaderValue {
    /// A short description of the error.
    pub fn description(&self) -> (r: &'static str)
        ensures
            r@ == "failed to parse header value"@,
    {
        "failed to parse header value"
    }
}

impl InvalidHeaderValueBytes {
    /// A short description of the error.
    pub fn description(&self) -> (r: &'static str)
        ensures
            r@ == "failed to parse header value"@,
    {
        self.0.description()
    }
}

impl ToStrError {
    /// A short description of the error.
    pub fn description(&self) -> (r: &'static str)
        ensures
            r@ == "failed to convert header to a str"@,
    {
        "failed to convert header to a str"
    }
}

impl View for HeaderValue {
    type V = Seq<u8>;

    closed spec fn view(&self) -> Seq<u8> {
        shared_contents(self.inner)
    }
}

impl HeaderValue {
    #[verifier::type_invariant]
    spec fn inv(self) -> bool {
        all_valid(shared_contents(self.inner))
    }

    /// Whether the value is marked as sensitive.
    pub closed spec fn sensitive(&self) -> bool {
        self.is_sensitive
    }

    /// Builds a value from text fixed at build time, borrowing its storage.
    /// Every byte of the text must be a valid header-value byte.
    pub fn from_static(src: &'static str) -> (r: HeaderValue)
        requires
            all_valid(src.spec_bytes()),
        ensures
            r@ == src.spec_bytes(),
            !r.sensitive(),
    {
        let bytes = src.as_bytes();
        HeaderValue { inner: shared_from_static(bytes), is_sensitive: false }
    }

    /// Builds a value from text, copying it; fails if a byte is not a valid
    /// header-value byte.
    pub fn from_str(src: &str) -> (r: Result<HeaderValue, InvalidHeaderValue>)
        ensures
            r is Ok <==> all_valid(src.spec_bytes()),
            r matches Ok(v) ==> v@ == src.spec_bytes() && !v.sensitive(),
    {
        Self::try_from_slice(src.as_bytes())
    }

    /// Builds a value from a header name; every name byte is a valid value byte.
    pub fn from_name(name: HeaderName) -> (r: HeaderValue)
        ensures
            r@ == name@,
            !r.sensitive(),
    {
        let inner = name.into_shared();
        proof {
            assert forall|i: int| 0 <= i < shared_contents(inner).len() implies
                crate::validate::valid_byte(#[trigger] shared_contents(inner)[i]) by {
                lemma_name_byte_is_valid(shared_contents(inner)[i]);
            }
        }
        HeaderValue { inner, is_sensitive: false }
    }

    /// Builds a value from bytes, copying them; fails if a byte is not a
    /// valid header-value byte.
    pub fn from_bytes(src: &[u8]) -> (r: Result<HeaderValue, InvalidHeaderValue>)
        ensures
            r is Ok <==> all_valid(src@),
            r matches Ok(v) ==> v@ == src@ && !v.sensitive(),
    {
        Self::try_from_slice(src)
    }

    /// Takes over a shared buffer without copying; fails if a byte is not a
    /// valid header-value byte.
    pub fn from_shared(src: Bytes) -> (r: Result<HeaderValue, InvalidHeaderValueBytes>)
        ensures
            r is Ok <==> all_valid(shared_contents(src)),
            r matches Ok(v) ==> v@ == shared_contents(src) && !v.sensitive(),
    {
        if all_bytes_valid(shared_as_slice(&src)) {
            Ok(HeaderValue { inner: src, is_sensitive: false })
        } else {
            Err(InvalidHeaderValueBytes(InvalidHeaderValue { _priv: () }))
        }
    }

    /// Takes over a shared buffer that the caller knows to hold valid bytes
    /// only, without looking at them.
    pub fn from_shared_unchecked(src: Bytes) -> (r: HeaderValue)
        requires
            all_valid(shared_contents(src)),
        ensures
            r@ == shared_contents(src),
            !r.sensitive(),
    {
        HeaderValue { inner: src, is_sensitive: false }
    }

    fn try_from_slice(src: &[u8]) -> (r: Result<HeaderValue, InvalidHeaderValue>)
        ensures
            r is Ok <==> all_valid(src@),
            r matches Ok(v) ==> v@ == src@ && !v.sensitive(),
    {
        if all_bytes_valid(src) {
            Ok(HeaderValue { inner: shared_from_slice(src), is_sensitive: false })
        } else {
            Err(InvalidHeaderValue { _priv: () })
        }
    }

    /// The value as text, without copying; fails unless every byte is
    /// visible ASCII or tab.
    pub fn to_str(&self) -> (r: Result<&str, ToStrError>)
        ensures
            r is Ok <==> all_visible(self@),
            r matches Ok(s) ==> s.spec_bytes() == self@,
    {
        let bytes = self.as_bytes();
        if !all_bytes_visible(bytes) {
            return Err(ToStrError { _priv: () });
        }
        assert(all_ascii(bytes@)) by {
            assert forall|i: int| 0 <= i < bytes@.len() implies #[trigger] bytes@[i] < 128 by {
                assert(visible_byte(bytes@[i]));
            }
        }
        match str_from_bytes(bytes) {
            Some(s) => Ok(s),
            None => Err(ToStrError { _priv: () }),
        }
    }

    /// The number of bytes.
    pub fn len(&self) -> (r: usize)
        ensures
            r == self@.len(),
    {
        self.as_bytes().len()
    }

    /// Whether the value holds no bytes.
    pub fn is_empty(&self) -> (r: bool)
        ensures
            r == (self@.len() == 0),
    {
        self.len() == 0
    }

    /// The bytes of the value; each of them is a valid header-value byte.
    pub fn as_bytes(&self) -> (r: &[u8])
        ensures
            r@ == self@,
            all_valid(r@),
    {
        proof {
            use_type_invariant(self);
        }
        shared_as_slice(&self.inner)
    }

    /// Marks the value as sensitive or not; the bytes stay as they are.
    pub fn set_sensitive(&mut self, val: bool)
        ensures
            final(self)@ == old(self)@,
            final(self).sensitive() == val,
    {
        proof {
            use_type_invariant(&*self);
        }
        self.is_sensitive = val;
    }

    /// Whether the value is marked as sensitive.
    pub fn is_sensitive(&self) -> (r: bool)
        ensures
            r == self.sensitive(),
    {
        self.is_sensitive
    }

    /// Hands over the shared buffer, without copying.
    pub fn into_shared(self) -> (r: Bytes)
        ensures
            shared_contents(r) == self@,
    {
        self.inner
    }

    /// Whether the value holds exactly the bytes `other`.
    pub fn eq_bytes(&self, other: &[u8]) -> (r: bool)
        ensures
            r == (self@ == other@),
    {
        let o = slice_cmp(self.as_bytes(), other);
        proof {
            lemma_lex_equal(self@, other@);
        }
        match o {
            core::cmp::Ordering::Equal => true,
            _ => false,
        }
    }

    /// Whether the value holds exactly the bytes of the text `other`.
    pub fn eq_str(&self, other: &str) -> (r: bool)
        ensures
            r == (self@ == other.spec_bytes()),
    {
        self.eq_bytes(other.as_bytes())
    }

    /// How the value's bytes order against `other`, lexicographically.
    pub fn cmp_bytes(&self, other: &[u8]) -> (r: core::cmp::Ordering)
        ensures
            r == lex_order(self@, other@),
    {
        slice_cmp(self.as_bytes(), other)
    }

    /// How the value's bytes order against the bytes of the text `other`.
    pub fn cmp_str(&self, other: &str) -> (r: core::cmp::Ordering)
        ensures
            r == lex_order(self@, other.spec_bytes()),
    {
        self.cmp_bytes(other.as_bytes())
    }

    /// How two values order by their bytes; sensitivity plays no part.
    pub fn compare(&self, other: &HeaderValue) -> (r: core::cmp::Ordering)
        ensures
            r == lex_order(self@, other@),
    {
        self.cmp_bytes(other.as_bytes())
    }
}

fn hex_digit_of(d: u8) -> (r: u8)
    requires
        d < 16,
    ensures
        r == crate::text::hex_digit(d),
{
    if d < 10 {
        48 + d
    } else {
        87 + d
    }
}

fn push_escaped(out: &mut Vec<u8>, b: u8)
    ensures
        final(out)@ == old(out)@ + escape_byte(b),
{
    if b == 34 {
        out.push(92);
        out.push(34);
    } else if crate::validate::is_visible_ascii(b) {
        out.push(b);
    } else {
        out.push(92);
        out.push(120);
        out.push(hex_digit_of(b / 16));
        out.push(hex_digit_of(b % 16));
    }
    assert(final(out)@ =~= old(out)@ + escape_byte(b));
}

proof fn lemma_escape_ascii(b: u8)
    ensures
        all_ascii(escape_byte(b)),
{
    assert(b / 16 < 16) by (bit_vector);
    assert(b % 16 < 16) by (bit_vector);
}

impl HeaderValue {
    /// The debug form of the value: `Sensitive` when it is marked sensitive,
    /// otherwise its bytes between double quotes with each quote written as
    /// `\"` and each byte that is not visible ASCII or tab as `\xHH`.
    pub fn debug_string(&self) -> (r: String)
        ensures
            self.sensitive() ==> r@ == "Sensitive"@,
            !self.sensitive() ==> r@ == ascii_chars(quoted(self@)),
    {
        if self.is_sensitive {
            return "Sensitive".to_owned();
        }
        let bytes = self.as_bytes();
        let mut out: Vec<u8> = Vec::new();
        out.push(34);
        let mut i: usize = 0;
        while i < bytes.len()
            invariant
                0 <= i <= bytes@.len(),
                out@ == seq![34u8] + escaped(bytes@.subrange(0, i as int)),
                all_ascii(out@),
            decreases bytes@.len() - i,
        {
            let ghost before = out@;
            push_escaped(&mut out, bytes[i]);
            proof {
                let next = bytes@.subrange(0, i as int + 1);
                assert(next.drop_last() =~= bytes@.subrange(0, i as int));
                assert(next.last() == bytes@[i as int]);
                lemma_escape_ascii(bytes@[i as int]);
                assert(out@ =~= seq![34u8] + escaped(next));
                assert forall|j: int| 0 <= j < out@.len() implies #[trigger] out@[j] < 128 by {
                    if j >= before.len() {
                        assert(out@[j] == escape_byte(bytes@[i as int])[j - before.len()]);
                    }
                }
            }
            i = i + 1;
        }
        out.push(34);
        assert(bytes@.subrange(0, i as int) =~= bytes@);
        assert(out@ =~= quoted(bytes@));
        assert(all_ascii(out@)) by {
            assert forall|j: int| 0 <= j < out@.len() implies #[trigger] out@[j] < 128 by {
            }
        }
        match string_from_bytes(out) {
            Some(s) => s,
            None => String::new(),
        }
    }
}

impl HeaderValue {
    /// Writes the numeral of `num` into a new buffer. `max_len` is the
    /// longest numeral of the integer type `num` came from. The buffer is
    /// allocated only when that type's numerals may not fit the buffer's
    /// inline storage and this numeral does not.
    fn from_decimal(num: i128, max_len: usize) -> (r: HeaderValue)
        requires
            -0x8000_0000_0000_0000 <= num <= 0xffff_ffff_ffff_ffff,
            decimal(num as int).len() <= max_len,
        ensures
            r@ == decimal(num as int),
            !r.sensitive(),
    {
        let size = core::mem::size_of::<BytesMut>();
        let inline_room: usize = if size > 0 { size - 1 } else { 0 };
        let mut buf = if inline_room < max_len && !numeral_fits(num, inline_room) {
            buffer_with_capacity(max_len)
        } else {
            buffer_new()
        };
        proof {
            lemma_decimal_nonempty(num as int);
            lemma_decimal_valid(num as int);
        }
        let written = buffer_write_decimal(&mut buf, num);
        assert(written);
        HeaderValue { inner: buffer_freeze(buf), is_sensitive: false }
    }

    /// The decimal numeral of `num`.
    pub fn from_u16(num: u16) -> (r: HeaderValue)
        ensures
            r@ == decimal(num as int),
            !r.sensitive(),
    {
        proof {
            lemma_pow10_values();
            lemma_decimal_len(num as int, 5);
        }
        Self::from_decimal(num as i128, 5)
    }

    /// The decimal numeral of `num`, with a `-` when it is negative.
    pub fn from_i16(num: i16) -> (r: HeaderValue)
        ensures
            r@ == decimal(num as int),
            !r.sensitive(),
    {
        proof {
            lemma_pow10_values();
            lemma_decimal_len(num as int, 6);
        }
        Self::from_decimal(num as i128, 6)
    }

    /// The decimal numeral of `num`.
    pub fn from_u32(num: u32) -> (r: HeaderValue)
        ensures
            r@ == decimal(num as int),
            !r.sensitive(),
    {
        proof {
            lemma_pow10_values();
            lemma_decimal_len(num as int, 10);
        }
        Self::from_decimal(num as i128, 10)
    }

    /// The decimal numeral of `num`, with a `-` when it is negative.
    pub fn from_i32(num: i32) -> (r: HeaderValue)
        ensures
            r@ == decimal(num as int),
            !r.sensitive(),
    {
        proof {
            lemma_pow10_values();
            lemma_decimal_len(num as int, 11);
        }
        Self::from_decimal(num as i128, 11)
    }

    /// The decimal numeral of `num`.
    pub fn from_u64(num: u64) -> (r: HeaderValue)
        ensures
            r@ == decimal(num as int),
            !r.sensitive(),
    {
        proof {
            lemma_pow10_values();
            lemma_decimal_len(num as int, 20);
        }
        Self::from_decimal(num as i128, 20)
    }

    /// The decimal numeral of `num`, with a `-` when it is negative.
    pub fn from_i64(num: i64) -> (r: HeaderValue)
        ensures
            r@ == decimal(num as int),
            !r.sensitive(),
    {
        proof {
            lemma_pow10_values();
            lemma_decimal_len(num as int, 20);
        }
        Self::from_decimal(num as i128, 20)
    }

    /// The decimal numeral of `num`; its longest numeral is taken as on
    /// 64-bit targets, the widest there is.
    pub fn from_usize(num: usize) -> (r: HeaderValue)
        ensures
            r@ == decimal(num as int),
            !r.sensitive(),
    {
        proof {
            lemma_pow10_values();
            lemma_decimal_len(num as int, 20);
        }
        Self::from_decimal(num as i128, 20)
    }

    /// The decimal numeral of `num`, with a `-` when it is negative; its
    /// longest numeral is taken as on 64-bit targets, the widest there is.
    pub fn from_isize(num: isize) -> (r: HeaderValue)
        ensures
            r@ == decimal(num as int),
            !r.sensitive(),
    {
        proof {
            lemma_pow10_values();
            lemma_decimal_len(num as int, 20);
        }
        Self::from_decimal(num as i128, 20)
    }
}

/// Two values with the same bytes are equal and order as equivalent, whether
/// or not they are marked sensitive alike.
pub proof fn law_sensitivity_ignored(a: HeaderValue, b: HeaderValue)
    requires
        a@ == b@,
    ensures
        lex_order(a@, b@) == core::cmp::Ordering::Equal,
        lex_order(b@, a@) == core::cmp::Ordering::Equal,
{
    lemma_lex_equal(a@, b@);
    lemma_lex_equal(b@, a@);
}

impl Clone for HeaderValue {
    /// Another handle on the same bytes, with the same flag; nothing is copied.
    fn clone(&self) -> (r: HeaderValue)
        ensures
            r@ == self@,
            r.sensitive() == self.sensitive(),
    {
        proof {
            use_type_invariant(self);
        }
        HeaderValue { inner: self.inner.clone(), is_sensitive: self.is_sensitive }
    }
}

impl core::hash::Hash for HeaderValue {
    /// Relies on `<Bytes as Hash>::hash`, which hashes the bytes held and
    /// nothing else, so the sensitivity flag plays no part, as in equality.
    #[verifier::external_body]
    fn hash<H: core::hash::Hasher>(&self, state: &mut H) {
        self.inner.hash(state)
    }
}

impl core::str::FromStr for HeaderValue {
    type Err = InvalidHeaderValue;

    fn from_str(s: &str) -> Result<HeaderValue, InvalidHeaderValue> {
        HeaderValue::from_str(s)
    }
}

impl PartialEq for HeaderValue {
    fn eq(&self, other: &HeaderValue) -> (r: bool) {
        self.eq_bytes(other.as_bytes())
    }
}

impl vstd::std_specs::cmp::PartialEqSpecImpl for HeaderValue {
    open spec fn obeys_eq_spec() -> bool {
        true
    }

    open spec fn eq_spec(&self, other: &HeaderValue) -> bool {
        self@ == other@
    }
}

impl Eq for HeaderValue {
}

impl PartialOrd for HeaderValue {
    fn partial_cmp(&self, other: &HeaderValue) -> (r: Option<core::cmp::Ordering>) {
        Some(self.compare(other))
    }
}

impl vstd::std_specs::cmp::PartialOrdSpecImpl for HeaderValue {
    open spec fn obeys_partial_cmp_spec() -> bool {
        true
    }

    open spec fn partial_cmp_spec(&self, other: &HeaderValue) -> Option<core::cmp::Ordering> {
        Some(lex_order(self@, other@))
    }
}

impl PartialEq<str> for HeaderValue {
    fn eq(&self, other: &str) -> (r: bool) {
        self.eq_str(other)
    }
}

impl vstd::std_specs::cmp::PartialEqSpecImpl<str> for HeaderValue {
    open spec fn obeys_eq_spec() -> bool {
        true
    }

    open spec fn eq_spec(&self, other: &str) -> bool {
        self@ == other.spec_bytes()
    }
}

impl PartialOrd<str> for HeaderValue {
    fn partial_cmp(&self, other: &str) -> (r: Option<core::cmp::Ordering>) {
        Some(self.cmp_str(other))
    }
}

impl vstd::std_specs::cmp::PartialOrdSpecImpl<str> for HeaderValue {
    open spec fn obeys_partial_cmp_spec() -> bool {
        true
    }

    open spec fn partial_cmp_spec(&self, other: &str) -> Option<core::cmp::Ordering> {
        Some(lex_order(self@, other.spec_bytes()))
    }
}

impl PartialEq<[u8]> for HeaderValue {
    fn eq(&self, other: &[u8]) -> (r: bool) {
        self.eq_bytes(other)
    }
}

impl vstd::std_specs::cmp::PartialEqSpecImpl<[u8]> for HeaderValue {
    open spec fn obeys_eq_spec() -> bool {
        true
    }

    open spec fn eq_spec(&self, other: &[u8]) -> bool {
        self@ == other@
    }
}

impl PartialOrd<[u8]> for HeaderValue {
    fn partial_cmp(&self, other: &[u8]) -> (r: Option<core::cmp::Ordering>) {
        Some(self.cmp_bytes(other))
    }
}

impl vstd::std_specs::cmp::PartialOrdSpecImpl<[u8]> for HeaderValue {
    open spec fn obeys_partial_cmp_spec() -> bool {
        true
    }

    open spec fn partial_cmp_spec(&self, other: &[u8]) -> Option<core::cmp::Ordering> {
        Some(lex_order(self@, other@))
    }
}

impl<'a> PartialEq<&'a str> for HeaderValue {
    fn eq(&self, other: &&'a str) -> (r: bool) {
        self.eq_str(*other)
    }
}

impl<'a> vstd::std_specs::cmp::PartialEqSpecImpl<&'a str> for HeaderValue {
    open spec fn obeys_eq_spec() -> bool {
        true
    }

    open spec fn eq_spec(&self, other: &&'a str) -> bool {
        self@ == (*other).spec_bytes()
    }
}

impl<'a> PartialEq<HeaderValue> for &'a str {
    fn eq(&self, other: &HeaderValue) -> (r: bool) {
        other.eq_str(*self)
    }
}

impl<'a> vstd::std_specs::cmp::PartialEqSpecImpl<HeaderValue> for &'a str {
    open spec fn obeys_eq_spec() -> bool {
        true
    }

    open spec fn eq_spec(&self, other: &HeaderValue) -> bool {
        (*self).spec_bytes() == other@
    }
}

impl PartialEq<String> for HeaderValue {
    fn eq(&self, other: &String) -> (r: bool) {
        self.eq_bytes(other.as_str().as_bytes())
    }
}

impl vstd::std_specs::cmp::PartialEqSpecImpl<String> for HeaderValue {
    open spec fn obeys_eq_spec() -> bool {
        true
    }

    open spec fn eq_spec(&self, other: &String) -> bool {
        self@ == encode_utf8(other@)
    }
}

impl PartialOrd<String> for HeaderValue {
    fn partial_cmp(&self, other: &String) -> (r: Option<core::cmp::Ordering>) {
        Some(self.cmp_bytes(other.as_str().as_bytes()))
    }
}

impl vstd::std_specs::cmp::PartialOrdSpecImpl<String> for HeaderValue {
    open spec fn obeys_partial_cmp_spec() -> bool {
        true
    }

    open spec fn partial_cmp_spec(&self, other: &String) -> Option<core::cmp::Ordering> {
        Some(lex_order(self@, encode_utf8(other@)))
    }
}

impl<'a> PartialOrd<&'a str> for HeaderValue {
    fn partial_cmp(&self, other: &&'a str) -> (r: Option<core::cmp::Ordering>) {
        Some(self.cmp_bytes((*other).as_bytes()))
    }
}

impl<'a> vstd::std_specs::cmp::PartialOrdSpecImpl<&'a str> for HeaderValue {
    open spec fn obeys_partial_cmp_spec() -> bool {
        true
    }

    open spec fn partial_cmp_spec(&self, other: &&'a str) -> Option<core::cmp::Ordering> {
        Some(lex_order(self@, (*other).spec_bytes()))
    }
}

impl<'a> PartialEq<&'a [u8]> for HeaderValue {
    fn eq(&self, other: &&'a [u8]) -> (r: bool) {
        self.eq_bytes(*other)
    }
}

impl<'a> vstd::std_specs::cmp::PartialEqSpecImpl<&'a [u8]> for HeaderValue {
    open spec fn obeys_eq_spec() -> bool {
        true
    }

    open spec fn eq_spec(&self, other: &&'a [u8]) -> bool {
        self@ == (*other)@
    }
}

impl<'a> PartialOrd<&'a [u8]> for HeaderValue {
    fn partial_cmp(&self, other: &&'a [u8]) -> (r: Option<core::cmp::Ordering>) {
        Some(self.cmp_bytes(*other))
    }
}

impl<'a> vstd::std_specs::cmp::PartialOrdSpecImpl<&'a [u8]> for HeaderValue {
    open spec fn obeys_partial_cmp_spec() -> bool {
        true
    }

    open spec fn partial_cmp_spec(&self, other: &&'a [u8]) -> Option<core::cmp::Ordering> {
        Some(lex_order(self@, (*other)@))
    }
}

impl<'a> PartialEq<&'a String> for HeaderValue {
    fn eq(&self, other: &&'a String) -> (r: bool) {
        self.eq_bytes((*other).as_str().as_bytes())
    }
}

impl<'a> vstd::std_specs::cmp::PartialEqSpecImpl<&'a String> for HeaderValue {
    open spec fn obeys_eq_spec() -> bool {
        true
    }

    open spec fn eq_spec(&self, other: &&'a String) -> bool {
        self@ == encode_utf8((*other)@)
    }
}

impl<'a> PartialOrd<&'a String> for HeaderValue {
    fn partial_cmp(&self, other: &&'a String) -> (r: Option<core::cmp::Ordering>) {
        Some(self.cmp_bytes((*other).as_str().as_bytes()))
    }
}

impl<'a> vstd::std_specs::cmp::PartialOrdSpecImpl<&'a String> for HeaderValue {
    open spec fn obeys_partial_cmp_spec() -> bool {
        true
    }

    open spec fn partial_cmp_spec(&self, other: &&'a String) -> Option<core::cmp::Ordering> {
        Some(lex_order(self@, encode_utf8((*other)@)))
    }
}

impl<'a> PartialEq<&'a HeaderValue> for HeaderValue {
    fn eq(&self, other: &&'a HeaderValue) -> (r: bool) {
        self.eq_bytes((*other).as_bytes())
    }
}

impl<'a> vstd::std_specs::cmp::PartialEqSpecImpl<&'a HeaderValue> for HeaderValue {
    open spec fn obeys_eq_spec() -> bool {
        true
    }

    open spec fn eq_spec(&self, other: &&'a HeaderValue) -> bool {
        self@ == (*other)@
    }
}

impl<'a> PartialOrd<&'a HeaderValue> for HeaderValue {
    fn partial_cmp(&self, other: &&'a HeaderValue) -> (r: Option<core::cmp::Ordering>) {
        Some(self.cmp_bytes((*other).as_bytes()))
    }
}

impl<'a> vstd::std_specs::cmp::PartialOrdSpecImpl<&'a HeaderValue> for HeaderValue {
    open spec fn obeys_partial_cmp_spec() -> bool {
        true
    }

    open spec fn partial_cmp_spec(&self, other: &&'a HeaderValue) -> Option<core::cmp::Ordering> {
        Some(lex_order(self@, (*other)@))
    }
}

impl PartialEq<HeaderValue> for str {
    fn eq(&self, other: &HeaderValue) -> (r: bool) {
        other.eq_bytes(self.as_bytes())
    }
}

impl vstd::std_specs::cmp::PartialEqSpecImpl<HeaderValue> for str {
    open spec fn obeys_eq_spec() -> bool {
        true
    }

    open spec fn eq_spec(&self, other: &HeaderValue) -> bool {
        self.spec_bytes() == other@
    }
}

impl PartialOrd<HeaderValue> for str {
    fn partial_cmp(&self, other: &HeaderValue) -> (r: Option<core::cmp::Ordering>) {
        Some(slice_cmp(self.as_bytes(), other.as_bytes()))
    }
}

impl vstd::std_specs::cmp::PartialOrdSpecImpl<HeaderValue> for str {
    open spec fn obeys_partial_cmp_spec() -> bool {
        true
    }

    open spec fn partial_cmp_spec(&self, other: &HeaderValue) -> Option<core::cmp::Ordering> {
        Some(lex_order(self.spec_bytes(), other@))
    }
}

impl PartialEq<HeaderValue> for [u8] {
    fn eq(&self, other: &HeaderValue) -> (r: bool) {
        other.eq_bytes(self)
    }
}

impl vstd::std_specs::cmp::PartialEqSpecImpl<HeaderValue> for [u8] {
    open spec fn obeys_eq_spec() -> bool {
        true
    }

    open spec fn eq_spec(&self, other: &HeaderValue) -> bool {
        self@ == other@
    }
}

impl PartialOrd<HeaderValue> for [u8] {
    fn partial_cmp(&self, other: &HeaderValue) -> (r: Option<core::cmp::Ordering>) {
        Some(slice_cmp(self, other.as_bytes()))
    }
}

impl vstd::std_specs::cmp::PartialOrdSpecImpl<HeaderValue> for [u8] {
    open spec fn obeys_partial_cmp_spec() -> bool {
        true
    }

    open spec fn partial_cmp_spec(&self, other: &HeaderValue) -> Option<core::cmp::Ordering> {
        Some(lex_order(self@, other@))
    }
}

impl PartialEq<HeaderValue> for String {
    fn eq(&self, other: &HeaderValue) -> (r: bool) {
        other.eq_bytes(self.as_str().as_bytes())
    }
}

impl vstd::std_specs::cmp::PartialEqSpecImpl<HeaderValue> for String {
    open spec fn obeys_eq_spec() -> bool {
        true
    }

    open spec fn eq_spec(&self, other: &HeaderValue) -> bool {
        encode_utf8(self@) == other@
    }
}

impl PartialOrd<HeaderValue> for String {
    fn partial_cmp(&self, other: &HeaderValue) -> (r: Option<core::cmp::Ordering>) {
        Some(slice_cmp(self.as_str().as_bytes(), other.as_bytes()))
    }
}

impl vstd::std_specs::cmp::PartialOrdSpecImpl<HeaderValue> for String {
    open spec fn obeys_partial_cmp_spec() -> bool {
        true
    }

    open spec fn partial_cmp_spec(&self, other: &HeaderValue) -> Option<core::cmp::Ordering> {
        Some(lex_order(encode_utf8(self@), other@))
    }
}

impl<'a> PartialOrd<HeaderValue> for &'a str {
    fn partial_cmp(&self, other: &HeaderValue) -> (r: Option<core::cmp::Ordering>) {
        Some(slice_cmp((*self).as_bytes(), other.as_bytes()))
    }
}

impl<'a> vstd::std_specs::cmp::PartialOrdSpecImpl<HeaderValue> for &'a str {
    open spec fn obeys_partial_cmp_spec() -> bool {
        true
    }

    open spec fn partial_cmp_spec(&self, other: &HeaderValue) -> Option<core::cmp::Ordering> {
        Some(lex_order((*self).spec_bytes(), other@))
    }
}

impl<'a> PartialEq<HeaderValue> for &'a [u8] {
    fn eq(&self, other: &HeaderValue) -> (r: bool) {
        other.eq_bytes(*self)
    }
}

impl<'a> vstd::std_specs::cmp::PartialEqSpecImpl<HeaderValue> for &'a [u8] {
    open spec fn obeys_eq_spec() -> bool {
        true
    }

    open spec fn eq_spec(&self, other: &HeaderValue) -> bool {
        (*self)@ == other@
    }
}

impl<'a> PartialOrd<HeaderValue> for &'a [u8] {
    fn partial_cmp(&self, other: &HeaderValue) -> (r: Option<core::cmp::Ordering>) {
        Some(slice_cmp(*self, other.as_bytes()))
    }
}

impl<'a> vstd::std_specs::cmp::PartialOrdSpecImpl<HeaderValue> for &'a [u8] {
    open spec fn obeys_partial_cmp_spec() -> bool {
        true
    }

    open spec fn partial_cmp_spec(&self, other: &HeaderValue) -> Option<core::cmp::Ordering> {
        Some(lex_order((*self)@, other@))
    }
}

impl<'a> PartialEq<HeaderValue> for &'a HeaderValue {
    fn eq(&self, other: &HeaderValue) -> (r: bool) {
        other.eq_bytes((*self).as_bytes())
    }
}

impl<'a> vstd::std_specs::cmp::PartialEqSpecImpl<HeaderValue> for &'a HeaderValue {
    open spec fn obeys_eq_spec() -> bool {
        true
    }

    open spec fn eq_spec(&self, other: &HeaderValue) -> bool {
        (*self)@ == other@
    }
}

impl<'a> PartialOrd<HeaderValue> for &'a HeaderValue {
    fn partial_cmp(&self, other: &HeaderValue) -> (r: Option<core::cmp::Ordering>) {
        Some(slice_cmp((*self).as_bytes(), other.as_bytes()))
    }
}

impl<'a> vstd::std_specs::cmp::PartialOrdSpecImpl<HeaderValue> for &'a HeaderValue {
    open spec fn obeys_partial_cmp_spec() -> bool {
        true
    }

    open spec fn partial_cmp_spec(&self, other: &HeaderValue) -> Option<core::cmp::Ordering> {
        Some(lex_order((*self)@, other@))
    }
}

} // verus!
