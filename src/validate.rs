//! The two byte predicates: which bytes a header value may hold, and which of
//! them may be shown as text.

use vstd::prelude::*;

verus! {

/// A byte a header value may hold: anything from 32 up but 127 (DEL), and tab.
pub open spec fn valid_byte(b: u8) -> bool {
    (b >= 32 && b != 127) || b == 9
}

/// A byte that reads as text: visible ASCII from 32 to 126, and tab.
pub open spec fn visible_byte(b: u8) -> bool {
    (b >= 32 && b < 127) || b == 9
}

/// Every byte may be held by a header value.
pub open spec fn all_valid(s: Seq<u8>) -> bool {
    forall|i: int| 0 <= i < s.len() ==> valid_byte(#[trigger] s[i])
}

/// Every byte reads as text.
pub open spec fn all_visible(s: Seq<u8>) -> bool {
    forall|i: int| 0 <= i < s.len() ==> visible_byte(#[trigger] s[i])
}

/// Whether a header value may hold `b`.
pub fn is_valid(b: u8) -> (r: bool)
    ensures
        r == valid_byte(b),
{
    b >= 32 && b != 127 || b == 9
}

/// Whether `b` reads as text in a header value.
pub fn is_visible_ascii(b: u8) -> (r: bool)
    ensures
        r == visible_byte(b),
{
    b >= 32 && b < 127 || b == 9
}

/// Every byte of `s` may be held by a header value.
pub fn all_bytes_valid(s: &[u8]) -> (r: bool)
    ensures
        r == all_valid(s@),
{
    let mut i: usize = 0;
    while i < s.len()
        invariant
            0 <= i <= s@.len(),
            all_valid(s@.subrange(0, i as int)),
        decreases s@.len() - i,
    {
        if !is_valid(s[i]) {
            assert(!valid_byte(s@[i as int]));
            return false;
        }
        assert(s@.subrange(0, i as int + 1) =~= s@.subrange(0, i as int).push(s@[i as int]));
        i = i + 1;
    }
    assert(s@.subrange(0, i as int) =~= s@);
    true
}

/// Every byte of `s` reads as text.
pub fn all_bytes_visible(s: &[u8]) -> (r: bool)
    ensures
        r == all_visible(s@),
{
    let mut i: usize = 0;
    while i < s.len()
        invariant
            0 <= i <= s@.len(),
            all_visible(s@.subrange(0, i as int)),
        decreases s@.len() - i,
    {
        if !is_visible_ascii(s[i]) {
            assert(!visible_byte(s@[i as int]));
            return false;
        }
        assert(s@.subrange(0, i as int + 1) =~= s@.subrange(0, i as int).push(s@[i as int]));
        i = i + 1;
    }
    assert(s@.subrange(0, i as int) =~= s@);
    true
}

} // verus!
