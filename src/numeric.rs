//! Facts about decimal numerals that the integer conversions need: their
//! length, and that their bytes may stand in a header value.

use vstd::prelude::*;
use crate::text::{decimal, digits, lemma_digits_len, pow10};
use crate::validate::all_valid;

verus! {

/// A numeral has at least one byte.
pub proof fn lemma_decimal_nonempty(n: int)
    ensures
        decimal(n).len() >= 1,
{
    let m: nat = if n < 0 { (-n) as nat } else { n as nat };
    assert(digits(m).len() >= 1);
}

/// A numeral is made of digits and perhaps a leading `-`, all valid header-value bytes.
pub proof fn lemma_decimal_valid(n: int)
    ensures
        all_valid(decimal(n)),
{
    let m: nat = if n < 0 { (-n) as nat } else { n as nat };
    lemma_digits_valid(m);
    if n < 0 {
        assert(all_valid(seq![45u8]));
        assert forall|i: int| 0 <= i < decimal(n).len() implies crate::validate::valid_byte(
            #[trigger] decimal(n)[i],
        ) by {
            if i > 0 {
                assert(decimal(n)[i] == digits(m)[i - 1]);
            }
        }
    }
}

proof fn lemma_digits_valid(m: nat)
    ensures
        all_valid(digits(m)),
    decreases m,
{
    if m >= 10 {
        lemma_digits_valid(m / 10);
        let d = digits(m / 10);
        assert forall|i: int| 0 <= i < digits(m).len() implies crate::validate::valid_byte(
            #[trigger] digits(m)[i],
        ) by {
            if i < d.len() {
                assert(digits(m)[i] == d[i]);
            }
        }
    }
}

/// A numeral of an integer above `-10^(k-1)` and below `10^k` takes at most `k` bytes.
pub proof fn lemma_decimal_len(n: int, k: nat)
    requires
        k >= 2,
        -(pow10((k - 1) as nat) as int) < n < pow10(k),
    ensures
        decimal(n).len() <= k,
{
    if n < 0 {
        lemma_digits_len((-n) as nat, (k - 1) as nat);
    } else {
        lemma_digits_len(n as nat, k);
    }
}

/// The powers of ten that bound the integer types.
pub proof fn lemma_pow10_values()
    ensures
        pow10(4) == 10000,
        pow10(5) == 100000,
        pow10(9) == 1000000000,
        pow10(10) == 10000000000,
        pow10(19) == 10000000000000000000,
        pow10(20) == 100000000000000000000,
{
    reveal_with_fuel(pow10, 21);
}

/// Whether the numeral of `n` surely takes no more than `room` bytes.
pub(crate) fn numeral_fits(n: i128, room: usize) -> (r: bool)
    requires
        n > i128::MIN,
    ensures
        r ==> decimal(n as int).len() <= room,
{
    let negative = n < 0;
    let magnitude: u128 = if negative { (-n) as u128 } else { n as u128 };
    if negative && room == 0 {
        return false;
    }
    let digits_room: usize = if negative { room - 1 } else { room };
    if digits_room == 0 {
        return false;
    }
    let mut limit: u128 = 1;
    let mut k: usize = 0;
    while k < digits_room
        invariant
            k <= digits_room,
            limit == pow10(k as nat),
        decreases digits_room - k,
    {
        match limit.checked_mul(10) {
            Some(next) => limit = next,
            None => return false,
        }
        k = k + 1;
    }
    if magnitude < limit {
        proof {
            lemma_digits_len(magnitude as nat, digits_room as nat);
        }
        true
    } else {
        false
    }
}

} // verus!
