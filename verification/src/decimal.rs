//! Unsigned numbers as decimal text.

use vstd::prelude::*;
use vstd::string::*;

verus! {

/// Whether `c` is one of the digits `0` to `9`.
pub open spec fn is_digit(c: char) -> bool {
    '0' <= c && c <= '9'
}

/// The digit for `d`, which is below ten.
pub open spec fn digit_char(d: nat) -> char
    recommends
        d < 10,
{
    (('0' as u8) + d) as u8 as char
}

/// The value of the digit `c`.
pub open spec fn digit_value(c: char) -> int
    recommends
        is_digit(c),
{
    (c as u32) - ('0' as u32)
}

/// Whether `s` holds digits and nothing else.
pub open spec fn all_digits(s: Seq<char>) -> bool {
    forall|i: int| 0 <= i < s.len() ==> is_digit(#[trigger] s[i])
}

/// The number that the digits of `s` spell, most significant first.
pub open spec fn digits_value(s: Seq<char>) -> int
    decreases s.len(),
{
    if s.len() == 0 {
        0
    } else {
        digits_value(s.drop_last()) * 10 + digit_value(s.last())
    }
}

/// The number that `s` spells: `s` is one digit or more and nothing else,
/// and the number fits into 64 bits. Any other text spells no number.
pub open spec fn spec_parse_u64(s: Seq<char>) -> Option<u64> {
    if s.len() > 0 && all_digits(s) && digits_value(s) <= u64::MAX {
        Some(digits_value(s) as u64)
    } else {
        None
    }
}

/// The decimal digits of `v`, most significant first, without leading
/// zeros; zero is a single `0`.
pub open spec fn decimal(v: nat) -> Seq<char>
    decreases v,
{
    if v < 10 {
        seq![digit_char(v)]
    } else {
        decimal(v / 10).push(digit_char(v % 10))
    }
}

/// The number spelled by the first digits of a text is at most the number
/// spelled by all of them.
pub proof fn lemma_prefix_value(s: Seq<char>, n: int)
    requires
        all_digits(s),
        0 <= n <= s.len(),
    ensures
        0 <= digits_value(s.take(n)) <= digits_value(s),
    decreases s.len() - n,
{
    lemma_value_nonnegative(s.take(n));
    if n == s.len() {
        assert(s.take(n) =~= s);
    } else {
        lemma_prefix_value(s, n + 1);
        assert(s.take(n + 1).drop_last() =~= s.take(n));
        assert(is_digit(s.take(n + 1).last()));
    }
}

/// Digits spell a number that is not negative.
pub proof fn lemma_value_nonnegative(s: Seq<char>)
    requires
        all_digits(s),
    ensures
        0 <= digits_value(s),
    decreases s.len(),
{
    if s.len() > 0 {
        lemma_value_nonnegative(s.drop_last());
        assert(is_digit(s.last()));
    }
}

/// The decimal digits of a number spell that number.
pub proof fn lemma_decimal_round_trip(v: nat)
    ensures
        decimal(v).len() > 0,
        all_digits(decimal(v)),
        digits_value(decimal(v)) == v,
    decreases v,
{
    if v < 10 {
        let s = decimal(v);
        assert(s.drop_last() =~= Seq::<char>::empty());
        assert(digits_value(s.drop_last()) == 0);
    } else {
        lemma_decimal_round_trip(v / 10);
        let s = decimal(v);
        assert(s.drop_last() =~= decimal(v / 10));
    }
}

/// Reading what was written gives the number back.
pub proof fn lemma_parse_decimal(v: u64)
    ensures
        spec_parse_u64(decimal(v as nat)) == Some(v),
{
    lemma_decimal_round_trip(v as nat);
}

/// Reads a number: `Some` where `s` is one digit or more and nothing else
/// and the number fits into 64 bits, `None` for any other text.
pub fn parse_u64(s: &str) -> (r: Option<u64>)
    ensures
        r == spec_parse_u64(s@),
{
    if !s.is_ascii() {
        proof {
            if all_digits(s@) {
                assert forall|i: int| 0 <= i < s@.len() implies (s@[i] as u32) < 128 by {
                    assert(is_digit(s@[i]));
                }
            }
        }
        return None;
    }
    let n: usize = s.unicode_len();
    if n == 0 {
        return None;
    }
    let mut acc: u64 = 0;
    let mut i: usize = 0;
    while i < n
        invariant
            s.is_ascii(),
            n == s@.len(),
            0 <= i <= n,
            all_digits(s@.take(i as int)),
            acc == digits_value(s@.take(i as int)),
        decreases n - i,
    {
        let b: u8 = s.get_ascii(i);
        let ghost next = s@.take(i + 1);
        assert(next.drop_last() =~= s@.take(i as int));
        assert(next.last() == s@[i as int]);
        if b < 48 || b > 57 {
            assert(!is_digit(s@[i as int]));
            return None;
        }
        assert(is_digit(s@[i as int]));
        assert(all_digits(next)) by {
            assert forall|j: int| 0 <= j < next.len() implies is_digit(#[trigger] next[j]) by {
                if j < i {
                    assert(next[j] == s@.take(i as int)[j]);
                }
            }
        }
        let d: u64 = (b - 48) as u64;
        assert(d == digit_value(s@[i as int]));
        let wide: u128 = acc as u128 * 10 + d as u128;
        assert(wide == digits_value(next));
        if wide > u64::MAX as u128 {
            proof {
                if all_digits(s@) {
                    lemma_prefix_value(s@, i + 1);
                }
            }
            return None;
        }
        acc = wide as u64;
        i = i + 1;
    }
    assert(s@.take(n as int) =~= s@);
    Some(acc)
}

/// The text that the standard library makes of `v`. Two texts of the same
/// characters need not be one value to the verifier, so the model of a
/// widget that holds such a text names the text itself, not its characters.
pub uninterp spec fn shown_u64(v: u64) -> String;

/// Writes a number, by `u64::to_string` of the standard library.
///
/// Not proved but taken from the standard library: the text depends on the
/// number alone, and it is the decimal digits of the number, most
/// significant first, without a sign and without leading zeros.
#[verifier::external_body]
pub(crate) fn show_u64(v: u64) -> (s: String)
    ensures
        s == shown_u64(v),
        s@ == decimal(v as nat),
{
    v.to_string()
}

} // verus!
