//! Image dimensions given as decimal strings, each a positive pixel count.

use vstd::prelude::*;

verus! {

/// A decimal digit: `0`-`9`.
pub open spec fn is_dec_digit(c: char) -> bool {
    '0' as u32 <= c as u32 && c as u32 <= '9' as u32
}

/// The numeric value of a decimal digit.
pub open spec fn dec_digit_value(c: char) -> nat {
    (c as u32 - '0' as u32) as nat
}

/// Every character of the string is a decimal digit.
pub open spec fn all_dec_digits(s: Seq<char>) -> bool {
    forall|i: int| 0 <= i < s.len() ==> is_dec_digit(#[trigger] s[i])
}

/// The number a string of decimal digits denotes, most significant digit
/// first.
pub open spec fn dec_value(s: Seq<char>) -> nat
    decreases s.len(),
{
    if s.len() == 0 {
        0
    } else {
        dec_value(s.drop_last()) * 10 + dec_digit_value(s.last())
    }
}

/// A well-formed dimension string: one or more decimal digits denoting a
/// value between 1 and `u32::MAX`.
pub open spec fn valid_dimension(s: Seq<char>) -> bool {
    s.len() >= 1 && all_dec_digits(s) && 1 <= dec_value(s) <= u32::MAX
}

/// A digit appended to a string can only grow its value.
proof fn lemma_dec_value_prefix_le(s: Seq<char>, j: int)
    requires
        0 <= j <= s.len(),
    ensures
        dec_value(s.subrange(0, j)) <= dec_value(s),
    decreases s.len() - j,
{
    if j == s.len() {
        assert(s.subrange(0, j) =~= s);
    } else {
        lemma_dec_value_prefix_le(s, j + 1);
        assert(s.subrange(0, j + 1).drop_last() =~= s.subrange(0, j));
    }
}

/// Parse a dimension string: accepted exactly when it is one or more decimal
/// digits denoting a positive value that fits in a `u32`, in which case that
/// value is returned.
pub fn parse_dimension(s: &str) -> (r: Option<u32>)
    ensures
        r is Some <==> valid_dimension(s@),
        r matches Some(v) ==> v == dec_value(s@) && v >= 1,
{
    let n = s.unicode_len();
    if n == 0 {
        return None;
    }
    let mut acc: u32 = 0;
    let mut i: usize = 0;
    while i < n
        invariant
            0 < n == s@.len(),
            0 <= i <= n,
            forall|j: int| 0 <= j < i ==> is_dec_digit(#[trigger] s@[j]),
            acc == dec_value(s@.subrange(0, i as int)),
        decreases n - i,
    {
        let c = s.get_char(i);
        let u = c as u32;
        if !(48 <= u && u <= 57) {
            assert(!is_dec_digit(s@[i as int]));
            return None;
        }
        let d = u - 48;
        let next = acc as u64 * 10 + d as u64;
        proof {
            assert(s@.subrange(0, i as int + 1).drop_last() =~= s@.subrange(0, i as int));
            assert(dec_value(s@.subrange(0, i as int + 1)) == next);
        }
        if next > u32::MAX as u64 {
            proof {
                lemma_dec_value_prefix_le(s@, i as int + 1);
            }
            return None;
        }
        acc = next as u32;
        i = i + 1;
    }
    proof {
        assert(s@.subrange(0, n as int) =~= s@);
    }
    if acc == 0 {
        return None;
    }
    Some(acc)
}

} // verus!
