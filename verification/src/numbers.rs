//! Base-10 parsing of unsigned 64-bit integers.
//!
//! Argument tokens such as epochs must be plain decimal numerals: no
//! surrounding whitespace, no sign, no leading `+`.

use vstd::prelude::*;
use vstd::string::StrSliceExecFns;

verus! {

/// Whether `c` is an ASCII decimal digit.
pub open spec fn is_digit_char(c: char) -> bool {
    48 <= c as u32 && c as u32 <= 57
}

/// The value of one decimal digit.
pub open spec fn digit_value(c: char) -> int {
    c as u32 - 48
}

/// The value of a sequence of decimal digits, most significant first.
pub open spec fn numeral_value(s: Seq<char>) -> int
    decreases s.len(),
{
    if s.len() == 0 {
        0
    } else {
        numeral_value(s.drop_last()) * 10 + digit_value(s.last())
    }
}

/// Whether `s` is a numeral that denotes an unsigned 64-bit integer: at
/// least one character, every character a decimal digit, and the denoted
/// value within range.
pub open spec fn is_u64_numeral(s: Seq<char>) -> bool {
    &&& s.len() > 0
    &&& forall|i: int| 0 <= i < s.len() ==> is_digit_char(#[trigger] s[i])
    &&& numeral_value(s) <= u64::MAX
}

proof fn lemma_numeral_value_nonneg(s: Seq<char>)
    requires
        forall|i: int| 0 <= i < s.len() ==> is_digit_char(#[trigger] s[i]),
    ensures
        numeral_value(s) >= 0,
    decreases s.len(),
{
    if s.len() > 0 {
        lemma_numeral_value_nonneg(s.drop_last());
    }
}

proof fn lemma_numeral_value_prefix(s: Seq<char>, j: int)
    requires
        forall|i: int| 0 <= i < s.len() ==> is_digit_char(#[trigger] s[i]),
        0 <= j <= s.len(),
    ensures
        numeral_value(s.take(j)) <= numeral_value(s),
    decreases s.len(),
{
    if j == s.len() {
        assert(s.take(j) =~= s);
    } else {
        let t = s.drop_last();
        assert(s.take(j) =~= t.take(j));
        lemma_numeral_value_prefix(t, j);
        lemma_numeral_value_nonneg(t);
    }
}

/// Parses `s` as a base-10 unsigned 64-bit integer: the result is the
/// denoted value exactly when `s` is an in-range all-digit numeral, and
/// `None` on every other input.
pub fn parse_u64(s: &str) -> (r: Option<u64>)
    ensures
        match r {
            Some(v) => is_u64_numeral(s@) && v as int == numeral_value(s@),
            None => !is_u64_numeral(s@),
        },
{
    let n: usize = s.unicode_len();
    if n == 0 {
        return None;
    }
    let mut acc: u64 = 0;
    let mut i: usize = 0;
    while i < n
        invariant
            n == s@.len(),
            i <= n,
            forall|j: int| 0 <= j < i ==> is_digit_char(#[trigger] s@[j]),
            acc as int == numeral_value(s@.take(i as int)),
        decreases n - i,
    {
        let c: u32 = s.get_char(i) as u32;
        if c < 48 || c > 57 {
            assert(!is_digit_char(s@[i as int]));
            return None;
        }
        let d: u64 = (c - 48) as u64;
        proof {
            assert(s@.take(i + 1 as int).drop_last() =~= s@.take(i as int));
            assert(numeral_value(s@.take(i + 1 as int)) == acc * 10 + d);
        }
        if acc > (u64::MAX - d) / 10 {
            proof {
                let q = (u64::MAX - d) as int / 10;
                assert((u64::MAX - d) as int == 10 * q + (u64::MAX - d) as int % 10);
                assert(acc * 10 + d > u64::MAX);
                if forall|j: int| 0 <= j < s@.len() ==> is_digit_char(#[trigger] s@[j]) {
                    lemma_numeral_value_prefix(s@, i + 1);
                }
            }
            return None;
        }
        proof {
            let q = (u64::MAX - d) as int / 10;
            assert((u64::MAX - d) as int == 10 * q + (u64::MAX - d) as int % 10);
            assert(acc * 10 + d <= u64::MAX);
        }
        acc = acc * 10 + d;
        i += 1;
    }
    proof {
        assert(s@.take(n as int) =~= s@);
    }
    Some(acc)
}

} // verus!
