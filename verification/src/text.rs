//! Line normalization and ASCII case-insensitive comparison.

use vstd::prelude::*;
use vstd::string::StrSliceExecFns;

verus! {

/// Folds one character code: ASCII uppercase letters map to lowercase,
/// every other code is left alone.
pub open spec fn fold_code(u: u32) -> u32 {
    if 65 <= u && u <= 90 {
        (u + 32) as u32
    } else {
        u
    }
}

/// Equality of two character sequences up to ASCII letter case.
pub open spec fn ci_eq(a: Seq<char>, b: Seq<char>) -> bool {
    a.len() == b.len() && forall|i: int|
        0 <= i < a.len() ==> #[trigger] fold_code(a[i] as u32) == fold_code(b[i] as u32)
}

/// Whether `a` and `b` hold the same characters up to ASCII letter case.
pub fn eq_ignore_case(a: &str, b: &str) -> (r: bool)
    ensures
        r == ci_eq(a@, b@),
{
    let an: usize = a.unicode_len();
    let bn: usize = b.unicode_len();
    if an != bn {
        return false;
    }
    let mut i: usize = 0;
    while i < an
        invariant
            an == a@.len(),
            bn == b@.len(),
            an == bn,
            i <= an,
            forall|j: int| 0 <= j < i ==> #[trigger] fold_code(a@[j] as u32) == fold_code(b@[j] as u32),
        decreases an - i,
    {
        let ca: u32 = a.get_char(i) as u32;
        let cb: u32 = b.get_char(i) as u32;
        let fa: u32 = if 65 <= ca && ca <= 90 {
            ca + 32
        } else {
            ca
        };
        let fb: u32 = if 65 <= cb && cb <= 90 {
            cb + 32
        } else {
            cb
        };
        if fa != fb {
            assert(fold_code(a@[i as int] as u32) != fold_code(b@[i as int] as u32));
            return false;
        }
        i += 1;
    }
    true
}

/// The line with one trailing line feed stripped, and, if a carriage return
/// then ends the line, that carriage return stripped as well.
pub open spec fn normalized(s: Seq<char>) -> Seq<char> {
    if s.len() > 0 && s.last() == '\n' {
        let t = s.drop_last();
        if t.len() > 0 && t.last() == '\r' {
            t.drop_last()
        } else {
            t
        }
    } else {
        s
    }
}

/// Strips one trailing `"\n"` or `"\r\n"` from the line, in place.
pub fn trim_newline(s: &mut String)
    ensures
        final(s)@ == normalized(old(s)@),
{
    let n: usize = s.as_str().unicode_len();
    if n > 0 && s.as_str().get_char(n - 1) == '\n' {
        let k: usize = if n >= 2 && s.as_str().get_char(n - 2) == '\r' {
            n - 2
        } else {
            n - 1
        };
        let t = s.as_str().substring_char(0, k).to_owned();
        proof {
            assert(old(s)@.drop_last() =~= old(s)@.subrange(0, n - 1));
            if k == n - 2 {
                assert(old(s)@.drop_last().drop_last() =~= old(s)@.subrange(0, n - 2));
            }
        }
        *s = t;
    }
}

} // verus!
