//! Splitting a line into tokens on single ASCII spaces.
//!
//! Every space is a token boundary: consecutive spaces yield empty tokens,
//! and no whitespace run is collapsed. Only an empty line yields an empty
//! token sequence.

use vstd::prelude::*;
use vstd::string::StrSliceExecFns;

verus! {

/// The pieces of `s` between its spaces. A boundary always yields a piece,
/// so an empty sequence yields one empty piece.
pub open spec fn raw_tokens(s: Seq<char>) -> Seq<Seq<char>>
    decreases s.len(),
{
    if s.len() == 0 {
        seq![Seq::<char>::empty()]
    } else if s.last() == ' ' {
        raw_tokens(s.drop_last()).push(Seq::<char>::empty())
    } else {
        let r = raw_tokens(s.drop_last());
        r.update(r.len() - 1, r.last().push(s.last()))
    }
}

/// The token sequence of a line: empty for an empty line, and otherwise
/// one token per stretch between space boundaries.
pub open spec fn tokens_of(s: Seq<char>) -> Seq<Seq<char>> {
    if s.len() == 0 {
        Seq::empty()
    } else {
        raw_tokens(s)
    }
}

/// The character sequences held by a sequence of strings.
pub open spec fn token_views(ts: Seq<String>) -> Seq<Seq<char>> {
    Seq::new(ts.len(), |i: int| ts[i]@)
}

pub proof fn lemma_raw_tokens_len(s: Seq<char>)
    ensures
        raw_tokens(s).len() >= 1,
    decreases s.len(),
{
    if s.len() > 0 {
        lemma_raw_tokens_len(s.drop_last());
    }
}

/// Splits `s` on single spaces, yielding its tokens in order.
pub fn split_spaces(s: &str) -> (toks: Vec<String>)
    ensures
        token_views(toks@) == tokens_of(s@),
{
    let n: usize = s.unicode_len();
    let mut toks: Vec<String> = Vec::new();
    if n == 0 {
        proof {
            assert(token_views(toks@) =~= tokens_of(s@));
        }
        return toks;
    }
    let mut start: usize = 0;
    let mut i: usize = 0;
    while i < n
        invariant
            n == s@.len(),
            start <= i <= n,
            raw_tokens(s@.take(i as int)).len() == toks@.len() + 1,
            forall|j: int|
                0 <= j < toks@.len() ==> #[trigger] toks@[j]@ == raw_tokens(s@.take(i as int))[j],
            raw_tokens(s@.take(i as int)).last() == s@.subrange(start as int, i as int),
        decreases n - i,
    {
        proof {
            assert(s@.take(i + 1 as int).drop_last() =~= s@.take(i as int));
        }
        let c = s.get_char(i);
        if c == ' ' {
            let t = s.substring_char(start, i).to_owned();
            toks.push(t);
            start = i + 1;
            proof {
                assert(raw_tokens(s@.take(i + 1 as int)).last()
                    =~= s@.subrange(start as int, i + 1 as int));
            }
        } else {
            proof {
                let r = raw_tokens(s@.take(i as int));
                lemma_raw_tokens_len(s@.take(i as int));
                assert(raw_tokens(s@.take(i + 1 as int))
                    == r.update(r.len() - 1, r.last().push(s@[i as int])));
                assert(r.last().push(s@[i as int]) =~= s@.subrange(start as int, i + 1 as int));
            }
        }
        i += 1;
    }
    proof {
        assert(s@.take(n as int) =~= s@);
    }
    let t = s.substring_char(start, n).to_owned();
    toks.push(t);
    proof {
        assert(token_views(toks@) =~= raw_tokens(s@));
    }
    toks
}

} // verus!
