//! Lexicographic ordering on strings, used for last-writer-wins timestamp
//! comparison.  Timestamps are expected to be canonical, zero-padded, UTC
//! ISO-8601 strings, so that this order equals chronological order; the
//! comparison itself is total and is defined for every pair of strings.

use vstd::prelude::*;
use vstd::string::StrSliceExecFns;

verus! {

/// `a` is strictly greater than `b` in lexicographic order on characters
/// (by code point; on canonical ISO-8601 timestamps this is "strictly later").
pub open spec fn lex_gt(a: Seq<char>, b: Seq<char>) -> bool
    decreases a.len(),
{
    if b.len() == 0 {
        a.len() > 0
    } else if a.len() == 0 {
        false
    } else if a[0] == b[0] {
        lex_gt(a.drop_first(), b.drop_first())
    } else {
        (a[0] as u32) > (b[0] as u32)
    }
}

/// Skipping a common prefix does not change the comparison.
proof fn lemma_lex_gt_skip(a: Seq<char>, b: Seq<char>, i: int)
    requires
        0 <= i <= a.len(),
        0 <= i <= b.len(),
        forall|j: int| 0 <= j < i ==> a[j] == b[j],
    ensures
        lex_gt(a, b) == lex_gt(a.skip(i), b.skip(i)),
    decreases i,
{
    if i > 0 {
        assert(a.len() > 0 && b.len() > 0);
        assert(a[0] == b[0]);
        assert(a.drop_first() =~= a.skip(1));
        assert(b.drop_first() =~= b.skip(1));
        lemma_lex_gt_skip(a.skip(1), b.skip(1), i - 1);
        assert(a.skip(1).skip(i - 1) =~= a.skip(i));
        assert(b.skip(1).skip(i - 1) =~= b.skip(i));
    } else {
        assert(a.skip(0) =~= a);
        assert(b.skip(0) =~= b);
    }
}

/// Decides `lex_gt(a@, b@)` by scanning for the first differing character.
pub fn str_lex_gt(a: &str, b: &str) -> (r: bool)
    ensures
        r == lex_gt(a@, b@),
{
    let a_len: usize = a.unicode_len();
    let b_len: usize = b.unicode_len();
    let mut i: usize = 0;
    while i < a_len && i < b_len
        invariant
            i <= a_len,
            i <= b_len,
            a_len == a@.len(),
            b_len == b@.len(),
            forall|j: int| 0 <= j < i ==> a@[j] == b@[j],
        decreases a_len - i,
    {
        let ca = a.get_char(i);
        let cb = b.get_char(i);
        if ca != cb {
            proof {
                lemma_lex_gt_skip(a@, b@, i as int);
                assert(a@.skip(i as int)[0] == a@[i as int]);
                assert(b@.skip(i as int)[0] == b@[i as int]);
            }
            return ca as u32 > cb as u32;
        }
        i = i + 1;
    }
    proof {
        lemma_lex_gt_skip(a@, b@, i as int);
    }
    a_len > i
}

} // verus!
