//! What the service computes: left-padding a string with one character
//! up to a target length. The client never pads locally; this model is
//! what a deterministic stand-in for the service returns, and what the
//! padding laws are stated of.

use vstd::prelude::*;
use vstd::string::StrSliceExecFns;
use vstd::string::StringExecFns;
use crate::text::push_char;

verus! {

/// The left-padding of `s` with `c` up to `target` characters: `c`
/// repeated in front until the length is reached; a string already at
/// least that long is unchanged.
pub open spec fn padded(s: Seq<char>, c: char, target: nat) -> Seq<char> {
    if s.len() >= target {
        s
    } else {
        Seq::new((target - s.len()) as nat, |i: int| c) + s
    }
}

/// Padding never truncates: a string at least as long as the target
/// comes back exactly as it was.
pub proof fn lemma_pad_no_truncation(s: Seq<char>, c: char, target: nat)
    requires
        s.len() >= target,
    ensures
        padded(s, c, target) == s,
{
}

/// Pads `s` on the left with `c` up to `target` characters, exactly as
/// [`padded`] states.
pub fn pad_string(s: &str, c: char, target: usize) -> (r: String)
    ensures
        r@ == padded(s@, c, target as nat),
{
    let n = s.unicode_len();
    let mut out = String::new();
    if n < target {
        let k = target - n;
        for i in 0..k
            invariant
                out@ =~= Seq::new(i as nat, |j: int| c),
        {
            push_char(&mut out, c);
            proof {
                assert(out@ =~= Seq::new((i + 1) as nat, |j: int| c));
            }
        }
    }
    out.append(s);
    proof {
        assert(out@ =~= padded(s@, c, target as nat));
    }
    out
}

} // verus!
