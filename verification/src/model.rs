//! Mathematical model of the prefix-stripping engine.
//!
//! A noun is modelled as a `Seq<char>`; a candidate prefix form as a
//! `Seq<char>` of lowercase ASCII letters. The engine walks an ordered
//! sequence of candidates and strips the first one that matches
//! case-insensitively at the start of the noun, consuming a single hyphen
//! standing right after the matched prefix; when none matches, the noun is
//! returned unchanged.

use vstd::prelude::*;

use crate::fold::fold_char;

verus! {

/// `p` matches at the start of `s`, comparing each character of `s`
/// after ASCII case folding.
pub open spec fn matches_prefix(s: Seq<char>, p: Seq<char>) -> bool {
    p.len() <= s.len() && forall|i: int| 0 <= i < p.len() ==> fold_char(s[i]) == p[i]
}

/// What remains of `s` once a matched prefix `p` is removed; a single
/// hyphen standing immediately after the prefix is consumed with it.
pub open spec fn strip_matched(s: Seq<char>, p: Seq<char>) -> Seq<char> {
    if p.len() < s.len() && s[p.len() as int] == '-' {
        s.skip(p.len() as int + 1)
    } else {
        s.skip(p.len() as int)
    }
}

/// The residue of `s` under the first candidate in `cands` that matches;
/// `s` itself when none matches.
pub open spec fn trim_best(s: Seq<char>, cands: Seq<Seq<char>>) -> Seq<char>
    decreases cands.len(),
{
    if cands.len() == 0 {
        s
    } else if matches_prefix(s, cands[0]) {
        strip_matched(s, cands[0])
    } else {
        trim_best(s, cands.skip(1))
    }
}

/// The first candidate in `cands` that matches at the start of `s`, if any.
pub open spec fn first_match(s: Seq<char>, cands: Seq<Seq<char>>) -> Option<Seq<char>>
    decreases cands.len(),
{
    if cands.len() == 0 {
        None
    } else if matches_prefix(s, cands[0]) {
        Some(cands[0])
    } else {
        first_match(s, cands.skip(1))
    }
}

/// `s` without its leading hyphens.
pub open spec fn trim_leading_hyphens(s: Seq<char>) -> Seq<char>
    decreases s.len(),
{
    if s.len() > 0 && s[0] == '-' {
        trim_leading_hyphens(s.skip(1))
    } else {
        s
    }
}

} // verus!
