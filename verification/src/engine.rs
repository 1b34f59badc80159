//! The base-extraction engine.
//!
//! `guess_noun_base` canonicalizes the noun to Unicode Normalization Form C,
//! trims its leading hyphens, and strips the first matching candidate prefix,
//! longest match first. Matching is ASCII-case-insensitive (every candidate
//! form is lowercase ASCII) and does not look past hyphens inside the noun; a
//! single hyphen standing right after the stripped prefix is consumed with
//! it. When no candidate matches, the canonicalized noun is returned
//! unchanged.

use vstd::prelude::*;

use crate::catalog::{class_forms, form_views, NounClass};
use crate::fold::{fold_char, fold_char_exec};
use crate::model::{matches_prefix, strip_matched, trim_best, trim_leading_hyphens};
use unicode_normalization::UnicodeNormalization;

verus! {

/// Unicode Normalization Form C of a character sequence.
pub uninterp spec fn nfc_of(s: Seq<char>) -> Seq<char>;

/// Relies on unicode_normalization's `nfc` iterator adapter: the canonical
/// composed form (NFC) of the string, a function of its characters alone.
#[verifier::external_body]
fn nfc_normalize(s: &str) -> (r: String)
    ensures
        r@ == nfc_of(s@),
{
    s.nfc().collect()
}

/// All candidate prefixes of the class-agnostic table, ordered by
/// descending length; ties keep the table's fixed order.
pub open spec fn all_prefixes() -> Seq<Seq<char>> {
    seq![
        "izin"@, "izim"@,
        "zin"@, "zim"@,
        "iin"@, "iim"@, "isi"@, "izi"@, "ili"@, "ama"@, "imi"@, "aba"@, "ulu"@, "ulw"@,
        "ubu"@, "uku"@,
        "si"@, "zi"@, "li"@, "ma"@, "mi"@, "ba"@, "lu"@, "lw"@, "bu"@, "ku"@,
        "um"@, "oo"@, "is"@, "iz"@, "in"@, "im"@, "ii"@,
        "m"@, "s"@, "z"@, "n"@,
        "u"@, "i"@,
    ]
}

/// The class-agnostic candidate table, used when no class is supplied.
pub fn all_prefixes_table() -> (r: &'static [&'static str])
    ensures
        form_views(r@) == all_prefixes(),
{
    let table: &'static [&'static str] = &[
        "izin", "izim",
        "zin", "zim",
        "iin", "iim", "isi", "izi", "ili", "ama", "imi", "aba", "ulu", "ulw",
        "ubu", "uku",
        "si", "zi", "li", "ma", "mi", "ba", "lu", "lw", "bu", "ku",
        "um", "oo", "is", "iz", "in", "im", "ii",
        "m", "s", "z", "n",
        "u", "i",
    ];
    proof {
        assert(form_views(table@) =~= all_prefixes());
    }
    table
}

/// The candidate prefixes a call works over: the supplied class's own forms,
/// or the class-agnostic table.
pub open spec fn candidates_of(noun_class: Option<NounClass>) -> Seq<Seq<char>> {
    match noun_class {
        Some(c) => class_forms(c),
        None => all_prefixes(),
    }
}

/// What `guess_noun_base` returns: the canonicalized noun, without leading
/// hyphens, with the first matching candidate prefix stripped.
pub open spec fn guess_base_spec(noun: Seq<char>, noun_class: Option<NounClass>) -> Seq<char> {
    trim_best(trim_leading_hyphens(nfc_of(noun)), candidates_of(noun_class))
}

/// Whether `p` matches ASCII-case-insensitively at the start of `word`.
pub fn is_prefix_match(word: &str, p: &str) -> (r: bool)
    ensures
        r == matches_prefix(word@, p@),
{
    let wlen = word.unicode_len();
    let plen = p.unicode_len();
    if plen > wlen {
        return false;
    }
    let mut i: usize = 0;
    while i < plen
        invariant
            wlen == word@.len(),
            plen == p@.len(),
            plen <= wlen,
            i <= plen,
            forall|j: int| 0 <= j < i ==> fold_char(word@[j]) == p@[j],
        decreases plen - i,
    {
        if fold_char_exec(word.get_char(i)) != p.get_char(i) {
            return false;
        }
        i += 1;
    }
    true
}

/// Strips from `word` the first candidate in `prefixes` that matches, and
/// the single hyphen right after it if one stands there; `word` itself when
/// none matches.
pub fn trim_best_match<'a>(word: &'a str, prefixes: &[&'static str]) -> (r: &'a str)
    ensures
        r@ == trim_best(word@, form_views(prefixes@)),
{
    let wlen = word.unicode_len();
    let n = prefixes.len();
    let mut k: usize = 0;
    proof {
        assert(form_views(prefixes@).skip(0) =~= form_views(prefixes@));
    }
    while k < n
        invariant
            wlen == word@.len(),
            n == prefixes@.len(),
            k <= n,
            trim_best(word@, form_views(prefixes@)) == trim_best(
                word@,
                form_views(prefixes@).skip(k as int),
            ),
        decreases n - k,
    {
        let p = prefixes[k];
        if is_prefix_match(word, p) {
            let plen = p.unicode_len();
            let mut start = plen;
            if start < wlen && word.get_char(start) == '-' {
                start = start + 1;
            }
            let result = word.substring_char(start, wlen);
            proof {
                assert(form_views(prefixes@).skip(k as int)[0] == p@);
                assert(result@ =~= strip_matched(word@, p@));
            }
            return result;
        }
        proof {
            assert(form_views(prefixes@).skip(k as int)[0] == p@);
            assert(form_views(prefixes@).skip(k as int).skip(1) =~= form_views(
                prefixes@,
            ).skip(k as int + 1));
        }
        k = k + 1;
    }
    proof {
        assert(form_views(prefixes@).skip(n as int) =~= Seq::<Seq<char>>::empty());
    }
    word
}

/// Strips the noun-class prefix from `noun` and returns the remaining base.
///
/// The noun is canonicalized to NFC and its leading hyphens are trimmed;
/// then the first matching candidate prefix — the supplied class's forms, or
/// the class-agnostic table ordered longest first — is stripped, together
/// with a single hyphen standing right after it. A noun that no candidate
/// matches comes back canonicalized but otherwise unchanged.
pub fn guess_noun_base(noun: &str, noun_class: Option<NounClass>) -> (r: String)
    ensures
        r@ == guess_base_spec(noun@, noun_class),
{
    let normalized = nfc_normalize(noun);
    let word: &str = normalized.as_str();
    let wlen = word.unicode_len();

    let mut start: usize = 0;
    proof {
        assert(word@.skip(0) =~= word@);
    }
    while start < wlen && word.get_char(start) == '-'
        invariant
            wlen == word@.len(),
            start <= wlen,
            trim_leading_hyphens(word@) == trim_leading_hyphens(word@.skip(start as int)),
        decreases wlen - start,
    {
        proof {
            assert(word@.skip(start as int).skip(1) =~= word@.skip(start as int + 1));
        }
        start = start + 1;
    }
    let bare = word.substring_char(start, wlen);
    proof {
        assert(bare@ =~= word@.skip(start as int));
        assert(trim_leading_hyphens(bare@) == bare@);
    }

    let trimmed = match noun_class {
        Some(class) => trim_best_match(bare, class.to_prefix().forms),
        None => trim_best_match(bare, all_prefixes_table()),
    };

    trimmed.to_owned()
}

} // verus!
