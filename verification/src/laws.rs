//! Laws of the catalog and the engine, stated over the model and proved.

use vstd::prelude::*;

use crate::catalog::{class_for_label, class_for_tag, class_forms, class_number, class_tag,
    NounClass};
use crate::engine::{all_prefixes, candidates_of, guess_base_spec, nfc_of};
use crate::model::{first_match, matches_prefix, strip_matched, trim_best, trim_leading_hyphens};

verus! {

/// Trimming strips the first matching candidate and nothing else: the
/// residue is determined by `first_match` alone.
pub proof fn lemma_first_match_characterizes(s: Seq<char>, cands: Seq<Seq<char>>)
    ensures
        trim_best(s, cands) == (match first_match(s, cands) {
            Some(p) => strip_matched(s, p),
            None => s,
        }),
        first_match(s, cands) matches Some(p) ==> matches_prefix(s, p),
    decreases cands.len(),
{
    if cands.len() > 0 && !matches_prefix(s, cands[0]) {
        lemma_first_match_characterizes(s, cands.skip(1));
    }
}

/// A noun that no candidate matches comes back from trimming unchanged.
pub proof fn lemma_no_match_identity(s: Seq<char>, cands: Seq<Seq<char>>)
    requires
        forall|i: int| 0 <= i < cands.len() ==> !matches_prefix(s, #[trigger] cands[i]),
    ensures
        trim_best(s, cands) == s,
    decreases cands.len(),
{
    if cands.len() > 0 {
        let tail = cands.skip(1);
        assert forall|i: int| 0 <= i < tail.len() implies !matches_prefix(s, #[trigger] tail[i]) by {
            assert(tail[i] == cands[i + 1]);
        }
        lemma_no_match_identity(s, tail);
    }
}

/// Idempotence on bare stems: a stem that is already in canonical (NFC)
/// form, does not begin with a hyphen, and begins with no candidate prefix
/// comes back from extraction unchanged.
pub proof fn lemma_idempotent_on_bare_stem(s: Seq<char>, noun_class: Option<NounClass>)
    requires
        nfc_of(s) == s,
        s.len() > 0 ==> s[0] != '-',
        forall|i: int| 0 <= i < candidates_of(noun_class).len() ==> !matches_prefix(
            s,
            #[trigger] candidates_of(noun_class)[i],
        ),
    ensures
        guess_base_spec(s, noun_class) == s,
{
    assert(trim_leading_hyphens(s) == s);
    lemma_no_match_identity(s, candidates_of(noun_class));
}

/// The residue depends only on which form matched first, not on which
/// candidate list supplied it: two lists whose first matching form agrees
/// trim a noun to the same residue.
pub proof fn lemma_same_first_match_same_residue(
    s: Seq<char>,
    a: Seq<Seq<char>>,
    b: Seq<Seq<char>>,
)
    requires
        first_match(s, a) == first_match(s, b),
    ensures
        trim_best(s, a) == trim_best(s, b),
{
    lemma_first_match_characterizes(s, a);
    lemma_first_match_characterizes(s, b);
}

/// Longest-match precedence: over a candidate list ordered by non-increasing
/// length, the form that is stripped matches the noun and is at least as
/// long as every other matching form in the list.
pub proof fn lemma_longest_match_precedence(s: Seq<char>, cands: Seq<Seq<char>>, p: Seq<char>)
    requires
        forall|i: int, j: int| 0 <= i <= j < cands.len() ==> (#[trigger] cands[j]).len()
            <= (#[trigger] cands[i]).len(),
        first_match(s, cands) == Some(p),
    ensures
        matches_prefix(s, p),
        trim_best(s, cands) == strip_matched(s, p),
        forall|i: int| 0 <= i < cands.len() && matches_prefix(s, #[trigger] cands[i])
            ==> cands[i].len() <= p.len(),
    decreases cands.len(),
{
    lemma_first_match_characterizes(s, cands);
    if matches_prefix(s, cands[0]) {
        assert(p == cands[0]);
    } else {
        let tail = cands.skip(1);
        assert forall|i: int, j: int| 0 <= i <= j < tail.len() implies (#[trigger] tail[j]).len()
            <= (#[trigger] tail[i]).len() by {
            assert(tail[i] == cands[i + 1]);
            assert(tail[j] == cands[j + 1]);
        }
        lemma_longest_match_precedence(s, tail, p);
        assert forall|i: int| 0 <= i < cands.len() && matches_prefix(s, #[trigger] cands[i])
            implies cands[i].len() <= p.len() by {
            if i > 0 {
                assert(tail[i - 1] == cands[i]);
            }
        }
    }
}

/// Class-agnostic guessing strips a longest matching prefix: the form the
/// global table supplies first is at least as long as any other form in the
/// table that matches the canonicalized noun.
pub proof fn lemma_guess_strips_longest(noun: Seq<char>, p: Seq<char>)
    requires
        first_match(trim_leading_hyphens(nfc_of(noun)), all_prefixes()) == Some(p),
    ensures
        guess_base_spec(noun, None) == strip_matched(trim_leading_hyphens(nfc_of(noun)), p),
        forall|i: int| 0 <= i < all_prefixes().len() && matches_prefix(
            trim_leading_hyphens(nfc_of(noun)),
            #[trigger] all_prefixes()[i],
        ) ==> all_prefixes()[i].len() <= p.len(),
{
    lemma_global_table_ordered();
    lemma_longest_match_precedence(trim_leading_hyphens(nfc_of(noun)), all_prefixes(), p);
}

/// When the class-agnostic table and the supplied class's own forms agree on
/// the first matching form, guessing with and without the class agree.
pub proof fn lemma_class_agnostic_guess_agrees(noun: Seq<char>, c: NounClass)
    requires
        first_match(trim_leading_hyphens(nfc_of(noun)), class_forms(c)) == first_match(
            trim_leading_hyphens(nfc_of(noun)),
            all_prefixes(),
        ),
    ensures
        guess_base_spec(noun, Some(c)) == guess_base_spec(noun, None),
{
    lemma_same_first_match_same_residue(
        trim_leading_hyphens(nfc_of(noun)),
        class_forms(c),
        all_prefixes(),
    );
}

/// Classes 1 and 3 share the single prefix form "um": their form lists are
/// equal, and extraction treats the two classes identically on every noun.
pub proof fn lemma_class1_class3_agree(noun: Seq<char>)
    ensures
        class_forms(NounClass::Class1Um) == class_forms(NounClass::Class3Um),
        guess_base_spec(noun, Some(NounClass::Class1Um)) == guess_base_spec(
            noun,
            Some(NounClass::Class3Um),
        ),
{
}

/// Normalization stability: two spellings with the same canonical (NFC)
/// form extract to the same base, whatever class selector is supplied.
pub proof fn lemma_normalization_stability(
    a: Seq<char>,
    b: Seq<char>,
    noun_class: Option<NounClass>,
)
    requires
        nfc_of(a) == nfc_of(b),
    ensures
        guess_base_spec(a, noun_class) == guess_base_spec(b, noun_class),
{
}

/// Round trip on the interop tag: every class decodes from its own tag.
pub proof fn lemma_tag_round_trip(c: NounClass)
    ensures
        class_for_tag(class_tag(c)) == Some(c),
{
}

/// Round trip on the class-number label: every class decodes from its own
/// label.
pub proof fn lemma_label_round_trip(c: NounClass)
    ensures
        class_for_label(class_number(c)) == Some(c),
{
    reveal_strlit("1");
    reveal_strlit("2");
    reveal_strlit("1a");
    reveal_strlit("2a");
    reveal_strlit("3");
    reveal_strlit("4");
    reveal_strlit("5");
    reveal_strlit("6");
    reveal_strlit("7");
    reveal_strlit("8");
    reveal_strlit("9");
    reveal_strlit("10");
    reveal_strlit("11");
    reveal_strlit("14");
    reveal_strlit("15");
    assert("1"@.len() == 1 && "1"@[0] == '1');
    assert("2"@.len() == 1 && "2"@[0] == '2');
    assert("3"@.len() == 1 && "3"@[0] == '3');
    assert("4"@.len() == 1 && "4"@[0] == '4');
    assert("5"@.len() == 1 && "5"@[0] == '5');
    assert("6"@.len() == 1 && "6"@[0] == '6');
    assert("7"@.len() == 1 && "7"@[0] == '7');
    assert("8"@.len() == 1 && "8"@[0] == '8');
    assert("9"@.len() == 1 && "9"@[0] == '9');
    assert("1a"@.len() == 2 && "1a"@[0] == '1' && "1a"@[1] == 'a');
    assert("2a"@.len() == 2 && "2a"@[0] == '2' && "2a"@[1] == 'a');
    assert("10"@.len() == 2 && "10"@[0] == '1' && "10"@[1] == '0');
    assert("11"@.len() == 2 && "11"@[0] == '1' && "11"@[1] == '1');
    assert("14"@.len() == 2 && "14"@[0] == '1' && "14"@[1] == '4');
    assert("15"@.len() == 2 && "15"@[0] == '1' && "15"@[1] == '5');
}

/// Within every class, the form list is non-empty and ordered by
/// non-increasing length: a longer applicable form is always attempted
/// before a shorter one.
pub proof fn lemma_class_forms_ordered(c: NounClass)
    ensures
        class_forms(c).len() > 0,
        forall|i: int, j: int| 0 <= i <= j < class_forms(c).len()
            ==> (#[trigger] class_forms(c)[j]).len() <= (#[trigger] class_forms(c)[i]).len(),
{
    reveal_strlit("um");
    reveal_strlit("aba");
    reveal_strlit("u");
    reveal_strlit("oo");
    reveal_strlit("imi");
    reveal_strlit("ili");
    reveal_strlit("ama");
    reveal_strlit("isi");
    reveal_strlit("is");
    reveal_strlit("izi");
    reveal_strlit("iz");
    reveal_strlit("in");
    reveal_strlit("im");
    reveal_strlit("i");
    reveal_strlit("izin");
    reveal_strlit("iin");
    reveal_strlit("iim");
    reveal_strlit("ii");
    reveal_strlit("ulu");
    reveal_strlit("ubu");
    reveal_strlit("uku");
}

/// The class-agnostic table is ordered by strictly non-increasing length:
/// the longest possible match anywhere in the table is attempted before any
/// shorter one.
pub proof fn lemma_global_table_ordered()
    ensures
        all_prefixes().len() > 0,
        forall|i: int, j: int| 0 <= i <= j < all_prefixes().len()
            ==> (#[trigger] all_prefixes()[j]).len() <= (#[trigger] all_prefixes()[i]).len(),
{
    reveal_strlit("izin");
    reveal_strlit("izim");
    reveal_strlit("zin");
    reveal_strlit("zim");
    reveal_strlit("iin");
    reveal_strlit("iim");
    reveal_strlit("isi");
    reveal_strlit("izi");
    reveal_strlit("ili");
    reveal_strlit("ama");
    reveal_strlit("imi");
    reveal_strlit("aba");
    reveal_strlit("ulu");
    reveal_strlit("ulw");
    reveal_strlit("ubu");
    reveal_strlit("uku");
    reveal_strlit("si");
    reveal_strlit("zi");
    reveal_strlit("li");
    reveal_strlit("ma");
    reveal_strlit("mi");
    reveal_strlit("ba");
    reveal_strlit("lu");
    reveal_strlit("lw");
    reveal_strlit("bu");
    reveal_strlit("ku");
    reveal_strlit("um");
    reveal_strlit("oo");
    reveal_strlit("is");
    reveal_strlit("iz");
    reveal_strlit("in");
    reveal_strlit("im");
    reveal_strlit("ii");
    reveal_strlit("m");
    reveal_strlit("s");
    reveal_strlit("z");
    reveal_strlit("n");
    reveal_strlit("u");
    reveal_strlit("i");
}

} // verus!
