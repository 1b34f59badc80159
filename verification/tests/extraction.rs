use zulu_nouns::guess_noun_base;
use zulu_nouns::trim_best_match;
use zulu_nouns::NounClass;

#[test]
fn longest_match_class10() {
    assert_eq!(guess_noun_base("izinkomo", Some(NounClass::Izin)), "komo");
    assert_ne!(guess_noun_base("izinkomo", Some(NounClass::Izin)), "nkomo");
}

#[test]
fn longest_match_global_table() {
    assert_eq!(guess_noun_base("izinkomo", None), "komo");
}

#[test]
fn class_agnostic_guess_matches_class_specific() {
    assert_eq!(guess_noun_base("umuntu", None), "untu");
    assert_eq!(
        guess_noun_base("umuntu", None),
        guess_noun_base("umuntu", Some(NounClass::Class1Um))
    );
}

#[test]
fn no_match_identity_empty() {
    assert_eq!(guess_noun_base("", Some(NounClass::Ili)), "");
}

#[test]
fn no_match_identity_short() {
    assert_eq!(guess_noun_base("x", Some(NounClass::Ama)), "x");
}

#[test]
fn bare_stem_unchanged() {
    assert_eq!(guess_noun_base("komo", Some(NounClass::Izin)), "komo");
    assert_eq!(guess_noun_base("komo", None), "komo");
}

#[test]
fn shared_prefix_classes_1_and_3() {
    let one = NounClass::Class1Um.to_prefix();
    let three = NounClass::Class3Um.to_prefix();
    assert_eq!(one.forms, &["um"][..]);
    assert_eq!(three.forms, &["um"][..]);
    assert_eq!(one, three);
    assert_eq!(
        guess_noun_base("umuntu", Some(NounClass::Class1Um)),
        guess_noun_base("umuntu", Some(NounClass::Class3Um))
    );
}

#[test]
fn hyphen_after_prefix_consumed() {
    assert_eq!(guess_noun_base("isi-to", Some(NounClass::Isi)), "to");
    assert_eq!(guess_noun_base("izin-komo", None), "komo");
}

#[test]
fn hyphens_inside_the_noun_are_not_crossed() {
    assert_eq!(guess_noun_base("i-si-to", Some(NounClass::Isi)), "i-si-to");
}

#[test]
fn leading_hyphens_trimmed() {
    assert_eq!(guess_noun_base("-umuntu", None), "untu");
    assert_eq!(guess_noun_base("--komo", Some(NounClass::Izin)), "komo");
}

#[test]
fn matching_is_case_insensitive_and_keeps_case() {
    assert_eq!(guess_noun_base("UMuntu", Some(NounClass::Class1Um)), "untu");
    assert_eq!(guess_noun_base("IZINkomo", None), "komo");
}

#[test]
fn normalization_stability() {
    let decomposed = "u\u{0301}muntu";
    let precomposed = "\u{fa}muntu";
    assert_eq!(
        guess_noun_base(decomposed, None),
        guess_noun_base(precomposed, None)
    );
    assert_eq!(guess_noun_base(decomposed, None), precomposed);
    assert_eq!(guess_noun_base(precomposed, None), precomposed);
}

#[test]
fn class_1a_short_form() {
    assert_eq!(guess_noun_base("umuntu", Some(NounClass::U)), "muntu");
}

#[test]
fn trim_best_match_first_matching_candidate_wins() {
    assert_eq!(trim_best_match("iinkomo", &["ii"]), "nkomo");
    assert_eq!(trim_best_match("izinkomo", &["ii", "izin"]), "komo");
    assert_eq!(trim_best_match("izinkomo", &["izin", "ii"]), "komo");
    assert_eq!(trim_best_match("komo", &["izin", "ii"]), "komo");
}
