use zulu_nouns::NounClass;
use zulu_nouns::NounClassError;

fn all_classes() -> [NounClass; 15] {
    [
        NounClass::Class1Um,
        NounClass::Aba,
        NounClass::U,
        NounClass::Oo,
        NounClass::Class3Um,
        NounClass::Imi,
        NounClass::Ili,
        NounClass::Ama,
        NounClass::Isi,
        NounClass::Izi,
        NounClass::In,
        NounClass::Izin,
        NounClass::Ulu,
        NounClass::Ubu,
        NounClass::Uku,
    ]
}

#[test]
fn prefix_forms_table() {
    assert_eq!(NounClass::Class1Um.to_prefix().forms, &["um"][..]);
    assert_eq!(NounClass::Aba.to_prefix().forms, &["aba"][..]);
    assert_eq!(NounClass::U.to_prefix().forms, &["u"][..]);
    assert_eq!(NounClass::Oo.to_prefix().forms, &["oo"][..]);
    assert_eq!(NounClass::Class3Um.to_prefix().forms, &["um"][..]);
    assert_eq!(NounClass::Imi.to_prefix().forms, &["imi"][..]);
    assert_eq!(NounClass::Ili.to_prefix().forms, &["ili"][..]);
    assert_eq!(NounClass::Ama.to_prefix().forms, &["ama"][..]);
    assert_eq!(NounClass::Isi.to_prefix().forms, &["isi", "is"][..]);
    assert_eq!(NounClass::Izi.to_prefix().forms, &["izi", "iz"][..]);
    assert_eq!(NounClass::In.to_prefix().forms, &["in", "im", "i"][..]);
    assert_eq!(
        NounClass::Izin.to_prefix().forms,
        &["izin", "iin", "iim", "ii"][..]
    );
    assert_eq!(NounClass::Ulu.to_prefix().forms, &["ulu", "u"][..]);
    assert_eq!(NounClass::Ubu.to_prefix().forms, &["ubu"][..]);
    assert_eq!(NounClass::Uku.to_prefix().forms, &["uku"][..]);
}

#[test]
fn forms_are_ordered_longest_first() {
    for class in all_classes() {
        let forms = class.to_prefix().forms;
        assert!(!forms.is_empty());
        for pair in forms.windows(2) {
            assert!(pair[0].len() >= pair[1].len());
        }
    }
}

#[test]
fn class_number_labels() {
    let expected = [
        "1", "2", "1a", "2a", "3", "4", "5", "6", "7", "8", "9", "10", "11", "14", "15",
    ];
    for (class, label) in all_classes().iter().zip(expected.iter()) {
        assert_eq!(class.to_number(), *label);
    }
}

#[test]
fn tags_follow_catalog_order() {
    for (i, class) in all_classes().iter().enumerate() {
        assert_eq!(class.to_tag(), (i + 1) as u8);
    }
}

#[test]
fn tag_round_trip() {
    for class in all_classes() {
        assert_eq!(NounClass::try_from_tag(class.to_tag()), Ok(class));
    }
}

#[test]
fn tag_out_of_range_is_rejected() {
    assert_eq!(
        NounClass::try_from_tag(0),
        Err(NounClassError::UnrecognizedClassTag)
    );
    assert_eq!(
        NounClass::try_from_tag(16),
        Err(NounClassError::UnrecognizedClassTag)
    );
    assert_eq!(
        NounClass::try_from_tag(255),
        Err(NounClassError::UnrecognizedClassTag)
    );
}

#[test]
fn label_round_trip() {
    for class in all_classes() {
        assert_eq!(NounClass::try_from_number(class.to_number()), Ok(class));
    }
}

#[test]
fn unrecognized_label_is_rejected() {
    for label in ["", "0", "12", "13", "16", "3a", "one"] {
        assert_eq!(
            NounClass::try_from_number(label),
            Err(NounClassError::UnrecognizedClassLabel)
        );
    }
}
