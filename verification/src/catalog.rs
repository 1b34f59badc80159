//! The noun-class catalog: the closed set of Bantu noun classes, the ordered
//! prefix forms of each class, its conventional class-number label, and a
//! reversible numeric tag for interop.

use vstd::prelude::*;

verus! {

/// A Bantu noun class, named by its longest conventional prefix form, and by
/// the class number where the prefix alone is ambiguous (classes 1 and 3
/// both surface as "um").
#[derive(Copy, Clone, Debug, PartialEq, Eq, Hash, Structural)]
pub enum NounClass {
    Class1Um,
    Aba,
    U,
    Oo,
    Class3Um,
    Imi,
    Ili,
    Ama,
    Isi,
    Izi,
    In,
    Izin,
    Ulu,
    Ubu,
    Uku,
}

/// Failure of decoding a `NounClass` from one of its interop
/// representations.
#[derive(Copy, Clone, Debug, PartialEq, Eq, Hash, Structural)]
pub enum NounClassError {
    /// The numeric tag belongs to no class.
    UnrecognizedClassTag,
    /// The class-number label belongs to no class.
    UnrecognizedClassLabel,
}

/// The possible forms of a noun class prefix.
#[derive(Copy, Clone, Debug, PartialEq, Eq, Hash)]
pub struct NounClassPrefix {
    /// Possible forms of the noun class prefix in descending order of length
    pub forms: &'static [&'static str],
}

/// The views of a list of candidate prefix forms, as the model speaks of
/// them.
pub open spec fn form_views(forms: Seq<&str>) -> Seq<Seq<char>> {
    forms.map_values(|f: &str| f@)
}

/// The ordered prefix forms of each class, longest first.
pub open spec fn class_forms(c: NounClass) -> Seq<Seq<char>> {
    match c {
        NounClass::Class1Um => seq!["um"@],
        NounClass::Aba => seq!["aba"@],
        NounClass::U => seq!["u"@],
        NounClass::Oo => seq!["oo"@],
        NounClass::Class3Um => seq!["um"@],
        NounClass::Imi => seq!["imi"@],
        NounClass::Ili => seq!["ili"@],
        NounClass::Ama => seq!["ama"@],
        NounClass::Isi => seq!["isi"@, "is"@],
        NounClass::Izi => seq!["izi"@, "iz"@],
        NounClass::In => seq!["in"@, "im"@, "i"@],
        NounClass::Izin => seq!["izin"@, "iin"@, "iim"@, "ii"@],
        NounClass::Ulu => seq!["ulu"@, "u"@],
        NounClass::Ubu => seq!["ubu"@],
        NounClass::Uku => seq!["uku"@],
    }
}

/// The conventional (Meinhof) class-number label of each class.
pub open spec fn class_number(c: NounClass) -> Seq<char> {
    match c {
        NounClass::Class1Um => "1"@,
        NounClass::Aba => "2"@,
        NounClass::U => "1a"@,
        NounClass::Oo => "2a"@,
        NounClass::Class3Um => "3"@,
        NounClass::Imi => "4"@,
        NounClass::Ili => "5"@,
        NounClass::Ama => "6"@,
        NounClass::Isi => "7"@,
        NounClass::Izi => "8"@,
        NounClass::In => "9"@,
        NounClass::Izin => "10"@,
        NounClass::Ulu => "11"@,
        NounClass::Ubu => "14"@,
        NounClass::Uku => "15"@,
    }
}

/// The stable numeric tag of each class: 1 through 15, assigned in the
/// catalog's declared order.
pub open spec fn class_tag(c: NounClass) -> u8 {
    match c {
        NounClass::Class1Um => 1,
        NounClass::Aba => 2,
        NounClass::U => 3,
        NounClass::Oo => 4,
        NounClass::Class3Um => 5,
        NounClass::Imi => 6,
        NounClass::Ili => 7,
        NounClass::Ama => 8,
        NounClass::Isi => 9,
        NounClass::Izi => 10,
        NounClass::In => 11,
        NounClass::Izin => 12,
        NounClass::Ulu => 13,
        NounClass::Ubu => 14,
        NounClass::Uku => 15,
    }
}

/// The class a numeric tag decodes to, if any.
pub open spec fn class_for_tag(tag: u8) -> Option<NounClass> {
    match tag {
        1u8 => Some(NounClass::Class1Um),
        2u8 => Some(NounClass::Aba),
        3u8 => Some(NounClass::U),
        4u8 => Some(NounClass::Oo),
        5u8 => Some(NounClass::Class3Um),
        6u8 => Some(NounClass::Imi),
        7u8 => Some(NounClass::Ili),
        8u8 => Some(NounClass::Ama),
        9u8 => Some(NounClass::Isi),
        10u8 => Some(NounClass::Izi),
        11u8 => Some(NounClass::In),
        12u8 => Some(NounClass::Izin),
        13u8 => Some(NounClass::Ulu),
        14u8 => Some(NounClass::Ubu),
        15u8 => Some(NounClass::Uku),
        _ => None,
    }
}

/// The class a class-number label decodes to, if any.
pub open spec fn class_for_label(s: Seq<char>) -> Option<NounClass> {
    if s == "1"@ {
        Some(NounClass::Class1Um)
    } else if s == "2"@ {
        Some(NounClass::Aba)
    } else if s == "1a"@ {
        Some(NounClass::U)
    } else if s == "2a"@ {
        Some(NounClass::Oo)
    } else if s == "3"@ {
        Some(NounClass::Class3Um)
    } else if s == "4"@ {
        Some(NounClass::Imi)
    } else if s == "5"@ {
        Some(NounClass::Ili)
    } else if s == "6"@ {
        Some(NounClass::Ama)
    } else if s == "7"@ {
        Some(NounClass::Isi)
    } else if s == "8"@ {
        Some(NounClass::Izi)
    } else if s == "9"@ {
        Some(NounClass::In)
    } else if s == "10"@ {
        Some(NounClass::Izin)
    } else if s == "11"@ {
        Some(NounClass::Ulu)
    } else if s == "14"@ {
        Some(NounClass::Ubu)
    } else if s == "15"@ {
        Some(NounClass::Uku)
    } else {
        None
    }
}

/// Equality of two strings by their character sequences.
pub fn str_eq(a: &str, b: &str) -> (r: bool)
    ensures
        r == (a@ == b@),
{
    let alen = a.unicode_len();
    let blen = b.unicode_len();
    if alen != blen {
        return false;
    }
    let mut i: usize = 0;
    while i < alen
        invariant
            alen == a@.len(),
            blen == b@.len(),
            alen == blen,
            i <= alen,
            forall|j: int| 0 <= j < i ==> a@[j] == b@[j],
        decreases alen - i,
    {
        if a.get_char(i) != b.get_char(i) {
            return false;
        }
        i += 1;
    }
    proof {
        assert(a@ =~= b@);
    }
    true
}

impl NounClass {
    /// Returns all possible forms of the prefix of this class.
    pub fn to_prefix(&self) -> (r: NounClassPrefix)
        ensures
            form_views(r.forms@) == class_forms(*self),
            r.forms@.len() > 0,
    {
        let forms: &'static [&'static str] = match *self {
            NounClass::Class1Um => &["um"],
            NounClass::Aba => &["aba"],
            NounClass::U => &["u"],
            NounClass::Oo => &["oo"],
            NounClass::Class3Um => &["um"],
            NounClass::Imi => &["imi"],
            NounClass::Ili => &["ili"],
            NounClass::Ama => &["ama"],
            NounClass::Isi => &["isi", "is"],
            NounClass::Izi => &["izi", "iz"],
            NounClass::In => &["in", "im", "i"],
            NounClass::Izin => &["izin", "iin", "iim", "ii"],
            NounClass::Ulu => &["ulu", "u"],
            NounClass::Ubu => &["ubu"],
            NounClass::Uku => &["uku"],
        };
        proof {
            assert(form_views(forms@) =~= class_forms(*self));
        }
        NounClassPrefix { forms }
    }

    /// Returns the noun class number of this variant (roughly using
    /// Meinhof's classification).
    pub fn to_number(&self) -> (r: &'static str)
        ensures
            r@ == class_number(*self),
    {
        match *self {
            NounClass::Class1Um => "1",
            NounClass::Aba => "2",
            NounClass::U => "1a",
            NounClass::Oo => "2a",
            NounClass::Class3Um => "3",
            NounClass::Imi => "4",
            NounClass::Ili => "5",
            NounClass::Ama => "6",
            NounClass::Isi => "7",
            NounClass::Izi => "8",
            NounClass::In => "9",
            NounClass::Izin => "10",
            NounClass::Ulu => "11",
            NounClass::Ubu => "14",
            NounClass::Uku => "15",
        }
    }

    /// Returns the stable numeric tag of this class: 1 through 15, assigned
    /// in the catalog's declared order.
    pub fn to_tag(&self) -> (r: u8)
        ensures
            r == class_tag(*self),
    {
        match *self {
            NounClass::Class1Um => 1,
            NounClass::Aba => 2,
            NounClass::U => 3,
            NounClass::Oo => 4,
            NounClass::Class3Um => 5,
            NounClass::Imi => 6,
            NounClass::Ili => 7,
            NounClass::Ama => 8,
            NounClass::Isi => 9,
            NounClass::Izi => 10,
            NounClass::In => 11,
            NounClass::Izin => 12,
            NounClass::Ulu => 13,
            NounClass::Ubu => 14,
            NounClass::Uku => 15,
        }
    }

    /// Decodes a class from its numeric tag; a tag outside 1 through 15 is
    /// rejected as unrecognized.
    pub fn try_from_tag(tag: u8) -> (r: Result<NounClass, NounClassError>)
        ensures
            r == (match class_for_tag(tag) {
                Some(c) => Ok::<NounClass, NounClassError>(c),
                None => Err::<NounClass, NounClassError>(NounClassError::UnrecognizedClassTag),
            }),
    {
        match tag {
            1u8 => Ok(NounClass::Class1Um),
            2u8 => Ok(NounClass::Aba),
            3u8 => Ok(NounClass::U),
            4u8 => Ok(NounClass::Oo),
            5u8 => Ok(NounClass::Class3Um),
            6u8 => Ok(NounClass::Imi),
            7u8 => Ok(NounClass::Ili),
            8u8 => Ok(NounClass::Ama),
            9u8 => Ok(NounClass::Isi),
            10u8 => Ok(NounClass::Izi),
            11u8 => Ok(NounClass::In),
            12u8 => Ok(NounClass::Izin),
            13u8 => Ok(NounClass::Ulu),
            14u8 => Ok(NounClass::Ubu),
            15u8 => Ok(NounClass::Uku),
            _ => Err(NounClassError::UnrecognizedClassTag),
        }
    }

    /// Decodes a class from its class-number label; a label that is no
    /// class's number is rejected as unrecognized.
    pub fn try_from_number(label: &str) -> (r: Result<NounClass, NounClassError>)
        ensures
            r == (match class_for_label(label@) {
                Some(c) => Ok::<NounClass, NounClassError>(c),
                None => Err::<NounClass, NounClassError>(NounClassError::UnrecognizedClassLabel),
            }),
    {
        if str_eq(label, "1") {
            Ok(NounClass::Class1Um)
        } else if str_eq(label, "2") {
            Ok(NounClass::Aba)
        } else if str_eq(label, "1a") {
            Ok(NounClass::U)
        } else if str_eq(label, "2a") {
            Ok(NounClass::Oo)
        } else if str_eq(label, "3") {
            Ok(NounClass::Class3Um)
        } else if str_eq(label, "4") {
            Ok(NounClass::Imi)
        } else if str_eq(label, "5") {
            Ok(NounClass::Ili)
        } else if str_eq(label, "6") {
            Ok(NounClass::Ama)
        } else if str_eq(label, "7") {
            Ok(NounClass::Isi)
        } else if str_eq(label, "8") {
            Ok(NounClass::Izi)
        } else if str_eq(label, "9") {
            Ok(NounClass::In)
        } else if str_eq(label, "10") {
            Ok(NounClass::Izin)
        } else if str_eq(label, "11") {
            Ok(NounClass::Ulu)
        } else if str_eq(label, "14") {
            Ok(NounClass::Ubu)
        } else if str_eq(label, "15") {
            Ok(NounClass::Uku)
        } else {
            Err(NounClassError::UnrecognizedClassLabel)
        }
    }
}

} // verus!
