//! IPC-2221 conductor-spacing device categories and the parser that reads one.
use vstd::prelude::*;
use crate::text::{digit_value, is_digit, lemma_char_code_eq, lemma_digit_value, eq_str, lower_trimmed, lowered_key, message};

verus! {

/// IPC-2221 conductor-spacing category.
#[derive(Debug, Clone, Copy, PartialEq, Eq, Structural)]
pub enum DeviceType {
    /// B1: internal conductors.
    B1,
    /// B2: external conductors, uncoated, sea level to 3050 m.
    B2,
    /// B3: external conductors, uncoated, above 3050 m.
    B3,
    /// B4: external conductors with permanent polymer coating.
    B4,
    /// B5: external conductors with conformal coating over assembly.
    B5,
    /// A6: external component lead/termination, uncoated.
    A6,
    /// A7: external component lead/termination, conformal coating.
    A7,
    /// A8: external component lead/termination, uncoated, above 3050 m.
    A8,
}

/// The device category that `key` names, if any.
pub open spec fn device_type_named(key: Seq<char>) -> Option<DeviceType> {
    if key == "b1"@ {
        Some(DeviceType::B1)
    } else if key == "b2"@ {
        Some(DeviceType::B2)
    } else if key == "b3"@ {
        Some(DeviceType::B3)
    } else if key == "b4"@ {
        Some(DeviceType::B4)
    } else if key == "b5"@ {
        Some(DeviceType::B5)
    } else if key == "a6"@ {
        Some(DeviceType::A6)
    } else if key == "a7"@ {
        Some(DeviceType::A7)
    } else if key == "a8"@ {
        Some(DeviceType::A8)
    } else {
        None
    }
}

impl DeviceType {
    /// The category's number (B1 is 1, ..., A8 is 8).
    pub open spec fn category_number(self) -> int {
        match self {
            DeviceType::B1 => 1,
            DeviceType::B2 => 2,
            DeviceType::B3 => 3,
            DeviceType::B4 => 4,
            DeviceType::B5 => 5,
            DeviceType::A6 => 6,
            DeviceType::A7 => 7,
            DeviceType::A8 => 8,
        }
    }

    /// The category's letter, in lower case (`b` for bare-board conductors,
    /// `a` for assemblies).
    pub open spec fn category_letter(self) -> char {
        match self {
            DeviceType::B1 | DeviceType::B2 | DeviceType::B3 | DeviceType::B4 | DeviceType::B5 => 'b',
            _ => 'a',
        }
    }
}

/// Law: a device category is named by its letter followed by its number, and the
/// names `b1` to `b5` and `a6` to `a8` each name the category they spell.
pub proof fn law_device_type_named_by_letter_and_number(key: Seq<char>)
    ensures
        device_type_named(key) matches Some(d) ==> key.len() == 2 && key[0]
            == d.category_letter() && is_digit(key[1]) && digit_value(key[1])
            == d.category_number(),
        key.len() == 2 && is_digit(key[1]) ==> ((key[0] == 'b' && 1 <= digit_value(key[1]) <= 5)
            || (key[0] == 'a' && 6 <= digit_value(key[1]) <= 8) ==> (device_type_named(
            key,
        ) matches Some(d) && key[0] == d.category_letter() && digit_value(key[1])
            == d.category_number())),
{
    reveal_strlit("b1");
    reveal_strlit("b2");
    reveal_strlit("b3");
    reveal_strlit("b4");
    reveal_strlit("b5");
    reveal_strlit("a6");
    reveal_strlit("a7");
    reveal_strlit("a8");
    if key.len() == 2 && is_digit(key[1]) {
        lemma_digit_value(key[1]);
        let v = digit_value(key[1]);
        if (key[0] == 'b' && 1 <= v <= 5) || (key[0] == 'a' && 6 <= v <= 8) {
            let lit = if v == 1 {
                "b1"@
            } else if v == 2 {
                "b2"@
            } else if v == 3 {
                "b3"@
            } else if v == 4 {
                "b4"@
            } else if v == 5 {
                "b5"@
            } else if v == 6 {
                "a6"@
            } else if v == 7 {
                "a7"@
            } else {
                "a8"@
            };
            lemma_char_code_eq(key[1], lit[1]);
            assert(key =~= lit);
        }
    }
}

/// Reads a device category (`b1` to `b5`, `a6` to `a8`), ignoring surrounding white
/// space and ASCII case.
pub fn device_type(s: &str) -> (r: Result<DeviceType, String>)
    ensures
        match r {
            Ok(d) => device_type_named(lowered_key(s@)) == Some(d),
            Err(e) => device_type_named(lowered_key(s@)) is None && e@ == "unknown device type `"@
                + lowered_key(s@) + "`"@,
        },
{
    let k = lower_trimmed(s);
    if eq_str(&k, "b1") {
        Ok(DeviceType::B1)
    } else if eq_str(&k, "b2") {
        Ok(DeviceType::B2)
    } else if eq_str(&k, "b3") {
        Ok(DeviceType::B3)
    } else if eq_str(&k, "b4") {
        Ok(DeviceType::B4)
    } else if eq_str(&k, "b5") {
        Ok(DeviceType::B5)
    } else if eq_str(&k, "a6") {
        Ok(DeviceType::A6)
    } else if eq_str(&k, "a7") {
        Ok(DeviceType::A7)
    } else if eq_str(&k, "a8") {
        Ok(DeviceType::A8)
    } else {
        Err(message("unknown device type `", &k, "`"))
    }
}

} // verus!
