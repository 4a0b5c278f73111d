//! Copper build-up choices: base copper weight, via/trace plating and etch factor,
//! and the parsers that read them from the text a user typed.
use vstd::prelude::*;
use crate::text::{
    digit_value, is_digit, lemma_char_code_eq, lemma_digit_value,
    all_white_space, ascii_lower, law_lowered_key_ignores_ascii_case,
    law_lowered_key_ignores_surrounding_white_space, lemma_trim_append_unpadded,
    lemma_trim_idempotent, lemma_trim_lower_commute, lemma_trim_start_idempotent, trim_start_seq,
    eq_str, lower_trimmed, lowered_key, message, seq_or, strip_suffix, strip_suffix_seq, trim,
    trim_seq,
};

verus! {

/// Base copper weight of a layer, in ounces per square foot.
#[derive(Debug, Clone, Copy, PartialEq, Eq, Structural)]
pub enum CopperWeight {
    /// 0.5 oz.
    Oz05,
    /// 1 oz.
    Oz1,
    /// 1.5 oz.
    Oz15,
    /// 2 oz.
    Oz2,
    /// 2.5 oz.
    Oz25,
    /// 3 oz.
    Oz3,
}

/// Plating added on top of the base copper.
#[derive(Debug, Clone, Copy, PartialEq, Eq, Structural)]
pub enum PlatingThickness {
    /// Bare board, no plating.
    Bare,
    /// 0.5 oz.
    Oz05,
    /// 1 oz.
    Oz1,
    /// 1.5 oz.
    Oz15,
    /// 2 oz.
    Oz2,
    /// 2.5 oz.
    Oz25,
    /// 3 oz.
    Oz3,
}

/// Etch factor (side-wall slope) of a trace.
#[derive(Debug, Clone, Copy, PartialEq, Eq, Structural)]
pub enum EtchFactor {
    /// Vertical side walls (no etch).
    NoEtch,
    /// 1:1 etch.
    OneToOne,
    /// 2:1 etch.
    TwoToOne,
}

/// The key an ounce value is looked up by: the input trimmed and lowered, with one
/// trailing `oz` removed and the rest trimmed again.
pub open spec fn oz_key(s: Seq<char>) -> Seq<char> {
    let k = lowered_key(s);
    trim_seq(seq_or(strip_suffix_seq(k, "oz"@), k))
}

/// Law: the key an ounce value is looked up by ignores ASCII case and white space
/// around the text.
pub proof fn law_oz_key_ignores_case_and_white_space(
    s1: Seq<char>,
    s2: Seq<char>,
    w1: Seq<char>,
    w2: Seq<char>,
)
    requires
        ascii_lower(s1) == ascii_lower(s2),
        all_white_space(w1),
        all_white_space(w2),
    ensures
        oz_key(s1) == oz_key(s2),
        oz_key(w1 + s1 + w2) == oz_key(s1),
{
    law_lowered_key_ignores_ascii_case(s1, s2);
    law_lowered_key_ignores_surrounding_white_space(w1, s1, w2);
}

/// Law: the `oz` unit may be written or left out: appending `oz` to a value that
/// does not already end in it gives the same key.
pub proof fn law_oz_suffix_is_optional(s: Seq<char>)
    requires
        strip_suffix_seq(lowered_key(s), "oz"@) is None,
    ensures
        oz_key(s + "oz"@) == oz_key(s),
{
    reveal_strlit("oz");
    let oz = "oz"@;
    let t = trim_start_seq(s);
    lemma_trim_append_unpadded(s, oz);
    assert(trim_seq(s + oz) == t + oz);
    assert(ascii_lower(t + oz) =~= ascii_lower(t) + oz);
    let lt = ascii_lower(t);
    assert((lt + oz).subrange((lt + oz).len() - 2, (lt + oz).len() as int) =~= oz);
    assert((lt + oz).subrange(0, (lt + oz).len() - 2) =~= lt);
    assert(oz_key(s + oz) == trim_seq(lt));
    lemma_trim_lower_commute(t);
    lemma_trim_idempotent(s);
    lemma_trim_start_idempotent(s);
    assert(trim_seq(t) == trim_seq(s));
    lemma_trim_lower_commute(trim_seq(s));
    assert(oz_key(s) == trim_seq(lowered_key(s)));
}

/// The copper weight that `key` names, if any.
pub open spec fn copper_weight_named(key: Seq<char>) -> Option<CopperWeight> {
    if key == "0.5"@ {
        Some(CopperWeight::Oz05)
    } else if key == "1"@ {
        Some(CopperWeight::Oz1)
    } else if key == "1.5"@ {
        Some(CopperWeight::Oz15)
    } else if key == "2"@ {
        Some(CopperWeight::Oz2)
    } else if key == "2.5"@ {
        Some(CopperWeight::Oz25)
    } else if key == "3"@ {
        Some(CopperWeight::Oz3)
    } else {
        None
    }
}

/// The plating thickness that `key` names, if any.
pub open spec fn plating_named(key: Seq<char>) -> Option<PlatingThickness> {
    if key == "bare"@ || key == "0"@ {
        Some(PlatingThickness::Bare)
    } else if key == "0.5"@ {
        Some(PlatingThickness::Oz05)
    } else if key == "1"@ {
        Some(PlatingThickness::Oz1)
    } else if key == "1.5"@ {
        Some(PlatingThickness::Oz15)
    } else if key == "2"@ {
        Some(PlatingThickness::Oz2)
    } else if key == "2.5"@ {
        Some(PlatingThickness::Oz25)
    } else if key == "3"@ {
        Some(PlatingThickness::Oz3)
    } else {
        None
    }
}

/// The etch factor that `key` names, if any.
pub open spec fn etch_factor_named(key: Seq<char>) -> Option<EtchFactor> {
    if key == "none"@ || key == "0"@ {
        Some(EtchFactor::NoEtch)
    } else if key == "1:1"@ || key == "1to1"@ {
        Some(EtchFactor::OneToOne)
    } else if key == "2:1"@ || key == "2to1"@ {
        Some(EtchFactor::TwoToOne)
    } else {
        None
    }
}

impl CopperWeight {
    /// The weight in half-ounces (1 oz is 2).
    pub open spec fn half_ounces(self) -> int {
        match self {
            CopperWeight::Oz05 => 1,
            CopperWeight::Oz1 => 2,
            CopperWeight::Oz15 => 3,
            CopperWeight::Oz2 => 4,
            CopperWeight::Oz25 => 5,
            CopperWeight::Oz3 => 6,
        }
    }
}

impl PlatingThickness {
    /// The plating in half-ounces (bare is 0, 1 oz is 2).
    pub open spec fn half_ounces(self) -> int {
        match self {
            PlatingThickness::Bare => 0,
            PlatingThickness::Oz05 => 1,
            PlatingThickness::Oz1 => 2,
            PlatingThickness::Oz15 => 3,
            PlatingThickness::Oz2 => 4,
            PlatingThickness::Oz25 => 5,
            PlatingThickness::Oz3 => 6,
        }
    }
}

/// The number of half-ounces an ounce value written `d` or `d.5` (one decimal
/// digit `d`) denotes, if it is written so.
pub open spec fn ounce_text_half_ounces(key: Seq<char>) -> Option<int> {
    if key.len() == 1 && is_digit(key[0]) {
        Some(2 * digit_value(key[0]))
    } else if key.len() == 3 && is_digit(key[0]) && key[1] == '.' && key[2] == '5' {
        Some(2 * digit_value(key[0]) + 1)
    } else {
        None
    }
}

/// Facts about the ounce literals of the tables.
proof fn lemma_ounce_literals()
    ensures
        ounce_text_half_ounces("0"@) == Some(0int),
        ounce_text_half_ounces("0.5"@) == Some(1int),
        ounce_text_half_ounces("1"@) == Some(2int),
        ounce_text_half_ounces("1.5"@) == Some(3int),
        ounce_text_half_ounces("2"@) == Some(4int),
        ounce_text_half_ounces("2.5"@) == Some(5int),
        ounce_text_half_ounces("3"@) == Some(6int),
        ounce_text_half_ounces("bare"@) is None,
{
    reveal_strlit("0");
    reveal_strlit("0.5");
    reveal_strlit("1");
    reveal_strlit("1.5");
    reveal_strlit("2");
    reveal_strlit("2.5");
    reveal_strlit("3");
    reveal_strlit("bare");
}

/// Two ounce texts that denote the same number of half-ounces are the same text.
proof fn lemma_ounce_text_unique(a: Seq<char>, b: Seq<char>)
    requires
        ounce_text_half_ounces(a) is Some,
        ounce_text_half_ounces(a) == ounce_text_half_ounces(b),
    ensures
        a == b,
{
    lemma_digit_value(a[0]);
    lemma_digit_value(b[0]);
    if a.len() == 1 {
        assert(b.len() == 1);
        lemma_char_code_eq(a[0], b[0]);
        assert(a =~= b);
    } else {
        assert(b.len() == 3);
        lemma_char_code_eq(a[0], b[0]);
        assert(a =~= b);
    }
}

/// Law: a copper weight is named by its own value in ounces (`d` or `d.5`), and
/// every value from 0.5 to 3 oz in half-ounce steps names the weight of that value.
pub proof fn law_copper_weight_named_by_its_ounces(key: Seq<char>)
    ensures
        copper_weight_named(key) matches Some(w) ==> ounce_text_half_ounces(key) == Some(
            w.half_ounces(),
        ),
        ounce_text_half_ounces(key) matches Some(h) ==> (1 <= h <= 6 ==> (copper_weight_named(
            key,
        ) matches Some(w) && w.half_ounces() == h)),
{
    lemma_ounce_literals();
    if let Some(h) = ounce_text_half_ounces(key) {
        if 1 <= h <= 6 {
            if h == 1 {
                lemma_ounce_text_unique(key, "0.5"@);
            } else if h == 2 {
                lemma_ounce_text_unique(key, "1"@);
            } else if h == 3 {
                lemma_ounce_text_unique(key, "1.5"@);
            } else if h == 4 {
                lemma_ounce_text_unique(key, "2"@);
            } else if h == 5 {
                lemma_ounce_text_unique(key, "2.5"@);
            } else {
                lemma_ounce_text_unique(key, "3"@);
            }
        }
    }
}

/// Law: a plating thickness is named by its own value in ounces (`d` or `d.5`), or
/// by `bare` for no plating; every value from 0 to 3 oz in half-ounce steps names
/// the thickness of that value.
pub proof fn law_plating_named_by_its_ounces(key: Seq<char>)
    ensures
        plating_named(key) matches Some(p) ==> (key == "bare"@ && p == PlatingThickness::Bare)
            || ounce_text_half_ounces(key) == Some(p.half_ounces()),
        ounce_text_half_ounces(key) matches Some(h) ==> (0 <= h <= 6 ==> (plating_named(
            key,
        ) matches Some(p) && p.half_ounces() == h)),
{
    lemma_ounce_literals();
    if let Some(h) = ounce_text_half_ounces(key) {
        if 0 <= h <= 6 {
            if h == 0 {
                lemma_ounce_text_unique(key, "0"@);
            } else if h == 1 {
                lemma_ounce_text_unique(key, "0.5"@);
            } else if h == 2 {
                lemma_ounce_text_unique(key, "1"@);
            } else if h == 3 {
                lemma_ounce_text_unique(key, "1.5"@);
            } else if h == 4 {
                lemma_ounce_text_unique(key, "2"@);
            } else if h == 5 {
                lemma_ounce_text_unique(key, "2.5"@);
            } else {
                lemma_ounce_text_unique(key, "3"@);
            }
        }
    }
}

impl EtchFactor {
    /// The etch ratio's first term: 0 for no etch, 1 for 1:1, 2 for 2:1.
    pub open spec fn ratio(self) -> int {
        match self {
            EtchFactor::NoEtch => 0,
            EtchFactor::OneToOne => 1,
            EtchFactor::TwoToOne => 2,
        }
    }
}

/// Law: an etch factor is named `none` or `0` when there is no etch, and otherwise
/// by its ratio written `n:1` or `nto1`; each of `1:1`, `1to1`, `2:1`, `2to1` names
/// the factor of its ratio.
pub proof fn law_etch_factor_named_by_its_ratio(key: Seq<char>)
    ensures
        etch_factor_named(key) matches Some(f) ==> ((key == "none"@ || key == "0"@) && f.ratio()
            == 0) || (is_digit(key[0]) && digit_value(key[0]) == f.ratio() && (key.subrange(1, key.len() as int) == ":1"@ || key.subrange(1, key.len() as int) == "to1"@)),
        key.len() >= 1 && is_digit(key[0]) && 1 <= digit_value(key[0]) <= 2 && (key.subrange(
            1,
            key.len() as int,
        ) == ":1"@ || key.subrange(1, key.len() as int) == "to1"@) ==> (etch_factor_named(
            key,
        ) matches Some(f) && f.ratio() == digit_value(key[0])),
{
    reveal_strlit("none");
    reveal_strlit("0");
    reveal_strlit("1:1");
    reveal_strlit("1to1");
    reveal_strlit("2:1");
    reveal_strlit("2to1");
    reveal_strlit(":1");
    reveal_strlit("to1");
    assert("1:1"@.subrange(1, 3) =~= ":1"@);
    assert("2:1"@.subrange(1, 3) =~= ":1"@);
    assert("1to1"@.subrange(1, 4) =~= "to1"@);
    assert("2to1"@.subrange(1, 4) =~= "to1"@);
    if key.len() >= 1 && is_digit(key[0]) && 1 <= digit_value(key[0]) <= 2 {
        let rest = key.subrange(1, key.len() as int);
        if rest == ":1"@ || rest == "to1"@ {
            let lit = if digit_value(key[0]) == 1 {
                if rest == ":1"@ {
                    "1:1"@
                } else {
                    "1to1"@
                }
            } else {
                if rest == ":1"@ {
                    "2:1"@
                } else {
                    "2to1"@
                }
            };
            lemma_char_code_eq(key[0], lit[0]);
            assert(key.len() == lit.len());
            assert forall|i: int| 0 <= i < key.len() implies key[i] == lit[i] by {
                if i > 0 {
                    assert(key[i] == rest[i - 1]);
                    assert(lit[i] == lit.subrange(1, lit.len() as int)[i - 1]);
                }
            }
            assert(key =~= lit);
        }
    }
}

/// Computes `oz_key(s@)`.
fn oz_key_of(s: &str) -> (k: Vec<char>)
    ensures
        k@ == oz_key(s@),
{
    let lowered = lower_trimmed(s);
    let stripped = match strip_suffix(&lowered, "oz") {
        Some(t) => t,
        None => lowered,
    };
    trim(&stripped)
}

impl CopperWeight {
    /// Reads a copper weight such as `1`, `0.5oz` or ` 2 OZ `.
    pub fn from_str_oz(s: &str) -> (r: Option<CopperWeight>)
        ensures
            r == copper_weight_named(oz_key(s@)),
    {
        let k = oz_key_of(s);
        if eq_str(&k, "0.5") {
            Some(CopperWeight::Oz05)
        } else if eq_str(&k, "1") {
            Some(CopperWeight::Oz1)
        } else if eq_str(&k, "1.5") {
            Some(CopperWeight::Oz15)
        } else if eq_str(&k, "2") {
            Some(CopperWeight::Oz2)
        } else if eq_str(&k, "2.5") {
            Some(CopperWeight::Oz25)
        } else if eq_str(&k, "3") {
            Some(CopperWeight::Oz3)
        } else {
            None
        }
    }
}

/// Reads a base copper weight; an unknown one is reported with the text given.
pub fn copper_weight(s: &str) -> (r: Result<CopperWeight, String>)
    ensures
        match r {
            Ok(w) => copper_weight_named(oz_key(s@)) == Some(w),
            Err(e) => copper_weight_named(oz_key(s@)) is None && e@ == "unknown copper weight: "@
                + s@,
        },
{
    match CopperWeight::from_str_oz(s) {
        Some(w) => Ok(w),
        None => {
            let mut e = String::from_str("unknown copper weight: ");
            e.append(s);
            Err(e)
        },
    }
}

/// Reads a plating thickness: `bare` or `0`, or an ounce value from 0.5 to 3, with an
/// optional `oz` suffix.
pub fn plating(s: &str) -> (r: Result<PlatingThickness, String>)
    ensures
        match r {
            Ok(p) => plating_named(oz_key(s@)) == Some(p),
            Err(e) => plating_named(oz_key(s@)) is None && e@ == "unknown plating thickness `"@
                + oz_key(s@) + "`"@,
        },
{
    let k = oz_key_of(s);
    if eq_str(&k, "bare") || eq_str(&k, "0") {
        Ok(PlatingThickness::Bare)
    } else if eq_str(&k, "0.5") {
        Ok(PlatingThickness::Oz05)
    } else if eq_str(&k, "1") {
        Ok(PlatingThickness::Oz1)
    } else if eq_str(&k, "1.5") {
        Ok(PlatingThickness::Oz15)
    } else if eq_str(&k, "2") {
        Ok(PlatingThickness::Oz2)
    } else if eq_str(&k, "2.5") {
        Ok(PlatingThickness::Oz25)
    } else if eq_str(&k, "3") {
        Ok(PlatingThickness::Oz3)
    } else {
        Err(message("unknown plating thickness `", &k, "`"))
    }
}

/// Reads an etch factor: `none` or `0`, `1:1` or `1to1`, `2:1` or `2to1`.
pub fn etch_factor(s: &str) -> (r: Result<EtchFactor, String>)
    ensures
        match r {
            Ok(f) => etch_factor_named(lowered_key(s@)) == Some(f),
            Err(e) => etch_factor_named(lowered_key(s@)) is None && e@ == "unknown etch factor `"@
                + lowered_key(s@) + "`"@,
        },
{
    let k = lower_trimmed(s);
    if eq_str(&k, "none") || eq_str(&k, "0") {
        Ok(EtchFactor::NoEtch)
    } else if eq_str(&k, "1:1") || eq_str(&k, "1to1") {
        Ok(EtchFactor::OneToOne)
    } else if eq_str(&k, "2:1") || eq_str(&k, "2to1") {
        Ok(EtchFactor::TwoToOne)
    } else {
        Err(message("unknown etch factor `", &k, "`"))
    }
}

} // verus!
