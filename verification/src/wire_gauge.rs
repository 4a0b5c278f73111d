//! American Wire Gauge sizes and the parser that reads one by its label.
//!
//! The table runs from 4/0 (the thickest) to AWG 40, 44 sizes in all. A size is
//! held as its gauge number, with the aught sizes counted down from zero: 1/0 is
//! 0, 2/0 is −1, 3/0 is −2 and 4/0 is −3.
use vstd::prelude::*;
use crate::text::{
    digit_value, is_digit, lemma_char_code_eq, lemma_digit_value,
    all_white_space, ascii_lower, ascii_lower_char, chars_eq, is_white_space,
    law_lowered_key_ignores_ascii_case, law_lowered_key_ignores_surrounding_white_space,
    trim_end_seq, trim_start_seq, eq_ignore_ascii_case_seq, lower_trimmed,
    lowered_key, seq_or, strip_prefix, strip_prefix_seq, string_from_chars, to_ascii_lowercase,
    trim, trim_seq,
};

verus! {

/// Smallest gauge number in the table (4/0).
pub open spec fn min_gauge() -> int {
    -3
}

/// Largest gauge number in the table (AWG 40).
pub open spec fn max_gauge() -> int {
    40
}

/// Whether gauge number `g` is in the table.
pub open spec fn gauge_in_table(g: int) -> bool {
    min_gauge() <= g <= max_gauge()
}

/// The decimal digit `d` as a character.
pub open spec fn digit_char(d: int) -> char {
    (48 + d) as char
}

/// The label of gauge number `g`: `4/0` to `1/0` for the aught sizes, then the
/// number itself in decimal.
pub open spec fn awg_label(g: int) -> Seq<char> {
    if g <= 0 {
        seq![digit_char(1 - g), '/', '0']
    } else if g < 10 {
        seq![digit_char(g)]
    } else {
        seq![digit_char(g / 10), digit_char(g % 10)]
    }
}

/// The key a gauge is looked up by: the input trimmed and lowered, with one leading
/// `awg` removed and the rest trimmed again.
pub open spec fn awg_key(s: Seq<char>) -> Seq<char> {
    let k = lowered_key(s);
    trim_seq(seq_or(strip_prefix_seq(k, "awg"@), k))
}

/// Whether gauge number `g` has `key` as its label, up to ASCII case.
pub open spec fn awg_matches(g: int, key: Seq<char>) -> bool {
    eq_ignore_ascii_case_seq(awg_label(g), key)
}

/// Facts about a decimal digit character.
proof fn lemma_digit_char(d: int)
    requires
        0 <= d <= 9,
    ensures
        digit_char(d) as u32 == 48 + d,
        !is_white_space(digit_char(d)),
        ascii_lower_char(digit_char(d)) == digit_char(d),
        digit_char(d) != 'a',
        digit_char(d) != '/',
{
}

/// Facts about the characters of a label.
proof fn lemma_label_chars(g: int)
    requires
        gauge_in_table(g),
    ensures
        1 <= awg_label(g).len() <= 3,
        ascii_lower(awg_label(g)) == awg_label(g),
        !is_white_space(awg_label(g)[0]),
        !is_white_space(awg_label(g).last()),
        awg_label(g)[0] != 'a',
{
    let l = awg_label(g);
    if g <= 0 {
        lemma_digit_char(1 - g);
    } else if g < 10 {
        lemma_digit_char(g);
    } else {
        lemma_digit_char(g / 10);
        lemma_digit_char(g % 10);
    }
    assert(ascii_lower(l) =~= l);
}

/// Law: no two sizes in the table share a label.
pub proof fn law_awg_labels_distinct(g1: int, g2: int)
    requires
        gauge_in_table(g1),
        gauge_in_table(g2),
        awg_label(g1) == awg_label(g2),
    ensures
        g1 == g2,
{
    let l1 = awg_label(g1);
    let l2 = awg_label(g2);
    if g1 <= 0 {
        lemma_digit_char(1 - g1);
    } else if g1 < 10 {
        lemma_digit_char(g1);
    } else {
        lemma_digit_char(g1 / 10);
        lemma_digit_char(g1 % 10);
    }
    if g2 <= 0 {
        lemma_digit_char(1 - g2);
    } else if g2 < 10 {
        lemma_digit_char(g2);
    } else {
        lemma_digit_char(g2 / 10);
        lemma_digit_char(g2 % 10);
    }
    assert(l1.len() == l2.len());
    assert(l1[0] == l2[0]);
    if l1.len() == 2 {
        assert(l1[1] == l2[1]);
    }
}

/// Law: a text names at most one size, so the size `awg` returns is the only one
/// whose label matches.
pub proof fn law_awg_match_unique(g1: int, g2: int, key: Seq<char>)
    requires
        gauge_in_table(g1),
        gauge_in_table(g2),
        awg_matches(g1, key),
        awg_matches(g2, key),
    ensures
        g1 == g2,
{
    lemma_label_chars(g1);
    lemma_label_chars(g2);
    law_awg_labels_distinct(g1, g2);
}

/// Law: every size in the table is found by its own label: the label is its own
/// lookup key and matches that size.
pub proof fn law_awg_label_is_found(g: int)
    requires
        gauge_in_table(g),
    ensures
        awg_key(awg_label(g)) == awg_label(g),
        awg_matches(g, awg_label(g)),
{
    let l = awg_label(g);
    lemma_label_chars(g);
    assert(trim_start_seq(l) == l);
    assert(trim_end_seq(l) == l);
    assert(lowered_key(l) == l);
    reveal_strlit("awg");
    if 3 <= l.len() {
        assert(l.subrange(0, 3)[0] != "awg"@[0]);
    }
    assert(strip_prefix_seq(l, "awg"@) is None);
}

/// The number a string of decimal digits denotes, most significant digit first.
pub open spec fn decimal_value(s: Seq<char>) -> int
    decreases s.len(),
{
    if s.len() == 0 {
        0
    } else {
        decimal_value(s.drop_last()) * 10 + digit_value(s.last())
    }
}

/// Whether `s` is a plain decimal numeral: one or more digits, without a leading
/// zero unless it is the single digit `0`.
pub open spec fn is_decimal_numeral(s: Seq<char>) -> bool {
    &&& s.len() >= 1
    &&& forall|i: int| 0 <= i < s.len() ==> is_digit(#[trigger] s[i])
    &&& (s.len() == 1 || s[0] != '0')
}

/// The value of a numeral of one or two digits.
proof fn lemma_short_value(s: Seq<char>)
    ensures
        s.len() == 1 ==> decimal_value(s) == digit_value(s[0]),
        s.len() == 2 ==> decimal_value(s) == digit_value(s[0]) * 10 + digit_value(s[1]),
{
    reveal_with_fuel(decimal_value, 3);
    if s.len() == 1 {
        assert(s.drop_last().len() == 0);
    }
    if s.len() == 2 {
        assert(s.drop_last().drop_last().len() == 0);
        assert(s.drop_last()[0] == s[0]);
    }
}

/// A numeral without a leading zero has at least the size its length implies.
proof fn lemma_numeral_size(s: Seq<char>)
    requires
        s.len() >= 1,
        forall|i: int| 0 <= i < s.len() ==> is_digit(#[trigger] s[i]),
        s[0] != '0',
    ensures
        decimal_value(s) >= 1,
        s.len() >= 2 ==> decimal_value(s) >= 10,
        s.len() >= 3 ==> decimal_value(s) >= 100,
    decreases s.len(),
{
    lemma_digit_value(s[s.len() - 1]);
    if s.len() > 1 {
        let t = s.drop_last();
        assert(t[0] == s[0]);
        assert forall|i: int| 0 <= i < t.len() implies is_digit(#[trigger] t[i]) by {
            assert(t[i] == s[i]);
        }
        lemma_numeral_size(t);
        assert(decimal_value(s) == decimal_value(t) * 10 + digit_value(s.last()));
    } else {
        lemma_digit_value(s[0]);
        lemma_short_value(s);
    }
}

/// Law: the label of every numbered size 1 to 40 is the plain decimal numeral of
/// its gauge number.
pub proof fn law_awg_label_is_numeral(g: int)
    requires
        1 <= g <= 40,
    ensures
        is_decimal_numeral(awg_label(g)),
        decimal_value(awg_label(g)) == g,
{
    let l = awg_label(g);
    lemma_short_value(l);
    if g < 10 {
        lemma_digit_char(g);
    } else {
        lemma_digit_char(g / 10);
        lemma_digit_char(g % 10);
    }
}

/// Law: the label of every aught size is `k/0`, with `k` the number of aughts: 1/0
/// for gauge 0 up to 4/0 for gauge −3.
pub proof fn law_awg_aught_label(g: int)
    requires
        min_gauge() <= g <= 0,
    ensures
        awg_label(g).len() == 3,
        is_digit(awg_label(g)[0]),
        digit_value(awg_label(g)[0]) == 1 - g,
        awg_label(g)[1] == '/',
        awg_label(g)[2] == '0',
{
    lemma_digit_char(1 - g);
}

/// Law: the decimal numeral of a number from 1 to 40 names that gauge and no
/// other: looking up the text `n` finds AWG `n`.
pub proof fn law_awg_numeral_names_its_gauge(key: Seq<char>, n: int)
    requires
        is_decimal_numeral(key),
        decimal_value(key) == n,
        1 <= n <= 40,
    ensures
        awg_matches(n, key),
        forall|g: int| gauge_in_table(g) && awg_matches(g, key) ==> g == n,
{
    law_awg_label_is_numeral(n);
    let l = awg_label(n);
    lemma_short_value(key);
    lemma_short_value(l);
    lemma_digit_value(key[0]);
    if key.len() >= 2 {
        lemma_numeral_size(key);
        lemma_digit_value(key[1]);
    }
    lemma_digit_value(l[0]);
    if l.len() == 2 {
        lemma_digit_value(l[1]);
    }
    if n < 10 {
        assert(l.len() == 1);
        assert(key.len() == 1);
        lemma_char_code_eq(key[0], l[0]);
        assert(key =~= l);
    } else {
        assert(l.len() == 2);
        assert(key.len() == 2) by {
            if key.len() == 1 {
                assert(decimal_value(key) <= 9);
            }
        }
        assert(digit_value(key[0]) == digit_value(l[0]));
        assert(digit_value(key[1]) == digit_value(l[1]));
        lemma_char_code_eq(key[0], l[0]);
        lemma_char_code_eq(key[1], l[1]);
        assert(key =~= l);
    }
    lemma_label_chars(n);
    assert forall|g: int| gauge_in_table(g) && awg_matches(g, key) implies g == n by {
        law_awg_match_unique(g, n, key);
    }
}

/// Law: the key a size is looked up by ignores ASCII case and white space around
/// the text.
pub proof fn law_awg_key_ignores_case_and_white_space(
    s1: Seq<char>,
    s2: Seq<char>,
    w1: Seq<char>,
    w2: Seq<char>,
)
    requires
        ascii_lower(s1) == ascii_lower(s2),
        all_white_space(w1),
        all_white_space(w2),
    ensures
        awg_key(s1) == awg_key(s2),
        awg_key(w1 + s1 + w2) == awg_key(s1),
{
    law_lowered_key_ignores_ascii_case(s1, s2);
    law_lowered_key_ignores_surrounding_white_space(w1, s1, w2);
}

/// A wire size from the AWG table.
#[derive(Debug, Clone, Copy, PartialEq, Eq)]
pub struct Awg {
    gauge: i8,
}

impl Awg {
    #[verifier::type_invariant]
    spec fn in_table(self) -> bool {
        gauge_in_table(self.gauge as int)
    }

    /// The gauge number of this size (1/0 is 0, 4/0 is −3).
    pub closed spec fn number(self) -> int {
        self.gauge as int
    }

    /// The gauge number of this size (1/0 is 0, 4/0 is −3).
    pub fn gauge_number(&self) -> (g: i8)
        ensures
            g == self.number(),
            gauge_in_table(g as int),
    {
        proof {
            use_type_invariant(self);
        }
        self.gauge
    }

    /// Every size in the table, thickest (4/0) first.
    pub fn all() -> (r: Vec<Awg>)
        ensures
            r.len() == 44,
            forall|i: int| 0 <= i < 44 ==> #[trigger] r[i].number() == i + min_gauge(),
    {
        let mut r: Vec<Awg> = Vec::new();
        let mut g: i8 = -3;
        while g <= 40
            invariant
                -3 <= g <= 41,
                r.len() == g + 3,
                forall|i: int| 0 <= i < r.len() ==> #[trigger] r[i].number() == i + min_gauge(),
            decreases 41 - g,
        {
            r.push(Awg { gauge: g });
            g = g + 1;
        }
        r
    }

    /// The characters of this size's label.
    fn label_chars(&self) -> (v: Vec<char>)
        ensures
            v@ == awg_label(self.number()),
    {
        proof {
            use_type_invariant(self);
        }
        let g = self.gauge;
        if g <= 0 {
            let d = (1 - g) as u8;
            let v = vec![digit(d), '/', '0'];
            assert(v@ =~= awg_label(self.number()));
            v
        } else if g < 10 {
            let v = vec![digit(g as u8)];
            assert(v@ =~= awg_label(self.number()));
            v
        } else {
            let v = vec![digit((g / 10) as u8), digit((g % 10) as u8)];
            assert(v@ =~= awg_label(self.number()));
            v
        }
    }

    /// This size's label, such as `4/0` or `22`.
    pub fn label(&self) -> (s: String)
        ensures
            s@ == awg_label(self.number()),
    {
        let v = self.label_chars();
        string_from_chars(&v)
    }
}

/// The decimal digit `d` as a character.
fn digit(d: u8) -> (c: char)
    requires
        d < 10,
    ensures
        c == digit_char(d as int),
{
    (48u8 + d) as char
}

/// Whether `a` and `b` are equal up to ASCII case (`str::eq_ignore_ascii_case`).
fn eq_ignore_ascii_case(a: &Vec<char>, b: &Vec<char>) -> (r: bool)
    ensures
        r == eq_ignore_ascii_case_seq(a@, b@),
{
    let la = to_ascii_lowercase(a);
    let lb = to_ascii_lowercase(b);
    chars_eq(&la, &lb)
}

/// Computes `awg_key(s@)`.
fn awg_key_of(s: &str) -> (k: Vec<char>)
    ensures
        k@ == awg_key(s@),
{
    let lowered = lower_trimmed(s);
    let stripped = match strip_prefix(&lowered, "awg") {
        Some(t) => t,
        None => lowered,
    };
    trim(&stripped)
}

/// Reads a wire size by its label (`4/0`, `22`, `AWG 22`, ...), ignoring surrounding
/// white space and ASCII case; an unknown one is reported with the text given.
pub fn awg(s: &str) -> (r: Result<Awg, String>)
    ensures
        match r {
            Ok(a) => gauge_in_table(a.number()) && awg_matches(a.number(), awg_key(s@)),
            Err(e) => (forall|g: int| gauge_in_table(g) ==> !awg_matches(g, awg_key(s@))) && e@
                == "unknown AWG gauge `"@ + s@ + "`"@,
        },
        is_decimal_numeral(awg_key(s@)) && 1 <= decimal_value(awg_key(s@)) <= 40 ==> (r matches Ok(
            a,
        ) && a.number() == decimal_value(awg_key(s@))),
{
    proof {
        let key = awg_key(s@);
        if is_decimal_numeral(key) && 1 <= decimal_value(key) <= 40 {
            law_awg_numeral_names_its_gauge(key, decimal_value(key));
        }
    }
    let k = awg_key_of(s);
    let gauges = Awg::all();
    let mut i: usize = 0;
    while i < gauges.len()
        invariant
            i <= gauges.len() == 44,
            k@ == awg_key(s@),
            forall|j: int| 0 <= j < 44 ==> #[trigger] gauges[j].number() == j + min_gauge(),
            forall|g: int| min_gauge() <= g < i + min_gauge() ==> !awg_matches(g, k@),
        decreases gauges.len() - i,
    {
        let lab = gauges[i].label_chars();
        if eq_ignore_ascii_case(&lab, &k) {
            proof {
                if is_decimal_numeral(k@) && 1 <= decimal_value(k@) <= 40 {
                    law_awg_numeral_names_its_gauge(k@, decimal_value(k@));
                    let g = gauges[i as int].number();
                    assert(g == i + min_gauge());
                    assert(awg_matches(g, k@));
                    law_awg_match_unique(g, decimal_value(k@), k@);
                }
            }
            return Ok(gauges[i]);
        }
        assert(gauges[i as int].number() == i + min_gauge());
        i = i + 1;
    }
    let mut e = String::from_str("unknown AWG gauge `");
    e.append(s);
    e.append("`");
    Err(e)
}

/// Every label in the table, thickest (4/0) first.
pub fn list_awg() -> (r: Vec<String>)
    ensures
        r.len() == 44,
        forall|i: int| 0 <= i < 44 ==> #[trigger] r[i]@ == awg_label(i + min_gauge()),
        forall|i: int|
            4 <= i < 44 ==> is_decimal_numeral(#[trigger] r[i]@) && decimal_value(r[i]@) == i - 3,
        forall|i: int|
            0 <= i < 4 ==> (#[trigger] r[i]@).len() == 3 && is_digit(r[i]@[0]) && digit_value(
                r[i]@[0],
            ) == 4 - i && r[i]@[1] == '/' && r[i]@[2] == '0',
{
    proof {
        assert forall|g: int| 1 <= g <= 40 implies is_decimal_numeral(#[trigger] awg_label(g))
            && decimal_value(awg_label(g)) == g by {
            law_awg_label_is_numeral(g);
        }
        assert forall|g: int| min_gauge() <= g <= 0 implies (#[trigger] awg_label(g)).len() == 3
            && is_digit(awg_label(g)[0]) && digit_value(awg_label(g)[0]) == 1 - g
            && awg_label(g)[1] == '/' && awg_label(g)[2] == '0' by {
            law_awg_aught_label(g);
        }
    }
    let gauges = Awg::all();
    let mut r: Vec<String> = Vec::new();
    let mut i: usize = 0;
    while i < gauges.len()
        invariant
            i <= gauges.len() == 44,
            r.len() == i,
            forall|j: int| 0 <= j < 44 ==> #[trigger] gauges[j].number() == j + min_gauge(),
            forall|j: int| 0 <= j < i ==> #[trigger] r[j]@ == awg_label(j + min_gauge()),
        decreases gauges.len() - i,
    {
        r.push(gauges[i].label());
        i = i + 1;
    }
    r
}

} // verus!
