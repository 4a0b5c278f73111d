//! Reading calculator parameters by name.
//!
//! A calculator's parameters arrive as named values, each a flag, a text field, a
//! number, or nothing at all. [`ParamValue`] holds what the readers here look at;
//! numbers are read elsewhere. A list of numbers may arrive as free text, which
//! [`list_tokens`] cuts into the pieces that are then read as numbers.
use vstd::prelude::*;
use crate::text::{is_white_space, is_whitespace, chars_of, string_from_chars};

verus! {

/// One named parameter as supplied by the caller.
pub enum ParamValue {
    /// An explicit null.
    Null,
    /// A flag.
    Bool(bool),
    /// A number (read by the numeric readers, not here).
    Number,
    /// A text field.
    Text(String),
    /// A list.
    List,
    /// A nested object.
    Object,
}

/// The flag a parameter gives: a flag as is, a text field when it reads `true`, and
/// `default` for anything else, or when the parameter is missing.
pub open spec fn bool_param(value: Option<&ParamValue>, default: bool) -> bool {
    match value {
        Some(ParamValue::Bool(b)) => *b,
        Some(ParamValue::Text(s)) => s@ == "true"@,
        _ => default,
    }
}

/// The text a parameter gives: a non-empty text field, else `default`.
pub open spec fn str_param(value: Option<&ParamValue>, default: Seq<char>) -> Seq<char> {
    match value {
        Some(ParamValue::Text(s)) => if s@.len() > 0 {
            s@
        } else {
            default
        },
        _ => default,
    }
}

/// Reads a flag parameter, falling back to `default`.
pub fn bool_or(value: Option<&ParamValue>, default: bool) -> (b: bool)
    ensures
        b == bool_param(value, default),
{
    match value {
        Some(ParamValue::Bool(b)) => *b,
        Some(ParamValue::Text(s)) => {
            let v = chars_of(s.as_str());
            crate::text::eq_str(&v, "true")
        },
        _ => default,
    }
}

/// Reads a text parameter, falling back to `default` when it is missing, empty or
/// not text.
pub fn str_or<'a>(value: Option<&'a ParamValue>, default: &'a str) -> (r: &'a str)
    ensures
        r@ == str_param(value, default@),
{
    match value {
        Some(ParamValue::Text(s)) => {
            let t = s.as_str();
            if t.is_empty() {
                default
            } else {
                t
            }
        },
        _ => default,
    }
}

/// Whether `c` separates the numbers of a list: a comma or white space.
pub open spec fn is_list_separator(c: char) -> bool {
    c == ',' || is_white_space(c)
}

/// The pieces of `s` between separators, as `str::split` yields them: `k`
/// separators give `k + 1` pieces, some of them possibly empty.
pub open spec fn split_pieces(s: Seq<char>) -> Seq<Seq<char>>
    decreases s.len(),
{
    if s.len() == 0 {
        seq![Seq::<char>::empty()]
    } else {
        let p = split_pieces(s.drop_last());
        if is_list_separator(s.last()) {
            p.push(Seq::<char>::empty())
        } else {
            p.update(p.len() - 1, p.last().push(s.last()))
        }
    }
}

/// Whether a piece is kept as a token (it is not empty).
pub open spec fn is_token(t: Seq<char>) -> bool {
    t.len() > 0
}

/// The tokens of a list: its non-empty pieces, in order.
pub open spec fn list_token_seq(s: Seq<char>) -> Seq<Seq<char>> {
    split_pieces(s).filter(|t: Seq<char>| is_token(t))
}

/// There is always at least one piece.
proof fn lemma_split_pieces_len(s: Seq<char>)
    ensures
        split_pieces(s).len() >= 1,
    decreases s.len(),
{
    if s.len() > 0 {
        lemma_split_pieces_len(s.drop_last());
    }
}

/// Filtering a sequence with one more element at its end.
proof fn lemma_filter_push(p: Seq<Seq<char>>, t: Seq<char>)
    ensures
        p.push(t).filter(|x: Seq<char>| is_token(x)) == if is_token(t) {
            p.filter(|x: Seq<char>| is_token(x)).push(t)
        } else {
            p.filter(|x: Seq<char>| is_token(x))
        },
{
    reveal_with_fuel(Seq::<_>::filter, 1);
    assert(p.push(t).drop_last() =~= p);
}

/// Whether no character of `t` is a separator.
pub open spec fn separator_free(t: Seq<char>) -> bool {
    forall|j: int| 0 <= j < t.len() ==> #[trigger] t[j] != ',' && !is_white_space(t[j])
}

/// Every piece of a split is free of separators.
proof fn lemma_pieces_separator_free(s: Seq<char>)
    ensures
        forall|i: int|
            0 <= i < split_pieces(s).len() ==> separator_free(#[trigger] split_pieces(s)[i]),
    decreases s.len(),
{
    lemma_split_pieces_len(s);
    if s.len() > 0 {
        lemma_pieces_separator_free(s.drop_last());
        lemma_split_pieces_len(s.drop_last());
        let p = split_pieces(s.drop_last());
        if !is_list_separator(s.last()) {
            let last = p.last().push(s.last());
            assert(separator_free(p[p.len() - 1]));
            assert(separator_free(last));
        }
    }
}

/// Law: every token of a list is non-empty and holds no comma or white space.
pub proof fn law_tokens_are_separator_free(s: Seq<char>)
    ensures
        forall|i: int|
            0 <= i < list_token_seq(s).len() ==> is_token(#[trigger] list_token_seq(s)[i])
                && separator_free(list_token_seq(s)[i]),
{
    let pred = |t: Seq<char>| is_token(t);
    let p = split_pieces(s);
    lemma_pieces_separator_free(s);
    assert forall|i: int| 0 <= i < list_token_seq(s).len() implies is_token(
        #[trigger] list_token_seq(s)[i],
    ) && separator_free(list_token_seq(s)[i]) by {
        p.lemma_filter_pred(pred, i);
        let t = p.filter(pred)[i];
        assert(p.filter(pred).contains(t));
        p.lemma_filter_contains_rev(pred, t);
        let k = choose|k: int| 0 <= k < p.len() && p[k] == t;
        assert(separator_free(p[k]));
    }
}

/// A text without commas or white space is a single piece.
proof fn lemma_pieces_of_separator_free(s: Seq<char>)
    requires
        separator_free(s),
    ensures
        split_pieces(s) == seq![s],
    decreases s.len(),
{
    if s.len() == 0 {
        assert(s =~= Seq::<char>::empty());
        assert(split_pieces(s) =~= seq![s]);
    } else {
        let t = s.drop_last();
        assert forall|j: int| 0 <= j < t.len() implies #[trigger] t[j] != ',' && !is_white_space(
            t[j],
        ) by {
            assert(t[j] == s[j]);
        }
        lemma_pieces_of_separator_free(t);
        assert(s[s.len() - 1] != ',' && !is_white_space(s[s.len() - 1]));
        assert(!is_list_separator(s.last()));
        let p = split_pieces(t);
        assert(split_pieces(s) == p.update(p.len() - 1, p.last().push(s.last())));
        assert(t.push(s.last()) =~= s);
        assert(split_pieces(s) =~= seq![s]);
    }
}

/// Law: a non-empty text without commas or white space is one token, kept whole
/// (so `4.7` stays one token).
pub proof fn law_separator_free_text_is_one_token(s: Seq<char>)
    requires
        s.len() > 0,
        forall|i: int| 0 <= i < s.len() ==> #[trigger] s[i] != ',' && !is_white_space(s[i]),
    ensures
        list_token_seq(s) == seq![s],
{
    lemma_pieces_of_separator_free(s);
    lemma_filter_push(Seq::<Seq<char>>::empty(), s);
    reveal_with_fuel(Seq::<_>::filter, 1);
    assert(Seq::<Seq<char>>::empty().push(s) =~= seq![s]);
    assert(Seq::<Seq<char>>::empty().filter(|x: Seq<char>| is_token(x)) =~= Seq::<
        Seq<char>,
    >::empty());
    assert(Seq::<Seq<char>>::empty().push(s) =~= seq![s]);
}

/// Every piece of a text made only of commas and white space is empty.
proof fn lemma_pieces_of_separators(s: Seq<char>)
    requires
        forall|i: int| 0 <= i < s.len() ==> #[trigger] s[i] == ',' || is_white_space(s[i]),
    ensures
        forall|i: int| 0 <= i < split_pieces(s).len() ==> (#[trigger] split_pieces(s)[i]).len()
            == 0,
    decreases s.len(),
{
    if s.len() > 0 {
        let t = s.drop_last();
        assert forall|j: int| 0 <= j < t.len() implies #[trigger] t[j] == ',' || is_white_space(
            t[j],
        ) by {
            assert(t[j] == s[j]);
        }
        lemma_pieces_of_separators(t);
        assert(s[s.len() - 1] == ',' || is_white_space(s[s.len() - 1]));
        assert(is_list_separator(s.last()));
        let p = split_pieces(t);
        assert(split_pieces(s) == p.push(Seq::<char>::empty()));
        assert forall|i: int| 0 <= i < split_pieces(s).len() implies (#[trigger] split_pieces(
            s,
        )[i]).len() == 0 by {
            if i < p.len() {
                assert(split_pieces(s)[i] == p[i]);
            }
        }
    } else {
        assert(split_pieces(s) == seq![Seq::<char>::empty()]);
    }
}

/// Filtering a sequence of empty pieces leaves nothing.
proof fn lemma_filter_of_empty_pieces(p: Seq<Seq<char>>)
    requires
        forall|i: int| 0 <= i < p.len() ==> (#[trigger] p[i]).len() == 0,
    ensures
        p.filter(|x: Seq<char>| is_token(x)).len() == 0,
    decreases p.len(),
{
    reveal_with_fuel(Seq::<_>::filter, 1);
    if p.len() > 0 {
        let q = p.drop_last();
        assert forall|i: int| 0 <= i < q.len() implies (#[trigger] q[i]).len() == 0 by {
            assert(q[i] == p[i]);
        }
        lemma_filter_of_empty_pieces(q);
        assert(p[p.len() - 1].len() == 0);
    }
}

/// Law: a text made only of commas and white space holds no token.
pub proof fn law_separators_only_give_no_tokens(s: Seq<char>)
    requires
        forall|i: int| 0 <= i < s.len() ==> #[trigger] s[i] == ',' || is_white_space(s[i]),
    ensures
        list_token_seq(s).len() == 0,
{
    lemma_pieces_of_separators(s);
    lemma_filter_of_empty_pieces(split_pieces(s));
}

/// Splitting at one separator joins the pieces of both sides.
proof fn lemma_pieces_concat(s1: Seq<char>, c: char, s2: Seq<char>)
    requires
        c == ',' || is_white_space(c),
    ensures
        split_pieces(s1 + seq![c] + s2) == split_pieces(s1) + split_pieces(s2),
    decreases s2.len(),
{
    let x = s1 + seq![c] + s2;
    lemma_split_pieces_len(s1);
    if s2.len() == 0 {
        assert(x =~= s1.push(c));
        assert(x.drop_last() =~= s1);
        assert(split_pieces(s1) + split_pieces(s2) =~= split_pieces(s1).push(Seq::<char>::empty()));
    } else {
        let y = s2.drop_last();
        assert(x.drop_last() =~= s1 + seq![c] + y);
        assert(x.last() == s2.last());
        lemma_pieces_concat(s1, c, y);
        lemma_split_pieces_len(y);
        let p1 = split_pieces(s1);
        let q = split_pieces(y);
        if is_list_separator(s2.last()) {
            assert((p1 + q).push(Seq::<char>::empty()) =~= p1 + q.push(Seq::<char>::empty()));
        } else {
            assert((p1 + q).update((p1 + q).len() - 1, (p1 + q).last().push(s2.last())) =~= p1
                + q.update(q.len() - 1, q.last().push(s2.last())));
        }
    }
}

/// Law: a comma or white space splits a list into the tokens before it followed
/// by the tokens after it.
pub proof fn law_tokens_split_at_separator(s1: Seq<char>, c: char, s2: Seq<char>)
    requires
        c == ',' || is_white_space(c),
    ensures
        list_token_seq(s1 + seq![c] + s2) == list_token_seq(s1) + list_token_seq(s2),
{
    lemma_pieces_concat(s1, c, s2);
    Seq::filter_distributes_over_add(split_pieces(s1), split_pieces(s2), |t: Seq<char>| is_token(t));
}

/// Law: a text parameter decides a flag by itself, whatever the default: it is set
/// exactly when the text is `true`. A flag is taken as is, and a missing
/// parameter gives the default.
pub proof fn law_bool_or_reads_text_without_default(value: Option<&ParamValue>, d1: bool, d2: bool)
    ensures
        value matches Some(ParamValue::Text(s)) ==> bool_param(value, d1) == (s@ == "true"@)
            && bool_param(value, d1) == bool_param(value, d2),
        value matches Some(ParamValue::Bool(b)) ==> bool_param(value, d1) == *b,
        value is None ==> bool_param(value, d1) == d1,
{
}

/// Law: every non-empty text parameter is read as given; an empty text, a
/// parameter that is not text, or a missing one gives the default.
pub proof fn law_str_or_keeps_non_empty_text(value: Option<&ParamValue>, d: Seq<char>)
    ensures
        value matches Some(ParamValue::Text(s)) ==> (s@.len() > 0 ==> str_param(value, d) == s@),
        value matches Some(ParamValue::Text(s)) ==> (s@.len() == 0 ==> str_param(value, d) == d),
        !(value matches Some(ParamValue::Text(_))) ==> str_param(value, d) == d,
{
}

/// The views of a vector of strings.
pub open spec fn string_views(v: Seq<String>) -> Seq<Seq<char>> {
    v.map_values(|t: String| t@)
}

/// Cuts a list of numbers typed as free text into its tokens: the pieces between
/// commas and white space, with empty pieces dropped.
pub fn list_tokens(s: &str) -> (r: Vec<String>)
    ensures
        string_views(r@) == list_token_seq(s@),
{
    let v = chars_of(s);
    let mut out: Vec<String> = Vec::new();
    let mut cur: Vec<char> = Vec::new();
    let mut i: usize = 0;
    proof {
        assert(v@.take(0) =~= Seq::<char>::empty());
        assert(split_pieces(v@.take(0)).drop_last() =~= Seq::<Seq<char>>::empty());
        reveal_with_fuel(Seq::<_>::filter, 1);
        assert(string_views(out@) =~= Seq::<Seq<char>>::empty());
    }
    while i < v.len()
        invariant
            i <= v.len(),
            v@ == s@,
            split_pieces(v@.take(i as int)).len() >= 1,
            split_pieces(v@.take(i as int)).last() == cur@,
            string_views(out@) == split_pieces(v@.take(i as int)).drop_last().filter(
                |t: Seq<char>| is_token(t),
            ),
        decreases v.len() - i,
    {
        let c = v[i];
        let ghost before = v@.take(i as int);
        let ghost p = split_pieces(before);
        assert(v@.take(i + 1).drop_last() =~= before);
        assert(v@.take(i + 1).last() == c);
        if c == ',' || is_whitespace(c) {
            proof {
                lemma_filter_push(p.drop_last(), cur@);
                assert(p.drop_last().push(cur@) =~= p);
            }
            if cur.len() > 0 {
                let ghost prev = out@;
                let t = string_from_chars(&cur);
                out.push(t);
                assert(string_views(out@) =~= string_views(prev).push(t@));
            }
            cur = Vec::new();
            proof {
                assert(split_pieces(v@.take(i + 1)) == p.push(Seq::<char>::empty()));
                assert(p.push(Seq::<char>::empty()).drop_last() =~= p);
            }
        } else {
            cur.push(c);
            proof {
                assert(split_pieces(v@.take(i + 1)) == p.update(p.len() - 1, p.last().push(c)));
                assert(p.update(p.len() - 1, p.last().push(c)).drop_last() =~= p.drop_last());
            }
        }
        i = i + 1;
    }
    proof {
        assert(v@.take(i as int) =~= v@);
        let p = split_pieces(v@);
        lemma_filter_push(p.drop_last(), cur@);
        assert(p.drop_last().push(cur@) =~= p);
    }
    if cur.len() > 0 {
        let ghost prev = out@;
        let t = string_from_chars(&cur);
        out.push(t);
        assert(string_views(out@) =~= string_views(prev).push(t@));
    }
    out
}

} // verus!
