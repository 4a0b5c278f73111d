//! Character-level text handling shared by the parameter parsers.
//!
//! Every parser in this crate first normalises its input the same way: it removes
//! surrounding white space (`str::trim`), folds ASCII letters to lower case
//! (`str::to_ascii_lowercase`), and may strip a fixed prefix or suffix. This module
//! states those steps as spec functions over `Seq<char>` and implements them on
//! `Vec<char>`.
use vstd::prelude::*;

verus! {

/// The Unicode `White_Space` property, which is what `char::is_whitespace` and
/// `str::trim` test.
pub open spec fn is_white_space(c: char) -> bool {
    let u = c as u32;
    ||| 0x09 <= u && u <= 0x0D
    ||| u == 0x20
    ||| u == 0x85
    ||| u == 0xA0
    ||| u == 0x1680
    ||| 0x2000 <= u && u <= 0x200A
    ||| u == 0x2028
    ||| u == 0x2029
    ||| u == 0x202F
    ||| u == 0x205F
    ||| u == 0x3000
}

/// `s` with its leading white space removed.
pub open spec fn trim_start_seq(s: Seq<char>) -> Seq<char>
    decreases s.len(),
{
    if s.len() > 0 && is_white_space(s[0]) {
        trim_start_seq(s.drop_first())
    } else {
        s
    }
}

/// `s` with its trailing white space removed.
pub open spec fn trim_end_seq(s: Seq<char>) -> Seq<char>
    decreases s.len(),
{
    if s.len() > 0 && is_white_space(s.last()) {
        trim_end_seq(s.drop_last())
    } else {
        s
    }
}

/// `s` with white space removed at both ends, as `str::trim` returns it.
pub open spec fn trim_seq(s: Seq<char>) -> Seq<char> {
    trim_end_seq(trim_start_seq(s))
}

/// `c` with an ASCII upper-case letter mapped to its lower-case form.
pub open spec fn ascii_lower_char(c: char) -> char {
    if 'A' <= c && c <= 'Z' {
        ((c as u32) + 32) as char
    } else {
        c
    }
}

/// `s` with every ASCII upper-case letter lowered, as `str::to_ascii_lowercase` does.
pub open spec fn ascii_lower(s: Seq<char>) -> Seq<char> {
    s.map_values(|c: char| ascii_lower_char(c))
}

/// Whether `a` and `b` are equal up to ASCII case, as `str::eq_ignore_ascii_case` decides.
pub open spec fn eq_ignore_ascii_case_seq(a: Seq<char>, b: Seq<char>) -> bool {
    ascii_lower(a) == ascii_lower(b)
}

/// `s` without `prefix`, when it starts with it (`str::strip_prefix`).
pub open spec fn strip_prefix_seq(s: Seq<char>, prefix: Seq<char>) -> Option<Seq<char>> {
    if prefix.len() <= s.len() && s.subrange(0, prefix.len() as int) == prefix {
        Some(s.subrange(prefix.len() as int, s.len() as int))
    } else {
        None
    }
}

/// `s` without `suffix`, when it ends with it (`str::strip_suffix`).
pub open spec fn strip_suffix_seq(s: Seq<char>, suffix: Seq<char>) -> Option<Seq<char>> {
    if suffix.len() <= s.len() && s.subrange(s.len() - suffix.len(), s.len() as int) == suffix {
        Some(s.subrange(0, s.len() - suffix.len()))
    } else {
        None
    }
}

/// The contents of `o`, or `s` when there are none (`Option::unwrap_or`).
pub open spec fn seq_or(o: Option<Seq<char>>, s: Seq<char>) -> Seq<char> {
    match o {
        Some(t) => t,
        None => s,
    }
}

/// The key that the name parsers compare: the input trimmed and lowered.
pub open spec fn lowered_key(s: Seq<char>) -> Seq<char> {
    ascii_lower(trim_seq(s))
}

/// Law: among the ASCII characters, white space is exactly tab, line feed, vertical
/// tab, form feed, carriage return and space; no visible ASCII character (letters,
/// digits, `.`, `,`, `/`, `:` and the rest) is white space.
pub proof fn law_ascii_white_space(c: char)
    requires
        (c as u32) < 0x80,
    ensures
        is_white_space(c) == (c == '\t' || c == '\n' || c == '\x0B' || c == '\x0C' || c == '\r'
            || c == ' '),
        0x21 <= (c as u32) && (c as u32) <= 0x7E ==> !is_white_space(c),
{
}

/// The value of a decimal digit character (`'0'` is 0, ..., `'9'` is 9).
pub open spec fn digit_value(c: char) -> int {
    c as int - 48
}

/// Whether `c` is one of the decimal digits `0` to `9`.
pub open spec fn is_digit(c: char) -> bool {
    '0' <= c && c <= '9'
}

/// A digit's value lies in 0..=9, and only `'0'` has value 0.
pub proof fn lemma_digit_value(c: char)
    requires
        is_digit(c),
    ensures
        0 <= digit_value(c) <= 9,
        (digit_value(c) == 0) == (c == '0'),
{
    assert((c as u32 == 48) ==> c == '0') by {
        if c as u32 == 48 {
            assert(c as u32 == '0' as u32);
        }
    }
}

/// Characters with the same code are the same character.
pub proof fn lemma_char_code_eq(a: char, b: char)
    requires
        a as u32 == b as u32,
    ensures
        a == b,
{
}

/// Law: lowering maps each ASCII capital `A`..`Z` to the small letter 32 code
/// points above it, leaves every other character as it is, and never yields a
/// capital.
pub proof fn law_ascii_lower_char(c: char)
    ensures
        'A' <= c && c <= 'Z' ==> 'a' <= ascii_lower_char(c) && ascii_lower_char(c) <= 'z' && (
        ascii_lower_char(c) as u32) == (c as u32) + 32,
        !('A' <= c && c <= 'Z') ==> ascii_lower_char(c) == c,
        !('A' <= ascii_lower_char(c) && ascii_lower_char(c) <= 'Z'),
{
}

/// Whether every character of `w` is white space.
pub open spec fn all_white_space(w: Seq<char>) -> bool {
    forall|i: int| 0 <= i < w.len() ==> is_white_space(#[trigger] w[i])
}

/// Lowering ASCII letters never turns white space into something else, nor the reverse.
proof fn lemma_lower_keeps_white_space(c: char)
    ensures
        is_white_space(ascii_lower_char(c)) == is_white_space(c),
{
}

proof fn lemma_trim_start_lower(s: Seq<char>)
    ensures
        trim_start_seq(ascii_lower(s)) == ascii_lower(trim_start_seq(s)),
    decreases s.len(),
{
    if s.len() > 0 {
        lemma_lower_keeps_white_space(s[0]);
        assert(ascii_lower(s)[0] == ascii_lower_char(s[0]));
        if is_white_space(s[0]) {
            assert(ascii_lower(s).drop_first() =~= ascii_lower(s.drop_first()));
            lemma_trim_start_lower(s.drop_first());
        }
    }
}

proof fn lemma_trim_end_lower(s: Seq<char>)
    ensures
        trim_end_seq(ascii_lower(s)) == ascii_lower(trim_end_seq(s)),
    decreases s.len(),
{
    if s.len() > 0 {
        lemma_lower_keeps_white_space(s.last());
        assert(ascii_lower(s).last() == ascii_lower_char(s.last()));
        if is_white_space(s.last()) {
            assert(ascii_lower(s).drop_last() =~= ascii_lower(s.drop_last()));
            lemma_trim_end_lower(s.drop_last());
        }
    }
}

/// Trimming and lowering ASCII letters may be done in either order.
pub proof fn lemma_trim_lower_commute(s: Seq<char>)
    ensures
        trim_seq(ascii_lower(s)) == ascii_lower(trim_seq(s)),
{
    lemma_trim_start_lower(s);
    lemma_trim_end_lower(trim_start_seq(s));
}


/// Law: the lookup key of a name depends on the text only through its ASCII-lowered
/// form, so two texts that differ only in ASCII letter case give the same key.
pub proof fn law_lowered_key_ignores_ascii_case(s1: Seq<char>, s2: Seq<char>)
    requires
        ascii_lower(s1) == ascii_lower(s2),
    ensures
        lowered_key(s1) == lowered_key(s2),
{
    lemma_trim_lower_commute(s1);
    lemma_trim_lower_commute(s2);
}

proof fn lemma_trim_start_white_prefix(w: Seq<char>, x: Seq<char>)
    requires
        all_white_space(w),
    ensures
        trim_start_seq(w + x) == trim_start_seq(x),
    decreases w.len(),
{
    if w.len() > 0 {
        assert((w + x)[0] == w[0]);
        assert((w + x).drop_first() =~= w.drop_first() + x);
        lemma_trim_start_white_prefix(w.drop_first(), x);
    } else {
        assert(w + x =~= x);
    }
}

proof fn lemma_trim_end_white_suffix(x: Seq<char>, w: Seq<char>)
    requires
        all_white_space(w),
    ensures
        trim_end_seq(x + w) == trim_end_seq(x),
    decreases w.len(),
{
    if w.len() > 0 {
        assert((x + w).last() == w.last());
        assert((x + w).drop_last() =~= x + w.drop_last());
        lemma_trim_end_white_suffix(x, w.drop_last());
    } else {
        assert(x + w =~= x);
    }
}

proof fn lemma_trim_start_white(w: Seq<char>)
    requires
        all_white_space(w),
    ensures
        trim_start_seq(w).len() == 0,
    decreases w.len(),
{
    if w.len() > 0 {
        lemma_trim_start_white(w.drop_first());
    }
}

proof fn lemma_trim_start_append(s: Seq<char>, w: Seq<char>)
    ensures
        trim_start_seq(s).len() > 0 ==> trim_start_seq(s + w) == trim_start_seq(s) + w,
        trim_start_seq(s).len() == 0 ==> trim_start_seq(s + w) == trim_start_seq(w),
    decreases s.len(),
{
    if s.len() == 0 {
        assert(s + w =~= w);
    } else {
        assert((s + w)[0] == s[0]);
        if is_white_space(s[0]) {
            assert((s + w).drop_first() =~= s.drop_first() + w);
            lemma_trim_start_append(s.drop_first(), w);
        }
    }
}

pub proof fn lemma_trim_start_idempotent(s: Seq<char>)
    ensures
        trim_start_seq(trim_start_seq(s)) == trim_start_seq(s),
        trim_start_seq(s).len() > 0 ==> !is_white_space(trim_start_seq(s)[0]),
    decreases s.len(),
{
    if s.len() > 0 && is_white_space(s[0]) {
        lemma_trim_start_idempotent(s.drop_first());
    }
}

proof fn lemma_trim_end_keeps_start(s: Seq<char>)
    requires
        s.len() > 0 ==> !is_white_space(s[0]),
    ensures
        trim_start_seq(trim_end_seq(s)) == trim_end_seq(s),
        trim_end_seq(trim_end_seq(s)) == trim_end_seq(s),
        trim_end_seq(s).len() > 0 ==> !is_white_space(trim_end_seq(s).last()),
    decreases s.len(),
{
    if s.len() > 0 && is_white_space(s.last()) {
        if s.len() > 1 {
            assert(s.drop_last()[0] == s[0]);
        }
        lemma_trim_end_keeps_start(s.drop_last());
    }
}

/// Trimming twice is trimming once.
pub proof fn lemma_trim_idempotent(s: Seq<char>)
    ensures
        trim_seq(trim_seq(s)) == trim_seq(s),
{
    lemma_trim_start_idempotent(s);
    lemma_trim_end_keeps_start(trim_start_seq(s));
}


/// Trimming `s` followed by a text that starts and ends with non-white-space.
pub proof fn lemma_trim_append_unpadded(s: Seq<char>, x: Seq<char>)
    requires
        x.len() > 0,
        !is_white_space(x[0]),
        !is_white_space(x.last()),
    ensures
        trim_seq(s + x) == trim_start_seq(s) + x,
{
    lemma_trim_start_append(s, x);
    let t = trim_start_seq(s);
    if t.len() == 0 {
        assert(t + x =~= x);
    }
    assert((t + x).last() == x.last());
}

/// Law: white space around a text is ignored: `trim` gives the same for `s` as for
/// `s` with white space added at either end.
pub proof fn law_trim_ignores_surrounding_white_space(w1: Seq<char>, s: Seq<char>, w2: Seq<char>)
    requires
        all_white_space(w1),
        all_white_space(w2),
    ensures
        trim_seq(w1 + s + w2) == trim_seq(s),
{
    assert(w1 + s + w2 =~= w1 + (s + w2));
    lemma_trim_start_white_prefix(w1, s + w2);
    lemma_trim_start_append(s, w2);
    if trim_start_seq(s).len() > 0 {
        lemma_trim_end_white_suffix(trim_start_seq(s), w2);
    } else {
        lemma_trim_start_white(w2);
    }
}

/// Law: the lookup key of a name ignores white space around the text.
pub proof fn law_lowered_key_ignores_surrounding_white_space(
    w1: Seq<char>,
    s: Seq<char>,
    w2: Seq<char>,
)
    requires
        all_white_space(w1),
        all_white_space(w2),
    ensures
        lowered_key(w1 + s + w2) == lowered_key(s),
{
    law_trim_ignores_surrounding_white_space(w1, s, w2);
}

/// Whether `c` is Unicode white space (`char::is_whitespace`).
pub fn is_whitespace(c: char) -> (b: bool)
    ensures
        b == is_white_space(c),
{
    let u = c as u32;
    (0x09 <= u && u <= 0x0D) || u == 0x20 || u == 0x85 || u == 0xA0 || u == 0x1680 || (0x2000
        <= u && u <= 0x200A) || u == 0x2028 || u == 0x2029 || u == 0x202F || u == 0x205F || u
        == 0x3000
}

/// The characters of `s`, in order.
pub fn chars_of(s: &str) -> (v: Vec<char>)
    ensures
        v@ == s@,
{
    broadcast use vstd::string::group_string_axioms;

    let mut v: Vec<char> = Vec::new();
    for c in it: s.chars()
        invariant
            v@ == it.seq().take(it.index() as int),
            it.seq() == s@,
    {
        v.push(c);
    }
    v
}

/// The characters `v[from..to]` as a new vector.
fn copy_range(v: &Vec<char>, from: usize, to: usize) -> (r: Vec<char>)
    requires
        from <= to <= v.len(),
    ensures
        r@ == v@.subrange(from as int, to as int),
{
    let mut r: Vec<char> = Vec::new();
    let mut k = from;
    while k < to
        invariant
            from <= k <= to <= v.len(),
            r@ == v@.subrange(from as int, k as int),
        decreases to - k,
    {
        r.push(v[k]);
        k = k + 1;
        assert(r@ =~= v@.subrange(from as int, k as int));
    }
    r
}

/// `v` with white space removed at both ends (`str::trim`).
pub fn trim(v: &Vec<char>) -> (r: Vec<char>)
    ensures
        r@ == trim_seq(v@),
{
    let n = v.len();
    let mut i: usize = 0;
    assert(v@.skip(0) =~= v@);
    while i < n && is_whitespace(v[i])
        invariant
            0 <= i <= n,
            n == v.len(),
            trim_start_seq(v@) == trim_start_seq(v@.skip(i as int)),
        decreases n - i,
    {
        assert(v@.skip(i as int).drop_first() =~= v@.skip(i + 1));
        i = i + 1;
    }
    let ghost rest = v@.skip(i as int);
    assert(trim_start_seq(v@) == rest);
    let mut j: usize = n;
    assert(rest =~= v@.subrange(i as int, j as int));
    while j > i && is_whitespace(v[j - 1])
        invariant
            i <= j <= n,
            n == v.len(),
            rest == v@.skip(i as int),
            trim_end_seq(rest) == trim_end_seq(v@.subrange(i as int, j as int)),
        decreases j,
    {
        assert(v@.subrange(i as int, j as int).drop_last() =~= v@.subrange(i as int, j - 1));
        j = j - 1;
    }
    copy_range(v, i, j)
}

/// `c` with an ASCII upper-case letter lowered (`char::to_ascii_lowercase`).
pub fn to_ascii_lower_char(c: char) -> (r: char)
    ensures
        r == ascii_lower_char(c),
{
    if 'A' <= c && c <= 'Z' {
        let x: u32 = (c as u32) + 32;
        (x as u8) as char
    } else {
        c
    }
}

/// `v` with every ASCII upper-case letter lowered (`str::to_ascii_lowercase`).
pub fn to_ascii_lowercase(v: &Vec<char>) -> (r: Vec<char>)
    ensures
        r@ == ascii_lower(v@),
{
    let mut r: Vec<char> = Vec::new();
    let mut k: usize = 0;
    while k < v.len()
        invariant
            k <= v.len(),
            r@ == ascii_lower(v@.take(k as int)),
        decreases v.len() - k,
    {
        r.push(to_ascii_lower_char(v[k]));
        k = k + 1;
        assert(r@ =~= ascii_lower(v@.take(k as int)));
    }
    assert(v@.take(k as int) =~= v@);
    r
}

/// Whether `a` equals `b`.
pub fn chars_eq(a: &Vec<char>, b: &Vec<char>) -> (r: bool)
    ensures
        r == (a@ == b@),
{
    if a.len() != b.len() {
        return false;
    }
    let mut k: usize = 0;
    while k < a.len()
        invariant
            a.len() == b.len(),
            k <= a.len(),
            a@.take(k as int) == b@.take(k as int),
        decreases a.len() - k,
    {
        if a[k] != b[k] {
            assert(a@[k as int] != b@[k as int]);
            return false;
        }
        assert(a@.take(k + 1) =~= a@.take(k as int).push(a@[k as int]));
        assert(b@.take(k + 1) =~= b@.take(k as int).push(b@[k as int]));
        k = k + 1;
    }
    assert(a@ =~= a@.take(k as int));
    assert(b@ =~= b@.take(k as int));
    true
}

/// Whether the characters of `v` are those of `s`.
pub fn eq_str(v: &Vec<char>, s: &str) -> (r: bool)
    ensures
        r == (v@ == s@),
{
    let w = chars_of(s);
    chars_eq(v, &w)
}

/// `v` without `prefix`, when it starts with it (`str::strip_prefix`).
pub fn strip_prefix(v: &Vec<char>, prefix: &str) -> (r: Option<Vec<char>>)
    ensures
        r matches Some(t) ==> strip_prefix_seq(v@, prefix@) == Some(t@),
        r is None ==> strip_prefix_seq(v@, prefix@) is None,
{
    let p = chars_of(prefix);
    if p.len() > v.len() {
        return None;
    }
    let head = copy_range(v, 0, p.len());
    if chars_eq(&head, &p) {
        Some(copy_range(v, p.len(), v.len()))
    } else {
        None
    }
}

/// `v` without `suffix`, when it ends with it (`str::strip_suffix`).
pub fn strip_suffix(v: &Vec<char>, suffix: &str) -> (r: Option<Vec<char>>)
    ensures
        r matches Some(t) ==> strip_suffix_seq(v@, suffix@) == Some(t@),
        r is None ==> strip_suffix_seq(v@, suffix@) is None,
{
    let p = chars_of(suffix);
    if p.len() > v.len() {
        return None;
    }
    let tail = copy_range(v, v.len() - p.len(), v.len());
    if chars_eq(&tail, &p) {
        Some(copy_range(v, 0, v.len() - p.len()))
    } else {
        None
    }
}

/// Trusted wrapper of `String::push`. Its contract claims what std documents of
/// that method: the string afterwards holds its old characters followed by `c`.
#[verifier::external_body]
fn string_push(s: &mut String, c: char)
    ensures
        final(s)@ == old(s)@.push(c),
{
    s.push(c);
}

/// Appends the characters of `v` to `s`.
pub fn push_chars(s: &mut String, v: &Vec<char>)
    ensures
        final(s)@ == old(s)@ + v@,
{
    let mut k: usize = 0;
    while k < v.len()
        invariant
            k <= v.len(),
            s@ == old(s)@ + v@.take(k as int),
        decreases v.len() - k,
    {
        string_push(s, v[k]);
        k = k + 1;
        assert(s@ =~= old(s)@ + v@.take(k as int));
    }
    assert(v@.take(k as int) =~= v@);
}

/// A string holding the characters of `v`.
pub fn string_from_chars(v: &Vec<char>) -> (s: String)
    ensures
        s@ == v@,
{
    let mut s = String::new();
    push_chars(&mut s, v);
    assert(s@ =~= v@);
    s
}

/// The message `prefix`, then the characters of `v`, then `suffix`.
pub fn message(prefix: &str, v: &Vec<char>, suffix: &str) -> (s: String)
    ensures
        s@ == prefix@ + v@ + suffix@,
{
    let mut s = String::from_str(prefix);
    push_chars(&mut s, v);
    s.append(suffix);
    s
}

/// The key that the name parsers compare: `s` trimmed and lowered.
pub fn lower_trimmed(s: &str) -> (k: Vec<char>)
    ensures
        k@ == lowered_key(s@),
{
    let v = chars_of(s);
    let t = trim(&v);
    to_ascii_lowercase(&t)
}

} // verus!
