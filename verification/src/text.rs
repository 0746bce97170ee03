//! Character-level helpers for the strings the control plane handles.
//!
//! Strings are modelled by their sequence of characters (`Seq<char>`). The
//! searching and comparing functions here work on character vectors obtained
//! with [`chars_of`]; the few std functions whose behaviour is defined by
//! Unicode tables are called through wrappers and named as spec functions.

use vstd::prelude::*;
use vstd::string::*;

verus! {

/// What `String::from_utf8_lossy` makes of a byte sequence.
pub uninterp spec fn utf8_lossy(bytes: Seq<u8>) -> Seq<char>;

/// What `str::to_lowercase` makes of a character sequence.
pub uninterp spec fn lowercase(s: Seq<char>) -> Seq<char>;

/// Decodes bytes as UTF-8, replacing malformed parts.
///
/// Calls `String::from_utf8_lossy`. Its result is a function of the bytes
/// alone; the contract only gives it the name [`utf8_lossy`].
#[verifier::external_body]
pub(crate) fn decode_utf8_lossy(bytes: &[u8]) -> (s: String)
    ensures
        s@ == utf8_lossy(bytes@),
{
    String::from_utf8_lossy(bytes).into_owned()
}

/// Lower-cases a string by the Unicode rules.
///
/// Calls `str::to_lowercase`. Its result is a function of the characters
/// alone; the contract only gives it the name [`lowercase`].
#[verifier::external_body]
pub(crate) fn to_lowercase(s: &str) -> (r: String)
    ensures
        r@ == lowercase(s@),
{
    s.to_lowercase()
}

/// The characters of `s`, in order.
pub fn chars_of(s: &str) -> (v: Vec<char>)
    ensures
        v@ == s@,
{
    let mut v: Vec<char> = Vec::new();
    for c in it: s.chars()
        invariant
            v@ == it.seq().take(it.index()),
            it.seq() == s@,
    {
        v.push(c);
    }
    v
}

/// Whether `c` is white space: one of the code points that carry the
/// Unicode property of that name.
pub open spec fn is_white_space(c: char) -> bool {
    let n = c as u32;
    (0x9 <= n <= 0xd) || n == 0x20 || n == 0x85 || n == 0xa0 || n == 0x1680 || (0x2000 <= n
        <= 0x200a) || n == 0x2028 || n == 0x2029 || n == 0x202f || n == 0x205f || n == 0x3000
}

/// Whether `c` is white space.
pub fn is_space(c: char) -> (r: bool)
    ensures
        r == is_white_space(c),
{
    let n = c as u32;
    (0x9 <= n && n <= 0xd) || n == 0x20 || n == 0x85 || n == 0xa0 || n == 0x1680 || (0x2000 <= n
        && n <= 0x200a) || n == 0x2028 || n == 0x2029 || n == 0x202f || n == 0x205f || n
        == 0x3000
}

/// The position of the first character at or after `from` that is no white
/// space, or the length of `s` when there is none.
pub open spec fn text_start(s: Seq<char>, from: int) -> int
    decreases s.len() - from,
{
    if from >= s.len() {
        s.len() as int
    } else if !is_white_space(s[from]) {
        from
    } else {
        text_start(s, from + 1)
    }
}

/// The position after the last character before `end` that is no white
/// space, or `start` when there is none from `start` on.
pub open spec fn text_end(s: Seq<char>, start: int, end: int) -> int
    decreases end - start,
{
    if end <= start {
        start
    } else if !is_white_space(s[end - 1]) {
        end
    } else {
        text_end(s, start, end - 1)
    }
}

/// `s` without the white space before its first and after its last
/// character that is none.
pub open spec fn stripped(s: Seq<char>) -> Seq<char> {
    let start = text_start(s, 0);
    s.subrange(start, text_end(s, start, s.len() as int))
}

/// A position before which (from `from` on) there is only white space, and
/// which holds none or is the end, is the one that [`text_start`] finds.
pub proof fn lemma_text_start_is(s: Seq<char>, from: int, at: int)
    requires
        0 <= from <= at <= s.len(),
        forall|k: int| from <= k < at ==> is_white_space(s[k]),
        at < s.len() ==> !is_white_space(s[at]),
    ensures
        text_start(s, from) == at,
    decreases at - from,
{
    if from < at {
        lemma_text_start_is(s, from + 1, at);
    }
}

/// A position from which on (up to `end`) there is only white space, and
/// before which stands none or `start`, is the one that [`text_end`] finds.
pub proof fn lemma_text_end_is(s: Seq<char>, start: int, end: int, at: int)
    requires
        0 <= start <= at <= end <= s.len(),
        forall|k: int| at <= k < end ==> is_white_space(s[k]),
        at > start ==> !is_white_space(s[at - 1]),
    ensures
        text_end(s, start, end) == at,
    decreases end - at,
{
    if at < end {
        lemma_text_end_is(s, start, end - 1, at);
    }
}

/// Whether `s` is nothing but white space.
pub open spec fn is_blank(s: Seq<char>) -> bool {
    forall|k: int| 0 <= k < s.len() ==> is_white_space(#[trigger] s[k])
}

/// White space around a text is stripped, and nothing else: a text that
/// neither begins nor ends with white space is what is left of it with any
/// white space put before and after it.
pub proof fn lemma_stripped_of_padded(before: Seq<char>, s: Seq<char>, after: Seq<char>)
    requires
        is_blank(before),
        is_blank(after),
        s.len() > 0 ==> !is_white_space(s[0]) && !is_white_space(s[s.len() - 1]),
    ensures
        stripped(before + s + after) == s,
        stripped(s) == s,
{
    let t = before + s + after;
    let a = before.len() as int;
    let b = a + s.len();
    assert(forall|k: int| 0 <= k < a ==> t[k] == before[k]);
    assert(forall|k: int| a <= k < b ==> t[k] == s[k - a]);
    assert(forall|k: int| b <= k < t.len() ==> t[k] == after[k - b]);
    if s.len() > 0 {
        lemma_text_start_is(t, 0, a);
        lemma_text_end_is(t, a, t.len() as int, b);
        assert(t.subrange(a, b) =~= s);
        lemma_text_start_is(s, 0, 0);
        lemma_text_end_is(s, 0, s.len() as int, s.len() as int);
        assert(s.subrange(0, s.len() as int) =~= s);
    } else {
        lemma_text_start_is(t, 0, t.len() as int);
        lemma_text_end_is(t, t.len() as int, t.len() as int, t.len() as int);
        assert(t.subrange(t.len() as int, t.len() as int) =~= s);
        assert(s.subrange(0, 0) =~= s);
    }
}

/// Strips the white space around a text.
pub fn strip(s: &str) -> (r: String)
    ensures
        r@ == stripped(s@),
{
    let t = chars_of(s);
    let mut start: usize = 0;
    while start < t.len() && is_space(t[start])
        invariant
            start <= t.len(),
            text_start(t@, 0) == text_start(t@, start as int),
        decreases t.len() - start,
    {
        start += 1;
    }
    let mut end: usize = t.len();
    while end > start && is_space(t[end - 1])
        invariant
            start <= end <= t.len(),
            text_end(t@, start as int, t.len() as int) == text_end(t@, start as int, end as int),
        decreases end - start,
    {
        end -= 1;
    }
    String::from_str(s.substring_char(start, end))
}

/// Whether two strings hold the same characters.
pub fn str_eq(a: &str, b: &str) -> (r: bool)
    ensures
        r == (a@ == b@),
{
    let x = chars_of(a);
    let y = chars_of(b);
    chars_eq(&x, &y)
}

/// Whether two character vectors hold the same characters.
pub fn chars_eq(a: &Vec<char>, b: &Vec<char>) -> (r: bool)
    ensures
        r == (a@ == b@),
{
    if a.len() != b.len() {
        return false;
    }
    let mut i: usize = 0;
    while i < a.len()
        invariant
            i <= a.len(),
            a.len() == b.len(),
            forall|k: int| 0 <= k < i ==> a@[k] == b@[k],
        decreases a.len() - i,
    {
        if a[i] != b[i] {
            return false;
        }
        i += 1;
    }
    assert(a@ =~= b@);
    true
}

/// Whether `pat` occurs in `s` starting at position `at`.
pub open spec fn occurs_at(s: Seq<char>, pat: Seq<char>, at: int) -> bool {
    &&& 0 <= at
    &&& at + pat.len() <= s.len()
    &&& s.subrange(at, at + pat.len()) == pat
}

/// Whether `pat` occurs somewhere in `s`.
pub open spec fn contains_seq(s: Seq<char>, pat: Seq<char>) -> bool {
    exists|at: int| occurs_at(s, pat, at)
}

/// Whether `pat` occurs in `s` at position `at`.
pub fn matches_at(s: &Vec<char>, pat: &Vec<char>, at: usize) -> (r: bool)
    ensures
        r == occurs_at(s@, pat@, at as int),
{
    if pat.len() > s.len() || at > s.len() - pat.len() {
        return false;
    }
    let mut k: usize = 0;
    while k < pat.len()
        invariant
            k <= pat.len(),
            at + pat.len() <= s.len(),
            forall|j: int| 0 <= j < k ==> s@[at + j] == pat@[j],
        decreases pat.len() - k,
    {
        if s[at + k] != pat[k] {
            assert(s@.subrange(at as int, at + pat.len())[k as int] == s@[at + k]);
            return false;
        }
        k += 1;
    }
    assert(s@.subrange(at as int, at + pat.len()) =~= pat@);
    true
}

/// Whether `s` begins with `pat`.
pub fn starts_with(s: &Vec<char>, pat: &Vec<char>) -> (r: bool)
    ensures
        r == pat@.is_prefix_of(s@),
{
    let r = matches_at(s, pat, 0);
    proof {
        if pat@.len() <= s@.len() {
            assert(s@.subrange(0, pat@.len() as int) =~= s@.take(pat@.len() as int));
        }
        if r {
            assert(pat@ =~= s@.subrange(0, pat@.len() as int));
        }
        if pat@.is_prefix_of(s@) {
            assert(s@.subrange(0, pat@.len() as int) =~= pat@);
        }
    }
    r
}

/// The first position at which `pat` occurs in `s`, if there is one.
pub fn find(s: &Vec<char>, pat: &Vec<char>) -> (r: Option<usize>)
    ensures
        r is Some <==> contains_seq(s@, pat@),
        r matches Some(at) ==> occurs_at(s@, pat@, at as int) && forall|k: int|
            0 <= k < at ==> !occurs_at(s@, pat@, k),
{
    if pat.len() > s.len() {
        return None;
    }
    let last: usize = s.len() - pat.len();
    let mut at: usize = 0;
    loop
        invariant
            at <= last,
            last == s.len() - pat.len(),
            pat.len() <= s.len(),
            forall|k: int| 0 <= k < at ==> !occurs_at(s@, pat@, k),
        decreases last - at,
    {
        if matches_at(s, pat, at) {
            return Some(at);
        }
        if at == last {
            return None;
        }
        at += 1;
    }
}

/// Whether `pat` occurs somewhere in `s`.
pub fn contains(s: &Vec<char>, pat: &Vec<char>) -> (r: bool)
    ensures
        r == contains_seq(s@, pat@),
{
    find(s, pat).is_some()
}

/// The last position at which `pat` occurs in `s`, if there is one.
pub fn rfind(s: &Vec<char>, pat: &Vec<char>) -> (r: Option<usize>)
    ensures
        r is Some <==> contains_seq(s@, pat@),
        r matches Some(at) ==> occurs_at(s@, pat@, at as int) && forall|k: int|
            at < k ==> !occurs_at(s@, pat@, k),
{
    if pat.len() > s.len() {
        return None;
    }
    let mut at: usize = s.len() - pat.len();
    loop
        invariant
            at <= s.len() - pat.len(),
            pat.len() <= s.len(),
            forall|k: int| at < k ==> !occurs_at(s@, pat@, k),
        decreases at,
    {
        if matches_at(s, pat, at) {
            return Some(at);
        }
        if at == 0 {
            return None;
        }
        at -= 1;
    }
}

/// The position of the first `c` in `s` at or after `from`, or the length of
/// `s` when there is none.
pub open spec fn index_of_from(s: Seq<char>, c: char, from: int) -> int
    decreases s.len() - from,
{
    if from >= s.len() {
        s.len() as int
    } else if s[from] == c {
        from
    } else {
        index_of_from(s, c, from + 1)
    }
}

/// A position before which (from `from` on) `c` does not occur, and which
/// holds `c` or is the end, is the one that [`index_of_from`] finds.
pub proof fn lemma_index_of_is(s: Seq<char>, c: char, from: int, at: int)
    requires
        0 <= from <= at <= s.len(),
        forall|k: int| from <= k < at ==> s[k] != c,
        at < s.len() ==> s[at] == c,
    ensures
        index_of_from(s, c, from) == at,
    decreases at - from,
{
    if from < at {
        lemma_index_of_is(s, c, from + 1, at);
    }
}

/// The position of the first `c` in `s` at or after `from`, or the length of
/// `s` when there is none.
pub fn find_char_from(s: &Vec<char>, c: char, from: usize) -> (r: usize)
    requires
        from <= s.len(),
    ensures
        r == index_of_from(s@, c, from as int),
        from <= r <= s.len(),
{
    let mut i: usize = from;
    while i < s.len() && s[i] != c
        invariant
            from <= i <= s.len(),
            index_of_from(s@, c, from as int) == index_of_from(s@, c, i as int),
        decreases s.len() - i,
    {
        i += 1;
    }
    i
}

/// Strict lexicographic order of character sequences by code point, which is
/// the order in which `str` and `String` compare.
pub open spec fn lex_lt(a: Seq<char>, b: Seq<char>) -> bool
    decreases a.len(),
{
    if b.len() == 0 {
        false
    } else if a.len() == 0 {
        true
    } else if a[0] != b[0] {
        (a[0] as u32) < (b[0] as u32)
    } else {
        lex_lt(a.drop_first(), b.drop_first())
    }
}

/// The character of a decimal digit.
pub open spec fn digit_char(d: nat) -> char {
    if d == 0 {
        '0'
    } else if d == 1 {
        '1'
    } else if d == 2 {
        '2'
    } else if d == 3 {
        '3'
    } else if d == 4 {
        '4'
    } else if d == 5 {
        '5'
    } else if d == 6 {
        '6'
    } else if d == 7 {
        '7'
    } else if d == 8 {
        '8'
    } else {
        '9'
    }
}

/// The decimal numeral of `n`, without leading zeros.
pub open spec fn decimal_digits(n: nat) -> Seq<char>
    decreases n,
{
    if n < 10 {
        seq![digit_char(n)]
    } else {
        decimal_digits(n / 10).push(digit_char(n % 10))
    }
}

/// The numeral of one decimal digit.
fn digit_str(d: u32) -> (s: &'static str)
    requires
        d < 10,
    ensures
        s@ == seq![digit_char(d as nat)],
{
    proof {
        reveal_strlit("0");
        reveal_strlit("1");
        reveal_strlit("2");
        reveal_strlit("3");
        reveal_strlit("4");
        reveal_strlit("5");
        reveal_strlit("6");
        reveal_strlit("7");
        reveal_strlit("8");
        reveal_strlit("9");
    }
    let s = if d == 0 {
        "0"
    } else if d == 1 {
        "1"
    } else if d == 2 {
        "2"
    } else if d == 3 {
        "3"
    } else if d == 4 {
        "4"
    } else if d == 5 {
        "5"
    } else if d == 6 {
        "6"
    } else if d == 7 {
        "7"
    } else if d == 8 {
        "8"
    } else {
        "9"
    };
    assert(s@ =~= seq![digit_char(d as nat)]);
    s
}

/// Writes `n` as a decimal numeral.
pub fn decimal(n: u32) -> (s: String)
    ensures
        s@ == decimal_digits(n as nat),
    decreases n,
{
    if n < 10 {
        String::from_str(digit_str(n))
    } else {
        let head = decimal(n / 10);
        let s = head.concat(digit_str(n % 10));
        proof {
            assert(s@ =~= decimal_digits((n / 10) as nat).push(digit_char((n % 10) as nat)));
        }
        s
    }
}

/// Of two texts at most one sorts before the other.
pub proof fn lemma_lex_asymmetric(a: Seq<char>, b: Seq<char>)
    ensures
        !(lex_lt(a, b) && lex_lt(b, a)),
    decreases a.len(),
{
    if a.len() > 0 && b.len() > 0 && a[0] == b[0] {
        lemma_lex_asymmetric(a.drop_first(), b.drop_first());
    }
}

/// Sorting before carries over a text in between.
pub proof fn lemma_lex_transitive(a: Seq<char>, b: Seq<char>, c: Seq<char>)
    requires
        lex_lt(a, b),
        lex_lt(b, c),
    ensures
        lex_lt(a, c),
    decreases a.len(),
{
    if a.len() > 0 && b.len() > 0 && c.len() > 0 && a[0] == b[0] && b[0] == c[0] {
        lemma_lex_transitive(a.drop_first(), b.drop_first(), c.drop_first());
    }
}

/// Whether `a` sorts strictly before `b`.
pub fn str_lt(a: &str, b: &str) -> (r: bool)
    ensures
        r == lex_lt(a@, b@),
{
    let x = chars_of(a);
    let y = chars_of(b);
    chars_lt(&x, &y)
}

/// Whether `a` sorts strictly before `b`.
pub fn chars_lt(a: &Vec<char>, b: &Vec<char>) -> (r: bool)
    ensures
        r == lex_lt(a@, b@),
{
    let mut i: usize = 0;
    proof {
        assert(a@.skip(0) =~= a@);
        assert(b@.skip(0) =~= b@);
    }
    while i < a.len() && i < b.len() && a[i] == b[i]
        invariant
            i <= a.len(),
            i <= b.len(),
            lex_lt(a@, b@) == lex_lt(a@.skip(i as int), b@.skip(i as int)),
        decreases a.len() - i,
    {
        proof {
            let x = a@.skip(i as int);
            let y = b@.skip(i as int);
            assert(x.drop_first() =~= a@.skip(i + 1));
            assert(y.drop_first() =~= b@.skip(i + 1));
        }
        i += 1;
    }
    proof {
        let x = a@.skip(i as int);
        let y = b@.skip(i as int);
        assert(x.len() == a.len() - i);
        assert(y.len() == b.len() - i);
        if i < a.len() && i < b.len() {
            assert(x[0] == a@[i as int]);
            assert(y[0] == b@[i as int]);
        }
    }
    if i >= b.len() {
        false
    } else if i >= a.len() {
        true
    } else {
        (a[i] as u32) < (b[i] as u32)
    }
}

} // verus!
