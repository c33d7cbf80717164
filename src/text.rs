//! Character-level helpers on lines of text, stated over `Seq<char>`.
use vstd::prelude::*;

verus! {

/// Whether `p` is a prefix of `s`.
pub open spec fn is_prefix_of(p: Seq<char>, s: Seq<char>) -> bool {
    p.len() <= s.len() && s.subrange(0, p.len() as int) == p
}

/// Returns whether `line` begins with `prefix`.
pub fn starts_with(line: &str, prefix: &str) -> (r: bool)
    ensures
        r == is_prefix_of(prefix@, line@),
{
    let n = prefix.unicode_len();
    let m = line.unicode_len();
    if n > m {
        return false;
    }
    let mut i: usize = 0;
    while i < n
        invariant
            n == prefix@.len(),
            m == line@.len(),
            n <= m,
            i <= n,
            forall|k: int| 0 <= k < i ==> line@[k] == prefix@[k],
        decreases n - i,
    {
        if line.get_char(i) != prefix.get_char(i) {
            assert(line@.subrange(0, n as int)[i as int] != prefix@[i as int]);
            return false;
        }
        i += 1;
    }
    assert(line@.subrange(0, n as int) =~= prefix@);
    true
}

/// Returns whether the two texts hold the same characters.
pub fn text_eq(a: &str, b: &str) -> (r: bool)
    ensures
        r == (a@ == b@),
{
    let n = a.unicode_len();
    if n != b.unicode_len() {
        return false;
    }
    let r = starts_with(a, b);
    assert(a@ =~= a@.subrange(0, n as int));
    r
}

/// Returns the rest of `line` after `prefix`, where `line` begins with it.
pub fn strip_prefix<'a>(line: &'a str, prefix: &str) -> (r: Option<&'a str>)
    ensures
        r is Some <==> is_prefix_of(prefix@, line@),
        r matches Some(rest) ==> line@ == prefix@ + rest@,
{
    if starts_with(line, prefix) {
        let rest = line.substring_char(prefix.unicode_len(), line.unicode_len());
        assert(line@ =~= prefix@ + rest@);
        Some(rest)
    } else {
        None
    }
}

/// Whether `c` is an ASCII decimal digit.
pub open spec fn is_digit(c: char) -> bool {
    '0' <= c && c <= '9'
}

/// The numeric value of the decimal digit `c`.
pub open spec fn digit_value(c: char) -> int {
    (c as int) - ('0' as int)
}

/// Whether every character of `s` is a decimal digit.
pub open spec fn all_digits(s: Seq<char>) -> bool {
    forall|i: int| 0 <= i < s.len() ==> is_digit(#[trigger] s[i])
}

/// The value of the digit string `s`, read in base ten (0 for the empty string).
pub open spec fn digits_value(s: Seq<char>) -> int
    decreases s.len(),
{
    if s.len() == 0 {
        0
    } else {
        10 * digits_value(s.drop_last()) + digit_value(s.last())
    }
}

/// Whether `c` is white space: a character of the Unicode `White_Space` property, the
/// set that `char::is_whitespace` documents.
pub open spec fn is_space(c: char) -> bool {
    ('\u{9}' <= c && c <= '\u{D}') || c == ' ' || c == '\u{85}' || c == '\u{A0}' || c
        == '\u{1680}' || ('\u{2000}' <= c && c <= '\u{200A}') || c == '\u{2028}' || c
        == '\u{2029}' || c == '\u{202F}' || c == '\u{205F}' || c == '\u{3000}'
}

fn is_space_exec(c: char) -> (r: bool)
    ensures
        r == is_space(c),
{
    ('\u{9}' <= c && c <= '\u{D}') || c == ' ' || c == '\u{85}' || c == '\u{A0}' || c
        == '\u{1680}' || ('\u{2000}' <= c && c <= '\u{200A}') || c == '\u{2028}' || c
        == '\u{2029}' || c == '\u{202F}' || c == '\u{205F}' || c == '\u{3000}'
}

/// The digits of an unsigned integer literal: the text without one leading `+`.
pub open spec fn unsigned_digits(s: Seq<char>) -> Seq<char> {
    if s.len() > 0 && s[0] == '+' {
        s.drop_first()
    } else {
        s
    }
}

/// The `usize` written by `s`: an optional `+` and then one or more decimal digits,
/// whose value fits in a `usize`.
pub open spec fn usize_of(s: Seq<char>) -> Option<usize> {
    let d = unsigned_digits(s);
    if d.len() > 0 && all_digits(d) && digits_value(d) <= usize::MAX {
        Some(digits_value(d) as usize)
    } else {
        None
    }
}

/// A digit string only grows in value as digits are appended to it.
pub proof fn lemma_digits_value_grows(s: Seq<char>, i: int, j: int)
    requires
        all_digits(s),
        0 <= i <= j <= s.len(),
    ensures
        0 <= digits_value(s.subrange(0, i)) <= digits_value(s.subrange(0, j)),
    decreases j,
{
    if j > 0 {
        assert(s.subrange(0, j).drop_last() =~= s.subrange(0, j - 1));
        assert(is_digit(s[j - 1]));
        if i < j {
            lemma_digits_value_grows(s, i, j - 1);
        } else {
            lemma_digits_value_grows(s, j - 1, j - 1);
        }
    }
}

/// Parses an unsigned decimal integer the way `usize::from_str` does.
pub fn parse_usize(s: &str) -> (r: Option<usize>)
    ensures
        r == usize_of(s@),
        r matches Some(v) ==> v as int == digits_value(unsigned_digits(s@)),
{
    let n = s.unicode_len();
    let mut start: usize = 0;
    if n > 0 && s.get_char(0) == '+' {
        start = 1;
    }
    let ghost d = unsigned_digits(s@);
    assert(d =~= s@.subrange(start as int, n as int));
    if start == n {
        return None;
    }
    let mut acc: usize = 0;
    let mut i: usize = start;
    while i < n
        invariant
            n == s@.len(),
            start <= i <= n,
            start < n,
            d == s@.subrange(start as int, n as int),
            d == unsigned_digits(s@),
            all_digits(d.subrange(0, i - start)),
            acc == digits_value(d.subrange(0, i - start)),
        decreases n - i,
    {
        let c = s.get_char(i);
        assert(d[i - start] == c);
        if !('0' <= c && c <= '9') {
            assert(!is_digit(d[i - start]));
            return None;
        }
        let v = (c as u32 - '0' as u32) as usize;
        let ghost next = d.subrange(0, i - start + 1);
        assert(next.drop_last() =~= d.subrange(0, i - start));
        assert(next.last() == c);
        assert(all_digits(next));
        assert(digits_value(next) == 10 * acc + v);
        match acc.checked_mul(10) {
            Some(t) => match t.checked_add(v) {
                Some(u) => {
                    acc = u;
                },
                None => {
                    proof {
                        if all_digits(d) {
                            lemma_digits_value_grows(d, i - start + 1, d.len() as int);
                            assert(d.subrange(0, d.len() as int) =~= d);
                        }
                    }
                    return None;
                },
            },
            None => {
                proof {
                    if all_digits(d) {
                        lemma_digits_value_grows(d, i - start + 1, d.len() as int);
                        assert(d.subrange(0, d.len() as int) =~= d);
                    }
                }
                return None;
            },
        }
        i += 1;
    }
    assert(d.subrange(0, n - start) =~= d);
    proof {
        lemma_digits_value_grows(d, 0, d.len() as int);
    }
    Some(acc)
}

/// Classes of characters that lines are trimmed or split by.
#[derive(Clone, Copy, Debug, PartialEq, Eq, Structural)]
pub enum CharClass {
    /// white space.
    Space,
    /// The field separators of a peak line: space and tab.
    Blank,
    /// The signs `+` and `-`.
    Sign,
    /// Everything but space and tab: the characters of a field of a peak line.
    Field,
    /// Everything but white space: the characters of a word.
    Word,
}

/// Whether `c` belongs to the class `cl`.
pub open spec fn in_class(cl: CharClass, c: char) -> bool {
    match cl {
        CharClass::Space => is_space(c),
        CharClass::Blank => c == ' ' || c == '\t',
        CharClass::Sign => c == '+' || c == '-',
        CharClass::Field => !(c == ' ' || c == '\t'),
        CharClass::Word => !is_space(c),
    }
}

fn is_in_class(cl: CharClass, c: char) -> (r: bool)
    ensures
        r == in_class(cl, c),
{
    match cl {
        CharClass::Space => is_space_exec(c),
        CharClass::Blank => c == ' ' || c == '\t',
        CharClass::Sign => c == '+' || c == '-',
        CharClass::Field => !(c == ' ' || c == '\t'),
        CharClass::Word => !is_space_exec(c),
    }
}

/// Number of leading characters of `s` in the class `cl`.
pub open spec fn leading(s: Seq<char>, cl: CharClass) -> int
    decreases s.len(),
{
    if s.len() > 0 && in_class(cl, s[0]) {
        1 + leading(s.drop_first(), cl)
    } else {
        0
    }
}

/// Number of trailing characters of `s` in the class `cl`.
pub open spec fn trailing(s: Seq<char>, cl: CharClass) -> int
    decreases s.len(),
{
    if s.len() > 0 && in_class(cl, s.last()) {
        1 + trailing(s.drop_last(), cl)
    } else {
        0
    }
}

/// Index of the first character of `s` equal to `c`, or the length of `s`.
pub open spec fn index_of(s: Seq<char>, c: char) -> int
    decreases s.len(),
{
    if s.len() == 0 || s[0] == c {
        0
    } else {
        1 + index_of(s.drop_first(), c)
    }
}

/// `s` without the leading and trailing characters of class `cl`.
pub open spec fn trim_class(s: Seq<char>, cl: CharClass) -> Seq<char> {
    let t = s.subrange(leading(s, cl), s.len() as int);
    t.subrange(0, t.len() - trailing(t, cl))
}

/// `s` without leading and trailing white space.
pub open spec fn trim(s: Seq<char>) -> Seq<char> {
    trim_class(s, CharClass::Space)
}

/// The part of `s` before the first `c` (all of `s` if there is none).
pub open spec fn before(s: Seq<char>, c: char) -> Seq<char> {
    s.subrange(0, index_of(s, c))
}

/// The part of `s` after the first `c`, if there is one.
pub open spec fn after(s: Seq<char>, c: char) -> Option<Seq<char>> {
    let i = index_of(s, c);
    if i < s.len() {
        Some(s.subrange(i + 1, s.len() as int))
    } else {
        None
    }
}

pub proof fn lemma_leading_bounds(s: Seq<char>, cl: CharClass)
    ensures
        0 <= leading(s, cl) <= s.len(),
        forall|k: int| 0 <= k < leading(s, cl) ==> in_class(cl, #[trigger] s[k]),
        leading(s, cl) < s.len() ==> !in_class(cl, s[leading(s, cl)]),
    decreases s.len(),
{
    if s.len() > 0 && in_class(cl, s[0]) {
        lemma_leading_bounds(s.drop_first(), cl);
        assert forall|k: int| 0 <= k < leading(s, cl) implies in_class(cl, #[trigger] s[k]) by {
            if k > 0 {
                assert(s[k] == s.drop_first()[k - 1]);
            }
        }
    }
}

pub proof fn lemma_trailing_bounds(s: Seq<char>, cl: CharClass)
    ensures
        0 <= trailing(s, cl) <= s.len(),
    decreases s.len(),
{
    if s.len() > 0 && in_class(cl, s.last()) {
        lemma_trailing_bounds(s.drop_last(), cl);
    }
}

pub proof fn lemma_index_of_bounds(s: Seq<char>, c: char)
    ensures
        0 <= index_of(s, c) <= s.len(),
        forall|k: int| 0 <= k < index_of(s, c) ==> #[trigger] s[k] != c,
        index_of(s, c) < s.len() ==> s[index_of(s, c)] == c,
    decreases s.len(),
{
    if s.len() > 0 && s[0] != c {
        lemma_index_of_bounds(s.drop_first(), c);
        assert forall|k: int| 0 <= k < index_of(s, c) implies #[trigger] s[k] != c by {
            if k > 0 {
                assert(s[k] == s.drop_first()[k - 1]);
            }
        }
    }
}

/// Index of the first character at or after `from` that is not in the class `cl`.
pub fn skip_class(s: &str, from: usize, cl: CharClass) -> (r: usize)
    requires
        from <= s@.len(),
    ensures
        r == from + leading(s@.subrange(from as int, s@.len() as int), cl),
        from <= r <= s@.len(),
{
    let n = s.unicode_len();
    let mut i = from;
    while i < n && is_in_class(cl, s.get_char(i))
        invariant
            n == s@.len(),
            from <= i <= n,
            from + leading(s@.subrange(from as int, n as int), cl) == i + leading(
                s@.subrange(i as int, n as int),
                cl,
            ),
        decreases n - i,
    {
        assert(s@.subrange(i as int, n as int).drop_first() =~= s@.subrange(i + 1, n as int));
        i += 1;
    }
    if i < n {
        assert(s@.subrange(i as int, n as int)[0] == s@[i as int]);
    }
    i
}

/// Index of the first `c` at or after `from`, or the length of `s`.
pub fn find_char(s: &str, from: usize, c: char) -> (r: usize)
    requires
        from <= s@.len(),
    ensures
        r == from + index_of(s@.subrange(from as int, s@.len() as int), c),
        from <= r <= s@.len(),
{
    let n = s.unicode_len();
    let mut i = from;
    while i < n && s.get_char(i) != c
        invariant
            n == s@.len(),
            from <= i <= n,
            from + index_of(s@.subrange(from as int, n as int), c) == i + index_of(
                s@.subrange(i as int, n as int),
                c,
            ),
        decreases n - i,
    {
        assert(s@.subrange(i as int, n as int).drop_first() =~= s@.subrange(i + 1, n as int));
        i += 1;
    }
    if i < n {
        assert(s@.subrange(i as int, n as int)[0] == s@[i as int]);
    }
    i
}

/// `s` without the leading and trailing characters of class `cl`.
pub fn trim_chars(s: &str, cl: CharClass) -> (r: &str)
    ensures
        r@ == trim_class(s@, cl),
{
    let n = s.unicode_len();
    let start = skip_class(s, 0, cl);
    assert(s@.subrange(0, n as int) =~= s@);
    let t = s.substring_char(start, n);
    let m = t.unicode_len();
    let mut j = m;
    assert(t@.subrange(0, m as int) =~= t@);
    while j > 0 && is_in_class(cl, t.get_char(j - 1))
        invariant
            m == t@.len(),
            j <= m,
            m - trailing(t@, cl) == j - trailing(t@.subrange(0, j as int), cl),
        decreases j,
    {
        assert(t@.subrange(0, j as int).drop_last() =~= t@.subrange(0, j - 1));
        j -= 1;
    }
    if j > 0 {
        assert(t@.subrange(0, j as int).last() == t@[j - 1]);
    }
    proof {
        lemma_trailing_bounds(t@, cl);
    }
    t.substring_char(0, j)
}

/// `s` without leading and trailing white space.
pub fn trim_spaces(s: &str) -> (r: &str)
    ensures
        r@ == trim(s@),
{
    trim_chars(s, CharClass::Space)
}

/// The parts of `s` before and after its first `c`.
pub fn split_once(s: &str, c: char) -> (r: (&str, Option<&str>))
    ensures
        r.0@ == before(s@, c),
        r.1 is Some <==> after(s@, c) is Some,
        r.1 matches Some(t) ==> after(s@, c) == Some(t@),
{
    let n = s.unicode_len();
    let i = find_char(s, 0, c);
    assert(s@.subrange(0, n as int) =~= s@);
    let head = s.substring_char(0, i);
    if i < n {
        (head, Some(s.substring_char(i + 1, n)))
    } else {
        (head, None)
    }
}

/// `c` in ASCII lower case.
pub open spec fn ascii_lower(c: char) -> char {
    if 'A' <= c && c <= 'Z' {
        ((c as u8) + 32) as char
    } else {
        c
    }
}

/// Whether `a` and `b` are equal once ASCII letters are put in lower case.
pub open spec fn same_ignoring_ascii_case(a: Seq<char>, b: Seq<char>) -> bool {
    a.len() == b.len() && forall|i: int| 0 <= i < a.len() ==> ascii_lower(#[trigger] a[i]) == ascii_lower(b[i])
}

fn to_ascii_lower(c: char) -> (r: char)
    ensures
        r == ascii_lower(c),
{
    if 'A' <= c && c <= 'Z' {
        ((c as u8) + 32) as char
    } else {
        c
    }
}

/// Returns whether the texts are equal once ASCII letters are put in lower case.
pub fn eq_ignoring_ascii_case(a: &str, b: &str) -> (r: bool)
    ensures
        r == same_ignoring_ascii_case(a@, b@),
{
    let n = a.unicode_len();
    if n != b.unicode_len() {
        return false;
    }
    let mut i: usize = 0;
    while i < n
        invariant
            n == a@.len(),
            n == b@.len(),
            i <= n,
            forall|k: int| 0 <= k < i ==> ascii_lower(#[trigger] a@[k]) == ascii_lower(b@[k]),
        decreases n - i,
    {
        if to_ascii_lower(a.get_char(i)) != to_ascii_lower(b.get_char(i)) {
            return false;
        }
        i += 1;
    }
    true
}

/// Whether `s` contains the character `c`.
pub fn contains_char(s: &str, c: char) -> (r: bool)
    ensures
        r == s@.contains(c),
{
    let n = s.unicode_len();
    let i = find_char(s, 0, c);
    assert(s@.subrange(0, n as int) =~= s@);
    proof {
        lemma_index_of_bounds(s@, c);
    }
    i < n
}

} // verus!
