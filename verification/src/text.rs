//! Text helpers over `Seq<char>`, the view of `str` and `String`.

use vstd::prelude::*;
use vstd::string::*;

verus! {

/// `p` is a prefix of `s`.
pub open spec fn is_prefix(p: Seq<char>, s: Seq<char>) -> bool {
    p.len() <= s.len() && s.subrange(0, p.len() as int) == p
}

/// `needle` occurs in `hay` starting at index `i`.
pub open spec fn occurs_at(needle: Seq<char>, hay: Seq<char>, i: int) -> bool {
    0 <= i && i + needle.len() <= hay.len() && hay.subrange(i, i + needle.len()) == needle
}

/// `needle` occurs somewhere in `hay`.
pub open spec fn contains(hay: Seq<char>, needle: Seq<char>) -> bool {
    exists|i: int| occurs_at(needle, hay, i)
}

/// The characters of `s`, in order.
pub fn chars_of(s: &str) -> (r: Vec<char>)
    ensures
        r@ == s@,
{
    let mut out: Vec<char> = Vec::new();
    for c in it: s.chars()
        invariant
            out@ == it.seq().take(it.index() as int),
            it.seq() == s@,
    {
        out.push(c);
    }
    out
}

/// `String::push`: appends one character to the end of the string.
#[verifier::external_body]
pub(crate) fn push_char(s: &mut String, c: char)
    ensures
        final(s)@ == old(s)@.push(c),
{
    s.push(c);
}

/// `String::pop`: removes the last character and returns it, or returns
/// `None` and leaves the string alone when it is empty.
#[verifier::external_body]
pub(crate) fn pop_char(s: &mut String) -> (r: Option<char>)
    ensures
        old(s)@.len() == 0 ==> r is None && final(s)@ == old(s)@,
        old(s)@.len() > 0 ==> r == Some(old(s)@.last()) && final(s)@ == old(s)@.drop_last(),
{
    s.pop()
}

/// The string made of `v[from..to]`.
pub fn string_of_range(v: &Vec<char>, from: usize, to: usize) -> (r: String)
    requires
        from <= to <= v.len(),
    ensures
        r@ == v@.subrange(from as int, to as int),
{
    let mut out = String::new();
    let mut i: usize = from;
    while i < to
        invariant
            from <= i <= to <= v.len(),
            out@ == v@.subrange(from as int, i as int),
        decreases to - i,
    {
        push_char(&mut out, v[i]);
        i += 1;
    }
    out
}

/// The string made of the characters of `v`.
pub fn string_of(v: &Vec<char>) -> (r: String)
    ensures
        r@ == v@,
{
    let r = string_of_range(v, 0, v.len());
    assert(v@.subrange(0, v.len() as int) == v@);
    r
}

/// Whether the two sequences hold the same characters.
pub fn chars_eq(a: &Vec<char>, b: &Vec<char>) -> (r: bool)
    ensures
        r == (a@ == b@),
{
    if a.len() != b.len() {
        return false;
    }
    let mut i: usize = 0;
    while i < a.len()
        invariant
            a.len() == b.len(),
            i <= a.len(),
            a@.subrange(0, i as int) == b@.subrange(0, i as int),
        decreases a.len() - i,
    {
        if a[i] != b[i] {
            return false;
        }
        assert(a@.subrange(0, i + 1) == a@.subrange(0, i as int).push(a@[i as int]));
        assert(b@.subrange(0, i + 1) == b@.subrange(0, i as int).push(b@[i as int]));
        i += 1;
    }
    assert(a@.subrange(0, a.len() as int) == a@);
    assert(b@.subrange(0, b.len() as int) == b@);
    true
}

/// Whether the two strings hold the same characters.
pub fn str_eq(a: &str, b: &str) -> (r: bool)
    ensures
        r == (a@ == b@),
{
    let x = chars_of(a);
    let y = chars_of(b);
    chars_eq(&x, &y)
}

/// Whether `needle` occurs in `hay` at index `at`.
pub fn matches_at(hay: &Vec<char>, needle: &Vec<char>, at: usize) -> (r: bool)
    ensures
        r == occurs_at(needle@, hay@, at as int),
{
    if needle.len() > hay.len() || at > hay.len() - needle.len() {
        return false;
    }
    let mut j: usize = 0;
    while j < needle.len()
        invariant
            at + needle.len() <= hay.len(),
            j <= needle.len(),
            hay@.subrange(at as int, at + j) == needle@.subrange(0, j as int),
        decreases needle.len() - j,
    {
        if hay[at + j] != needle[j] {
            assert(hay@.subrange(at as int, at + needle.len())[j as int] != needle@[j as int]);
            return false;
        }
        assert(hay@.subrange(at as int, at + j + 1) == hay@.subrange(at as int, at + j).push(
            hay@[at + j],
        ));
        assert(needle@.subrange(0, j + 1) == needle@.subrange(0, j as int).push(needle@[j as int]));
        j += 1;
    }
    assert(needle@.subrange(0, needle.len() as int) == needle@);
    true
}

/// Whether `s` begins with `p`.
pub fn starts_with(s: &Vec<char>, p: &Vec<char>) -> (r: bool)
    ensures
        r == is_prefix(p@, s@),
{
    matches_at(s, p, 0)
}

/// Whether `needle` occurs somewhere in `hay`.
pub fn contains_chars(hay: &Vec<char>, needle: &Vec<char>) -> (r: bool)
    ensures
        r == contains(hay@, needle@),
{
    if needle.len() > hay.len() {
        return false;
    }
    let last: usize = hay.len() - needle.len();
    let mut i: usize = 0;
    while i < last
        invariant
            last == hay.len() - needle.len(),
            i <= last,
            forall|k: int| 0 <= k < i ==> !occurs_at(needle@, hay@, k),
        decreases last - i,
    {
        if matches_at(hay, needle, i) {
            return true;
        }
        i += 1;
    }
    if matches_at(hay, needle, last) {
        return true;
    }
    false
}

/// The character that writes the digit `d` (0 to 9).
pub open spec fn digit_char(d: int) -> char {
    if d == 0 {
        '0'
    } else if d == 1 {
        '1'
    } else if d == 2 {
        '2'
    } else if d == 3 {
        '3'
    } else if d == 4 {
        '4'
    } else if d == 5 {
        '5'
    } else if d == 6 {
        '6'
    } else if d == 7 {
        '7'
    } else if d == 8 {
        '8'
    } else {
        '9'
    }
}

/// Decimal digits of a natural number, most significant first.
pub open spec fn nat_decimal(n: nat) -> Seq<char>
    decreases n,
{
    if n < 10 {
        seq![digit_char(n as int)]
    } else {
        nat_decimal(n / 10).push(digit_char((n % 10) as int))
    }
}

/// Decimal writing of an integer: a minus sign for negatives, then the digits.
pub open spec fn int_decimal(n: int) -> Seq<char> {
    if n < 0 {
        seq!['-'] + nat_decimal((-n) as nat)
    } else {
        nat_decimal(n as nat)
    }
}

/// The character that writes the digit `d`.
fn digit_of(d: u64) -> (c: char)
    requires
        d < 10,
    ensures
        c == digit_char(d as int),
{
    if d == 0 {
        '0'
    } else if d == 1 {
        '1'
    } else if d == 2 {
        '2'
    } else if d == 3 {
        '3'
    } else if d == 4 {
        '4'
    } else if d == 5 {
        '5'
    } else if d == 6 {
        '6'
    } else if d == 7 {
        '7'
    } else if d == 8 {
        '8'
    } else {
        '9'
    }
}

/// Appends the decimal digits of `n`.
fn push_decimal(n: u64, out: &mut String)
    ensures
        final(out)@ == old(out)@ + nat_decimal(n as nat),
    decreases n,
{
    if n >= 10 {
        push_decimal(n / 10, out);
    }
    push_char(out, digit_of(n % 10));
}

/// Decimal writing of `n`.
pub fn decimal_u64(n: u64) -> (r: String)
    ensures
        r@ == int_decimal(n as int),
{
    let mut out = String::new();
    push_decimal(n, &mut out);
    assert(out@ == nat_decimal(n as nat));
    out
}

/// Decimal writing of `n`.
pub fn decimal_i64(n: i64) -> (r: String)
    ensures
        r@ == int_decimal(n as int),
{
    let mut out = String::new();
    if n < 0 {
        push_char(&mut out, '-');
        let m: u64 = if n == i64::MIN {
            9223372036854775808u64
        } else {
            (-n) as u64
        };
        push_decimal(m, &mut out);
    } else {
        push_decimal(n as u64, &mut out);
        assert(out@ == nat_decimal(n as nat));
    }
    out
}

/// `a` followed by `b`.
pub fn joined(a: &str, b: &str) -> (r: String)
    ensures
        r@ == a@ + b@,
{
    let mut out = String::from_str(a);
    out.append(b);
    out
}

/// Name for the result of `char::is_whitespace`: whether `c` has the Unicode
/// property White_Space.
pub uninterp spec fn is_whitespace_char(c: char) -> bool;

/// `char::is_whitespace`: the result depends on the character alone.
#[verifier::external_body]
pub(crate) fn is_whitespace(c: char) -> (r: bool)
    ensures
        r == is_whitespace_char(c),
{
    c.is_whitespace()
}

/// Name for the result of `char::is_alphanumeric`: whether `c` is a letter or
/// a number by its Unicode category.
pub uninterp spec fn is_alphanumeric_char(c: char) -> bool;

/// `char::is_alphanumeric`: the result depends on the character alone.
#[verifier::external_body]
pub(crate) fn is_alphanumeric(c: char) -> (r: bool)
    ensures
        r == is_alphanumeric_char(c),
{
    c.is_alphanumeric()
}

/// Name for the result of `str::to_lowercase`: the lowercase equivalent of
/// the text under Unicode's case mapping.
pub uninterp spec fn lowercase_of(s: Seq<char>) -> Seq<char>;

/// `str::to_lowercase`: the result depends on the characters alone.
#[verifier::external_body]
pub(crate) fn to_lowercase(s: &str) -> (r: String)
    ensures
        r@ == lowercase_of(s@),
{
    s.to_lowercase()
}

/// For each character of a text, whether it is whitespace.
pub open spec fn whitespace_flags_of(s: Seq<char>) -> Seq<bool> {
    Seq::new(s.len(), |i: int| is_whitespace_char(s[i]))
}

/// First index at or after `i` whose flag is not set, or the length.
pub open spec fn skip_set(flags: Seq<bool>, i: int) -> int
    decreases flags.len() - i,
{
    if 0 <= i < flags.len() && flags[i] {
        skip_set(flags, i + 1)
    } else {
        i
    }
}

/// End of what lies before the set flags that run up to `j`, not below `lo`.
pub open spec fn skip_set_back(flags: Seq<bool>, lo: int, j: int) -> int
    decreases j,
{
    if 0 <= lo < j <= flags.len() && flags[j - 1] {
        skip_set_back(flags, lo, j - 1)
    } else {
        j
    }
}

/// Where the text starts behind the leading whitespace.
pub open spec fn trim_start(flags: Seq<bool>) -> int {
    skip_set(flags, 0)
}

/// Where the text ends before the trailing whitespace.
pub open spec fn trim_end(flags: Seq<bool>) -> int {
    skip_set_back(flags, trim_start(flags), flags.len() as int)
}

/// `s` without its leading and trailing whitespace.
pub open spec fn trimmed(s: Seq<char>) -> Seq<char> {
    let flags = whitespace_flags_of(s);
    s.subrange(trim_start(flags), trim_end(flags))
}

/// For each character of a text, whether it is whitespace.
pub fn whitespace_flags(s: &Vec<char>) -> (r: Vec<bool>)
    ensures
        r@ == whitespace_flags_of(s@),
{
    let mut out: Vec<bool> = Vec::new();
    let mut i: usize = 0;
    while i < s.len()
        invariant
            i <= s.len(),
            out@ == whitespace_flags_of(s@).subrange(0, i as int),
        decreases s.len() - i,
    {
        out.push(is_whitespace(s[i]));
        assert(out@ == whitespace_flags_of(s@).subrange(0, i + 1));
        i += 1;
    }
    assert(out@ == whitespace_flags_of(s@));
    out
}

/// The range that is left of a text when the characters flagged at its
/// start and at its end are taken away: from the first flag that is not set
/// to behind the last one. Where every flag is set the range is empty.
pub fn trim_range(flags: &Vec<bool>) -> (r: (usize, usize))
    ensures
        r.0 == trim_start(flags@),
        r.1 == trim_end(flags@),
        r.0 <= r.1 <= flags.len(),
{
    let mut a: usize = 0;
    while a < flags.len() && flags[a]
        invariant
            a <= flags.len(),
            skip_set(flags@, 0) == skip_set(flags@, a as int),
        decreases flags.len() - a,
    {
        a += 1;
    }
    let mut b: usize = flags.len();
    while b > a && flags[b - 1]
        invariant
            a <= b <= flags.len(),
            skip_set_back(flags@, a as int, flags.len() as int) == skip_set_back(
                flags@,
                a as int,
                b as int,
            ),
        decreases b,
    {
        b -= 1;
    }
    (a, b)
}

/// The text of `s` without leading and trailing whitespace.
pub fn trim(s: &Vec<char>) -> (r: Vec<char>)
    ensures
        r@ == trimmed(s@),
{
    let flags = whitespace_flags(s);
    let (a, b) = trim_range(&flags);
    let mut out: Vec<char> = Vec::new();
    let mut i: usize = a;
    while i < b
        invariant
            a <= i <= b <= s.len(),
            out@ == s@.subrange(a as int, i as int),
        decreases b - i,
    {
        out.push(s[i]);
        i += 1;
    }
    out
}

/// `line` without one trailing carriage return.
pub open spec fn strip_cr(line: Seq<char>) -> Seq<char> {
    if line.len() > 0 && line.last() == '\r' {
        line.drop_last()
    } else {
        line
    }
}

/// Lines of `s[start..]`, where `s[start..i]` holds no line feed.
pub open spec fn lines_from(s: Seq<char>, start: int, i: int) -> Seq<Seq<char>>
    decreases s.len() - i,
{
    if i < 0 || i >= s.len() {
        if 0 <= start < s.len() {
            seq![s.subrange(start, s.len() as int)]
        } else {
            Seq::empty()
        }
    } else if s[i] == '\n' {
        seq![strip_cr(s.subrange(start, i))] + lines_from(s, i + 1, i + 1)
    } else {
        lines_from(s, start, i + 1)
    }
}

/// The lines of a text. A line ends at a line feed; the line feed, and a
/// carriage return right before it, belong to no line. The last line needs
/// no line feed, and an empty text has no line.
pub open spec fn lines_of(s: Seq<char>) -> Seq<Seq<char>> {
    lines_from(s, 0, 0)
}

/// The lines of `s`.
pub fn lines(s: &Vec<char>) -> (r: Vec<Vec<char>>)
    ensures
        r.deep_view() == lines_of(s@),
{
    let mut out: Vec<Vec<char>> = Vec::new();
    let mut cur: Vec<char> = Vec::new();
    let mut start: usize = 0;
    let mut i: usize = 0;
    while i < s.len()
        invariant
            start <= i <= s.len(),
            cur@ == s@.subrange(start as int, i as int),
            lines_of(s@) == out.deep_view() + lines_from(s@, start as int, i as int),
        decreases s.len() - i,
    {
        let c = s[i];
        if c == '\n' {
            let n = cur.len();
            if n > 0 && cur[n - 1] == '\r' {
                cur.pop();
            }
            assert(cur@ == strip_cr(s@.subrange(start as int, i as int)));
            let ghost before = out.deep_view();
            out.push(cur);
            assert(out.deep_view() =~~= before.push(strip_cr(s@.subrange(start as int, i as int))));
            cur = Vec::new();
            start = i + 1;
        } else {
            cur.push(c);
        }
        i += 1;
    }
    if start < s.len() {
        let ghost before = out.deep_view();
        out.push(cur);
        assert(out.deep_view() =~~= before.push(s@.subrange(start as int, s.len() as int)));
    }
    out
}

/// Appends a copy of `t` to the texts.
pub fn push_text(v: &mut Vec<String>, t: &str)
    ensures
        final(v).deep_view() == old(v).deep_view().push(t@),
{
    let ghost before = v.deep_view();
    v.push(String::from_str(t));
    assert(v.deep_view() =~= before.push(t@));
}

/// The text, or `None` if it is empty.
pub open spec fn nonempty(t: Seq<char>) -> Option<Seq<char>> {
    if t.len() == 0 {
        None
    } else {
        Some(t)
    }
}

/// The text without the whitespace around it, or `None` if nothing is left.
pub open spec fn nonempty_trimmed(output: Seq<char>) -> Option<Seq<char>> {
    nonempty(trimmed(output))
}

/// The text as a string, or `None` if it is empty.
pub fn nonempty_text(t: &Vec<char>) -> (r: Option<String>)
    ensures
        match r {
            Some(s) => nonempty(t@) == Some(s@),
            None => nonempty(t@) is None,
        },
{
    if t.len() == 0 {
        None
    } else {
        Some(string_of(t))
    }
}

/// The text without the whitespace around it, or `None` if nothing is left.
pub fn trimmed_output(output: &str) -> (r: Option<String>)
    ensures
        match r {
            Some(s) => nonempty_trimmed(output@) == Some(s@),
            None => nonempty_trimmed(output@) is None,
        },
{
    let chars = chars_of(output);
    nonempty_text(&trim(&chars))
}

} // verus!
