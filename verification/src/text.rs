//! Small tools on text: characters, prefixes, ASCII case, substring search,
//! decimal numerals, lines.

use vstd::prelude::*;

verus! {

/// `String::push` of the standard library: the character is appended and
/// nothing else changes.
pub assume_specification[ String::push ](s: &mut String, c: char)
    ensures
        final(s)@ == old(s)@.push(c),
;

/// The characters of `chars` from `from` up to `to`, as a string.
pub fn string_of(chars: &Vec<char>, from: usize, to: usize) -> (r: String)
    requires
        from <= to <= chars.len(),
    ensures
        r@ == chars@.subrange(from as int, to as int),
{
    let mut r = String::new();
    let mut i: usize = from;
    while i < to
        invariant
            from <= i <= to <= chars.len(),
            r@ == chars@.subrange(from as int, i as int),
        decreases to - i,
    {
        r.push(chars[i]);
        assert(chars@.subrange(from as int, i + 1) =~= chars@.subrange(from as int, i as int).push(
            chars@[i as int],
        ));
        i = i + 1;
    }
    r
}

/// The strings of a vector as character sequences.
pub open spec fn strings_view(v: Seq<String>) -> Seq<Seq<char>> {
    v.map_values(|s: String| s@)
}

/// The characters of `s`, in order.
pub fn chars_of(s: &str) -> (v: Vec<char>)
    ensures
        v@ == s@,
{
    let mut v: Vec<char> = Vec::new();
    for c in it: s.chars()
        invariant
            it.seq() == s@,
            v@ == it.seq().take(it.index() as int),
    {
        v.push(c);
    }
    v
}

/// Whether `s` begins with `p`.
pub fn starts_with(s: &Vec<char>, p: &Vec<char>) -> (r: bool)
    ensures
        r == p@.is_prefix_of(s@),
{
    if p.len() > s.len() {
        return false;
    }
    let mut i: usize = 0;
    while i < p.len()
        invariant
            i <= p.len() <= s.len(),
            forall|j: int| 0 <= j < i ==> s@[j] == p@[j],
        decreases p.len() - i,
    {
        if s[i] != p[i] {
            assert(s@.subrange(0, p@.len() as int)[i as int] != p@[i as int]);
            return false;
        }
        i = i + 1;
    }
    assert(s@.subrange(0, p@.len() as int) =~= p@);
    true
}

/// The lower-case form of an ASCII capital; every other character is itself.
pub open spec fn lower_char(c: char) -> char {
    if 'A' <= c && c <= 'Z' {
        ((c as u8 + 32) as u8) as char
    } else {
        c
    }
}

/// `s` with every ASCII capital in lower case.
pub open spec fn lower(s: Seq<char>) -> Seq<char> {
    s.map_values(|c: char| lower_char(c))
}

/// Computes [`lower_char`].
pub fn to_lower_char(c: char) -> (r: char)
    ensures
        r == lower_char(c),
{
    if 'A' <= c && c <= 'Z' {
        let b: u8 = c as u8;
        (b + 32) as char
    } else {
        c
    }
}

/// Whether the lower-case form of `s` is `wanted`.
pub fn lower_equals(s: &Vec<char>, wanted: &Vec<char>) -> (r: bool)
    ensures
        r == (lower(s@) == wanted@),
{
    if s.len() != wanted.len() {
        return false;
    }
    let mut i: usize = 0;
    while i < s.len()
        invariant
            i <= s.len(),
            s.len() == wanted.len(),
            forall|j: int| 0 <= j < i ==> lower_char(s@[j]) == wanted@[j],
        decreases s.len() - i,
    {
        if to_lower_char(s[i]) != wanted[i] {
            assert(lower(s@)[i as int] != wanted@[i as int]);
            return false;
        }
        i = i + 1;
    }
    assert(lower(s@) =~= wanted@);
    true
}

/// Whether `needle` stands in `hay` at offset `at`.
pub open spec fn occurs_at(hay: Seq<char>, needle: Seq<char>, at: int) -> bool {
    &&& 0 <= at
    &&& at + needle.len() <= hay.len()
    &&& hay.subrange(at, at + needle.len()) == needle
}

/// Whether `needle` stands somewhere in `hay`.
pub open spec fn contains(hay: Seq<char>, needle: Seq<char>) -> bool {
    exists|at: int| occurs_at(hay, needle, at)
}

/// Whether `needle` stands in the lower-case form of `hay` at offset `at`.
fn lower_occurs_at(hay: &Vec<char>, needle: &Vec<char>, at: usize) -> (r: bool)
    requires
        at + needle.len() <= hay.len(),
    ensures
        r == occurs_at(lower(hay@), needle@, at as int),
{
    let mut j: usize = 0;
    while j < needle.len()
        invariant
            j <= needle.len(),
            at + needle.len() <= hay.len(),
            forall|k: int| 0 <= k < j ==> lower_char(hay@[at + k]) == needle@[k],
        decreases needle.len() - j,
    {
        if to_lower_char(hay[at + j]) != needle[j] {
            assert(lower(hay@).subrange(at as int, at + needle@.len())[j as int] != needle@[j as int]);
            return false;
        }
        j = j + 1;
    }
    assert(lower(hay@).subrange(at as int, at + needle@.len()) =~= needle@);
    true
}

/// Whether `needle` stands somewhere in the lower-case form of `hay`.
pub fn lower_contains(hay: &Vec<char>, needle: &Vec<char>) -> (r: bool)
    ensures
        r == contains(lower(hay@), needle@),
{
    if needle.len() > hay.len() {
        return false;
    }
    if needle.len() == 0 {
        assert(lower(hay@).subrange(0, 0) =~= needle@);
        assert(occurs_at(lower(hay@), needle@, 0));
        return true;
    }
    let mut at: usize = 0;
    while at <= hay.len() - needle.len()
        invariant
            0 < needle.len() <= hay.len(),
            at <= hay.len() - needle.len() + 1,
            forall|k: int| 0 <= k < at ==> !occurs_at(lower(hay@), needle@, k),
        decreases hay.len() - at,
    {
        if lower_occurs_at(hay, needle, at) {
            return true;
        }
        at = at + 1;
    }
    false
}

/// The character of a decimal digit.
pub open spec fn digit_char(d: nat) -> char
    recommends
        d < 10,
{
    ((d + 48) as u8) as char
}

/// The decimal numeral of `n`, without leading zeros.
pub open spec fn decimal(n: nat) -> Seq<char>
    decreases n,
{
    if n < 10 {
        seq![digit_char(n)]
    } else {
        decimal(n / 10).push(digit_char(n % 10))
    }
}

/// Appends the decimal numeral of `n` to `out`.
pub fn push_decimal(out: &mut String, n: u16)
    ensures
        final(out)@ == old(out)@ + decimal(n as nat),
    decreases n,
{
    if n >= 10 {
        push_decimal(out, n / 10);
    }
    let d: u8 = (n % 10) as u8;
    out.push((d + 48) as char);
    assert(final(out)@ =~= old(out)@ + decimal(n as nat));
}

/// Where the first line feed of `s` from `from` on stands; the length of `s`
/// if there is none.
pub open spec fn line_end(s: Seq<char>, from: int) -> int
    decreases s.len() - from,
{
    if from < 0 || from >= s.len() {
        s.len() as int
    } else if s[from] == '\n' {
        from
    } else {
        line_end(s, from + 1)
    }
}

/// A line as it stood before its line feed, without the carriage return that
/// belongs to the line ending.
pub open spec fn without_return(line: Seq<char>) -> Seq<char> {
    if line.len() > 0 && line.last() == '\r' {
        line.drop_last()
    } else {
        line
    }
}

/// The line of `s` that begins at `from`. A line that ends the text without
/// a line feed keeps a carriage return at its end.
pub open spec fn line_at(s: Seq<char>, from: int) -> Seq<char> {
    let end = line_end(s, from);
    if end < s.len() {
        without_return(s.subrange(from, end))
    } else {
        s.subrange(from, end)
    }
}

/// The lines of `s` from `from` on.
pub open spec fn lines_from(s: Seq<char>, from: int) -> Seq<Seq<char>>
    decreases s.len() - from,
{
    if from < 0 || from >= s.len() {
        Seq::empty()
    } else {
        seq![line_at(s, from)] + lines_from(s, next_line(s, from))
    }
}

/// Where the line after the one at `from` begins: behind its line feed, or at
/// the end of the text.
pub open spec fn next_line(s: Seq<char>, from: int) -> int {
    let end = line_end(s, from);
    if from <= end && end < s.len() {
        end + 1
    } else {
        s.len() as int
    }
}

/// The lines of a text. A line ends with a line feed, or with a carriage
/// return and a line feed; neither belongs to the line. The last line need
/// not end so, and an empty rest after the last line feed is no line.
pub open spec fn lines_of(s: Seq<char>) -> Seq<Seq<char>> {
    lines_from(s, 0)
}

/// Finds the end of the line that begins at `from`.
fn find_line_end(chars: &Vec<char>, from: usize) -> (end: usize)
    requires
        from <= chars.len(),
    ensures
        end == line_end(chars@, from as int),
        from <= end <= chars.len(),
{
    let mut i: usize = from;
    while i < chars.len()
        invariant
            from <= i <= chars.len(),
            line_end(chars@, from as int) == line_end(chars@, i as int),
        decreases chars.len() - i,
    {
        if chars[i] == '\n' {
            return i;
        }
        i = i + 1;
    }
    i
}

/// Splits a text into its lines.
pub fn split_lines(text: &str) -> (lines: Vec<String>)
    ensures
        strings_view(lines@) == lines_of(text@),
{
    let chars = chars_of(text);
    let mut lines: Vec<String> = Vec::new();
    let mut from: usize = 0;
    assert(strings_view(lines@) =~= Seq::empty());
    while from < chars.len()
        invariant
            from <= chars.len(),
            chars@ == text@,
            strings_view(lines@) + lines_from(chars@, from as int) == lines_of(chars@),
        decreases chars.len() - from,
    {
        let end = find_line_end(&chars, from);
        let ghost before = strings_view(lines@);
        let stop: usize = if end < chars.len() && end > from && chars[end - 1] == '\r' {
            end - 1
        } else {
            end
        };
        let line = string_of(&chars, from, stop);
        proof {
            let whole = chars@.subrange(from as int, end as int);
            if end < chars.len() && end > from && chars@[end - 1] == '\r' {
                assert(whole.last() == '\r');
                assert(whole.drop_last() =~= chars@.subrange(from as int, stop as int));
            } else if end < chars.len() {
                assert(without_return(whole) == whole) by {
                    if whole.len() > 0 {
                        assert(whole.last() == chars@[end - 1]);
                    }
                }
            }
            assert(line@ == line_at(chars@, from as int));
        }
        lines.push(line);
        proof {
            assert(strings_view(lines@) =~= before.push(line@));
            let next = next_line(chars@, from as int);
            assert(before.push(line@) + lines_from(chars@, next) =~= before + (seq![line@]
                + lines_from(chars@, next)));
        }
        if end == chars.len() {
            from = end;
        } else {
            from = end + 1;
        }
    }
    assert(lines_from(chars@, from as int) =~= Seq::empty());
    assert(strings_view(lines@) + Seq::<Seq<char>>::empty() =~= strings_view(lines@));
    lines
}

} // verus!
