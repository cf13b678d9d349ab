//! Character and string helpers shared by the parsers.

use vstd::prelude::*;

verus! {

/// The characters that count as white space: the Unicode `White_Space` set.
pub open spec fn is_whitespace(c: char) -> bool {
    ||| c == '\t'
    ||| c == '\n'
    ||| c == '\u{b}'
    ||| c == '\u{c}'
    ||| c == '\r'
    ||| c == ' '
    ||| c == '\u{85}'
    ||| c == '\u{a0}'
    ||| c == '\u{1680}'
    ||| ('\u{2000}' <= c && c <= '\u{200a}')
    ||| c == '\u{2028}'
    ||| c == '\u{2029}'
    ||| c == '\u{202f}'
    ||| c == '\u{205f}'
    ||| c == '\u{3000}'
}

/// Tells whether `c` is a white space character.
pub fn char_is_whitespace(c: char) -> (res: bool)
    ensures
        res == is_whitespace(c),
{
    c == '\t' || c == '\n' || c == '\u{b}' || c == '\u{c}' || c == '\r' || c == ' '
        || c == '\u{85}' || c == '\u{a0}' || c == '\u{1680}' || ('\u{2000}' <= c && c
        <= '\u{200a}') || c == '\u{2028}' || c == '\u{2029}' || c == '\u{202f}' || c
        == '\u{205f}' || c == '\u{3000}'
}

/// The characters of `s`, in order.
pub fn chars_of(s: &str) -> (res: Vec<char>)
    ensures
        res@ == s@,
{
    let mut out: Vec<char> = Vec::new();
    for c in it: s.chars()
        invariant
            it.seq() == s@,
            out@ == s@.take(it.index() as int),
    {
        out.push(c);
    }
    out
}

/// Tells whether two strings hold the same characters.
pub fn str_equal(a: &str, b: &str) -> (res: bool)
    ensures
        res == (a@ == b@),
{
    let x: String = a.to_owned();
    let y: String = b.to_owned();
    x == y
}

/// A set of characters that a scan runs over.
#[derive(Debug, Clone, Copy, PartialEq, Eq, Structural)]
pub enum Class {
    /// The space character.
    Space,
    /// White space.
    White,
    /// Anything but white space.
    Black,
    /// This character.
    Only(char),
    /// Anything but white space and this character.
    BlackBut(char),
    /// Anything but this character.
    Except(char),
    /// Anything but these two characters.
    Neither(char, char),
}

impl Class {
    /// Whether `c` is in the set.
    pub open spec fn has(self, c: char) -> bool {
        match self {
            Class::Space => c == ' ',
            Class::White => is_whitespace(c),
            Class::Black => !is_whitespace(c),
            Class::Only(x) => c == x,
            Class::BlackBut(x) => !is_whitespace(c) && c != x,
            Class::Except(x) => c != x,
            Class::Neither(x, y) => c != x && c != y,
        }
    }

    /// Tells whether `c` is in the set.
    pub fn contains(&self, c: char) -> (res: bool)
        ensures
            res == self.has(c),
    {
        match *self {
            Class::Space => c == ' ',
            Class::White => char_is_whitespace(c),
            Class::Black => !char_is_whitespace(c),
            Class::Only(x) => c == x,
            Class::BlackBut(x) => !char_is_whitespace(c) && c != x,
            Class::Except(x) => c != x,
            Class::Neither(x, y) => c != x && c != y,
        }
    }
}

/// Where the longest run of characters of `class` that starts at `from`
/// ends: the first index from `from` on that holds another character, or
/// the length of `s`.
pub open spec fn span_end(s: Seq<char>, from: int, class: Class) -> int
    decreases s.len() - from,
{
    if 0 <= from < s.len() && class.has(s[from]) {
        span_end(s, from + 1, class)
    } else {
        from
    }
}

/// Where the longest run of characters of `class` that ends at `to`
/// starts.
pub open spec fn span_start(s: Seq<char>, to: int, class: Class) -> int
    decreases to,
{
    if 0 < to <= s.len() && class.has(s[to - 1]) {
        span_start(s, to - 1, class)
    } else {
        to
    }
}

/// `s` without the white space at its two ends.
pub open spec fn trimmed(s: Seq<char>) -> Seq<char> {
    let start = span_end(s, 0, Class::White);
    let end = span_start(s, s.len() as int, Class::White);
    if start < end {
        s.subrange(start, end)
    } else {
        Seq::empty()
    }
}

/// A run ends within the string, behind its start, and holds only
/// characters of its class; the character behind it is of another class.
pub proof fn lemma_span_end(s: Seq<char>, from: int, class: Class)
    requires
        0 <= from <= s.len(),
    ensures
        from <= span_end(s, from, class) <= s.len(),
        forall|i: int| from <= i < span_end(s, from, class) ==> class.has(#[trigger] s[i]),
        span_end(s, from, class) < s.len() ==> !class.has(s[span_end(s, from, class)]),
    decreases s.len() - from,
{
    if from < s.len() && class.has(s[from]) {
        lemma_span_end(s, from + 1, class);
    }
}

/// Where the longest run of characters of `class` from `from` on ends.
pub fn scan(s: &Vec<char>, from: usize, class: Class) -> (res: usize)
    requires
        from <= s.len(),
    ensures
        res == span_end(s@, from as int, class),
        from <= res <= s.len(),
{
    let mut i: usize = from;
    while i < s.len() && class.contains(s[i])
        invariant
            from <= i <= s.len(),
            span_end(s@, from as int, class) == span_end(s@, i as int, class),
        decreases s.len() - i,
    {
        i += 1;
    }
    i
}

/// Where the longest run of characters of `class` that ends at `to`
/// starts.
pub fn scan_back(s: &Vec<char>, to: usize, class: Class) -> (res: usize)
    requires
        to <= s.len(),
    ensures
        res == span_start(s@, to as int, class),
        res <= to,
{
    let mut i: usize = to;
    while i > 0 && class.contains(s[i - 1])
        invariant
            i <= to <= s.len(),
            span_start(s@, to as int, class) == span_start(s@, i as int, class),
        decreases i,
    {
        i -= 1;
    }
    i
}

/// The characters of `s` from `from` up to `to`.
pub fn slice(s: &Vec<char>, from: usize, to: usize) -> (res: Vec<char>)
    requires
        from <= to <= s.len(),
    ensures
        res@ == s@.subrange(from as int, to as int),
{
    let mut out: Vec<char> = Vec::new();
    let mut i: usize = from;
    while i < to
        invariant
            from <= i <= to <= s.len(),
            out@ == s@.subrange(from as int, i as int),
        decreases to - i,
    {
        out.push(s[i]);
        i += 1;
    }
    out
}

/// The part of `s` from character `from` up to character `to`, as a
/// string of its own.
pub fn substring(s: &str, from: usize, to: usize) -> (res: String)
    requires
        from <= to <= s@.len(),
    ensures
        res@ == s@.subrange(from as int, to as int),
{
    s.substring_char(from, to).to_owned()
}

/// `line` without the carriage return at its end, if it has one.
pub open spec fn without_return(line: Seq<char>) -> Seq<char> {
    if line.len() > 0 && line.last() == '\r' {
        line.drop_last()
    } else {
        line
    }
}

/// Where the line begins that is open after the first `n` characters of
/// `s`: behind the last line feed among them.
pub open spec fn line_start(s: Seq<char>, n: int) -> int
    decreases n,
{
    if n <= 0 {
        0
    } else if s[n - 1] == '\n' {
        n
    } else {
        line_start(s, n - 1)
    }
}

/// The lines that end within the first `n` characters of `s`: each runs
/// up to a line feed, and is taken without it and without a carriage
/// return before it.
pub open spec fn lines_upto(s: Seq<char>, n: int) -> Seq<Seq<char>>
    decreases n,
{
    if n <= 0 {
        Seq::empty()
    } else if s[n - 1] == '\n' {
        lines_upto(s, n - 1).push(without_return(s.subrange(line_start(s, n - 1), n - 1)))
    } else {
        lines_upto(s, n - 1)
    }
}

/// The lines of a text: those that a line feed ends, and what follows
/// the last line feed if anything does.
pub open spec fn lines_of(s: Seq<char>) -> Seq<Seq<char>> {
    let n = s.len() as int;
    if line_start(s, n) < n {
        lines_upto(s, n).push(s.subrange(line_start(s, n), n))
    } else {
        lines_upto(s, n)
    }
}

/// The lines of a text, each as a string of its own.
pub fn split_lines(text: &str) -> (res: Vec<String>)
    ensures
        res.deep_view() == lines_of(text@),
{
    let chars = chars_of(text);
    let mut out: Vec<String> = Vec::new();
    let mut start: usize = 0;
    let mut i: usize = 0;
    assert(out.deep_view() =~= lines_upto(text@, 0));
    while i < chars.len()
        invariant
            i <= chars.len(),
            chars@ == text@,
            start == line_start(text@, i as int),
            start <= i,
            out.deep_view() == lines_upto(text@, i as int),
        decreases chars.len() - i,
    {
        if chars[i] == '\n' {
            let end: usize = if i > start && chars[i - 1] == '\r' {
                i - 1
            } else {
                i
            };
            let ghost before = out.deep_view();
            let line = substring(text, start, end);
            assert(line@ =~= without_return(text@.subrange(start as int, i as int)));
            out.push(line);
            assert(out.deep_view() =~= before.push(line@));
            start = i + 1;
        }
        i += 1;
    }
    if start < chars.len() {
        let ghost before = out.deep_view();
        let line = substring(text, start, chars.len());
        out.push(line);
        assert(out.deep_view() =~= before.push(line@));
    }
    out
}

/// The characters of an optional string.
pub open spec fn opt_text(value: Option<String>) -> Option<Seq<char>> {
    match value {
        Some(s) => Some(s@),
        None => None,
    }
}

/// The strings of an optional list, each as its characters.
pub open spec fn opt_texts(value: Option<Vec<String>>) -> Option<Seq<Seq<char>>> {
    match value {
        Some(v) => Some(v.deep_view()),
        None => None,
    }
}

/// A copy of a list of strings.
pub fn clone_strings(list: &Vec<String>) -> (res: Vec<String>)
    ensures
        res.deep_view() == list.deep_view(),
{
    let mut out: Vec<String> = Vec::new();
    let mut i: usize = 0;
    while i < list.len()
        invariant
            i <= list.len(),
            out.len() == i,
            forall|k: int| 0 <= k < i ==> out@[k]@ == list@[k]@,
        decreases list.len() - i,
    {
        out.push(list[i].clone());
        i += 1;
    }
    assert(out.deep_view() =~= list.deep_view());
    out
}

/// A copy of an optional string.
pub fn clone_opt_string(value: &Option<String>) -> (res: Option<String>)
    ensures
        opt_text(res) == opt_text(*value),
{
    match value {
        Some(s) => Some(s.clone()),
        None => None,
    }
}

/// A copy of an optional list of strings.
pub fn clone_opt_strings(value: &Option<Vec<String>>) -> (res: Option<Vec<String>>)
    ensures
        opt_texts(res) == opt_texts(*value),
{
    match value {
        Some(v) => Some(clone_strings(v)),
        None => None,
    }
}

} // verus!
