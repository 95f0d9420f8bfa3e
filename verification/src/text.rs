//! Text as a sequence of characters: whitespace, trimming, searching, line
//! splitting and decimal numbers.
//!
//! The executable functions work on slices of `char` and are specified
//! against functions over `Seq<char>`.

use vstd::prelude::*;
use vstd::slice::slice_subrange;

verus! {

/// Whether `c` carries the Unicode property `White_Space`.
pub open spec fn is_whitespace(c: char) -> bool {
    let n = c as u32;
    ||| 0x09 <= n <= 0x0D
    ||| n == 0x20
    ||| n == 0x85
    ||| n == 0xA0
    ||| n == 0x1680
    ||| 0x2000 <= n <= 0x200A
    ||| n == 0x2028
    ||| n == 0x2029
    ||| n == 0x202F
    ||| n == 0x205F
    ||| n == 0x3000
}

/// `s` without its leading whitespace.
pub open spec fn trim_start(s: Seq<char>) -> Seq<char>
    decreases s.len(),
{
    if s.len() > 0 && is_whitespace(s.first()) {
        trim_start(s.drop_first())
    } else {
        s
    }
}

/// `s` without its trailing whitespace.
pub open spec fn trim_end(s: Seq<char>) -> Seq<char>
    decreases s.len(),
{
    if s.len() > 0 && is_whitespace(s.last()) {
        trim_end(s.drop_last())
    } else {
        s
    }
}

/// `s` without its leading and trailing whitespace.
pub open spec fn trim(s: Seq<char>) -> Seq<char> {
    trim_end(trim_start(s))
}

/// `line` without one trailing carriage return, if it has one.
pub open spec fn strip_carriage_return(line: Seq<char>) -> Seq<char> {
    if line.len() > 0 && line.last() == '\r' {
        line.drop_last()
    } else {
        line
    }
}

/// The lines of `text`.
///
/// A line ends at a line feed, or at a carriage return directly followed by a
/// line feed; neither belongs to the line. What follows the last line feed is
/// a line of its own unless it is empty, and keeps a carriage return it may
/// end with.
pub open spec fn split_lines(text: Seq<char>) -> Seq<Seq<char>>
    decreases text.len(),
{
    if text.len() == 0 {
        Seq::empty()
    } else {
        match text.index_of_first('\n') {
            // The bounds hold of every first index; they are spelled out for termination.
            Some(n) if 0 <= n < text.len() => seq![strip_carriage_return(text.take(n))].add(
                split_lines(text.skip(n + 1)),
            ),
            _ => seq![text],
        }
    }
}

/// The character that writes the digit `d`.
pub open spec fn digit(d: nat) -> char
    recommends
        d < 10,
{
    if d == 0 {
        '0'
    } else if d == 1 {
        '1'
    } else if d == 2 {
        '2'
    } else if d == 3 {
        '3'
    } else if d == 4 {
        '4'
    } else if d == 5 {
        '5'
    } else if d == 6 {
        '6'
    } else if d == 7 {
        '7'
    } else if d == 8 {
        '8'
    } else {
        '9'
    }
}

/// `n` written in decimal, without leading zeros.
pub open spec fn decimal(n: nat) -> Seq<char>
    decreases n,
{
    if n < 10 {
        seq![digit(n)]
    } else {
        decimal(n / 10).push(digit(n % 10))
    }
}

/// Copies the characters of `s` into a vector, in order.
pub fn chars_of(s: &str) -> (v: Vec<char>)
    ensures
        v@ == s@,
{
    let mut v: Vec<char> = Vec::new();
    for c in it: s.chars()
        invariant
            it.seq() == s@,
            v@ == it.seq().take(it.index() as int),
    {
        v.push(c);
    }
    v
}

/// Whether `token` spells exactly `name`.
pub fn is_token(token: &[char], name: &str) -> (same: bool)
    ensures
        same == (token@ == name@),
{
    let mut i: usize = 0;
    for c in it: name.chars()
        invariant
            it.seq() == name@,
            i == it.index(),
            i <= token.len(),
            token@.take(i as int) == name@.take(i as int),
    {
        if i >= token.len() || token[i] != c {
            return false;
        }
        i += 1;
    }
    assert(name@.take(i as int) =~= name@);
    assert(i == token.len() ==> token@.take(i as int) =~= token@);
    i == token.len()
}

/// Whether `c` is whitespace.
pub fn is_space(c: char) -> (b: bool)
    ensures
        b == is_whitespace(c),
{
    let n: u32 = c as u32;
    (0x09 <= n && n <= 0x0D) || n == 0x20 || n == 0x85 || n == 0xA0 || n == 0x1680 || (0x2000 <= n
        && n <= 0x200A) || n == 0x2028 || n == 0x2029 || n == 0x202F || n == 0x205F || n == 0x3000
}

/// The part of `s` after its leading whitespace.
pub fn trimmed_start(s: &[char]) -> (t: &[char])
    ensures
        t@ == trim_start(s@),
{
    let mut lo: usize = 0;
    assert(s@.skip(0) =~= s@);
    while lo < s.len() && is_space(s[lo])
        invariant
            lo <= s.len(),
            trim_start(s@) == trim_start(s@.skip(lo as int)),
        decreases s.len() - lo,
    {
        assert(s@.skip(lo as int).drop_first() =~= s@.skip(lo + 1));
        lo += 1;
    }
    slice_subrange(s, lo, s.len())
}

/// The part of `s` before its trailing whitespace.
pub fn trimmed_end(s: &[char]) -> (t: &[char])
    ensures
        t@ == trim_end(s@),
{
    let mut hi: usize = s.len();
    assert(s@.take(hi as int) =~= s@);
    while hi > 0 && is_space(s[hi - 1])
        invariant
            hi <= s.len(),
            trim_end(s@) == trim_end(s@.take(hi as int)),
        decreases hi,
    {
        assert(s@.take(hi as int).drop_last() =~= s@.take(hi - 1));
        hi -= 1;
    }
    slice_subrange(s, 0, hi)
}

/// The part of `s` between its leading and its trailing whitespace.
pub fn trimmed(s: &[char]) -> (t: &[char])
    ensures
        t@ == trim(s@),
{
    trimmed_end(trimmed_start(s))
}

/// The index of the first `needle` in `s`.
pub fn find(s: &[char], needle: char) -> (found: Option<usize>)
    ensures
        match found {
            Some(i) => s@.index_of_first(needle) == Some(i as int),
            None => s@.index_of_first(needle) is None,
        },
{
    let mut i: usize = 0;
    while i < s.len()
        invariant
            i <= s.len(),
            forall|j: int| 0 <= j < i ==> s@[j] != needle,
        decreases s.len() - i,
    {
        if s[i] == needle {
            proof {
                s@.index_of_first_ensures(needle);
            }
            return Some(i);
        }
        i += 1;
    }
    proof {
        s@.index_of_first_ensures(needle);
    }
    None
}

/// Where the line that starts at `start` ends, and where the next one starts.
///
/// Returns `(end, next)`: the line is `text[start..end]`, and the rest of the
/// text after its line ending is `text[next..]`. The next line starts just
/// past the first line feed at or after `start`, or at the end of the text
/// where there is none.
pub fn line_at(text: &[char], start: usize) -> (bounds: (usize, usize))
    requires
        start < text.len(),
    ensures
        start <= bounds.0 <= bounds.1 <= text.len(),
        start < bounds.1,
        bounds.1 == match text@.skip(start as int).index_of_first('\n') {
            Some(n) => start + n + 1,
            None => text.len() as int,
        },
        split_lines(text@.skip(start as int)) == seq![
            text@.subrange(start as int, bounds.0 as int),
        ].add(split_lines(text@.skip(bounds.1 as int))),
{
    let rest = slice_subrange(text, start, text.len());
    proof {
        rest@.index_of_first_ensures('\n');
    }
    match find(rest, '\n') {
        None => (text.len(), text.len()),
        Some(n) => {
            let feed = start + n;
            let end = if n > 0 && text[feed - 1] == '\r' {
                feed - 1
            } else {
                feed
            };
            assert(strip_carriage_return(rest@.take(n as int)) =~= text@.subrange(
                start as int,
                end as int,
            ));
            assert(rest@.skip(n + 1) =~= text@.skip(feed + 1));
            (end, feed + 1)
        },
    }
}

/// The digit `d` as text.
fn digit_text(d: usize) -> (text: &'static str)
    requires
        d < 10,
    ensures
        text@ == seq![digit(d as nat)],
{
    proof {
        reveal_strlit("0");
        reveal_strlit("1");
        reveal_strlit("2");
        reveal_strlit("3");
        reveal_strlit("4");
        reveal_strlit("5");
        reveal_strlit("6");
        reveal_strlit("7");
        reveal_strlit("8");
        reveal_strlit("9");
    }
    let text = match d {
        0 => "0",
        1 => "1",
        2 => "2",
        3 => "3",
        4 => "4",
        5 => "5",
        6 => "6",
        7 => "7",
        8 => "8",
        _ => "9",
    };
    text
}

/// Writes `n` in decimal.
pub fn decimal_text(n: usize) -> (text: String)
    ensures
        text@ == decimal(n as nat),
    decreases n,
{
    if n < 10 {
        digit_text(n).to_owned()
    } else {
        let mut text = decimal_text(n / 10);
        text.append(digit_text(n % 10));
        text
    }
}

} // verus!
