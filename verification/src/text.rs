//! Building the short texts the explorer shows.

use vstd::prelude::*;

verus! {

/// `String::push` of the standard library: the character is appended to the end.
pub assume_specification[ String::push ](s: &mut String, ch: char)
    ensures
        final(s)@ == old(s)@.push(ch),
;

/// `String::pop` of the standard library: the last character is removed and
/// returned; an empty string stays empty and gives `None`.
pub assume_specification[ String::pop ](s: &mut String) -> (last: Option<char>)
    ensures
        old(s)@.len() == 0 ==> last is None && final(s)@ == old(s)@,
        old(s)@.len() > 0 ==> last == Some(old(s)@.last()) && final(s)@ == old(s)@.drop_last(),
;

/// The character of a decimal digit.
pub open spec fn digit(d: int) -> char {
    if d == 0 {
        '0'
    } else if d == 1 {
        '1'
    } else if d == 2 {
        '2'
    } else if d == 3 {
        '3'
    } else if d == 4 {
        '4'
    } else if d == 5 {
        '5'
    } else if d == 6 {
        '6'
    } else if d == 7 {
        '7'
    } else if d == 8 {
        '8'
    } else {
        '9'
    }
}

/// The decimal numeral of `n`, without leading zeros.
pub open spec fn decimal(n: nat) -> Seq<char>
    decreases n,
{
    if n < 10 {
        seq![digit(n as int)]
    } else {
        decimal(n / 10).push(digit((n % 10) as int))
    }
}

fn digit_of(d: u64) -> (c: char)
    requires
        d < 10,
    ensures
        c == digit(d as int),
{
    if d == 0 {
        '0'
    } else if d == 1 {
        '1'
    } else if d == 2 {
        '2'
    } else if d == 3 {
        '3'
    } else if d == 4 {
        '4'
    } else if d == 5 {
        '5'
    } else if d == 6 {
        '6'
    } else if d == 7 {
        '7'
    } else if d == 8 {
        '8'
    } else {
        '9'
    }
}

/// Appends the decimal numeral of `n` to `s`.
pub fn push_decimal(s: &mut String, n: u64)
    ensures
        final(s)@ == old(s)@ + decimal(n as nat),
    decreases n,
{
    if n >= 10 {
        push_decimal(s, n / 10);
    }
    s.push(digit_of(n % 10));
    assert(s@ =~= old(s)@ + decimal(n as nat));
}

/// The decimal numeral of an integer, with a minus sign before a negative one.
pub open spec fn signed_decimal(n: int) -> Seq<char> {
    if n < 0 {
        seq!['-'] + decimal((-n) as nat)
    } else {
        decimal(n as nat)
    }
}

/// Appends the decimal numeral of `n` to `s`.
pub fn push_signed_decimal(s: &mut String, n: i64)
    ensures
        final(s)@ == old(s)@ + signed_decimal(n as int),
{
    if n < 0 {
        s.push('-');
        let magnitude: u64 = if n == i64::MIN {
            9223372036854775808u64
        } else {
            (-n) as u64
        };
        push_decimal(s, magnitude);
        assert(s@ =~= old(s)@ + signed_decimal(n as int));
    } else {
        push_decimal(s, n as u64);
    }
}

/// A count between two pieces of text, as in "Loaded 3 banks".
pub fn count_message(before: &str, n: usize, after: &str) -> (m: String)
    ensures
        m@ == before@ + decimal(n as nat) + after@,
{
    let mut m = String::from_str(before);
    push_decimal(&mut m, n as u64);
    m.append(after);
    m
}

/// Whether two texts hold the same characters.
pub fn same_text(a: &str, b: &str) -> (same: bool)
    ensures
        same == (a@ == b@),
{
    String::from_str(a) == String::from_str(b)
}

/// Two pieces of text, one after the other.
pub fn joined(first: &str, second: &str) -> (m: String)
    ensures
        m@ == first@ + second@,
{
    let mut m = String::from_str(first);
    m.append(second);
    m
}

/// `n` spaces.
pub open spec fn spaces(n: nat) -> Seq<char> {
    Seq::new(n, |i: int| ' ')
}

/// `s` at the left of a field `width` characters wide; a longer text is kept whole.
pub open spec fn left_aligned(s: Seq<char>, width: nat) -> Seq<char> {
    if s.len() >= width {
        s
    } else {
        s + spaces((width - s.len()) as nat)
    }
}

/// `s` at the right of a field `width` characters wide; a longer text is kept whole.
pub open spec fn right_aligned(s: Seq<char>, width: nat) -> Seq<char> {
    if s.len() >= width {
        s
    } else {
        spaces((width - s.len()) as nat) + s
    }
}

/// The first `n` characters of `s`, or all of `s` if it has fewer.
pub open spec fn first_chars(s: Seq<char>, n: nat) -> Seq<char> {
    if s.len() <= n {
        s
    } else {
        s.take(n as int)
    }
}

/// The position of the first `stop` in `s` at or after `from`, or the length
/// of `s` if there is none.
pub open spec fn position_of(s: Seq<char>, stop: char, from: int) -> int
    decreases s.len() - from,
{
    if from < 0 || from >= s.len() {
        s.len() as int
    } else if s[from] == stop {
        from
    } else {
        position_of(s, stop, from + 1)
    }
}

/// The part of `s` before the first `stop`, or all of `s` if there is none.
pub open spec fn before_first(s: Seq<char>, stop: char) -> Seq<char> {
    s.take(position_of(s, stop, 0))
}

/// Appends `n` spaces to `s`.
pub fn push_spaces(s: &mut String, n: usize)
    ensures
        final(s)@ == old(s)@ + spaces(n as nat),
{
    let mut i: usize = 0;
    while i < n
        invariant
            i <= n,
            s@ == old(s)@ + spaces(i as nat),
        decreases n - i,
    {
        s.push(' ');
        i += 1;
        assert(s@ =~= old(s)@ + spaces(i as nat));
    }
}

/// Appends `text` to `out`, filled up with spaces on the right to `width` characters.
pub fn push_left_aligned(out: &mut String, text: &str, width: usize)
    ensures
        final(out)@ == old(out)@ + left_aligned(text@, width as nat),
{
    let len = text.unicode_len();
    out.append(text);
    if len < width {
        push_spaces(out, width - len);
        assert(out@ =~= old(out)@ + left_aligned(text@, width as nat));
    }
}

/// Appends `text` to `out`, filled up with spaces on the left to `width` characters.
pub fn push_right_aligned(out: &mut String, text: &str, width: usize)
    ensures
        final(out)@ == old(out)@ + right_aligned(text@, width as nat),
{
    let len = text.unicode_len();
    if len < width {
        push_spaces(out, width - len);
    }
    out.append(text);
    assert(out@ =~= old(out)@ + right_aligned(text@, width as nat));
}

/// The first `n` characters of `text`.
pub fn take_chars(text: &str, n: usize) -> (head: &str)
    ensures
        head@ == first_chars(text@, n as nat),
{
    let len = text.unicode_len();
    if len <= n {
        text
    } else {
        let head = text.substring_char(0, n);
        assert(head@ =~= text@.take(n as int));
        head
    }
}

/// The part of `text` before the first `stop`.
pub fn take_before(text: &str, stop: char) -> (head: &str)
    ensures
        head@ == before_first(text@, stop),
{
    let len = text.unicode_len();
    let mut i: usize = 0;
    while i < len && text.get_char(i) != stop
        invariant
            i <= len,
            len == text@.len(),
            position_of(text@, stop, 0) == position_of(text@, stop, i as int),
        decreases len - i,
    {
        i += 1;
    }
    let head = text.substring_char(0, i);
    assert(head@ =~= text@.take(i as int));
    head
}

} // verus!
