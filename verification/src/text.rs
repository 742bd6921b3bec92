//! Text helpers shared by the other modules.

use vstd::prelude::*;

verus! {

/// `needle` stands in `hay` at character offset `at`.
pub open spec fn occurs_at(hay: Seq<char>, needle: Seq<char>, at: int) -> bool {
    &&& 0 <= at
    &&& at + needle.len() <= hay.len()
    &&& hay.subrange(at, at + needle.len()) == needle
}

/// `needle` occurs somewhere in `hay` as a contiguous run of characters.
pub open spec fn is_substring(hay: Seq<char>, needle: Seq<char>) -> bool {
    exists|at: int| occurs_at(hay, needle, at)
}

/// Calls `str::contains` of std with a string pattern. std documents that it
/// returns true exactly when the pattern matches a sub-slice of the string;
/// both operands are valid UTF-8, so a match of the bytes is a match of the
/// characters.
#[verifier::external_body]
pub(crate) fn str_contains(hay: &str, needle: &str) -> (found: bool)
    ensures
        found == is_substring(hay@, needle@),
{
    hay.contains(needle)
}

/// Calls `String::push_str` of std, which appends the slice to the string.
#[verifier::external_body]
pub(crate) fn push_str(target: &mut String, tail: &str)
    ensures
        final(target)@ == old(target)@ + tail@,
{
    target.push_str(tail)
}

/// Calls `String::push` of std, which appends the character to the string.
#[verifier::external_body]
pub(crate) fn push_char(target: &mut String, c: char)
    ensures
        final(target)@ == old(target)@.push(c),
{
    target.push(c)
}

/// The first `upto` characters of `text` with a comma before every
/// character, but the first, whose distance from the end of `text` is a
/// multiple of three.
pub open spec fn marked(text: Seq<char>, upto: int) -> Seq<char>
    decreases upto,
{
    if upto <= 0 {
        Seq::empty()
    } else {
        let at = upto - 1;
        let before = marked(text, at);
        if at > 0 && (text.len() - at) % 3 == 0 {
            before.push(',').push(text[at])
        } else {
            before.push(text[at])
        }
    }
}

/// `text` in groups of three characters, counted from its end, with commas
/// between the groups.
pub open spec fn decimal_mark_text(text: Seq<char>) -> Seq<char> {
    marked(text, text.len() as int)
}

/// Writes a number with commas between its groups of three digits.
pub fn decimal_mark(text: &str) -> (grouped: String)
    ensures
        grouped@ == decimal_mark_text(text@),
{
    let length = text.unicode_len();
    let mut grouped = String::new();
    let mut at: usize = 0;
    while at < length
        invariant
            at <= length,
            length == text@.len(),
            grouped@ == marked(text@, at as int),
        decreases length - at,
    {
        if at > 0 && (length - at) % 3 == 0 {
            push_char(&mut grouped, ',');
        }
        push_char(&mut grouped, text.get_char(at));
        at += 1;
    }
    grouped
}

/// Grouping leaves a text of up to three characters as it is, and of a
/// longer one it groups what stands before the last three.
pub proof fn lemma_decimal_mark_groups_from_the_end(text: Seq<char>)
    ensures
        text.len() <= 3 ==> decimal_mark_text(text) == text,
        text.len() > 3 ==> decimal_mark_text(text) == decimal_mark_text(
            text.subrange(0, text.len() - 3),
        ).push(',') + text.subrange(text.len() - 3, text.len() as int),
{
    if text.len() <= 3 {
        reveal_with_fuel(marked, 4);
    } else {
        let head = text.subrange(0, text.len() - 3);
        lemma_marked_prefix(text, head, head.len() as int);
        reveal_with_fuel(marked, 4);
        let n = text.len() as int;
    }
}

/// The marks of a prefix depend on the distance from the end only.
proof fn lemma_marked_prefix(text: Seq<char>, head: Seq<char>, upto: int)
    requires
        text.len() >= 3,
        head == text.subrange(0, text.len() - 3),
        0 <= upto <= head.len(),
    ensures
        marked(text, upto) == marked(head, upto),
    decreases upto,
{
    if upto > 0 {
        lemma_marked_prefix(text, head, upto - 1);
    }
}

/// The decimal digits of a natural number.
pub open spec fn digits(n: nat) -> Seq<char>
    decreases n,
{
    if n < 10 {
        seq![crate::clock::digit(n as int)]
    } else {
        digits(n / 10).push(crate::clock::digit((n % 10) as int))
    }
}

/// A whole number in decimal notation, with a minus sign where it is
/// negative.
pub open spec fn decimal_text(n: int) -> Seq<char> {
    if n < 0 {
        seq!['-'] + digits((-n) as nat)
    } else {
        digits(n as nat)
    }
}

/// `text` behind as many of `fill` as bring it to `width` characters.
pub open spec fn padded(text: Seq<char>, width: nat, fill: char) -> Seq<char> {
    if text.len() >= width {
        text
    } else {
        Seq::new((width - text.len()) as nat, |i: int| fill) + text
    }
}

fn digit_char(d: u64) -> (c: char)
    requires
        d < 10,
    ensures
        c == crate::clock::digit(d as int),
{
    if d == 0 {
        '0'
    } else if d == 1 {
        '1'
    } else if d == 2 {
        '2'
    } else if d == 3 {
        '3'
    } else if d == 4 {
        '4'
    } else if d == 5 {
        '5'
    } else if d == 6 {
        '6'
    } else if d == 7 {
        '7'
    } else if d == 8 {
        '8'
    } else {
        '9'
    }
}

fn push_digits(target: &mut String, n: u64)
    ensures
        final(target)@ == old(target)@ + digits(n as nat),
    decreases n,
{
    if n >= 10 {
        push_digits(target, n / 10);
    }
    push_char(target, digit_char(n % 10));
}

/// Writes a whole number in decimal notation.
pub fn decimal(n: i64) -> (text: String)
    ensures
        text@ == decimal_text(n as int),
{
    let mut text = String::new();
    if n < 0 {
        push_char(&mut text, '-');
        let magnitude: u64 = (-(n as i128)) as u64;
        push_digits(&mut text, magnitude);
    } else {
        push_digits(&mut text, n as u64);
    }
    text
}

/// Pads a text on the left to a width.
pub fn pad_left(text: &str, width: usize, fill: char) -> (wide: String)
    ensures
        wide@ == padded(text@, width as nat, fill),
{
    let length = text.unicode_len();
    let mut wide = String::new();
    let mut added: usize = 0;
    while length < width && added < width - length
        invariant
            length == text@.len(),
            length < width ==> added <= width - length,
            length >= width ==> added == 0,
            wide@ == Seq::new(added as nat, |i: int| fill),
        decreases width - added,
    {
        push_char(&mut wide, fill);
        added += 1;
    }
    push_str(&mut wide, text);
    wide
}

/// The frequency of a receiver as its display shows it: nine digits at
/// least, in groups of three.
pub open spec fn frequency_text(frequency: int) -> Seq<char> {
    decimal_mark_text(padded(decimal_text(frequency), 9, '0'))
}

pub fn frequency_display(frequency: i64) -> (shown: String)
    ensures
        shown@ == frequency_text(frequency as int),
{
    let plain = decimal(frequency);
    let wide = pad_left(plain.as_str(), 9, '0');
    decimal_mark(wide.as_str())
}

} // verus!
