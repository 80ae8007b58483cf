//! What the proxy asks of strings.

use vstd::prelude::*;
use vstd::std_specs::iter::IteratorSpec;
use vstd::utf8::{encode_utf8, valid_utf8};

verus! {

/// Whether `text` begins with `prefix`, character by character.
pub fn starts_with(text: &str, prefix: &str) -> (yes: bool)
    ensures
        yes == prefix@.is_prefix_of(text@),
{
    broadcast use vstd::string::group_string_axioms;

    let mut rest = text.chars();
    let mut wanted = prefix.chars();
    let ghost mut seen: int = 0;
    loop
        invariant
            0 <= seen <= prefix@.len(),
            seen <= text@.len(),
            rest.remaining() == text@.skip(seen),
            wanted.remaining() == prefix@.skip(seen),
            prefix@.take(seen) == text@.take(seen),
        decreases prefix@.len() - seen,
    {
        match wanted.next() {
            None => {
                assert(prefix@.take(seen) == prefix@);
                return true;
            },
            Some(expected) => {
                assert(expected == prefix@[seen]);
                match rest.next() {
                    Some(found) => {
                        assert(found == text@[seen]);
                        if found != expected {
                            return false;
                        }
                        proof {
                            assert(prefix@.take(seen + 1) =~= prefix@.take(seen).push(expected));
                            assert(text@.take(seen + 1) =~= text@.take(seen).push(found));
                            assert(text@.skip(seen).drop_first() =~= text@.skip(seen + 1));
                            assert(prefix@.skip(seen).drop_first() =~= prefix@.skip(seen + 1));
                            seen = seen + 1;
                        }
                    },
                    None => {
                        assert(text@.len() == seen);
                        return false;
                    },
                }
            },
        }
    }
}

/// The text without its first character, if that is `first`.
pub fn strip_first(text: &str, first: char) -> (rest: &str)
    ensures
        rest@ == if text@.len() > 0 && text@[0] == first {
            text@.skip(1)
        } else {
            text@
        },
{
    let len = text.unicode_len();
    if len > 0 && text.get_char(0) == first {
        text.substring_char(1, len)
    } else {
        text
    }
}

/// A text without the copies of `prefix` that it begins with.
pub open spec fn without_leading(text: Seq<char>, prefix: Seq<char>) -> Seq<char>
    decreases text.len(),
{
    if prefix.len() > 0 && prefix.is_prefix_of(text) {
        without_leading(text.skip(prefix.len() as int), prefix)
    } else {
        text
    }
}

/// The text without the copies of `prefix` that it begins with, however
/// many there are.
pub fn trim_start_matches<'a>(text: &'a str, prefix: &str) -> (rest: &'a str)
    ensures
        rest@ == without_leading(text@, prefix@),
{
    let step = prefix.unicode_len();
    let len = text.unicode_len();
    if step == 0 {
        return text;
    }
    let mut from: usize = 0;
    assert(text@.skip(0) =~= text@);
    loop
        invariant
            from <= len,
            len == text@.len(),
            step == prefix@.len(),
            step > 0,
            without_leading(text@, prefix@) == without_leading(text@.skip(from as int), prefix@),
        decreases len - from,
    {
        let rest = text.substring_char(from, len);
        assert(rest@ =~= text@.skip(from as int));
        if !starts_with(rest, prefix) {
            return rest;
        }
        proof {
            assert(text@.skip(from as int).skip(step as int) =~= text@.skip(from + step));
        }
        from = from + step;
    }
}

/// Whether two strings hold the same text.
pub fn same(left: &str, right: &str) -> (yes: bool)
    ensures
        yes == (left@ == right@),
{
    left.to_owned() == right.to_owned()
}

/// The characters of a string.
pub fn chars_of(text: &str) -> (chars: Vec<char>)
    ensures
        chars@ == text@,
{
    broadcast use vstd::string::group_string_axioms;

    let mut chars: Vec<char> = Vec::new();
    let mut rest = text.chars();
    loop
        invariant
            chars@.len() <= text@.len(),
            rest.remaining() == text@.skip(chars@.len() as int),
            chars@ == text@.take(chars@.len() as int),
        decreases text@.len() - chars@.len(),
    {
        let ghost seen = chars@.len() as int;
        match rest.next() {
            None => {
                assert(text@.take(seen) == text@);
                return chars;
            },
            Some(c) => {
                assert(c == text@[seen]);
                chars.push(c);
                proof {
                    assert(text@.take(seen + 1) =~= text@.take(seen).push(c));
                    assert(text@.skip(seen).drop_first() =~= text@.skip(seen + 1));
                }
            },
        }
    }
}

/// The place of the first `c` in `text` at or after `from`, or the length
/// of `text` where there is none.
pub open spec fn position(text: Seq<char>, c: char, from: int) -> int
    decreases text.len() - from,
{
    if from >= text.len() {
        text.len() as int
    } else if text[from] == c {
        from
    } else {
        position(text, c, from + 1)
    }
}

/// The place of the first `c` is in the text or at its end, and no `c`
/// stands before it.
pub proof fn lemma_position(text: Seq<char>, c: char, from: int)
    requires
        0 <= from <= text.len(),
    ensures
        from <= position(text, c, from) <= text.len(),
        position(text, c, from) < text.len() ==> text[position(text, c, from)] == c,
        forall|i: int| from <= i < position(text, c, from) ==> text[i] != c,
    decreases text.len() - from,
{
    if from < text.len() && text[from] != c {
        lemma_position(text, c, from + 1);
    }
}

/// The place of the first `c` in `chars`, or their number where there is
/// none.
pub fn find(chars: &Vec<char>, c: char) -> (place: usize)
    ensures
        place == position(chars@, c, 0),
        place <= chars@.len(),
{
    let mut place: usize = 0;
    while place < chars.len()
        invariant
            place <= chars.len(),
            position(chars@, c, 0) == position(chars@, c, place as int),
        decreases chars.len() - place,
    {
        if chars[place] == c {
            return place;
        }
        place += 1;
    }
    place
}

/// What stands before the first `c` in `text` and what stands behind it,
/// where `text` holds a `c`.
pub open spec fn split_at_first(text: Seq<char>, c: char) -> Option<(Seq<char>, Seq<char>)> {
    let place = position(text, c, 0);
    if place < text.len() {
        Some((text.take(place), text.skip(place + 1)))
    } else {
        None
    }
}

/// Splits `text` at the first `c`.
pub fn split_once(text: &str, c: char) -> (parts: Option<(&str, &str)>)
    ensures
        match parts {
            Some((before, behind)) => split_at_first(text@, c) == Some((before@, behind@)),
            None => split_at_first(text@, c) is None,
        },
{
    let chars = chars_of(text);
    let place = find(&chars, c);
    if place < chars.len() {
        let before = text.substring_char(0, place);
        let behind = text.substring_char(place + 1, chars.len());
        Some((before, behind))
    } else {
        None
    }
}

/// Whether a character is white space, as Unicode has it.
pub uninterp spec fn is_whitespace(c: char) -> bool;

/// `char::is_whitespace`: whether the character has the Unicode property
/// `White_Space`.
#[verifier::external_body]
pub(crate) fn whitespace(c: char) -> (yes: bool)
    ensures
        yes == is_whitespace(c),
{
    c.is_whitespace()
}

/// The place of the first character at or after `from` that is not white
/// space, or the length of `text`.
pub open spec fn solid_start(text: Seq<char>, from: int) -> int
    decreases text.len() - from,
{
    if from >= text.len() {
        text.len() as int
    } else if !is_whitespace(text[from]) {
        from
    } else {
        solid_start(text, from + 1)
    }
}

/// The place behind the last character before `to` that is not white
/// space, or zero.
pub open spec fn solid_end(text: Seq<char>, to: int) -> int
    decreases to,
{
    if to <= 0 {
        0
    } else if !is_whitespace(text[to - 1]) {
        to
    } else {
        solid_end(text, to - 1)
    }
}

/// A text without the white space at its two ends.
pub open spec fn trimmed(text: Seq<char>) -> Seq<char> {
    let start = solid_start(text, 0);
    let end = solid_end(text, text.len() as int);
    if start < end {
        text.subrange(start, end)
    } else {
        Seq::empty()
    }
}

/// The text without the white space at its two ends.
pub fn trim(text: &str) -> (inner: &str)
    ensures
        inner@ == trimmed(text@),
{
    let chars = chars_of(text);
    let mut start: usize = 0;
    while start < chars.len() && whitespace(chars[start])
        invariant
            start <= chars.len(),
            solid_start(chars@, 0) == solid_start(chars@, start as int),
        decreases chars.len() - start,
    {
        start += 1;
    }
    let mut end: usize = chars.len();
    while end > 0 && whitespace(chars[end - 1])
        invariant
            end <= chars.len(),
            solid_end(chars@, chars@.len() as int) == solid_end(chars@, end as int),
        decreases end,
    {
        end -= 1;
    }
    if start < end {
        text.substring_char(start, end)
    } else {
        let empty = text.substring_char(0, 0);
        assert(empty@ =~= Seq::<char>::empty());
        empty
    }
}

/// Whether a character is a decimal digit.
pub open spec fn is_digit(c: char) -> bool {
    '0' <= c <= '9'
}

/// The number that a decimal digit stands for.
pub open spec fn digit_value(c: char) -> nat {
    (c as u32 - '0' as u32) as nat
}

/// The number that a row of decimal digits stands for.
pub open spec fn digits_value(digits: Seq<char>) -> nat
    decreases digits.len(),
{
    if digits.len() == 0 {
        0
    } else {
        digits_value(digits.drop_last()) * 10 + digit_value(digits.last())
    }
}

/// Whether a text is made of decimal digits alone.
pub open spec fn all_digits(text: Seq<char>) -> bool {
    forall|i: int| 0 <= i < text.len() ==> is_digit(#[trigger] text[i])
}

/// The number that a text stands for: the text is one decimal digit or
/// more, with or without a plus sign before them and nothing else, and the
/// number fits in 64 bits.
pub open spec fn number(text: Seq<char>) -> Option<u64> {
    let digits = if text.len() > 0 && text[0] == '+' {
        text.skip(1)
    } else {
        text
    };
    if digits.len() > 0 && all_digits(digits) && digits_value(digits) <= u64::MAX {
        Some(digits_value(digits) as u64)
    } else {
        None
    }
}

/// More digits never stand for a smaller number.
proof fn lemma_digits_grow(digits: Seq<char>, shorter: int)
    requires
        0 <= shorter <= digits.len(),
    ensures
        digits_value(digits.take(shorter)) <= digits_value(digits),
    decreases digits.len() - shorter,
{
    if shorter < digits.len() {
        let next = digits.take(shorter + 1);
        assert(next.drop_last() == digits.take(shorter));
        lemma_digits_grow(digits, shorter + 1);
    } else {
        assert(digits.take(shorter) == digits);
    }
}

/// Reads a number of 64 bits from its decimal form.
pub fn parse_number(text: &str) -> (value: Option<u64>)
    ensures
        value == number(text@),
{
    let chars = chars_of(text);
    let first: usize = if chars.len() > 0 && chars[0] == '+' {
        1
    } else {
        0
    };
    if first == chars.len() {
        return None;
    }
    let ghost digits = chars@.skip(first as int);
    let mut value: u64 = 0;
    let mut place: usize = first;
    while place < chars.len()
        invariant
            first <= place <= chars.len(),
            first < chars.len(),
            chars@ == text@,
            first == if text@.len() > 0 && text@[0] == '+' {
                1int
            } else {
                0int
            },
            digits == chars@.skip(first as int),
            all_digits(digits.take(place - first)),
            value == digits_value(digits.take(place - first)),
        decreases chars.len() - place,
    {
        let c = chars[place];
        assert(c == digits[place - first]);
        if c < '0' || c > '9' {
            assert(!is_digit(digits[place - first]));
            return None;
        }
        let digit = (c as u32 - '0' as u32) as u64;
        proof {
            let next = digits.take(place - first + 1);
            assert(next.drop_last() == digits.take(place - first));
            assert(next.last() == c);
            assert(all_digits(next)) by {
                assert forall|i: int| 0 <= i < next.len() implies is_digit(#[trigger] next[i]) by {
                    if i < place - first {
                        assert(next[i] == digits.take(place - first)[i]);
                    }
                }
            }
            lemma_digits_grow(digits, place - first + 1);
            assert(digit == digit_value(c));
            assert(digits_value(next) == value * 10 + digit);
            assert(text@.skip(0) =~= text@);
        }
        if value > (u64::MAX - digit) / 10 {
            assert(value * 10 + digit > u64::MAX);
            return None;
        }
        value = value * 10 + digit;
        place += 1;
    }
    proof {
        assert(digits.take(place - first) == digits);
        assert(text@.skip(0) =~= text@);
    }
    Some(value)
}

/// The decimal digit that stands for a number below ten.
pub open spec fn digit_of(value: nat) -> char {
    if value == 0 {
        '0'
    } else if value == 1 {
        '1'
    } else if value == 2 {
        '2'
    } else if value == 3 {
        '3'
    } else if value == 4 {
        '4'
    } else if value == 5 {
        '5'
    } else if value == 6 {
        '6'
    } else if value == 7 {
        '7'
    } else if value == 8 {
        '8'
    } else {
        '9'
    }
}

/// The decimal form of a number: its digits without leading zeros, and one
/// zero for zero itself.
pub open spec fn decimal(value: nat) -> Seq<char>
    decreases value,
{
    if value < 10 {
        seq![digit_of(value)]
    } else {
        decimal(value / 10).push(digit_of(value % 10))
    }
}

/// One decimal digit as a string.
fn digit(value: usize) -> (text: &'static str)
    requires
        value < 10,
    ensures
        text@ == seq![digit_of(value as nat)],
{
    proof {
        reveal_strlit("0");
        reveal_strlit("1");
        reveal_strlit("2");
        reveal_strlit("3");
        reveal_strlit("4");
        reveal_strlit("5");
        reveal_strlit("6");
        reveal_strlit("7");
        reveal_strlit("8");
        reveal_strlit("9");
    }
    let text = if value == 0 {
        "0"
    } else if value == 1 {
        "1"
    } else if value == 2 {
        "2"
    } else if value == 3 {
        "3"
    } else if value == 4 {
        "4"
    } else if value == 5 {
        "5"
    } else if value == 6 {
        "6"
    } else if value == 7 {
        "7"
    } else if value == 8 {
        "8"
    } else {
        "9"
    };
    assert(text@ =~= seq![digit_of(value as nat)]);
    text
}

/// Writes a number in its decimal form.
pub fn write_number(value: usize) -> (text: String)
    ensures
        text@ == decimal(value as nat),
    decreases value,
{
    if value < 10 {
        digit(value).to_owned()
    } else {
        let mut text = write_number(value / 10);
        text.append(digit(value % 10));
        assert(text@ =~= decimal((value / 10) as nat).push(digit_of((value % 10) as nat)));
        text
    }
}

/// `String::from_utf8`: the string whose bytes are `bytes`, where they are
/// the UTF-8 encoding of one.
#[verifier::external_body]
pub(crate) fn from_utf8(bytes: Vec<u8>) -> (text: Option<String>)
    ensures
        match text {
            Some(text) => valid_utf8(bytes@) && encode_utf8(text@) == bytes@,
            None => !valid_utf8(bytes@),
        },
{
    String::from_utf8(bytes).ok()
}

/// What a text reads as when bytes that are no UTF-8 are replaced by the
/// replacement character.
pub uninterp spec fn lossy(bytes: Seq<u8>) -> Seq<char>;

/// `String::from_utf8_lossy`: the bytes as text, with the replacement
/// character in place of what is no UTF-8.
#[verifier::external_body]
pub(crate) fn from_utf8_lossy(bytes: &[u8]) -> (text: String)
    ensures
        text@ == lossy(bytes@),
{
    String::from_utf8_lossy(bytes).into_owned()
}

} // verus!
