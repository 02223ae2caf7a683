//! Texts: comparing, trimming and editing them, and numbers as decimal text.
//!
//! Where the standard library decides (what counts as white space, what the
//! lower case of a text is, how a number is read), its function is called
//! behind a contract that is believed; everything else is proved.

use vstd::prelude::*;
use vstd::string::StringExecFns;
use vstd::utf8::encode_utf8_decode_utf8;

verus! {

/// The character of a decimal digit.
pub open spec fn decimal_digit(d: nat) -> char {
    if d == 0 {
        '0'
    } else if d == 1 {
        '1'
    } else if d == 2 {
        '2'
    } else if d == 3 {
        '3'
    } else if d == 4 {
        '4'
    } else if d == 5 {
        '5'
    } else if d == 6 {
        '6'
    } else if d == 7 {
        '7'
    } else if d == 8 {
        '8'
    } else {
        '9'
    }
}

/// The decimal digits of a number, the most significant first, without
/// leading zeros.
pub open spec fn decimal_digits(n: nat) -> Seq<char>
    decreases n,
{
    if n < 10 {
        seq![decimal_digit(n)]
    } else {
        decimal_digits(n / 10).push(decimal_digit(n % 10))
    }
}

/// The text of one decimal digit.
fn digit_text(d: u64) -> (r: &'static str)
    requires
        d < 10,
    ensures
        r@ == seq![decimal_digit(d as nat)],
{
    proof {
        reveal_strlit("0");
        reveal_strlit("1");
        reveal_strlit("2");
        reveal_strlit("3");
        reveal_strlit("4");
        reveal_strlit("5");
        reveal_strlit("6");
        reveal_strlit("7");
        reveal_strlit("8");
        reveal_strlit("9");
    }
    let r = if d == 0 {
        "0"
    } else if d == 1 {
        "1"
    } else if d == 2 {
        "2"
    } else if d == 3 {
        "3"
    } else if d == 4 {
        "4"
    } else if d == 5 {
        "5"
    } else if d == 6 {
        "6"
    } else if d == 7 {
        "7"
    } else if d == 8 {
        "8"
    } else {
        "9"
    };
    assert(r@ =~= seq![decimal_digit(d as nat)]);
    r
}

/// A number as decimal text.
pub fn decimal_text(n: u64) -> (r: String)
    ensures
        r@ == decimal_digits(n as nat),
    decreases n,
{
    if n < 10 {
        digit_text(n).to_owned()
    } else {
        let mut text = decimal_text(n / 10);
        text.append(digit_text(n % 10));
        assert(text@ =~= decimal_digits(n as nat / 10).push(decimal_digit(n as nat % 10)));
        text
    }
}

/// Whether two byte strings hold the same bytes.
pub fn bytes_equal(a: &[u8], b: &[u8]) -> (r: bool)
    ensures
        r == (a@ == b@),
{
    if a.len() != b.len() {
        return false;
    }
    let mut i: usize = 0;
    while i < a.len()
        invariant
            a@.len() == b@.len(),
            i <= a@.len(),
            forall|k: int| 0 <= k < i ==> a@[k] == b@[k],
        decreases a@.len() - i,
    {
        if a[i] != b[i] {
            return false;
        }
        i = i + 1;
    }
    assert(a@ =~= b@);
    true
}

/// Whether two texts hold the same characters.
pub fn str_equal(a: &str, b: &str) -> (r: bool)
    ensures
        r == (a@ == b@),
{
    let r = bytes_equal(a.as_bytes(), b.as_bytes());
    proof {
        if r {
            encode_utf8_decode_utf8(a@);
            encode_utf8_decode_utf8(b@);
        }
    }
    r
}

/// A text with every `from` replaced by `to`.
pub open spec fn replaced(text: Seq<char>, from: char, to: char) -> Seq<char> {
    Seq::new(
        text.len(),
        |i: int|
            if text[i] == from {
                to
            } else {
                text[i]
            },
    )
}

/// Replaces every `from` in a text by `to`.
pub fn replace_char(text: &str, from: char, to: char) -> (r: String)
    ensures
        r@ == replaced(text@, from, to),
{
    let mut result = String::new();
    let ghost all = text@;
    for c in it: text.chars()
        invariant
            it.seq() == all,
            result@ == replaced(all.take(it.index()), from, to),
    {
        let piece = if c == from {
            char_text(to)
        } else {
            char_text(c)
        };
        result.append(piece.as_str());
        proof {
            assert(all.take(it.index() + 1) =~= all.take(it.index()).push(c));
            assert(result@ =~= replaced(all.take(it.index() + 1), from, to));
        }
    }
    proof {
        assert(all.take(all.len() as int) =~= all);
    }
    result
}

/// Whether a character is white space in Unicode's sense.
pub uninterp spec fn is_whitespace(c: char) -> bool;

/// The text in lower case.
pub uninterp spec fn lowercased(text: Seq<char>) -> Seq<char>;

/// The value of a decimal digit, if the character is one.
pub open spec fn digit_value(c: char) -> Option<nat> {
    let code = c as u32 as int;
    if 0x30 <= code <= 0x39 {
        Some((code - 0x30) as nat)
    } else {
        None
    }
}

/// The number that a text of decimal digits denotes; the empty text denotes
/// zero, and a text with anything but digits denotes nothing.
pub open spec fn digits_value(text: Seq<char>) -> Option<nat>
    decreases text.len(),
{
    if text.len() == 0 {
        Some(0)
    } else {
        match (digits_value(text.drop_last()), digit_value(text.last())) {
            (Some(front), Some(digit)) => Some(10 * front + digit),
            _ => None,
        }
    }
}

/// The number that a text is read as: a plus sign or nothing, then one
/// decimal digit or more, denoting a number below 2 to the 64.
pub open spec fn parsed_u64(text: Seq<char>) -> Option<u64> {
    let digits = if text.len() > 0 && text[0] == '+' {
        text.skip(1)
    } else {
        text
    };
    if digits.len() == 0 {
        None
    } else {
        match digits_value(digits) {
            Some(value) => if value <= u64::MAX {
                Some(value as u64)
            } else {
                None
            },
            None => None,
        }
    }
}

/// Calls `char::is_whitespace`.
#[verifier::external_body]
pub(crate) fn char_is_whitespace(c: char) -> (r: bool)
    ensures
        r == is_whitespace(c),
{
    c.is_whitespace()
}

/// Calls `str::to_lowercase`.
#[verifier::external_body]
pub(crate) fn to_lowercase(text: &str) -> (r: String)
    ensures
        r@ == lowercased(text@),
{
    text.to_lowercase()
}

/// Calls `str::parse` for a `u64`, which reads an optional plus sign
/// followed by decimal digits only, and fails on an empty text, on any other
/// character and on a number that does not fit.
#[verifier::external_body]
pub(crate) fn parse_u64(text: &str) -> (r: Option<u64>)
    ensures
        r == parsed_u64(text@),
{
    text.parse::<u64>().ok()
}

/// Calls `String::from` on a character: the text of that one character.
#[verifier::external_body]
pub(crate) fn char_text(c: char) -> (r: String)
    ensures
        r@ == seq![c],
{
    String::from(c)
}

/// The number of white-space characters that a text starts with.
pub open spec fn leading_space(text: Seq<char>) -> nat
    decreases text.len(),
{
    if text.len() == 0 || !is_whitespace(text[0]) {
        0
    } else {
        1 + leading_space(text.skip(1))
    }
}

/// The number of white-space characters that a text ends with.
pub open spec fn trailing_space(text: Seq<char>) -> nat
    decreases text.len(),
{
    if text.len() == 0 || !is_whitespace(text.last()) {
        0
    } else {
        1 + trailing_space(text.drop_last())
    }
}

/// A text without the white space at its two ends.
pub open spec fn trimmed(text: Seq<char>) -> Seq<char> {
    let start = leading_space(text) as int;
    let rest = text.skip(start);
    rest.take(rest.len() - trailing_space(rest))
}

/// A text without the white space at its two ends.
pub fn trim(text: &str) -> (r: &str)
    ensures
        r@ == trimmed(text@),
{
    let len = text.unicode_len();
    let mut start: usize = 0;
    proof {
        assert(text@.skip(0) =~= text@);
    }
    while start < len && char_is_whitespace(text.get_char(start))
        invariant
            start <= len,
            len == text@.len(),
            leading_space(text@) == start + leading_space(text@.skip(start as int)),
        decreases len - start,
    {
        proof {
            assert(text@.skip(start as int)[0] == text@[start as int]);
            assert(text@.skip(start as int).skip(1) =~= text@.skip(start as int + 1));
        }
        start = start + 1;
    }
    proof {
        if start < len {
            assert(text@.skip(start as int)[0] == text@[start as int]);
        }
    }
    assert(leading_space(text@) == start);
    let ghost rest = text@.skip(start as int);
    let mut end: usize = len;
    proof {
        assert(rest.take(rest.len() as int) =~= rest);
    }
    while end > start && char_is_whitespace(text.get_char(end - 1))
        invariant
            start <= end <= len,
            len == text@.len(),
            rest == text@.skip(start as int),
            trailing_space(rest) == (len - end) + trailing_space(rest.take(end - start)),
        decreases end,
    {
        proof {
            let so_far = rest.take(end - start);
            assert(so_far.last() == text@[end - 1]);
            assert(so_far.drop_last() =~= rest.take(end - 1 - start));
        }
        end = end - 1;
    }
    proof {
        let so_far = rest.take(end - start);
        if end > start {
            assert(so_far.last() == text@[end - 1]);
        }
        assert(trailing_space(rest) == len - end);
        assert(text@.subrange(start as int, end as int) =~= rest.take(rest.len() - (len - end)));
    }
    text.substring_char(start, end)
}

/// Whether a text starts with another.
pub fn starts_with(text: &str, prefix: &str) -> (r: bool)
    ensures
        r == prefix@.is_prefix_of(text@),
{
    let prefix_len = prefix.unicode_len();
    if prefix_len > text.unicode_len() {
        return false;
    }
    let head = text.substring_char(0, prefix_len);
    let r = str_equal(head, prefix);
    proof {
        if r {
            assert(prefix@ =~= text@.subrange(0, prefix@.len() as int));
        }
        if prefix@.is_prefix_of(text@) {
            assert(text@.subrange(0, prefix@.len() as int) =~= prefix@);
        }
    }
    r
}

/// Whether a text ends with another.
pub fn ends_with(text: &str, suffix: &str) -> (r: bool)
    ensures
        r == suffix@.is_suffix_of(text@),
{
    let suffix_len = suffix.unicode_len();
    let len = text.unicode_len();
    if suffix_len > len {
        return false;
    }
    let tail = text.substring_char(len - suffix_len, len);
    let r = str_equal(tail, suffix);
    proof {
        if suffix@.is_suffix_of(text@) {
            assert(text@.subrange(len - suffix_len, len as int) =~= suffix@);
        }
        if r {
            assert(suffix@ =~= text@.subrange(len - suffix_len, len as int));
        }
    }
    r
}

/// A text with one more character, put before the character at `index`, or
/// at the end where `index` is no position in the text.
pub open spec fn with_char_at(text: Seq<char>, index: int, c: char) -> Seq<char> {
    if 0 <= index < text.len() {
        text.insert(index, c)
    } else {
        text.push(c)
    }
}

/// A text without the character at `index`; the text itself where `index`
/// is no position in it.
pub open spec fn without_char_at(text: Seq<char>, index: int) -> Seq<char> {
    if 0 <= index < text.len() {
        text.remove(index)
    } else {
        text
    }
}

/// A text without its last character; the empty text stays empty.
pub open spec fn without_last_char(text: Seq<char>) -> Seq<char> {
    if text.len() > 0 {
        text.drop_last()
    } else {
        text
    }
}

/// A text without the prefix, however often the text starts with it.
pub open spec fn without_prefixes(text: Seq<char>, prefix: Seq<char>) -> Seq<char>
    decreases text.len(),
{
    if prefix.len() > 0 && prefix.is_prefix_of(text) {
        without_prefixes(text.skip(prefix.len() as int), prefix)
    } else {
        text
    }
}

/// Puts a character into a text, before the character at `index`.
pub fn insert_char(text: &str, index: usize, c: char) -> (r: String)
    ensures
        r@ == with_char_at(text@, index as int, c),
{
    let len = text.unicode_len();
    let at = if index < len {
        index
    } else {
        len
    };
    let mut result = text.substring_char(0, at).to_owned();
    let one = char_text(c);
    result.append(one.as_str());
    result.append(text.substring_char(at, len));
    proof {
        if index < len {
            assert(result@ =~= text@.insert(index as int, c));
        } else {
            assert(result@ =~= text@.push(c));
        }
    }
    result
}

/// Takes the character at `index` out of a text.
pub fn remove_char(text: &str, index: usize) -> (r: String)
    ensures
        r@ == without_char_at(text@, index as int),
{
    let len = text.unicode_len();
    if index >= len {
        return text.to_owned();
    }
    let mut result = text.substring_char(0, index).to_owned();
    result.append(text.substring_char(index + 1, len));
    proof {
        assert(result@ =~= text@.remove(index as int));
    }
    result
}

/// Takes the last character off a text.
pub fn remove_last_char(text: &str) -> (r: String)
    ensures
        r@ == without_last_char(text@),
{
    let len = text.unicode_len();
    if len == 0 {
        return text.to_owned();
    }
    let result = text.substring_char(0, len - 1).to_owned();
    proof {
        assert(result@ =~= text@.drop_last());
    }
    result
}

/// Takes a prefix off a text as often as the text starts with it.
pub fn strip_prefixes<'a>(text: &'a str, prefix: &str) -> (r: &'a str)
    ensures
        r@ == without_prefixes(text@, prefix@),
{
    let prefix_len = prefix.unicode_len();
    if prefix_len == 0 {
        return text;
    }
    let mut rest = text;
    while starts_with(rest, prefix)
        invariant
            prefix_len == prefix@.len(),
            prefix_len > 0,
            without_prefixes(text@, prefix@) == without_prefixes(rest@, prefix@),
        decreases rest@.len(),
    {
        let len = rest.unicode_len();
        let next = rest.substring_char(prefix_len, len);
        proof {
            assert(next@ =~= rest@.skip(prefix_len as int));
        }
        rest = next;
    }
    rest
}

/// The byte at which the character at `char_idx` starts in the UTF-8 form of
/// a text; the length of that form where the text has no such character.
pub open spec fn byte_index_of(text: Seq<char>, char_idx: int) -> int {
    if 0 <= char_idx < text.len() {
        vstd::utf8::encode_utf8(text.subrange(0, char_idx)).len() as int
    } else {
        vstd::utf8::encode_utf8(text).len() as int
    }
}

} // verus!
