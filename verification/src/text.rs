//! Reading and writing the small pieces of text that the kernel interfaces
//! and the command line exchange: keywords without regard to case, and
//! decimal numbers.

use vstd::prelude::*;
use vstd::string::StrSliceExecFns;
use vstd::string::StringExecFns;

verus! {

/// The lower-case form of an ASCII capital; every other character is left
/// as it is.
pub open spec fn ascii_lower(c: char) -> char {
    if 'A' <= c <= 'Z' {
        ((c as u8) + 32) as char
    } else {
        c
    }
}

/// A text with its ASCII capitals in lower case.
pub open spec fn lowered(text: Seq<char>) -> Seq<char> {
    Seq::new(text.len(), |i: int| ascii_lower(text[i]))
}

/// Blank, tab, line feed, vertical tab, form feed or carriage return.
pub open spec fn is_space(c: char) -> bool {
    c == ' ' || ('\t' <= c <= '\r')
}

/// One of the ten decimal digits.
pub open spec fn is_digit(c: char) -> bool {
    '0' <= c <= '9'
}

/// Every character is a decimal digit.
pub open spec fn all_digits(text: Seq<char>) -> bool {
    forall|i: int| 0 <= i < text.len() ==> is_digit(#[trigger] text[i])
}

/// The number that a sequence of decimal digits denotes.
pub open spec fn decimal_value(digits: Seq<char>) -> nat
    decreases digits.len(),
{
    if digits.len() == 0 {
        0
    } else {
        decimal_value(digits.drop_last()) * 10 + (digits.last() as u8 - 48) as nat
    }
}

/// The number that `text` denotes, if `text` is one or more decimal digits
/// and the number is at most `limit`.
pub open spec fn decimal(text: Seq<char>, limit: nat) -> Option<nat> {
    if text.len() > 0 && all_digits(text) && decimal_value(text) <= limit {
        Some(decimal_value(text))
    } else {
        None
    }
}

/// The index of the first character at or after `from` that is no space.
pub open spec fn skip_spaces(text: Seq<char>, from: int) -> int
    decreases text.len() - from,
{
    if 0 <= from < text.len() && is_space(text[from]) {
        skip_spaces(text, from + 1)
    } else {
        from
    }
}

/// The index after the last character before `to`, and not before `floor`,
/// that is no space.
pub open spec fn drop_spaces(text: Seq<char>, floor: int, to: int) -> int
    decreases to,
{
    if 0 <= floor < to <= text.len() && is_space(text[to - 1]) {
        drop_spaces(text, floor, to - 1)
    } else {
        to
    }
}

/// A text without the spaces at its start and at its end.
pub open spec fn trimmed(text: Seq<char>) -> Seq<char> {
    let start = skip_spaces(text, 0);
    let end = drop_spaces(text, start, text.len() as int);
    text.subrange(start, end)
}

/// The byte that `text` denotes: an optional `+` and decimal digits with a
/// value of at most 255.
pub open spec fn unsigned_byte(text: Seq<char>) -> Option<u8> {
    let digits = if text.len() > 0 && text[0] == '+' {
        text.drop_first()
    } else {
        text
    };
    match decimal(digits, 255) {
        Some(value) => Some(value as u8),
        None => None,
    }
}

/// The 32-bit integer that `text` denotes: an optional sign and decimal
/// digits with a value in range.
pub open spec fn signed_integer(text: Seq<char>) -> Option<i32> {
    if text.len() > 0 && text[0] == '-' {
        match decimal(text.drop_first(), 2147483648) {
            Some(value) => Some((-(value as int)) as i32),
            None => None,
        }
    } else {
        let digits = if text.len() > 0 && text[0] == '+' {
            text.drop_first()
        } else {
            text
        };
        match decimal(digits, 2147483647) {
            Some(value) => Some(value as i32),
            None => None,
        }
    }
}

/// The digit that stands for a number below ten.
pub open spec fn digit_char(value: nat) -> char {
    (value + 48) as u8 as char
}

/// The decimal digits of a number, without leading zeros.
pub open spec fn decimal_text(value: nat) -> Seq<char>
    decreases value,
{
    if value < 10 {
        seq![digit_char(value)]
    } else {
        decimal_text(value / 10).push(digit_char(value % 10))
    }
}

/// Whether `needle` occurs in `hay` at index `at`.
pub open spec fn occurs_at(hay: Seq<char>, needle: Seq<char>, at: int) -> bool {
    0 <= at && at + needle.len() <= hay.len() && hay.subrange(at, at + needle.len()) == needle
}

/// Whether `needle` occurs somewhere in `hay`.
pub open spec fn contains_text(hay: Seq<char>, needle: Seq<char>) -> bool {
    exists|at: int| occurs_at(hay, needle, at)
}

/// The characters of a string.
pub fn chars_of(text: &str) -> (chars: Vec<char>)
    ensures
        chars@ == text@,
{
    let count = text.unicode_len();
    let mut chars: Vec<char> = Vec::new();
    let mut i: usize = 0;
    while i < count
        invariant
            count == text@.len(),
            i <= count,
            chars@ == text@.take(i as int),
        decreases count - i,
    {
        chars.push(text.get_char(i));
        assert(chars@ =~= text@.take(i + 1));
        i += 1;
    }
    assert(text@.take(count as int) =~= text@);
    chars
}

/// The lower-case form of an ASCII capital; every other character as it
/// is.
pub fn lower_char(c: char) -> (lower: char)
    ensures
        lower == ascii_lower(c),
{
    if 'A' <= c && c <= 'Z' {
        ((c as u8) + 32) as char
    } else {
        c
    }
}

/// Whether `text`, with its capitals in lower case, is `keyword`.
pub fn matches_keyword(text: &Vec<char>, keyword: &str) -> (same: bool)
    ensures
        same == (lowered(text@) == keyword@),
{
    let count = keyword.unicode_len();
    if text.len() != count {
        return false;
    }
    let mut i: usize = 0;
    while i < count
        invariant
            count == keyword@.len(),
            count == text@.len(),
            i <= count,
            forall|j: int| 0 <= j < i ==> ascii_lower(text@[j]) == keyword@[j],
        decreases count - i,
    {
        if lower_char(text[i]) != keyword.get_char(i) {
            assert(lowered(text@)[i as int] != keyword@[i as int]);
            return false;
        }
        i += 1;
    }
    assert(lowered(text@) =~= keyword@);
    true
}

/// Whether `needle` occurs in `hay` once the capitals of `hay` are in lower
/// case.
pub fn contains_keyword(hay: &Vec<char>, needle: &str) -> (found: bool)
    ensures
        found == contains_text(lowered(hay@), needle@),
{
    let width = needle.unicode_len();
    if hay.len() < width {
        assert forall|at: int| !occurs_at(lowered(hay@), needle@, at) by {}
        return false;
    }
    if width == 0 {
        assert(lowered(hay@).subrange(0, 0) =~= needle@);
        assert(occurs_at(lowered(hay@), needle@, 0));
        return true;
    }
    let last = hay.len() - width;
    let mut at: usize = 0;
    while at <= last
        invariant
            width > 0,
            width == needle@.len(),
            last + width == hay.len(),
            at <= last + 1,
            forall|k: int| 0 <= k < at ==> !occurs_at(lowered(hay@), needle@, k),
        decreases last + 1 - at,
    {
        let mut i: usize = 0;
        let mut same = true;
        while same && i < width
            invariant
                width == needle@.len(),
                last + width == hay.len(),
                at <= last,
                i <= width,
                same ==> forall|j: int| 0 <= j < i ==> ascii_lower(hay@[at + j]) == needle@[j],
                !same ==> !occurs_at(lowered(hay@), needle@, at as int),
            decreases width - i + if same { 1int } else { 0int },
        {
            if lower_char(hay[at + i]) != needle.get_char(i) {
                same = false;
                assert(lowered(hay@).subrange(at as int, at + width)[i as int] != needle@[i as int]);
            } else {
                i += 1;
            }
        }
        if same {
            assert(lowered(hay@).subrange(at as int, at + width) =~= needle@);
            assert(occurs_at(lowered(hay@), needle@, at as int));
            return true;
        }
        at += 1;
    }
    assert forall|k: int| !occurs_at(lowered(hay@), needle@, k) by {}
    false
}

/// Whether a character is a space.
pub fn is_space_char(c: char) -> (space: bool)
    ensures
        space == is_space(c),
{
    c == ' ' || ('\t' <= c && c <= '\r')
}

/// The bounds of `text` without the spaces at its start and at its end.
pub fn trim_bounds(text: &Vec<char>) -> (bounds: (usize, usize))
    ensures
        bounds.0 <= bounds.1 <= text@.len(),
        text@.subrange(bounds.0 as int, bounds.1 as int) == trimmed(text@),
{
    let mut start: usize = 0;
    while start < text.len() && is_space_char(text[start])
        invariant
            start <= text@.len(),
            skip_spaces(text@, 0) == skip_spaces(text@, start as int),
        decreases text@.len() - start,
    {
        start += 1;
    }
    let mut end: usize = text.len();
    while start < end && is_space_char(text[end - 1])
        invariant
            start <= end <= text@.len(),
            drop_spaces(text@, start as int, text@.len() as int) == drop_spaces(
                text@,
                start as int,
                end as int,
            ),
        decreases end,
    {
        end -= 1;
    }
    (start, end)
}

/// The value of a prefix of a digit sequence is at most the value of the
/// whole.
pub proof fn lemma_decimal_prefix(digits: Seq<char>, count: int)
    requires
        all_digits(digits),
        0 <= count <= digits.len(),
    ensures
        decimal_value(digits.take(count)) <= decimal_value(digits),
    decreases digits.len() - count,
{
    if count < digits.len() {
        lemma_decimal_prefix(digits, count + 1);
        let longer = digits.take(count + 1);
        assert(longer.drop_last() =~= digits.take(count));
        assert(is_digit(digits[count]));
    } else {
        assert(digits.take(count) =~= digits);
    }
}

/// The number that the characters from `from` up to `to` denote, if they
/// are one or more decimal digits and the number is at most `limit`.
pub fn parse_decimal(text: &Vec<char>, from: usize, to: usize, limit: u64) -> (value: Option<u64>)
    requires
        from <= to <= text@.len(),
        limit <= 0xFFFF_FFFF,
    ensures
        match value {
            Some(v) => decimal(text@.subrange(from as int, to as int), limit as nat) == Some(
                v as nat,
            ),
            None => decimal(text@.subrange(from as int, to as int), limit as nat) is None,
        },
{
    let ghost digits = text@.subrange(from as int, to as int);
    if from == to {
        return None;
    }
    let mut total: u64 = 0;
    let mut i: usize = from;
    while i < to
        invariant
            from <= i <= to <= text@.len(),
            limit <= 0xFFFF_FFFF,
            digits == text@.subrange(from as int, to as int),
            all_digits(digits.take(i - from)),
            total == decimal_value(digits.take(i - from)),
            total <= limit,
        decreases to - i,
    {
        let c = text[i];
        assert(c == digits[i - from]);
        if !('0' <= c && c <= '9') {
            return None;
        }
        let digit: u64 = (c as u8 - 48) as u64;
        let ghost longer = digits.take(i - from + 1);
        assert(longer.drop_last() =~= digits.take(i - from));
        assert(longer.last() == c);
        assert(all_digits(longer)) by {
            assert forall|j: int| 0 <= j < longer.len() implies is_digit(#[trigger] longer[j]) by {
                if j < longer.len() - 1 {
                    assert(longer[j] == digits.take(i - from)[j]);
                }
            }
        }
        let next: u64 = total * 10 + digit;
        if next > limit {
            proof {
                if all_digits(digits) {
                    lemma_decimal_prefix(digits, i - from + 1);
                }
            }
            return None;
        }
        total = next;
        i += 1;
    }
    assert(digits.take(to - from) =~= digits);
    Some(total)
}

/// The byte that the characters from `from` up to `to` denote.
pub fn parse_u8(text: &Vec<char>, from: usize, to: usize) -> (value: Option<u8>)
    requires
        from <= to <= text@.len(),
    ensures
        value == unsigned_byte(text@.subrange(from as int, to as int)),
{
    let ghost part = text@.subrange(from as int, to as int);
    let start: usize = if from < to && text[from] == '+' {
        from + 1
    } else {
        from
    };
    proof {
        if start == from {
            assert(text@.subrange(start as int, to as int) == part);
            if from < to {
                assert(part[0] == text@[from as int]);
            }
        } else {
            assert(part[0] == text@[from as int]);
            assert(text@.subrange(start as int, to as int) =~= part.drop_first());
        }
    }
    match parse_decimal(text, start, to, 255) {
        Some(v) => Some(v as u8),
        None => None,
    }
}

/// The 32-bit integer that the characters from `from` up to `to` denote.
pub fn parse_i32(text: &Vec<char>, from: usize, to: usize) -> (value: Option<i32>)
    requires
        from <= to <= text@.len(),
    ensures
        value == signed_integer(text@.subrange(from as int, to as int)),
{
    let ghost part = text@.subrange(from as int, to as int);
    proof {
        if from < to {
            assert(part[0] == text@[from as int]);
        }
    }
    if from < to && text[from] == '-' {
        assert(text@.subrange(from + 1, to as int) =~= part.drop_first());
        match parse_decimal(text, from + 1, to, 2147483648) {
            Some(v) => {
                if v == 2147483648 {
                    Some(i32::MIN)
                } else {
                    Some(-(v as i32))
                }
            },
            None => None,
        }
    } else {
        let start: usize = if from < to && text[from] == '+' {
            from + 1
        } else {
            from
        };
        proof {
            if start == from {
                assert(text@.subrange(start as int, to as int) == part);
            } else {
                assert(text@.subrange(start as int, to as int) =~= part.drop_first());
            }
        }
        match parse_decimal(text, start, to, 2147483647) {
            Some(v) => Some(v as i32),
            None => None,
        }
    }
}

/// The text of one decimal digit.
fn digit_text(digit: u8) -> (text: &'static str)
    requires
        digit < 10,
    ensures
        text@ == seq![digit_char(digit as nat)],
{
    proof {
        reveal_strlit("0");
        reveal_strlit("1");
        reveal_strlit("2");
        reveal_strlit("3");
        reveal_strlit("4");
        reveal_strlit("5");
        reveal_strlit("6");
        reveal_strlit("7");
        reveal_strlit("8");
        reveal_strlit("9");
    }
    let text = match digit {
        0 => "0",
        1 => "1",
        2 => "2",
        3 => "3",
        4 => "4",
        5 => "5",
        6 => "6",
        7 => "7",
        8 => "8",
        _ => "9",
    };
    assert(text@ =~= seq![digit_char(digit as nat)]);
    text
}

/// The decimal digits of a byte, without leading zeros.
pub fn format_u8(value: u8) -> (text: String)
    ensures
        text@ == decimal_text(value as nat),
{
    let mut text = String::new();
    if value >= 100 {
        text.append(digit_text(value / 100));
    }
    if value >= 10 {
        text.append(digit_text((value / 10) % 10));
    }
    text.append(digit_text(value % 10));
    proof {
        let n = value as nat;
        if n >= 100 {
            assert(decimal_text(n / 10 / 10) =~= seq![digit_char(n / 100)]);
            assert(decimal_text(n / 10) =~= seq![digit_char(n / 100), digit_char((n / 10) % 10)]);
            assert(text@ =~= decimal_text(n));
        } else if n >= 10 {
            assert(decimal_text(n / 10) =~= seq![digit_char(n / 10)]);
            assert(text@ =~= decimal_text(n));
        } else {
            assert(text@ =~= decimal_text(n));
        }
    }
    text
}

/// The decimal digits of a number are digits, at least one of them, and
/// denote that number.
pub proof fn lemma_decimal_text_value(value: nat)
    ensures
        decimal_text(value).len() > 0,
        all_digits(decimal_text(value)),
        decimal_value(decimal_text(value)) == value,
    decreases value,
{
    if value < 10 {
        let text = decimal_text(value);
        assert(text.drop_last() =~= Seq::<char>::empty());
        assert(decimal_value(text.drop_last()) == 0);
    } else {
        lemma_decimal_text_value(value / 10);
        let text = decimal_text(value);
        assert(text.drop_last() =~= decimal_text(value / 10));
        assert(text.last() == digit_char(value % 10));
    }
}

/// A byte written as decimal text is read back as the same byte.
pub proof fn lemma_byte_text_round_trip(value: u8)
    ensures
        unsigned_byte(decimal_text(value as nat)) == Some(value),
{
    lemma_decimal_text_value(value as nat);
    let text = decimal_text(value as nat);
    assert(is_digit(text[0]));
}

/// The digit that stands for a number below sixteen, in lower case.
pub open spec fn hex_digit_char(value: nat) -> char {
    if value < 10 {
        (value + 48) as u8 as char
    } else {
        (value + 87) as u8 as char
    }
}

/// The hexadecimal digits of a number, in lower case and without leading
/// zeros.
pub open spec fn hex_text(value: nat) -> Seq<char>
    decreases value,
{
    if value < 16 {
        seq![hex_digit_char(value)]
    } else {
        hex_text(value / 16).push(hex_digit_char(value % 16))
    }
}

/// The text of one hexadecimal digit.
fn hex_digit_text(digit: u16) -> (text: &'static str)
    requires
        digit < 16,
    ensures
        text@ == seq![hex_digit_char(digit as nat)],
{
    proof {
        reveal_strlit("a");
        reveal_strlit("b");
        reveal_strlit("c");
        reveal_strlit("d");
        reveal_strlit("e");
        reveal_strlit("f");
    }
    if digit < 10 {
        digit_text(digit as u8)
    } else {
        let text = match digit {
            10 => "a",
            11 => "b",
            12 => "c",
            13 => "d",
            14 => "e",
            _ => "f",
        };
        assert(text@ =~= seq![hex_digit_char(digit as nat)]);
        text
    }
}

/// The hexadecimal digits of a number, in lower case and without leading
/// zeros.
pub fn format_hex_u16(value: u16) -> (text: String)
    ensures
        text@ == hex_text(value as nat),
{
    let mut text = String::new();
    if value >= 0x1000 {
        text.append(hex_digit_text(value / 0x1000));
    }
    if value >= 0x100 {
        text.append(hex_digit_text((value / 0x100) % 16));
    }
    if value >= 0x10 {
        text.append(hex_digit_text((value / 0x10) % 16));
    }
    text.append(hex_digit_text(value % 16));
    proof {
        let n = value as nat;
        if n >= 0x1000 {
            assert(hex_text(n / 16 / 16 / 16) =~= seq![hex_digit_char(n / 0x1000)]);
            assert(hex_text(n / 16 / 16) =~= seq![
                hex_digit_char(n / 0x1000),
                hex_digit_char((n / 0x100) % 16),
            ]);
            assert(hex_text(n / 16) =~= seq![
                hex_digit_char(n / 0x1000),
                hex_digit_char((n / 0x100) % 16),
                hex_digit_char((n / 0x10) % 16),
            ]);
            assert(text@ =~= hex_text(n));
        } else if n >= 0x100 {
            assert(hex_text(n / 16 / 16) =~= seq![hex_digit_char(n / 0x100)]);
            assert(hex_text(n / 16) =~= seq![
                hex_digit_char(n / 0x100),
                hex_digit_char((n / 0x10) % 16),
            ]);
            assert(text@ =~= hex_text(n));
        } else if n >= 0x10 {
            assert(hex_text(n / 16) =~= seq![hex_digit_char(n / 16)]);
            assert(text@ =~= hex_text(n));
        } else {
            assert(text@ =~= hex_text(n));
        }
    }
    text
}

/// Whether the characters from `from` up to `to` are exactly `keyword`.
pub fn matches_exactly(text: &Vec<char>, from: usize, to: usize, keyword: &str) -> (same: bool)
    requires
        from <= to <= text@.len(),
    ensures
        same == (text@.subrange(from as int, to as int) == keyword@),
{
    let count = keyword.unicode_len();
    if to - from != count {
        return false;
    }
    let ghost part = text@.subrange(from as int, to as int);
    let mut i: usize = 0;
    while i < count
        invariant
            count == keyword@.len(),
            from + count == to,
            to <= text@.len(),
            part == text@.subrange(from as int, to as int),
            i <= count,
            forall|j: int| 0 <= j < i ==> part[j] == keyword@[j],
        decreases count - i,
    {
        if text[from + i] != keyword.get_char(i) {
            assert(part[i as int] != keyword@[i as int]);
            return false;
        }
        i += 1;
    }
    assert(part =~= keyword@);
    true
}

} // verus!
