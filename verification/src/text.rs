use vstd::prelude::*;
use vstd::string::StringExecFns;

verus! {

/// The upper-case form of a text, as the standard library computes it.
pub uninterp spec fn uppercase_of(s: Seq<char>) -> Seq<char>;

/// Whether a character is white space.
pub open spec fn is_white_space(c: char) -> bool {
    let code = c as u32;
    (0x09 <= code <= 0x0d) || code == 0x20 || code == 0x85 || code == 0xa0 || code == 0x1680 || (
    0x2000 <= code <= 0x200a) || code == 0x2028 || code == 0x2029 || code == 0x202f || code
        == 0x205f || code == 0x3000
}

/// Where the text begins after the white space that starts at `from`.
pub open spec fn white_space_end(text: Seq<char>, from: int) -> int
    decreases text.len() - from,
{
    if 0 <= from < text.len() && is_white_space(text[from]) {
        white_space_end(text, from + 1)
    } else {
        from
    }
}

/// Where the text ends before the white space that ends at `to`, not going below `from`.
pub open spec fn white_space_start(text: Seq<char>, from: int, to: int) -> int
    decreases to - from,
{
    if from < to <= text.len() && is_white_space(text[to - 1]) {
        white_space_start(text, from, to - 1)
    } else {
        to
    }
}

/// A text without the white space at its two ends.
pub open spec fn trimmed_of(text: Seq<char>) -> Seq<char> {
    let from = white_space_end(text, 0);
    text.subrange(from, white_space_start(text, from, text.len() as int))
}

/// Whether `part` occurs in `text`, as a run of neighbouring characters.
pub open spec fn has_substring(text: Seq<char>, part: Seq<char>) -> bool {
    exists|i: int|
        0 <= i && i + part.len() <= text.len() && #[trigger] text.subrange(i, i + part.len())
            == part
}

/// Calls `str::to_uppercase`. The result is named `uppercase_of`; nothing more is claimed of it.
#[verifier::external_body]
pub(crate) fn to_uppercase(s: &str) -> (r: String)
    ensures
        r@ == uppercase_of(s@),
{
    s.to_uppercase()
}

/// Whether a character is white space.
pub fn is_space(c: char) -> (r: bool)
    ensures
        r == is_white_space(c),
{
    let code = c as u32;
    (0x09 <= code && code <= 0x0d) || code == 0x20 || code == 0x85 || code == 0xa0 || code
        == 0x1680 || (0x2000 <= code && code <= 0x200a) || code == 0x2028 || code == 0x2029
        || code == 0x202f || code == 0x205f || code == 0x3000
}

/// A text without the white space at its two ends.
pub fn trim(text: &str) -> (r: String)
    ensures
        r@ == trimmed_of(text@),
{
    let len = text.unicode_len();
    let mut from: usize = 0;
    while from < len && is_space(text.get_char(from))
        invariant
            len == text@.len(),
            from <= len,
            white_space_end(text@, 0) == white_space_end(text@, from as int),
        decreases len - from,
    {
        from += 1;
    }
    let mut to: usize = len;
    while from < to && is_space(text.get_char(to - 1))
        invariant
            len == text@.len(),
            from <= to <= len,
            white_space_start(text@, from as int, len as int) == white_space_start(
                text@,
                from as int,
                to as int,
            ),
        decreases to,
    {
        to -= 1;
    }
    String::from_str(text.substring_char(from, to))
}

/// Whether `part` stands in `text` at the position `at`. `text_len` and `len` are the
/// lengths of `text` and `part`.
fn stands_at(text: &str, part: &str, at: usize, text_len: usize, len: usize) -> (r: bool)
    requires
        text_len == text@.len(),
        len == part@.len(),
        at + len <= text_len,
    ensures
        r == (text@.subrange(at as int, at + len) == part@),
{
    let mut i: usize = 0;
    while i < len
        invariant
            text_len == text@.len(),
            len == part@.len(),
            at + len <= text_len,
            i <= len,
            forall|j: int| 0 <= j < i ==> text@[at + j] == #[trigger] part@[j],
        decreases len - i,
    {
        if text.get_char(at + i) != part.get_char(i) {
            assert(text@.subrange(at as int, at + len)[i as int] != part@[i as int]);
            return false;
        }
        i += 1;
    }
    assert(text@.subrange(at as int, at + len) =~= part@);
    true
}

/// Whether `part` occurs in `text`.
pub fn contains(text: &str, part: &str) -> (r: bool)
    ensures
        r == has_substring(text@, part@),
{
    let text_len = text.unicode_len();
    let len = part.unicode_len();
    if len > text_len {
        return false;
    }
    let last = text_len - len;
    let mut at: usize = 0;
    loop
        invariant
            text_len == text@.len(),
            len == part@.len(),
            last == text_len - len,
            at <= last,
            forall|i: int| 0 <= i < at ==> #[trigger] text@.subrange(i, i + len) != part@,
        decreases last - at,
    {
        if stands_at(text, part, at, text_len, len) {
            return true;
        }
        if at == last {
            return false;
        }
        at += 1;
    }
}

/// Whether two texts hold the same characters.
pub fn same_text(a: &str, b: &str) -> (r: bool)
    ensures
        r == (a@ == b@),
{
    let x = String::from_str(a);
    let y = String::from_str(b);
    x == y
}

/// The three texts joined in order.
pub fn join3(a: &str, b: &str, c: &str) -> (r: String)
    ensures
        r@ == a@ + b@ + c@,
{
    let mut r = String::from_str(a);
    r.append(b);
    r.append(c);
    r
}

/// Whether a character is a decimal digit.
pub open spec fn is_digit(c: char) -> bool {
    '0' <= c && c <= '9'
}

/// Whether every character of a text is a decimal digit.
pub open spec fn all_digits(text: Seq<char>) -> bool {
    forall|i: int| 0 <= i < text.len() ==> is_digit(#[trigger] text[i])
}

/// The number that a run of decimal digits denotes.
pub open spec fn digits_value(digits: Seq<char>) -> int
    decreases digits.len(),
{
    if digits.len() == 0 {
        0
    } else {
        10 * digits_value(digits.drop_last()) + (digits.last() as u32 - 48)
    }
}

/// The integer that a text denotes in decimal notation: an optional sign, and then digits
/// only, at least one. A minus sign is a sign only where `signed` holds.
pub open spec fn decimal_value(text: Seq<char>, signed: bool) -> Option<int> {
    let negative = signed && text.len() > 0 && text[0] == '-';
    let from: int = if text.len() > 0 && (text[0] == '+' || negative) {
        1
    } else {
        0
    };
    let digits = text.subrange(from, text.len() as int);
    if digits.len() > 0 && all_digits(digits) {
        Some(
            if negative {
                -digits_value(digits)
            } else {
                digits_value(digits)
            },
        )
    } else {
        None
    }
}

/// The 32-bit signed integer that a text denotes in decimal notation, if it denotes one.
pub open spec fn parsed_i32(text: Seq<char>) -> Option<i32> {
    match decimal_value(text, true) {
        Some(value) => if -0x8000_0000 <= value <= 0x7fff_ffff {
            Some(value as i32)
        } else {
            None
        },
        None => None,
    }
}

/// The 32-bit unsigned integer that a text denotes in decimal notation, if it denotes one.
pub open spec fn parsed_u32(text: Seq<char>) -> Option<u32> {
    match decimal_value(text, false) {
        Some(value) => if 0 <= value <= 0xffff_ffff {
            Some(value as u32)
        } else {
            None
        },
        None => None,
    }
}

/// A run of digits denotes no less than any of its beginnings, and nothing below zero.
proof fn value_grows(digits: Seq<char>, k: int)
    requires
        all_digits(digits),
        0 <= k <= digits.len(),
    ensures
        0 <= digits_value(digits.take(k)) <= digits_value(digits),
    decreases digits.len(),
{
    if digits.len() == 0 {
        assert(digits.take(k) =~= digits);
    } else if k == digits.len() {
        assert(digits.take(k) =~= digits);
        value_grows(digits.drop_last(), k - 1);
        assert(is_digit(digits.last()));
    } else {
        assert(digits.drop_last().take(k) =~= digits.take(k));
        value_grows(digits.drop_last(), k);
        assert(is_digit(digits.last()));
        value_grows(digits.drop_last(), digits.len() - 1);
    }
}

/// The size of the number that a text denotes and whether a minus sign stands before it;
/// nothing where the text denotes no number or one beyond `limit`.
fn parse_decimal(text: &str, signed: bool, limit: u64) -> (r: Option<(bool, u64)>)
    requires
        limit <= 0xffff_ffff,
    ensures
        match decimal_value(text@, signed) {
            Some(value) => if -limit <= value <= limit {
                match r {
                    Some((negative, size)) => size <= limit && negative == (signed && text@[0]
                        == '-') && value == (if negative {
                        -(size as int)
                    } else {
                        size as int
                    }),
                    None => false,
                }
            } else {
                r is None
            },
            None => r is None,
        },
{
    let len = text.unicode_len();
    if len == 0 {
        return None;
    }
    let first = text.get_char(0);
    let negative = signed && first == '-';
    let from: usize = if first == '+' || negative {
        1
    } else {
        0
    };
    if from == len {
        return None;
    }
    let ghost digits = text@.subrange(from as int, len as int);
    let mut acc: u64 = 0;
    let mut i: usize = from;
    while i < len
        invariant
            len == text@.len(),
            len > 0,
            negative == (signed && text@[0] == '-'),
            from == (if text@[0] == '+' || negative {
                1int
            } else {
                0int
            }),
            from <= i <= len,
            limit <= 0xffff_ffff,
            digits == text@.subrange(from as int, len as int),
            all_digits(digits.take(i - from)),
            acc == digits_value(digits.take(i - from)),
            acc <= limit,
        decreases len - i,
    {
        let c = text.get_char(i);
        assert(digits[i - from] == c);
        if !('0' <= c && c <= '9') {
            assert(!is_digit(digits[i - from]));
            return None;
        }
        let next = acc * 10 + ((c as u32 - 48) as u64);
        proof {
            let longer = digits.take(i - from + 1);
            assert(longer.drop_last() =~= digits.take(i - from));
            assert(longer.last() == c);
            assert(next == digits_value(longer));
            assert(all_digits(longer)) by {
                assert forall|j: int| 0 <= j < longer.len() implies is_digit(
                    #[trigger] longer[j],
                ) by {
                    if j < i - from {
                        assert(longer[j] == digits.take(i - from)[j]);
                    }
                }
            }
            if all_digits(digits) {
                value_grows(digits, i - from + 1);
            }
        }
        if next > limit {
            assert(all_digits(digits) ==> digits_value(digits) > limit);
            return None;
        }
        acc = next;
        i += 1;
    }
    assert(digits.take(len - from) =~= digits);
    Some((negative, acc))
}

/// The 32-bit signed integer that a text denotes in decimal notation, if it denotes one.
pub fn parse_i32(text: &str) -> (r: Option<i32>)
    ensures
        r == parsed_i32(text@),
{
    match parse_decimal(text, true, 0x8000_0000) {
        Some((negative, size)) => {
            if negative {
                Some((-(size as i64)) as i32)
            } else if size <= 0x7fff_ffff {
                Some(size as i32)
            } else {
                None
            }
        },
        None => None,
    }
}

/// The 32-bit unsigned integer that a text denotes in decimal notation, if it denotes one.
pub fn parse_u32(text: &str) -> (r: Option<u32>)
    ensures
        r == parsed_u32(text@),
{
    match parse_decimal(text, false, 0xffff_ffff) {
        Some((_, size)) => Some(size as u32),
        None => None,
    }
}

} // verus!
