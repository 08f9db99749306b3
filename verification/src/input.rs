//! Reading what the user typed: a yes, or a whole number.

use vstd::prelude::*;

verus! {

/// Whether `c` is white space: a tab, a line feed, a vertical tab, a form
/// feed, a carriage return, a space, or one of the other characters that
/// Unicode counts as white space.
pub open spec fn is_space(c: char) -> bool {
    let code = c as u32;
    ||| 0x09 <= code <= 0x0d
    ||| code == 0x20
    ||| code == 0x85
    ||| code == 0xa0
    ||| code == 0x1680
    ||| 0x2000 <= code <= 0x200a
    ||| code == 0x2028
    ||| code == 0x2029
    ||| code == 0x202f
    ||| code == 0x205f
    ||| code == 0x3000
}

/// `s` without the white space at its start.
pub open spec fn skip_spaces(s: Seq<char>) -> Seq<char>
    decreases s.len(),
{
    if s.len() > 0 && is_space(s[0]) {
        skip_spaces(s.drop_first())
    } else {
        s
    }
}

/// `s` without the white space at its end.
pub open spec fn drop_trailing_spaces(s: Seq<char>) -> Seq<char>
    decreases s.len(),
{
    if s.len() > 0 && is_space(s.last()) {
        drop_trailing_spaces(s.drop_last())
    } else {
        s
    }
}

/// `s` without the white space at its start and at its end.
pub open spec fn trimmed(s: Seq<char>) -> Seq<char> {
    drop_trailing_spaces(skip_spaces(s))
}

/// Whether `c` is one of the digits `0` to `9`.
pub open spec fn is_digit(c: char) -> bool {
    '0' as u32 <= c as u32 <= '9' as u32
}

/// The value of the digit `c`.
pub open spec fn digit_value(c: char) -> int {
    c as u32 - '0' as u32
}

/// Whether `s` holds digits only.
pub open spec fn all_digits(s: Seq<char>) -> bool {
    forall|i: int| 0 <= i < s.len() ==> is_digit(#[trigger] s[i])
}

/// The number that the digits of `s` write in decimal; 0 for no digits.
pub open spec fn digits_number(s: Seq<char>) -> nat
    decreases s.len(),
{
    if s.len() == 0 {
        0
    } else {
        (digits_number(s.drop_last()) * 10 + digit_value(s.last())) as nat
    }
}

/// How many characters of `s` are its sign: one where `s` starts with a
/// plus or a minus, none otherwise.
pub open spec fn sign_len(s: Seq<char>) -> int {
    if s.len() > 0 && (s[0] == '-' || s[0] == '+') {
        1
    } else {
        0
    }
}

/// The integer that `s` writes: an optional sign, then one digit or more
/// and nothing else. Any other text writes no integer.
pub open spec fn decimal_value(s: Seq<char>) -> Option<int> {
    let digits = s.skip(sign_len(s));
    if digits.len() > 0 && all_digits(digits) {
        if s[0] == '-' {
            Some(-digits_number(digits))
        } else {
            Some(digits_number(digits) as int)
        }
    } else {
        None
    }
}

/// The number that a line of input gives: the integer that the line writes
/// once the white space around it is taken off, if that integer fits in 32
/// bits with a sign.
pub open spec fn parsed_i32(line: Seq<char>) -> Option<i32> {
    match decimal_value(trimmed(line)) {
        Some(value) => if i32::MIN <= value <= i32::MAX {
            Some(value as i32)
        } else {
            None
        },
        None => None,
    }
}

/// Whether a line of input says yes: its first character is a lower-case
/// `y`.
pub open spec fn says_yes(line: Seq<char>) -> bool {
    line.len() > 0 && line[0] == 'y'
}

/// Tells whether `line` says yes.
pub fn is_yes(line: &str) -> (yes: bool)
    ensures
        yes == says_yes(line@),
{
    if line.is_empty() {
        false
    } else {
        line.get_char(0) == 'y'
    }
}

fn is_space_char(c: char) -> (space: bool)
    ensures
        space == is_space(c),
{
    let code: u32 = c as u32;
    (0x09 <= code && code <= 0x0d) || code == 0x20 || code == 0x85 || code == 0xa0 || code
        == 0x1680 || (0x2000 <= code && code <= 0x200a) || code == 0x2028 || code == 0x2029
        || code == 0x202f || code == 0x205f || code == 0x3000
}

/// Above every magnitude that fits in 32 bits; a running value that has
/// passed it is held there.
const CEILING: u64 = 10_000_000_000;

spec fn held(value: nat) -> nat {
    if value > CEILING {
        CEILING as nat
    } else {
        value
    }
}

/// Reads a whole number from a line of input.
pub fn parse_i32(line: &str) -> (number: Option<i32>)
    ensures
        number == parsed_i32(line@),
{
    let ghost s = line@;
    let n = line.unicode_len();
    let mut start: usize = 0;
    assert(s.subrange(0, n as int) =~= s);
    while start < n && is_space_char(line.get_char(start))
        invariant
            start <= n,
            n == s.len(),
            s == line@,
            skip_spaces(s) == skip_spaces(s.subrange(start as int, n as int)),
        decreases n - start,
    {
        assert(s.subrange(start as int, n as int).drop_first() =~= s.subrange(
            start as int + 1,
            n as int,
        ));
        start += 1;
    }
    let mut end: usize = n;
    while end > start && is_space_char(line.get_char(end - 1))
        invariant
            start <= end <= n,
            n == s.len(),
            s == line@,
            trimmed(s) == drop_trailing_spaces(s.subrange(start as int, end as int)),
        decreases end,
    {
        assert(s.subrange(start as int, end as int).drop_last() =~= s.subrange(
            start as int,
            end as int - 1,
        ));
        end -= 1;
    }
    let ghost t = s.subrange(start as int, end as int);
    if start == end {
        return None;
    }
    let first = line.get_char(start);
    let negative = first == '-';
    let from: usize = if first == '-' || first == '+' {
        start + 1
    } else {
        start
    };
    let ghost digits = t.skip(sign_len(t));
    let mut value: u64 = 0;
    let mut i: usize = from;
    while i < end
        invariant
            from <= i <= end <= n,
            n == s.len(),
            s == line@,
            digits == s.subrange(from as int, end as int),
            digits == trimmed(line@).skip(sign_len(trimmed(line@))),
            all_digits(digits.take(i - from)),
            value == held(digits_number(digits.take(i - from))),
        decreases end - i,
    {
        let code: u32 = line.get_char(i) as u32;
        if code < 48 || code > 57 {
            assert(!is_digit(digits[i - from]));
            return None;
        }
        let next: u64 = value * 10 + (code - 48) as u64;
        assert(digits.take(i - from + 1).drop_last() =~= digits.take(i - from));
        value = if next > CEILING {
            CEILING
        } else {
            next
        };
        i += 1;
    }
    assert(digits.take(end - from) =~= digits);
    if from == end {
        return None;
    }
    if negative {
        if value <= 2_147_483_648 {
            Some((-(value as i64)) as i32)
        } else {
            None
        }
    } else {
        if value <= 2_147_483_647 {
            Some(value as i32)
        } else {
            None
        }
    }
}

} // verus!
