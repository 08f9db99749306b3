//! Decimal numbers and fixed-width cells as text.

use vstd::prelude::*;

verus! {

/// The character that stands for the decimal digit `d`.
pub open spec fn digit_char(d: int) -> char {
    if d == 0 {
        '0'
    } else if d == 1 {
        '1'
    } else if d == 2 {
        '2'
    } else if d == 3 {
        '3'
    } else if d == 4 {
        '4'
    } else if d == 5 {
        '5'
    } else if d == 6 {
        '6'
    } else if d == 7 {
        '7'
    } else if d == 8 {
        '8'
    } else {
        '9'
    }
}

/// The decimal digits of a natural number, most significant first, without
/// leading zeros.
pub open spec fn natural_text(n: nat) -> Seq<char>
    decreases n,
{
    if n < 10 {
        seq![digit_char(n as int)]
    } else {
        natural_text(n / 10).push(digit_char((n % 10) as int))
    }
}

/// The decimal text of an integer: a minus sign for a negative number, then
/// the digits of its magnitude.
pub open spec fn integer_text(n: int) -> Seq<char> {
    if n < 0 {
        seq!['-'] + natural_text((-n) as nat)
    } else {
        natural_text(n as nat)
    }
}

fn digit_str(d: u64) -> (s: &'static str)
    requires
        d < 10,
    ensures
        s@ == seq![digit_char(d as int)],
{
    proof {
        reveal_strlit("0");
        reveal_strlit("1");
        reveal_strlit("2");
        reveal_strlit("3");
        reveal_strlit("4");
        reveal_strlit("5");
        reveal_strlit("6");
        reveal_strlit("7");
        reveal_strlit("8");
        reveal_strlit("9");
    }
    if d == 0 {
        "0"
    } else if d == 1 {
        "1"
    } else if d == 2 {
        "2"
    } else if d == 3 {
        "3"
    } else if d == 4 {
        "4"
    } else if d == 5 {
        "5"
    } else if d == 6 {
        "6"
    } else if d == 7 {
        "7"
    } else if d == 8 {
        "8"
    } else {
        "9"
    }
}

fn append_natural(out: &mut String, n: u64)
    ensures
        final(out)@ == old(out)@ + natural_text(n as nat),
    decreases n,
{
    if n >= 10 {
        append_natural(out, n / 10);
    }
    out.append(digit_str(n % 10));
}

/// Writes `n` in decimal.
pub fn i32_to_string(n: i32) -> (s: String)
    ensures
        s@ == integer_text(n as int),
{
    let mut out = String::new();
    if n < 0 {
        proof {
            reveal_strlit("-");
        }
        out.append("-");
        let magnitude: u64 = (-(n as i64)) as u64;
        append_natural(&mut out, magnitude);
    } else {
        append_natural(&mut out, n as u64);
    }
    out
}

/// The numbers of `ids` as mathematical integers.
pub open spec fn as_ints(ids: Seq<i32>) -> Seq<int> {
    ids.map_values(|id: i32| id as int)
}

/// The decimal texts of `ids`, in order, with a comma and a space between
/// each two neighbours. Nothing stands before the first or after the last.
pub open spec fn joined(ids: Seq<int>) -> Seq<char>
    decreases ids.len(),
{
    if ids.len() == 0 {
        Seq::empty()
    } else if ids.len() == 1 {
        integer_text(ids[0])
    } else {
        joined(ids.drop_last()) + seq![',', ' '] + integer_text(ids.last())
    }
}

/// Writes the numbers of `slice` as one comma-separated list.
pub fn slice_to_string(slice: &[i32]) -> (text: String)
    ensures
        text@ == joined(as_ints(slice@)),
{
    let mut text = String::new();
    let mut i: usize = 0;
    let ghost ids = as_ints(slice@);
    while i < slice.len()
        invariant
            i <= slice.len(),
            ids == as_ints(slice@),
            text@ == joined(ids.take(i as int)),
        decreases slice.len() - i,
    {
        if i > 0 {
            proof {
                reveal_strlit(", ");
            }
            text.append(", ");
        }
        let item = i32_to_string(slice[i]);
        text.append(item.as_str());
        assert(ids.take(i as int + 1).drop_last() =~= ids.take(i as int));
        i += 1;
    }
    assert(ids.take(slice.len() as int) =~= ids);
    text
}

/// `width - len` spaces, none where `len` is `width` or more.
pub open spec fn filler(len: nat, width: nat) -> Seq<char> {
    if len >= width {
        Seq::empty()
    } else {
        Seq::new((width - len) as nat, |i: int| ' ')
    }
}

/// `text` left-aligned in a cell of `width` characters: spaces are added on
/// the right up to the width, and a longer text is kept whole.
pub open spec fn padded(text: Seq<char>, width: nat) -> Seq<char> {
    text + filler(text.len(), width)
}

/// Pads `text` on the right with spaces to `width` characters.
pub fn pad_right(text: &str, width: usize) -> (cell: String)
    ensures
        cell@ == padded(text@, width as nat),
{
    let mut cell = String::from_str(text);
    let len = text.unicode_len();
    let mut n: usize = len;
    proof {
        reveal_strlit(" ");
    }
    while n < width
        invariant
            len == text@.len(),
            len <= n,
            n <= width || n == len,
            " "@ == seq![' '],
            cell@ == text@ + Seq::new((n - len) as nat, |i: int| ' '),
        decreases width - n,
    {
        cell.append(" ");
        n += 1;
    }
    cell
}

} // verus!
