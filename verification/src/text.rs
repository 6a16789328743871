//! Plain-text building blocks: decimal numerals and left-aligned columns.

use vstd::prelude::*;
use vstd::string::*;

verus! {

/// The character that writes the decimal digit `d`.
pub open spec fn digit_char(d: nat) -> char
    recommends
        d < 10,
{
    "0123456789"@[d as int]
}

/// The decimal numeral of `n`: most significant digit first, no leading
/// zeros, and the single digit `0` for zero.
pub open spec fn decimal(n: nat) -> Seq<char>
    decreases n,
{
    if n < 10 {
        seq![digit_char(n)]
    } else {
        decimal(n / 10).push(digit_char(n % 10))
    }
}

/// `count` copies of the character `c`.
pub open spec fn fill(c: char, count: nat) -> Seq<char> {
    Seq::new(count, |i: int| c)
}

/// `text` followed by as many spaces as it takes to reach `width` characters;
/// a text that is already that wide is left as it is.
pub open spec fn pad_right(text: Seq<char>, width: nat) -> Seq<char> {
    if text.len() >= width {
        text
    } else {
        text + fill(' ', (width - text.len()) as nat)
    }
}

/// The contents of a sequence of strings, in the same order.
pub open spec fn texts(lines: Seq<String>) -> Seq<Seq<char>> {
    Seq::new(lines.len(), |i: int| lines[i]@)
}

fn digit_str(d: usize) -> (s: &'static str)
    requires
        d < 10,
    ensures
        s@ == seq![digit_char(d as nat)],
{
    let digits: &'static str = "0123456789";
    proof {
        reveal_strlit("0123456789");
    }
    let s = digits.substring_ascii(d, d + 1);
    assert(s@ =~= seq![digit_char(d as nat)]);
    s
}

/// Writes `n` in decimal.
pub fn decimal_string(n: usize) -> (s: String)
    ensures
        s@ == decimal(n as nat),
    decreases n,
{
    if n < 10 {
        String::from_str(digit_str(n))
    } else {
        let mut s = decimal_string(n / 10);
        s.append(digit_str(n % 10));
        assert(s@ =~= decimal(n as nat));
        s
    }
}

/// Appends `count` copies of the one-character text `unit` to `s`.
fn append_fill(s: &mut String, unit: &str, count: usize)
    requires
        unit@.len() == 1,
    ensures
        final(s)@ == old(s)@ + fill(unit@[0], count as nat),
{
    let mut done: usize = 0;
    while done < count
        invariant
            done <= count,
            unit@.len() == 1,
            s@ == old(s)@ + fill(unit@[0], done as nat),
        decreases count - done,
    {
        s.append(unit);
        done = done + 1;
        assert(s@ =~= old(s)@ + fill(unit@[0], done as nat));
    }
}

/// `count` dashes in a row.
pub fn dashes(count: usize) -> (s: String)
    ensures
        s@ == fill('-', count as nat),
{
    let mut s = String::new();
    proof {
        reveal_strlit("-");
    }
    append_fill(&mut s, "-", count);
    assert(s@ =~= fill('-', count as nat));
    s
}

/// Left-aligns `text` in a column of `width` characters.
pub fn pad_right_string(text: &str, width: usize) -> (s: String)
    ensures
        s@ == pad_right(text@, width as nat),
{
    let mut s = String::from_str(text);
    let len: usize = text.unicode_len();
    if len < width {
        proof {
            reveal_strlit(" ");
        }
        append_fill(&mut s, " ", width - len);
    }
    s
}

} // verus!
