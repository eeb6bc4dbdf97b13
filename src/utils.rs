//! Small helpers: range labels and the movement axis from pressed keys.
use vstd::prelude::*;
use vstd::string::*;
use std::ops::Range;

verus! {

pub open spec fn digit(d: nat) -> char {
    if d == 0 { '0' } else if d == 1 { '1' } else if d == 2 { '2' } else if d == 3 { '3' }
    else if d == 4 { '4' } else if d == 5 { '5' } else if d == 6 { '6' } else if d == 7 { '7' }
    else if d == 8 { '8' } else { '9' }
}

/// The decimal digits of `n`, without leading zeros.
pub open spec fn decimal(n: nat) -> Seq<char>
    decreases n,
{
    if n < 10 { seq![digit(n)] } else { decimal(n / 10).push(digit(n % 10)) }
}

/// The label of the non-empty range `start..end`: `=k` for a single value,
/// `<m` for a range from 0 or 1 up to its largest value `m`, else `k..m`
/// with both bounds inclusive.
pub open spec fn range_label(start: nat, end: nat) -> Seq<char> {
    if end == start + 1 {
        seq!['='] + decimal(start)
    } else if start <= 1 {
        seq!['<'] + decimal((end - 1) as nat)
    } else {
        decimal(start) + seq!['.', '.'] + decimal((end - 1) as nat)
    }
}

/// The one-character string of the decimal digit `d`.
fn digit_str(d: usize) -> (r: &'static str)
    requires
        d < 10,
    ensures
        r@ == seq![digit(d as nat)],
{
    proof {
        reveal_strlit("0");
        reveal_strlit("1");
        reveal_strlit("2");
        reveal_strlit("3");
        reveal_strlit("4");
        reveal_strlit("5");
        reveal_strlit("6");
        reveal_strlit("7");
        reveal_strlit("8");
        reveal_strlit("9");
    }
    if d == 0 { "0" } else if d == 1 { "1" } else if d == 2 { "2" } else if d == 3 { "3" }
    else if d == 4 { "4" } else if d == 5 { "5" } else if d == 6 { "6" } else if d == 7 { "7" }
    else if d == 8 { "8" } else { "9" }
}

/// The decimal digits of `n`.
fn decimal_string(n: usize) -> (r: String)
    ensures
        r@ == decimal(n as nat),
    decreases n,
{
    if n < 10 {
        String::from_str(digit_str(n))
    } else {
        let mut s = decimal_string(n / 10);
        s.append(digit_str(n % 10));
        assert(s@ =~= decimal(n as nat));
        s
    }
}

/// Labels a non-empty range by its smallest and largest values.
pub fn serialize_range(range: &Range<usize>) -> (r: String)
    requires
        range.start < range.end,
    ensures
        r@ == range_label(range.start as nat, range.end as nat),
{
    let min = range.start;
    let max = range.end - 1;
    if min == max {
        let mut s = String::from_str("=");
        let digits = decimal_string(min);
        proof {
            reveal_strlit("=");
        }
        s.append(digits.as_str());
        s
    } else if min <= 1 {
        let mut s = String::from_str("<");
        let digits = decimal_string(max);
        proof {
            reveal_strlit("<");
        }
        s.append(digits.as_str());
        s
    } else {
        let mut s = decimal_string(min);
        s.append("..");
        let digits = decimal_string(max);
        proof {
            reveal_strlit("..");
        }
        s.append(digits.as_str());
        s
    }
}

/// The movement axis from the pressed direction keys: -1, 0 or 1 on each
/// axis, with y growing downward.
pub fn input_axis(left: bool, right: bool, up: bool, down: bool) -> (r: (i8, i8))
    ensures
        r.0 == (if right { 1int } else { 0 }) - (if left { 1int } else { 0 }),
        r.1 == (if down { 1int } else { 0 }) - (if up { 1int } else { 0 }),
{
    let mut x: i8 = 0;
    let mut y: i8 = 0;
    if left {
        x -= 1;
    }
    if right {
        x += 1;
    }
    if up {
        y -= 1;
    }
    if down {
        y += 1;
    }
    (x, y)
}

} // verus!
