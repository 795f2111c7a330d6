//! Rendering of the trace lines the commands emit.
//!
//! Every line contains decimal renderings of `i32` values, so this module
//! proves an integer-to-decimal formatter and builds each line from it.

use vstd::prelude::*;
use vstd::string::StringExecFns;

verus! {

/// The decimal digit character for `d` (expected in 0..=9).
pub open spec fn digit_char(d: int) -> char {
    if d == 0 {
        '0'
    } else if d == 1 {
        '1'
    } else if d == 2 {
        '2'
    } else if d == 3 {
        '3'
    } else if d == 4 {
        '4'
    } else if d == 5 {
        '5'
    } else if d == 6 {
        '6'
    } else if d == 7 {
        '7'
    } else if d == 8 {
        '8'
    } else {
        '9'
    }
}

/// The decimal digit sequence of `n`, most significant digit first,
/// without a sign and without leading zeros (`0` renders as "0").
pub open spec fn dec_str(n: nat) -> Seq<char>
    decreases n,
{
    if n < 10 {
        seq![digit_char(n as int)]
    } else {
        dec_str(n / 10).push(digit_char((n % 10) as int))
    }
}

/// The decimal rendering of `n`, with a leading '-' when negative.
pub open spec fn int_str(n: int) -> Seq<char> {
    if n < 0 {
        seq!['-'] + dec_str((-n) as nat)
    } else {
        dec_str(n as nat)
    }
}

/// The one-character string literal for the decimal digit `d`.
fn digit_str(d: u64) -> (s: &'static str)
    requires
        d < 10,
    ensures
        s@ =~= seq![digit_char(d as int)],
{
    proof {
        reveal_strlit("0");
        reveal_strlit("1");
        reveal_strlit("2");
        reveal_strlit("3");
        reveal_strlit("4");
        reveal_strlit("5");
        reveal_strlit("6");
        reveal_strlit("7");
        reveal_strlit("8");
        reveal_strlit("9");
    }
    match d {
        0 => "0",
        1 => "1",
        2 => "2",
        3 => "3",
        4 => "4",
        5 => "5",
        6 => "6",
        7 => "7",
        8 => "8",
        _ => "9",
    }
}

/// Renders `n` in decimal, most significant digit first.
pub fn u64_to_string(n: u64) -> (s: String)
    ensures
        s@ == dec_str(n as nat),
    decreases n,
{
    if n < 10 {
        digit_str(n).to_owned()
    } else {
        let mut s = u64_to_string(n / 10);
        s.append(digit_str(n % 10));
        proof {
            assert(s@ =~= dec_str((n / 10) as nat).push(digit_char((n % 10) as int)));
        }
        s
    }
}

/// Renders `n` in decimal, with a leading '-' when negative.
pub fn i32_to_string(n: i32) -> (s: String)
    ensures
        s@ == int_str(n as int),
{
    if n >= 0 {
        u64_to_string(n as u64)
    } else {
        let magnitude: u64 = (-(n as i64)) as u64;
        let mut s = "-".to_owned();
        let digits = u64_to_string(magnitude);
        s.append(digits.as_str());
        proof {
            reveal_strlit("-");
            assert(s@ =~= seq!['-'] + dec_str((-(n as int)) as nat));
        }
        s
    }
}

/// The trace line `execute` emits for an addition of `b` onto `a`.
pub open spec fn executing_line(a: int, b: int) -> Seq<char> {
    "executing addition: "@ + int_str(a) + " + "@ + int_str(b) + " = "@ + int_str(a + b)
}

/// The trace line `undo` emits for subtracting `m` back out of `s`.
pub open spec fn undoing_line(s: int, m: int) -> Seq<char> {
    "Undoing addition: "@ + int_str(s) + " - "@ + int_str(m) + " = "@ + int_str(s - m)
}

/// The trace line `redo` emits for re-adding `b` onto `a`.
pub open spec fn redoing_line(a: int, b: int) -> Seq<char> {
    "redoing addition: "@ + int_str(a) + " + "@ + int_str(b) + " = "@ + int_str(a + b)
}

/// Builds the `execute` trace line for adding `b` onto `a`.
pub fn format_executing(a: i32, b: i32) -> (line: String)
    requires
        i32::MIN <= a + b <= i32::MAX,
    ensures
        line@ == executing_line(a as int, b as int),
{
    let sum: i32 = a + b;
    let mut line = "executing addition: ".to_owned();
    line.append(i32_to_string(a).as_str());
    line.append(" + ");
    line.append(i32_to_string(b).as_str());
    line.append(" = ");
    line.append(i32_to_string(sum).as_str());
    line
}

/// Builds the `undo` trace line for subtracting `m` back out of `s`.
pub fn format_undoing(s: i32, m: i32) -> (line: String)
    requires
        i32::MIN <= s - m <= i32::MAX,
    ensures
        line@ == undoing_line(s as int, m as int),
{
    let difference: i32 = s - m;
    let mut line = "Undoing addition: ".to_owned();
    line.append(i32_to_string(s).as_str());
    line.append(" - ");
    line.append(i32_to_string(m).as_str());
    line.append(" = ");
    line.append(i32_to_string(difference).as_str());
    line
}

/// Builds the `redo` trace line for re-adding `b` onto `a`.
pub fn format_redoing(a: i32, b: i32) -> (line: String)
    requires
        i32::MIN <= a + b <= i32::MAX,
    ensures
        line@ == redoing_line(a as int, b as int),
{
    let sum: i32 = a + b;
    let mut line = "redoing addition: ".to_owned();
    line.append(i32_to_string(a).as_str());
    line.append(" + ");
    line.append(i32_to_string(b).as_str());
    line.append(" = ");
    line.append(i32_to_string(sum).as_str());
    line
}

} // verus!
