//! Decimal rendering of the scores shown on the landing panel.

use vstd::prelude::*;
use vstd::string::StringExecFns;

verus! {

/// The decimal digit character for a value below ten.
pub open spec fn digit_char(d: nat) -> char {
    if d == 0 {
        '0'
    } else if d == 1 {
        '1'
    } else if d == 2 {
        '2'
    } else if d == 3 {
        '3'
    } else if d == 4 {
        '4'
    } else if d == 5 {
        '5'
    } else if d == 6 {
        '6'
    } else if d == 7 {
        '7'
    } else if d == 8 {
        '8'
    } else {
        '9'
    }
}

/// The decimal numeral of a natural number: its digits in reading order,
/// without leading zeroes except for zero itself.
pub open spec fn dec_rep(n: nat) -> Seq<char>
    decreases n,
{
    if n < 10 {
        seq![digit_char(n)]
    } else {
        dec_rep(n / 10) + seq![digit_char(n % 10)]
    }
}

/// The one-character string of a decimal digit.
fn digit_string(d: u32) -> (s: String)
    requires
        d < 10,
    ensures
        s@ == seq![digit_char(d as nat)],
{
    proof {
        reveal_strlit("0");
        reveal_strlit("1");
        reveal_strlit("2");
        reveal_strlit("3");
        reveal_strlit("4");
        reveal_strlit("5");
        reveal_strlit("6");
        reveal_strlit("7");
        reveal_strlit("8");
        reveal_strlit("9");
    }
    let text = match d {
        0 => "0",
        1 => "1",
        2 => "2",
        3 => "3",
        4 => "4",
        5 => "5",
        6 => "6",
        7 => "7",
        8 => "8",
        _ => "9",
    };
    text.to_owned()
}

/// Renders a number as its decimal numeral.
pub fn decimal_string(n: u32) -> (s: String)
    ensures
        s@ == dec_rep(n as nat),
    decreases n,
{
    if n < 10 {
        digit_string(n)
    } else {
        let mut s = decimal_string(n / 10);
        let last = digit_string(n % 10);
        s.append(last.as_str());
        s
    }
}

/// The landing panel's line for an award: the points, the platform factor
/// and their product, as in a multiplication written out.
pub open spec fn landing_summary_spec(points: nat, factor: nat, new_score: nat) -> Seq<char> {
    dec_rep(points) + seq![' ', 'x', ' '] + dec_rep(factor) + seq![' ', '=', ' '] + dec_rep(
        new_score,
    )
}

/// Renders the landing panel's award line, `points x factor = score`.
pub fn landing_summary(points: i32, factor: i32, new_score: i32) -> (s: String)
    requires
        0 <= points,
        0 <= factor,
        0 <= new_score,
    ensures
        s@ == landing_summary_spec(points as nat, factor as nat, new_score as nat),
{
    proof {
        reveal_strlit(" x ");
        reveal_strlit(" = ");
    }
    let mut s = decimal_string(points as u32);
    s.append(" x ");
    let factor_text = decimal_string(factor as u32);
    s.append(factor_text.as_str());
    s.append(" = ");
    let score_text = decimal_string(new_score as u32);
    s.append(score_text.as_str());
    proof {
        assert(s@ =~= landing_summary_spec(points as nat, factor as nat, new_score as nat));
    }
    s
}

} // verus!
