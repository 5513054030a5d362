//! The text of the cursor position in the status line.
use vstd::prelude::*;

verus! {

/// The decimal digit for `d`, which is below ten.
pub open spec fn digit(d: nat) -> char {
    seq!['0', '1', '2', '3', '4', '5', '6', '7', '8', '9'][d as int]
}

/// The decimal numeral of `n`, with no leading zeros.
pub open spec fn decimal(n: nat) -> Seq<char>
    decreases n,
{
    if n < 10 {
        seq![digit(n)]
    } else {
        decimal(n / 10) + seq![digit(n % 10)]
    }
}

/// The text `line:column` of a position given one-based.
pub open spec fn position_spec(line: nat, column: nat) -> Seq<char> {
    decimal(line) + seq![':'] + decimal(column)
}

/// Relies on `u128::to_string`, which writes the number in decimal.
#[verifier::external_body]
fn decimal_text(n: u128) -> (r: String)
    ensures
        r@ == decimal(n as nat),
{
    n.to_string()
}

/// The cursor position at zero-based `line` and `column`, shown one-based as
/// `line:column`.
pub fn position_text(line: usize, column: usize) -> (r: String)
    ensures
        r@ == position_spec(line as nat + 1, column as nat + 1),
{
    proof {
        reveal_strlit(":");
    }
    let mut r = decimal_text(line as u128 + 1);
    r.append(":");
    let c = decimal_text(column as u128 + 1);
    r.append(c.as_str());
    r
}

} // verus!
