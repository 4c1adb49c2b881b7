use vstd::prelude::*;

verus! {

/// The player's score: apples eaten so far.
#[derive(Clone, Copy, Debug, PartialEq, Eq, Structural)]
pub struct Scoreboard(pub u64);

/// The decimal digit for `d < 10`.
pub open spec fn digit_char(d: nat) -> char {
    if d == 0 {
        '0'
    } else if d == 1 {
        '1'
    } else if d == 2 {
        '2'
    } else if d == 3 {
        '3'
    } else if d == 4 {
        '4'
    } else if d == 5 {
        '5'
    } else if d == 6 {
        '6'
    } else if d == 7 {
        '7'
    } else if d == 8 {
        '8'
    } else {
        '9'
    }
}

/// `n` written in decimal, without leading zeros.
pub open spec fn decimal(n: nat) -> Seq<char>
    decreases n,
{
    if n < 10 {
        seq![digit_char(n)]
    } else {
        decimal(n / 10).push(digit_char(n % 10))
    }
}

/// The label shown for a score of `n`: `Score: ` followed by `n` in decimal.
pub open spec fn score_label(n: nat) -> Seq<char> {
    seq!['S', 'c', 'o', 'r', 'e', ':', ' '] + decimal(n)
}

/// Relies on `ToString` for `u64` (through its `Display` impl), which writes
/// the number in decimal without sign or leading zeros.
#[verifier::external_body]
fn decimal_string(n: u64) -> (r: String)
    ensures
        r@ == decimal(n as nat),
{
    n.to_string()
}

/// The text of the scoreboard label for `score`.
pub fn score_text(score: &Scoreboard) -> (r: String)
    ensures
        r@ == score_label(score.0 as nat),
{
    let digits = decimal_string(score.0);
    let mut label = String::from_str("Score: ");
    label.append(digits.as_str());
    proof {
        reveal_strlit("Score: ");
    }
    assert(label@ =~= score_label(score.0 as nat));
    label
}

} // verus!
