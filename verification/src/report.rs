//! The outcomes of an attack as a line of text.

use vstd::prelude::*;
use vstd::string::StringExecFns;
use crate::combat::AttackOutcome;
use crate::rules::HitKind;

verus! {

/// The character of a single digit.
pub open spec fn digit_char(digit: int) -> char {
    if digit == 0 {
        '0'
    } else if digit == 1 {
        '1'
    } else if digit == 2 {
        '2'
    } else if digit == 3 {
        '3'
    } else if digit == 4 {
        '4'
    } else if digit == 5 {
        '5'
    } else if digit == 6 {
        '6'
    } else if digit == 7 {
        '7'
    } else if digit == 8 {
        '8'
    } else {
        '9'
    }
}

/// The number `n` written in decimal digits.
pub open spec fn decimal(n: nat) -> Seq<char>
    decreases n,
{
    if n < 10 {
        seq![digit_char(n as int)]
    } else {
        decimal(n / 10).push(digit_char((n % 10) as int))
    }
}

/// What is written for one attack: `Miss` for a miss, and otherwise the
/// name of the tier, a colon and the damage.
pub open spec fn outcome_text(outcome: AttackOutcome) -> Seq<char> {
    if outcome.kind == HitKind::Miss {
        HitKind::Miss.spec_name()
    } else {
        outcome.kind.spec_name() + ": "@ + decimal(outcome.damage as nat)
    }
}

/// What is written for the attacks of `outcomes`: the text of each, with a
/// comma between one and the next.
pub open spec fn outcomes_text(outcomes: Seq<AttackOutcome>) -> Seq<char>
    decreases outcomes.len(),
{
    if outcomes.len() == 0 {
        Seq::<char>::empty()
    } else if outcomes.len() == 1 {
        outcome_text(outcomes[0])
    } else {
        outcomes_text(outcomes.drop_last()) + ", "@ + outcome_text(outcomes.last())
    }
}

/// The text of a single digit.
fn digit_text(digit: u32) -> (text: &'static str)
    requires
        digit < 10,
    ensures
        text@ == seq![digit_char(digit as int)],
{
    proof {
        reveal_strlit("0");
        reveal_strlit("1");
        reveal_strlit("2");
        reveal_strlit("3");
        reveal_strlit("4");
        reveal_strlit("5");
        reveal_strlit("6");
        reveal_strlit("7");
        reveal_strlit("8");
        reveal_strlit("9");
    }
    let text = if digit == 0 {
        "0"
    } else if digit == 1 {
        "1"
    } else if digit == 2 {
        "2"
    } else if digit == 3 {
        "3"
    } else if digit == 4 {
        "4"
    } else if digit == 5 {
        "5"
    } else if digit == 6 {
        "6"
    } else if digit == 7 {
        "7"
    } else if digit == 8 {
        "8"
    } else {
        "9"
    };
    text
}

/// The number `n` written in decimal digits.
pub fn decimal_text(n: u32) -> (text: String)
    ensures
        text@ == decimal(n as nat),
    decreases n,
{
    if n < 10 {
        String::from_str(digit_text(n))
    } else {
        let mut text = decimal_text(n / 10);
        text.append(digit_text(n % 10));
        text
    }
}

/// What is written for one attack.
pub fn describe_outcome(outcome: &AttackOutcome) -> (text: String)
    ensures
        text@ == outcome_text(*outcome),
{
    match outcome.kind {
        HitKind::Miss => String::from_str("Miss"),
        kind => {
            let mut text = String::from_str(kind.name());
            text.append(": ");
            let damage = decimal_text(outcome.damage);
            text.append(damage.as_str());
            text
        },
    }
}

/// What is written for the attacks of `outcomes`.
pub fn describe(outcomes: &Vec<AttackOutcome>) -> (text: String)
    ensures
        text@ == outcomes_text(outcomes@),
{
    let mut text = String::new();
    let mut i: usize = 0;
    while i < outcomes.len()
        invariant
            0 <= i <= outcomes.len(),
            text@ == outcomes_text(outcomes@.take(i as int)),
        decreases outcomes.len() - i,
    {
        proof {
            assert(outcomes@.take(i + 1).drop_last() =~= outcomes@.take(i as int));
        }
        if i > 0 {
            text.append(", ");
        }
        let entry = describe_outcome(&outcomes[i]);
        text.append(entry.as_str());
        i += 1;
    }
    assert(outcomes@.take(i as int) =~= outcomes@);
    text
}

} // verus!
