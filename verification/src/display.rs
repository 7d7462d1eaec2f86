//! The score presentation adapter: a pure mapping from the score to the
//! display string `"{player} | {opponent}"`, with a verified decimal
//! rendering of the counters.

use vstd::prelude::*;

use crate::entities::Score;
use vstd::string::StringExecFns;

verus! {

/// The digit character of `d`, for `0 <= d <= 9`.
pub open spec fn digit_char(d: nat) -> char
    recommends
        d <= 9,
{
    if d == 0 {
        '0'
    } else if d == 1 {
        '1'
    } else if d == 2 {
        '2'
    } else if d == 3 {
        '3'
    } else if d == 4 {
        '4'
    } else if d == 5 {
        '5'
    } else if d == 6 {
        '6'
    } else if d == 7 {
        '7'
    } else if d == 8 {
        '8'
    } else {
        '9'
    }
}

/// The decimal digits of `n`, most significant first, without leading zeros
/// (`0` itself renders as `"0"`).
pub open spec fn dec_seq(n: nat) -> Seq<char>
    decreases n,
{
    if n < 10 {
        seq![digit_char(n)]
    } else {
        dec_seq(n / 10).push(digit_char(n % 10))
    }
}

/// The display string of a score: player's counter, `" | "`, opponent's
/// counter.
pub open spec fn score_text(score: Score) -> Seq<char> {
    dec_seq(score.player as nat) + " | "@ + dec_seq(score.opponent as nat)
}

/// The one-character string of the digit `d`.
fn digit_str(d: u32) -> (s: &'static str)
    requires
        d <= 9,
    ensures
        s@ =~= seq![digit_char(d as nat)],
{
    if d == 0 {
        proof {
            reveal_strlit("0");
        }
        "0"
    } else if d == 1 {
        proof {
            reveal_strlit("1");
        }
        "1"
    } else if d == 2 {
        proof {
            reveal_strlit("2");
        }
        "2"
    } else if d == 3 {
        proof {
            reveal_strlit("3");
        }
        "3"
    } else if d == 4 {
        proof {
            reveal_strlit("4");
        }
        "4"
    } else if d == 5 {
        proof {
            reveal_strlit("5");
        }
        "5"
    } else if d == 6 {
        proof {
            reveal_strlit("6");
        }
        "6"
    } else if d == 7 {
        proof {
            reveal_strlit("7");
        }
        "7"
    } else if d == 8 {
        proof {
            reveal_strlit("8");
        }
        "8"
    } else {
        proof {
            reveal_strlit("9");
        }
        "9"
    }
}

/// Appends the decimal rendering of `n` to `text`.
fn push_decimal(text: &mut String, n: u32)
    ensures
        final(text)@ == old(text)@ + dec_seq(n as nat),
    decreases n,
{
    if n >= 10 {
        push_decimal(text, n / 10);
        let d = digit_str(n % 10);
        text.append(d);
        proof {
            assert(text@ =~= old(text)@ + dec_seq(n as nat));
        }
    } else {
        let d = digit_str(n);
        text.append(d);
        proof {
            assert(text@ =~= old(text)@ + dec_seq(n as nat));
        }
    }
}

/// Renders the score for display, in the format `"{player} | {opponent}"`.
pub fn update_score(score: &Score) -> (text: String)
    requires
        score.wf(),
    ensures
        text@ == score_text(*score),
{
    let mut text = String::new();
    push_decimal(&mut text, score.player as u32);
    text.append(" | ");
    push_decimal(&mut text, score.opponent as u32);
    proof {
        assert(text@ =~= score_text(*score));
    }
    text
}

} // verus!
