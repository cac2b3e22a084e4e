//! The scoreboard: a saturating counter with a verified display string.

use vstd::prelude::*;
use vstd::string::StringExecFns;

verus! {

/// The character for one decimal digit value.
pub open spec fn digit_char(d: nat) -> char {
    if d == 0 {
        '0'
    } else if d == 1 {
        '1'
    } else if d == 2 {
        '2'
    } else if d == 3 {
        '3'
    } else if d == 4 {
        '4'
    } else if d == 5 {
        '5'
    } else if d == 6 {
        '6'
    } else if d == 7 {
        '7'
    } else if d == 8 {
        '8'
    } else {
        '9'
    }
}

/// The decimal writing of `n`, most significant digit first, with no
/// leading zeroes (zero itself writes as one digit).
pub open spec fn decimal_digits(n: nat) -> Seq<char>
    decreases n,
{
    if n < 10 {
        seq![digit_char(n)]
    } else {
        decimal_digits(n / 10).push(digit_char(n % 10))
    }
}

/// The scoreboard's whole display string for a given score.
pub open spec fn score_text(n: nat) -> Seq<char> {
    "Score: "@ + decimal_digits(n)
}

/// The character for one decimal digit value, as a one-character
/// string slice.
fn digit_str(d: u64) -> (r: &'static str)
    requires
        d < 10,
    ensures
        r@ == seq![digit_char(d as nat)],
{
    proof {
        reveal_strlit("0");
        reveal_strlit("1");
        reveal_strlit("2");
        reveal_strlit("3");
        reveal_strlit("4");
        reveal_strlit("5");
        reveal_strlit("6");
        reveal_strlit("7");
        reveal_strlit("8");
        reveal_strlit("9");
    }
    match d {
        0 => "0",
        1 => "1",
        2 => "2",
        3 => "3",
        4 => "4",
        5 => "5",
        6 => "6",
        7 => "7",
        8 => "8",
        _ => "9",
    }
}

/// Appends the decimal writing of `n` to `out`.
fn push_decimal(n: u64, out: &mut String)
    ensures
        final(out)@ == old(out)@ + decimal_digits(n as nat),
    decreases n,
{
    if n >= 10 {
        push_decimal(n / 10, out);
    }
    let d = digit_str(n % 10);
    out.append(d);
    proof {
        assert(out@ =~= old(out)@ + decimal_digits(n as nat));
    }
}

/// An integer score counter, reset when play starts and shown through
/// a formatted display string.
pub struct Scoreboard {
    score: u64,
}

impl Scoreboard {
    pub closed spec fn spec_score(self) -> u64 {
        self.score
    }

    /// A fresh scoreboard starts at zero.
    pub fn new() -> (s: Scoreboard)
        ensures
            s.spec_score() == 0,
    {
        Scoreboard { score: 0 }
    }

    pub fn score(&self) -> (r: u64)
        ensures
            r == self.spec_score(),
    {
        self.score
    }

    /// Back to zero, as happens on entering play.
    pub fn reset(&mut self)
        ensures
            final(self).spec_score() == 0,
    {
        self.score = 0;
    }

    /// Adds `by` points, saturating at the counter's ceiling rather
    /// than wrapping.
    pub fn increment(&mut self, by: u64)
        ensures
            old(self).spec_score() + by <= u64::MAX ==> final(self).spec_score()
                == old(self).spec_score() + by,
            old(self).spec_score() + by > u64::MAX ==> final(self).spec_score() == u64::MAX,
    {
        if by <= u64::MAX - self.score {
            self.score = self.score + by;
        } else {
            self.score = u64::MAX;
        }
    }

    /// The display string for the current score.
    pub fn render(&self) -> (r: String)
        ensures
            r@ == score_text(self.spec_score() as nat),
    {
        let mut out = String::new();
        out.append("Score: ");
        push_decimal(self.score, &mut out);
        proof {
            assert(out@ =~= score_text(self.spec_score() as nat));
        }
        out
    }
}

} // verus!
