//! Rendering the remaining time as a two-digit `MM:SS` string.
//!
//! The minutes position is taken modulo 60, so a remaining time of
//! an hour or more wraps silently — a documented quirk of the
//! display, kept as it is rather than widened to an hours field.

use vstd::prelude::*;
use vstd::string::StringExecFns;
use vstd::arithmetic::div_mod::lemma_fundamental_div_mod;

use crate::timer::ClockrApp;

verus! {

/// The decimal digit character for a value below ten.
pub open spec fn digit_char(d: int) -> char {
    if d == 0 {
        '0'
    } else if d == 1 {
        '1'
    } else if d == 2 {
        '2'
    } else if d == 3 {
        '3'
    } else if d == 4 {
        '4'
    } else if d == 5 {
        '5'
    } else if d == 6 {
        '6'
    } else if d == 7 {
        '7'
    } else if d == 8 {
        '8'
    } else {
        '9'
    }
}

/// The value of a decimal digit character; anything else reads as
/// zero.
pub open spec fn digit_val(c: char) -> int {
    if c == '0' {
        0
    } else if c == '1' {
        1
    } else if c == '2' {
        2
    } else if c == '3' {
        3
    } else if c == '4' {
        4
    } else if c == '5' {
        5
    } else if c == '6' {
        6
    } else if c == '7' {
        7
    } else if c == '8' {
        8
    } else if c == '9' {
        9
    } else {
        0
    }
}

/// The five characters `MM:SS` shown for a remaining time of
/// `remaining_ms` milliseconds: whole seconds, split into minutes
/// modulo 60 and seconds, each zero-padded to two digits.
pub open spec fn spec_display(remaining_ms: int) -> Seq<char> {
    let total = remaining_ms / 1000;
    let minutes = (total / 60) % 60;
    let seconds = total % 60;
    seq![
        digit_char(minutes / 10),
        digit_char(minutes % 10),
        ':',
        digit_char(seconds / 10),
        digit_char(seconds % 10),
    ]
}

/// Reads an `MM:SS` character sequence back as a count of seconds.
pub open spec fn spec_parse_display(s: Seq<char>) -> int {
    (digit_val(s[0]) * 10 + digit_val(s[1])) * 60 + digit_val(s[3]) * 10 + digit_val(s[4])
}

/// The one-character string for a decimal digit.
fn digit_str(d: u64) -> (s: &'static str)
    requires
        d < 10,
    ensures
        s@ == seq![digit_char(d as int)],
{
    if d == 0 {
        proof {
            reveal_strlit("0");
            assert("0"@ =~= seq![digit_char(0)]);
        }
        "0"
    } else if d == 1 {
        proof {
            reveal_strlit("1");
            assert("1"@ =~= seq![digit_char(1)]);
        }
        "1"
    } else if d == 2 {
        proof {
            reveal_strlit("2");
            assert("2"@ =~= seq![digit_char(2)]);
        }
        "2"
    } else if d == 3 {
        proof {
            reveal_strlit("3");
            assert("3"@ =~= seq![digit_char(3)]);
        }
        "3"
    } else if d == 4 {
        proof {
            reveal_strlit("4");
            assert("4"@ =~= seq![digit_char(4)]);
        }
        "4"
    } else if d == 5 {
        proof {
            reveal_strlit("5");
            assert("5"@ =~= seq![digit_char(5)]);
        }
        "5"
    } else if d == 6 {
        proof {
            reveal_strlit("6");
            assert("6"@ =~= seq![digit_char(6)]);
        }
        "6"
    } else if d == 7 {
        proof {
            reveal_strlit("7");
            assert("7"@ =~= seq![digit_char(7)]);
        }
        "7"
    } else if d == 8 {
        proof {
            reveal_strlit("8");
            assert("8"@ =~= seq![digit_char(8)]);
        }
        "8"
    } else {
        proof {
            reveal_strlit("9");
            assert("9"@ =~= seq![digit_char(9)]);
        }
        "9"
    }
}

impl ClockrApp {
    /// Renders the remaining time at the given instant as the
    /// two-digit, zero-padded `MM:SS` display string.
    pub fn format_time(&self, now_ms: u64) -> (s: String)
        ensures
            s@ == spec_display(self.spec_remaining_ms(now_ms)),
    {
        let remaining_ms = self.remaining_time(now_ms);
        let total: u64 = remaining_ms / 1000;
        let minutes: u64 = (total / 60) % 60;
        let seconds: u64 = total % 60;
        let mut s = String::from_str(digit_str(minutes / 10));
        s.append(digit_str(minutes % 10));
        s.append(":");
        s.append(digit_str(seconds / 10));
        s.append(digit_str(seconds % 10));
        proof {
            reveal_strlit(":");
            assert(s@ =~= spec_display(self.spec_remaining_ms(now_ms)));
        }
        s
    }
}

/// The display round-trips for every remaining time under one hour:
/// reading the rendered `MM:SS` back as seconds gives exactly the
/// whole seconds remaining.
pub proof fn lemma_display_round_trip(remaining_ms: int)
    requires
        0 <= remaining_ms,
        remaining_ms / 1000 < 3600,
    ensures
        spec_parse_display(spec_display(remaining_ms)) == remaining_ms / 1000,
{
    let total = remaining_ms / 1000;
    lemma_fundamental_div_mod(total, 60);
    lemma_fundamental_div_mod(total / 60, 60);
    lemma_fundamental_div_mod((total / 60) % 60, 10);
    lemma_fundamental_div_mod(total % 60, 10);
}

} // verus!
