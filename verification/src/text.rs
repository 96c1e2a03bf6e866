//! Text rendering for the guessing game's replies: decimal numerals,
//! English ordinals, and the reply lines sent after each guess.

use vstd::prelude::*;
use vstd::string::StringExecFns;
use core::cmp::Ordering;

verus! {

/// The ASCII character of one decimal digit.
pub open spec fn digit_char(d: int) -> char
    recommends
        0 <= d <= 9,
{
    if d == 0 {
        '0'
    } else if d == 1 {
        '1'
    } else if d == 2 {
        '2'
    } else if d == 3 {
        '3'
    } else if d == 4 {
        '4'
    } else if d == 5 {
        '5'
    } else if d == 6 {
        '6'
    } else if d == 7 {
        '7'
    } else if d == 8 {
        '8'
    } else {
        '9'
    }
}

/// The decimal rendering of a non-negative number, most significant digit
/// first, with no leading zeros (a lone zero for 0).
pub open spec fn spec_decimal(n: int) -> Seq<char>
    recommends
        n >= 0,
    decreases n,
{
    if n < 10 {
        seq![digit_char(n)]
    } else {
        spec_decimal(n / 10).push(digit_char(n % 10))
    }
}

fn digit_str(d: u32) -> (r: &'static str)
    requires
        d <= 9,
    ensures
        r@ == seq![digit_char(d as int)],
{
    proof {
        reveal_strlit("0");
        reveal_strlit("1");
        reveal_strlit("2");
        reveal_strlit("3");
        reveal_strlit("4");
        reveal_strlit("5");
        reveal_strlit("6");
        reveal_strlit("7");
        reveal_strlit("8");
        reveal_strlit("9");
    }
    let r: &'static str = if d == 0 {
        "0"
    } else if d == 1 {
        "1"
    } else if d == 2 {
        "2"
    } else if d == 3 {
        "3"
    } else if d == 4 {
        "4"
    } else if d == 5 {
        "5"
    } else if d == 6 {
        "6"
    } else if d == 7 {
        "7"
    } else if d == 8 {
        "8"
    } else {
        "9"
    };
    proof {
        assert(r@ =~= seq![digit_char(d as int)]);
    }
    r
}

/// Appends the decimal rendering of `n`.
pub fn append_decimal(out: &mut String, n: u32)
    ensures
        final(out)@ == old(out)@ + spec_decimal(n as int),
    decreases n,
{
    if n >= 10 {
        append_decimal(out, n / 10);
        let s = digit_str(n % 10);
        out.append(s);
        proof {
            assert(old(out)@ + spec_decimal(n as int / 10) + seq![digit_char(n as int % 10)] =~= old(
                out,
            )@ + spec_decimal(n as int));
        }
    } else {
        let s = digit_str(n);
        out.append(s);
        proof {
            assert(old(out)@ + seq![digit_char(n as int)] =~= old(out)@ + spec_decimal(n as int));
        }
    }
}

/// The decimal rendering of `n` as a fresh string.
pub fn decimal_string(n: u32) -> (r: String)
    ensures
        r@ == spec_decimal(n as int),
{
    let mut out = String::new();
    append_decimal(&mut out, n);
    proof {
        assert(Seq::<char>::empty() + spec_decimal(n as int) =~= spec_decimal(n as int));
    }
    out
}

/// The ordinal suffix used for numbers past thirteen, chosen by the last
/// digit alone.
pub open spec fn ordinal_suffix(n: int) -> Seq<char> {
    if n % 10 == 1 {
        "st"@
    } else if n % 10 == 2 {
        "nd"@
    } else if n % 10 == 3 {
        "rd"@
    } else {
        "th"@
    }
}

/// The English ordinal of a number: words up to ninth, then the numeral
/// with a suffix; ten through thirteen always take `th`.
pub open spec fn spec_nth(n: int) -> Seq<char> {
    if n == 0 {
        "zeroth"@
    } else if n == 1 {
        "first"@
    } else if n == 2 {
        "second"@
    } else if n == 3 {
        "third"@
    } else if n == 4 {
        "fourth"@
    } else if n == 5 {
        "fifth"@
    } else if n == 6 {
        "sixth"@
    } else if n == 7 {
        "seventh"@
    } else if n == 8 {
        "eighth"@
    } else if n == 9 {
        "ninth"@
    } else if n == 10 {
        "10th"@
    } else if n == 11 {
        "11th"@
    } else if n == 12 {
        "12th"@
    } else if n == 13 {
        "13th"@
    } else {
        spec_decimal(n) + ordinal_suffix(n)
    }
}

/// Serializes an ordinal in English.
pub fn nth(n: u32) -> (r: String)
    ensures
        r@ == spec_nth(n as int),
{
    if n == 0 {
        String::from_str("zeroth")
    } else if n == 1 {
        String::from_str("first")
    } else if n == 2 {
        String::from_str("second")
    } else if n == 3 {
        String::from_str("third")
    } else if n == 4 {
        String::from_str("fourth")
    } else if n == 5 {
        String::from_str("fifth")
    } else if n == 6 {
        String::from_str("sixth")
    } else if n == 7 {
        String::from_str("seventh")
    } else if n == 8 {
        String::from_str("eighth")
    } else if n == 9 {
        String::from_str("ninth")
    } else if n == 10 {
        String::from_str("10th")
    } else if n == 11 {
        String::from_str("11th")
    } else if n == 12 {
        String::from_str("12th")
    } else if n == 13 {
        String::from_str("13th")
    } else {
        let mut out = decimal_string(n);
        let m: u32 = n % 10;
        let suffix: &'static str = if m == 1 {
            "st"
        } else if m == 2 {
            "nd"
        } else if m == 3 {
            "rd"
        } else {
            "th"
        };
        out.append(suffix);
        out
    }
}

/// The reply to one played guess: too high, too low, or the winning line
/// naming the secret and inviting a fresh game.
pub open spec fn spec_guess_reply(ord: Ordering, count: int, secret: int) -> Seq<char> {
    match ord {
        Ordering::Greater => "Your "@ + spec_nth(count) + " guess was too high"@,
        Ordering::Less => "Your "@ + spec_nth(count) + " guess was too low"@,
        Ordering::Equal => "You guessed "@ + spec_decimal(secret) + " on your "@ + spec_nth(count)
            + " try! Refresh to play again"@,
    }
}

/// Renders the reply to one played guess.
pub fn guess_reply(ord: Ordering, count: u32, secret: u32) -> (r: String)
    ensures
        r@ == spec_guess_reply(ord, count as int, secret as int),
{
    match ord {
        Ordering::Greater => {
            let mut out = String::from_str("Your ");
            let nth_s = nth(count);
            out.append(nth_s.as_str());
            out.append(" guess was too high");
            proof {
                assert(out@ =~= spec_guess_reply(ord, count as int, secret as int));
            }
            out
        },
        Ordering::Less => {
            let mut out = String::from_str("Your ");
            let nth_s = nth(count);
            out.append(nth_s.as_str());
            out.append(" guess was too low");
            proof {
                assert(out@ =~= spec_guess_reply(ord, count as int, secret as int));
            }
            out
        },
        Ordering::Equal => {
            let mut out = String::from_str("You guessed ");
            let secret_s = decimal_string(secret);
            out.append(secret_s.as_str());
            out.append(" on your ");
            let nth_s = nth(count);
            out.append(nth_s.as_str());
            out.append(" try! Refresh to play again");
            proof {
                assert(out@ =~= spec_guess_reply(ord, count as int, secret as int));
            }
            out
        },
    }
}

/// The greeting sent when a guessing-game connection opens.
pub fn welcome_text() -> (r: &'static str)
    ensures
        r@ == "Welcome to the guessing game! Enter a number between 1 and 100"@,
{
    "Welcome to the guessing game! Enter a number between 1 and 100"
}

/// The reply sent when a received text is not an acceptable guess.
pub fn guess_prompt_text() -> (r: &'static str)
    ensures
        r@ == "Please enter a number between 1 and 100"@,
{
    "Please enter a number between 1 and 100"
}

} // verus!
