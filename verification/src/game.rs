//! The guessing game behind the second control endpoint: a secret between 1
//! and 100, a guess counter, and the command parser that turns a received
//! text into a guess. A guess is the received text with control characters
//! and whitespace trimmed from both ends, read as an unsigned decimal
//! numeral with an optional leading plus sign, accepted when it lies
//! between 1 and 100.

use vstd::prelude::*;
use vstd::string::StrSliceExecFns;
use vstd::utf8::valid_utf8;
use vstd::utf8::decode_utf8;
use core::cmp::Ordering;
use crate::channel::bytes_to_text;
use crate::text::guess_reply;
use crate::text::spec_guess_reply;

verus! {

/// True of the characters `char::is_ascii_control` accepts: U+0000 through
/// U+001F, and U+007F.
pub open spec fn is_control_char(c: char) -> bool {
    c as u32 <= 0x1F || c as u32 == 0x7F
}

/// Whether a character has the Unicode `White_Space` property; a function
/// of the character alone.
pub uninterp spec fn unicode_whitespace(c: char) -> bool;

/// Relies on char::is_whitespace: true exactly on characters with the
/// Unicode `White_Space` property.
#[verifier::external_body]
fn char_is_whitespace(c: char) -> (r: bool)
    ensures
        r == unicode_whitespace(c),
{
    c.is_whitespace()
}

/// The characters trimmed from both ends of a received guess: control
/// characters (including NUL bytes that the transport buffer may carry) and
/// whitespace.
pub open spec fn trim_char(c: char) -> bool {
    is_control_char(c) || unicode_whitespace(c)
}

fn is_trim_char(c: char) -> (r: bool)
    ensures
        r == trim_char(c),
{
    let u: u32 = c as u32;
    u <= 0x1F || u == 0x7F || char_is_whitespace(c)
}

/// The text with every leading trim character removed.
pub open spec fn trim_front(s: Seq<char>) -> Seq<char>
    decreases s.len(),
{
    if s.len() > 0 && trim_char(s[0]) {
        trim_front(s.drop_first())
    } else {
        s
    }
}

/// The text with every trailing trim character removed.
pub open spec fn trim_back(s: Seq<char>) -> Seq<char>
    decreases s.len(),
{
    if s.len() > 0 && trim_char(s.last()) {
        trim_back(s.drop_last())
    } else {
        s
    }
}

/// The text trimmed at both ends.
pub open spec fn trimmed(s: Seq<char>) -> Seq<char> {
    trim_back(trim_front(s))
}

/// An ASCII decimal digit.
pub open spec fn is_digit_char(c: char) -> bool {
    48 <= c as u32 <= 57
}

/// The numeric value of an ASCII decimal digit.
pub open spec fn digit_value(c: char) -> int {
    c as u32 - 48
}

pub open spec fn all_digits(s: Seq<char>) -> bool {
    forall|i: int| 0 <= i < s.len() ==> is_digit_char(s[i])
}

/// The digits of a numeral: everything after an optional leading plus sign.
pub open spec fn digits_part(s: Seq<char>) -> Seq<char> {
    if s.len() > 0 && s[0] == '+' {
        s.drop_first()
    } else {
        s
    }
}

/// The value of a digit string read left to right.
pub open spec fn numeral_value(s: Seq<char>) -> int
    decreases s.len(),
{
    if s.len() == 0 {
        0
    } else {
        numeral_value(s.drop_last()) * 10 + digit_value(s.last())
    }
}

/// True when the text is a decimal numeral that an unsigned 32-bit parse
/// accepts: an optional plus sign, then at least one digit, with a value in
/// range.
pub open spec fn parses_as_u32(s: Seq<char>) -> bool {
    &&& digits_part(s).len() > 0
    &&& all_digits(digits_part(s))
    &&& numeral_value(digits_part(s)) <= u32::MAX as int
}

/// What a received guess text yields: its trimmed form must parse and lie
/// between 1 and 100.
pub open spec fn guess_of_input(s: Seq<char>) -> Option<u32> {
    let t = trimmed(s);
    if parses_as_u32(t) && 1 <= numeral_value(digits_part(t)) <= 100 {
        Some(numeral_value(digits_part(t)) as u32)
    } else {
        None
    }
}

proof fn lemma_trim_front_skip(s: Seq<char>, i: int)
    requires
        0 <= i <= s.len(),
        forall|k: int| 0 <= k < i ==> trim_char(s[k]),
        i == s.len() || !trim_char(s[i]),
    ensures
        trim_front(s) == s.subrange(i, s.len() as int),
    decreases i,
{
    if i == 0 {
        assert(s.subrange(0, s.len() as int) =~= s);
    } else {
        let t = s.drop_first();
        lemma_trim_front_skip(t, i - 1);
        assert(t.subrange(i - 1, t.len() as int) =~= s.subrange(i, s.len() as int));
    }
}

proof fn lemma_trim_back_take(s: Seq<char>, i: int)
    requires
        0 <= i <= s.len(),
        forall|k: int| i <= k < s.len() ==> trim_char(s[k]),
        i == 0 || !trim_char(s[i - 1]),
    ensures
        trim_back(s) == s.subrange(0, i),
    decreases s.len(),
{
    if i == s.len() {
        assert(s.subrange(0, i) =~= s);
    } else {
        let t = s.drop_last();
        lemma_trim_back_take(t, i);
        assert(t.subrange(0, i) =~= s.subrange(0, i));
    }
}

/// Once some prefix of a digit string is already out of range, the whole
/// string is: every further position at most subtracts 48 after a tenfold
/// growth.
proof fn lemma_numeral_prefix_large(s: Seq<char>, i: int)
    requires
        0 <= i <= s.len(),
        numeral_value(s.subrange(0, i)) > u32::MAX as int,
    ensures
        numeral_value(s) > u32::MAX as int,
    decreases s.len() - i,
{
    if i == s.len() {
        assert(s.subrange(0, i) =~= s);
    } else {
        assert(s.subrange(0, i + 1).drop_last() =~= s.subrange(0, i));
        assert(s.subrange(0, i + 1).last() == s[i]);
        lemma_numeral_prefix_large(s, i + 1);
    }
}

/// How the hard-coded secret is drawn: the entropy source hands the
/// sub-second nanoseconds of the system clock; scaled down and folded into
/// 1 through 100.
pub fn secret_from_entropy(nanos: u32) -> (r: u32)
    ensures
        r == nanos / 65537 % 100 + 1,
        1 <= r <= 100,
{
    nanos / 65537 % 100 + 1
}

/// One player's game: how many guesses were made, the secret to find, and
/// whether it has been found.
pub struct GuessingGame {
    pub guesses: u32,
    pub secret: u32,
    pub done: bool,
}

impl GuessingGame {
    /// A fresh game around the given secret.
    pub fn new(secret: u32) -> (g: GuessingGame)
        ensures
            g == (GuessingGame { guesses: 0, secret, done: false }),
    {
        GuessingGame { guesses: 0, secret, done: false }
    }

    /// Plays one guess. A finished game answers `Equal` with the final
    /// count and changes nothing; otherwise the count grows by one, the
    /// ordering compares the guess against the secret, and an exact guess
    /// finishes the game.
    pub fn guess(&mut self, guess: u32) -> (r: (Ordering, u32))
        requires
            old(self).done || old(self).guesses < u32::MAX,
        ensures
            old(self).done ==> r == (Ordering::Equal, old(self).guesses) && *final(self) == *old(
                self,
            ),
            !old(self).done ==> ({
                &&& final(self).guesses == old(self).guesses + 1
                &&& final(self).secret == old(self).secret
                &&& final(self).done == (guess == old(self).secret)
                &&& r.1 == final(self).guesses
                &&& (r.0 == Ordering::Equal <==> guess == old(self).secret)
                &&& (r.0 == Ordering::Less <==> guess < old(self).secret)
                &&& (r.0 == Ordering::Greater <==> guess > old(self).secret)
            }),
    {
        if self.done {
            (Ordering::Equal, self.guesses)
        } else {
            self.guesses = self.guesses + 1;
            let cmp = if guess < self.secret {
                Ordering::Less
            } else if guess == self.secret {
                Ordering::Equal
            } else {
                Ordering::Greater
            };
            if guess == self.secret {
                self.done = true;
            }
            (cmp, self.guesses)
        }
    }

    /// Reads a received text as a guess: trim both ends, parse as an
    /// unsigned decimal numeral, accept 1 through 100.
    pub fn parse_guess(input: &str) -> (r: Option<u32>)
        ensures
            r == guess_of_input(input@),
    {
        let n: usize = input.unicode_len();
        let mut start: usize = 0;
        loop
            invariant
                0 <= start <= n,
                n as int == input@.len(),
                forall|k: int| 0 <= k < start ==> trim_char(input@[k]),
            ensures
                0 <= start <= n,
                n as int == input@.len(),
                forall|k: int| 0 <= k < start ==> trim_char(input@[k]),
                start == n || !trim_char(input@[start as int]),
            decreases n - start,
        {
            if start >= n {
                break ;
            }
            if !is_trim_char(input.get_char(start)) {
                break ;
            }
            start += 1;
        }
        let mut end: usize = n;
        loop
            invariant
                start <= end <= n,
                n as int == input@.len(),
                forall|k: int| 0 <= k < start ==> trim_char(input@[k]),
                start == n || !trim_char(input@[start as int]),
                forall|k: int| end <= k < n ==> trim_char(input@[k]),
            ensures
                start <= end <= n,
                n as int == input@.len(),
                forall|k: int| 0 <= k < start ==> trim_char(input@[k]),
                start == n || !trim_char(input@[start as int]),
                forall|k: int| end <= k < n ==> trim_char(input@[k]),
                end == start || !trim_char(input@[end - 1]),
            decreases end,
        {
            if end <= start {
                break ;
            }
            if !is_trim_char(input.get_char(end - 1)) {
                break ;
            }
            end -= 1;
        }
        proof {
            lemma_trim_front_skip(input@, start as int);
            lemma_trim_back_take(
                input@.subrange(start as int, n as int),
                end as int - start as int,
            );
            assert(trimmed(input@) =~= input@.subrange(start as int, end as int));
        }
        let ghost t = trimmed(input@);
        let mut ds: usize = start;
        if start < end {
            if input.get_char(start) == '+' {
                ds = start + 1;
            }
        }
        proof {
            assert(digits_part(t) =~= input@.subrange(ds as int, end as int));
        }
        if ds == end {
            return None;
        }
        let mut value: u32 = 0;
        let mut i: usize = ds;
        loop
            invariant
                ds <= i <= end,
                end <= n,
                n as int == input@.len(),
                digits_part(trimmed(input@)) == input@.subrange(ds as int, end as int),
                forall|k: int| ds <= k < i ==> is_digit_char(input@[k]),
                value as int == numeral_value(input@.subrange(ds as int, i as int)),
            ensures
                i == end,
                digits_part(trimmed(input@)) == input@.subrange(ds as int, end as int),
                forall|k: int| ds <= k < end ==> is_digit_char(input@[k]),
                value as int == numeral_value(input@.subrange(ds as int, end as int)),
            decreases end - i,
        {
            if i >= end {
                break ;
            }
            let c = input.get_char(i);
            let u: u32 = c as u32;
            if u < 48 || u > 57 {
                proof {
                    let d = digits_part(trimmed(input@));
                    assert(d[i as int - ds as int] == input@[i as int]);
                    assert(!all_digits(d));
                }
                return None;
            }
            let d: u32 = u - 48;
            proof {
                assert(input@.subrange(ds as int, i as int + 1).drop_last() =~= input@.subrange(
                    ds as int,
                    i as int,
                ));
                assert(input@.subrange(ds as int, i as int + 1).last() == input@[i as int]);
            }
            let next = match value.checked_mul(10) {
                Some(v10) => v10.checked_add(d),
                None => None,
            };
            match next {
                Some(v) => {
                    value = v;
                },
                None => {
                    proof {
                        let digits = digits_part(trimmed(input@));
                        assert(digits.subrange(0, i as int + 1 - ds as int) =~= input@.subrange(
                            ds as int,
                            i as int + 1,
                        ));
                        lemma_numeral_prefix_large(digits, i as int + 1 - ds as int);
                    }
                    return None;
                },
            }
            i += 1;
        }
        if value < 1 || value > 100 {
            return None;
        }
        Some(value)
    }
}

/// What one received guessing-game frame leads to.
///
/// - `DecodeFailure`: the payload was not UTF-8; send the decode diagnostic
///   and keep the connection.
/// - `NotAGuess`: the text did not parse as a guess between 1 and 100; send
///   the guess prompt.
/// - `Played`: the guess was played; send the reply, and close the
///   connection when the game is won.
#[derive(Debug)]
pub enum GameStep {
    DecodeFailure,
    NotAGuess,
    Played { reply: String, close: bool },
}

/// Plays one received frame against a game: decode the payload, read it as
/// a guess, play it, and render the reply.
pub fn game_frame(game: &mut GuessingGame, payload: &[u8]) -> (r: GameStep)
    requires
        old(game).done || old(game).guesses < u32::MAX,
    ensures
        r is DecodeFailure <==> !valid_utf8(payload@),
        !valid_utf8(payload@) ==> *final(game) == *old(game),
        valid_utf8(payload@) ==> ({
            &&& (r is NotAGuess <==> guess_of_input(decode_utf8(payload@)) is None)
            &&& guess_of_input(decode_utf8(payload@)) is None ==> *final(game) == *old(game)
        }),
        r matches GameStep::Played { reply, close } ==> ({
            let g = guess_of_input(decode_utf8(payload@))->0;
            if old(game).done {
                &&& *final(game) == *old(game)
                &&& close
                &&& reply@ == spec_guess_reply(
                    Ordering::Equal,
                    old(game).guesses as int,
                    old(game).secret as int,
                )
            } else {
                &&& final(game).guesses == old(game).guesses + 1
                &&& final(game).secret == old(game).secret
                &&& final(game).done == (g == old(game).secret)
                &&& close == (g == old(game).secret)
                &&& (g == old(game).secret ==> reply@ == spec_guess_reply(
                    Ordering::Equal,
                    final(game).guesses as int,
                    old(game).secret as int,
                ))
                &&& (g < old(game).secret ==> reply@ == spec_guess_reply(
                    Ordering::Less,
                    final(game).guesses as int,
                    old(game).secret as int,
                ))
                &&& (g > old(game).secret ==> reply@ == spec_guess_reply(
                    Ordering::Greater,
                    final(game).guesses as int,
                    old(game).secret as int,
                ))
            }
        }),
{
    match bytes_to_text(payload) {
        Option::None => GameStep::DecodeFailure,
        Option::Some(text) => {
            proof {
                vstd::utf8::encode_utf8_decode_utf8(text@);
            }
            match GuessingGame::parse_guess(text) {
                Option::None => GameStep::NotAGuess,
                Option::Some(g) => {
                    let played = game.guess(g);
                    let close = match played.0 {
                        Ordering::Equal => true,
                        Ordering::Less => false,
                        Ordering::Greater => false,
                    };
                    let reply = guess_reply(played.0, played.1, game.secret);
                    GameStep::Played { reply, close }
                },
            }
        },
    }
}

} // verus!
