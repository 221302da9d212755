//! One round: a bound, a secret number, and the answer to each guess.

use vstd::prelude::*;
use vstd::string::*;
use crate::chance::draw_secret;
use crate::number::{decimal, write_u32};
use crate::parser::{input_parser, invalid_message, parse_outcome, say_invalid, ParseOutcome};
use crate::text::trimmed;
use crate::transcript::Transcript;

verus! {

/// How a round goes on after a line of input.
#[derive(Clone, Copy, Debug, PartialEq, Eq, Structural)]
pub enum RoundSignal {
    /// The round waits for another guess.
    Continue,
    /// The secret number was guessed: the round is won.
    Won,
    /// The player typed `quit`: the round and the session are over.
    Quit,
}

/// A round in play. `secret` lies between 1 and `max`.
#[derive(Clone, Copy, Debug, PartialEq, Eq, Structural)]
pub struct Round {
    /// The largest number that may be guessed.
    pub max: u32,
    /// The number to find.
    pub secret: u32,
}

/// The lines that ask for a guess.
pub open spec fn guess_prompt() -> Seq<Seq<char>> {
    seq![""@, "Input your guess!"@]
}

/// The lines that open a round with bound `max`.
pub open spec fn opening_lines(max: u32) -> Seq<Seq<char>> {
    seq![""@, "Guess a number from 1 to "@ + decimal(max as nat) + "."@] + guess_prompt()
}

/// Whether `guess` may be compared with the secret number of a round with
/// bound `max`.
pub open spec fn in_range(max: u32, guess: u32) -> bool {
    1 <= guess <= max
}

/// How a round with bound `max` and secret number `secret` goes on after
/// `line`.
pub open spec fn guess_signal(max: u32, secret: u32, line: Seq<char>) -> RoundSignal {
    match parse_outcome(line) {
        ParseOutcome::Quit => RoundSignal::Quit,
        ParseOutcome::Invalid => RoundSignal::Continue,
        ParseOutcome::Number(guess) => if in_range(max, guess) && guess == secret {
            RoundSignal::Won
        } else {
            RoundSignal::Continue
        },
    }
}

/// The one line that answers `line` in a round with bound `max` and secret
/// number `secret`.
pub open spec fn guess_reply(max: u32, secret: u32, line: Seq<char>) -> Seq<char> {
    match parse_outcome(line) {
        ParseOutcome::Quit => "Goodbye!"@,
        ParseOutcome::Invalid => invalid_message(trimmed(line)),
        ParseOutcome::Number(guess) => if !in_range(max, guess) {
            invalid_message(decimal(guess as nat))
        } else if guess < secret {
            "Too small."@
        } else if guess > secret {
            "Too big."@
        } else {
            "You win!"@
        },
    }
}

/// The lines that `line` adds to the output of such a round: the reply, and
/// the prompt for the next guess where the round goes on.
pub open spec fn guess_lines(max: u32, secret: u32, line: Seq<char>) -> Seq<Seq<char>> {
    if guess_signal(max, secret, line) is Continue {
        seq![guess_reply(max, secret, line)] + guess_prompt()
    } else {
        seq![guess_reply(max, secret, line)]
    }
}

impl Round {
    /// Whether the secret number lies between 1 and the bound.
    pub open spec fn wf(&self) -> bool {
        1 <= self.secret <= self.max
    }

    /// A round with bound `max` and the given secret number, where that
    /// number lies between 1 and `max`; `None` where it does not.
    pub fn with_secret(max: u32, secret: u32) -> (round: Option<Round>)
        ensures
            round == if 1 <= secret <= max {
                Some(Round { max, secret })
            } else {
                None
            },
    {
        if 1 <= secret && secret <= max {
            Some(Round { max, secret })
        } else {
            None
        }
    }

    /// A round with bound `max` and a secret number drawn by chance.
    pub fn draw(max: u32) -> (round: Round)
        requires
            max >= 1,
        ensures
            round.max == max,
            round.wf(),
    {
        Round { max, secret: draw_secret(max) }
    }

    /// Adds to `out` the lines that open the round.
    pub fn announce(&self, out: &mut Transcript)
        ensures
            final(out)@ == old(out)@ + opening_lines(self.max),
    {
        let mut intro: String = String::from_str("Guess a number from 1 to ");
        let bound: String = write_u32(self.max);
        intro.append(bound.as_str());
        intro.append(".");
        out.say("");
        out.say_string(intro);
        out.say("");
        out.say("Input your guess!");
        assert(out@ =~= old(out)@ + opening_lines(self.max));
    }

    /// Answers one line of input. A number outside 1 to `max` is never
    /// compared with the secret number: it is refused, and the round asks
    /// again.
    pub fn guess(&self, line: &str, out: &mut Transcript) -> (signal: RoundSignal)
        ensures
            signal == guess_signal(self.max, self.secret, line@),
            final(out)@ == old(out)@ + guess_lines(self.max, self.secret, line@),
    {
        let signal: RoundSignal = match input_parser(line, out) {
            ParseOutcome::Quit => {
                out.say("Goodbye!");
                RoundSignal::Quit
            },
            ParseOutcome::Invalid => RoundSignal::Continue,
            ParseOutcome::Number(guess) => {
                if guess > self.max || guess < 1 {
                    let shown: String = write_u32(guess);
                    say_invalid(shown.as_str(), out);
                    RoundSignal::Continue
                } else if guess < self.secret {
                    out.say("Too small.");
                    RoundSignal::Continue
                } else if guess > self.secret {
                    out.say("Too big.");
                    RoundSignal::Continue
                } else {
                    out.say("You win!");
                    RoundSignal::Won
                }
            },
        };
        match signal {
            RoundSignal::Continue => {
                out.say("");
                out.say("Input your guess!");
            },
            _ => {},
        }
        assert(out@ =~= old(out)@ + guess_lines(self.max, self.secret, line@));
        signal
    }
}

/// A number outside 1 to `max` is never taken as a guess: whatever the
/// secret number, the round refuses it by name, asks for the next guess and
/// goes on.
pub proof fn lemma_out_of_range_is_refused(max: u32, secret: u32, line: Seq<char>, guess: u32)
    requires
        parse_outcome(line) == ParseOutcome::Number(guess),
        guess < 1 || guess > max,
    ensures
        guess_signal(max, secret, line) == RoundSignal::Continue,
        guess_lines(max, secret, line) == seq![invalid_message(decimal(guess as nat))]
            + guess_prompt(),
{
}

/// A round is won by no line but one that holds the secret number itself.
pub proof fn lemma_win_needs_the_secret(round: Round, line: Seq<char>)
    requires
        round.wf(),
    ensures
        guess_signal(round.max, round.secret, line) is Won <==> parse_outcome(line)
            == ParseOutcome::Number(round.secret),
{
}

} // verus!
