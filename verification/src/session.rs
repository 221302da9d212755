//! The session: rounds one after another, until the player leaves.

use vstd::prelude::*;
use vstd::string::*;
use crate::parser::{input_parser, parse_lines, parse_outcome, ParseOutcome};
use crate::round::{guess_lines, guess_signal, opening_lines, Round, RoundSignal};
use crate::text::{same_text, trim, trimmed};
use crate::transcript::Transcript;

verus! {

/// What the session waits for.
#[derive(Clone, Copy, Debug, PartialEq, Eq, Structural)]
pub enum Phase {
    /// A line that names the bound of the next round.
    AwaitingMax,
    /// A secret number for a round with this bound, which was accepted.
    Drawing(u32),
    /// A guess in this round.
    Guessing(Round),
    /// The answer to whether another round is wanted, after a win.
    AwaitingReplay,
    /// Nothing: the session is over.
    Ended,
}

/// A session of the game.
#[derive(Clone, Copy, Debug, PartialEq, Eq, Structural)]
pub struct Session {
    /// What the session waits for.
    pub phase: Phase,
}

/// The lines that ask for a bound.
pub open spec fn max_prompt() -> Seq<Seq<char>> {
    seq![""@, "What is the max value to guess?"@]
}

/// The lines that a session opens with.
pub open spec fn welcome_lines() -> Seq<Seq<char>> {
    seq![""@, "Welcome to the guessing game."@, "Type \"quit\" at any time to quit."@]
        + max_prompt()
}

/// The lines that ask whether another round is wanted.
pub open spec fn replay_prompt() -> Seq<Seq<char>> {
    seq![""@, "Enter \"y\" to play again."@]
}

/// Whether `line` asks for another round: its trimmed text is exactly `y`,
/// in lower case.
pub open spec fn wants_replay(line: Seq<char>) -> bool {
    trimmed(line) == "y"@
}

/// Whether a bound was accepted only if it is at least 1, and a round in
/// play has its secret number within its bound.
pub open spec fn phase_wf(phase: Phase) -> bool {
    match phase {
        Phase::Drawing(max) => max >= 1,
        Phase::Guessing(round) => round.wf(),
        _ => true,
    }
}

/// The phase that follows `phase` when `line` is read. While a secret number
/// is owed, and after the end, a line changes nothing.
pub open spec fn after_line(phase: Phase, line: Seq<char>) -> Phase {
    match phase {
        Phase::AwaitingMax => match parse_outcome(line) {
            ParseOutcome::Quit => Phase::Ended,
            ParseOutcome::Invalid => Phase::AwaitingMax,
            ParseOutcome::Number(max) => if max < 1 {
                Phase::AwaitingMax
            } else {
                Phase::Drawing(max)
            },
        },
        Phase::Guessing(round) => match guess_signal(round.max, round.secret, line) {
            RoundSignal::Continue => Phase::Guessing(round),
            RoundSignal::Won => Phase::AwaitingReplay,
            RoundSignal::Quit => Phase::Ended,
        },
        Phase::AwaitingReplay => if wants_replay(line) {
            Phase::AwaitingMax
        } else {
            Phase::Ended
        },
        Phase::Drawing(max) => Phase::Drawing(max),
        Phase::Ended => Phase::Ended,
    }
}

/// The lines that reading `line` in `phase` adds to the output.
pub open spec fn line_output(phase: Phase, line: Seq<char>) -> Seq<Seq<char>> {
    match phase {
        Phase::AwaitingMax => match parse_outcome(line) {
            ParseOutcome::Quit => seq!["Goodbye!"@],
            ParseOutcome::Invalid => parse_lines(line) + seq![""@] + max_prompt(),
            ParseOutcome::Number(max) => if max < 1 {
                seq!["Value must be greater than zero."@] + max_prompt()
            } else {
                Seq::empty()
            },
        },
        Phase::Guessing(round) => if guess_signal(round.max, round.secret, line) is Won {
            guess_lines(round.max, round.secret, line) + replay_prompt()
        } else {
            guess_lines(round.max, round.secret, line)
        },
        Phase::AwaitingReplay => if wants_replay(line) {
            max_prompt()
        } else {
            seq!["At least you're leaving a winner."@]
        },
        Phase::Drawing(_) => Seq::empty(),
        Phase::Ended => Seq::empty(),
    }
}

/// The lines that open the round which `phase` owes a secret number to; none
/// where it owes none.
pub open spec fn round_opening(phase: Phase) -> Seq<Seq<char>> {
    match phase {
        Phase::Drawing(max) => opening_lines(max),
        _ => Seq::empty(),
    }
}

/// Whether `next` is `phase` with every owed secret number drawn: the same
/// phase, or for an accepted bound a round with that bound and a secret
/// number within it.
pub open spec fn settles(phase: Phase, next: Phase) -> bool {
    match phase {
        Phase::Drawing(max) => next matches Phase::Guessing(round) && round.max == max
            && round.wf(),
        _ => next == phase,
    }
}

/// Adds the two lines that ask for a bound.
fn ask_max(out: &mut Transcript)
    ensures
        final(out)@ == old(out)@ + max_prompt(),
{
    out.say("");
    out.say("What is the max value to guess?");
    assert(out@ =~= old(out)@ + max_prompt());
}

impl Session {
    /// Whether the session's phase is well formed.
    pub open spec fn wf(&self) -> bool {
        phase_wf(self.phase)
    }

    /// Opens a session: greets the player and asks for the first bound.
    pub fn open(out: &mut Transcript) -> (session: Session)
        ensures
            session.phase == Phase::AwaitingMax,
            final(out)@ == old(out)@ + welcome_lines(),
    {
        out.say("");
        out.say("Welcome to the guessing game.");
        out.say("Type \"quit\" at any time to quit.");
        ask_max(out);
        assert(out@ =~= old(out)@ + welcome_lines());
        Session { phase: Phase::AwaitingMax }
    }

    /// Whether the session's phase is well formed.
    pub fn is_well_formed(&self) -> (ok: bool)
        ensures
            ok == self.wf(),
    {
        match self.phase {
            Phase::Drawing(max) => max >= 1,
            Phase::Guessing(round) => 1 <= round.secret && round.secret <= round.max,
            _ => true,
        }
    }

    /// Whether the session is over.
    pub fn is_over(&self) -> (over: bool)
        ensures
            over == (self.phase is Ended),
    {
        match self.phase {
            Phase::Ended => true,
            _ => false,
        }
    }

    /// Takes one line of input, and adds to `out` what is to be printed for
    /// it. A bound of at least 1 leaves the session owing a secret number.
    pub fn enter_line(&mut self, line: &str, out: &mut Transcript)
        ensures
            final(self).phase == after_line(old(self).phase, line@),
            final(out)@ == old(out)@ + line_output(old(self).phase, line@),
            old(self).wf() ==> final(self).wf(),
    {
        match self.phase {
            Phase::AwaitingMax => {
                match input_parser(line, out) {
                    ParseOutcome::Quit => {
                        out.say("Goodbye!");
                        self.phase = Phase::Ended;
                    },
                    ParseOutcome::Invalid => {
                        out.say("");
                        ask_max(out);
                    },
                    ParseOutcome::Number(max) => {
                        if max < 1 {
                            out.say("Value must be greater than zero.");
                            ask_max(out);
                        } else {
                            self.phase = Phase::Drawing(max);
                        }
                    },
                }
            },
            Phase::Guessing(round) => {
                match round.guess(line, out) {
                    RoundSignal::Continue => {},
                    RoundSignal::Won => {
                        out.say("");
                        out.say("Enter \"y\" to play again.");
                        self.phase = Phase::AwaitingReplay;
                    },
                    RoundSignal::Quit => {
                        self.phase = Phase::Ended;
                    },
                }
            },
            Phase::AwaitingReplay => {
                if same_text(trim(line), "y") {
                    ask_max(out);
                    self.phase = Phase::AwaitingMax;
                } else {
                    out.say("At least you're leaving a winner.");
                    self.phase = Phase::Ended;
                }
            },
            Phase::Drawing(_) => {},
            Phase::Ended => {},
        }
        assert(out@ =~= old(out)@ + line_output(old(self).phase, line@));
    }

    /// Starts the round that is owed with the given secret number, and adds
    /// the round's opening lines to `out`. Returns whether it did: it does
    /// nothing unless a secret number is owed and `secret` lies between 1
    /// and the accepted bound.
    pub fn begin_round_with(&mut self, secret: u32, out: &mut Transcript) -> (started: bool)
        ensures
            started == (old(self).phase matches Phase::Drawing(max) && 1 <= secret <= max),
            started ==> final(self).phase == Phase::Guessing(
                Round { max: old(self).phase->Drawing_0, secret },
            ) && final(out)@ == old(out)@ + round_opening(old(self).phase),
            !started ==> *final(self) == *old(self) && final(out)@ == old(out)@,
    {
        match self.phase {
            Phase::Drawing(max) => {
                match Round::with_secret(max, secret) {
                    Some(round) => {
                        round.announce(out);
                        self.phase = Phase::Guessing(round);
                        true
                    },
                    None => false,
                }
            },
            _ => false,
        }
    }

    /// Starts the round that is owed, if one is, with a secret number drawn
    /// by chance, and adds the round's opening lines to `out`.
    pub fn begin_round(&mut self, out: &mut Transcript)
        requires
            old(self).wf(),
        ensures
            settles(old(self).phase, final(self).phase),
            final(out)@ == old(out)@ + round_opening(old(self).phase),
            final(self).wf(),
    {
        match self.phase {
            Phase::Drawing(max) => {
                let round: Round = Round::draw(max);
                round.announce(out);
                self.phase = Phase::Guessing(round);
            },
            _ => {
                assert(out@ =~= old(out)@ + round_opening(old(self).phase));
            },
        }
    }

    /// Takes one line of input and, where it names an acceptable bound,
    /// starts the round at once with a secret number drawn by chance.
    pub fn step(&mut self, line: &str, out: &mut Transcript)
        requires
            old(self).wf(),
        ensures
            settles(after_line(old(self).phase, line@), final(self).phase),
            final(out)@ == old(out)@ + line_output(old(self).phase, line@) + round_opening(
                after_line(old(self).phase, line@),
            ),
            final(self).wf(),
    {
        self.enter_line(line, out);
        self.begin_round(out);
    }
}

/// Reading a line keeps the session well formed: no bound below 1 is ever
/// accepted, so no round starts on one.
pub proof fn lemma_line_keeps_wf(phase: Phase, line: Seq<char>)
    requires
        phase_wf(phase),
    ensures
        phase_wf(after_line(phase, line)),
{
}

/// A line that is no valid number leaves a round as it was, secret number
/// included, and is answered by its complaint and the prompt for the next
/// guess.
pub proof fn lemma_invalid_guess_keeps_round(round: Round, line: Seq<char>)
    requires
        parse_outcome(line) == ParseOutcome::Invalid,
    ensures
        after_line(Phase::Guessing(round), line) == Phase::Guessing(round),
        line_output(Phase::Guessing(round), line) == parse_lines(line)
            + crate::round::guess_prompt(),
{
    assert(line_output(Phase::Guessing(round), line) =~= parse_lines(line)
        + crate::round::guess_prompt());
}

/// No guess outside 1 to the bound ends or wins a round: the session stays
/// in the same round.
pub proof fn lemma_out_of_range_keeps_round(round: Round, line: Seq<char>, guess: u32)
    requires
        parse_outcome(line) == ParseOutcome::Number(guess),
        guess < 1 || guess > round.max,
    ensures
        after_line(Phase::Guessing(round), line) == Phase::Guessing(round),
{
}

} // verus!
