//! Reading one line of input: a number, the word `quit`, or neither.

use vstd::prelude::*;
use vstd::string::*;
use crate::number::{parse_u32, read_u32};
use crate::text::{same_text, trim, trimmed};
use crate::transcript::Transcript;

verus! {

/// What a line of input turned out to be.
#[derive(Clone, Copy, Debug, PartialEq, Eq, Structural)]
pub enum ParseOutcome {
    /// The line holds this number.
    Number(u32),
    /// The line holds the word `quit`.
    Quit,
    /// The line holds neither.
    Invalid,
}

/// What `line` is, once the whitespace at its ends is cut. The word `quit`
/// is matched in lower case only: `Quit` and `QUIT` are invalid input.
pub open spec fn parse_outcome(line: Seq<char>) -> ParseOutcome {
    let t = trimmed(line);
    if t == "quit"@ {
        ParseOutcome::Quit
    } else {
        match parse_u32(t) {
            Some(n) => ParseOutcome::Number(n),
            None => ParseOutcome::Invalid,
        }
    }
}

/// The complaint about input `shown` that is no acceptable number.
pub open spec fn invalid_message(shown: Seq<char>) -> Seq<char> {
    "Invalid number: "@ + shown
}

/// The lines that reading `line` adds to the output: one complaint that
/// quotes the trimmed text where the line is invalid, none otherwise.
pub open spec fn parse_lines(line: Seq<char>) -> Seq<Seq<char>> {
    if parse_outcome(line) is Invalid {
        seq![invalid_message(trimmed(line))]
    } else {
        Seq::empty()
    }
}

/// Adds to `out` the complaint about `shown`.
pub fn say_invalid(shown: &str, out: &mut Transcript)
    ensures
        final(out)@ == old(out)@.push(invalid_message(shown@)),
{
    let mut message: String = String::from_str("Invalid number: ");
    message.append(shown);
    out.say_string(message);
}

/// Reads one line of input. An invalid line adds its complaint to `out`;
/// a number or the word `quit` adds nothing.
pub fn input_parser(input: &str, out: &mut Transcript) -> (outcome: ParseOutcome)
    ensures
        outcome == parse_outcome(input@),
        final(out)@ == old(out)@ + parse_lines(input@),
{
    let t: &str = trim(input);
    if same_text(t, "quit") {
        assert(out@ =~= old(out)@ + parse_lines(input@));
        return ParseOutcome::Quit;
    }
    match read_u32(t) {
        Some(n) => {
            assert(out@ =~= old(out)@ + parse_lines(input@));
            ParseOutcome::Number(n)
        },
        None => {
            say_invalid(t, out);
            assert(out@ =~= old(out)@ + parse_lines(input@));
            ParseOutcome::Invalid
        },
    }
}

/// The word `quit` is no number.
pub proof fn lemma_quit_is_no_number()
    ensures
        parse_u32("quit"@) is None,
{
    reveal_strlit("quit");
    let d = crate::number::unsigned_digits("quit"@);
    assert(d[0] == 'q');
    assert(!crate::number::is_digit(d[0]));
}

/// A line whose trimmed text is exactly `quit` is the quit signal, and
/// nothing is printed for it.
pub proof fn lemma_quit_word_quits(line: Seq<char>)
    requires
        trimmed(line) == "quit"@,
    ensures
        parse_outcome(line) == ParseOutcome::Quit,
        parse_lines(line) == Seq::<Seq<char>>::empty(),
{
}

/// A line whose trimmed text reads as the number `n` yields `n`, and
/// nothing is printed for it.
pub proof fn lemma_number_is_accepted(line: Seq<char>, n: u32)
    requires
        parse_u32(trimmed(line)) == Some(n),
    ensures
        parse_outcome(line) == ParseOutcome::Number(n),
        parse_lines(line) == Seq::<Seq<char>>::empty(),
{
    lemma_quit_is_no_number();
}

/// Any other line is invalid, and exactly one line is printed for it: the
/// complaint that quotes the trimmed text.
pub proof fn lemma_other_input_is_invalid(line: Seq<char>)
    requires
        trimmed(line) != "quit"@,
        parse_u32(trimmed(line)) is None,
    ensures
        parse_outcome(line) == ParseOutcome::Invalid,
        parse_lines(line) == seq![invalid_message(trimmed(line))],
        parse_lines(line).len() == 1,
{
}

} // verus!
