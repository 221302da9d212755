//! A terminal number-guessing game, as a library of verified decisions.
//!
//! The player names an upper bound, the game picks a secret number between 1
//! and that bound, and the player guesses until the number is found or the
//! word `quit` is typed. Every function here takes the text that was read and
//! appends the lines to print to a transcript; reading and printing are left
//! to the caller.

pub mod text;
pub mod number;
pub mod transcript;
pub mod parser;
pub mod chance;
pub mod round;
pub mod session;
