//! A single-player hangman session: the round logic, the session state
//! machine and the win/loss tally, with machine-checked contracts.

pub mod laws;
pub mod round;
pub mod session;
pub mod tally;
pub mod text;
pub mod words;

pub use round::{GameState, GuessOutcome, RoundStatus, RoundView};
pub use tally::{Tally, WinLoss};
pub use session::{Action, App, Command, HangmanState, Screen, SessionView};
pub use words::first_word;
