//! A turn-based pursuit puzzle on a character grid: Theseus walks toward the
//! goal while the Minotaur closes in, one greedy step per turn.
//!
//! * [`text`] splits a board text into rows.
//! * [`markers`] finds the three markers on the rows, or says what is wrong.
//! * [`grid`] holds the rows and moves symbols on them.
//! * [`state`] says, over plain values, what a turn does and how a game stands.
//! * [`game`] is the engine itself.
//! * [`laws`] proves what holds of every game.

pub mod error;
pub mod game;
pub mod grid;
pub mod laws;
pub mod markers;
pub mod state;
pub mod text;

pub use error::BoardError;
pub use game::{input, Game};
pub use grid::Grid;
pub use state::{Command, GameStatus};
