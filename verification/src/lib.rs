//! Runs a battle between two fighters in the game and names the winner.
//!
//! The decisions are here, each with its contract: which command line starts the
//! game, how the winner is read from the game's memory and when the reader gives
//! up, how the game is ended, which typed command runs what, and what the web and
//! terminal fronts answer. Starting programs, reading memory, sleeping and serving
//! requests are done by the program around this library, step by step as the
//! state machines here say.
use vstd::prelude::*;

pub mod cli;
pub mod error;
pub mod handlers;
pub mod messages;
pub mod service;
pub mod text;
pub mod win_reader;

verus! {
}
