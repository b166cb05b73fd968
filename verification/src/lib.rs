//! A coverage-guided fuzzing engine for graphical applications.
//!
//! The engine drives a target through synthetic UI actions, keeps a corpus of
//! the action sequences that reached new code or crashed the target, and
//! derives new sequences from the corpus by random mutation.
//!
//! The library decides and records; it performs nothing. Whoever uses it
//! spawns the target, sends the actions, runs the debugger and writes the
//! files, and hands the library what came of it.

pub mod action;
pub mod corpus;
pub mod dedup;
pub mod digest;
pub mod generator;
pub mod keyboard;
pub mod laws;
pub mod mutation;
pub mod persist;
pub mod rng;
pub mod statistics;
pub mod winbindings;
pub mod worker;

pub use action::{FuzzInput, FuzzerAction};
pub use mutation::mutate;
pub use rng::Rng;
pub use statistics::{CoverageKey, Statistics};
