//! Core logic of a desktop pet that reacts to `cargo clippy` runs: it
//! classifies the rendered diagnostic output into a quality tier, picks a
//! random response message for that tier from a configured message bank, and
//! derives the animation the front end should play.

pub mod command;
pub mod response;
