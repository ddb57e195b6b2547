//! The decision core of Akagi, a mahjong assistant that plays a bot's moves in
//! a real game client.
//!
//! Everything in this crate is a decision: which button a screenshot shows,
//! whether a planned press is still wanted, when to press again, which update
//! may be installed, what an API request asks for. Reading the screen, pressing
//! the button and talking to the network belong to the program around it, which
//! hands plain values in and performs the actions that come back.
//!
//! Instants are `u64` counts of nanoseconds on one monotonic clock that starts
//! with the program (see [`clock`]). Two instants are the same moment exactly
//! when the counts are equal, so an instant doubles as the identity of the
//! decision window that opened at it.

pub mod autoplay;
pub mod cli;
pub mod clock;
pub mod events;
pub mod text;
pub mod updater;
pub mod web;
