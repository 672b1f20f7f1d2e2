//! Core of a terminal typing-practice game.
//!
//! The player is shown a target phrase (mixing Latin and Japanese script),
//! types it character by character, and is scored on throughput within a
//! fixed time budget. This crate holds the verified game logic: the session
//! state machine (screen transitions, phrase cycling, scoring, time-box
//! enforcement) and the input matcher (longest-correct-prefix computation,
//! indexed by Unicode scalar value, never by byte). Terminal setup, frame
//! rendering and key-event polling live outside this crate; they hand in
//! discrete events and read back a snapshot of the state once per frame.

pub mod matcher;
pub mod session;
