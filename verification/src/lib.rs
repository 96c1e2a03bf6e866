//! Control core for a network-commanded buzzer.
//!
//! The library holds the logic of a small firmware: a tone encoder that turns
//! a frequency and duration into a square-wave pulse sequence, the activation
//! state that a command channel writes and a periodic scheduler reads, the
//! framed command protocol itself, and a guessing-game command parser used by
//! a second control endpoint. Hardware transmission and network transport
//! stay outside; the library hands them plain values.

pub mod activation;
pub mod channel;
pub mod errors;
pub mod game;
pub mod scheduler;
pub mod sessions;
pub mod text;
pub mod tone;
