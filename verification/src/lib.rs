//! A chat-driven workout tracker: each user's conversation advances through a
//! fixed sequence of dialog states, recording one timed cardio activity and
//! the distance the user reports at the end.
//!
//! The crate holds the per-user conversation state machine and its session
//! store; fetching and delivering chat messages is left to the caller.

pub mod clock;
pub mod handler;
pub mod laws;
pub mod model;
pub mod service;
pub mod text;
