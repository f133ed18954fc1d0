//! Verified core of a Hindi (Kruti Dev) typing-practice program: the test
//! durations, the splitting of typed text into words, the per-word scoring,
//! the page layout of the target text and the state machine that reacts to
//! the user's actions.

pub mod models;
pub mod text;
pub mod stats;
pub mod sys;
pub mod draw;
pub mod session;
pub mod layout;
pub mod laws;
