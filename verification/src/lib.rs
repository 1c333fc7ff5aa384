//! Readiness orchestration for a game launcher.
//!
//! The crate decides what a local installation still lacks before the game can
//! start, which action repairs it, how the components index is brought up to
//! date from a list of mirrors, in which order the start-up work runs, and how
//! the foreground model reacts to the messages that the workers send. It does
//! no input or output of its own: every function takes what was observed as a
//! plain value and answers with the next state and the work to be done.

pub mod text;
pub mod error;
pub mod state;
pub mod resolver;
pub mod dispatch;
pub mod sync;
pub mod message;
pub mod coordinator;
pub mod app;
