//! A single-shot relay that moves one bounded chunk of bytes from an inbound
//! byte channel to an outbound one and reports a typed outcome.
//!
//! The relay's decisions live in [`Relay`], a state machine that tells its
//! driver which channel operation to perform next and takes back what the
//! operation produced. The driver owns the channels and performs the I/O.
//! [`session`] models whole runs and states what every run does.
pub mod outcome;
pub mod relay;
pub mod session;
mod text;

pub use outcome::Outcome;
pub use relay::{fill_buffer, Action, Endpoint, Event, Phase, Relay, CAPACITY};
