//! Progress tracking for a byte transfer that can be canceled from outside.
//!
//! A [`progress::Progress`] wraps the destination of a copy. Around every
//! write it looks at a cancellation flag, counts the bytes that the
//! destination accepted and publishes an [`item::Item`] on a latest-value
//! channel for any number of observers.

pub mod channel;
pub mod item;
pub mod model;
pub mod progress;
