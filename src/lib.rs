//! An append-only guestbook: a single ordered log of messages, each stamped with its
//! sender and the host time at which it was added.
//!
//! The host environment supplies authentication, the clock and persistent storage;
//! this crate holds the rules of the log itself. `store` is the log and its two
//! operations, `laws` states what holds across sequences of calls.
pub mod laws;
pub mod store;
