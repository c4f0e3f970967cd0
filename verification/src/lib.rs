//! Timed moderation for a social network.
//!
//! An owner places a temporary mute on a target account or keyword; the mute
//! is reversed automatically once a caller-chosen duration elapses.  This
//! crate holds the verified lifecycle engine: the entry model with its
//! `Pending` / `Resolved` / `Cancelled` status machine, the store of timed
//! entries, the creation and cancellation flows, and the periodic sweep that
//! finds expired entries, groups them per owner and marks the reversed ones
//! resolved.  Network transport, persistence and the moderation provider's
//! protocol live outside the library; the engine hands them plain values and
//! takes plain values back.

pub mod errors;
pub mod lifecycle;
pub mod models;
pub mod prefs;
pub mod profile;
pub mod resolver;
pub mod store;
