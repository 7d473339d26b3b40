//! A real-time publish/subscribe broadcast hub for one process.
//!
//! Messages are published into a bounded [`channel`], which keeps the most
//! recent ones and numbers them as they come. Every subscriber reads the
//! channel through a cursor of its own, wrapped with its lifecycle in a
//! [`session`]. A subscriber that cannot keep up never holds the publisher
//! back: it loses the messages that fell out of the channel and is told how
//! many. The [`hub`] ties the channel to the [`registry`] of live sessions,
//! and [`config`] checks the settings a hub starts with. What a subscriber is
//! handed over time, for every order of publishes and reads, is stated and
//! proved in [`delivery`].
//!
//! The hub does no input or output. The program around it owns the
//! connections, runs each session's loop, and keeps the hub behind a lock.

pub mod channel;
pub mod config;
pub mod delivery;
pub mod hub;
pub mod message;
pub mod registry;
pub mod session;
