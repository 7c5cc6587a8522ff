//! Resilient subscription core of a desktop notification listener.
//!
//! The crate holds the decisions of a client that subscribes to one topic of a
//! publish/subscribe broker and shows each distinct notification once: the set
//! of identifiers already shown, the decoding of a payload, the inactivity
//! watchdog, and the state machine that connects, polls and reconnects. It does
//! no I/O of its own: the program around it performs each command and reports
//! what happened as the next event.

pub mod config;
pub mod connection;
pub mod decoder;
pub mod dedup;
pub mod event;
pub mod json;
pub mod service;
pub mod sink;
pub mod watchdog;
