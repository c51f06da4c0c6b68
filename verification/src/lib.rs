//! Verified core of a binding layer over a gaming platform's inventory
//! subsystem.
//!
//! The platform itself is a collaborator that lives outside this crate: it is
//! handed in as a capability (a closure) or its answers are handed in as plain
//! values. What is proved here is everything that happens around those
//! answers: error translation, item projection, argument validation, and the
//! state machine that turns a stream of completion events into one result.

pub mod bridge;
pub mod error;
pub mod inventory;
pub mod item;
