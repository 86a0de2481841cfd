//! Core of a publish-subscribe interoperability client: QoS construction from
//! command-line selections, a bounded motion model for the synthetic shape
//! samples, and the state machine of the dual-channel event loop that drives
//! a publisher or a subscriber role.
//!
//! The middleware itself (participants, topics, readers, writers) and the
//! operating-system readiness polling are collaborators outside this crate;
//! the functions here take their observations as plain values and decide what
//! the roles do with them.

pub mod channel;
pub mod event_loop;
pub mod motion;
pub mod parse;
pub mod qos;
