//! Verified core of a serial servo-driver node.
//!
//! The node bridges a dataflow event bus to a chain of serially addressed
//! servo actuators.  This crate holds the decision logic: loading the motor
//! registry, rate-limiting repeated warnings, the connection verification
//! state machine, and mapping inbound events to bus transactions.  The
//! surrounding process performs the actual serial and event-bus I/O and
//! feeds the outcomes back in as plain values.

pub mod config;
pub mod controller;
pub mod display;
pub mod handlers;
pub mod logging;
pub mod motors;
pub mod text;
