//! Supervision of a single long-lived worker process ("the sidecar"):
//! locating its executable, spawning at most one instance, relaying its
//! output line by line, and terminating it on request.
//!
//! The modules hold the decision logic only; the surrounding shell performs
//! the actual process and credential-store operations and feeds their
//! outcomes back in as plain values.

pub mod commands;
pub mod relay;
pub mod resolver;
pub mod secret;
pub mod store;
pub mod supervisor;
