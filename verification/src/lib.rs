//! A verified core for a minimal wake-on-LAN network agent.
//!
//! The agent joins a wireless network, repeatedly polls a remote HTTP
//! endpoint for a boolean "wake" signal, and, when the signal is set,
//! broadcasts a link-layer magic packet to a fixed target device and
//! reports completion.  This crate holds the agent's decisions: how the
//! response body is interpreted, what the magic packet contains, how an
//! access point is chosen from scan results, and which step follows each
//! outcome.  The surrounding process performs the network I/O and feeds
//! the outcomes back in as plain values.

pub mod agent;
pub mod body;
pub mod config;
pub mod packet;
pub mod wifi;
