//! Client library for controlling LG TVs over the IP Control protocol.
//!
//! The crate holds the protocol's own logic: the command vocabulary, the
//! framing and encryption of messages, the parsing of the TV's replies and
//! the decisions taken by the power procedures. The network transport is
//! driven by the caller, which hands replies back to the functions here.
pub mod constants;
pub mod encryption;
pub mod lg_tv;
pub mod power;
pub mod tcp_connection;
pub mod text;

pub use constants::types::{AppDetails, Apps, ConnectionType, PowerStates};
