//! Core of a minimal HTTP CONNECT tunneling proxy.
//!
//! The library holds everything about a session that can be stated and
//! proved without touching the network: splitting the request line into
//! whitespace-delimited tokens, the per-session protocol state machine
//! (read, parse, dial, acknowledge, relay), the bookkeeping that shows the
//! relay forwards bytes unchanged and in order, and the listener's
//! decisions on bind and accept failures. A thin unverified driver owns
//! the sockets, performs the actions the machine asks for, and hands the
//! outcomes back as events.

pub mod decode;
pub mod listener;
pub mod parse;
pub mod relay;
pub mod session;
pub mod trace;
