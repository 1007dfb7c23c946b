//! Coordination core of a two-player turn-based game backend.
//!
//! Clients connect over a byte-stream or message-oriented transport, log in
//! under a unique name, are paired by a single-slot matchmaker, and then play
//! a simplified chess variant whose authoritative state lives in a per-match
//! state machine.  This crate holds the verified logic of that core: the wire
//! framing discipline, the per-connection session state machine, the
//! directory/matchmaker, and the match itself.  Transport I/O, actor wiring
//! and the textual encoding of messages live outside the library.

pub mod codec;
pub mod game;
pub mod message;
pub mod server;
pub mod session;
