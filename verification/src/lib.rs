//! Core of an authoritative match server for a two-player real-time
//! fighting game: geometry primitives, the per-player entity model, the
//! shared match state with server-side hit resolution, and the state
//! machines for connection admission and the per-session protocol.

pub mod animate;
pub mod entity;
pub mod game_match;
pub mod geometry;
pub mod session;
pub mod status;
