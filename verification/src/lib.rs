//! Client core for a session-cookie web portal: a login handshake that
//! trades credentials for a session cookie, and an authenticated read
//! that replays that cookie without repeating the handshake.
//!
//! The crate builds and interprets the HTTP exchanges; the transport
//! that carries them is the caller's.

pub mod auth;
pub mod http;
pub mod json;
pub mod session;
