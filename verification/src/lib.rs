//! Core of the Prism display compositor and its client-side library.
//!
//! The crate owns everything that can be stated and checked as pure logic:
//! the framed wire protocol and its codec, the window model, the display
//! server with its dirty-region render decisions, the per-connection health
//! and recovery state machine, and the client bringup. Socket I/O, threads,
//! signals and the GPU backend live outside, in the surrounding binary.

use vstd::prelude::*;

pub mod client;
pub mod codec;
pub mod colour;
pub mod connection;
pub mod display;
pub mod error;
pub mod geometry;
pub mod mouse;
pub mod packet;
pub mod prism;
pub mod render_ops;
pub mod render_rect;
pub mod server;
pub mod texture;
pub mod window;
pub mod wire;

verus! {

/// Width or height or coordinate in screen pixels; signed, since drag
/// arithmetic may pass through negative values.
pub type ScreenSize = i32;

/// Path of the local stream socket the compositor listens on.
pub const WINDOW_UNIX_SOCKET_NAME: &'static str = "/tmp/prism_comp";

/// Exact protocol revision; any mismatch is a hard reject.
pub const PROTOCOL_VERSION_MAJOR: u8 = 0;

/// Exact protocol revision; any mismatch is a hard reject.
pub const PROTOCOL_VERSION_MINOR: u8 = 0;

/// Exact protocol revision; any mismatch is a hard reject.
pub const PROTOCOL_VERSION_PATCH: u8 = 1;

} // verus!
