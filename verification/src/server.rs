//! The compositor server's protocol-side decisions: the packet-handler
//! interface, the control messages of the service loop, and the
//! per-connection dispatch that answers version requests itself.
//!
//! The service loop, its sockets and its thread live with the caller; the
//! decisions they act on are made here.

use vstd::prelude::*;
use crate::error::UnixSocketError;
use crate::packet::Packet;
use crate::{PROTOCOL_VERSION_MAJOR, PROTOCOL_VERSION_MINOR, PROTOCOL_VERSION_PATCH};

verus! {

/// What the owner can ask of the running server.
#[derive(Debug, Clone, Copy, PartialEq, Eq, Structural)]
pub enum ControlMessage {
    Stop,
    Pause,
    Resume,
}

/// Recovery attempts granted to each connection.
pub const DEFAULT_MAX_RECOVERY_ATTEMPTS: u32 = 3;

/// A handler the server delegates client packets to; the default one is
/// [`crate::prism::Prism`]. On success it may hand back a reply for the
/// server to send.
pub trait PacketHandler {
    fn handle_packet(&mut self, window_id: u64, packet: Packet) -> Result<
        Option<Packet>,
        UnixSocketError,
    >;
}

/// The compositor server: a packet handler plus its recovery policy.
pub struct CompositorServer<H: PacketHandler> {
    pub max_recovery_attempts: u32,
    pub packet_handler: H,
}

/// One step of the service loop's control handling: `Stop` ends the loop,
/// `Pause` and `Resume` toggle whether connections are serviced, and no
/// message changes nothing. Returns the new paused state and whether to
/// stop.
pub fn apply_control(paused: bool, msg: Option<ControlMessage>) -> (r: (bool, bool))
    ensures
        r.1 == (msg == Some(ControlMessage::Stop)),
        r.0 == (match msg {
            Some(ControlMessage::Pause) => true,
            Some(ControlMessage::Resume) => false,
            _ => paused,
        }),
{
    match msg {
        Some(ControlMessage::Stop) => (paused, true),
        Some(ControlMessage::Pause) => (true, false),
        Some(ControlMessage::Resume) => (false, false),
        None => (paused, false),
    }
}

impl<H: PacketHandler> CompositorServer<H> {
    pub fn new(packet_handler: H) -> (s: Self)
        ensures
            s.max_recovery_attempts == DEFAULT_MAX_RECOVERY_ATTEMPTS,
            s.packet_handler == packet_handler,
    {
        Self { max_recovery_attempts: DEFAULT_MAX_RECOVERY_ATTEMPTS, packet_handler }
    }

    /// Dispatches one received packet. A version request is answered right
    /// here with the exact protocol version and never reaches the handler;
    /// everything else goes to the handler, whose optional reply is passed
    /// through.
    pub fn dispatch_packet(&mut self, window_id: u64, packet: Packet) -> (r: Result<
        Option<Packet>,
        UnixSocketError,
    >)
        ensures
            (packet matches Packet::RequestAPIVersion) ==> {
                &&& r == Ok::<Option<Packet>, UnixSocketError>(
                    Some(
                        Packet::APIVersion {
                            major: PROTOCOL_VERSION_MAJOR,
                            minor: PROTOCOL_VERSION_MINOR,
                            patch: PROTOCOL_VERSION_PATCH,
                        },
                    ),
                )
                &&& final(self).packet_handler == old(self).packet_handler
            },
            final(self).max_recovery_attempts == old(self).max_recovery_attempts,
    {
        match packet {
            Packet::RequestAPIVersion => Ok(
                Some(
                    Packet::APIVersion {
                        major: PROTOCOL_VERSION_MAJOR,
                        minor: PROTOCOL_VERSION_MINOR,
                        patch: PROTOCOL_VERSION_PATCH,
                    },
                ),
            ),
            _ => self.packet_handler.handle_packet(window_id, packet),
        }
    }
}

} // verus!
