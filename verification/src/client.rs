//! Client-side connection state: the bringup handshake and the packet pump.
//!
//! The socket lives with the caller. The handshake is: connect, send
//! `Create`, expect `CreateSuccess`, send `RequestAPIVersion`, expect an
//! `APIVersion` equal to this library's protocol version; any mismatch or
//! out-of-order reply aborts the bringup.

use vstd::prelude::*;
use crate::ScreenSize;
use crate::packet::Packet;
use crate::{PROTOCOL_VERSION_MAJOR, PROTOCOL_VERSION_MINOR, PROTOCOL_VERSION_PATCH};

verus! {

/// The verdict on the server's reply to `RequestAPIVersion`.
#[derive(Debug, Clone, Copy, PartialEq, Eq, Structural)]
pub enum VersionCheck {
    /// Exactly this library's protocol version: the connection is up.
    Accept,
    /// A different version: the client must send `Close` with window
    /// identifier zero and fail the bringup.
    Mismatch,
    /// Not a version reply at all: a protocol violation; the client must
    /// drop the connection.
    Violation,
}

/// Per-connection client state.
pub struct Client {
    /// Set once the server has said `Closed`; no `Close` needs to be sent
    /// then.
    pub already_closed: bool,
    /// Window size as last told by the server.
    pub size: (ScreenSize, ScreenSize),
    /// Window position as last told by the server; unknown until the server
    /// first says.
    pub position: (ScreenSize, ScreenSize),
    /// The identifier the server assigned in `CreateSuccess`.
    pub window_id: u64,
}

impl Client {
    /// State right after connecting, before any reply: the requested size,
    /// no known position, no assigned identifier.
    pub fn new(width: ScreenSize, height: ScreenSize) -> (c: Client)
        ensures
            c == (Client {
                already_closed: false,
                size: (width, height),
                position: (-1int as i32, -1int as i32),
                window_id: 0,
            }),
    {
        Client { already_closed: false, size: (width, height), position: (-1, -1), window_id: 0 }
    }

    /// Handles the reply to `Create`: only `CreateSuccess` is in order, and
    /// it fixes the window identifier; anything else fails the bringup.
    pub fn on_create_reply(&mut self, packet: &Packet) -> (ok: bool)
        ensures
            match *packet {
                Packet::CreateSuccess { window_id } => ok && *final(self) == (Client {
                    window_id,
                    ..*old(self)
                }),
                _ => !ok && *final(self) == *old(self),
            },
    {
        match packet {
            Packet::CreateSuccess { window_id } => {
                self.window_id = *window_id;
                true
            },
            _ => false,
        }
    }

    /// Judges the reply to `RequestAPIVersion` by exact comparison with
    /// this library's protocol version.
    pub fn on_version_reply(packet: &Packet) -> (v: VersionCheck)
        ensures
            v == (match *packet {
                Packet::APIVersion { major, minor, patch } => if major == PROTOCOL_VERSION_MAJOR
                    && minor == PROTOCOL_VERSION_MINOR && patch == PROTOCOL_VERSION_PATCH {
                    VersionCheck::Accept
                } else {
                    VersionCheck::Mismatch
                },
                _ => VersionCheck::Violation,
            }),
    {
        match packet {
            Packet::APIVersion { major, minor, patch } => {
                if *major == PROTOCOL_VERSION_MAJOR && *minor == PROTOCOL_VERSION_MINOR && *patch
                    == PROTOCOL_VERSION_PATCH {
                    VersionCheck::Accept
                } else {
                    VersionCheck::Mismatch
                }
            },
            _ => VersionCheck::Violation,
        }
    }

    /// The packet a client sends when it walks away from a failed
    /// handshake: a close for window identifier zero.
    pub fn handshake_close_packet() -> (p: Packet)
        ensures
            p == (Packet::Close { window_id: 0 }),
    {
        Packet::Close { window_id: 0 }
    }

    /// Handles one received packet in the steady state. `Closed` marks the
    /// connection closed, `Resize` and `Position` update the cached
    /// geometry silently; the returned flag says whether the packet is for
    /// the user callback (`Resize` and `Position` are not).
    pub fn pump_step(&mut self, packet: &Packet) -> (deliver: bool)
        ensures
            match *packet {
                Packet::Resize { width, height } => !deliver && *final(self) == (Client {
                    size: (width, height),
                    ..*old(self)
                }),
                Packet::Position { x, y } => !deliver && *final(self) == (Client {
                    position: (x, y),
                    ..*old(self)
                }),
                Packet::Closed => deliver && *final(self) == (Client {
                    already_closed: true,
                    ..*old(self)
                }),
                _ => deliver && *final(self) == *old(self),
            },
    {
        match packet {
            Packet::Closed => {
                self.already_closed = true;
                true
            },
            Packet::Resize { width, height } => {
                self.size = (*width, *height);
                false
            },
            Packet::Position { x, y } => {
                self.position = (*x, *y);
                false
            },
            _ => true,
        }
    }

    /// Whether an orderly close still owes the server a `Close` packet.
    pub fn should_send_close(&self) -> (r: bool)
        ensures
            r == !self.already_closed,
    {
        !self.already_closed
    }

    /// The `Close` packet for this window.
    pub fn close_packet(&self) -> (p: Packet)
        ensures
            p == (Packet::Close { window_id: self.window_id }),
    {
        Packet::Close { window_id: self.window_id }
    }

    pub fn get_window_size(&self) -> (r: (ScreenSize, ScreenSize))
        ensures
            r == self.size,
    {
        self.size
    }

    pub fn get_window_position(&self) -> (r: (ScreenSize, ScreenSize))
        ensures
            r == self.position,
    {
        self.position
    }
}

} // verus!
