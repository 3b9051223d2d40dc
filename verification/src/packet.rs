//! The control messages exchanged on the wire between compositor and
//! clients, and the input types they carry.

use vstd::prelude::*;
use crate::ScreenSize;

verus! {

/// A mouse button as reported to clients.
#[derive(Debug, Clone, Copy, PartialEq, Eq, Structural)]
pub enum MouseButton {
    Left,
    Right,
    Middle,
    Other(u8),
}

/// Keyboard modifier state as reported to clients.
#[derive(Debug, Clone, Copy, PartialEq, Eq, Structural)]
pub struct Modifiers {
    pub shift: bool,
    pub ctrl: bool,
    pub alt: bool,
    pub logo: bool,
}

/// A key as reported to clients.
#[derive(Debug, Clone, Copy, PartialEq, Eq, Structural)]
pub enum KeyCode {
    Backspace,
    Tab,
    Enter,
    Escape,
    Space,
    Delete,
    Character(char),
    Function(u8),
}

/// One message on the wire. The first six variants travel from client to
/// compositor, the rest from compositor to client.
#[derive(Debug, Clone, PartialEq, Eq)]
pub enum Packet {
    Create { width: ScreenSize, height: ScreenSize, title: Option<String> },
    Close { window_id: u64 },
    Paint { window_id: u64, buffer: Vec<u8> },
    RequestAPIVersion,
    RequestWindowPosition { window_id: u64 },
    RequestWindowSize { window_id: u64 },
    CreateSuccess { window_id: u64 },
    Closed,
    MouseEnter,
    MouseLeave,
    MousePosition { x: ScreenSize, y: ScreenSize },
    MouseDown { button: MouseButton, x: ScreenSize, y: ScreenSize },
    MouseUp { button: MouseButton, x: ScreenSize, y: ScreenSize },
    KeyDown { key: KeyCode, modifiers: Modifiers },
    KeyUp { key: KeyCode, modifiers: Modifiers },
    Position { x: ScreenSize, y: ScreenSize },
    Size { width: ScreenSize, height: ScreenSize },
    Resize { width: ScreenSize, height: ScreenSize },
    Suspend,
    Resume,
    DemandPaint,
    APIVersion { major: u8, minor: u8, patch: u8 },
}

} // verus!
