//! The packet codec: a tagged-variant binary encoding of [`Packet`] and the
//! length-prefixed framing around it.
//!
//! Every packet has exactly one encoding, stated by [`spec_encode`]; the
//! decoder is stated by [`spec_decode`] and accepts exactly one packet per
//! well-formed payload, rejecting trailing bytes. [`lemma_encode_decode`]
//! proves that decoding an encoding yields the original packet, for every
//! variant.

use vstd::prelude::*;
use vstd::utf8::encode_utf8;
use vstd::bytes::{lemma_auto_spec_u32_to_from_le_bytes, lemma_auto_spec_u64_to_from_le_bytes};
use crate::packet::{KeyCode, Modifiers, MouseButton, Packet};
use crate::wire::{
    enc_bool,
    enc_bytes,
    enc_char,
    enc_i32,
    enc_str,
    enc_u32,
    enc_u64,
    enc_u8,
    lemma_parse_bool,
    lemma_parse_bytes,
    lemma_parse_char,
    lemma_parse_i32,
    lemma_parse_str,
    lemma_parse_u32,
    lemma_parse_u64,
    lemma_parse_u8,
    p_u32,
    read_u32,
    write_u32,
    p_bool,
    p_bytes,
    p_char,
    p_i32,
    p_str,
    p_u64,
    p_u8,
    read_bool,
    read_bytes,
    read_char,
    read_i32,
    read_str,
    read_u64,
    read_u8,
    write_bool,
    write_bytes,
    write_char,
    write_i32,
    write_str,
    write_u64,
    write_u8,
};

verus! {

/// The ghost mirror of [`Packet`]: the same variants over mathematical
/// sequences, which the codec contracts are stated over.
pub enum PacketModel {
    Create { width: i32, height: i32, title: Option<Seq<char>> },
    Close { window_id: u64 },
    Paint { window_id: u64, buffer: Seq<u8> },
    RequestAPIVersion,
    RequestWindowPosition { window_id: u64 },
    RequestWindowSize { window_id: u64 },
    CreateSuccess { window_id: u64 },
    Closed,
    MouseEnter,
    MouseLeave,
    MousePosition { x: i32, y: i32 },
    MouseDown { button: MouseButton, x: i32, y: i32 },
    MouseUp { button: MouseButton, x: i32, y: i32 },
    KeyDown { key: KeyCode, modifiers: Modifiers },
    KeyUp { key: KeyCode, modifiers: Modifiers },
    Position { x: i32, y: i32 },
    Size { width: i32, height: i32 },
    Resize { width: i32, height: i32 },
    Suspend,
    Resume,
    DemandPaint,
    APIVersion { major: u8, minor: u8, patch: u8 },
}

/// The view of an optional title.
pub open spec fn opt_str_view(t: Option<String>) -> Option<Seq<char>> {
    match t {
        Some(s) => Some(s@),
        None => None,
    }
}

impl View for Packet {
    type V = PacketModel;

    open spec fn view(&self) -> PacketModel {
        match *self {
            Packet::Create { width, height, title } => PacketModel::Create {
                width,
                height,
                title: opt_str_view(title),
            },
            Packet::Close { window_id } => PacketModel::Close { window_id },
            Packet::Paint { window_id, buffer } => PacketModel::Paint {
                window_id,
                buffer: buffer@,
            },
            Packet::RequestAPIVersion => PacketModel::RequestAPIVersion,
            Packet::RequestWindowPosition { window_id } => PacketModel::RequestWindowPosition {
                window_id,
            },
            Packet::RequestWindowSize { window_id } => PacketModel::RequestWindowSize {
                window_id,
            },
            Packet::CreateSuccess { window_id } => PacketModel::CreateSuccess { window_id },
            Packet::Closed => PacketModel::Closed,
            Packet::MouseEnter => PacketModel::MouseEnter,
            Packet::MouseLeave => PacketModel::MouseLeave,
            Packet::MousePosition { x, y } => PacketModel::MousePosition { x, y },
            Packet::MouseDown { button, x, y } => PacketModel::MouseDown { button, x, y },
            Packet::MouseUp { button, x, y } => PacketModel::MouseUp { button, x, y },
            Packet::KeyDown { key, modifiers } => PacketModel::KeyDown { key, modifiers },
            Packet::KeyUp { key, modifiers } => PacketModel::KeyUp { key, modifiers },
            Packet::Position { x, y } => PacketModel::Position { x, y },
            Packet::Size { width, height } => PacketModel::Size { width, height },
            Packet::Resize { width, height } => PacketModel::Resize { width, height },
            Packet::Suspend => PacketModel::Suspend,
            Packet::Resume => PacketModel::Resume,
            Packet::DemandPaint => PacketModel::DemandPaint,
            Packet::APIVersion { major, minor, patch } => PacketModel::APIVersion {
                major,
                minor,
                patch,
            },
        }
    }
}

// ---------------------------------------------------------------------------
// Sub-value encodings.
// ---------------------------------------------------------------------------
pub open spec fn enc_opt_str(t: Option<Seq<char>>) -> Seq<u8> {
    match t {
        None => seq![0u8],
        Some(s) => seq![1u8] + enc_str(s),
    }
}

pub open spec fn enc_button(b: MouseButton) -> Seq<u8> {
    match b {
        MouseButton::Left => seq![0u8],
        MouseButton::Right => seq![1u8],
        MouseButton::Middle => seq![2u8],
        MouseButton::Other(c) => seq![3u8, c],
    }
}

pub open spec fn enc_key(k: KeyCode) -> Seq<u8> {
    match k {
        KeyCode::Backspace => seq![0u8],
        KeyCode::Tab => seq![1u8],
        KeyCode::Enter => seq![2u8],
        KeyCode::Escape => seq![3u8],
        KeyCode::Space => seq![4u8],
        KeyCode::Delete => seq![5u8],
        KeyCode::Character(c) => seq![6u8] + enc_char(c),
        KeyCode::Function(n) => seq![7u8, n],
    }
}

pub open spec fn enc_mods(m: Modifiers) -> Seq<u8> {
    enc_bool(m.shift) + enc_bool(m.ctrl) + enc_bool(m.alt) + enc_bool(m.logo)
}

pub open spec fn p_opt_str(s: Seq<u8>, i: int) -> Option<(Option<Seq<char>>, int)> {
    match p_u8(s, i) {
        Some((v, j)) => if v == 0 {
            Some((None, j))
        } else if v == 1 {
            match p_str(s, j) {
                Some((t, k)) => Some((Some(t), k)),
                None => None,
            }
        } else {
            None
        },
        None => None,
    }
}

pub open spec fn p_button(s: Seq<u8>, i: int) -> Option<(MouseButton, int)> {
    match p_u8(s, i) {
        Some((v, j)) => if v == 0 {
            Some((MouseButton::Left, j))
        } else if v == 1 {
            Some((MouseButton::Right, j))
        } else if v == 2 {
            Some((MouseButton::Middle, j))
        } else if v == 3 {
            match p_u8(s, j) {
                Some((c, k)) => Some((MouseButton::Other(c), k)),
                None => None,
            }
        } else {
            None
        },
        None => None,
    }
}

pub open spec fn p_key(s: Seq<u8>, i: int) -> Option<(KeyCode, int)> {
    match p_u8(s, i) {
        Some((v, j)) => if v == 0 {
            Some((KeyCode::Backspace, j))
        } else if v == 1 {
            Some((KeyCode::Tab, j))
        } else if v == 2 {
            Some((KeyCode::Enter, j))
        } else if v == 3 {
            Some((KeyCode::Escape, j))
        } else if v == 4 {
            Some((KeyCode::Space, j))
        } else if v == 5 {
            Some((KeyCode::Delete, j))
        } else if v == 6 {
            match p_char(s, j) {
                Some((c, k)) => Some((KeyCode::Character(c), k)),
                None => None,
            }
        } else if v == 7 {
            match p_u8(s, j) {
                Some((n, k)) => Some((KeyCode::Function(n), k)),
                None => None,
            }
        } else {
            None
        },
        None => None,
    }
}

pub open spec fn p_mods(s: Seq<u8>, i: int) -> Option<(Modifiers, int)> {
    match p_bool(s, i) {
        Some((shift, j)) => match p_bool(s, j) {
            Some((ctrl, k)) => match p_bool(s, k) {
                Some((alt, l)) => match p_bool(s, l) {
                    Some((logo, m)) => Some((Modifiers { shift, ctrl, alt, logo }, m)),
                    None => None,
                },
                None => None,
            },
            None => None,
        },
        None => None,
    }
}

// ---------------------------------------------------------------------------
// The packet encoding: one tag byte, then the variant's fields in order.
// ---------------------------------------------------------------------------
pub open spec fn spec_encode(m: PacketModel) -> Seq<u8> {
    match m {
        PacketModel::Create { width, height, title } => seq![0u8] + enc_i32(width) + enc_i32(
            height,
        ) + enc_opt_str(title),
        PacketModel::Close { window_id } => seq![1u8] + enc_u64(window_id),
        PacketModel::Paint { window_id, buffer } => seq![2u8] + enc_u64(window_id) + enc_bytes(
            buffer,
        ),
        PacketModel::RequestAPIVersion => seq![3u8],
        PacketModel::RequestWindowPosition { window_id } => seq![4u8] + enc_u64(window_id),
        PacketModel::RequestWindowSize { window_id } => seq![5u8] + enc_u64(window_id),
        PacketModel::CreateSuccess { window_id } => seq![6u8] + enc_u64(window_id),
        PacketModel::Closed => seq![7u8],
        PacketModel::MouseEnter => seq![8u8],
        PacketModel::MouseLeave => seq![9u8],
        PacketModel::MousePosition { x, y } => seq![10u8] + enc_i32(x) + enc_i32(y),
        PacketModel::MouseDown { button, x, y } => seq![11u8] + enc_button(button) + enc_i32(x)
            + enc_i32(y),
        PacketModel::MouseUp { button, x, y } => seq![12u8] + enc_button(button) + enc_i32(x)
            + enc_i32(y),
        PacketModel::KeyDown { key, modifiers } => seq![13u8] + enc_key(key) + enc_mods(modifiers),
        PacketModel::KeyUp { key, modifiers } => seq![14u8] + enc_key(key) + enc_mods(modifiers),
        PacketModel::Position { x, y } => seq![15u8] + enc_i32(x) + enc_i32(y),
        PacketModel::Size { width, height } => seq![16u8] + enc_i32(width) + enc_i32(height),
        PacketModel::Resize { width, height } => seq![17u8] + enc_i32(width) + enc_i32(height),
        PacketModel::Suspend => seq![18u8],
        PacketModel::Resume => seq![19u8],
        PacketModel::DemandPaint => seq![20u8],
        PacketModel::APIVersion { major, minor, patch } => seq![21u8] + enc_u8(major) + enc_u8(
            minor,
        ) + enc_u8(patch),
    }
}

/// The fields of the variant selected by `tag`, parsed from cursor `i`.
pub open spec fn spec_decode_fields(s: Seq<u8>, tag: u8, i: int) -> Option<(PacketModel, int)> {
    if tag == 0 {
        match p_i32(s, i) {
            Some((width, i1)) => match p_i32(s, i1) {
                Some((height, i2)) => match p_opt_str(s, i2) {
                    Some((title, i3)) => Some(
                        (PacketModel::Create { width, height, title }, i3),
                    ),
                    None => None,
                },
                None => None,
            },
            None => None,
        }
    } else if tag == 1 {
        match p_u64(s, i) {
            Some((window_id, j)) => Some((PacketModel::Close { window_id }, j)),
            None => None,
        }
    } else if tag == 2 {
        match p_u64(s, i) {
            Some((window_id, i1)) => match p_bytes(s, i1) {
                Some((buffer, i2)) => Some((PacketModel::Paint { window_id, buffer }, i2)),
                None => None,
            },
            None => None,
        }
    } else if tag == 3 {
        Some((PacketModel::RequestAPIVersion, i))
    } else if tag == 4 {
        match p_u64(s, i) {
            Some((window_id, j)) => Some((PacketModel::RequestWindowPosition { window_id }, j)),
            None => None,
        }
    } else if tag == 5 {
        match p_u64(s, i) {
            Some((window_id, j)) => Some((PacketModel::RequestWindowSize { window_id }, j)),
            None => None,
        }
    } else if tag == 6 {
        match p_u64(s, i) {
            Some((window_id, j)) => Some((PacketModel::CreateSuccess { window_id }, j)),
            None => None,
        }
    } else if tag == 7 {
        Some((PacketModel::Closed, i))
    } else if tag == 8 {
        Some((PacketModel::MouseEnter, i))
    } else if tag == 9 {
        Some((PacketModel::MouseLeave, i))
    } else if tag == 10 {
        match p_i32(s, i) {
            Some((x, i1)) => match p_i32(s, i1) {
                Some((y, i2)) => Some((PacketModel::MousePosition { x, y }, i2)),
                None => None,
            },
            None => None,
        }
    } else if tag == 11 {
        match p_button(s, i) {
            Some((button, i1)) => match p_i32(s, i1) {
                Some((x, i2)) => match p_i32(s, i2) {
                    Some((y, i3)) => Some((PacketModel::MouseDown { button, x, y }, i3)),
                    None => None,
                },
                None => None,
            },
            None => None,
        }
    } else if tag == 12 {
        match p_button(s, i) {
            Some((button, i1)) => match p_i32(s, i1) {
                Some((x, i2)) => match p_i32(s, i2) {
                    Some((y, i3)) => Some((PacketModel::MouseUp { button, x, y }, i3)),
                    None => None,
                },
                None => None,
            },
            None => None,
        }
    } else if tag == 13 {
        match p_key(s, i) {
            Some((key, i1)) => match p_mods(s, i1) {
                Some((modifiers, i2)) => Some((PacketModel::KeyDown { key, modifiers }, i2)),
                None => None,
            },
            None => None,
        }
    } else if tag == 14 {
        match p_key(s, i) {
            Some((key, i1)) => match p_mods(s, i1) {
                Some((modifiers, i2)) => Some((PacketModel::KeyUp { key, modifiers }, i2)),
                None => None,
            },
            None => None,
        }
    } else if tag == 15 {
        match p_i32(s, i) {
            Some((x, i1)) => match p_i32(s, i1) {
                Some((y, i2)) => Some((PacketModel::Position { x, y }, i2)),
                None => None,
            },
            None => None,
        }
    } else if tag == 16 {
        match p_i32(s, i) {
            Some((width, i1)) => match p_i32(s, i1) {
                Some((height, i2)) => Some((PacketModel::Size { width, height }, i2)),
                None => None,
            },
            None => None,
        }
    } else if tag == 17 {
        match p_i32(s, i) {
            Some((width, i1)) => match p_i32(s, i1) {
                Some((height, i2)) => Some((PacketModel::Resize { width, height }, i2)),
                None => None,
            },
            None => None,
        }
    } else if tag == 18 {
        Some((PacketModel::Suspend, i))
    } else if tag == 19 {
        Some((PacketModel::Resume, i))
    } else if tag == 20 {
        Some((PacketModel::DemandPaint, i))
    } else if tag == 21 {
        match p_u8(s, i) {
            Some((major, i1)) => match p_u8(s, i1) {
                Some((minor, i2)) => match p_u8(s, i2) {
                    Some((patch, i3)) => Some((PacketModel::APIVersion { major, minor, patch }, i3)),
                    None => None,
                },
                None => None,
            },
            None => None,
        }
    } else {
        None
    }
}

/// The decoder: a payload is exactly one encoded packet, with nothing
/// after it.
pub open spec fn spec_decode(s: Seq<u8>) -> Option<PacketModel> {
    match p_u8(s, 0) {
        Some((tag, i)) => match spec_decode_fields(s, tag, i) {
            Some((m, j)) => if j == s.len() {
                Some(m)
            } else {
                None
            },
            None => None,
        },
        None => None,
    }
}

// ---------------------------------------------------------------------------
// Executable encoder.
// ---------------------------------------------------------------------------
fn write_opt_str(out: &mut Vec<u8>, t: &Option<String>)
    ensures
        final(out)@ == old(out)@ + enc_opt_str(opt_str_view(*t)),
{
    match t {
        None => {
            write_u8(out, 0);
        },
        Some(s) => {
            write_u8(out, 1);
            write_str(out, s);
            proof {
                assert(out@ =~= old(out)@ + enc_opt_str(opt_str_view(*t)));
            }
        },
    }
}

fn write_button(out: &mut Vec<u8>, b: MouseButton)
    ensures
        final(out)@ == old(out)@ + enc_button(b),
{
    match b {
        MouseButton::Left => {
            write_u8(out, 0);
        },
        MouseButton::Right => {
            write_u8(out, 1);
        },
        MouseButton::Middle => {
            write_u8(out, 2);
        },
        MouseButton::Other(c) => {
            write_u8(out, 3);
            write_u8(out, c);
            proof {
                assert(out@ =~= old(out)@ + enc_button(b));
            }
        },
    }
}

fn write_key(out: &mut Vec<u8>, k: KeyCode)
    ensures
        final(out)@ == old(out)@ + enc_key(k),
{
    match k {
        KeyCode::Backspace => {
            write_u8(out, 0);
        },
        KeyCode::Tab => {
            write_u8(out, 1);
        },
        KeyCode::Enter => {
            write_u8(out, 2);
        },
        KeyCode::Escape => {
            write_u8(out, 3);
        },
        KeyCode::Space => {
            write_u8(out, 4);
        },
        KeyCode::Delete => {
            write_u8(out, 5);
        },
        KeyCode::Character(c) => {
            write_u8(out, 6);
            write_char(out, c);
            proof {
                assert(out@ =~= old(out)@ + enc_key(k));
            }
        },
        KeyCode::Function(n) => {
            write_u8(out, 7);
            write_u8(out, n);
            proof {
                assert(out@ =~= old(out)@ + enc_key(k));
            }
        },
    }
}

fn write_mods(out: &mut Vec<u8>, m: Modifiers)
    ensures
        final(out)@ == old(out)@ + enc_mods(m),
{
    write_bool(out, m.shift);
    write_bool(out, m.ctrl);
    write_bool(out, m.alt);
    write_bool(out, m.logo);
    proof {
        assert(out@ =~= old(out)@ + enc_mods(m));
    }
}

/// Encodes one packet into its unique byte representation.
pub fn encode_packet(p: &Packet) -> (out: Vec<u8>)
    ensures
        out@ == spec_encode(p@),
{
    let mut out: Vec<u8> = Vec::new();
    match p {
        Packet::Create { width, height, title } => {
            write_u8(&mut out, 0);
            write_i32(&mut out, *width);
            write_i32(&mut out, *height);
            write_opt_str(&mut out, title);
        },
        Packet::Close { window_id } => {
            write_u8(&mut out, 1);
            write_u64(&mut out, *window_id);
        },
        Packet::Paint { window_id, buffer } => {
            write_u8(&mut out, 2);
            write_u64(&mut out, *window_id);
            write_bytes(&mut out, buffer);
        },
        Packet::RequestAPIVersion => {
            write_u8(&mut out, 3);
        },
        Packet::RequestWindowPosition { window_id } => {
            write_u8(&mut out, 4);
            write_u64(&mut out, *window_id);
        },
        Packet::RequestWindowSize { window_id } => {
            write_u8(&mut out, 5);
            write_u64(&mut out, *window_id);
        },
        Packet::CreateSuccess { window_id } => {
            write_u8(&mut out, 6);
            write_u64(&mut out, *window_id);
        },
        Packet::Closed => {
            write_u8(&mut out, 7);
        },
        Packet::MouseEnter => {
            write_u8(&mut out, 8);
        },
        Packet::MouseLeave => {
            write_u8(&mut out, 9);
        },
        Packet::MousePosition { x, y } => {
            write_u8(&mut out, 10);
            write_i32(&mut out, *x);
            write_i32(&mut out, *y);
        },
        Packet::MouseDown { button, x, y } => {
            write_u8(&mut out, 11);
            write_button(&mut out, *button);
            write_i32(&mut out, *x);
            write_i32(&mut out, *y);
        },
        Packet::MouseUp { button, x, y } => {
            write_u8(&mut out, 12);
            write_button(&mut out, *button);
            write_i32(&mut out, *x);
            write_i32(&mut out, *y);
        },
        Packet::KeyDown { key, modifiers } => {
            write_u8(&mut out, 13);
            write_key(&mut out, *key);
            write_mods(&mut out, *modifiers);
        },
        Packet::KeyUp { key, modifiers } => {
            write_u8(&mut out, 14);
            write_key(&mut out, *key);
            write_mods(&mut out, *modifiers);
        },
        Packet::Position { x, y } => {
            write_u8(&mut out, 15);
            write_i32(&mut out, *x);
            write_i32(&mut out, *y);
        },
        Packet::Size { width, height } => {
            write_u8(&mut out, 16);
            write_i32(&mut out, *width);
            write_i32(&mut out, *height);
        },
        Packet::Resize { width, height } => {
            write_u8(&mut out, 17);
            write_i32(&mut out, *width);
            write_i32(&mut out, *height);
        },
        Packet::Suspend => {
            write_u8(&mut out, 18);
        },
        Packet::Resume => {
            write_u8(&mut out, 19);
        },
        Packet::DemandPaint => {
            write_u8(&mut out, 20);
        },
        Packet::APIVersion { major, minor, patch } => {
            write_u8(&mut out, 21);
            write_u8(&mut out, *major);
            write_u8(&mut out, *minor);
            write_u8(&mut out, *patch);
        },
    }
    proof {
        assert(out@ =~= spec_encode(p@));
    }
    out
}

// ---------------------------------------------------------------------------
// Executable decoder.
// ---------------------------------------------------------------------------
fn read_opt_str(s: &Vec<u8>, i: usize) -> (r: Option<(Option<String>, usize)>)
    ensures
        match r {
            Some((t, j)) => p_opt_str(s@, i as int) == Some((opt_str_view(t), j as int)),
            None => p_opt_str(s@, i as int) is None,
        },
{
    match read_u8(s, i) {
        Some((v, j)) => {
            if v == 0 {
                Some((None, j))
            } else if v == 1 {
                match read_str(s, j) {
                    Some((t, k)) => Some((Some(t), k)),
                    None => None,
                }
            } else {
                None
            }
        },
        None => None,
    }
}

fn read_button(s: &Vec<u8>, i: usize) -> (r: Option<(MouseButton, usize)>)
    ensures
        match r {
            Some((b, j)) => p_button(s@, i as int) == Some((b, j as int)),
            None => p_button(s@, i as int) is None,
        },
{
    match read_u8(s, i) {
        Some((v, j)) => {
            if v == 0 {
                Some((MouseButton::Left, j))
            } else if v == 1 {
                Some((MouseButton::Right, j))
            } else if v == 2 {
                Some((MouseButton::Middle, j))
            } else if v == 3 {
                match read_u8(s, j) {
                    Some((c, k)) => Some((MouseButton::Other(c), k)),
                    None => None,
                }
            } else {
                None
            }
        },
        None => None,
    }
}

fn read_key(s: &Vec<u8>, i: usize) -> (r: Option<(KeyCode, usize)>)
    ensures
        match r {
            Some((k, j)) => p_key(s@, i as int) == Some((k, j as int)),
            None => p_key(s@, i as int) is None,
        },
{
    match read_u8(s, i) {
        Some((v, j)) => {
            if v == 0 {
                Some((KeyCode::Backspace, j))
            } else if v == 1 {
                Some((KeyCode::Tab, j))
            } else if v == 2 {
                Some((KeyCode::Enter, j))
            } else if v == 3 {
                Some((KeyCode::Escape, j))
            } else if v == 4 {
                Some((KeyCode::Space, j))
            } else if v == 5 {
                Some((KeyCode::Delete, j))
            } else if v == 6 {
                match read_char(s, j) {
                    Some((c, k)) => Some((KeyCode::Character(c), k)),
                    None => None,
                }
            } else if v == 7 {
                match read_u8(s, j) {
                    Some((n, k)) => Some((KeyCode::Function(n), k)),
                    None => None,
                }
            } else {
                None
            }
        },
        None => None,
    }
}

fn read_mods(s: &Vec<u8>, i: usize) -> (r: Option<(Modifiers, usize)>)
    ensures
        match r {
            Some((m, j)) => p_mods(s@, i as int) == Some((m, j as int)),
            None => p_mods(s@, i as int) is None,
        },
{
    match read_bool(s, i) {
        Some((shift, j)) => match read_bool(s, j) {
            Some((ctrl, k)) => match read_bool(s, k) {
                Some((alt, l)) => match read_bool(s, l) {
                    Some((logo, m)) => Some((Modifiers { shift, ctrl, alt, logo }, m)),
                    None => None,
                },
                None => None,
            },
            None => None,
        },
        None => None,
    }
}

fn decode_fields(s: &Vec<u8>, tag: u8, i: usize) -> (r: Option<(Packet, usize)>)
    ensures
        match r {
            Some((p, j)) => spec_decode_fields(s@, tag, i as int) == Some((p@, j as int)),
            None => spec_decode_fields(s@, tag, i as int) is None,
        },
{
    if tag == 0 {
        match read_i32(s, i) {
            Some((width, i1)) => match read_i32(s, i1) {
                Some((height, i2)) => match read_opt_str(s, i2) {
                    Some((title, i3)) => Some((Packet::Create { width, height, title }, i3)),
                    None => None,
                },
                None => None,
            },
            None => None,
        }
    } else if tag == 1 {
        match read_u64(s, i) {
            Some((window_id, j)) => Some((Packet::Close { window_id }, j)),
            None => None,
        }
    } else if tag == 2 {
        match read_u64(s, i) {
            Some((window_id, i1)) => match read_bytes(s, i1) {
                Some((buffer, i2)) => Some((Packet::Paint { window_id, buffer }, i2)),
                None => None,
            },
            None => None,
        }
    } else if tag == 3 {
        Some((Packet::RequestAPIVersion, i))
    } else if tag == 4 {
        match read_u64(s, i) {
            Some((window_id, j)) => Some((Packet::RequestWindowPosition { window_id }, j)),
            None => None,
        }
    } else if tag == 5 {
        match read_u64(s, i) {
            Some((window_id, j)) => Some((Packet::RequestWindowSize { window_id }, j)),
            None => None,
        }
    } else if tag == 6 {
        match read_u64(s, i) {
            Some((window_id, j)) => Some((Packet::CreateSuccess { window_id }, j)),
            None => None,
        }
    } else if tag == 7 {
        Some((Packet::Closed, i))
    } else if tag == 8 {
        Some((Packet::MouseEnter, i))
    } else if tag == 9 {
        Some((Packet::MouseLeave, i))
    } else if tag == 10 {
        match read_i32(s, i) {
            Some((x, i1)) => match read_i32(s, i1) {
                Some((y, i2)) => Some((Packet::MousePosition { x, y }, i2)),
                None => None,
            },
            None => None,
        }
    } else if tag == 11 {
        match read_button(s, i) {
            Some((button, i1)) => match read_i32(s, i1) {
                Some((x, i2)) => match read_i32(s, i2) {
                    Some((y, i3)) => Some((Packet::MouseDown { button, x, y }, i3)),
                    None => None,
                },
                None => None,
            },
            None => None,
        }
    } else if tag == 12 {
        match read_button(s, i) {
            Some((button, i1)) => match read_i32(s, i1) {
                Some((x, i2)) => match read_i32(s, i2) {
                    Some((y, i3)) => Some((Packet::MouseUp { button, x, y }, i3)),
                    None => None,
                },
                None => None,
            },
            None => None,
        }
    } else if tag == 13 {
        match read_key(s, i) {
            Some((key, i1)) => match read_mods(s, i1) {
                Some((modifiers, i2)) => Some((Packet::KeyDown { key, modifiers }, i2)),
                None => None,
            },
            None => None,
        }
    } else if tag == 14 {
        match read_key(s, i) {
            Some((key, i1)) => match read_mods(s, i1) {
                Some((modifiers, i2)) => Some((Packet::KeyUp { key, modifiers }, i2)),
                None => None,
            },
            None => None,
        }
    } else if tag == 15 {
        match read_i32(s, i) {
            Some((x, i1)) => match read_i32(s, i1) {
                Some((y, i2)) => Some((Packet::Position { x, y }, i2)),
                None => None,
            },
            None => None,
        }
    } else if tag == 16 {
        match read_i32(s, i) {
            Some((width, i1)) => match read_i32(s, i1) {
                Some((height, i2)) => Some((Packet::Size { width, height }, i2)),
                None => None,
            },
            None => None,
        }
    } else if tag == 17 {
        match read_i32(s, i) {
            Some((width, i1)) => match read_i32(s, i1) {
                Some((height, i2)) => Some((Packet::Resize { width, height }, i2)),
                None => None,
            },
            None => None,
        }
    } else if tag == 18 {
        Some((Packet::Suspend, i))
    } else if tag == 19 {
        Some((Packet::Resume, i))
    } else if tag == 20 {
        Some((Packet::DemandPaint, i))
    } else if tag == 21 {
        match read_u8(s, i) {
            Some((major, i1)) => match read_u8(s, i1) {
                Some((minor, i2)) => match read_u8(s, i2) {
                    Some((patch, i3)) => Some((Packet::APIVersion { major, minor, patch }, i3)),
                    None => None,
                },
                None => None,
            },
            None => None,
        }
    } else {
        None
    }
}

/// Decodes one frame payload. Exactly the payloads produced by
/// [`encode_packet`] are accepted; anything else, including trailing
/// bytes, is rejected.
pub fn decode_packet(s: &Vec<u8>) -> (r: Option<Packet>)
    ensures
        match r {
            Some(p) => spec_decode(s@) == Some(p@),
            None => spec_decode(s@) is None,
        },
{
    match read_u8(s, 0) {
        Some((tag, i)) => match decode_fields(s, tag, i) {
            Some((p, j)) => {
                if j == s.len() {
                    Some(p)
                } else {
                    None
                }
            },
            None => None,
        },
        None => None,
    }
}

// ---------------------------------------------------------------------------
// Framing: a frame is a little-endian 32-bit payload length followed by the
// payload; payloads above ten mebibytes are malformed.
// ---------------------------------------------------------------------------
/// Largest payload a frame may carry, in bytes.
pub const MAX_FRAME_LEN: u32 = 10 * 1024 * 1024;

/// Whether a received length prefix is acceptable; anything larger is
/// rejected as malformed.
pub fn check_frame_len(len: u32) -> (ok: bool)
    ensures
        ok == (len <= MAX_FRAME_LEN),
{
    len <= MAX_FRAME_LEN
}

/// The frame bytes carrying an encoded packet.
pub open spec fn spec_frame(m: PacketModel) -> Seq<u8> {
    enc_u32(spec_encode(m).len() as u32) + spec_encode(m)
}

/// Encodes a packet and frames it with its length prefix; a packet whose
/// encoding exceeds [`MAX_FRAME_LEN`] cannot be framed.
pub fn encode_frame(p: &Packet) -> (r: Option<Vec<u8>>)
    ensures
        match r {
            Some(f) => spec_encode(p@).len() <= MAX_FRAME_LEN && f@ == spec_frame(p@),
            None => spec_encode(p@).len() > MAX_FRAME_LEN,
        },
{
    let payload = encode_packet(p);
    if payload.len() > (MAX_FRAME_LEN as usize) {
        return None;
    }
    let mut out: Vec<u8> = Vec::new();
    write_u32(&mut out, payload.len() as u32);
    out.extend_from_slice(payload.as_slice());
    proof {
        assert(out@ =~= spec_frame(p@));
    }
    Some(out)
}

/// Reads the payload length out of the four prefix bytes of a frame.
pub fn parse_frame_len(prefix: &Vec<u8>) -> (r: Option<u32>)
    ensures
        match r {
            Some(v) => p_u32(prefix@, 0) == Some((v, 4int)),
            None => p_u32(prefix@, 0) is None,
        },
{
    match read_u32(prefix, 0) {
        Some((v, _)) => Some(v),
        None => None,
    }
}

// ---------------------------------------------------------------------------
// The round trip: decoding an encoding gives back the original packet.
// ---------------------------------------------------------------------------
/// The machine-size side conditions under which a packet model can come
/// from a real packet: its variable-length fields fit the 64-bit counts the
/// encoding carries. Every value built from real `String`s and `Vec`s
/// satisfies this.
pub open spec fn model_wf(m: PacketModel) -> bool {
    match m {
        PacketModel::Create { title: t, .. } => match t {
            Some(cs) => encode_utf8(cs).len() < 0x1_0000_0000_0000_0000,
            None => true,
        },
        PacketModel::Paint { buffer, .. } => buffer.len() < 0x1_0000_0000_0000_0000,
        _ => true,
    }
}

proof fn lemma_parse_opt_str(s: Seq<u8>, i: int, t: Option<Seq<char>>, rest: Seq<u8>)
    requires
        0 <= i <= s.len(),
        t matches Some(cs) ==> encode_utf8(cs).len() < 0x1_0000_0000_0000_0000,
        s.subrange(i, s.len() as int) == enc_opt_str(t) + rest,
    ensures
        p_opt_str(s, i) == Some((t, i + enc_opt_str(t).len())),
        i + enc_opt_str(t).len() <= s.len(),
        s.subrange(i + enc_opt_str(t).len(), s.len() as int) == rest,
{
    lemma_auto_spec_u64_to_from_le_bytes();
    match t {
        None => {
            assert(enc_opt_str(t) + rest =~= enc_u8(0u8) + rest);
            lemma_parse_u8(s, i, 0u8, rest);
        },
        Some(cs) => {
            assert(enc_opt_str(t) + rest =~= enc_u8(1u8) + (enc_str(cs) + rest));
            lemma_parse_u8(s, i, 1u8, enc_str(cs) + rest);
            lemma_parse_str(s, i + 1, cs, rest);
            assert(enc_opt_str(t).len() == 1 + 8 + encode_utf8(cs).len());
        },
    }
}

proof fn lemma_parse_button(s: Seq<u8>, i: int, b: MouseButton, rest: Seq<u8>)
    requires
        0 <= i <= s.len(),
        s.subrange(i, s.len() as int) == enc_button(b) + rest,
    ensures
        p_button(s, i) == Some((b, i + enc_button(b).len())),
        i + enc_button(b).len() <= s.len(),
        s.subrange(i + enc_button(b).len(), s.len() as int) == rest,
{
    match b {
        MouseButton::Left => {
            assert(enc_button(b) + rest =~= enc_u8(0u8) + rest);
            lemma_parse_u8(s, i, 0u8, rest);
        },
        MouseButton::Right => {
            assert(enc_button(b) + rest =~= enc_u8(1u8) + rest);
            lemma_parse_u8(s, i, 1u8, rest);
        },
        MouseButton::Middle => {
            assert(enc_button(b) + rest =~= enc_u8(2u8) + rest);
            lemma_parse_u8(s, i, 2u8, rest);
        },
        MouseButton::Other(c) => {
            assert(enc_button(b) + rest =~= enc_u8(3u8) + (enc_u8(c) + rest));
            lemma_parse_u8(s, i, 3u8, enc_u8(c) + rest);
            lemma_parse_u8(s, i + 1, c, rest);
        },
    }
}

proof fn lemma_parse_key(s: Seq<u8>, i: int, k: KeyCode, rest: Seq<u8>)
    requires
        0 <= i <= s.len(),
        s.subrange(i, s.len() as int) == enc_key(k) + rest,
    ensures
        p_key(s, i) == Some((k, i + enc_key(k).len())),
        i + enc_key(k).len() <= s.len(),
        s.subrange(i + enc_key(k).len(), s.len() as int) == rest,
{
    lemma_auto_spec_u32_to_from_le_bytes();
    match k {
        KeyCode::Backspace => {
            assert(enc_key(k) + rest =~= enc_u8(0u8) + rest);
            lemma_parse_u8(s, i, 0u8, rest);
        },
        KeyCode::Tab => {
            assert(enc_key(k) + rest =~= enc_u8(1u8) + rest);
            lemma_parse_u8(s, i, 1u8, rest);
        },
        KeyCode::Enter => {
            assert(enc_key(k) + rest =~= enc_u8(2u8) + rest);
            lemma_parse_u8(s, i, 2u8, rest);
        },
        KeyCode::Escape => {
            assert(enc_key(k) + rest =~= enc_u8(3u8) + rest);
            lemma_parse_u8(s, i, 3u8, rest);
        },
        KeyCode::Space => {
            assert(enc_key(k) + rest =~= enc_u8(4u8) + rest);
            lemma_parse_u8(s, i, 4u8, rest);
        },
        KeyCode::Delete => {
            assert(enc_key(k) + rest =~= enc_u8(5u8) + rest);
            lemma_parse_u8(s, i, 5u8, rest);
        },
        KeyCode::Character(c) => {
            assert(enc_key(k) + rest =~= enc_u8(6u8) + (enc_char(c) + rest));
            lemma_parse_u8(s, i, 6u8, enc_char(c) + rest);
            lemma_parse_char(s, i + 1, c, rest);
            assert(enc_key(k).len() == 5);
        },
        KeyCode::Function(n) => {
            assert(enc_key(k) + rest =~= enc_u8(7u8) + (enc_u8(n) + rest));
            lemma_parse_u8(s, i, 7u8, enc_u8(n) + rest);
            lemma_parse_u8(s, i + 1, n, rest);
        },
    }
}

proof fn lemma_parse_mods(s: Seq<u8>, i: int, m: Modifiers, rest: Seq<u8>)
    requires
        0 <= i <= s.len(),
        s.subrange(i, s.len() as int) == enc_mods(m) + rest,
    ensures
        p_mods(s, i) == Some((m, i + 4)),
        i + 4 <= s.len(),
        s.subrange(i + 4, s.len() as int) == rest,
{
    assert(enc_mods(m) + rest =~= enc_bool(m.shift) + (enc_bool(m.ctrl) + (enc_bool(m.alt) + (
    enc_bool(m.logo) + rest))));
    lemma_parse_bool(s, i, m.shift, enc_bool(m.ctrl) + (enc_bool(m.alt) + (enc_bool(m.logo)
        + rest)));
    lemma_parse_bool(s, i + 1, m.ctrl, enc_bool(m.alt) + (enc_bool(m.logo) + rest));
    lemma_parse_bool(s, i + 2, m.alt, enc_bool(m.logo) + rest);
    lemma_parse_bool(s, i + 3, m.logo, rest);
}

/// The round-trip law: for every packet variant, decoding the encoding
/// gives back exactly the packet that was sent.
#[verifier::rlimit(100)]
#[verifier::spinoff_prover]
pub proof fn lemma_encode_decode(m: PacketModel)
    requires
        model_wf(m),
    ensures
        spec_decode(spec_encode(m)) == Some(m),
{
    lemma_auto_spec_u32_to_from_le_bytes();
    lemma_auto_spec_u64_to_from_le_bytes();
    let s = spec_encode(m);
    let empty = Seq::<u8>::empty();
    match m {
        PacketModel::Create { width, height, title } => {
            let r1 = enc_i32(width) + (enc_i32(height) + enc_opt_str(title));
            assert(s.subrange(0, s.len() as int) =~= enc_u8(0u8) + r1);
            lemma_parse_u8(s, 0, 0u8, r1);
            lemma_parse_i32(s, 1, width, enc_i32(height) + enc_opt_str(title));
            lemma_parse_i32(s, 5, height, enc_opt_str(title));
            assert(s.subrange(9, s.len() as int) =~= enc_opt_str(title) + empty);
            lemma_parse_opt_str(s, 9, title, empty);
        },
        PacketModel::Close { window_id } => {
            assert(s.subrange(0, s.len() as int) =~= enc_u8(1u8) + enc_u64(window_id));
            lemma_parse_u8(s, 0, 1u8, enc_u64(window_id));
            assert(s.subrange(1, s.len() as int) =~= enc_u64(window_id) + empty);
            lemma_parse_u64(s, 1, window_id, empty);
        },
        PacketModel::Paint { window_id, buffer } => {
            let r1 = enc_u64(window_id) + enc_bytes(buffer);
            assert(s.subrange(0, s.len() as int) =~= enc_u8(2u8) + r1);
            lemma_parse_u8(s, 0, 2u8, r1);
            lemma_parse_u64(s, 1, window_id, enc_bytes(buffer));
            assert(s.subrange(9, s.len() as int) =~= enc_bytes(buffer) + empty);
            lemma_parse_bytes(s, 9, buffer, empty);
        },
        PacketModel::RequestAPIVersion => {
            assert(s.subrange(0, s.len() as int) =~= enc_u8(3u8) + empty);
            lemma_parse_u8(s, 0, 3u8, empty);
        },
        PacketModel::RequestWindowPosition { window_id } => {
            assert(s.subrange(0, s.len() as int) =~= enc_u8(4u8) + enc_u64(window_id));
            lemma_parse_u8(s, 0, 4u8, enc_u64(window_id));
            assert(s.subrange(1, s.len() as int) =~= enc_u64(window_id) + empty);
            lemma_parse_u64(s, 1, window_id, empty);
        },
        PacketModel::RequestWindowSize { window_id } => {
            assert(s.subrange(0, s.len() as int) =~= enc_u8(5u8) + enc_u64(window_id));
            lemma_parse_u8(s, 0, 5u8, enc_u64(window_id));
            assert(s.subrange(1, s.len() as int) =~= enc_u64(window_id) + empty);
            lemma_parse_u64(s, 1, window_id, empty);
        },
        PacketModel::CreateSuccess { window_id } => {
            assert(s.subrange(0, s.len() as int) =~= enc_u8(6u8) + enc_u64(window_id));
            lemma_parse_u8(s, 0, 6u8, enc_u64(window_id));
            assert(s.subrange(1, s.len() as int) =~= enc_u64(window_id) + empty);
            lemma_parse_u64(s, 1, window_id, empty);
        },
        PacketModel::Closed => {
            assert(s.subrange(0, s.len() as int) =~= enc_u8(7u8) + empty);
            lemma_parse_u8(s, 0, 7u8, empty);
        },
        PacketModel::MouseEnter => {
            assert(s.subrange(0, s.len() as int) =~= enc_u8(8u8) + empty);
            lemma_parse_u8(s, 0, 8u8, empty);
        },
        PacketModel::MouseLeave => {
            assert(s.subrange(0, s.len() as int) =~= enc_u8(9u8) + empty);
            lemma_parse_u8(s, 0, 9u8, empty);
        },
        PacketModel::MousePosition { x, y } => {
            let r1 = enc_i32(x) + enc_i32(y);
            assert(s.subrange(0, s.len() as int) =~= enc_u8(10u8) + r1);
            lemma_parse_u8(s, 0, 10u8, r1);
            assert(s.subrange(1, s.len() as int) =~= enc_i32(x) + (enc_i32(y) + empty));
            lemma_parse_i32(s, 1, x, enc_i32(y) + empty);
            lemma_parse_i32(s, 5, y, empty);
        },
        PacketModel::MouseDown { button, x, y } => {
            let r1 = enc_button(button) + (enc_i32(x) + enc_i32(y));
            assert(s.subrange(0, s.len() as int) =~= enc_u8(11u8) + r1);
            lemma_parse_u8(s, 0, 11u8, r1);
            lemma_parse_button(s, 1, button, enc_i32(x) + enc_i32(y));
            let i1: int = 1 + enc_button(button).len() as int;
            assert(s.subrange(i1, s.len() as int) =~= enc_i32(x) + (enc_i32(y) + empty));
            lemma_parse_i32(s, i1, x, enc_i32(y) + empty);
            lemma_parse_i32(s, i1 + 4, y, empty);
        },
        PacketModel::MouseUp { button, x, y } => {
            let r1 = enc_button(button) + (enc_i32(x) + enc_i32(y));
            assert(s.subrange(0, s.len() as int) =~= enc_u8(12u8) + r1);
            lemma_parse_u8(s, 0, 12u8, r1);
            lemma_parse_button(s, 1, button, enc_i32(x) + enc_i32(y));
            let i1: int = 1 + enc_button(button).len() as int;
            assert(s.subrange(i1, s.len() as int) =~= enc_i32(x) + (enc_i32(y) + empty));
            lemma_parse_i32(s, i1, x, enc_i32(y) + empty);
            lemma_parse_i32(s, i1 + 4, y, empty);
        },
        PacketModel::KeyDown { key, modifiers } => {
            let r1 = enc_key(key) + enc_mods(modifiers);
            assert(s.subrange(0, s.len() as int) =~= enc_u8(13u8) + r1);
            lemma_parse_u8(s, 0, 13u8, r1);
            lemma_parse_key(s, 1, key, enc_mods(modifiers));
            let i1: int = 1 + enc_key(key).len() as int;
            assert(s.subrange(i1, s.len() as int) =~= enc_mods(modifiers) + empty);
            lemma_parse_mods(s, i1, modifiers, empty);
        },
        PacketModel::KeyUp { key, modifiers } => {
            let r1 = enc_key(key) + enc_mods(modifiers);
            assert(s.subrange(0, s.len() as int) =~= enc_u8(14u8) + r1);
            lemma_parse_u8(s, 0, 14u8, r1);
            lemma_parse_key(s, 1, key, enc_mods(modifiers));
            let i1: int = 1 + enc_key(key).len() as int;
            assert(s.subrange(i1, s.len() as int) =~= enc_mods(modifiers) + empty);
            lemma_parse_mods(s, i1, modifiers, empty);
        },
        PacketModel::Position { x, y } => {
            let r1 = enc_i32(x) + enc_i32(y);
            assert(s.subrange(0, s.len() as int) =~= enc_u8(15u8) + r1);
            lemma_parse_u8(s, 0, 15u8, r1);
            assert(s.subrange(1, s.len() as int) =~= enc_i32(x) + (enc_i32(y) + empty));
            lemma_parse_i32(s, 1, x, enc_i32(y) + empty);
            lemma_parse_i32(s, 5, y, empty);
        },
        PacketModel::Size { width, height } => {
            let r1 = enc_i32(width) + enc_i32(height);
            assert(s.subrange(0, s.len() as int) =~= enc_u8(16u8) + r1);
            lemma_parse_u8(s, 0, 16u8, r1);
            assert(s.subrange(1, s.len() as int) =~= enc_i32(width) + (enc_i32(height) + empty));
            lemma_parse_i32(s, 1, width, enc_i32(height) + empty);
            lemma_parse_i32(s, 5, height, empty);
        },
        PacketModel::Resize { width, height } => {
            let r1 = enc_i32(width) + enc_i32(height);
            assert(s.subrange(0, s.len() as int) =~= enc_u8(17u8) + r1);
            lemma_parse_u8(s, 0, 17u8, r1);
            assert(s.subrange(1, s.len() as int) =~= enc_i32(width) + (enc_i32(height) + empty));
            lemma_parse_i32(s, 1, width, enc_i32(height) + empty);
            lemma_parse_i32(s, 5, height, empty);
        },
        PacketModel::Suspend => {
            assert(s.subrange(0, s.len() as int) =~= enc_u8(18u8) + empty);
            lemma_parse_u8(s, 0, 18u8, empty);
        },
        PacketModel::Resume => {
            assert(s.subrange(0, s.len() as int) =~= enc_u8(19u8) + empty);
            lemma_parse_u8(s, 0, 19u8, empty);
        },
        PacketModel::DemandPaint => {
            assert(s.subrange(0, s.len() as int) =~= enc_u8(20u8) + empty);
            lemma_parse_u8(s, 0, 20u8, empty);
        },
        PacketModel::APIVersion { major, minor, patch } => {
            let r1 = enc_u8(major) + (enc_u8(minor) + enc_u8(patch));
            assert(s.subrange(0, s.len() as int) =~= enc_u8(21u8) + r1);
            lemma_parse_u8(s, 0, 21u8, r1);
            lemma_parse_u8(s, 1, major, enc_u8(minor) + enc_u8(patch));
            assert(s.subrange(2, s.len() as int) =~= enc_u8(minor) + (enc_u8(patch) + empty));
            lemma_parse_u8(s, 2, minor, enc_u8(patch) + empty);
            lemma_parse_u8(s, 3, patch, empty);
        },
    }
}

/// The framed round trip: the length prefix of a frame reads back as the
/// payload length, the rest of the frame is the payload, and the payload
/// decodes to the packet that was framed.
pub proof fn lemma_frame_roundtrip(m: PacketModel)
    requires
        model_wf(m),
        spec_encode(m).len() <= MAX_FRAME_LEN,
    ensures
        p_u32(spec_frame(m), 0) == Some((spec_encode(m).len() as u32, 4int)),
        spec_frame(m).subrange(4, spec_frame(m).len() as int) == spec_encode(m),
        spec_decode(spec_encode(m)) == Some(m),
{
    let f = spec_frame(m);
    assert(f.subrange(0, f.len() as int) =~= enc_u32(spec_encode(m).len() as u32) + spec_encode(
        m,
    ));
    lemma_parse_u32(f, 0, spec_encode(m).len() as u32, spec_encode(m));
    lemma_encode_decode(m);
}

} // verus!
