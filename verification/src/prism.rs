//! The bridge between the wire protocol and the display model: the default
//! packet handler. It is the single place where client packets mutate the
//! display server.

use vstd::prelude::*;
use std::collections::HashMap;
use crate::ScreenSize;
use crate::display::{div2_toward_zero, spec_with_active, DisplayServer};
use crate::error::UnixSocketError;
use crate::geometry::{Position, Rect, Size};
use crate::packet::Packet;
use crate::window::{Window, TITLE_BAR_FLAG};

verus! {

/// Where a new window of the given size is placed on the given display:
/// centred on the screen.
pub open spec fn spec_center_rect(d: DisplayServer, width: ScreenSize, height: ScreenSize) -> Rect {
    Rect {
        position: Position {
            x: (div2_toward_zero(d.width as int) - div2_toward_zero(width as int)) as i32,
            y: (div2_toward_zero(d.height as int) - div2_toward_zero(height as int)) as i32,
        },
        size: Size { width, height },
    }
}

/// The window a `Create` request builds, before it is given focus: titled
/// with a title bar when a title came along, bare otherwise.
pub open spec fn spec_created_window(rect: Rect, title: Option<String>) -> Window {
    match title {
        Some(t) => Window {
            rect,
            flags: TITLE_BAR_FLAG,
            restore_rect: None,
            icon: None,
            title: Some(t),
        },
        None => Window { rect, flags: 0, restore_rect: None, icon: None, title: None },
    }
}

/// The default packet handler. It keeps the mapping from wire window
/// identifiers to display window identifiers; the wire identifier doubles
/// as the display identifier, since the connection table draws it fresh
/// and random per connection.
pub struct Prism {
    pub id_map: HashMap<u64, u64>,
}

impl Prism {
    pub fn new() -> (p: Prism)
        ensures
            p.id_map@ == Map::<u64, u64>::empty(),
    {
        Prism { id_map: HashMap::new() }
    }

    /// Applies one client packet to the display.
    ///
    /// `Create` places a centred window, gives it focus and replies
    /// `CreateSuccess`; a second `Create` on the same connection replaces
    /// that connection's window. `Close` removes the mapped window and
    /// replies `Closed`, and closing an unknown window is a no-op that
    /// still replies `Closed`. `Paint` marks the window layer dirty.
    /// The two geometry requests answer with `Position` and `Size`.
    /// Everything else changes nothing and yields no reply.
    pub fn handle_packet(&mut self, display: &mut DisplayServer, window_id: u64, packet: Packet)
        -> (r: Result<Option<Packet>, UnixSocketError>)
        requires
            old(display).wf(),
        ensures
            final(display).wf(),
            match packet {
                Packet::Create { width, height, title } => {
                    let win = spec_created_window(
                        spec_center_rect(*old(display), width, height),
                        title,
                    );
                    &&& r == Ok::<Option<Packet>, UnixSocketError>(
                        Some(Packet::CreateSuccess { window_id }),
                    )
                    &&& final(display).windows@.contains_key(window_id)
                    &&& final(display).windows@[window_id] == spec_with_active(win, true)
                    &&& final(display).active_id == Some(window_id)
                    &&& final(display).is_window_dirty
                    &&& forall|k: u64|
                        k != window_id ==> #[trigger] final(display).windows@.contains_key(k)
                            == old(display).windows@.contains_key(k)
                    &&& forall|k: u64|
                        k != window_id && #[trigger] old(display).windows@.contains_key(k)
                            ==> final(display).windows@[k] == (if old(display).active_id == Some(
                            k,
                        ) {
                            spec_with_active(old(display).windows@[k], false)
                        } else {
                            old(display).windows@[k]
                        })
                    &&& final(self).id_map@ == old(self).id_map@.insert(window_id, window_id)
                    &&& *final(display) == (DisplayServer {
                        windows: final(display).windows,
                        active_id: Some(window_id),
                        is_window_dirty: true,
                        ..*old(display)
                    })
                },
                Packet::Close { window_id: cid } => {
                    &&& r == Ok::<Option<Packet>, UnixSocketError>(Some(Packet::Closed))
                    &&& if old(self).id_map@.contains_key(cid) {
                        let did = old(self).id_map@[cid];
                        &&& final(display).windows@ == old(display).windows@.remove(did)
                        &&& final(self).id_map@ == old(self).id_map@.remove(cid)
                        &&& *final(display) == (DisplayServer {
                            windows: final(display).windows,
                            is_window_dirty: true,
                            active_id: if old(display).active_id == Some(did) {
                                None
                            } else {
                                old(display).active_id
                            },
                            ..*old(display)
                        })
                    } else {
                        &&& *final(display) == *old(display)
                        &&& final(self).id_map@ == old(self).id_map@
                    }
                },
                Packet::Paint { window_id: pid, .. } => {
                    &&& r == Ok::<Option<Packet>, UnixSocketError>(None)
                    &&& final(self).id_map@ == old(self).id_map@
                    &&& if old(self).id_map@.contains_key(pid) {
                        *final(display) == (DisplayServer {
                            is_window_dirty: true,
                            ..*old(display)
                        })
                    } else {
                        *final(display) == *old(display)
                    }
                },
                Packet::RequestWindowPosition { window_id: rid } => {
                    &&& *final(display) == *old(display)
                    &&& final(self).id_map@ == old(self).id_map@
                    &&& r == Ok::<Option<Packet>, UnixSocketError>(
                        if old(self).id_map@.contains_key(rid) && old(
                            display,
                        ).windows@.contains_key(old(self).id_map@[rid]) {
                            let p = old(display).windows@[old(self).id_map@[rid]].rect.position;
                            Some(Packet::Position { x: p.x, y: p.y })
                        } else {
                            None
                        },
                    )
                },
                Packet::RequestWindowSize { window_id: rid } => {
                    &&& *final(display) == *old(display)
                    &&& final(self).id_map@ == old(self).id_map@
                    &&& r == Ok::<Option<Packet>, UnixSocketError>(
                        if old(self).id_map@.contains_key(rid) && old(
                            display,
                        ).windows@.contains_key(old(self).id_map@[rid]) {
                            let s = old(display).windows@[old(self).id_map@[rid]].rect.size;
                            Some(Packet::Size { width: s.width, height: s.height })
                        } else {
                            None
                        },
                    )
                },
                _ => {
                    &&& r == Ok::<Option<Packet>, UnixSocketError>(None)
                    &&& *final(display) == *old(display)
                    &&& final(self).id_map@ == old(self).id_map@
                },
            },
    {
        match packet {
            Packet::Create { width, height, title } => {
                let rect = display.get_center(width, height);
                let win = match title {
                    Some(t) => Window::new_titled(t, rect),
                    None => Window::new_non_titled(rect),
                };
                display.remove_window(window_id);
                let added = display.add_window(win, window_id);
                self.id_map.insert(window_id, window_id);
                Ok(Some(Packet::CreateSuccess { window_id }))
            },
            Packet::Close { window_id: cid } => {
                let did = match self.id_map.get(&cid) {
                    Some(did) => Some(*did),
                    None => None,
                };
                match did {
                    Some(did) => {
                        display.remove_window(did);
                        self.id_map.remove(&cid);
                    },
                    None => {},
                }
                Ok(Some(Packet::Closed))
            },
            Packet::Paint { window_id: pid, buffer } => {
                if self.id_map.contains_key(&pid) {
                    display.update_window_frame_buffer(pid, &buffer);
                }
                Ok(None)
            },
            Packet::RequestWindowPosition { window_id: rid } => {
                let did = match self.id_map.get(&rid) {
                    Some(did) => Some(*did),
                    None => None,
                };
                match did {
                    Some(did) => match display.get_window_pos(did) {
                        Some(p) => Ok(Some(Packet::Position { x: p.x, y: p.y })),
                        None => Ok(None),
                    },
                    None => Ok(None),
                }
            },
            Packet::RequestWindowSize { window_id: rid } => {
                let did = match self.id_map.get(&rid) {
                    Some(did) => Some(*did),
                    None => None,
                };
                match did {
                    Some(did) => match display.get_window_size(did) {
                        Some(s) => Ok(Some(Packet::Size { width: s.width, height: s.height })),
                        None => Ok(None),
                    },
                    None => Ok(None),
                }
            },
            _ => Ok(None),
        }
    }
}

} // verus!
