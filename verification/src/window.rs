//! Per-window state: geometry, bit-packed flags, the geometry saved for
//! restore, and the optional icon and title.
//!
//! Two invariants hold of every well-formed window: the maximized and
//! minimized flags are never set together, and a restore geometry is stored
//! exactly while one of them is set.

use vstd::prelude::*;
use crate::ScreenSize;
use crate::geometry::Rect;
use crate::texture::Texture;

verus! {

/// Bit 0 of the window flags: the title bar is drawn.
pub const TITLE_BAR_FLAG: u8 = 0b0000_0001;

/// Bit 1 of the window flags: the window is maximized.
pub const MAXIMIZED_FLAG: u8 = 0b0000_0010;

/// Bit 2 of the window flags: the window is minimized.
pub const MINIMIZED_FLAG: u8 = 0b0000_0100;

/// Bit 3 of the window flags: the window has input focus.
pub const ACTIVE_FLAG: u8 = 0b0000_1000;

/// Bit 4 of the window flags: an icon is set.
pub const HAS_ICON_FLAG: u8 = 0b0001_0000;

/// Padding in pixels used for window frame layout.
pub const WINDOW_PADDING: ScreenSize = 3;

/// Height in pixels of a window's title-bar strip.
pub const TITLE_BAR_HEIGHT: ScreenSize = 30;

/// A window owned by the display server.
pub struct Window {
    /// Current geometry.
    pub rect: Rect,
    /// Bit-packed state; see the `*_FLAG` constants.
    pub flags: u8,
    /// Geometry before the window was maximized or minimized.
    pub restore_rect: Option<Rect>,
    /// Icon texture handle, present exactly when `HAS_ICON_FLAG` is set.
    pub icon: Option<Texture>,
    /// Title text, present for windows created with a title.
    pub title: Option<String>,
}

impl Window {
    pub open spec fn spec_title_bar(self) -> bool {
        self.flags & TITLE_BAR_FLAG != 0
    }

    pub open spec fn spec_maximized(self) -> bool {
        self.flags & MAXIMIZED_FLAG != 0
    }

    pub open spec fn spec_minimized(self) -> bool {
        self.flags & MINIMIZED_FLAG != 0
    }

    pub open spec fn spec_active(self) -> bool {
        self.flags & ACTIVE_FLAG != 0
    }

    pub open spec fn spec_has_icon(self) -> bool {
        self.flags & HAS_ICON_FLAG != 0
    }

    /// Window well-formedness: maximized and minimized exclude each other,
    /// and the restore geometry is stored exactly while one of them is set.
    pub open spec fn wf(self) -> bool {
        &&& !(self.spec_maximized() && self.spec_minimized())
        &&& (self.restore_rect is Some <==> (self.spec_maximized() || self.spec_minimized()))
    }

    /// The state after a maximize: current geometry saved for restore, the
    /// maximized flag set, the minimized flag cleared; a no-op when already
    /// maximized.
    pub open spec fn spec_maximize(self) -> Window {
        if self.spec_maximized() {
            self
        } else {
            Window {
                restore_rect: Some(self.rect),
                flags: (self.flags | MAXIMIZED_FLAG) & !MINIMIZED_FLAG,
                ..self
            }
        }
    }

    /// The state after a minimize: geometry saved unless one is already
    /// stored, the minimized flag set, the maximized flag cleared; a no-op
    /// when already minimized.
    pub open spec fn spec_minimize(self) -> Window {
        if self.spec_minimized() {
            self
        } else {
            Window {
                restore_rect: if self.restore_rect is Some {
                    self.restore_rect
                } else {
                    Some(self.rect)
                },
                flags: (self.flags | MINIMIZED_FLAG) & !MAXIMIZED_FLAG,
                ..self
            }
        }
    }

    /// The state after a restore: the saved geometry becomes current and
    /// both flags clear; a no-op when nothing is saved.
    pub open spec fn spec_restore(self) -> Window {
        match self.restore_rect {
            Some(saved) => Window {
                rect: saved,
                flags: self.flags & !(MAXIMIZED_FLAG | MINIMIZED_FLAG),
                restore_rect: None,
                ..self
            },
            None => self,
        }
    }

    /// Creates a window with a visible title bar and the given title.
    pub fn new_titled(title: String, rect: Rect) -> (w: Window)
        ensures
            w.rect == rect,
            w.flags == TITLE_BAR_FLAG,
            w.restore_rect is None,
            w.icon is None,
            w.title == Some(title),
            w.wf(),
            w.spec_title_bar(),
            !w.spec_maximized(),
            !w.spec_minimized(),
            !w.spec_active(),
            !w.spec_has_icon(),
    {
        proof {
            assert(1u8 & 1 != 0 && 1u8 & 2 == 0 && 1u8 & 4 == 0 && 1u8 & 8 == 0 && 1u8 & 16 == 0)
                by (bit_vector);
        }
        Window { rect, flags: TITLE_BAR_FLAG, restore_rect: None, icon: None, title: Some(title) }
    }

    /// Creates a window without a title bar.
    pub fn new_non_titled(rect: Rect) -> (w: Window)
        ensures
            w.rect == rect,
            w.flags == 0,
            w.restore_rect is None,
            w.icon is None,
            w.title is None,
            w.wf(),
            !w.spec_title_bar(),
            !w.spec_maximized(),
            !w.spec_minimized(),
            !w.spec_active(),
            !w.spec_has_icon(),
    {
        proof {
            assert(0u8 & 1 == 0 && 0u8 & 2 == 0 && 0u8 & 4 == 0 && 0u8 & 8 == 0 && 0u8 & 16 == 0)
                by (bit_vector);
        }
        Window { rect, flags: 0, restore_rect: None, icon: None, title: None }
    }

    /// Moves the window; ignored while maximized. The rectangle anchors its
    /// bottom edge at `y`, so the precondition keeps that coordinate
    /// representable.
    pub fn move_window(&mut self, x: ScreenSize, y: ScreenSize)
        requires
            old(self).spec_maximized() || i32::MIN <= old(self).rect.spec_bottom_anchored_top(
                y as int,
            ) <= i32::MAX,
        ensures
            old(self).spec_maximized() ==> *final(self) == *old(self),
            !old(self).spec_maximized() ==> *final(self) == (Window {
                rect: Rect {
                    position: crate::geometry::Position {
                        x,
                        y: old(self).rect.spec_bottom_anchored_top(y as int) as i32,
                    },
                    size: old(self).rect.size,
                },
                ..*old(self)
            }),
    {
        if !self.is_maximized() {
            self.rect.set_pos(x, y);
        }
    }

    /// Resizes the window; ignored while maximized or minimized.
    pub fn resize_window(&mut self, width: ScreenSize, height: ScreenSize)
        ensures
            (old(self).spec_maximized() || old(self).spec_minimized()) ==> *final(self) == *old(
                self,
            ),
            !(old(self).spec_maximized() || old(self).spec_minimized()) ==> *final(self) == (
            Window {
                rect: Rect {
                    position: old(self).rect.position,
                    size: crate::geometry::Size { width, height },
                },
                ..*old(self)
            }),
    {
        if !self.is_maximized() && !self.is_minimized() {
            self.rect.set_size(width, height);
        }
    }

    pub fn maximize(&mut self)
        ensures
            *final(self) == old(self).spec_maximize(),
            final(self).spec_maximized(),
            old(self).wf() ==> !final(self).spec_minimized(),
            final(self).spec_title_bar() == old(self).spec_title_bar(),
            final(self).spec_active() == old(self).spec_active(),
            final(self).spec_has_icon() == old(self).spec_has_icon(),
            final(self).rect == old(self).rect,
            old(self).wf() ==> final(self).wf(),
    {
        proof {
            lemma_maximize_flags(self.flags);
        }
        if !self.is_maximized() {
            self.restore_rect = Some(self.rect.clone());
            self.flags = (self.flags | MAXIMIZED_FLAG) & !MINIMIZED_FLAG;
        }
    }

    pub fn minimize(&mut self)
        ensures
            *final(self) == old(self).spec_minimize(),
            final(self).spec_minimized(),
            old(self).wf() ==> !final(self).spec_maximized(),
            final(self).spec_title_bar() == old(self).spec_title_bar(),
            final(self).spec_active() == old(self).spec_active(),
            final(self).spec_has_icon() == old(self).spec_has_icon(),
            final(self).rect == old(self).rect,
            old(self).wf() ==> final(self).wf(),
    {
        proof {
            lemma_minimize_flags(self.flags);
        }
        if !self.is_minimized() {
            if self.restore_rect.is_none() {
                self.restore_rect = Some(self.rect.clone());
            }
            self.flags = (self.flags | MINIMIZED_FLAG) & !MAXIMIZED_FLAG;
        }
    }

    pub fn restore(&mut self)
        ensures
            *final(self) == old(self).spec_restore(),
            old(self).wf() ==> !final(self).spec_maximized(),
            final(self).spec_title_bar() == old(self).spec_title_bar(),
            final(self).spec_active() == old(self).spec_active(),
            final(self).spec_has_icon() == old(self).spec_has_icon(),
            old(self).wf() ==> final(self).wf(),
            old(self).wf() ==> !final(self).spec_minimized(),
    {
        proof {
            lemma_restore_flags(self.flags);
        }
        if self.restore_rect.is_some() {
            let saved = self.restore_rect.take().unwrap();
            self.rect = saved;
            self.flags = self.flags & !(MAXIMIZED_FLAG | MINIMIZED_FLAG);
        }
    }

    pub fn set_active(&mut self, active: bool)
        ensures
            *final(self) == (Window {
                flags: if active {
                    old(self).flags | ACTIVE_FLAG
                } else {
                    old(self).flags & !ACTIVE_FLAG
                },
                ..*old(self)
            }),
            final(self).spec_active() == active,
            final(self).spec_maximized() == old(self).spec_maximized(),
            final(self).spec_minimized() == old(self).spec_minimized(),
            final(self).spec_title_bar() == old(self).spec_title_bar(),
            final(self).spec_has_icon() == old(self).spec_has_icon(),
            old(self).wf() ==> final(self).wf(),
    {
        proof {
            lemma_active_flags(self.flags);
        }
        if active {
            self.flags = self.flags | ACTIVE_FLAG;
        } else {
            self.flags = self.flags & !ACTIVE_FLAG;
        }
    }

    pub fn set_icon(&mut self, icon: Texture)
        ensures
            *final(self) == (Window {
                icon: Some(icon),
                flags: old(self).flags | HAS_ICON_FLAG,
                ..*old(self)
            }),
            final(self).spec_has_icon(),
            final(self).spec_maximized() == old(self).spec_maximized(),
            final(self).spec_minimized() == old(self).spec_minimized(),
            final(self).spec_title_bar() == old(self).spec_title_bar(),
            final(self).spec_active() == old(self).spec_active(),
            old(self).wf() ==> final(self).wf(),
    {
        proof {
            lemma_icon_flags(self.flags);
        }
        self.icon = Some(icon);
        self.flags = self.flags | HAS_ICON_FLAG;
    }

    pub fn remove_icon(&mut self)
        ensures
            *final(self) == (Window {
                icon: None,
                flags: old(self).flags & !HAS_ICON_FLAG,
                ..*old(self)
            }),
            !final(self).spec_has_icon(),
            final(self).spec_maximized() == old(self).spec_maximized(),
            final(self).spec_minimized() == old(self).spec_minimized(),
            final(self).spec_title_bar() == old(self).spec_title_bar(),
            final(self).spec_active() == old(self).spec_active(),
            old(self).wf() ==> final(self).wf(),
    {
        proof {
            lemma_icon_flags(self.flags);
        }
        self.icon = None;
        self.flags = self.flags & !HAS_ICON_FLAG;
    }

    pub fn get_icon(&self) -> (r: Option<&Texture>)
        ensures
            match r {
                Some(t) => self.icon == Some(*t),
                None => self.icon is None,
            },
    {
        self.icon.as_ref()
    }

    pub fn has_icon(&self) -> (r: bool)
        ensures
            r == self.spec_has_icon(),
    {
        (self.flags & HAS_ICON_FLAG) != 0
    }

    /// Flips title-bar visibility; every other bit is untouched.
    pub fn toggle_title_bar(&mut self)
        ensures
            *final(self) == (Window { flags: old(self).flags ^ TITLE_BAR_FLAG, ..*old(self) }),
            final(self).spec_title_bar() == !old(self).spec_title_bar(),
            final(self).spec_maximized() == old(self).spec_maximized(),
            final(self).spec_minimized() == old(self).spec_minimized(),
            final(self).spec_active() == old(self).spec_active(),
            final(self).spec_has_icon() == old(self).spec_has_icon(),
            old(self).wf() ==> final(self).wf(),
    {
        proof {
            lemma_toggle_flags(self.flags);
        }
        self.flags = self.flags ^ TITLE_BAR_FLAG;
    }

    pub fn update_title(&mut self, title: Option<String>)
        ensures
            *final(self) == (Window { title, ..*old(self) }),
            old(self).wf() ==> final(self).wf(),
    {
        self.title = title;
    }

    pub fn has_title_bar(&self) -> (r: bool)
        ensures
            r == self.spec_title_bar(),
    {
        (self.flags & TITLE_BAR_FLAG) != 0
    }

    pub fn is_maximized(&self) -> (r: bool)
        ensures
            r == self.spec_maximized(),
    {
        (self.flags & MAXIMIZED_FLAG) != 0
    }

    pub fn is_minimized(&self) -> (r: bool)
        ensures
            r == self.spec_minimized(),
    {
        (self.flags & MINIMIZED_FLAG) != 0
    }

    pub fn is_active(&self) -> (r: bool)
        ensures
            r == self.spec_active(),
    {
        (self.flags & ACTIVE_FLAG) != 0
    }

    pub fn get_size(&self) -> (r: crate::geometry::Size)
        ensures
            r == self.rect.size,
    {
        self.rect.size
    }

    pub fn get_position(&self) -> (r: crate::geometry::Position)
        ensures
            r == self.rect.position,
    {
        self.rect.position
    }

    pub fn get_title(&self) -> (r: &Option<String>)
        ensures
            *r == self.title,
    {
        &self.title
    }

    /// Replaces the geometry directly, bypassing the maximized and minimized
    /// checks; the drag interaction uses this.
    pub fn set_render_rect(&mut self, rect: Rect)
        ensures
            *final(self) == (Window { rect, ..*old(self) }),
            old(self).wf() ==> final(self).wf(),
    {
        self.rect = rect;
    }

    pub fn get_render_rect(&self) -> (r: &Rect)
        ensures
            *r == self.rect,
    {
        &self.rect
    }
}

/// Maximizing and minimizing never leave both flags set, and every other
/// bit is preserved. Stated over the raw flag arithmetic once, for all the
/// window transitions above.
proof fn lemma_maximize_flags(f: u8)
    ensures
        ((f | MAXIMIZED_FLAG) & !MINIMIZED_FLAG) & MAXIMIZED_FLAG != 0,
        ((f | MAXIMIZED_FLAG) & !MINIMIZED_FLAG) & MINIMIZED_FLAG == 0,
        (((f | MAXIMIZED_FLAG) & !MINIMIZED_FLAG) & TITLE_BAR_FLAG != 0) == (f & TITLE_BAR_FLAG
            != 0),
        (((f | MAXIMIZED_FLAG) & !MINIMIZED_FLAG) & ACTIVE_FLAG != 0) == (f & ACTIVE_FLAG != 0),
        (((f | MAXIMIZED_FLAG) & !MINIMIZED_FLAG) & HAS_ICON_FLAG != 0) == (f & HAS_ICON_FLAG
            != 0),
{
    assert(((f | 2u8) & !4u8) & 2 != 0 && ((f | 2u8) & !4u8) & 4 == 0 && (((f | 2u8) & !4u8) & 1
        != 0) == (f & 1 != 0) && (((f | 2u8) & !4u8) & 8 != 0) == (f & 8 != 0) && (((f | 2u8)
        & !4u8) & 16 != 0) == (f & 16 != 0)) by (bit_vector);
}

proof fn lemma_minimize_flags(f: u8)
    ensures
        ((f | MINIMIZED_FLAG) & !MAXIMIZED_FLAG) & MINIMIZED_FLAG != 0,
        ((f | MINIMIZED_FLAG) & !MAXIMIZED_FLAG) & MAXIMIZED_FLAG == 0,
        (((f | MINIMIZED_FLAG) & !MAXIMIZED_FLAG) & TITLE_BAR_FLAG != 0) == (f & TITLE_BAR_FLAG
            != 0),
        (((f | MINIMIZED_FLAG) & !MAXIMIZED_FLAG) & ACTIVE_FLAG != 0) == (f & ACTIVE_FLAG != 0),
        (((f | MINIMIZED_FLAG) & !MAXIMIZED_FLAG) & HAS_ICON_FLAG != 0) == (f & HAS_ICON_FLAG
            != 0),
{
    assert(((f | 4u8) & !2u8) & 4 != 0 && ((f | 4u8) & !2u8) & 2 == 0 && (((f | 4u8) & !2u8) & 1
        != 0) == (f & 1 != 0) && (((f | 4u8) & !2u8) & 8 != 0) == (f & 8 != 0) && (((f | 4u8)
        & !2u8) & 16 != 0) == (f & 16 != 0)) by (bit_vector);
}

proof fn lemma_restore_flags(f: u8)
    ensures
        (f & !(MAXIMIZED_FLAG | MINIMIZED_FLAG)) & MAXIMIZED_FLAG == 0,
        (f & !(MAXIMIZED_FLAG | MINIMIZED_FLAG)) & MINIMIZED_FLAG == 0,
        ((f & !(MAXIMIZED_FLAG | MINIMIZED_FLAG)) & TITLE_BAR_FLAG != 0) == (f & TITLE_BAR_FLAG
            != 0),
        ((f & !(MAXIMIZED_FLAG | MINIMIZED_FLAG)) & ACTIVE_FLAG != 0) == (f & ACTIVE_FLAG != 0),
        ((f & !(MAXIMIZED_FLAG | MINIMIZED_FLAG)) & HAS_ICON_FLAG != 0) == (f & HAS_ICON_FLAG
            != 0),
{
    assert((f & !(2u8 | 4u8)) & 2 == 0 && (f & !(2u8 | 4u8)) & 4 == 0 && ((f & !(2u8 | 4u8)) & 1
        != 0) == (f & 1 != 0) && ((f & !(2u8 | 4u8)) & 8 != 0) == (f & 8 != 0) && ((f & !(2u8
        | 4u8)) & 16 != 0) == (f & 16 != 0)) by (bit_vector);
}

proof fn lemma_active_flags(f: u8)
    ensures
        (f | ACTIVE_FLAG) & ACTIVE_FLAG != 0,
        (f & !ACTIVE_FLAG) & ACTIVE_FLAG == 0,
        ((f | ACTIVE_FLAG) & TITLE_BAR_FLAG != 0) == (f & TITLE_BAR_FLAG != 0),
        ((f | ACTIVE_FLAG) & MAXIMIZED_FLAG != 0) == (f & MAXIMIZED_FLAG != 0),
        ((f | ACTIVE_FLAG) & MINIMIZED_FLAG != 0) == (f & MINIMIZED_FLAG != 0),
        ((f | ACTIVE_FLAG) & HAS_ICON_FLAG != 0) == (f & HAS_ICON_FLAG != 0),
        ((f & !ACTIVE_FLAG) & TITLE_BAR_FLAG != 0) == (f & TITLE_BAR_FLAG != 0),
        ((f & !ACTIVE_FLAG) & MAXIMIZED_FLAG != 0) == (f & MAXIMIZED_FLAG != 0),
        ((f & !ACTIVE_FLAG) & MINIMIZED_FLAG != 0) == (f & MINIMIZED_FLAG != 0),
        ((f & !ACTIVE_FLAG) & HAS_ICON_FLAG != 0) == (f & HAS_ICON_FLAG != 0),
{
    assert((f | 8u8) & 8 != 0 && (f & !8u8) & 8 == 0 && ((f | 8u8) & 1 != 0) == (f & 1 != 0) && ((f
        | 8u8) & 2 != 0) == (f & 2 != 0) && ((f | 8u8) & 4 != 0) == (f & 4 != 0) && ((f | 8u8) & 16
        != 0) == (f & 16 != 0) && ((f & !8u8) & 1 != 0) == (f & 1 != 0) && ((f & !8u8) & 2 != 0)
        == (f & 2 != 0) && ((f & !8u8) & 4 != 0) == (f & 4 != 0) && ((f & !8u8) & 16 != 0) == (f
        & 16 != 0)) by (bit_vector);
}

proof fn lemma_icon_flags(f: u8)
    ensures
        (f | HAS_ICON_FLAG) & HAS_ICON_FLAG != 0,
        (f & !HAS_ICON_FLAG) & HAS_ICON_FLAG == 0,
        ((f | HAS_ICON_FLAG) & TITLE_BAR_FLAG != 0) == (f & TITLE_BAR_FLAG != 0),
        ((f | HAS_ICON_FLAG) & MAXIMIZED_FLAG != 0) == (f & MAXIMIZED_FLAG != 0),
        ((f | HAS_ICON_FLAG) & MINIMIZED_FLAG != 0) == (f & MINIMIZED_FLAG != 0),
        ((f | HAS_ICON_FLAG) & ACTIVE_FLAG != 0) == (f & ACTIVE_FLAG != 0),
        ((f & !HAS_ICON_FLAG) & TITLE_BAR_FLAG != 0) == (f & TITLE_BAR_FLAG != 0),
        ((f & !HAS_ICON_FLAG) & MAXIMIZED_FLAG != 0) == (f & MAXIMIZED_FLAG != 0),
        ((f & !HAS_ICON_FLAG) & MINIMIZED_FLAG != 0) == (f & MINIMIZED_FLAG != 0),
        ((f & !HAS_ICON_FLAG) & ACTIVE_FLAG != 0) == (f & ACTIVE_FLAG != 0),
{
    assert((f | 16u8) & 16 != 0 && (f & !16u8) & 16 == 0 && ((f | 16u8) & 1 != 0) == (f & 1 != 0)
        && ((f | 16u8) & 2 != 0) == (f & 2 != 0) && ((f | 16u8) & 4 != 0) == (f & 4 != 0) && ((f
        | 16u8) & 8 != 0) == (f & 8 != 0) && ((f & !16u8) & 1 != 0) == (f & 1 != 0) && ((f & !16u8)
        & 2 != 0) == (f & 2 != 0) && ((f & !16u8) & 4 != 0) == (f & 4 != 0) && ((f & !16u8) & 8
        != 0) == (f & 8 != 0)) by (bit_vector);
}

proof fn lemma_toggle_flags(f: u8)
    ensures
        ((f ^ TITLE_BAR_FLAG) & TITLE_BAR_FLAG != 0) == !(f & TITLE_BAR_FLAG != 0),
        ((f ^ TITLE_BAR_FLAG) & MAXIMIZED_FLAG != 0) == (f & MAXIMIZED_FLAG != 0),
        ((f ^ TITLE_BAR_FLAG) & MINIMIZED_FLAG != 0) == (f & MINIMIZED_FLAG != 0),
        ((f ^ TITLE_BAR_FLAG) & ACTIVE_FLAG != 0) == (f & ACTIVE_FLAG != 0),
        ((f ^ TITLE_BAR_FLAG) & HAS_ICON_FLAG != 0) == (f & HAS_ICON_FLAG != 0),
{
    assert(((f ^ 1u8) & 1 != 0) == !(f & 1 != 0) && ((f ^ 1u8) & 2 != 0) == (f & 2 != 0) && ((f
        ^ 1u8) & 4 != 0) == (f & 4 != 0) && ((f ^ 1u8) & 8 != 0) == (f & 8 != 0) && ((f ^ 1u8) & 16
        != 0) == (f & 16 != 0)) by (bit_vector);
}

/// A maximize followed by a restore brings the window back to the geometry
/// it had before the maximize, with both flags clear and nothing saved.
pub proof fn lemma_maximize_restore(w: Window)
    requires
        w.wf(),
        !w.spec_maximized(),
    ensures
        w.spec_maximize().spec_restore().rect == w.rect,
        !w.spec_maximize().spec_restore().spec_maximized(),
        !w.spec_maximize().spec_restore().spec_minimized(),
        w.spec_maximize().spec_restore().restore_rect is None,
        w.spec_maximize().spec_restore().title == w.title,
        w.spec_maximize().spec_restore().icon == w.icon,
        w.spec_maximize().spec_restore().wf(),
{
    lemma_maximize_flags(w.flags);
    lemma_restore_flags((w.flags | MAXIMIZED_FLAG) & !MINIMIZED_FLAG);
}

/// A minimize followed by a restore brings the window back to the geometry
/// it had before the minimize, with both flags clear and nothing saved.
/// Needs a window that is in neither special state: on a maximized window
/// the restore returns to the geometry saved at the maximize instead.
pub proof fn lemma_minimize_restore(w: Window)
    requires
        w.wf(),
        !w.spec_maximized(),
        !w.spec_minimized(),
    ensures
        w.spec_minimize().spec_restore().rect == w.rect,
        !w.spec_minimize().spec_restore().spec_maximized(),
        !w.spec_minimize().spec_restore().spec_minimized(),
        w.spec_minimize().spec_restore().restore_rect is None,
        w.spec_minimize().spec_restore().title == w.title,
        w.spec_minimize().spec_restore().icon == w.icon,
        w.spec_minimize().spec_restore().wf(),
{
    lemma_minimize_flags(w.flags);
    lemma_restore_flags((w.flags | MINIMIZED_FLAG) & !MAXIMIZED_FLAG);
}

} // verus!
