//! The authoritative display model: the window map, pointer state, dirty
//! flags and the per-frame render decisions.
//!
//! The render backend is a collaborator: each call of [`DisplayServer::tick`]
//! returns the [`FrameOps`] the backend must perform for that frame, so the
//! decision of what to rebuild is checked here while the drawing itself
//! happens outside.

use vstd::prelude::*;
use std::collections::HashMap;
use crate::ScreenSize;
use crate::geometry::{Position, Rect, Size};
use crate::mouse::Mouse;
use crate::window::{Window, ACTIVE_FLAG, TITLE_BAR_HEIGHT, WINDOW_PADDING};

verus! {

/// Pixel distance within which an edge counts as grabbed for resizing.
pub const RESIZE_THRESHOLD: ScreenSize = 7;

/// The render work one frame asks of the backend. Each `rerender` field is
/// set exactly when the matching layer was dirty this frame.
#[derive(Clone, Copy, Debug, PartialEq, Eq)]
pub struct FrameOps {
    /// Rebuild the cursor layer at this pointer position.
    pub rerender_mouse: Option<(ScreenSize, ScreenSize)>,
    /// Rebuild the window layer from the current window map.
    pub rerender_windows: bool,
    /// Rebuild the background layer.
    pub rerender_background: bool,
    /// Composite the three layers to the screen; false only while the
    /// display is suspended.
    pub composite: bool,
}

/// A width or height grown by a drag, clamped below at 200 pixels and kept
/// representable above.
pub open spec fn clamp_dim(v: int) -> int {
    if v > i32::MAX {
        i32::MAX as int
    } else if v < 200 {
        200
    } else {
        v
    }
}

/// A coordinate moved by a drag, clamped into `[0, hi]` (with `hi` first
/// brought into the representable range; an upper bound below zero pins the
/// coordinate at zero).
pub open spec fn clamp_pos(v: int, hi: int) -> int {
    let hi2 = if hi > i32::MAX {
        i32::MAX as int
    } else {
        hi
    };
    let m = if v > hi2 {
        hi2
    } else {
        v
    };
    if m < 0 {
        0
    } else {
        m
    }
}

fn clamp_dim_exec(base: ScreenSize, delta: ScreenSize) -> (r: ScreenSize)
    ensures
        r as int == clamp_dim(base + delta),
{
    let wide: i64 = base as i64 + delta as i64;
    if wide > i32::MAX as i64 {
        i32::MAX
    } else if wide < 200 {
        200
    } else {
        wide as i32
    }
}

fn clamp_pos_exec(base: ScreenSize, delta: ScreenSize, screen: ScreenSize, size: ScreenSize) -> (r:
    ScreenSize)
    ensures
        r as int == clamp_pos(base + delta, screen - size),
{
    let v: i64 = base as i64 + delta as i64;
    let hi: i64 = screen as i64 - size as i64;
    let hi2: i64 = if hi > i32::MAX as i64 {
        i32::MAX as i64
    } else {
        hi
    };
    let m: i64 = if v > hi2 {
        hi2
    } else {
        v
    };
    if m < 0 {
        0
    } else {
        m as i32
    }
}

/// Division by two truncating toward zero, the rounding screen centring
/// uses.
pub open spec fn div2_toward_zero(v: int) -> int {
    if v >= 0 {
        v / 2
    } else {
        -((-v) / 2)
    }
}

fn half_screen(v: ScreenSize) -> (r: ScreenSize)
    ensures
        r as int == div2_toward_zero(v as int),
        -1073741824 <= r <= 1073741823,
{
    if v >= 0 {
        let h: u32 = (v as u32) / 2;
        h as i32
    } else {
        let neg: u32 = (-(v as i64)) as u32;
        let h: u32 = neg / 2;
        -(h as i32)
    }
}

/// The window a drag produces from `w` this frame: the grabbed corner or
/// edge resizes, the title-bar strip moves; only the geometry changes.
pub open spec fn spec_dragged_window(w: Window, m: Mouse, sw: int, sh: int) -> Window {
    Window { rect: spec_drag_rect(w.rect, m, sw, sh), ..w }
}

/// The rectangle a drag produces: near the bottom-right corner both extents
/// grow by the relative motion, near the right or bottom edge one extent
/// grows, within the title-bar strip the position moves, clamped to the
/// screen; each dimension resize is clamped at 200 pixels minimum.
pub open spec fn spec_drag_rect(r: Rect, m: Mouse, sw: int, sh: int) -> Rect {
    let x = m.x as int;
    let y = m.y as int;
    if r.spec_near_right(x, y, RESIZE_THRESHOLD as int) && r.spec_near_bottom(
        x,
        y,
        RESIZE_THRESHOLD as int,
    ) {
        Rect {
            position: r.position,
            size: Size {
                width: clamp_dim(r.size.width + m.rel_x) as i32,
                height: clamp_dim(r.size.height + m.rel_y) as i32,
            },
        }
    } else if r.spec_near_right(x, y, RESIZE_THRESHOLD as int) {
        Rect {
            position: r.position,
            size: Size { width: clamp_dim(r.size.width + m.rel_x) as i32, ..r.size },
        }
    } else if r.spec_near_bottom(x, y, RESIZE_THRESHOLD as int) {
        Rect {
            position: r.position,
            size: Size { height: clamp_dim(r.size.height + m.rel_y) as i32, ..r.size },
        }
    } else if r.spec_near_top(x, y, TITLE_BAR_HEIGHT + WINDOW_PADDING) {
        Rect {
            position: Position {
                x: clamp_pos(r.position.x + m.rel_x, sw - r.size.width) as i32,
                y: clamp_pos(r.position.y + m.rel_y, sh - r.size.height) as i32,
            },
            size: r.size,
        }
    } else {
        r
    }
}

/// Whether the pointer grabbed any drag zone of `r`, which is what marks
/// the window layer dirty.
pub open spec fn spec_drag_hit(r: Rect, m: Mouse) -> bool {
    let x = m.x as int;
    let y = m.y as int;
    ||| r.spec_near_right(x, y, RESIZE_THRESHOLD as int)
    ||| r.spec_near_bottom(x, y, RESIZE_THRESHOLD as int)
    ||| r.spec_near_top(x, y, TITLE_BAR_HEIGHT + WINDOW_PADDING)
}

/// The given window with only its focus flag changed.
pub open spec fn spec_with_active(w: Window, active: bool) -> Window {
    Window {
        flags: if active {
            w.flags | ACTIVE_FLAG
        } else {
            w.flags & !ACTIVE_FLAG
        },
        ..w
    }
}

/// The display server: sole owner of the window map, pointer state, screen
/// geometry and the three per-layer dirty flags.
pub struct DisplayServer {
    pub windows: HashMap<u64, Window>,
    pub mouse: Mouse,
    pub low_state_mode: bool,
    pub is_mouse_dirty: bool,
    pub is_window_dirty: bool,
    pub is_background_dirty: bool,
    /// True once the render backend has been set up; rendering decisions
    /// are only made after that.
    pub renderer_ready: bool,
    /// The window holding input focus, if any.
    pub active_id: Option<u64>,
    pub width: ScreenSize,
    pub height: ScreenSize,
}

impl DisplayServer {
    /// Every stored window is well-formed.
    pub open spec fn windows_wf(self) -> bool {
        forall|id: u64| #[trigger]
            self.windows@.contains_key(id) ==> self.windows@[id].wf()
    }

    /// The focus bookkeeping is coherent: `active_id` names a stored,
    /// focused window, and no other window carries the focus flag. In
    /// particular at most one window is active at a time.
    pub open spec fn active_consistent(self) -> bool {
        &&& match self.active_id {
            Some(a) => self.windows@.contains_key(a) && self.windows@[a].spec_active(),
            None => true,
        }
        &&& forall|id: u64|
            self.windows@.contains_key(id) && #[trigger] self.windows@[id].spec_active()
                ==> self.active_id == Some(id)
    }

    pub open spec fn wf(self) -> bool {
        &&& self.windows_wf()
        &&& self.active_consistent()
    }

    /// The window map after the per-frame drag interaction.
    pub open spec fn spec_windows_after_update(self) -> Map<u64, Window> {
        if self.spec_drag_active() {
            let id = self.active_id->0;
            self.windows@.insert(
                id,
                spec_dragged_window(
                    self.windows@[id],
                    self.mouse,
                    self.width as int,
                    self.height as int,
                ),
            )
        } else {
            self.windows@
        }
    }

    /// True when the drag interaction applies this frame: a window has
    /// focus and the left button is held.
    pub open spec fn spec_drag_active(self) -> bool {
        &&& self.mouse.button_left
        &&& self.active_id is Some
        &&& self.windows@.contains_key(self.active_id->0)
    }

    /// The window-layer dirty flag after the per-frame drag interaction.
    pub open spec fn spec_window_dirty_after_update(self) -> bool {
        self.is_window_dirty || (self.spec_drag_active() && spec_drag_hit(
            self.windows@[self.active_id->0].rect,
            self.mouse,
        ))
    }

    pub fn new() -> (s: Self)
        ensures
            s.windows@ == Map::<u64, Window>::empty(),
            s.mouse == Mouse::spec_initial(),
            !s.low_state_mode,
            !s.is_mouse_dirty,
            !s.is_window_dirty,
            !s.is_background_dirty,
            !s.renderer_ready,
            s.active_id is None,
            s.width == 0,
            s.height == 0,
            s.wf(),
    {
        Self {
            windows: HashMap::new(),
            mouse: Mouse::new(),
            low_state_mode: false,
            is_window_dirty: false,
            is_mouse_dirty: false,
            is_background_dirty: false,
            renderer_ready: false,
            active_id: None,
            width: 0,
            height: 0,
        }
    }

    /// A rectangle of the given size centred on the screen, for initial
    /// placement.
    pub fn get_center(&self, window_width: ScreenSize, window_height: ScreenSize) -> (r: Rect)
        ensures
            r.position.x as int == div2_toward_zero(self.width as int) - div2_toward_zero(
                window_width as int,
            ),
            r.position.y as int == div2_toward_zero(self.height as int) - div2_toward_zero(
                window_height as int,
            ),
            r.size.width == window_width,
            r.size.height == window_height,
    {
        let x: i64 = half_screen(self.width) as i64 - half_screen(window_width) as i64;
        let y: i64 = half_screen(self.height) as i64 - half_screen(window_height) as i64;
        Rect::new(x as i32, y as i32, window_width, window_height)
    }

    /// Applies relative pointer motion and marks the cursor layer dirty.
    pub fn update_mouse_pos(&mut self, x: ScreenSize, y: ScreenSize)
        ensures
            *final(self) == (DisplayServer {
                mouse: final(self).mouse,
                is_mouse_dirty: true,
                ..*old(self)
            }),
            final(self).mouse.rel_x == x,
            final(self).mouse.rel_y == y,
            final(self).mouse.x == crate::mouse::sat_add(old(self).mouse.x as int, x as int),
            final(self).mouse.y == crate::mouse::sat_add(old(self).mouse.y as int, y as int),
            final(self).mouse.button_left == old(self).mouse.button_left,
            final(self).mouse.button_right == old(self).mouse.button_right,
            final(self).mouse.button_middle == old(self).mouse.button_middle,
            old(self).wf() ==> final(self).wf(),
    {
        self.is_mouse_dirty = true;
        self.mouse.add_position(x, y);
    }

    /// Accumulates wheel motion. The cursor layer is unchanged by wheel
    /// input, so no dirty flag is set.
    pub fn update_mouse_wheel_delta(&mut self, x: ScreenSize, y: ScreenSize)
        ensures
            *final(self) == (DisplayServer { mouse: final(self).mouse, ..*old(self) }),
            final(self).mouse == (Mouse {
                wheel_delta_x: final(self).mouse.wheel_delta_x,
                wheel_delta_y: final(self).mouse.wheel_delta_y,
                ..old(self).mouse
            }),
            final(self).mouse.wheel_delta_x == crate::mouse::sat_add(
                old(self).mouse.wheel_delta_x as int,
                x as int,
            ),
            final(self).mouse.wheel_delta_y == crate::mouse::sat_add(
                old(self).mouse.wheel_delta_y as int,
                y as int,
            ),
            final(self).is_mouse_dirty == old(self).is_mouse_dirty,
            old(self).wf() ==> final(self).wf(),
    {
        self.mouse.add_wheel_delta(x, y);
    }

    /// Records a button transition: code 0 is left, 1 is right, 2 is
    /// middle; other codes are ignored.
    pub fn update_button_state(&mut self, button: u8, state: bool)
        ensures
            *final(self) == (DisplayServer { mouse: final(self).mouse, ..*old(self) }),
            final(self).mouse == (Mouse {
                button_left: if button == 0 {
                    state
                } else {
                    old(self).mouse.button_left
                },
                button_right: if button == 1 {
                    state
                } else {
                    old(self).mouse.button_right
                },
                button_middle: if button == 2 {
                    state
                } else {
                    old(self).mouse.button_middle
                },
                ..old(self).mouse
            }),
            old(self).wf() ==> final(self).wf(),
    {
        match button {
            0u8 => {
                self.mouse.set_left_button(state);
            },
            1u8 => {
                self.mouse.set_right_button(state);
            },
            2u8 => {
                self.mouse.set_middle_button(state);
            },
            _ => {},
        }
    }

    pub fn contains_window(&self, window_id: u64) -> (r: bool)
        ensures
            r == self.windows@.contains_key(window_id),
    {
        self.windows.contains_key(&window_id)
    }

    /// Stores `window` under the fresh identifier `id`, gives it focus and
    /// takes focus from the previous holder; rejected if `id` is already
    /// taken. Marks the window layer dirty.
    pub fn add_window(&mut self, window: Window, id: u64) -> (added: bool)
        requires
            old(self).wf(),
            window.wf(),
        ensures
            final(self).wf(),
            old(self).windows@.contains_key(id) ==> (!added && *final(self) == *old(self)),
            !old(self).windows@.contains_key(id) ==> {
                &&& added
                &&& final(self).windows@ == (match old(self).active_id {
                    Some(a) => old(self).windows@.insert(
                        a,
                        spec_with_active(old(self).windows@[a], false),
                    ),
                    None => old(self).windows@,
                }).insert(id, spec_with_active(window, true))
                &&& *final(self) == (DisplayServer {
                    windows: final(self).windows,
                    active_id: Some(id),
                    is_window_dirty: true,
                    ..*old(self)
                })
            },
    {
        if self.windows.contains_key(&id) {
            return false;
        }
        if let Some(a) = self.active_id {
            let prev = self.windows.remove(&a);
            match prev {
                Some(mut prev_w) => {
                    prev_w.set_active(false);
                    self.windows.insert(a, prev_w);
                    proof {
                        assert(self.windows@ =~= old(self).windows@.insert(
                            a,
                            spec_with_active(old(self).windows@[a], false),
                        ));
                    }
                },
                None => {
                    // `active_id` always names a stored window.
                    proof {
                        assert(false);
                    }
                },
            }
        }
        let mut window = window;
        window.set_active(true);
        self.windows.insert(id, window);
        self.active_id = Some(id);
        self.is_window_dirty = true;
        proof {
            let fin = *self;
            let pre = *old(self);
            assert forall|k: u64|
                fin.windows@.contains_key(k) && #[trigger] fin.windows@[k].spec_active()
                    implies fin.active_id == Some(k) by {
                if k != id {
                    match pre.active_id {
                        Some(a) => {
                            if k == a {
                            } else {
                                assert(pre.windows@.contains_key(k));
                            }
                        },
                        None => {
                            assert(pre.windows@.contains_key(k));
                        },
                    }
                }
            }
        }
        true
    }

    pub fn get_window_size(&self, window_id: u64) -> (r: Option<Size>)
        ensures
            match r {
                Some(s) => self.windows@.contains_key(window_id) && s
                    == self.windows@[window_id].rect.size,
                None => !self.windows@.contains_key(window_id),
            },
    {
        match self.windows.get(&window_id) {
            Some(w) => Some(w.get_render_rect().size),
            None => None,
        }
    }

    pub fn get_window_pos(&self, window_id: u64) -> (r: Option<Position>)
        ensures
            match r {
                Some(p) => self.windows@.contains_key(window_id) && p
                    == self.windows@[window_id].rect.position,
                None => !self.windows@.contains_key(window_id),
            },
    {
        match self.windows.get(&window_id) {
            Some(w) => Some(w.get_render_rect().position),
            None => None,
        }
    }

    /// Tags the window layer for re-render; the actual pixel upload is the
    /// backend's business.
    pub fn update_window_frame_buffer(&mut self, window_id: u64, frame_buffer_data: &Vec<u8>)
        ensures
            *final(self) == (DisplayServer { is_window_dirty: true, ..*old(self) }),
            old(self).wf() ==> final(self).wf(),
    {
        self.is_window_dirty = true;
    }

    /// Removes the window if present and marks the window layer dirty.
    /// Removing an absent identifier is a no-op, never an error, so a
    /// second call with the same identifier changes nothing further.
    pub fn remove_window(&mut self, window_id: u64)
        ensures
            final(self).windows@ == old(self).windows@.remove(window_id),
            *final(self) == (DisplayServer {
                windows: final(self).windows,
                is_window_dirty: true,
                active_id: if old(self).active_id == Some(window_id) {
                    None
                } else {
                    old(self).active_id
                },
                ..*old(self)
            }),
            old(self).wf() ==> final(self).wf(),
    {
        self.windows.remove(&window_id);
        self.is_window_dirty = true;
        match self.active_id {
            Some(a) => {
                if a == window_id {
                    self.active_id = None;
                }
            },
            None => {},
        }
    }

    /// Records that the render backend exists and owns a viewport of the
    /// given dimensions.
    pub fn setup_renderer(&mut self, width: ScreenSize, height: ScreenSize)
        ensures
            *final(self) == (DisplayServer { renderer_ready: true, width, height, ..*old(self) }),
            old(self).wf() ==> final(self).wf(),
    {
        self.renderer_ready = true;
        self.width = width;
        self.height = height;
    }

    /// The per-frame drag interaction: while the left button is held, the
    /// focused window is resized or moved according to which zone the
    /// pointer grabbed.
    pub fn update(&mut self)
        requires
            old(self).wf(),
        ensures
            final(self).wf(),
            final(self).windows@ == old(self).spec_windows_after_update(),
            final(self).is_window_dirty == old(self).spec_window_dirty_after_update(),
            *final(self) == (DisplayServer {
                windows: final(self).windows,
                is_window_dirty: final(self).is_window_dirty,
                ..*old(self)
            }),
    {
        if !self.mouse.is_left_button_pressed() {
            return ;
        }
        let id = match self.active_id {
            Some(a) => a,
            None => {
                return ;
            },
        };
        let w_opt = self.windows.remove(&id);
        let mut w = match w_opt {
            Some(w) => w,
            None => {
                // `active_id` always names a stored window.
                proof {
                    assert(false);
                }
                return ;
            },
        };
        let rect = *w.get_render_rect();
        let mx = self.mouse.get_x();
        let my = self.mouse.get_y();
        let rel_x = self.mouse.get_rel_x();
        let rel_y = self.mouse.get_rel_y();
        let near_r = rect.is_near_right(mx, my, RESIZE_THRESHOLD);
        let near_b = rect.is_near_bottom(mx, my, RESIZE_THRESHOLD);
        let near_t = rect.is_near_top(mx, my, TITLE_BAR_HEIGHT + WINDOW_PADDING);
        let mut new_rect = rect;
        let mut hit = false;
        if near_r && near_b {
            new_rect.size.width = clamp_dim_exec(rect.size.width, rel_x);
            new_rect.size.height = clamp_dim_exec(rect.size.height, rel_y);
            hit = true;
        } else if near_r {
            new_rect.size.width = clamp_dim_exec(rect.size.width, rel_x);
            hit = true;
        } else if near_b {
            new_rect.size.height = clamp_dim_exec(rect.size.height, rel_y);
            hit = true;
        } else if near_t {
            new_rect.position.x = clamp_pos_exec(rect.position.x, rel_x, self.width,
                rect.size.width);
            new_rect.position.y = clamp_pos_exec(rect.position.y, rel_y, self.height,
                rect.size.height);
            hit = true;
        }
        proof {
            assert(new_rect == spec_drag_rect(
                rect,
                old(self).mouse,
                old(self).width as int,
                old(self).height as int,
            ));
            assert(hit == spec_drag_hit(rect, old(self).mouse));
        }
        w.set_render_rect(new_rect);
        self.windows.insert(id, w);
        if hit {
            self.is_window_dirty = true;
        }
        proof {
            assert(self.windows@ =~= old(self).spec_windows_after_update());
        }
    }

    /// The compositor heartbeat. Runs the drag interaction, then asks the
    /// backend to rebuild exactly the layers whose dirty flag was set,
    /// clearing the flags; in low-state mode nothing happens at all.
    pub fn tick(&mut self) -> (ops: FrameOps)
        requires
            old(self).wf(),
            old(self).low_state_mode || old(self).renderer_ready,
        ensures
            final(self).wf(),
            old(self).low_state_mode ==> {
                &&& *final(self) == *old(self)
                &&& ops == (FrameOps {
                    rerender_mouse: None,
                    rerender_windows: false,
                    rerender_background: false,
                    composite: false,
                })
            },
            !old(self).low_state_mode ==> {
                &&& ops.composite
                &&& ops.rerender_mouse == (if old(self).is_mouse_dirty {
                    Some((old(self).mouse.x, old(self).mouse.y))
                } else {
                    None::<(ScreenSize, ScreenSize)>
                })
                &&& ops.rerender_windows == old(self).spec_window_dirty_after_update()
                &&& ops.rerender_background == old(self).is_background_dirty
                &&& final(self).windows@ == old(self).spec_windows_after_update()
                &&& !final(self).is_mouse_dirty
                &&& !final(self).is_window_dirty
                &&& !final(self).is_background_dirty
                &&& *final(self) == (DisplayServer {
                    windows: final(self).windows,
                    is_mouse_dirty: false,
                    is_window_dirty: false,
                    is_background_dirty: false,
                    ..*old(self)
                })
            },
    {
        if self.low_state_mode {
            return FrameOps {
                rerender_mouse: None,
                rerender_windows: false,
                rerender_background: false,
                composite: false,
            };
        }
        self.update();
        let rerender_mouse = if self.is_mouse_dirty {
            self.is_mouse_dirty = false;
            Some((self.mouse.get_x(), self.mouse.get_y()))
        } else {
            None
        };
        let rerender_windows = self.is_window_dirty;
        self.is_window_dirty = false;
        let rerender_background = self.is_background_dirty;
        self.is_background_dirty = false;
        FrameOps { rerender_mouse, rerender_windows, rerender_background, composite: true }
    }

    /// Drops the render backend and every window.
    pub fn cleanup(&mut self)
        ensures
            final(self).windows@ == Map::<u64, Window>::empty(),
            *final(self) == (DisplayServer {
                windows: final(self).windows,
                renderer_ready: false,
                active_id: None,
                ..*old(self)
            }),
            final(self).wf(),
    {
        self.windows.clear();
        self.renderer_ready = false;
        self.active_id = None;
    }
}

/// No two distinct windows are active at once: any two active identifiers
/// in a well-formed display server coincide.
pub proof fn lemma_at_most_one_active(s: DisplayServer, i: u64, j: u64)
    requires
        s.wf(),
        s.windows@.contains_key(i),
        s.windows@[i].spec_active(),
        s.windows@.contains_key(j),
        s.windows@[j].spec_active(),
    ensures
        i == j,
{
}

/// Removing a window identifier is idempotent: a second removal of the same
/// identifier leaves the window map exactly as the first left it.
pub proof fn lemma_remove_window_idempotent(m: Map<u64, Window>, id: u64)
    ensures
        m.remove(id).remove(id) == m.remove(id),
{
    assert(m.remove(id).remove(id) =~= m.remove(id));
}

} // verus!
