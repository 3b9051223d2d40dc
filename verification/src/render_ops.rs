//! What the render backend must paint: the per-window rectangles of the
//! window layer and the cursor rectangle of the mouse layer, as plain draw
//! commands. The backend executes them; which rectangles exist, where they
//! lie and in which colours is decided and checked here.

use vstd::prelude::*;
use crate::ScreenSize;
use crate::colour::Colour;
use crate::geometry::{Position, Rect, Size};
use crate::mouse::{sat_add, sat_add_screen};
use crate::window::{Window, TITLE_BAR_HEIGHT, WINDOW_PADDING};

verus! {

/// Side length in pixels of the icon slot in the title bar.
pub const ICON_SIZE: ScreenSize = 20;

/// Offset in pixels of the icon slot from the window corner.
pub const ICON_OFFSET: ScreenSize = 5;

/// Side length in pixels of the painted cursor.
pub const CURSOR_SIZE: ScreenSize = 15;

/// One filled rectangle for the backend to paint.
#[derive(Debug, Clone, Copy, PartialEq, Eq, Structural)]
pub struct DrawOp {
    pub rect: Rect,
    pub colour: Colour,
}

/// The frame rectangle behind a titled window: the body plus padding on
/// both sides and the title-bar strip on top.
pub open spec fn spec_frame_rect(r: Rect) -> Rect {
    Rect {
        position: r.position,
        size: Size {
            width: sat_add(r.size.width as int, 2 * WINDOW_PADDING) as i32,
            height: sat_add(r.size.height as int, TITLE_BAR_HEIGHT + WINDOW_PADDING) as i32,
        },
    }
}

/// The icon slot in a window's title bar.
pub open spec fn spec_icon_rect(r: Rect) -> Rect {
    Rect {
        position: Position {
            x: sat_add(r.position.x as int, ICON_OFFSET as int) as i32,
            y: sat_add(r.position.y as int, ICON_OFFSET as int) as i32,
        },
        size: Size { width: ICON_SIZE, height: ICON_SIZE },
    }
}

/// The body rectangle of a framed window: shifted in by the padding and
/// below the title bar.
pub open spec fn spec_body_rect(r: Rect) -> Rect {
    Rect {
        position: Position {
            x: sat_add(r.position.x as int, WINDOW_PADDING as int) as i32,
            y: sat_add(r.position.y as int, TITLE_BAR_HEIGHT as int) as i32,
        },
        size: r.size,
    }
}

/// The translucent dark frame colour.
pub open spec fn spec_frame_colour() -> Colour {
    Colour { r: 32, g: 32, b: 32, a: 225 }
}

/// The window body colour.
pub open spec fn spec_body_colour() -> Colour {
    Colour { r: 64, g: 64, b: 64, a: 255 }
}

/// The cursor colour.
pub open spec fn spec_cursor_colour() -> Colour {
    Colour { r: 0, g: 255, b: 0, a: 255 }
}

/// What one window contributes to the window layer: nothing while
/// minimized; the full screen while maximized; otherwise its frame and
/// icon slot when the title bar is on, and its body.
pub open spec fn spec_window_draw_ops(w: Window, screen: Rect) -> Seq<DrawOp> {
    if w.spec_minimized() {
        seq![]
    } else if w.spec_maximized() {
        seq![DrawOp { rect: screen, colour: spec_body_colour() }]
    } else {
        let body = seq![DrawOp { rect: spec_body_rect(w.rect), colour: spec_body_colour() }];
        if w.spec_title_bar() {
            let frame = seq![
                DrawOp { rect: spec_frame_rect(w.rect), colour: spec_frame_colour() },
            ];
            if w.spec_has_icon() {
                frame + seq![
                    DrawOp { rect: spec_icon_rect(w.rect), colour: Colour {
                        r: 255,
                        g: 255,
                        b: 255,
                        a: 255,
                    } },
                ] + body
            } else {
                frame + body
            }
        } else {
            body
        }
    }
}

/// The cursor rectangle painted into the mouse layer for a pointer at
/// `(x, y)`.
pub open spec fn spec_cursor_draw_op(x: int, y: int) -> DrawOp {
    DrawOp {
        rect: Rect {
            position: Position { x: sat_add(x, -1) as i32, y: sat_add(y, -2) as i32 },
            size: Size { width: CURSOR_SIZE, height: CURSOR_SIZE },
        },
        colour: spec_cursor_colour(),
    }
}

/// Computes the paint commands one window contributes to the window layer.
pub fn window_draw_ops(w: &Window, screen: &Rect) -> (r: Vec<DrawOp>)
    ensures
        r@ == spec_window_draw_ops(*w, *screen),
{
    let mut r: Vec<DrawOp> = Vec::new();
    if w.is_minimized() {
        proof {
            assert(r@ =~= spec_window_draw_ops(*w, *screen));
        }
        return r;
    }
    if w.is_maximized() {
        r.push(DrawOp { rect: *screen, colour: Colour::grayscale(64) });
        proof {
            assert(r@ =~= spec_window_draw_ops(*w, *screen));
        }
        return r;
    }
    let rect = *w.get_render_rect();
    if w.has_title_bar() {
        r.push(
            DrawOp {
                rect: Rect {
                    position: rect.position,
                    size: Size {
                        width: sat_add_screen(rect.size.width, 2 * WINDOW_PADDING),
                        height: sat_add_screen(rect.size.height, TITLE_BAR_HEIGHT + WINDOW_PADDING),
                    },
                },
                colour: Colour::grayscale_alpha(32, 225),
            },
        );
        if w.has_icon() {
            r.push(
                DrawOp {
                    rect: Rect {
                        position: Position {
                            x: sat_add_screen(rect.position.x, ICON_OFFSET),
                            y: sat_add_screen(rect.position.y, ICON_OFFSET),
                        },
                        size: Size { width: ICON_SIZE, height: ICON_SIZE },
                    },
                    colour: Colour::white(),
                },
            );
        }
    }
    r.push(
        DrawOp {
            rect: Rect {
                position: Position {
                    x: sat_add_screen(rect.position.x, WINDOW_PADDING),
                    y: sat_add_screen(rect.position.y, TITLE_BAR_HEIGHT),
                },
                size: rect.size,
            },
            colour: Colour::grayscale(64),
        },
    );
    proof {
        assert(r@ =~= spec_window_draw_ops(*w, *screen));
    }
    r
}

/// Computes the cursor paint command for a pointer position.
pub fn cursor_draw_op(x: ScreenSize, y: ScreenSize) -> (r: DrawOp)
    ensures
        r == spec_cursor_draw_op(x as int, y as int),
{
    DrawOp {
        rect: Rect {
            position: Position { x: sat_add_screen(x, -1), y: sat_add_screen(y, -2) },
            size: Size { width: CURSOR_SIZE, height: CURSOR_SIZE },
        },
        colour: Colour::green(),
    }
}

} // verus!
