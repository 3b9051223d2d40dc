//! Axis-aligned rectangle in unsigned framebuffer coordinates, used by the
//! render backend for layer and glyph placement.

use vstd::prelude::*;

verus! {

/// A rectangle over unsigned pixel coordinates.
#[derive(Copy, Clone, Debug, PartialEq, Eq, Structural)]
pub struct Rect {
    pub x: u32,
    pub y: u32,
    pub width: u32,
    pub height: u32,
}

impl Rect {
    pub fn new(x: u32, y: u32, width: u32, height: u32) -> (r: Rect)
        ensures
            r.x == x,
            r.y == y,
            r.width == width,
            r.height == height,
    {
        Rect { x, y, width, height }
    }

    pub fn top_left(&self) -> (r: (u32, u32))
        ensures
            r.0 == self.x,
            r.1 == self.y,
    {
        (self.x, self.y)
    }

    pub fn top_right(&self) -> (r: (u32, u32))
        requires
            self.x + self.width <= u32::MAX,
        ensures
            r.0 == self.x + self.width,
            r.1 == self.y,
    {
        (self.x + self.width, self.y)
    }

    pub fn bottom_right(&self) -> (r: (u32, u32))
        requires
            self.x + self.width <= u32::MAX,
            self.y + self.height <= u32::MAX,
        ensures
            r.0 == self.x + self.width,
            r.1 == self.y + self.height,
    {
        (self.x + self.width, self.y + self.height)
    }

    pub fn bottom_left(&self) -> (r: (u32, u32))
        requires
            self.y + self.height <= u32::MAX,
        ensures
            r.0 == self.x,
            r.1 == self.y + self.height,
    {
        (self.x, self.y + self.height)
    }

    pub fn set_pos(&mut self, x: u32, y: u32)
        ensures
            final(self).x == x,
            final(self).y == y,
            final(self).width == old(self).width,
            final(self).height == old(self).height,
    {
        self.x = x;
        self.y = y;
    }

    pub fn set_width(&mut self, width: u32)
        ensures
            *final(self) == (Rect { width, ..*old(self) }),
    {
        self.width = width;
    }

    pub fn set_height(&mut self, height: u32)
        ensures
            *final(self) == (Rect { height, ..*old(self) }),
    {
        self.height = height;
    }

    pub fn set_size(&mut self, width: u32, height: u32)
        ensures
            *final(self) == (Rect { width, height, ..*old(self) }),
    {
        self.width = width;
        self.height = height;
    }
}

} // verus!
