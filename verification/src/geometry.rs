//! Window geometry: positions, sizes and rectangles in signed screen pixels,
//! with the edge-proximity tests that drive window drag and resize.

use vstd::prelude::*;
use crate::ScreenSize;

verus! {

/// A point in screen coordinates.
#[derive(Copy, Clone, Debug, PartialEq, Eq, Structural)]
pub struct Position {
    pub x: ScreenSize,
    pub y: ScreenSize,
}

/// An extent in screen pixels.
#[derive(Copy, Clone, Debug, PartialEq, Eq, Structural)]
pub struct Size {
    pub width: ScreenSize,
    pub height: ScreenSize,
}

/// A rectangle: position of the top-left corner plus size.
#[derive(Copy, Clone, Debug, PartialEq, Eq, Structural)]
pub struct Rect {
    pub position: Position,
    pub size: Size,
}

impl Rect {
    /// True when `(x, y)` lies within the rectangle, borders included.
    pub open spec fn spec_contains(self, x: int, y: int) -> bool {
        let dx = x - self.position.x;
        let dy = y - self.position.y;
        &&& 0 <= dx <= self.size.width
        &&& 0 <= dy <= self.size.height
    }

    /// True when `(x, y)` is within `threshold` of the right edge.
    pub open spec fn spec_near_right(self, x: int, y: int, threshold: int) -> bool {
        let dx = x - self.position.x;
        self.size.width - threshold <= dx <= self.size.width + threshold
    }

    /// True when `(x, y)` is within `threshold` of the bottom edge.
    pub open spec fn spec_near_bottom(self, x: int, y: int, threshold: int) -> bool {
        let dy = y - self.position.y;
        self.size.height - threshold <= dy <= self.size.height + threshold
    }

    /// True when `(x, y)` is within `threshold` below the top edge.
    pub open spec fn spec_near_top(self, x: int, y: int, threshold: int) -> bool {
        let dy = y - self.position.y;
        0 <= dy <= threshold
    }

    /// The edge-proximity bit mask: right edge in bit 0, bottom edge in
    /// bit 1, top edge in bit 2.
    pub open spec fn spec_edge_proximity(self, x: int, y: int, threshold: int) -> u8 {
        ((if self.spec_near_right(x, y, threshold) { 1int } else { 0int })
            + (if self.spec_near_bottom(x, y, threshold) { 2int } else { 0int })
            + (if self.spec_near_top(x, y, threshold) { 4int } else { 0int })) as u8
    }

    pub fn new(x: ScreenSize, y: ScreenSize, width: ScreenSize, height: ScreenSize) -> (r: Rect)
        ensures
            r.position.x == x,
            r.position.y == y,
            r.size.width == width,
            r.size.height == height,
    {
        Rect { position: Position { x, y }, size: Size { width, height } }
    }

    /// Places the rectangle so that its bottom edge sits at `y`; the stored
    /// top coordinate becomes `y` minus the height.
    pub fn set_pos(&mut self, x: ScreenSize, y: ScreenSize)
        requires
            i32::MIN <= old(self).spec_bottom_anchored_top(y as int) <= i32::MAX,
        ensures
            final(self).position.x == x,
            final(self).position.y == old(self).spec_bottom_anchored_top(y as int),
            final(self).size == old(self).size,
    {
        self.position.x = x;
        self.position.y = y - self.size.height;
    }

    /// The top coordinate a rectangle gets when its bottom edge is pinned
    /// at `y`.
    pub open spec fn spec_bottom_anchored_top(self, y: int) -> int {
        y - self.size.height
    }

    pub fn set_size(&mut self, width: ScreenSize, height: ScreenSize)
        ensures
            final(self).size.width == width,
            final(self).size.height == height,
            final(self).position == old(self).position,
    {
        self.size.width = width;
        self.size.height = height;
    }

    pub fn contains(&self, x: ScreenSize, y: ScreenSize) -> (r: bool)
        ensures
            r == self.spec_contains(x as int, y as int),
    {
        let dx: i64 = x as i64 - self.position.x as i64;
        let dy: i64 = y as i64 - self.position.y as i64;
        dx <= self.size.width as i64 && dy <= self.size.height as i64 && dx >= 0 && dy >= 0
    }

    /// Packs the three edge-proximity tests into one bit mask; see
    /// [`Rect::spec_edge_proximity`] for the bit layout.
    pub fn get_edge_proximity(&self, x: ScreenSize, y: ScreenSize, threshold: ScreenSize) -> (r:
        u8)
        ensures
            r == self.spec_edge_proximity(x as int, y as int, threshold as int),
    {
        let dx: i64 = x as i64 - self.position.x as i64;
        let dy: i64 = y as i64 - self.position.y as i64;
        let w: i64 = self.size.width as i64;
        let h: i64 = self.size.height as i64;
        let t: i64 = threshold as i64;

        let near_right = dx >= w - t && dx <= w + t;
        let near_bottom = dy >= h - t && dy <= h + t;
        let near_top = dy >= 0 && dy <= t;

        let mut r: u8 = 0;
        if near_right {
            r = r + 1;
        }
        if near_bottom {
            r = r + 2;
        }
        if near_top {
            r = r + 4;
        }
        r
    }

    pub fn is_near_bottom(&self, x: ScreenSize, y: ScreenSize, threshold: ScreenSize) -> (r: bool)
        ensures
            r == self.spec_near_bottom(x as int, y as int, threshold as int),
    {
        let m = self.get_edge_proximity(x, y, threshold);
        proof {
            lemma_proximity_mask_bits(
                *self,
                x as int,
                y as int,
                threshold as int,
            );
        }
        (m & 0b010) != 0
    }

    pub fn is_near_right(&self, x: ScreenSize, y: ScreenSize, threshold: ScreenSize) -> (r: bool)
        ensures
            r == self.spec_near_right(x as int, y as int, threshold as int),
    {
        let m = self.get_edge_proximity(x, y, threshold);
        proof {
            lemma_proximity_mask_bits(
                *self,
                x as int,
                y as int,
                threshold as int,
            );
        }
        (m & 0b001) != 0
    }

    pub fn is_near_bottom_right(&self, x: ScreenSize, y: ScreenSize, threshold: ScreenSize) -> (r:
        bool)
        ensures
            r == (self.spec_near_right(x as int, y as int, threshold as int)
                && self.spec_near_bottom(x as int, y as int, threshold as int)),
    {
        let m = self.get_edge_proximity(x, y, threshold);
        proof {
            lemma_proximity_mask_bits(
                *self,
                x as int,
                y as int,
                threshold as int,
            );
        }
        (m & 0b011) == 0b011
    }

    pub fn is_near_top(&self, x: ScreenSize, y: ScreenSize, threshold: ScreenSize) -> (r: bool)
        ensures
            r == self.spec_near_top(x as int, y as int, threshold as int),
    {
        let m = self.get_edge_proximity(x, y, threshold);
        proof {
            lemma_proximity_mask_bits(
                *self,
                x as int,
                y as int,
                threshold as int,
            );
        }
        (m & 0b100) != 0
    }
}

/// Each proximity test can be read back out of the packed mask.
proof fn lemma_proximity_mask_bits(r: Rect, x: int, y: int, t: int)
    ensures
        (r.spec_edge_proximity(x, y, t) & 0b001 != 0) == r.spec_near_right(x, y, t),
        (r.spec_edge_proximity(x, y, t) & 0b010 != 0) == r.spec_near_bottom(x, y, t),
        (r.spec_edge_proximity(x, y, t) & 0b100 != 0) == r.spec_near_top(x, y, t),
        ((r.spec_edge_proximity(x, y, t) & 0b011) == 0b011) == (r.spec_near_right(x, y, t)
            && r.spec_near_bottom(x, y, t)),
{
    let a: u8 = if r.spec_near_right(x, y, t) { 1 } else { 0 };
    let b: u8 = if r.spec_near_bottom(x, y, t) { 1 } else { 0 };
    let c: u8 = if r.spec_near_top(x, y, t) { 1 } else { 0 };
    assert(r.spec_edge_proximity(x, y, t) == (a + 2 * b + 4 * c) as u8);
    assert(a <= 1 && b <= 1 && c <= 1 ==> {
        let m = (a + 2 * b + 4 * c) as u8;
        &&& (m & 0b001 != 0) == (a == 1)
        &&& (m & 0b010 != 0) == (b == 1)
        &&& (m & 0b100 != 0) == (c == 1)
        &&& ((m & 0b011) == 0b011) == (a == 1 && b == 1)
    }) by (bit_vector);
}

} // verus!
