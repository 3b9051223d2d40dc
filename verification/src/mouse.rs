//! Pointer state: absolute position, per-frame relative motion, accumulated
//! wheel deltas and the three button flags.

use vstd::prelude::*;
use crate::ScreenSize;

verus! {

/// Addition on screen coordinates that stops at the representable ends
/// instead of wrapping.
pub open spec fn sat_add(a: int, b: int) -> int {
    if a + b > i32::MAX {
        i32::MAX as int
    } else if a + b < i32::MIN {
        i32::MIN as int
    } else {
        a + b
    }
}

/// Saturating add on `ScreenSize` values.
pub fn sat_add_screen(a: ScreenSize, b: ScreenSize) -> (r: ScreenSize)
    ensures
        r == sat_add(a as int, b as int),
{
    let wide: i64 = a as i64 + b as i64;
    if wide > i32::MAX as i64 {
        i32::MAX
    } else if wide < i32::MIN as i64 {
        i32::MIN
    } else {
        wide as i32
    }
}

/// The pointer model the display server consumes.
#[derive(Copy, Clone, Debug, PartialEq, Eq, Structural)]
pub struct Mouse {
    pub x: ScreenSize,
    pub y: ScreenSize,
    pub rel_x: ScreenSize,
    pub rel_y: ScreenSize,
    pub wheel_delta_x: ScreenSize,
    pub wheel_delta_y: ScreenSize,
    pub button_left: bool,
    pub button_middle: bool,
    pub button_right: bool,
}

impl Mouse {
    pub fn new() -> (m: Mouse)
        ensures
            m == Mouse::spec_initial(),
    {
        Mouse {
            x: 0,
            y: 0,
            rel_x: 0,
            rel_y: 0,
            wheel_delta_x: 0,
            wheel_delta_y: 0,
            button_left: false,
            button_middle: false,
            button_right: false,
        }
    }

    /// The state a fresh pointer starts in: origin, no motion, no buttons.
    pub open spec fn spec_initial() -> Mouse {
        Mouse {
            x: 0,
            y: 0,
            rel_x: 0,
            rel_y: 0,
            wheel_delta_x: 0,
            wheel_delta_y: 0,
            button_left: false,
            button_middle: false,
            button_right: false,
        }
    }

    pub fn is_left_button_pressed(&self) -> (r: bool)
        ensures
            r == self.button_left,
    {
        self.button_left
    }

    pub fn is_right_button_pressed(&self) -> (r: bool)
        ensures
            r == self.button_right,
    {
        self.button_right
    }

    pub fn is_middle_button_pressed(&self) -> (r: bool)
        ensures
            r == self.button_middle,
    {
        self.button_middle
    }

    pub fn get_wheel_delta_x(&self) -> (r: ScreenSize)
        ensures
            r == self.wheel_delta_x,
    {
        self.wheel_delta_x
    }

    pub fn get_wheel_delta_y(&self) -> (r: ScreenSize)
        ensures
            r == self.wheel_delta_y,
    {
        self.wheel_delta_y
    }

    pub fn get_x(&self) -> (r: ScreenSize)
        ensures
            r == self.x,
    {
        self.x
    }

    pub fn get_y(&self) -> (r: ScreenSize)
        ensures
            r == self.y,
    {
        self.y
    }

    pub fn get_rel_x(&self) -> (r: ScreenSize)
        ensures
            r == self.rel_x,
    {
        self.rel_x
    }

    pub fn get_rel_y(&self) -> (r: ScreenSize)
        ensures
            r == self.rel_y,
    {
        self.rel_y
    }

    /// Accumulates wheel motion; saturates at the ends of the range.
    pub fn add_wheel_delta(&mut self, x: ScreenSize, y: ScreenSize)
        ensures
            final(self).wheel_delta_x == sat_add(old(self).wheel_delta_x as int, x as int),
            final(self).wheel_delta_y == sat_add(old(self).wheel_delta_y as int, y as int),
            *final(self) == (Mouse {
                wheel_delta_x: final(self).wheel_delta_x,
                wheel_delta_y: final(self).wheel_delta_y,
                ..*old(self)
            }),
    {
        self.wheel_delta_x = sat_add_screen(self.wheel_delta_x, x);
        self.wheel_delta_y = sat_add_screen(self.wheel_delta_y, y);
    }

    /// Applies one relative motion: the relatives record the step and the
    /// absolute position advances by it, saturating at the range ends.
    pub fn add_position(&mut self, x: ScreenSize, y: ScreenSize)
        ensures
            final(self).rel_x == x,
            final(self).rel_y == y,
            final(self).x == sat_add(old(self).x as int, x as int),
            final(self).y == sat_add(old(self).y as int, y as int),
            *final(self) == (Mouse {
                x: final(self).x,
                y: final(self).y,
                rel_x: x,
                rel_y: y,
                ..*old(self)
            }),
    {
        self.rel_x = x;
        self.x = sat_add_screen(self.x, x);
        self.rel_y = y;
        self.y = sat_add_screen(self.y, y);
    }

    pub fn set_left_button(&mut self, button: bool)
        ensures
            *final(self) == (Mouse { button_left: button, ..*old(self) }),
    {
        self.button_left = button;
    }

    pub fn set_right_button(&mut self, button: bool)
        ensures
            *final(self) == (Mouse { button_right: button, ..*old(self) }),
    {
        self.button_right = button;
    }

    pub fn set_middle_button(&mut self, button: bool)
        ensures
            *final(self) == (Mouse { button_middle: button, ..*old(self) }),
    {
        self.button_middle = button;
    }
}

} // verus!
