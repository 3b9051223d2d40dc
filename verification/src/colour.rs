//! RGBA colour with 8-bit channels, as handed to the render backend.

use vstd::prelude::*;

verus! {

/// An RGBA colour; each channel ranges over 0..=255.
#[derive(Debug, Clone, Copy, PartialEq, Eq, Structural)]
pub struct Colour {
    pub r: u8,
    pub g: u8,
    pub b: u8,
    pub a: u8,
}

impl Colour {
    pub fn new(r: u8, g: u8, b: u8, a: u8) -> (c: Self)
        ensures
            c.r == r,
            c.g == g,
            c.b == b,
            c.a == a,
    {
        Self { r, g, b, a }
    }

    pub fn rgb(r: u8, g: u8, b: u8) -> (c: Self)
        ensures
            c.r == r,
            c.g == g,
            c.b == b,
            c.a == 255,
    {
        Self::new(r, g, b, 255)
    }

    pub fn grayscale(gray: u8) -> (c: Self)
        ensures
            c.r == gray,
            c.g == gray,
            c.b == gray,
            c.a == 255,
    {
        Self::new(gray, gray, gray, 255)
    }

    pub fn grayscale_alpha(gray: u8, a: u8) -> (c: Self)
        ensures
            c.r == gray,
            c.g == gray,
            c.b == gray,
            c.a == a,
    {
        Self::new(gray, gray, gray, a)
    }

    pub fn black() -> (c: Self)
        ensures
            c.r == 0 && c.g == 0 && c.b == 0 && c.a == 255,
    {
        Self::new(0, 0, 0, 255)
    }

    pub fn white() -> (c: Self)
        ensures
            c.r == 255 && c.g == 255 && c.b == 255 && c.a == 255,
    {
        Self::new(255, 255, 255, 255)
    }

    pub fn red() -> (c: Self)
        ensures
            c.r == 255 && c.g == 0 && c.b == 0 && c.a == 255,
    {
        Self::new(255, 0, 0, 255)
    }

    pub fn green() -> (c: Self)
        ensures
            c.r == 0 && c.g == 255 && c.b == 0 && c.a == 255,
    {
        Self::new(0, 255, 0, 255)
    }

    pub fn blue() -> (c: Self)
        ensures
            c.r == 0 && c.g == 0 && c.b == 255 && c.a == 255,
    {
        Self::new(0, 0, 255, 255)
    }

    pub fn transparent() -> (c: Self)
        ensures
            c.r == 0 && c.g == 0 && c.b == 0 && c.a == 0,
    {
        Self::new(0, 0, 0, 0)
    }
}

} // verus!
