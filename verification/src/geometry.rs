//! Plain geometry and colour values used by the widgets: a point on the
//! screen, a size in pixels, an RGB colour and the drawing area of a widget.
use vstd::prelude::*;

verus! {

/// A point on the screen, in pixels; `x` grows to the right and `y` downwards.
#[derive(Clone, Copy, Debug, PartialEq, Eq, Structural)]
pub struct Point {
    pub x: i32,
    pub y: i32,
}

impl Point {
    pub fn new(x: i32, y: i32) -> (p: Point)
        ensures
            p.x == x,
            p.y == y,
    {
        Point { x, y }
    }
}

/// A width and a height, in pixels.
#[derive(Clone, Copy, Debug, PartialEq, Eq, Structural)]
pub struct Size {
    pub width: u32,
    pub height: u32,
}

impl Size {
    pub fn new(width: u32, height: u32) -> (s: Size)
        ensures
            s.width == width,
            s.height == height,
    {
        Size { width, height }
    }
}

/// A 24-bit colour.
#[derive(Clone, Copy, Debug, PartialEq, Eq, Structural)]
pub struct Color {
    pub r: u8,
    pub g: u8,
    pub b: u8,
}

pub open spec fn white() -> Color {
    Color { r: 255, g: 255, b: 255 }
}

pub open spec fn black() -> Color {
    Color { r: 0, g: 0, b: 0 }
}

impl Color {
    pub fn white() -> (c: Color)
        ensures
            c == white(),
    {
        Color { r: 255, g: 255, b: 255 }
    }

    pub fn black() -> (c: Color)
        ensures
            c == black(),
    {
        Color { r: 0, g: 0, b: 0 }
    }
}

/// The area a widget draws into: everything a widget draws is placed
/// relative to `point` and clipped to `size`.
#[derive(Clone, Copy, Debug, PartialEq, Eq, Structural)]
pub struct Graphics {
    pub size: Size,
    pub point: Point,
}

impl Graphics {
    pub fn new(size: Size, point: Point) -> (g: Graphics)
        ensures
            g.size == size,
            g.point == point,
    {
        Graphics { size, point }
    }
}

} // verus!
