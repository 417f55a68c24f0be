//! Plain geometric value types: points, sizes, colors and axis-aligned
//! rectangles, with the centering and translation arithmetic the layout
//! engine is built on.

use vstd::prelude::*;

verus! {

/// A point in screen coordinates. The y axis grows downwards.
#[derive(Clone, Copy, PartialEq, Eq, Structural, Debug)]
pub struct Point {
    pub x: i32,
    pub y: i32,
}

/// A width and height, both non-negative.
#[derive(Clone, Copy, PartialEq, Eq, Structural, Debug)]
pub struct Size {
    pub w: u32,
    pub h: u32,
}

/// An RGB color.
#[derive(Clone, Copy, PartialEq, Eq, Structural, Debug)]
pub struct Color {
    pub r: u32,
    pub g: u32,
    pub b: u32,
}

/// An axis-aligned rectangle: an upper-left corner and a size.
#[derive(Clone, Copy, PartialEq, Eq, Structural, Debug)]
pub struct Position {
    pub upper_left: Point,
    pub size: Size,
}

/// The sum of two points, seen as translation vectors.
pub open spec fn point_add(a: Point, b: Point) -> Point {
    Point { x: (a.x + b.x) as i32, y: (a.y + b.y) as i32 }
}

/// The difference of two points, seen as translation vectors.
pub open spec fn point_sub(a: Point, b: Point) -> Point {
    Point { x: (a.x - b.x) as i32, y: (a.y - b.y) as i32 }
}

/// Both coordinates of `a + b` stay in the `i32` range.
pub open spec fn add_fits(a: Point, b: Point) -> bool {
    &&& i32::MIN <= a.x + b.x <= i32::MAX
    &&& i32::MIN <= a.y + b.y <= i32::MAX
}

/// Both coordinates of `a - b` stay in the `i32` range.
pub open spec fn sub_fits(a: Point, b: Point) -> bool {
    &&& i32::MIN <= a.x - b.x <= i32::MAX
    &&& i32::MIN <= a.y - b.y <= i32::MAX
}

/// The center of a rectangle: the upper-left corner moved right by half the
/// width and down by half the height, halves rounded towards zero.
pub open spec fn pos_center(p: Position) -> Point {
    Point {
        x: (p.upper_left.x + p.size.w as int / 2) as i32,
        y: (p.upper_left.y + p.size.h as int / 2) as i32,
    }
}

/// Both coordinates of the center stay in the `i32` range. (They cannot go
/// below `i32::MIN`, since half a size is never negative.)
pub open spec fn center_fits(p: Position) -> bool {
    &&& p.upper_left.x + p.size.w as int / 2 <= i32::MAX
    &&& p.upper_left.y + p.size.h as int / 2 <= i32::MAX
}

impl Point {
    pub fn new(x: i32, y: i32) -> (p: Point)
        ensures
            p == (Point { x, y }),
    {
        Point { x, y }
    }

    pub fn origin() -> (p: Point)
        ensures
            p == (Point { x: 0, y: 0 }),
    {
        Point { x: 0, y: 0 }
    }

    /// Moves the point by the given offsets.
    pub fn translate(&mut self, x: i32, y: i32)
        requires
            add_fits(*old(self), Point { x, y }),
        ensures
            *final(self) == point_add(*old(self), Point { x, y }),
    {
        self.x = self.x + x;
        self.y = self.y + y;
    }
}

impl Size {
    pub fn new(w: u32, h: u32) -> (s: Size)
        ensures
            s == (Size { w, h }),
    {
        Size { w, h }
    }
}

impl Color {
    pub fn new(r: u32, g: u32, b: u32) -> (c: Color)
        ensures
            c == (Color { r, g, b }),
    {
        Color { r, g, b }
    }
}

impl Position {
    pub fn new(upper_left: Point, size: Size) -> (p: Position)
        ensures
            p == (Position { upper_left, size }),
    {
        Position { upper_left, size }
    }

    /// The center of the rectangle.
    pub fn center(&self) -> (c: Point)
        requires
            center_fits(*self),
        ensures
            c == pos_center(*self),
    {
        Point {
            x: self.upper_left.x + (self.size.w / 2) as i32,
            y: self.upper_left.y + (self.size.h / 2) as i32,
        }
    }
}

/// Converts a point in a layout's local frame into the global frame that
/// `global` locates, by adding the two offsets.
pub fn translate_to_global(relative: &Point, global: &Point) -> (p: Point)
    requires
        add_fits(*global, *relative),
    ensures
        p == point_add(*global, *relative),
{
    Point { x: global.x + relative.x, y: global.y + relative.y }
}

/// Converts a global point back into the local frame that `relative`
/// locates, by subtracting the offset: the inverse of `translate_to_global`.
pub fn translate_to_relative(global: &Point, relative: &Point) -> (p: Point)
    requires
        sub_fits(*global, *relative),
    ensures
        p == point_sub(*global, *relative),
{
    Point { x: global.x - relative.x, y: global.y - relative.y }
}

} // verus!
