//! Points, sizes and rectangles in whole layout units.

use vstd::prelude::*;

verus! {

/// A position in layout units.
#[derive(Clone, Copy, Debug, PartialEq, Eq)]
pub struct Point {
    pub x: i64,
    pub y: i64,
}

impl Point {
    /// The point `(0, 0)`.
    pub open spec fn spec_origin() -> Point {
        Point { x: 0, y: 0 }
    }

    /// The point `(0, 0)`.
    #[verifier::when_used_as_spec(spec_origin)]
    pub fn origin() -> (p: Point)
        ensures
            p == Point::spec_origin(),
    {
        Point { x: 0, y: 0 }
    }

    pub fn new(x: i64, y: i64) -> (p: Point)
        ensures
            p == (Point { x, y }),
    {
        Point { x, y }
    }
}

/// A width and a height in layout units.
#[derive(Clone, Copy, Debug, PartialEq, Eq)]
pub struct Size {
    pub width: u64,
    pub height: u64,
}

impl Size {
    /// The empty size.
    pub open spec fn spec_zero() -> Size {
        Size { width: 0, height: 0 }
    }

    /// The empty size.
    #[verifier::when_used_as_spec(spec_zero)]
    pub fn zero() -> (s: Size)
        ensures
            s == Size::spec_zero(),
    {
        Size { width: 0, height: 0 }
    }

    pub fn new(width: u64, height: u64) -> (s: Size)
        ensures
            s == (Size { width, height }),
    {
        Size { width, height }
    }
}

/// A rectangle, given by its top-left corner and its size.
#[derive(Clone, Copy, Debug, PartialEq, Eq)]
pub struct Rect {
    pub origin: Point,
    pub size: Size,
}

impl Rect {
    /// The rectangle of the given size whose corner is `origin`.
    pub open spec fn spec_from_origin_size(origin: Point, size: Size) -> Rect {
        Rect { origin, size }
    }

    /// The rectangle of the given size whose corner is `origin`.
    #[verifier::when_used_as_spec(spec_from_origin_size)]
    pub fn from_origin_size(origin: Point, size: Size) -> (r: Rect)
        ensures
            r == Rect::spec_from_origin_size(origin, size),
    {
        Rect { origin, size }
    }

    /// The empty rectangle at the origin.
    pub open spec fn spec_zero() -> Rect {
        Rect { origin: Point::spec_origin(), size: Size::spec_zero() }
    }

    /// The empty rectangle at the origin.
    #[verifier::when_used_as_spec(spec_zero)]
    pub fn zero() -> (r: Rect)
        ensures
            r == Rect::spec_zero(),
    {
        Rect { origin: Point::origin(), size: Size::zero() }
    }
}

/// The least and the greatest size a widget may take in a layout pass.
#[derive(Clone, Copy, Debug, PartialEq, Eq)]
pub struct BoxConstraints {
    pub min: Size,
    pub max: Size,
}

/// `value` held between `min` and `max`: raised to `min` where it is below,
/// and otherwise lowered to `max` where it is above.
pub open spec fn clamp(value: u64, min: u64, max: u64) -> u64 {
    if value < min {
        min
    } else if value > max {
        max
    } else {
        value
    }
}

impl BoxConstraints {
    pub fn new(min: Size, max: Size) -> (bc: BoxConstraints)
        ensures
            bc == (BoxConstraints { min, max }),
    {
        BoxConstraints { min, max }
    }

    /// The size nearest to `size` that the constraints allow.
    pub open spec fn spec_constrain(&self, size: Size) -> Size {
        Size {
            width: clamp(size.width, self.min.width, self.max.width),
            height: clamp(size.height, self.min.height, self.max.height),
        }
    }

    /// The size nearest to `size` that the constraints allow.
    #[verifier::when_used_as_spec(spec_constrain)]
    pub fn constrain(&self, size: Size) -> (fit: Size)
        ensures
            fit == self.spec_constrain(size),
    {
        let width: u64 = if size.width < self.min.width {
            self.min.width
        } else if size.width > self.max.width {
            self.max.width
        } else {
            size.width
        };
        let height: u64 = if size.height < self.min.height {
            self.min.height
        } else if size.height > self.max.height {
            self.max.height
        } else {
            size.height
        };
        Size { width, height }
    }
}

} // verus!
