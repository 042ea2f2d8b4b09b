use vstd::prelude::*;

verus! {

/// `value` clamped into the range of `i32`.
pub open spec fn clamp_i32(value: int) -> int {
    if value > i32::MAX {
        i32::MAX as int
    } else if value < i32::MIN {
        i32::MIN as int
    } else {
        value
    }
}

/// `left + width` saturated at `i32::MAX`, written without overflow.
pub fn saturating_offset(left: i32, width: u32) -> (r: i32)
    ensures
        r == clamp_i32(left + width),
{
    let sum: i64 = left as i64 + width as i64;
    if sum > i32::MAX as i64 {
        i32::MAX
    } else {
        sum as i32
    }
}

/// A selection and resize grip of a rectangle or of a line annotation.
#[derive(Debug, Clone, Copy, PartialEq, Eq, Structural)]
pub enum Handle {
    TopLeft,
    Top,
    TopRight,
    Right,
    BottomRight,
    Bottom,
    BottomLeft,
    Left,
    Move,
    Start,
    End,
}

impl Handle {
    /// The eight grips around a box, clockwise from the top-left corner.
    pub fn box_handles() -> (handles: [Handle; 8])
        ensures
            handles@ == seq![
                Handle::TopLeft,
                Handle::Top,
                Handle::TopRight,
                Handle::Right,
                Handle::BottomRight,
                Handle::Bottom,
                Handle::BottomLeft,
                Handle::Left,
            ],
    {
        let handles = [
            Handle::TopLeft,
            Handle::Top,
            Handle::TopRight,
            Handle::Right,
            Handle::BottomRight,
            Handle::Bottom,
            Handle::BottomLeft,
            Handle::Left,
        ];
        assert(handles@ =~= seq![
            Handle::TopLeft,
            Handle::Top,
            Handle::TopRight,
            Handle::Right,
            Handle::BottomRight,
            Handle::Bottom,
            Handle::BottomLeft,
            Handle::Left,
        ]);
        handles
    }

    /// The four corner grips, clockwise from the top-left corner.
    pub fn corner_handles() -> (handles: [Handle; 4])
        ensures
            handles@ == seq![
                Handle::TopLeft,
                Handle::TopRight,
                Handle::BottomRight,
                Handle::BottomLeft,
            ],
    {
        let handles = [Handle::TopLeft, Handle::TopRight, Handle::BottomRight, Handle::BottomLeft];
        assert(handles@ =~= seq![
            Handle::TopLeft,
            Handle::TopRight,
            Handle::BottomRight,
            Handle::BottomLeft,
        ]);
        handles
    }
}

/// A point in integer physical pixels.
#[derive(Debug, Clone, Copy, PartialEq, Eq, Structural)]
pub struct PointI {
    pub x: i32,
    pub y: i32,
}

impl PointI {
    pub fn new(x: i32, y: i32) -> (p: PointI)
        ensures
            p.x == x,
            p.y == y,
    {
        PointI { x, y }
    }
}

/// An integer rectangle: its top-left corner and its size in physical pixels.
#[derive(Debug, Clone, Copy, PartialEq, Eq, Structural)]
pub struct RectI {
    pub left: i32,
    pub top: i32,
    pub width: u32,
    pub height: u32,
}

impl RectI {
    /// The right edge (exclusive), saturated at `i32::MAX`.
    pub open spec fn spec_right(self) -> int {
        clamp_i32(self.left + self.width)
    }

    /// The bottom edge (exclusive), saturated at `i32::MAX`.
    pub open spec fn spec_bottom(self) -> int {
        clamp_i32(self.top + self.height)
    }

    /// Whether `point` lies in the half-open rectangle.
    pub open spec fn spec_contains(self, point: PointI) -> bool {
        &&& self.left <= point.x < self.spec_right()
        &&& self.top <= point.y < self.spec_bottom()
    }

    pub fn new(left: i32, top: i32, width: u32, height: u32) -> (r: RectI)
        ensures
            r.left == left,
            r.top == top,
            r.width == width,
            r.height == height,
    {
        RectI { left, top, width, height }
    }

    /// A rectangle with every field zero.
    pub fn zero() -> (r: RectI)
        ensures
            r == (RectI { left: 0, top: 0, width: 0, height: 0 }),
    {
        RectI { left: 0, top: 0, width: 0, height: 0 }
    }

    pub fn width(self) -> (w: u32)
        ensures
            w == self.width,
    {
        self.width
    }

    pub fn height(self) -> (h: u32)
        ensures
            h == self.height,
    {
        self.height
    }

    pub fn right(self) -> (r: i32)
        ensures
            r == self.spec_right(),
    {
        saturating_offset(self.left, self.width)
    }

    pub fn bottom(self) -> (b: i32)
        ensures
            b == self.spec_bottom(),
    {
        saturating_offset(self.top, self.height)
    }

    pub fn contains(self, point: PointI) -> (inside: bool)
        ensures
            inside == self.spec_contains(point),
    {
        point.x >= self.left && point.x < self.right() && point.y >= self.top && point.y
            < self.bottom()
    }

    /// The overlap of two rectangles, computed on their saturated edges.
    pub open spec fn spec_intersection(self, other: RectI) -> Option<RectI> {
        let left = if self.left >= other.left { self.left } else { other.left };
        let top = if self.top >= other.top { self.top } else { other.top };
        let right = if self.spec_right() <= other.spec_right() {
            self.spec_right()
        } else {
            other.spec_right()
        };
        let bottom = if self.spec_bottom() <= other.spec_bottom() {
            self.spec_bottom()
        } else {
            other.spec_bottom()
        };
        if right > left && bottom > top {
            Some(
                RectI {
                    left,
                    top,
                    width: (right - left) as u32,
                    height: (bottom - top) as u32,
                },
            )
        } else {
            None
        }
    }

    pub fn intersection(self, other: RectI) -> (r: Option<RectI>)
        ensures
            r == self.spec_intersection(other),
    {
        let left = if self.left >= other.left {
            self.left
        } else {
            other.left
        };
        let top = if self.top >= other.top {
            self.top
        } else {
            other.top
        };
        let self_right = self.right();
        let other_right = other.right();
        let right = if self_right <= other_right {
            self_right
        } else {
            other_right
        };
        let self_bottom = self.bottom();
        let other_bottom = other.bottom();
        let bottom = if self_bottom <= other_bottom {
            self_bottom
        } else {
            other_bottom
        };
        if right > left && bottom > top {
            let width = (right as i64 - left as i64) as u32;
            let height = (bottom as i64 - top as i64) as u32;
            Some(RectI { left, top, width, height })
        } else {
            None
        }
    }
}

/// A point lies in the intersection of two rectangles exactly when it lies in both.
pub proof fn lemma_intersection_contains(a: RectI, b: RectI, point: PointI)
    ensures
        match a.spec_intersection(b) {
            Some(r) => r.spec_contains(point) <==> (a.spec_contains(point) && b.spec_contains(
                point,
            )),
            None => !(a.spec_contains(point) && b.spec_contains(point)),
        },
{
}

/// Intersection does not depend on the order of its arguments.
pub proof fn lemma_intersection_commutes(a: RectI, b: RectI)
    ensures
        a.spec_intersection(b) == b.spec_intersection(a),
{
}

} // verus!
