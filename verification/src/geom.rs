//! Points, sizes, rectangles and horizontal alignment in screen coordinates.

use vstd::prelude::*;

verus! {

/// A point in screen coordinates.
#[derive(Debug, Clone, Copy, PartialEq, Eq, Structural)]
pub struct Point {
    pub x: i32,
    pub y: i32,
}

impl Point {
    pub fn new(x: i32, y: i32) -> (p: Self)
        ensures
            p.x == x,
            p.y == y,
    {
        Self { x, y }
    }

    pub fn zero() -> (p: Self)
        ensures
            p.x == 0,
            p.y == 0,
    {
        Self::new(0, 0)
    }
}

impl Default for Point {
    fn default() -> (p: Self)
        ensures
            p.x == 0,
            p.y == 0,
    {
        Self::zero()
    }
}

/// A width and a height.
#[derive(Debug, Clone, Copy, PartialEq, Eq, Structural)]
pub struct Size {
    pub w: u32,
    pub h: u32,
}

impl Size {
    pub fn new(w: u32, h: u32) -> (s: Self)
        ensures
            s.w == w,
            s.h == h,
    {
        Self { w, h }
    }

    pub fn zero() -> (s: Self)
        ensures
            s.w == 0,
            s.h == 0,
    {
        Self::new(0, 0)
    }
}

impl Default for Size {
    fn default() -> (s: Self)
        ensures
            s.w == 0,
            s.h == 0,
    {
        Self::zero()
    }
}

/// An axis-aligned rectangle given by its top-left corner and its size.
#[derive(Debug, Clone, Copy, PartialEq, Eq, Structural)]
pub struct Rect {
    pub x: i32,
    pub y: i32,
    pub w: u32,
    pub h: u32,
}

/// The smaller of two integers.
pub open spec fn min_int(a: int, b: int) -> int {
    if a <= b { a } else { b }
}

/// The larger of two integers.
pub open spec fn max_int(a: int, b: int) -> int {
    if a >= b { a } else { b }
}

/// Whether an integer fits in an `i32`.
pub open spec fn fits_i32(v: int) -> bool {
    i32::MIN <= v <= i32::MAX
}

impl Rect {
    /// The right edge `x + w`, with the width reinterpreted as an `i32`.
    pub open spec fn spec_right(self) -> int {
        self.x + (self.w as i32)
    }

    /// The bottom edge `y + h`, with the height reinterpreted as an `i32`.
    pub open spec fn spec_bottom(self) -> int {
        self.y + (self.h as i32)
    }

    /// A rectangle with no area.
    pub open spec fn is_empty(self) -> bool {
        self.w == 0 || self.h == 0
    }

    /// Both edges can be computed without overflowing an `i32`.
    pub open spec fn edges_fit(self) -> bool {
        fits_i32(self.spec_right()) && fits_i32(self.spec_bottom())
    }

    /// What `union` computes for two rectangles that both have an area.
    pub open spec fn spec_union_nonempty(self, other: Rect) -> Rect {
        let x = min_int(self.x as int, other.x as int);
        let y = min_int(self.y as int, other.y as int);
        Rect {
            x: x as i32,
            y: y as i32,
            w: (max_int(self.spec_right(), other.spec_right()) - x) as u32,
            h: (max_int(self.spec_bottom(), other.spec_bottom()) - y) as u32,
        }
    }

    /// The union of two rectangles: the smallest rectangle around both, where an empty
    /// rectangle contributes nothing.
    pub open spec fn spec_union(self, other: Rect) -> Rect {
        if self.is_empty() {
            other
        } else if other.is_empty() {
            self
        } else {
            self.spec_union_nonempty(other)
        }
    }

    /// The arithmetic of `union` stays within `i32`.
    pub open spec fn union_fits(self, other: Rect) -> bool {
        (!self.is_empty() && !other.is_empty()) ==> {
            &&& self.edges_fit()
            &&& other.edges_fit()
            &&& fits_i32(
                max_int(self.spec_right(), other.spec_right()) - min_int(
                    self.x as int,
                    other.x as int,
                ),
            )
            &&& fits_i32(
                max_int(self.spec_bottom(), other.spec_bottom()) - min_int(
                    self.y as int,
                    other.y as int,
                ),
            )
        }
    }

    /// The intersection of two rectangles. Where they do not overlap, the difference of the
    /// edges is negative and wraps around when it is taken as a `u32`.
    pub open spec fn spec_intersection(self, other: Rect) -> Rect {
        let x = max_int(self.x as int, other.x as int);
        let y = max_int(self.y as int, other.y as int);
        Rect {
            x: x as i32,
            y: y as i32,
            w: (min_int(self.spec_right(), other.spec_right()) - x) as u32,
            h: (min_int(self.spec_bottom(), other.spec_bottom()) - y) as u32,
        }
    }

    /// The arithmetic of `intersection` stays within `i32`.
    pub open spec fn intersection_fits(self, other: Rect) -> bool {
        &&& self.edges_fit()
        &&& other.edges_fit()
        &&& fits_i32(
            min_int(self.spec_right(), other.spec_right()) - max_int(self.x as int, other.x as int),
        )
        &&& fits_i32(
            min_int(self.spec_bottom(), other.spec_bottom()) - max_int(
                self.y as int,
                other.y as int,
            ),
        )
    }

    pub fn new(x: i32, y: i32, w: u32, h: u32) -> (r: Self)
        ensures
            r.x == x,
            r.y == y,
            r.w == w,
            r.h == h,
    {
        Self { x, y, w, h }
    }

    pub fn zero() -> (r: Self)
        ensures
            r.x == 0,
            r.y == 0,
            r.w == 0,
            r.h == 0,
    {
        Self::new(0, 0, 0, 0)
    }

    pub fn top_left(&self) -> (p: Point)
        ensures
            p.x == self.x,
            p.y == self.y,
    {
        Point::new(self.x, self.y)
    }

    pub fn size(&self) -> (s: Size)
        ensures
            s.w == self.w,
            s.h == self.h,
    {
        Size::new(self.w, self.h)
    }

    pub fn right(&self) -> (r: i32)
        requires
            fits_i32(self.spec_right()),
        ensures
            r == self.spec_right(),
    {
        self.x + self.w as i32
    }

    pub fn bottom(&self) -> (b: i32)
        requires
            fits_i32(self.spec_bottom()),
        ensures
            b == self.spec_bottom(),
    {
        self.y + self.h as i32
    }

    /// The smallest rectangle that covers both; an empty rectangle is ignored.
    pub fn union(&self, other: &Self) -> (r: Self)
        requires
            self.union_fits(*other),
        ensures
            r == self.spec_union(*other),
    {
        if self.w == 0 || self.h == 0 {
            return *other;
        } else if other.w == 0 || other.h == 0 {
            return *self;
        }
        let x = if self.x <= other.x { self.x } else { other.x };
        let y = if self.y <= other.y { self.y } else { other.y };
        let sr = self.right();
        let or = other.right();
        let sb = self.bottom();
        let ob = other.bottom();
        let right = if sr >= or { sr } else { or };
        let bottom = if sb >= ob { sb } else { ob };
        let w = (right - x) as u32;
        let h = (bottom - y) as u32;
        Self::new(x, y, w, h)
    }

    /// The overlap of both rectangles.
    pub fn intersection(&self, other: &Self) -> (r: Self)
        requires
            self.intersection_fits(*other),
        ensures
            r == self.spec_intersection(*other),
    {
        let x = if self.x >= other.x { self.x } else { other.x };
        let y = if self.y >= other.y { self.y } else { other.y };
        let sr = self.right();
        let or = other.right();
        let sb = self.bottom();
        let ob = other.bottom();
        let right = if sr <= or { sr } else { or };
        let bottom = if sb <= ob { sb } else { ob };
        let w = (right - x) as u32;
        let h = (bottom - y) as u32;
        Self::new(x, y, w, h)
    }
}

impl Default for Rect {
    fn default() -> (r: Self)
        ensures
            r.x == 0,
            r.y == 0,
            r.w == 0,
            r.h == 0,
    {
        Self::zero()
    }
}

/// Horizontal alignment of an element relative to its anchor point.
#[derive(Debug, Clone, Copy, PartialEq, Eq, Structural)]
pub enum Alignment {
    Left,
    Center,
    Right,
}

impl Alignment {
    pub open spec fn spec_sign(self) -> i32 {
        match self {
            Alignment::Left => 1,
            Alignment::Center => 0,
            Alignment::Right => -1i32,
        }
    }

    /// 1 for left, 0 for centre, -1 for right.
    pub fn sign(&self) -> (s: i32)
        ensures
            s == self.spec_sign(),
    {
        match self {
            Alignment::Left => 1,
            Alignment::Center => 0,
            Alignment::Right => -1,
        }
    }
}

/// An empty rectangle leaves the other side of a union as it is.
pub proof fn lemma_union_with_empty(a: Rect, e: Rect)
    requires
        e.is_empty(),
    ensures
        e.spec_union(a) == a,
        !a.is_empty() ==> a.spec_union(e) == a,
{
}

/// Union is commutative, except that of two empty rectangles the second one is kept.
pub proof fn lemma_union_commutative(a: Rect, b: Rect)
    requires
        !(a.is_empty() && b.is_empty()),
    ensures
        a.spec_union(b) == b.spec_union(a),
{
}

/// Intersection is commutative.
pub proof fn lemma_intersection_commutative(a: Rect, b: Rect)
    ensures
        a.spec_intersection(b) == b.spec_intersection(a),
{
}

/// The union of two rectangles with an area covers both of them, when every edge is
/// computed without overflow and the sizes are below `i32::MAX`.
pub proof fn lemma_union_covers(a: Rect, b: Rect)
    requires
        !a.is_empty(),
        !b.is_empty(),
        a.w <= i32::MAX,
        a.h <= i32::MAX,
        b.w <= i32::MAX,
        b.h <= i32::MAX,
        a.union_fits(b),
    ensures
        ({
            let u = a.spec_union(b);
            &&& u.x <= a.x && u.x <= b.x
            &&& u.y <= a.y && u.y <= b.y
            &&& u.x + u.w >= a.x + a.w && u.x + u.w >= b.x + b.w
            &&& u.y + u.h >= a.y + a.h && u.y + u.h >= b.y + b.h
        }),
{
}

/// A rectangle intersected with itself is itself, when its size is below `i32::MAX`.
pub proof fn lemma_intersection_idempotent(a: Rect)
    requires
        a.edges_fit(),
        a.w <= i32::MAX,
        a.h <= i32::MAX,
    ensures
        a.spec_intersection(a) == a,
{
}

} // verus!
