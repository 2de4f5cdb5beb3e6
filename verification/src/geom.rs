//! Geometry primitives: positions, rectangles, width ranges, and the
//! saturating integer arithmetic they are built on.
//!
//! All coordinates are `i64` values on a screen whose `x` axis grows to the
//! right and whose `y` axis grows downward. Sums and differences saturate at
//! the ends of the `i64` range, so every geometric operation is total.

use vstd::prelude::*;

verus! {

/// The whole `i64` value clipped into the representable range.
pub open spec fn sat_i64(v: int) -> int {
    if v > i64::MAX as int {
        i64::MAX as int
    } else if v < i64::MIN as int {
        i64::MIN as int
    } else {
        v
    }
}

/// Saturating sum of two `i64` values, as a mathematical integer.
pub open spec fn sat_add(a: int, b: int) -> int {
    sat_i64(a + b)
}

/// Saturating difference of two `i64` values, as a mathematical integer.
pub open spec fn sat_sub(a: int, b: int) -> int {
    sat_i64(a - b)
}

/// Saturating sum of two `i64` values, as an `i64`.
pub open spec fn spec_add_sat(a: i64, b: i64) -> i64 {
    sat_add(a as int, b as int) as i64
}

/// Saturating difference of two `i64` values, as an `i64`.
pub open spec fn spec_sub_sat(a: i64, b: i64) -> i64 {
    sat_sub(a as int, b as int) as i64
}

/// `a + b`, saturating at the ends of the `i64` range.
pub fn add_sat(a: i64, b: i64) -> (r: i64)
    ensures
        r as int == sat_add(a as int, b as int),
        r == spec_add_sat(a, b),
{
    if b >= 0 {
        if a > i64::MAX - b {
            i64::MAX
        } else {
            a + b
        }
    } else {
        if a < i64::MIN - b {
            i64::MIN
        } else {
            a + b
        }
    }
}

/// `a - b`, saturating at the ends of the `i64` range.
pub fn sub_sat(a: i64, b: i64) -> (r: i64)
    ensures
        r as int == sat_sub(a as int, b as int),
        r == spec_sub_sat(a, b),
{
    if b <= 0 {
        if a > i64::MAX + b {
            i64::MAX
        } else {
            a - b
        }
    } else {
        if a < i64::MIN + b {
            i64::MIN
        } else {
            a - b
        }
    }
}

/// A point on the screen.
#[derive(Clone, Copy, PartialEq, Eq, Structural, Debug)]
pub struct Pos {
    pub x: i64,
    pub y: i64,
}

impl Pos {
    pub fn new(x: i64, y: i64) -> (r: Pos)
        ensures
            r == (Pos { x, y }),
    {
        Pos { x, y }
    }
}

/// An axis-aligned rectangle, given by its top-left (`min`) and
/// bottom-right (`max`) corners.
#[derive(Clone, Copy, PartialEq, Eq, Structural, Debug)]
pub struct Rect {
    pub min: Pos,
    pub max: Pos,
}

impl Rect {
    /// The width of the rectangle (saturating at the `i64` range).
    pub open spec fn spec_width(self) -> i64 {
        spec_sub_sat(self.max.x, self.min.x)
    }

    /// The height of the rectangle (saturating at the `i64` range).
    pub open spec fn spec_height(self) -> i64 {
        spec_sub_sat(self.max.y, self.min.y)
    }

    pub fn from_min_max(min_x: i64, min_y: i64, max_x: i64, max_y: i64) -> (r: Rect)
        ensures
            r == (Rect { min: Pos { x: min_x, y: min_y }, max: Pos { x: max_x, y: max_y } }),
    {
        Rect { min: Pos { x: min_x, y: min_y }, max: Pos { x: max_x, y: max_y } }
    }

    pub fn left(&self) -> (r: i64)
        ensures
            r == self.min.x,
    {
        self.min.x
    }

    pub fn right(&self) -> (r: i64)
        ensures
            r == self.max.x,
    {
        self.max.x
    }

    pub fn top(&self) -> (r: i64)
        ensures
            r == self.min.y,
    {
        self.min.y
    }

    pub fn bottom(&self) -> (r: i64)
        ensures
            r == self.max.y,
    {
        self.max.y
    }

    pub fn width(&self) -> (r: i64)
        ensures
            r == self.spec_width(),
    {
        sub_sat(self.max.x, self.min.x)
    }

    pub fn height(&self) -> (r: i64)
        ensures
            r == self.spec_height(),
    {
        sub_sat(self.max.y, self.min.y)
    }

    /// Whether `y` lies in the rectangle's vertical span, ends included.
    pub open spec fn spec_contains_y(self, y: i64) -> bool {
        self.min.y <= y <= self.max.y
    }

    pub fn contains_y(&self, y: i64) -> (r: bool)
        ensures
            r == self.spec_contains_y(y),
    {
        self.min.y <= y && y <= self.max.y
    }

    /// The smallest rectangle containing both `self` and `other`.
    pub open spec fn spec_union(self, other: Rect) -> Rect {
        Rect {
            min: Pos {
                x: if self.min.x <= other.min.x { self.min.x } else { other.min.x },
                y: if self.min.y <= other.min.y { self.min.y } else { other.min.y },
            },
            max: Pos {
                x: if self.max.x >= other.max.x { self.max.x } else { other.max.x },
                y: if self.max.y >= other.max.y { self.max.y } else { other.max.y },
            },
        }
    }

    pub fn union(&self, other: &Rect) -> (r: Rect)
        ensures
            r == self.spec_union(*other),
    {
        Rect {
            min: Pos {
                x: if self.min.x <= other.min.x { self.min.x } else { other.min.x },
                y: if self.min.y <= other.min.y { self.min.y } else { other.min.y },
            },
            max: Pos {
                x: if self.max.x >= other.max.x { self.max.x } else { other.max.x },
                y: if self.max.y >= other.max.y { self.max.y } else { other.max.y },
            },
        }
    }

    pub fn right_top(&self) -> (r: Pos)
        ensures
            r == (Pos { x: self.max.x, y: self.min.y }),
    {
        Pos { x: self.max.x, y: self.min.y }
    }

    pub fn right_bottom(&self) -> (r: Pos)
        ensures
            r == (Pos { x: self.max.x, y: self.max.y }),
    {
        Pos { x: self.max.x, y: self.max.y }
    }
}

/// Stands in for an unbounded upper width limit.
pub const UNBOUNDED: i64 = i64::MAX;

/// Inclusive bounds on a panel's width. The bounds are not required to be
/// ordered: an inverted pair is normalized before use.
#[derive(Clone, Copy, PartialEq, Eq, Structural, Debug)]
pub struct WidthRange {
    pub min: i64,
    pub max: i64,
}

impl WidthRange {
    /// The lower bound after normalization.
    pub open spec fn spec_lo(self) -> i64 {
        if self.min <= self.max {
            self.min
        } else {
            self.max
        }
    }

    /// The upper bound after normalization.
    pub open spec fn spec_hi(self) -> i64 {
        if self.min <= self.max {
            self.max
        } else {
            self.min
        }
    }

    /// `x` clamped into the normalized bounds.
    pub open spec fn spec_clamp(self, x: i64) -> i64 {
        if x < self.spec_lo() {
            self.spec_lo()
        } else if x > self.spec_hi() {
            self.spec_hi()
        } else {
            x
        }
    }

    pub fn new(min: i64, max: i64) -> (r: WidthRange)
        ensures
            r == (WidthRange { min, max }),
    {
        WidthRange { min, max }
    }
}

/// Clamps `x` into `range`, normalizing inverted bounds first.
pub fn clamp_to_range(x: i64, range: WidthRange) -> (r: i64)
    ensures
        r == range.spec_clamp(x),
        range.spec_lo() <= r <= range.spec_hi(),
        range.spec_lo() <= x <= range.spec_hi() ==> r == x,
{
    let lo: i64 = if range.min <= range.max { range.min } else { range.max };
    let hi: i64 = if range.min <= range.max { range.max } else { range.min };
    if x < lo {
        lo
    } else if x > hi {
        hi
    } else {
        x
    }
}

} // verus!
