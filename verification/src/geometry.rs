//! Integer geometry in the shared global coordinate space.
//!
//! Locations are integer pixels; sizes are non-negative integer pixels. Every
//! value the model stores is kept inside [`COORD_LIMIT`] so that the
//! arithmetic the state machines do (sums and differences of two stored
//! values) provably fits in `i32`.

use vstd::prelude::*;

verus! {

/// Largest magnitude the model accepts for a stored coordinate or dimension.
/// Two such values can be added or subtracted without overflowing `i32`.
pub const COORD_LIMIT: i32 = 1_000_000_000;

/// A location in the global coordinate space.
#[derive(Clone, Copy, Debug, PartialEq, Eq, Hash, Structural)]
pub struct Point {
    pub x: i32,
    pub y: i32,
}

/// A width and height in pixels.
#[derive(Clone, Copy, Debug, PartialEq, Eq, Hash, Structural)]
pub struct Size {
    pub w: i32,
    pub h: i32,
}

/// A rectangle: a location and a size.
#[derive(Clone, Copy, Debug, PartialEq, Eq, Hash, Structural)]
pub struct Rect {
    pub loc: Point,
    pub size: Size,
}

/// Whether a single coordinate is inside the range the model stores.
pub open spec fn coord_in_range(v: int) -> bool {
    -COORD_LIMIT <= v <= COORD_LIMIT
}

impl Point {
    /// Both coordinates are inside the stored range.
    pub open spec fn in_range(self) -> bool {
        coord_in_range(self.x as int) && coord_in_range(self.y as int)
    }
}

impl Size {
    /// Both dimensions are non-negative and inside the stored range.
    pub open spec fn in_range(self) -> bool {
        0 <= self.w <= COORD_LIMIT && 0 <= self.h <= COORD_LIMIT
    }
}

impl Rect {
    /// Location and size are inside the stored range.
    pub open spec fn in_range(self) -> bool {
        self.loc.in_range() && self.size.in_range()
    }

    /// Whether two rectangles share at least one pixel, as a statement over
    /// unbounded integers.
    pub open spec fn spec_overlaps(self, other: Rect) -> bool {
        &&& self.loc.x < other.loc.x + other.size.w
        &&& other.loc.x < self.loc.x + self.size.w
        &&& self.loc.y < other.loc.y + other.size.h
        &&& other.loc.y < self.loc.y + self.size.h
    }

    /// Overlap test; exact for every in-range rectangle.
    pub fn overlaps(&self, other: &Rect) -> (r: bool)
        requires
            self.in_range(),
            other.in_range(),
        ensures
            r == self.spec_overlaps(*other),
    {
        let sx = self.loc.x as i64;
        let sy = self.loc.y as i64;
        let ox = other.loc.x as i64;
        let oy = other.loc.y as i64;
        sx < ox + other.size.w as i64 && ox < sx + self.size.w as i64
            && sy < oy + other.size.h as i64 && oy < sy + self.size.h as i64
    }
}

/// Clamps an unbounded value into the stored coordinate range.
pub open spec fn spec_clamp_coord(v: int) -> int {
    if v < -COORD_LIMIT {
        -COORD_LIMIT as int
    } else if v > COORD_LIMIT {
        COORD_LIMIT as int
    } else {
        v
    }
}

/// Clamps a wide intermediate result back into the stored coordinate range.
pub fn clamp_coord(v: i64) -> (r: i32)
    ensures
        r as int == spec_clamp_coord(v as int),
        coord_in_range(r as int),
{
    if v < -(COORD_LIMIT as i64) {
        -COORD_LIMIT
    } else if v > COORD_LIMIT as i64 {
        COORD_LIMIT
    } else {
        v as i32
    }
}

/// A dimension clamped into `[0, COORD_LIMIT]`.
pub open spec fn spec_sanitize_dim(v: int) -> int {
    if v < 0 {
        0
    } else if v > COORD_LIMIT {
        COORD_LIMIT as int
    } else {
        v
    }
}

/// A rectangle with each coordinate clamped into the stored range and each
/// dimension clamped into `[0, COORD_LIMIT]`.
pub open spec fn spec_sanitize_rect(r: Rect) -> Rect {
    Rect {
        loc: Point {
            x: spec_clamp_coord(r.loc.x as int) as i32,
            y: spec_clamp_coord(r.loc.y as int) as i32,
        },
        size: Size {
            w: spec_sanitize_dim(r.size.w as int) as i32,
            h: spec_sanitize_dim(r.size.h as int) as i32,
        },
    }
}

/// Clamps a client-supplied rectangle into the range the model stores;
/// protocol peers may name arbitrary coordinates.
pub fn sanitize_rect(r: Rect) -> (out: Rect)
    ensures
        out == spec_sanitize_rect(r),
        out.in_range(),
{
    let w: i32 = if r.size.w < 0 {
        0
    } else if r.size.w > COORD_LIMIT {
        COORD_LIMIT
    } else {
        r.size.w
    };
    let h: i32 = if r.size.h < 0 {
        0
    } else if r.size.h > COORD_LIMIT {
        COORD_LIMIT
    } else {
        r.size.h
    };
    Rect {
        loc: Point { x: clamp_coord(r.loc.x as i64), y: clamp_coord(r.loc.y as i64) },
        size: Size { w, h },
    }
}

} // verus!
