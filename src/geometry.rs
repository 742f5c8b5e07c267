use vstd::prelude::*;

verus! {

/// Sub-pixels in one pixel.
pub const SUBPIXELS_PER_PIXEL: i64 = 60;

/// Fixed update ticks in one second.
pub const TICKS_PER_SECOND: i64 = 60;

/// Coordinates of ships stay within this bound (in sub-pixels) on both axes.
pub const POS_LIMIT: i64 = 1099511627776;

/// Largest sprite side, in sub-pixels.
pub const SIZE_LIMIT: i64 = 1048576;

/// A scale of 1.0, written in thousandths.
pub const FULL_SCALE: i64 = 1000;

/// Default speed of every moving thing, in pixels per second.
pub const DEFAULT_SPEED: u32 = 500;

/// A position in sub-pixels.
#[derive(Clone, Copy, Debug, PartialEq, Eq, Structural)]
pub struct Pos {
    pub x: i64,
    pub y: i64,
}

/// Width and height of a sprite, in sub-pixels.
#[derive(Clone, Copy, Debug, PartialEq, Eq, Structural)]
pub struct Extent {
    pub w: i64,
    pub h: i64,
}

impl Extent {
    pub open spec fn wf(&self) -> bool {
        0 <= self.w <= SIZE_LIMIT && 0 <= self.h <= SIZE_LIMIT
    }
}

/// Speed in pixels per second.
#[derive(Clone, Copy, Debug, PartialEq, Eq, Structural)]
pub struct Speed(pub u32);

impl Default for Speed {
    fn default() -> (r: Speed)
        ensures
            r.0 == DEFAULT_SPEED,
    {
        Speed(DEFAULT_SPEED)
    }
}

impl Speed {
    /// Sub-pixels covered in one fixed tick.
    pub open spec fn step_spec(self) -> int {
        self.0 as int * (SUBPIXELS_PER_PIXEL as int) / (TICKS_PER_SECOND as int)
    }

    pub fn step(&self) -> (r: i64)
        ensures
            r == self.step_spec(),
            0 <= r <= u32::MAX,
    {
        (self.0 as i64) * SUBPIXELS_PER_PIXEL / TICKS_PER_SECOND
    }
}

pub open spec fn abs(v: int) -> int {
    if v < 0 { -v } else { v }
}

/// `v` clamped to the range of ship coordinates.
pub open spec fn clamp_coord(v: int) -> int {
    if v < -POS_LIMIT { -POS_LIMIT as int } else if v > POS_LIMIT { POS_LIMIT as int } else { v }
}

pub open spec fn coord_ok(v: int) -> bool {
    -POS_LIMIT <= v <= POS_LIMIT
}

/// Positions of lasers may stray a little past the ship range.
pub open spec fn laser_coord_ok(v: int) -> bool {
    -2 * POS_LIMIT <= v <= 2 * POS_LIMIT
}

/// Axis-aligned boxes centred at `a` and `b` overlap strictly. `a_size` and
/// `b_size` are sprite sides in sub-pixels, scaled by `a_scale` and `b_scale`
/// thousandths.
pub open spec fn boxes_overlap(a: Pos, a_size: Extent, a_scale: int, b: Pos, b_size: Extent, b_scale: int) -> bool {
    &&& 2 * FULL_SCALE * abs(a.x - b.x) < a_size.w * a_scale + b_size.w * b_scale
    &&& 2 * FULL_SCALE * abs(a.y - b.y) < a_size.h * a_scale + b_size.h * b_scale
}

fn abs_diff(a: i64, b: i64) -> (r: i64)
    requires
        laser_coord_ok(a as int),
        laser_coord_ok(b as int),
    ensures
        r == abs(a - b),
{
    if a < b { b - a } else { a - b }
}

/// Collision test between two scaled boxes.
pub fn collide(a: Pos, a_size: Extent, a_scale: i64, b: Pos, b_size: Extent, b_scale: i64) -> (r: bool)
    requires
        laser_coord_ok(a.x as int),
        laser_coord_ok(a.y as int),
        laser_coord_ok(b.x as int),
        laser_coord_ok(b.y as int),
        a_size.wf(),
        b_size.wf(),
        0 <= a_scale <= FULL_SCALE,
        0 <= b_scale <= FULL_SCALE,
    ensures
        r == boxes_overlap(a, a_size, a_scale as int, b, b_size, b_scale as int),
{
    let dx = abs_diff(a.x, b.x);
    let dy = abs_diff(a.y, b.y);
    assert(0 <= a_size.w * a_scale <= SIZE_LIMIT * FULL_SCALE) by (nonlinear_arith)
        requires 0 <= a_size.w <= SIZE_LIMIT, 0 <= a_scale <= FULL_SCALE;
    assert(0 <= b_size.w * b_scale <= SIZE_LIMIT * FULL_SCALE) by (nonlinear_arith)
        requires 0 <= b_size.w <= SIZE_LIMIT, 0 <= b_scale <= FULL_SCALE;
    assert(0 <= a_size.h * a_scale <= SIZE_LIMIT * FULL_SCALE) by (nonlinear_arith)
        requires 0 <= a_size.h <= SIZE_LIMIT, 0 <= a_scale <= FULL_SCALE;
    assert(0 <= b_size.h * b_scale <= SIZE_LIMIT * FULL_SCALE) by (nonlinear_arith)
        requires 0 <= b_size.h <= SIZE_LIMIT, 0 <= b_scale <= FULL_SCALE;
    assert(0 <= 2 * FULL_SCALE * dx <= 2 * FULL_SCALE * (4 * POS_LIMIT)) by (nonlinear_arith)
        requires 0 <= dx <= 4 * POS_LIMIT;
    assert(0 <= 2 * FULL_SCALE * dy <= 2 * FULL_SCALE * (4 * POS_LIMIT)) by (nonlinear_arith)
        requires 0 <= dy <= 4 * POS_LIMIT;
    2 * FULL_SCALE * dx < a_size.w * a_scale + b_size.w * b_scale
        && 2 * FULL_SCALE * dy < a_size.h * a_scale + b_size.h * b_scale
}

} // verus!
