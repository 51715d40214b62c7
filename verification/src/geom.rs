//! 2D points and the centered-rectangle containment test used for every
//! collision in the game.
//!
//! Coordinates are in subpixel units (20 units per screen pixel). A point
//! collides with a rectangle of center `c`, width `w` and height `h` exactly
//! when it lies strictly inside the rectangle; touching an edge does not
//! count. The test is computed on doubled differences so that half-unit
//! rectangle edges stay exact in integer arithmetic.

use vstd::prelude::*;

verus! {

/// Subpixel units per screen pixel: every coordinate, size and speed of
/// the game is an exact multiple of 1/20 pixel.
pub const UNITS_PER_PX: i32 = 20;

/// `v` clamped into the `i32` range.
pub open spec fn sat32(v: int) -> int {
    if v > i32::MAX as int {
        i32::MAX as int
    } else if v < i32::MIN as int {
        i32::MIN as int
    } else {
        v
    }
}

/// Saturating addition on coordinates; within the playfield it is plain
/// addition.
pub fn sat_add(a: i32, b: i32) -> (r: i32)
    ensures
        r as int == sat32(a + b),
{
    let s: i64 = a as i64 + b as i64;
    if s > i32::MAX as i64 {
        i32::MAX
    } else if s < i32::MIN as i64 {
        i32::MIN
    } else {
        s as i32
    }
}

/// Saturating increment-style addition for unbounded counters.
pub fn sat_add_u64(a: u64, b: u64) -> (r: u64)
    ensures
        r as int == if a + b <= u64::MAX { a + b } else { u64::MAX as int },
{
    if a <= u64::MAX - b {
        a + b
    } else {
        u64::MAX
    }
}

/// Saturating increment-style addition for unbounded counters.
pub fn sat_add_usize(a: usize, b: usize) -> (r: usize)
    ensures
        r as int == if a + b <= usize::MAX { a + b } else { usize::MAX as int },
{
    if a <= usize::MAX - b {
        a + b
    } else {
        usize::MAX
    }
}

/// A 2D point or vector in subpixel units.
#[derive(Clone, Copy, PartialEq, Eq, Structural, Debug)]
pub struct Vec2 {
    pub x: i32,
    pub y: i32,
}

/// `p` lies strictly inside the axis-aligned rectangle of center `c`,
/// width `w` and height `h` (all in subpixel units).
pub open spec fn in_rect(p: Vec2, c: Vec2, w: int, h: int) -> bool {
    &&& -w < 2 * (p.x - c.x)
    &&& 2 * (p.x - c.x) < w
    &&& -h < 2 * (p.y - c.y)
    &&& 2 * (p.y - c.y) < h
}

impl Vec2 {
    pub fn new(x: i32, y: i32) -> (v: Self)
        ensures
            v == (Vec2 { x, y }),
    {
        Vec2 { x, y }
    }

    /// Strict containment of `self` in the rectangle centered at
    /// `center_pos`: a point exactly on an edge does not collide.
    pub fn collision(&self, center_pos: &Vec2, width: i32, height: i32) -> (r: bool)
        ensures
            r == in_rect(*self, *center_pos, width as int, height as int),
    {
        let dx: i64 = 2 * (self.x as i64 - center_pos.x as i64);
        let dy: i64 = 2 * (self.y as i64 - center_pos.y as i64);
        let w: i64 = width as i64;
        let h: i64 = height as i64;
        -w < dx && dx < w && -h < dy && dy < h
    }
}

/// A point exactly on any edge of the rectangle never collides: the
/// containment test uses strict inequalities on all four sides.
pub proof fn lemma_edge_point_misses(p: Vec2, c: Vec2, w: int, h: int)
    requires
        2 * (p.x - c.x) == w || 2 * (p.x - c.x) == -w || 2 * (p.y - c.y) == h || 2 * (p.y - c.y)
            == -h,
    ensures
        !in_rect(p, c, w, h),
{
}

/// A point at least one subpixel unit inside every edge always collides,
/// for arbitrary centers and extents.
pub proof fn lemma_inside_point_hits(p: Vec2, c: Vec2, w: int, h: int)
    requires
        2 * (p.x - c.x) <= w - 2,
        -(w - 2) <= 2 * (p.x - c.x),
        2 * (p.y - c.y) <= h - 2,
        -(h - 2) <= 2 * (p.y - c.y),
    ensures
        in_rect(p, c, w, h),
{
}

} // verus!
