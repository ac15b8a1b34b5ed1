use vstd::prelude::*;

verus! {

/// Edge length of one square tile, in world units.
pub const TILE_SIDE: i64 = 32;

/// Number of time ticks in one second. A tick of 1/1200 s keeps both the
/// animation period (1/12 s) and common frame deltas exact integers.
pub const TICKS_PER_SECOND: i64 = 1200;

/// Largest coordinate magnitude the core computes with (2^40 world units).
pub const POS_LIMIT: i64 = 0x100_0000_0000;

/// Largest rectangle edge length the core accepts (2^20 world units).
pub const SIZE_LIMIT: i64 = 0x10_0000;

/// Largest speed magnitude, in world units per second (2^20).
pub const SPEED_LIMIT: i64 = 0x10_0000;

/// Largest frame delta, in ticks (2^20 ticks is well over ten minutes).
pub const DT_LIMIT: i64 = 0x10_0000;

/// An axis-aligned rectangle in world units: top-left corner and extent.
/// A negative width is meaningful only as a mirrored destination rectangle
/// handed to the renderer; all rectangles the core reasons about satisfy
/// [`rect_wf`].
#[derive(Clone, Copy, PartialEq, Eq, Structural, Debug)]
pub struct Rect {
    pub x: i64,
    pub y: i64,
    pub w: i64,
    pub h: i64,
}

/// A two-component integer vector, used for velocities in units per second.
#[derive(Clone, Copy, PartialEq, Eq, Structural, Debug)]
pub struct Vec2i {
    pub x: i64,
    pub y: i64,
}

pub open spec fn in_pos_range(v: int) -> bool {
    -POS_LIMIT <= v <= POS_LIMIT
}

/// A well-formed rectangle: coordinates in range, nonnegative bounded extent.
pub open spec fn rect_wf(r: Rect) -> bool {
    &&& in_pos_range(r.x as int)
    &&& in_pos_range(r.y as int)
    &&& 0 <= r.w <= SIZE_LIMIT
    &&& 0 <= r.h <= SIZE_LIMIT
}

/// A well-formed velocity: both components bounded by [`SPEED_LIMIT`].
pub open spec fn vel_wf(v: Vec2i) -> bool {
    &&& -SPEED_LIMIT <= v.x <= SPEED_LIMIT
    &&& -SPEED_LIMIT <= v.y <= SPEED_LIMIT
}

/// Coordinate arithmetic on a rectangle stays far from the integer limits.
pub open spec fn rect_arith_ok(r: Rect) -> bool {
    &&& -0x1000_0000_0000_0000 <= r.x <= 0x1000_0000_0000_0000
    &&& -0x1000_0000_0000_0000 <= r.y <= 0x1000_0000_0000_0000
    &&& -0x1000_0000_0000_0000 <= r.w <= 0x1000_0000_0000_0000
    &&& -0x1000_0000_0000_0000 <= r.h <= 0x1000_0000_0000_0000
}

/// Closed-interval overlap: rectangles that merely touch along an edge count
/// as overlapping, exactly as the renderer's own rectangle test counts them.
pub open spec fn rects_overlap(a: Rect, b: Rect) -> bool {
    &&& a.x <= b.x + b.w
    &&& b.x <= a.x + a.w
    &&& a.y <= b.y + b.h
    &&& b.y <= a.y + a.h
}

pub fn overlaps(a: &Rect, b: &Rect) -> (r: bool)
    requires
        rect_arith_ok(*a),
        rect_arith_ok(*b),
    ensures
        r == rects_overlap(*a, *b),
{
    a.x <= b.x + b.w && b.x <= a.x + a.w && a.y <= b.y + b.h && b.y <= a.y + a.h
}

/// The rectangle displaced by `dx` along the horizontal axis only.
pub open spec fn shifted_x(r: Rect, dx: int) -> Rect {
    Rect { x: (r.x + dx) as i64, y: r.y, w: r.w, h: r.h }
}

/// The rectangle displaced by `dy` along the vertical axis only.
pub open spec fn shifted_y(r: Rect, dy: int) -> Rect {
    Rect { x: r.x, y: (r.y + dy) as i64, w: r.w, h: r.h }
}

/// Displacement covered in `dt` ticks at `v` units per second, rounded
/// toward zero: `v * dt / TICKS_PER_SECOND` with the magnitude truncated.
pub open spec fn scaled_disp(v: int, dt: int) -> int {
    if v >= 0 {
        (v * dt) / (TICKS_PER_SECOND as int)
    } else {
        -(((-v) * dt) / (TICKS_PER_SECOND as int))
    }
}

pub fn scaled(v: i64, dt: i64) -> (r: i64)
    requires
        -SPEED_LIMIT <= v <= SPEED_LIMIT,
        0 <= dt <= DT_LIMIT,
    ensures
        r == scaled_disp(v as int, dt as int),
        -POS_LIMIT <= r <= POS_LIMIT,
{
    if v >= 0 {
        proof {
            assert(0 <= v * dt <= SPEED_LIMIT * DT_LIMIT) by (nonlinear_arith)
                requires 0 <= v <= SPEED_LIMIT && 0 <= dt <= DT_LIMIT;
        }
        let p = v * dt;
        proof {
            vstd::arithmetic::div_mod::lemma_div_pos_is_pos(p as int, TICKS_PER_SECOND as int);
            vstd::arithmetic::div_mod::lemma_div_nonincreasing(p as int, TICKS_PER_SECOND as int);
        }
        p / TICKS_PER_SECOND
    } else {
        let m = -v;
        proof {
            assert(0 <= m * dt <= SPEED_LIMIT * DT_LIMIT) by (nonlinear_arith)
                requires 0 <= m <= SPEED_LIMIT && 0 <= dt <= DT_LIMIT;
        }
        let p = m * dt;
        proof {
            vstd::arithmetic::div_mod::lemma_div_pos_is_pos(p as int, TICKS_PER_SECOND as int);
            vstd::arithmetic::div_mod::lemma_div_nonincreasing(p as int, TICKS_PER_SECOND as int);
        }
        -(p / TICKS_PER_SECOND)
    }
}

} // verus!
