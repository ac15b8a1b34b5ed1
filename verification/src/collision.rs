use vstd::prelude::*;

use crate::camera::CAMERA_TILES;
use crate::culler::RowRange;
use crate::geom::{
    rects_overlap, scaled, scaled_disp, shifted_x, shifted_y, vel_wf, rect_wf, Rect, Vec2i,
    DT_LIMIT, TILE_SIDE,
};
use crate::layer::Layer;

verus! {

/// A rectangular region of tile cells, columns `[col_start, col_end)` by
/// rows `[row_start, row_end)`. Cells outside the layer are ignored, not
/// rejected.
#[derive(Clone, Copy, PartialEq, Eq, Structural, Debug)]
pub struct Region {
    pub col_start: usize,
    pub col_end: usize,
    pub row_start: usize,
    pub row_end: usize,
}

/// The region the frame loop streams and tests: the culled rows crossed
/// with the camera-wide column span starting at the world origin.
pub fn region_for_rows(rows: &RowRange) -> (g: Region)
    requires
        rows.end < usize::MAX,
    ensures
        g.col_start == 0,
        g.col_end == CAMERA_TILES,
        g.row_start == rows.start,
        g.row_end == rows.end + 1,
{
    Region {
        col_start: 0,
        col_end: CAMERA_TILES as usize,
        row_start: rows.start,
        row_end: rows.end + 1,
    }
}

/// Broad-phase query rectangle: the player rectangle enlarged to three
/// times its width and height, centered on it, so only nearby tiles are
/// tested at all.
pub open spec fn broad_rect(p: Rect) -> Rect {
    Rect {
        x: (p.x - p.w) as i64,
        y: (p.y - p.h) as i64,
        w: (3 * p.w) as i64,
        h: (3 * p.h) as i64,
    }
}

/// Cell (`c`, `r`) is a broad-phase candidate: inside the region, solid in
/// the layer, and its tile rectangle overlaps the broad-phase rectangle.
pub open spec fn candidate(layer: Layer, region: Region, p: Rect, c: int, r: int) -> bool {
    &&& region.col_start <= c < region.col_end
    &&& region.row_start <= r < region.row_end
    &&& layer.solid_at(c, r)
    &&& rects_overlap(layer.tile_rect(c, r), broad_rect(p))
}

/// Candidate cell (`c`, `r`) blocks the displaced rectangle `moved`.
pub open spec fn tile_blocks(layer: Layer, region: Region, p: Rect, moved: Rect, c: int, r: int) -> bool {
    candidate(layer, region, p, c, r) && rects_overlap(moved, layer.tile_rect(c, r))
}

/// Some candidate cell blocks `moved`.
pub open spec fn blocked(layer: Layer, region: Region, p: Rect, moved: Rect) -> bool {
    exists|c: int, r: int| #[trigger] tile_blocks(layer, region, p, moved, c, r)
}

/// Some candidate cell before row `r`, or before column `c` of row `r`,
/// blocks `moved`: the part of [`blocked`] a row-major scan has decided.
pub open spec fn blocked_prefix(layer: Layer, region: Region, p: Rect, moved: Rect, r: int, c: int) -> bool {
    exists|cc: int, rr: int|
        #[trigger] tile_blocks(layer, region, p, moved, cc, rr) && (rr < r || (rr == r && cc < c))
}

/// The displaced top edge would cross the layer's top (`y < 0`) or bottom
/// (`y > TILE_SIDE * (height - 1)`) boundary.
pub open spec fn crosses_bounds(p: Rect, dy: int, height: int) -> bool {
    p.y + dy < 0 || p.y + dy > TILE_SIDE * (height - 1)
}

/// Axis-separated resolution (the whole contract of [`resolve`]): each axis
/// is tested independently against the original position on the other axis;
/// a blocked axis has its velocity component zeroed, an unblocked one keeps
/// it. The vertical axis is additionally clamped at the layer's top and
/// bottom boundary.
pub open spec fn resolve_spec(p: Rect, vel: Vec2i, dt: int, layer: Layer, region: Region) -> Vec2i {
    let dx = scaled_disp(vel.x as int, dt);
    let dy = scaled_disp(vel.y as int, dt);
    Vec2i {
        x: if blocked(layer, region, p, shifted_x(p, dx)) {
            0
        } else {
            vel.x
        },
        y: if crosses_bounds(p, dy, layer.height as int)
            || blocked(layer, region, p, shifted_y(p, dy)) {
            0
        } else {
            vel.y
        },
    }
}

/// Scanning one more cell extends the decided prefix by exactly that cell.
proof fn lemma_blocked_cell_step(layer: Layer, region: Region, p: Rect, moved: Rect, r: int, c: int)
    ensures
        blocked_prefix(layer, region, p, moved, r, c + 1) == (blocked_prefix(
            layer,
            region,
            p,
            moved,
            r,
            c,
        ) || tile_blocks(layer, region, p, moved, c, r)),
{
    if blocked_prefix(layer, region, p, moved, r, c + 1) {
        let (cc, rr) = choose|cc: int, rr: int|
            #[trigger] tile_blocks(layer, region, p, moved, cc, rr) && (rr < r || (rr == r && cc < c
                + 1));
        if rr == r && cc == c {
            assert(tile_blocks(layer, region, p, moved, c, r));
        } else {
            assert(blocked_prefix(layer, region, p, moved, r, c));
        }
    }
    if tile_blocks(layer, region, p, moved, c, r) {
        assert(blocked_prefix(layer, region, p, moved, r, c + 1));
    }
}

/// Once the scan has passed every column the layer has, moving to the next
/// row decides nothing new.
proof fn lemma_blocked_row_step(layer: Layer, region: Region, p: Rect, moved: Rect, r: int, c: int)
    requires
        region.col_end <= c || c >= layer.width,
    ensures
        blocked_prefix(layer, region, p, moved, r + 1, region.col_start as int) == blocked_prefix(
            layer,
            region,
            p,
            moved,
            r,
            c,
        ),
{
    if blocked_prefix(layer, region, p, moved, r + 1, region.col_start as int) {
        let (cc, rr) = choose|cc: int, rr: int|
            #[trigger] tile_blocks(layer, region, p, moved, cc, rr) && (rr < r + 1 || (rr == r + 1
                && cc < region.col_start));
        assert(rr <= r);
        if rr == r {
            assert(cc < c);
        }
        assert(blocked_prefix(layer, region, p, moved, r, c));
    }
}

/// Once the scan has passed every row the layer has, the prefix is the whole
/// region.
proof fn lemma_blocked_done(layer: Layer, region: Region, p: Rect, moved: Rect, r: int)
    requires
        region.row_end <= r || r >= layer.height,
    ensures
        blocked(layer, region, p, moved) == blocked_prefix(
            layer,
            region,
            p,
            moved,
            r,
            region.col_start as int,
        ),
{
    if blocked(layer, region, p, moved) {
        let (cc, rr) = choose|cc: int, rr: int| #[trigger] tile_blocks(layer, region, p, moved, cc, rr);
        assert(rr < r);
        assert(blocked_prefix(layer, region, p, moved, r, region.col_start as int));
    }
}

/// Resolves a movement intent against the solid tiles of `region`: tests
/// the player rectangle displaced along each axis alone against every
/// broad-phase candidate tile, zeroing the velocity component of a blocked
/// axis, after clamping the vertical displacement at the layer's top and
/// bottom boundary.
pub fn resolve(p: &Rect, vel: &Vec2i, dt: i64, layer: &Layer, region: &Region) -> (res: Vec2i)
    requires
        rect_wf(*p),
        vel_wf(*vel),
        0 <= dt <= DT_LIMIT,
        layer.wf(),
    ensures
        res == resolve_spec(*p, *vel, dt as int, *layer, *region),
{
    let dx = scaled(vel.x, dt);
    let dy = scaled(vel.y, dt);
    let broad = Rect { x: p.x - p.w, y: p.y - p.h, w: 3 * p.w, h: 3 * p.h };
    let moved_x = Rect { x: p.x + dx, y: p.y, w: p.w, h: p.h };
    let moved_y = Rect { x: p.x, y: p.y + dy, w: p.w, h: p.h };
    proof {
        assert(broad == broad_rect(*p));
        assert(moved_x == shifted_x(*p, dx as int));
        assert(moved_y == shifted_y(*p, dy as int));
    }

    let col_hi = if region.col_end <= layer.width {
        region.col_end
    } else {
        layer.width
    };
    let row_hi = if region.row_end <= layer.height {
        region.row_end
    } else {
        layer.height
    };

    let mut bx = false;
    let mut by = false;
    let mut r = region.row_start;
    while r < row_hi
        invariant
            rect_wf(*p),
            layer.wf(),
            -0x200_0000_0000 <= dx <= 0x200_0000_0000,
            -0x200_0000_0000 <= dy <= 0x200_0000_0000,
            broad == broad_rect(*p),
            moved_x == shifted_x(*p, dx as int),
            moved_y == shifted_y(*p, dy as int),
            col_hi <= region.col_end,
            col_hi == region.col_end || col_hi == layer.width,
            row_hi <= region.row_end,
            row_hi == region.row_end || row_hi == layer.height,
            col_hi <= layer.width,
            row_hi <= layer.height,
            region.row_start <= r,
            r <= row_hi || r == region.row_start,
            bx == blocked_prefix(*layer, *region, *p, moved_x, r as int, region.col_start as int),
            by == blocked_prefix(*layer, *region, *p, moved_y, r as int, region.col_start as int),
        decreases row_hi - r,
    {
        let mut c = region.col_start;
        while c < col_hi
            invariant
                rect_wf(*p),
                layer.wf(),
                -0x200_0000_0000 <= dx <= 0x200_0000_0000,
                -0x200_0000_0000 <= dy <= 0x200_0000_0000,
                broad == broad_rect(*p),
                moved_x == shifted_x(*p, dx as int),
                moved_y == shifted_y(*p, dy as int),
                col_hi <= region.col_end,
                col_hi == region.col_end || col_hi == layer.width,
                col_hi <= layer.width,
                r < row_hi,
                row_hi <= layer.height,
                row_hi <= region.row_end,
                region.row_start <= r,
                region.col_start <= c,
                c <= col_hi || c == region.col_start,
                bx == blocked_prefix(*layer, *region, *p, moved_x, r as int, c as int),
                by == blocked_prefix(*layer, *region, *p, moved_y, r as int, c as int),
            decreases col_hi - c,
        {
            let mut hit_x = false;
            let mut hit_y = false;
            if layer.solid(c, r) {
                let tile = Rect {
                    x: (c as i64) * TILE_SIDE + layer.offsetx,
                    y: (r as i64) * TILE_SIDE + layer.offsety,
                    w: TILE_SIDE,
                    h: TILE_SIDE,
                };
                proof {
                    assert(tile == layer.tile_rect(c as int, r as int));
                }
                if crate::geom::overlaps(&tile, &broad) {
                    hit_x = crate::geom::overlaps(&moved_x, &tile);
                    hit_y = crate::geom::overlaps(&moved_y, &tile);
                }
            }
            proof {
                assert(hit_x == tile_blocks(*layer, *region, *p, moved_x, c as int, r as int));
                assert(hit_y == tile_blocks(*layer, *region, *p, moved_y, c as int, r as int));
                lemma_blocked_cell_step(*layer, *region, *p, moved_x, r as int, c as int);
                lemma_blocked_cell_step(*layer, *region, *p, moved_y, r as int, c as int);
            }
            bx = bx || hit_x;
            by = by || hit_y;
            c += 1;
        }
        proof {
            lemma_blocked_row_step(*layer, *region, *p, moved_x, r as int, c as int);
            lemma_blocked_row_step(*layer, *region, *p, moved_y, r as int, c as int);
        }
        r += 1;
    }
    proof {
        lemma_blocked_done(*layer, *region, *p, moved_x, r as int);
        lemma_blocked_done(*layer, *region, *p, moved_y, r as int);
    }

    let floor_y = TILE_SIDE * (layer.height as i64 - 1);
    let crosses = p.y + dy < 0 || p.y + dy > floor_y;
    Vec2i {
        x: if bx {
            0
        } else {
            vel.x
        },
        y: if crosses || by {
            0
        } else {
            vel.y
        },
    }
}

/// Idle resolution: a zero velocity resolves to zero for any rectangle,
/// tiles and frame delta.
pub proof fn lemma_resolve_idle(p: Rect, dt: int, layer: Layer, region: Region)
    ensures
        resolve_spec(p, Vec2i { x: 0, y: 0 }, dt, layer, region) == (Vec2i { x: 0, y: 0 }),
{
}

/// Containment, horizontal axis: a candidate tile that the x-displaced
/// rectangle overlaps forces the resolved x component to exactly 0, while
/// the y component is kept whenever nothing blocks the vertical axis.
pub proof fn lemma_containment_x(
    p: Rect,
    vel: Vec2i,
    dt: int,
    layer: Layer,
    region: Region,
    c: int,
    r: int,
)
    requires
        tile_blocks(layer, region, p, shifted_x(p, scaled_disp(vel.x as int, dt)), c, r),
        !crosses_bounds(p, scaled_disp(vel.y as int, dt), layer.height as int),
        !blocked(layer, region, p, shifted_y(p, scaled_disp(vel.y as int, dt))),
    ensures
        resolve_spec(p, vel, dt, layer, region).x == 0,
        resolve_spec(p, vel, dt, layer, region).y == vel.y,
{
}

/// Containment, vertical axis: a candidate tile that the y-displaced
/// rectangle overlaps forces the resolved y component to exactly 0, while
/// the x component is kept whenever nothing blocks the horizontal axis.
pub proof fn lemma_containment_y(
    p: Rect,
    vel: Vec2i,
    dt: int,
    layer: Layer,
    region: Region,
    c: int,
    r: int,
)
    requires
        tile_blocks(layer, region, p, shifted_y(p, scaled_disp(vel.y as int, dt)), c, r),
        !blocked(layer, region, p, shifted_x(p, scaled_disp(vel.x as int, dt))),
    ensures
        resolve_spec(p, vel, dt, layer, region).y == 0,
        resolve_spec(p, vel, dt, layer, region).x == vel.x,
{
}

/// Per-axis safety of resolved motion: a broad-phase candidate tile that the
/// player rectangle does not already touch is still untouched after the
/// rectangle is displaced along either single axis by the displacement the
/// resolved velocity yields.
pub proof fn lemma_resolved_motion_safe(
    p: Rect,
    vel: Vec2i,
    dt: int,
    layer: Layer,
    region: Region,
    c: int,
    r: int,
)
    requires
        candidate(layer, region, p, c, r),
        !rects_overlap(p, layer.tile_rect(c, r)),
    ensures
        !rects_overlap(
            shifted_x(p, scaled_disp(resolve_spec(p, vel, dt, layer, region).x as int, dt)),
            layer.tile_rect(c, r),
        ),
        !rects_overlap(
            shifted_y(p, scaled_disp(resolve_spec(p, vel, dt, layer, region).y as int, dt)),
            layer.tile_rect(c, r),
        ),
{
    let rv = resolve_spec(p, vel, dt, layer, region);
    let dx = scaled_disp(vel.x as int, dt);
    let dy = scaled_disp(vel.y as int, dt);
    if blocked(layer, region, p, shifted_x(p, dx)) {
        assert(scaled_disp(0, dt) == 0);
        assert(shifted_x(p, 0) == p);
    } else {
        if rects_overlap(shifted_x(p, dx), layer.tile_rect(c, r)) {
            assert(tile_blocks(layer, region, p, shifted_x(p, dx), c, r));
            assert(false);
        }
    }
    if crosses_bounds(p, dy, layer.height as int) || blocked(layer, region, p, shifted_y(p, dy)) {
        assert(scaled_disp(0, dt) == 0);
        assert(shifted_y(p, 0) == p);
    } else {
        if rects_overlap(shifted_y(p, dy), layer.tile_rect(c, r)) {
            assert(tile_blocks(layer, region, p, shifted_y(p, dy), c, r));
            assert(false);
        }
    }
}

} // verus!
