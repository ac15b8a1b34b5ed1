use vstd::prelude::*;

use crate::geom::{Rect, TILE_SIDE};
use crate::layer::Layer;

verus! {

/// Inclusive range of layer rows to stream this frame.
#[derive(Clone, Copy, PartialEq, Eq, Structural, Debug)]
pub struct RowRange {
    pub start: usize,
    pub end: usize,
}

/// Coordinate arithmetic on the camera rectangle stays far from the integer
/// limits (a rectangle from [`crate::camera::compute`] is well inside).
pub open spec fn camera_arith_ok(c: Rect) -> bool {
    &&& -0x1000_0000_0000_0000 <= c.y <= 0x1000_0000_0000_0000
    &&& 0 <= c.h <= 0x1000_0000_0000_0000
}

/// Lower scan limit: the camera window's bottom edge plus one tile of
/// padding.
pub open spec fn scan_limit(camera: Rect) -> int {
    camera.y + camera.h + TILE_SIDE
}

/// `row` can start the visible range: it holds a solid tile and its top edge
/// is at or below the camera window's top edge.
pub open spec fn row_starts(layer: Layer, camera: Rect, row: int) -> bool {
    layer.row_has_solid(row) && layer.row_top(row) >= camera.y
}

/// Some row starts the visible range before the scan limit, so the layer has
/// rows to draw this frame.
pub open spec fn range_exists(layer: Layer, camera: Rect) -> bool {
    exists|r: int|
        0 <= r < layer.height && #[trigger] row_starts(layer, camera, r)
            && layer.row_top(r) < scan_limit(camera)
}

/// What a returned row range means: `start` is the first row that can start
/// the range and lies above the scan limit; `end` is the last row before the
/// scan limit, or the layer's last row when the camera window extends past
/// the map.
pub open spec fn scan_finds(layer: Layer, camera: Rect, rr: RowRange) -> bool {
    &&& rr.start <= rr.end < layer.height
    &&& row_starts(layer, camera, rr.start as int)
    &&& layer.row_top(rr.start as int) < scan_limit(camera)
    &&& forall|r: int| 0 <= r < rr.start ==> !#[trigger] row_starts(layer, camera, r)
    &&& layer.row_top(rr.end as int) < scan_limit(camera)
    &&& rr.end == layer.height - 1 || layer.row_top(rr.end + 1) >= scan_limit(camera)
}

/// Full contract of [`scan`].
pub open spec fn scan_spec(layer: Layer, camera: Rect, res: Option<RowRange>) -> bool {
    match res {
        Option::None => !range_exists(layer, camera),
        Option::Some(rr) => scan_finds(layer, camera, rr),
    }
}

/// Finds the minimal inclusive row range of `layer` that intersects the
/// camera window: the scan starts at the first row holding a solid tile at
/// or below the window's top edge, and stops one tile of padding past the
/// window's bottom edge or at the layer's last row. `None` means the layer
/// has nothing to draw this frame.
pub fn scan(layer: &Layer, camera: &Rect) -> (res: Option<RowRange>)
    requires
        layer.wf(),
        camera_arith_ok(*camera),
    ensures
        scan_spec(*layer, *camera, res),
{
    let limit = camera.y + camera.h + TILE_SIDE;
    let mut row: usize = 0;
    while row < layer.height
        invariant
            layer.wf(),
            camera_arith_ok(*camera),
            limit == scan_limit(*camera),
            row <= layer.height,
            forall|r: int| 0 <= r < row ==> !#[trigger] row_starts(*layer, *camera, r),
        decreases layer.height - row,
    {
        if layer.row_top_px(row) >= camera.y && layer.row_solid(row) {
            // `row` starts the range; if it already lies past the scan
            // limit, nothing at all is visible.
            if layer.row_top_px(row) >= limit {
                proof {
                    assert forall|r: int|
                        0 <= r < layer.height && #[trigger] row_starts(*layer, *camera, r)
                        implies layer.row_top(r) >= scan_limit(*camera) by {
                        assert(r >= row);
                        assert(layer.row_top(r) >= layer.row_top(row as int));
                    }
                }
                return Option::None;
            }
            let start = row;
            let mut last = row;
            while last + 1 < layer.height && layer.row_top_px(last + 1) < limit
                invariant
                    layer.wf(),
                    camera_arith_ok(*camera),
                    limit == scan_limit(*camera),
                    start <= last < layer.height,
                    layer.row_top(last as int) < scan_limit(*camera),
                decreases layer.height - last,
            {
                last += 1;
            }
            return Option::Some(RowRange { start, end: last });
        }
        row += 1;
    }
    proof {
        assert forall|r: int| 0 <= r < layer.height
            implies !#[trigger] row_starts(*layer, *camera, r) by {}
    }
    Option::None
}

/// Row that contains world y coordinate `y` in a layer drawn at offset 0.
pub open spec fn row_of(y: int) -> int {
    y / (TILE_SIDE as int)
}

/// Row inclusion: when the camera window is derived from the player's
/// position as [`crate::camera::compute`] derives it, the player's y lies
/// within the layer's vertical bounds, and some row at or above the player's
/// row can start the range, then [`scan`] returns a range and it contains
/// the player's row. (When every solid row at or below the window's top edge
/// lies strictly below the player, the range starts below the player's row
/// instead.)
pub proof fn lemma_row_inclusion(layer: Layer, camera: Rect, player_y: int, res: Option<RowRange>)
    requires
        layer.wf(),
        layer.offsety == 0,
        scan_spec(layer, camera, res),
        camera.h >= 1,
        camera.y == player_y - camera.h / 2 - TILE_SIDE,
        0 <= player_y <= TILE_SIDE * (layer.height - 1),
        exists|r: int|
            0 <= r <= row_of(player_y) && #[trigger] row_starts(layer, camera, r),
    ensures
        res matches Option::Some(rr) && rr.start <= row_of(player_y) <= rr.end,
{
    let t = TILE_SIDE as int;
    let p = row_of(player_y);
    vstd::arithmetic::div_mod::lemma_fundamental_div_mod(player_y, t);
    vstd::arithmetic::div_mod::lemma_mod_bound(player_y, t);
    // p * TILE_SIDE <= player_y, and p <= height - 1.
    assert(t * p <= player_y);
    vstd::arithmetic::div_mod::lemma_div_is_ordered(player_y, t * (layer.height - 1), t);
    vstd::arithmetic::div_mod::lemma_div_by_multiple(layer.height - 1, t);
    assert(p <= layer.height - 1);
    // The player's row top is above the scan limit.
    assert(camera.h / 2 <= camera.h - 1) by {
        vstd::arithmetic::div_mod::lemma_fundamental_div_mod(camera.h as int, 2);
        vstd::arithmetic::div_mod::lemma_mod_bound(camera.h as int, 2);
    }
    assert(layer.row_top(p) < scan_limit(camera));
    let w = choose|r: int| 0 <= r <= p && #[trigger] row_starts(layer, camera, r);
    assert(layer.row_top(w) <= layer.row_top(p));
    assert(range_exists(layer, camera));
    match res {
        Option::None => {
            assert(false);
        }
        Option::Some(rr) => {
            // No row before `start` can start the range, so start <= w <= p.
            assert(rr.start <= w);
            // And `p` cannot lie past `end`, whose successor row (if any)
            // already reaches the scan limit.
            if p > rr.end {
                assert(layer.row_top(rr.end + 1) >= scan_limit(camera));
                assert(layer.row_top(p) >= layer.row_top(rr.end + 1));
                assert(false);
            }
        }
    }
}

} // verus!
