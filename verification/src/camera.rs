use vstd::prelude::*;

use crate::geom::{in_pos_range, Rect, TILE_SIDE};

verus! {

/// Horizontal extent of the camera window, in tiles. It is fixed: the camera
/// never pans horizontally and does not depend on the screen resolution.
pub const CAMERA_TILES: i64 = 11;

/// Horizontal extent of the camera window, in world units.
pub const CAMERA_WIDTH: i64 = CAMERA_TILES * TILE_SIDE;

/// Largest screen dimension accepted, in pixels.
pub const SCREEN_LIMIT: i64 = 0x10_0000;

/// Vertical extent of the camera window: the fixed width scaled by the
/// screen's aspect ratio, rounded down to a whole world unit.
pub open spec fn camera_height(screen_w: int, screen_h: int) -> int {
    (CAMERA_WIDTH * screen_h) / screen_w
}

/// Derives the visible world rectangle from the player's y position and the
/// screen size. The window is `CAMERA_TILES` tiles wide at any resolution,
/// `CAMERA_WIDTH * screen_h / screen_w` units tall, pinned to the world
/// origin horizontally, and placed so the player's y sits half a window
/// below the top edge with one extra tile of look-ahead padding.
pub fn compute(screen_w: i64, screen_h: i64, player_y: i64) -> (c: Rect)
    requires
        0 < screen_w <= SCREEN_LIMIT,
        0 <= screen_h <= SCREEN_LIMIT,
        in_pos_range(player_y as int),
    ensures
        c.x == 0,
        c.w == CAMERA_WIDTH,
        c.h == camera_height(screen_w as int, screen_h as int),
        0 <= c.h <= CAMERA_WIDTH * SCREEN_LIMIT,
        c.y == player_y - c.h / 2 - TILE_SIDE,
{
    let scaled_h = CAMERA_WIDTH * screen_h;
    proof {
        vstd::arithmetic::div_mod::lemma_div_pos_is_pos(scaled_h as int, screen_w as int);
        vstd::arithmetic::div_mod::lemma_div_nonincreasing(scaled_h as int, screen_w as int);
    }
    let h = scaled_h / screen_w;
    Rect { x: 0, y: player_y - h / 2 - TILE_SIDE, w: CAMERA_WIDTH, h }
}

} // verus!
