use airplane::collision::{region_for_rows, resolve, Region};
use airplane::culler::RowRange;
use airplane::geom::{overlaps, scaled, Rect, Vec2i};
use airplane::layer::Layer;

fn grid(width: usize, height: usize, solid_cells: &[(usize, usize)]) -> Layer {
    let mut tiles = vec![0u32; width * height];
    for &(col, row) in solid_cells {
        tiles[row * width + col] = 1;
    }
    Layer::new("main layer".to_string(), width, height, 0, 0, tiles)
}

fn whole(layer: &Layer) -> Region {
    Region { col_start: 0, col_end: layer.width, row_start: 0, row_end: layer.height }
}

#[test]
fn vertical_motion_into_tile_is_stopped() {
    // Solid tile at column 5, row 1 covers (160, 32, 32, 32); the player at
    // (160, 0, 24, 24) moving down 10 units this frame is blocked.
    let layer = grid(11, 78, &[(5, 1)]);
    let player = Rect { x: 160, y: 0, w: 24, h: 24 };
    let vel = Vec2i { x: 0, y: 100 };
    let dt = 120; // 0.1 s in ticks
    let res = resolve(&player, &vel, dt, &layer, &whole(&layer));
    assert_eq!(res, Vec2i { x: 0, y: 0 });
    assert_eq!(scaled(res.y, dt), 0); // the player stays at y = 0
}

#[test]
fn free_horizontal_motion_is_kept() {
    let layer = grid(11, 78, &[]);
    let player = Rect { x: 160, y: 0, w: 24, h: 24 };
    let vel = Vec2i { x: 100, y: 0 };
    let dt = 120;
    let res = resolve(&player, &vel, dt, &layer, &whole(&layer));
    assert_eq!(res, Vec2i { x: 100, y: 0 });
    assert_eq!(player.x + scaled(res.x, dt), 170);
}

#[test]
fn zero_velocity_resolves_to_zero() {
    // Idempotence: a still player stays still, tiles or no tiles.
    let layer = grid(11, 78, &[(5, 1), (4, 0), (6, 2)]);
    let player = Rect { x: 160, y: 0, w: 24, h: 24 };
    let res = resolve(&player, &Vec2i { x: 0, y: 0 }, 120, &layer, &whole(&layer));
    assert_eq!(res, Vec2i { x: 0, y: 0 });
}

#[test]
fn blocked_axis_zeroed_other_kept() {
    // Containment: the tile fully covers the vertical destination, so the
    // y component is exactly 0 while the x component is unchanged.
    let layer = grid(11, 78, &[(4, 1), (5, 1), (6, 1)]);
    let player = Rect { x: 160, y: 4, w: 24, h: 24 };
    let vel = Vec2i { x: 60, y: 100 };
    let dt = 120;
    let res = resolve(&player, &vel, dt, &layer, &whole(&layer));
    assert_eq!(res, Vec2i { x: 60, y: 0 });
}

#[test]
fn horizontal_block_zeroes_x_only() {
    // A wall to the right: moving right and down, only x is stopped.
    let layer = grid(11, 78, &[(6, 0), (6, 1), (6, 2)]);
    let player = Rect { x: 160, y: 40, w: 24, h: 24 };
    let vel = Vec2i { x: 100, y: 100 };
    let dt = 120;
    let res = resolve(&player, &vel, dt, &layer, &whole(&layer));
    assert_eq!(res.x, 0);
    assert_eq!(res.y, 100);
}

#[test]
fn far_tile_is_outside_broad_phase() {
    // A solid tile far from the player is not even tested.
    let layer = grid(11, 78, &[(5, 40)]);
    let player = Rect { x: 160, y: 0, w: 24, h: 24 };
    let vel = Vec2i { x: 100, y: 100 };
    let res = resolve(&player, &vel, 120, &layer, &whole(&layer));
    assert_eq!(res, Vec2i { x: 100, y: 100 });
}

#[test]
fn top_boundary_clamps_upward_motion() {
    // Moving up from y = 0 would cross the layer's top: y is zeroed.
    let layer = grid(11, 78, &[]);
    let player = Rect { x: 160, y: 0, w: 24, h: 24 };
    let vel = Vec2i { x: 0, y: -100 };
    let res = resolve(&player, &vel, 120, &layer, &whole(&layer));
    assert_eq!(res, Vec2i { x: 0, y: 0 });
}

#[test]
fn bottom_boundary_clamps_downward_motion() {
    // The bottom boundary sits at TILE_SIDE * (height - 1) = 2464.
    let layer = grid(11, 78, &[]);
    let player = Rect { x: 160, y: 2460, w: 24, h: 24 };
    let vel = Vec2i { x: 0, y: 100 };
    let res = resolve(&player, &vel, 120, &layer, &whole(&layer));
    assert_eq!(res, Vec2i { x: 0, y: 0 });
}

#[test]
fn region_outside_layer_is_ignored() {
    // The query region may extend past the layer; the overhang holds no
    // candidates and changes nothing.
    let layer = grid(6, 2, &[(5, 1)]);
    let player = Rect { x: 160, y: 0, w: 24, h: 24 };
    let vel = Vec2i { x: 0, y: 100 };
    let region = Region { col_start: 0, col_end: 100, row_start: 0, row_end: 100 };
    let res = resolve(&player, &vel, 120, &layer, &region);
    assert_eq!(res, Vec2i { x: 0, y: 0 });
}

#[test]
fn tile_outside_region_is_not_tested() {
    // The same tile that blocks inside the region does nothing outside it.
    let layer = grid(11, 78, &[(5, 1)]);
    let player = Rect { x: 160, y: 0, w: 24, h: 24 };
    let vel = Vec2i { x: 0, y: 100 };
    let region = Region { col_start: 0, col_end: 11, row_start: 2, row_end: 78 };
    let res = resolve(&player, &vel, 120, &layer, &region);
    assert_eq!(res, Vec2i { x: 0, y: 100 });
}

#[test]
fn region_for_rows_spans_camera_columns() {
    let region = region_for_rows(&RowRange { start: 3, end: 9 });
    assert_eq!(region.col_start, 0);
    assert_eq!(region.col_end, 11);
    assert_eq!(region.row_start, 3);
    assert_eq!(region.row_end, 10);
}

#[test]
fn touching_rectangles_count_as_overlapping() {
    let a = Rect { x: 0, y: 0, w: 32, h: 32 };
    let b = Rect { x: 32, y: 0, w: 32, h: 32 };
    let c = Rect { x: 65, y: 0, w: 32, h: 32 };
    assert!(overlaps(&a, &b));
    assert!(!overlaps(&a, &c));
}

#[test]
fn displacement_rounds_toward_zero() {
    assert_eq!(scaled(100, 120), 10);
    assert_eq!(scaled(-100, 120), -10);
    assert_eq!(scaled(100, 17), 1); // 1700 / 1200 truncated
    assert_eq!(scaled(-100, 17), -1);
    assert_eq!(scaled(0, 1000), 0);
}
