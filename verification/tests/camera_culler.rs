use airplane::camera::{compute, CAMERA_WIDTH};
use airplane::culler::{scan, RowRange};
use airplane::geom::{Rect, TILE_SIDE};
use airplane::layer::Layer;

fn column_of_solid_rows(height: usize, solid_rows: &[usize]) -> Layer {
    let width = 2usize;
    let mut tiles = vec![0u32; width * height];
    for &row in solid_rows {
        tiles[row * width] = 7;
    }
    Layer::new("main layer".to_string(), width, height, 0, 0, tiles)
}

#[test]
fn camera_extent_is_eleven_tiles_wide() {
    // Horizontal extent is 11 tiles at any resolution; vertical extent is
    // 11 * screen_height / screen_width tiles.
    for &(sw, sh) in &[(800i64, 600i64), (1920, 1080), (1024, 768), (640, 480), (333, 777)] {
        let c = compute(sw, sh, 12345);
        assert_eq!(c.w, 11 * TILE_SIDE);
        assert_eq!(c.h, CAMERA_WIDTH * sh / sw);
        assert_eq!(c.x, 0);
    }
}

#[test]
fn camera_at_800_by_600_is_htiles_8_25() {
    // 11 * 600 / 800 = 8.25 tiles = 264 world units.
    let c = compute(800, 600, 0);
    assert_eq!(c.w, 352);
    assert_eq!(c.h, 264);
}

#[test]
fn camera_tracks_player_with_one_tile_padding() {
    let c = compute(800, 600, 100);
    assert_eq!(c.y, 100 - 264 / 2 - TILE_SIDE);
}

#[test]
fn scan_starts_at_first_solid_row_in_window() {
    let layer = column_of_solid_rows(10, &[3, 4, 5, 6, 7]);
    // Window top at 96, scan limit at 96 + 64 + 32 = 192.
    let camera = Rect { x: 0, y: 96, w: 352, h: 64 };
    assert_eq!(scan(&layer, &camera), Some(RowRange { start: 3, end: 5 }));
}

#[test]
fn scan_skips_solid_rows_above_window() {
    let layer = column_of_solid_rows(10, &[0, 1, 6]);
    // Rows 0 and 1 lie above the window top of 64; row 6 (at 192) starts
    // the range and is also the last row inside the scan limit of 224.
    let camera = Rect { x: 0, y: 64, w: 352, h: 128 };
    assert_eq!(scan(&layer, &camera), Some(RowRange { start: 6, end: 6 }));
}

#[test]
fn scan_clamps_end_to_last_row() {
    // The camera window extends far past the map: the range ends at the
    // layer's last row.
    let layer = column_of_solid_rows(10, &[3, 4]);
    let camera = Rect { x: 0, y: 0, w: 352, h: 100000 };
    assert_eq!(scan(&layer, &camera), Some(RowRange { start: 3, end: 9 }));
}

#[test]
fn scan_of_empty_layer_finds_nothing() {
    let layer = column_of_solid_rows(10, &[]);
    let camera = Rect { x: 0, y: 0, w: 352, h: 264 };
    assert_eq!(scan(&layer, &camera), None);
}

#[test]
fn scan_below_all_solid_rows_finds_nothing() {
    let layer = column_of_solid_rows(10, &[2, 3]);
    // The window top (320) is below every solid row.
    let camera = Rect { x: 0, y: 320, w: 352, h: 264 };
    assert_eq!(scan(&layer, &camera), None);
}

#[test]
fn scan_range_includes_player_row() {
    // Row inclusion: with the camera derived from the player position, the
    // row under the player is part of the returned range.
    let layer = column_of_solid_rows(10, &[3, 4, 5, 6, 7]);
    for player_y in [100i64, 150, 200, 250] {
        let camera = compute(800, 600, player_y);
        let range = scan(&layer, &camera).unwrap();
        let player_row = (player_y / TILE_SIDE) as usize;
        assert!(range.start <= player_row && player_row <= range.end);
    }
}

#[test]
fn scan_honors_layer_pixel_offset() {
    let width = 2usize;
    let mut tiles = vec![0u32; width * 10];
    tiles[3 * width] = 7;
    let layer = Layer::new("decor".to_string(), width, 10, 0, 64, tiles);
    // Row 3 sits at 3 * 32 + 64 = 160; a window topped at 161 misses it.
    let low = Rect { x: 0, y: 161, w: 352, h: 64 };
    assert_eq!(scan(&layer, &low), None);
    // With the window topped at 160, rows keep their tops below the scan
    // limit of 256 up to row 5.
    let hit = Rect { x: 0, y: 160, w: 352, h: 64 };
    assert_eq!(scan(&layer, &hit), Some(RowRange { start: 3, end: 5 }));
}

#[test]
fn layer_accessors_read_the_grid() {
    let layer = Layer::new("main layer".to_string(), 3, 2, 5, -7, vec![0, 2, 0, 0, 0, 9]);
    assert_eq!(layer.tile(1, 0), 2);
    assert_eq!(layer.tile(2, 1), 9);
    assert_eq!(layer.tile(0, 0), 0);
    assert!(layer.solid(1, 0));
    assert!(!layer.solid(0, 1));
    assert!(layer.row_solid(0));
    assert!(layer.row_solid(1));
    assert_eq!(layer.row_top_px(1), 32 - 7);
    assert_eq!(layer.name, "main layer");
    assert_eq!(layer.offsetx, 5);
}
