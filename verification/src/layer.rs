use vstd::prelude::*;

use crate::geom::{in_pos_range, Rect, TILE_SIDE};

verus! {

/// Largest layer dimension, in tiles (2^15 on each axis keeps every cell
/// index inside a 32-bit `usize`).
pub const DIM_LIMIT: usize = 0x8000;

/// One named layer of the tile map: a `width` x `height` grid of tile ids in
/// row-major order, drawn at a fixed pixel offset. Tile id `0` means "no
/// tile"; any nonzero id is solid for collision purposes.
pub struct Layer {
    pub name: String,
    pub width: usize,
    pub height: usize,
    pub offsetx: i64,
    pub offsety: i64,
    pub tiles: Vec<u32>,
}

impl Layer {
    /// Well-formed layer: bounded dimensions, offset in coordinate range,
    /// and exactly one tile id per cell.
    pub open spec fn wf(self) -> bool {
        &&& self.width <= DIM_LIMIT
        &&& self.height <= DIM_LIMIT
        &&& in_pos_range(self.offsetx as int)
        &&& in_pos_range(self.offsety as int)
        &&& self.tiles@.len() == self.width * self.height
    }

    /// Tile id stored at column `col` of row `row`.
    pub open spec fn tile_id(self, col: int, row: int) -> u32 {
        self.tiles@[row * self.width + col]
    }

    /// The cell is inside the grid and holds a nonzero (solid) tile id.
    pub open spec fn solid_at(self, col: int, row: int) -> bool {
        &&& 0 <= col < self.width
        &&& 0 <= row < self.height
        &&& self.tile_id(col, row) != 0
    }

    /// World y coordinate of the top edge of `row`.
    pub open spec fn row_top(self, row: int) -> int {
        row * TILE_SIDE + self.offsety
    }

    /// World rectangle covered by the cell at (`col`, `row`).
    pub open spec fn tile_rect(self, col: int, row: int) -> Rect {
        Rect {
            x: (col * TILE_SIDE + self.offsetx) as i64,
            y: (row * TILE_SIDE + self.offsety) as i64,
            w: TILE_SIDE,
            h: TILE_SIDE,
        }
    }

    /// Some cell of `row` is solid.
    pub open spec fn row_has_solid(self, row: int) -> bool {
        exists|c: int| 0 <= c < self.width && self.solid_at(c, row)
    }

    pub fn new(name: String, width: usize, height: usize, offsetx: i64, offsety: i64, tiles: Vec<u32>) -> (l: Layer)
        requires
            width <= DIM_LIMIT,
            height <= DIM_LIMIT,
            in_pos_range(offsetx as int),
            in_pos_range(offsety as int),
            tiles@.len() == width * height,
        ensures
            l.wf(),
            l.name == name,
            l.width == width,
            l.height == height,
            l.offsetx == offsetx,
            l.offsety == offsety,
            l.tiles == tiles,
    {
        Layer { name, width, height, offsetx, offsety, tiles }
    }

    /// Tile id at (`col`, `row`).
    pub fn tile(&self, col: usize, row: usize) -> (t: u32)
        requires
            self.wf(),
            col < self.width,
            row < self.height,
        ensures
            t == self.tile_id(col as int, row as int),
    {
        proof {
            lemma_cell_index(self.width as int, self.height as int, col as int, row as int);
        }
        self.tiles[row * self.width + col]
    }

    /// Whether the cell at (`col`, `row`) is solid.
    pub fn solid(&self, col: usize, row: usize) -> (b: bool)
        requires
            self.wf(),
            col < self.width,
            row < self.height,
        ensures
            b == self.solid_at(col as int, row as int),
    {
        self.tile(col, row) != 0
    }

    /// World y coordinate of the top edge of `row`.
    pub fn row_top_px(&self, row: usize) -> (y: i64)
        requires
            self.wf(),
            row <= self.height,
        ensures
            y == self.row_top(row as int),
    {
        (row as i64) * TILE_SIDE + self.offsety
    }

    /// Scans `row` for a solid tile.
    pub fn row_solid(&self, row: usize) -> (b: bool)
        requires
            self.wf(),
            row < self.height,
        ensures
            b == self.row_has_solid(row as int),
    {
        let mut c: usize = 0;
        while c < self.width
            invariant
                self.wf(),
                row < self.height,
                c <= self.width,
                forall|cc: int| 0 <= cc < c ==> !self.solid_at(cc, row as int),
            decreases self.width - c,
        {
            if self.solid(c, row) {
                return true;
            }
            c += 1;
        }
        false
    }
}

/// A cell's row-major index is in bounds and fits comfortably in `usize`.
pub proof fn lemma_cell_index(width: int, height: int, col: int, row: int)
    requires
        0 <= col < width,
        0 <= row < height,
        width <= DIM_LIMIT,
        height <= DIM_LIMIT,
    ensures
        0 <= row * width + col < width * height,
        row * width + col < 0x4000_0000,
{
    assert(0 <= row * width + col < width * height && row * width + col < 0x4000_0000)
        by (nonlinear_arith)
        requires
            0 <= col < width,
            0 <= row < height,
            width <= 0x8000,
            height <= 0x8000;
}

} // verus!
