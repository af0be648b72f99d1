//! The level: a fixed-size grid of tiles, and the viewport windowing
//! function that maps a scroll offset and a viewport size to the visible
//! span of tiles.

use vstd::prelude::*;

use crate::tile::Tile;

verus! {

/// The full logical tile grid. The tile at coordinate `(x, y)` is
/// `tiles[x + y * width]`; the grid is built once at startup and never
/// mutated, so the render loop may copy it freely.
#[derive(Clone)]
pub struct Level {
    pub width: u16,
    pub height: u16,
    pub tiles: Vec<Tile>,
}

impl Level {
    /// The grid invariant: exactly one tile per cell, row-major.
    pub open spec fn wf(self) -> bool {
        self.tiles@.len() == self.width * self.height
    }

    /// The tile at logical coordinate `(x, y)`.
    pub open spec fn tile_at(self, x: int, y: int) -> Tile {
        self.tiles@[x + y * self.width]
    }

    /// The mathematical window: the `vw * vh` tiles visible through a
    /// viewport of that size whose origin sits at `(x0, y0)`, rows
    /// top-to-bottom, each row left-to-right.
    pub open spec fn window_spec(self, x0: int, y0: int, vw: int, vh: int) -> Seq<Tile> {
        Seq::new((vw * vh) as nat, |i: int| self.tile_at(x0 + i % vw, y0 + i / vw))
    }

    pub fn new(tiles: Vec<Tile>, width: u16, height: u16) -> (level: Level)
        requires
            tiles@.len() == width * height,
        ensures
            level.width == width,
            level.height == height,
            level.tiles == tiles,
            level.wf(),
    {
        Level { tiles, width, height }
    }

    pub fn get_tiles(&self) -> (r: &Vec<Tile>)
        ensures
            r == &self.tiles,
    {
        &self.tiles
    }

    pub fn get_width(&self) -> (r: u16)
        ensures
            r == self.width,
    {
        self.width
    }

    pub fn get_height(&self) -> (r: u16)
        ensures
            r == self.height,
    {
        self.height
    }

    /// The visible window: for each viewport cell `(vx, vy)` the tile at
    /// source coordinate `(x_offset + vx, y_offset + vy)`, row-major. The
    /// offsets must already be clamped so that every sampled coordinate is
    /// inside the grid; that is the caller's clamping policy, enforced at
    /// mutation time.
    pub fn window(&self, x_offset: usize, y_offset: usize, vw: usize, vh: usize) -> (w: Vec<Tile>)
        requires
            self.wf(),
            x_offset + vw <= self.width,
            y_offset + vh <= self.height,
        ensures
            w@ == self.window_spec(x_offset as int, y_offset as int, vw as int, vh as int),
    {
        let width = self.width as usize;
        let mut out: Vec<Tile> = Vec::new();
        let mut vy: usize = 0;
        while vy < vh
            invariant
                self.wf(),
                x_offset + vw <= self.width,
                y_offset + vh <= self.height,
                width == self.width,
                vy <= vh,
                out@.len() == vy * vw,
                forall|i: int| 0 <= i < out@.len() ==>
                    out@[i] == self.tile_at(x_offset + i % (vw as int), y_offset + i / (vw as int)),
            decreases vh - vy,
        {
            let mut vx: usize = 0;
            while vx < vw
                invariant
                    self.wf(),
                    x_offset + vw <= self.width,
                    y_offset + vh <= self.height,
                    width == self.width,
                    vy < vh,
                    vx <= vw,
                    out@.len() == vy * vw + vx,
                    forall|i: int| 0 <= i < out@.len() ==>
                        out@[i] == self.tile_at(x_offset + i % (vw as int), y_offset + i / (vw as int)),
                decreases vw - vx,
            {
                let sx = x_offset + vx;
                let sy = y_offset + vy;
                proof {
                    lemma_grid_index_bounds(sx as int, sy as int, self.width as int, self.height as int);
                }
                let idx = sx + sy * width;
                out.push(self.tiles[idx]);
                proof {
                    let k = vy as int * vw as int + vx as int;
                    lemma_row_major_split(vy as int, vx as int, vw as int, vh as int);
                    assert(out@[k] == self.tile_at(x_offset + k % (vw as int), y_offset + k / (vw as int)));
                }
                vx = vx + 1;
            }
            proof {
                assert((vy as int + 1) * (vw as int) == vy as int * (vw as int) + vw as int)
                    by (nonlinear_arith);
            }
            vy = vy + 1;
        }
        proof {
            assert(vh as int * vw as int == vw as int * vh as int) by (nonlinear_arith);
            assert(out@ =~= self.window_spec(x_offset as int, y_offset as int, vw as int, vh as int));
        }
        out
    }

    /// Windowing correctness: for every valid offset (`x0 + vw <= width`,
    /// `y0 + vh <= height`) the window has exactly `vw * vh` tiles, and
    /// position `(vx, vy)` of it holds exactly the level's tile at
    /// `(x0 + vx, y0 + vy)`.
    pub proof fn lemma_window_tile(self, x0: int, y0: int, vw: int, vh: int, vx: int, vy: int)
        requires
            0 <= x0,
            0 <= y0,
            x0 + vw <= self.width,
            y0 + vh <= self.height,
            0 <= vx < vw,
            0 <= vy < vh,
        ensures
            self.window_spec(x0, y0, vw, vh).len() == vw * vh,
            self.window_spec(x0, y0, vw, vh)[vy * vw + vx] == self.tile_at(x0 + vx, y0 + vy),
    {
        lemma_row_major_split(vy, vx, vw, vh);
        assert(vh * vw == vw * vh) by (nonlinear_arith);
    }
}

/// A coordinate inside the grid gives a row-major index inside the tile
/// sequence.
proof fn lemma_grid_index_bounds(x: int, y: int, width: int, height: int) by (nonlinear_arith)
    requires
        0 <= x < width,
        0 <= y < height,
        width < 0x1_0000,
        height < 0x1_0000,
    ensures
        0 <= x + y * width < width * height,
        x + y * width < 0xffff_ffff,
{
}

/// Position `vy * vw + vx` of the window has viewport row `vy` and column
/// `vx`.
proof fn lemma_row_major_split(vy: int, vx: int, vw: int, vh: int) by (nonlinear_arith)
    requires
        0 <= vx < vw,
        0 <= vy < vh,
    ensures
        vy * vw + vx < vh * vw,
        (vy * vw + vx) % vw == vx,
        (vy * vw + vx) / vw == vy,
{
}

} // verus!
