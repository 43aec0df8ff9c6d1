//! Sprite-sheet bookkeeping: the facing direction of the player, the
//! animation timer, and the geometry of a fixed-grid sprite sheet with
//! padding between cells.

use vstd::prelude::*;
use crate::timer::Timer;

verus! {

/// Period of the walk animation, in milliseconds.
pub const ANIMATION_MS: u64 = 250;

/// The direction the player faces.
#[derive(Clone, Copy, PartialEq, Eq, Structural, Debug)]
pub enum Facing {
    Up,
    Down,
    Left,
    Right,
}

/// Paces the walk animation of the player sprite.
#[derive(Clone, Copy, PartialEq, Eq, Structural, Debug)]
pub struct AnimationTimer {
    pub timer: Timer,
    pub has_moved: bool,
}

impl AnimationTimer {
    pub fn new() -> (r: AnimationTimer)
        ensures
            r.timer == (Timer {
                elapsed_ms: 0,
                duration_ms: ANIMATION_MS,
                repeating: true,
                just_finished: false,
            }),
            !r.has_moved,
            r.timer.wf(),
    {
        AnimationTimer { timer: Timer::new(ANIMATION_MS, true), has_moved: false }
    }
}

/// The fixed grid of a sprite sheet: square cells of `tile_px` pixels,
/// `padding_px` pixels between neighbouring cells, `columns` by `rows`
/// cells in row-major order.
#[derive(Clone, Copy, PartialEq, Eq, Structural, Debug)]
pub struct SpriteSheet {
    pub tile_px: u32,
    pub padding_px: u32,
    pub columns: u32,
    pub rows: u32,
}

/// A pixel-aligned rectangle within a sprite sheet.
#[derive(Clone, Copy, PartialEq, Eq, Structural, Debug)]
pub struct PxRect {
    pub min_x: u64,
    pub min_y: u64,
    pub max_x: u64,
    pub max_y: u64,
}

impl SpriteSheet {
    /// The grid is non-degenerate and small enough that every pixel
    /// coordinate fits comfortably in 64 bits.
    pub open spec fn wf(self) -> bool {
        &&& 0 < self.columns <= 0xFFFF
        &&& 0 < self.rows <= 0xFFFF
        &&& 0 < self.tile_px <= 0xFFFF
        &&& self.padding_px <= 0xFFFF
    }

    pub fn new(tile_px: u32, columns: u32, rows: u32, padding_px: u32) -> (r: SpriteSheet)
        requires
            0 < columns <= 0xFFFF,
            0 < rows <= 0xFFFF,
            0 < tile_px <= 0xFFFF,
            padding_px <= 0xFFFF,
        ensures
            r == (SpriteSheet { tile_px, padding_px, columns, rows }),
            r.wf(),
    {
        SpriteSheet { tile_px, padding_px, columns, rows }
    }

    /// Number of sprites on the sheet.
    pub fn sprite_count(&self) -> (r: u32)
        requires
            self.wf(),
        ensures
            r == self.columns * self.rows,
    {
        proof {
            assert(self.columns * self.rows <= 0xFFFF * 0xFFFF) by (nonlinear_arith)
                requires
                    self.columns <= 0xFFFF,
                    self.rows <= 0xFFFF,
            ;
        }
        self.columns * self.rows
    }

    /// The pixel rectangle of sprite `index`, counted in row-major order:
    /// each step right or down moves by a cell plus the padding between
    /// cells, and the rectangle itself is one cell.
    pub fn sprite_rect(&self, index: u32) -> (r: PxRect)
        requires
            self.wf(),
            index < self.columns * self.rows,
        ensures
            r.min_x == (index as int % self.columns as int) * (self.tile_px + self.padding_px),
            r.min_y == (index as int / self.columns as int) * (self.tile_px + self.padding_px),
            r.max_x == r.min_x + self.tile_px,
            r.max_y == r.min_y + self.tile_px,
    {
        let col: u64 = (index % self.columns) as u64;
        let row: u64 = (index / self.columns) as u64;
        let stride: u64 = self.tile_px as u64 + self.padding_px as u64;
        proof {
            assert(index as int / self.columns as int <= index) by {
                vstd::arithmetic::div_mod::lemma_div_nonincreasing(
                    index as int,
                    self.columns as int,
                );
            }
            assert(col * stride < 0x2_0000_0000) by (nonlinear_arith)
                requires
                    col < 0x1_0000,
                    stride < 0x2_0000,
            ;
            assert(row * stride < 0x2_0000_0000_0000) by (nonlinear_arith)
                requires
                    row < 0x1_0000_0000,
                    stride < 0x2_0000,
            ;
        }
        let min_x: u64 = col * stride;
        let min_y: u64 = row * stride;
        PxRect {
            min_x,
            min_y,
            max_x: min_x + self.tile_px as u64,
            max_y: min_y + self.tile_px as u64,
        }
    }
}

} // verus!
