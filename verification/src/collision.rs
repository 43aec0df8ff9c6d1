//! Axis-aligned bounding-box collision between the player and map tiles.

use vstd::prelude::*;
use crate::{PLAYER_HALF, Pos, TILE_HALF};

verus! {

/// Two axis-aligned rectangles, given by their centers and half-sizes,
/// overlap: each edge of one lies strictly beyond the opposite edge of the
/// other. Rectangles that merely touch do not overlap.
pub open spec fn rects_overlap(ax: int, ay: int, ah: int, bx: int, by: int, bh: int) -> bool {
    &&& ax - ah < bx + bh
    &&& ax + ah > bx - bh
    &&& ay - ah < by + bh
    &&& ay + ah > by - bh
}

/// The player's collision box, centered at `(x, y)`, overlaps the
/// tile-sized box centered on `tile`.
pub open spec fn player_box_hits_tile(x: int, y: int, tile: Pos) -> bool {
    rects_overlap(x, y, PLAYER_HALF as int, tile.x as int, tile.y as int, TILE_HALF as int)
}

/// Some tile in `tiles` overlaps the player's collision box at `(x, y)`.
pub open spec fn player_box_hits_any(x: int, y: int, tiles: Seq<Pos>) -> bool {
    exists|i: int| 0 <= i < tiles.len() && player_box_hits_tile(x, y, tiles[i])
}

/// The player's collision box, were the player at `p`, overlaps the
/// tile-sized box centered on `tile`.
pub open spec fn player_hits_tile(p: Pos, tile: Pos) -> bool {
    player_box_hits_tile(p.x as int, p.y as int, tile)
}

/// Some tile in `tiles` overlaps the player's collision box at `p`.
pub open spec fn hits_any_tile(p: Pos, tiles: Seq<Pos>) -> bool {
    player_box_hits_any(p.x as int, p.y as int, tiles)
}

/// Rectangle overlap does not depend on the order of the two rectangles.
pub proof fn overlap_symmetric(ax: int, ay: int, ah: int, bx: int, by: int, bh: int)
    ensures
        rects_overlap(ax, ay, ah, bx, by, bh) == rects_overlap(bx, by, bh, ax, ay, ah),
{
}

/// Whether the player's collision box, were the player at `target`, would
/// overlap the tile-sized collision box of the wall tile at `wall`.
pub fn wall_collision_check(target: Pos, wall: Pos) -> (r: bool)
    ensures
        r == player_hits_tile(target, wall),
{
    let tx = target.x as i128;
    let ty = target.y as i128;
    let wx = wall.x as i128;
    let wy = wall.y as i128;
    let ph = PLAYER_HALF as i128;
    let th = TILE_HALF as i128;
    tx - ph < wx + th && tx + ph > wx - th && ty - ph < wy + th && ty + ph > wy - th
}

/// Whether the player's collision box at `target` overlaps any tile in
/// `walls`.
pub fn collides_with_any(target: Pos, walls: &Vec<Pos>) -> (r: bool)
    ensures
        r == hits_any_tile(target, walls@),
{
    let mut i: usize = 0;
    while i < walls.len()
        invariant
            0 <= i <= walls@.len(),
            forall|j: int| 0 <= j < i ==> !player_hits_tile(target, walls@[j]),
        decreases walls@.len() - i,
    {
        if wall_collision_check(target, walls[i]) {
            return true;
        }
        i = i + 1;
    }
    false
}

} // verus!
