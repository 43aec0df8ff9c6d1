//! The overworld tile map, parsed from a text grid: each character is a
//! tile whose sprite index is the character's code, lowercase letters are
//! walls, and `'!'` marks the grass where encounters can fire.

use vstd::prelude::*;
use crate::{Pos, TILE};

verus! {

/// One tile of the overworld map.
#[derive(Clone, Copy, PartialEq, Eq, Structural, Debug)]
pub struct Tile {
    /// Center of the tile, in subunits.
    pub pos: Pos,
    /// Index of the tile's picture on the sprite sheet: the code of the
    /// character that produced it.
    pub sprite_index: u32,
    /// The tile blocks movement.
    pub collider: bool,
    /// The tile can trigger random encounters.
    pub encounter: bool,
}

/// Lowercase letters mark tiles that block movement.
pub open spec fn is_collider_char(c: char) -> bool {
    'a' as u32 <= c as u32 <= 'z' as u32
}

/// An exclamation mark marks a tile that can trigger encounters.
pub open spec fn is_encounter_char(c: char) -> bool {
    c == '!'
}

/// The tile produced by character `c` at grid column `x` of grid row `y`:
/// rows run downward from the origin, one tile apart.
pub open spec fn tile_for(c: char, x: int, y: int) -> Tile {
    Tile {
        pos: Pos { x: (x * (TILE as int)) as i64, y: ((-y) * (TILE as int)) as i64 },
        sprite_index: c as u32,
        collider: is_collider_char(c),
        encounter: is_encounter_char(c),
    }
}

/// The tiles of one grid row.
pub open spec fn row_tiles(row: Seq<char>, y: int) -> Seq<Tile> {
    Seq::new(row.len(), |x: int| tile_for(row[x], x, y))
}

/// The tiles of the first `n` grid rows, in row-major order.
pub open spec fn map_tiles_prefix(rows: Seq<Seq<char>>, n: int) -> Seq<Tile>
    decreases n,
{
    if n <= 0 {
        Seq::empty()
    } else {
        map_tiles_prefix(rows, n - 1) + row_tiles(rows[n - 1], n - 1)
    }
}

/// All tiles of a character grid, in row-major order.
pub open spec fn map_tiles(rows: Seq<Seq<char>>) -> Seq<Tile> {
    map_tiles_prefix(rows, rows.len() as int)
}

/// The character grid held by a vector of lines.
pub open spec fn rows_of(lines: Seq<Vec<char>>) -> Seq<Seq<char>> {
    Seq::new(lines.len(), |i: int| lines[i]@)
}

/// Parse a text grid into its tiles: character `c` at column `x` of line
/// `y` becomes a tile at `(x, -y)` tiles from the origin showing sprite
/// `c`, a wall if `c` is a lowercase letter, encounter grass if `c` is
/// `'!'`.
pub fn parse_map(lines: &Vec<Vec<char>>) -> (r: Vec<Tile>)
    requires
        lines@.len() <= 0x100_0000,
        forall|i: int| 0 <= i < lines@.len() ==> #[trigger] lines@[i]@.len() <= 0x100_0000,
    ensures
        r@ == map_tiles(rows_of(lines@)),
{
    let ghost rows = rows_of(lines@);
    let mut tiles: Vec<Tile> = Vec::new();
    let mut y: usize = 0;
    while y < lines.len()
        invariant
            0 <= y <= lines@.len(),
            rows == rows_of(lines@),
            lines@.len() <= 0x100_0000,
            forall|i: int| 0 <= i < lines@.len() ==> #[trigger] lines@[i]@.len() <= 0x100_0000,
            tiles@ == map_tiles_prefix(rows, y as int),
        decreases lines@.len() - y,
    {
        let row: &Vec<char> = &lines[y];
        let mut x: usize = 0;
        while x < row.len()
            invariant
                0 <= x <= row@.len(),
                0 <= y < lines@.len(),
                rows == rows_of(lines@),
                lines@.len() <= 0x100_0000,
                row@ == rows[y as int],
                row@.len() <= 0x100_0000,
                tiles@ == map_tiles_prefix(rows, y as int) + row_tiles(rows[y as int], y as int)
                    .subrange(0, x as int),
            decreases row@.len() - x,
        {
            let c: char = row[x];
            let code: u32 = c as u32;
            let collider: bool = 'a' as u32 <= code && code <= 'z' as u32;
            let encounter: bool = c == '!';
            let tile = Tile {
                pos: Pos { x: (x as i64) * TILE, y: -(y as i64) * TILE },
                sprite_index: code,
                collider,
                encounter,
            };
            tiles.push(tile);
            proof {
                let rt = row_tiles(rows[y as int], y as int);
                assert(tile == tile_for(rows[y as int][x as int], x as int, y as int));
                assert(rt.subrange(0, x as int).push(rt[x as int]) =~= rt.subrange(
                    0,
                    x as int + 1,
                ));
                assert(tiles@ =~= map_tiles_prefix(rows, y as int) + rt.subrange(0, x as int + 1));
            }
            x = x + 1;
        }
        proof {
            let rt = row_tiles(rows[y as int], y as int);
            assert(rt.subrange(0, rt.len() as int) =~= rt);
            assert(tiles@ == map_tiles_prefix(rows, y as int + 1));
        }
        y = y + 1;
    }
    tiles
}

} // verus!
