//! The level: a text of tiles, one character per tile and one line per row.

use vstd::prelude::*;

verus! {

/// Side of a tile on the tile sheet, in pixels.
pub const TILE_SIZE: i64 = 8;

/// Factor by which tiles are drawn larger than on the sheet.
pub const TILE_SCALER: i64 = 4;

/// Side of a tile in the world, in fixed-point steps.
pub const TILE_SCALED: i64 = 32_000;

/// Height of the world, in fixed-point steps.
pub const WORLD_HEIGHT: i64 = 600_000;

/// Top edge of the world.
pub const WORLD_TOP: i64 = 300_000;

/// Bottom edge of the world.
pub const WORLD_BOTTOM: i64 = -300_000;

/// Width of the world: the height times the golden ratio.
pub const WORLD_WIDTH: i64 = 970_800;

/// Right edge of the world.
pub const WORLD_RIGHT: i64 = 485_400;

/// Left edge of the world.
pub const WORLD_LEFT: i64 = -485_400;

/// Number of tiles in a row of the tile sheet.
pub const SHEET_COLUMNS: usize = 4;

/// Row of the tile sheet that holds the tiles of capital letters; the row
/// below it holds those of small letters.
pub const SHEET_STYLE: usize = 3;

/// The training level.
pub const LEVEL_TRAINING: &'static str = "
BBBBBBBBBBBBBBBBBBBBBBBBBBBBBBBB
G..............................G
G..............................G
G..............................G
G..............................G
G.....RRRR.....................G
G..............................G
G..................RRRRRRR.....G
G........................R.....G
G........................R.....G
G............RRRR........R.....G
G........................R.....G
G........R...............R.....G
G....RRRRR.....................G
G..............................G
G..............................G
DDDDDDDDDDDDDDDDDDDDDDDDDDDDDDDD
";

/// A solid tile of a level.
#[derive(Clone, Copy, Debug, PartialEq, Eq, Structural)]
pub struct Tile {
    /// The frame of the tile on the tile sheet.
    pub index: usize,
    /// The column of the tile, counted in characters from the start of its line.
    pub column: u32,
    /// The row of the tile, counted in lines from the start of the text.
    pub row: u32,
}

/// The frame of the tile that a byte of the level text stands for. The
/// letters B (66), R (82), G (71) and D (68) are the four tiles of one row of
/// the sheet; a small letter (98, 114, 103, 100) is the same tile from the
/// row below. Every other byte is empty space.
pub open spec fn tile_frame(byte: u8) -> Option<usize> {
    if byte == 66 {
        Some(12usize)
    } else if byte == 98 {
        Some(16usize)
    } else if byte == 82 {
        Some(13usize)
    } else if byte == 114 {
        Some(17usize)
    } else if byte == 71 {
        Some(14usize)
    } else if byte == 103 {
        Some(18usize)
    } else if byte == 68 {
        Some(15usize)
    } else if byte == 100 {
        Some(19usize)
    } else {
        None
    }
}

/// The byte ends a line.
pub open spec fn is_line_break(byte: u8) -> bool {
    byte == 10
}

/// The byte starts a character; the other bytes continue one that takes
/// several bytes.
pub open spec fn starts_character(byte: u8) -> bool {
    !(0x80 <= byte < 0xC0)
}

/// The row of the byte at `position`: the number of line breaks before it.
pub open spec fn row_of(level: Seq<u8>, position: int) -> nat
    decreases position,
{
    if position <= 0 {
        0
    } else if is_line_break(level[position - 1]) {
        row_of(level, position - 1) + 1
    } else {
        row_of(level, position - 1)
    }
}

/// The column of the byte at `position`: the number of characters between
/// the start of its line and the byte.
pub open spec fn column_of(level: Seq<u8>, position: int) -> nat
    decreases position,
{
    if position <= 0 {
        0
    } else if is_line_break(level[position - 1]) {
        0
    } else if starts_character(level[position - 1]) {
        column_of(level, position - 1) + 1
    } else {
        column_of(level, position - 1)
    }
}

/// The tiles among the first `count` bytes of a level, in the order of the
/// text.
pub open spec fn tiles_among(level: Seq<u8>, count: int) -> Seq<Tile>
    decreases count,
{
    if count <= 0 {
        Seq::empty()
    } else {
        let before = tiles_among(level, count - 1);
        match tile_frame(level[count - 1]) {
            Some(index) => before.push(
                Tile {
                    index,
                    column: column_of(level, count - 1) as u32,
                    row: row_of(level, count - 1) as u32,
                },
            ),
            None => before,
        }
    }
}

/// The frame of the tile that a byte of the level text stands for, if any.
pub fn tile_index(byte: u8) -> (index: Option<usize>)
    ensures
        index == tile_frame(byte),
{
    let upper = SHEET_STYLE * SHEET_COLUMNS;
    let lower = (SHEET_STYLE + 1) * SHEET_COLUMNS;
    if byte == 66 {
        Some(upper)
    } else if byte == 98 {
        Some(lower)
    } else if byte == 82 {
        Some(1 + upper)
    } else if byte == 114 {
        Some(1 + lower)
    } else if byte == 71 {
        Some(2 + upper)
    } else if byte == 103 {
        Some(2 + lower)
    } else if byte == 68 {
        Some(3 + upper)
    } else if byte == 100 {
        Some(3 + lower)
    } else {
        None
    }
}

/// Reads the tiles of a level from its text.
///
/// The text must not be longer than `u32::MAX` bytes, so that rows and
/// columns can be counted.
pub fn level_tiles(level: &[u8]) -> (tiles: Vec<Tile>)
    requires
        level@.len() <= u32::MAX,
    ensures
        tiles@ == tiles_among(level@, level@.len() as int),
{
    let mut tiles: Vec<Tile> = Vec::new();
    let mut row: u32 = 0;
    let mut column: u32 = 0;
    let mut position: usize = 0;
    while position < level.len()
        invariant
            position <= level@.len() <= u32::MAX,
            row == row_of(level@, position as int),
            column == column_of(level@, position as int),
            row + column <= position,
            tiles@ == tiles_among(level@, position as int),
        decreases level@.len() - position,
    {
        let byte = level[position];
        if let Some(index) = tile_index(byte) {
            tiles.push(Tile { index, column, row });
        }
        if byte == 10 {
            row = row + 1;
            column = 0;
        } else if !(0x80 <= byte && byte < 0xC0) {
            column = column + 1;
        }
        position = position + 1;
    }
    tiles
}

/// Where the centre of a tile lies in the world, in fixed-point steps:
/// columns run to the right from the left edge, rows run down from the top.
pub fn tile_position(tile: &Tile) -> (position: (i64, i64))
    ensures
        position.0 == WORLD_LEFT + tile.column * TILE_SCALED,
        position.1 == WORLD_TOP - tile.row * TILE_SCALED,
{
    (WORLD_LEFT + (tile.column as i64) * TILE_SCALED, WORLD_TOP - (tile.row as i64) * TILE_SCALED)
}

} // verus!
