//! One frame, as a list of drawing commands.

use vstd::prelude::*;
use crate::color::Color;
use crate::grid::{on_grid, Grid, TILE_SIZE, WORLD_SIZE};
use crate::object::Object;
use crate::tile::Tile;

verus! {

/// One thing to put on the drawing surface. Coordinates and sizes are in
/// pixels, from the top-left corner of the surface.
#[derive(Clone, Copy, Debug, PartialEq, Eq)]
pub enum DrawCommand {
    /// Fill the rectangle with its top-left corner at (`x`, `y`) with
    /// `color`.
    Rectangle { x: i32, y: i32, width: i32, height: i32, color: Color },
    /// Draw the glyph of `character`, at a font size of `size` pixels and
    /// tinted with `color`, with its top-left corner at (`x`, `y`).
    Glyph { x: i32, y: i32, size: u32, character: char, color: Color },
}

/// The command that paints `tile` where it stands, at column `col` and
/// row `row` of the grid: a square of one tile's size in the tile's colour.
pub open spec fn tile_command(col: int, row: int, tile: Tile) -> DrawCommand {
    DrawCommand::Rectangle {
        x: (col * TILE_SIZE) as i32,
        y: (row * TILE_SIZE) as i32,
        width: TILE_SIZE,
        height: TILE_SIZE,
        color: tile.color,
    }
}

/// The command that paints the player: its glyph, one tile high, at the
/// very pixel the player stands on.
pub open spec fn player_command(player: Object) -> DrawCommand {
    DrawCommand::Glyph {
        x: player.x_pos,
        y: player.y_pos,
        size: TILE_SIZE as u32,
        character: player.character,
        color: player.color,
    }
}

/// The first `count` commands of a frame: the tiles in the order in which
/// they are painted, which is column after column, and down each column
/// row after row.
pub open spec fn tile_commands(tiles: Seq<Seq<Tile>>, count: int) -> Seq<DrawCommand> {
    Seq::new(
        count as nat,
        |place: int|
            {
                let col = place / (WORLD_SIZE as int);
                let row = place % (WORLD_SIZE as int);
                tile_command(col, row, tiles[col][row])
            },
    )
}

/// A whole frame: every tile of the grid, then the player on top.
pub open spec fn frame(tiles: Seq<Seq<Tile>>, player: Object) -> Seq<DrawCommand> {
    tile_commands(tiles, WORLD_SIZE * WORLD_SIZE).push(player_command(player))
}

/// The place in a frame at which the cell at column `col` and row `row`
/// is painted.
pub open spec fn place_of(col: int, row: int) -> int {
    col * WORLD_SIZE + row
}

/// The layout of a frame. It holds one command for each of the 256 cells
/// and one for the player, 257 in all. The cell at column `col` and row
/// `row` comes at place `16 * col + row`, as a square of 32 by 32 pixels
/// with its corner at (`32 * col`, `32 * row`), in the colour of the tile
/// there. The player comes last, as its glyph at a size of 32 pixels.
pub proof fn lemma_frame_layout(tiles: Seq<Seq<Tile>>, player: Object)
    ensures
        frame(tiles, player).len() == 257,
        forall|col: int, row: int|
            on_grid(col, row) ==> 0 <= #[trigger] place_of(col, row) < 256 && place_of(col, row)
                == 16 * col + row,
        forall|col: int, row: int|
            on_grid(col, row) ==> (#[trigger] frame(tiles, player)[place_of(col, row)]
                matches DrawCommand::Rectangle { x, y, width, height, color } && x == 32 * col
                && y == 32 * row && width == 32 && height == 32 && color == tiles[col][row].color),
        frame(tiles, player)[256] == (DrawCommand::Glyph {
            x: player.x_pos,
            y: player.y_pos,
            size: 32,
            character: player.character,
            color: player.color,
        }),
{
    assert forall|col: int, row: int| on_grid(col, row) implies #[trigger] frame(
        tiles,
        player,
    )[place_of(col, row)] == tile_command(col, row, tiles[col][row]) by {
        let place = place_of(col, row);
        assert(place / 16 == col && place % 16 == row);
        assert(frame(tiles, player)[place] == tile_commands(tiles, 256)[place]);
    }
}

/// Lists what has to be drawn to show `map` with `player` on it. Every
/// frame is a full repaint, and depends on nothing but the two arguments.
pub fn render(map: &Grid, player: &Object) -> (commands: Vec<DrawCommand>)
    ensures
        commands@ == frame(map@, *player),
        commands@.len() == WORLD_SIZE * WORLD_SIZE + 1,
{
    let side: usize = WORLD_SIZE as usize;
    let mut commands: Vec<DrawCommand> = Vec::new();
    let mut col: usize = 0;
    while col < side
        invariant
            side == WORLD_SIZE,
            col <= side,
            commands@ == tile_commands(map@, col * WORLD_SIZE),
        decreases side - col,
    {
        let mut row: usize = 0;
        while row < side
            invariant
                side == WORLD_SIZE,
                col < side,
                row <= side,
                commands@ == tile_commands(map@, col * WORLD_SIZE + row),
            decreases side - row,
        {
            let tile = map.tile(col, row);
            commands.push(DrawCommand::Rectangle {
                x: col as i32 * TILE_SIZE,
                y: row as i32 * TILE_SIZE,
                width: TILE_SIZE,
                height: TILE_SIZE,
                color: tile.color,
            });
            row += 1;
        }
        col += 1;
    }
    commands.push(DrawCommand::Glyph {
        x: player.x_pos,
        y: player.y_pos,
        size: TILE_SIZE as u32,
        character: player.character,
        color: player.color,
    });
    commands
}

} // verus!
