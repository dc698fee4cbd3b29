//! The world grid and its construction.

use vstd::prelude::*;
use vstd::relations::injective_on;
use vstd::set_lib::{lemma_int_range, lemma_map_size, set_int_range};
use crate::tile::Tile;

verus! {

/// Side of the square that the world covers, in pixels.
pub const WINDOW_SIZE: i32 = 512;

/// Side of one tile, in pixels.
pub const TILE_SIZE: i32 = 32;

/// Side of the world, in tiles: as many tiles as fit side by side.
pub const WORLD_SIZE: i32 = 16;

/// Whether `tiles` is `side` columns of `side` tiles each.
pub open spec fn is_square(tiles: Seq<Seq<Tile>>, side: int) -> bool {
    &&& tiles.len() == side
    &&& forall|col: int| 0 <= col < side ==> (#[trigger] tiles[col]).len() == side
}

/// Whether column `col`, row `row` is a cell of the grid.
pub open spec fn on_grid(col: int, row: int) -> bool {
    0 <= col < WORLD_SIZE && 0 <= row < WORLD_SIZE
}

/// The cells of the grid, each as its column and its row.
pub open spec fn grid_cells() -> Set<(int, int)> {
    Set::new(|cell: (int, int)| on_grid(cell.0, cell.1))
}

/// The cells of the grid at which `tiles` holds a wall.
pub open spec fn wall_cells(tiles: Seq<Seq<Tile>>) -> Set<(int, int)> {
    Set::new(|cell: (int, int)| on_grid(cell.0, cell.1) && tiles[cell.0][cell.1].is_wall())
}

/// The cells of the grid at which `tiles` holds an empty tile.
pub open spec fn empty_cells(tiles: Seq<Seq<Tile>>) -> Set<(int, int)> {
    Set::new(|cell: (int, int)| on_grid(cell.0, cell.1) && tiles[cell.0][cell.1].is_empty())
}

/// The tile that a freshly built world holds at column `col`, row `row`:
/// a wall at the centre, an empty tile everywhere else.
pub open spec fn initial_tile(col: int, row: int) -> Tile {
    if col == WORLD_SIZE / 2 && row == WORLD_SIZE / 2 {
        Tile::spec_wall()
    } else {
        Tile::spec_empty()
    }
}

/// The tiles of a freshly built world, column by column.
pub open spec fn initial_tiles() -> Seq<Seq<Tile>> {
    Seq::new(
        WORLD_SIZE as nat,
        |col: int| Seq::new(WORLD_SIZE as nat, |row: int| initial_tile(col, row)),
    )
}

/// The world is exactly as many tiles wide as its pixels allow.
pub proof fn lemma_world_size()
    ensures
        WORLD_SIZE == WINDOW_SIZE / TILE_SIZE,
        WORLD_SIZE * TILE_SIZE == WINDOW_SIZE,
{
}

/// The grid has `WORLD_SIZE` times `WORLD_SIZE` cells.
pub proof fn lemma_grid_cells_len()
    ensures
        grid_cells().finite(),
        grid_cells().len() == WORLD_SIZE * WORLD_SIZE,
{
    let side = WORLD_SIZE as int;
    let indices = set_int_range(0, side * side);
    let cell_of = |k: int| (k / side, k % side);
    lemma_int_range(0, side * side);
    assert(injective_on(cell_of, indices)) by {
        assert forall|a: int, b: int|
            indices.contains(a) && indices.contains(b) && #[trigger] cell_of(a) == #[trigger] cell_of(b)
            implies a == b by {
            assert(a == side * (a / side) + a % side);
            assert(b == side * (b / side) + b % side);
        }
    }
    assert(indices.map(cell_of) =~= grid_cells()) by {
        assert forall|cell: (int, int)| grid_cells().contains(cell) implies indices.map(cell_of).contains(cell) by {
            let k = cell.0 * side + cell.1;
            assert(indices.contains(k));
            assert(cell_of(k) == cell);
        }
    }
    lemma_map_size(indices, grid_cells(), cell_of);
}

/// In a freshly built world, with its 16 by 16 cells, exactly one cell
/// holds a wall, the one at column 8 and row 8, and each of the 255
/// others holds an empty tile.
pub proof fn lemma_initial_cells()
    ensures
        is_square(initial_tiles(), 16),
        forall|col: int, row: int| on_grid(col, row) ==>
            (#[trigger] initial_tiles()[col][row]).is_wall() == (col == 8 && row == 8),
        forall|col: int, row: int| on_grid(col, row) ==>
            (#[trigger] initial_tiles()[col][row]).is_empty() == !(col == 8 && row == 8),
        wall_cells(initial_tiles()) == set![(8int, 8int)],
        wall_cells(initial_tiles()).len() == 1,
        empty_cells(initial_tiles()) == grid_cells().remove((8int, 8int)),
        empty_cells(initial_tiles()).finite(),
        empty_cells(initial_tiles()).len() == 255,
{
    let tiles = initial_tiles();
    assert forall|col: int, row: int| on_grid(col, row) implies
        #[trigger] tiles[col][row] == initial_tile(col, row) by {
    }
    assert(wall_cells(tiles) =~= set![(8int, 8int)]);
    assert(empty_cells(tiles) =~= grid_cells().remove((8int, 8int)));
    lemma_grid_cells_len();
}

/// The world: `WORLD_SIZE` columns of `WORLD_SIZE` tiles. Its view is the
/// sequence of its columns, so `grid@[col][row]` is the tile at column
/// `col` and row `row`. A grid never changes, and nothing outside this
/// module can make one of another size.
#[derive(Debug, PartialEq, Eq)]
pub struct Grid {
    cells: Vec<Vec<Tile>>,
}

impl View for Grid {
    type V = Seq<Seq<Tile>>;

    closed spec fn view(&self) -> Seq<Seq<Tile>> {
        Seq::new(self.cells@.len(), |col: int| self.cells@[col]@)
    }
}

impl Grid {
    #[verifier::type_invariant]
    closed spec fn well_formed(self) -> bool {
        is_square(self@, WORLD_SIZE as int)
    }

    /// The tile at column `col` and row `row`. Every grid is
    /// `WORLD_SIZE` tiles wide and as many high.
    pub fn tile(&self, col: usize, row: usize) -> (tile: Tile)
        requires
            col < WORLD_SIZE,
            row < WORLD_SIZE,
        ensures
            is_square(self@, WORLD_SIZE as int),
            tile == self@[col as int][row as int],
    {
        proof {
            use_type_invariant(self);
        }
        assert(self@[col as int] == self.cells@[col as int]@);
        self.cells[col][row]
    }
}

/// Builds the world: every tile empty but the one at the centre, which
/// is a wall.
pub fn make_map() -> (map: Grid)
    ensures
        map@ == initial_tiles(),
        is_square(map@, WORLD_SIZE as int),
        forall|col: int, row: int| on_grid(col, row) ==>
            (#[trigger] map@[col][row]).is_wall() == (col == 8 && row == 8),
        forall|col: int, row: int| on_grid(col, row) ==>
            (#[trigger] map@[col][row]).is_empty() == !(col == 8 && row == 8),
        wall_cells(map@) == set![(8int, 8int)],
        empty_cells(map@).len() == 255,
{
    let mut cells = vec![vec![Tile::empty(); WORLD_SIZE as usize]; WORLD_SIZE as usize];
    cells[WORLD_SIZE as usize / 2][WORLD_SIZE as usize / 2] = Tile::wall();
    let map = Grid { cells };
    assert(map@ =~~= initial_tiles());
    proof {
        lemma_initial_cells();
    }
    map
}

} // verus!
