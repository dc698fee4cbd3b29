//! The cells of the world grid.

use vstd::prelude::*;
use crate::color::{Color, BLACK, WHITE};

verus! {

/// One cell of the grid. A tile carries nothing but the colour it is
/// drawn in; an empty tile is white and a wall is black.
#[derive(Clone, Copy, Debug, PartialEq, Eq)]
pub struct Tile {
    pub color: Color,
}

impl Tile {
    /// The tile that `Tile::empty` builds.
    pub open spec fn spec_empty() -> Tile {
        Tile { color: WHITE }
    }

    /// The tile that `Tile::wall` builds.
    pub open spec fn spec_wall() -> Tile {
        Tile { color: BLACK }
    }

    /// Whether this tile is a wall.
    pub open spec fn is_wall(self) -> bool {
        self == Tile::spec_wall()
    }

    /// Whether this tile is empty.
    pub open spec fn is_empty(self) -> bool {
        self == Tile::spec_empty()
    }

    /// A free, white tile.
    #[verifier::when_used_as_spec(spec_empty)]
    pub fn empty() -> (tile: Tile)
        ensures
            tile == Tile::spec_empty(),
    {
        Tile { color: WHITE }
    }

    /// An obstacle, black.
    #[verifier::when_used_as_spec(spec_wall)]
    pub fn wall() -> (tile: Tile)
        ensures
            tile == Tile::spec_wall(),
    {
        Tile { color: BLACK }
    }
}

/// A tile is never both a wall and empty.
pub proof fn lemma_wall_is_not_empty(tile: Tile)
    ensures
        !(tile.is_wall() && tile.is_empty()),
{
}

} // verus!
