//! A plain tile map.

use vstd::prelude::*;

verus! {

/// What stands on a tile.
#[derive(Clone, Copy, Debug, PartialEq, Eq, Structural)]
pub enum TileType {
    Ground,
    Tree,
    Bush,
    Rock,
    Water,
}

/// A row-major grid of tiles. `tiles` is filled by the owner; a map made by
/// [`GameMap::new`] starts without tiles.
pub struct GameMap {
    pub width: usize,
    pub height: usize,
    pub tiles: Vec<TileType>,
}

impl GameMap {
    /// The index of tile `(i, j)` in `tiles`.
    pub open spec fn offset(&self, i: int, j: int) -> int {
        j * self.width + i
    }

    /// Whether `(i, j)` names a stored tile.
    pub open spec fn has_tile(&self, i: int, j: int) -> bool {
        0 <= i && 0 <= j && self.offset(i, j) < self.tiles@.len()
    }

    /// A map of the given size that holds no tiles yet.
    pub fn new(width: usize, height: usize) -> (r: Self)
        ensures
            r.width == width,
            r.height == height,
            r.tiles@.len() == 0,
    {
        GameMap { width, height, tiles: Vec::new() }
    }

    /// Whether anything but ground stands on tile `(i, j)`.
    pub fn is_blocked(&self, i: i32, j: i32) -> (r: bool)
        requires
            self.has_tile(i as int, j as int),
        ensures
            r == (self.tiles@[self.offset(i as int, j as int)] != TileType::Ground),
    {
        let len: usize = self.tiles.len();
        assert(0 <= j * self.width <= self.offset(i as int, j as int)) by (nonlinear_arith)
            requires
                0 <= j,
                0 <= i,
                0 <= self.width,
                self.offset(i as int, j as int) == j * self.width + i,
        ;
        let offset: usize = j as usize * self.width + i as usize;
        match self.tiles[offset] {
            TileType::Ground => false,
            _ => true,
        }
    }

    /// Replaces tile `(i, j)`.
    pub fn set_tile(&mut self, i: i32, j: i32, tile_type: TileType)
        requires
            old(self).has_tile(i as int, j as int),
        ensures
            final(self).width == old(self).width,
            final(self).height == old(self).height,
            final(self).tiles@ == old(self).tiles@.update(
                old(self).offset(i as int, j as int),
                tile_type,
            ),
    {
        let len: usize = self.tiles.len();
        assert(0 <= j * self.width <= self.offset(i as int, j as int)) by (nonlinear_arith)
            requires
                0 <= j,
                0 <= i,
                0 <= self.width,
                self.offset(i as int, j as int) == j * self.width + i,
        ;
        let offset: usize = j as usize * self.width + i as usize;
        self.tiles.set(offset, tile_type);
    }
}

} // verus!
