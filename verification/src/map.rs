use vstd::prelude::*;

verus! {

/// Largest map side, in tiles, for which the collision formulas stay inside a 32-bit `isize`.
pub const MAP_SIDE_LIMIT: usize = 0x3ffe;

/// A stage's tile map: `tiles` holds one tile index per cell, row by row, and
/// `attrib` gives the attribute (solid, slope, water, ...) of each tile index.
pub struct TileMap {
    pub width: usize,
    pub height: usize,
    pub tiles: Vec<u8>,
    pub attrib: [u8; 256],
}

impl TileMap {
    /// The map's sides are small enough for collision arithmetic.
    pub open spec fn wf(&self) -> bool {
        self.width <= MAP_SIDE_LIMIT && self.height <= MAP_SIDE_LIMIT
    }

    /// The attribute of the cell at column `x`, row `y`: 0 outside the map, and the
    /// attribute of tile index 0 for a cell that `tiles` does not reach.
    pub open spec fn attribute(&self, x: int, y: int) -> u8 {
        if x < 0 || y < 0 || x >= self.width || y >= self.height {
            0
        } else {
            let i = self.width * y + x;
            if i < self.tiles@.len() {
                self.attrib@[self.tiles@[i] as int]
            } else {
                self.attrib@[0]
            }
        }
    }

    /// The attribute of the cell at column `x`, row `y`.
    pub fn get_attribute(&self, x: usize, y: usize) -> (r: u8)
        requires
            self.wf(),
        ensures
            r == self.attribute(x as int, y as int),
    {
        if x >= self.width || y >= self.height {
            return 0;
        }
        assert(self.width * y + x <= MAP_SIDE_LIMIT * MAP_SIDE_LIMIT) by (nonlinear_arith)
            requires
                x < self.width,
                y < self.height,
                self.width <= MAP_SIDE_LIMIT,
                self.height <= MAP_SIDE_LIMIT,
        ;
        let i = self.width * y + x;
        let tile: u8 = if i < self.tiles.len() {
            self.tiles[i]
        } else {
            0
        };
        self.attrib[tile as usize]
    }
}

} // verus!
