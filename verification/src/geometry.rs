//! Tiles of the map.

use vstd::prelude::*;

verus! {

/// A tile of the map, by its column and row.
#[derive(Debug, Copy, Clone, PartialEq, Eq, Hash, Structural)]
pub struct Point {
    pub x: i32,
    pub y: i32,
}

impl Point {
    /// The tile in column `x` and row `y`.
    pub fn new(x: i32, y: i32) -> (point: Point)
        ensures
            point == (Point { x, y }),
    {
        Point { x, y }
    }
}

/// The extent of something that stands on the map: so many tiles wide and so
/// many high. Standing at a tile, it covers the tiles from there rightwards
/// and downwards.
#[derive(Debug, Copy, Clone, PartialEq, Eq, Hash, Structural)]
pub struct Footprint {
    pub width: u32,
    pub height: u32,
}

impl Footprint {
    /// Whether something of this extent that stands at `at` covers the tile
    /// in column `x` and row `y`.
    pub open spec fn covers(self, at: Point, x: int, y: int) -> bool {
        at.x <= x < at.x + self.width && at.y <= y < at.y + self.height
    }

    /// Whether something of this extent that stands at `at` covers the tile
    /// in column `x` and row `y`.
    pub fn is_covering(&self, at: Point, x: i32, y: i32) -> (covered: bool)
        ensures
            covered == self.covers(at, x as int, y as int),
    {
        at.x <= x && (x as i64) < at.x as i64 + self.width as i64 && at.y <= y && (y as i64)
            < at.y as i64 + self.height as i64
    }
}

} // verus!
