use vstd::prelude::*;

verus! {

/// What a cell of the board holds, and what a pending placement asks for.
#[derive(Copy, Clone, PartialEq, Eq, Structural, Debug)]
pub enum Tile {
    Empty,
    City,
    Greenery,
    Ocean,
}

impl Tile {
    /// A city or a greenery belongs to the player; an ocean or an empty cell does not.
    pub open spec fn owned(self) -> bool {
        self == Tile::City || self == Tile::Greenery
    }

    /// Whether `tile` belongs to the player.
    pub fn is_owned(tile: Self) -> (owned: bool)
        ensures
            owned == tile.owned(),
    {
        match tile {
            Tile::City | Tile::Greenery => true,
            _ => false,
        }
    }
}

} // verus!
