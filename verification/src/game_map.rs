use vstd::prelude::*;
use crate::hex::Cell;
use crate::hex::cell_of;

verus! {

/// The cells that a list of positions names.
pub open spec fn cells_among(positions: Seq<(usize, usize)>) -> Set<Cell> {
    Set::new(
        |cell: Cell|
            exists|i: int| 0 <= i < positions.len() && cell_of(#[trigger] positions[i]) == cell,
    )
}

/// The configuration of a board: which of its cells are reserved for oceans.
#[derive(Debug)]
pub struct GameMap {
    ocean_positions: Vec<(usize, usize)>,
}

impl View for GameMap {
    type V = Set<Cell>;

    /// The cells reserved for oceans.
    closed spec fn view(&self) -> Set<Cell> {
        cells_among(self.ocean_positions@)
    }
}

impl Clone for GameMap {
    fn clone(&self) -> (copy: GameMap)
        ensures
            copy@ == self@,
    {
        let mut ocean_positions: Vec<(usize, usize)> = Vec::new();
        let mut i: usize = 0;
        while i < self.ocean_positions.len()
            invariant
                i <= self.ocean_positions.len(),
                ocean_positions@ == self.ocean_positions@.take(i as int),
            decreases self.ocean_positions.len() - i,
        {
            ocean_positions.push(self.ocean_positions[i]);
            i = i + 1;
        }
        assert(ocean_positions@ == self.ocean_positions@);
        GameMap { ocean_positions }
    }
}

impl GameMap {
    /// The map that reserves the listed positions for oceans.
    pub fn new(ocean_positions: Vec<(usize, usize)>) -> (map: GameMap)
        ensures
            map@ == cells_among(ocean_positions@),
    {
        GameMap { ocean_positions }
    }

    /// Whether `position` is reserved for an ocean.
    pub fn is_ocean_position(&self, position: (usize, usize)) -> (reserved: bool)
        ensures
            reserved == self@.contains(cell_of(position)),
    {
        let mut i: usize = 0;
        while i < self.ocean_positions.len()
            invariant
                i <= self.ocean_positions.len(),
                forall|j: int| 0 <= j < i ==> cell_of(#[trigger] self.ocean_positions@[j]) != cell_of(position),
            decreases self.ocean_positions.len() - i,
        {
            let candidate = self.ocean_positions[i];
            if candidate.0 == position.0 && candidate.1 == position.1 {
                return true;
            }
            i = i + 1;
        }
        false
    }

    /// The positions that are reserved for oceans.
    pub fn ocean_positions(&self) -> (positions: &Vec<(usize, usize)>)
        ensures
            cells_among(positions@) == self@,
    {
        &self.ocean_positions
    }
}

/// The map of the Tharsis region: twelve cells are reserved for oceans.
pub open spec fn tharsis_oceans() -> Seq<(usize, usize)> {
    seq![
        (0usize, 1usize),
        (0usize, 3usize),
        (0usize, 4usize),
        (1usize, 5usize),
        (3usize, 7usize),
        (4usize, 3usize),
        (4usize, 4usize),
        (4usize, 5usize),
        (5usize, 5usize),
        (5usize, 6usize),
        (5usize, 7usize),
        (8usize, 4usize),
    ]
}

/// The map of the Tharsis region.
pub fn tharsis() -> (map: GameMap)
    ensures
        map@ == cells_among(tharsis_oceans()),
{
    let ocean_positions: Vec<(usize, usize)> = vec![
        (0, 1),
        (0, 3),
        (0, 4),
        (1, 5),
        (3, 7),
        (4, 3),
        (4, 4),
        (4, 5),
        (5, 5),
        (5, 6),
        (5, 7),
        (8, 4),
    ];
    GameMap::new(ocean_positions)
}

} // verus!
