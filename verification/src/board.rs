use vstd::prelude::*;
use crate::game_map::GameMap;
use crate::hex::adjacent;
use crate::hex::Cell;
use crate::hex::cell_of;
use crate::hex::comes_before;
use crate::hex::is_invalid_position;
use crate::hex::neighbour_positions_of;
use crate::hex::neighbours_of;
use crate::hex::on_board;
use crate::hex::row_length;
use crate::tile::Tile;

verus! {

/// No more oceans than this are ever placed.
pub const MAX_OCEANS: usize = 9;

/// The grid has nine rows, each of the length that its place in the hexagon gives it.
pub open spec fn well_shaped(cells: Seq<Seq<Tile>>) -> bool {
    &&& cells.len() == 9
    &&& forall|row: int| 0 <= row < 9 ==> (#[trigger] cells[row]).len() == row_length(row)
}

/// What the grid holds at `cell`.
pub open spec fn tile_at(cells: Seq<Seq<Tile>>, cell: Cell) -> Tile {
    cells[cell.0][cell.1]
}

/// Some neighbour of `cell` holds a city.
pub open spec fn city_around(cells: Seq<Seq<Tile>>, cell: Cell) -> bool {
    exists|other: Cell| #[trigger] adjacent(cell, other) && tile_at(cells, other) == Tile::City
}

/// Some neighbour of `cell` holds a city or a greenery.
pub open spec fn owned_around(cells: Seq<Seq<Tile>>, cell: Cell) -> bool {
    exists|other: Cell| #[trigger] adjacent(cell, other) && tile_at(cells, other).owned()
}

/// One if `cell` lies on the board and holds `tile`, zero if not.
pub open spec fn holding(cells: Seq<Seq<Tile>>, cell: Cell, tile: Tile) -> nat {
    if on_board(cell) && tile_at(cells, cell) == tile {
        1
    } else {
        0
    }
}

/// How many of the listed positions hold `tile`.
pub open spec fn holding_among(cells: Seq<Seq<Tile>>, positions: Seq<(usize, usize)>, tile: Tile) -> nat
    decreases positions.len(),
{
    if positions.len() == 0 {
        0
    } else {
        holding_among(cells, positions.drop_last(), tile) + holding(
            cells,
            cell_of(positions.last()),
            tile,
        )
    }
}

/// How many of the neighbours of `cell` hold `tile`.
pub open spec fn neighbours_holding(cells: Seq<Seq<Tile>>, cell: Cell, tile: Tile) -> nat {
    holding_among(cells, neighbours_of(cell), tile)
}

/// Number of oceans in one row.
pub open spec fn oceans_in_row(row: Seq<Tile>) -> nat
    decreases row.len(),
{
    if row.len() == 0 {
        0
    } else {
        oceans_in_row(row.drop_last()) + if row.last() == Tile::Ocean {
            1nat
        } else {
            0nat
        }
    }
}

/// Number of oceans on the grid.
pub open spec fn oceans_in(cells: Seq<Seq<Tile>>) -> nat
    decreases cells.len(),
{
    if cells.len() == 0 {
        0
    } else {
        oceans_in(cells.drop_last()) + oceans_in_row(cells.last())
    }
}

/// The grid with `tile` at `cell`.
pub open spec fn with_tile(cells: Seq<Seq<Tile>>, cell: Cell, tile: Tile) -> Seq<Seq<Tile>> {
    cells.update(cell.0, cells[cell.0].update(cell.1, tile))
}

/// The board as the rules see it.
pub struct BoardView {
    /// What each cell holds, row by row.
    pub cells: Seq<Seq<Tile>>,
    /// The cells that the map reserves for oceans.
    pub reserved: Set<Cell>,
    /// How many oceans have been placed.
    pub placed_oceans: nat,
    /// Whether a city or a greenery has been placed yet.
    pub adjacency_unlocked: bool,
}

impl BoardView {
    /// Every cell is empty and nothing has been placed.
    pub open spec fn is_fresh(self) -> bool {
        &&& well_shaped(self.cells)
        &&& forall|cell: Cell| on_board(cell) ==> #[trigger] tile_at(self.cells, cell) == Tile::Empty
        &&& self.placed_oceans == 0
        &&& !self.adjacency_unlocked
    }

    /// What the board must satisfy at all times.
    pub open spec fn wf(self) -> bool {
        &&& well_shaped(self.cells)
        &&& self.placed_oceans == oceans_in(self.cells)
        &&& self.placed_oceans <= MAX_OCEANS
        &&& forall|cell: Cell|
            on_board(cell) && #[trigger] tile_at(self.cells, cell) == Tile::Ocean
                ==> self.reserved.contains(cell)
        &&& forall|cell: Cell|
            on_board(cell) && (#[trigger] tile_at(self.cells, cell)).owned()
                ==> !self.reserved.contains(cell)
        &&& self.no_cities_touch()
        &&& self.adjacency_unlocked <==> exists|cell: Cell|
            on_board(cell) && (#[trigger] tile_at(self.cells, cell)).owned()
    }

    /// No two cities stand on neighbouring cells.
    pub open spec fn no_cities_touch(self) -> bool {
        forall|a: Cell, b: Cell|
            #[trigger] adjacent(a, b) && tile_at(self.cells, a) == Tile::City ==> tile_at(
                self.cells,
                b,
            ) != Tile::City
    }

    /// The rules allow `tile` to be placed at `cell`.
    pub open spec fn legal(self, tile: Tile, cell: Cell) -> bool {
        &&& on_board(cell)
        &&& tile_at(self.cells, cell) == Tile::Empty
        &&& if self.reserved.contains(cell) {
            tile == Tile::Ocean && self.placed_oceans < MAX_OCEANS
        } else {
            match tile {
                Tile::City => !city_around(self.cells, cell),
                Tile::Greenery => !self.adjacency_unlocked || owned_around(self.cells, cell),
                _ => false,
            }
        }
    }

    /// What makes a cell attractive for `tile`: a city wants greeneries around it, a
    /// greenery wants cities, and an ocean wants nothing.
    pub open spec fn appeal(self, tile: Tile, cell: Cell) -> nat {
        match tile {
            Tile::City => neighbours_holding(self.cells, cell, Tile::Greenery),
            Tile::Greenery => neighbours_holding(self.cells, cell, Tile::City),
            _ => 0,
        }
    }

    /// The cell is the one that greed picks for `tile`: of the cells where the rules allow
    /// the tile none is more attractive, and of those that are as attractive it is the last
    /// that a reader of the board meets.
    pub open spec fn greedy(self, tile: Tile, cell: Cell) -> bool {
        &&& self.legal(tile, cell)
        &&& forall|other: Cell| #[trigger]
            self.legal(tile, other) && other != cell ==> self.appeal(tile, other) < self.appeal(
                tile,
                cell,
            ) || (self.appeal(tile, other) == self.appeal(tile, cell) && comes_before(other, cell))
    }

    /// The victory points that `tile` earns at `cell`: a greenery earns one and one more
    /// for each city around it, a city one for each greenery around it.
    pub open spec fn points(self, tile: Tile, cell: Cell) -> int {
        match tile {
            Tile::City => self.appeal(tile, cell) as int,
            Tile::Greenery => self.appeal(tile, cell) as int + 1,
            _ => 0,
        }
    }

    /// The rules allow `tile` to be placed somewhere.
    pub open spec fn placeable(self, tile: Tile) -> bool {
        exists|cell: Cell| #[trigger] self.legal(tile, cell)
    }

    /// The board after `tile` was placed at `cell`.
    pub open spec fn place(self, tile: Tile, cell: Cell) -> BoardView {
        BoardView {
            cells: with_tile(self.cells, cell, tile),
            reserved: self.reserved,
            placed_oceans: if tile == Tile::Ocean {
                self.placed_oceans + 1
            } else {
                self.placed_oceans
            },
            adjacency_unlocked: self.adjacency_unlocked || tile.owned(),
        }
    }
}

/// Replacing one tile of a row changes its number of oceans by what left and what came.
pub proof fn lemma_oceans_in_row_update(row: Seq<Tile>, column: int, tile: Tile)
    requires
        0 <= column < row.len(),
    ensures
        oceans_in_row(row.update(column, tile)) + (if row[column] == Tile::Ocean {
            1nat
        } else {
            0nat
        }) == oceans_in_row(row) + (if tile == Tile::Ocean {
            1nat
        } else {
            0nat
        }),
    decreases row.len(),
{
    let changed = row.update(column, tile);
    if column == row.len() - 1 {
        assert(changed.drop_last() == row.drop_last());
    } else {
        assert(changed.drop_last() == row.drop_last().update(column, tile));
        lemma_oceans_in_row_update(row.drop_last(), column, tile);
    }
}

/// Replacing one row of the grid changes its number of oceans by what left and what came.
pub proof fn lemma_oceans_in_update(cells: Seq<Seq<Tile>>, row: int, tiles: Seq<Tile>)
    requires
        0 <= row < cells.len(),
    ensures
        oceans_in(cells.update(row, tiles)) + oceans_in_row(cells[row]) == oceans_in(cells)
            + oceans_in_row(tiles),
    decreases cells.len(),
{
    let changed = cells.update(row, tiles);
    if row == cells.len() - 1 {
        assert(changed.drop_last() == cells.drop_last());
    } else {
        assert(changed.drop_last() == cells.drop_last().update(row, tiles));
        lemma_oceans_in_update(cells.drop_last(), row, tiles);
    }
}

/// A row without an ocean counts none.
pub proof fn lemma_row_without_oceans(row: Seq<Tile>)
    requires
        forall|column: int| 0 <= column < row.len() ==> row[column] != Tile::Ocean,
    ensures
        oceans_in_row(row) == 0,
    decreases row.len(),
{
    if row.len() > 0 {
        lemma_row_without_oceans(row.drop_last());
    }
}

/// A grid without an ocean counts none.
pub proof fn lemma_grid_without_oceans(cells: Seq<Seq<Tile>>)
    requires
        forall|row: int, column: int|
            0 <= row < cells.len() && 0 <= column < cells[row].len() ==> cells[row][column]
                != Tile::Ocean,
    ensures
        oceans_in(cells) == 0,
    decreases cells.len(),
{
    if cells.len() > 0 {
        lemma_grid_without_oceans(cells.drop_last());
        lemma_row_without_oceans(cells.last());
    }
}

/// A fresh board satisfies the invariant.
pub proof fn lemma_fresh_is_wf(board: BoardView)
    requires
        board.is_fresh(),
    ensures
        board.wf(),
{
    assert forall|row: int, column: int|
        0 <= row < board.cells.len() && 0 <= column < board.cells[row].len() implies board.cells[row][column]
        != Tile::Ocean by {
        assert(tile_at(board.cells, (row, column)) == Tile::Empty);
    }
    lemma_grid_without_oceans(board.cells);
}

/// What a placement changes on the grid: the one cell, and nothing else.
pub proof fn lemma_with_tile(cells: Seq<Seq<Tile>>, cell: Cell, tile: Tile)
    requires
        well_shaped(cells),
        on_board(cell),
    ensures
        well_shaped(with_tile(cells, cell, tile)),
        tile_at(with_tile(cells, cell, tile), cell) == tile,
        forall|other: Cell|
            on_board(other) && other != cell ==> #[trigger] tile_at(
                with_tile(cells, cell, tile),
                other,
            ) == tile_at(cells, other),
{
}

/// A legal placement keeps the invariant: oceans stay on reserved cells and are counted, at
/// most nine of them; no two cities touch; and greeneries are bound to owned tiles from the
/// first owned tile on.
pub proof fn lemma_place_keeps_wf(board: BoardView, tile: Tile, cell: Cell)
    requires
        board.wf(),
        board.legal(tile, cell),
    ensures
        board.place(tile, cell).wf(),
{
    let after = board.place(tile, cell);
    lemma_with_tile(board.cells, cell, tile);
    lemma_oceans_in_row_update(board.cells[cell.0], cell.1, tile);
    lemma_oceans_in_update(board.cells, cell.0, board.cells[cell.0].update(cell.1, tile));
    assert forall|a: Cell, b: Cell| #[trigger]
        adjacent(a, b) && tile_at(after.cells, a) == Tile::City implies tile_at(after.cells, b)
        != Tile::City by {
        crate::hex::lemma_adjacent_symmetric(a, b);
    }
    if after.adjacency_unlocked && !tile.owned() {
        let witness = choose|other: Cell|
            on_board(other) && (#[trigger] tile_at(board.cells, other)).owned();
        assert(tile_at(after.cells, witness) == tile_at(board.cells, witness));
    }
}

/// Greed picks one cell at most.
pub proof fn lemma_greedy_is_unique(board: BoardView, tile: Tile, a: Cell, b: Cell)
    requires
        board.greedy(tile, a),
        board.greedy(tile, b),
    ensures
        a == b,
{
}

/// The board after the placements of `moves`, made in order.
pub open spec fn placed_in_turn(board: BoardView, moves: Seq<(Tile, Cell)>) -> BoardView
    decreases moves.len(),
{
    if moves.len() == 0 {
        board
    } else {
        placed_in_turn(board, moves.drop_last()).place(moves.last().0, moves.last().1)
    }
}

/// Each placement of `moves` is legal on the board that the placements before it left.
pub open spec fn legal_in_turn(board: BoardView, moves: Seq<(Tile, Cell)>) -> bool
    decreases moves.len(),
{
    moves.len() == 0 || (legal_in_turn(board, moves.drop_last()) && placed_in_turn(
        board,
        moves.drop_last(),
    ).legal(moves.last().0, moves.last().1))
}

/// Whatever legal placements are made on a well-formed board, in whatever order, the board
/// stays well formed: in particular no two cities ever touch, no ocean lies outside the
/// reserved cells, and there are never more than nine oceans.
pub proof fn lemma_cities_never_touch(board: BoardView, moves: Seq<(Tile, Cell)>)
    requires
        board.wf(),
        legal_in_turn(board, moves),
    ensures
        placed_in_turn(board, moves).wf(),
        placed_in_turn(board, moves).no_cities_touch(),
        placed_in_turn(board, moves).placed_oceans <= MAX_OCEANS,
    decreases moves.len(),
{
    if moves.len() > 0 {
        lemma_cities_never_touch(board, moves.drop_last());
        lemma_place_keeps_wf(
            placed_in_turn(board, moves.drop_last()),
            moves.last().0,
            moves.last().1,
        );
    }
}

/// The hexagonal board: nine rows of cells, the map they lie on, and what has been placed.
#[derive(Debug)]
pub struct Board {
    placed_oceans: usize,
    tiles: Vec<Vec<Tile>>,
    game_map: GameMap,
    can_place_greenery_adjacent_to_owned_tiles: bool,
}

/// The tiles of the executable grid, row by row.
pub open spec fn cells_of(tiles: Seq<Vec<Tile>>) -> Seq<Seq<Tile>> {
    Seq::new(tiles.len(), |row: int| tiles[row]@)
}

impl View for Board {
    type V = BoardView;

    closed spec fn view(&self) -> BoardView {
        BoardView {
            cells: cells_of(self.tiles@),
            reserved: self.game_map@,
            placed_oceans: self.placed_oceans as nat,
            adjacency_unlocked: self.can_place_greenery_adjacent_to_owned_tiles,
        }
    }
}

/// A row of `length` empty cells.
fn empty_row(length: usize) -> (row: Vec<Tile>)
    ensures
        row@.len() == length,
        forall|column: int| 0 <= column < length ==> row@[column] == Tile::Empty,
{
    let mut row: Vec<Tile> = Vec::new();
    let mut column: usize = 0;
    while column < length
        invariant
            column <= length,
            row@.len() == column,
            forall|j: int| 0 <= j < column ==> row@[j] == Tile::Empty,
        decreases length - column,
    {
        row.push(Tile::Empty);
        column = column + 1;
    }
    row
}

/// A copy of one row.
fn copy_row(tiles: &Vec<Tile>) -> (row: Vec<Tile>)
    ensures
        row@ == tiles@,
{
    let mut row: Vec<Tile> = Vec::new();
    let mut column: usize = 0;
    while column < tiles.len()
        invariant
            column <= tiles.len(),
            row@ == tiles@.take(column as int),
        decreases tiles.len() - column,
    {
        row.push(tiles[column]);
        column = column + 1;
    }
    row
}

impl Clone for Board {
    fn clone(&self) -> (copy: Board)
        ensures
            copy@ == self@,
    {
        let mut tiles: Vec<Vec<Tile>> = Vec::new();
        let mut row: usize = 0;
        while row < self.tiles.len()
            invariant
                row <= self.tiles.len(),
                tiles@.len() == row,
                forall|j: int| 0 <= j < row ==> tiles@[j]@ == self.tiles@[j]@,
            decreases self.tiles.len() - row,
        {
            tiles.push(copy_row(&self.tiles[row]));
            row = row + 1;
        }
        assert(cells_of(tiles@) == cells_of(self.tiles@));
        Board {
            placed_oceans: self.placed_oceans,
            tiles,
            game_map: self.game_map.clone(),
            can_place_greenery_adjacent_to_owned_tiles: self.can_place_greenery_adjacent_to_owned_tiles,
        }
    }
}

impl Board {
    /// The invariant of the board.
    pub open spec fn wf(&self) -> bool {
        self@.wf()
    }

    /// Of the cells that come before `next`, `best` is the one that greed picks so far.
    pub open spec fn best_so_far(
        &self,
        tile: Tile,
        best: Option<((usize, usize), usize)>,
        next: Cell,
    ) -> bool {
        match best {
            Some((position, appeal)) => {
                &&& self@.legal(tile, cell_of(position))
                &&& appeal == self@.appeal(tile, cell_of(position))
                &&& appeal <= 6
                &&& comes_before(cell_of(position), next)
                &&& forall|other: Cell| #[trigger]
                    self@.legal(tile, other) && comes_before(other, next) && other != cell_of(
                        position,
                    ) ==> self@.appeal(tile, other) < appeal || (self@.appeal(tile, other)
                        == appeal && comes_before(other, cell_of(position)))
            },
            None => forall|other: Cell|
                comes_before(other, next) ==> !#[trigger] self@.legal(tile, other),
        }
    }

    /// An empty board on `map`.
    pub fn new(map: &GameMap) -> (board: Board)
        ensures
            board.wf(),
            board@.is_fresh(),
            board@.reserved == map@,
    {
        let mut tiles: Vec<Vec<Tile>> = Vec::new();
        let mut row: usize = 0;
        while row < 9
            invariant
                row <= 9,
                tiles@.len() == row,
                forall|j: int| 0 <= j < row ==> (#[trigger] tiles@[j])@.len() == row_length(j),
                forall|j: int, column: int|
                    0 <= j < row && 0 <= column < row_length(j) ==> tiles@[j]@[column]
                        == Tile::Empty,
            decreases 9 - row,
        {
            let length: usize = if row <= 4 {
                row + 5
            } else {
                13 - row
            };
            tiles.push(empty_row(length));
            row = row + 1;
        }
        let board = Board {
            placed_oceans: 0,
            tiles,
            game_map: map.clone(),
            can_place_greenery_adjacent_to_owned_tiles: false,
        };
        proof {
            lemma_fresh_is_wf(board@);
        }
        board
    }

    fn city_exists_around(&self, row: usize, column: usize) -> (found: bool)
        requires
            self.wf(),
        ensures
            found == city_around(self@.cells, (row as int, column as int)),
    {
        let neighbours = neighbour_positions_of(row, column);
        let ghost here = (row as int, column as int);
        let mut i: usize = 0;
        while i < neighbours.len()
            invariant
                self.wf(),
                here == (row as int, column as int),
                i <= neighbours.len(),
                forall|position: (usize, usize)|
                    neighbours@.contains(position) <==> adjacent(here, cell_of(position)),
                forall|j: int|
                    0 <= j < i ==> tile_at(self@.cells, cell_of(#[trigger] neighbours@[j]))
                        != Tile::City,
            decreases neighbours.len() - i,
        {
            let position = neighbours[i];
            assert(neighbours@.contains(position));
            if self.tile(position.0, position.1) == Tile::City {
                return true;
            }
            i = i + 1;
        }
        proof {
            assert forall|other: Cell| #[trigger] adjacent(here, other) implies tile_at(
                self@.cells,
                other,
            ) != Tile::City by {
                let position = (other.0 as usize, other.1 as usize);
                assert(neighbours@.contains(position));
            }
        }
        false
    }

    fn has_owned_tiles_around(&self, row: usize, column: usize) -> (found: bool)
        requires
            self.wf(),
        ensures
            found == owned_around(self@.cells, (row as int, column as int)),
    {
        let neighbours = neighbour_positions_of(row, column);
        let ghost here = (row as int, column as int);
        let mut i: usize = 0;
        while i < neighbours.len()
            invariant
                self.wf(),
                here == (row as int, column as int),
                i <= neighbours.len(),
                forall|position: (usize, usize)|
                    neighbours@.contains(position) <==> adjacent(here, cell_of(position)),
                forall|j: int|
                    0 <= j < i ==> !tile_at(self@.cells, cell_of(#[trigger] neighbours@[j])).owned(),
            decreases neighbours.len() - i,
        {
            let position = neighbours[i];
            assert(neighbours@.contains(position));
            if Tile::is_owned(self.tile(position.0, position.1)) {
                return true;
            }
            i = i + 1;
        }
        proof {
            assert forall|other: Cell| #[trigger] adjacent(here, other) implies !tile_at(
                self@.cells,
                other,
            ).owned() by {
                let position = (other.0 as usize, other.1 as usize);
                assert(neighbours@.contains(position));
            }
        }
        false
    }

    /// Whether the rules allow `tile` at `(row, column)`.
    pub fn is_valid_placement(&self, tile: &Tile, row: usize, column: usize) -> (valid: bool)
        requires
            self.wf(),
        ensures
            valid == self@.legal(*tile, (row as int, column as int)),
    {
        if is_invalid_position(row, column) || self.tile(row, column) != Tile::Empty {
            return false;
        }
        if self.game_map.is_ocean_position((row, column)) {
            return *tile == Tile::Ocean && self.placed_oceans < MAX_OCEANS;
        }
        match tile {
            Tile::City => !self.city_exists_around(row, column),
            Tile::Greenery => !self.can_place_greenery_adjacent_to_owned_tiles
                || self.has_owned_tiles_around(row, column),
            _ => false,
        }
    }

    /// Whether the rules allow `tile` on any cell.
    pub fn can_place(&self, tile: &Tile) -> (possible: bool)
        requires
            self.wf(),
        ensures
            possible == self@.placeable(*tile),
    {
        let mut row: usize = 0;
        while row < 9
            invariant
                self.wf(),
                row <= 9,
                forall|cell: Cell| 0 <= cell.0 < row ==> !#[trigger] self@.legal(*tile, cell),
            decreases 9 - row,
        {
            let length: usize = if row <= 4 {
                row + 5
            } else {
                13 - row
            };
            let mut column: usize = 0;
            while column < length
                invariant
                    self.wf(),
                    row < 9,
                    length == row_length(row as int),
                    column <= length,
                    forall|cell: Cell| 0 <= cell.0 < row ==> !#[trigger] self@.legal(*tile, cell),
                    forall|cell: Cell|
                        cell.0 == row && 0 <= cell.1 < column ==> !#[trigger] self@.legal(
                            *tile,
                            cell,
                        ),
                decreases length - column,
            {
                if self.is_valid_placement(tile, row, column) {
                    return true;
                }
                column = column + 1;
            }
            row = row + 1;
        }
        false
    }

    /// Places `tile` at `position` if the rules allow it, and changes nothing if they do not.
    pub fn place_tile(&mut self, tile: &Tile, position: (usize, usize)) -> (placed: Result<(), ()>)
        requires
            old(self).wf(),
        ensures
            final(self).wf(),
            placed.is_ok() == old(self)@.legal(*tile, cell_of(position)),
            placed.is_ok() ==> final(self)@ == old(self)@.place(*tile, cell_of(position)),
            placed.is_err() ==> *final(self) == *old(self),
    {
        if !self.is_valid_placement(tile, position.0, position.1) {
            return Err(());
        }
        proof {
            lemma_place_keeps_wf(self@, *tile, cell_of(position));
        }
        self.tiles[position.0][position.1] = *tile;
        if Tile::is_owned(*tile) {
            self.can_place_greenery_adjacent_to_owned_tiles = true;
        }
        if *tile == Tile::Ocean {
            self.placed_oceans = self.placed_oceans + 1;
        }
        assert(self@.cells == with_tile(old(self)@.cells, cell_of(position), *tile));
        Ok(())
    }

    /// How many neighbours of `position` hold `tile_type`; none for a position off the board.
    pub fn get_neighbour_count_by_type(&self, position: (usize, usize), tile_type: Tile) -> (count:
        usize)
        requires
            self.wf(),
        ensures
            count == neighbours_holding(self@.cells, cell_of(position), tile_type),
            count <= 6,
    {
        let neighbours = neighbour_positions_of(position.0, position.1);
        let mut count: usize = 0;
        let mut i: usize = 0;
        while i < neighbours.len()
            invariant
                self.wf(),
                i <= neighbours.len() <= 6,
                forall|neighbour: (usize, usize)|
                    neighbours@.contains(neighbour) ==> on_board(cell_of(neighbour)),
                count == holding_among(self@.cells, neighbours@.take(i as int), tile_type),
                count <= i,
            decreases neighbours.len() - i,
        {
            let neighbour = neighbours[i];
            assert(neighbours@.contains(neighbour));
            assert(neighbours@.take(i + 1).drop_last() == neighbours@.take(i as int));
            if self.tile(neighbour.0, neighbour.1) == tile_type {
                count = count + 1;
            }
            i = i + 1;
        }
        assert(neighbours@.take(i as int) == neighbours@);
        count
    }

    /// How attractive `position` is for `tile`.
    fn appeal_of(&self, tile: Tile, position: (usize, usize)) -> (appeal: usize)
        requires
            self.wf(),
        ensures
            appeal == self@.appeal(tile, cell_of(position)),
            appeal <= 6,
    {
        match tile {
            Tile::City => self.get_neighbour_count_by_type(position, Tile::Greenery),
            Tile::Greenery => self.get_neighbour_count_by_type(position, Tile::City),
            _ => 0,
        }
    }

    /// The cell that greed picks for `tile`, and how attractive it is.
    fn greedy_choice(&self, tile: Tile) -> (choice: Option<((usize, usize), usize)>)
        requires
            self.wf(),
        ensures
            match choice {
                Some((position, appeal)) => self@.greedy(tile, cell_of(position)) && appeal
                    == self@.appeal(tile, cell_of(position)) && appeal <= 6,
                None => !self@.placeable(tile),
            },
    {
        let mut best: Option<((usize, usize), usize)> = None;
        let mut row: usize = 0;
        while row < 9
            invariant
                self.wf(),
                row <= 9,
                self.best_so_far(tile, best, (row as int, 0)),
            decreases 9 - row,
        {
            let length: usize = if row <= 4 {
                row + 5
            } else {
                13 - row
            };
            let mut column: usize = 0;
            while column < length
                invariant
                    self.wf(),
                    row < 9,
                    length == row_length(row as int),
                    column <= length,
                    self.best_so_far(tile, best, (row as int, column as int)),
                decreases length - column,
            {
                if self.is_valid_placement(&tile, row, column) {
                    let appeal = self.appeal_of(tile, (row, column));
                    let better = match best {
                        Some((_, most)) => appeal >= most,
                        None => true,
                    };
                    if better {
                        best = Some(((row, column), appeal));
                    }
                }
                column = column + 1;
            }
            row = row + 1;
        }
        best
    }

    /// Places `tile` where greed picks its cell, and returns the victory points that it
    /// earns there; changes nothing and returns zero where the rules allow the tile nowhere.
    pub fn place_tile_greedily(&mut self, tile: Tile) -> (points: i32)
        requires
            old(self).wf(),
        ensures
            final(self).wf(),
            !old(self)@.placeable(tile) ==> *final(self) == *old(self) && points == 0,
            old(self)@.placeable(tile) ==> exists|cell: Cell|
                old(self)@.greedy(tile, cell) && final(self)@ == #[trigger] old(self)@.place(
                    tile,
                    cell,
                ) && points == old(self)@.points(tile, cell),
    {
        match self.greedy_choice(tile) {
            Some((position, appeal)) => {
                if self.place_tile(&tile, position).is_ok() {
                    match tile {
                        Tile::City => appeal as i32,
                        Tile::Greenery => appeal as i32 + 1,
                        _ => 0,
                    }
                } else {
                    0
                }
            },
            None => 0,
        }
    }

    /// The map that the board lies on.
    pub fn game_map(&self) -> (map: &GameMap)
        ensures
            map@ == self@.reserved,
    {
        &self.game_map
    }

    /// How many oceans have been placed.
    pub fn placed_oceans(&self) -> (count: usize)
        ensures
            count == self@.placed_oceans,
    {
        self.placed_oceans
    }

    /// What the cell at `(row, column)` holds.
    pub fn tile(&self, row: usize, column: usize) -> (tile: Tile)
        requires
            self.wf(),
            on_board((row as int, column as int)),
        ensures
            tile == tile_at(self@.cells, (row as int, column as int)),
    {
        self.tiles[row][column]
    }
}

} // verus!
