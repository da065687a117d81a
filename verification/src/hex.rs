use vstd::prelude::*;

verus! {

/// A cell of the board by row and column, as the mathematical model sees it.
pub type Cell = (int, int);

/// Rows grow from five cells to nine and shrink back to five.
pub open spec fn row_length(row: int) -> int {
    if row <= 4 {
        row + 5
    } else {
        13 - row
    }
}

/// The cell lies on the board.
pub open spec fn on_board(cell: Cell) -> bool {
    0 <= cell.0 < 9 && 0 <= cell.1 < row_length(cell.0)
}

/// The column of `cell` counted along the diagonal that runs down and to the right, so that
/// the two lower neighbours of a cell have the same diagonal and the one before it, in the
/// upper half of the board as in the lower one.
pub open spec fn diagonal(cell: Cell) -> int {
    if cell.0 <= 4 {
        cell.1 - cell.0
    } else {
        cell.1 - 4
    }
}

/// Two cells of the board touch: the six neighbours of a hexagon are the two beside it in
/// its row, the two below it and the two above it.
pub open spec fn adjacent(a: Cell, b: Cell) -> bool {
    let rows = b.0 - a.0;
    let diagonals = diagonal(b) - diagonal(a);
    &&& on_board(a)
    &&& on_board(b)
    &&& {
        ||| rows == 0 && (diagonals == 1 || diagonals == -1)
        ||| rows == 1 && (diagonals == 0 || diagonals == -1)
        ||| rows == -1 && (diagonals == 0 || diagonals == 1)
    }
}

/// The cell `rows` below `cell` and `diagonals` further along the diagonal.
pub open spec fn shifted(cell: Cell, rows: int, diagonals: int) -> Cell {
    let row = cell.0 + rows;
    (row, diagonal(cell) + diagonals + if row <= 4 { row } else { 4 })
}

/// A cell comes before another where a reader of the board, who goes row by row and from
/// left to right, meets it first.
pub open spec fn comes_before(a: Cell, b: Cell) -> bool {
    a.0 < b.0 || (a.0 == b.0 && a.1 < b.1)
}

/// The model's cell for a position of the executable board.
pub open spec fn cell_of(position: (usize, usize)) -> Cell {
    (position.0 as int, position.1 as int)
}

/// What a function that looks in one direction returns: the cell there, if the board has one.
pub open spec fn looks_at(found: Option<(usize, usize)>, target: Cell) -> bool {
    match found {
        Some(position) => on_board(target) && cell_of(position) == target,
        None => !on_board(target),
    }
}

/// Adjacency is symmetric: whenever `a` touches `b`, `b` touches `a`.
pub proof fn lemma_adjacent_symmetric(a: Cell, b: Cell)
    ensures
        adjacent(a, b) <==> adjacent(b, a),
{
}

/// The lists of neighbours agree with each other: `b` is listed for `a` exactly when `a` is
/// listed for `b`.
pub proof fn lemma_neighbours_symmetric(
    a: (usize, usize),
    b: (usize, usize),
    of_a: Seq<(usize, usize)>,
    of_b: Seq<(usize, usize)>,
)
    requires
        forall|position: (usize, usize)|
            of_a.contains(position) <==> adjacent(cell_of(a), cell_of(position)),
        forall|position: (usize, usize)|
            of_b.contains(position) <==> adjacent(cell_of(b), cell_of(position)),
    ensures
        of_a.contains(b) <==> of_b.contains(a),
{
}

/// No cell touches itself.
pub proof fn lemma_adjacent_irreflexive(a: Cell)
    ensures
        !adjacent(a, a),
{
}

/// The cells that touch `a` are exactly the six shifts of `a` that lie on the board.
pub proof fn lemma_adjacent_is_shift(a: Cell, b: Cell)
    requires
        on_board(a),
    ensures
        adjacent(a, b) <==> on_board(b) && {
            ||| b == shifted(a, -1, 1)
            ||| b == shifted(a, 0, 1)
            ||| b == shifted(a, 1, 0)
            ||| b == shifted(a, 1, -1)
            ||| b == shifted(a, 0, -1)
            ||| b == shifted(a, -1, 0)
        },
{
}

/// Whether `(row, column)` lies off the board.
pub fn is_invalid_position(row: usize, column: usize) -> (invalid: bool)
    ensures
        invalid == !on_board((row as int, column as int)),
{
    row > 8 || row <= 4 && column > row + 4 || row > 4 && column > 12 - row
}

fn top_left_neighbour(row: usize, column: usize) -> (found: Option<(usize, usize)>)
    requires
        on_board((row as int, column as int)),
    ensures
        looks_at(found, shifted((row as int, column as int), -1, 0)),
{
    if row >= 5 {
        Some((row - 1, column))
    } else if row > 0 && column > 0 {
        Some((row - 1, column - 1))
    } else {
        None
    }
}

fn left_neighbour(row: usize, column: usize) -> (found: Option<(usize, usize)>)
    requires
        on_board((row as int, column as int)),
    ensures
        looks_at(found, shifted((row as int, column as int), 0, -1)),
{
    if column > 0 {
        Some((row, column - 1))
    } else {
        None
    }
}

fn bottom_left_neighbour(row: usize, column: usize) -> (found: Option<(usize, usize)>)
    requires
        on_board((row as int, column as int)),
    ensures
        looks_at(found, shifted((row as int, column as int), 1, -1)),
{
    if row <= 3 {
        Some((row + 1, column))
    } else if row <= 7 && column > 0 {
        Some((row + 1, column - 1))
    } else {
        None
    }
}

fn bottom_right_neighbour(row: usize, column: usize) -> (found: Option<(usize, usize)>)
    requires
        on_board((row as int, column as int)),
    ensures
        looks_at(found, shifted((row as int, column as int), 1, 0)),
{
    if row <= 3 {
        Some((row + 1, column + 1))
    } else if row <= 7 && column < 12 - row {
        Some((row + 1, column))
    } else {
        None
    }
}

fn right_neighbour(row: usize, column: usize) -> (found: Option<(usize, usize)>)
    requires
        on_board((row as int, column as int)),
    ensures
        looks_at(found, shifted((row as int, column as int), 0, 1)),
{
    let widest: usize = if row <= 4 { row + 4 } else { 12 - row };
    if column < widest {
        Some((row, column + 1))
    } else {
        None
    }
}

fn top_right_neighbour(row: usize, column: usize) -> (found: Option<(usize, usize)>)
    requires
        on_board((row as int, column as int)),
    ensures
        looks_at(found, shifted((row as int, column as int), -1, 1)),
{
    if row >= 5 {
        Some((row - 1, column + 1))
    } else if row > 0 && column < row + 4 {
        Some((row - 1, column))
    } else {
        None
    }
}

/// The position of `target` as a list of one, or the empty list where `target` lies off
/// the board.
pub open spec fn seen(target: Cell) -> Seq<(usize, usize)> {
    if on_board(target) {
        seq![(target.0 as usize, target.1 as usize)]
    } else {
        Seq::empty()
    }
}

/// The positions that touch `cell`, clockwise from the upper right.
pub open spec fn neighbours_of(cell: Cell) -> Seq<(usize, usize)> {
    if on_board(cell) {
        seen(shifted(cell, -1, 1)) + seen(shifted(cell, 0, 1)) + seen(shifted(cell, 1, 0)) + seen(
            shifted(cell, 1, -1),
        ) + seen(shifted(cell, 0, -1)) + seen(shifted(cell, -1, 0))
    } else {
        Seq::empty()
    }
}

/// Appends the position that was found, if one was.
fn push_found(
    neighbours: &mut Vec<(usize, usize)>,
    found: Option<(usize, usize)>,
    target: Ghost<Cell>,
)
    requires
        looks_at(found, target@),
    ensures
        final(neighbours)@ == old(neighbours)@ + seen(target@),
        forall|position: (usize, usize)|
            final(neighbours)@.contains(position) <==> old(neighbours)@.contains(position) || found
                == Some(position),
        final(neighbours)@.len() <= old(neighbours)@.len() + 1,
        old(neighbours)@.no_duplicates() && (found matches Some(position) ==> !old(
            neighbours,
        )@.contains(position)) ==> final(neighbours)@.no_duplicates(),
{
    if let Some(position) = found {
        neighbours.push(position);
        proof {
            let before = old(neighbours)@;
            assert(neighbours@[before.len() as int] == position);
            assert forall|other: (usize, usize)| before.contains(other) implies neighbours@.contains(
                other,
            ) by {
                let i = choose|i: int| 0 <= i < before.len() && before[i] == other;
                assert(neighbours@[i] == other);
            }
        }
    }
}

/// The positions that touch `(row, column)`, clockwise from the upper right; none for a
/// position off the board.
pub fn neighbour_positions_of(row: usize, column: usize) -> (neighbours: Vec<(usize, usize)>)
    ensures
        neighbours@ == neighbours_of((row as int, column as int)),
        forall|position: (usize, usize)|
            neighbours@.contains(position) <==> adjacent(
                (row as int, column as int),
                cell_of(position),
            ),
        neighbours@.no_duplicates(),
        neighbours@.len() <= 6,
{
    let mut neighbours: Vec<(usize, usize)> = Vec::new();
    if is_invalid_position(row, column) {
        return neighbours;
    }
    let ghost here = (row as int, column as int);
    push_found(&mut neighbours, top_right_neighbour(row, column), Ghost(shifted(here, -1, 1)));
    push_found(&mut neighbours, right_neighbour(row, column), Ghost(shifted(here, 0, 1)));
    push_found(&mut neighbours, bottom_right_neighbour(row, column), Ghost(shifted(here, 1, 0)));
    push_found(&mut neighbours, bottom_left_neighbour(row, column), Ghost(shifted(here, 1, -1)));
    push_found(&mut neighbours, left_neighbour(row, column), Ghost(shifted(here, 0, -1)));
    push_found(&mut neighbours, top_left_neighbour(row, column), Ghost(shifted(here, -1, 0)));
    neighbours
}

} // verus!
