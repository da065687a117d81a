use trm_sim::board::Board;
use trm_sim::game_map::{tharsis, GameMap};
use trm_sim::hex::{is_invalid_position, neighbour_positions_of};
use trm_sim::tile::Tile;

fn cells() -> Vec<(usize, usize)> {
    let mut cells = Vec::new();
    for row in 0..9 {
        for column in 0..9 {
            if !is_invalid_position(row, column) {
                cells.push((row, column));
            }
        }
    }
    cells
}

#[test]
fn the_board_has_sixty_one_cells() {
    let cells = cells();
    assert_eq!(cells.len(), 61);
    let lengths = [5, 6, 7, 8, 9, 8, 7, 6, 5];
    for (row, length) in lengths.iter().enumerate() {
        assert_eq!(cells.iter().filter(|cell| cell.0 == row).count(), *length);
        assert!(!is_invalid_position(row, length - 1));
        assert!(is_invalid_position(row, *length));
    }
    assert!(is_invalid_position(9, 0));
    assert!(is_invalid_position(usize::MAX, usize::MAX));
}

#[test]
fn neighbours_are_symmetric() {
    let cells = cells();
    for a in cells.iter() {
        let of_a = neighbour_positions_of(a.0, a.1);
        assert!(!of_a.contains(a));
        for b in cells.iter() {
            let of_b = neighbour_positions_of(b.0, b.1);
            assert_eq!(of_a.contains(b), of_b.contains(a), "{:?} and {:?}", a, b);
        }
        for b in of_a.iter() {
            assert!(cells.contains(b));
        }
    }
}

#[test]
fn neighbours_of_chosen_cells() {
    assert_eq!(
        neighbour_positions_of(4, 4),
        vec![(3, 4), (4, 5), (5, 4), (5, 3), (4, 3), (3, 3)]
    );
    assert_eq!(neighbour_positions_of(0, 0), vec![(0, 1), (1, 1), (1, 0)]);
    assert_eq!(neighbour_positions_of(0, 4), vec![(1, 5), (1, 4), (0, 3)]);
    assert_eq!(neighbour_positions_of(4, 0), vec![(3, 0), (4, 1), (5, 0)]);
    assert_eq!(neighbour_positions_of(4, 8), vec![(5, 7), (4, 7), (3, 7)]);
    assert_eq!(neighbour_positions_of(8, 0), vec![(7, 1), (8, 1), (7, 0)]);
    assert_eq!(neighbour_positions_of(8, 4), vec![(7, 5), (8, 3), (7, 4)]);
    assert_eq!(
        neighbour_positions_of(2, 3),
        vec![(1, 3), (2, 4), (3, 4), (3, 3), (2, 2), (1, 2)]
    );
    assert_eq!(
        neighbour_positions_of(6, 3),
        vec![(5, 4), (6, 4), (7, 3), (7, 2), (6, 2), (5, 3)]
    );
    assert_eq!(
        neighbour_positions_of(5, 7),
        vec![(4, 8), (6, 6), (5, 6), (4, 7)]
    );
    assert_eq!(neighbour_positions_of(9, 0), vec![]);
    assert_eq!(neighbour_positions_of(0, 5), vec![]);
    let counts: usize = cells()
        .iter()
        .map(|cell| neighbour_positions_of(cell.0, cell.1).len())
        .sum();
    assert_eq!(counts, 2 * 156);
}

#[test]
fn no_two_cities_ever_touch() {
    let mut board = Board::new(&tharsis());
    let cells = cells();
    let mut cities = Vec::new();
    for cell in cells.iter() {
        if board.place_tile(&Tile::City, *cell).is_ok() {
            cities.push(*cell);
        }
    }
    assert!(!board.can_place(&Tile::City));
    assert!(cities.len() > 10);
    for a in cities.iter() {
        for b in neighbour_positions_of(a.0, a.1) {
            assert_ne!(board.tile(b.0, b.1), Tile::City);
        }
    }
    for cell in cells.iter() {
        let expected = if cities.contains(cell) {
            Tile::City
        } else {
            Tile::Empty
        };
        assert_eq!(board.tile(cell.0, cell.1), expected);
    }
}

#[test]
fn placement_follows_the_rules() {
    let map = tharsis();
    let mut board = Board::new(&map);
    assert!(board.can_place(&Tile::City));
    assert!(board.can_place(&Tile::Greenery));
    assert!(board.can_place(&Tile::Ocean));
    assert!(!board.can_place(&Tile::Empty));
    assert_eq!(Err(()), board.place_tile(&Tile::Empty, (0, 0)));
    assert_eq!(Err(()), board.place_tile(&Tile::City, (0, 1)));
    assert_eq!(Err(()), board.place_tile(&Tile::Greenery, (0, 1)));
    assert_eq!(Err(()), board.place_tile(&Tile::Ocean, (0, 0)));
    assert_eq!(Err(()), board.place_tile(&Tile::City, (0, 5)));
    assert_eq!(Err(()), board.place_tile(&Tile::City, (9, 0)));
    assert_eq!(board.placed_oceans(), 0);

    assert_eq!(Ok(()), board.place_tile(&Tile::Ocean, (0, 1)));
    assert_eq!(board.placed_oceans(), 1);
    assert_eq!(board.tile(0, 1), Tile::Ocean);
    assert_eq!(Err(()), board.place_tile(&Tile::Ocean, (0, 1)));
    assert!(board.is_valid_placement(&Tile::Greenery, 8, 0));
    assert_eq!(Ok(()), board.place_tile(&Tile::Greenery, (0, 0)));
    assert!(!board.is_valid_placement(&Tile::Greenery, 8, 0));
    assert!(!board.is_valid_placement(&Tile::Greenery, 0, 2));
    assert!(board.is_valid_placement(&Tile::Greenery, 1, 0));
    assert!(board.is_valid_placement(&Tile::Greenery, 1, 1));
    assert!(board.is_valid_placement(&Tile::City, 1, 1));
    assert!(board.is_valid_placement(&Tile::City, 8, 0));
    assert_eq!(board.placed_oceans(), 1);

    let copy = board.clone();
    assert_eq!(Ok(()), board.place_tile(&Tile::City, (1, 1)));
    assert_eq!(copy.tile(1, 1), Tile::Empty);
    assert_eq!(copy.tile(0, 0), Tile::Greenery);
    assert_eq!(copy.placed_oceans(), 1);
    assert_eq!(board.tile(1, 1), Tile::City);
}

#[test]
fn at_most_nine_oceans() {
    let map = tharsis();
    let mut board = Board::new(&map);
    let mut placed = 0;
    for position in map.ocean_positions().iter() {
        let result = board.place_tile(&Tile::Ocean, *position);
        if placed < 9 {
            assert_eq!(result, Ok(()));
            placed += 1;
            assert_eq!(board.can_place(&Tile::Ocean), placed < 9);
        } else {
            assert_eq!(result, Err(()));
            assert_eq!(board.tile(position.0, position.1), Tile::Empty);
        }
    }
    assert_eq!(board.placed_oceans(), 9);

    let small = GameMap::new(vec![(4, 4)]);
    let mut board = Board::new(&small);
    assert!(board.can_place(&Tile::Ocean));
    assert_eq!(Ok(()), board.place_tile(&Tile::Ocean, (4, 4)));
    assert!(!board.can_place(&Tile::Ocean));
    assert_eq!(Ok(()), board.place_tile(&Tile::City, (0, 1)));
}

#[test]
fn greed_picks_the_most_attractive_cell() {
    let map = tharsis();
    let mut board = Board::new(&map);
    assert_eq!(board.place_tile_greedily(Tile::Empty), 0);
    assert_eq!(board.place_tile_greedily(Tile::City), 0);
    assert_eq!(board.tile(8, 3), Tile::City);
    assert_eq!(board.place_tile_greedily(Tile::Greenery), 2);
    assert_eq!(board.tile(8, 2), Tile::Greenery);
    assert_eq!(board.get_neighbour_count_by_type((7, 3), Tile::City), 1);
    assert_eq!(board.get_neighbour_count_by_type((7, 3), Tile::Greenery), 1);
    assert_eq!(board.get_neighbour_count_by_type((7, 3), Tile::Empty), 4);
    assert_eq!(board.get_neighbour_count_by_type((8, 2), Tile::City), 1);
    assert_eq!(board.get_neighbour_count_by_type((0, 0), Tile::Empty), 3);
    assert_eq!(board.get_neighbour_count_by_type((9, 0), Tile::Empty), 0);
    assert_eq!(board.get_neighbour_count_by_type((4, 4), Tile::Empty), 6);
    assert_eq!(board.place_tile_greedily(Tile::Greenery), 2);
    assert_eq!(board.tile(7, 4), Tile::Greenery);
    assert_eq!(board.place_tile_greedily(Tile::City), 1);
    assert_eq!(board.tile(8, 1), Tile::City);
    assert_eq!(board.place_tile_greedily(Tile::Greenery), 2);
    assert_eq!(board.tile(8, 0), Tile::Greenery);
    assert_eq!(Ok(()), board.place_tile(&Tile::City, (6, 3)));
    assert_eq!(board.place_tile_greedily(Tile::Greenery), 3);
    assert_eq!(board.tile(7, 3), Tile::Greenery);
    assert_eq!(board.tile(8, 4), Tile::Empty);
    assert_eq!(board.place_tile_greedily(Tile::Ocean), 0);
    assert_eq!(board.tile(8, 4), Tile::Ocean);
    assert_eq!(board.placed_oceans(), 1);
}

#[test]
fn greed_places_nothing_where_nothing_is_allowed() {
    let map = GameMap::new(vec![(4, 4)]);
    let mut board = Board::new(&map);
    assert_eq!(board.place_tile_greedily(Tile::Ocean), 0);
    assert_eq!(board.tile(4, 4), Tile::Ocean);
    assert_eq!(board.place_tile_greedily(Tile::Ocean), 0);
    assert_eq!(board.placed_oceans(), 1);
    let mut cities = 0;
    while board.can_place(&Tile::City) {
        board.place_tile_greedily(Tile::City);
        cities += 1;
    }
    assert!(cities > 10);
    let before = format!("{:?}", board);
    assert_eq!(board.place_tile_greedily(Tile::City), 0);
    assert_eq!(format!("{:?}", board), before);
}
