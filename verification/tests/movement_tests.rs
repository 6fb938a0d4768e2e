use beings_grid::grid::Being;
use beings_grid::grid::Direction;
use beings_grid::grid::Grid;
use beings_grid::grid::MovementError;
use beings_grid::grid::TerrainBlock;
use beings_grid::grid::TerrainGround;

#[test]
fn zero_sized_grids_are_legal() {
    let grid = Grid::generate_empty(0, 0);
    assert_eq!(grid.size, (0, 0));
    assert_eq!(grid.squares.len(), 0);

    let grid = Grid::generate_empty(7, 0);
    assert_eq!(grid.size, (7, 0));
    assert_eq!(grid.squares.len(), 0);
}

#[test]
fn scenario_three_by_three() {
    // A 3x3 board, whose flat array uses the height 3 as row stride.
    let mut grid = Grid::generate_empty(3, 3);
    grid.put_being_in_square((0, 0), Being::Orc);
    assert_eq!(grid.move_being_in_coord((0, 0), Direction::East), Ok((1, 0)));

    let mut grid = Grid::generate_empty(3, 3);
    grid.put_being_in_square((0, 0), Being::Orc);
    assert_eq!(
        grid.move_being_in_coord((0, 0), Direction::North),
        Err(MovementError::OutOfBounds)
    );

    let mut grid = Grid::generate_empty(3, 3);
    grid.put_being_in_square((2, 2), Being::Orc);
    assert_eq!(
        grid.move_being_in_coord((2, 2), Direction::East),
        Err(MovementError::OutOfBounds)
    );
}

#[test]
fn move_west_out_of_corner_fails() {
    let mut grid = Grid::generate_empty(3, 3);
    grid.put_being_in_square((0, 0), Being::Human);
    assert_eq!(
        grid.move_being_in_coord((0, 0), Direction::West),
        Err(MovementError::OutOfBounds)
    );
    // The being still stands where it was.
    assert_eq!(grid.squares[0].beings, Some(Being::Human));
}

#[test]
fn move_south_off_last_row_fails() {
    let mut grid = Grid::generate_empty(3, 3);
    grid.put_being_in_square((1, 2), Being::Human);
    assert_eq!(
        grid.move_being_in_coord((1, 2), Direction::South),
        Err(MovementError::OutOfBounds)
    );
}

#[test]
fn occupancy_is_checked_before_stone() {
    // The destination holds both a being and a stone block: the
    // occupancy check runs first, so its error wins.
    let mut grid = Grid::generate_empty(3, 3);
    grid.put_being_in_square((0, 0), Being::Human);
    grid.put_being_in_square((1, 0), Being::Orc);
    grid.squares[1].block = Some(TerrainBlock::Stone);
    assert_eq!(
        grid.move_being_in_coord((0, 0), Direction::East),
        Err(MovementError::BeingInDestinationSquare)
    );
    assert_eq!(grid.squares[0].beings, Some(Being::Human));
    assert_eq!(grid.squares[1].beings, Some(Being::Orc));
}

#[test]
fn passable_blocks_do_not_stop_a_move() {
    // Tree and soil blocks are passable; only stone blocks entry.
    let mut grid = Grid::generate_empty(3, 3);
    grid.put_being_in_square((0, 0), Being::Human);
    grid.squares[1].block = Some(TerrainBlock::Tree);
    assert_eq!(grid.move_being_in_coord((0, 0), Direction::East), Ok((1, 0)));
    assert_eq!(grid.squares[1].beings, Some(Being::Human));
    assert_eq!(grid.squares[1].block, Some(TerrainBlock::Tree));

    let mut grid = Grid::generate_empty(3, 3);
    grid.put_being_in_square((0, 0), Being::Human);
    grid.squares[1].block = Some(TerrainBlock::Soil);
    assert_eq!(grid.move_being_in_coord((0, 0), Direction::East), Ok((1, 0)));
}

#[test]
fn stone_blocks_every_direction() {
    let mut grid = Grid::generate_empty(3, 3);
    grid.put_being_in_square((1, 1), Being::Orc);
    grid.squares[1 + 0 * 3].block = Some(TerrainBlock::Stone);
    assert_eq!(
        grid.move_being_in_coord((1, 1), Direction::North),
        Err(MovementError::StoneInDestinationSquare)
    );
    assert_eq!(grid.squares[1 + 1 * 3].beings, Some(Being::Orc));
}

#[test]
fn failed_move_leaves_every_square_unchanged() {
    let mut grid = Grid::generate_empty(3, 3);
    grid.put_being_in_square((0, 0), Being::Human);
    grid.put_being_in_square((1, 0), Being::Orc);
    grid.squares[2].block = Some(TerrainBlock::Tree);
    let before: Vec<_> = grid.squares.clone();
    let before_size = grid.size;

    assert_eq!(
        grid.move_being_in_coord((0, 0), Direction::East),
        Err(MovementError::BeingInDestinationSquare)
    );

    assert_eq!(grid.size, before_size);
    assert_eq!(grid.squares.len(), before.len());
    for (after, earlier) in grid.squares.iter().zip(before.iter()) {
        assert_eq!(after.beings, earlier.beings);
        assert_eq!(after.block, earlier.block);
        assert_eq!(after.ground, earlier.ground);
    }
}

#[test]
fn legal_move_touches_only_origin_and_destination() {
    let mut grid = Grid::generate_empty(3, 3);
    grid.put_being_in_square((1, 1), Being::Orc);
    grid.put_being_in_square((2, 2), Being::Human);
    grid.squares[0].block = Some(TerrainBlock::Tree);

    // East from (1, 1): destination (2, 1), flat index 2 + 1 * 3 = 5.
    assert_eq!(grid.move_being_in_coord((1, 1), Direction::East), Ok((2, 1)));

    assert_eq!(grid.squares[1 + 1 * 3].beings, None);
    assert_eq!(grid.squares[2 + 1 * 3].beings, Some(Being::Orc));
    assert_eq!(grid.squares[2 + 2 * 3].beings, Some(Being::Human));
    assert_eq!(grid.squares[0].block, Some(TerrainBlock::Tree));
    for square in &grid.squares {
        assert_eq!(square.ground, TerrainGround::Soil);
    }
}

#[test]
fn put_and_take_round_trip() {
    let mut grid = Grid::generate_empty(2, 2);
    grid.put_being_in_square((1, 1), Being::Orc);
    assert_eq!(grid.squares[1 + 1 * 2].beings, Some(Being::Orc));

    let being = grid.take_being_from_square((1, 1));
    assert_eq!(being, Being::Orc);
    assert_eq!(grid.squares[1 + 1 * 2].beings, None);
}

#[test]
fn movement_error_describes_itself() {
    assert_eq!(MovementError::NoBeingInSquare.description(), "MovementError");
    assert_eq!(MovementError::OutOfBounds.description(), "MovementError");
    assert_eq!(MovementError::BeingInDestinationSquare.description(), "MovementError");
    assert_eq!(MovementError::StoneInDestinationSquare.description(), "MovementError");
}

#[test]
fn chained_moves_walk_across_the_grid() {
    let mut grid = Grid::generate_empty(3, 3);
    grid.put_being_in_square((0, 0), Being::Human);
    assert_eq!(grid.move_being_in_coord((0, 0), Direction::South), Ok((0, 1)));
    assert_eq!(grid.move_being_in_coord((0, 1), Direction::East), Ok((1, 1)));
    assert_eq!(grid.move_being_in_coord((1, 1), Direction::North), Ok((1, 0)));
    assert_eq!(grid.move_being_in_coord((1, 0), Direction::West), Ok((0, 0)));
    assert_eq!(grid.squares[0].beings, Some(Being::Human));
    for index in 1..grid.squares.len() {
        assert_eq!(grid.squares[index].beings, None);
    }
}
