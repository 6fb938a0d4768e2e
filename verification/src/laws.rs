//! Laws of the movement rules, stated over the grid's specification.
//!
//! Each law speaks of `Grid::spec_move_result`, the specification that
//! `Grid::move_being_in_coord` is proved to return. Together with that
//! function's contract — a failing move leaves the grid exactly as it
//! was — each law below carries over to the executable move.

use vstd::prelude::*;

use crate::grid::Direction;
use crate::grid::Grid;
use crate::grid::MovementError;
use crate::grid::TerrainBlock;
use crate::grid::spec_target;

verus! {

/// Moving from a square that holds no being fails with `NoBeingInSquare`,
/// whatever the direction; since the move's contract keeps the grid
/// unchanged on every failure, such a move never mutates anything.
pub proof fn lemma_move_from_empty_square_fails(g: Grid, coord: (usize, usize), dir: Direction)
    requires
        g.addressable(coord.0 as int, coord.1 as int),
        g.squares@[g.spec_index_of(coord.0 as int, coord.1 as int)].beings is None,
    ensures
        g.spec_move_result(coord, dir) == Err::<(usize, usize), MovementError>(
            MovementError::NoBeingInSquare,
        ),
{
}

/// A being standing at the minimum corner (0, 0) cannot leave the grid:
/// moving North or West from there fails with `OutOfBounds`.
pub proof fn lemma_move_out_of_low_edge_fails(g: Grid, dir: Direction)
    requires
        g.addressable(0, 0),
        g.squares@[g.spec_index_of(0, 0)].beings is Some,
        dir == Direction::North || dir == Direction::West,
    ensures
        g.spec_move_result((0, 0), dir) == Err::<(usize, usize), MovementError>(
            MovementError::OutOfBounds,
        ),
{
}

/// A being standing on the grid's far edge cannot leave it either: moving
/// East from the last column, or South from the last row, fails with
/// `OutOfBounds`.
pub proof fn lemma_move_out_of_high_edge_fails(g: Grid, coord: (usize, usize), dir: Direction)
    requires
        g.addressable(coord.0 as int, coord.1 as int),
        g.squares@[g.spec_index_of(coord.0 as int, coord.1 as int)].beings is Some,
        dir == Direction::East || dir == Direction::South,
        dir == Direction::East ==> coord.0 + 1 == g.size.0,
        dir == Direction::South ==> coord.1 + 1 == g.size.1,
    ensures
        g.spec_move_result(coord, dir) == Err::<(usize, usize), MovementError>(
            MovementError::OutOfBounds,
        ),
{
}

/// Moving onto a square already occupied by a being fails with
/// `BeingInDestinationSquare`; by the move's contract the origin then
/// retains its being and the destination keeps its own.
pub proof fn lemma_move_into_occupied_square_fails(g: Grid, coord: (usize, usize), dir: Direction)
    requires
        g.addressable(coord.0 as int, coord.1 as int),
        g.squares@[g.spec_index_of(coord.0 as int, coord.1 as int)].beings is Some,
        ({
            let target = spec_target(coord.0 as int, coord.1 as int, dir);
            &&& g.coord_in_bounds(target.0, target.1)
            &&& g.squares@[g.spec_index_of(target.0, target.1)].beings is Some
        }),
    ensures
        g.spec_move_result(coord, dir) == Err::<(usize, usize), MovementError>(
            MovementError::BeingInDestinationSquare,
        ),
{
}

/// Moving onto a square whose block is a stone fails with
/// `StoneInDestinationSquare`; by the move's contract no square changes.
pub proof fn lemma_move_into_stone_square_fails(g: Grid, coord: (usize, usize), dir: Direction)
    requires
        g.addressable(coord.0 as int, coord.1 as int),
        g.squares@[g.spec_index_of(coord.0 as int, coord.1 as int)].beings is Some,
        ({
            let target = spec_target(coord.0 as int, coord.1 as int, dir);
            &&& g.coord_in_bounds(target.0, target.1)
            &&& g.squares@[g.spec_index_of(target.0, target.1)].beings is None
            &&& g.squares@[g.spec_index_of(target.0, target.1)].block == Some(TerrainBlock::Stone)
        }),
    ensures
        g.spec_move_result(coord, dir) == Err::<(usize, usize), MovementError>(
            MovementError::StoneInDestinationSquare,
        ),
{
}

/// A legal move is owed success: when the origin holds a being and the
/// destination lies inside the grid, holds no being and no stone block,
/// the move returns the destination coordinate — and, by the move's
/// contract, the being then stands there and nowhere else.
pub proof fn lemma_legal_move_succeeds(g: Grid, coord: (usize, usize), dir: Direction)
    requires
        g.addressable(coord.0 as int, coord.1 as int),
        g.squares@[g.spec_index_of(coord.0 as int, coord.1 as int)].beings is Some,
        ({
            let target = spec_target(coord.0 as int, coord.1 as int, dir);
            &&& g.coord_in_bounds(target.0, target.1)
            &&& g.squares@[g.spec_index_of(target.0, target.1)].beings is None
            &&& g.squares@[g.spec_index_of(target.0, target.1)].block != Some(TerrainBlock::Stone)
        }),
    ensures
        ({
            let target = spec_target(coord.0 as int, coord.1 as int, dir);
            g.spec_move_result(coord, dir) == Ok::<(usize, usize), MovementError>(
                (target.0 as usize, target.1 as usize),
            )
        }),
{
}

} // verus!
