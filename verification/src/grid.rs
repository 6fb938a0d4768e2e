//! The grid itself: squares, coordinates, and the movement rules.

use vstd::prelude::*;

verus! {

/// Terrain base of a square; every square has exactly one.
#[derive(Clone, Copy, PartialEq, Eq, Structural, Debug)]
pub enum TerrainGround {
    Soil,
    Stone,
}

/// Optional terrain feature layered on a square; only `Stone` blocks entry.
#[derive(Clone, Copy, PartialEq, Eq, Structural, Debug)]
pub enum TerrainBlock {
    Tree,
    Soil,
    Stone,
}

/// An occupant of a square; at most one per square.
#[derive(Clone, Copy, PartialEq, Eq, Structural, Debug)]
pub enum Being {
    Orc,
    Human,
}

/// One of the four axis-aligned movement directions.
#[derive(Clone, Copy, PartialEq, Eq, Structural, Debug)]
pub enum Direction {
    West,
    East,
    North,
    South,
}

/// Why a move was refused. Every failure leaves the grid unchanged.
#[derive(Clone, Copy, PartialEq, Eq, Structural, Debug)]
pub enum MovementError {
    NoBeingInSquare,
    OutOfBounds,
    BeingInDestinationSquare,
    StoneInDestinationSquare,
}

impl MovementError {
    /// A short description of the error; every variant describes itself
    /// the same way. The grid's types cannot carry `Display`, so callers
    /// that would format an error call this method instead.
    pub fn description(&self) -> (text: String)
        ensures
            text@ == "MovementError"@,
    {
        "MovementError".to_owned()
    }
}

/// One addressable position: ground, optional block, optional being.
#[derive(Clone, Copy, PartialEq, Debug)]
pub struct Square {
    pub ground: TerrainGround,
    pub block: Option<TerrainBlock>,
    pub beings: Option<Being>,
}

/// The square a freshly generated grid is filled with: bare soil,
/// no block, no being.
pub open spec fn empty_square() -> Square {
    Square { ground: TerrainGround::Soil, block: None, beings: None }
}

/// A fixed-size rectangular board of squares, addressed by (x, y) with
/// `0 <= x < size.0` (width) and `0 <= y < size.1` (height), stored as a
/// flat array.
pub struct Grid {
    pub size: (usize, usize),
    pub squares: Vec<Square>,
}

/// The candidate coordinate one step in `dir` from (x, y), over the
/// unbounded integers: stepping off the low edge lands on -1.
pub open spec fn spec_target(x: int, y: int, dir: Direction) -> (int, int) {
    match dir {
        Direction::East => (x + 1, y),
        Direction::West => (x - 1, y),
        Direction::South => (x, y + 1),
        Direction::North => (x, y - 1),
    }
}

impl Grid {
    /// The flat array holds exactly width * height squares.
    pub open spec fn wf(self) -> bool {
        self.squares@.len() == self.size.0 * self.size.1
    }

    /// Where (x, y) lives in the flat array. The row stride is the height
    /// (`size.1`), kept exactly as the board has always laid its squares
    /// out, although the width would be the conventional stride.
    pub open spec fn spec_index_of(self, x: int, y: int) -> int {
        x + y * self.size.1
    }

    /// (x, y) lies inside the board's rectangle.
    pub open spec fn coord_in_bounds(self, x: int, y: int) -> bool {
        0 <= x < self.size.0 && 0 <= y < self.size.1
    }

    /// (x, y) is a coordinate a caller may hand to the accessors: inside
    /// the rectangle, and mapped inside the flat array. With the height as
    /// row stride the second conjunct does not follow from the first on
    /// every board shape, so it is demanded on its own.
    pub open spec fn addressable(self, x: int, y: int) -> bool {
        self.coord_in_bounds(x, y) && self.spec_index_of(x, y) < self.squares@.len()
    }

    /// What a move from `coord` in direction `dir` returns: the first
    /// failed check decides the error, in the order the movement rules
    /// apply them (empty origin, then bounds, then occupancy, then a
    /// stone block), and a move past every check yields the destination
    /// coordinate.
    pub open spec fn spec_move_result(self, coord: (usize, usize), dir: Direction) -> Result<
        (usize, usize),
        MovementError,
    >
        recommends
            self.addressable(coord.0 as int, coord.1 as int),
    {
        let origin = self.squares@[self.spec_index_of(coord.0 as int, coord.1 as int)];
        let target = spec_target(coord.0 as int, coord.1 as int, dir);
        if origin.beings is None {
            Err(MovementError::NoBeingInSquare)
        } else if !self.coord_in_bounds(target.0, target.1) {
            Err(MovementError::OutOfBounds)
        } else {
            let destination = self.squares@[self.spec_index_of(target.0, target.1)];
            if destination.beings is Some {
                Err(MovementError::BeingInDestinationSquare)
            } else if destination.block == Some(TerrainBlock::Stone) {
                Err(MovementError::StoneInDestinationSquare)
            } else {
                Ok((target.0 as usize, target.1 as usize))
            }
        }
    }

    /// What a caller owes `move_being_in_coord`: a well-formed grid, an
    /// addressable origin, and a destination that maps inside the flat
    /// array whenever it lies inside the rectangle. The last condition is
    /// forced by the height-stride layout, under which an in-rectangle
    /// coordinate does not always map inside a width * height array.
    pub open spec fn move_req(self, coord: (usize, usize), dir: Direction) -> bool {
        let target = spec_target(coord.0 as int, coord.1 as int, dir);
        &&& self.wf()
        &&& self.addressable(coord.0 as int, coord.1 as int)
        &&& (self.coord_in_bounds(target.0, target.1) ==> self.spec_index_of(target.0, target.1)
            < self.squares@.len())
    }

    /// Allocates a grid of `size_x * size_y` squares, each bare soil with
    /// no block and no being.
    pub fn generate_empty(size_x: usize, size_y: usize) -> (grid: Grid)
        requires
            size_x * size_y <= usize::MAX,
        ensures
            grid.size.0 == size_x,
            grid.size.1 == size_y,
            grid.wf(),
            forall|i: int|
                0 <= i < grid.squares@.len() ==> #[trigger] grid.squares@[i] == empty_square(),
    {
        let number_of_squares: usize = size_x * size_y;
        let mut squares: Vec<Square> = Vec::with_capacity(number_of_squares);

        let mut placed: usize = 0;
        while placed < number_of_squares
            invariant
                placed <= number_of_squares,
                squares@.len() == placed,
                forall|i: int| 0 <= i < placed ==> #[trigger] squares@[i] == empty_square(),
            decreases number_of_squares - placed,
        {
            squares.push(
                Square { ground: TerrainGround::Soil, block: None, beings: None },
            );
            placed = placed + 1;
        }

        Grid { size: (size_x, size_y), squares }
    }

    /// Removes and returns the being standing at `coord`. A setup
    /// accessor: it bypasses every movement rule. The coordinate must be
    /// addressable and actually hold a being; anything else is a caller
    /// contract violation, not a recoverable error.
    pub fn take_being_from_square(&mut self, coord: (usize, usize)) -> (being: Being)
        requires
            old(self).addressable(coord.0 as int, coord.1 as int),
            old(self).squares@[old(self).spec_index_of(coord.0 as int, coord.1 as int)].beings
                is Some,
        ensures
            Some(being) == old(self).squares@[old(self).spec_index_of(
                coord.0 as int,
                coord.1 as int,
            )].beings,
            final(self).size == old(self).size,
            final(self).squares@ == old(self).squares@.update(
                old(self).spec_index_of(coord.0 as int, coord.1 as int),
                (Square {
                    beings: None,
                    ..old(self).squares@[old(self).spec_index_of(coord.0 as int, coord.1 as int)]
                }),
            ),
    {
        let total: usize = self.squares.len();
        proof {
            assert(coord.0 + coord.1 * self.size.1 < total);
        }
        let index: usize = coord.0 + coord.1 * self.size.1;
        let being = self.squares[index].beings.take();
        being.unwrap()
    }

    /// Places `being` into the square at `coord`, overwriting whatever
    /// being stood there. A setup accessor: it bypasses every movement
    /// rule. The coordinate must be addressable.
    pub fn put_being_in_square(&mut self, coord: (usize, usize), being: Being)
        requires
            old(self).addressable(coord.0 as int, coord.1 as int),
        ensures
            final(self).size == old(self).size,
            final(self).squares@ == old(self).squares@.update(
                old(self).spec_index_of(coord.0 as int, coord.1 as int),
                (Square {
                    beings: Some(being),
                    ..old(self).squares@[old(self).spec_index_of(coord.0 as int, coord.1 as int)]
                }),
            ),
    {
        let total: usize = self.squares.len();
        proof {
            assert(coord.0 + coord.1 * self.size.1 < total);
        }
        let index: usize = coord.0 + coord.1 * self.size.1;
        self.squares[index].beings = Some(being);
    }

    /// Validates and applies one move: the being at `coord` steps one
    /// square in direction `dir`. Checks run in order — empty origin,
    /// bounds (including stepping below coordinate 0), destination
    /// occupancy, stone block — and the first failure returns its error
    /// with the grid untouched. Only a move past every check mutates the
    /// grid, and then exactly as `spec_moved` says.
    pub fn move_being_in_coord(&mut self, coord: (usize, usize), dir: Direction) -> (result:
        Result<(usize, usize), MovementError>)
        requires
            old(self).move_req(coord, dir),
        ensures
            result == old(self).spec_move_result(coord, dir),
            result is Err ==> *final(self) == *old(self),
            result is Ok ==> spec_moved(*old(self), *final(self), coord, result->Ok_0),
    {
        let total: usize = self.squares.len();
        proof {
            assert(coord.0 + coord.1 * self.size.1 < total);
        }
        let origin_index: usize = coord.0 + coord.1 * self.size.1;

        if self.squares[origin_index].beings.is_none() {
            return Err(MovementError::NoBeingInSquare);
        }

        let new_x: usize = match dir {
            Direction::East => coord.0 + 1,
            Direction::West => {
                if coord.0 == 0 {
                    return Err(MovementError::OutOfBounds);
                }
                coord.0 - 1
            },
            _ => coord.0,
        };

        let new_y: usize = match dir {
            Direction::South => coord.1 + 1,
            Direction::North => {
                if coord.1 == 0 {
                    return Err(MovementError::OutOfBounds);
                }
                coord.1 - 1
            },
            _ => coord.1,
        };

        if new_x >= self.size.0 || new_y >= self.size.1 {
            return Err(MovementError::OutOfBounds);
        }

        let destination_index: usize = new_x + new_y * self.size.1;

        if self.squares[destination_index].beings.is_some() {
            return Err(MovementError::BeingInDestinationSquare);
        }

        match self.squares[destination_index].block {
            Some(block) => {
                if block == TerrainBlock::Stone {
                    return Err(MovementError::StoneInDestinationSquare);
                }
            },
            None => {},
        }

        let being = self.take_being_from_square(coord);
        let new_coords = (new_x, new_y);
        self.put_being_in_square(new_coords, being);

        Ok(new_coords)
    }
}

/// After a legal move from `from` to `to`: the being left `from`, arrived
/// at `to`, the ground and block of both squares survived, and every
/// other square is untouched.
pub open spec fn spec_moved(pre: Grid, post: Grid, from: (usize, usize), to: (usize, usize)) -> bool {
    let origin_index = pre.spec_index_of(from.0 as int, from.1 as int);
    let destination_index = pre.spec_index_of(to.0 as int, to.1 as int);
    &&& post.size == pre.size
    &&& post.squares@.len() == pre.squares@.len()
    &&& post.squares@[origin_index].ground == pre.squares@[origin_index].ground
    &&& post.squares@[origin_index].block == pre.squares@[origin_index].block
    &&& post.squares@[origin_index].beings is None
    &&& post.squares@[destination_index].ground == pre.squares@[destination_index].ground
    &&& post.squares@[destination_index].block == pre.squares@[destination_index].block
    &&& post.squares@[destination_index].beings == pre.squares@[origin_index].beings
    &&& forall|i: int|
        0 <= i < pre.squares@.len() && i != origin_index && i != destination_index
            ==> post.squares@[i] == pre.squares@[i]
}

} // verus!
