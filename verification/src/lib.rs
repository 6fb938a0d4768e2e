//! A bounded two-dimensional board of squares, each holding a terrain
//! ground, at most one terrain block, and at most one being. The board
//! validates and applies single-being moves: a move fails, leaving the
//! board untouched, when the origin is empty, the destination falls
//! outside the board, the destination is occupied, or a stone block
//! stands in the way.

pub mod grid;
pub mod laws;
