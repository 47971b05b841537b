//! Plain game values that pass through the scheduler: pieces, placements,
//! input steps and the playfield grid.

use vstd::prelude::*;

verus! {

/// Number of columns of the playfield.
pub const FIELD_WIDTH: i32 = 10;

/// Number of rows of the playfield, hidden rows included.
pub const FIELD_HEIGHT: i32 = 40;

/// Occupancy of the playfield: forty rows of ten cells, bottom row first.
pub type Field = [[bool; 10]; 40];

/// The seven piece shapes.
#[derive(Copy, Clone, Debug, PartialEq, Eq, Structural)]
pub enum Piece {
    I,
    O,
    T,
    L,
    J,
    S,
    Z,
}

/// Orientation of a piece.
#[derive(Copy, Clone, Debug, PartialEq, Eq, Structural)]
pub enum RotationState {
    North,
    South,
    East,
    West,
}

/// One low-level input of a movement path.
#[derive(Copy, Clone, Debug, PartialEq, Eq, Structural)]
pub enum PieceMovement {
    Left,
    Right,
    Cw,
    Ccw,
    SonicDrop,
}

/// A piece at a position: where a placement is expected to come to rest.
#[derive(Copy, Clone, Debug, PartialEq, Eq, Structural)]
pub struct FallingPiece {
    pub piece: Piece,
    pub rotation: RotationState,
    pub x: i32,
    pub y: i32,
}

impl FallingPiece {
    /// The piece's anchor cell lies on the playfield.
    pub open spec fn in_field(&self) -> bool {
        0 <= self.x < FIELD_WIDTH && 0 <= self.y < FIELD_HEIGHT
    }

    /// Tells whether the piece's anchor cell lies on the playfield.
    pub fn is_in_field(&self) -> (inside: bool)
        ensures
            inside == self.in_field(),
    {
        0 <= self.x && self.x < FIELD_WIDTH && 0 <= self.y && self.y < FIELD_HEIGHT
    }
}

} // verus!
