//! The move that the worker hands out once it commits.

use vstd::prelude::*;
use crate::piece::{FallingPiece, PieceMovement};

verus! {

/// A committed placement.
#[derive(Clone, Debug, PartialEq, Eq)]
pub struct Move {
    /// Whether the piece is swapped with the hold slot first.
    pub hold: bool,
    /// The inputs that bring the piece to its place, in order.
    pub inputs: Vec<PieceMovement>,
    /// Where the piece is expected to come to rest.
    pub expected_location: FallingPiece,
}

/// What a [`Move`] holds, as mathematical values.
pub struct MoveView {
    pub hold: bool,
    pub inputs: Seq<PieceMovement>,
    pub expected_location: FallingPiece,
}

impl View for Move {
    type V = MoveView;

    open spec fn view(&self) -> MoveView {
        MoveView {
            hold: self.hold,
            inputs: self.inputs@,
            expected_location: self.expected_location,
        }
    }
}

impl DeepView for Move {
    type V = MoveView;

    open spec fn deep_view(&self) -> MoveView {
        self@
    }
}

} // verus!
