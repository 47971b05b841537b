//! What travels between the handle and the worker: commands one way, results
//! the other.

use vstd::prelude::*;
use crate::info::{Info, InfoView};
use crate::moves::{Move, MoveView};
use crate::piece::{Field, Piece};

verus! {

/// A command from the handle to the worker.
#[derive(Copy, Clone, Debug, PartialEq, Eq)]
pub enum BotMsg {
    /// The playfield was changed from outside: start over from this state.
    Reset { field: Field, b2b: bool, combo: u32 },
    /// One more upcoming piece is known.
    NewPiece(Piece),
    /// Commit to a move as soon as the search allows it.
    NextMove,
    /// A move will be asked for soon. Reserved; it changes nothing.
    PrepareNextMove,
}

/// A result from the worker to the handle.
#[derive(Clone, Debug, PartialEq, Eq)]
pub enum BotResult {
    Move(Move),
    BotInfo(Info),
}

/// A [`BotResult`] as mathematical values.
pub enum BotResultView {
    Move(MoveView),
    BotInfo(InfoView),
}

impl View for BotResult {
    type V = BotResultView;

    open spec fn view(&self) -> BotResultView {
        match self {
            BotResult::Move(mv) => BotResultView::Move(mv@),
            BotResult::BotInfo(info) => BotResultView::BotInfo(info.deep_view()),
        }
    }
}

/// The views of a list of results, in order.
pub open spec fn results_view(results: Seq<BotResult>) -> Seq<BotResultView> {
    results.map_values(|r: BotResult| r@)
}

} // verus!
