//! The client-side handle: what the host has asked of the worker and what the
//! worker has answered, kept apart from the channels that carry both.

use vstd::prelude::*;
use crate::moves::{Move, MoveView};
use crate::piece::{Field, Piece};
use crate::protocol::{results_view, BotMsg, BotResult, BotResultView};

verus! {

/// The host's end of a worker.
///
/// Commands are queued here until the caller has put them on the control
/// channel; results taken off the result channel are fed in with
/// [`Interface::poll_bot`].
pub struct Interface {
    dead: bool,
    mv: Option<Move>,
    outbox: Vec<BotMsg>,
}

/// An [`Interface`] as mathematical values.
pub struct InterfaceView {
    /// The worker is known to be gone.
    pub dead: bool,
    /// The move that awaits the host, if any.
    pub pending: Option<MoveView>,
    /// Commands not yet put on the control channel, oldest first.
    pub outgoing: Seq<BotMsg>,
}

/// The move that remains when `received` arrives after `pending`: the last
/// move among the results, or `pending` where they hold none.
pub open spec fn latest_move(pending: Option<MoveView>, received: Seq<BotResultView>) -> Option<
    MoveView,
>
    decreases received.len(),
{
    if received.len() == 0 {
        pending
    } else {
        match received.last() {
            BotResultView::Move(mv) => Some(mv),
            BotResultView::BotInfo(_) => latest_move(pending, received.drop_last()),
        }
    }
}

impl InterfaceView {
    /// A dead handle holds nothing to send.
    pub open spec fn wf(self) -> bool {
        self.dead ==> self.outgoing.len() == 0
    }

    /// The handle of a worker that has just been launched.
    pub open spec fn fresh() -> InterfaceView {
        InterfaceView { dead: false, pending: None, outgoing: Seq::empty() }
    }

    /// A command is queued, unless the worker is gone.
    pub open spec fn enqueued(self, msg: BotMsg) -> InterfaceView {
        if self.dead {
            self
        } else {
            InterfaceView { outgoing: self.outgoing.push(msg), ..self }
        }
    }

    /// The queued commands have been handed out.
    pub open spec fn flushed(self) -> InterfaceView {
        InterfaceView { outgoing: Seq::empty(), ..self }
    }

    /// A channel was found closed.
    pub open spec fn closed(self) -> InterfaceView {
        InterfaceView { dead: true, outgoing: Seq::empty(), ..self }
    }

    /// Results were taken off the result channel, which then was found closed
    /// or not. A dead handle takes no notice of either.
    pub open spec fn fed(self, received: Seq<BotResultView>, closed: bool) -> InterfaceView {
        if self.dead {
            self
        } else {
            let absorbed = InterfaceView {
                pending: latest_move(self.pending, received),
                ..self
            };
            if closed {
                absorbed.closed()
            } else {
                absorbed
            }
        }
    }

    /// The pending move has been taken.
    pub open spec fn polled(self) -> InterfaceView {
        InterfaceView { pending: None, ..self }
    }
}

impl View for Interface {
    type V = InterfaceView;

    closed spec fn view(&self) -> InterfaceView {
        InterfaceView {
            dead: self.dead,
            pending: self.mv.deep_view(),
            outgoing: self.outbox@,
        }
    }
}

impl Interface {
    /// The handle of a worker that has just been launched: alive, with no
    /// move pending and nothing to send.
    pub fn launch() -> (handle: Interface)
        ensures
            handle@ == InterfaceView::fresh(),
    {
        Interface { dead: false, mv: None, outbox: Vec::new() }
    }

    /// True once the worker is known to be gone, and from then on.
    pub fn is_dead(&self) -> (dead: bool)
        ensures
            dead == self@.dead,
    {
        self.dead
    }

    fn enqueue(&mut self, msg: BotMsg)
        ensures
            final(self)@ == old(self)@.enqueued(msg),
    {
        if !self.dead {
            self.outbox.push(msg);
        }
    }

    /// Asks the worker to commit to a move as soon as it can. Like every
    /// command, the request is queued unless the handle is dead.
    pub fn request_next_move(&mut self)
        ensures
            final(self)@ == old(self)@.enqueued(BotMsg::NextMove),
    {
        self.enqueue(BotMsg::NextMove)
    }

    /// Tells the worker that a move will be asked for soon.
    pub fn misa_prepare_next_move(&mut self)
        ensures
            final(self)@ == old(self)@.enqueued(BotMsg::PrepareNextMove),
    {
        self.enqueue(BotMsg::PrepareNextMove)
    }

    /// Tells the worker the piece that follows those it knows. Whether the
    /// piece can follow them in the game is not looked into.
    pub fn add_next_piece(&mut self, piece: Piece)
        ensures
            final(self)@ == old(self)@.enqueued(BotMsg::NewPiece(piece)),
    {
        self.enqueue(BotMsg::NewPiece(piece))
    }

    /// Tells the worker to start over from a changed playfield. A move that
    /// was asked for before will be found on the new one.
    pub fn reset(&mut self, field: Field, b2b_active: bool, combo: u32)
        ensures
            final(self)@ == old(self)@.enqueued(BotMsg::Reset { field, b2b: b2b_active, combo }),
    {
        self.enqueue(BotMsg::Reset { field, b2b: b2b_active, combo })
    }

    /// Hands out the queued commands, oldest first, for the caller to put on
    /// the control channel.
    pub fn take_outgoing(&mut self) -> (commands: Vec<BotMsg>)
        ensures
            commands@ == old(self)@.outgoing,
            final(self)@ == old(self)@.flushed(),
    {
        let mut commands = Vec::new();
        core::mem::swap(&mut self.outbox, &mut commands);
        commands
    }

    /// Records that the control channel did not take a command: the worker
    /// is gone, and what is still queued will never be sent.
    pub fn mark_dead(&mut self)
        ensures
            final(self)@ == old(self)@.closed(),
    {
        self.dead = true;
        self.outbox.clear();
    }

    /// Takes in what the caller found on the result channel: the results in
    /// the order in which they came, and whether the channel was then found
    /// closed. Of the moves only the latest is kept.
    pub fn poll_bot(&mut self, received: Vec<BotResult>, closed: bool)
        ensures
            final(self)@ == old(self)@.fed(results_view(received@), closed),
    {
        if self.dead {
            return ;
        }
        let ghost all = results_view(received@);
        let ghost before = self@.pending;
        let mut rest = received;
        let mut found = false;
        while !found && rest.len() > 0
            invariant
                !self.dead,
                self.outbox@ == old(self).outbox@,
                !found ==> self@.pending == before && latest_move(before, all) == latest_move(
                    before,
                    results_view(rest@),
                ),
                found ==> self@.pending == latest_move(before, all),
            decreases rest.len() + (if found { 0int } else { 1int }),
        {
            let ghost prefix = results_view(rest@);
            let last = rest.pop();
            assert(results_view(rest@) =~= prefix.drop_last());
            match last {
                Some(BotResult::Move(mv)) => {
                    self.mv = Some(mv);
                    found = true;
                },
                _ => {},
            }
        }
        if closed {
            self.mark_dead();
        }
    }

    /// Hands out the pending move, if there is one. A move is handed out once.
    pub fn poll_next_move(&mut self) -> (mv: Option<Move>)
        ensures
            mv.deep_view() == old(self)@.pending,
            final(self)@ == old(self)@.polled(),
    {
        self.mv.take()
    }
}

} // verus!
