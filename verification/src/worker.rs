//! The worker's schedule: when to take a command, when to commit to a move
//! and when to let the search grow.
//!
//! The worker owns a search structure that it never looks into. It asks for
//! one thing at a time, an [`Action`], and is told how that went, an
//! [`Event`]. Whoever drives it performs the actions: taking commands off the
//! control channel, working on the structure, putting results on the result
//! channel.

use vstd::prelude::*;
use crate::info::{bot_info, diagnostics, Info, InfoView, SearchStats};
use crate::moves::{Move, MoveView};
use crate::options::Options;
use crate::piece::{FallingPiece, Field, Piece, PieceMovement};
use crate::protocol::{BotMsg, BotResult, BotResultView};

verus! {

/// What the worker reads off its search structure.
#[derive(Copy, Clone, Debug, PartialEq, Eq, Structural)]
pub struct TreeStats {
    /// Number of nodes below the root.
    pub nodes: usize,
    /// Number of upcoming pieces that are known at the root.
    pub queued: usize,
}

/// The best immediate child of the root, taken out of the structure together
/// with its subtree, which from then on is the structure.
#[derive(Clone, Debug, PartialEq, Eq)]
pub struct BestChild {
    pub hold: bool,
    pub inputs: Vec<PieceMovement>,
    pub expected_location: FallingPiece,
    /// Depth reached below the child.
    pub depth: usize,
    /// Accumulated evaluation of the child.
    pub evaluation: i64,
    /// What the child's subtree reads.
    pub stats: TreeStats,
}

/// A [`BestChild`] as mathematical values.
pub struct BestChildView {
    pub hold: bool,
    pub inputs: Seq<PieceMovement>,
    pub expected_location: FallingPiece,
    pub depth: usize,
    pub evaluation: i64,
    pub stats: TreeStats,
}

impl View for BestChild {
    type V = BestChildView;

    open spec fn view(&self) -> BestChildView {
        BestChildView {
            hold: self.hold,
            inputs: self.inputs@,
            expected_location: self.expected_location,
            depth: self.depth,
            evaluation: self.evaluation,
            stats: self.stats,
        }
    }
}

impl BestChildView {
    /// The move that leads to this child.
    pub open spec fn chosen_move(self) -> MoveView {
        MoveView {
            hold: self.hold,
            inputs: self.inputs,
            expected_location: self.expected_location,
        }
    }
}

/// What the worker asks for next.
#[derive(Clone, Debug, PartialEq, Eq)]
pub enum Action {
    /// Take the next command off the control channel: wait for one if
    /// `blocking`, else take one only if it is there.
    Receive { blocking: bool },
    /// Let the structure take in a newly known upcoming piece.
    Incorporate(Piece),
    /// Replace the structure by a fresh one, rooted at the current root state
    /// with its field, back-to-back flag and combo count overwritten.
    Rebuild { field: Field, b2b: bool, combo: u32 },
    /// Ask the structure for its best immediate child.
    Commit,
    /// Put a result on the result channel.
    Send(BotResult),
    /// Let the structure grow by one unit of work.
    Grow,
    /// The worker has ended.
    Stop,
}

/// An [`Action`] as mathematical values.
pub enum ActionView {
    Receive { blocking: bool },
    Incorporate(Piece),
    Rebuild { field: Field, b2b: bool, combo: u32 },
    Commit,
    Send(BotResultView),
    Grow,
    Stop,
}

impl View for Action {
    type V = ActionView;

    open spec fn view(&self) -> ActionView {
        match self {
            Action::Receive { blocking } => ActionView::Receive { blocking: *blocking },
            Action::Incorporate(piece) => ActionView::Incorporate(*piece),
            Action::Rebuild { field, b2b, combo } => ActionView::Rebuild {
                field: *field,
                b2b: *b2b,
                combo: *combo,
            },
            Action::Commit => ActionView::Commit,
            Action::Send(result) => ActionView::Send(result@),
            Action::Grow => ActionView::Grow,
            Action::Stop => ActionView::Stop,
        }
    }
}

/// How the last action went.
#[derive(Clone, Debug, PartialEq, Eq)]
pub enum Event {
    /// A command was taken off the control channel.
    Command(BotMsg),
    /// No command was there to take.
    Idle,
    /// The control channel is closed for good.
    Closed,
    /// The piece was taken in; `terminal` if every future that is left loses.
    Incorporated { terminal: bool, stats: TreeStats },
    /// The fresh structure stands.
    Rebuilt { stats: TreeStats },
    /// The structure gave its best child, and the evaluator its report.
    Ready { child: BestChild, report: Info },
    /// The structure has no child to give yet, and is unchanged.
    NotReady,
    /// The result was put on the channel, or the channel did not take it.
    Sent { delivered: bool },
    /// The structure has grown; `terminal` if no legal continuation is left.
    Grown { terminal: bool, stats: TreeStats },
}

/// An [`Event`] as mathematical values.
pub enum EventView {
    Command(BotMsg),
    Idle,
    Closed,
    Incorporated { terminal: bool, stats: TreeStats },
    Rebuilt { stats: TreeStats },
    Ready { child: BestChildView, report: InfoView },
    NotReady,
    Sent { delivered: bool },
    Grown { terminal: bool, stats: TreeStats },
}

impl View for Event {
    type V = EventView;

    open spec fn view(&self) -> EventView {
        match self {
            Event::Command(msg) => EventView::Command(*msg),
            Event::Idle => EventView::Idle,
            Event::Closed => EventView::Closed,
            Event::Incorporated { terminal, stats } => EventView::Incorporated {
                terminal: *terminal,
                stats: *stats,
            },
            Event::Rebuilt { stats } => EventView::Rebuilt { stats: *stats },
            Event::Ready { child, report } => EventView::Ready {
                child: child@,
                report: report.deep_view(),
            },
            Event::NotReady => EventView::NotReady,
            Event::Sent { delivered } => EventView::Sent { delivered: *delivered },
            Event::Grown { terminal, stats } => EventView::Grown {
                terminal: *terminal,
                stats: *stats,
            },
        }
    }
}

/// Which answer the worker is waiting for.
#[derive(Copy, Clone, Debug, PartialEq, Eq, Structural)]
pub enum Phase {
    /// The opening report is being sent.
    Announcing,
    /// A command is being taken off the control channel.
    Receiving,
    /// The structure is taking in a piece.
    Incorporating,
    /// The structure is being replaced.
    Rebuilding,
    /// The structure is being asked for its best child.
    Committing,
    /// The committed move is being sent.
    SendingMove,
    /// The report that follows a move is being sent.
    SendingInfo,
    /// The structure is growing.
    Growing,
    /// The worker has ended and asks for nothing more.
    Stopped,
}

/// The scheduler of one worker.
pub struct Worker {
    options: Options,
    commit_requested: bool,
    stats: TreeStats,
    phase: Phase,
    pending_info: Option<Info>,
}

/// A [`Worker`] as mathematical values.
pub struct WorkerView {
    pub options: Options,
    /// A move was asked for and has not been given yet.
    pub commit_requested: bool,
    /// What the structure read when the worker last heard of it.
    pub stats: TreeStats,
    pub phase: Phase,
    /// The report that goes out once the move has.
    pub pending_info: Option<InfoView>,
}

impl WorkerView {
    /// What holds of every worker: it asks for a commit only when a move was
    /// requested and the structure holds more nodes than the floor, for
    /// growth only below the ceiling and with a piece to place, and it holds
    /// a report back exactly while the move before it goes out.
    pub open spec fn wf(self) -> bool {
        &&& self.phase == Phase::Committing ==> self.commit_requested && self.stats.nodes
            > self.options.min_nodes
        &&& self.phase == Phase::Growing ==> self.stats.nodes < self.options.max_nodes
            && self.stats.queued > 0
        &&& self.pending_info is Some <==> self.phase == Phase::SendingMove
    }

    /// The worker as it starts: nothing requested, the opening report on its
    /// way.
    pub open spec fn initial(options: Options, stats: TreeStats) -> WorkerView {
        WorkerView {
            options,
            commit_requested: false,
            stats,
            phase: Phase::Announcing,
            pending_info: None,
        }
    }

    /// The event answers the action that the worker last asked for. No
    /// command comes out empty-handed from a receive that waits.
    pub open spec fn accepts(self, event: EventView) -> bool {
        match self.phase {
            Phase::Announcing | Phase::SendingMove | Phase::SendingInfo => event is Sent,
            Phase::Receiving => event is Command || event is Closed || (event is Idle
                && !self.at_ceiling()),
            Phase::Incorporating => event is Incorporated,
            Phase::Rebuilding => event is Rebuilt,
            Phase::Committing => event is Ready || event is NotReady,
            Phase::Growing => event is Grown,
            Phase::Stopped => false,
        }
    }

    /// The structure has used up its budget of nodes.
    pub open spec fn at_ceiling(self) -> bool {
        self.stats.nodes >= self.options.max_nodes
    }

    /// The worker takes note of what the structure reads now.
    pub open spec fn observing(self, stats: TreeStats) -> WorkerView {
        WorkerView { stats, ..self }
    }

    /// The worker ends.
    pub open spec fn halt(self) -> (WorkerView, ActionView) {
        (WorkerView { phase: Phase::Stopped, ..self }, ActionView::Stop)
    }

    /// A new round begins with the intake of a command: one that waits at
    /// the ceiling, one that does not wait below it.
    pub open spec fn intake(self) -> (WorkerView, ActionView) {
        (
            WorkerView { phase: Phase::Receiving, ..self },
            ActionView::Receive { blocking: self.at_ceiling() },
        )
    }

    /// The round's last part: growth, below the ceiling and with at least one
    /// piece known; else the next round.
    pub open spec fn grow_or_intake(self) -> (WorkerView, ActionView) {
        if !self.at_ceiling() && self.stats.queued > 0 {
            (WorkerView { phase: Phase::Growing, ..self }, ActionView::Grow)
        } else {
            self.intake()
        }
    }

    /// The round's middle part: a commit attempt, if a move was asked for and
    /// the structure holds more nodes than the floor; else on to growth.
    pub open spec fn commit_or_grow(self) -> (WorkerView, ActionView) {
        if self.commit_requested && self.stats.nodes > self.options.min_nodes {
            (WorkerView { phase: Phase::Committing, ..self }, ActionView::Commit)
        } else {
            self.grow_or_intake()
        }
    }

    /// A command is applied.
    pub open spec fn on_command(self, msg: BotMsg) -> (WorkerView, ActionView) {
        match msg {
            BotMsg::NewPiece(piece) => (
                WorkerView { phase: Phase::Incorporating, ..self },
                ActionView::Incorporate(piece),
            ),
            BotMsg::Reset { field, b2b, combo } => (
                WorkerView { phase: Phase::Rebuilding, ..self },
                ActionView::Rebuild { field, b2b, combo },
            ),
            BotMsg::NextMove => WorkerView { commit_requested: true, ..self }.commit_or_grow(),
            BotMsg::PrepareNextMove => self.commit_or_grow(),
        }
    }

    /// The structure gave its best child: the request is served, the child's
    /// subtree is the structure, the move goes out and the report is held
    /// back until it has.
    pub open spec fn on_ready(self, child: BestChildView, report: InfoView) -> (
        WorkerView,
        ActionView,
    ) {
        let considered = SearchStats {
            depth: child.depth,
            evaluation: child.evaluation,
            nodes: self.stats.nodes,
        };
        (
            WorkerView {
                commit_requested: false,
                stats: child.stats,
                phase: Phase::SendingMove,
                pending_info: Some(diagnostics(report, Some(considered))),
                ..self
            },
            ActionView::Send(BotResultView::Move(child.chosen_move())),
        )
    }

    /// A send has ended. The opening report may get lost; a move or the
    /// report after it that finds no taker ends the worker.
    pub open spec fn on_sent(self, delivered: bool) -> (WorkerView, ActionView) {
        match self.phase {
            Phase::Announcing => self.intake(),
            Phase::SendingMove => if delivered {
                (
                    WorkerView { phase: Phase::SendingInfo, pending_info: None, ..self },
                    ActionView::Send(BotResultView::BotInfo(self.pending_info->0)),
                )
            } else {
                WorkerView { pending_info: None, ..self }.halt()
            },
            _ => if delivered {
                self.grow_or_intake()
            } else {
                self.halt()
            },
        }
    }

    /// The worker's step: the state after `event` and the action asked for
    /// next. An event that the worker does not accept leaves the state as it
    /// is.
    pub open spec fn next(self, event: EventView) -> (WorkerView, ActionView) {
        if !self.accepts(event) {
            (self, ActionView::Stop)
        } else {
            match event {
                EventView::Command(msg) => self.on_command(msg),
                EventView::Idle => self.commit_or_grow(),
                EventView::Closed => self.halt(),
                EventView::Incorporated { terminal, stats } => if terminal {
                    self.observing(stats).halt()
                } else {
                    self.observing(stats).commit_or_grow()
                },
                EventView::Rebuilt { stats } => self.observing(stats).commit_or_grow(),
                EventView::Ready { child, report } => self.on_ready(child, report),
                EventView::NotReady => self.grow_or_intake(),
                EventView::Sent { delivered } => self.on_sent(delivered),
                EventView::Grown { terminal, stats } => if terminal {
                    self.observing(stats).halt()
                } else {
                    self.observing(stats).intake()
                },
            }
        }
    }
}

impl View for Worker {
    type V = WorkerView;

    closed spec fn view(&self) -> WorkerView {
        WorkerView {
            options: self.options,
            commit_requested: self.commit_requested,
            stats: self.stats,
            phase: self.phase,
            pending_info: self.pending_info.deep_view(),
        }
    }
}

impl Worker {
    /// Starts a worker on a structure that reads `stats`. The first thing it
    /// asks for is to send the opening report, made of the evaluator's own.
    pub fn start(options: Options, stats: TreeStats, report: Info) -> (started: (Worker, Action))
        ensures
            started.0@ == WorkerView::initial(options, stats),
            started.0@.wf(),
            started.1@ == ActionView::Send(
                BotResultView::BotInfo(diagnostics(report.deep_view(), None)),
            ),
    {
        let worker = Worker {
            options,
            commit_requested: false,
            stats,
            phase: Phase::Announcing,
            pending_info: None,
        };
        (worker, Action::Send(BotResult::BotInfo(bot_info(report, None))))
    }

    /// Which answer the worker is waiting for.
    pub fn phase(&self) -> (phase: Phase)
        ensures
            phase == self@.phase,
    {
        self.phase
    }

    /// Whether a move was asked for and has not been given yet.
    pub fn commit_requested(&self) -> (requested: bool)
        ensures
            requested == self@.commit_requested,
    {
        self.commit_requested
    }

    /// What the structure read when the worker last heard of it.
    pub fn stats(&self) -> (stats: TreeStats)
        ensures
            stats == self@.stats,
    {
        self.stats
    }

    /// Tells whether `event` answers the action that the worker last asked
    /// for.
    pub fn accepts(&self, event: &Event) -> (ok: bool)
        ensures
            ok == self@.accepts(event@),
    {
        match self.phase {
            Phase::Announcing | Phase::SendingMove | Phase::SendingInfo => match event {
                Event::Sent { .. } => true,
                _ => false,
            },
            Phase::Receiving => match event {
                Event::Command(_) => true,
                Event::Closed => true,
                Event::Idle => self.stats.nodes < self.options.max_nodes,
                _ => false,
            },
            Phase::Incorporating => match event {
                Event::Incorporated { .. } => true,
                _ => false,
            },
            Phase::Rebuilding => match event {
                Event::Rebuilt { .. } => true,
                _ => false,
            },
            Phase::Committing => match event {
                Event::Ready { .. } => true,
                Event::NotReady => true,
                _ => false,
            },
            Phase::Growing => match event {
                Event::Grown { .. } => true,
                _ => false,
            },
            Phase::Stopped => false,
        }
    }

    fn halt(&mut self) -> (action: Action)
        ensures
            (final(self)@, action@) == old(self)@.halt(),
    {
        self.phase = Phase::Stopped;
        Action::Stop
    }

    fn intake(&mut self) -> (action: Action)
        ensures
            (final(self)@, action@) == old(self)@.intake(),
    {
        self.phase = Phase::Receiving;
        Action::Receive { blocking: self.stats.nodes >= self.options.max_nodes }
    }

    fn grow_or_intake(&mut self) -> (action: Action)
        ensures
            (final(self)@, action@) == old(self)@.grow_or_intake(),
    {
        if self.stats.nodes < self.options.max_nodes && self.stats.queued > 0 {
            self.phase = Phase::Growing;
            Action::Grow
        } else {
            self.intake()
        }
    }

    fn commit_or_grow(&mut self) -> (action: Action)
        ensures
            (final(self)@, action@) == old(self)@.commit_or_grow(),
    {
        if self.commit_requested && self.stats.nodes > self.options.min_nodes {
            self.phase = Phase::Committing;
            Action::Commit
        } else {
            self.grow_or_intake()
        }
    }

    fn on_command(&mut self, msg: BotMsg) -> (action: Action)
        ensures
            (final(self)@, action@) == old(self)@.on_command(msg),
    {
        match msg {
            BotMsg::NewPiece(piece) => {
                self.phase = Phase::Incorporating;
                Action::Incorporate(piece)
            },
            BotMsg::Reset { field, b2b, combo } => {
                self.phase = Phase::Rebuilding;
                Action::Rebuild { field, b2b, combo }
            },
            BotMsg::NextMove => {
                self.commit_requested = true;
                self.commit_or_grow()
            },
            BotMsg::PrepareNextMove => self.commit_or_grow(),
        }
    }

    fn on_ready(&mut self, child: BestChild, report: Info) -> (action: Action)
        ensures
            (final(self)@, action@) == old(self)@.on_ready(child@, report.deep_view()),
    {
        let considered = SearchStats {
            depth: child.depth,
            evaluation: child.evaluation,
            nodes: self.stats.nodes,
        };
        self.pending_info = Some(bot_info(report, Some(considered)));
        self.commit_requested = false;
        self.stats = child.stats;
        self.phase = Phase::SendingMove;
        Action::Send(
            BotResult::Move(
                Move {
                    hold: child.hold,
                    inputs: child.inputs,
                    expected_location: child.expected_location,
                },
            ),
        )
    }

    fn on_sent(&mut self, delivered: bool) -> (action: Action)
        requires
            old(self)@.wf(),
        ensures
            (final(self)@, action@) == old(self)@.on_sent(delivered),
    {
        match self.phase {
            Phase::Announcing => self.intake(),
            Phase::SendingMove => {
                let held = self.pending_info.take();
                match held {
                    Some(info) if delivered => {
                        self.phase = Phase::SendingInfo;
                        Action::Send(BotResult::BotInfo(info))
                    },
                    _ => self.halt(),
                }
            },
            _ => if delivered {
                self.grow_or_intake()
            } else {
                self.halt()
            },
        }
    }

    /// Takes in how the last action went and says what to do next.
    ///
    /// A move goes out only when a move was asked for and the structure held
    /// more nodes than the floor; growth is asked for only below the ceiling
    /// and with a piece to place.
    pub fn step(&mut self, event: Event) -> (action: Action)
        requires
            old(self)@.wf(),
            old(self)@.accepts(event@),
        ensures
            (final(self)@, action@) == old(self)@.next(event@),
            final(self)@.wf(),
            action@ matches ActionView::Send(BotResultView::Move(_)) ==> old(self)@.commit_requested
                && old(self)@.stats.nodes > old(self)@.options.min_nodes,
            action@ is Grow ==> final(self)@.stats.nodes < final(self)@.options.max_nodes
                && final(self)@.stats.queued > 0,
    {
        match event {
            Event::Command(msg) => self.on_command(msg),
            Event::Idle => self.commit_or_grow(),
            Event::Closed => self.halt(),
            Event::Incorporated { terminal, stats } => {
                self.stats = stats;
                if terminal {
                    self.halt()
                } else {
                    self.commit_or_grow()
                }
            },
            Event::Rebuilt { stats } => {
                self.stats = stats;
                self.commit_or_grow()
            },
            Event::Ready { child, report } => self.on_ready(child, report),
            Event::NotReady => self.grow_or_intake(),
            Event::Sent { delivered } => self.on_sent(delivered),
            Event::Grown { terminal, stats } => {
                self.stats = stats;
                if terminal {
                    self.halt()
                } else {
                    self.intake()
                }
            },
        }
    }
}

} // verus!
