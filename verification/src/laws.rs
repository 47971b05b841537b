//! What holds of the handle and of the worker over any course of events.

use vstd::prelude::*;
use crate::interface::{latest_move, InterfaceView};
use crate::moves::MoveView;
use crate::options::Options;
use crate::protocol::{BotMsg, BotResultView};
use crate::worker::{ActionView, EventView, Phase, TreeStats, WorkerView};

verus! {

/// One call on a handle.
pub enum InterfaceCall {
    /// `request_next_move`, `add_next_piece`, `reset` or
    /// `misa_prepare_next_move`, by the command that it queues.
    Enqueue(BotMsg),
    /// `take_outgoing`.
    TakeOutgoing,
    /// `mark_dead`.
    MarkDead,
    /// `poll_bot`.
    PollBot { received: Seq<BotResultView>, closed: bool },
    /// `poll_next_move`.
    PollNextMove,
}

impl InterfaceView {
    /// The handle after one call.
    pub open spec fn after(self, call: InterfaceCall) -> InterfaceView {
        match call {
            InterfaceCall::Enqueue(msg) => self.enqueued(msg),
            InterfaceCall::TakeOutgoing => self.flushed(),
            InterfaceCall::MarkDead => self.closed(),
            InterfaceCall::PollBot { received, closed } => self.fed(received, closed),
            InterfaceCall::PollNextMove => self.polled(),
        }
    }

    /// The handle after the calls, made in order.
    pub open spec fn after_all(self, calls: Seq<InterfaceCall>) -> InterfaceView
        decreases calls.len(),
    {
        if calls.len() == 0 {
            self
        } else {
            self.after_all(calls.drop_last()).after(calls.last())
        }
    }
}

/// Once a handle is dead it stays dead, whatever is called on it.
pub proof fn dead_is_forever(handle: InterfaceView, calls: Seq<InterfaceCall>)
    requires
        handle.dead,
    ensures
        handle.after_all(calls).dead,
    decreases calls.len(),
{
    if calls.len() > 0 {
        dead_is_forever(handle, calls.drop_last());
    }
}

/// A dead handle takes in no result and queues no command: whatever is
/// called on it, only the move that was pending at its death can still leave.
pub proof fn dead_handle_is_inert(handle: InterfaceView, call: InterfaceCall)
    requires
        handle.wf(),
        handle.dead,
    ensures
        handle.after(call) == (if call is PollNextMove {
            handle.polled()
        } else {
            handle
        }),
{
    assert(handle.outgoing =~= Seq::empty());
}

/// A handle that starts fresh never holds a command to send once it is dead.
pub proof fn handle_stays_well_formed(calls: Seq<InterfaceCall>)
    ensures
        InterfaceView::fresh().after_all(calls).wf(),
    decreases calls.len(),
{
    if calls.len() > 0 {
        handle_stays_well_formed(calls.drop_last());
    }
}

/// Commands leave a live handle in the order in which they were queued,
/// behind those that were waiting already.
pub proof fn commands_leave_in_order(handle: InterfaceView, commands: Seq<BotMsg>)
    requires
        !handle.dead,
    ensures
        handle.after_all(commands.map_values(|msg: BotMsg| InterfaceCall::Enqueue(msg)))
            == (InterfaceView { outgoing: handle.outgoing + commands, ..handle }),
    decreases commands.len(),
{
    let calls = commands.map_values(|msg: BotMsg| InterfaceCall::Enqueue(msg));
    if commands.len() == 0 {
        assert(handle.outgoing + commands =~= handle.outgoing);
    } else {
        let earlier = commands.drop_last();
        commands_leave_in_order(handle, earlier);
        assert(calls.drop_last() =~= earlier.map_values(|msg: BotMsg| InterfaceCall::Enqueue(msg)));
        assert((handle.outgoing + earlier).push(commands.last()) =~= handle.outgoing + commands);
    }
}

/// Results may come in one lot or in two: what remains pending is the same.
pub proof fn latest_move_of_two_lots(
    pending: Option<MoveView>,
    first: Seq<BotResultView>,
    second: Seq<BotResultView>,
)
    ensures
        latest_move(latest_move(pending, first), second) == latest_move(pending, first + second),
    decreases second.len(),
{
    if second.len() > 0 {
        assert((first + second).drop_last() =~= first + second.drop_last());
        latest_move_of_two_lots(pending, first, second.drop_last());
    }
}

/// Feeding a handle in two parts is feeding it the whole: a later move
/// overwrites an earlier one across calls as it does within one.
pub proof fn feeding_in_parts(
    handle: InterfaceView,
    first: Seq<BotResultView>,
    second: Seq<BotResultView>,
    closed: bool,
)
    ensures
        handle.fed(first, false).fed(second, closed) == handle.fed(first + second, closed),
{
    latest_move_of_two_lots(handle.pending, first, second);
}

/// A move is handed out once: after `poll_next_move` nothing is pending, a
/// second call in a row changes nothing, and so it is as long as the worker
/// sends no new move.
pub proof fn move_is_handed_out_once(handle: InterfaceView)
    ensures
        handle.polled().pending is None,
        handle.polled().polled() == handle.polled(),
        handle.polled().fed(Seq::empty(), false).pending is None,
{
}

impl WorkerView {
    /// The worker after the events, taken in order.
    pub open spec fn run(self, events: Seq<EventView>) -> WorkerView
        decreases events.len(),
    {
        if events.len() == 0 {
            self
        } else {
            self.run(events.drop_last()).next(events.last()).0
        }
    }

    /// Each of the events answers the action that the worker asked for just
    /// before it.
    pub open spec fn legal(self, events: Seq<EventView>) -> bool
        decreases events.len(),
    {
        events.len() == 0 || (self.legal(events.drop_last()) && self.run(
            events.drop_last(),
        ).accepts(events.last()))
    }

    /// The event tells of a structure that holds no fewer nodes than the
    /// worker last saw, where it tells of the same structure: taking in a
    /// piece and growing never shrink it.
    pub open spec fn sees_no_loss(self, event: EventView) -> bool {
        match event {
            EventView::Incorporated { stats, .. } => stats.nodes >= self.stats.nodes,
            EventView::Grown { stats, .. } => stats.nodes >= self.stats.nodes,
            _ => true,
        }
    }

    /// [`WorkerView::sees_no_loss`] of each event in its turn.
    pub open spec fn sees_no_loss_along(self, events: Seq<EventView>) -> bool
        decreases events.len(),
    {
        events.len() == 0 || (self.sees_no_loss_along(events.drop_last()) && self.run(
            events.drop_last(),
        ).sees_no_loss(events.last()))
    }

    /// No piece is known to place and the structure holds no more nodes than
    /// the floor, while the worker is between the parts of a round or has a
    /// rebuild under way.
    pub open spec fn starved(self) -> bool {
        &&& self.stats.queued == 0
        &&& self.stats.nodes <= self.options.min_nodes
        &&& self.pending_info is None
        &&& (self.phase == Phase::Announcing || self.phase == Phase::Receiving || self.phase
            == Phase::Rebuilding || self.phase == Phase::Stopped)
    }

    /// The event brings neither a piece nor a structure that knows one or
    /// holds more nodes than the floor.
    pub open spec fn brings_nothing_to_place(self, event: EventView) -> bool {
        match event {
            EventView::Command(msg) => !(msg is NewPiece),
            EventView::Rebuilt { stats } => stats.queued == 0 && stats.nodes
                <= self.options.min_nodes,
            _ => true,
        }
    }
}

/// The event gives the worker another structure: a rebuilt one, or the
/// subtree of a committed child.
pub open spec fn replaces_structure(event: EventView) -> bool {
    event is Rebuilt || event is Ready
}

/// The action touches neither the search nor the result channel: the worker
/// asks for a command, for the rebuild that a command called for, or ends.
pub open spec fn only_listens(action: ActionView) -> bool {
    action is Receive || action is Rebuild || action is Stop
}

/// The advisory command.
pub open spec fn is_hint(event: EventView) -> bool {
    event matches EventView::Command(msg) && msg is PrepareNextMove
}

/// The events with an empty intake in place of each advisory command.
pub open spec fn without_hints(events: Seq<EventView>) -> Seq<EventView> {
    events.map_values(
        |event: EventView|
            if is_hint(event) {
                EventView::Idle
            } else {
                event
            },
    )
}

/// The worker's options never change.
pub proof fn options_are_fixed(worker: WorkerView, events: Seq<EventView>)
    ensures
        worker.run(events).options == worker.options,
    decreases events.len(),
{
    if events.len() > 0 {
        options_are_fixed(worker, events.drop_last());
    }
}

/// One step keeps a worker well formed.
pub proof fn step_keeps_well_formed(worker: WorkerView, event: EventView)
    requires
        worker.wf(),
    ensures
        worker.next(event).0.wf(),
{
}

/// Every state that a worker reaches is well formed.
pub proof fn run_keeps_well_formed(worker: WorkerView, events: Seq<EventView>)
    requires
        worker.wf(),
    ensures
        worker.run(events).wf(),
    decreases events.len(),
{
    if events.len() > 0 {
        run_keeps_well_formed(worker, events.drop_last());
        step_keeps_well_formed(worker.run(events.drop_last()), events.last());
    }
}

/// The intake of a command waits exactly when the structure is at its
/// ceiling: the choice goes by the node count, and by nothing else.
pub proof fn intake_waits_exactly_at_the_ceiling(worker: WorkerView, event: EventView)
    requires
        worker.accepts(event),
    ensures
        (worker.next(event).1 matches ActionView::Receive { blocking } ==> blocking
            == worker.next(event).0.at_ceiling()),
{
}

/// The worker ends when the control channel is closed, when the structure
/// finds every future lost on taking in a piece or on growing, and when a
/// move or the report after it finds no taker; and it ends for no other
/// reason.
pub proof fn worker_ends_for_three_reasons_only(worker: WorkerView, event: EventView)
    requires
        worker.accepts(event),
    ensures
        worker.next(event).1 is Stop <==> ({
            ||| event is Closed
            ||| event matches EventView::Incorporated { terminal, .. } && terminal
            ||| event matches EventView::Grown { terminal, .. } && terminal
            ||| event matches EventView::Sent { delivered } && !delivered && worker.phase
                != Phase::Announcing
        }),
        worker.next(event).1 is Stop <==> worker.next(event).0.phase == Phase::Stopped,
{
}

/// Between two replacements of the structure the node count never falls.
/// The worker itself never lowers it: over any course of events of which
/// none replaces the structure, and in which the structure tells of no loss
/// when it takes in a piece or grows, the worker ends with at least the
/// count that it began with.
pub proof fn node_count_never_falls(worker: WorkerView, events: Seq<EventView>)
    requires
        worker.legal(events),
        worker.sees_no_loss_along(events),
        forall|i: int| 0 <= i < events.len() ==> !replaces_structure(#[trigger] events[i]),
    ensures
        worker.run(events).stats.nodes >= worker.stats.nodes,
    decreases events.len(),
{
    if events.len() > 0 {
        node_count_never_falls(worker, events.drop_last());
    }
}

/// The node count starts from a fresh baseline exactly when the structure is
/// replaced: the worker then holds what the new structure reads, and at any
/// other event it holds on to its count unless the event tells of the
/// structure itself.
pub proof fn baseline_is_fresh_at_replacement(worker: WorkerView, event: EventView)
    requires
        worker.accepts(event),
    ensures
        (event matches EventView::Rebuilt { stats } ==> worker.next(event).0.stats == stats),
        (event matches EventView::Ready { child, .. } ==> worker.next(event).0.stats
            == child.stats),
        !replaces_structure(event) && !(event is Incorporated) && !(event is Grown)
            ==> worker.next(event).0.stats == worker.stats,
{
}

/// The structure is replaced at a reset and at a commit, and at no other
/// time: a rebuild is asked for exactly when a reset command is taken, and
/// only the answers to a rebuild and to a commit attempt are taken for a new
/// structure.
pub proof fn replaced_only_at_reset_and_commit(worker: WorkerView, event: EventView)
    requires
        worker.accepts(event),
    ensures
        worker.next(event).1 is Rebuild <==> (event matches EventView::Command(msg) && msg is Reset),
        worker.next(event).0.phase == Phase::Rebuilding <==> worker.next(event).1 is Rebuild,
        event is Rebuilt ==> worker.phase == Phase::Rebuilding,
        event is Ready ==> worker.phase == Phase::Committing,
{
}

/// No move goes out while the structure holds no more nodes than the floor,
/// in any state that a worker can reach; nor is a commit asked for then.
pub proof fn no_move_at_or_below_floor(
    options: Options,
    stats: TreeStats,
    events: Seq<EventView>,
    event: EventView,
)
    requires
        WorkerView::initial(options, stats).legal(events),
        WorkerView::initial(options, stats).run(events).accepts(event),
    ensures
        ({
            let reached = WorkerView::initial(options, stats).run(events);
            let (after, action) = reached.next(event);
            &&& action matches ActionView::Send(BotResultView::Move(_)) ==> reached.commit_requested
                && reached.stats.nodes > options.min_nodes
            &&& action is Commit ==> after.commit_requested && after.stats.nodes
                > options.min_nodes
        }),
{
    let start = WorkerView::initial(options, stats);
    run_keeps_well_formed(start, events);
    options_are_fixed(start, events);
}

/// Growth is asked for only below the ceiling and with a piece to place.
pub proof fn growth_needs_room_and_a_piece(worker: WorkerView, event: EventView)
    requires
        worker.accepts(event),
        worker.next(event).1 is Grow,
    ensures
        worker.next(event).0.stats.nodes < worker.options.max_nodes,
        worker.next(event).0.stats.queued > 0,
{
}

/// As long as no piece is known and the structure holds no more nodes than
/// the floor, no move goes out, whatever else is asked of the worker: it
/// asks for no growth and no commit, only for commands and for the rebuilds
/// that they call for, and it stays as starved as it was.
pub proof fn starved_worker_only_listens(worker: WorkerView, events: Seq<EventView>)
    requires
        worker.starved(),
        worker.legal(events),
        forall|i: int|
            0 <= i < events.len() ==> worker.brings_nothing_to_place(#[trigger] events[i]),
    ensures
        worker.run(events).starved(),
        forall|i: int|
            0 <= i < events.len() ==> only_listens(
                #[trigger] worker.run(events.take(i)).next(events[i]).1,
            ),
    decreases events.len(),
{
    if events.len() > 0 {
        let before = events.drop_last();
        let last = events.len() - 1;
        starved_worker_only_listens(worker, before);
        options_are_fixed(worker, before);
        assert forall|i: int| 0 <= i < events.len() implies only_listens(
            #[trigger] worker.run(events.take(i)).next(events[i]).1,
        ) by {
            if i < last {
                assert(events.take(i) =~= before.take(i));
                assert(events[i] == before[i]);
            } else {
                assert(events.take(i) =~= before);
            }
        }
    }
}

/// The advisory command changes nothing: what was requested, what the
/// structure reads and what is held back stay as they were, and nothing is
/// sent. Below the ceiling the worker goes on exactly as after an intake
/// that found no command. At the ceiling, unless a request waits that the
/// structure could serve, it goes back to waiting as it was.
pub proof fn prepare_next_move_is_inert(worker: WorkerView)
    requires
        worker.phase == Phase::Receiving,
    ensures
        ({
            let (after, action) = worker.next(EventView::Command(BotMsg::PrepareNextMove));
            &&& !worker.at_ceiling() ==> (after, action) == worker.next(EventView::Idle)
            &&& worker.at_ceiling() && !(worker.commit_requested && worker.stats.nodes
                > worker.options.min_nodes) ==> after == worker && action
                == (ActionView::Receive { blocking: true })
            &&& after.commit_requested == worker.commit_requested
            &&& after.stats == worker.stats
            &&& after.options == worker.options
            &&& after.pending_info == worker.pending_info
            &&& !(action is Send)
        }),
{
}

/// Advisory commands taken below the ceiling are empty intakes: with each
/// of them replaced by an intake that found nothing, the worker asks for the
/// same actions and passes through the same states.
pub proof fn hints_are_empty_intakes(worker: WorkerView, events: Seq<EventView>)
    requires
        worker.legal(events),
        forall|i: int|
            0 <= i < events.len() && is_hint(#[trigger] events[i]) ==> !worker.run(
                events.take(i),
            ).at_ceiling(),
    ensures
        worker.legal(without_hints(events)),
        worker.run(without_hints(events)) == worker.run(events),
        forall|i: int|
            0 <= i < events.len() ==> #[trigger] worker.run(without_hints(events).take(i)).next(
                without_hints(events)[i],
            ) == worker.run(events.take(i)).next(events[i]),
    decreases events.len(),
{
    if events.len() > 0 {
        let before = events.drop_last();
        let last = events.len() - 1;
        let plain = without_hints(events);
        assert(plain.drop_last() =~= without_hints(before));
        assert forall|i: int| 0 <= i < before.len() && is_hint(#[trigger] before[i]) implies
            !worker.run(before.take(i)).at_ceiling() by {
            assert(before.take(i) =~= events.take(i));
        }
        hints_are_empty_intakes(worker, before);
        let reached = worker.run(before);
        assert(reached.accepts(plain[last]) && reached.next(plain[last]) == reached.next(
            events[last],
        ));
        assert forall|i: int| 0 <= i < events.len() implies #[trigger] worker.run(
            plain.take(i),
        ).next(plain[i]) == worker.run(events.take(i)).next(events[i]) by {
            if i < last {
                assert(plain.take(i) =~= without_hints(before).take(i));
                assert(plain[i] == without_hints(before)[i]);
                assert(events.take(i) =~= before.take(i));
            } else {
                assert(plain.take(i) =~= without_hints(before));
                assert(events.take(i) =~= before);
            }
        }
    }
}

/// Any number of advisory commands leave a worker that waits at the ceiling
/// as it was, unless a request waits that the structure could serve: after
/// each of them the worker is back in the same state, waiting.
pub proof fn hints_at_the_ceiling_change_nothing(worker: WorkerView, count: nat)
    requires
        worker.phase == Phase::Receiving,
        worker.at_ceiling(),
        !(worker.commit_requested && worker.stats.nodes > worker.options.min_nodes),
    ensures
        ({
            let hints = Seq::new(count, |i: int| EventView::Command(BotMsg::PrepareNextMove));
            &&& worker.legal(hints)
            &&& worker.run(hints) == worker
            &&& forall|i: int|
                0 <= i < count ==> #[trigger] worker.run(hints.take(i)).next(hints[i]) == (
                    worker,
                    ActionView::Receive { blocking: true },
                )
        }),
    decreases count,
{
    let hints = Seq::new(count, |i: int| EventView::Command(BotMsg::PrepareNextMove));
    if count > 0 {
        let fewer = Seq::new((count - 1) as nat, |i: int|
            EventView::Command(BotMsg::PrepareNextMove));
        hints_at_the_ceiling_change_nothing(worker, (count - 1) as nat);
        assert(hints.drop_last() =~= fewer);
        assert forall|i: int| 0 <= i < count implies #[trigger] worker.run(hints.take(i)).next(
            hints[i],
        ) == (worker, ActionView::Receive { blocking: true }) by {
            if i < count - 1 {
                assert(hints.take(i) =~= fewer.take(i));
                assert(hints[i] == fewer[i]);
            } else {
                assert(hints.take(i) =~= fewer);
            }
        }
    }
}

} // verus!
