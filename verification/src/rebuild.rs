//! Swapping the chain behind an element's permanent anchor.
//!
//! The element's ghost pad always leads to the anchor, and only the chain behind the anchor
//! changes. A swap blocks the anchor's chain-side pad, takes the old chain out, puts the new
//! one in, brings it to the element's state and unblocks the pad. Whatever fails after the
//! pad was blocked, it is unblocked in the end: a stuck probe with no chain behind it is a
//! worse failure than a partially completed rebuild.

use crate::text::same_text;
use vstd::prelude::*;

verus! {

/// The direction of the element's ghost pad.
#[derive(Debug, Clone, Copy, PartialEq, Eq, Structural)]
pub enum Direction {
    Sink,
    Src,
}

/// The anchor's pad on the side of the chain: a sender's chain lies behind its `src` pad, a
/// receiver's in front of its `sink` pad.
pub open spec fn chain_side_pad(direction: Direction) -> Seq<char> {
    match direction {
        Direction::Sink => "src"@,
        Direction::Src => "sink"@,
    }
}

/// The anchor's pad on the side of the chain, which is blocked, unlinked and linked.
pub fn link_pad_name(direction: Direction) -> (r: &'static str)
    ensures
        r@ == chain_side_pad(direction),
{
    match direction {
        Direction::Sink => "src",
        Direction::Src => "sink",
    }
}

/// The anchor's pad that the ghost pad leads to.
pub open spec fn outer_pad(direction: Direction) -> Seq<char> {
    match direction {
        Direction::Sink => "sink"@,
        Direction::Src => "src"@,
    }
}

/// The anchor's pad that the ghost pad leads to.
pub fn outer_pad_name(direction: Direction) -> (r: &'static str)
    ensures
        r@ == match direction {
            Direction::Sink => "sink"@,
            Direction::Src => "src"@,
        },
        r@ == outer_pad(direction),
{
    match direction {
        Direction::Sink => "sink",
        Direction::Src => "src",
    }
}

/// Whether the element that the ghost pad leads to is the anchor.
pub fn is_anchor(name: Option<&str>) -> (r: bool)
    ensures
        r == (name matches Some(n) && n@ == "anchor"@),
{
    match name {
        Some(n) => same_text(n, "anchor"),
        None => false,
    }
}

// ---- states -----------------------------------------------------------------

/// The state of an element.
#[derive(Debug, Clone, Copy, PartialEq, Eq, Structural)]
pub enum State {
    VoidPending,
    Null,
    Ready,
    Paused,
    Playing,
}

/// What a state change came to.
#[derive(Debug, Clone, Copy, PartialEq, Eq, Structural)]
pub enum StateChange {
    Success,
    NoPreroll,
    /// Still under way when the wait was over.
    Async,
    Failed,
}

/// The state that an element in `current` with `pending` to come is heading for.
pub open spec fn target_state(current: State, pending: State) -> State {
    if pending == State::VoidPending {
        current
    } else {
        pending
    }
}

/// A chain whose state changed so came up.
pub open spec fn came_up(change: StateChange) -> bool {
    change == StateChange::Success || change == StateChange::NoPreroll
}

/// The state that an element is heading for: its pending state if a transition is in
/// flight, otherwise its current state.
pub fn parent_target_state(current: State, pending: State) -> (r: State)
    ensures
        r == if pending == State::VoidPending {
            current
        } else {
            pending
        },
        r == target_state(current, pending),
{
    if pending == State::VoidPending {
        current
    } else {
        pending
    }
}

/// Whether the new chain came up. A chain that settled in another state than the element's
/// is pulled along on the next transition, and counts as up.
pub fn wait_for_chain_state(change: StateChange) -> (r: bool)
    ensures
        r == (change == StateChange::Success || change == StateChange::NoPreroll),
        r == came_up(change),
{
    match change {
        StateChange::Success => true,
        StateChange::NoPreroll => true,
        StateChange::Async => false,
        StateChange::Failed => false,
    }
}

// ---- the swap ---------------------------------------------------------------

/// What is being done in a swap.
#[derive(Debug, Clone, Copy, PartialEq, Eq, Structural)]
pub enum RebuildStep {
    /// Find the anchor behind the ghost pad, and its pad on the side of the chain.
    Locate,
    /// Block that pad and wait until it is idle.
    Block,
    /// Unlink the old chain from the anchor.
    Unlink,
    /// Stop the old chain and take it out.
    Remove,
    /// Put the new chain in.
    Add,
    /// Link the new chain to the anchor.
    Link,
    /// Bring the new chain to the element's state.
    Sync,
    /// Wait until it has come up.
    Await,
    /// Unblock the pad; the swap has failed if so noted.
    Unblock { failed: bool },
    /// The swap is over.
    Finished { failed: bool },
}

/// What came of a step.
#[derive(Debug, Clone, Copy, PartialEq, Eq, Structural)]
pub enum RebuildEvent {
    Done,
    /// There is no chain to unlink: an earlier swap failed half-way.
    NothingLinked,
    Failed,
    Settled(StateChange),
}

impl RebuildStep {
    /// The pad is blocked while this step is being done.
    pub open spec fn blocked(self) -> bool {
        match self {
            RebuildStep::Locate => false,
            RebuildStep::Block => false,
            RebuildStep::Finished { .. } => false,
            _ => true,
        }
    }

    /// How many steps may still come.
    pub open spec fn remaining(self) -> nat {
        match self {
            RebuildStep::Locate => 9,
            RebuildStep::Block => 8,
            RebuildStep::Unlink => 7,
            RebuildStep::Remove => 6,
            RebuildStep::Add => 5,
            RebuildStep::Link => 4,
            RebuildStep::Sync => 3,
            RebuildStep::Await => 2,
            RebuildStep::Unblock { .. } => 1,
            RebuildStep::Finished { .. } => 0,
        }
    }

    /// The step after one that succeeded.
    pub open spec fn following(self) -> RebuildStep {
        match self {
            RebuildStep::Locate => RebuildStep::Block,
            RebuildStep::Block => RebuildStep::Unlink,
            RebuildStep::Unlink => RebuildStep::Remove,
            RebuildStep::Remove => RebuildStep::Add,
            RebuildStep::Add => RebuildStep::Link,
            RebuildStep::Link => RebuildStep::Sync,
            RebuildStep::Sync => RebuildStep::Await,
            RebuildStep::Await => RebuildStep::Unblock { failed: false },
            RebuildStep::Unblock { failed } => RebuildStep::Finished { failed },
            RebuildStep::Finished { failed } => RebuildStep::Finished { failed },
        }
    }

    /// The step after one that failed: the pad is unblocked where it was blocked. That a
    /// pad cannot be unblocked does not change how the swap went.
    pub open spec fn after_failure(self) -> RebuildStep {
        match self {
            RebuildStep::Locate => RebuildStep::Finished { failed: true },
            RebuildStep::Block => RebuildStep::Finished { failed: true },
            RebuildStep::Unblock { failed } => RebuildStep::Finished { failed },
            RebuildStep::Finished { failed } => RebuildStep::Finished { failed },
            _ => RebuildStep::Unblock { failed: true },
        }
    }

    /// The step that follows what came of this one.
    pub open spec fn after(self, event: RebuildEvent) -> RebuildStep {
        match event {
            RebuildEvent::Failed => self.after_failure(),
            RebuildEvent::NothingLinked => if self == RebuildStep::Unlink {
                RebuildStep::Add
            } else {
                self.following()
            },
            RebuildEvent::Settled(change) => if self == RebuildStep::Await && change
                != StateChange::Success && change != StateChange::NoPreroll {
                self.after_failure()
            } else {
                self.following()
            },
            RebuildEvent::Done => self.following(),
        }
    }

    fn next(self) -> (r: RebuildStep)
        ensures
            r == self.following(),
    {
        match self {
            RebuildStep::Locate => RebuildStep::Block,
            RebuildStep::Block => RebuildStep::Unlink,
            RebuildStep::Unlink => RebuildStep::Remove,
            RebuildStep::Remove => RebuildStep::Add,
            RebuildStep::Add => RebuildStep::Link,
            RebuildStep::Link => RebuildStep::Sync,
            RebuildStep::Sync => RebuildStep::Await,
            RebuildStep::Await => RebuildStep::Unblock { failed: false },
            RebuildStep::Unblock { failed } => RebuildStep::Finished { failed },
            RebuildStep::Finished { failed } => RebuildStep::Finished { failed },
        }
    }

    fn abandon(self) -> (r: RebuildStep)
        ensures
            r == self.after_failure(),
    {
        match self {
            RebuildStep::Locate => RebuildStep::Finished { failed: true },
            RebuildStep::Block => RebuildStep::Finished { failed: true },
            RebuildStep::Unblock { failed } => RebuildStep::Finished { failed },
            RebuildStep::Finished { failed } => RebuildStep::Finished { failed },
            _ => RebuildStep::Unblock { failed: true },
        }
    }

    /// The step that follows what came of this one.
    pub fn advance(self, event: RebuildEvent) -> (r: RebuildStep)
        ensures
            r == self.after(event),
    {
        match event {
            RebuildEvent::Failed => self.abandon(),
            RebuildEvent::NothingLinked => if self == RebuildStep::Unlink {
                RebuildStep::Add
            } else {
                self.next()
            },
            RebuildEvent::Settled(change) => if self == RebuildStep::Await
                && !wait_for_chain_state(change) {
                self.abandon()
            } else {
                self.next()
            },
            RebuildEvent::Done => self.next(),
        }
    }
}

/// Where a swap stands after a run of events.
pub open spec fn rebuild_after(events: Seq<RebuildEvent>) -> RebuildStep
    decreases events.len(),
{
    if events.len() == 0 {
        RebuildStep::Locate
    } else {
        rebuild_after(events.drop_last()).after(events.last())
    }
}

/// A pad that was blocked is always unblocked: a step during which it is blocked is
/// followed by another such step, or is the one that unblocks it.
pub proof fn blocked_pad_is_unblocked(step: RebuildStep, event: RebuildEvent)
    requires
        step.blocked(),
    ensures
        step.after(event).blocked() || step is Unblock,
{
}

/// A swap comes to an end: each event leaves fewer steps to come.
pub proof fn rebuild_ends(step: RebuildStep, event: RebuildEvent)
    requires
        !(step is Finished),
    ensures
        step.after(event).remaining() < step.remaining(),
{
}

/// Whether a list of events holds a failure of a step.
pub open spec fn holds_failure(events: Seq<RebuildEvent>) -> bool {
    exists|i: int|
        0 <= i < events.len() && rebuild_after(events.take(i)).after(#[trigger] events[i])
            == rebuild_after(events.take(i)).after_failure() && !(rebuild_after(
            events.take(i),
        ) is Unblock) && !(rebuild_after(events.take(i)) is Finished)
}

/// A swap counts as a success only if every step of it succeeded.
pub proof fn success_means_no_failure(events: Seq<RebuildEvent>)
    ensures
        rebuild_after(events) == (RebuildStep::Finished { failed: false }) || rebuild_after(events)
            == (RebuildStep::Unblock { failed: false }) ==> !holds_failure(events),
        holds_failure(events) ==> rebuild_after(events) == (RebuildStep::Finished { failed: true })
            || rebuild_after(events) == (RebuildStep::Unblock { failed: true }),
    decreases events.len(),
{
    if events.len() > 0 {
        let front = events.drop_last();
        success_means_no_failure(front);
        if holds_failure(events) {
            let i = choose|i: int|
                0 <= i < events.len() && rebuild_after(events.take(i)).after(#[trigger] events[i])
                    == rebuild_after(events.take(i)).after_failure() && !(rebuild_after(
                    events.take(i),
                ) is Unblock) && !(rebuild_after(events.take(i)) is Finished);
            if i < front.len() {
                assert(front.take(i) =~= events.take(i));
                assert(front[i] == events[i]);
                assert(holds_failure(front));
            } else {
                assert(events.take(i) =~= front);
            }
        }
    }
}

/// A swap goes in order: the old chain is unlinked before it is taken out, it is out before the
/// new one is put in, and that is linked before it is brought up. The swap succeeds only where
/// the new chain has come up, and only a blocked pad is worked on.
pub proof fn swap_goes_in_order(step: RebuildStep, event: RebuildEvent)
    ensures
        step.after(event) == RebuildStep::Block ==> step == RebuildStep::Locate,
        step.after(event) == RebuildStep::Unlink ==> step == RebuildStep::Block,
        step.after(event) == RebuildStep::Remove ==> step == RebuildStep::Unlink && event
            != RebuildEvent::NothingLinked,
        step.after(event) == RebuildStep::Add ==> step == RebuildStep::Remove || (step
            == RebuildStep::Unlink && event == RebuildEvent::NothingLinked),
        step.after(event) == RebuildStep::Link ==> step == RebuildStep::Add,
        step.after(event) == RebuildStep::Sync ==> step == RebuildStep::Link,
        step.after(event) == RebuildStep::Await ==> step == RebuildStep::Sync,
        step.after(event) == (RebuildStep::Unblock { failed: false }) ==> step
            == RebuildStep::Await && event != RebuildEvent::Failed && event
            != RebuildEvent::Settled(StateChange::Failed) && event != RebuildEvent::Settled(
            StateChange::Async,
        ),
        step.after(event) == (RebuildStep::Finished { failed: false }) ==> step
            == (RebuildStep::Unblock { failed: false }) || step == (RebuildStep::Finished {
            failed: false,
        }),
        event == RebuildEvent::Failed && !(step is Unblock) && !(step is Finished) ==> step.after(
            event,
        ) == (RebuildStep::Finished { failed: true }) || step.after(event) == (
        RebuildStep::Unblock { failed: true }),
        step == RebuildStep::Await && event == RebuildEvent::Settled(StateChange::Success)
            ==> step.after(event) == (RebuildStep::Unblock { failed: false }),
{
}

/// The ghost pad leads to the anchor's pad of its own direction, and the chain is linked to the
/// other one: what goes in at one pad of the anchor comes out at the other.
pub proof fn chain_is_beyond_the_anchor(a: Direction, b: Direction)
    ensures
        outer_pad(Direction::Sink) == "sink"@,
        outer_pad(Direction::Src) == "src"@,
        chain_side_pad(a) != outer_pad(a),
        a != b ==> chain_side_pad(a) == outer_pad(b),
{
    reveal_strlit("sink");
    reveal_strlit("src");
    assert("sink"@.len() == 4 && "src"@.len() == 3);
}

/// A live chain, which does not preroll, has arrived as one that does; one that has not arrived
/// when the wait is over has failed. Before the wait nothing depends on how the state changed.
pub proof fn live_chains_arrive_too(step: RebuildStep)
    ensures
        step.after(RebuildEvent::Settled(StateChange::NoPreroll)) == step.after(
            RebuildEvent::Settled(StateChange::Success),
        ),
        step.after(RebuildEvent::Settled(StateChange::Success)) == step.after(RebuildEvent::Done),
        step.after(RebuildEvent::Settled(StateChange::Async)) == step.after(
            RebuildEvent::Settled(StateChange::Failed),
        ),
        step == RebuildStep::Await ==> step.after(RebuildEvent::Settled(StateChange::Failed))
            == step.after(RebuildEvent::Failed) && step.after(RebuildEvent::Failed) != step.after(
            RebuildEvent::Done,
        ),
        step != RebuildStep::Await ==> step.after(RebuildEvent::Settled(StateChange::Failed))
            == step.after(RebuildEvent::Done),
{
}

/// Where nothing is linked there is nothing to remove, and the new chain is added at once: a
/// swap then leaves out exactly the removal.
pub proof fn nothing_linked_nothing_removed(step: RebuildStep)
    ensures
        step == RebuildStep::Unlink ==> step.after(RebuildEvent::NothingLinked) == step.after(
            RebuildEvent::Done,
        ).after(RebuildEvent::Done),
        step != RebuildStep::Unlink ==> step.after(RebuildEvent::NothingLinked) == step.after(
            RebuildEvent::Done,
        ),
{
}

/// A chain came up where waiting for it ends the swap without a failure.
pub proof fn swaps_succeed_where_chains_come_up(change: StateChange)
    ensures
        came_up(change) <==> RebuildStep::Await.after(RebuildEvent::Settled(change)) == (
        RebuildStep::Unblock { failed: false }),
        !came_up(change) <==> RebuildStep::Await.after(RebuildEvent::Settled(change)) == (
        RebuildStep::Unblock { failed: true }),
        came_up(change) <==> change != StateChange::Async && change != StateChange::Failed,
{
}

/// An element in transition is heading for where the transition leads, one at rest for where it
/// is: never for nowhere, unless it is nowhere.
pub proof fn elements_head_somewhere(current: State, pending: State)
    ensures
        target_state(current, State::VoidPending) == current,
        pending != State::VoidPending ==> target_state(current, pending) == pending,
        target_state(current, pending) == State::VoidPending ==> current == State::VoidPending,
{
}

} // verus!
