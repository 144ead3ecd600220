//! What the elements do around their parent's change of state.

use crate::text::{joined, says, says_at};
use vstd::prelude::*;

verus! {

#[derive(Debug, Clone, Copy, PartialEq, Eq, Structural)]
pub enum NmosElement {
    Sink,
    Src,
    ChannelMap,
}

#[derive(Debug, Clone, Copy, PartialEq, Eq, Structural)]
pub enum Transition {
    NullToReady,
    ReadyToPaused,
    ReadyToNull,
    Other,
}

#[derive(Debug, Clone, Copy, PartialEq, Eq, Structural)]
pub enum ChangeStep {
    OpenSession,
    /// Let no pads of a channel map be requested or released any more.
    FreezePads,
    /// Install the chain that opening the session came to.
    InstallChain,
    /// Pin the fake chain to the caps of the peer, for a sender that waits for them.
    PinFakeChain,
    /// Let the parent change its state.
    ChangeParent,
    /// Add the sender that waited for caps.
    AddDeferredSender,
    /// Settle the pads of a channel map and build its graph.
    Fixate,
    /// Bring the graph to the state of its parent.
    SyncGraph,
    TearDownGraph,
    CloseSession,
    RestoreFakeChain,
    /// Let pads of a channel map be requested and released again.
    ThawPads,
}

/// The steps of a transition, in order.
pub open spec fn steps_of(element: NmosElement, transition: Transition, fixated: bool) -> Seq<
    ChangeStep,
> {
    match (transition, element) {
        (Transition::NullToReady, NmosElement::ChannelMap) => seq![
            ChangeStep::OpenSession,
            ChangeStep::ChangeParent,
            ChangeStep::FreezePads,
        ],
        (Transition::NullToReady, _) => seq![
            ChangeStep::OpenSession,
            ChangeStep::InstallChain,
            ChangeStep::ChangeParent,
        ],
        (Transition::ReadyToPaused, NmosElement::Sink) => seq![
            ChangeStep::PinFakeChain,
            ChangeStep::ChangeParent,
            ChangeStep::AddDeferredSender,
        ],
        (Transition::ReadyToPaused, NmosElement::ChannelMap) => if fixated {
            seq![ChangeStep::ChangeParent, ChangeStep::SyncGraph]
        } else {
            seq![ChangeStep::ChangeParent, ChangeStep::Fixate, ChangeStep::SyncGraph]
        },
        (Transition::ReadyToNull, NmosElement::ChannelMap) => seq![
            ChangeStep::TearDownGraph,
            ChangeStep::CloseSession,
            ChangeStep::ThawPads,
            ChangeStep::ChangeParent,
        ],
        (Transition::ReadyToNull, _) => seq![
            ChangeStep::CloseSession,
            ChangeStep::RestoreFakeChain,
            ChangeStep::ChangeParent,
        ],
        _ => seq![ChangeStep::ChangeParent],
    }
}

/// The steps that an element takes for a transition, in order; the first that fails ends
/// the transition. `fixated` says whether a channel map's pads are settled.
pub fn change_steps(element: NmosElement, transition: Transition, fixated: bool) -> (r: Vec<
    ChangeStep,
>)
    ensures
        r@ == steps_of(element, transition, fixated),
{
    let steps: Vec<ChangeStep> = match transition {
        Transition::NullToReady => if element == NmosElement::ChannelMap {
            vec![ChangeStep::OpenSession, ChangeStep::ChangeParent, ChangeStep::FreezePads]
        } else {
            vec![ChangeStep::OpenSession, ChangeStep::InstallChain, ChangeStep::ChangeParent]
        },
        Transition::ReadyToPaused => match element {
            NmosElement::Sink => vec![
                ChangeStep::PinFakeChain,
                ChangeStep::ChangeParent,
                ChangeStep::AddDeferredSender,
            ],
            NmosElement::ChannelMap => if fixated {
                vec![ChangeStep::ChangeParent, ChangeStep::SyncGraph]
            } else {
                vec![ChangeStep::ChangeParent, ChangeStep::Fixate, ChangeStep::SyncGraph]
            },
            NmosElement::Src => vec![ChangeStep::ChangeParent],
        },
        Transition::ReadyToNull => if element == NmosElement::ChannelMap {
            vec![
                ChangeStep::TearDownGraph,
                ChangeStep::CloseSession,
                ChangeStep::ThawPads,
                ChangeStep::ChangeParent,
            ]
        } else {
            vec![ChangeStep::CloseSession, ChangeStep::RestoreFakeChain, ChangeStep::ChangeParent]
        },
        Transition::Other => vec![ChangeStep::ChangeParent],
    };
    assert(steps@ =~= steps_of(element, transition, fixated));
    steps
}

/// What undoes the steps before one that failed.
pub open spec fn undo_of(step: ChangeStep) -> Seq<ChangeStep> {
    if step == ChangeStep::InstallChain {
        seq![ChangeStep::CloseSession, ChangeStep::RestoreFakeChain]
    } else {
        Seq::empty()
    }
}

/// The steps to take when one failed: a chain that cannot be installed leaves the element as
/// if no session had been opened.
pub fn undo_steps(step: ChangeStep) -> (r: Vec<ChangeStep>)
    ensures
        r@ == undo_of(step),
{
    let steps: Vec<ChangeStep> = if step == ChangeStep::InstallChain {
        vec![ChangeStep::CloseSession, ChangeStep::RestoreFakeChain]
    } else {
        Vec::new()
    };
    assert(steps@ =~= undo_of(step));
    steps
}

/// How the report of a failed step begins, where it is reported at all.
pub open spec fn failure_intro(element: NmosElement, step: ChangeStep) -> Option<Seq<char>> {
    match (step, element) {
        (ChangeStep::OpenSession, NmosElement::ChannelMap) => Some(
            "failed to open channel mapping session: "@,
        ),
        (ChangeStep::OpenSession, NmosElement::Sink) => Some("nmossink NULL→READY failed: "@),
        (ChangeStep::OpenSession, NmosElement::Src) => Some("nmossrc NULL→READY failed: "@),
        (ChangeStep::InstallChain, NmosElement::Sink) => Some("nmossink NULL→READY failed: "@),
        (ChangeStep::InstallChain, NmosElement::Src) => Some("nmossrc NULL→READY failed: "@),
        (ChangeStep::PinFakeChain, _) => Some(
            "nmossink READY→PAUSED deferred fake-chain pin failed: "@,
        ),
        (ChangeStep::AddDeferredSender, _) => Some(
            "nmossink READY→PAUSED deferred AddSender failed: "@,
        ),
        (ChangeStep::Fixate, _) => Some("channel mapping fixation failed: "@),
        _ => None,
    }
}

/// The report of a failed step. A parent that does not change, and a graph that does not
/// follow it, report for themselves.
pub fn failure_report(element: NmosElement, step: ChangeStep, reason: &str) -> (r: Option<String>)
    ensures
        match r {
            Some(text) => failure_intro(element, step) matches Some(intro) && text@ == intro
                + reason@,
            None => failure_intro(element, step) is None,
        },
{
    let intro: &'static str = match step {
        ChangeStep::OpenSession => match element {
            NmosElement::ChannelMap => "failed to open channel mapping session: ",
            NmosElement::Sink => "nmossink NULL→READY failed: ",
            NmosElement::Src => "nmossrc NULL→READY failed: ",
        },
        ChangeStep::InstallChain => match element {
            NmosElement::ChannelMap => {
                return None;
            },
            NmosElement::Sink => "nmossink NULL→READY failed: ",
            NmosElement::Src => "nmossrc NULL→READY failed: ",
        },
        ChangeStep::PinFakeChain => "nmossink READY→PAUSED deferred fake-chain pin failed: ",
        ChangeStep::AddDeferredSender => "nmossink READY→PAUSED deferred AddSender failed: ",
        ChangeStep::Fixate => "channel mapping fixation failed: ",
        _ => {
            return None;
        },
    };
    Some(joined(intro, reason))
}

/// The parent changes its state in every transition, and once.
pub proof fn parent_changes_once(element: NmosElement, transition: Transition, fixated: bool)
    ensures
        ({
            let steps = steps_of(element, transition, fixated);
            exists|k: int|
                0 <= k < steps.len() && #[trigger] steps[k] == ChangeStep::ChangeParent && forall|
                    j: int,
                |
                    0 <= j < steps.len() && #[trigger] steps[j] == ChangeStep::ChangeParent ==> j
                        == k
        }),
{
    let steps = steps_of(element, transition, fixated);
    let k: int = match (transition, element) {
        (Transition::NullToReady, NmosElement::ChannelMap) => 1,
        (Transition::NullToReady, _) => 2,
        (Transition::ReadyToPaused, NmosElement::Sink) => 1,
        (Transition::ReadyToNull, NmosElement::ChannelMap) => 3,
        (Transition::ReadyToNull, _) => 2,
        _ => 0,
    };
    assert(steps[k] == ChangeStep::ChangeParent);
}

/// A session is opened on the way up from NULL and closed on the way down to it, before the
/// parent changes; no other transition touches it.
pub proof fn session_follows_null(
    element: NmosElement,
    transition: Transition,
    fixated: bool,
    k: int,
)
    requires
        0 <= k < steps_of(element, transition, fixated).len(),
    ensures
        ({
            let steps = steps_of(element, transition, fixated);
            &&& steps[k] == ChangeStep::OpenSession ==> transition == Transition::NullToReady
                && parent_comes_after(steps, k)
            &&& steps[k] == ChangeStep::CloseSession ==> transition == Transition::ReadyToNull
                && parent_comes_after(steps, k)
        }),
{
    let steps = steps_of(element, transition, fixated);
    let parent: int = if transition == Transition::ReadyToNull {
        steps.len() - 1
    } else if element == NmosElement::ChannelMap {
        1
    } else {
        2
    };
    if steps[k] == ChangeStep::OpenSession || steps[k] == ChangeStep::CloseSession {
        assert(steps[parent] == ChangeStep::ChangeParent);
    }
}

/// The parent changes after step `k`.
pub open spec fn parent_comes_after(steps: Seq<ChangeStep>, k: int) -> bool {
    exists|j: int| k < j < steps.len() && #[trigger] steps[j] == ChangeStep::ChangeParent
}

/// A session that was opened does not outlive a failure before the parent changed.
pub proof fn failed_start_closes_session(element: NmosElement, fixated: bool, k: int)
    requires
        0 < k,
        parent_comes_after(steps_of(element, Transition::NullToReady, fixated), k),
    ensures
        undo_of(
            steps_of(element, Transition::NullToReady, fixated)[k],
        ).first() == ChangeStep::CloseSession,
{
}

/// The set of pads is frozen from READY on: a channel map freezes its pads when it reaches
/// READY from NULL, as its last step, and thaws them on its way back, and at no other time.
pub proof fn pads_are_frozen_from_ready(transition: Transition, fixated: bool)
    ensures
        ({
            let steps = steps_of(NmosElement::ChannelMap, transition, fixated);
            &&& steps.contains(ChangeStep::FreezePads) == (transition == Transition::NullToReady)
            &&& transition == Transition::NullToReady ==> steps.last() == ChangeStep::FreezePads
            &&& steps.contains(ChangeStep::ThawPads) == (transition == Transition::ReadyToNull)
        }),
{
    let steps = steps_of(NmosElement::ChannelMap, transition, fixated);
    if transition == Transition::NullToReady {
        assert(steps[2] == ChangeStep::FreezePads);
    }
    if transition == Transition::ReadyToNull {
        assert(steps[2] == ChangeStep::ThawPads);
    }
}

/// A channel map is settled after its parent has negotiated caps, and its graph is synced
/// after that.
pub proof fn pads_are_settled_after_the_parent(fixated: bool)
    ensures
        ({
            let steps = steps_of(NmosElement::ChannelMap, Transition::ReadyToPaused, fixated);
            &&& steps.first() == ChangeStep::ChangeParent
            &&& steps.last() == ChangeStep::SyncGraph
            &&& steps.contains(ChangeStep::Fixate) == !fixated
        }),
{
    let steps = steps_of(NmosElement::ChannelMap, Transition::ReadyToPaused, fixated);
    if !fixated {
        assert(steps[1] == ChangeStep::Fixate);
    }
}

/// One step comes before another.
pub open spec fn comes_before(steps: Seq<ChangeStep>, a: ChangeStep, b: ChangeStep) -> bool {
    exists|i: int, j: int|
        0 <= i < j < steps.len() && #[trigger] steps[i] == a && #[trigger] steps[j] == b
}

/// A sender or receiver opens its session before it installs its chain, and installs that before
/// its parent changes; on the way back the session is closed before the fake chain is restored.
pub proof fn chains_live_within_a_session(element: NmosElement, fixated: bool)
    requires
        element != NmosElement::ChannelMap,
    ensures
        ({
            let up = steps_of(element, Transition::NullToReady, fixated);
            let down = steps_of(element, Transition::ReadyToNull, fixated);
            &&& comes_before(up, ChangeStep::OpenSession, ChangeStep::InstallChain)
            &&& comes_before(up, ChangeStep::InstallChain, ChangeStep::ChangeParent)
            &&& comes_before(down, ChangeStep::CloseSession, ChangeStep::RestoreFakeChain)
            &&& comes_before(down, ChangeStep::RestoreFakeChain, ChangeStep::ChangeParent)
        }),
{
    let up = steps_of(element, Transition::NullToReady, fixated);
    let down = steps_of(element, Transition::ReadyToNull, fixated);
    assert(up[0] == ChangeStep::OpenSession && up[1] == ChangeStep::InstallChain && up[2]
        == ChangeStep::ChangeParent);
    assert(down[0] == ChangeStep::CloseSession && down[1] == ChangeStep::RestoreFakeChain && down[2]
        == ChangeStep::ChangeParent);
}

/// A channel map takes its graph down before it closes its session.
pub proof fn graph_goes_before_the_session(fixated: bool)
    ensures
        ({
            let down = steps_of(NmosElement::ChannelMap, Transition::ReadyToNull, fixated);
            &&& comes_before(down, ChangeStep::TearDownGraph, ChangeStep::CloseSession)
            &&& comes_before(down, ChangeStep::CloseSession, ChangeStep::ChangeParent)
            &&& comes_before(down, ChangeStep::ThawPads, ChangeStep::ChangeParent)
        }),
{
    let down = steps_of(NmosElement::ChannelMap, Transition::ReadyToNull, fixated);
    assert(down[0] == ChangeStep::TearDownGraph && down[1] == ChangeStep::CloseSession && down[2]
        == ChangeStep::ThawPads && down[3] == ChangeStep::ChangeParent);
}

/// A sender that waits for caps pins its fake chain before its parent changes, so that the peer
/// can negotiate, and is added after; no other element does either.
pub proof fn deferred_senders_wait_for_caps(
    element: NmosElement,
    transition: Transition,
    fixated: bool,
)
    ensures
        ({
            let steps = steps_of(element, transition, fixated);
            let sender = element == NmosElement::Sink && transition == Transition::ReadyToPaused;
            &&& sender ==> comes_before(
                steps,
                ChangeStep::PinFakeChain,
                ChangeStep::ChangeParent,
            ) && comes_before(steps, ChangeStep::ChangeParent, ChangeStep::AddDeferredSender)
            &&& !sender ==> !steps.contains(ChangeStep::AddDeferredSender) && !steps.contains(
                ChangeStep::PinFakeChain,
            )
        }),
{
    let steps = steps_of(element, transition, fixated);
    if element == NmosElement::Sink && transition == Transition::ReadyToPaused {
        assert(steps[0] == ChangeStep::PinFakeChain && steps[1] == ChangeStep::ChangeParent
            && steps[2] == ChangeStep::AddDeferredSender);
    }
}

/// What is said of a failed step names the element whose step it is, and the transition that it
/// belongs to.
pub proof fn failures_name_the_element(
    element: NmosElement,
    transition: Transition,
    fixated: bool,
    k: int,
)
    requires
        0 <= k < steps_of(element, transition, fixated).len(),
    ensures
        failure_intro(element, steps_of(element, transition, fixated)[k]) matches Some(intro) ==> {
            &&& element == NmosElement::Sink ==> says(intro, "nmossink"@)
            &&& element == NmosElement::Src ==> says(intro, "nmossrc"@)
            &&& element == NmosElement::ChannelMap ==> says(intro, "channel mapping"@)
            &&& element != NmosElement::ChannelMap && transition == Transition::NullToReady ==>
                says(intro, "NULL→READY"@)
            &&& element != NmosElement::ChannelMap && transition == Transition::ReadyToPaused ==>
                says(intro, "READY→PAUSED"@)
        },
        element != NmosElement::ChannelMap ==> (failure_intro(
            element,
            steps_of(element, transition, fixated)[k],
        ) is None <==> {
            let step = steps_of(element, transition, fixated)[k];
            step == ChangeStep::ChangeParent || transition == Transition::ReadyToNull
        }),
{
    let step = steps_of(element, transition, fixated)[k];
    reveal_strlit("nmossink");
    reveal_strlit("nmossrc");
    reveal_strlit("channel mapping");
    reveal_strlit("NULL→READY");
    reveal_strlit("READY→PAUSED");
    reveal_strlit("failed to open channel mapping session: ");
    reveal_strlit("nmossink NULL→READY failed: ");
    reveal_strlit("nmossrc NULL→READY failed: ");
    reveal_strlit("nmossink READY→PAUSED deferred fake-chain pin failed: ");
    reveal_strlit("nmossink READY→PAUSED deferred AddSender failed: ");
    reveal_strlit("channel mapping fixation failed: ");
    if let Some(intro) = failure_intro(element, step) {
        match element {
            NmosElement::Sink => {
                says_at(intro, "nmossink"@, 0);
                if transition == Transition::NullToReady {
                    says_at(intro, "NULL→READY"@, 9);
                } else if transition == Transition::ReadyToPaused {
                    says_at(intro, "READY→PAUSED"@, 9);
                }
            },
            NmosElement::Src => {
                says_at(intro, "nmossrc"@, 0);
                says_at(intro, "NULL→READY"@, 8);
            },
            NmosElement::ChannelMap => {
                if step == ChangeStep::OpenSession {
                    says_at(intro, "channel mapping"@, 15);
                } else {
                    says_at(intro, "channel mapping"@, 0);
                }
            },
        }
    }
}

} // verus!
