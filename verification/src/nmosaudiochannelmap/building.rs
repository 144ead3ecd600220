//! The course of fixing a channel-mapping element: which requests go to the daemon, and
//! when the graph is wired.
//!
//! The element's pads are settled first. The daemon is asked to add a mapping, unless it
//! holds one already. Then the graph is wired, and the daemon is told the map of every
//! output, one by one.

use super::caps::{pad_channels, ChannelsError};
use super::fixation::{
    adopt_input_ids, adopt_output_ids, fixate, fixated, sink_adopted, sink_snapshot,
    snapshot_sinks, snapshot_srcs, src_adopted, src_snapshot, Fixation, FixationError,
    FoundSinkPad, FoundSrcPad,
};
use super::graph::InternalGraph;
use crate::channel_mapping::active_map::ActiveMapEntry;
use crate::channel_mapping::request::{
    build_add_channel_mapping_request, mapping_request, AddChannelMappingRequest,
};
use crate::channel_mapping::types::{
    sink_channels, total_channels, FrozenTopology, SinkPadSnapshot, SrcPadSnapshot,
};
use crate::channel_mapping_session::ChannelMappingSession;
use vstd::prelude::*;

verus! {

/// What is being waited for.
#[derive(Debug)]
pub enum Building {
    /// The daemon's answer to the request for a mapping of these pads.
    Adding { sinks: Vec<SinkPadSnapshot>, srcs: Vec<SrcPadSnapshot> },
    /// The graph; `rest` are the maps that the daemon is told of after that.
    Wiring { rest: Vec<(String, Vec<ActiveMapEntry>)> },
    /// The daemon's answer to the map of one output; `rest` are those that follow.
    Telling { output_id: String, rest: Vec<(String, Vec<ActiveMapEntry>)> },
}

#[derive(Debug)]
pub enum BuildingEvent {
    Added { input_ids: Vec<String>, output_ids: Vec<String> },
    Wired,
    Told,
    Failed(String),
}

#[derive(Debug)]
pub enum BuildingAction {
    Add(AddChannelMappingRequest),
    /// Wire the graph, freeze the pads, and keep topology and graph.
    Wire { topology: FrozenTopology, graph: InternalGraph },
    Tell { output_id: String, active_map: Vec<ActiveMapEntry> },
    Finish,
    Fail(BuildingFailure),
}

#[derive(Debug)]
pub enum BuildingFailure {
    Refused(FixationError),
    NoSession,
    NotAdded(String),
    NotWired(String),
    NotTold { output_id: String, reason: String },
}

// ---- settled pads -----------------------------------------------------------

pub open spec fn sink_settled(pad: FoundSinkPad) -> bool {
    pad_channels(pad.caps, pad.state.channels) is Ok
}

pub open spec fn src_settled(pad: FoundSrcPad) -> bool {
    pad_channels(pad.caps, pad.state.channels) is Ok
}

pub open spec fn sinks_settled(pads: Seq<FoundSinkPad>) -> bool {
    forall|i: int| 0 <= i < pads.len() ==> sink_settled(#[trigger] pads[i])
}

pub open spec fn srcs_settled(pads: Seq<FoundSrcPad>) -> bool {
    forall|i: int| 0 <= i < pads.len() ==> src_settled(#[trigger] pads[i])
}

/// The channel counts that are settled on sink pads.
pub open spec fn found_channels(pads: Seq<FoundSinkPad>) -> Seq<u32> {
    pads.map_values(
        |pad: FoundSinkPad|
            match pad_channels(pad.caps, pad.state.channels) {
                Ok(n) => n,
                Err(_) => 0,
            },
    )
}

pub open spec fn sink_snapshots(pads: Seq<FoundSinkPad>, snapshots: Seq<SinkPadSnapshot>) -> bool {
    snapshots.len() == pads.len() && forall|i: int|
        0 <= i < pads.len() ==> sink_snapshot(pads[i], #[trigger] snapshots[i])
}

pub open spec fn src_snapshots(pads: Seq<FoundSrcPad>, snapshots: Seq<SrcPadSnapshot>) -> bool {
    snapshots.len() == pads.len() && forall|i: int|
        0 <= i < pads.len() ==> src_snapshot(pads[i], #[trigger] snapshots[i])
}

/// The snapshots after the daemon's ids are in.
pub open spec fn sinks_adopted(
    before: Seq<SinkPadSnapshot>,
    after: Seq<SinkPadSnapshot>,
    ids: Seq<String>,
) -> bool {
    after.len() == before.len() && forall|i: int|
        0 <= i < before.len() ==> sink_adopted(before[i], #[trigger] after[i], ids, i)
}

pub open spec fn srcs_adopted(
    before: Seq<SrcPadSnapshot>,
    after: Seq<SrcPadSnapshot>,
    ids: Seq<String>,
) -> bool {
    after.len() == before.len() && forall|i: int|
        0 <= i < before.len() ==> src_adopted(before[i], #[trigger] after[i], ids, i)
}

proof fn snapshots_have_found_channels(pads: Seq<FoundSinkPad>, snapshots: Seq<SinkPadSnapshot>)
    requires
        sink_snapshots(pads, snapshots),
    ensures
        sink_channels(snapshots) == found_channels(pads),
        sinks_settled(pads),
{
    assert forall|i: int| 0 <= i < pads.len() implies sink_settled(#[trigger] pads[i]) by {
        assert(sink_snapshot(pads[i], snapshots[i]));
    }
    assert forall|i: int| 0 <= i < pads.len() implies sink_channels(snapshots)[i]
        == found_channels(pads)[i] by {
        assert(sink_snapshot(pads[i], snapshots[i]));
    }
    assert(sink_channels(snapshots) =~= found_channels(pads));
}

// ---- steps ------------------------------------------------------------------

/// The next map is told, or all are.
pub open spec fn tells_next(
    rest: Seq<(String, Vec<ActiveMapEntry>)>,
    next: Option<Building>,
    action: BuildingAction,
) -> bool {
    if rest.len() == 0 {
        next is None && action is Finish
    } else {
        &&& action == BuildingAction::Tell { output_id: rest[0].0, active_map: rest[0].1 }
        &&& next matches Some(Building::Telling { output_id, rest: after }) && output_id
            == rest[0].0 && after@ == rest.skip(1)
    }
}

/// The graph of these pads is wired, or what stands in the way is reported.
pub open spec fn wires(
    sinks: Seq<SinkPadSnapshot>,
    srcs: Seq<SrcPadSnapshot>,
    next: Option<Building>,
    action: BuildingAction,
) -> bool {
    match action {
        BuildingAction::Wire { topology, graph } => next matches Some(Building::Wiring { rest })
            && exists|f: Fixation| #[trigger]
            fixated(sinks, srcs, Ok(f)) && f.topology == topology && f.graph == graph
                && f.sync_entries == rest,
        BuildingAction::Fail(BuildingFailure::Refused(e)) => next is None && fixated(
            sinks,
            srcs,
            Err(e),
        ),
        _ => false,
    }
}

fn wire(sinks: &[SinkPadSnapshot], srcs: &[SrcPadSnapshot]) -> (r: (
    Option<Building>,
    BuildingAction,
))
    requires
        total_channels(sink_channels(sinks@)) <= u32::MAX,
    ensures
        wires(sinks@, srcs@, r.0, r.1),
{
    match fixate(sinks, srcs) {
        Ok(f) => {
            let ghost kept = f;
            assert(fixated(sinks@, srcs@, Ok(kept)));
            (
                Some(Building::Wiring { rest: f.sync_entries }),
                BuildingAction::Wire { topology: f.topology, graph: f.graph },
            )
        },
        Err(e) => (None, BuildingAction::Fail(BuildingFailure::Refused(e))),
    }
}

fn tell_next(rest: Vec<(String, Vec<ActiveMapEntry>)>) -> (r: (Option<Building>, BuildingAction))
    ensures
        tells_next(rest@, r.0, r.1),
{
    let mut rest = rest;
    if rest.len() == 0 {
        return (None, BuildingAction::Finish);
    }
    let ghost all = rest@;
    let (output_id, active_map) = rest.remove(0);
    assert(rest@ =~= all.skip(1));
    (
        Some(Building::Telling { output_id: output_id.clone(), rest }),
        BuildingAction::Tell { output_id, active_map },
    )
}

impl Building {
    /// The channel counts fit on the bus.
    pub open spec fn wf(&self) -> bool {
        match self {
            Building::Adding { sinks, srcs } => total_channels(sink_channels(sinks@)) <= u32::MAX,
            _ => true,
        }
    }

    /// Something that can happen in this phase.
    pub open spec fn expects(&self, event: BuildingEvent) -> bool {
        match self {
            Building::Adding { .. } => event is Added || event is Failed,
            Building::Wiring { .. } => event is Wired || event is Failed,
            Building::Telling { .. } => event is Told || event is Failed,
        }
    }

    /// Begin with the pads as they were found. The daemon is not asked for a mapping unless
    /// every pad is settled, nor if the session holds one already.
    pub fn begin(
        sinks: Vec<FoundSinkPad>,
        srcs: Vec<FoundSrcPad>,
        session: Option<&ChannelMappingSession>,
        channelmapping_name: &str,
        restrict_routable_inputs: bool,
    ) -> (r: (Option<Building>, BuildingAction))
        requires
            total_channels(found_channels(sinks@)) <= u32::MAX,
        ensures
            r.0 matches Some(b) ==> b.wf(),
            sinks@.len() == 0 || srcs@.len() == 0 ==> r.0 is None && r.1 == BuildingAction::Fail(
                BuildingFailure::Refused(FixationError::NoPads),
            ),
            sinks@.len() > 0 && srcs@.len() > 0 ==> if !sinks_settled(sinks@) {
                r.0 is None && (r.1 matches BuildingAction::Fail(
                    BuildingFailure::Refused(FixationError::SinkChannels(k, e)),
                ) && k < sinks@.len() && sinks_settled(sinks@.take(k as int)) && pad_channels(
                    sinks@[k as int].caps,
                    sinks@[k as int].state.channels,
                ) == Err::<u32, ChannelsError>(e))
            } else if !srcs_settled(srcs@) {
                r.0 is None && (r.1 matches BuildingAction::Fail(
                    BuildingFailure::Refused(FixationError::SrcChannels(k, e)),
                ) && k < srcs@.len() && srcs_settled(srcs@.take(k as int)) && pad_channels(
                    srcs@[k as int].caps,
                    srcs@[k as int].state.channels,
                ) == Err::<u32, ChannelsError>(e))
            } else {
                match session {
                    None => r.0 is None && r.1 == BuildingAction::Fail(BuildingFailure::NoSession),
                    Some(s) => if s.channelmapping is None {
                        (r.0 matches Some(Building::Adding { sinks: a, srcs: b })
                            && sink_snapshots(sinks@, a@) && src_snapshots(srcs@, b@) && (
                        r.1 matches BuildingAction::Add(request) && mapping_request(
                            request,
                            s.session_handle@,
                            channelmapping_name@,
                            a@,
                            b@,
                            restrict_routable_inputs,
                        )))
                    } else {
                        exists|a: Seq<SinkPadSnapshot>, b: Seq<SrcPadSnapshot>|
                            sink_snapshots(sinks@, a) && src_snapshots(srcs@, b)
                                && #[trigger] wires(a, b, r.0, r.1)
                    },
                }
            },
    {
        if sinks.len() == 0 || srcs.len() == 0 {
            return (
                None,
                BuildingAction::Fail(BuildingFailure::Refused(FixationError::NoPads)),
            );
        }
        let ghost sink_pads = sinks@;
        let ghost src_pads = srcs@;
        let a = match snapshot_sinks(sinks) {
            Ok(a) => a,
            Err(e) => {
                proof {
                    let k = e->SinkChannels_0 as int;
                    assert(!sink_settled(sink_pads[k]));
                    assert forall|j: int| 0 <= j < k implies sink_settled(
                        #[trigger] sink_pads.take(k)[j],
                    ) by {
                        assert(sink_pads.take(k)[j] == sink_pads[j]);
                    }
                }
                return (None, BuildingAction::Fail(BuildingFailure::Refused(e)));
            },
        };
        proof {
            assert(sink_snapshots(sink_pads, a@));
            snapshots_have_found_channels(sink_pads, a@);
        }
        let b = match snapshot_srcs(srcs) {
            Ok(b) => b,
            Err(e) => {
                proof {
                    let k = e->SrcChannels_0 as int;
                    assert(!src_settled(src_pads[k]));
                    assert forall|j: int| 0 <= j < k implies src_settled(
                        #[trigger] src_pads.take(k)[j],
                    ) by {
                        assert(src_pads.take(k)[j] == src_pads[j]);
                    }
                }
                return (None, BuildingAction::Fail(BuildingFailure::Refused(e)));
            },
        };
        proof {
            assert forall|i: int| 0 <= i < src_pads.len() implies src_settled(
                #[trigger] src_pads[i],
            ) by {
                assert(src_snapshot(src_pads[i], b@[i]));
            }
        }
        let s = match session {
            Some(s) => s,
            None => {
                return (None, BuildingAction::Fail(BuildingFailure::NoSession));
            },
        };
        if s.channelmapping.is_some() {
            return wire(a.as_slice(), b.as_slice());
        }
        let request = build_add_channel_mapping_request(
            s.session_handle.as_str(),
            channelmapping_name,
            a.as_slice(),
            b.as_slice(),
            restrict_routable_inputs,
        );
        (Some(Building::Adding { sinks: a, srcs: b }), BuildingAction::Add(request))
    }

    /// One step: what was waited for came to `event`.
    pub open spec fn steps(
        self,
        event: BuildingEvent,
        next: Option<Building>,
        action: BuildingAction,
    ) -> bool {
        match (self, event) {
            (Building::Adding { sinks, srcs }, BuildingEvent::Added { input_ids, output_ids }) =>
                exists|a: Seq<SinkPadSnapshot>, b: Seq<SrcPadSnapshot>|
                    sinks_adopted(sinks@, a, input_ids@) && srcs_adopted(srcs@, b, output_ids@)
                        && #[trigger] wires(a, b, next, action),
            (Building::Adding { .. }, BuildingEvent::Failed(e)) => next is None && action
                == BuildingAction::Fail(BuildingFailure::NotAdded(e)),
            (Building::Wiring { rest }, BuildingEvent::Wired) => tells_next(rest@, next, action),
            (Building::Wiring { .. }, BuildingEvent::Failed(e)) => next is None && action
                == BuildingAction::Fail(BuildingFailure::NotWired(e)),
            (Building::Telling { rest, .. }, BuildingEvent::Told) => tells_next(
                rest@,
                next,
                action,
            ),
            (Building::Telling { output_id, .. }, BuildingEvent::Failed(e)) => next is None
                && action == BuildingAction::Fail(
                BuildingFailure::NotTold { output_id, reason: e },
            ),
            _ => false,
        }
    }

    /// Carry on. The pads without an id of their own take the daemon's. The first failure
    /// ends the course.
    pub fn advance(self, event: BuildingEvent) -> (r: (Option<Building>, BuildingAction))
        requires
            self.wf(),
            self.expects(event),
        ensures
            self.steps(event, r.0, r.1),
            r.0 matches Some(b) ==> b.wf(),
    {
        match self {
            Building::Adding { sinks, srcs } => match event {
                BuildingEvent::Added { input_ids, output_ids } => {
                    let mut a = sinks;
                    let mut b = srcs;
                    adopt_input_ids(&mut a, input_ids.as_slice());
                    adopt_output_ids(&mut b, output_ids.as_slice());
                    assert(sink_channels(a@) =~= sink_channels(sinks@)) by {
                        assert forall|i: int| 0 <= i < a@.len() implies sink_channels(a@)[i]
                            == sink_channels(sinks@)[i] by {
                            assert(sink_adopted(sinks@[i], a@[i], input_ids@, i));
                        }
                    }
                    assert(sinks_adopted(sinks@, a@, input_ids@));
                    assert(srcs_adopted(srcs@, b@, output_ids@));
                    wire(a.as_slice(), b.as_slice())
                },
                BuildingEvent::Failed(e) => (
                    None,
                    BuildingAction::Fail(BuildingFailure::NotAdded(e)),
                ),
                _ => (None, BuildingAction::Finish),
            },
            Building::Wiring { rest } => match event {
                BuildingEvent::Failed(e) => (
                    None,
                    BuildingAction::Fail(BuildingFailure::NotWired(e)),
                ),
                _ => tell_next(rest),
            },
            Building::Telling { output_id, rest } => match event {
                BuildingEvent::Failed(e) => (
                    None,
                    BuildingAction::Fail(BuildingFailure::NotTold { output_id, reason: e }),
                ),
                _ => tell_next(rest),
            },
        }
    }

    /// The maps that the daemon is still to be told of, once the graph is wired.
    pub open spec fn untold(self) -> Seq<(String, Vec<ActiveMapEntry>)> {
        match self {
            Building::Adding { .. } => Seq::empty(),
            Building::Wiring { rest } => rest@,
            Building::Telling { rest, .. } => rest@,
        }
    }
}

/// The course comes to its end: every step but the answer to a new mapping leaves fewer
/// maps to tell, or ends it.
pub proof fn building_ends(
    building: Building,
    event: BuildingEvent,
    next: Option<Building>,
    action: BuildingAction,
)
    requires
        building.steps(event, next, action),
    ensures
        match next {
            Some(b) => (building is Adding && b is Wiring) || (!(building is Adding) && b is Telling
                && b.untold().len() < building.untold().len()),
            None => action is Finish || action is Fail,
        },
{
}

/// The daemon is told of every output before the course is finished, in order: a step
/// without failure tells the first map that is still untold, or there was none.
pub proof fn outputs_are_told_in_order(
    building: Building,
    event: BuildingEvent,
    next: Option<Building>,
    action: BuildingAction,
)
    requires
        building.steps(event, next, action),
        event is Wired || event is Told,
    ensures
        match next {
            Some(b) => building.untold().len() > 0 && b.untold() == building.untold().skip(1)
                && action == (BuildingAction::Tell {
                output_id: building.untold()[0].0,
                active_map: building.untold()[0].1,
            }),
            None => building.untold().len() == 0 && action is Finish,
        },
{
}

/// No output is told of before the graph is wired, and the mapping comes before the graph.
pub proof fn told_only_when_wired(
    building: Building,
    event: BuildingEvent,
    next: Option<Building>,
    action: BuildingAction,
)
    requires
        building.steps(event, next, action),
        action is Tell,
    ensures
        event is Wired || event is Told,
        !(building is Adding),
{
}

/// A failure ends the building, and is reported with the reason that was given for it; while the
/// outputs are told, with the output that was being told.
pub proof fn failures_keep_their_reason(
    state: Building,
    e: String,
    next: Option<Building>,
    action: BuildingAction,
)
    requires
        state.steps(BuildingEvent::Failed(e), next, action),
    ensures
        next is None,
        action matches BuildingAction::Fail(failure) && match failure {
            BuildingFailure::NotAdded(reason) => state is Adding && reason == e,
            BuildingFailure::NotWired(reason) => state is Wiring && reason == e,
            BuildingFailure::NotTold { output_id, reason } => reason == e && (
            state matches Building::Telling { output_id: told, .. } && told == output_id),
            _ => false,
        },
{
}

/// Every state can go on and can fail, and takes no event that belongs to another.
pub proof fn every_state_may_fail(state: Building, e: String, event: BuildingEvent)
    ensures
        state.expects(BuildingEvent::Failed(e)),
        state.expects(event) && !(event is Failed) ==> match event {
            BuildingEvent::Added { .. } => state is Adding,
            BuildingEvent::Wired => state is Wiring,
            BuildingEvent::Told => state is Telling,
            BuildingEvent::Failed(_) => true,
        },
        event is Added && state is Adding ==> state.expects(event),
        event is Wired && state is Wiring ==> state.expects(event),
        event is Told && state is Telling ==> state.expects(event),
{
}

} // verus!
