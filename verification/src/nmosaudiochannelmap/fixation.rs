//! Fixing the topology of a channel-mapping element, and carrying out its activations.
//!
//! When the element's pads are known, their channel counts are settled, the daemon is asked
//! to add a mapping, the pads without an id of their own get the daemon's, and the topology,
//! the maps of the outputs and the graph follow.

use super::caps::{pad_channels, resolve_pad_channels, ChannelsError, PadCaps};
use super::graph::{all_routes, graph_ok, GraphError, InternalGraph};
use super::pads::{SinkPadState, SrcPadState};
use crate::channel_mapping::active_map::{
    active_map_entries_from_routes, default_identity_routes, field_ok, field_refused,
    identity_routes, parse_active_map_structure, routes_of_fields, slot_of, ActiveMapEntry,
    ActiveMapError, ActiveMapRoute, Route, Slot,
};
use crate::channel_mapping::matrix::{
    channels_of_output, connects, map_ok, map_refused, matrix_of,
    routes_from_activation_request, routes_of_slots, ActiveMapValidationError,
};
use crate::channel_mapping::types::{
    sink_channels, src_channels, total_channels, FrozenTopology, SinkPadSnapshot, SrcPadSnapshot,
};
use crate::channel_mapping_session::ChannelMappingActivationRequest;
use crate::text::{
    around, beginnings_and_ends, decimal, decimal_text, first_position, has_prefix, has_suffix,
    joined, position_of, says, says_at,
};
use vstd::prelude::*;

verus! {

/// Why the topology could not be fixed.
#[derive(Debug)]
pub enum FixationError {
    /// There must be at least one sink and one src pad.
    NoPads,
    /// The channel count of the sink pad at this place is not settled.
    SinkChannels(usize, ChannelsError),
    /// The channel count of the src pad at this place is not settled.
    SrcChannels(usize, ChannelsError),
    /// The map of the output at this place was refused.
    ActiveMap(usize, ActiveMapError),
    Graph(GraphError),
}

/// How a pad is called in messages, and the caps that it has.
#[derive(Debug)]
pub struct PadHint {
    pub name: String,
    pub caps: String,
}

impl FixationError {
    /// The wording of the error, with the pads of either direction in their order.
    pub open spec fn text(self, sinks: Seq<PadHint>, srcs: Seq<PadHint>) -> Seq<char> {
        match self {
            FixationError::NoPads => "need at least one sink_%u and one src_%u pad"@,
            FixationError::SinkChannels(k, e) => e.text(
                sinks[k as int].name@,
                sinks[k as int].caps@,
            ),
            FixationError::SrcChannels(k, e) => e.text(
                srcs[k as int].name@,
                srcs[k as int].caps@,
            ),
            FixationError::ActiveMap(_, e) => e.text(),
            FixationError::Graph(e) => e.text(),
        }
    }

    /// The error speaks of pads that are there.
    pub open spec fn is_among(self, sinks: nat, srcs: nat) -> bool {
        match self {
            FixationError::SinkChannels(k, _) => k < sinks,
            FixationError::SrcChannels(k, _) => k < srcs,
            _ => true,
        }
    }

    /// What is said of the error, with the pads of either direction in their order.
    pub fn message(&self, sinks: &[PadHint], srcs: &[PadHint]) -> (r: String)
        requires
            self.is_among(sinks@.len(), srcs@.len()),
        ensures
            r@ == self.text(sinks@, srcs@),
    {
        match self {
            FixationError::NoPads => "need at least one sink_%u and one src_%u pad".to_owned(),
            FixationError::SinkChannels(k, e) => {
                let pad = &sinks[*k];
                e.message(pad.name.as_str(), pad.caps.as_str())
            },
            FixationError::SrcChannels(k, e) => {
                let pad = &srcs[*k];
                e.message(pad.name.as_str(), pad.caps.as_str())
            },
            FixationError::ActiveMap(_, e) => e.message(),
            FixationError::Graph(e) => e.message(),
        }
    }
}

/// A sink pad as it was found.
#[derive(Debug)]
pub struct FoundSinkPad {
    pub state: SinkPadState,
    pub caps: PadCaps,
}

/// A src pad as it was found.
#[derive(Debug)]
pub struct FoundSrcPad {
    pub state: SrcPadState,
    pub caps: PadCaps,
}

// ---- snapshots --------------------------------------------------------------

pub open spec fn sink_snapshot(pad: FoundSinkPad, snapshot: SinkPadSnapshot) -> bool {
    &&& snapshot.receiver_name == pad.state.receiver_name
    &&& snapshot.input_id == pad.state.input_id
    &&& snapshot.label == pad.state.label
    &&& snapshot.description == pad.state.description
    &&& pad_channels(pad.caps, pad.state.channels) == Ok::<_, ChannelsError>(
        snapshot.negotiated_channels,
    )
    &&& snapshot.negotiated_channels > 0
}

pub open spec fn src_snapshot(pad: FoundSrcPad, snapshot: SrcPadSnapshot) -> bool {
    &&& snapshot.sender_name == pad.state.sender_name
    &&& snapshot.output_id == pad.state.output_id
    &&& snapshot.label == pad.state.label
    &&& snapshot.description == pad.state.description
    &&& snapshot.active_map == pad.state.active_map
    &&& pad_channels(pad.caps, pad.state.channels) == Ok::<_, ChannelsError>(
        snapshot.negotiated_channels,
    )
    &&& snapshot.negotiated_channels > 0
}

/// Take snapshots of the sink pads, with their channel counts settled.
pub fn snapshot_sinks(pads: Vec<FoundSinkPad>) -> (r: Result<Vec<SinkPadSnapshot>, FixationError>)
    ensures
        match r {
            Ok(snapshots) => snapshots@.len() == pads@.len() && forall|i: int|
                0 <= i < pads@.len() ==> sink_snapshot(pads@[i], #[trigger] snapshots@[i]),
            Err(FixationError::SinkChannels(k, e)) => k < pads@.len() && pad_channels(
                pads@[k as int].caps,
                pads@[k as int].state.channels,
            ) == Err::<u32, _>(e) && forall|j: int|
                0 <= j < k ==> pad_channels(
                    (#[trigger] pads@[j]).caps,
                    pads@[j].state.channels,
                ) is Ok,
            Err(_) => false,
        },
{
    let ghost all = pads@;
    let total: usize = pads.len();
    let mut rest = pads;
    let mut snapshots: Vec<SinkPadSnapshot> = Vec::new();
    let mut i: usize = 0;
    assert(all.skip(0) =~= all);
    while rest.len() > 0
        invariant
            rest@ == all.skip(i as int),
            total == all.len(),
            i + rest@.len() == total,
            all == pads@,
            snapshots@.len() == i,
            forall|j: int| 0 <= j < i ==> sink_snapshot(all[j], #[trigger] snapshots@[j]),
        decreases rest@.len(),
    {
        let pad = rest.remove(0);
        assert(pad == all[i as int]);
        match resolve_pad_channels(&pad.caps, pad.state.channels) {
            Err(e) => {
                assert forall|j: int| 0 <= j < i implies pad_channels(
                    (#[trigger] all[j]).caps,
                    all[j].state.channels,
                ) is Ok by {
                    assert(sink_snapshot(all[j], snapshots@[j]));
                }
                return Err(FixationError::SinkChannels(i, e));
            },
            Ok(negotiated_channels) => {
                snapshots.push(
                    SinkPadSnapshot {
                        receiver_name: pad.state.receiver_name,
                        input_id: pad.state.input_id,
                        label: pad.state.label,
                        description: pad.state.description,
                        negotiated_channels,
                    },
                );
            },
        }
        assert(all.skip(i as int).skip(1) =~= all.skip(i as int + 1));
        assert(rest@ =~= all.skip(i as int + 1));
        i = i + 1;
    }
    Ok(snapshots)
}

/// Take snapshots of the src pads, with their channel counts settled.
pub fn snapshot_srcs(pads: Vec<FoundSrcPad>) -> (r: Result<Vec<SrcPadSnapshot>, FixationError>)
    ensures
        match r {
            Ok(snapshots) => snapshots@.len() == pads@.len() && forall|i: int|
                0 <= i < pads@.len() ==> src_snapshot(pads@[i], #[trigger] snapshots@[i]),
            Err(FixationError::SrcChannels(k, e)) => k < pads@.len() && pad_channels(
                pads@[k as int].caps,
                pads@[k as int].state.channels,
            ) == Err::<u32, _>(e) && forall|j: int|
                0 <= j < k ==> pad_channels(
                    (#[trigger] pads@[j]).caps,
                    pads@[j].state.channels,
                ) is Ok,
            Err(_) => false,
        },
{
    let ghost all = pads@;
    let total: usize = pads.len();
    let mut rest = pads;
    let mut snapshots: Vec<SrcPadSnapshot> = Vec::new();
    let mut i: usize = 0;
    assert(all.skip(0) =~= all);
    while rest.len() > 0
        invariant
            rest@ == all.skip(i as int),
            total == all.len(),
            i + rest@.len() == total,
            all == pads@,
            snapshots@.len() == i,
            forall|j: int| 0 <= j < i ==> src_snapshot(all[j], #[trigger] snapshots@[j]),
        decreases rest@.len(),
    {
        let pad = rest.remove(0);
        assert(pad == all[i as int]);
        match resolve_pad_channels(&pad.caps, pad.state.channels) {
            Err(e) => {
                assert forall|j: int| 0 <= j < i implies pad_channels(
                    (#[trigger] all[j]).caps,
                    all[j].state.channels,
                ) is Ok by {
                    assert(src_snapshot(all[j], snapshots@[j]));
                }
                return Err(FixationError::SrcChannels(i, e));
            },
            Ok(negotiated_channels) => {
                snapshots.push(
                    SrcPadSnapshot {
                        sender_name: pad.state.sender_name,
                        output_id: pad.state.output_id,
                        label: pad.state.label,
                        description: pad.state.description,
                        negotiated_channels,
                        active_map: pad.state.active_map,
                    },
                );
            },
        }
        assert(all.skip(i as int).skip(1) =~= all.skip(i as int + 1));
        assert(rest@ =~= all.skip(i as int + 1));
        i = i + 1;
    }
    Ok(snapshots)
}

// ---- ids --------------------------------------------------------------------

/// A snapshot after the daemon's ids are in: one without an id of its own takes the
/// daemon's at the same place, where there is one.
pub open spec fn sink_adopted(
    before: SinkPadSnapshot,
    after: SinkPadSnapshot,
    ids: Seq<String>,
    i: int,
) -> bool {
    if before.input_id@.len() == 0 && i < ids.len() {
        after == (SinkPadSnapshot { input_id: ids[i], ..before })
    } else {
        after == before
    }
}

pub open spec fn src_adopted(
    before: SrcPadSnapshot,
    after: SrcPadSnapshot,
    ids: Seq<String>,
    i: int,
) -> bool {
    if before.output_id@.len() == 0 && i < ids.len() {
        after == (SrcPadSnapshot { output_id: ids[i], ..before })
    } else {
        after == before
    }
}

/// Give the daemon's input ids to the sink pads without one.
pub fn adopt_input_ids(snapshots: &mut Vec<SinkPadSnapshot>, ids: &[String])
    ensures
        final(snapshots)@.len() == old(snapshots)@.len(),
        forall|i: int|
            0 <= i < old(snapshots)@.len() ==> sink_adopted(
                old(snapshots)@[i],
                #[trigger] final(snapshots)@[i],
                ids@,
                i,
            ),
{
    let ghost before = snapshots@;
    let mut i: usize = 0;
    while i < snapshots.len() && i < ids.len()
        invariant
            snapshots@.len() == before.len(),
            i <= snapshots@.len(),
            i <= ids@.len(),
            forall|j: int|
                0 <= j < i ==> sink_adopted(before[j], #[trigger] snapshots@[j], ids@, j),
            forall|j: int| i <= j < before.len() ==> #[trigger] snapshots@[j] == before[j],
        decreases snapshots@.len() - i,
    {
        if snapshots[i].input_id.as_str().is_empty() {
            snapshots[i].input_id = ids[i].clone();
        }
        i = i + 1;
    }
}

/// Give the daemon's output ids to the src pads without one.
pub fn adopt_output_ids(snapshots: &mut Vec<SrcPadSnapshot>, ids: &[String])
    ensures
        final(snapshots)@.len() == old(snapshots)@.len(),
        forall|i: int|
            0 <= i < old(snapshots)@.len() ==> src_adopted(
                old(snapshots)@[i],
                #[trigger] final(snapshots)@[i],
                ids@,
                i,
            ),
{
    let ghost before = snapshots@;
    let mut i: usize = 0;
    while i < snapshots.len() && i < ids.len()
        invariant
            snapshots@.len() == before.len(),
            i <= snapshots@.len(),
            i <= ids@.len(),
            forall|j: int|
                0 <= j < i ==> src_adopted(before[j], #[trigger] snapshots@[j], ids@, j),
            forall|j: int| i <= j < before.len() ==> #[trigger] snapshots@[j] == before[j],
        decreases snapshots@.len() - i,
    {
        if snapshots[i].output_id.as_str().is_empty() {
            snapshots[i].output_id = ids[i].clone();
        }
        i = i + 1;
    }
}

// ---- fixation ---------------------------------------------------------------

/// A fixed topology: the routes of every output, what the daemon is told of it, and the
/// graph.
#[derive(Debug)]
pub struct Fixation {
    pub topology: FrozenTopology,
    pub output_routes: Vec<Vec<ActiveMapRoute>>,
    pub sync_entries: Vec<(String, Vec<ActiveMapEntry>)>,
    pub graph: InternalGraph,
}

/// The routes of output `k`: those of its map, or the identity map where it has none.
pub open spec fn output_routes_ok(
    topology: FrozenTopology,
    sinks: Seq<SinkPadSnapshot>,
    srcs: Seq<SrcPadSnapshot>,
    k: int,
    routes: Seq<Route>,
) -> bool {
    match srcs[k].active_map {
        None => routes == identity_routes(
            topology,
            k,
            srcs[k].negotiated_channels,
            sinks,
            srcs.len() as int,
        ),
        Some(fields) => (forall|i: int| 0 <= i < fields@.len() ==> #[trigger] field_ok(fields@, i))
            && routes_of_fields(routes, fields@, fields@.len() as int),
    }
}

/// The dense map of an output, as the daemon is told.
pub open spec fn dense_map(channels: u32, routes: Seq<Route>) -> Seq<Slot> {
    Seq::new(channels as nat, |c: int| slot_of(routes, c))
}

pub open spec fn topology_of(
    topology: FrozenTopology,
    sinks: Seq<SinkPadSnapshot>,
    srcs: Seq<SrcPadSnapshot>,
) -> bool {
    &&& topology.wf()
    &&& topology.input_ids@ == sinks.map_values(|s: SinkPadSnapshot| s.input_id)
    &&& topology.output_ids@ == srcs.map_values(|s: SrcPadSnapshot| s.output_id)
    &&& topology.input_channels@ == sink_channels(sinks)
    &&& topology.output_channels@ == src_channels(srcs)
}

/// The routes and the daemon's view of the first `n` outputs.
pub open spec fn outputs_ok(
    topology: FrozenTopology,
    sinks: Seq<SinkPadSnapshot>,
    srcs: Seq<SrcPadSnapshot>,
    output_routes: Seq<Vec<ActiveMapRoute>>,
    sync_entries: Seq<(String, Vec<ActiveMapEntry>)>,
    n: int,
) -> bool {
    &&& output_routes.len() == n
    &&& sync_entries.len() == n
    &&& forall|k: int|
        0 <= k < n ==> output_routes_ok(
            topology,
            sinks,
            srcs,
            k,
            (#[trigger] output_routes[k]).deep_view(),
        )
    &&& forall|k: int|
        0 <= k < n ==> (#[trigger] sync_entries[k]).0 == srcs[k].output_id
            && sync_entries[k].1.deep_view() == dense_map(
            srcs[k].negotiated_channels,
            output_routes[k].deep_view(),
        )
}

/// The map of an output can be read: it has none, or every field of it is a route.
pub open spec fn map_readable(src: SrcPadSnapshot) -> bool {
    src.active_map matches Some(fields) ==> forall|i: int|
        0 <= i < fields@.len() ==> #[trigger] field_ok(fields@, i)
}

/// Output `k` is the first whose map does not fit the topology, `routes` are those of the
/// outputs up to it, and `e` says what is wrong with its own.
pub open spec fn first_refused(
    topology: FrozenTopology,
    sinks: Seq<SinkPadSnapshot>,
    srcs: Seq<SrcPadSnapshot>,
    routes: Seq<Seq<Route>>,
    k: int,
    e: ActiveMapValidationError,
) -> bool {
    &&& 0 <= k < srcs.len()
    &&& routes.len() == k + 1
    &&& forall|j: int|
        0 <= j <= k ==> output_routes_ok(topology, sinks, srcs, j, #[trigger] routes[j])
    &&& forall|j: int|
        0 <= j < k ==> map_ok(topology, srcs[j].negotiated_channels, #[trigger] routes[j])
    &&& map_refused(topology, srcs[k].negotiated_channels, routes[k], e)
}

/// What fixing a topology comes to: the topology with the routes and the graph that follow
/// from it, or what stands in the way.
pub open spec fn fixated(
    sinks: Seq<SinkPadSnapshot>,
    srcs: Seq<SrcPadSnapshot>,
    r: Result<Fixation, FixationError>,
) -> bool {
    match r {
        Ok(f) => sinks.len() > 0 && srcs.len() > 0 && topology_of(
            f.topology,
            sinks,
            srcs,
        ) && outputs_ok(
            f.topology,
            sinks,
            srcs,
            f.output_routes@,
            f.sync_entries@,
            srcs.len() as int,
        ) && graph_ok(f.graph, f.topology, all_routes(f.output_routes@)),
        Err(FixationError::NoPads) => sinks.len() == 0 || srcs.len() == 0,
        Err(FixationError::ActiveMap(k, e)) => sinks.len() > 0 && k < srcs.len() && (forall|j: int|
            0 <= j < k ==> map_readable(#[trigger] srcs[j])) && (
        srcs[k as int].active_map matches Some(fields) && exists|i: int|
            0 <= i < fields@.len() && (forall|j: int|
                0 <= j < i ==> #[trigger] field_ok(fields@, j)) && !field_ok(fields@, i)
                && #[trigger] field_refused(fields@, i, e)),
        Err(FixationError::Graph(GraphError::InvalidMap(e))) => sinks.len() > 0 && (forall|j: int|
            0 <= j < srcs.len() ==> map_readable(#[trigger] srcs[j])) && exists|
            topology: FrozenTopology,
            routes: Seq<Seq<Route>>,
            k: int,
        |
            topology_of(topology, sinks, srcs) && #[trigger] first_refused(
                topology,
                sinks,
                srcs,
                routes,
                k,
                e,
            ),
        Err(_) => false,
    }
}

/// Fix the topology of the element: what follows once the channel counts are settled and
/// the ids are known.
pub fn fixate(sinks: &[SinkPadSnapshot], srcs: &[SrcPadSnapshot]) -> (r: Result<
    Fixation,
    FixationError,
>)
    requires
        total_channels(sink_channels(sinks@)) <= u32::MAX,
    ensures
        fixated(sinks@, srcs@, r),
{
    if sinks.len() == 0 || srcs.len() == 0 {
        return Err(FixationError::NoPads);
    }
    let mut input_ids: Vec<String> = Vec::new();
    let mut i: usize = 0;
    while i < sinks.len()
        invariant
            i <= sinks@.len(),
            input_ids@ =~= sinks@.map_values(|s: SinkPadSnapshot| s.input_id).take(i as int),
        decreases sinks@.len() - i,
    {
        input_ids.push(sinks[i].input_id.clone());
        i = i + 1;
    }
    let mut output_ids: Vec<String> = Vec::new();
    let mut j: usize = 0;
    while j < srcs.len()
        invariant
            j <= srcs@.len(),
            output_ids@ =~= srcs@.map_values(|s: SrcPadSnapshot| s.output_id).take(j as int),
        decreases srcs@.len() - j,
    {
        output_ids.push(srcs[j].output_id.clone());
        j = j + 1;
    }
    let topology = FrozenTopology::from_snapshots(
        sinks,
        srcs,
        input_ids.as_slice(),
        output_ids.as_slice(),
    );
    assert(topology_of(topology, sinks@, srcs@)) by {
        assert(topology.input_ids@ =~= sinks@.map_values(|s: SinkPadSnapshot| s.input_id));
        assert(topology.output_ids@ =~= srcs@.map_values(|s: SrcPadSnapshot| s.output_id));
    }
    let mut output_routes: Vec<Vec<ActiveMapRoute>> = Vec::new();
    let mut sync_entries: Vec<(String, Vec<ActiveMapEntry>)> = Vec::new();
    let mut k: usize = 0;
    while k < srcs.len()
        invariant
            k <= srcs@.len(),
            sinks@.len() > 0,
            outputs_ok(topology, sinks@, srcs@, output_routes@, sync_entries@, k as int),
        decreases srcs@.len() - k,
    {
        let src = &srcs[k];
        let routes: Vec<ActiveMapRoute> = match &src.active_map {
            Some(fields) => match parse_active_map_structure(fields.as_slice()) {
                Ok(routes) => routes,
                Err(e) => {
                    assert forall|j: int| 0 <= j < k implies map_readable(
                        #[trigger] srcs@[j],
                    ) by {
                        assert(output_routes_ok(
                            topology,
                            sinks@,
                            srcs@,
                            j,
                            output_routes@[j].deep_view(),
                        ));
                    }
                    return Err(FixationError::ActiveMap(k, e));
                },
            },
            None => default_identity_routes(
                &topology,
                k,
                src.negotiated_channels,
                sinks,
                srcs.len(),
            ),
        };
        let entries = active_map_entries_from_routes(src.negotiated_channels, routes.as_slice());
        assert(output_routes_ok(topology, sinks@, srcs@, k as int, routes.deep_view()));
        output_routes.push(routes);
        sync_entries.push((src.output_id.clone(), entries));
        k = k + 1;
    }
    match InternalGraph::build(&topology, output_routes.as_slice()) {
        Ok(graph) => Ok(Fixation { topology, output_routes, sync_entries, graph }),
        Err(e) => {
            proof {
                assert forall|j: int| 0 <= j < srcs@.len() implies map_readable(
                    #[trigger] srcs@[j],
                ) by {
                    assert(output_routes_ok(
                        topology,
                        sinks@,
                        srcs@,
                        j,
                        output_routes@[j].deep_view(),
                    ));
                }
                if e is InvalidMap {
                    let m = e->InvalidMap_0;
                    let k = choose|k: int|
                        0 <= k < output_routes@.len() && (forall|j: int|
                            0 <= j < k ==> map_ok(
                                topology,
                                topology.output_channels@[j],
                                (#[trigger] output_routes@[j]).deep_view(),
                            )) && map_refused(
                            topology,
                            topology.output_channels@[k],
                            (#[trigger] output_routes@[k]).deep_view(),
                            m,
                        );
                    let routes = all_routes(output_routes@).take(k + 1);
                    assert forall|j: int| 0 <= j <= k implies output_routes_ok(
                        topology,
                        sinks@,
                        srcs@,
                        j,
                        #[trigger] routes[j],
                    ) && topology.output_channels@[j] == srcs@[j].negotiated_channels by {
                        assert(routes[j] == output_routes@[j].deep_view());
                        assert(output_routes_ok(
                            topology,
                            sinks@,
                            srcs@,
                            j,
                            output_routes@[j].deep_view(),
                        ));
                    }
                    assert forall|j: int| 0 <= j < k implies map_ok(
                        topology,
                        srcs@[j].negotiated_channels,
                        #[trigger] routes[j],
                    ) by {
                        assert(routes[j] == output_routes@[j].deep_view());
                    }
                    assert(routes[k] == output_routes@[k].deep_view());
                    assert(first_refused(topology, sinks@, srcs@, routes, k, m));
                }
            }
            Err(FixationError::Graph(e))
        },
    }
}

// ---- activations ------------------------------------------------------------

/// What an activation comes to: the matrix to set on an output, or why it is refused.
pub open spec fn activation_applied(
    topology: Option<FrozenTopology>,
    graph: Option<InternalGraph>,
    req: ChannelMappingActivationRequest,
    r: Result<(usize, Vec<Vec<u8>>), String>,
) -> bool {
    match topology {
        None => r matches Err(reason) && reason@ == "activation before fixation"@,
        Some(t) => {
            let output = first_position(t.output_ids@, req.output_id@);
            let routes = routes_of_slots(req.active_map.deep_view());
            match output {
                None => r matches Err(reason) && reason@ == "invalid activation active map: "@
                    + ActiveMapValidationError::OutputChannelOutOfRange(0, 0).text(),
                Some(k) => {
                    let channels = channels_of_output(t, k);
                    if !map_ok(t, channels, routes) {
                        r matches Err(reason) && exists|e: ActiveMapValidationError| #[trigger]
                            map_refused(t, channels, routes, e) && reason@
                                == "invalid activation active map: "@ + e.text()
                    } else {
                        match graph {
                            None => r matches Err(reason) && reason@
                                == "internal graph not built"@,
                            Some(g) => if k >= g.src_legs@.len() {
                                r matches Err(reason) && reason@
                                    == "matrix update failed: no matrix for src index "@
                                    + decimal(k as nat)
                            } else {
                                r matches Ok((index, matrix)) && index == k && matrix_of(
                                    matrix@,
                                    channels as int,
                                    t.input_bus_channels as int,
                                    |o: int, b: int| connects(t, routes, o, b),
                                )
                            },
                        }
                    }
                },
            }
        },
    }
}

proof fn refused_map_is_not_ok(
    topology: FrozenTopology,
    channels: u32,
    routes: Seq<Route>,
    e: ActiveMapValidationError,
)
    requires
        map_refused(topology, channels, routes, e),
    ensures
        !map_ok(topology, channels, routes),
{
}

/// Carry out an activation: the output whose matrix is to be set, and the matrix.
pub fn apply_activation(
    topology: Option<&FrozenTopology>,
    graph: Option<&InternalGraph>,
    req: &ChannelMappingActivationRequest,
) -> (r: Result<(usize, Vec<Vec<u8>>), String>)
    requires
        topology matches Some(t) ==> t.wf(),
    ensures
        activation_applied(
            match topology {
                Some(t) => Some(*t),
                None => None,
            },
            match graph {
                Some(g) => Some(*g),
                None => None,
            },
            *req,
            r,
        ),
{
    let t = match topology {
        Some(t) => t,
        None => {
            return Err("activation before fixation".to_owned());
        },
    };
    let routes = match routes_from_activation_request(t, req) {
        Ok(routes) => routes,
        Err(e) => {
            proof {
                if let Some(k) = first_position(t.output_ids@, req.output_id@) {
                    refused_map_is_not_ok(
                        *t,
                        channels_of_output(*t, k),
                        routes_of_slots(req.active_map.deep_view()),
                        e,
                    );
                }
            }
            return Err(joined("invalid activation active map: ", e.message().as_str()));
        },
    };
    let src_index: usize = match position_of(t.output_ids.as_slice(), req.output_id.as_str()) {
        Some(k) => k,
        None => {
            assert(false);
            return Err(around("unknown output_id `", req.output_id.as_str(), "`"));
        },
    };
    let g = match graph {
        Some(g) => g,
        None => {
            return Err("internal graph not built".to_owned());
        },
    };
    match g.set_output_matrix(t, src_index, routes.as_slice()) {
        Ok(matrix) => Ok((src_index, matrix)),
        Err(GraphError::NoMatrix { .. }) => Err(
            joined(
                "matrix update failed: no matrix for src index ",
                decimal_text(src_index as u64).as_str(),
            ),
        ),
        Err(e) => {
            proof {
                if e is InvalidMap {
                    refused_map_is_not_ok(
                        *t,
                        channels_of_output(*t, src_index as int),
                        routes.deep_view(),
                        e->InvalidMap_0,
                    );
                }
                assert(false);
            }
            Err("internal graph not built".to_owned())
        },
    }
}

/// An activation that cannot be applied is answered with why: before the pads are settled, with
/// that; for a map that does not fit, with what does not; without a leg for its output, with the
/// output's number. One that fits and has a leg is applied there.
pub proof fn failed_activations_say_why(
    topology: FrozenTopology,
    graph: Option<InternalGraph>,
    req: ChannelMappingActivationRequest,
    r: Result<(usize, Vec<Vec<u8>>), String>,
    early: Result<(usize, Vec<Vec<u8>>), String>,
)
    requires
        activation_applied(Some(topology), graph, req, r),
        activation_applied(None, graph, req, early),
    ensures
        early matches Err(reason) && says(reason@, "before fixation"@),
        first_position(topology.output_ids@, req.output_id@) matches Some(k) ==> {
            let fits = map_ok(
                topology,
                channels_of_output(topology, k),
                routes_of_slots(req.active_map.deep_view()),
            );
            &&& r is Ok <==> fits && (graph matches Some(g) && k < g.src_legs@.len())
            &&& r matches Ok((index, _)) ==> index == k
            &&& fits && (graph matches Some(g) && k >= g.src_legs@.len()) ==> (r matches Err(
                reason,
            ) && has_suffix(reason@, decimal(k as nat)))
            &&& !fits ==> (r matches Err(reason) && has_prefix(reason@, "invalid activation"@))
        },
        first_position(topology.output_ids@, req.output_id@) is None ==> (r matches Err(reason)
            && has_prefix(reason@, "invalid activation"@)),
{
    reveal_strlit("activation before fixation");
    reveal_strlit("before fixation");
    reveal_strlit("invalid activation active map: ");
    reveal_strlit("invalid activation");
    says_at("activation before fixation"@, "before fixation"@, 11);
    match r {
        Err(reason) => {
            let intro = "invalid activation active map: "@;
            assert(reason@.len() >= intro.len() && reason@.take(intro.len() as int) == intro
                ==> has_prefix(reason@, "invalid activation"@)) by {
                assert(intro.take(18) =~= "invalid activation"@);
                if reason@.len() >= intro.len() && reason@.take(intro.len() as int) == intro {
                    assert(reason@.take(18) =~= intro.take(18));
                }
            }
            assert forall|rest: Seq<char>| reason@ == #[trigger] (intro + rest) implies reason@.take(
                intro.len() as int,
            ) == intro by {
                assert((intro + rest).take(intro.len() as int) =~= intro);
            }
            if let Some(k) = first_position(topology.output_ids@, req.output_id@) {
                beginnings_and_ends(
                    "matrix update failed: no matrix for src index "@,
                    decimal(k as nat),
                );
            }
        },
        Ok(_) => {},
    }
}

} // verus!
