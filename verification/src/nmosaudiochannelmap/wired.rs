//! What is wired and what the daemon is told, in terms of the pads as they were found.

use super::building::{
    found_channels, sink_snapshots, sinks_adopted, src_snapshots, srcs_adopted, wires, Building,
    BuildingAction,
};
use super::caps::pad_channels;
use super::fixation::{
    activation_applied, dense_map, fixated, sink_adopted, sink_snapshot, src_adopted, src_snapshot, Fixation, FoundSinkPad,
    FoundSrcPad,
};
use super::graph::{all_routes, src_leg_ok, InternalGraph};
use crate::channel_mapping::active_map::{
    field_ok, field_output, field_route, field_routes, field_unrouted, identity_routes,
    slot_of, sorted_by_output, stands_for, ActiveMapRoute, Route, Slot,
};
use crate::channel_mapping::matrix::{
    channels_of_output, connects, identity_map_is_identity, identity_map_pairs_pads, map_ok, output_takes_one_input,
    route_ok, routes_of_slots, slots_are_routes,
};
use crate::channel_mapping::request::{
    mapping_request, AddChannelMappingRequest, ChannelMappingParentType,
};
use crate::channel_mapping::types::{
    sink_channels, src_channels, total_channels, ActiveMapField, FrozenTopology, SinkPadSnapshot,
    SrcPadSnapshot,
};
use crate::channel_mapping_session::ChannelMappingActivationRequest;
use crate::text::{
    decimal, decimal_round_trip, first_index, first_index_is_least, first_position,
    first_position_is_least, lower_ascii, same_ignoring_ascii_case, unsigned_value,
};
use vstd::prelude::*;

verus! {

/// The pads that were found lead to a fixation: their snapshots are taken, those without an id
/// take the daemon's, if it gave any, and the topology is fixed.
pub open spec fn leads_to(
    sinks: Seq<FoundSinkPad>,
    srcs: Seq<FoundSrcPad>,
    input_ids: Seq<String>,
    output_ids: Seq<String>,
    f: Fixation,
) -> bool {
    exists|
        a: Seq<SinkPadSnapshot>,
        b: Seq<SrcPadSnapshot>,
        sinks_taken: Seq<SinkPadSnapshot>,
        srcs_taken: Seq<SrcPadSnapshot>,
    |
        sink_snapshots(sinks, a) && src_snapshots(srcs, b) && #[trigger] sinks_adopted(
            a,
            sinks_taken,
            input_ids,
        ) && #[trigger] srcs_adopted(b, srcs_taken, output_ids) && fixated(
            sinks_taken,
            srcs_taken,
            Ok(f),
        )
}

/// The id of a pad: its own, or the daemon's at its place where it has none.
pub open spec fn effective_id(own: String, ids: Seq<String>, i: int) -> Seq<char> {
    if own@.len() == 0 && i < ids.len() {
        ids[i]@
    } else {
        own@
    }
}

/// Sink pad `i` is the first with this id.
pub open spec fn first_with_id(
    sinks: Seq<FoundSinkPad>,
    ids: Seq<String>,
    id: Seq<char>,
    i: int,
) -> bool {
    &&& 0 <= i < sinks.len()
    &&& effective_id(sinks[i].state.input_id, ids, i) == id
    &&& forall|j: int|
        0 <= j < i ==> effective_id((#[trigger] sinks[j]).state.input_id, ids, j) != id
}

/// Row `c` of a matrix has a single 1, in column `b`.
pub open spec fn takes_only(matrix: Seq<Vec<u8>>, c: int, b: int) -> bool {
    &&& 0 <= c < matrix.len()
    &&& 0 <= b < matrix[c]@.len()
    &&& forall|x: int|
        0 <= x < matrix[c]@.len() ==> #[trigger] matrix[c]@[x] == if x == b {
            1u8
        } else {
            0u8
        }
}

/// Row `c` of a matrix is all zeros.
pub open spec fn takes_nothing(matrix: Seq<Vec<u8>>, c: int) -> bool {
    &&& 0 <= c < matrix.len()
    &&& forall|x: int| 0 <= x < matrix[c]@.len() ==> #[trigger] matrix[c]@[x] == 0
}

/// The bus channel at which the channels of sink pad `i` begin: behind those of the pads before
/// it.
pub open spec fn bus_start(sinks: Seq<FoundSinkPad>, i: int) -> int {
    total_channels(found_channels(sinks).take(i)) as int
}

/// What a fixation holds of the pads.
proof fn pads_are_kept(
    sinks: Seq<FoundSinkPad>,
    srcs: Seq<FoundSrcPad>,
    input_ids: Seq<String>,
    output_ids: Seq<String>,
    f: Fixation,
) -> (taken: (Seq<SinkPadSnapshot>, Seq<SrcPadSnapshot>))
    requires
        leads_to(sinks, srcs, input_ids, output_ids, f),
    ensures
        fixated(taken.0, taken.1, Ok(f)),
        taken.0.len() == sinks.len(),
        taken.1.len() == srcs.len(),
        sink_channels(taken.0) == found_channels(sinks),
        f.topology.input_channels@ == found_channels(sinks),
        f.topology.input_ids@.len() == sinks.len(),
        f.topology.output_ids@.len() == srcs.len(),
        forall|i: int|
            0 <= i < sinks.len() ==> (#[trigger] f.topology.input_ids@[i])@ == effective_id(
                sinks[i].state.input_id,
                input_ids,
                i,
            ),
        forall|k: int|
            0 <= k < srcs.len() ==> (#[trigger] f.topology.output_ids@[k])@ == effective_id(
                srcs[k].state.output_id,
                output_ids,
                k,
            ),
        forall|k: int|
            0 <= k < srcs.len() ==> (#[trigger] taken.1[k]).active_map
                == srcs[k].state.active_map && pad_channels(srcs[k].caps, srcs[k].state.channels)
                == Ok::<u32, super::caps::ChannelsError>(taken.1[k].negotiated_channels)
                && taken.1[k].output_id@ == effective_id(srcs[k].state.output_id, output_ids, k),
        f.graph.src_legs@.len() == srcs.len(),
        f.sync_entries@.len() == srcs.len(),
        f.output_routes@.len() == srcs.len(),
        forall|k: int|
            0 <= k < srcs.len() ==> src_leg_ok(
                #[trigger] f.graph.src_legs@[k],
                f.topology,
                k,
                f.output_routes@[k].deep_view(),
            ),
        forall|k: int|
            0 <= k < srcs.len() ==> (#[trigger] f.topology.output_channels@[k])
                == taken.1[k].negotiated_channels,
{
    let (a, b, sinks_taken, srcs_taken) = choose|
        a: Seq<SinkPadSnapshot>,
        b: Seq<SrcPadSnapshot>,
        sinks_taken: Seq<SinkPadSnapshot>,
        srcs_taken: Seq<SrcPadSnapshot>,
    |
        sink_snapshots(sinks, a) && src_snapshots(srcs, b) && #[trigger] sinks_adopted(
            a,
            sinks_taken,
            input_ids,
        ) && #[trigger] srcs_adopted(b, srcs_taken, output_ids) && fixated(
            sinks_taken,
            srcs_taken,
            Ok(f),
        );
    assert forall|i: int| 0 <= i < sinks.len() implies sink_channels(sinks_taken)[i]
        == found_channels(sinks)[i] && (#[trigger] sinks_taken[i]).input_id@ == effective_id(
        sinks[i].state.input_id,
        input_ids,
        i,
    ) by {
        assert(sink_snapshot(sinks[i], a[i]));
        assert(sink_adopted(a[i], sinks_taken[i], input_ids, i));
    }
    assert forall|i: int| 0 <= i < sinks.len() implies #[trigger] sink_channels(sinks_taken)[i]
        == found_channels(sinks)[i] by {
        assert(sinks_taken[i].negotiated_channels == found_channels(sinks)[i]);
    }
    assert(sink_channels(sinks_taken) =~= found_channels(sinks));
    assert forall|k: int| 0 <= k < srcs.len() implies (#[trigger] srcs_taken[k]).active_map
        == srcs[k].state.active_map && pad_channels(srcs[k].caps, srcs[k].state.channels) == Ok::<
        u32,
        super::caps::ChannelsError,
    >(srcs_taken[k].negotiated_channels) && srcs_taken[k].output_id@ == effective_id(
        srcs[k].state.output_id,
        output_ids,
        k,
    ) by {
        assert(src_snapshot(srcs[k], b[k]));
        assert(src_adopted(b[k], srcs_taken[k], output_ids, k));
    }
    assert forall|i: int| 0 <= i < sinks.len() implies (#[trigger] f.topology.input_ids@[i])@
        == effective_id(sinks[i].state.input_id, input_ids, i) by {
        assert(f.topology.input_ids@[i] == sinks_taken[i].input_id);
    }
    assert forall|k: int| 0 <= k < srcs.len() implies (#[trigger] f.topology.output_ids@[k])@
        == effective_id(srcs[k].state.output_id, output_ids, k) by {
        assert(f.topology.output_ids@[k] == srcs_taken[k].output_id);
    }
    assert forall|k: int| 0 <= k < srcs.len() implies src_leg_ok(
        #[trigger] f.graph.src_legs@[k],
        f.topology,
        k,
        f.output_routes@[k].deep_view(),
    ) by {
        assert(all_routes(f.output_routes@)[k] == f.output_routes@[k].deep_view());
    }
    (sinks_taken, srcs_taken)
}

/// In routes that name every output channel once, the slot of a routed channel is its route.
proof fn slot_is_of_the_route(routes: Seq<Route>, r: int)
    requires
        sorted_by_output(routes),
        0 <= r < routes.len(),
    ensures
        slot_of(routes, routes[r].output_channel as int) == (Slot {
            input_id: Some(routes[r].input_id),
            input_channel: Some(routes[r].input_channel),
        }),
    decreases routes.len(),
{
    if r < routes.len() - 1 {
        assert(routes[r].output_channel < routes[routes.len() - 1].output_channel);
        assert(sorted_by_output(routes.drop_last()));
        slot_is_of_the_route(routes.drop_last(), r);
    }
}

/// Where no route goes to a channel, its slot is empty.
proof fn slot_is_empty(routes: Seq<Route>, c: int)
    requires
        forall|r: int| 0 <= r < routes.len() ==> (#[trigger] routes[r]).output_channel != c,
    ensures
        slot_of(routes, c) == (Slot { input_id: None, input_channel: None }),
    decreases routes.len(),
{
    if routes.len() > 0 {
        assert(routes[routes.len() - 1].output_channel != c);
        assert forall|r: int| 0 <= r < routes.drop_last().len() implies (
        #[trigger] routes.drop_last()[r]).output_channel != c by {
            assert(routes[r].output_channel != c);
        }
        slot_is_empty(routes.drop_last(), c);
    }
}

/// A reference of an id, a colon and a decimal number is read as just that.
proof fn reference_is_read(fields: Seq<ActiveMapField>, j: int, c: u32, id: Seq<char>, ch: u32)
    requires
        0 <= j < fields.len(),
        fields[j].key@ == decimal(c as nat),
        fields[j].value is Ok,
        fields[j].value->Ok_0 is Some,
        fields[j].value->Ok_0->0@ == id.push(':') + decimal(ch as nat),
        id.len() > 0,
        !id.contains(':'),
    ensures
        field_routes(fields, j),
        field_route(fields[j]) == (Route { output_channel: c, input_id: id, input_channel: ch }),
{
    let text = fields[j].value->Ok_0->0@;
    decimal_round_trip(c as nat, u32::MAX as nat);
    decimal_round_trip(ch as nat, u32::MAX as nat);
    let at = id.len() as int;
    assert(text[at] == ':');
    assert(!same_ignoring_ascii_case(text, "null"@)) by {
        reveal_strlit("null");
        if same_ignoring_ascii_case(text, "null"@) {
            assert(lower_ascii(text[at]) == lower_ascii("null"@[at]));
        }
    }
    first_index_is_least(text, ':');
    assert forall|x: int| 0 <= x < at implies text[x] != ':' by {
        assert(text[x] == id[x]);
        assert(id.contains(id[x]));
    }
    let colon = first_index(text, ':');
    assert(colon == at);
    assert(text.take(colon) =~= id);
    assert(text.skip(colon + 1) =~= decimal(ch as nat));
}

/// The map that is wired for an output is that of the src pad's own `active-map`: where a field
/// of it says that output channel `c` takes channel `ch` of input `id`, output channel `c` takes
/// that channel of the first sink pad with that id and nothing else, and the daemon is told so.
pub proof fn wired_map_follows_the_pad(
    sinks: Seq<FoundSinkPad>,
    srcs: Seq<FoundSrcPad>,
    input_ids: Seq<String>,
    output_ids: Seq<String>,
    f: Fixation,
    k: int,
    j: int,
    c: u32,
    id: Seq<char>,
    ch: u32,
)
    requires
        leads_to(sinks, srcs, input_ids, output_ids, f),
        0 <= k < srcs.len(),
        srcs[k].state.active_map matches Some(fields) && 0 <= j < fields@.len() && fields@[j].key@
            == decimal(c as nat) && fields@[j].value is Ok && fields@[j].value->Ok_0 is Some
            && fields@[j].value->Ok_0->0@ == id.push(':') + decimal(ch as nat),
        id.len() > 0,
        !id.contains(':'),
    ensures
        k < f.graph.src_legs@.len(),
        exists|i: int| #[trigger]
            first_with_id(sinks, input_ids, id, i) && ch < found_channels(sinks)[i] && takes_only(
                f.graph.src_legs@[k].matrix@,
                c as int,
                bus_start(sinks, i) + ch,
            ),
        f.sync_entries@[k].0@ == effective_id(srcs[k].state.output_id, output_ids, k),
        c < f.sync_entries@[k].1@.len(),
        f.sync_entries@[k].1@[c as int].deep_view() == (Slot {
            input_id: Some(id),
            input_channel: Some(ch),
        }),
{
    let (a, b) = pads_are_kept(sinks, srcs, input_ids, output_ids, f);
    let t = f.topology;
    let fields = srcs[k].state.active_map->0@;
    assert(b[k].active_map == srcs[k].state.active_map);
    let routes = f.output_routes@[k].deep_view();
    reference_is_read(fields, j, c, id, ch);
    let wanted = Route { output_channel: c, input_id: id, input_channel: ch };
    assert(routes.contains(wanted));
    let r = routes.index_of(wanted);
    assert(routes[r] == wanted);
    let leg = f.graph.src_legs@[k];
    assert(src_leg_ok(leg, t, k, routes));
    let channels = t.output_channels@[k];
    assert(route_ok(t, channels, routes, r));
    first_position_is_least(t.input_ids@, id);
    let i = first_position(t.input_ids@, id)->0;
    assert(first_with_id(sinks, input_ids, id, i)) by {
        assert(t.input_ids@[i]@ == id);
        assert forall|x: int| 0 <= x < i implies effective_id(
            (#[trigger] sinks[x]).state.input_id,
            input_ids,
            x,
        ) != id by {
            assert(t.input_ids@[x]@ != id);
        }
    }
    let bus = bus_start(sinks, i) + ch;
    assert(t.bus_index(id, ch) == Some(bus));
    assert(connects(t, routes, c as int, bus)) by {
        assert(routes[r].output_channel == c);
    }
    crate::channel_mapping::types::total_channels_grows(t.input_channels@, i);
    assert forall|x: int| 0 <= x < leg.matrix@[c as int]@.len() implies #[trigger] leg.matrix@[c as int]@[x]
        == if x == bus {
        1u8
    } else {
        0u8
    } by {
        if connects(t, routes, c as int, x) {
            output_takes_one_input(t, channels, routes, c as int, x, bus);
        }
    }
    assert(takes_only(leg.matrix@, c as int, bus));
    slot_is_of_the_route(routes, r);
    let told = f.sync_entries@[k].1;
    assert(f.sync_entries@[k].1.deep_view() == dense_map(b[k].negotiated_channels, routes));
    assert(told.deep_view().len() == told@.len());
    assert(told.deep_view()[c as int] == slot_of(routes, c as int));
    assert(told.deep_view()[c as int] == told@[c as int].deep_view());
}

/// Where a src pad has an `active-map`, an output channel that no field of it routes takes
/// nothing, and the daemon is told so.
pub proof fn unrouted_channels_take_nothing(
    sinks: Seq<FoundSinkPad>,
    srcs: Seq<FoundSrcPad>,
    input_ids: Seq<String>,
    output_ids: Seq<String>,
    f: Fixation,
    k: int,
    c: u32,
)
    requires
        leads_to(sinks, srcs, input_ids, output_ids, f),
        0 <= k < srcs.len(),
        srcs[k].state.active_map matches Some(fields) && forall|j: int|
            0 <= j < fields@.len() && unsigned_value(
                (#[trigger] fields@[j]).key@,
                u32::MAX as nat,
            ) == Some(c as nat) ==> field_unrouted(fields@[j]),
        pad_channels(srcs[k].caps, srcs[k].state.channels) matches Ok(n) && c < n,
    ensures
        k < f.graph.src_legs@.len(),
        takes_nothing(f.graph.src_legs@[k].matrix@, c as int),
        c < f.sync_entries@[k].1@.len(),
        f.sync_entries@[k].1@[c as int].deep_view() == (Slot {
            input_id: None,
            input_channel: None,
        }),
{
    let (a, b) = pads_are_kept(sinks, srcs, input_ids, output_ids, f);
    let t = f.topology;
    let fields = srcs[k].state.active_map->0@;
    assert(b[k].active_map == srcs[k].state.active_map);
    let routes = f.output_routes@[k].deep_view();
    let leg = f.graph.src_legs@[k];
    assert(src_leg_ok(leg, t, k, routes));
    assert(t.output_channels@[k] == b[k].negotiated_channels);
    assert forall|r: int| 0 <= r < routes.len() implies (#[trigger] routes[r]).output_channel
        != c by {
        assert(stands_for(fields, fields.len() as int, routes[r]));
        let j = choose|j: int|
            j < fields.len() && #[trigger] field_routes(fields, j) && routes[r] == field_route(
                fields[j],
            );
        assert(field_ok(fields, j));
        assert(field_output(fields[j]) is Some);
        assert(fields[j].key@ == fields[j].key@);
    }
    slot_is_empty(routes, c as int);
    let told = f.sync_entries@[k].1;
    assert(f.sync_entries@[k].1.deep_view() == dense_map(b[k].negotiated_channels, routes));
    assert(told.deep_view().len() == told@.len());
    assert(told.deep_view()[c as int] == slot_of(routes, c as int));
    assert(told.deep_view()[c as int] == told@[c as int].deep_view());
}

/// What is wired comes from the pads that were found: a graph that is wired after snapshots of
/// the pads took over the daemon's ids is the graph of a fixation that the pads lead to, and the
/// maps that are still to be told are its maps.
pub proof fn wired_graph_is_of_the_pads(
    sinks: Seq<FoundSinkPad>,
    srcs: Seq<FoundSrcPad>,
    a: Seq<SinkPadSnapshot>,
    b: Seq<SrcPadSnapshot>,
    input_ids: Seq<String>,
    output_ids: Seq<String>,
    sinks_taken: Seq<SinkPadSnapshot>,
    srcs_taken: Seq<SrcPadSnapshot>,
    next: Option<Building>,
    action: BuildingAction,
)
    requires
        sink_snapshots(sinks, a),
        src_snapshots(srcs, b),
        sinks_adopted(a, sinks_taken, input_ids),
        srcs_adopted(b, srcs_taken, output_ids),
        wires(sinks_taken, srcs_taken, next, action),
        action is Wire,
    ensures
        exists|f: Fixation| #[trigger]
            leads_to(sinks, srcs, input_ids, output_ids, f) && action == (BuildingAction::Wire {
                topology: f.topology,
                graph: f.graph,
            }) && next == Some(Building::Wiring { rest: f.sync_entries }),
{
    let topology = action->Wire_topology;
    let graph = action->Wire_graph;
    let rest = next->0->Wiring_rest;
    let f = choose|f: Fixation| #[trigger]
        fixated(sinks_taken, srcs_taken, Ok(f)) && f.topology == topology && f.graph == graph
            && f.sync_entries == rest;
    assert(leads_to(sinks, srcs, input_ids, output_ids, f));
}

/// The same where the daemon holds the mapping already, and the pads keep the ids they have.
pub proof fn rewired_graph_is_of_the_pads(
    sinks: Seq<FoundSinkPad>,
    srcs: Seq<FoundSrcPad>,
    a: Seq<SinkPadSnapshot>,
    b: Seq<SrcPadSnapshot>,
    next: Option<Building>,
    action: BuildingAction,
)
    requires
        sink_snapshots(sinks, a),
        src_snapshots(srcs, b),
        wires(a, b, next, action),
        action is Wire,
    ensures
        exists|f: Fixation| #[trigger]
            leads_to(sinks, srcs, Seq::empty(), Seq::empty(), f) && action == (
            BuildingAction::Wire { topology: f.topology, graph: f.graph }) && next == Some(
                Building::Wiring { rest: f.sync_entries },
            ),
{
    assert(sinks_adopted(a, a, Seq::empty()));
    assert(srcs_adopted(b, b, Seq::empty()));
    wired_graph_is_of_the_pads(
        sinks,
        srcs,
        a,
        b,
        Seq::empty(),
        Seq::empty(),
        a,
        b,
        next,
        action,
    );
}

/// The topology names the pads: every input and output has the id of its pad, or the daemon's
/// where the pad has none, and as many channels as its pad settled on.
pub proof fn topology_names_the_pads(
    sinks: Seq<FoundSinkPad>,
    srcs: Seq<FoundSrcPad>,
    input_ids: Seq<String>,
    output_ids: Seq<String>,
    f: Fixation,
    i: int,
    k: int,
)
    requires
        leads_to(sinks, srcs, input_ids, output_ids, f),
        0 <= i < sinks.len(),
        0 <= k < srcs.len(),
    ensures
        f.topology.input_ids@.len() == sinks.len(),
        f.topology.output_ids@.len() == srcs.len(),
        sinks[i].state.input_id@.len() > 0 ==> f.topology.input_ids@[i]@
            == sinks[i].state.input_id@,
        sinks[i].state.input_id@.len() == 0 && i < input_ids.len() ==> f.topology.input_ids@[i]@
            == input_ids[i]@,
        srcs[k].state.output_id@.len() > 0 ==> f.topology.output_ids@[k]@
            == srcs[k].state.output_id@,
        srcs[k].state.output_id@.len() == 0 && k < output_ids.len() ==> f.topology.output_ids@[k]@
            == output_ids[k]@,
        pad_channels(sinks[i].caps, sinks[i].state.channels) == Ok::<u32, super::caps::ChannelsError>(
            f.topology.input_channels@[i],
        ),
        pad_channels(srcs[k].caps, srcs[k].state.channels) == Ok::<u32, super::caps::ChannelsError>(
            f.topology.output_channels@[k],
        ),
        f.sync_entries@.len() == srcs.len(),
        f.sync_entries@[k].0@ == f.topology.output_ids@[k]@,
        f.sync_entries@[k].1@.len() == f.topology.output_channels@[k],
{
    let (a, b) = pads_are_kept(sinks, srcs, input_ids, output_ids, f);
    sinks_are_settled(sinks, srcs, input_ids, output_ids, f, i);
    let told = f.sync_entries@[k].1;
    assert(f.sync_entries@[k].1.deep_view() == dense_map(
        b[k].negotiated_channels,
        f.output_routes@[k].deep_view(),
    ));
    assert(told.deep_view().len() == told@.len());
    assert(f.topology.output_ids@[k]@ == effective_id(srcs[k].state.output_id, output_ids, k));
    assert(b[k].output_id@ == f.topology.output_ids@[k]@);
}

proof fn sinks_are_settled(
    sinks: Seq<FoundSinkPad>,
    srcs: Seq<FoundSrcPad>,
    input_ids: Seq<String>,
    output_ids: Seq<String>,
    f: Fixation,
    i: int,
)
    requires
        leads_to(sinks, srcs, input_ids, output_ids, f),
        0 <= i < sinks.len(),
    ensures
        pad_channels(sinks[i].caps, sinks[i].state.channels) == Ok::<u32, super::caps::ChannelsError>(
            found_channels(sinks)[i],
        ),
{
    let (a, b, sinks_taken, srcs_taken) = choose|
        a: Seq<SinkPadSnapshot>,
        b: Seq<SrcPadSnapshot>,
        sinks_taken: Seq<SinkPadSnapshot>,
        srcs_taken: Seq<SrcPadSnapshot>,
    |
        sink_snapshots(sinks, a) && src_snapshots(srcs, b) && #[trigger] sinks_adopted(
            a,
            sinks_taken,
            input_ids,
        ) && #[trigger] srcs_adopted(b, srcs_taken, output_ids) && fixated(
            sinks_taken,
            srcs_taken,
            Ok(f),
        );
    assert(sink_snapshot(sinks[i], a[i]));
}

/// An activation is carried out as it says: the matrix for the output that it names takes, for
/// every slot with an input and a channel, that channel of the first input with that id and
/// nothing else, and for every empty slot nothing.
pub proof fn activated_map_follows_the_request(
    topology: FrozenTopology,
    graph: InternalGraph,
    req: ChannelMappingActivationRequest,
    k: usize,
    matrix: Vec<Vec<u8>>,
    c: int,
)
    requires
        topology.wf(),
        activation_applied(Some(topology), Some(graph), req, Ok((k, matrix))),
        req.active_map@.len() <= 0x1_0000_0000,
        0 <= c < req.active_map@.len(),
        c < matrix@.len(),
    ensures
        k < topology.output_ids@.len(),
        topology.output_ids@[k as int]@ == req.output_id@,
        matrix@.len() == channels_of_output(topology, k as int),
        ({
            let slot = req.active_map@[c].deep_view();
            let routed = slot.input_id is Some && slot.input_channel is Some
                && slot.input_id->0.len() > 0;
            &&& routed ==> exists|i: int|
                0 <= i < topology.input_ids@.len() && (#[trigger] topology.input_ids@[i])@
                    == slot.input_id->0 && slot.input_channel->0 < topology.input_channels@[i]
                    && takes_only(
                    matrix@,
                    c,
                    total_channels(topology.input_channels@.take(i)) + slot.input_channel->0,
                )
            &&& !routed ==> takes_nothing(matrix@, c)
        }),
{
    first_position_is_least(topology.output_ids@, req.output_id@);
    let slots = req.active_map.deep_view();
    assert(slots[c] == req.active_map@[c].deep_view());
    let routes = routes_of_slots(slots);
    let channels = channels_of_output(topology, k as int);
    slots_are_routes(slots, c);
    let slot = slots[c];
    if slot.input_id is Some && slot.input_channel is Some && slot.input_id->0.len() > 0 {
        let id = slot.input_id->0;
        let ch = slot.input_channel->0;
        let wanted = Route { output_channel: c as u32, input_id: id, input_channel: ch };
        let r = routes.index_of(wanted);
        assert(routes[r] == wanted);
        assert(route_ok(topology, channels, routes, r));
        first_position_is_least(topology.input_ids@, id);
        let i = first_position(topology.input_ids@, id)->0;
        assert(topology.input_ids@[i]@ == id);
        let bus = total_channels(topology.input_channels@.take(i)) + ch;
        crate::channel_mapping::types::total_channels_grows(topology.input_channels@, i);
        assert(topology.bus_index(id, ch) == Some(bus));
        assert(connects(topology, routes, c, bus)) by {
            assert(routes[r].output_channel == c);
        }
        assert forall|x: int| 0 <= x < matrix@[c]@.len() implies #[trigger] matrix@[c]@[x] == if x
            == bus {
            1u8
        } else {
            0u8
        } by {
            if connects(topology, routes, c, x) {
                output_takes_one_input(topology, channels, routes, c, x, bus);
            }
        }
        assert(takes_only(matrix@, c, bus));
    } else {
        assert forall|x: int| 0 <= x < matrix@[c]@.len() implies #[trigger] matrix@[c]@[x] == 0 by {
            assert(!connects(topology, routes, c, x));
        }
    }
}

/// The sink pads have ids, and no two the same.
pub open spec fn ids_differ(sinks: Seq<FoundSinkPad>, ids: Seq<String>) -> bool {
    &&& forall|x: int, y: int|
        0 <= x < y < sinks.len() ==> effective_id((#[trigger] sinks[x]).state.input_id, ids, x)
            != effective_id((#[trigger] sinks[y]).state.input_id, ids, y)
    &&& forall|x: int|
        0 <= x < sinks.len() ==> effective_id((#[trigger] sinks[x]).state.input_id, ids, x).len()
            > 0
}

/// A lone src pad without an `active-map` takes the bus as it is: output channel `c` takes bus
/// channel `c`, as far as the bus goes, and nothing beyond it.
pub proof fn lone_pad_takes_the_bus(
    sinks: Seq<FoundSinkPad>,
    srcs: Seq<FoundSrcPad>,
    input_ids: Seq<String>,
    output_ids: Seq<String>,
    f: Fixation,
    c: u32,
)
    requires
        leads_to(sinks, srcs, input_ids, output_ids, f),
        srcs.len() == 1,
        srcs[0].state.active_map is None,
        ids_differ(sinks, input_ids),
        pad_channels(srcs[0].caps, srcs[0].state.channels) matches Ok(n) && c < n,
    ensures
        f.graph.src_legs@.len() == 1,
        if c < total_channels(found_channels(sinks)) {
            takes_only(f.graph.src_legs@[0].matrix@, c as int, c as int)
        } else {
            takes_nothing(f.graph.src_legs@[0].matrix@, c as int)
        },
{
    let (a, b) = pads_are_kept(sinks, srcs, input_ids, output_ids, f);
    let t = f.topology;
    assert(b[0].active_map == srcs[0].state.active_map);
    let routes = f.output_routes@[0].deep_view();
    let leg = f.graph.src_legs@[0];
    assert(src_leg_ok(leg, t, 0, routes));
    let channels = t.output_channels@[0];
    assert(channels == b[0].negotiated_channels);
    topology_ids_differ(sinks, input_ids, t);
    assert(routes == identity_routes(t, 0, channels, a, 1));
    assert forall|x: int| 0 <= x < leg.matrix@[c as int]@.len() implies #[trigger] leg.matrix@[c as int]@[x]
        == if x == c && c < total_channels(found_channels(sinks)) {
        1u8
    } else {
        0u8
    } by {
        identity_map_is_identity(t, a, channels, c as int, x);
    }
}

proof fn topology_ids_differ(sinks: Seq<FoundSinkPad>, ids: Seq<String>, t: FrozenTopology)
    requires
        ids_differ(sinks, ids),
        t.input_ids@.len() == sinks.len(),
        forall|i: int|
            0 <= i < sinks.len() ==> (#[trigger] t.input_ids@[i])@ == effective_id(
                sinks[i].state.input_id,
                ids,
                i,
            ),
    ensures
        forall|x: int, y: int|
            0 <= x < y < t.input_ids@.len() ==> (#[trigger] t.input_ids@[x])@ != (
            #[trigger] t.input_ids@[y])@,
        forall|x: int| 0 <= x < t.input_ids@.len() ==> (#[trigger] t.input_ids@[x])@.len() > 0,
{
    assert forall|x: int, y: int| 0 <= x < y < t.input_ids@.len() implies (
    #[trigger] t.input_ids@[x])@ != (#[trigger] t.input_ids@[y])@ by {
        let (p, q) = (sinks[x], sinks[y]);
    }
    assert forall|x: int| 0 <= x < t.input_ids@.len() implies (#[trigger] t.input_ids@[x])@.len()
        > 0 by {
        let p = sinks[x];
    }
}

/// With several src pads, one without an `active-map` takes the sink pad at its own place: output
/// channel `c` takes that pad's channel `c`, as far as the pad goes, and nothing beyond it.
pub proof fn paired_pad_takes_its_sink(
    sinks: Seq<FoundSinkPad>,
    srcs: Seq<FoundSrcPad>,
    input_ids: Seq<String>,
    output_ids: Seq<String>,
    f: Fixation,
    k: int,
    c: u32,
)
    requires
        leads_to(sinks, srcs, input_ids, output_ids, f),
        srcs.len() > 1,
        0 <= k < srcs.len(),
        k < sinks.len(),
        srcs[k].state.active_map is None,
        ids_differ(sinks, input_ids),
        pad_channels(srcs[k].caps, srcs[k].state.channels) matches Ok(n) && c < n,
    ensures
        k < f.graph.src_legs@.len(),
        if c < found_channels(sinks)[k] {
            takes_only(f.graph.src_legs@[k].matrix@, c as int, bus_start(sinks, k) + c)
        } else {
            takes_nothing(f.graph.src_legs@[k].matrix@, c as int)
        },
{
    let (a, b) = pads_are_kept(sinks, srcs, input_ids, output_ids, f);
    let t = f.topology;
    assert(b[k].active_map == srcs[k].state.active_map);
    let routes = f.output_routes@[k].deep_view();
    let leg = f.graph.src_legs@[k];
    assert(src_leg_ok(leg, t, k, routes));
    let channels = t.output_channels@[k];
    assert(channels == b[k].negotiated_channels);
    topology_ids_differ(sinks, input_ids, t);
    let id = t.input_ids@[k]@;
    identity_map_pairs_pads(t, a, k, srcs.len() as int, channels);
    assert(a[k].negotiated_channels == sink_channels(a)[k]);
    crate::channel_mapping::types::distinct_ids_are_found(t.input_ids@, k);
    crate::channel_mapping::types::total_channels_grows(t.input_channels@, k);
    let bus = bus_start(sinks, k) + c;
    if c < found_channels(sinks)[k] {
        assert(routes[c as int].output_channel == c);
        assert(t.bus_index(id, c) == Some(bus));
        assert(connects(t, routes, c as int, bus));
    }
    assert forall|x: int| 0 <= x < leg.matrix@[c as int]@.len() implies #[trigger] leg.matrix@[c as int]@[x]
        == if x == bus && c < found_channels(sinks)[k] {
        1u8
    } else {
        0u8
    } by {
        if connects(t, routes, c as int, x) {
            let r = choose|r: int|
                0 <= r < routes.len() && (#[trigger] routes[r]).output_channel == c && t.bus_index(
                    routes[r].input_id,
                    routes[r].input_channel,
                ) == Some(x);
            assert(routes[r].output_channel == r);
            assert(c < found_channels(sinks)[k]);
            output_takes_one_input(t, channels, routes, c as int, x, bus);
        }
    }
}

/// The daemon is asked to add what the pads say: every input and output has the id, the label,
/// the description and the name of its pad, and a label for every channel; an output may be
/// restricted to the inputs of the mapping.
pub proof fn request_describes_the_pads(
    sinks: Seq<FoundSinkPad>,
    srcs: Seq<FoundSrcPad>,
    a: Seq<SinkPadSnapshot>,
    b: Seq<SrcPadSnapshot>,
    request: AddChannelMappingRequest,
    session_handle: Seq<char>,
    name: Seq<char>,
    restrict: bool,
)
    requires
        sink_snapshots(sinks, a),
        src_snapshots(srcs, b),
        mapping_request(request, session_handle, name, a, b, restrict),
    ensures
        request.session_handle@ == session_handle,
        request.name@ == name,
        request.inputs@.len() == sinks.len(),
        request.outputs@.len() == srcs.len(),
        forall|i: int|
            0 <= i < sinks.len() ==> {
                let input = #[trigger] request.inputs@[i];
                let pad = sinks[i];
                &&& input.id@ == pad.state.input_id@
                &&& input.name@ == pad.state.label@
                &&& input.description@ == pad.state.description@
                &&& input.parent_name@ == pad.state.receiver_name@
                &&& input.parent_type == ChannelMappingParentType::Receiver
                &&& pad_channels(pad.caps, pad.state.channels) matches Ok(n)
                    && input.channel_labels@.len() == n
            },
        forall|k: int|
            0 <= k < srcs.len() ==> {
                let output = #[trigger] request.outputs@[k];
                let pad = srcs[k];
                &&& output.id@ == pad.state.output_id@
                &&& output.name@ == pad.state.label@
                &&& output.description@ == pad.state.description@
                &&& output.sender_name@ == pad.state.sender_name@
                &&& pad_channels(pad.caps, pad.state.channels) matches Ok(n)
                    && output.channel_labels@.len() == n
                &&& output.routable_inputs@.len() == if restrict {
                    sinks.len()
                } else {
                    0
                }
                &&& forall|i: int|
                    0 <= i < output.routable_inputs@.len() ==> (
                    #[trigger] output.routable_inputs@[i])@ == sinks[i].state.input_id@
            },
{
    assert forall|i: int| 0 <= i < sinks.len() implies {
        let input = #[trigger] request.inputs@[i];
        let pad = sinks[i];
        &&& input.id@ == pad.state.input_id@
        &&& input.name@ == pad.state.label@
        &&& input.description@ == pad.state.description@
        &&& input.parent_name@ == pad.state.receiver_name@
        &&& input.parent_type == ChannelMappingParentType::Receiver
        &&& pad_channels(pad.caps, pad.state.channels) matches Ok(n) && input.channel_labels@.len()
            == n
    } by {
        assert(sink_snapshot(sinks[i], a[i]));
        assert(request.inputs@[i].channel_labels.deep_view().len()
            == request.inputs@[i].channel_labels@.len());
    }
    assert forall|k: int| 0 <= k < srcs.len() implies {
        let output = #[trigger] request.outputs@[k];
        let pad = srcs[k];
        &&& output.id@ == pad.state.output_id@
        &&& output.name@ == pad.state.label@
        &&& output.description@ == pad.state.description@
        &&& output.sender_name@ == pad.state.sender_name@
        &&& pad_channels(pad.caps, pad.state.channels) matches Ok(n)
            && output.channel_labels@.len() == n
        &&& output.routable_inputs@.len() == if restrict {
            sinks.len()
        } else {
            0
        }
        &&& forall|i: int|
            0 <= i < output.routable_inputs@.len() ==> (#[trigger] output.routable_inputs@[i])@
                == sinks[i].state.input_id@
    } by {
        let output = request.outputs@[k];
        assert(src_snapshot(srcs[k], b[k]));
        assert(output.channel_labels.deep_view().len() == output.channel_labels@.len());
        assert(output.routable_inputs.deep_view().len() == output.routable_inputs@.len());
        assert forall|i: int| 0 <= i < output.routable_inputs@.len() implies (
        #[trigger] output.routable_inputs@[i])@ == sinks[i].state.input_id@ by {
            assert(output.routable_inputs.deep_view()[i] == output.routable_inputs@[i]@);
            assert(sink_snapshot(sinks[i], a[i]));
        }
    }
}

} // verus!
