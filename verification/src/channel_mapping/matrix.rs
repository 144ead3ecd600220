//! Validation of active maps against the frozen topology, and the mix matrices for
//! `audiomixer` and `audiomixmatrix`. Coefficients are 0 or 1: a channel is routed
//! at unity gain or not at all.

use super::active_map::{
    flat_inputs, identity_routes, least, sink_input_id, slot_of, sorted_by_output, ActiveMapEntry,
    ActiveMapRoute, Route, Slot,
};
use super::types::{
    bus_placement_is_disjoint, distinct_ids_are_found, sink_channels, total_channels,
    total_channels_grows, FrozenTopology, SinkPadSnapshot,
};
use crate::channel_mapping_session::ChannelMappingActivationRequest;
use crate::text::{
    around, decimal, decimal_text, first_position, first_position_is_least, joined, position_of,
    put_together_in_order, says_in_order,
};
use std::collections::HashSet;
use vstd::prelude::*;

verus! {

broadcast use vstd::std_specs::hash::group_hash_axioms;

/// Why an active map does not fit the topology.
#[derive(Debug, PartialEq, Eq)]
pub enum ActiveMapValidationError {
    UnknownInputId(String),
    InputChannelOutOfRange { input_id: String, input_channel: u32, max_channel: u32 },
    DuplicateOutputChannel(u32),
    OutputChannelOutOfRange(u32, u32),
}

impl ActiveMapValidationError {
    /// What is said of the error.
    pub open spec fn text(&self) -> Seq<char> {
        match self {
            ActiveMapValidationError::UnknownInputId(id) => "unknown input id `"@ + id@ + "`"@,
            ActiveMapValidationError::InputChannelOutOfRange {
                input_id,
                input_channel,
                max_channel,
            } => "input channel "@ + decimal(*input_channel as nat) + " out of range for input `"@
                + input_id@ + "` (max "@ + decimal(*max_channel as nat) + ")"@,
            ActiveMapValidationError::DuplicateOutputChannel(
                c,
            ) => "duplicate routing to output channel "@ + decimal(*c as nat),
            ActiveMapValidationError::OutputChannelOutOfRange(c, max) => "output channel "@
                + decimal(*c as nat) + " out of range (max "@ + decimal(*max as nat) + ")"@,
        }
    }

    /// What is said of the error.
    pub fn message(&self) -> (r: String)
        ensures
            r@ == self.text(),
    {
        match self {
            ActiveMapValidationError::UnknownInputId(id) => around(
                "unknown input id `",
                id.as_str(),
                "`",
            ),
            ActiveMapValidationError::InputChannelOutOfRange {
                input_id,
                input_channel,
                max_channel,
            } => {
                let mut r = joined("input channel ", decimal_text(*input_channel as u64).as_str());
                r.append(" out of range for input `");
                r.append(input_id.as_str());
                r.append("` (max ");
                r.append(decimal_text(*max_channel as u64).as_str());
                r.append(")");
                r
            },
            ActiveMapValidationError::DuplicateOutputChannel(c) => joined(
                "duplicate routing to output channel ",
                decimal_text(*c as u64).as_str(),
            ),
            ActiveMapValidationError::OutputChannelOutOfRange(c, max) => {
                let mut r = joined("output channel ", decimal_text(*c as u64).as_str());
                r.append(" out of range (max ");
                r.append(decimal_text(*max as u64).as_str());
                r.append(")");
                r
            },
        }
    }
}

/// `n - 1`, or 0 where there is nothing to take away.
pub open spec fn last_of(n: u32) -> u32 {
    if n > 0 {
        (n - 1) as u32
    } else {
        0
    }
}

/// An earlier route goes to the same output channel.
pub open spec fn repeats_route(routes: Seq<Route>, i: int) -> bool {
    exists|j: int|
        0 <= j < i && (#[trigger] routes[j]).output_channel == routes[i].output_channel
}

/// Route `i` fits the topology, given those before it.
pub open spec fn route_ok(
    topology: FrozenTopology,
    output_channels: u32,
    routes: Seq<Route>,
    i: int,
) -> bool {
    let route = routes[i];
    let input = first_position(topology.input_ids@, route.input_id);
    &&& route.output_channel < output_channels
    &&& !repeats_route(routes, i)
    &&& input is Some
    &&& route.input_channel < topology.channels_of_input(input->0)
}

/// Route `i` is refused with `e`: an output channel out of range first, then one that
/// is routed already, then an unknown input, then an input channel out of range.
pub open spec fn route_refused(
    topology: FrozenTopology,
    output_channels: u32,
    routes: Seq<Route>,
    i: int,
    e: ActiveMapValidationError,
) -> bool {
    let route = routes[i];
    let input = first_position(topology.input_ids@, route.input_id);
    if route.output_channel >= output_channels {
        e == ActiveMapValidationError::OutputChannelOutOfRange(
            route.output_channel,
            last_of(output_channels),
        )
    } else if repeats_route(routes, i) {
        e == ActiveMapValidationError::DuplicateOutputChannel(route.output_channel)
    } else if input is None {
        e matches ActiveMapValidationError::UnknownInputId(id) && id@ == route.input_id
    } else {
        &&& route.input_channel >= topology.channels_of_input(input->0)
        &&& e is InputChannelOutOfRange
        &&& e->input_id@ == route.input_id
        &&& e->input_channel == route.input_channel
        &&& e->max_channel == last_of(topology.channels_of_input(input->0))
    }
}

/// Every route fits the topology.
pub open spec fn map_ok(
    topology: FrozenTopology,
    output_channels: u32,
    routes: Seq<Route>,
) -> bool {
    forall|i: int|
        0 <= i < routes.len() ==> #[trigger] route_ok(topology, output_channels, routes, i)
}

/// The first route that does not fit is refused with `e`.
pub open spec fn map_refused(
    topology: FrozenTopology,
    output_channels: u32,
    routes: Seq<Route>,
    e: ActiveMapValidationError,
) -> bool {
    exists|i: int|
        0 <= i < routes.len() && (forall|j: int|
            0 <= j < i ==> #[trigger] route_ok(topology, output_channels, routes, j)) && !route_ok(
            topology,
            output_channels,
            routes,
            i,
        ) && #[trigger] route_refused(topology, output_channels, routes, i, e)
}

pub fn validate_active_map_for_output(
    topology: &FrozenTopology,
    output_channels: u32,
    routes: &[ActiveMapRoute],
) -> (r: Result<(), ActiveMapValidationError>)
    ensures
        match r {
            Ok(()) => map_ok(*topology, output_channels, routes.deep_view()),
            Err(e) => map_refused(*topology, output_channels, routes.deep_view(), e),
        },
{
    let ghost all = routes.deep_view();
    let mut seen_outputs: HashSet<u32> = HashSet::new();
    let mut i: usize = 0;
    while i < routes.len()
        invariant
            i <= routes@.len(),
            all == routes.deep_view(),
            forall|j: int| 0 <= j < i ==> #[trigger] route_ok(*topology, output_channels, all, j),
            forall|c: u32| #[trigger]
                seen_outputs@.contains(c) <==> exists|j: int|
                    0 <= j < i && (#[trigger] all[j]).output_channel == c,
        decreases routes@.len() - i,
    {
        let route = &routes[i];
        let ghost at = i as int;
        let ghost seen_before = seen_outputs@;
        assert(all[at] == route.deep_view());
        if route.output_channel >= output_channels {
            let e = ActiveMapValidationError::OutputChannelOutOfRange(
                route.output_channel,
                if output_channels > 0 {
                    output_channels - 1
                } else {
                    0
                },
            );
            assert(route_refused(*topology, output_channels, all, at, e));
            return Err(e);
        }
        let fresh: bool = seen_outputs.insert(route.output_channel);
        assert(fresh <==> !repeats_route(all, at)) by {
            if repeats_route(all, at) {
                assert(seen_before.contains(route.output_channel));
            }
        }
        if !fresh {
            let e = ActiveMapValidationError::DuplicateOutputChannel(route.output_channel);
            assert(route_refused(*topology, output_channels, all, at, e));
            return Err(e);
        }
        proof {
            assert forall|c: u32| #[trigger]
                seen_outputs@.contains(c) <==> exists|j: int|
                    0 <= j < at + 1 && (#[trigger] all[j]).output_channel == c by {
                if seen_outputs@.contains(c) {
                    if c == route.output_channel {
                        assert(all[at].output_channel == c);
                    } else {
                        assert(seen_before.contains(c));
                        let j = choose|j: int|
                            0 <= j < at && (#[trigger] all[j]).output_channel == c;
                        assert(all[j].output_channel == c);
                    }
                }
                if exists|j: int| 0 <= j < at + 1 && (#[trigger] all[j]).output_channel == c {
                    let j = choose|j: int|
                        0 <= j < at + 1 && (#[trigger] all[j]).output_channel == c;
                    if j < at {
                        assert(seen_before.contains(c));
                    }
                }
            }
        }
        match position_of(topology.input_ids.as_slice(), route.input_id.as_str()) {
            None => {
                let e = ActiveMapValidationError::UnknownInputId(route.input_id.clone());
                assert(route_refused(*topology, output_channels, all, at, e));
                return Err(e);
            },
            Some(input) => {
                let channels: u32 = if input < topology.input_channels.len() {
                    topology.input_channels[input]
                } else {
                    0
                };
                if route.input_channel >= channels {
                    let e = ActiveMapValidationError::InputChannelOutOfRange {
                        input_id: route.input_id.clone(),
                        input_channel: route.input_channel,
                        max_channel: if channels > 0 {
                            channels - 1
                        } else {
                            0
                        },
                    };
                    assert(route_refused(*topology, output_channels, all, at, e));
                    return Err(e);
                }
            },
        }
        assert(route_ok(*topology, output_channels, all, at));
        i = i + 1;
    }
    Ok(())
}

// ---- activation requests ----------------------------------------------------

/// The routes of a dense active map: one for every slot with an input id that is not
/// empty and an input channel.
pub open spec fn routes_of_slots(slots: Seq<Slot>) -> Seq<Route>
    decreases slots.len(),
{
    if slots.len() == 0 {
        Seq::empty()
    } else {
        let front = routes_of_slots(slots.drop_last());
        match (slots.last().input_id, slots.last().input_channel) {
            (Some(id), Some(channel)) => if id.len() == 0 {
                front
            } else {
                front.push(
                    Route {
                        output_channel: ((slots.len() - 1) % 0x1_0000_0000) as u32,
                        input_id: id,
                        input_channel: channel,
                    },
                )
            },
            _ => front,
        }
    }
}

/// The channel count of an output, zero where it has none on record.
pub open spec fn channels_of_output(topology: FrozenTopology, index: int) -> u32 {
    if 0 <= index < topology.output_channels@.len() {
        topology.output_channels@[index]
    } else {
        0
    }
}

/// What an activation for `output_id` comes to.
pub open spec fn activation_result(
    topology: FrozenTopology,
    output_id: Seq<char>,
    slots: Seq<Slot>,
    r: Result<Vec<ActiveMapRoute>, ActiveMapValidationError>,
) -> bool {
    let routes = routes_of_slots(slots);
    match first_position(topology.output_ids@, output_id) {
        None => r matches Err(e) && e == ActiveMapValidationError::OutputChannelOutOfRange(0, 0),
        Some(i) => match r {
            Ok(v) => map_ok(topology, channels_of_output(topology, i), routes) && v.deep_view()
                == routes,
            Err(e) => map_refused(topology, channels_of_output(topology, i), routes, e),
        },
    }
}

/// Convert a controller activation event into routes for one output.
pub fn routes_from_activation(
    topology: &FrozenTopology,
    output_id: &str,
    active_map: &[ActiveMapEntry],
) -> (r: Result<Vec<ActiveMapRoute>, ActiveMapValidationError>)
    ensures
        activation_result(*topology, output_id@, active_map.deep_view(), r),
{
    let output_channels: u32 = match position_of(topology.output_ids.as_slice(), output_id) {
        None => {
            return Err(ActiveMapValidationError::OutputChannelOutOfRange(0, 0));
        },
        Some(i) => if i < topology.output_channels.len() {
            topology.output_channels[i]
        } else {
            0
        },
    };
    let ghost slots = active_map.deep_view();
    let mut routes: Vec<ActiveMapRoute> = Vec::new();
    let mut i: usize = 0;
    assert(slots.take(0) =~= Seq::empty());
    while i < active_map.len()
        invariant
            i <= active_map@.len(),
            slots == active_map.deep_view(),
            routes.deep_view() == routes_of_slots(slots.take(i as int)),
        decreases active_map@.len() - i,
    {
        let entry = &active_map[i];
        proof {
            let next = slots.take(i as int + 1);
            assert(next.drop_last() =~= slots.take(i as int));
            assert(next.last() == entry.deep_view());
        }
        if let (Some(id), Some(channel)) = (&entry.input_id, entry.input_channel) {
            if !id.as_str().is_empty() {
                let ghost before = routes.deep_view();
                let route = ActiveMapRoute {
                    output_channel: (i as u64 % 0x1_0000_0000) as u32,
                    input_id: id.clone(),
                    input_channel: channel,
                };
                routes.push(route);
                assert(routes.deep_view() =~= before.push(route.deep_view()));
            }
        }
        i = i + 1;
    }
    assert(slots.take(slots.len() as int) =~= slots);
    match validate_active_map_for_output(topology, output_channels, routes.as_slice()) {
        Ok(()) => Ok(routes),
        Err(e) => Err(e),
    }
}

pub fn routes_from_activation_request(
    topology: &FrozenTopology,
    req: &ChannelMappingActivationRequest,
) -> (r: Result<Vec<ActiveMapRoute>, ActiveMapValidationError>)
    ensures
        activation_result(*topology, req.output_id@, req.active_map.deep_view(), r),
{
    routes_from_activation(topology, req.output_id.as_str(), req.active_map.as_slice())
}

// ---- matrices ---------------------------------------------------------------

/// `rows` rows of `columns` coefficients, each given by `f`.
pub open spec fn matrix_of(
    m: Seq<Vec<u8>>,
    rows: int,
    columns: int,
    f: spec_fn(int, int) -> bool,
) -> bool {
    &&& m.len() == rows
    &&& forall|r: int| 0 <= r < rows ==> (#[trigger] m[r])@.len() == columns
    &&& forall|r: int, c: int|
        0 <= r < rows && 0 <= c < columns ==> #[trigger] m[r]@[c] == if f(r, c) {
            1u8
        } else {
            0u8
        }
}

fn zero_matrix(rows: u32, columns: u32) -> (m: Vec<Vec<u8>>)
    ensures
        m@.len() == rows,
        forall|r: int| 0 <= r < rows ==> (#[trigger] m@[r])@.len() == columns,
        forall|r: int, c: int| 0 <= r < rows && 0 <= c < columns ==> #[trigger] m@[r]@[c] == 0,
{
    let mut m: Vec<Vec<u8>> = Vec::new();
    let mut r: u32 = 0;
    while r < rows
        invariant
            r <= rows,
            m@.len() == r,
            forall|k: int| 0 <= k < r ==> (#[trigger] m@[k])@.len() == columns,
            forall|k: int, c: int| 0 <= k < r && 0 <= c < columns ==> #[trigger] m@[k]@[c] == 0,
        decreases rows - r,
    {
        let mut row: Vec<u8> = Vec::new();
        let mut c: u32 = 0;
        while c < columns
            invariant
                c <= columns,
                row@.len() == c,
                forall|k: int| 0 <= k < c ==> row@[k] == 0,
            decreases columns - c,
        {
            row.push(0);
            c = c + 1;
        }
        m.push(row);
        r = r + 1;
    }
    m
}

/// Set one coefficient to 1.
fn set_unity(m: &mut Vec<Vec<u8>>, row: usize, column: usize)
    requires
        row < old(m)@.len(),
        column < old(m)@[row as int]@.len(),
    ensures
        final(m)@.len() == old(m)@.len(),
        forall|r: int|
            0 <= r < old(m)@.len() ==> (#[trigger] final(m)@[r])@ == if r == row {
                old(m)@[r]@.update(column as int, 1u8)
            } else {
                old(m)@[r]@
            },
{
    m[row][column] = 1;
}

/// Build the mix matrix for one mixer sink pad, with a row per input-bus channel and
/// a column per channel of the pad: the pad's channels go to consecutive bus channels
/// from `bus_offset` on.
pub fn build_input_bus_mix_matrix(
    input_bus_channels: u32,
    input_channels: u32,
    bus_offset: u32,
) -> (matrix: Vec<Vec<u8>>)
    requires
        bus_offset + input_channels <= input_bus_channels,
    ensures
        matrix_of(
            matrix@,
            input_bus_channels as int,
            input_channels as int,
            |row: int, column: int| row == bus_offset + column,
        ),
{
    let mut matrix = zero_matrix(input_bus_channels, input_channels);
    let mut ch: u32 = 0;
    while ch < input_channels
        invariant
            ch <= input_channels,
            bus_offset + input_channels <= input_bus_channels,
            matrix@.len() == input_bus_channels,
            forall|r: int|
                0 <= r < input_bus_channels ==> (#[trigger] matrix@[r])@.len() == input_channels,
            forall|r: int, c: int|
                0 <= r < input_bus_channels && 0 <= c < input_channels
                    ==> #[trigger] matrix@[r]@[c] == if c < ch && r == bus_offset + c {
                    1u8
                } else {
                    0u8
                },
        decreases input_channels - ch,
    {
        set_unity(&mut matrix, (bus_offset + ch) as usize, ch as usize);
        ch = ch + 1;
    }
    matrix
}

/// Some route takes bus channel `b` to output channel `o`.
pub open spec fn connects(topology: FrozenTopology, routes: Seq<Route>, o: int, b: int) -> bool {
    exists|i: int|
        0 <= i < routes.len() && (#[trigger] routes[i]).output_channel == o && topology.bus_index(
            routes[i].input_id,
            routes[i].input_channel,
        ) == Some(b)
}

/// Build the mix matrix for one `audiomixmatrix` src pad, with a row per output
/// channel and a column per input-bus channel.
pub fn build_output_mix_matrix(
    topology: &FrozenTopology,
    output_channels: u32,
    routes: &[ActiveMapRoute],
) -> (r: Result<Vec<Vec<u8>>, ActiveMapValidationError>)
    requires
        topology.wf(),
    ensures
        match r {
            Ok(matrix) => map_ok(*topology, output_channels, routes.deep_view()) && matrix_of(
                matrix@,
                output_channels as int,
                topology.input_bus_channels as int,
                |o: int, b: int| connects(*topology, routes.deep_view(), o, b),
            ),
            Err(e) => map_refused(*topology, output_channels, routes.deep_view(), e),
        },
{
    match validate_active_map_for_output(topology, output_channels, routes) {
        Ok(()) => {},
        Err(e) => {
            return Err(e);
        },
    }
    let width: u32 = topology.input_bus_channels;
    let ghost all = routes.deep_view();
    let mut matrix = zero_matrix(output_channels, width);
    let mut i: usize = 0;
    while i < routes.len()
        invariant
            i <= routes@.len(),
            topology.wf(),
            width == topology.input_bus_channels,
            all == routes.deep_view(),
            map_ok(*topology, output_channels, all),
            matrix@.len() == output_channels,
            forall|o: int| 0 <= o < output_channels ==> (#[trigger] matrix@[o])@.len() == width,
            forall|o: int, b: int|
                0 <= o < output_channels && 0 <= b < width ==> #[trigger] matrix@[o]@[b] == if connects(
                    *topology,
                    all.take(i as int),
                    o,
                    b,
                ) {
                    1u8
                } else {
                    0u8
                },
        decreases routes@.len() - i,
    {
        let route = &routes[i];
        let ghost before = all.take(i as int);
        let ghost after = all.take(i as int + 1);
        assert(all[i as int] == route.deep_view());
        assert(route_ok(*topology, output_channels, all, i as int));
        proof {
            first_position_is_least(topology.input_ids@, route.input_id@);
        }
        match topology.input_bus_index(route.input_id.as_str(), route.input_channel) {
            None => {
                assert(false);
                return Err(ActiveMapValidationError::UnknownInputId(route.input_id.clone()));
            },
            Some(bus_index) => {
                set_unity(&mut matrix, route.output_channel as usize, bus_index as usize);
                proof {
                    assert(after =~= before.push(route.deep_view()));
                    assert forall|o: int, b: int|
                        0 <= o < output_channels && 0 <= b < width implies #[trigger] matrix@[o]@[b]
                        == if connects(*topology, after, o, b) {
                        1u8
                    } else {
                        0u8
                    } by {
                        if connects(*topology, before, o, b) {
                            let k = choose|k: int|
                                0 <= k < before.len() && (#[trigger] before[k]).output_channel == o
                                    && topology.bus_index(
                                    before[k].input_id,
                                    before[k].input_channel,
                                ) == Some(b);
                            assert(after[k] == before[k]);
                        }
                        if o == route.output_channel && b == bus_index {
                            assert(after[i as int] == route.deep_view());
                        }
                        if connects(*topology, after, o, b) {
                            let k = choose|k: int|
                                0 <= k < after.len() && (#[trigger] after[k]).output_channel == o
                                    && topology.bus_index(
                                    after[k].input_id,
                                    after[k].input_channel,
                                ) == Some(b);
                            if k < i {
                                assert(before[k] == after[k]);
                            }
                        }
                    }
                }
            },
        }
        i = i + 1;
    }
    assert(all.take(all.len() as int) =~= all);
    Ok(matrix)
}

// ---- laws -------------------------------------------------------------------

/// In a map that fits the topology every output channel takes at most one bus
/// channel: no row of the output matrix holds more than a single 1.
pub proof fn output_takes_one_input(
    topology: FrozenTopology,
    output_channels: u32,
    routes: Seq<Route>,
    o: int,
    a: int,
    b: int,
)
    requires
        map_ok(topology, output_channels, routes),
        connects(topology, routes, o, a),
        connects(topology, routes, o, b),
    ensures
        a == b,
        0 <= o < output_channels,
{
    let i = choose|i: int|
        0 <= i < routes.len() && (#[trigger] routes[i]).output_channel == o && topology.bus_index(
            routes[i].input_id,
            routes[i].input_channel,
        ) == Some(a);
    let j = choose|j: int|
        0 <= j < routes.len() && (#[trigger] routes[j]).output_channel == o && topology.bus_index(
            routes[j].input_id,
            routes[j].input_channel,
        ) == Some(b);
    assert(route_ok(topology, output_channels, routes, i));
    assert(route_ok(topology, output_channels, routes, j));
    if i < j {
        assert(routes[i].output_channel == routes[j].output_channel);
        assert(repeats_route(routes, j));
    } else if j < i {
        assert(routes[j].output_channel == routes[i].output_channel);
        assert(repeats_route(routes, i));
    }
}

proof fn flat_input_at(
    topology: FrozenTopology,
    sinks: Seq<SinkPadSnapshot>,
    n: int,
    k: int,
) -> (at: (int, int))
    requires
        0 <= n <= sinks.len(),
        0 <= k < flat_inputs(topology, sinks, n).len(),
    ensures
        0 <= at.0 < n,
        0 <= at.1 < sinks[at.0].negotiated_channels,
        total_channels(sink_channels(sinks).take(at.0)) + at.1 == k,
        flat_inputs(topology, sinks, n)[k] == (sink_input_id(topology, sinks, at.0), at.1 as u32),
        flat_inputs(topology, sinks, n).len() == total_channels(sink_channels(sinks).take(n)),
    decreases n,
{
    flat_inputs_len(topology, sinks, n);
    flat_inputs_len(topology, sinks, n - 1);
    let front = flat_inputs(topology, sinks, n - 1);
    if k < front.len() {
        flat_input_at(topology, sinks, n - 1, k)
    } else {
        (n - 1, k - front.len())
    }
}

proof fn flat_inputs_len(topology: FrozenTopology, sinks: Seq<SinkPadSnapshot>, n: int)
    requires
        n <= sinks.len(),
    ensures
        n >= 0 ==> flat_inputs(topology, sinks, n).len() == total_channels(
            sink_channels(sinks).take(n),
        ),
    decreases n,
{
    if n > 0 {
        flat_inputs_len(topology, sinks, n - 1);
        total_channels_grows(sink_channels(sinks), n - 1);
    } else if n == 0 {
        assert(sink_channels(sinks).take(0) =~= Seq::empty());
    }
}

/// The default map is an identity: where the input ids are all different, it fits the
/// topology, and with a single src pad output channel `k` takes bus channel `k`, for
/// as many channels as the bus and the output both have.
pub proof fn identity_map_is_identity(
    topology: FrozenTopology,
    sinks: Seq<SinkPadSnapshot>,
    output_channels: u32,
    o: int,
    b: int,
)
    requires
        topology.wf(),
        topology.input_channels@ == sink_channels(sinks),
        topology.input_ids@.len() == sinks.len(),
        forall|x: int, y: int|
            0 <= x < y < topology.input_ids@.len() ==> (#[trigger] topology.input_ids@[x])@ != (
            #[trigger] topology.input_ids@[y])@,
    ensures
        map_ok(topology, output_channels, identity_routes(topology, 0, output_channels, sinks, 1)),
        connects(topology, identity_routes(topology, 0, output_channels, sinks, 1), o, b) <==> o
            == b && 0 <= o < output_channels && b < topology.input_bus_channels,
{
    let n = sinks.len() as int;
    let inputs = flat_inputs(topology, sinks, n);
    let routes = identity_routes(topology, 0, output_channels, sinks, 1);
    flat_inputs_len(topology, sinks, n);
    assert(sink_channels(sinks).take(n) =~= sink_channels(sinks));
    assert(inputs.len() == topology.input_bus_channels);
    assert forall|k: int| 0 <= k < routes.len() implies (#[trigger] routes[k]).output_channel == k
        && topology.bus_index(routes[k].input_id, routes[k].input_channel) == Some(k) && route_ok(
        topology,
        output_channels,
        routes,
        k,
    ) by {
        let (i, c) = flat_input_at(topology, sinks, n, k);
        distinct_ids_are_found(topology.input_ids@, i);
        assert(sink_input_id(topology, sinks, i) == topology.input_ids@[i]@);
        assert(routes[k].input_channel == c);
        assert(topology.input_channels@[i] == sinks[i].negotiated_channels);
        assert forall|j: int| 0 <= j < k implies (#[trigger] routes[j]).output_channel
            != routes[k].output_channel by {
            assert(routes[j].output_channel == j as u32);
        }
    }
    assert forall|i: int| 0 <= i < routes.len() implies #[trigger] route_ok(
        topology,
        output_channels,
        routes,
        i,
    ) by {
        assert(routes[i].output_channel == i);
    }
    if o == b && 0 <= o < output_channels && b < topology.input_bus_channels {
        assert(routes[o].output_channel == o);
    }
}

/// With several src pads, each with a sink pad at its own index, the default map fits
/// the topology and takes channel `k` of that sink pad to output channel `k`.
pub proof fn identity_map_pairs_pads(
    topology: FrozenTopology,
    sinks: Seq<SinkPadSnapshot>,
    src_index: int,
    src_count: int,
    output_channels: u32,
)
    requires
        topology.wf(),
        topology.input_channels@ == sink_channels(sinks),
        topology.input_ids@.len() == sinks.len(),
        forall|x: int, y: int|
            0 <= x < y < topology.input_ids@.len() ==> (#[trigger] topology.input_ids@[x])@ != (
            #[trigger] topology.input_ids@[y])@,
        src_count != 1,
        0 <= src_index < sinks.len(),
        topology.input_ids@[src_index]@.len() > 0,
    ensures
        ({
            let routes = identity_routes(topology, src_index, output_channels, sinks, src_count);
            &&& map_ok(topology, output_channels, routes)
            &&& routes.len() == least(
                sinks[src_index].negotiated_channels as nat,
                output_channels as nat,
            )
            &&& forall|k: int|
                0 <= k < routes.len() ==> (#[trigger] routes[k]) == (Route {
                    output_channel: k as u32,
                    input_id: topology.input_ids@[src_index]@,
                    input_channel: k as u32,
                })
        }),
{
    let routes = identity_routes(topology, src_index, output_channels, sinks, src_count);
    distinct_ids_are_found(topology.input_ids@, src_index);
    assert(topology.input_channels@[src_index] == sinks[src_index].negotiated_channels);
    assert forall|k: int| 0 <= k < routes.len() implies #[trigger] route_ok(
        topology,
        output_channels,
        routes,
        k,
    ) by {
        assert(routes[k].output_channel == k);
        assert forall|j: int| 0 <= j < k implies (#[trigger] routes[j]).output_channel
            != routes[k].output_channel by {
            assert(routes[j].output_channel == j as u32);
        }
    }
}

/// Entries and routes say the same: routes in order of output channel, all of them
/// below `n` and with an input id, are read back unchanged from their dense entries.
pub proof fn entries_round_trip(routes: Seq<Route>, n: nat)
    requires
        n <= 0x1_0000_0000,
        sorted_by_output(routes),
        forall|i: int|
            0 <= i < routes.len() ==> (#[trigger] routes[i]).output_channel < n
                && routes[i].input_id.len() > 0,
    ensures
        routes_of_slots(Seq::new(n, |c: int| slot_of(routes, c))) == routes,
    decreases n,
{
    let slots = Seq::new(n, |c: int| slot_of(routes, c));
    if n == 0 {
        if routes.len() > 0 {
            assert(routes[0].output_channel < n);
        }
        assert(routes =~= Seq::empty());
    } else {
        let m = (n - 1) as nat;
        let shorter = slots.drop_last();
        assert(slots.last() == slot_of(routes, m as int));
        if routes.len() > 0 && routes.last().output_channel == m {
            let front = routes.drop_last();
            assert forall|i: int| 0 <= i < front.len() implies (#[trigger] front[i]).output_channel
                < m && front[i].input_id.len() > 0 by {
                assert(routes[i].output_channel < routes[routes.len() - 1].output_channel);
            }
            assert(sorted_by_output(front));
            entries_round_trip(front, m);
            assert(shorter =~= Seq::new(m, |c: int| slot_of(front, c)));
            assert(routes.last().input_id.len() > 0);
            assert(front.push(routes.last()) =~= routes);
            assert(routes.last() == (Route {
                output_channel: ((slots.len() - 1) % 0x1_0000_0000) as u32,
                input_id: routes.last().input_id,
                input_channel: routes.last().input_channel,
            }));
        } else {
            assert forall|i: int| 0 <= i < routes.len() implies (#[trigger] routes[i]).output_channel
                < m && routes[i].input_id.len() > 0 by {
                if routes[i].output_channel == m {
                    assert(i < routes.len() - 1);
                    assert(routes[i].output_channel < routes[routes.len() - 1].output_channel);
                }
            }
            entries_round_trip(routes, m);
            assert(shorter =~= Seq::new(m, |c: int| slot_of(routes, c)));
            unrouted_slot(routes, m as int);
        }
    }
}

proof fn unrouted_slot(routes: Seq<Route>, channel: int)
    requires
        forall|i: int| 0 <= i < routes.len() ==> (#[trigger] routes[i]).output_channel < channel,
    ensures
        slot_of(routes, channel) == (Slot { input_id: None, input_channel: None }),
    decreases routes.len(),
{
    if routes.len() > 0 {
        assert(routes[routes.len() - 1].output_channel < channel);
        assert forall|i: int| 0 <= i < routes.drop_last().len() implies (
        #[trigger] routes.drop_last()[i]).output_channel < channel by {
            assert(routes[i].output_channel < channel);
        }
        unrouted_slot(routes.drop_last(), channel);
    }
}

/// A mapping does what its routes say: through the input matrices and an output matrix
/// together, channel `c` of input `i` reaches output channel `o` exactly if a route takes it
/// there.
pub proof fn routed_channels_are_heard(
    topology: FrozenTopology,
    output_channels: u32,
    routes: Seq<Route>,
    i: int,
    c: u32,
    o: int,
)
    requires
        topology.wf(),
        map_ok(topology, output_channels, routes),
        0 <= i < topology.input_channels@.len(),
        c < topology.input_channels@[i],
    ensures
        connects(topology, routes, o, topology.input_bus_offsets@[i] + c) <==> exists|k: int|
            0 <= k < routes.len() && (#[trigger] routes[k]).output_channel == o && first_position(
                topology.input_ids@,
                routes[k].input_id,
            ) == Some(i) && routes[k].input_channel == c,
{
    let b = topology.input_bus_offsets@[i] + c;
    if connects(topology, routes, o, b) {
        let k = choose|k: int|
            0 <= k < routes.len() && (#[trigger] routes[k]).output_channel == o
                && topology.bus_index(routes[k].input_id, routes[k].input_channel) == Some(b);
        assert(route_ok(topology, output_channels, routes, k));
        let input = first_position(topology.input_ids@, routes[k].input_id)->0;
        first_position_is_least(topology.input_ids@, routes[k].input_id);
        if (input, routes[k].input_channel as int) != (i, c as int) {
            bus_placement_is_disjoint(
                topology.input_channels@,
                input,
                routes[k].input_channel as int,
                i,
                c as int,
            );
        }
    }
    if exists|k: int|
        0 <= k < routes.len() && (#[trigger] routes[k]).output_channel == o && first_position(
            topology.input_ids@,
            routes[k].input_id,
        ) == Some(i) && routes[k].input_channel == c {
        let k = choose|k: int|
            0 <= k < routes.len() && (#[trigger] routes[k]).output_channel == o && first_position(
                topology.input_ids@,
                routes[k].input_id,
            ) == Some(i) && routes[k].input_channel == c;
        assert(topology.bus_index(routes[k].input_id, routes[k].input_channel) == Some(b));
    }
}

/// A map fits exactly where every route goes to a channel that the output has, no two to the
/// same, and every route comes from a channel that a known input has.
pub proof fn fitting_maps_are_within_range(
    topology: FrozenTopology,
    output_channels: u32,
    routes: Seq<Route>,
)
    requires
        topology.wf(),
        topology.input_ids@.len() == topology.input_channels@.len(),
    ensures
        map_ok(topology, output_channels, routes) <==> {
            &&& forall|i: int|
                0 <= i < routes.len() ==> (#[trigger] routes[i]).output_channel < output_channels
            &&& forall|i: int, j: int|
                0 <= j < i < routes.len() ==> (#[trigger] routes[j]).output_channel != (
                #[trigger] routes[i]).output_channel
            &&& forall|i: int|
                0 <= i < routes.len() ==> #[trigger] comes_from_a_channel(topology, routes[i])
        },
{
    if map_ok(topology, output_channels, routes) {
        assert forall|i: int, j: int| 0 <= j < i < routes.len() implies (
        #[trigger] routes[j]).output_channel != (#[trigger] routes[i]).output_channel by {
            assert(route_ok(topology, output_channels, routes, i));
        }
        assert forall|i: int| 0 <= i < routes.len() implies (#[trigger] routes[i]).output_channel
            < output_channels by {
            assert(route_ok(topology, output_channels, routes, i));
        }
        assert forall|i: int| 0 <= i < routes.len() implies #[trigger] comes_from_a_channel(
            topology,
            routes[i],
        ) by {
            assert(route_ok(topology, output_channels, routes, i));
            first_position_is_least(topology.input_ids@, routes[i].input_id);
            let x = first_position(topology.input_ids@, routes[i].input_id)->0;
            assert(topology.input_ids@[x]@ == routes[i].input_id);
        }
    } else {
        let i = choose|i: int|
            0 <= i < routes.len() && !#[trigger] route_ok(topology, output_channels, routes, i);
        first_position_is_least(topology.input_ids@, routes[i].input_id);
        if repeats_route(routes, i) {
            let j = choose|j: int|
                0 <= j < i && (#[trigger] routes[j]).output_channel == routes[i].output_channel;
            assert(routes[j].output_channel == routes[i].output_channel);
        } else if routes[i].output_channel < output_channels {
            assert(!comes_from_a_channel(topology, routes[i])) by {
                if comes_from_a_channel(topology, routes[i]) {
                    let x = choose|x: int|
                        0 <= x < topology.input_ids@.len() && (
                        #[trigger] topology.input_ids@[x])@ == routes[i].input_id && (forall|y: int|
                            0 <= y < x ==> (#[trigger] topology.input_ids@[y])@
                                != routes[i].input_id) && routes[i].input_channel
                            < topology.input_channels@[x];
                    assert(first_position(topology.input_ids@, routes[i].input_id) == Some(x));
                }
            }
        }
    }
}

/// The route's channel is one of the first input with the route's id.
pub open spec fn comes_from_a_channel(topology: FrozenTopology, route: Route) -> bool {
    exists|x: int|
        0 <= x < topology.input_ids@.len() && (#[trigger] topology.input_ids@[x])@
            == route.input_id && (forall|y: int|
            0 <= y < x ==> (#[trigger] topology.input_ids@[y])@ != route.input_id)
            && route.input_channel < topology.input_channels@[x]
}

/// The routes of a dense map are its slots: a slot with an id and a channel is a route to its own
/// place, and no route comes from elsewhere.
pub proof fn slots_are_routes(slots: Seq<Slot>, c: int)
    requires
        slots.len() <= 0x1_0000_0000,
        0 <= c < slots.len(),
    ensures
        (slots[c].input_id, slots[c].input_channel) matches (Some(id), Some(channel)) ==> id.len()
            > 0 ==> routes_of_slots(slots).contains(
            (Route { output_channel: c as u32, input_id: id, input_channel: channel }),
        ),
        slots[c].input_id is None || slots[c].input_channel is None || slots[c].input_id->0.len()
            == 0 ==> forall|r: int|
            0 <= r < routes_of_slots(slots).len() ==> (#[trigger] routes_of_slots(
                slots,
            )[r]).output_channel != c,
    decreases slots.len(),
{
    let front = slots.drop_last();
    let n = slots.len() - 1;
    routes_of_slots_are_below(front);
    if c < n {
        slots_are_routes(front, c);
        if let (Some(id), Some(channel)) = (slots[c].input_id, slots[c].input_channel) {
            let route = Route { output_channel: c as u32, input_id: id, input_channel: channel };
            if id.len() > 0 {
                let r = routes_of_slots(front).index_of(route);
                assert(routes_of_slots(front)[r] == route);
                assert(routes_of_slots(slots)[r] == route);
            }
        }
    } else {
        if let (Some(id), Some(channel)) = (slots[c].input_id, slots[c].input_channel) {
            let route = Route { output_channel: c as u32, input_id: id, input_channel: channel };
            if id.len() > 0 {
                assert(routes_of_slots(slots) == routes_of_slots(front).push(route));
                assert(routes_of_slots(slots)[routes_of_slots(front).len() as int] == route);
            }
        }
    }
}

proof fn routes_of_slots_are_below(slots: Seq<Slot>)
    requires
        slots.len() <= 0x1_0000_0000,
    ensures
        forall|r: int|
            0 <= r < routes_of_slots(slots).len() ==> (#[trigger] routes_of_slots(
                slots,
            )[r]).output_channel < slots.len(),
    decreases slots.len(),
{
    if slots.len() > 0 {
        routes_of_slots_are_below(slots.drop_last());
        let front = routes_of_slots(slots.drop_last());
        assert forall|r: int| 0 <= r < routes_of_slots(slots).len() implies (
        #[trigger] routes_of_slots(slots)[r]).output_channel < slots.len() by {
            if r < front.len() {
                assert(routes_of_slots(slots)[r] == front[r]);
            }
        }
    }
}

/// What is said of a channel that is out of range names the channel, and behind it the highest
/// that there is; of an input channel, the input too.
pub proof fn range_errors_name_the_range(id: String, c: u32, max: u32)
    ensures
        says_in_order(
            ActiveMapValidationError::OutputChannelOutOfRange(c, max).text(),
            decimal(c as nat),
            decimal(max as nat),
        ),
        ({
            let e = ActiveMapValidationError::InputChannelOutOfRange {
                input_id: id,
                input_channel: c,
                max_channel: max,
            };
            &&& says_in_order(e.text(), decimal(c as nat), id@)
            &&& says_in_order(e.text(), id@, decimal(max as nat))
        }),
{
    let a = decimal(c as nat);
    let b = decimal(max as nat);
    put_together_in_order("output channel "@, a, " out of range (max "@, b, ")"@);
    let e = ActiveMapValidationError::InputChannelOutOfRange {
        input_id: id,
        input_channel: c,
        max_channel: max,
    };
    let x = " out of range for input `"@;
    let y = "` (max "@;
    put_together_in_order("input channel "@, a, x, id@, y + b + ")"@);
    assert(e.text() =~= "input channel "@ + a + x + id@ + (y + b + ")"@));
    put_together_in_order("input channel "@ + a + x, id@, y, b, ")"@);
    assert(e.text() =~= ("input channel "@ + a + x) + id@ + y + b + ")"@);
}

/// A route that is refused is refused for what it is: the error carries the route's own output
/// channel, input id or input channel, and the highest channel that there is.
pub proof fn refused_routes_are_named(
    topology: FrozenTopology,
    output_channels: u32,
    routes: Seq<Route>,
    i: int,
    e: ActiveMapValidationError,
)
    requires
        0 <= i < routes.len(),
        !route_ok(topology, output_channels, routes, i),
        route_refused(topology, output_channels, routes, i, e),
    ensures
        match e {
            ActiveMapValidationError::OutputChannelOutOfRange(c, max) => c
                == routes[i].output_channel && c >= output_channels && (output_channels > 0 ==> max
                == output_channels - 1),
            ActiveMapValidationError::DuplicateOutputChannel(c) => c == routes[i].output_channel
                && exists|j: int| 0 <= j < i && (#[trigger] routes[j]).output_channel == c,
            ActiveMapValidationError::UnknownInputId(id) => id@ == routes[i].input_id && forall|
                x: int,
            |
                0 <= x < topology.input_ids@.len() ==> (#[trigger] topology.input_ids@[x])@ != id@,
            ActiveMapValidationError::InputChannelOutOfRange {
                input_id,
                input_channel,
                max_channel,
            } => input_id@ == routes[i].input_id && input_channel == routes[i].input_channel
                && exists|x: int|
                0 <= x < topology.input_ids@.len() && (#[trigger] topology.input_ids@[x])@
                    == input_id@ && input_channel >= topology.channels_of_input(x) && (
                topology.channels_of_input(x) > 0 ==> max_channel + 1
                    == topology.channels_of_input(x)),
        },
{
    first_position_is_least(topology.input_ids@, routes[i].input_id);
}

} // verus!
