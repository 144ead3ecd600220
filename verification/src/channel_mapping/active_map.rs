//! Parse per-src `active-map` structures and build default identity maps.

use super::types::{ActiveMapField, FrozenTopology, SinkPadSnapshot, SrcPadSnapshot};
use crate::text::{
    around, decimal, decimal_text, eq_ignore_ascii_case, first_index, first_index_is_least,
    lower_ascii, parse_u32, same_ignoring_ascii_case, split_once, unsigned_value,
};
use std::collections::HashSet;
use vstd::prelude::*;

verus! {

broadcast use vstd::std_specs::hash::group_hash_axioms;

/// One routed output channel in an active map.
#[derive(Debug, PartialEq, Eq)]
pub struct ActiveMapRoute {
    pub output_channel: u32,
    pub input_id: String,
    pub input_channel: u32,
}

/// What a route says, with its input id as text.
pub struct Route {
    pub output_channel: u32,
    pub input_id: Seq<char>,
    pub input_channel: u32,
}

impl DeepView for ActiveMapRoute {
    type V = Route;

    open spec fn deep_view(&self) -> Route {
        Route {
            output_channel: self.output_channel,
            input_id: self.input_id@,
            input_channel: self.input_channel,
        }
    }
}

/// One slot of a dense active map: slot `i` says what output channel `i` takes.
#[derive(Debug, PartialEq, Eq)]
pub struct ActiveMapEntry {
    pub input_id: Option<String>,
    pub input_channel: Option<u32>,
}

/// What a slot says, with its input id as text.
pub struct Slot {
    pub input_id: Option<Seq<char>>,
    pub input_channel: Option<u32>,
}

impl DeepView for ActiveMapEntry {
    type V = Slot;

    open spec fn deep_view(&self) -> Slot {
        Slot { input_id: self.input_id.deep_view(), input_channel: self.input_channel }
    }
}

/// Why an `active-map` structure was refused.
#[derive(Debug, PartialEq, Eq)]
pub enum ActiveMapError {
    InvalidOutputChannelKey(String),
    DuplicateOutputChannel(u32),
    InvalidValue { output_channel: u32, reason: String },
}

impl ActiveMapError {
    /// What is said of the error.
    pub open spec fn text(&self) -> Seq<char> {
        match self {
            ActiveMapError::InvalidOutputChannelKey(key) => "active-map field key `"@ + key@
                + "` is not a valid output channel index"@,
            ActiveMapError::DuplicateOutputChannel(c) => "active-map output channel "@ + decimal(
                *c as nat,
            ) + " is duplicated"@,
            ActiveMapError::InvalidValue {
                output_channel,
                reason,
            } => "active-map value for output channel "@ + decimal(*output_channel as nat) + ": "@
                + reason@,
        }
    }

    /// What is said of the error.
    pub fn message(&self) -> (r: String)
        ensures
            r@ == self.text(),
    {
        match self {
            ActiveMapError::InvalidOutputChannelKey(key) => around(
                "active-map field key `",
                key.as_str(),
                "` is not a valid output channel index",
            ),
            ActiveMapError::DuplicateOutputChannel(c) => around(
                "active-map output channel ",
                decimal_text(*c as u64).as_str(),
                " is duplicated",
            ),
            ActiveMapError::InvalidValue { output_channel, reason } => {
                let mut r = around(
                    "active-map value for output channel ",
                    decimal_text(*output_channel as u64).as_str(),
                    ": ",
                );
                r.append(reason.as_str());
                r
            },
        }
    }
}

// ---- input channel references -----------------------------------------------

/// What is wrong with an input channel reference, if anything.
pub open spec fn reference_fault(value: Seq<char>) -> Option<Seq<char>> {
    let colon = first_index(value, ':');
    let channel = value.skip(colon + 1);
    if colon >= value.len() {
        Some("expected `inputId:channel`, got `"@ + value + "`"@)
    } else if colon == 0 {
        Some("input id is empty"@)
    } else if unsigned_value(channel, u32::MAX as nat) is None {
        Some("channel index `"@ + channel + "` is not a non-negative integer"@)
    } else {
        None
    }
}

/// The input id and channel that a reference names: what stands before the first
/// colon, and the number after it.
pub open spec fn reference_target(value: Seq<char>) -> (Seq<char>, u32) {
    let colon = first_index(value, ':');
    (value.take(colon), unsigned_value(value.skip(colon + 1), u32::MAX as nat)->0 as u32)
}

/// Parse `inputId:channel_index` (e.g. `input0:2`).
pub fn parse_input_channel_ref<'a>(value: &'a str) -> (r: Result<(&'a str, u32), String>)
    ensures
        match r {
            Ok((input_id, channel)) => reference_fault(value@) is None && (input_id@, channel)
                == reference_target(value@),
            Err(reason) => reference_fault(value@) == Some(reason@),
        },
{
    match split_once(value, ':') {
        None => Err(around("expected `inputId:channel`, got `", value, "`")),
        Some((input_id, ch)) => {
            proof {
                first_index_is_least(value@, ':');
            }
            if input_id.is_empty() {
                return Err("input id is empty".to_owned());
            }
            match parse_u32(ch) {
                Some(channel) => Ok((input_id, channel)),
                None => Err(around("channel index `", ch, "` is not a non-negative integer")),
            }
        },
    }
}

// ---- active-map structures --------------------------------------------------

/// The output channel that a field's key names.
pub open spec fn field_output(field: ActiveMapField) -> Option<nat> {
    unsigned_value(field.key@, u32::MAX as nat)
}

/// An explicitly unrouted channel: a null string, or the word `null` in any case.
pub open spec fn field_unrouted(field: ActiveMapField) -> bool {
    match field.value {
        Ok(None) => true,
        Ok(Some(text)) => same_ignoring_ascii_case(text@, "null"@),
        Err(_) => false,
    }
}

/// An earlier field names the same output channel.
pub open spec fn repeats_output(fields: Seq<ActiveMapField>, i: int) -> bool {
    exists|j: int| 0 <= j < i && #[trigger] field_output(fields[j]) == field_output(fields[i])
}

/// Field `i` is acceptable, given those before it.
pub open spec fn field_ok(fields: Seq<ActiveMapField>, i: int) -> bool {
    &&& field_output(fields[i]) is Some
    &&& !repeats_output(fields, i)
    &&& fields[i].value is Ok
    &&& field_unrouted(fields[i]) || reference_fault(fields[i].value->Ok_0->0@) is None
}

/// Field `i` is refused with `e`: a key that is no channel index first, then a
/// channel that was named before, then a value that is no reference.
pub open spec fn field_refused(fields: Seq<ActiveMapField>, i: int, e: ActiveMapError) -> bool {
    let field = fields[i];
    if field_output(field) is None {
        e matches ActiveMapError::InvalidOutputChannelKey(key) && key@ == field.key@
    } else if repeats_output(fields, i) {
        e matches ActiveMapError::DuplicateOutputChannel(channel) && field_output(field) == Some(
            channel as nat,
        )
    } else {
        &&& e matches ActiveMapError::InvalidValue { output_channel, reason }
        &&& field_output(field) == Some(e->output_channel as nat)
        &&& match field.value {
            Err(why) => e->reason@ == "field value is not a string: "@ + why@,
            Ok(Some(text)) => !field_unrouted(field) && reference_fault(text@) == Some(e->reason@),
            Ok(None) => false,
        }
    }
}

/// Field `i` routes its output channel.
pub open spec fn field_routes(fields: Seq<ActiveMapField>, i: int) -> bool {
    0 <= i < fields.len() && !field_unrouted(fields[i])
}

/// The route that a field stands for.
pub open spec fn field_route(field: ActiveMapField) -> Route {
    let (input_id, input_channel) = reference_target(field.value->Ok_0->0@);
    Route { output_channel: field_output(field)->0 as u32, input_id, input_channel }
}

/// Strictly increasing in output channel.
pub open spec fn sorted_by_output(routes: Seq<Route>) -> bool {
    forall|i: int, j: int|
        0 <= i < j < routes.len() ==> (#[trigger] routes[i]).output_channel < (
        #[trigger] routes[j]).output_channel
}

/// One of the first `n` fields stands for `route`.
pub open spec fn stands_for(fields: Seq<ActiveMapField>, n: int, route: Route) -> bool {
    exists|i: int| i < n && #[trigger] field_routes(fields, i) && route == field_route(fields[i])
}

/// The routes of the first `n` fields, in order of output channel.
pub open spec fn routes_of_fields(routes: Seq<Route>, fields: Seq<ActiveMapField>, n: int) -> bool {
    &&& sorted_by_output(routes)
    &&& forall|k: int| 0 <= k < routes.len() ==> stands_for(fields, n, #[trigger] routes[k])
    &&& forall|i: int|
        i < n && #[trigger] field_routes(fields, i) ==> routes.contains(field_route(fields[i]))
}

/// Where `route` goes in a list in order of output channel.
fn slot_for(routes: &[ActiveMapRoute], output_channel: u32) -> (at: usize)
    requires
        sorted_by_output(routes.deep_view()),
        forall|k: int|
            0 <= k < routes@.len() ==> (#[trigger] routes@[k]).output_channel != output_channel,
    ensures
        at <= routes@.len(),
        forall|k: int| 0 <= k < at ==> (#[trigger] routes@[k]).output_channel < output_channel,
        forall|k: int|
            at <= k < routes@.len() ==> (#[trigger] routes@[k]).output_channel > output_channel,
{
    let mut at: usize = 0;
    while at < routes.len() && routes[at].output_channel < output_channel
        invariant
            at <= routes@.len(),
            forall|k: int| 0 <= k < at ==> (#[trigger] routes@[k]).output_channel < output_channel,
        decreases routes@.len() - at,
    {
        at = at + 1;
    }
    proof {
        if at < routes@.len() {
            assert forall|k: int| at <= k < routes@.len() implies (
            #[trigger] routes@[k]).output_channel > output_channel by {
                let view = routes.deep_view();
                assert(view[at as int].output_channel == routes@[at as int].output_channel);
                assert(view[k].output_channel == routes@[k].output_channel);
            }
        }
    }
    at
}

/// Parse a per-src `active-map` structure into routes. The structure's name is
/// conventional (`map`) and not interpreted. The map is intended to be sparse, but
/// explicitly unrouted channels are allowed: a null string, or the word `null`.
pub fn parse_active_map_structure(fields: &[ActiveMapField]) -> (r: Result<
    Vec<ActiveMapRoute>,
    ActiveMapError,
>)
    ensures
        match r {
            Ok(routes) => (forall|i: int| 0 <= i < fields@.len() ==> #[trigger] field_ok(fields@, i))
                && routes_of_fields(routes.deep_view(), fields@, fields@.len() as int),
            Err(e) => exists|i: int|
                0 <= i < fields@.len() && (forall|j: int| 0 <= j < i ==> #[trigger] field_ok(fields@, j))
                    && !field_ok(fields@, i) && #[trigger] field_refused(fields@, i, e),
        },
{
    let mut routes: Vec<ActiveMapRoute> = Vec::new();
    let mut seen_outputs: HashSet<u32> = HashSet::new();
    let mut i: usize = 0;
    while i < fields.len()
        invariant
            i <= fields@.len(),
            forall|j: int| 0 <= j < i ==> #[trigger] field_ok(fields@, j),
            forall|c: u32| #[trigger]
                seen_outputs@.contains(c) <==> exists|j: int|
                    0 <= j < i && #[trigger] field_output(fields@[j]) == Some(c as nat),
            routes_of_fields(routes.deep_view(), fields@, i as int),
            forall|k: int|
                0 <= k < routes@.len() ==> seen_outputs@.contains(
                    (#[trigger] routes@[k]).output_channel,
                ),
        decreases fields@.len() - i,
    {
        let field = &fields[i];
        let ghost at = i as int;
        let ghost seen_before = seen_outputs@;
        let output_channel: u32 = match parse_u32(field.key.as_str()) {
            Some(c) => c,
            None => {
                let e = ActiveMapError::InvalidOutputChannelKey(field.key.clone());
                assert(field_refused(fields@, at, e));
                return Err(e);
            },
        };
        let fresh: bool = seen_outputs.insert(output_channel);
        assert(fresh <==> !repeats_output(fields@, at)) by {
            if repeats_output(fields@, at) {
                let j = choose|j: int|
                    0 <= j < at && #[trigger] field_output(fields@[j]) == field_output(fields@[at]);
                assert(field_output(fields@[j]) == Some(output_channel as nat));
                assert(seen_before.contains(output_channel));
            }
        }
        if !fresh {
            let e = ActiveMapError::DuplicateOutputChannel(output_channel);
            assert(field_refused(fields@, at, e));
            return Err(e);
        }
        proof {
            assert forall|c: u32| #[trigger]
                seen_outputs@.contains(c) <==> exists|j: int|
                    0 <= j < at + 1 && #[trigger] field_output(fields@[j]) == Some(c as nat) by {
                if seen_outputs@.contains(c) {
                    if c == output_channel {
                        assert(field_output(fields@[at]) == Some(c as nat));
                    } else {
                        assert(seen_before.contains(c));
                        let j = choose|j: int|
                            0 <= j < at && #[trigger] field_output(fields@[j]) == Some(c as nat);
                        assert(field_output(fields@[j]) == Some(c as nat));
                    }
                }
                if exists|j: int|
                    0 <= j < at + 1 && #[trigger] field_output(fields@[j]) == Some(c as nat) {
                    let j = choose|j: int|
                        0 <= j < at + 1 && #[trigger] field_output(fields@[j]) == Some(c as nat);
                    if j < at {
                        assert(seen_before.contains(c));
                    }
                }
            }
        }
        let text: Option<&String> = match &field.value {
            Ok(Some(text)) => Some(text),
            Ok(None) => None,
            Err(why) => {
                let e = ActiveMapError::InvalidValue {
                    output_channel,
                    reason: crate::text::joined("field value is not a string: ", why.as_str()),
                };
                assert(field_refused(fields@, at, e));
                return Err(e);
            },
        };
        let routed: Option<&String> = match text {
            Some(t) => if eq_ignore_ascii_case(t.as_str(), "null") {
                None
            } else {
                Some(t)
            },
            None => None,
        };
        match routed {
            None => {
                assert(field_ok(fields@, at));
                proof {
                    skipped_field(routes.deep_view(), fields@, at);
                }
            },
            Some(t) => {
                match parse_input_channel_ref(t.as_str()) {
                    Err(reason) => {
                        let e = ActiveMapError::InvalidValue { output_channel, reason };
                        assert(field_refused(fields@, at, e));
                        return Err(e);
                    },
                    Ok((input_id, input_channel)) => {
                        assert(field_ok(fields@, at));
                        let route = ActiveMapRoute {
                            output_channel,
                            input_id: input_id.to_owned(),
                            input_channel,
                        };
                        assert forall|k: int| 0 <= k < routes@.len() implies (
                        #[trigger] routes@[k]).output_channel != output_channel by {
                            assert(seen_before.contains(routes@[k].output_channel));
                        }
                        let slot: usize = slot_for(routes.as_slice(), output_channel);
                        proof {
                            assert(routes.deep_view() =~= routes@.map_values(
                                |r: ActiveMapRoute| r.deep_view(),
                            ));
                            inserted_field(routes@, fields@, at, slot as int, route);
                        }
                        routes.insert(slot, route);
                        assert(routes.deep_view() =~= routes@.map_values(
                            |r: ActiveMapRoute| r.deep_view(),
                        ));
                    },
                }
            },
        }
        i = i + 1;
    }
    Ok(routes)
}

proof fn skipped_field(routes: Seq<Route>, fields: Seq<ActiveMapField>, i: int)
    requires
        0 <= i < fields.len(),
        routes_of_fields(routes, fields, i),
        field_unrouted(fields[i]),
    ensures
        routes_of_fields(routes, fields, i + 1),
{
    assert forall|k: int| 0 <= k < routes.len() implies stands_for(
        fields,
        i + 1,
        #[trigger] routes[k],
    ) by {
        assert(stands_for(fields, i, routes[k]));
    }
}

proof fn inserted_field(
    routes: Seq<ActiveMapRoute>,
    fields: Seq<ActiveMapField>,
    i: int,
    slot: int,
    route: ActiveMapRoute,
)
    requires
        0 <= i < fields.len(),
        0 <= slot <= routes.len(),
        routes_of_fields(routes.map_values(|r: ActiveMapRoute| r.deep_view()), fields, i),
        field_routes(fields, i),
        route.deep_view() == field_route(fields[i]),
        forall|k: int|
            0 <= k < slot ==> (#[trigger] routes[k]).output_channel < route.output_channel,
        forall|k: int|
            slot <= k < routes.len() ==> (#[trigger] routes[k]).output_channel
                > route.output_channel,
    ensures
        routes_of_fields(
            routes.insert(slot, route).map_values(|r: ActiveMapRoute| r.deep_view()),
            fields,
            i + 1,
        ),
{
    let before = routes.map_values(|r: ActiveMapRoute| r.deep_view());
    let after = routes.insert(slot, route).map_values(|r: ActiveMapRoute| r.deep_view());
    assert(after =~= before.insert(slot, route.deep_view()));
    assert forall|k: int| 0 <= k < routes.len() implies before[k].output_channel
        == routes[k].output_channel by {}
    assert(sorted_by_output(after));
    assert forall|k: int| 0 <= k < after.len() implies stands_for(
        fields,
        i + 1,
        #[trigger] after[k],
    ) by {
        if k != slot {
            let old_k = if k < slot {
                k
            } else {
                k - 1
            };
            assert(after[k] == before[old_k]);
            assert(stands_for(fields, i, before[old_k]));
        }
    }
    assert forall|j: int| j < i + 1 && #[trigger] field_routes(fields, j) implies after.contains(
        field_route(fields[j]),
    ) by {
        if j < i {
            let k = choose|k: int| 0 <= k < before.len() && before[k] == field_route(fields[j]);
            assert(after[if k < slot {
                k
            } else {
                k + 1
            }] == before[k]);
        } else {
            assert(after[slot] == route.deep_view());
        }
    }
}

// ---- dense entries ----------------------------------------------------------

/// What slot `channel` of the dense map holds after the routes were entered one
/// after the other: the last route to it, or nothing.
pub open spec fn slot_of(routes: Seq<Route>, channel: int) -> Slot
    decreases routes.len(),
{
    if routes.len() == 0 {
        Slot { input_id: None, input_channel: None }
    } else if routes.last().output_channel == channel {
        Slot {
            input_id: Some(routes.last().input_id),
            input_channel: Some(routes.last().input_channel),
        }
    } else {
        slot_of(routes.drop_last(), channel)
    }
}

/// Convert routes to dense entries (index `i` = output channel `i`).
pub fn active_map_entries_from_routes(
    output_channels: u32,
    routes: &[ActiveMapRoute],
) -> (entries: Vec<ActiveMapEntry>)
    ensures
        entries.deep_view() == Seq::new(
            output_channels as nat,
            |c: int| slot_of(routes.deep_view(), c),
        ),
{
    let mut entries: Vec<ActiveMapEntry> = Vec::new();
    let mut c: u32 = 0;
    while c < output_channels
        invariant
            c <= output_channels,
            entries@.len() == c,
            forall|k: int|
                0 <= k < c ==> (#[trigger] entries@[k]).deep_view() == slot_of(Seq::empty(), k),
        decreases output_channels - c,
    {
        entries.push(ActiveMapEntry { input_id: None, input_channel: None });
        c = c + 1;
    }
    let ghost all = routes.deep_view();
    assert(all.take(0) =~= Seq::empty());
    let mut i: usize = 0;
    while i < routes.len()
        invariant
            i <= routes@.len(),
            all == routes.deep_view(),
            entries@.len() == output_channels,
            forall|k: int|
                0 <= k < output_channels ==> (#[trigger] entries@[k]).deep_view() == slot_of(
                    all.take(i as int),
                    k,
                ),
        decreases routes@.len() - i,
    {
        let route = &routes[i];
        proof {
            let next = all.take(i as int + 1);
            assert(next.drop_last() =~= all.take(i as int));
            assert(next.last() == route.deep_view());
        }
        if route.output_channel < output_channels {
            entries[route.output_channel as usize] = ActiveMapEntry {
                input_id: Some(route.input_id.clone()),
                input_channel: Some(route.input_channel),
            };
        }
        i = i + 1;
    }
    assert(all.take(all.len() as int) =~= all);
    entries
}

// ---- identity maps ----------------------------------------------------------

/// The input id of sink pad `i`: the effective one, or the pad's own.
pub open spec fn sink_input_id(
    topology: FrozenTopology,
    sinks: Seq<SinkPadSnapshot>,
    i: int,
) -> Seq<char> {
    if i < topology.input_ids@.len() {
        topology.input_ids@[i]@
    } else {
        sinks[i].input_id@
    }
}

/// Every channel of the first `n` sink pads, pad after pad.
pub open spec fn flat_inputs(
    topology: FrozenTopology,
    sinks: Seq<SinkPadSnapshot>,
    n: int,
) -> Seq<(Seq<char>, u32)>
    decreases n,
{
    if n <= 0 {
        Seq::empty()
    } else {
        flat_inputs(topology, sinks, n - 1) + Seq::new(
            sinks[n - 1].negotiated_channels as nat,
            |c: int| (sink_input_id(topology, sinks, n - 1), c as u32),
        )
    }
}

/// Routes that take the first `n` of a list of input channels to output channels
/// `0`, `1` and so on.
pub open spec fn consecutive_routes(inputs: Seq<(Seq<char>, u32)>, n: nat) -> Seq<Route> {
    Seq::new(
        n,
        |k: int|
            Route {
                output_channel: k as u32,
                input_id: inputs[k].0,
                input_channel: inputs[k].1,
            },
    )
}

pub open spec fn least(a: nat, b: nat) -> nat {
    if a <= b {
        a
    } else {
        b
    }
}

/// The identity map of one src pad. A single src pad takes the channels of all sink
/// pads, pad after pad, as far as it has channels. With several, the src pad takes
/// those of the sink pad at its own index.
pub open spec fn identity_routes(
    topology: FrozenTopology,
    src_index: int,
    output_channels: u32,
    sinks: Seq<SinkPadSnapshot>,
    src_count: int,
) -> Seq<Route> {
    if src_count == 1 {
        let inputs = flat_inputs(topology, sinks, sinks.len() as int);
        consecutive_routes(inputs, least(inputs.len(), output_channels as nat))
    } else if src_index >= sinks.len() || sink_input_id(topology, sinks, src_index).len() == 0 {
        Seq::empty()
    } else {
        let channels = sinks[src_index].negotiated_channels;
        let inputs = Seq::new(
            channels as nat,
            |c: int| (sink_input_id(topology, sinks, src_index), c as u32),
        );
        consecutive_routes(inputs, least(channels as nat, output_channels as nat))
    }
}

proof fn flat_inputs_grow(
    topology: FrozenTopology,
    sinks: Seq<SinkPadSnapshot>,
    m: int,
    n: int,
)
    requires
        0 <= m <= n,
    ensures
        flat_inputs(topology, sinks, m).len() <= flat_inputs(topology, sinks, n).len(),
        flat_inputs(topology, sinks, n).take(flat_inputs(topology, sinks, m).len() as int)
            == flat_inputs(topology, sinks, m),
    decreases n - m,
{
    let short = flat_inputs(topology, sinks, m);
    let long = flat_inputs(topology, sinks, n);
    if m < n {
        flat_inputs_grow(topology, sinks, m, n - 1);
        let near = flat_inputs(topology, sinks, n - 1);
        assert(long.take(short.len() as int) =~= near.take(short.len() as int));
    } else {
        assert(long.take(short.len() as int) =~= short);
    }
}

/// Default identity routes when `active-map` is unset or whole-property NULL.
pub fn default_identity_routes(
    topology: &FrozenTopology,
    src_index: usize,
    output_channels: u32,
    sinks: &[SinkPadSnapshot],
    src_count: usize,
) -> (routes: Vec<ActiveMapRoute>)
    ensures
        routes.deep_view() == identity_routes(
            *topology,
            src_index as int,
            output_channels,
            sinks@,
            src_count as int,
        ),
{
    let mut routes: Vec<ActiveMapRoute> = Vec::new();
    if src_count == 1 {
        let ghost inputs = flat_inputs(*topology, sinks@, sinks@.len() as int);
        let mut logical: u32 = 0;
        let mut pad: usize = 0;
        while pad < sinks.len()
            invariant
                pad <= sinks@.len(),
                src_count == 1,
                inputs == flat_inputs(*topology, sinks@, sinks@.len() as int),
                logical <= output_channels,
                logical == flat_inputs(*topology, sinks@, pad as int).len(),
                logical <= inputs.len(),
                routes.deep_view() == consecutive_routes(inputs, logical as nat),
            decreases sinks@.len() - pad,
        {
            let input_id: String = if pad < topology.input_ids.len() {
                topology.input_ids[pad].clone()
            } else {
                sinks[pad].input_id.clone()
            };
            let channels: u32 = sinks[pad].negotiated_channels;
            let ghost base = flat_inputs(*topology, sinks@, pad as int);
            let ghost with_pad = flat_inputs(*topology, sinks@, pad as int + 1);
            proof {
                flat_inputs_grow(*topology, sinks@, pad as int + 1, sinks@.len() as int);
            }
            let mut ch: u32 = 0;
            while ch < channels
                invariant
                    pad < sinks@.len(),
                    src_count == 1,
                    ch <= channels,
                    channels == sinks@[pad as int].negotiated_channels,
                    input_id@ == sink_input_id(*topology, sinks@, pad as int),
                    inputs == flat_inputs(*topology, sinks@, sinks@.len() as int),
                    base == flat_inputs(*topology, sinks@, pad as int),
                    with_pad == flat_inputs(*topology, sinks@, pad as int + 1),
                    with_pad.len() <= inputs.len(),
                    inputs.take(with_pad.len() as int) == with_pad,
                    logical == base.len() + ch,
                    logical <= output_channels,
                    routes.deep_view() == consecutive_routes(inputs, logical as nat),
                decreases channels - ch,
            {
                if logical >= output_channels {
                    return routes;
                }
                proof {
                    assert(inputs.take(with_pad.len() as int)[logical as int]
                        == inputs[logical as int]);
                    assert(with_pad[logical as int] == (input_id@, ch));
                }
                let ghost before = routes.deep_view();
                let route = ActiveMapRoute {
                    output_channel: logical,
                    input_id: input_id.clone(),
                    input_channel: ch,
                };
                routes.push(route);
                assert(routes.deep_view() =~= before.push(route.deep_view()));
                assert(routes.deep_view() =~= consecutive_routes(inputs, logical as nat + 1));
                logical = logical + 1;
                ch = ch + 1;
            }
            pad = pad + 1;
        }
        return routes;
    }
    if src_index >= sinks.len() {
        return routes;
    }
    let input_id: String = if src_index < topology.input_ids.len() {
        topology.input_ids[src_index].clone()
    } else {
        sinks[src_index].input_id.clone()
    };
    if input_id.as_str().is_empty() {
        return routes;
    }
    let channels: u32 = sinks[src_index].negotiated_channels;
    let routed: u32 = if output_channels <= channels {
        output_channels
    } else {
        channels
    };
    let ghost inputs = Seq::new(
        channels as nat,
        |c: int| (sink_input_id(*topology, sinks@, src_index as int), c as u32),
    );
    let mut ch: u32 = 0;
    while ch < routed
        invariant
            ch <= routed,
            routed <= channels,
            input_id@ == sink_input_id(*topology, sinks@, src_index as int),
            inputs == Seq::new(
                channels as nat,
                |c: int| (sink_input_id(*topology, sinks@, src_index as int), c as u32),
            ),
            routes.deep_view() == consecutive_routes(inputs, ch as nat),
        decreases routed - ch,
    {
        let ghost before = routes.deep_view();
        let route = ActiveMapRoute {
            output_channel: ch,
            input_id: input_id.clone(),
            input_channel: ch,
        };
        routes.push(route);
        assert(routes.deep_view() =~= before.push(route.deep_view()));
        assert(routes.deep_view() =~= consecutive_routes(inputs, ch as nat + 1));
        ch = ch + 1;
    }
    routes
}

/// Parse `active-map` or return default identity for one src pad.
pub fn active_map_entries_for_src(
    topology: &FrozenTopology,
    src: &SrcPadSnapshot,
    src_index: usize,
    sinks: &[SinkPadSnapshot],
    src_count: usize,
) -> (r: Result<Vec<ActiveMapEntry>, ActiveMapError>)
    ensures
        match (src.active_map, r) {
            (None, Ok(entries)) => entries.deep_view() == Seq::new(
                src.negotiated_channels as nat,
                |c: int|
                    slot_of(
                        identity_routes(
                            *topology,
                            src_index as int,
                            src.negotiated_channels,
                            sinks@,
                            src_count as int,
                        ),
                        c,
                    ),
            ),
            (None, Err(_)) => false,
            (Some(fields), Ok(entries)) => (forall|i: int|
                0 <= i < fields@.len() ==> #[trigger] field_ok(fields@, i)) && exists|
                routes: Seq<Route>,
            |
                #[trigger] routes_of_fields(routes, fields@, fields@.len() as int)
                    && entries.deep_view() == Seq::new(
                    src.negotiated_channels as nat,
                    |c: int| slot_of(routes, c),
                ),
            (Some(fields), Err(e)) => exists|i: int|
                0 <= i < fields@.len() && (forall|j: int| 0 <= j < i ==> #[trigger] field_ok(fields@, j))
                    && !field_ok(fields@, i) && #[trigger] field_refused(fields@, i, e),
        },
{
    let output_channels: u32 = src.negotiated_channels;
    let routes: Vec<ActiveMapRoute> = match &src.active_map {
        Some(fields) => match parse_active_map_structure(fields.as_slice()) {
            Ok(routes) => routes,
            Err(e) => {
                return Err(e);
            },
        },
        None => default_identity_routes(topology, src_index, output_channels, sinks, src_count),
    };
    Ok(active_map_entries_from_routes(output_channels, routes.as_slice()))
}

// ---- laws -------------------------------------------------------------------

/// An input channel reference is an id, a colon and a number, and is read as just that.
pub proof fn reference_names_input_and_channel(id: Seq<char>, channel: u32)
    requires
        id.len() > 0,
        !id.contains(':'),
    ensures
        reference_fault(id.push(':') + decimal(channel as nat)) is None,
        reference_target(id.push(':') + decimal(channel as nat)) == (id, channel),
{
    let text = id.push(':') + decimal(channel as nat);
    crate::text::decimal_round_trip(channel as nat, u32::MAX as nat);
    let at = id.len() as int;
    assert(text[at] == ':');
    first_index_is_least(text, ':');
    assert forall|x: int| 0 <= x < at implies text[x] != ':' by {
        assert(text[x] == id[x]);
        assert(id.contains(id[x]));
    }
    let colon = first_index(text, ':');
    assert(colon == at);
    assert(text.take(colon) =~= id);
    assert(text.skip(colon + 1) =~= decimal(channel as nat));
}

/// A reference without a colon, without an id or without a number is refused.
pub proof fn malformed_references_are_refused(text: Seq<char>, id: Seq<char>, rest: Seq<char>)
    requires
        !id.contains(':'),
        unsigned_value(rest, u32::MAX as nat) is None,
    ensures
        !text.contains(':') ==> reference_fault(text) is Some,
        text.len() > 0 && text[0] == ':' ==> reference_fault(text) is Some,
        reference_fault(id.push(':') + rest) is Some,
{
    first_index_is_least(text, ':');
    if first_index(text, ':') < text.len() {
        assert(text.contains(text[first_index(text, ':')]));
    }
    let whole = id.push(':') + rest;
    first_index_is_least(whole, ':');
    let at = id.len() as int;
    assert(whole[at] == ':');
    assert forall|x: int| 0 <= x < at implies whole[x] != ':' by {
        assert(whole[x] == id[x]);
        assert(id.contains(id[x]));
    }
    assert(first_index(whole, ':') == at);
    assert(whole.skip(at + 1) =~= rest);
}

/// What is refused is named: a key that is no number by its text, a channel that was named twice
/// by its number.
pub proof fn refused_fields_are_named(fields: Seq<ActiveMapField>, i: int, e: ActiveMapError)
    requires
        0 <= i < fields.len(),
        field_refused(fields, i, e),
    ensures
        unsigned_value(fields[i].key@, u32::MAX as nat) is None ==> (
        e matches ActiveMapError::InvalidOutputChannelKey(key) && key@ == fields[i].key@),
        unsigned_value(fields[i].key@, u32::MAX as nat) matches Some(c) ==> match e {
            ActiveMapError::InvalidOutputChannelKey(_) => false,
            ActiveMapError::DuplicateOutputChannel(n) => n == c && exists|j: int|
                0 <= j < i && #[trigger] field_output(fields[j]) == Some(c),
            ActiveMapError::InvalidValue { output_channel, .. } => output_channel == c,
        },
{
}

/// Where every output has an input of its own, nothing is routed from an input that has no id, and
/// nothing from an input of another output.
pub proof fn paired_routes_have_an_input(
    topology: FrozenTopology,
    src_index: int,
    output_channels: u32,
    sinks: Seq<SinkPadSnapshot>,
    src_count: int,
    k: int,
)
    requires
        src_count != 1,
        0 <= src_index,
        0 <= k < identity_routes(topology, src_index, output_channels, sinks, src_count).len(),
    ensures
        ({
            let route = identity_routes(
                topology,
                src_index,
                output_channels,
                sinks,
                src_count,
            )[k];
            &&& src_index < sinks.len()
            &&& route.input_id.len() > 0
            &&& route.input_id == sink_input_id(topology, sinks, src_index)
            &&& route.output_channel == route.input_channel
            &&& route.output_channel < output_channels
            &&& route.input_channel < sinks[src_index].negotiated_channels
        }),
{
}

/// An output channel is left unrouted by a null, and by the word for it in any case; two words
/// that differ in case alone route alike.
pub proof fn null_is_written_in_any_case(a: ActiveMapField, b: ActiveMapField)
    requires
        a.value matches Ok(Some(x)) && (b.value matches Ok(Some(y)) && same_ignoring_ascii_case(
            x@,
            y@,
        )),
    ensures
        field_unrouted(a) == field_unrouted(b),
        a.value->Ok_0->0@ == "null"@ ==> field_unrouted(b),
        a.value->Ok_0->0@ == "NULL"@ ==> field_unrouted(b),
        a.value->Ok_0->0@.len() != 4 ==> !field_unrouted(a),
        forall|f: ActiveMapField| f.value == Ok::<Option<String>, String>(None) ==> #[trigger]
            field_unrouted(f),
{
    reveal_strlit("null");
    reveal_strlit("NULL");
    let x = a.value->Ok_0->0@;
    let y = b.value->Ok_0->0@;
    assert(same_ignoring_ascii_case(x, "null"@) == same_ignoring_ascii_case(y, "null"@)) by {
        if same_ignoring_ascii_case(x, "null"@) {
            assert forall|i: int| 0 <= i < y.len() implies lower_ascii(#[trigger] y[i])
                == lower_ascii("null"@[i]) by {
                assert(lower_ascii(x[i]) == lower_ascii(y[i]));
            }
        }
        if same_ignoring_ascii_case(y, "null"@) {
            assert forall|i: int| 0 <= i < x.len() implies lower_ascii(#[trigger] x[i])
                == lower_ascii("null"@[i]) by {
                assert(lower_ascii(y[i]) == lower_ascii("null"@[i]));
            }
        }
    }
}

} // verus!
