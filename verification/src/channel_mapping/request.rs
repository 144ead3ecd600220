//! Build the request that adds a channel mapping from pad snapshots.

use super::types::{SinkPadSnapshot, SrcPadSnapshot};
use crate::text::{copy_texts, decimal, decimal_round_trip, decimal_text, unsigned_value};
use vstd::prelude::*;

verus! {

/// What an input's or output's parent is.
#[derive(Debug, Clone, Copy, PartialEq, Eq, Structural)]
pub enum ChannelMappingParentType {
    Unspecified,
    Source,
    Receiver,
}

#[derive(Debug)]
pub struct ChannelMappingInput {
    pub id: String,
    pub name: String,
    pub description: String,
    pub channel_labels: Vec<String>,
    pub parent_name: String,
    pub parent_type: ChannelMappingParentType,
    pub reordering: bool,
    pub block_size: u32,
}

#[derive(Debug)]
pub struct ChannelMappingOutput {
    pub id: String,
    pub name: String,
    pub description: String,
    pub channel_labels: Vec<String>,
    pub sender_name: String,
    pub routable_inputs: Vec<String>,
}

#[derive(Debug)]
pub struct AddChannelMappingRequest {
    pub session_handle: String,
    pub name: String,
    pub inputs: Vec<ChannelMappingInput>,
    pub outputs: Vec<ChannelMappingOutput>,
}

/// The labels `"0"`, `"1"` and so on.
pub open spec fn numbered_labels(channels: u32) -> Seq<Seq<char>> {
    Seq::new(channels as nat, |i: int| decimal(i as nat))
}

/// A mapping requires one label per negotiated channel. Individual labels may be
/// empty strings, but they default to `"0"`, `"1"`, … where pad geometry is known.
pub fn default_channel_labels(channels: u32) -> (labels: Vec<String>)
    ensures
        labels.deep_view() == numbered_labels(channels),
{
    let mut labels: Vec<String> = Vec::new();
    let mut i: u32 = 0;
    while i < channels
        invariant
            i <= channels,
            labels@.len() == i,
            forall|k: int| 0 <= k < i ==> (#[trigger] labels@[k])@ == decimal(k as nat),
        decreases channels - i,
    {
        labels.push(decimal_text(i as u64));
        i = i + 1;
    }
    labels
}

/// The input that a sink pad makes: any channel can be reordered on its own, and its
/// parent is a receiver.
pub open spec fn input_of_sink(input: ChannelMappingInput, sink: SinkPadSnapshot) -> bool {
    &&& input.id@ == sink.input_id@
    &&& input.name@ == sink.label@
    &&& input.description@ == sink.description@
    &&& input.channel_labels.deep_view() == numbered_labels(sink.negotiated_channels)
    &&& input.parent_name@ == sink.receiver_name@
    &&& input.parent_type == ChannelMappingParentType::Receiver
    &&& input.reordering
    &&& input.block_size == 1
}

/// The output that a src pad makes. It may be routed from the given inputs only; an
/// empty list leaves it unrestricted.
pub open spec fn output_of_src(
    output: ChannelMappingOutput,
    src: SrcPadSnapshot,
    routable_inputs: Seq<Seq<char>>,
) -> bool {
    &&& output.id@ == src.output_id@
    &&& output.name@ == src.label@
    &&& output.description@ == src.description@
    &&& output.channel_labels.deep_view() == numbered_labels(src.negotiated_channels)
    &&& output.sender_name@ == src.sender_name@
    &&& output.routable_inputs.deep_view() == routable_inputs
}

/// The input ids of the sink pads.
pub open spec fn sink_ids(sinks: Seq<SinkPadSnapshot>) -> Seq<Seq<char>> {
    sinks.map_values(|s: SinkPadSnapshot| s.input_id@)
}

/// The request for a mapping of these pads. With `restrict_routable_inputs`, every output
/// lists the inputs of this mapping as the only ones that it can take.
pub open spec fn mapping_request(
    request: AddChannelMappingRequest,
    session_handle: Seq<char>,
    name: Seq<char>,
    sinks: Seq<SinkPadSnapshot>,
    srcs: Seq<SrcPadSnapshot>,
    restrict_routable_inputs: bool,
) -> bool {
    &&& request.session_handle@ == session_handle
    &&& request.name@ == name
    &&& request.inputs@.len() == sinks.len()
    &&& forall|i: int|
        0 <= i < sinks.len() ==> input_of_sink(#[trigger] request.inputs@[i], sinks[i])
    &&& request.outputs@.len() == srcs.len()
    &&& forall|i: int|
        0 <= i < srcs.len() ==> output_of_src(
            #[trigger] request.outputs@[i],
            srcs[i],
            if restrict_routable_inputs {
                sink_ids(sinks)
            } else {
                Seq::empty()
            },
        )
}

pub fn build_add_channel_mapping_request(
    session_handle: &str,
    channelmapping_name: &str,
    sinks: &[SinkPadSnapshot],
    srcs: &[SrcPadSnapshot],
    restrict_routable_inputs: bool,
) -> (request: AddChannelMappingRequest)
    ensures
        mapping_request(
            request,
            session_handle@,
            channelmapping_name@,
            sinks@,
            srcs@,
            restrict_routable_inputs,
        ),
{
    let mut routable: Vec<String> = Vec::new();
    let mut inputs: Vec<ChannelMappingInput> = Vec::new();
    let mut i: usize = 0;
    while i < sinks.len()
        invariant
            i <= sinks@.len(),
            inputs@.len() == i,
            forall|k: int| 0 <= k < i ==> input_of_sink(#[trigger] inputs@[k], sinks@[k]),
            routable@.len() == if restrict_routable_inputs {
                i as nat
            } else {
                0
            },
            forall|k: int|
                0 <= k < routable@.len() ==> (#[trigger] routable@[k])@ == sinks@[k].input_id@,
        decreases sinks@.len() - i,
    {
        let s = &sinks[i];
        inputs.push(
            ChannelMappingInput {
                id: s.input_id.clone(),
                name: s.label.clone(),
                description: s.description.clone(),
                channel_labels: default_channel_labels(s.negotiated_channels),
                parent_name: s.receiver_name.clone(),
                parent_type: ChannelMappingParentType::Receiver,
                reordering: true,
                block_size: 1,
            },
        );
        if restrict_routable_inputs {
            routable.push(s.input_id.clone());
        }
        i = i + 1;
    }
    let ghost allowed = if restrict_routable_inputs {
        sink_ids(sinks@)
    } else {
        Seq::empty()
    };
    assert(routable.deep_view() =~= allowed);
    let mut outputs: Vec<ChannelMappingOutput> = Vec::new();
    let mut k: usize = 0;
    while k < srcs.len()
        invariant
            k <= srcs@.len(),
            outputs@.len() == k,
            routable.deep_view() == allowed,
            forall|j: int|
                0 <= j < k ==> output_of_src(#[trigger] outputs@[j], srcs@[j], allowed),
        decreases srcs@.len() - k,
    {
        let s = &srcs[k];
        let routable_inputs = copy_texts(routable.as_slice());
        assert(routable_inputs.deep_view() =~= allowed);
        outputs.push(
            ChannelMappingOutput {
                id: s.output_id.clone(),
                name: s.label.clone(),
                description: s.description.clone(),
                channel_labels: default_channel_labels(s.negotiated_channels),
                sender_name: s.sender_name.clone(),
                routable_inputs,
            },
        );
        k = k + 1;
    }
    AddChannelMappingRequest {
        session_handle: session_handle.to_owned(),
        name: channelmapping_name.to_owned(),
        inputs,
        outputs,
    }
}

/// A channel is labelled with the number that it has in a route: read as a number, the label at
/// a place is the place, from the first channel to the last.
pub proof fn labels_are_channel_numbers(channels: u32, c: u32)
    ensures
        numbered_labels(channels).len() == channels,
        c < channels ==> unsigned_value(numbered_labels(channels)[c as int], u32::MAX as nat)
            == Some(c as nat),
{
    decimal_round_trip(c as nat, u32::MAX as nat);
}

/// Every input is offered channel by channel and in any order, as a child of a receiver; without
/// the restriction an output takes any input, and with it those of the element alone.
pub proof fn inputs_are_offered_channel_by_channel(
    request: AddChannelMappingRequest,
    session_handle: Seq<char>,
    name: Seq<char>,
    sinks: Seq<SinkPadSnapshot>,
    srcs: Seq<SrcPadSnapshot>,
    restrict_routable_inputs: bool,
    i: int,
    k: int,
)
    requires
        mapping_request(request, session_handle, name, sinks, srcs, restrict_routable_inputs),
        0 <= i < sinks.len(),
        0 <= k < srcs.len(),
    ensures
        request.inputs@[i].reordering,
        request.inputs@[i].block_size == 1,
        request.inputs@[i].parent_type == ChannelMappingParentType::Receiver,
        !restrict_routable_inputs ==> request.outputs@[k].routable_inputs@.len() == 0,
        restrict_routable_inputs ==> request.outputs@[k].routable_inputs@.len() == sinks.len()
            && request.outputs@[k].routable_inputs@[i]@ == request.inputs@[i].id@,
{
    assert(input_of_sink(request.inputs@[i], sinks[i]));
    let told = request.outputs@[k].routable_inputs;
    assert(told.deep_view().len() == told@.len());
    if restrict_routable_inputs {
        assert(told.deep_view()[i] == told@[i]@);
        assert(sink_ids(sinks)[i] == sinks[i].input_id@);
    }
}

} // verus!
