//! The graph of `audiomixer` and `audiomixmatrix` elements that carries out a mapping.
//!
//! Every input goes through a caps filter and a queue into one mixer, each on its own
//! channels of the input bus. The bus goes through a tee to one queue and one mixing matrix
//! per output.

use super::caps::{
    caps_with_channel_count, caps_with_channel_mask, carried_mask, count_caps, mask_caps,
    sequential_channel_mask,
};
use crate::channel_mapping::active_map::{ActiveMapRoute, Route};
use crate::channel_mapping::matrix::{
    build_input_bus_mix_matrix, build_output_mix_matrix, connects, map_ok, map_refused, matrix_of,
    ActiveMapValidationError,
};
use crate::channel_mapping::types::{total_channels, total_channels_grows, FrozenTopology};
use crate::chain::{
    element, no_settings, optional_setting, put, put_optional, ElementModel, ElementPlan, Setting,
    SettingModel, SettingValue,
};
use crate::text::{beginnings_and_ends, decimal, decimal_text, has_suffix, joined};
use vstd::prelude::*;

verus! {

/// Extra wait the live mixer allows for jittery inputs before emitting: 10 ms. Covers
/// software-receive scheduling jitter at small RTP packet times.
pub const AUDIOMIXER_LATENCY_NS: u64 = 10_000_000;

/// Buffering before the mixer and the matrices to absorb jitter: 50 ms. Limits on buffers
/// and bytes are disabled.
pub const QUEUE_MAX_SIZE_TIME_NS: u64 = 50_000_000;

/// An element of the graph. The last settings are made only where the element has such a
/// property.
#[derive(Debug)]
pub struct GraphElement {
    pub element: ElementPlan,
    pub if_present: Vec<Setting>,
}

pub struct GraphElementModel {
    pub element: ElementModel,
    pub if_present: Seq<(Seq<char>, SettingModel)>,
}

impl DeepView for GraphElement {
    type V = GraphElementModel;

    open spec fn deep_view(&self) -> GraphElementModel {
        GraphElementModel {
            element: self.element.deep_view(),
            if_present: self.if_present.deep_view(),
        }
    }
}

/// One input of the graph: its caps filter, its queue, and the matrix that the mixer's pad
/// converts it with.
#[derive(Debug)]
pub struct SinkLeg {
    pub capsfilter: ElementPlan,
    pub queue: ElementPlan,
    pub matrix: Vec<Vec<u8>>,
}

/// One output of the graph: its queue and its mixing matrix.
#[derive(Debug)]
pub struct SrcLeg {
    pub queue: ElementPlan,
    pub mixmatrix: GraphElement,
    pub matrix: Vec<Vec<u8>>,
}

/// The whole graph.
#[derive(Debug)]
pub struct InternalGraph {
    pub mixer: GraphElement,
    pub mixer_capsfilter: ElementPlan,
    pub tee: ElementPlan,
    pub sink_legs: Vec<SinkLeg>,
    pub src_legs: Vec<SrcLeg>,
}

/// Why no graph could be built.
#[derive(Debug)]
pub enum GraphError {
    /// There must be at least one sink and one src pad.
    NoPads,
    /// There must be one map per src pad.
    RouteCount,
    InvalidMap(ActiveMapValidationError),
    /// There is no matrix for the output.
    NoMatrix { src_index: usize },
}

impl GraphError {
    /// The wording of the error.
    pub open spec fn text(self) -> Seq<char> {
        match self {
            GraphError::NoPads => "at least one sink and one src pad are required"@,
            GraphError::RouteCount => "output_routes length must match src pad count"@,
            GraphError::InvalidMap(e) => e.text(),
            GraphError::NoMatrix { src_index } => "no matrix for src index "@ + decimal(
                src_index as nat,
            ),
        }
    }

    /// What is said of the error.
    pub fn message(&self) -> (r: String)
        ensures
            r@ == self.text(),
    {
        match self {
            GraphError::NoPads => "at least one sink and one src pad are required".to_owned(),
            GraphError::RouteCount => "output_routes length must match src pad count".to_owned(),
            GraphError::InvalidMap(e) => e.message(),
            GraphError::NoMatrix { src_index } => joined(
                "no matrix for src index ",
                decimal_text(*src_index as u64).as_str(),
            ),
        }
    }
}

pub open spec fn queue_model(name: Seq<char>) -> ElementModel {
    ElementModel {
        factory: "queue"@,
        name,
        settings: seq![
            ("max-size-time"@, SettingModel::UInt64(QUEUE_MAX_SIZE_TIME_NS)),
            ("max-size-buffers"@, SettingModel::UInt(0)),
            ("max-size-bytes"@, SettingModel::UInt(0)),
        ],
    }
}

/// The mixer leaves inactive pads out, starts with the first buffer it gets, and waits for
/// jittery inputs.
pub open spec fn mixer_model() -> GraphElementModel {
    GraphElementModel {
        element: ElementModel {
            factory: "audiomixer"@,
            name: "mixer"@,
            settings: Seq::empty(),
        },
        if_present: seq![
            ("ignore-inactive-pads"@, SettingModel::Boolean(true)),
            ("start-time-selection"@, SettingModel::Nick("first"@)),
            ("latency"@, SettingModel::UInt64(AUDIOMIXER_LATENCY_NS)),
        ],
    }
}

pub open spec fn mixer_capsfilter_model(bus_channels: u32) -> ElementModel {
    ElementModel {
        factory: "capsfilter"@,
        name: "mixer-capsfilter"@,
        settings: seq![("caps"@, SettingModel::Caps(mask_caps(bus_channels)))],
    }
}

/// The leg of input `i`: pinned to its channel count, and placed on the bus from its offset
/// on.
pub open spec fn sink_leg_ok(leg: SinkLeg, topology: FrozenTopology, i: int) -> bool {
    let channels = topology.input_channels@[i];
    &&& leg.capsfilter.deep_view() == (ElementModel {
        factory: "capsfilter"@,
        name: "sink-capsfilter-"@ + decimal(i as nat),
        settings: seq![("caps"@, SettingModel::Caps(count_caps(channels)))],
    })
    &&& leg.queue.deep_view() == queue_model("sink-queue-"@ + decimal(i as nat))
    &&& matrix_of(
        leg.matrix@,
        topology.input_bus_channels as int,
        channels as int,
        |row: int, column: int| row == topology.input_bus_offsets@[i] + column,
    )
}

/// The leg of output `k`: its matrix connects what the routes connect. More than two
/// channels carry a sequential mask.
pub open spec fn src_leg_ok(
    leg: SrcLeg,
    topology: FrozenTopology,
    k: int,
    routes: Seq<Route>,
) -> bool {
    let channels = topology.output_channels@[k];
    &&& leg.queue.deep_view() == queue_model("src-queue-"@ + decimal(k as nat))
    &&& leg.mixmatrix.deep_view() == (GraphElementModel {
        element: ElementModel {
            factory: "audiomixmatrix"@,
            name: "mixmatrix-"@ + decimal(k as nat),
            settings: seq![
                ("in-channels"@, SettingModel::UInt(topology.input_bus_channels)),
                ("out-channels"@, SettingModel::UInt(channels)),
            ],
        },
        if_present: optional_setting(
            "channel-mask"@,
            match carried_mask(channels) {
                Some(mask) => Some(SettingModel::UInt64(mask)),
                None => None,
            },
        ),
    })
    &&& map_ok(topology, channels, routes)
    &&& matrix_of(
        leg.matrix@,
        channels as int,
        topology.input_bus_channels as int,
        |o: int, b: int| connects(topology, routes, o, b),
    )
}

/// The graph of a topology whose outputs have the given routes.
pub open spec fn graph_ok(
    graph: InternalGraph,
    topology: FrozenTopology,
    output_routes: Seq<Seq<Route>>,
) -> bool {
    &&& graph.mixer.deep_view() == mixer_model()
    &&& graph.mixer_capsfilter.deep_view() == mixer_capsfilter_model(topology.input_bus_channels)
    &&& graph.tee.deep_view() == (ElementModel {
        factory: "tee"@,
        name: "mixer-tee"@,
        settings: Seq::empty(),
    })
    &&& graph.sink_legs@.len() == topology.input_channels@.len()
    &&& forall|i: int|
        0 <= i < graph.sink_legs@.len() ==> sink_leg_ok(#[trigger] graph.sink_legs@[i], topology, i)
    &&& graph.src_legs@.len() == topology.output_channels@.len()
    &&& forall|k: int|
        0 <= k < graph.src_legs@.len() ==> src_leg_ok(
            #[trigger] graph.src_legs@[k],
            topology,
            k,
            output_routes[k],
        )
}

fn queue_element(name: String) -> (r: ElementPlan)
    ensures
        r.deep_view() == queue_model(name@),
{
    let mut settings = no_settings();
    put(&mut settings, "max-size-time", SettingValue::UInt64(QUEUE_MAX_SIZE_TIME_NS));
    put(&mut settings, "max-size-buffers", SettingValue::UInt(0));
    put(&mut settings, "max-size-bytes", SettingValue::UInt(0));
    assert(settings.deep_view() =~= seq![
        ("max-size-time"@, SettingModel::UInt64(QUEUE_MAX_SIZE_TIME_NS)),
        ("max-size-buffers"@, SettingModel::UInt(0)),
        ("max-size-bytes"@, SettingModel::UInt(0)),
    ]);
    element("queue", name.as_str(), settings)
}

fn mixer_element() -> (r: GraphElement)
    ensures
        r.deep_view() == mixer_model(),
{
    let mut settings = no_settings();
    put(&mut settings, "ignore-inactive-pads", SettingValue::Boolean(true));
    put(&mut settings, "start-time-selection", SettingValue::Nick("first"));
    put(&mut settings, "latency", SettingValue::UInt64(AUDIOMIXER_LATENCY_NS));
    assert(settings.deep_view() =~= seq![
        ("ignore-inactive-pads"@, SettingModel::Boolean(true)),
        ("start-time-selection"@, SettingModel::Nick("first"@)),
        ("latency"@, SettingModel::UInt64(AUDIOMIXER_LATENCY_NS)),
    ]);
    GraphElement {
        element: element("audiomixer", "mixer", no_settings()),
        if_present: settings,
    }
}

fn numbered(prefix: &str, index: usize) -> (r: String)
    ensures
        r@ == prefix@ + decimal(index as nat),
{
    joined(prefix, decimal_text(index as u64).as_str())
}

fn build_sink_leg(topology: &FrozenTopology, index: usize) -> (leg: SinkLeg)
    requires
        topology.wf(),
        index < topology.input_channels@.len(),
    ensures
        sink_leg_ok(leg, *topology, index as int),
{
    let channels: u32 = topology.input_channels[index];
    let offset: u32 = topology.input_bus_offsets[index];
    proof {
        total_channels_grows(topology.input_channels@, index as int);
    }
    let matrix = build_input_bus_mix_matrix(topology.input_bus_channels, channels, offset);
    let mut settings = no_settings();
    put(&mut settings, "caps", SettingValue::Caps(caps_with_channel_count(channels)));
    assert(settings.deep_view() =~= seq![("caps"@, SettingModel::Caps(count_caps(channels)))]);
    let leg = SinkLeg {
        capsfilter: element(
            "capsfilter",
            numbered("sink-capsfilter-", index).as_str(),
            settings,
        ),
        queue: queue_element(numbered("sink-queue-", index)),
        matrix,
    };
    leg
}

fn build_src_leg(topology: &FrozenTopology, index: usize, routes: &[ActiveMapRoute]) -> (r: Result<
    SrcLeg,
    ActiveMapValidationError,
>)
    requires
        topology.wf(),
        index < topology.output_channels@.len(),
    ensures
        match r {
            Ok(leg) => src_leg_ok(leg, *topology, index as int, routes.deep_view()),
            Err(e) => map_refused(
                *topology,
                topology.output_channels@[index as int],
                routes.deep_view(),
                e,
            ),
        },
{
    let channels: u32 = topology.output_channels[index];
    let matrix = match build_output_mix_matrix(topology, channels, routes) {
        Ok(m) => m,
        Err(e) => {
            return Err(e);
        },
    };
    let mut settings = no_settings();
    put(&mut settings, "in-channels", SettingValue::UInt(topology.input_bus_channels));
    put(&mut settings, "out-channels", SettingValue::UInt(channels));
    assert(settings.deep_view() =~= seq![
        ("in-channels"@, SettingModel::UInt(topology.input_bus_channels)),
        ("out-channels"@, SettingModel::UInt(channels)),
    ]);
    let mask: Option<SettingValue> = if channels > 2 {
        match sequential_channel_mask(channels) {
            Some(m) => Some(SettingValue::UInt64(m)),
            None => None,
        }
    } else {
        None
    };
    let mut if_present = no_settings();
    put_optional(&mut if_present, "channel-mask", mask);
    assert(if_present.deep_view() =~= optional_setting(
        "channel-mask"@,
        match carried_mask(channels) {
            Some(m) => Some(SettingModel::UInt64(m)),
            None => None,
        },
    ));
    Ok(
        SrcLeg {
            queue: queue_element(numbered("src-queue-", index)),
            mixmatrix: GraphElement {
                element: element(
                    "audiomixmatrix",
                    numbered("mixmatrix-", index).as_str(),
                    settings,
                ),
                if_present,
            },
            matrix,
        },
    )
}

fn push_name(names: &mut Vec<String>, name: &String)
    ensures
        final(names).deep_view() == old(names).deep_view().push(name@),
{
    let ghost before = names.deep_view();
    names.push(name.clone());
    assert(names.deep_view() =~= before.push(name@));
}

/// The routes of every output.
pub open spec fn all_routes(output_routes: Seq<Vec<ActiveMapRoute>>) -> Seq<Seq<Route>> {
    output_routes.map_values(|routes: Vec<ActiveMapRoute>| routes.deep_view())
}

impl InternalGraph {
    /// Build the graph of a topology. The first output whose map does not fit is an error.
    pub fn build(topology: &FrozenTopology, output_routes: &[Vec<ActiveMapRoute>]) -> (r: Result<
        InternalGraph,
        GraphError,
    >)
        requires
            topology.wf(),
        ensures
            match r {
                Ok(graph) => topology.input_channels@.len() > 0 && topology.output_channels@.len()
                    > 0 && output_routes@.len() == topology.output_channels@.len() && graph_ok(
                    graph,
                    *topology,
                    all_routes(output_routes@),
                ),
                Err(GraphError::NoPads) => topology.input_channels@.len() == 0
                    || topology.output_channels@.len() == 0,
                Err(GraphError::RouteCount) => topology.input_channels@.len() > 0
                    && topology.output_channels@.len() > 0 && output_routes@.len()
                    != topology.output_channels@.len(),
                Err(GraphError::InvalidMap(e)) => topology.input_channels@.len() > 0
                    && topology.output_channels@.len() > 0 && output_routes@.len()
                    == topology.output_channels@.len() && exists|k: int|
                    0 <= k < output_routes@.len() && (forall|j: int|
                        0 <= j < k ==> map_ok(
                            *topology,
                            topology.output_channels@[j],
                            (#[trigger] output_routes@[j]).deep_view(),
                        )) && map_refused(
                        *topology,
                        topology.output_channels@[k],
                        (#[trigger] output_routes@[k]).deep_view(),
                        e,
                    ),
                Err(GraphError::NoMatrix { .. }) => false,
            },
    {
        if topology.input_channels.len() == 0 || topology.output_channels.len() == 0 {
            return Err(GraphError::NoPads);
        }
        if output_routes.len() != topology.output_channels.len() {
            return Err(GraphError::RouteCount);
        }
        let mut caps_setting = no_settings();
        put(
            &mut caps_setting,
            "caps",
            SettingValue::Caps(caps_with_channel_mask(topology.input_bus_channels)),
        );
        assert(caps_setting.deep_view() =~= seq![
            ("caps"@, SettingModel::Caps(mask_caps(topology.input_bus_channels))),
        ]);
        let mut sink_legs: Vec<SinkLeg> = Vec::new();
        let mut i: usize = 0;
        while i < topology.input_channels.len()
            invariant
                i <= topology.input_channels@.len(),
                topology.wf(),
                sink_legs@.len() == i,
                forall|j: int|
                    0 <= j < i ==> sink_leg_ok(#[trigger] sink_legs@[j], *topology, j),
            decreases topology.input_channels@.len() - i,
        {
            sink_legs.push(build_sink_leg(topology, i));
            i = i + 1;
        }
        let mut src_legs: Vec<SrcLeg> = Vec::new();
        let mut k: usize = 0;
        while k < topology.output_channels.len()
            invariant
                k <= topology.output_channels@.len(),
                topology.wf(),
                topology.input_channels@.len() > 0,
                topology.output_channels@.len() > 0,
                output_routes@.len() == topology.output_channels@.len(),
                src_legs@.len() == k,
                forall|j: int|
                    0 <= j < k ==> src_leg_ok(
                        #[trigger] src_legs@[j],
                        *topology,
                        j,
                        output_routes@[j].deep_view(),
                    ),
            decreases topology.output_channels@.len() - k,
        {
            match build_src_leg(topology, k, output_routes[k].as_slice()) {
                Ok(leg) => {
                    src_legs.push(leg);
                },
                Err(e) => {
                    proof {
                        assert forall|j: int| 0 <= j < k implies map_ok(
                            *topology,
                            topology.output_channels@[j],
                            (#[trigger] output_routes@[j]).deep_view(),
                        ) by {
                            assert(src_leg_ok(
                                src_legs@[j],
                                *topology,
                                j,
                                output_routes@[j].deep_view(),
                            ));
                        }
                        assert(map_refused(
                            *topology,
                            topology.output_channels@[k as int],
                            output_routes@[k as int].deep_view(),
                            e,
                        ));
                    }
                    return Err(GraphError::InvalidMap(e));
                },
            }
            k = k + 1;
        }
        Ok(
            InternalGraph {
                mixer: mixer_element(),
                mixer_capsfilter: element("capsfilter", "mixer-capsfilter", caps_setting),
                tee: element("tee", "mixer-tee", no_settings()),
                sink_legs,
                src_legs,
            },
        )
    }

    /// The matrix to set for an output whose map changes.
    pub fn set_output_matrix(
        &self,
        topology: &FrozenTopology,
        src_index: usize,
        routes: &[ActiveMapRoute],
    ) -> (r: Result<Vec<Vec<u8>>, GraphError>)
        requires
            topology.wf(),
        ensures
            ({
                let channels = if src_index < topology.output_channels@.len() {
                    topology.output_channels@[src_index as int]
                } else {
                    0
                };
                match r {
                    Ok(matrix) => src_index < self.src_legs@.len() && map_ok(
                        *topology,
                        channels,
                        routes.deep_view(),
                    ) && matrix_of(
                        matrix@,
                        channels as int,
                        topology.input_bus_channels as int,
                        |o: int, b: int| connects(*topology, routes.deep_view(), o, b),
                    ),
                    Err(GraphError::NoMatrix { src_index: i }) => i == src_index && src_index
                        >= self.src_legs@.len(),
                    Err(GraphError::InvalidMap(e)) => src_index < self.src_legs@.len() && map_refused(
                        *topology,
                        channels,
                        routes.deep_view(),
                        e,
                    ),
                    Err(_) => false,
                }
            }),
    {
        if src_index >= self.src_legs.len() {
            return Err(GraphError::NoMatrix { src_index });
        }
        let channels: u32 = if src_index < topology.output_channels.len() {
            topology.output_channels[src_index]
        } else {
            0
        };
        match build_output_mix_matrix(topology, channels, routes) {
            Ok(m) => Ok(m),
            Err(e) => Err(GraphError::InvalidMap(e)),
        }
    }

    /// The names of the elements in the order of the data flow.
    pub open spec fn flow_order(&self) -> Seq<Seq<char>> {
        self.sink_legs@.map_values(|leg: SinkLeg| leg.capsfilter.name@) + self.sink_legs@.map_values(
            |leg: SinkLeg| leg.queue.name@,
        ) + seq![
            self.mixer.element.name@,
            self.mixer_capsfilter.name@,
            self.tee.name@,
        ] + self.src_legs@.map_values(|leg: SrcLeg| leg.queue.name@) + self.src_legs@.map_values(
            |leg: SrcLeg| leg.mixmatrix.element.name@,
        )
    }

    /// The names of the elements in the order in which they take on the element's state:
    /// along the data flow.
    pub fn sync_order(&self) -> (names: Vec<String>)
        ensures
            names.deep_view() == self.flow_order(),
    {
        let mut names: Vec<String> = Vec::new();
        let ghost capsfilters = self.sink_legs@.map_values(|leg: SinkLeg| leg.capsfilter.name@);
        let ghost sink_queues = self.sink_legs@.map_values(|leg: SinkLeg| leg.queue.name@);
        let ghost middle = seq![
            self.mixer.element.name@,
            self.mixer_capsfilter.name@,
            self.tee.name@,
        ];
        let ghost src_queues = self.src_legs@.map_values(|leg: SrcLeg| leg.queue.name@);
        let ghost matrices = self.src_legs@.map_values(
            |leg: SrcLeg| leg.mixmatrix.element.name@,
        );
        let mut i: usize = 0;
        while i < self.sink_legs.len()
            invariant
                i <= self.sink_legs@.len(),
                capsfilters == self.sink_legs@.map_values(|leg: SinkLeg| leg.capsfilter.name@),
                names.deep_view() =~= capsfilters.take(i as int),
            decreases self.sink_legs@.len() - i,
        {
            push_name(&mut names, &self.sink_legs[i].capsfilter.name);
            i = i + 1;
        }
        assert(names.deep_view() =~= capsfilters);
        let mut j: usize = 0;
        while j < self.sink_legs.len()
            invariant
                j <= self.sink_legs@.len(),
                sink_queues == self.sink_legs@.map_values(|leg: SinkLeg| leg.queue.name@),
                names.deep_view() =~= capsfilters + sink_queues.take(j as int),
            decreases self.sink_legs@.len() - j,
        {
            push_name(&mut names, &self.sink_legs[j].queue.name);
            j = j + 1;
        }
        assert(names.deep_view() =~= capsfilters + sink_queues);
        push_name(&mut names, &self.mixer.element.name);
        push_name(&mut names, &self.mixer_capsfilter.name);
        push_name(&mut names, &self.tee.name);
        assert(names.deep_view() =~= capsfilters + sink_queues + middle);
        let mut k: usize = 0;
        while k < self.src_legs.len()
            invariant
                k <= self.src_legs@.len(),
                src_queues == self.src_legs@.map_values(|leg: SrcLeg| leg.queue.name@),
                names.deep_view() =~= capsfilters + sink_queues + middle + src_queues.take(k as int),
            decreases self.src_legs@.len() - k,
        {
            push_name(&mut names, &self.src_legs[k].queue.name);
            k = k + 1;
        }
        assert(names.deep_view() =~= capsfilters + sink_queues + middle + src_queues);
        let mut m: usize = 0;
        while m < self.src_legs.len()
            invariant
                m <= self.src_legs@.len(),
                matrices == self.src_legs@.map_values(
                    |leg: SrcLeg| leg.mixmatrix.element.name@,
                ),
                names.deep_view() =~= capsfilters + sink_queues + middle + src_queues
                    + matrices.take(m as int),
            decreases self.src_legs@.len() - m,
        {
            push_name(&mut names, &self.src_legs[m].mixmatrix.element.name);
            m = m + 1;
        }
        assert(names.deep_view() =~= self.flow_order());
        names
    }

    /// The names of the elements in the order in which they are taken down: against the data
    /// flow, outputs first.
    pub open spec fn against_flow(&self) -> Seq<Seq<char>> {
        self.src_legs@.map_values(|leg: SrcLeg| leg.mixmatrix.element.name@)
            + self.src_legs@.map_values(|leg: SrcLeg| leg.queue.name@) + seq![
            self.tee.name@,
            self.mixer_capsfilter.name@,
            self.mixer.element.name@,
        ] + self.sink_legs@.map_values(|leg: SinkLeg| leg.queue.name@) + self.sink_legs@.map_values(
            |leg: SinkLeg| leg.capsfilter.name@,
        )
    }

    /// The names of the elements in the order in which they are taken down.
    pub fn teardown_order(&self) -> (names: Vec<String>)
        ensures
            names.deep_view() == self.against_flow(),
    {
        let mut names: Vec<String> = Vec::new();
        let ghost matrices = self.src_legs@.map_values(
            |leg: SrcLeg| leg.mixmatrix.element.name@,
        );
        let ghost src_queues = self.src_legs@.map_values(|leg: SrcLeg| leg.queue.name@);
        let ghost middle = seq![
            self.tee.name@,
            self.mixer_capsfilter.name@,
            self.mixer.element.name@,
        ];
        let ghost sink_queues = self.sink_legs@.map_values(|leg: SinkLeg| leg.queue.name@);
        let ghost capsfilters = self.sink_legs@.map_values(|leg: SinkLeg| leg.capsfilter.name@);
        let mut m: usize = 0;
        while m < self.src_legs.len()
            invariant
                m <= self.src_legs@.len(),
                matrices == self.src_legs@.map_values(
                    |leg: SrcLeg| leg.mixmatrix.element.name@,
                ),
                names.deep_view() =~= matrices.take(m as int),
            decreases self.src_legs@.len() - m,
        {
            push_name(&mut names, &self.src_legs[m].mixmatrix.element.name);
            m = m + 1;
        }
        assert(names.deep_view() =~= matrices);
        let mut k: usize = 0;
        while k < self.src_legs.len()
            invariant
                k <= self.src_legs@.len(),
                src_queues == self.src_legs@.map_values(|leg: SrcLeg| leg.queue.name@),
                names.deep_view() =~= matrices + src_queues.take(k as int),
            decreases self.src_legs@.len() - k,
        {
            push_name(&mut names, &self.src_legs[k].queue.name);
            k = k + 1;
        }
        assert(names.deep_view() =~= matrices + src_queues);
        push_name(&mut names, &self.tee.name);
        push_name(&mut names, &self.mixer_capsfilter.name);
        push_name(&mut names, &self.mixer.element.name);
        assert(names.deep_view() =~= matrices + src_queues + middle);
        let mut j: usize = 0;
        while j < self.sink_legs.len()
            invariant
                j <= self.sink_legs@.len(),
                sink_queues == self.sink_legs@.map_values(|leg: SinkLeg| leg.queue.name@),
                names.deep_view() =~= matrices + src_queues + middle + sink_queues.take(j as int),
            decreases self.sink_legs@.len() - j,
        {
            push_name(&mut names, &self.sink_legs[j].queue.name);
            j = j + 1;
        }
        assert(names.deep_view() =~= matrices + src_queues + middle + sink_queues);
        let mut i: usize = 0;
        while i < self.sink_legs.len()
            invariant
                i <= self.sink_legs@.len(),
                capsfilters == self.sink_legs@.map_values(|leg: SinkLeg| leg.capsfilter.name@),
                names.deep_view() =~= matrices + src_queues + middle + sink_queues
                    + capsfilters.take(i as int),
            decreases self.sink_legs@.len() - i,
        {
            push_name(&mut names, &self.sink_legs[i].capsfilter.name);
            i = i + 1;
        }
        assert(names.deep_view() =~= self.against_flow());
        names
    }
}

// ---- laws -------------------------------------------------------------------

/// Elements take on a state along the flow: of input `i` the filter comes before the queue, that
/// before the mixer, and that before the tee; of output `k` the queue comes after the tee and the
/// matrix after the queue.
pub proof fn sync_follows_the_flow(graph: InternalGraph, i: int, k: int)
    requires
        0 <= i < graph.sink_legs@.len(),
        0 <= k < graph.src_legs@.len(),
    ensures
        ({
            let order = graph.flow_order();
            let n = graph.sink_legs@.len() as int;
            let m = graph.src_legs@.len() as int;
            &&& order.len() == 2 * n + 3 + 2 * m
            &&& order[i] == graph.sink_legs@[i].capsfilter.name@
            &&& order[n + i] == graph.sink_legs@[i].queue.name@
            &&& order[2 * n] == graph.mixer.element.name@
            &&& order[2 * n + 1] == graph.mixer_capsfilter.name@
            &&& order[2 * n + 2] == graph.tee.name@
            &&& order[2 * n + 3 + k] == graph.src_legs@[k].queue.name@
            &&& order[2 * n + 3 + m + k] == graph.src_legs@[k].mixmatrix.element.name@
        }),
{
}

/// They are taken down against it: matrices first, then the queues of the outputs, the tee and
/// the mixer, and the inputs last.
pub proof fn teardown_goes_against_the_flow(graph: InternalGraph, i: int, k: int)
    requires
        0 <= i < graph.sink_legs@.len(),
        0 <= k < graph.src_legs@.len(),
    ensures
        ({
            let order = graph.against_flow();
            let n = graph.sink_legs@.len() as int;
            let m = graph.src_legs@.len() as int;
            &&& order.len() == graph.flow_order().len()
            &&& order[k] == graph.src_legs@[k].mixmatrix.element.name@
            &&& order[m + k] == graph.src_legs@[k].queue.name@
            &&& order[2 * m] == graph.tee.name@
            &&& order[2 * m + 1] == graph.mixer_capsfilter.name@
            &&& order[2 * m + 2] == graph.mixer.element.name@
            &&& order[2 * m + 3 + i] == graph.sink_legs@[i].queue.name@
            &&& order[2 * m + 3 + n + i] == graph.sink_legs@[i].capsfilter.name@
        }),
{
}

proof fn distinct_matrix_properties()
    ensures
        "in-channels"@ != "out-channels"@,
{
    reveal_strlit("in-channels");
    reveal_strlit("out-channels");
    assert("in-channels"@.len() == 11 && "out-channels"@.len() == 12);
}

/// Every leg has the size of its pad: the filter of input `i` asks for the channels of that
/// input, the matrix of output `k` takes the whole bus and gives the channels of that output.
pub proof fn legs_have_the_size_of_their_pads(
    graph: InternalGraph,
    topology: FrozenTopology,
    output_routes: Seq<Seq<Route>>,
    i: int,
    k: int,
)
    requires
        topology.wf(),
        graph_ok(graph, topology, output_routes),
        0 <= i < topology.input_channels@.len(),
        0 <= k < topology.output_channels@.len(),
    ensures
        graph.sink_legs@.len() == topology.input_channels@.len(),
        graph.src_legs@.len() == topology.output_channels@.len(),
        graph.sink_legs@[i].capsfilter.deep_view().sets(
            "caps"@,
            SettingModel::Caps(count_caps(topology.input_channels@[i])),
        ),
        graph.src_legs@[k].mixmatrix.deep_view().element.sets(
            "in-channels"@,
            SettingModel::UInt(topology.input_bus_channels),
        ),
        graph.src_legs@[k].mixmatrix.deep_view().element.sets(
            "out-channels"@,
            SettingModel::UInt(topology.output_channels@[k]),
        ),
        topology.input_bus_channels == total_channels(topology.input_channels@),
        graph.mixer_capsfilter.deep_view().sets(
            "caps"@,
            SettingModel::Caps(mask_caps(topology.input_bus_channels)),
        ),
{
    distinct_matrix_properties();
    let sink = graph.sink_legs@[i];
    assert(sink_leg_ok(sink, topology, i));
    assert(sink.capsfilter.deep_view().settings[0].0 == "caps"@);
    let src = graph.src_legs@[k];
    assert(src_leg_ok(src, topology, k, output_routes[k]));
    let settings = src.mixmatrix.deep_view().element.settings;
    assert(settings[0].0 == "in-channels"@ && settings[1].0 == "out-channels"@);
    assert(graph.mixer_capsfilter.deep_view().settings[0].0 == "caps"@);
}

/// Inputs lie side by side on the bus: channel `c` of input `i` goes to one bus channel, the
/// input's offset plus `c`, and to no other.
pub proof fn inputs_lie_side_by_side(
    graph: InternalGraph,
    topology: FrozenTopology,
    output_routes: Seq<Seq<Route>>,
    i: int,
    c: int,
    b: int,
)
    requires
        topology.wf(),
        graph_ok(graph, topology, output_routes),
        0 <= i < topology.input_channels@.len(),
        0 <= c < topology.input_channels@[i],
        0 <= b < topology.input_bus_channels,
    ensures
        graph.sink_legs@[i].matrix@.len() == total_channels(topology.input_channels@),
        graph.sink_legs@[i].matrix@[b]@.len() == topology.input_channels@[i],
        graph.sink_legs@[i].matrix@[b]@[c] == if b == total_channels(
            topology.input_channels@.take(i),
        ) + c {
            1u8
        } else {
            0u8
        },
{
    let leg = graph.sink_legs@[i];
    assert(sink_leg_ok(leg, topology, i));
    assert(topology.input_bus_offsets@[i] == total_channels(topology.input_channels@.take(i)));
}

/// `queue` is a queue that is full after a while, however many buffers or bytes it holds by then.
pub open spec fn bounded_by_time(queue: ElementModel) -> bool {
    &&& queue.factory == "queue"@
    &&& queue.sets("max-size-time"@, SettingModel::UInt64(QUEUE_MAX_SIZE_TIME_NS))
    &&& queue.sets("max-size-buffers"@, SettingModel::UInt(0))
    &&& queue.sets("max-size-bytes"@, SettingModel::UInt(0))
}

proof fn queue_is_bounded_by_time(name: Seq<char>)
    ensures
        bounded_by_time(queue_model(name)),
{
    reveal_strlit("max-size-time");
    reveal_strlit("max-size-buffers");
    reveal_strlit("max-size-bytes");
    let s = queue_model(name).settings;
    assert("max-size-time"@.len() == 13 && "max-size-buffers"@.len() == 16
        && "max-size-bytes"@.len() == 14);
    assert(s[0] == ("max-size-time"@, SettingModel::UInt64(QUEUE_MAX_SIZE_TIME_NS)));
    assert(s[1] == ("max-size-buffers"@, SettingModel::UInt(0)));
    assert(s[2] == ("max-size-bytes"@, SettingModel::UInt(0)));
}

/// Every leg has a queue that time alone fills, with room for more than the mixer waits for its
/// inputs. Each of a leg's elements bears the leg's number, as its pad does.
pub proof fn queues_outlast_the_mixer(
    graph: InternalGraph,
    topology: FrozenTopology,
    output_routes: Seq<Seq<Route>>,
    i: int,
    k: int,
)
    requires
        graph_ok(graph, topology, output_routes),
        0 <= i < graph.sink_legs@.len(),
        0 <= k < graph.src_legs@.len(),
    ensures
        bounded_by_time(graph.sink_legs@[i].queue.deep_view()),
        bounded_by_time(graph.src_legs@[k].queue.deep_view()),
        QUEUE_MAX_SIZE_TIME_NS > AUDIOMIXER_LATENCY_NS > 0,
        graph.mixer.deep_view().if_present.contains(
            ("latency"@, SettingModel::UInt64(AUDIOMIXER_LATENCY_NS)),
        ),
        graph.mixer.deep_view().if_present.contains(
            ("ignore-inactive-pads"@, SettingModel::Boolean(true)),
        ),
        has_suffix(graph.sink_legs@[i].queue.name@, "-"@ + decimal(i as nat)),
        has_suffix(graph.sink_legs@[i].capsfilter.name@, "-"@ + decimal(i as nat)),
        has_suffix(graph.src_legs@[k].queue.name@, "-"@ + decimal(k as nat)),
        has_suffix(graph.src_legs@[k].mixmatrix.element.name@, "-"@ + decimal(k as nat)),
{
    let sink = graph.sink_legs@[i];
    let src = graph.src_legs@[k];
    assert(sink_leg_ok(sink, topology, i));
    assert(src_leg_ok(src, topology, k, output_routes[k]));
    queue_is_bounded_by_time("sink-queue-"@ + decimal(i as nat));
    queue_is_bounded_by_time("src-queue-"@ + decimal(k as nat));
    let m = mixer_model().if_present;
    assert(m[2] == ("latency"@, SettingModel::UInt64(AUDIOMIXER_LATENCY_NS)));
    assert(m[0] == ("ignore-inactive-pads"@, SettingModel::Boolean(true)));
    reveal_strlit("-");
    reveal_strlit("sink-queue-");
    reveal_strlit("sink-queue");
    reveal_strlit("sink-capsfilter-");
    reveal_strlit("sink-capsfilter");
    reveal_strlit("src-queue-");
    reveal_strlit("src-queue");
    reveal_strlit("mixmatrix-");
    reveal_strlit("mixmatrix");
    let a = decimal(i as nat);
    let b = decimal(k as nat);
    assert("sink-queue-"@ + a =~= "sink-queue"@ + ("-"@ + a));
    assert("sink-capsfilter-"@ + a =~= "sink-capsfilter"@ + ("-"@ + a));
    assert("src-queue-"@ + b =~= "src-queue"@ + ("-"@ + b));
    assert("mixmatrix-"@ + b =~= "mixmatrix"@ + ("-"@ + b));
    beginnings_and_ends("sink-queue"@, "-"@ + a);
    beginnings_and_ends("sink-capsfilter"@, "-"@ + a);
    beginnings_and_ends("src-queue"@, "-"@ + b);
    beginnings_and_ends("mixmatrix"@, "-"@ + b);
    assert(sink.queue.name@ == sink.queue.deep_view().name);
    assert(sink.capsfilter.name@ == sink.capsfilter.deep_view().name);
    assert(src.queue.name@ == src.queue.deep_view().name);
    assert(src.mixmatrix.element.name@ == src.mixmatrix.deep_view().element.name);
}

/// What is said of a matrix that is missing names the leg.
pub proof fn missing_matrix_is_named(src_index: usize)
    ensures
        has_suffix(GraphError::NoMatrix { src_index }.text(), decimal(src_index as nat)),
{
    beginnings_and_ends("no matrix for src index "@, decimal(src_index as nat));
}

} // verus!
