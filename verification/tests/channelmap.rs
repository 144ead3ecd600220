//! The channel mapping element: its pads, its settings and its graph.

use nvnmos_gst::caps::{Caps, FieldValue, Structure};
use nvnmos_gst::channel_mapping::active_map::ActiveMapEntry;
use nvnmos_gst::channel_mapping::types::{ActiveMapField, SinkPadSnapshot, SrcPadSnapshot};
use nvnmos_gst::channel_mapping_session::ChannelMappingActivationRequest;
use nvnmos_gst::channel_mapping_session::{ChannelMappingSession, OpenedChannelMappingSession};
use nvnmos_gst::nmosaudiochannelmap::building::{
    Building, BuildingAction, BuildingEvent, BuildingFailure,
};
use nvnmos_gst::nmosaudiochannelmap::caps::{
    caps_with_channel_count, caps_with_channel_mask, channels_from_caps, channels_from_structure,
    resolve_pad_channels, sequential_channel_mask, ChannelsError, PadCaps,
};
use nvnmos_gst::nmosaudiochannelmap::fixation::{
    adopt_input_ids, adopt_output_ids, apply_activation, fixate, snapshot_sinks, snapshot_srcs,
    FixationError, FoundSinkPad, FoundSrcPad, PadHint,
};
use nvnmos_gst::nmosaudiochannelmap::graph::{GraphError, InternalGraph, QUEUE_MAX_SIZE_TIME_NS};
use nvnmos_gst::nmosaudiochannelmap::pads::{
    collect_request_pads, pad_index, places_in_order, sink_pad_properties, src_pad_properties,
    PadNames, PadValue, SinkPadProperty,
    SinkPadState, SrcPadProperty, SrcPadState,
};
use nvnmos_gst::nmosaudiochannelmap::settings::{properties, MapProperty, Settings};
use nvnmos_gst::chain::SettingValue;
use nvnmos_gst::property::{PropertyKind, PropertyValue};
use nvnmos_gst::rebuild::Direction;

fn sink(input_id: &str, channels: u32) -> SinkPadSnapshot {
    SinkPadSnapshot {
        receiver_name: String::new(),
        input_id: input_id.into(),
        label: String::new(),
        description: String::new(),
        negotiated_channels: channels,
    }
}

fn src(output_id: &str, channels: u32) -> SrcPadSnapshot {
    SrcPadSnapshot {
        sender_name: String::new(),
        output_id: output_id.into(),
        label: String::new(),
        description: String::new(),
        negotiated_channels: channels,
        active_map: None,
    }
}

fn pad_caps(current: Option<i32>, link: Option<i32>) -> PadCaps {
    let caps = |n: i32| {
        let mut s = Structure::new("audio/x-raw");
        s.set("channels", FieldValue::Int(n));
        Caps::of(s)
    };
    PadCaps { current: current.map(caps), link: link.map(caps) }
}

// ---- channels ---------------------------------------------------------------

#[test]
fn caps_with_channel_count_fixates_count_only() {
    let caps = caps_with_channel_count(8);
    let s = caps.first().expect("structure");
    assert_eq!(s.get_int("channels").unwrap(), 8);
    assert!(s.get_bitmask("channel-mask").is_none());
}

#[test]
fn caps_with_channel_mask_fixates_count_and_sequential_mask() {
    let caps = caps_with_channel_mask(8);
    let s = caps.first().expect("structure");
    assert_eq!(s.get_int("channels").unwrap(), 8);
    assert_eq!(s.get_bitmask("channel-mask").unwrap(), 0xff);
}

#[test]
fn caps_with_channel_mask_omits_mask_for_mono_and_stereo() {
    for channels in [1u32, 2] {
        let caps = caps_with_channel_mask(channels);
        let s = caps.first().expect("structure");
        assert_eq!(s.get_int("channels").unwrap(), channels as i32);
        assert!(
            s.get_bitmask("channel-mask").is_none(),
            "mono/stereo caps should omit channel-mask (channels={channels})",
        );
    }
}

#[test]
fn channels_from_structure_accepts_fixed_int_and_singleton_range() {
    let mut fixed = Structure::new("audio/x-raw");
    fixed.set("channels", FieldValue::Int(2));
    assert_eq!(channels_from_structure(&fixed), Some(2));

    let mut wide = Structure::new("audio/x-raw");
    wide.set("channels", FieldValue::IntRange(1, 8));
    assert_eq!(channels_from_structure(&wide), None);

    let mut single = Structure::new("audio/x-raw");
    single.set("channels", FieldValue::IntRange(6, 6));
    assert_eq!(channels_from_structure(&single), Some(6));
}

#[test]
fn sequential_mask_has_a_bit_per_channel() {
    assert_eq!(sequential_channel_mask(3), Some(0b111));
    assert_eq!(sequential_channel_mask(64), Some(u64::MAX));
    assert_eq!(sequential_channel_mask(65), None);
    assert_eq!(sequential_channel_mask(2), Some(0b11));
}

#[test]
fn channels_of_a_pad_come_from_its_caps_or_its_property() {
    assert_eq!(resolve_pad_channels(&pad_caps(Some(2), Some(4)), 0), Ok(2));
    assert_eq!(resolve_pad_channels(&pad_caps(None, Some(4)), 0), Ok(4));
    assert_eq!(resolve_pad_channels(&pad_caps(None, None), 6), Ok(6));
    assert_eq!(resolve_pad_channels(&pad_caps(Some(2), None), 2), Ok(2));
    assert_eq!(
        resolve_pad_channels(&pad_caps(Some(2), None), 6),
        Err(ChannelsError::Mismatch { declared: 6, negotiated: 2 })
    );
    assert_eq!(resolve_pad_channels(&pad_caps(None, None), 0), Err(ChannelsError::Unknown));
    assert_eq!(channels_from_caps(&Caps::Any), None);
    assert_eq!(channels_from_caps(&caps_with_channel_count(0)), None);
}

// ---- pads -------------------------------------------------------------------

#[test]
fn requested_pads_are_numbered_in_turn() {
    let mut names = PadNames { next_sink: 0, next_src: 0, frozen: false };
    assert_eq!(names.request_new_pad(Direction::Sink, None).as_deref(), Some("sink_0"));
    assert_eq!(names.request_new_pad(Direction::Sink, Some("sink_%u")).as_deref(), Some("sink_1"));
    assert_eq!(names.request_new_pad(Direction::Src, Some("")).as_deref(), Some("src_0"));
    assert_eq!(names.request_new_pad(Direction::Sink, Some("sink_7")).as_deref(), Some("sink_7"));
    assert_eq!(names, PadNames { next_sink: 2, next_src: 1, frozen: false });
}

#[test]
fn frozen_pads_are_neither_requested_nor_released() {
    let mut names = PadNames { next_sink: 2, next_src: 1, frozen: false };
    assert!(names.release_pad());
    names.freeze();
    assert_eq!(names.request_new_pad(Direction::Sink, None), None);
    assert_eq!(names.request_new_pad(Direction::Src, Some("src_4")), None);
    assert!(!names.release_pad());
    assert_eq!(names, PadNames { next_sink: 2, next_src: 1, frozen: true });
    names.thaw();
    assert!(names.release_pad());
    assert_eq!(names.request_new_pad(Direction::Src, None).as_deref(), Some("src_1"));
}

#[test]
fn pads_are_ordered_by_their_number() {
    let names: Vec<String> =
        ["sink_10", "src_0", "sink_2", "other", "src_1"].iter().map(|s| s.to_string()).collect();
    assert_eq!(places_in_order(&names, "sink_"), vec![2, 0]);
    assert_eq!(collect_request_pads(&names), (vec![2, 0], vec![1, 4]));
    assert_eq!(pad_index("sink_10"), 10);
    assert_eq!(pad_index("sink"), 0);
}

#[test]
fn a_frozen_pad_keeps_its_properties() {
    let mut pad = SinkPadState::default();
    let p = SinkPadProperty::from_name("input-id").unwrap();
    pad.set_property(p, PadValue::Text("a".into()));
    pad.freeze();
    pad.set_property(p, PadValue::Text("b".into()));
    assert_eq!(pad.input_id, "a");

    let mut pad = SrcPadState::default();
    let p = SrcPadProperty::from_name("channels").unwrap();
    pad.set_property(p, PadValue::Channels(3));
    pad.freeze();
    pad.set_property(p, PadValue::Channels(4));
    assert_eq!(pad.channels, 3);
    assert!(SrcPadProperty::from_name("input-id").is_none());
}

// ---- settings ---------------------------------------------------------------

#[test]
fn settings_are_kept_once_fixated() {
    let mut s = Settings::default();
    let p = MapProperty::from_name("channelmapping-name").unwrap();
    s.set_property(p, PropertyValue::Text(Some("studio".into())), false);
    assert_eq!(s.channelmapping_name, "studio");
    s.set_property(p, PropertyValue::Text(Some("other".into())), true);
    assert_eq!(s.channelmapping_name, "studio");
    assert_eq!(s.to_session().channelmapping_name, "studio");
    assert_eq!(s.to_session().daemon_uri, "unix:/tmp/nvnmosd.sock");
    let specs = properties();
    assert_eq!(specs.len(), 9);
    for (i, spec) in specs.iter().enumerate() {
        assert!(MapProperty::from_name(spec.name).is_some());
        assert!(specs[..i].iter().all(|s| s.name != spec.name));
    }
}

// ---- fixation ---------------------------------------------------------------

#[test]
fn fixation_freezes_topology_routes_and_graph() {
    let sinks = vec![sink("input0", 2), sink("input1", 2)];
    let srcs = vec![src("output0", 2), src("output1", 2)];
    let fixed = fixate(&sinks, &srcs).unwrap();
    assert_eq!(fixed.topology.input_bus_channels, 4);
    assert_eq!(fixed.output_routes.len(), 2);
    assert_eq!(fixed.output_routes[1][0].input_id, "input1");
    assert_eq!(fixed.sync_entries[1].0, "output1");
    assert_eq!(
        fixed.sync_entries[1].1[1],
        ActiveMapEntry { input_id: Some("input1".into()), input_channel: Some(1) }
    );
    let graph = &fixed.graph;
    assert_eq!(graph.sink_legs.len(), 2);
    assert_eq!(graph.sink_legs[1].matrix, vec![vec![0, 0], vec![0, 0], vec![1, 0], vec![0, 1]]);
    assert_eq!(graph.src_legs[1].matrix, vec![vec![0, 0, 1, 0], vec![0, 0, 0, 1]]);
    assert_eq!(graph.mixer.element.factory, "audiomixer");
    assert_eq!(graph.sink_legs[0].queue.name, "sink-queue-0");
    assert_eq!(
        graph.sink_legs[0].queue.settings[0].value,
        SettingValue::UInt64(QUEUE_MAX_SIZE_TIME_NS)
    );
}

#[test]
fn graph_elements_are_synced_and_torn_down_once_each() {
    let fixed = fixate(&[sink("a", 1), sink("b", 1)], &[src("o", 2)]).unwrap();
    for order in [fixed.graph.sync_order(), fixed.graph.teardown_order()] {
        let mut seen = order.iter().map(|s| s.as_str()).collect::<Vec<&str>>();
        seen.sort();
        assert_eq!(
            seen,
            vec![
                "mixer",
                "mixer-capsfilter",
                "mixer-tee",
                "mixmatrix-0",
                "sink-capsfilter-0",
                "sink-capsfilter-1",
                "sink-queue-0",
                "sink-queue-1",
                "src-queue-0",
            ]
        );
    }
}

#[test]
fn fixation_faults_are_told_apart() {
    assert!(matches!(fixate(&[], &[src("o", 1)]), Err(FixationError::NoPads)));
    assert!(matches!(fixate(&[sink("a", 1)], &[]), Err(FixationError::NoPads)));
    let mut bad = src("o", 1);
    bad.active_map = Some(vec![ActiveMapField { key: "x".into(), value: Ok(None) }]);
    assert!(matches!(fixate(&[sink("a", 1)], &[bad]), Err(FixationError::ActiveMap(0, _))));
    let mut unknown = src("o", 1);
    unknown.active_map =
        Some(vec![ActiveMapField { key: "0".into(), value: Ok(Some("zz:0".into())) }]);
    assert!(matches!(
        fixate(&[sink("a", 1)], &[unknown]),
        Err(FixationError::Graph(GraphError::InvalidMap(_)))
    ));
}

#[test]
fn graph_needs_a_route_list_per_output() {
    let fixed = fixate(&[sink("a", 1)], &[src("o", 1)]).unwrap();
    assert!(matches!(
        InternalGraph::build(&fixed.topology, &[]),
        Err(GraphError::RouteCount)
    ));
    assert!(matches!(
        fixed.graph.set_output_matrix(&fixed.topology, 7, &[]),
        Err(GraphError::NoMatrix { src_index: 7 })
    ));
}

#[test]
fn snapshots_carry_what_the_pads_say() {
    let mut state = SinkPadState::default();
    state.set_property(
        SinkPadProperty::from_name("receiver-name").unwrap(),
        PadValue::Text("rx".into()),
    );
    let sinks =
        snapshot_sinks(vec![FoundSinkPad { state, caps: pad_caps(Some(3), None) }]).unwrap();
    assert_eq!(sinks[0].receiver_name, "rx");
    assert_eq!(sinks[0].negotiated_channels, 3);
    let err = snapshot_srcs(vec![FoundSrcPad {
        state: SrcPadState::default(),
        caps: pad_caps(None, None),
    }])
    .unwrap_err();
    assert!(matches!(err, FixationError::SrcChannels(0, ChannelsError::Unknown)));
    let err = snapshot_sinks(vec![FoundSinkPad {
        state: SinkPadState::default(),
        caps: pad_caps(None, None),
    }])
    .unwrap_err();
    assert!(matches!(err, FixationError::SinkChannels(0, ChannelsError::Unknown)));
}

#[test]
fn ids_of_the_daemon_are_adopted() {
    let mut sinks = vec![sink("", 1), sink("keep", 1)];
    adopt_input_ids(&mut sinks, &["input0".into(), "input1".into()]);
    assert_eq!(sinks[0].input_id, "input0");
    let mut srcs = vec![src("", 1)];
    adopt_output_ids(&mut srcs, &["output0".into()]);
    assert_eq!(srcs[0].output_id, "output0");
}

#[test]
fn activation_sets_the_matrix_of_its_output() {
    let fixed = fixate(&[sink("a", 2)], &[src("o", 1), src("p", 2)]).unwrap();
    let req = |output_id: &str, input_id: &str| ChannelMappingActivationRequest {
        channelmapping_handle: "m".into(),
        activation_handle: "h".into(),
        output_id: output_id.into(),
        active_map: vec![
            ActiveMapEntry { input_id: Some(input_id.into()), input_channel: Some(1) },
            ActiveMapEntry { input_id: None, input_channel: None },
        ],
    };
    let (index, matrix) =
        apply_activation(Some(&fixed.topology), Some(&fixed.graph), &req("p", "a")).unwrap();
    assert_eq!(index, 1);
    assert_eq!(matrix, vec![vec![0, 1], vec![0, 0]]);
    let err = apply_activation(Some(&fixed.topology), Some(&fixed.graph), &req("p", "zz"));
    assert_eq!(err.unwrap_err(), "invalid activation active map: unknown input id `zz`");
    let err = apply_activation(None, Some(&fixed.graph), &req("p", "a"));
    assert_eq!(err.unwrap_err(), "activation before fixation");
    let err = apply_activation(Some(&fixed.topology), None, &req("p", "a"));
    assert_eq!(err.unwrap_err(), "internal graph not built");
}

// ---- the course of fixation -------------------------------------------------

fn found(channels: Option<i32>) -> (FoundSinkPad, FoundSrcPad) {
    (
        FoundSinkPad { state: SinkPadState::default(), caps: pad_caps(channels, None) },
        FoundSrcPad { state: SrcPadState::default(), caps: pad_caps(channels, None) },
    )
}

fn session() -> ChannelMappingSession {
    ChannelMappingSession::opened(OpenedChannelMappingSession {
        session_handle: "s".into(),
        node_id: "n".into(),
        created_node: true,
        http_port: 80,
    })
}

#[test]
fn fixation_adds_wires_and_tells_in_turn() {
    let (sink_a, src_a) = found(Some(2));
    let (_, src_b) = found(Some(2));
    let session = session();
    let (building, action) =
        Building::begin(vec![sink_a], vec![src_a, src_b], Some(&session), "studio", true);
    match action {
        BuildingAction::Add(request) => {
            assert_eq!(request.session_handle, "s");
            assert_eq!(request.name, "studio");
            assert_eq!(request.outputs.len(), 2);
        }
        other => panic!("{other:?}"),
    }
    let (building, action) = building.unwrap().advance(BuildingEvent::Added {
        input_ids: vec!["i".into()],
        output_ids: vec!["o".into(), "p".into()],
    });
    match action {
        BuildingAction::Wire { topology, graph } => {
            assert_eq!(topology.input_ids, vec!["i"]);
            assert_eq!(topology.output_ids, vec!["o", "p"]);
            assert_eq!(graph.src_legs.len(), 2);
        }
        other => panic!("{other:?}"),
    }
    let (building, action) = building.unwrap().advance(BuildingEvent::Wired);
    assert!(matches!(action, BuildingAction::Tell { output_id, .. } if output_id == "o"));
    let (building, action) = building.unwrap().advance(BuildingEvent::Told);
    assert!(matches!(action, BuildingAction::Tell { output_id, .. } if output_id == "p"));
    let (building, action) = building.unwrap().advance(BuildingEvent::Told);
    assert!(building.is_none());
    assert!(matches!(action, BuildingAction::Finish));
}

#[test]
fn a_mapping_is_not_added_twice() {
    let (sink_pad, src_pad) = found(Some(1));
    let mut session = session();
    session.channel_mapping_added("m".into());
    let (_, action) = Building::begin(vec![sink_pad], vec![src_pad], Some(&session), "x", false);
    assert!(matches!(action, BuildingAction::Wire { .. }));
}

#[test]
fn fixation_stops_at_the_first_failure() {
    let begin = |channels, session: Option<&ChannelMappingSession>| {
        let (sink_pad, src_pad) = found(channels);
        Building::begin(vec![sink_pad], vec![src_pad], session, "x", false)
    };
    assert!(matches!(
        Building::begin(vec![], vec![], None, "x", false).1,
        BuildingAction::Fail(BuildingFailure::Refused(FixationError::NoPads))
    ));
    let open = session();
    assert!(matches!(
        begin(None, Some(&open)).1,
        BuildingAction::Fail(BuildingFailure::Refused(FixationError::SinkChannels(0, _)))
    ));
    assert!(matches!(
        begin(Some(1), None).1,
        BuildingAction::Fail(BuildingFailure::NoSession)
    ));
    let (building, _) = begin(Some(1), Some(&open));
    let (building, action) = building.unwrap().advance(BuildingEvent::Failed("no".into()));
    assert!(building.is_none());
    assert!(matches!(action, BuildingAction::Fail(BuildingFailure::NotAdded(e)) if e == "no"));
    let (_, action) = Building::Wiring { rest: vec![] }.advance(BuildingEvent::Failed("x".into()));
    assert!(matches!(action, BuildingAction::Fail(BuildingFailure::NotWired(e)) if e == "x"));
    let telling = Building::Telling { output_id: "o".into(), rest: vec![] };
    let (_, action) = telling.advance(BuildingEvent::Failed("y".into()));
    assert!(matches!(
        action,
        BuildingAction::Fail(BuildingFailure::NotTold { output_id, reason })
            if output_id == "o" && reason == "y"
    ));
}

#[test]
fn refused_pads_are_named() {
    let hint = |name: &str, caps: &str| PadHint { name: name.to_owned(), caps: caps.to_owned() };
    let sinks = [hint("sink_0", "none"), hint("sink_1", "audio/x-raw")];
    let srcs = [hint("src_0", "none")];
    assert_eq!(
        FixationError::SinkChannels(1, ChannelsError::Unknown).message(&sinks, &srcs),
        "pad `sink_1`: link peers with fixed channel count in audio/x-raw caps, or set \
         `channels` before READY\u{2192}PAUSED (caps=audio/x-raw)"
    );
    let mismatch = ChannelsError::Mismatch { declared: 6, negotiated: 2 };
    assert_eq!(
        FixationError::SrcChannels(0, mismatch).message(&sinks, &srcs),
        "pad `src_0`: declared channels=6 but negotiated caps have 2"
    );
    assert_eq!(
        FixationError::NoPads.message(&[], &[]),
        "need at least one sink_%u and one src_%u pad"
    );
    assert_eq!(
        FixationError::Graph(GraphError::RouteCount).message(&[], &[]),
        "output_routes length must match src pad count"
    );
    assert_eq!(
        GraphError::NoPads.message(),
        "at least one sink and one src pad are required"
    );
    assert_eq!(GraphError::NoMatrix { src_index: 7 }.message(), "no matrix for src index 7");
}

#[test]
fn pads_declare_their_properties() {
    let sink = sink_pad_properties();
    let names: Vec<&str> = sink.iter().map(|p| p.name).collect();
    assert_eq!(names, ["receiver-name", "input-id", "label", "description", "channels"]);
    assert_eq!(sink[1].blurb, Some("IS-08 Input ID. Empty assigns a default."));
    assert_eq!(sink[4].kind, PropertyKind::UInt { max: u32::MAX });
    let src = src_pad_properties();
    assert_eq!((src[5].name, src[5].nick), ("active-map", "Active Map"));
    assert_eq!(
        src[5].blurb,
        Some(
            "Initial channel routing for this Output, for example `map,0=input0:0,1=input0:1`."
        )
    );
}
