//! Active maps, mix matrices and channel mapping requests.

use nvnmos_gst::caps::{FieldValue, Structure};
use nvnmos_gst::channel_mapping::active_map::{
    active_map_entries_for_src, active_map_entries_from_routes, default_identity_routes,
    parse_active_map_structure, parse_input_channel_ref, ActiveMapEntry, ActiveMapError,
    ActiveMapRoute,
};
use nvnmos_gst::channel_mapping::matrix::{
    build_input_bus_mix_matrix, build_output_mix_matrix, routes_from_activation,
    routes_from_activation_request, validate_active_map_for_output, ActiveMapValidationError,
};
use nvnmos_gst::channel_mapping::request::{
    build_add_channel_mapping_request, default_channel_labels, ChannelMappingParentType,
};
use nvnmos_gst::channel_mapping::types::{
    ActiveMapField, FrozenTopology, SinkPadSnapshot, SrcPadSnapshot,
};
use nvnmos_gst::channel_mapping_session::ChannelMappingActivationRequest;

fn sink(input_id: &str, channels: u32) -> SinkPadSnapshot {
    SinkPadSnapshot {
        receiver_name: String::new(),
        input_id: input_id.into(),
        label: String::new(),
        description: String::new(),
        negotiated_channels: channels,
    }
}

fn src(output_id: &str, channels: u32) -> SrcPadSnapshot {
    SrcPadSnapshot {
        sender_name: String::new(),
        output_id: output_id.into(),
        label: String::new(),
        description: String::new(),
        negotiated_channels: channels,
        active_map: None,
    }
}

fn route(output_channel: u32, input_id: &str, input_channel: u32) -> ActiveMapRoute {
    ActiveMapRoute { output_channel, input_id: input_id.into(), input_channel }
}

fn field(key: &str, value: Option<&str>) -> ActiveMapField {
    ActiveMapField { key: key.into(), value: Ok(value.map(|v| v.to_owned())) }
}

fn stereo_topology() -> FrozenTopology {
    let sinks = vec![sink("input0", 2), sink("input1", 2)];
    FrozenTopology::from_snapshots(
        &sinks,
        &[src("output0", 4)],
        &["input0".into(), "input1".into()],
        &["output0".into()],
    )
}

fn dual_src_topology() -> (FrozenTopology, Vec<SinkPadSnapshot>, Vec<SrcPadSnapshot>) {
    let sinks = vec![sink("input0", 2), sink("input1", 2)];
    let srcs = vec![src("output0", 2), src("output1", 2)];
    let topology = FrozenTopology::from_snapshots(
        &sinks,
        &srcs,
        &["input0".into(), "input1".into()],
        &["output0".into(), "output1".into()],
    );
    (topology, sinks, srcs)
}

// ---- active maps ------------------------------------------------------------

#[test]
fn parse_input_channel_ref_valid() {
    assert_eq!(parse_input_channel_ref("input0:2").unwrap(), ("input0", 2));
}

#[test]
fn parse_input_channel_ref_rejects_missing_colon() {
    assert!(parse_input_channel_ref("input0").is_err());
}

#[test]
fn input_channel_ref_says_what_is_wrong() {
    assert_eq!(
        parse_input_channel_ref("input0").unwrap_err(),
        "expected `inputId:channel`, got `input0`"
    );
    assert_eq!(parse_input_channel_ref(":1").unwrap_err(), "input id is empty");
    assert_eq!(
        parse_input_channel_ref("a:x").unwrap_err(),
        "channel index `x` is not a non-negative integer"
    );
    assert_eq!(
        parse_input_channel_ref("a:4294967296").unwrap_err(),
        "channel index `4294967296` is not a non-negative integer"
    );
    // The first colon parts id and channel.
    assert!(parse_input_channel_ref("a:b:1").is_err());
    assert_eq!(parse_input_channel_ref("a:+7").unwrap(), ("a", 7));
}

#[test]
fn parse_active_map_stereo_identity() {
    let s = vec![field("0", Some("input0:0")), field("1", Some("input0:1"))];
    let routes = parse_active_map_structure(&s).unwrap();
    assert_eq!(
        routes,
        vec![
            ActiveMapRoute { output_channel: 0, input_id: "input0".into(), input_channel: 0 },
            ActiveMapRoute { output_channel: 1, input_id: "input0".into(), input_channel: 1 },
        ]
    );
}

#[test]
fn parse_active_map_ignores_structure_name() {
    // The structure name is conventional (`map`) but not enforced: only fields are read.
    let mut structure = Structure::new("not-map");
    structure.set("0", FieldValue::Text("input0:0".into()));
    let s = vec![field("0", structure.get_text("0"))];
    let routes = parse_active_map_structure(&s).unwrap();
    assert_eq!(routes.len(), 1);
    assert_eq!(routes[0].input_id, "input0");
    assert_eq!(routes[0].input_channel, 0);
}

#[test]
fn parse_active_map_null_gvalue_means_unrouted() {
    let s = vec![field("0", None), field("1", Some("input0:1"))];
    let routes = parse_active_map_structure(&s).unwrap();
    assert_eq!(routes.len(), 1);
    assert_eq!(routes[0].output_channel, 1);
    assert_eq!(routes[0].input_id, "input0");
}

#[test]
fn parse_active_map_bare_null_string_means_unrouted() {
    let s = vec![field("0", Some("null")), field("1", Some("input0:1"))];
    let routes = parse_active_map_structure(&s).unwrap();
    assert_eq!(routes.len(), 1);
    assert_eq!(routes[0].output_channel, 1);
    assert_eq!(routes[0].input_id, "input0");
}

#[test]
fn parse_active_map_null_input_id_with_channel_is_routed() {
    let s = vec![field("0", Some("null:0"))];
    let routes = parse_active_map_structure(&s).unwrap();
    assert_eq!(routes.len(), 1);
    assert_eq!(routes[0].input_id, "null");
    assert_eq!(routes[0].input_channel, 0);
}

#[test]
fn parse_active_map_duplicate_field_keeps_last_value() {
    // Field names of a structure are unique: the last assignment wins.
    let mut structure = Structure::new("map");
    structure.set("0", FieldValue::Text("input0:0".into()));
    structure.set("0", FieldValue::Text("input1:0".into()));
    assert_eq!(structure.fields.len(), 1);
    assert_eq!(structure.get_text("0").unwrap(), "input1:0");
    let s: Vec<ActiveMapField> =
        structure.fields.iter().map(|f| field(&f.name, structure.get_text(&f.name))).collect();
    let routes = parse_active_map_structure(&s).unwrap();
    assert_eq!(routes.len(), 1);
    assert_eq!(routes[0].input_id, "input1");
}

#[test]
fn active_map_rejects_a_key_that_is_no_channel() {
    let err = parse_active_map_structure(&[field("left", Some("input0:0"))]).unwrap_err();
    assert_eq!(err, ActiveMapError::InvalidOutputChannelKey("left".into()));
    assert_eq!(
        err.message(),
        "active-map field key `left` is not a valid output channel index"
    );
}

#[test]
fn active_map_rejects_a_channel_given_twice() {
    // Distinct keys may still name one channel.
    let err = parse_active_map_structure(&[
        field("1", Some("input0:0")),
        field("01", Some("input0:1")),
    ])
    .unwrap_err();
    assert_eq!(err, ActiveMapError::DuplicateOutputChannel(1));
    assert_eq!(err.message(), "active-map output channel 1 is duplicated");
}

#[test]
fn active_map_rejects_a_value_that_is_no_reference() {
    let err = parse_active_map_structure(&[field("3", Some("input0"))]).unwrap_err();
    assert_eq!(
        err.message(),
        "active-map value for output channel 3: expected `inputId:channel`, got `input0`"
    );
    let wrong_type = ActiveMapField { key: "3".into(), value: Err("not a string".into()) };
    let err = parse_active_map_structure(&[wrong_type]).unwrap_err();
    assert!(matches!(err, ActiveMapError::InvalidValue { output_channel: 3, .. }));
}

#[test]
fn active_map_routes_come_in_channel_order() {
    let s = vec![field("2", Some("b:0")), field("0", Some("a:1"))];
    let routes = parse_active_map_structure(&s).unwrap();
    assert_eq!(routes, vec![route(0, "a", 1), route(2, "b", 0)]);
}

#[test]
fn entries_sparse_unrouted_channels() {
    let s = vec![field("2", Some("input1:0"))];
    let routes = parse_active_map_structure(&s).unwrap();
    let entries = active_map_entries_from_routes(4, &routes);
    assert_eq!(entries.len(), 4);
    assert!(entries[0].input_id.as_ref().is_none_or(|s| s.is_empty()));
    assert!(entries[1].input_id.as_ref().is_none_or(|s| s.is_empty()));
    assert_eq!(entries[2].input_id.as_deref(), Some("input1"));
    assert_eq!(entries[2].input_channel, Some(0));
    assert!(entries[3].input_id.as_ref().is_none_or(|s| s.is_empty()));
}

#[test]
fn default_identity_matched_index_two_by_two() {
    let sinks = vec![sink("input0", 2), sink("input1", 2)];
    let out = src("output1", 2);
    let topology = FrozenTopology::from_snapshots(
        &sinks,
        std::slice::from_ref(&out),
        &["input0".into(), "input1".into()],
        &["output1".into()],
    );
    let routes = default_identity_routes(&topology, 1, 2, &sinks, 2);
    assert_eq!(
        routes,
        vec![
            ActiveMapRoute { output_channel: 0, input_id: "input1".into(), input_channel: 0 },
            ActiveMapRoute { output_channel: 1, input_id: "input1".into(), input_channel: 1 },
        ]
    );
}

#[test]
fn default_identity_single_src_all_inputs() {
    let sinks = vec![sink("input0", 2), sink("input1", 2)];
    let topology = FrozenTopology::from_snapshots(
        &sinks,
        &[src("output0", 4)],
        &["input0".into(), "input1".into()],
        &["output0".into()],
    );
    let routes = default_identity_routes(&topology, 0, 4, &sinks, 1);
    assert_eq!(routes.len(), 4);
    assert_eq!(routes[0].input_id, "input0");
    assert_eq!(routes[0].input_channel, 0);
    assert_eq!(routes[2].input_id, "input1");
    assert_eq!(routes[2].input_channel, 0);
}

#[test]
fn entries_of_an_output_follow_its_map_or_the_identity() {
    let (topology, sinks, mut srcs) = dual_src_topology();
    let identity = active_map_entries_for_src(&topology, &srcs[1], 1, &sinks, 2).unwrap();
    assert_eq!(
        identity,
        vec![
            ActiveMapEntry { input_id: Some("input1".into()), input_channel: Some(0) },
            ActiveMapEntry { input_id: Some("input1".into()), input_channel: Some(1) },
        ]
    );
    srcs[1].active_map = Some(vec![field("1", Some("input0:0"))]);
    let mapped = active_map_entries_for_src(&topology, &srcs[1], 1, &sinks, 2).unwrap();
    assert_eq!(mapped.len(), 2);
    assert_eq!(mapped[1].input_id.as_deref(), Some("input0"));
    assert_eq!(mapped[1].input_channel, Some(0));
    srcs[1].active_map = Some(vec![field("1", Some("input0"))]);
    assert!(active_map_entries_for_src(&topology, &srcs[1], 1, &sinks, 2).is_err());
}

// ---- topology ---------------------------------------------------------------

#[test]
fn inputs_lie_side_by_side_on_the_bus() {
    let sinks = vec![sink("a", 2), sink("b", 3), sink("c", 1)];
    let ids: Vec<String> = vec!["a".into(), "b".into(), "c".into()];
    let topology = FrozenTopology::from_snapshots(&sinks, &[], &ids, &[]);
    assert_eq!(topology.input_bus_offsets, vec![0, 2, 5]);
    assert_eq!(topology.input_bus_channels, 6);
    assert_eq!(topology.input_bus_index("b", 2), Some(4));
    assert_eq!(topology.input_bus_index("c", 0), Some(5));
    assert_eq!(topology.input_bus_index("c", 1), None);
    assert_eq!(topology.input_bus_index("d", 0), None);
}

// ---- matrices ---------------------------------------------------------------

#[test]
fn input_bus_matrix_places_channels_disjointly() {
    let m0 = build_input_bus_mix_matrix(4, 2, 0);
    assert_eq!(m0[0][0], 1);
    assert_eq!(m0[1][1], 1);
    assert_eq!(m0[2][0], 0);
    let m1 = build_input_bus_mix_matrix(4, 2, 2);
    assert_eq!(m1[2][0], 1);
    assert_eq!(m1[3][1], 1);
}

#[test]
fn output_matrix_routes_input_bus_channels() {
    let topology = stereo_topology();
    let routes = vec![
        ActiveMapRoute { output_channel: 0, input_id: "input0".into(), input_channel: 0 },
        ActiveMapRoute { output_channel: 3, input_id: "input1".into(), input_channel: 1 },
    ];
    let matrix = build_output_mix_matrix(&topology, 4, &routes).unwrap();
    assert_eq!(matrix[0][0], 1);
    assert_eq!(matrix[3][3], 1);
    assert_eq!(matrix[0][1], 0);
}

#[test]
fn rejects_unknown_input_id() {
    let topology = stereo_topology();
    let routes = vec![ActiveMapRoute {
        output_channel: 0,
        input_id: "nope".into(),
        input_channel: 0,
    }];
    assert!(matches!(
        build_output_mix_matrix(&topology, 4, &routes),
        Err(ActiveMapValidationError::UnknownInputId(_))
    ));
}

#[test]
fn output_matrix_has_a_row_per_output_and_a_column_per_bus_channel() {
    let topology = stereo_topology();
    let routes = vec![route(0, "input0", 0), route(1, "input0", 1)];
    let mix = build_output_mix_matrix(&topology, 2, &routes).unwrap();
    assert_eq!(mix.len(), 2);
    assert_eq!(mix[0].len(), 4);
    assert_eq!(mix, vec![vec![1, 0, 0, 0], vec![0, 1, 0, 0]]);
}

#[test]
fn identity_maps_pair_inputs_with_outputs() {
    let (topology, sinks, srcs) = dual_src_topology();
    let src_count = srcs.len();
    let mut mixes = Vec::new();
    for src_idx in 0..src_count {
        let out_ch = topology.output_channels[src_idx];
        let routes = default_identity_routes(&topology, src_idx, out_ch, &sinks, src_count);
        mixes.push(build_output_mix_matrix(&topology, out_ch, &routes).unwrap());
    }
    assert_eq!(mixes[0], vec![vec![1, 0, 0, 0], vec![0, 1, 0, 0]]);
    assert_eq!(mixes[1], vec![vec![0, 0, 1, 0], vec![0, 0, 0, 1]]);
}

#[test]
fn identity_map_of_one_output_is_the_identity_matrix() {
    let topology = stereo_topology();
    let sinks = vec![sink("input0", 2), sink("input1", 2)];
    let routes = default_identity_routes(&topology, 0, 4, &sinks, 1);
    let mix = build_output_mix_matrix(&topology, 4, &routes).unwrap();
    for (o, row) in mix.iter().enumerate() {
        for (i, gain) in row.iter().enumerate() {
            assert_eq!(*gain, u8::from(o == i));
        }
    }
}

#[test]
fn each_fault_of_a_map_is_named() {
    let topology = stereo_topology();
    let err = validate_active_map_for_output(&topology, 4, &[route(4, "input0", 0)]).unwrap_err();
    assert!(matches!(err, ActiveMapValidationError::OutputChannelOutOfRange(4, _)));
    assert_eq!(err.message(), "output channel 4 out of range (max 3)");

    let err = validate_active_map_for_output(
        &topology,
        4,
        &[route(1, "input0", 0), route(1, "input1", 0)],
    )
    .unwrap_err();
    assert_eq!(err, ActiveMapValidationError::DuplicateOutputChannel(1));
    assert_eq!(err.message(), "duplicate routing to output channel 1");

    let err = validate_active_map_for_output(&topology, 4, &[route(0, "input1", 2)]).unwrap_err();
    assert!(matches!(
        err,
        ActiveMapValidationError::InputChannelOutOfRange { input_channel: 2, max_channel: 1, .. }
    ));

    let err = validate_active_map_for_output(&topology, 4, &[route(0, "x", 0)]).unwrap_err();
    assert_eq!(err.message(), "unknown input id `x`");

    assert!(validate_active_map_for_output(&topology, 4, &[route(0, "input1", 1)]).is_ok());
}

#[test]
fn activation_entries_become_routes() {
    let topology = stereo_topology();
    let entries = vec![
        ActiveMapEntry { input_id: Some("input1".into()), input_channel: Some(1) },
        ActiveMapEntry { input_id: None, input_channel: None },
        ActiveMapEntry { input_id: Some(String::new()), input_channel: None },
        ActiveMapEntry { input_id: Some("input0".into()), input_channel: Some(0) },
    ];
    let routes = routes_from_activation(&topology, "output0", &entries).unwrap();
    assert_eq!(routes, vec![route(0, "input1", 1), route(3, "input0", 0)]);
}

#[test]
fn entries_round_trip_through_an_activation() {
    let topology = stereo_topology();
    let routes = vec![route(1, "input1", 0), route(2, "input0", 1)];
    let req = ChannelMappingActivationRequest {
        channelmapping_handle: "map".into(),
        activation_handle: "act".into(),
        output_id: "output0".into(),
        active_map: active_map_entries_from_routes(4, &routes),
    };
    assert_eq!(routes_from_activation_request(&topology, &req).unwrap(), routes);
}

#[test]
fn activation_of_an_unknown_output_is_refused() {
    let topology = stereo_topology();
    assert!(routes_from_activation(&topology, "output9", &[]).is_err());
}

// ---- requests ---------------------------------------------------------------

#[test]
fn restrict_routable_inputs_populates_outputs() {
    let sinks = vec![SinkPadSnapshot { receiver_name: "rx1".into(), ..sink("input0", 2) }];
    let srcs = vec![SrcPadSnapshot { sender_name: "tx1".into(), ..src("output0", 2) }];
    let req = build_add_channel_mapping_request("sess", "studio", &sinks, &srcs, true);
    assert_eq!(req.name, "studio");
    assert_eq!(req.inputs.len(), 1);
    assert_eq!(req.inputs[0].parent_name, "rx1");
    assert_eq!(req.inputs[0].channel_labels, vec!["0", "1"]);
    assert_eq!(req.outputs[0].routable_inputs, vec!["input0"]);
}

#[test]
fn unrestricted_leaves_routable_inputs_empty() {
    let sinks = vec![sink("input0", 0)];
    let srcs = vec![src("output0", 0)];
    let req = build_add_channel_mapping_request("sess", "map", &sinks, &srcs, false);
    assert!(req.outputs[0].routable_inputs.is_empty());
}

#[test]
fn request_carries_the_session_and_the_parents() {
    let sinks = vec![SinkPadSnapshot { receiver_name: "rx".into(), ..sink("a", 1) }, sink("b", 2)];
    let srcs = vec![SrcPadSnapshot { sender_name: "tx".into(), ..src("o", 3) }];
    let req = build_add_channel_mapping_request("sess", "map", &sinks, &srcs, false);
    assert_eq!(req.session_handle, "sess");
    assert_eq!(req.inputs[0].parent_type, ChannelMappingParentType::Receiver);
    assert_eq!(req.inputs[1].parent_name, "");
    assert_eq!(req.outputs[0].sender_name, "tx");
    assert_eq!(req.outputs[0].channel_labels, default_channel_labels(3));
    assert_eq!(default_channel_labels(3), vec!["0", "1", "2"]);
}
