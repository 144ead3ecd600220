//! The settings of `nmossink` and `nmossrc`, and the caps of their fake chains.

use nvnmos_gst::activation::{
    fake_caps_source, intermediate_fake_sink_caps, intermediate_fake_src_caps,
    mxl_capssetter_caps, mxl_indicates_wide_receiver_caps, udp_capssetter_caps, CapssetterError,
    FakeCapsSource, HopCaps,
};
use nvnmos_gst::caps::{Caps, FieldValue, Structure};
use nvnmos_gst::flow_def::{
    splice_overrides, FlowDefOverrides, RawFlowDefForCaps, RawRational,
};
use nvnmos_gst::nmossink;
use nvnmos_gst::nmossrc;
use nvnmos_gst::property::{PropertyKind, PropertySpec, PropertyValue};
use nvnmos_gst::sdp::indicates_wide_receiver_caps;
use nvnmos_gst::session::{
    ActivationAck, ActivationPlan, FakeKind, InnerConfig, Side, TransportConfig, UdpLeg, UdpMedia,
    UdpVariant,
};
use nvnmos_gst::types::{CapsMode, FlowFormat, Transport};

/// Caps out of their launch syntax: a name, then fields that are texts, integers or
/// fractions.
fn caps_from_str(s: &str) -> Caps {
    let mut parts = s.split(',');
    let mut structure = Structure::new(parts.next().unwrap());
    for part in parts {
        let (name, value) = part.split_once('=').unwrap();
        let value = match (value.parse::<i32>(), value.split_once('/')) {
            (Ok(n), _) => FieldValue::Int(n),
            (_, Some((n, d))) => FieldValue::Fraction(n.parse().unwrap(), d.parse().unwrap()),
            _ => FieldValue::Text(value.to_owned()),
        };
        structure.set(name, value);
    }
    Caps::of(structure)
}

/// The fields of a flow definition that describe its essence.
fn caps_record(text: &str) -> Result<RawFlowDefForCaps, String> {
    let v: serde_json::Value = serde_json::from_str(text).map_err(|e| e.to_string())?;
    let text = |key: &str| v.get(key).and_then(|m| m.as_str()).map(str::to_owned);
    let number = |key: &str| v.get(key).and_then(|m| m.as_i64()).map(|n| n as i32);
    let rational = |key: &str| {
        let m = v.get(key)?;
        let numerator = m.get("numerator")?.as_i64()?;
        Some(RawRational { numerator, denominator: m.get("denominator")?.as_i64()? })
    };
    Ok(RawFlowDefForCaps {
        media_type: text("media_type"),
        grain_rate: rational("grain_rate"),
        sample_rate: rational("sample_rate"),
        frame_width: number("frame_width"),
        frame_height: number("frame_height"),
        channel_count: number("channel_count"),
        interlace_mode: text("interlace_mode"),
    })
}

fn mxl_caps(transport_file: Option<&str>) -> Result<Option<Caps>, CapssetterError> {
    mxl_capssetter_caps(transport_file, caps_record(transport_file.unwrap_or("")))
}

fn fake_src_caps(plan: &ActivationPlan) -> Result<HopCaps, CapssetterError> {
    let text = match &plan.inner {
        InnerConfig::Real(TransportConfig::Mxl { transport_file, .. }) => transport_file.as_deref(),
        _ => None,
    };
    intermediate_fake_src_caps(plan, caps_record(text.unwrap_or("")))
}

// ---- settings ---------------------------------------------------------------

#[test]
fn from_settings_populates_is05_sender_transport_params() {
    let s = nmossink::Settings {
        source_ip: "192.0.2.10".to_owned(),
        source_port: 5005,
        destination_ip: "239.1.1.1".to_owned(),
        destination_port: 5004,
        ..nmossink::Settings::default()
    };
    let cs = s.into_common();
    assert_eq!(cs.source_ip, "192.0.2.10");
    assert_eq!(cs.source_port, 5005);
    assert_eq!(cs.destination_ip, "239.1.1.1");
    assert_eq!(cs.destination_port, 5004);
    assert_eq!(cs.interface_ip, "", "receiver-only on the Sender side must be empty");
    assert_eq!(cs.multicast_ip, "", "receiver-only on the Sender side must be empty");
    assert_eq!(cs.side, Side::Sender);
}

#[test]
fn imp_from_settings_defaults_leave_route_b_unset() {
    for cs in
        [nmossink::Settings::default().into_common(), nmossrc::Settings::default().into_common()]
    {
        assert_eq!(cs.source_ip, "");
        assert_eq!(cs.source_port, 0);
        assert_eq!(cs.destination_ip, "");
        assert_eq!(cs.destination_port, 0);
        assert_eq!(cs.interface_ip, "");
        assert_eq!(cs.multicast_ip, "");
        assert_eq!(cs.transport_caps, None);
    }
}

#[test]
fn from_settings_forwards_network_services_properties() {
    let s = nmossink::Settings {
        host_name: "studio-a".to_owned(),
        domain: "local".to_owned(),
        registration_url: "http://reg:3210/x-nmos/registration/v1.3".to_owned(),
        system_url: "http://sys:10641/x-nmos/system/v1.0".to_owned(),
        ..nmossink::Settings::default()
    };
    let cs = s.into_common();
    assert_eq!(cs.node.host_name, "studio-a");
    assert_eq!(cs.node.domain, "local");
    assert_eq!(cs.node.registration_url, "http://reg:3210/x-nmos/registration/v1.3");
    assert_eq!(cs.node.system_url, "http://sys:10641/x-nmos/system/v1.0");
}

#[test]
fn imp_from_settings_forwards_transport_caps() {
    let caps = caps_from_str("application/x-rtp,media=audio,payload=99,clock-rate=48000");
    let s = nmossink::Settings {
        transport_caps: Some(caps.copy()),
        ..nmossink::Settings::default()
    };
    let cs = s.into_common();
    assert_eq!(cs.transport_caps.as_ref(), Some(&caps));
    let s =
        nmossrc::Settings { transport_caps: Some(caps.copy()), ..nmossrc::Settings::default() };
    let cs = s.into_common();
    assert_eq!(cs.transport_caps.as_ref(), Some(&caps));
}

#[test]
fn from_settings_populates_is05_receiver_transport_params() {
    let s = nmossrc::Settings {
        source_ip: "192.0.2.10".to_owned(),
        interface_ip: "192.0.2.20".to_owned(),
        multicast_ip: "239.1.1.1".to_owned(),
        destination_port: 5004,
        ..nmossrc::Settings::default()
    };
    let cs = s.into_common();
    assert_eq!(cs.source_ip, "192.0.2.10");
    assert_eq!(cs.interface_ip, "192.0.2.20");
    assert_eq!(cs.multicast_ip, "239.1.1.1");
    assert_eq!(cs.destination_port, 5004);
    assert_eq!(cs.source_port, 0, "sender-only on the Receiver side must be 0");
    assert_eq!(cs.destination_ip, "", "sender-only on the Receiver side must be empty");
    assert_eq!(cs.side, Side::Receiver);
}

#[test]
fn settings_start_with_the_default_daemon() {
    let s = nmossink::Settings::default();
    assert_eq!(s.daemon_uri, "unix:/tmp/nvnmosd.sock");
    assert_eq!(nmossrc::Settings::default().daemon_uri, "unix:/tmp/nvnmosd.sock");
    assert_eq!(s.transport, Transport::default());
}

#[test]
fn a_property_that_is_set_is_read_back() {
    let mut s = nmossink::Settings::default();
    let p = nmossink::SinkProperty::from_name("destination-port").unwrap();
    assert_eq!(p.spec().name, "destination-port");
    assert!(matches!(p.spec().kind, PropertyKind::UInt { max: 65535 }));
    s.set_property(p, PropertyValue::UInt(5004));
    assert!(matches!(s.property(p), PropertyValue::UInt(5004)));
    assert_eq!(s.destination_port, 5004);
    assert!(nmossink::SinkProperty::from_name("no-such-property").is_none());

    let mut s = nmossrc::Settings::default();
    let p = nmossrc::SrcProperty::from_name("receiver-caps-mode").unwrap();
    s.set_property(p, PropertyValue::CapsMode(CapsMode::Wide));
    assert_eq!(s.receiver_caps_mode, CapsMode::Wide);
    let p = nmossrc::SrcProperty::from_name("label").unwrap();
    s.set_property(p, PropertyValue::Text(Some("x".to_owned())));
    assert_eq!(s.label, "x");
    s.set_property(p, PropertyValue::Text(None));
    assert_eq!(s.label, "");
}

#[test]
fn every_property_is_found_by_its_name() {
    let specs = nmossink::properties();
    assert_eq!(specs.len(), 28);
    for (i, spec) in specs.iter().enumerate() {
        assert!(nmossink::SinkProperty::from_name(spec.name).is_some(), "{}", spec.name);
        assert!(specs[..i].iter().all(|s| s.name != spec.name), "{}", spec.name);
    }
    let specs = nmossrc::properties();
    assert_eq!(specs.len(), 26);
    for (i, spec) in specs.iter().enumerate() {
        assert!(nmossrc::SrcProperty::from_name(spec.name).is_some(), "{}", spec.name);
        assert!(specs[..i].iter().all(|s| s.name != spec.name), "{}", spec.name);
    }
}

// ---- fake-hop caps ----------------------------------------------------------

const NARROW_SDP: &str = "v=0\r\n\
o=- 1 0 IN IP4 192.0.2.10\r\n\
s=Example\r\n\
t=0 0\r\n\
m=video 5004 RTP/AVP 96\r\n\
c=IN IP4 239.2.2.2/64\r\n\
a=rtpmap:96 raw/90000\r\n\
a=fmtp:96 sampling=YCbCr-4:2:2; width=1920; height=1080; exactframerate=25/1; depth=10\r\n";

fn wide_sdp() -> String {
    format!("{NARROW_SDP}a=x-nvnmos-caps:96\r\n")
}

const NARROW_MXL: &str = r#"{
    "format":"urn:x-nmos:format:video",
    "media_type":"video/v210",
    "grain_rate":{"numerator":25,"denominator":1},
    "frame_width":1920,
    "frame_height":1080
}"#;

const WIDE_MXL: &str = r#"{
    "format":"urn:x-nmos:format:video",
    "media_type":"video/v210",
    "grain_rate":{"numerator":25,"denominator":1},
    "frame_width":1920,
    "frame_height":1080,
    "tags":{"urn:x-nvnmos:tag:caps":[""]}
}"#;

/// What the SDP texts above stand for.
fn sdp_media() -> UdpMedia {
    UdpMedia {
        format: FlowFormat::Video,
        primary: UdpLeg {
            destination_ip: "239.2.2.2".to_owned(),
            destination_port: 5004,
            interface_ip: None,
            source_ip: None,
            source_port: None,
        },
        secondary: None,
        rtp_caps: caps_from_str(
            "application/x-rtp,media=video,clock-rate=90000,encoding-name=RAW,payload=96",
        ),
        raw_caps: caps_from_str("video/x-raw,format=UYVP,width=1920,height=1080,framerate=25/1"),
    }
}

fn udp_activation_plan(sdp: &str) -> ActivationPlan {
    ActivationPlan {
        inner: InnerConfig::Real(TransportConfig::Udp {
            variant: UdpVariant::V1,
            media: sdp_media(),
            transport_file: Some(sdp.to_owned()),
        }),
        ack: ActivationAck::Success,
    }
}

fn mxl_activation_plan(transport_file: Option<&str>) -> ActivationPlan {
    ActivationPlan {
        inner: InnerConfig::Real(TransportConfig::Mxl {
            domain_path: "/dev/shm/test".to_owned(),
            flow_id: "00000000-0000-0000-0000-000000000001".to_owned(),
            format: FlowFormat::Video,
            transport_file: transport_file.map(|t| t.to_owned()),
        }),
        ack: ActivationAck::Success,
    }
}

/// The caps of a fake hop, where an element's own caps stand in for its settings.
fn hop(caps: HopCaps, element: Option<&Caps>) -> Option<Caps> {
    match caps {
        HopCaps::Activation(caps) => caps,
        HopCaps::Settings => match fake_caps_source(element, "", "") {
            FakeCapsSource::Property(caps) => Some(caps),
            _ => None,
        },
    }
}

#[test]
fn properties_have_a_nick_and_a_default() {
    let sink = nmossink::properties();
    assert_eq!((sink[0].name, sink[0].nick), ("daemon-uri", "Daemon URI"));
    assert_eq!(sink[0].default_text, Some("unix:/tmp/nvnmosd.sock"));
    assert!(sink[1..].iter().all(|p| p.default_text.is_none()));
    let pay = sink.iter().find(|p| p.name == "pay-properties").unwrap();
    assert_eq!((pay.nick, pay.blurb), ("Payloader properties", None));
    let flow = sink.iter().find(|p| p.name == "mxl-flow-id").unwrap();
    assert_eq!(
        flow.blurb,
        Some(
            "MXL flow id (UUID) the inner `mxlsink` should push into. Overrides the transport \
             file's top-level `id` when both are supplied."
        )
    );
    let src = nmossrc::properties();
    assert_eq!(src[0].default_text, Some("unix:/tmp/nvnmosd.sock"));
    let mode = src.iter().find(|p| p.name == "receiver-caps-mode").unwrap();
    assert_eq!(mode.nick, "Receiver caps mode");
    assert!(mode.blurb.unwrap().ends_with("(libnvnmos: present + non-empty = wide)."));
    let described = |all: &[PropertySpec]| all.iter().filter(|p| p.blurb.is_some()).count();
    assert_eq!((described(&sink), described(&src)), (6, 7));
}

#[test]
fn intermediate_fake_sink_caps_udp_uses_activation_media() {
    let plan = udp_activation_plan(NARROW_SDP);
    let activation_caps =
        hop(intermediate_fake_sink_caps(&plan), None).expect("narrow UDP must pin fake-hop caps");
    let structure = activation_caps.first().expect("structure");
    assert_eq!(structure.name, "video/x-raw");
    assert_eq!(structure.get_text("format"), Some("UYVP"));

    let stale = caps_from_str("video/x-raw,format=RGB,width=640,height=480,framerate=30/1");
    let hop_caps = hop(intermediate_fake_sink_caps(&plan), Some(&stale))
        .expect("narrow UDP must pin fake-hop caps");
    assert_eq!(
        hop_caps.first().expect("structure").get_text("format"),
        Some("UYVP"),
        "fake-hop caps must follow activation media, not element property",
    );
}

#[test]
fn intermediate_fake_sink_caps_mxl_uses_element_settings() {
    let caps = caps_from_str("video/x-raw,format=v210,width=1920,height=1080,framerate=25/1");
    let plan = mxl_activation_plan(None);
    assert_eq!(hop(intermediate_fake_sink_caps(&plan), Some(&caps)), Some(caps));
}

#[test]
fn mxl_wide_receiver_skips_capssetter() {
    let spliced_wide = splice_overrides(
        NARROW_MXL,
        &FlowDefOverrides { caps_mode: CapsMode::Wide, ..FlowDefOverrides::default() },
    )
    .expect("wide splice");
    assert!(
        mxl_caps(Some(&spliced_wide)).unwrap().is_none(),
        "post-splice wide transport file must skip capssetter",
    );
    assert!(
        mxl_caps(Some(WIDE_MXL)).unwrap().is_none(),
        "activation/configuring file with wide caps tag must skip capssetter",
    );
    assert!(
        mxl_caps(Some(NARROW_MXL)).unwrap().is_some(),
        "narrow transport file still uses capssetter",
    );
    let spliced_narrow = splice_overrides(
        WIDE_MXL,
        &FlowDefOverrides { caps_mode: CapsMode::Narrow, ..FlowDefOverrides::default() },
    )
    .expect("narrow splice");
    assert!(
        mxl_caps(Some(&spliced_narrow)).unwrap().is_some(),
        "post-splice narrow transport file must use capssetter",
    );
}

#[test]
fn udp_wide_receiver_skips_capssetter() {
    let media = sdp_media();
    assert!(
        udp_capssetter_caps(Some(NARROW_SDP), &media).is_some(),
        "narrow SDP must pin capssetter",
    );
    assert!(
        udp_capssetter_caps(Some(&wide_sdp()), &media).is_none(),
        "wide SDP (a=x-nvnmos-caps) must skip capssetter",
    );
}

#[test]
fn intermediate_fake_src_caps_follows_activation_not_element_property() {
    let element = caps_from_str("video/x-raw,format=v210,width=1920,height=1080,framerate=25/1");
    let wide_plan = mxl_activation_plan(Some(WIDE_MXL));
    let wide = fake_src_caps(&wide_plan).expect("wide activation");
    assert!(
        hop(wide, Some(&element)).is_none(),
        "wide activation must not pin fake-hop caps from the element property",
    );
    let narrow_plan = mxl_activation_plan(Some(NARROW_MXL));
    let narrow = fake_src_caps(&narrow_plan).expect("narrow activation");
    assert!(
        hop(narrow, Some(&element)).is_some(),
        "narrow activation must still advertise caps on the fake hop",
    );
}

#[test]
fn intermediate_fake_src_caps_udp_wide_follows_sdp_marker() {
    let wide = fake_src_caps(&udp_activation_plan(&wide_sdp())).expect("wide udp");
    assert!(hop(wide, None).is_none());
    let narrow = fake_src_caps(&udp_activation_plan(NARROW_SDP)).expect("narrow udp");
    assert!(hop(narrow, None).is_some());
}

#[test]
fn intermediate_fake_src_caps_deactivation_uses_element_settings() {
    let caps = caps_from_str("video/x-raw,format=v210,width=1920,height=1080,framerate=25/1");
    let plan = ActivationPlan {
        inner: InnerConfig::Fake { kind: FakeKind::NotActive, detail: "deactivation".into() },
        ack: ActivationAck::Success,
    };
    let hop_caps = fake_src_caps(&plan).expect("fake plan");
    assert_eq!(hop(hop_caps, Some(&caps)), Some(caps));
}

#[test]
fn wide_marker_is_an_attribute_line() {
    assert!(!indicates_wide_receiver_caps(NARROW_SDP));
    assert!(indicates_wide_receiver_caps(&wide_sdp()));
    assert!(!indicates_wide_receiver_caps("i=a=x-nvnmos-caps:96\r\n"));
}

#[test]
fn narrow_mxl_file_gives_its_essence() {
    let caps = mxl_caps(Some(NARROW_MXL)).unwrap().unwrap();
    let s = caps.first().unwrap();
    assert_eq!(s.get_int("width"), Some(1920));
    assert_eq!(s.get_fraction("framerate"), Some((25, 1)));
    assert!(mxl_caps(None).unwrap().is_none());
    assert!(matches!(mxl_caps(Some("{}")), Err(CapssetterError::Caps(_))));
    assert!(!mxl_indicates_wide_receiver_caps("not json"));
    let zero = r#"{"media_type":"video/smpte291","grain_rate":{"numerator":1,"denominator":0}}"#;
    assert!(matches!(mxl_caps(Some(zero)), Err(CapssetterError::NoFraction)));
}

#[test]
fn capssetter_faults_are_worded() {
    let fault = "duplicate field `media_type` at line 1 column 40";
    assert_eq!(
        mxl_capssetter_caps(Some(NARROW_MXL), Err(fault.to_owned())).unwrap_err().message(),
        "failed to parse transport file as JSON: duplicate field `media_type` at line 1 column 40"
    );
    assert_eq!(
        CapssetterError::NoFraction.message(),
        "transport file `grain_rate` is not a fraction"
    );
    // What was read does not count where the receiver is wide, or has no file.
    assert!(mxl_capssetter_caps(Some(WIDE_MXL), Err(fault.to_owned())).unwrap().is_none());
    assert!(mxl_capssetter_caps(Some(""), Err(fault.to_owned())).unwrap().is_none());
}

#[test]
fn fake_caps_come_from_the_first_source_that_is_set() {
    let caps = caps_from_str("video/x-raw,format=v210");
    assert!(matches!(
        fake_caps_source(Some(&caps), "text", "path"),
        FakeCapsSource::Property(c) if c == caps
    ));
    assert!(matches!(
        fake_caps_source(None, "text", "path"),
        FakeCapsSource::Text(t) if t == "text"
    ));
    assert!(matches!(
        fake_caps_source(None, "", "path"),
        FakeCapsSource::Path(p) if p == "path"
    ));
    assert!(matches!(fake_caps_source(None, "", ""), FakeCapsSource::Unknown));
}
