//! Plans for the chains inside `nmossink` and `nmossrc`.

use nvnmos_gst::caps::{Caps, Field, FieldValue, Structure};
use nvnmos_gst::chain::{ChainPlan, ElementPlan, SettingValue};
use nvnmos_gst::iface::{InterfaceAddress, IpAddress, LocalAddress};
use nvnmos_gst::inner::{
    apply_properties_to_leaf, build_fake_sink, build_fake_src, build_mxlsink, build_mxlsrc,
    build_real_sink, build_real_src, build_udpsink, build_udpsrc, current_chain_is_real,
    ignores_codec_properties, multicast_iface_name, package_hint_for_stem, select_rtp_factory,
    select_udpsrc_factory, ChainError, Host, LegAddresses, PropertyVerdict, PtimeFault,
};
use nvnmos_gst::session::{Properties, TransportConfig, UdpLeg, UdpMedia, UdpVariant};
use nvnmos_gst::types::FlowFormat;

/// Caps out of their launch syntax: a name, then fields that are texts, integers or
/// fractions.
fn caps_from_str(s: &str) -> Caps {
    let mut parts = s.split(',');
    let mut structure = Structure::new(parts.next().unwrap());
    for part in parts {
        let (name, value) = part.trim().split_once('=').unwrap();
        let value = match value.strip_prefix("(string)") {
            Some(text) => FieldValue::Text(text.to_owned()),
            None => match (value.parse::<i32>(), value.split_once('/')) {
                (Ok(n), _) => FieldValue::Int(n),
                (_, Some((n, d))) => FieldValue::Fraction(n.parse().unwrap(), d.parse().unwrap()),
                _ => FieldValue::Text(value.to_owned()),
            },
        };
        structure.set(name, value);
    }
    Caps::of(structure)
}

fn v4(a: u8, b: u8, c: u8, d: u8) -> IpAddress {
    IpAddress::V4(u32::from_be_bytes([a, b, c, d]))
}

/// The address that a dotted text stands for.
fn address(text: &str) -> Option<IpAddress> {
    let parts: Vec<u8> = text.split('.').map(|p| p.parse().unwrap()).collect();
    Some(v4(parts[0], parts[1], parts[2], parts[3]))
}

fn addresses(media: &UdpMedia) -> LegAddresses {
    LegAddresses {
        destination: address(&media.primary.destination_ip),
        interface: media.primary.interface_ip.as_deref().and_then(address),
    }
}

fn names(factories: &[&str]) -> Vec<String> {
    factories.iter().map(|f| f.to_string()).collect()
}

/// The factories of a stock installation.
fn stock() -> Vec<String> {
    names(&[
        "udpsink", "udpsrc", "rtpvrawpay", "rtpvrawdepay", "rtpL24pay", "rtpL24depay", "rtpL16pay",
        "rtpL16depay", "capssetter",
    ])
}

/// Those of one with every plugin that is used.
fn full() -> Vec<String> {
    let mut all = stock();
    all.extend(names(&[
        "udpsrc2", "rtpL24pay2", "rtpL24depay2", "rtpsmpte291pay", "rtpsmpte291depay", "mxlsink",
        "mxlsrc",
    ]));
    all
}

fn loopback() -> Vec<InterfaceAddress> {
    vec![
        InterfaceAddress { interface_name: "lo".into(), address: LocalAddress::Absent },
        InterfaceAddress {
            interface_name: "lo".into(),
            address: LocalAddress::Ip(v4(127, 0, 0, 1)),
        },
    ]
}

fn udpsink(
    media: &UdpMedia,
    variant: UdpVariant,
    parsed_ptime: Option<i64>,
    factories: &[String],
) -> Result<ChainPlan, ChainError> {
    let interfaces = loopback();
    let host = Host { factories, interfaces: &interfaces };
    let parsed = parsed_ptime.ok_or(PtimeFault::NotANumber);
    build_udpsink(media, variant, parsed, addresses(media), &host)
}

fn udpsrc(
    media: &UdpMedia,
    variant: UdpVariant,
    advertise: Option<&Caps>,
    factories: &[String],
) -> Result<ChainPlan, ChainError> {
    let interfaces = loopback();
    let host = Host { factories, interfaces: &interfaces };
    build_udpsrc(media, variant, advertise, addresses(media), &host)
}

fn child<'a>(plan: &'a ChainPlan, name: &str) -> &'a ElementPlan {
    plan.elements
        .iter()
        .find(|e| e.name == name)
        .unwrap_or_else(|| panic!("inner bin missing child `{name}`"))
}

fn property<'a>(element: &'a ElementPlan, name: &str) -> Option<&'a SettingValue> {
    element.settings.iter().find(|s| s.name == name).map(|s| &s.value)
}

fn text_property<'a>(element: &'a ElementPlan, name: &str) -> Option<&'a str> {
    match property(element, name) {
        Some(SettingValue::Text(text)) => Some(text),
        None => None,
        other => panic!("`{name}` is {other:?}"),
    }
}

fn caps_property<'a>(element: &'a ElementPlan, name: &str) -> &'a Caps {
    match property(element, name) {
        Some(SettingValue::Caps(caps)) => caps,
        other => panic!("`{name}` is {other:?}"),
    }
}

fn transport(plan: &ChainPlan) -> &ElementPlan {
    &plan.elements[plan.transport]
}

fn codec(plan: &ChainPlan) -> &ElementPlan {
    &plan.elements[plan.codec.expect("chain has a codec")]
}

fn minimal_udp_media() -> UdpMedia {
    UdpMedia {
        format: FlowFormat::Video,
        primary: UdpLeg {
            destination_ip: "239.1.1.1".to_owned(),
            destination_port: 5004,
            interface_ip: None,
            source_ip: None,
            source_port: None,
        },
        secondary: None,
        rtp_caps: caps_from_str(
            "application/x-rtp,media=video,clock-rate=90000,encoding-name=RAW,payload=96",
        ),
        raw_caps: caps_from_str("video/x-raw,format=UYVP,width=1920,height=1080,framerate=50/1"),
    }
}

fn anc_smpte291_media() -> UdpMedia {
    UdpMedia {
        format: FlowFormat::Data,
        primary: UdpLeg {
            destination_ip: "239.1.1.10".to_owned(),
            destination_port: 5006,
            interface_ip: None,
            source_ip: None,
            source_port: None,
        },
        secondary: None,
        rtp_caps: caps_from_str(
            "application/x-rtp,media=video,clock-rate=90000,\
             encoding-name=SMPTE291,payload=100",
        ),
        raw_caps: caps_from_str("meta/x-st-2038,alignment=frame,framerate=60/1"),
    }
}

fn audio_l24_ptime_media() -> UdpMedia {
    UdpMedia {
        format: FlowFormat::Audio,
        primary: UdpLeg {
            destination_ip: "239.2.2.2".to_owned(),
            destination_port: 5004,
            interface_ip: Some("192.0.2.10".to_owned()),
            source_ip: None,
            source_port: Some(5005),
        },
        secondary: None,
        rtp_caps: caps_from_str(
            "application/x-rtp,media=audio,clock-rate=48000,encoding-name=L24,\
             encoding-params=(string)2,payload=97,a-ptime=(string)0.125",
        ),
        raw_caps: caps_from_str(
            "audio/x-raw,format=S24BE,rate=48000,channels=2,layout=interleaved",
        ),
    }
}

const PTIME: Option<i64> = Some(125_000);

fn multicast_udp_media_with_loopback_iface() -> UdpMedia {
    let mut media = minimal_udp_media();
    media.primary.interface_ip = Some("127.0.0.1".to_owned());
    media
}

// ---- senders ----------------------------------------------------------------

#[test]
fn build_udpsink_video_v1_uses_rtpvrawpay_and_udpsink() {
    let plan = udpsink(&minimal_udp_media(), UdpVariant::V1, None, &stock())
        .expect("V1 video sender chain must construct");
    assert!(plan.bin.is_some(), "the chain is a bin with a ghost pad");
    let pay = child(&plan, "nmossink-payloader");
    assert_eq!(pay.factory, "rtpvrawpay");
    assert_eq!(property(pay, "pt"), Some(&SettingValue::UInt(96)));
    let sink = child(&plan, "nmossink-udpsink");
    assert_eq!(sink.factory, "udpsink");
    assert_eq!(text_property(sink, "host"), Some("239.1.1.1"));
    assert_eq!(property(sink, "port"), Some(&SettingValue::Int(5004)));
    assert_eq!(property(sink, "async"), Some(&SettingValue::Boolean(false)));
    // `sync` is left at the factory's default, which is `true`.
    assert_eq!(property(sink, "sync").unwrap_or(&SettingValue::Boolean(true)), &SettingValue::Boolean(true));
}

#[test]
fn build_udpsink_audio_l24_pins_min_max_ptime_ns() {
    let plan = udpsink(&audio_l24_ptime_media(), UdpVariant::V1, PTIME, &stock())
        .expect("L24 audio sender chain must construct");
    let pay = child(&plan, "nmossink-payloader");
    assert_eq!(pay.factory, "rtpL24pay");
    assert_eq!(property(pay, "pt"), Some(&SettingValue::UInt(97)));
    assert_eq!(property(pay, "min-ptime"), Some(&SettingValue::Int64(125_000)));
    assert_eq!(property(pay, "max-ptime"), Some(&SettingValue::Int64(125_000)));
    let sink = child(&plan, "nmossink-udpsink");
    assert_eq!(property(sink, "bind-port"), Some(&SettingValue::Int(5005)));
    assert_eq!(text_property(sink, "bind-address"), Some("192.0.2.10"));
}

#[test]
fn build_udpsink_audio_l16_uses_rtpl16pay() {
    let mut media = audio_l24_ptime_media();
    media.rtp_caps = caps_from_str(
        "application/x-rtp,media=audio,clock-rate=48000,encoding-name=L16,\
         encoding-params=(string)2,payload=98",
    );
    let plan = udpsink(&media, UdpVariant::V1, None, &stock())
        .expect("L16 audio sender chain must construct");
    assert_eq!(child(&plan, "nmossink-payloader").factory, "rtpL16pay");
}

#[test]
fn build_udpsink_v2_falls_back_to_v1_when_pay2_missing() {
    let media = audio_l24_ptime_media();
    let plan = udpsink(&media, UdpVariant::V2, PTIME, &full()).expect("with `rtpL24pay2`");
    assert_eq!(child(&plan, "nmossink-payloader").factory, "rtpL24pay2");
    let plan = udpsink(&media, UdpVariant::V2, PTIME, &stock()).expect("without `rtpL24pay2`");
    assert_eq!(child(&plan, "nmossink-payloader").factory, "rtpL24pay");
}

#[test]
fn build_udpsink_accepts_lowercase_encoding_name() {
    let mut media = audio_l24_ptime_media();
    media.rtp_caps = caps_from_str(
        "application/x-rtp,media=audio,clock-rate=48000,encoding-name=l24,\
         payload=97,encoding-params=(string)2,a-ptime=(string)0.125",
    );
    let plan = udpsink(&media, UdpVariant::V1, PTIME, &stock()).expect("`l24` stands for `L24`");
    assert_eq!(codec(&plan).factory, "rtpL24pay");
}

#[test]
fn build_udpsink_rejects_unsupported_essence() {
    let mut media = minimal_udp_media();
    media.rtp_caps = caps_from_str(
        "application/x-rtp,media=video,clock-rate=90000,encoding-name=H264,payload=96",
    );
    let err = udpsink(&media, UdpVariant::V1, None, &stock()).expect_err("H264 must be rejected");
    let msg = err.message("");
    assert!(
        msg.contains("unsupported essence") && msg.contains("encoding-name=`H264`"),
        "expected unsupported-essence attribution: {msg}",
    );
    assert!(msg.starts_with("unsupported essence for UDP/RTP `pay`: format=Video, "));
}

#[test]
fn package_hint_for_stem_routes_anc_to_plugins_rs() {
    assert_eq!(package_hint_for_stem("rtpsmpte291"), "gst-plugins-rs (`rsrtp` plugin)");
    assert_eq!(package_hint_for_stem("rtpvraw"), "gst-plugins-good");
    assert_eq!(package_hint_for_stem("rtpL24"), "gst-plugins-good");
    assert_eq!(package_hint_for_stem("rtpL16"), "gst-plugins-good");
}

#[test]
fn build_udpsink_anc_uses_rtpsmpte291pay() {
    let plan = udpsink(&anc_smpte291_media(), UdpVariant::V1, None, &full())
        .expect("ANC sender chain must construct when rtpsmpte291pay is available");
    let pay = child(&plan, "nmossink-payloader");
    assert_eq!(pay.factory, "rtpsmpte291pay");
    assert_eq!(property(pay, "pt"), Some(&SettingValue::UInt(100)));
}

#[test]
fn build_udpsink_anc_works_with_both_udp_variants() {
    for variant in [UdpVariant::V1, UdpVariant::V2] {
        let plan = udpsink(&anc_smpte291_media(), variant, None, &full())
            .unwrap_or_else(|e| panic!("ANC sender chain must construct for {variant:?}: {e:?}"));
        let pay = child(&plan, "nmossink-payloader");
        assert_eq!(pay.factory, "rtpsmpte291pay", "{variant:?} must resolve to rtpsmpte291pay");
    }
}

#[test]
fn build_udpsink_rejects_missing_payload() {
    let mut media = minimal_udp_media();
    media.rtp_caps =
        caps_from_str("application/x-rtp,media=video,clock-rate=90000,encoding-name=RAW");
    let err = udpsink(&media, UdpVariant::V1, None, &stock())
        .expect_err("rtp_caps without `payload` must be rejected");
    let msg = err.message("");
    assert!(msg.contains("payload"), "expected `payload` in error message: {msg}");
}

#[test]
fn build_udpsink_rejects_out_of_range_pt() {
    let mut media = minimal_udp_media();
    media.rtp_caps = caps_from_str(
        "application/x-rtp,media=video,clock-rate=90000,encoding-name=RAW,payload=200",
    );
    let err = udpsink(&media, UdpVariant::V1, None, &stock())
        .expect_err("payload=200 is out of valid PT range 0..=127");
    let msg = err.message("");
    assert!(
        msg.contains("0..=127") && msg.contains("200"),
        "expected PT-range attribution: {msg}",
    );
}

#[test]
fn sender_chain_faults_are_told_apart() {
    let mut media = audio_l24_ptime_media();
    let err = udpsink(&media, UdpVariant::V1, None, &stock()).unwrap_err();
    assert!(matches!(err, ChainError::BadPtime { fault: PtimeFault::NotANumber, .. }));
    assert_eq!(err.message(""), "parsing a-ptime=`0.125` as milliseconds");
    let bad = |fault| ChainError::BadPtime { ptime: "-1".to_owned(), fault }.message("");
    assert_eq!(bad(PtimeFault::NotPositive), "a-ptime=`-1` ms must be a finite positive value");
    assert_eq!(bad(PtimeFault::TooLong), "a-ptime=`-1` ms overflows i64 nanoseconds");
    let err = udpsink(&media, UdpVariant::V1, PTIME, &[]).unwrap_err();
    assert_eq!(
        err.message(""),
        "GStreamer factory `rtpL24pay` not found; install `gst-plugins-good` and ensure it's on \
         `GST_PLUGIN_PATH`"
    );
    media.rtp_caps = caps_from_str("application/x-rtp,payload=97");
    let err = udpsink(&media, UdpVariant::V1, PTIME, &stock()).unwrap_err();
    assert!(matches!(err, ChainError::MissingEncodingName));
    assert_eq!(err.unreadable_field(), Some("encoding-name"));
    assert_eq!(err.message("not found"), "UdpMedia.rtp_caps missing `encoding-name`: not found");
    assert_eq!(
        ChainError::MissingPayload.message("not found"),
        "UdpMedia.rtp_caps missing `payload` field: not found"
    );
    media.rtp_caps = Caps::Structures(vec![]);
    let err = udpsink(&media, UdpVariant::V1, PTIME, &stock()).unwrap_err();
    assert!(matches!(err, ChainError::EmptyRtpCaps));
}

#[test]
fn build_udpsink_pins_multicast_iface_when_destination_is_multicast() {
    let plan =
        udpsink(&multicast_udp_media_with_loopback_iface(), UdpVariant::V1, None, &stock())
            .expect("multicast sender chain must construct");
    let sink = child(&plan, "nmossink-udpsink");
    assert_eq!(text_property(sink, "multicast-iface"), Some("lo"));
}

#[test]
fn build_udpsink_skips_multicast_iface_when_destination_is_unicast() {
    let mut media = minimal_udp_media();
    media.primary.destination_ip = "192.0.2.50".to_owned();
    media.primary.interface_ip = Some("127.0.0.1".to_owned());
    let plan = udpsink(&media, UdpVariant::V1, None, &stock())
        .expect("unicast sender chain must construct");
    assert_eq!(text_property(child(&plan, "nmossink-udpsink"), "multicast-iface"), None);
}

// ---- receivers --------------------------------------------------------------

#[test]
fn build_udpsrc_video_v1_uses_rtpvrawdepay_and_udpsrc() {
    let plan = udpsrc(&minimal_udp_media(), UdpVariant::V1, None, &stock())
        .expect("V1 video receiver chain must construct");
    assert!(plan.bin.is_some(), "the chain is a bin with a ghost pad");
    let source = child(&plan, "nmossrc-udpsrc");
    assert_eq!(source.factory, "udpsrc");
    assert_eq!(text_property(source, "address"), Some("239.1.1.1"));
    assert_eq!(property(source, "port"), Some(&SettingValue::Int(5004)));
    let s = caps_property(source, "caps").first().expect("rtp caps structure(0)");
    assert_eq!(s.name, "application/x-rtp");
    assert_eq!(s.get_text("encoding-name").unwrap(), "RAW");
    assert_eq!(child(&plan, "nmossrc-depayloader").factory, "rtpvrawdepay");
}

#[test]
fn build_udpsrc_audio_l24_uses_rtpl24depay() {
    let plan = udpsrc(&audio_l24_ptime_media(), UdpVariant::V1, None, &stock())
        .expect("L24 audio receiver chain must construct");
    assert_eq!(child(&plan, "nmossrc-depayloader").factory, "rtpL24depay");
}

#[test]
fn build_udpsrc_audio_l16_uses_rtpl16depay() {
    let mut media = audio_l24_ptime_media();
    media.rtp_caps = caps_from_str(
        "application/x-rtp,media=audio,clock-rate=48000,encoding-name=L16,\
         encoding-params=(string)2,payload=97",
    );
    let plan = udpsrc(&media, UdpVariant::V1, None, &stock())
        .expect("L16 audio receiver chain must construct");
    assert_eq!(child(&plan, "nmossrc-depayloader").factory, "rtpL16depay");
}

#[test]
fn build_udpsrc_pins_multicast_iface_when_destination_is_multicast() {
    let plan =
        udpsrc(&multicast_udp_media_with_loopback_iface(), UdpVariant::V1, None, &stock())
            .expect("multicast receiver chain must construct");
    assert_eq!(text_property(child(&plan, "nmossrc-udpsrc"), "multicast-iface"), Some("lo"));
}

#[test]
fn build_udpsrc_skips_multicast_iface_when_destination_is_unicast() {
    let mut media = minimal_udp_media();
    media.primary.destination_ip = "192.0.2.50".to_owned();
    media.primary.interface_ip = Some("127.0.0.1".to_owned());
    let plan = udpsrc(&media, UdpVariant::V1, None, &stock())
        .expect("unicast receiver chain must construct");
    assert_eq!(text_property(child(&plan, "nmossrc-udpsrc"), "multicast-iface"), None);
}

#[test]
fn build_udpsrc_pins_ssm_source_filter_via_multicast_source() {
    let mut media = multicast_udp_media_with_loopback_iface();
    media.primary.source_ip = Some("192.0.2.100".to_owned());
    let plan = udpsrc(&media, UdpVariant::V1, None, &stock())
        .expect("SSM receiver chain must construct");
    let source = child(&plan, "nmossrc-udpsrc");
    assert_eq!(text_property(source, "multicast-source"), Some("+192.0.2.100"));
}

#[test]
fn build_udpsrc_omits_ssm_filter_for_unicast_destinations() {
    let mut media = minimal_udp_media();
    media.primary.destination_ip = "192.0.2.50".to_owned();
    media.primary.source_ip = Some("192.0.2.100".to_owned());
    let plan = udpsrc(&media, UdpVariant::V1, None, &stock())
        .expect("unicast receiver chain must construct");
    assert_eq!(text_property(child(&plan, "nmossrc-udpsrc"), "multicast-source"), None);
}

#[test]
fn build_udpsrc_v1_video_pins_advertise_caps_via_capssetter() {
    let advertise = caps_from_str("video/x-raw,format=UYVP,width=1920,height=1080,framerate=50/1");
    let plan = udpsrc(&minimal_udp_media(), UdpVariant::V1, Some(&advertise), &stock())
        .expect("V1 video receiver chain with advertise_caps must construct");
    let tail = child(&plan, "nmossrc-caps");
    assert_eq!(tail.factory, "capssetter");
    assert_eq!(caps_property(tail, "caps"), &advertise);
}

#[test]
fn build_udpsrc_audio_pins_advertise_caps_via_capssetter() {
    let advertise =
        caps_from_str("audio/x-raw,format=S24BE,rate=48000,channels=2,layout=interleaved");
    let plan = udpsrc(&audio_l24_ptime_media(), UdpVariant::V1, Some(&advertise), &stock())
        .expect("audio receiver chain with advertise_caps must construct");
    let tail = child(&plan, "nmossrc-caps");
    assert_eq!(tail.factory, "capssetter");
    assert_eq!(caps_property(tail, "caps"), &advertise);
}

#[test]
fn build_udpsrc_rejects_unsupported_essence() {
    let mut media = minimal_udp_media();
    media.rtp_caps = caps_from_str(
        "application/x-rtp,media=video,clock-rate=90000,encoding-name=H264,payload=96",
    );
    let err = udpsrc(&media, UdpVariant::V1, None, &stock()).expect_err("H264 must be rejected");
    let msg = err.message("");
    assert!(
        msg.contains("unsupported essence") && msg.contains("encoding-name=`H264`"),
        "expected unsupported-essence attribution: {msg}",
    );
}

#[test]
fn build_udpsrc_anc_uses_rtpsmpte291depay() {
    let plan = udpsrc(&anc_smpte291_media(), UdpVariant::V1, None, &full())
        .expect("ANC receiver chain must construct when rtpsmpte291depay is available");
    assert_eq!(child(&plan, "nmossrc-depayloader").factory, "rtpsmpte291depay");
}

#[test]
fn build_udpsrc_anc_works_with_both_udp_variants() {
    for variant in [UdpVariant::V1, UdpVariant::V2] {
        let plan = udpsrc(&anc_smpte291_media(), variant, None, &full())
            .unwrap_or_else(|e| panic!("ANC receiver chain must construct for {variant:?}: {e:?}"));
        let depay = child(&plan, "nmossrc-depayloader");
        assert_eq!(depay.factory, "rtpsmpte291depay", "{variant:?} must resolve for ANC");
    }
}

#[test]
fn build_udpsrc_v2_falls_back_to_v1_when_depay2_missing() {
    let media = audio_l24_ptime_media();
    let plan = udpsrc(&media, UdpVariant::V2, None, &full()).expect("with `rtpL24depay2`");
    assert_eq!(child(&plan, "nmossrc-depayloader").factory, "rtpL24depay2");
    let plan = udpsrc(&media, UdpVariant::V2, None, &stock()).expect("without `rtpL24depay2`");
    assert_eq!(child(&plan, "nmossrc-depayloader").factory, "rtpL24depay");
}

#[test]
fn select_udpsrc_factory_v1_always_returns_udpsrc() {
    let factories = full();
    let host = Host { factories: &factories, interfaces: &[] };
    assert_eq!(select_udpsrc_factory(UdpVariant::V1, &host), "udpsrc");
}

#[test]
fn select_udpsrc_factory_v2_prefers_udpsrc2_when_available() {
    let factories = full();
    let host = Host { factories: &factories, interfaces: &[] };
    assert_eq!(select_udpsrc_factory(UdpVariant::V2, &host), "udpsrc2");
}

#[test]
fn select_udpsrc_factory_v2_falls_back_to_udpsrc_when_udpsrc2_missing() {
    let factories = stock();
    let host = Host { factories: &factories, interfaces: &[] };
    assert_eq!(select_udpsrc_factory(UdpVariant::V2, &host), "udpsrc");
}

#[test]
fn build_udpsrc_v2_uses_udpsrc2_when_available() {
    let plan = udpsrc(&minimal_udp_media(), UdpVariant::V2, None, &full())
        .expect("V2 receiver must construct against udpsrc2");
    let source = child(&plan, "nmossrc-udpsrc");
    assert_eq!(source.factory, "udpsrc2");
    assert_eq!(text_property(source, "address"), Some("239.1.1.1"));
    assert_eq!(property(source, "port"), Some(&SettingValue::UInt(5004)));
    let s = caps_property(source, "caps").first().expect("rtp caps structure(0)");
    assert_eq!(s.name, "application/x-rtp");
    assert_eq!(s.get_text("encoding-name").unwrap(), "RAW");
}

#[test]
fn build_udpsrc_v2_pins_ssm_filter_via_source_filter_property() {
    let mut media = multicast_udp_media_with_loopback_iface();
    media.primary.source_ip = Some("192.0.2.100".to_owned());
    let plan = udpsrc(&media, UdpVariant::V2, None, &full())
        .expect("V2 SSM receiver chain must construct");
    let source = child(&plan, "nmossrc-udpsrc");
    assert_eq!(source.factory, "udpsrc2");
    assert_eq!(text_property(source, "source-filter"), Some("192.0.2.100"));
    assert!(
        property(source, "source-filter-exclusive").is_none(),
        "the include mode is the default",
    );
    assert_eq!(text_property(source, "multicast-iface"), Some("lo"));
}

#[test]
fn build_udpsrc_v2_omits_ssm_filter_for_unicast_destinations() {
    let mut media = minimal_udp_media();
    media.primary.destination_ip = "192.0.2.50".to_owned();
    media.primary.source_ip = Some("192.0.2.100".to_owned());
    let plan = udpsrc(&media, UdpVariant::V2, None, &full())
        .expect("V2 unicast receiver chain must construct");
    let source = child(&plan, "nmossrc-udpsrc");
    assert_eq!(source.factory, "udpsrc2");
    assert_eq!(text_property(source, "source-filter"), None);
}

// ---- what a chain is made of ------------------------------------------------

#[test]
fn build_udpsink_returns_chain_with_distinct_pay_and_transport() {
    let plan = udpsink(&minimal_udp_media(), UdpVariant::V1, None, &stock())
        .expect("V1 video sender chain must construct");
    assert_ne!(plan.codec, Some(plan.transport));
    assert!(plan.bin.is_some());
}

#[test]
fn build_udpsrc_returns_chain_with_distinct_transport_and_depay() {
    let plan = udpsrc(&minimal_udp_media(), UdpVariant::V1, None, &stock())
        .expect("V1 video receiver chain must construct");
    assert_ne!(plan.codec, Some(plan.transport));
    assert!(plan.bin.is_some());
}

#[test]
fn build_mxlsink_returns_chain_with_transport_equal_to_bin() {
    let factories = full();
    let host = Host { factories: &factories, interfaces: &[] };
    let plan = build_mxlsink("/tmp/domain", "00000000-0000-0000-0000-000000000001", &host)
        .expect("mxlsink chain must construct when factory is present");
    assert!(plan.bin.is_none());
    assert_eq!(plan.elements.len(), 1);
    assert_eq!(text_property(transport(&plan), "domain"), Some("/tmp/domain"));
    let factories = stock();
    let host = Host { factories: &factories, interfaces: &[] };
    let err = build_mxlsink("/tmp/domain", "x", &host).unwrap_err();
    assert!(matches!(err, ChainError::MissingMxlFactory("mxlsink")));
}

#[test]
fn build_mxlsrc_without_advertise_caps_returns_chain_with_transport_equal_to_bin() {
    let factories = full();
    let host = Host { factories: &factories, interfaces: &[] };
    let plan = build_mxlsrc(
        "/tmp/domain",
        "00000000-0000-0000-0000-000000000002",
        FlowFormat::Video,
        None,
        &host,
    )
    .expect("bare mxlsrc chain must construct when factory is present");
    assert!(plan.bin.is_none());
    assert_eq!(plan.elements.len(), 1);
    assert_eq!(
        text_property(transport(&plan), "video-flow-id"),
        Some("00000000-0000-0000-0000-000000000002")
    );
}

#[test]
fn build_mxlsrc_with_advertise_caps_returns_chain_with_transport_inside_wrapper_bin() {
    let factories = full();
    let host = Host { factories: &factories, interfaces: &[] };
    let advertise = minimal_udp_media().raw_caps;
    let plan = build_mxlsrc(
        "/tmp/domain",
        "00000000-0000-0000-0000-000000000003",
        FlowFormat::Video,
        Some(&advertise),
        &host,
    )
    .unwrap();
    assert!(plan.bin.is_some());
    assert_eq!(transport(&plan).name, "nmossrc-mxl");
    assert_eq!(child(&plan, "nmossrc-mxl").factory, "mxlsrc");
    assert_eq!(caps_property(child(&plan, "nmossrc-caps"), "caps"), &advertise);
}

#[test]
fn mxl_source_needs_a_format() {
    let factories = full();
    let host = Host { factories: &factories, interfaces: &[] };
    let err = build_mxlsrc("/d", "id", FlowFormat::Unspecified, None, &host).unwrap_err();
    assert!(matches!(err, ChainError::UnspecifiedFormat));
    let plan = build_mxlsrc("/d", "id", FlowFormat::Data, None, &host).unwrap();
    assert_eq!(text_property(transport(&plan), "data-flow-id"), Some("id"));
}

#[test]
fn chain_transport_factory_matches_expected_for_each_transport_family() {
    let factories = full();
    let host = Host { factories: &factories, interfaces: &[] };
    let udp_sink = udpsink(&minimal_udp_media(), UdpVariant::V1, None, &factories)
        .expect("udp sink chain must construct");
    assert_eq!(transport(&udp_sink).factory, "udpsink");
    let udp_src = udpsrc(&minimal_udp_media(), UdpVariant::V1, None, &factories)
        .expect("udp src chain must construct");
    assert_eq!(transport(&udp_src).factory, "udpsrc");
    let mxl_sink = build_mxlsink("/tmp/domain", "00000000-0000-0000-0000-000000000004", &host)
        .expect("mxlsink chain must construct");
    assert_eq!(transport(&mxl_sink).factory, "mxlsink");
    let mxl_src = build_mxlsrc(
        "/tmp/domain",
        "00000000-0000-0000-0000-000000000005",
        FlowFormat::Video,
        None,
        &host,
    )
    .expect("mxlsrc chain must construct");
    assert_eq!(transport(&mxl_src).factory, "mxlsrc");
}

#[test]
fn fake_chains_are_told_from_real_ones() {
    let caps = minimal_udp_media().raw_caps;
    for plan in [
        build_fake_sink(None),
        build_fake_sink(Some(&caps)),
        build_fake_src(None),
        build_fake_src(Some(&caps)),
    ] {
        let name = match plan.bin {
            Some(name) => name.to_owned(),
            None => plan.elements[0].name.to_owned(),
        };
        assert!(!current_chain_is_real(Some(&name)), "{name}");
    }
    assert!(current_chain_is_real(Some("nmossink-udp")));
    assert!(!current_chain_is_real(None));
}

#[test]
fn fake_source_answers_with_the_caps_it_is_given() {
    let caps = minimal_udp_media().raw_caps;
    let plan = build_fake_src(Some(&caps));
    assert_eq!(caps_property(&plan.elements[0], "caps"), &caps);
    assert!(property(&build_fake_src(None).elements[0], "caps").is_none());
    let plan = build_fake_sink(Some(&caps));
    assert_eq!(caps_property(&plan.elements[0], "caps"), &caps);
    assert_eq!(plan.elements[1].factory, "fakesink");
}

#[test]
fn multicast_iface_needs_a_bound_address() {
    let interfaces = loopback();
    let host = Host { factories: &[], interfaces: &interfaces };
    let leg = |destination, interface| LegAddresses { destination, interface };
    let group = Some(v4(239, 0, 0, 1));
    let bound = Some(v4(127, 0, 0, 1));
    assert_eq!(multicast_iface_name(leg(group, bound), &host).as_deref(), Some("lo"));
    assert_eq!(multicast_iface_name(leg(group, Some(v4(10, 0, 0, 1))), &host), None);
    assert_eq!(multicast_iface_name(leg(group, None), &host), None);
    assert_eq!(multicast_iface_name(leg(None, bound), &host), None);
    assert_eq!(multicast_iface_name(leg(Some(v4(10, 0, 0, 1)), bound), &host), None);
}

#[test]
fn chosen_factories_are_installed() {
    let factories = full();
    let host = Host { factories: &factories, interfaces: &[] };
    for variant in [UdpVariant::V1, UdpVariant::V2] {
        for suffix in ["pay", "depay"] {
            let f = select_rtp_factory(suffix, FlowFormat::Audio, "L24", variant, &host).unwrap();
            assert!(factories.contains(&f));
            assert_eq!(f.ends_with('2'), variant == UdpVariant::V2);
        }
    }
    assert!(select_rtp_factory("pay", FlowFormat::Unspecified, "RAW", UdpVariant::V1, &host)
        .is_err());
}

// ---- user properties --------------------------------------------------------

fn props(fields: Vec<(&str, FieldValue)>) -> Properties {
    Properties {
        name: "properties".to_owned(),
        fields: fields
            .into_iter()
            .map(|(name, value)| Field { name: name.to_owned(), value })
            .collect(),
    }
}

#[test]
fn apply_properties_to_leaf_with_none_is_noop() {
    assert!(apply_properties_to_leaf(None, &[]).is_empty());
}

#[test]
fn apply_properties_to_leaf_with_empty_structure_is_noop() {
    let empty = props(vec![]);
    assert!(apply_properties_to_leaf(Some(&empty), &[]).is_empty());
}

#[test]
fn apply_properties_to_leaf_sets_known_field() {
    let p = props(vec![("buffer-size", FieldValue::Int(26214400))]);
    let set = apply_properties_to_leaf(Some(&p), &[PropertyVerdict::Accepts]);
    assert_eq!(set.len(), 1);
    assert_eq!(set[0].name, "buffer-size");
    assert_eq!(set[0].value, FieldValue::Int(26214400));
}

#[test]
fn apply_properties_to_leaf_skips_unknown_field_but_applies_known_fields() {
    let p = props(vec![
        ("definitely-not-a-property", FieldValue::Boolean(true)),
        ("buffer-size", FieldValue::Int(26214400)),
    ]);
    let verdicts = [PropertyVerdict::Unknown, PropertyVerdict::Accepts];
    let set = apply_properties_to_leaf(Some(&p), &verdicts);
    assert_eq!(set.len(), 1);
    assert_eq!(set[0].name, "buffer-size");
    assert_eq!(set[0].value, FieldValue::Int(26214400));
}

#[test]
fn apply_properties_to_leaf_skips_type_mismatch() {
    let p = props(vec![("buffer-size", FieldValue::Text("foo".to_owned()))]);
    assert!(apply_properties_to_leaf(Some(&p), &[PropertyVerdict::TypeMismatch]).is_empty());
}

#[test]
fn nmossink_transport_properties_apply_to_udpsink_on_chain_build() {
    let plan = udpsink(&minimal_udp_media(), UdpVariant::V1, None, &stock())
        .expect("udp sink chain must construct");
    let p = props(vec![
        ("buffer-size", FieldValue::Int(26214400)),
        ("auto-multicast", FieldValue::Boolean(false)),
    ]);
    assert_eq!(transport(&plan).name, "nmossink-udpsink");
    let verdicts = [PropertyVerdict::Accepts, PropertyVerdict::Accepts];
    let set = apply_properties_to_leaf(Some(&p), &verdicts);
    assert_eq!(set[0].value, FieldValue::Int(26214400));
    assert_eq!(set[1].value, FieldValue::Boolean(false));
}

#[test]
fn nmossink_pay_properties_apply_to_payloader_on_chain_build() {
    let plan = udpsink(&minimal_udp_media(), UdpVariant::V1, None, &stock())
        .expect("udp sink chain must construct");
    let p = props(vec![("perfect-rtptime", FieldValue::Boolean(false))]);
    assert_eq!(codec(&plan).name, "nmossink-payloader");
    assert!(!ignores_codec_properties(&plan, Some(&p)));
    let set = apply_properties_to_leaf(Some(&p), &[PropertyVerdict::Accepts]);
    assert_eq!(set.len(), 1);
    assert_eq!(set[0].name, "perfect-rtptime");
    assert_eq!(set[0].value, FieldValue::Boolean(false));
}

#[test]
fn nmossrc_depay_properties_apply_to_depayloader_on_chain_build() {
    let plan = udpsrc(&minimal_udp_media(), UdpVariant::V1, None, &stock())
        .expect("udp src chain must construct");
    let p = props(vec![("max-reorder", FieldValue::Int(200))]);
    assert_eq!(codec(&plan).name, "nmossrc-depayloader");
    assert!(!ignores_codec_properties(&plan, Some(&p)));
    let set = apply_properties_to_leaf(Some(&p), &[PropertyVerdict::Accepts]);
    assert_eq!(set.len(), 1);
    assert_eq!(set[0].name, "max-reorder");
    assert_eq!(set[0].value, FieldValue::Int(200));
}

#[test]
fn transport_properties_persist_across_simulated_reactivation() {
    let p = props(vec![("buffer-size", FieldValue::Int(26214400))]);
    let mut sets = Vec::new();
    for _ in 0..2 {
        let plan = udpsrc(&minimal_udp_media(), UdpVariant::V1, None, &stock())
            .expect("chain must construct");
        assert_eq!(transport(&plan).factory, "udpsrc");
        sets.push(apply_properties_to_leaf(Some(&p), &[PropertyVerdict::Accepts]));
    }
    assert_eq!(sets[0], sets[1]);
    assert_eq!(sets[1][0].value, FieldValue::Int(26214400));
}

#[test]
fn transport_properties_cleared_between_rebuilds_revert_to_factory_default() {
    let p = props(vec![("buffer-size", FieldValue::Int(26214400))]);
    let first = apply_properties_to_leaf(Some(&p), &[PropertyVerdict::Accepts]);
    assert_eq!(first[0].value, FieldValue::Int(26214400));
    let plan = udpsrc(&minimal_udp_media(), UdpVariant::V1, None, &stock())
        .expect("second chain must construct");
    assert!(property(transport(&plan), "buffer-size").is_none());
    assert!(apply_properties_to_leaf(None, &[]).is_empty());
}

#[test]
fn pay_properties_under_mxl_warns_once() {
    let factories = full();
    let host = Host { factories: &factories, interfaces: &[] };
    let plan = build_mxlsink("/tmp/domain", "00000000-0000-0000-0000-000000000099", &host)
        .expect("mxlsink chain must construct");
    let p = props(vec![("perfect-rtptime", FieldValue::Boolean(false))]);
    assert!(ignores_codec_properties(&plan, Some(&p)));
    assert!(!ignores_codec_properties(&plan, None));
}

#[test]
fn real_chains_follow_the_transport() {
    let factories = full();
    let interfaces = loopback();
    let host = Host { factories: &factories, interfaces: &interfaces };
    let none = LegAddresses { destination: None, interface: None };
    let mxl = TransportConfig::Mxl {
        domain_path: "/d".to_owned(),
        flow_id: "id".to_owned(),
        format: FlowFormat::Video,
        transport_file: None,
    };
    let p = props(vec![("x", FieldValue::Int(1))]);
    let absent = Err(PtimeFault::NotANumber);
    let sink =
        build_real_sink(&mxl, Some(&p), absent, none, &host, Err(ChainError::EmptyRtpCaps)).unwrap();
    assert_eq!(transport(&sink.chain).factory, "mxlsink");
    assert!(sink.codec_properties_ignored);
    let media = minimal_udp_media();
    let leg = addresses(&media);
    let udp = TransportConfig::Udp { variant: UdpVariant::V1, media, transport_file: None };
    let source =
        build_real_src(&udp, None, None, leg, &host, Err(ChainError::EmptyRtpCaps)).unwrap();
    assert_eq!(transport(&source.chain).factory, "udpsrc");
    assert!(!source.codec_properties_ignored);
    let nvds = TransportConfig::NvDsUdp { media: minimal_udp_media(), transport_file: None };
    let err = build_real_src(&nvds, None, None, leg, &host, Err(ChainError::UnspecifiedFormat));
    assert!(matches!(err, Err(ChainError::UnspecifiedFormat)));
}
