//! The inner chains of the sender and receiver elements: which elements they are made of,
//! and how they are told apart.

use crate::caps::{Caps, CapsModel, Field, FieldModel};
use crate::chain::{
    element, no_settings, optional_setting, pair, put, put_optional, single, ChainModel, ChainPlan,
    ElementModel, ElementPlan, Setting, SettingModel, SettingValue,
};
use crate::iface::{
    bound_interface_is_the_first, first_bound, iface_name_for_ip, InterfaceAddress, IpAddress,
    LocalAddress,
};
use crate::session::{Properties, TransportConfig, UdpLeg, UdpMedia, UdpVariant};
use crate::text::{
    around, beginnings_and_ends, ends_with, eq_ignore_ascii_case, first_position_is_least,
    has_suffix, joined, lower_ascii, position_of, put_together_in_order, put_together_says,
    same_ignoring_ascii_case, same_text, says, says_at, says_in_order, signed_decimal,
    signed_decimal_text,
};
use crate::types::{format_word, FlowFormat};
use vstd::prelude::*;

verus! {

/// What the host offers: the names of the element factories that are installed, and the
/// addresses of its network interfaces.
#[derive(Debug, Clone, Copy)]
pub struct Host<'a> {
    pub factories: &'a [String],
    pub interfaces: &'a [InterfaceAddress],
}

impl<'a> Host<'a> {
    pub open spec fn has(&self, factory: Seq<char>) -> bool {
        exists|i: int| 0 <= i < self.factories@.len() && (#[trigger] self.factories@[i])@ == factory
    }

    /// Whether an element factory is installed.
    pub fn has_factory(&self, factory: &str) -> (r: bool)
        ensures
            r == self.has(factory@),
    {
        proof {
            first_position_is_least(self.factories@, factory@);
        }
        position_of(self.factories, factory).is_some()
    }
}

/// The addresses that a leg's texts stand for, where they stand for any.
#[derive(Debug, Clone, Copy, PartialEq, Eq)]
pub struct LegAddresses {
    pub destination: Option<IpAddress>,
    pub interface: Option<IpAddress>,
}

/// Why the text of a packet time is none.
#[derive(Debug, Clone, Copy, PartialEq, Eq, Structural)]
pub enum PtimeFault {
    /// It is not a number.
    NotANumber,
    /// It is not a finite number above zero.
    NotPositive,
    /// It is too long for nanoseconds in 64 bits.
    TooLong,
}

/// Why a chain could not be planned.
#[derive(Debug)]
#[allow(inconsistent_fields)]
pub enum ChainError {
    EmptyRtpCaps,
    MissingEncodingName,
    MissingPayload,
    PayloadTypeOutOfRange(i32),
    BadPtime { ptime: String, fault: PtimeFault },
    UnsupportedEssence { suffix: String, format: FlowFormat, encoding_name: String },
    /// An RTP element is not installed, and the package that has it.
    MissingRtpFactory { factory: String, package: &'static str },
    MissingMxlFactory(&'static str),
    UnspecifiedFormat,
}

pub enum ChainErrorModel {
    EmptyRtpCaps,
    MissingEncodingName,
    MissingPayload,
    PayloadTypeOutOfRange(i32),
    BadPtime(Seq<char>, PtimeFault),
    UnsupportedEssence(Seq<char>, FlowFormat, Seq<char>),
    MissingRtpFactory(Seq<char>, Seq<char>),
    MissingMxlFactory(Seq<char>),
    UnspecifiedFormat,
}

impl DeepView for ChainError {
    type V = ChainErrorModel;

    open spec fn deep_view(&self) -> ChainErrorModel {
        match self {
            ChainError::EmptyRtpCaps => ChainErrorModel::EmptyRtpCaps,
            ChainError::MissingEncodingName => ChainErrorModel::MissingEncodingName,
            ChainError::MissingPayload => ChainErrorModel::MissingPayload,
            ChainError::PayloadTypeOutOfRange(pt) => ChainErrorModel::PayloadTypeOutOfRange(*pt),
            ChainError::BadPtime { ptime, fault } => ChainErrorModel::BadPtime(ptime@, *fault),
            ChainError::UnsupportedEssence {
                suffix,
                format,
                encoding_name,
            } => ChainErrorModel::UnsupportedEssence(suffix@, *format, encoding_name@),
            ChainError::MissingRtpFactory {
                factory,
                package,
            } => ChainErrorModel::MissingRtpFactory(factory@, package@),
            ChainError::MissingMxlFactory(name) => ChainErrorModel::MissingMxlFactory(name@),
            ChainError::UnspecifiedFormat => ChainErrorModel::UnspecifiedFormat,
        }
    }
}

impl ChainErrorModel {
    /// The wording of the error, with `cause` for what was said of a field that could not be
    /// read.
    pub open spec fn text(self, cause: Seq<char>) -> Seq<char> {
        match self {
            ChainErrorModel::EmptyRtpCaps => "UdpMedia.rtp_caps is empty (no structure(0))"@,
            ChainErrorModel::MissingEncodingName => "UdpMedia.rtp_caps missing `encoding-name`: "@
                + cause,
            ChainErrorModel::MissingPayload => "UdpMedia.rtp_caps missing `payload` field: "@
                + cause,
            ChainErrorModel::PayloadTypeOutOfRange(pt) => "UdpMedia.rtp_caps `payload`="@ + signed_decimal(
                pt as int,
            ) + " out of valid RTP payload-type range 0..=127"@,
            ChainErrorModel::BadPtime(ptime, PtimeFault::NotANumber) => "parsing a-ptime=`"@ + ptime
                + "` as milliseconds"@,
            ChainErrorModel::BadPtime(ptime, PtimeFault::NotPositive) => "a-ptime=`"@ + ptime
                + "` ms must be a finite positive value"@,
            ChainErrorModel::BadPtime(ptime, PtimeFault::TooLong) => "a-ptime=`"@ + ptime
                + "` ms overflows i64 nanoseconds"@,
            ChainErrorModel::UnsupportedEssence(suffix, format, encoding_name) =>
                "unsupported essence for UDP/RTP `"@ + suffix + "`: format="@ + format_word(format)
                    + ", encoding-name=`"@ + encoding_name
                    + "` (today RFC 4175 `RAW` video, ST 2110-30 `L24` / `L16` audio, and RFC 8331 / ST 2110-40 `SMPTE291` ANC are supported)"@,
            ChainErrorModel::MissingRtpFactory(factory, package) => "GStreamer factory `"@ + factory
                + "` not found; install `"@ + package
                + "` and ensure it's on `GST_PLUGIN_PATH`"@,
            ChainErrorModel::MissingMxlFactory(factory) => "GStreamer factory `"@ + factory
                + "` not found; load the `gst-mxl-rs` plugin (set GST_PLUGIN_PATH to the directory containing `libgstmxl.so` and LD_LIBRARY_PATH so the MXL runtime libraries are visible)"@,
            ChainErrorModel::UnspecifiedFormat => "build_mxlsrc called with FlowFormat::Unspecified; caller should have built a fake chain"@,
        }
    }
}

impl ChainError {
    /// The field of the RTP caps that could not be read, where that is the error.
    pub fn unreadable_field(&self) -> (r: Option<&'static str>)
        ensures
            r.deep_view() == match self.deep_view() {
                ChainErrorModel::MissingEncodingName => Some("encoding-name"@),
                ChainErrorModel::MissingPayload => Some("payload"@),
                _ => None,
            },
    {
        match self {
            ChainError::MissingEncodingName => Some("encoding-name"),
            ChainError::MissingPayload => Some("payload"),
            _ => None,
        }
    }

    /// What is said of the error, with `cause` for what was said of a field that could not be
    /// read.
    pub fn message(&self, cause: &str) -> (r: String)
        ensures
            r@ == self.deep_view().text(cause@),
    {
        match self {
            ChainError::EmptyRtpCaps => "UdpMedia.rtp_caps is empty (no structure(0))".to_owned(),
            ChainError::MissingEncodingName => joined(
                "UdpMedia.rtp_caps missing `encoding-name`: ",
                cause,
            ),
            ChainError::MissingPayload => joined(
                "UdpMedia.rtp_caps missing `payload` field: ",
                cause,
            ),
            ChainError::PayloadTypeOutOfRange(pt) => around(
                "UdpMedia.rtp_caps `payload`=",
                signed_decimal_text(*pt).as_str(),
                " out of valid RTP payload-type range 0..=127",
            ),
            ChainError::BadPtime { ptime, fault } => match fault {
                PtimeFault::NotANumber => around(
                    "parsing a-ptime=`",
                    ptime.as_str(),
                    "` as milliseconds",
                ),
                PtimeFault::NotPositive => around(
                    "a-ptime=`",
                    ptime.as_str(),
                    "` ms must be a finite positive value",
                ),
                PtimeFault::TooLong => around(
                    "a-ptime=`",
                    ptime.as_str(),
                    "` ms overflows i64 nanoseconds",
                ),
            },
            ChainError::UnsupportedEssence { suffix, format, encoding_name } => {
                let mut r = around(
                    "unsupported essence for UDP/RTP `",
                    suffix.as_str(),
                    "`: format=",
                );
                r.append(format.word());
                r.append(", encoding-name=`");
                r.append(encoding_name.as_str());
                r.append(
                    "` (today RFC 4175 `RAW` video, ST 2110-30 `L24` / `L16` audio, and RFC 8331 / ST 2110-40 `SMPTE291` ANC are supported)",
                );
                r
            },
            ChainError::MissingRtpFactory { factory, package } => {
                let mut r = around(
                    "GStreamer factory `",
                    factory.as_str(),
                    "` not found; install `",
                );
                r.append(package);
                r.append("` and ensure it's on `GST_PLUGIN_PATH`");
                r
            },
            ChainError::MissingMxlFactory(factory) => around(
                "GStreamer factory `",
                factory,
                "` not found; load the `gst-mxl-rs` plugin (set GST_PLUGIN_PATH to the directory containing `libgstmxl.so` and LD_LIBRARY_PATH so the MXL runtime libraries are visible)",
            ),
            ChainError::UnspecifiedFormat => "build_mxlsrc called with FlowFormat::Unspecified; caller should have built a fake chain".to_owned(),
        }
    }
}

// ---- fake chains ------------------------------------------------------------

/// The sender's fake chain: a sink that drops everything, behind a caps filter where the
/// essence caps are known.
pub open spec fn fake_sink(caps: Option<CapsModel>) -> ChainModel {
    let settings = seq![
        ("sync"@, SettingModel::Boolean(true)),
        ("async"@, SettingModel::Boolean(false)),
    ];
    match caps {
        None => ChainModel {
            bin: None,
            elements: seq![
                ElementModel { factory: "fakesink"@, name: "nmossink-fake"@, settings },
            ],
            transport: 0,
            codec: None,
        },
        Some(c) => ChainModel {
            bin: Some("nmossink-fake"@),
            elements: seq![
                ElementModel {
                    factory: "capsfilter"@,
                    name: "nmossink-fake-caps"@,
                    settings: seq![("caps"@, SettingModel::Caps(c))],
                },
                ElementModel { factory: "fakesink"@, name: "nmossink-fakesink"@, settings },
            ],
            transport: 1,
            codec: None,
        },
    }
}

/// Build the sender's fake chain, so that the element looks valid in the pipeline before
/// configuration is complete. The `-fake` suffix of its name is what
/// [`current_chain_is_real`] goes by.
pub fn build_fake_sink(caps: Option<&Caps>) -> (plan: ChainPlan)
    ensures
        plan.deep_view() == fake_sink(caps.deep_view()),
{
    let mut settings = no_settings();
    put(&mut settings, "sync", SettingValue::Boolean(true));
    put(&mut settings, "async", SettingValue::Boolean(false));
    assert(settings.deep_view() =~= seq![
        ("sync"@, SettingModel::Boolean(true)),
        ("async"@, SettingModel::Boolean(false)),
    ]);
    match caps {
        None => single(element("fakesink", "nmossink-fake", settings)),
        Some(c) => {
            let mut filter = no_settings();
            put(&mut filter, "caps", SettingValue::Caps(c.copy()));
            assert(filter.deep_view() =~= seq![("caps"@, SettingModel::Caps(c.deep_view()))]);
            pair(
                "nmossink-fake",
                element("capsfilter", "nmossink-fake-caps", filter),
                element("fakesink", "nmossink-fakesink", settings),
                1,
                None,
            )
        },
    }
}

/// The receiver's fake chain: a live source that never produces anything, which answers
/// caps queries where the essence caps are known.
pub open spec fn fake_src(caps: Option<CapsModel>) -> ChainModel {
    let settings = seq![
        ("is-live"@, SettingModel::Boolean(true)),
        ("format"@, SettingModel::Nick("time"@)),
    ] + optional_setting(
        "caps"@,
        match caps {
            Some(c) => Some(SettingModel::Caps(c)),
            None => None,
        },
    );
    ChainModel {
        bin: None,
        elements: seq![ElementModel { factory: "appsrc"@, name: "nmossrc-fake"@, settings }],
        transport: 0,
        codec: None,
    }
}

/// Build the receiver's fake chain. Without caps, downstream negotiation against a
/// discriminating peer fails; callers give caps whenever they have any.
pub fn build_fake_src(caps: Option<&Caps>) -> (plan: ChainPlan)
    ensures
        plan.deep_view() == fake_src(caps.deep_view()),
{
    let mut settings = no_settings();
    put(&mut settings, "is-live", SettingValue::Boolean(true));
    put(&mut settings, "format", SettingValue::Nick("time"));
    assert(settings.deep_view() =~= seq![
        ("is-live"@, SettingModel::Boolean(true)),
        ("format"@, SettingModel::Nick("time"@)),
    ]);
    let value: Option<SettingValue> = match caps {
        Some(c) => Some(SettingValue::Caps(c.copy())),
        None => None,
    };
    put_optional(&mut settings, "caps", value);
    single(element("appsrc", "nmossrc-fake", settings))
}

/// A chain of the given name is a real one.
pub open spec fn is_real(chain: Option<Seq<char>>) -> bool {
    match chain {
        Some(name) => !has_suffix(name, "-fake"@),
        None => false,
    }
}

/// Whether the chain behind the anchor is a real one, identified by the absence of the
/// `-fake` suffix on its name. `chain` is `None` where the chain cannot be resolved: the
/// caller then falls through to a single swap.
pub fn current_chain_is_real(chain: Option<&str>) -> (r: bool)
    ensures
        r == is_real(chain.deep_view()),
{
    match chain {
        Some(name) => !ends_with(name, "-fake"),
        None => false,
    }
}

// ---- MXL chains -------------------------------------------------------------

pub open spec fn mxl_sink(domain_path: Seq<char>, flow_id: Seq<char>) -> ChainModel {
    ChainModel {
        bin: None,
        elements: seq![
            ElementModel {
                factory: "mxlsink"@,
                name: "nmossink-mxl"@,
                settings: seq![
                    ("domain"@, SettingModel::Text(domain_path)),
                    ("flow-id"@, SettingModel::Text(flow_id)),
                    ("async"@, SettingModel::Boolean(false)),
                ],
            },
        ],
        transport: 0,
        codec: None,
    }
}

/// Build the inner `mxlsink`. `async=false` lets its state change complete while the
/// anchor is blocked.
pub fn build_mxlsink(domain_path: &str, flow_id: &str, host: &Host<'_>) -> (r: Result<
    ChainPlan,
    ChainError,
>)
    ensures
        match r {
            Ok(plan) => host.has("mxlsink"@) && plan.deep_view() == mxl_sink(
                domain_path@,
                flow_id@,
            ),
            Err(e) => !host.has("mxlsink"@) && e.deep_view() == ChainErrorModel::MissingMxlFactory(
                "mxlsink"@,
            ),
        },
{
    if !host.has_factory("mxlsink") {
        return Err(ChainError::MissingMxlFactory("mxlsink"));
    }
    let mut settings = no_settings();
    put(&mut settings, "domain", SettingValue::Text(domain_path.to_owned()));
    put(&mut settings, "flow-id", SettingValue::Text(flow_id.to_owned()));
    put(&mut settings, "async", SettingValue::Boolean(false));
    assert(settings.deep_view() =~= seq![
        ("domain"@, SettingModel::Text(domain_path@)),
        ("flow-id"@, SettingModel::Text(flow_id@)),
        ("async"@, SettingModel::Boolean(false)),
    ]);
    Ok(single(element("mxlsink", "nmossink-mxl", settings)))
}

/// Which property of `mxlsrc` takes the flow id.
pub open spec fn flow_id_property(format: FlowFormat) -> Option<Seq<char>> {
    match format {
        FlowFormat::Video => Some("video-flow-id"@),
        FlowFormat::Audio => Some("audio-flow-id"@),
        FlowFormat::Data => Some("data-flow-id"@),
        FlowFormat::Unspecified => None,
    }
}

pub open spec fn capssetter(caps: CapsModel) -> ElementModel {
    ElementModel {
        factory: "capssetter"@,
        name: "nmossrc-caps"@,
        settings: seq![("caps"@, SettingModel::Caps(caps))],
    }
}

pub open spec fn mxl_src(
    domain_path: Seq<char>,
    property: Seq<char>,
    flow_id: Seq<char>,
    caps: Option<CapsModel>,
) -> ChainModel {
    let mxlsrc = ElementModel {
        factory: "mxlsrc"@,
        name: "nmossrc-mxl"@,
        settings: seq![
            ("domain"@, SettingModel::Text(domain_path)),
            (property, SettingModel::Text(flow_id)),
        ],
    };
    match caps {
        None => ChainModel { bin: None, elements: seq![mxlsrc], transport: 0, codec: None },
        Some(c) => ChainModel {
            bin: Some("nmossrc-inner"@),
            elements: seq![mxlsrc, capssetter(c)],
            transport: 0,
            codec: None,
        },
    }
}

fn capssetter_element(caps: &Caps) -> (r: ElementPlan)
    ensures
        r.deep_view() == capssetter(caps.deep_view()),
{
    let mut settings = no_settings();
    put(&mut settings, "caps", SettingValue::Caps(caps.copy()));
    assert(settings.deep_view() =~= seq![("caps"@, SettingModel::Caps(caps.deep_view()))]);
    element("capssetter", "nmossrc-caps", settings)
}

/// Build the inner `mxlsrc`. The format picks which property receives the flow id. With
/// `advertise_caps`, a `capssetter` behind it makes downstream caps queries see the
/// concrete essence caps that the flow will carry.
pub fn build_mxlsrc(
    domain_path: &str,
    flow_id: &str,
    format: FlowFormat,
    advertise_caps: Option<&Caps>,
    host: &Host<'_>,
) -> (r: Result<ChainPlan, ChainError>)
    ensures
        match r {
            Ok(plan) => host.has("mxlsrc"@) && flow_id_property(format) is Some && plan.deep_view()
                == mxl_src(
                domain_path@,
                flow_id_property(format)->0,
                flow_id@,
                advertise_caps.deep_view(),
            ),
            Err(e) => if !host.has("mxlsrc"@) {
                e.deep_view() == ChainErrorModel::MissingMxlFactory("mxlsrc"@)
            } else {
                flow_id_property(format) is None && e.deep_view()
                    == ChainErrorModel::UnspecifiedFormat
            },
        },
{
    if !host.has_factory("mxlsrc") {
        return Err(ChainError::MissingMxlFactory("mxlsrc"));
    }
    let property: &'static str = match format {
        FlowFormat::Video => "video-flow-id",
        FlowFormat::Audio => "audio-flow-id",
        FlowFormat::Data => "data-flow-id",
        FlowFormat::Unspecified => {
            return Err(ChainError::UnspecifiedFormat);
        },
    };
    let mut settings = no_settings();
    put(&mut settings, "domain", SettingValue::Text(domain_path.to_owned()));
    put(&mut settings, property, SettingValue::Text(flow_id.to_owned()));
    assert(settings.deep_view() =~= seq![
        ("domain"@, SettingModel::Text(domain_path@)),
        (property@, SettingModel::Text(flow_id@)),
    ]);
    let mxlsrc = element("mxlsrc", "nmossrc-mxl", settings);
    match advertise_caps {
        None => Ok(single(mxlsrc)),
        Some(caps) => Ok(pair("nmossrc-inner", mxlsrc, capssetter_element(caps), 0, None)),
    }
}

// ---- RTP factories ----------------------------------------------------------

/// The stem of the RTP element names for an essence.
pub open spec fn rtp_stem(format: FlowFormat, encoding_name: Seq<char>) -> Option<Seq<char>> {
    match format {
        FlowFormat::Video => if same_ignoring_ascii_case(encoding_name, "RAW"@) {
            Some("rtpvraw"@)
        } else {
            None
        },
        FlowFormat::Audio => if same_ignoring_ascii_case(encoding_name, "L24"@) {
            Some("rtpL24"@)
        } else if same_ignoring_ascii_case(encoding_name, "L16"@) {
            Some("rtpL16"@)
        } else {
            None
        },
        FlowFormat::Data => if same_ignoring_ascii_case(encoding_name, "SMPTE291"@) {
            Some("rtpsmpte291"@)
        } else {
            None
        },
        FlowFormat::Unspecified => None,
    }
}

pub open spec fn package_of(stem: Seq<char>) -> Seq<char> {
    if stem == "rtpsmpte291"@ {
        "gst-plugins-rs (`rsrtp` plugin)"@
    } else {
        "gst-plugins-good"@
    }
}

/// Best-guess package hint for a missing factory.
pub fn package_hint_for_stem(stem: &str) -> (r: &'static str)
    ensures
        r@ == package_of(stem@),
{
    if same_text(stem, "rtpsmpte291") {
        "gst-plugins-rs (`rsrtp` plugin)"
    } else {
        "gst-plugins-good"
    }
}

/// The RTP element for an essence, or why there is none.
pub open spec fn rtp_factory(
    suffix: Seq<char>,
    format: FlowFormat,
    encoding_name: Seq<char>,
    variant: UdpVariant,
    host: Host<'_>,
) -> Result<Seq<char>, ChainErrorModel> {
    match rtp_stem(format, encoding_name) {
        None => Err(ChainErrorModel::UnsupportedEssence(suffix, format, encoding_name)),
        Some(stem) => {
            let v1 = stem + suffix;
            let v2 = v1 + "2"@;
            if !host.has(v1) {
                Err(ChainErrorModel::MissingRtpFactory(v1, package_of(stem)))
            } else if variant == UdpVariant::V2 && host.has(v2) {
                Ok(v2)
            } else {
                Ok(v1)
            }
        },
    }
}

/// Pick the RTP element for an essence. `suffix` is `"pay"` for senders or `"depay"` for
/// receivers. The second variant is used where it is installed, the first one otherwise.
pub fn select_rtp_factory(
    suffix: &str,
    format: FlowFormat,
    encoding_name: &str,
    variant: UdpVariant,
    host: &Host<'_>,
) -> (r: Result<String, ChainError>)
    ensures
        match r {
            Ok(factory) => rtp_factory(suffix@, format, encoding_name@, variant, *host) == Ok::<
                _,
                ChainErrorModel,
            >(factory@),
            Err(e) => rtp_factory(suffix@, format, encoding_name@, variant, *host) == Err::<
                Seq<char>,
                _,
            >(e.deep_view()),
        },
{
    let stem: Option<&'static str> = match format {
        FlowFormat::Video => if eq_ignore_ascii_case(encoding_name, "RAW") {
            Some("rtpvraw")
        } else {
            None
        },
        FlowFormat::Audio => if eq_ignore_ascii_case(encoding_name, "L24") {
            Some("rtpL24")
        } else if eq_ignore_ascii_case(encoding_name, "L16") {
            Some("rtpL16")
        } else {
            None
        },
        FlowFormat::Data => if eq_ignore_ascii_case(encoding_name, "SMPTE291") {
            Some("rtpsmpte291")
        } else {
            None
        },
        FlowFormat::Unspecified => None,
    };
    let stem: &'static str = match stem {
        Some(s) => s,
        None => {
            return Err(
                ChainError::UnsupportedEssence {
                    suffix: suffix.to_owned(),
                    format,
                    encoding_name: encoding_name.to_owned(),
                },
            );
        },
    };
    let v1 = joined(stem, suffix);
    if !host.has_factory(v1.as_str()) {
        return Err(
            ChainError::MissingRtpFactory { factory: v1, package: package_hint_for_stem(stem) },
        );
    }
    if variant == UdpVariant::V2 {
        let v2 = joined(v1.as_str(), "2");
        if host.has_factory(v2.as_str()) {
            return Ok(v2);
        }
    }
    Ok(v1)
}

pub open spec fn udpsrc_factory(variant: UdpVariant, host: Host<'_>) -> Seq<char> {
    if variant == UdpVariant::V2 && host.has("udpsrc2"@) {
        "udpsrc2"@
    } else {
        "udpsrc"@
    }
}

/// Pick the `udpsrc` element: `udpsrc2` where the second variant is asked for and
/// installed.
pub fn select_udpsrc_factory(variant: UdpVariant, host: &Host<'_>) -> (r: &'static str)
    ensures
        r@ == udpsrc_factory(variant, *host),
{
    if variant == UdpVariant::V2 && host.has_factory("udpsrc2") {
        "udpsrc2"
    } else {
        "udpsrc"
    }
}

// ---- RTP chains -------------------------------------------------------------

pub open spec fn to_multicast(addresses: LegAddresses) -> bool {
    addresses.destination matches Some(a) && a.multicast()
}

/// The interface to pin: that of the leg's interface address, for a multicast
/// destination.
pub open spec fn multicast_iface(addresses: LegAddresses, host: Host<'_>) -> Option<Seq<char>> {
    if to_multicast(addresses) {
        match addresses.interface {
            Some(a) => first_bound(host.interfaces@, a),
            None => None,
        }
    } else {
        None
    }
}

/// Resolve the interface name to set on `multicast-iface`, when the destination is
/// multicast and the interface address is bound on a local NIC.
pub fn multicast_iface_name(addresses: LegAddresses, host: &Host<'_>) -> (r: Option<String>)
    ensures
        r.deep_view() == multicast_iface(addresses, *host),
{
    match addresses.destination {
        Some(a) => if !a.is_multicast() {
            return None;
        },
        None => {
            return None;
        },
    }
    match addresses.interface {
        Some(a) => match iface_name_for_ip(host.interfaces, a) {
            Some(name) => Some(name.clone()),
            None => None,
        },
        None => None,
    }
}

fn text_setting(text: Option<String>) -> (r: Option<SettingValue>)
    ensures
        r.deep_view() == match text {
            Some(t) => Some(SettingModel::Text(t@)),
            None => None,
        },
{
    match text {
        Some(t) => Some(SettingValue::Text(t)),
        None => None,
    }
}

pub open spec fn optional_text(text: Option<Seq<char>>) -> Option<SettingModel> {
    match text {
        Some(t) => Some(SettingModel::Text(t)),
        None => None,
    }
}

pub open spec fn udpsink_settings(leg: UdpLeg, iface: Option<Seq<char>>) -> Seq<
    (Seq<char>, SettingModel),
> {
    seq![
        ("host"@, SettingModel::Text(leg.destination_ip@)),
        ("port"@, SettingModel::Int(leg.destination_port as i32)),
        ("async"@, SettingModel::Boolean(false)),
    ] + optional_setting(
        "bind-port"@,
        match leg.source_port {
            Some(p) => Some(SettingModel::Int(p as i32)),
            None => None,
        },
    ) + optional_setting("bind-address"@, optional_text(leg.interface_ip.deep_view()))
        + optional_setting("multicast-iface"@, optional_text(iface))
}

/// The packet time to pin: only audio has one, and only where its caps give it. `parsed`
/// is the `a-ptime` text read as a positive number of milliseconds, in nanoseconds, or why it
/// is no such number.
pub open spec fn pinned_ptime(media: UdpMedia, parsed: Result<i64, PtimeFault>) -> Result<
    Option<i64>,
    ChainErrorModel,
> {
    let ptime = match media.rtp_caps.deep_view().first() {
        Some(s) => s.text_field("a-ptime"@),
        None => None,
    };
    match ptime {
        Some(text) if media.format == FlowFormat::Audio => match parsed {
            Ok(ns) => Ok(Some(ns)),
            Err(fault) => Err(ChainErrorModel::BadPtime(text, fault)),
        },
        _ => Ok(None),
    }
}

pub open spec fn payloader_settings(pt: i32, ptime: Option<i64>) -> Seq<(Seq<char>, SettingModel)> {
    let value = match ptime {
        Some(ns) => Some(SettingModel::Int64(ns)),
        None => None,
    };
    seq![("pt"@, SettingModel::UInt(pt as u32))] + optional_setting("min-ptime"@, value)
        + optional_setting("max-ptime"@, value)
}

/// The sender's RTP chain, or why there is none.
pub open spec fn udp_sink(
    media: UdpMedia,
    variant: UdpVariant,
    parsed_ptime: Result<i64, PtimeFault>,
    addresses: LegAddresses,
    host: Host<'_>,
) -> Result<ChainModel, ChainErrorModel> {
    match media.rtp_caps.deep_view().first() {
        None => Err(ChainErrorModel::EmptyRtpCaps),
        Some(s) => match (s.text_field("encoding-name"@), s.int_field("payload"@)) {
            (None, _) => Err(ChainErrorModel::MissingEncodingName),
            (_, None) => Err(ChainErrorModel::MissingPayload),
            (Some(encoding_name), Some(pt)) => if !(0 <= pt <= 127) {
                Err(ChainErrorModel::PayloadTypeOutOfRange(pt))
            } else {
                match pinned_ptime(media, parsed_ptime) {
                    Err(e) => Err(e),
                    Ok(ptime) => match rtp_factory(
                        "pay"@,
                        media.format,
                        encoding_name,
                        variant,
                        host,
                    ) {
                        Err(e) => Err(e),
                        Ok(factory) => Ok(
                            ChainModel {
                                bin: Some("nmossink-udp"@),
                                elements: seq![
                                    ElementModel {
                                        factory,
                                        name: "nmossink-payloader"@,
                                        settings: payloader_settings(pt, ptime),
                                    },
                                    ElementModel {
                                        factory: "udpsink"@,
                                        name: "nmossink-udpsink"@,
                                        settings: udpsink_settings(
                                            media.primary,
                                            multicast_iface(addresses, host),
                                        ),
                                    },
                                ],
                                transport: 1,
                                codec: Some(0),
                            },
                        ),
                    },
                }
            },
        },
    }
}

fn udpsink_element(leg: &UdpLeg, iface: Option<String>) -> (r: ElementPlan)
    ensures
        r.deep_view() == (ElementModel {
            factory: "udpsink"@,
            name: "nmossink-udpsink"@,
            settings: udpsink_settings(*leg, iface.deep_view()),
        }),
{
    let mut settings = no_settings();
    put(&mut settings, "host", SettingValue::Text(leg.destination_ip.clone()));
    put(&mut settings, "port", SettingValue::Int(leg.destination_port as i32));
    put(&mut settings, "async", SettingValue::Boolean(false));
    assert(settings.deep_view() =~= seq![
        ("host"@, SettingModel::Text(leg.destination_ip@)),
        ("port"@, SettingModel::Int(leg.destination_port as i32)),
        ("async"@, SettingModel::Boolean(false)),
    ]);
    let bind_port: Option<SettingValue> = match leg.source_port {
        Some(p) => Some(SettingValue::Int(p as i32)),
        None => None,
    };
    put_optional(&mut settings, "bind-port", bind_port);
    put_optional(&mut settings, "bind-address", text_setting(leg.interface_ip.clone()));
    put_optional(&mut settings, "multicast-iface", text_setting(iface));
    element("udpsink", "nmossink-udpsink", settings)
}

fn payloader_element(factory: &str, pt: i32, ptime: Option<i64>) -> (r: ElementPlan)
    requires
        0 <= pt,
    ensures
        r.deep_view() == (ElementModel {
            factory: factory@,
            name: "nmossink-payloader"@,
            settings: payloader_settings(pt, ptime),
        }),
{
    let mut settings = no_settings();
    put(&mut settings, "pt", SettingValue::UInt(pt as u32));
    assert(settings.deep_view() =~= seq![("pt"@, SettingModel::UInt(pt as u32))]);
    let low: Option<SettingValue> = match ptime {
        Some(ns) => Some(SettingValue::Int64(ns)),
        None => None,
    };
    let high: Option<SettingValue> = match ptime {
        Some(ns) => Some(SettingValue::Int64(ns)),
        None => None,
    };
    put_optional(&mut settings, "min-ptime", low);
    put_optional(&mut settings, "max-ptime", high);
    element(factory, "nmossink-payloader", settings)
}

/// Build the sender's RTP chain: a payloader and a `udpsink`. The payload type and, for
/// audio, the packet time come from the RTP caps, so that the wire matches what the
/// session description advertises.
pub fn build_udpsink(
    media: &UdpMedia,
    variant: UdpVariant,
    parsed_ptime: Result<i64, PtimeFault>,
    addresses: LegAddresses,
    host: &Host<'_>,
) -> (r: Result<ChainPlan, ChainError>)
    ensures
        match r {
            Ok(plan) => udp_sink(*media, variant, parsed_ptime, addresses, *host) == Ok::<
                _,
                ChainErrorModel,
            >(plan.deep_view()),
            Err(e) => udp_sink(*media, variant, parsed_ptime, addresses, *host) == Err::<
                ChainModel,
                _,
            >(e.deep_view()),
        },
{
    let s = match media.rtp_caps.first() {
        Some(s) => s,
        None => {
            return Err(ChainError::EmptyRtpCaps);
        },
    };
    let encoding_name = match s.get_text("encoding-name") {
        Some(n) => n,
        None => {
            return Err(ChainError::MissingEncodingName);
        },
    };
    let pt: i32 = match s.get_int("payload") {
        Some(n) => n,
        None => {
            return Err(ChainError::MissingPayload);
        },
    };
    if pt < 0 || pt > 127 {
        return Err(ChainError::PayloadTypeOutOfRange(pt));
    }
    let ptime_text: Option<&str> = if media.format == FlowFormat::Audio {
        s.get_text("a-ptime")
    } else {
        None
    };
    let ptime: Option<i64> = match ptime_text {
        None => None,
        Some(text) => match parsed_ptime {
            Ok(ns) => Some(ns),
            Err(fault) => {
                return Err(ChainError::BadPtime { ptime: text.to_owned(), fault });
            },
        },
    };
    let factory = match select_rtp_factory("pay", media.format, encoding_name, variant, host) {
        Ok(f) => f,
        Err(e) => {
            return Err(e);
        },
    };
    let iface = multicast_iface_name(addresses, host);
    Ok(
        pair(
            "nmossink-udp",
            payloader_element(factory.as_str(), pt, ptime),
            udpsink_element(&media.primary, iface),
            1,
            Some(0),
        ),
    )
}

/// How the source filter is given: `udpsrc2` has a property for it, `udpsrc` wants a sign
/// before the address.
pub open spec fn source_filter(second: bool, source_ip: Option<Seq<char>>, multicast: bool) -> Seq<
    (Seq<char>, SettingModel),
> {
    match source_ip {
        Some(ip) => if !multicast {
            Seq::empty()
        } else if second {
            seq![("source-filter"@, SettingModel::Text(ip))]
        } else {
            seq![("multicast-source"@, SettingModel::Text("+"@ + ip))]
        },
        None => Seq::empty(),
    }
}

pub open spec fn udpsrc_settings(
    leg: UdpLeg,
    rtp_caps: CapsModel,
    second: bool,
    iface: Option<Seq<char>>,
    multicast: bool,
) -> Seq<(Seq<char>, SettingModel)> {
    seq![
        ("address"@, SettingModel::Text(leg.destination_ip@)),
        ("caps"@, SettingModel::Caps(rtp_caps)),
        (
            "port"@,
            if second {
                SettingModel::UInt(leg.destination_port as u32)
            } else {
                SettingModel::Int(leg.destination_port as i32)
            },
        ),
    ] + optional_setting("multicast-iface"@, optional_text(iface)) + source_filter(
        second,
        leg.source_ip.deep_view(),
        multicast,
    )
}

/// The receiver's RTP chain, or why there is none.
pub open spec fn udp_src(
    media: UdpMedia,
    variant: UdpVariant,
    caps: Option<CapsModel>,
    addresses: LegAddresses,
    host: Host<'_>,
) -> Result<ChainModel, ChainErrorModel> {
    match media.rtp_caps.deep_view().first() {
        None => Err(ChainErrorModel::EmptyRtpCaps),
        Some(s) => match s.text_field("encoding-name"@) {
            None => Err(ChainErrorModel::MissingEncodingName),
            Some(encoding_name) => match rtp_factory(
                "depay"@,
                media.format,
                encoding_name,
                variant,
                host,
            ) {
                Err(e) => Err(e),
                Ok(factory) => {
                    let second = variant == UdpVariant::V2 && host.has("udpsrc2"@);
                    let front = seq![
                        ElementModel {
                            factory: udpsrc_factory(variant, host),
                            name: "nmossrc-udpsrc"@,
                            settings: udpsrc_settings(
                                media.primary,
                                media.rtp_caps.deep_view(),
                                second,
                                multicast_iface(addresses, host),
                                to_multicast(addresses),
                            ),
                        },
                        ElementModel {
                            factory,
                            name: "nmossrc-depayloader"@,
                            settings: Seq::empty(),
                        },
                    ];
                    Ok(
                        ChainModel {
                            bin: Some("nmossrc-udp"@),
                            elements: match caps {
                                Some(c) => front.push(capssetter(c)),
                                None => front,
                            },
                            transport: 0,
                            codec: Some(1),
                        },
                    )
                },
            },
        },
    }
}

fn udpsrc_element(
    factory: &str,
    second: bool,
    media: &UdpMedia,
    iface: Option<String>,
    multicast: bool,
) -> (r: ElementPlan)
    ensures
        r.deep_view() == (ElementModel {
            factory: factory@,
            name: "nmossrc-udpsrc"@,
            settings: udpsrc_settings(
                media.primary,
                media.rtp_caps.deep_view(),
                second,
                iface.deep_view(),
                multicast,
            ),
        }),
{
    let leg = &media.primary;
    let mut settings = no_settings();
    put(&mut settings, "address", SettingValue::Text(leg.destination_ip.clone()));
    put(&mut settings, "caps", SettingValue::Caps(media.rtp_caps.copy()));
    let port: SettingValue = if second {
        SettingValue::UInt(leg.destination_port as u32)
    } else {
        SettingValue::Int(leg.destination_port as i32)
    };
    put(&mut settings, "port", port);
    assert(settings.deep_view() =~= seq![
        ("address"@, SettingModel::Text(leg.destination_ip@)),
        ("caps"@, SettingModel::Caps(media.rtp_caps.deep_view())),
        (
            "port"@,
            if second {
                SettingModel::UInt(leg.destination_port as u32)
            } else {
                SettingModel::Int(leg.destination_port as i32)
            },
        ),
    ]);
    put_optional(&mut settings, "multicast-iface", text_setting(iface));
    let ghost before = settings.deep_view();
    match &leg.source_ip {
        Some(ip) => {
            if multicast {
                if second {
                    put(&mut settings, "source-filter", SettingValue::Text(ip.clone()));
                    assert(settings.deep_view() =~= before + seq![
                        ("source-filter"@, SettingModel::Text(ip@)),
                    ]);
                } else {
                    put(
                        &mut settings,
                        "multicast-source",
                        SettingValue::Text(joined("+", ip.as_str())),
                    );
                    assert(settings.deep_view() =~= before + seq![
                        ("multicast-source"@, SettingModel::Text("+"@ + ip@)),
                    ]);
                }
            }
        },
        None => {},
    }
    assert(before + Seq::<(Seq<char>, SettingModel)>::empty() =~= before);
    element(factory, "nmossrc-udpsrc", settings)
}

/// Build the receiver's RTP chain: a `udpsrc`, a depayloader and, with `advertise_caps`, a
/// `capssetter` that merges the advertised essence caps over whatever the depayloader
/// emits. The source filter applies to multicast destinations only.
pub fn build_udpsrc(
    media: &UdpMedia,
    variant: UdpVariant,
    advertise_caps: Option<&Caps>,
    addresses: LegAddresses,
    host: &Host<'_>,
) -> (r: Result<ChainPlan, ChainError>)
    ensures
        match r {
            Ok(plan) => udp_src(*media, variant, advertise_caps.deep_view(), addresses, *host)
                == Ok::<_, ChainErrorModel>(plan.deep_view()),
            Err(e) => udp_src(*media, variant, advertise_caps.deep_view(), addresses, *host)
                == Err::<ChainModel, _>(e.deep_view()),
        },
{
    let s = match media.rtp_caps.first() {
        Some(s) => s,
        None => {
            return Err(ChainError::EmptyRtpCaps);
        },
    };
    let encoding_name = match s.get_text("encoding-name") {
        Some(n) => n,
        None => {
            return Err(ChainError::MissingEncodingName);
        },
    };
    let depay = match select_rtp_factory("depay", media.format, encoding_name, variant, host) {
        Ok(f) => f,
        Err(e) => {
            return Err(e);
        },
    };
    let factory = select_udpsrc_factory(variant, host);
    let second: bool = variant == UdpVariant::V2 && host.has_factory("udpsrc2");
    let iface = multicast_iface_name(addresses, host);
    let multicast: bool = match addresses.destination {
        Some(a) => a.is_multicast(),
        None => false,
    };
    let udpsrc = udpsrc_element(factory, second, media, iface, multicast);
    let depayloader = element(depay.as_str(), "nmossrc-depayloader", no_settings());
    let mut plan = pair("nmossrc-udp", udpsrc, depayloader, 0, Some(1));
    if let Some(caps) = advertise_caps {
        let ghost before = plan.elements.deep_view();
        plan.elements.push(capssetter_element(caps));
        assert(plan.elements.deep_view() =~= before.push(capssetter(caps.deep_view())));
    }
    Ok(plan)
}

// ---- real chains ------------------------------------------------------------

/// A real chain, as an element builds it from a transport's configuration.
#[derive(Debug)]
pub struct RealChain {
    pub chain: ChainPlan,
    /// Payloader or depayloader properties were given, but the chain has no such element.
    pub codec_properties_ignored: bool,
    /// Settings of the transport element that are made after the user's own, where it has
    /// such properties.
    pub pinned: Vec<Setting>,
}

/// The chain of a sender's transport, or why there is none. The chain over `nvdsudpsink` is
/// given.
pub open spec fn real_sink(
    transport: TransportConfig,
    parsed_ptime: Result<i64, PtimeFault>,
    addresses: LegAddresses,
    host: Host<'_>,
    nvdsudp: Result<ChainModel, ChainErrorModel>,
) -> Result<ChainModel, ChainErrorModel> {
    match transport {
        TransportConfig::Mxl { domain_path, flow_id, .. } => if host.has("mxlsink"@) {
            Ok(mxl_sink(domain_path@, flow_id@))
        } else {
            Err(ChainErrorModel::MissingMxlFactory("mxlsink"@))
        },
        TransportConfig::Udp { variant, media, .. } => udp_sink(
            media,
            variant,
            parsed_ptime,
            addresses,
            host,
        ),
        TransportConfig::NvDsUdp { .. } => nvdsudp,
    }
}

/// The view of a plan, or of the reason for which there is none.
pub open spec fn plan_model(plan: Result<ChainPlan, ChainError>) -> Result<
    ChainModel,
    ChainErrorModel,
> {
    match plan {
        Ok(p) => Ok(p.deep_view()),
        Err(e) => Err(e.deep_view()),
    }
}

/// Build the real chain of a sender. Its sink never waits for preroll (`async=false`): behind
/// a blocked pad that would be a deadlock, so the setting is made after the user's own.
pub fn build_real_sink(
    transport: &TransportConfig,
    pay_properties: Option<&Properties>,
    parsed_ptime: Result<i64, PtimeFault>,
    addresses: LegAddresses,
    host: &Host<'_>,
    nvdsudp: Result<ChainPlan, ChainError>,
) -> (r: Result<RealChain, ChainError>)
    ensures
        ({
            let expected = real_sink(
                *transport,
                parsed_ptime,
                addresses,
                *host,
                plan_model(nvdsudp),
            );
            match r {
                Ok(built) => expected == Ok::<_, ChainErrorModel>(built.chain.deep_view())
                    && built.codec_properties_ignored == (built.chain.codec is None && (
                pay_properties matches Some(p) && p.fields@.len() > 0)) && built.pinned.deep_view()
                    == seq![("async"@, SettingModel::Boolean(false))],
                Err(e) => expected == Err::<ChainModel, _>(e.deep_view()),
            }
        }),
{
    let plan: Result<ChainPlan, ChainError> = match transport {
        TransportConfig::Mxl { domain_path, flow_id, .. } => build_mxlsink(
            domain_path.as_str(),
            flow_id.as_str(),
            host,
        ),
        TransportConfig::Udp { variant, media, .. } => build_udpsink(
            media,
            *variant,
            parsed_ptime,
            addresses,
            host,
        ),
        TransportConfig::NvDsUdp { .. } => nvdsudp,
    };
    match plan {
        Err(e) => Err(e),
        Ok(chain) => {
            let codec_properties_ignored: bool = ignores_codec_properties(&chain, pay_properties);
            let mut pinned = no_settings();
            put(&mut pinned, "async", SettingValue::Boolean(false));
            assert(pinned.deep_view() =~= seq![("async"@, SettingModel::Boolean(false))]);
            Ok(RealChain { chain, codec_properties_ignored, pinned })
        },
    }
}

/// The chain of a receiver's transport, or why there is none. The chain over `nvdsudpsrc` is
/// given.
pub open spec fn real_src(
    transport: TransportConfig,
    caps: Option<CapsModel>,
    addresses: LegAddresses,
    host: Host<'_>,
    nvdsudp: Result<ChainModel, ChainErrorModel>,
) -> Result<ChainModel, ChainErrorModel> {
    match transport {
        TransportConfig::Mxl { domain_path, flow_id, format, .. } => if !host.has("mxlsrc"@) {
            Err(ChainErrorModel::MissingMxlFactory("mxlsrc"@))
        } else {
            match flow_id_property(format) {
                Some(property) => Ok(mxl_src(domain_path@, property, flow_id@, caps)),
                None => Err(ChainErrorModel::UnspecifiedFormat),
            }
        },
        TransportConfig::Udp { variant, media, .. } => udp_src(
            media,
            variant,
            caps,
            addresses,
            host,
        ),
        TransportConfig::NvDsUdp { .. } => nvdsudp,
    }
}

/// Build the real chain of a receiver, with the given caps on its `capssetter`, if any.
pub fn build_real_src(
    transport: &TransportConfig,
    capssetter_caps: Option<&Caps>,
    depay_properties: Option<&Properties>,
    addresses: LegAddresses,
    host: &Host<'_>,
    nvdsudp: Result<ChainPlan, ChainError>,
) -> (r: Result<RealChain, ChainError>)
    ensures
        ({
            let expected = real_src(
                *transport,
                capssetter_caps.deep_view(),
                addresses,
                *host,
                plan_model(nvdsudp),
            );
            match r {
                Ok(built) => expected == Ok::<_, ChainErrorModel>(built.chain.deep_view())
                    && built.codec_properties_ignored == (built.chain.codec is None && (
                depay_properties matches Some(p) && p.fields@.len() > 0)) && built.pinned@.len()
                    == 0,
                Err(e) => expected == Err::<ChainModel, _>(e.deep_view()),
            }
        }),
{
    let plan: Result<ChainPlan, ChainError> = match transport {
        TransportConfig::Mxl { domain_path, flow_id, format, .. } => build_mxlsrc(
            domain_path.as_str(),
            flow_id.as_str(),
            *format,
            capssetter_caps,
            host,
        ),
        TransportConfig::Udp { variant, media, .. } => build_udpsrc(
            media,
            *variant,
            capssetter_caps,
            addresses,
            host,
        ),
        TransportConfig::NvDsUdp { .. } => nvdsudp,
    };
    match plan {
        Err(e) => Err(e),
        Ok(chain) => {
            let codec_properties_ignored: bool = ignores_codec_properties(&chain, depay_properties);
            Ok(RealChain { chain, codec_properties_ignored, pinned: Vec::new() })
        },
    }
}

// ---- property overrides -----------------------------------------------------

/// What an inner element makes of a property that is to be set on it.
#[derive(Debug, Clone, Copy, PartialEq, Eq, Structural)]
pub enum PropertyVerdict {
    /// It has such a property, of the value's type.
    Accepts,
    Unknown,
    TypeMismatch,
}

/// The fields that the element accepts, in order.
pub open spec fn accepted_fields(
    fields: Seq<(Seq<char>, FieldModel)>,
    verdicts: Seq<PropertyVerdict>,
) -> Seq<(Seq<char>, FieldModel)>
    decreases fields.len(),
{
    if fields.len() == 0 {
        Seq::empty()
    } else {
        let front = accepted_fields(fields.drop_last(), verdicts);
        if verdicts[fields.len() - 1] == PropertyVerdict::Accepts {
            front.push(fields.last())
        } else {
            front
        }
    }
}

/// The properties to set on an inner element: those of the override that it has, with
/// values of their type. Unknown properties and type mismatches are skipped; an absent
/// override sets nothing.
pub fn apply_properties_to_leaf(props: Option<&Properties>, verdicts: &[PropertyVerdict]) -> (r: Vec<
    Field,
>)
    requires
        props matches Some(p) ==> verdicts@.len() == p.fields@.len(),
    ensures
        r.deep_view() == match props {
            Some(p) => accepted_fields(p.fields.deep_view(), verdicts@),
            None => Seq::empty(),
        },
{
    let mut r: Vec<Field> = Vec::new();
    assert(r.deep_view() =~= Seq::empty());
    if let Some(p) = props {
        let ghost all = p.fields.deep_view();
        assert(all.take(0) =~= Seq::empty());
        let mut i: usize = 0;
        while i < p.fields.len()
            invariant
                i <= p.fields@.len(),
                all == p.fields.deep_view(),
                verdicts@.len() == p.fields@.len(),
                r.deep_view() == accepted_fields(all.take(i as int), verdicts@),
            decreases p.fields@.len() - i,
        {
            proof {
                assert(all.take(i as int + 1).drop_last() =~= all.take(i as int));
                assert(all.take(i as int + 1).last() == p.fields@[i as int].deep_view());
            }
            if verdicts[i] == PropertyVerdict::Accepts {
                let ghost before = r.deep_view();
                let f = Field { name: p.fields[i].name.clone(), value: p.fields[i].value.copy() };
                r.push(f);
                assert(r.deep_view() =~= before.push(f.deep_view()));
            }
            i = i + 1;
        }
        assert(all.take(all.len() as int) =~= all);
    }
    r
}

/// Payloader or depayloader properties that a chain has no element for.
pub fn ignores_codec_properties(chain: &ChainPlan, props: Option<&Properties>) -> (r: bool)
    ensures
        r == (chain.codec is None && (props matches Some(p) && p.fields@.len() > 0)),
{
    match props {
        Some(p) => chain.codec.is_none() && p.fields.len() > 0,
        None => false,
    }
}

// ---- laws -------------------------------------------------------------------

proof fn suffix_by_last(name: Seq<char>, suffix: Seq<char>, back: int)
    requires
        has_suffix(name, suffix),
        1 <= back <= suffix.len(),
    ensures
        name[name.len() - back] == suffix[suffix.len() - back],
{
    let tail = name.skip(name.len() - suffix.len());
    assert(tail[suffix.len() - back] == name[name.len() - back]);
}

/// Fake chains are told from real ones by name: every fake chain counts as fake, every
/// real one as real.
pub proof fn chains_are_told_apart(
    caps: Option<CapsModel>,
    domain_path: Seq<char>,
    flow_id: Seq<char>,
    property: Seq<char>,
    media: UdpMedia,
    variant: UdpVariant,
    parsed_ptime: Result<i64, PtimeFault>,
    addresses: LegAddresses,
    host: Host<'_>,
)
    ensures
        !is_real(Some(fake_sink(caps).outer_name())),
        !is_real(Some(fake_src(caps).outer_name())),
        is_real(Some(mxl_sink(domain_path, flow_id).outer_name())),
        is_real(Some(mxl_src(domain_path, property, flow_id, caps).outer_name())),
        udp_sink(media, variant, parsed_ptime, addresses, host) matches Ok(c) ==> is_real(
            Some(c.outer_name()),
        ),
        udp_src(media, variant, caps, addresses, host) matches Ok(c) ==> is_real(
            Some(c.outer_name()),
        ),
{
    reveal_strlit("-fake");
    reveal_strlit("nmossink-fake");
    reveal_strlit("nmossrc-fake");
    reveal_strlit("nmossink-mxl");
    reveal_strlit("nmossrc-mxl");
    reveal_strlit("nmossrc-inner");
    reveal_strlit("nmossink-udp");
    reveal_strlit("nmossrc-udp");
    assert("-fake"@.len() == 5 && "-fake"@[4] == 'e');
    assert("nmossink-fake"@.skip(8) =~= "-fake"@);
    assert("nmossrc-fake"@.skip(7) =~= "-fake"@);
    assert forall|name: Seq<char>|
        name.len() > 0 && #[trigger] name[name.len() - 1] != 'e' implies !has_suffix(
        name,
        "-fake"@,
    ) by {
        if has_suffix(name, "-fake"@) {
            suffix_by_last(name, "-fake"@, 1);
        }
    }
    assert("nmossink-mxl"@[11] == 'l' && "nmossrc-mxl"@[10] == 'l');
    assert("nmossrc-inner"@[12] == 'r');
    assert("nmossink-udp"@[11] == 'p' && "nmossrc-udp"@[10] == 'p');
}

/// Every chain that is planned is well formed.
pub proof fn planned_chains_are_well_formed(
    caps: Option<CapsModel>,
    domain_path: Seq<char>,
    flow_id: Seq<char>,
    property: Seq<char>,
    media: UdpMedia,
    variant: UdpVariant,
    parsed_ptime: Result<i64, PtimeFault>,
    addresses: LegAddresses,
    host: Host<'_>,
)
    ensures
        fake_sink(caps).wf(),
        fake_src(caps).wf(),
        mxl_sink(domain_path, flow_id).wf(),
        mxl_src(domain_path, property, flow_id, caps).wf(),
        udp_sink(media, variant, parsed_ptime, addresses, host) matches Ok(c) ==> c.wf(),
        udp_src(media, variant, caps, addresses, host) matches Ok(c) ==> c.wf(),
{
}

/// An RTP element is chosen only where it is installed, so the chain can be built.
pub proof fn chosen_rtp_factory_is_installed(
    suffix: Seq<char>,
    format: FlowFormat,
    encoding_name: Seq<char>,
    variant: UdpVariant,
    host: Host<'_>,
)
    ensures
        rtp_factory(suffix, format, encoding_name, variant, host) matches Ok(f) ==> host.has(f),
{
}

proof fn distinct_mxl_properties()
    ensures
        "domain"@ != "flow-id"@,
        "domain"@ != "async"@,
        "flow-id"@ != "async"@,
        "domain"@ != "video-flow-id"@,
        "domain"@ != "audio-flow-id"@,
        "domain"@ != "data-flow-id"@,
        "video-flow-id"@ != "audio-flow-id"@,
        "video-flow-id"@ != "data-flow-id"@,
        "audio-flow-id"@ != "data-flow-id"@,
{
    reveal_strlit("domain");
    reveal_strlit("flow-id");
    reveal_strlit("async");
    reveal_strlit("video-flow-id");
    reveal_strlit("audio-flow-id");
    reveal_strlit("data-flow-id");
    assert("domain"@.len() == 6 && "flow-id"@.len() == 7 && "async"@.len() == 5);
    assert("video-flow-id"@.len() == 13 && "audio-flow-id"@.len() == 13 && "data-flow-id"@.len()
        == 12);
    assert("video-flow-id"@[0] == 'v' && "audio-flow-id"@[0] == 'a');
}

/// An MXL sender writes the flow of its configuration, in the domain of its configuration.
pub proof fn mxl_sender_writes_its_flow(
    transport: TransportConfig,
    parsed_ptime: Result<i64, PtimeFault>,
    addresses: LegAddresses,
    host: Host<'_>,
    nvdsudp: Result<ChainModel, ChainErrorModel>,
)
    requires
        transport is Mxl,
    ensures
        match real_sink(transport, parsed_ptime, addresses, host, nvdsudp) {
            Ok(chain) => {
                let sink = chain.elements[chain.transport];
                &&& host.has("mxlsink"@)
                &&& 0 <= chain.transport < chain.elements.len()
                &&& sink.factory == "mxlsink"@
                &&& sink.sets("flow-id"@, SettingModel::Text(transport->Mxl_flow_id@))
                &&& sink.sets("domain"@, SettingModel::Text(transport->Mxl_domain_path@))
                &&& sink.sets("async"@, SettingModel::Boolean(false))
            },
            Err(_) => !host.has("mxlsink"@),
        },
{
    distinct_mxl_properties();
    if let Ok(chain) = real_sink(transport, parsed_ptime, addresses, host, nvdsudp) {
        let settings = chain.elements[0].settings;
        assert(settings[0] == ("domain"@, SettingModel::Text(transport->Mxl_domain_path@)));
        assert(settings[1].0 == "flow-id"@);
        assert(settings[2].0 == "async"@);
    }
}

/// Two flows have two chains: MXL chains for different flow ids, or for different domains, are
/// not the same.
pub proof fn flows_have_their_own_chains(
    domain: Seq<char>,
    flow: Seq<char>,
    other_domain: Seq<char>,
    other_flow: Seq<char>,
    property: Seq<char>,
    caps: Option<CapsModel>,
    other_caps: Option<CapsModel>,
)
    requires
        (domain, flow) != (other_domain, other_flow),
    ensures
        mxl_sink(domain, flow) != mxl_sink(other_domain, other_flow),
        mxl_src(domain, property, flow, caps) != mxl_src(
            other_domain,
            property,
            other_flow,
            other_caps,
        ),
{
    let a = mxl_sink(domain, flow).elements[0].settings;
    let b = mxl_sink(other_domain, other_flow).elements[0].settings;
    assert(a[0].1 != b[0].1 || a[1].1 != b[1].1);
    let c = mxl_src(domain, property, flow, caps).elements[0].settings;
    let d = mxl_src(other_domain, property, other_flow, other_caps).elements[0].settings;
    assert(c[0].1 != d[0].1 || c[1].1 != d[1].1);
}

/// An MXL receiver reads the flow of its configuration, through the property for the flow's
/// format and no other, in the domain of its configuration; the caps it is to advertise stand on
/// a `capssetter` behind it.
pub proof fn mxl_receiver_reads_its_flow(
    transport: TransportConfig,
    caps: Option<CapsModel>,
    addresses: LegAddresses,
    host: Host<'_>,
    nvdsudp: Result<ChainModel, ChainErrorModel>,
)
    requires
        transport is Mxl,
    ensures
        match real_src(transport, caps, addresses, host, nvdsudp) {
            Ok(chain) => {
                let src = chain.elements[chain.transport];
                let flow = SettingModel::Text(transport->Mxl_flow_id@);
                let format = transport->Mxl_format;
                &&& host.has("mxlsrc"@)
                &&& format != FlowFormat::Unspecified
                &&& chain.transport == 0
                &&& src.factory == "mxlsrc"@
                &&& src.sets("domain"@, SettingModel::Text(transport->Mxl_domain_path@))
                &&& if format == FlowFormat::Video {
                    src.sets("video-flow-id"@, flow)
                } else {
                    src.leaves("video-flow-id"@)
                }
                &&& if format == FlowFormat::Audio {
                    src.sets("audio-flow-id"@, flow)
                } else {
                    src.leaves("audio-flow-id"@)
                }
                &&& if format == FlowFormat::Data {
                    src.sets("data-flow-id"@, flow)
                } else {
                    src.leaves("data-flow-id"@)
                }
                &&& match caps {
                    None => chain.elements.len() == 1,
                    Some(c) => chain.elements.len() == 2 && chain.elements[1].factory
                        == "capssetter"@ && chain.elements[1].sets("caps"@, SettingModel::Caps(c)),
                }
            },
            Err(_) => !host.has("mxlsrc"@) || transport->Mxl_format == FlowFormat::Unspecified,
        },
{
    distinct_mxl_properties();
    if let Ok(chain) = real_src(transport, caps, addresses, host, nvdsudp) {
        let settings = chain.elements[0].settings;
        assert(settings[0].0 == "domain"@);
        assert(settings[1].1 == SettingModel::Text(transport->Mxl_flow_id@));
        if let Some(c) = caps {
            assert(chain.elements[1].settings[0] == ("caps"@, SettingModel::Caps(c)));
        }
    }
}

proof fn distinct_udp_properties()
    ensures
        "host"@ != "port"@,
        "host"@ != "async"@,
        "host"@ != "bind-port"@,
        "host"@ != "bind-address"@,
        "host"@ != "multicast-iface"@,
        "port"@ != "async"@,
        "port"@ != "bind-port"@,
        "port"@ != "bind-address"@,
        "port"@ != "multicast-iface"@,
        "async"@ != "bind-port"@,
        "async"@ != "bind-address"@,
        "async"@ != "multicast-iface"@,
        "bind-port"@ != "bind-address"@,
        "bind-port"@ != "multicast-iface"@,
        "bind-address"@ != "multicast-iface"@,
        "pt"@ != "min-ptime"@,
        "pt"@ != "max-ptime"@,
        "min-ptime"@ != "max-ptime"@,
        "address"@ != "caps"@,
        "address"@ != "port"@,
        "address"@ != "multicast-iface"@,
        "address"@ != "source-filter"@,
        "address"@ != "multicast-source"@,
        "caps"@ != "port"@,
        "caps"@ != "multicast-iface"@,
        "caps"@ != "source-filter"@,
        "caps"@ != "multicast-source"@,
        "port"@ != "source-filter"@,
        "port"@ != "multicast-source"@,
        "multicast-iface"@ != "source-filter"@,
        "multicast-iface"@ != "multicast-source"@,
        "source-filter"@ != "multicast-source"@,
{
    reveal_strlit("host");
    reveal_strlit("port");
    reveal_strlit("async");
    reveal_strlit("bind-port");
    reveal_strlit("bind-address");
    reveal_strlit("multicast-iface");
    reveal_strlit("pt");
    reveal_strlit("min-ptime");
    reveal_strlit("max-ptime");
    reveal_strlit("address");
    reveal_strlit("caps");
    reveal_strlit("source-filter");
    reveal_strlit("multicast-source");
    assert("host"@.len() == 4 && "host"@[0] == 'h');
    assert("port"@.len() == 4 && "port"@[0] == 'p');
    assert("caps"@.len() == 4 && "caps"@[0] == 'c');
    assert("async"@.len() == 5);
    assert("bind-port"@.len() == 9);
    assert("bind-address"@.len() == 12);
    assert("multicast-iface"@.len() == 15);
    assert("pt"@.len() == 2);
    assert("min-ptime"@.len() == 9 && "min-ptime"@[1] == 'i');
    assert("max-ptime"@.len() == 9 && "max-ptime"@[1] == 'a');
    assert("address"@.len() == 7);
    assert("source-filter"@.len() == 13);
    assert("multicast-source"@.len() == 16);
}

/// Where a sequence is put together of a fixed part and optional settings, each optional setting
/// is made exactly where there is a value.
proof fn optional_settings_are_made(
    front: ElementModel,
    name: Seq<char>,
    value: Option<SettingModel>,
    whole: ElementModel,
)
    requires
        front.leaves(name),
        whole.settings == front.settings + optional_setting(name, value),
    ensures
        match value {
            Some(v) => whole.sets(name, v),
            None => whole.leaves(name),
        },
        forall|n: Seq<char>, v: SettingModel|
            n != name && #[trigger] front.sets(n, v) ==> whole.sets(n, v),
        forall|n: Seq<char>| n != name && #[trigger] front.leaves(n) ==> whole.leaves(n),
{
    let k = front.settings.len() as int;
    assert forall|i: int| 0 <= i < k implies #[trigger] whole.settings[i] == front.settings[i] by {}
    if let Some(v) = value {
        assert(whole.settings[k] == (name, v));
    } else {
        assert(whole.settings =~= front.settings);
    }
    assert forall|n: Seq<char>, v: SettingModel|
        n != name && #[trigger] front.sets(n, v) implies whole.sets(n, v) by {
        let i = choose|i: int| 0 <= i < k && #[trigger] front.settings[i] == (n, v);
        assert(whole.settings[i] == (n, v));
    }
}

/// The text of an interface that multicast is pinned to, where it is.
proof fn pinned_interface_is_local(addresses: LegAddresses, host: Host<'_>)
    ensures
        match multicast_iface(addresses, host) {
            Some(name) => addresses.destination is Some && addresses.destination->0.multicast()
                && addresses.interface is Some && exists|i: int|
                0 <= i < host.interfaces@.len() && (#[trigger] host.interfaces@[i]).interface_name@
                    == name && host.interfaces@[i].address == LocalAddress::Ip(
                    addresses.interface->0,
                ),
            None => addresses.destination is Some && addresses.destination->0.multicast()
                && addresses.interface is Some ==> forall|i: int|
                0 <= i < host.interfaces@.len() ==> (#[trigger] host.interfaces@[i]).address
                    != LocalAddress::Ip(addresses.interface->0),
        },
{
    if let Some(a) = addresses.interface {
        bound_interface_is_the_first(host.interfaces@, a);
    }
}

/// An RTP sender sends where its configuration says: to the destination's address and port, from
/// the leg's own address and port where it has them, over the interface that has that address
/// where the destination is multicast.
pub proof fn udp_sender_sends_to_its_destination(
    transport: TransportConfig,
    parsed_ptime: Result<i64, PtimeFault>,
    addresses: LegAddresses,
    host: Host<'_>,
    nvdsudp: Result<ChainModel, ChainErrorModel>,
    chain: ChainModel,
)
    requires
        transport is Udp,
        real_sink(transport, parsed_ptime, addresses, host, nvdsudp) == Ok::<_, ChainErrorModel>(
            chain,
        ),
    ensures
        ({
            let sink = chain.elements[chain.transport];
            let leg = transport->Udp_media.primary;
            &&& chain.elements.len() == 2
            &&& chain.transport == 1
            &&& sink.factory == "udpsink"@
            &&& sink.sets("host"@, SettingModel::Text(leg.destination_ip@))
            &&& sink.sets("port"@, SettingModel::Int(leg.destination_port as i32))
            &&& sink.sets("async"@, SettingModel::Boolean(false))
            &&& match leg.source_port {
                Some(port) => sink.sets("bind-port"@, SettingModel::Int(port as i32)),
                None => sink.leaves("bind-port"@),
            }
            &&& match leg.interface_ip {
                Some(ip) => sink.sets("bind-address"@, SettingModel::Text(ip@)),
                None => sink.leaves("bind-address"@),
            }
            &&& match multicast_iface(addresses, host) {
                Some(name) => sink.sets("multicast-iface"@, SettingModel::Text(name)),
                None => sink.leaves("multicast-iface"@),
            }
            &&& multicast_iface(addresses, host) is Some ==> addresses.destination is Some
                && addresses.destination->0.multicast() && addresses.interface is Some
        }),
{
    distinct_udp_properties();
    pinned_interface_is_local(addresses, host);
    let sink = chain.elements[1];
    let leg = transport->Udp_media.primary;
    let fixed = ElementModel {
        factory: sink.factory,
        name: sink.name,
        settings: seq![
            ("host"@, SettingModel::Text(leg.destination_ip@)),
            ("port"@, SettingModel::Int(leg.destination_port as i32)),
            ("async"@, SettingModel::Boolean(false)),
        ],
    };
    assert(fixed.settings[0].0 == "host"@ && fixed.settings[1].0 == "port"@
        && fixed.settings[2].0 == "async"@);
    assert(fixed.sets("host"@, SettingModel::Text(leg.destination_ip@)));
    assert(fixed.sets("port"@, SettingModel::Int(leg.destination_port as i32)));
    assert(fixed.sets("async"@, SettingModel::Boolean(false)));
    let bind_port = match leg.source_port {
        Some(p) => Some(SettingModel::Int(p as i32)),
        None => None,
    };
    let with_port = ElementModel {
        factory: sink.factory,
        name: sink.name,
        settings: fixed.settings + optional_setting("bind-port"@, bind_port),
    };
    optional_settings_are_made(fixed, "bind-port"@, bind_port, with_port);
    let bind_address = optional_text(leg.interface_ip.deep_view());
    let with_address = ElementModel {
        factory: sink.factory,
        name: sink.name,
        settings: with_port.settings + optional_setting("bind-address"@, bind_address),
    };
    optional_settings_are_made(with_port, "bind-address"@, bind_address, with_address);
    let iface = optional_text(multicast_iface(addresses, host));
    optional_settings_are_made(with_address, "multicast-iface"@, iface, sink);
}

/// The payloader stands before the sink and is set from the RTP caps: the payload type is that of
/// the caps, and an audio flow that gives a packet time has that packet time, least and most.
pub proof fn udp_sender_payloads_by_its_caps(
    transport: TransportConfig,
    parsed_ptime: Result<i64, PtimeFault>,
    addresses: LegAddresses,
    host: Host<'_>,
    nvdsudp: Result<ChainModel, ChainErrorModel>,
    chain: ChainModel,
)
    requires
        transport is Udp,
        real_sink(transport, parsed_ptime, addresses, host, nvdsudp) == Ok::<_, ChainErrorModel>(
            chain,
        ),
    ensures
        ({
            let media = transport->Udp_media;
            let caps = media.rtp_caps.deep_view().first();
            let payloader = chain.elements[0];
            let timed = media.format == FlowFormat::Audio && caps is Some && caps->0.text_field(
                "a-ptime"@,
            ) is Some;
            &&& chain.codec == Some(0int)
            &&& host.has(payloader.factory)
            &&& caps is Some
            &&& caps->0.text_field("encoding-name"@) is Some
            &&& caps->0.int_field("payload"@) matches Some(pt) && 0 <= pt <= 127 && payloader.sets(
                "pt"@,
                SettingModel::UInt(pt as u32),
            )
            &&& if timed {
                &&& parsed_ptime is Ok
                &&& payloader.sets("min-ptime"@, SettingModel::Int64(parsed_ptime->Ok_0))
                &&& payloader.sets("max-ptime"@, SettingModel::Int64(parsed_ptime->Ok_0))
            } else {
                payloader.leaves("min-ptime"@) && payloader.leaves("max-ptime"@)
            }
        }),
{
    distinct_udp_properties();
    let media = transport->Udp_media;
    let payloader = chain.elements[0];
    let pt = media.rtp_caps.deep_view().first()->0.int_field("payload"@)->0;
    let value = match pinned_ptime(media, parsed_ptime) {
        Ok(Some(ns)) => Some(SettingModel::Int64(ns)),
        _ => None,
    };
    let fixed = ElementModel {
        factory: payloader.factory,
        name: payloader.name,
        settings: seq![("pt"@, SettingModel::UInt(pt as u32))],
    };
    assert(fixed.settings[0].0 == "pt"@);
    assert(fixed.sets("pt"@, SettingModel::UInt(pt as u32)));
    let with_least = ElementModel {
        factory: payloader.factory,
        name: payloader.name,
        settings: fixed.settings + optional_setting("min-ptime"@, value),
    };
    optional_settings_are_made(fixed, "min-ptime"@, value, with_least);
    optional_settings_are_made(with_least, "max-ptime"@, value, payloader);
}

/// An RTP receiver listens where its configuration says: at the destination's address and port,
/// for packets of the RTP caps, over the interface that has the leg's address where the
/// destination is multicast, and only for the source that the leg names, if it names one and the
/// destination is multicast.
pub proof fn udp_receiver_listens_at_its_destination(
    transport: TransportConfig,
    caps: Option<CapsModel>,
    addresses: LegAddresses,
    host: Host<'_>,
    nvdsudp: Result<ChainModel, ChainErrorModel>,
    chain: ChainModel,
)
    requires
        transport is Udp,
        real_src(transport, caps, addresses, host, nvdsudp) == Ok::<_, ChainErrorModel>(chain),
    ensures
        ({
            let src = chain.elements[chain.transport];
            let media = transport->Udp_media;
            let leg = media.primary;
            let second = transport->Udp_variant == UdpVariant::V2 && host.has("udpsrc2"@);
            let filtered = leg.source_ip is Some && addresses.destination is Some
                && addresses.destination->0.multicast();
            &&& chain.transport == 0
            &&& src.factory == if second {
                "udpsrc2"@
            } else {
                "udpsrc"@
            }
            &&& src.sets("address"@, SettingModel::Text(leg.destination_ip@))
            &&& src.sets("caps"@, SettingModel::Caps(media.rtp_caps.deep_view()))
            &&& if second {
                src.sets("port"@, SettingModel::UInt(leg.destination_port as u32))
            } else {
                src.sets("port"@, SettingModel::Int(leg.destination_port as i32))
            }
            &&& match multicast_iface(addresses, host) {
                Some(name) => src.sets("multicast-iface"@, SettingModel::Text(name)),
                None => src.leaves("multicast-iface"@),
            }
            &&& if filtered && second {
                src.sets("source-filter"@, SettingModel::Text(leg.source_ip->0@))
            } else {
                src.leaves("source-filter"@)
            }
            &&& if filtered && !second {
                src.sets("multicast-source"@, SettingModel::Text("+"@ + leg.source_ip->0@))
            } else {
                src.leaves("multicast-source"@)
            }
            &&& chain.codec == Some(1int)
            &&& host.has(chain.elements[1].factory)
            &&& match caps {
                None => chain.elements.len() == 2,
                Some(c) => chain.elements.len() == 3 && chain.elements[2].factory == "capssetter"@
                    && chain.elements[2].sets("caps"@, SettingModel::Caps(c)),
            }
        }),
{
    distinct_udp_properties();
    let src = chain.elements[0];
    let media = transport->Udp_media;
    let leg = media.primary;
    let second = transport->Udp_variant == UdpVariant::V2 && host.has("udpsrc2"@);
    let port = if second {
        SettingModel::UInt(leg.destination_port as u32)
    } else {
        SettingModel::Int(leg.destination_port as i32)
    };
    let fixed = ElementModel {
        factory: src.factory,
        name: src.name,
        settings: seq![
            ("address"@, SettingModel::Text(leg.destination_ip@)),
            ("caps"@, SettingModel::Caps(media.rtp_caps.deep_view())),
            ("port"@, port),
        ],
    };
    assert(fixed.settings[0].0 == "address"@ && fixed.settings[1].0 == "caps"@
        && fixed.settings[2].0 == "port"@);
    assert(fixed.sets("address"@, SettingModel::Text(leg.destination_ip@)));
    assert(fixed.sets("caps"@, SettingModel::Caps(media.rtp_caps.deep_view())));
    assert(fixed.sets("port"@, port));
    assert(fixed.leaves("source-filter"@) && fixed.leaves("multicast-source"@));
    let iface = optional_text(multicast_iface(addresses, host));
    let with_iface = ElementModel {
        factory: src.factory,
        name: src.name,
        settings: fixed.settings + optional_setting("multicast-iface"@, iface),
    };
    optional_settings_are_made(fixed, "multicast-iface"@, iface, with_iface);
    let filtered = leg.source_ip is Some && to_multicast(addresses);
    if filtered && second {
        optional_settings_are_made(
            with_iface,
            "source-filter"@,
            Some(SettingModel::Text(leg.source_ip->0@)),
            src,
        );
    } else if filtered {
        optional_settings_are_made(
            with_iface,
            "multicast-source"@,
            Some(SettingModel::Text("+"@ + leg.source_ip->0@)),
            src,
        );
    } else {
        assert(src.settings =~= with_iface.settings);
    }
    if let Some(c) = caps {
        assert(chain.elements[2].settings[0] == ("caps"@, SettingModel::Caps(c)));
    }
}

/// Payloader and depayloader of one essence belong together: without a second variant, their
/// names are the same but for the ending.
pub proof fn rtp_elements_pair_up(
    format: FlowFormat,
    encoding_name: Seq<char>,
    host: Host<'_>,
    payloader: Seq<char>,
    depayloader: Seq<char>,
)
    requires
        rtp_factory("pay"@, format, encoding_name, UdpVariant::V1, host) == Ok::<
            _,
            ChainErrorModel,
        >(payloader),
        rtp_factory("depay"@, format, encoding_name, UdpVariant::V1, host) == Ok::<
            _,
            ChainErrorModel,
        >(depayloader),
    ensures
        payloader.len() > 3,
        depayloader.len() == payloader.len() + 2,
        payloader.take(payloader.len() - 3) == depayloader.take(depayloader.len() - 5),
        payloader.skip(payloader.len() - 3) == "pay"@,
        depayloader.skip(depayloader.len() - 5) == "depay"@,
        format == FlowFormat::Video ==> payloader.take(payloader.len() - 3) == "rtpvraw"@,
        format == FlowFormat::Audio ==> payloader.take(payloader.len() - 3) == "rtpL24"@
            || payloader.take(payloader.len() - 3) == "rtpL16"@,
        format == FlowFormat::Data ==> payloader.take(payloader.len() - 3) == "rtpsmpte291"@,
{
    reveal_strlit("pay");
    reveal_strlit("depay");
    reveal_strlit("rtpvraw");
    reveal_strlit("rtpL24");
    reveal_strlit("rtpL16");
    reveal_strlit("rtpsmpte291");
    let stem = rtp_stem(format, encoding_name)->0;
    assert("pay"@.len() == 3 && "depay"@.len() == 5 && stem.len() >= 6);
    assert(payloader.take(payloader.len() - 3) =~= stem);
    assert(depayloader.take(depayloader.len() - 5) =~= stem);
    assert(payloader.skip(payloader.len() - 3) =~= "pay"@);
    assert(depayloader.skip(depayloader.len() - 5) =~= "depay"@);
}

/// Audio samples keep their depth: L24 and L16 have elements of their own, however the encoding
/// name is spelled.
pub proof fn audio_depths_have_their_own_elements(
    suffix: Seq<char>,
    deep: Seq<char>,
    shallow: Seq<char>,
    variant: UdpVariant,
    host: Host<'_>,
    a: Seq<char>,
    b: Seq<char>,
)
    requires
        same_ignoring_ascii_case(deep, "L24"@),
        same_ignoring_ascii_case(shallow, "L16"@),
        rtp_factory(suffix, FlowFormat::Audio, deep, variant, host) == Ok::<_, ChainErrorModel>(a),
        rtp_factory(suffix, FlowFormat::Audio, shallow, variant, host) == Ok::<_, ChainErrorModel>(
            b,
        ),
    ensures
        a.take(6) == "rtpL24"@,
        b.take(6) == "rtpL16"@,
        a != b,
{
    reveal_strlit("L24");
    reveal_strlit("L16");
    reveal_strlit("rtpL24");
    reveal_strlit("rtpL16");
    assert(!same_ignoring_ascii_case(shallow, "L24"@)) by {
        if same_ignoring_ascii_case(shallow, "L24"@) {
            assert(lower_ascii(shallow[1]) == lower_ascii("L24"@[1]));
            assert(lower_ascii(shallow[1]) == lower_ascii("L16"@[1]));
        }
    }
    assert("rtpL24"@.len() == 6 && "rtpL16"@.len() == 6);
    assert(a.take(6) =~= "rtpL24"@);
    assert(b.take(6) =~= "rtpL16"@);
    assert("rtpL24"@[4] == '2' && "rtpL16"@[4] == '1');
    assert(a.take(6)[4] != b.take(6)[4]);
}

/// A sender's fake chain takes what it gets in time: it never waits for preroll, and where caps
/// are known it takes no others.
pub proof fn fake_sink_takes_its_caps(caps: Option<CapsModel>)
    ensures
        ({
            let chain = fake_sink(caps);
            let sink = chain.elements[chain.transport];
            &&& sink.factory == "fakesink"@
            &&& chain.transport == chain.elements.len() - 1
            &&& sink.sets("sync"@, SettingModel::Boolean(true))
            &&& sink.sets("async"@, SettingModel::Boolean(false))
            &&& match caps {
                Some(c) => chain.elements.len() == 2 && chain.elements[0].factory == "capsfilter"@
                    && chain.elements[0].sets("caps"@, SettingModel::Caps(c)),
                None => chain.elements.len() == 1,
            }
        }),
{
    reveal_strlit("sync");
    reveal_strlit("async");
    assert("sync"@.len() == 4 && "async"@.len() == 5);
    let chain = fake_sink(caps);
    let sink = chain.elements[chain.transport];
    assert(sink.settings[0].0 == "sync"@ && sink.settings[1].0 == "async"@);
    if let Some(c) = caps {
        assert(chain.elements[0].settings[0] == ("caps"@, SettingModel::Caps(c)));
    }
}

/// A receiver's fake chain is a live source that offers the caps that are known, and none where
/// none are.
pub proof fn fake_src_offers_its_caps(caps: Option<CapsModel>)
    ensures
        ({
            let chain = fake_src(caps);
            let src = chain.elements[chain.transport];
            &&& chain.elements.len() == 1
            &&& src.factory == "appsrc"@
            &&& src.sets("is-live"@, SettingModel::Boolean(true))
            &&& src.sets("format"@, SettingModel::Nick("time"@))
            &&& match caps {
                Some(c) => src.sets("caps"@, SettingModel::Caps(c)),
                None => src.leaves("caps"@),
            }
        }),
{
    reveal_strlit("is-live");
    reveal_strlit("format");
    reveal_strlit("caps");
    assert("is-live"@.len() == 7 && "format"@.len() == 6 && "caps"@.len() == 4);
    let src = fake_src(caps).elements[0];
    let fixed = ElementModel {
        factory: src.factory,
        name: src.name,
        settings: seq![
            ("is-live"@, SettingModel::Boolean(true)),
            ("format"@, SettingModel::Nick("time"@)),
        ],
    };
    assert(fixed.settings[0].0 == "is-live"@ && fixed.settings[1].0 == "format"@);
    assert(fixed.sets("is-live"@, SettingModel::Boolean(true)));
    assert(fixed.sets("format"@, SettingModel::Nick("time"@)));
    let value = match caps {
        Some(c) => Some(SettingModel::Caps(c)),
        None => None,
    };
    optional_settings_are_made(fixed, "caps"@, value, src);
}

/// Of the properties that are given, an inner element is set to those that it accepts, in order,
/// and to no others.
pub proof fn only_accepted_fields_are_set(
    fields: Seq<(Seq<char>, FieldModel)>,
    field: (Seq<char>, FieldModel),
    verdicts: Seq<PropertyVerdict>,
)
    requires
        verdicts.len() > fields.len(),
    ensures
        accepted_fields(Seq::empty(), verdicts).len() == 0,
        verdicts[fields.len() as int] == PropertyVerdict::Accepts ==> accepted_fields(
            fields.push(field),
            verdicts,
        ) == accepted_fields(fields, verdicts).push(field),
        verdicts[fields.len() as int] != PropertyVerdict::Accepts ==> accepted_fields(
            fields.push(field),
            verdicts,
        ) == accepted_fields(fields, verdicts),
{
    assert(fields.push(field).drop_last() =~= fields);
}

/// A chain is fake where its name ends as those of fake chains do, and is real under any other
/// name; where there is no chain it is neither.
pub proof fn fake_chains_are_told_by_their_name(
    name: Seq<char>,
    caps: Option<CapsModel>,
    domain_path: Seq<char>,
    flow_id: Seq<char>,
)
    ensures
        !is_real(None),
        !is_real(Some(name + "-fake"@)),
        !is_real(Some(name)) ==> name == name.take(name.len() - "-fake"@.len()) + "-fake"@,
        !is_real(Some(fake_sink(caps).outer_name())),
        !is_real(Some(fake_src(caps).outer_name())),
        is_real(Some(mxl_sink(domain_path, flow_id).outer_name())),
{
    beginnings_and_ends(name, "-fake"@);
    reveal_strlit("-fake");
    reveal_strlit("nmossink-fake");
    reveal_strlit("nmossrc-fake");
    reveal_strlit("nmossink-mxl");
    assert("nmossink-fake"@.skip(8) =~= "-fake"@);
    assert("nmossrc-fake"@.skip(7) =~= "-fake"@);
    assert("nmossink-mxl"@.skip(7)[4] == 'l');
    assert("-fake"@[4] == 'e');
}

/// An element that is missing is named with the package that brings it: ancillary data has its
/// elements from the Rust plugins, video and audio from the good ones.
pub proof fn missing_elements_are_found_in_their_package(
    suffix: Seq<char>,
    format: FlowFormat,
    encoding_name: Seq<char>,
    variant: UdpVariant,
    host: Host<'_>,
    cause: Seq<char>,
)
    ensures
        rtp_factory(suffix, format, encoding_name, variant, host) matches Err(e) ==> match e {
            ChainErrorModel::MissingRtpFactory(factory, package) => {
                &&& !host.has(factory)
                &&& format == FlowFormat::Data ==> says(package, "gst-plugins-rs"@)
                &&& format != FlowFormat::Data ==> package == "gst-plugins-good"@
                &&& says_in_order(e.text(cause), factory, package)
            },
            ChainErrorModel::UnsupportedEssence(s, f, n) => s == suffix && f == format && n
                == encoding_name && says_in_order(e.text(cause), suffix, format_word(format))
                && says_in_order(e.text(cause), format_word(format), encoding_name),
            _ => false,
        },
{
    reveal_strlit("gst-plugins-rs");
    reveal_strlit("gst-plugins-rs (`rsrtp` plugin)");
    reveal_strlit("rtpsmpte291");
    reveal_strlit("rtpvraw");
    reveal_strlit("rtpL24");
    reveal_strlit("rtpL16");
    says_at("gst-plugins-rs (`rsrtp` plugin)"@, "gst-plugins-rs"@, 0);
    assert("rtpsmpte291"@.len() == 11 && "rtpvraw"@.len() == 7 && "rtpL24"@.len() == 6
        && "rtpL16"@.len() == 6);
    if let Err(e) = rtp_factory(suffix, format, encoding_name, variant, host) {
        match e {
            ChainErrorModel::MissingRtpFactory(factory, package) => {
                put_together_in_order(
                    "GStreamer factory `"@,
                    factory,
                    "` not found; install `"@,
                    package,
                    "` and ensure it's on `GST_PLUGIN_PATH`"@,
                );
            },
            ChainErrorModel::UnsupportedEssence(s, f, n) => {
                let a = "unsupported essence for UDP/RTP `"@;
                let b = "`: format="@;
                let c = ", encoding-name=`"@;
                let d = "` (today RFC 4175 `RAW` video, ST 2110-30 `L24` / `L16` audio, and RFC 8331 / ST 2110-40 `SMPTE291` ANC are supported)"@;
                let w = format_word(format);
                put_together_in_order(a, suffix, b, w, c + encoding_name + d);
                assert(e.text(cause) =~= a + suffix + b + w + (c + encoding_name + d));
                put_together_in_order(a + suffix + b, w, c, encoding_name, d);
                assert(e.text(cause) =~= (a + suffix + b) + w + c + encoding_name + d);
            },
            _ => {},
        }
    }
}

/// What is said of media that cannot be sent names the number that is out of range, or the text
/// that is no duration.
pub proof fn refused_media_are_named(pt: i32, ptime: Seq<char>, fault: PtimeFault, cause: Seq<char>)
    ensures
        says(
            ChainErrorModel::PayloadTypeOutOfRange(pt).text(cause),
            signed_decimal(pt as int),
        ),
        says(ChainErrorModel::BadPtime(ptime, fault).text(cause), ptime),
        has_suffix(ChainErrorModel::MissingEncodingName.text(cause), cause),
        has_suffix(ChainErrorModel::MissingPayload.text(cause), cause),
{
    put_together_says(
        "UdpMedia.rtp_caps `payload`="@,
        signed_decimal(pt as int),
        " out of valid RTP payload-type range 0..=127"@,
    );
    put_together_says("parsing a-ptime=`"@, ptime, "` as milliseconds"@);
    put_together_says("a-ptime=`"@, ptime, "` ms must be a finite positive value"@);
    put_together_says("a-ptime=`"@, ptime, "` ms overflows i64 nanoseconds"@);
    beginnings_and_ends("UdpMedia.rtp_caps missing `encoding-name`: "@, cause);
    beginnings_and_ends("UdpMedia.rtp_caps missing `payload` field: "@, cause);
}

} // verus!
