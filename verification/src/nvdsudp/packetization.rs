//! ST 2110-20 / ST 2110-30 / ST 2110-40 packetization defaults for DeepStream
//! `nvdsudpsrc` / `nvdsudpsink` Mode 3 (built-in RTP (de)payload).
//!
//! - `nvdsudpsink.payload-size` includes the 20-byte (video) or 12-byte (audio)
//!   RTP + ST 2110 payload header.
//! - `nvdsudpsrc.payload-size` is the raw RTP payload size only.

use crate::caps::{Caps, CapsModel};
use crate::text::{
    decimal, decimal_text, joined, put_together_in_order, put_together_says, same_text, says,
    says_in_order,
};
use crate::types::FlowFormat;
use vstd::prelude::*;

verus! {

/// ST 2110-20 video RTP + payload header size (bytes).
pub const VIDEO_HEADER_SIZE: u32 = 20;

/// ST 2110-30 audio RTP header size (bytes).
pub const AUDIO_HEADER_SIZE: u32 = 12;

/// ST 2110-40 RFC 8331 header (12-byte RTP + 8-byte payload header).
///
/// Set on `nvdsudpsrc` only: enables header/data split for ANC depayload.
/// Per-packet sizes are taken from the received packets; `payload-size` stays at
/// the plugin default.
pub const ANC_HEADER_SIZE: u32 = 20;

/// Default maximum raw RTP payload per video packet (bytes).
///
/// Ethernet MTU 1500 minus IPv4 (20), UDP (8), RTP (12), and the ST 2110-20 single
/// sample-row-data RTP payload header (8).
pub const DEFAULT_MAX_VIDEO_RTP_PAYLOAD: u32 = 1452;

/// Default `a=ptime:` when SDP omits it: 1 ms.
pub const DEFAULT_PTIME_NS: u64 = 1_000_000;

/// Default `nvdsudpsrc.payload-multiple` cadence: 16 ms of audio per output buffer
/// when `ptime` is 1 ms.
pub const DEFAULT_AUDIO_BUFFER_NS: u64 = 16_000_000;

/// Minimum raw bytes per video packet (`nvdsudpsrc.payload-size`).
///
/// ST 2110-20 discourages datagrams under 1000 octets except at field boundaries;
/// Rivermax's smallest known working line split is 800 bytes per packet (1280x720
/// UYVP, four packets per line).
pub const MIN_SRC_PAYLOAD_PER_PACKET: u32 = 800;

#[derive(Debug, Clone, Copy, PartialEq, Eq, Structural)]
pub struct VideoPacketization {
    /// `nvdsudpsink.payload-size` (includes [`VIDEO_HEADER_SIZE`]).
    pub sink_payload_size: u32,
    /// `nvdsudpsrc.payload-size` (excludes header).
    pub src_payload_size: u32,
    /// `nvdsudpsink.packets-per-line`.
    pub packets_per_line: u32,
}

#[derive(Debug, Clone, Copy, PartialEq, Eq, Structural)]
pub struct AudioPacketization {
    /// `nvdsudpsink.payload-size` (includes [`AUDIO_HEADER_SIZE`]).
    pub sink_payload_size: u32,
    /// `nvdsudpsrc.payload-size` (excludes header).
    pub src_payload_size: u32,
    /// `nvdsudpsrc.payload-multiple`.
    pub payload_multiple: u32,
}

#[derive(Debug, Clone, Copy, PartialEq, Eq, Structural)]
pub enum Packetization {
    Video(VideoPacketization),
    Audio(AudioPacketization),
    /// ST 2110-40 ANC: plugin defaults for `payload-size`; src needs
    /// [`ANC_HEADER_SIZE`] only.
    Anc,
}

/// Why no packetization follows from the caps.
#[derive(Debug, PartialEq, Eq)]
pub enum PacketizationError {
    EmptyVideoCaps,
    EmptyAudioCaps,
    EmptyAncCaps,
    MissingVideoFormat,
    MissingAudioFormat,
    UnsupportedVideoFormat { format: String },
    UnsupportedAudioFormat { format: String },
    MissingWidth,
    NegativeWidth,
    ZeroWidth,
    StrideOverflow { width: u32, format: String },
    ZeroMaxPayload,
    /// The line is too short for packets of the minimum size.
    LineTooShort { stride: u32, min_ppl: u32, max_ppl: u32 },
    /// No admissible number of packets divides the line.
    NoDivisor { stride: u32, min_ppl: u32, max_ppl: u32 },
    BadPtime { ptime: String },
    ZeroPtime,
    MissingRate,
    NegativeRate,
    MissingChannels,
    NegativeChannels,
    ZeroRateOrChannels,
    PayloadOverflow,
    ZeroPayload { rate: u32, ptime_ns: u64, format: String, channels: u32 },
    NotAncCaps { name: String },
    AncAlignment { alignment: String },
    UnspecifiedEssence,
}

pub enum PacketizationErrorModel {
    EmptyVideoCaps,
    EmptyAudioCaps,
    EmptyAncCaps,
    MissingVideoFormat,
    MissingAudioFormat,
    UnsupportedVideoFormat { format: Seq<char> },
    UnsupportedAudioFormat { format: Seq<char> },
    MissingWidth,
    NegativeWidth,
    ZeroWidth,
    StrideOverflow { width: u32, format: Seq<char> },
    ZeroMaxPayload,
    /// The line is too short for packets of the minimum size.
    LineTooShort { stride: u32, min_ppl: u32, max_ppl: u32 },
    /// No admissible number of packets divides the line.
    NoDivisor { stride: u32, min_ppl: u32, max_ppl: u32 },
    BadPtime { ptime: Seq<char> },
    ZeroPtime,
    MissingRate,
    NegativeRate,
    MissingChannels,
    NegativeChannels,
    ZeroRateOrChannels,
    PayloadOverflow,
    ZeroPayload { rate: u32, ptime_ns: u64, format: Seq<char>, channels: u32 },
    NotAncCaps { name: Seq<char> },
    AncAlignment { alignment: Seq<char> },
    UnspecifiedEssence,
}

impl DeepView for PacketizationError {
    type V = PacketizationErrorModel;

    open spec fn deep_view(&self) -> PacketizationErrorModel {
        match self {
            PacketizationError::EmptyVideoCaps => PacketizationErrorModel::EmptyVideoCaps,
            PacketizationError::EmptyAudioCaps => PacketizationErrorModel::EmptyAudioCaps,
            PacketizationError::EmptyAncCaps => PacketizationErrorModel::EmptyAncCaps,
            PacketizationError::MissingVideoFormat => PacketizationErrorModel::MissingVideoFormat,
            PacketizationError::MissingAudioFormat => PacketizationErrorModel::MissingAudioFormat,
            PacketizationError::UnsupportedVideoFormat { format } => PacketizationErrorModel::UnsupportedVideoFormat {
                format: format@,
            },
            PacketizationError::UnsupportedAudioFormat { format } => PacketizationErrorModel::UnsupportedAudioFormat {
                format: format@,
            },
            PacketizationError::MissingWidth => PacketizationErrorModel::MissingWidth,
            PacketizationError::NegativeWidth => PacketizationErrorModel::NegativeWidth,
            PacketizationError::ZeroWidth => PacketizationErrorModel::ZeroWidth,
            PacketizationError::StrideOverflow { width, format } => PacketizationErrorModel::StrideOverflow {
                width: *width,
                format: format@,
            },
            PacketizationError::ZeroMaxPayload => PacketizationErrorModel::ZeroMaxPayload,
            PacketizationError::LineTooShort { stride, min_ppl, max_ppl } => PacketizationErrorModel::LineTooShort {
                stride: *stride,
                min_ppl: *min_ppl,
                max_ppl: *max_ppl,
            },
            PacketizationError::NoDivisor { stride, min_ppl, max_ppl } => PacketizationErrorModel::NoDivisor {
                stride: *stride,
                min_ppl: *min_ppl,
                max_ppl: *max_ppl,
            },
            PacketizationError::BadPtime { ptime } => PacketizationErrorModel::BadPtime {
                ptime: ptime@,
            },
            PacketizationError::ZeroPtime => PacketizationErrorModel::ZeroPtime,
            PacketizationError::MissingRate => PacketizationErrorModel::MissingRate,
            PacketizationError::NegativeRate => PacketizationErrorModel::NegativeRate,
            PacketizationError::MissingChannels => PacketizationErrorModel::MissingChannels,
            PacketizationError::NegativeChannels => PacketizationErrorModel::NegativeChannels,
            PacketizationError::ZeroRateOrChannels => PacketizationErrorModel::ZeroRateOrChannels,
            PacketizationError::PayloadOverflow => PacketizationErrorModel::PayloadOverflow,
            PacketizationError::ZeroPayload { rate, ptime_ns, format, channels } => PacketizationErrorModel::ZeroPayload {
                rate: *rate,
                ptime_ns: *ptime_ns,
                format: format@,
                channels: *channels,
            },
            PacketizationError::NotAncCaps { name } => PacketizationErrorModel::NotAncCaps {
                name: name@,
            },
            PacketizationError::AncAlignment { alignment } => PacketizationErrorModel::AncAlignment {
                alignment: alignment@,
            },
            PacketizationError::UnspecifiedEssence => PacketizationErrorModel::UnspecifiedEssence,
        }
    }
}

impl PacketizationErrorModel {
    /// The wording of the error.
    pub open spec fn text(self) -> Seq<char> {
        match self {
            PacketizationErrorModel::EmptyVideoCaps => "raw video caps empty"@,
            PacketizationErrorModel::EmptyAudioCaps => "raw audio caps empty"@,
            PacketizationErrorModel::EmptyAncCaps => "ANC raw caps empty"@,
            PacketizationErrorModel::MissingVideoFormat => "raw video caps missing `format`"@,
            PacketizationErrorModel::MissingAudioFormat => "raw audio caps missing `format`"@,
            PacketizationErrorModel::UnsupportedVideoFormat { format } =>
                "unsupported video format `"@ + format + "` for nvdsudp packetization"@,
            PacketizationErrorModel::UnsupportedAudioFormat { format } =>
                "unsupported audio format `"@ + format + "` for nvdsudp packetization"@,
            PacketizationErrorModel::MissingWidth => "raw video caps missing `width`"@,
            PacketizationErrorModel::NegativeWidth => "`width` must be non-negative"@,
            PacketizationErrorModel::ZeroWidth => "raw video caps `width` must be > 0"@,
            PacketizationErrorModel::StrideOverflow { width, format } =>
                "line stride overflow for width="@ + decimal(width as nat) + ", format="@ + format,
            PacketizationErrorModel::ZeroMaxPayload => "max_rtp_payload must be > 0"@,
            PacketizationErrorModel::LineTooShort { stride, min_ppl, max_ppl } =>
                "no packets-per-line satisfies stride "@ + decimal(stride as nat)
                    + " with at least 800 bytes per packet (min ppl "@ + decimal(min_ppl as nat)
                    + ", max ppl "@ + decimal(max_ppl as nat) + ")"@,
            PacketizationErrorModel::NoDivisor { stride, min_ppl, max_ppl } =>
                "no packets-per-line divides line stride "@ + decimal(stride as nat)
                    + " between "@ + decimal(min_ppl as nat) + " and "@ + decimal(max_ppl as nat),
            PacketizationErrorModel::BadPtime { ptime } =>
                "parsing a-ptime=`"@ + ptime + "` for nvdsudp audio packetization"@,
            PacketizationErrorModel::ZeroPtime => "ptime_ns must be > 0"@,
            PacketizationErrorModel::MissingRate => "raw audio caps missing `rate`"@,
            PacketizationErrorModel::NegativeRate => "`rate` must be non-negative"@,
            PacketizationErrorModel::MissingChannels => "raw audio caps missing `channels`"@,
            PacketizationErrorModel::NegativeChannels => "`channels` must be non-negative"@,
            PacketizationErrorModel::ZeroRateOrChannels =>
                "audio `rate` and `channels` must be > 0"@,
            PacketizationErrorModel::PayloadOverflow => "audio payload size calculation overflow"@,
            PacketizationErrorModel::ZeroPayload { rate, ptime_ns, format, channels } =>
                "computed audio payload size is zero (rate="@ + decimal(rate as nat)
                    + ", ptime_ns="@ + decimal(ptime_ns as nat) + ", format="@ + format
                    + ", channels="@ + decimal(channels as nat) + ")"@,
            PacketizationErrorModel::NotAncCaps { name } =>
                "nvdsudp ANC expects meta/x-st-2038 caps, got `"@ + name + "`"@,
            PacketizationErrorModel::AncAlignment { alignment } =>
                "nvdsudp ANC requires alignment=frame, got `"@ + alignment + "`"@,
            PacketizationErrorModel::UnspecifiedEssence =>
                "nvdsudp Mode 3 does not support unspecified essence format"@,
        }
    }
}

impl PacketizationError {
    /// What is said of the error.
    pub fn message(&self) -> (r: String)
        ensures
            r@ == self.deep_view().text(),
    {
        match self {
            PacketizationError::EmptyVideoCaps => "raw video caps empty".to_owned(),
            PacketizationError::EmptyAudioCaps => "raw audio caps empty".to_owned(),
            PacketizationError::EmptyAncCaps => "ANC raw caps empty".to_owned(),
            PacketizationError::MissingVideoFormat => "raw video caps missing `format`".to_owned(),
            PacketizationError::MissingAudioFormat => "raw audio caps missing `format`".to_owned(),
            PacketizationError::UnsupportedVideoFormat { format } => {
                let mut r = joined("unsupported video format `", format.as_str());
                r.append("` for nvdsudp packetization");
                r
            },
            PacketizationError::UnsupportedAudioFormat { format } => {
                let mut r = joined("unsupported audio format `", format.as_str());
                r.append("` for nvdsudp packetization");
                r
            },
            PacketizationError::MissingWidth => "raw video caps missing `width`".to_owned(),
            PacketizationError::NegativeWidth => "`width` must be non-negative".to_owned(),
            PacketizationError::ZeroWidth => "raw video caps `width` must be > 0".to_owned(),
            PacketizationError::StrideOverflow { width, format } => {
                let mut r = joined(
                    "line stride overflow for width=",
                    decimal_text(*width as u64).as_str(),
                );
                r.append(", format=");
                r.append(format.as_str());
                r
            },
            PacketizationError::ZeroMaxPayload => "max_rtp_payload must be > 0".to_owned(),
            PacketizationError::LineTooShort { stride, min_ppl, max_ppl } => {
                let mut r = joined(
                    "no packets-per-line satisfies stride ",
                    decimal_text(*stride as u64).as_str(),
                );
                r.append(" with at least 800 bytes per packet (min ppl ");
                r.append(decimal_text(*min_ppl as u64).as_str());
                r.append(", max ppl ");
                r.append(decimal_text(*max_ppl as u64).as_str());
                r.append(")");
                r
            },
            PacketizationError::NoDivisor { stride, min_ppl, max_ppl } => {
                let mut r = joined(
                    "no packets-per-line divides line stride ",
                    decimal_text(*stride as u64).as_str(),
                );
                r.append(" between ");
                r.append(decimal_text(*min_ppl as u64).as_str());
                r.append(" and ");
                r.append(decimal_text(*max_ppl as u64).as_str());
                r
            },
            PacketizationError::BadPtime { ptime } => {
                let mut r = joined("parsing a-ptime=`", ptime.as_str());
                r.append("` for nvdsudp audio packetization");
                r
            },
            PacketizationError::ZeroPtime => "ptime_ns must be > 0".to_owned(),
            PacketizationError::MissingRate => "raw audio caps missing `rate`".to_owned(),
            PacketizationError::NegativeRate => "`rate` must be non-negative".to_owned(),
            PacketizationError::MissingChannels => "raw audio caps missing `channels`".to_owned(),
            PacketizationError::NegativeChannels => "`channels` must be non-negative".to_owned(),
            PacketizationError::ZeroRateOrChannels =>
                "audio `rate` and `channels` must be > 0".to_owned(),
            PacketizationError::PayloadOverflow =>
                "audio payload size calculation overflow".to_owned(),
            PacketizationError::ZeroPayload { rate, ptime_ns, format, channels } => {
                let mut r = joined(
                    "computed audio payload size is zero (rate=",
                    decimal_text(*rate as u64).as_str(),
                );
                r.append(", ptime_ns=");
                r.append(decimal_text(*ptime_ns).as_str());
                r.append(", format=");
                r.append(format.as_str());
                r.append(", channels=");
                r.append(decimal_text(*channels as u64).as_str());
                r.append(")");
                r
            },
            PacketizationError::NotAncCaps { name } => {
                let mut r = joined("nvdsudp ANC expects meta/x-st-2038 caps, got `", name.as_str());
                r.append("`");
                r
            },
            PacketizationError::AncAlignment { alignment } => {
                let mut r = joined(
                    "nvdsudp ANC requires alignment=frame, got `",
                    alignment.as_str(),
                );
                r.append("`");
                r
            },
            PacketizationError::UnspecifiedEssence =>
                "nvdsudp Mode 3 does not support unspecified essence format".to_owned(),
        }
    }
}

/// A result, with its error taken by its view.
pub open spec fn outcome<T>(r: Result<T, PacketizationError>) -> Result<
    T,
    PacketizationErrorModel,
> {
    match r {
        Ok(v) => Ok(v),
        Err(e) => Err(e.deep_view()),
    }
}

/// RFC 4175 / ST 2110-20 packing group for a video `format`.
#[derive(Debug, Clone, Copy, PartialEq, Eq, Structural)]
pub struct VideoPgroup {
    pub pixels_per_group: u32,
    pub bytes_per_group: u32,
}

/// 8-bit 4:2:2 takes two bytes per pixel, 10-bit 4:2:2 five bytes per two pixels,
/// 8-bit RGB 4:4:4 three bytes per pixel.
pub open spec fn pgroup_of(format: Seq<char>) -> Option<VideoPgroup> {
    if format == "UYVY"@ {
        Some(VideoPgroup { pixels_per_group: 1, bytes_per_group: 2 })
    } else if format == "UYVP"@ {
        Some(VideoPgroup { pixels_per_group: 2, bytes_per_group: 5 })
    } else if format == "RGB"@ {
        Some(VideoPgroup { pixels_per_group: 1, bytes_per_group: 3 })
    } else {
        None
    }
}

pub fn video_pgroup(format: &str) -> (r: Result<VideoPgroup, PacketizationError>)
    ensures
        match r {
            Ok(pg) => pgroup_of(format@) == Some(pg),
            Err(e) => pgroup_of(format@) is None && e.deep_view()
                == PacketizationErrorModel::UnsupportedVideoFormat { format: format@ },
        },
{
    if same_text(format, "UYVY") {
        Ok(VideoPgroup { pixels_per_group: 1, bytes_per_group: 2 })
    } else if same_text(format, "UYVP") {
        Ok(VideoPgroup { pixels_per_group: 2, bytes_per_group: 5 })
    } else if same_text(format, "RGB") {
        Ok(VideoPgroup { pixels_per_group: 1, bytes_per_group: 3 })
    } else {
        Err(PacketizationError::UnsupportedVideoFormat { format: format.to_owned() })
    }
}

/// `a / b`, rounded up.
pub open spec fn ceil_div(a: int, b: int) -> int {
    (a + b - 1) / b
}

/// Bytes of one scan line: whole packing groups, the last one padded.
pub open spec fn line_stride(width: int, pg: VideoPgroup) -> int {
    ceil_div(width, pg.pixels_per_group as int) * pg.bytes_per_group
}

/// What the stride of a line comes to.
pub open spec fn stride_result(
    width: u32,
    format: Seq<char>,
    r: Result<u32, PacketizationErrorModel>,
) -> bool {
    match pgroup_of(format) {
        None => r == Err::<u32, _>(
            PacketizationErrorModel::UnsupportedVideoFormat { format },
        ),
        Some(pg) => if line_stride(width as int, pg) > u32::MAX {
            r == Err::<u32, _>(PacketizationErrorModel::StrideOverflow { width, format })
        } else {
            r matches Ok(stride) && stride == line_stride(width as int, pg)
        },
    }
}

/// Line stride in bytes for one ST 2110-20 scan line.
///
/// When `width` is not a whole number of packing groups, the line is padded up to the
/// next group boundary (RFC 4175 / ST 2110-20 line padding), which must not pass the
/// last `u32`.
pub fn video_line_stride(width: u32, format: &str) -> (r: Result<u32, PacketizationError>)
    requires
        format@ == "UYVP"@ ==> width < u32::MAX,
    ensures
        stride_result(width, format@, outcome(r)),
{
    let pg = match video_pgroup(format) {
        Ok(pg) => pg,
        Err(e) => {
            return Err(e);
        },
    };
    let groups: u32 = if width % pg.pixels_per_group == 0 {
        width / pg.pixels_per_group
    } else {
        width / pg.pixels_per_group + 1
    };
    match groups.checked_mul(pg.bytes_per_group) {
        Some(stride) => Ok(stride),
        None => Err(PacketizationError::StrideOverflow { width, format: format.to_owned() }),
    }
}

/// `ppl` packets of equal size fill a line, each no larger than `max` and no smaller
/// than the minimum.
pub open spec fn fills_line(stride: int, max: int, ppl: int) -> bool {
    ceil_div(stride, max) <= ppl <= stride / (MIN_SRC_PAYLOAD_PER_PACKET as int) && stride % ppl
        == 0
}

/// Smallest divisor of `stride` that is at least `stride / max_payload`, rounded up,
/// and yields at least [`MIN_SRC_PAYLOAD_PER_PACKET`] bytes per packet. A line of no
/// bytes has no such divisor to look for.
pub fn choose_packets_per_line(stride: u32, max_rtp_payload: u32) -> (r: Result<
    u32,
    PacketizationError,
>)
    requires
        stride > 0 || max_rtp_payload == 0,
    ensures
        max_rtp_payload == 0 ==> outcome(r) == Err::<u32, _>(
            PacketizationErrorModel::ZeroMaxPayload,
        ),
        max_rtp_payload > 0 ==> ({
            let min_ppl = ceil_div(stride as int, max_rtp_payload as int);
            let max_ppl = stride as int / MIN_SRC_PAYLOAD_PER_PACKET as int;
            match r {
                Ok(ppl) => fills_line(stride as int, max_rtp_payload as int, ppl as int)
                    && forall|p: int|
                    p < ppl ==> !fills_line(stride as int, max_rtp_payload as int, p),
                Err(e) => (forall|p: int| !fills_line(stride as int, max_rtp_payload as int, p))
                    && e.deep_view() == if min_ppl > max_ppl {
                    PacketizationErrorModel::LineTooShort {
                        stride,
                        min_ppl: min_ppl as u32,
                        max_ppl: max_ppl as u32,
                    }
                } else {
                    PacketizationErrorModel::NoDivisor {
                        stride,
                        min_ppl: min_ppl as u32,
                        max_ppl: max_ppl as u32,
                    }
                },
            }
        }),
{
    if max_rtp_payload == 0 {
        return Err(PacketizationError::ZeroMaxPayload);
    }
    proof {
        let q = stride as int / max_rtp_payload as int;
        let m = max_rtp_payload as int;
        vstd::arithmetic::div_mod::lemma_fundamental_div_mod(stride as int, m);
        vstd::arithmetic::div_mod::lemma_div_pos_is_pos(stride as int, m);
        assert(q <= m * q) by (nonlinear_arith)
            requires
                q >= 0,
                m >= 1,
        ;
    }
    let min_ppl: u32 = if stride % max_rtp_payload == 0 {
        stride / max_rtp_payload
    } else {
        stride / max_rtp_payload + 1
    };
    proof {
        ceil_div_by_remainder(stride as int, max_rtp_payload as int);
    }
    let max_ppl: u32 = stride / MIN_SRC_PAYLOAD_PER_PACKET;
    if min_ppl > max_ppl {
        return Err(PacketizationError::LineTooShort { stride, min_ppl, max_ppl });
    }
    let mut ppl: u32 = min_ppl;
    while ppl <= max_ppl
        invariant
            stride > 0,
            max_rtp_payload > 0,
            min_ppl == ceil_div(stride as int, max_rtp_payload as int),
            max_ppl == stride / MIN_SRC_PAYLOAD_PER_PACKET,
            0 < min_ppl <= ppl <= max_ppl + 1,
            forall|p: int| p < ppl ==> !fills_line(stride as int, max_rtp_payload as int, p),
        decreases max_ppl + 1 - ppl,
    {
        if stride % ppl == 0 {
            return Ok(ppl);
        }
        ppl = ppl + 1;
    }
    Err(PacketizationError::NoDivisor { stride, min_ppl, max_ppl })
}

proof fn ceil_div_by_remainder(a: int, b: int)
    requires
        a >= 0,
        b > 0,
    ensures
        ceil_div(a, b) == if a % b == 0 {
            a / b
        } else {
            a / b + 1
        },
        a > 0 ==> ceil_div(a, b) > 0,
{
    let q = a / b;
    let r = a % b;
    assert(a == q * b + r && 0 <= r < b) by {
        vstd::arithmetic::div_mod::lemma_fundamental_div_mod(a, b);
        vstd::arithmetic::mul::lemma_mul_is_commutative(q, b);
    }
    if r == 0 {
        vstd::arithmetic::div_mod::lemma_fundamental_div_mod_converse(a + b - 1, b, q, b - 1);
        if a > 0 {
            assert(q > 0) by (nonlinear_arith)
                requires
                    q * b == a,
                    a > 0,
                    b > 0,
            ;
        }
    } else {
        assert(a + b - 1 == (q + 1) * b + (r - 1)) by (nonlinear_arith)
            requires
                a == q * b + r,
        ;
        vstd::arithmetic::div_mod::lemma_fundamental_div_mod_converse(
            a + b - 1,
            b,
            q + 1,
            r - 1,
        );
        assert(q >= 0) by {
            vstd::arithmetic::div_mod::lemma_div_pos_is_pos(a, b);
        }
    }
}

/// The width and format that a video structure gives, or what it lacks.
pub open spec fn video_geometry(caps: CapsModel) -> Result<
    (u32, Seq<char>),
    PacketizationErrorModel,
> {
    match caps.first() {
        None => Err(PacketizationErrorModel::EmptyVideoCaps),
        Some(s) => match (s.text_field("format"@), s.int_field("width"@)) {
            (None, _) => Err(PacketizationErrorModel::MissingVideoFormat),
            (_, None) => Err(PacketizationErrorModel::MissingWidth),
            (Some(format), Some(width)) => if width < 0 {
                Err(PacketizationErrorModel::NegativeWidth)
            } else {
                Ok((width as u32, format))
            },
        },
    }
}

fn read_video_geometry(caps: &Caps) -> (r: Result<(u32, &str), PacketizationError>)
    ensures
        match r {
            Ok((width, format)) => video_geometry(caps.deep_view()) == Ok::<
                _,
                PacketizationErrorModel,
            >((width, format@)) && width <= i32::MAX,
            Err(e) => video_geometry(caps.deep_view()) == Err::<(u32, Seq<char>), _>(
                e.deep_view(),
            ),
        },
{
    let s = match caps.first() {
        Some(s) => s,
        None => {
            return Err(PacketizationError::EmptyVideoCaps);
        },
    };
    let format = match s.get_text("format") {
        Some(f) => f,
        None => {
            return Err(PacketizationError::MissingVideoFormat);
        },
    };
    match s.get_int("width") {
        None => Err(PacketizationError::MissingWidth),
        Some(width) => if width < 0 {
            Err(PacketizationError::NegativeWidth)
        } else {
            Ok((width as u32, format))
        },
    }
}

/// The packetization of a video line of `stride` bytes in `ppl` packets.
pub open spec fn video_split(stride: int, ppl: int) -> VideoPacketization {
    VideoPacketization {
        sink_payload_size: (stride / ppl + VIDEO_HEADER_SIZE) as u32,
        src_payload_size: (stride / ppl) as u32,
        packets_per_line: ppl as u32,
    }
}

/// What video packetization comes to.
pub open spec fn video_result(
    caps: CapsModel,
    max_rtp_payload: u32,
    r: Result<VideoPacketization, PacketizationErrorModel>,
) -> bool {
    match video_geometry(caps) {
        Err(e) => r == Err::<VideoPacketization, _>(e),
        Ok((width, format)) => if width == 0 {
            r == Err::<VideoPacketization, _>(PacketizationErrorModel::ZeroWidth)
        } else {
            match pgroup_of(format) {
                None => r == Err::<VideoPacketization, _>(
                    PacketizationErrorModel::UnsupportedVideoFormat { format },
                ),
                Some(pg) => {
                    let stride = line_stride(width as int, pg);
                    let max = max_rtp_payload as int;
                    let min_ppl = ceil_div(stride, max);
                    let max_ppl = stride / MIN_SRC_PAYLOAD_PER_PACKET as int;
                    if stride > u32::MAX {
                        r == Err::<VideoPacketization, _>(
                            PacketizationErrorModel::StrideOverflow { width, format },
                        )
                    } else if max == 0 {
                        r == Err::<VideoPacketization, _>(PacketizationErrorModel::ZeroMaxPayload)
                    } else {
                        match r {
                            Ok(pkt) => ({
                                let ppl = pkt.packets_per_line as int;
                                &&& fills_line(stride, max, ppl)
                                &&& forall|p: int| p < ppl ==> !fills_line(stride, max, p)
                                &&& pkt == video_split(stride, ppl)
                            }),
                            Err(e) => (forall|p: int| !fills_line(stride, max, p)) && e
                                == if min_ppl > max_ppl {
                                PacketizationErrorModel::LineTooShort {
                                    stride: stride as u32,
                                    min_ppl: min_ppl as u32,
                                    max_ppl: max_ppl as u32,
                                }
                            } else {
                                PacketizationErrorModel::NoDivisor {
                                    stride: stride as u32,
                                    min_ppl: min_ppl as u32,
                                    max_ppl: max_ppl as u32,
                                }
                            },
                        }
                    }
                },
            }
        },
    }
}

/// A whole line in a single packet leaves room for the header.
pub open spec fn header_fits(caps: CapsModel, max_rtp_payload: u32) -> bool {
    video_geometry(caps) matches Ok((width, format)) ==> pgroup_of(format) matches Some(pg) ==> {
        let stride = line_stride(width as int, pg);
        !(u32::MAX - VIDEO_HEADER_SIZE < stride <= max_rtp_payload)
    }
}

/// Compute video packetization for a `video/x-raw` caps structure.
pub fn video_from_caps(caps: &Caps, max_rtp_payload: u32) -> (r: Result<
    VideoPacketization,
    PacketizationError,
>)
    requires
        header_fits(caps.deep_view(), max_rtp_payload),
    ensures
        video_result(caps.deep_view(), max_rtp_payload, outcome(r)),
{
    let (width, format): (u32, &str) = match read_video_geometry(caps) {
        Ok(g) => g,
        Err(e) => {
            return Err(e);
        },
    };
    if width == 0 {
        return Err(PacketizationError::ZeroWidth);
    }
    let stride: u32 = match video_line_stride(width, format) {
        Ok(s) => s,
        Err(e) => {
            return Err(e);
        },
    };
    proof {
        let pg = pgroup_of(format@)->0;
        ceil_div_by_remainder(width as int, pg.pixels_per_group as int);
        let groups = ceil_div(width as int, pg.pixels_per_group as int);
        assert(groups * pg.bytes_per_group > 0) by (nonlinear_arith)
            requires
                groups > 0,
                pg.bytes_per_group > 0,
        ;
    }
    let ppl: u32 = match choose_packets_per_line(stride, max_rtp_payload) {
        Ok(p) => p,
        Err(e) => {
            return Err(e);
        },
    };
    proof {
        ceil_div_by_remainder(stride as int, max_rtp_payload as int);
        payload_in_range(stride as int, max_rtp_payload as int, ppl as int);
        let size = stride as int / ppl as int;
        if size > u32::MAX - VIDEO_HEADER_SIZE {
            assert(ppl == 1) by (nonlinear_arith)
                requires
                    ppl > 0,
                    ppl * size == stride,
                    size > u32::MAX - VIDEO_HEADER_SIZE,
                    stride <= u32::MAX,
            ;
            assert(size == stride) by (nonlinear_arith)
                requires
                    ppl == 1,
                    ppl * size == stride,
            ;
            assert(header_fits(caps.deep_view(), max_rtp_payload));
            assert(line_stride(width as int, pgroup_of(format@)->0) == stride);
            assert(stride <= max_rtp_payload);
        }
    }
    let src_payload_size: u32 = stride / ppl;
    Ok(
        VideoPacketization {
            sink_payload_size: src_payload_size + VIDEO_HEADER_SIZE,
            src_payload_size,
            packets_per_line: ppl,
        },
    )
}

/// Packets tile the line exactly, each with no more than `max` bytes and no fewer than
/// the minimum.
pub proof fn payload_in_range(stride: int, max: int, ppl: int)
    requires
        stride > 0,
        max > 0,
        fills_line(stride, max, ppl),
    ensures
        ppl * (stride / ppl) == stride,
        MIN_SRC_PAYLOAD_PER_PACKET <= stride / ppl <= max,
{
    ceil_div_by_remainder(stride, max);
    vstd::arithmetic::div_mod::lemma_fundamental_div_mod(stride, ppl);
    let size = stride / ppl;
    assert(size * ppl == stride) by {
        vstd::arithmetic::mul::lemma_mul_is_commutative(ppl, size);
    }
    assert(size <= max) by {
        let q = stride / max;
        vstd::arithmetic::div_mod::lemma_fundamental_div_mod(stride, max);
        assert(ppl * max >= stride) by (nonlinear_arith)
            requires
                stride == max * q + stride % max,
                stride % max < max,
                stride % max >= 0,
                ppl >= if stride % max == 0 {
                    q
                } else {
                    q + 1
                },
                max > 0,
        ;
        assert(size <= max) by (nonlinear_arith)
            requires
                size * ppl == stride,
                ppl * max >= stride,
                ppl > 0,
        ;
    }
    assert(800 <= size) by (nonlinear_arith)
        requires
            size * ppl == stride,
            ppl <= stride / 800,
            ppl > 0,
    ;
}

// ---- audio ------------------------------------------------------------------

pub open spec fn sample_bytes_of(format: Seq<char>) -> Option<u32> {
    if format == "S24BE"@ {
        Some(3)
    } else if format == "S16BE"@ {
        Some(2)
    } else {
        None
    }
}

pub fn audio_sample_bytes(format: &str) -> (r: Result<u32, PacketizationError>)
    ensures
        match r {
            Ok(n) => sample_bytes_of(format@) == Some(n),
            Err(e) => sample_bytes_of(format@) is None && e.deep_view()
                == PacketizationErrorModel::UnsupportedAudioFormat { format: format@ },
        },
{
    if same_text(format, "S24BE") {
        Ok(3)
    } else if same_text(format, "S16BE") {
        Ok(2)
    } else {
        Err(PacketizationError::UnsupportedAudioFormat { format: format.to_owned() })
    }
}

/// The rate, channel count and format that an audio structure gives, or what it lacks.
pub open spec fn audio_geometry(caps: CapsModel) -> Result<
    (u32, u32, Seq<char>),
    PacketizationErrorModel,
> {
    match caps.first() {
        None => Err(PacketizationErrorModel::EmptyAudioCaps),
        Some(s) => match (s.text_field("format"@), s.int_field("rate"@), s.int_field("channels"@)) {
            (None, _, _) => Err(PacketizationErrorModel::MissingAudioFormat),
            (_, None, _) => Err(PacketizationErrorModel::MissingRate),
            (Some(format), Some(rate), channels) => if rate < 0 {
                Err(PacketizationErrorModel::NegativeRate)
            } else {
                match channels {
                    None => Err(PacketizationErrorModel::MissingChannels),
                    Some(channels) => if channels < 0 {
                        Err(PacketizationErrorModel::NegativeChannels)
                    } else if rate == 0 || channels == 0 {
                        Err(PacketizationErrorModel::ZeroRateOrChannels)
                    } else {
                        Ok((rate as u32, channels as u32, format))
                    },
                }
            },
        },
    }
}

fn read_audio_geometry(caps: &Caps) -> (r: Result<(u32, u32, &str), PacketizationError>)
    ensures
        match r {
            Ok((rate, channels, format)) => audio_geometry(caps.deep_view()) == Ok::<
                _,
                PacketizationErrorModel,
            >((rate, channels, format@)) && 0 < rate <= i32::MAX && 0 < channels <= i32::MAX,
            Err(e) => audio_geometry(caps.deep_view()) == Err::<(u32, u32, Seq<char>), _>(
                e.deep_view(),
            ),
        },
{
    let s = match caps.first() {
        Some(s) => s,
        None => {
            return Err(PacketizationError::EmptyAudioCaps);
        },
    };
    let format = match s.get_text("format") {
        Some(f) => f,
        None => {
            return Err(PacketizationError::MissingAudioFormat);
        },
    };
    let rate: i32 = match s.get_int("rate") {
        Some(n) => n,
        None => {
            return Err(PacketizationError::MissingRate);
        },
    };
    if rate < 0 {
        return Err(PacketizationError::NegativeRate);
    }
    let channels: i32 = match s.get_int("channels") {
        Some(n) => n,
        None => {
            return Err(PacketizationError::MissingChannels);
        },
    };
    if channels < 0 {
        return Err(PacketizationError::NegativeChannels);
    }
    if rate == 0 || channels == 0 {
        return Err(PacketizationError::ZeroRateOrChannels);
    }
    Ok((rate as u32, channels as u32, format))
}

/// Bytes of audio in one packet, in units of a billionth of a byte.
pub open spec fn audio_nanobytes(rate: int, ptime_ns: int, bytes: int, channels: int) -> int {
    rate * ptime_ns * bytes * channels
}

/// Rounded to the nearest whole byte, as the low 32 bits hold it.
pub open spec fn rounded_bytes(nanobytes: int) -> int {
    ((nanobytes + 500_000_000) / 1_000_000_000) % 0x1_0000_0000
}

/// Packets per output buffer: 16 ms of audio, rounded to a whole number of packets,
/// at least one.
pub open spec fn buffer_packets(ptime_ns: int) -> int {
    let n = (DEFAULT_AUDIO_BUFFER_NS + ptime_ns / 2) / ptime_ns;
    if n < 1 {
        1
    } else {
        n
    }
}

/// The rounding and the header stay within the machine's integers.
pub open spec fn audio_size_fits(caps: CapsModel, ptime_ns: u64) -> bool {
    audio_geometry(caps) matches Ok((rate, channels, format)) ==> sample_bytes_of(
        format,
    ) matches Some(bytes) ==> {
        let n = audio_nanobytes(rate as int, ptime_ns as int, bytes as int, channels as int);
        n > u64::MAX || (n + 500_000_000 <= u64::MAX && rounded_bytes(n) + AUDIO_HEADER_SIZE
            <= u32::MAX)
    }
}

/// What audio packetization comes to.
pub open spec fn audio_result(
    caps: CapsModel,
    ptime_ns: u64,
    r: Result<AudioPacketization, PacketizationErrorModel>,
) -> bool {
    if ptime_ns == 0 {
        r == Err::<AudioPacketization, _>(PacketizationErrorModel::ZeroPtime)
    } else {
        match audio_geometry(caps) {
            Err(e) => r == Err::<AudioPacketization, _>(e),
            Ok((rate, channels, format)) => match sample_bytes_of(format) {
                None => r == Err::<AudioPacketization, _>(
                    PacketizationErrorModel::UnsupportedAudioFormat { format },
                ),
                Some(bytes) => {
                    let n = audio_nanobytes(
                        rate as int,
                        ptime_ns as int,
                        bytes as int,
                        channels as int,
                    );
                    let size = rounded_bytes(n);
                    if n > u64::MAX {
                        r == Err::<AudioPacketization, _>(PacketizationErrorModel::PayloadOverflow)
                    } else if size == 0 {
                        r == Err::<AudioPacketization, _>(
                            PacketizationErrorModel::ZeroPayload { rate, ptime_ns, format, channels },
                        )
                    } else {
                        r == Ok::<_, PacketizationErrorModel>(
                            AudioPacketization {
                                sink_payload_size: (size + AUDIO_HEADER_SIZE) as u32,
                                src_payload_size: size as u32,
                                payload_multiple: buffer_packets(ptime_ns as int) as u32,
                            },
                        )
                    }
                },
            },
        }
    }
}

proof fn product_grows(a: int, b: int)
    requires
        a >= 0,
        b >= 1,
    ensures
        a <= a * b,
{
    assert(a <= a * b) by (nonlinear_arith)
        requires
            a >= 0,
            b >= 1,
    ;
}

/// The product of the four sizes, where it fits in 64 bits.
fn checked_nanobytes(rate: u32, ptime_ns: u64, bytes: u32, channels: u32) -> (r: Option<u64>)
    requires
        rate > 0,
        ptime_ns > 0,
        bytes > 0,
        channels > 0,
    ensures
        ({
            let n = audio_nanobytes(rate as int, ptime_ns as int, bytes as int, channels as int);
            match r {
                Some(v) => v == n,
                None => n > u64::MAX,
            }
        }),
{
    let ghost a = rate as int * ptime_ns as int;
    let ghost b = a * bytes as int;
    proof {
        product_grows(rate as int, ptime_ns as int);
        product_grows(a, bytes as int);
        product_grows(b, channels as int);
    }
    let x: u64 = match (rate as u64).checked_mul(ptime_ns) {
        Some(v) => v,
        None => {
            return None;
        },
    };
    let y: u64 = match x.checked_mul(bytes as u64) {
        Some(v) => v,
        None => {
            return None;
        },
    };
    y.checked_mul(channels as u64)
}

/// Compute audio packetization for an `audio/x-raw` caps structure.
pub fn audio_from_caps(caps: &Caps, ptime_ns: u64) -> (r: Result<
    AudioPacketization,
    PacketizationError,
>)
    requires
        audio_size_fits(caps.deep_view(), ptime_ns),
    ensures
        audio_result(caps.deep_view(), ptime_ns, outcome(r)),
{
    if ptime_ns == 0 {
        return Err(PacketizationError::ZeroPtime);
    }
    let (rate, channels, format): (u32, u32, &str) = match read_audio_geometry(caps) {
        Ok(g) => g,
        Err(e) => {
            return Err(e);
        },
    };
    let bytes: u32 = match audio_sample_bytes(format) {
        Ok(n) => n,
        Err(e) => {
            return Err(e);
        },
    };
    let numerator: u64 = match checked_nanobytes(rate, ptime_ns, bytes, channels) {
        Some(n) => n,
        None => {
            return Err(PacketizationError::PayloadOverflow);
        },
    };
    // Round to nearest whole byte when ptime does not divide sample grid exactly.
    let src_payload: u32 = (((numerator + 500_000_000) / 1_000_000_000) % 0x1_0000_0000) as u32;
    if src_payload == 0 {
        let format = format.to_owned();
        return Err(PacketizationError::ZeroPayload { rate, ptime_ns, format, channels });
    }
    let packets: u64 = (DEFAULT_AUDIO_BUFFER_NS + ptime_ns / 2) / ptime_ns;
    proof {
        let p = ptime_ns as int;
        let total = DEFAULT_AUDIO_BUFFER_NS + p / 2;
        vstd::arithmetic::div_mod::lemma_fundamental_div_mod(total, p);
        assert(packets <= DEFAULT_AUDIO_BUFFER_NS + 1) by (nonlinear_arith)
            requires
                total == p * packets + total % p,
                total % p >= 0,
                total <= DEFAULT_AUDIO_BUFFER_NS + p,
                p >= 1,
        ;
    }
    let payload_multiple: u32 = if packets < 1 {
        1
    } else {
        packets as u32
    };
    Ok(
        AudioPacketization {
            sink_payload_size: src_payload + AUDIO_HEADER_SIZE,
            src_payload_size: src_payload,
            payload_multiple,
        },
    )
}

/// Whether [`audio_from_caps`] can compute the sizes without leaving the machine's
/// integers.
pub fn audio_size_in_range(caps: &Caps, ptime_ns: u64) -> (r: bool)
    ensures
        r == audio_size_fits(caps.deep_view(), ptime_ns),
{
    let (rate, channels, format): (u32, u32, &str) = match read_audio_geometry(caps) {
        Ok(g) => g,
        Err(_) => {
            return true;
        },
    };
    let bytes: u32 = match audio_sample_bytes(format) {
        Ok(n) => n,
        Err(_) => {
            return true;
        },
    };
    if ptime_ns == 0 {
        assert(audio_nanobytes(rate as int, 0, bytes as int, channels as int) == 0)
            by (nonlinear_arith);
        return true;
    }
    match checked_nanobytes(rate, ptime_ns, bytes, channels) {
        None => true,
        Some(n) => n <= u64::MAX - 500_000_000 && ((n + 500_000_000) / 1_000_000_000)
            % 0x1_0000_0000 <= (u32::MAX - AUDIO_HEADER_SIZE) as u64,
    }
}

// ---- ancillary data ---------------------------------------------------------

/// What ANC packetization comes to.
pub open spec fn anc_result(caps: CapsModel) -> Result<Packetization, PacketizationErrorModel> {
    match caps.first() {
        None => Err(PacketizationErrorModel::EmptyAncCaps),
        Some(s) => if s.name != "meta/x-st-2038"@ {
            Err(PacketizationErrorModel::NotAncCaps { name: s.name })
        } else {
            match s.text_field("alignment"@) {
                Some(alignment) if alignment != "frame"@ => Err(
                    PacketizationErrorModel::AncAlignment { alignment },
                ),
                _ => Ok(Packetization::Anc),
            }
        },
    }
}

/// ST 2110-40 ANC (`meta/x-st-2038`). Mode-3 ANC is inherently per-frame: classify the
/// flow as ANC (drives `header-size`) and reject an explicit non-`frame` alignment
/// before a chain is built. An absent alignment is fine: transport-file caps never
/// carry the field.
pub fn anc_from_caps(caps: &Caps) -> (r: Result<Packetization, PacketizationError>)
    ensures
        outcome(r) == anc_result(caps.deep_view()),
{
    let s = match caps.first() {
        Some(s) => s,
        None => {
            return Err(PacketizationError::EmptyAncCaps);
        },
    };
    if !same_text(s.name.as_str(), "meta/x-st-2038") {
        return Err(PacketizationError::NotAncCaps { name: s.name.as_str().to_owned() });
    }
    match s.get_text("alignment") {
        Some(alignment) => if same_text(alignment, "frame") {
            Ok(Packetization::Anc)
        } else {
            Err(PacketizationError::AncAlignment { alignment: alignment.to_owned() })
        },
        None => Ok(Packetization::Anc),
    }
}

// ---- by essence -------------------------------------------------------------

/// The `a-ptime` text of RTP caps, where it is given.
pub fn ptime_text(rtp_caps: &Caps) -> (r: Option<&str>)
    ensures
        match rtp_caps.deep_view().first() {
            None => r is None,
            Some(s) => match r {
                Some(t) => s.text_field("a-ptime"@) == Some(t@),
                None => s.text_field("a-ptime"@) is None,
            },
        },
{
    match rtp_caps.first() {
        Some(s) => s.get_text("a-ptime"),
        None => None,
    }
}

/// The packet time: what the `a-ptime` text stands for, or the default where there is
/// no such text. `parsed` is that text read as a positive number of milliseconds, in
/// nanoseconds, and `None` where it is no such number.
pub open spec fn packet_time(rtp_caps: CapsModel, parsed: Option<u64>) -> Result<
    u64,
    PacketizationErrorModel,
> {
    match rtp_caps.first() {
        Some(s) => match (s.text_field("a-ptime"@), parsed) {
            (None, _) => Ok(DEFAULT_PTIME_NS),
            (Some(_), Some(ptime_ns)) => Ok(ptime_ns),
            (Some(ptime), None) => Err(PacketizationErrorModel::BadPtime { ptime }),
        },
        None => Ok(DEFAULT_PTIME_NS),
    }
}

/// Derive Mode-3 packetization properties from essence caps and (for audio) the
/// hoisted `a-ptime` field on `application/x-rtp` caps, which `parsed_ptime` gives in
/// nanoseconds.
pub fn from_media(
    format: FlowFormat,
    caps: &Caps,
    rtp_caps: &Caps,
    parsed_ptime: Option<u64>,
) -> (r: Result<Packetization, PacketizationError>)
    requires
        format == FlowFormat::Audio ==> (packet_time(
            rtp_caps.deep_view(),
            parsed_ptime,
        ) matches Ok(ptime_ns) ==> audio_size_fits(caps.deep_view(), ptime_ns)),
    ensures
        match format {
            FlowFormat::Video => match r {
                Ok(Packetization::Video(pkt)) => video_result(
                    caps.deep_view(),
                    DEFAULT_MAX_VIDEO_RTP_PAYLOAD,
                    Ok(pkt),
                ),
                Ok(_) => false,
                Err(e) => video_result(
                    caps.deep_view(),
                    DEFAULT_MAX_VIDEO_RTP_PAYLOAD,
                    Err(e.deep_view()),
                ),
            },
            FlowFormat::Audio => match packet_time(rtp_caps.deep_view(), parsed_ptime) {
                Err(e) => outcome(r) == Err::<Packetization, _>(e),
                Ok(ptime_ns) => match r {
                    Ok(Packetization::Audio(pkt)) => audio_result(
                        caps.deep_view(),
                        ptime_ns,
                        Ok(pkt),
                    ),
                    Ok(_) => false,
                    Err(e) => audio_result(caps.deep_view(), ptime_ns, Err(e.deep_view())),
                },
            },
            FlowFormat::Data => outcome(r) == anc_result(caps.deep_view()),
            FlowFormat::Unspecified => outcome(r) == Err::<Packetization, _>(
                PacketizationErrorModel::UnspecifiedEssence,
            ),
        },
{
    match format {
        FlowFormat::Video => match video_from_caps(caps, DEFAULT_MAX_VIDEO_RTP_PAYLOAD) {
            Ok(pkt) => Ok(Packetization::Video(pkt)),
            Err(e) => Err(e),
        },
        FlowFormat::Audio => {
            let ptime_ns: u64 = match (ptime_text(rtp_caps), parsed_ptime) {
                (None, _) => DEFAULT_PTIME_NS,
                (Some(_), Some(ptime_ns)) => ptime_ns,
                (Some(ptime), None) => {
                    return Err(PacketizationError::BadPtime { ptime: ptime.to_owned() });
                },
            };
            match audio_from_caps(caps, ptime_ns) {
                Ok(pkt) => Ok(Packetization::Audio(pkt)),
                Err(e) => Err(e),
            }
        },
        FlowFormat::Data => anc_from_caps(caps),
        FlowFormat::Unspecified => Err(PacketizationError::UnspecifiedEssence),
    }
}

// ---- preset packetization ---------------------------------------------------

/// The line stride that a sink's settings imply: the payload without its header, times
/// the packets per line, as far as 32 bits hold it.
pub open spec fn configured_stride(sink_payload_size: u32, packets_per_line: u32) -> int {
    let payload = if sink_payload_size > VIDEO_HEADER_SIZE {
        sink_payload_size - VIDEO_HEADER_SIZE
    } else {
        0
    };
    if payload * packets_per_line > u32::MAX {
        u32::MAX as int
    } else {
        payload * packets_per_line
    }
}

/// Line stride implied by a sink's current `payload-size` and `packets-per-line`
/// (`payload-size` includes the ST 2110 header).
pub fn video_configured_stride(sink_payload_size: u32, packets_per_line: u32) -> (stride: u32)
    ensures
        stride == configured_stride(sink_payload_size, packets_per_line),
{
    let payload: u32 = if sink_payload_size > VIDEO_HEADER_SIZE {
        sink_payload_size - VIDEO_HEADER_SIZE
    } else {
        0
    };
    match payload.checked_mul(packets_per_line) {
        Some(stride) => stride,
        None => u32::MAX,
    }
}

/// Target line stride from `video/x-raw` caps.
pub fn video_target_stride(caps: &Caps) -> (r: Result<u32, PacketizationError>)
    ensures
        match video_geometry(caps.deep_view()) {
            Err(e) => outcome(r) == Err::<u32, _>(e),
            Ok((width, format)) => stride_result(width, format, outcome(r)),
        },
{
    match read_video_geometry(caps) {
        Ok((width, format)) => video_line_stride(width, format),
        Err(e) => Err(e),
    }
}

/// The stride of a line of the given video caps.
pub open spec fn essence_stride(caps: CapsModel) -> int {
    match video_geometry(caps) {
        Ok((width, format)) => line_stride(width as int, pgroup_of(format)->0),
        Err(_) => 0,
    }
}

/// What a sink whose `payload-size` and `packets-per-line` may be preset has to be set
/// to: nothing where the preset stride matches the essence, else the computed
/// packetization.
pub fn reconcile_sink_video_packetization(
    caps: &Caps,
    user_payload: u32,
    user_ppl: u32,
) -> (r: Result<Option<VideoPacketization>, PacketizationError>)
    ensures
        match r {
            Err(e) => video_result(
                caps.deep_view(),
                DEFAULT_MAX_VIDEO_RTP_PAYLOAD,
                Err(e.deep_view()),
            ),
            Ok(None) => configured_stride(user_payload, user_ppl) == essence_stride(
                caps.deep_view(),
            ) && exists|pkt: VideoPacketization| #[trigger]
                video_result(caps.deep_view(), DEFAULT_MAX_VIDEO_RTP_PAYLOAD, Ok(pkt)),
            Ok(Some(pkt)) => configured_stride(user_payload, user_ppl) != essence_stride(
                caps.deep_view(),
            ) && video_result(caps.deep_view(), DEFAULT_MAX_VIDEO_RTP_PAYLOAD, Ok(pkt)),
        },
{
    let calculated = match video_from_caps(caps, DEFAULT_MAX_VIDEO_RTP_PAYLOAD) {
        Ok(pkt) => pkt,
        Err(e) => {
            return Err(e);
        },
    };
    assert(video_result(caps.deep_view(), DEFAULT_MAX_VIDEO_RTP_PAYLOAD, Ok(calculated)));
    let target: u32 = match video_target_stride(caps) {
        Ok(stride) => stride,
        Err(e) => {
            assert(false);
            return Err(e);
        },
    };
    if video_configured_stride(user_payload, user_ppl) == target {
        Ok(None)
    } else {
        Ok(Some(calculated))
    }
}

/// Computed video packetization always matches the essence: the stride it implies on
/// the sink is the stride of the line, so it never has to be reconciled.
pub proof fn computed_stride_matches(
    caps: CapsModel,
    max_rtp_payload: u32,
    pkt: VideoPacketization,
)
    requires
        header_fits(caps, max_rtp_payload),
        video_result(caps, max_rtp_payload, Ok(pkt)),
    ensures
        configured_stride(pkt.sink_payload_size, pkt.packets_per_line) == essence_stride(caps),
        pkt.sink_payload_size == pkt.src_payload_size + VIDEO_HEADER_SIZE,
        MIN_SRC_PAYLOAD_PER_PACKET <= pkt.src_payload_size <= max_rtp_payload,
        pkt.src_payload_size * pkt.packets_per_line == essence_stride(caps),
{
    let stride = essence_stride(caps);
    let (width, format) = video_geometry(caps)->Ok_0;
    let pg = pgroup_of(format)->0;
    let ppl = pkt.packets_per_line as int;
    ceil_div_by_remainder(width as int, pg.pixels_per_group as int);
    let groups = ceil_div(width as int, pg.pixels_per_group as int);
    assert(groups * pg.bytes_per_group > 0) by (nonlinear_arith)
        requires
            groups > 0,
            pg.bytes_per_group > 0,
    ;
    payload_in_range(stride as int, max_rtp_payload as int, ppl);
    ceil_div_by_remainder(stride as int, max_rtp_payload as int);
    let size = stride as int / ppl;
    if size > u32::MAX - VIDEO_HEADER_SIZE {
        assert(ppl == 1) by (nonlinear_arith)
            requires
                ppl > 0,
                ppl * size == stride,
                size > u32::MAX - VIDEO_HEADER_SIZE,
                stride <= u32::MAX,
        ;
        assert(size == stride) by (nonlinear_arith)
            requires
                ppl == 1,
                ppl * size == stride,
        ;
    }
    vstd::arithmetic::mul::lemma_mul_is_commutative(ppl, size);
}

// ---- laws -------------------------------------------------------------------

/// The bytes of a sample, for the two sample formats.
pub open spec fn bytes_per_sample(format: Seq<char>) -> int {
    if format == "S24BE"@ {
        3
    } else {
        2
    }
}

/// An audio packet holds the samples of its packet time, of every channel: the source payload
/// is within half a byte of rate times packet time times sample bytes times channels, and the
/// sink payload is an RTP header longer. Packetization is owed wherever that is at least one
/// byte and fits.
pub proof fn audio_payload_is_nearest(
    caps: CapsModel,
    ptime_ns: u64,
    r: Result<AudioPacketization, PacketizationErrorModel>,
    rate: i32,
    channels: i32,
    format: Seq<char>,
)
    requires
        audio_result(caps, ptime_ns, r),
        ptime_ns > 0,
        caps.first() is Some,
        caps.first()->0.int_field("rate"@) == Some(rate),
        caps.first()->0.int_field("channels"@) == Some(channels),
        caps.first()->0.text_field("format"@) == Some(format),
        format == "S24BE"@ || format == "S16BE"@,
        rate > 0,
        channels > 0,
        1_000_000_000 <= rate * ptime_ns * bytes_per_sample(format) * channels
            <= 4_000_000_000_000_000_000,
    ensures
        r matches Ok(pkt) && -500_000_000 <= rate * ptime_ns * bytes_per_sample(format) * channels
            - pkt.src_payload_size * 1_000_000_000 <= 500_000_000 && pkt.sink_payload_size
            == pkt.src_payload_size + 12,
{
    let n = rate * ptime_ns * bytes_per_sample(format) * channels;
    assert("S16BE"@ != "S24BE"@) by {
        reveal_strlit("S16BE");
        reveal_strlit("S24BE");
        assert("S16BE"@[1] != "S24BE"@[1]);
    }
    assert(sample_bytes_of(format) matches Some(bytes) && bytes == bytes_per_sample(format));
    assert(n == audio_nanobytes(
        rate as int,
        ptime_ns as int,
        bytes_per_sample(format),
        channels as int,
    ));
}

/// Where a packet holds a whole number of sample frames, the source payload is the frames times
/// the sample's bytes times the channel count.
pub proof fn audio_packet_holds_whole_frames(
    caps: CapsModel,
    ptime_ns: u64,
    r: Result<AudioPacketization, PacketizationErrorModel>,
    rate: i32,
    channels: i32,
    format: Seq<char>,
    frames: int,
)
    requires
        audio_result(caps, ptime_ns, r),
        ptime_ns > 0,
        caps.first() is Some,
        caps.first()->0.int_field("rate"@) == Some(rate),
        caps.first()->0.int_field("channels"@) == Some(channels),
        caps.first()->0.text_field("format"@) == Some(format),
        format == "S24BE"@ || format == "S16BE"@,
        rate > 0,
        channels > 0,
        rate * ptime_ns == frames * 1_000_000_000,
        frames * bytes_per_sample(format) * channels <= 4_000_000_000,
    ensures
        r matches Ok(pkt) && pkt.src_payload_size == frames * bytes_per_sample(format) * channels
            && pkt.sink_payload_size == pkt.src_payload_size + 12,
{
    let b = bytes_per_sample(format);
    let size = frames * b * channels;
    let n = rate * ptime_ns * b * channels;
    assert(frames > 0) by (nonlinear_arith)
        requires
            rate * ptime_ns == frames * 1_000_000_000,
            rate > 0,
            ptime_ns > 0,
    ;
    assert(n == size * 1_000_000_000) by (nonlinear_arith)
        requires
            rate * ptime_ns == frames * 1_000_000_000,
            size == frames * b * channels,
            n == rate * ptime_ns * b * channels,
    ;
    assert(size >= 1) by (nonlinear_arith)
        requires
            frames > 0,
            b >= 1,
            channels > 0,
            size == frames * b * channels,
    ;
    audio_payload_is_nearest(caps, ptime_ns, r, rate, channels, format);
}

/// The payload grows in proportion to the channels.
pub proof fn audio_payload_follows_channels(
    narrow: CapsModel,
    wide: CapsModel,
    ptime_ns: u64,
    a: AudioPacketization,
    b: AudioPacketization,
    rate: i32,
    few: i32,
    many: i32,
    format: Seq<char>,
    frames: int,
)
    requires
        audio_result(narrow, ptime_ns, Ok(a)),
        audio_result(wide, ptime_ns, Ok(b)),
        ptime_ns > 0,
        narrow.first() is Some,
        narrow.first()->0.int_field("rate"@) == Some(rate),
        narrow.first()->0.int_field("channels"@) == Some(few),
        narrow.first()->0.text_field("format"@) == Some(format),
        wide.first() is Some,
        wide.first()->0.int_field("rate"@) == Some(rate),
        wide.first()->0.int_field("channels"@) == Some(many),
        wide.first()->0.text_field("format"@) == Some(format),
        format == "S24BE"@ || format == "S16BE"@,
        rate > 0,
        0 < few <= many,
        rate * ptime_ns == frames * 1_000_000_000,
        frames * bytes_per_sample(format) * many <= 4_000_000_000,
    ensures
        a.src_payload_size * many == b.src_payload_size * few,
        a.payload_multiple == b.payload_multiple,
{
    let n = frames * bytes_per_sample(format);
    assert(frames > 0) by (nonlinear_arith)
        requires
            rate * ptime_ns == frames * 1_000_000_000,
            rate > 0,
            ptime_ns > 0,
    ;
    assert(n * few <= n * many) by (nonlinear_arith)
        requires
            n >= 0,
            few <= many,
    ;
    audio_packet_holds_whole_frames(narrow, ptime_ns, Ok(a), rate, few, format, frames);
    audio_packet_holds_whole_frames(wide, ptime_ns, Ok(b), rate, many, format, frames);
    assert((n * few) * many == (n * many) * few) by (nonlinear_arith);
}

/// An output buffer of audio is sixteen milliseconds long, to the nearest packet, and one packet
/// long at least.
pub proof fn audio_buffer_is_sixteen_milliseconds(
    caps: CapsModel,
    ptime_ns: u64,
    pkt: AudioPacketization,
)
    requires
        audio_result(caps, ptime_ns, Ok(pkt)),
    ensures
        pkt.payload_multiple >= 1,
        2 * pkt.payload_multiple * ptime_ns <= 32_000_000 + ptime_ns || pkt.payload_multiple == 1,
        2 * pkt.payload_multiple * ptime_ns >= 32_000_000 - ptime_ns - 1,
        16_000_000int % (ptime_ns as int) == 0 ==> pkt.payload_multiple * ptime_ns == 16_000_000,
{
    let d = ptime_ns as int;
    let a = 16_000_000 + d / 2;
    let q = a / d;
    vstd::arithmetic::div_mod::lemma_fundamental_div_mod(a, d);
    vstd::arithmetic::div_mod::lemma_mod_bound(a, d);
    vstd::arithmetic::div_mod::lemma_div_is_ordered_by_denominator(a, 1, d);
    vstd::arithmetic::div_mod::lemma_div_pos_is_pos(a, d);
    assert(q <= 16_000_001) by (nonlinear_arith)
        requires
            d * q <= 16_000_000 + d / 2,
            d >= 1,
            q >= 0,
    ;
    assert(2 * q * d == 2 * (d * q)) by (nonlinear_arith);
    if 16_000_000int % d == 0 {
        let k = 16_000_000int / d;
        vstd::arithmetic::div_mod::lemma_fundamental_div_mod(16_000_000, d);
        assert(a == k * d + d / 2) by {
            vstd::arithmetic::mul::lemma_mul_is_commutative(k, d);
        }
        vstd::arithmetic::div_mod::lemma_fundamental_div_mod_converse(a, d, k, d / 2);
        assert(k >= 1) by (nonlinear_arith)
            requires
                16_000_000 == k * d,
                d >= 1,
        ;
        assert(q * d == 16_000_000) by {
            vstd::arithmetic::mul::lemma_mul_is_commutative(k, d);
        }
    }
    if q < 1 {
        assert(q == 0);
        assert(d * q == 0) by (nonlinear_arith)
            requires
                q == 0,
        ;
    }
}

/// The bytes of a line of `width` pixels in whole packing groups: two bytes a pixel for UYVY,
/// three for RGB, and five for each pair of pixels, a lone one too, for UYVP.
pub open spec fn line_bytes(width: int, format: Seq<char>, bytes: int) -> bool {
    if format == "UYVY"@ {
        bytes == 2 * width
    } else if format == "RGB"@ {
        bytes == 3 * width
    } else {
        if width % 2 == 0 {
            2 * bytes == 5 * width
        } else {
            2 * bytes == 5 * width + 5
        }
    }
}

/// A video line is cut into packets of one size, none of them above the largest payload or
/// under 800 bytes, and into no more packets than needed; where it can be cut so, it is. The
/// sink payload is a header longer.
pub proof fn video_line_is_cut_evenly(
    caps: CapsModel,
    max_rtp_payload: u32,
    r: Result<VideoPacketization, PacketizationErrorModel>,
    width: i32,
    format: Seq<char>,
    bytes: int,
    packets: int,
    size: int,
)
    requires
        header_fits(caps, max_rtp_payload),
        video_result(caps, max_rtp_payload, r),
        caps.first() is Some,
        caps.first()->0.int_field("width"@) == Some(width),
        caps.first()->0.text_field("format"@) == Some(format),
        format == "UYVY"@ || format == "RGB"@ || format == "UYVP"@,
        width > 0,
        line_bytes(width as int, format, bytes),
        bytes <= u32::MAX,
    ensures
        r matches Ok(pkt) ==> pkt.src_payload_size * pkt.packets_per_line == bytes && 800
            <= pkt.src_payload_size <= max_rtp_payload && pkt.sink_payload_size
            == pkt.src_payload_size + 20,
        packets > 0 && packets * size == bytes && 800 <= size <= max_rtp_payload ==> (
        r matches Ok(pkt) && pkt.packets_per_line <= packets),
{
    video_formats_differ();
    let pg = pgroup_of(format)->0;
    let max = max_rtp_payload as int;
    let stride = line_stride(width as int, pg);
    stride_is_line_bytes(width as int, format, bytes);
    if let Ok(pkt) = r {
        computed_stride_matches(caps, max_rtp_payload, pkt);
    }
    if packets > 0 && packets * size == bytes && 800 <= size <= max_rtp_payload {
        assert(fills_line(stride, max, packets)) by {
            ceil_div_by_remainder(stride, max);
            vstd::arithmetic::div_mod::lemma_fundamental_div_mod(stride, max);
            vstd::arithmetic::div_mod::lemma_mod_bound(stride, max);
            let q = stride / max;
            assert(packets >= q && (stride % max != 0 ==> packets > q)) by (nonlinear_arith)
                requires
                    stride == max * q + stride % max,
                    0 <= stride % max < max,
                    packets * size == stride,
                    800 <= size <= max,
                    packets > 0,
            ;
            assert(packets <= stride / 800) by (nonlinear_arith)
                requires
                    packets * size == stride,
                    800 <= size,
                    packets > 0,
            ;
            vstd::arithmetic::mul::lemma_mul_is_commutative(packets, size);
            vstd::arithmetic::div_mod::lemma_fundamental_div_mod_converse(
                stride,
                packets,
                size,
                0,
            );
        }
    }
}

proof fn stride_is_line_bytes(width: int, format: Seq<char>, bytes: int)
    requires
        width > 0,
        format == "UYVY"@ || format == "RGB"@ || format == "UYVP"@,
        line_bytes(width, format, bytes),
    ensures
        pgroup_of(format) is Some,
        line_stride(width, pgroup_of(format)->0) == bytes,
{
    video_formats_differ();
    if format == "UYVP"@ {
        assert(ceil_div(width, 2) == (width + 1) / 2);
        assert(line_stride(width, pgroup_of(format)->0) == ceil_div(width, 2) * 5);
    } else {
        assert(ceil_div(width, 1) == width);
        if format == "UYVY"@ {
            assert(line_stride(width, pgroup_of(format)->0) == ceil_div(width, 1) * 2);
        } else {
            assert(line_stride(width, pgroup_of(format)->0) == ceil_div(width, 1) * 3);
        }
    }
}

proof fn video_formats_differ()
    ensures
        "UYVY"@ != "RGB"@,
        "UYVY"@ != "UYVP"@,
        "UYVP"@ != "RGB"@,
{
    reveal_strlit("UYVY");
    reveal_strlit("UYVP");
    reveal_strlit("RGB");
    assert("UYVY"@[3] != "UYVP"@[3]);
    assert("RGB"@.len() == 3);
}

/// Without a packet time of its own a flow has packets of one millisecond, whatever was parsed.
pub proof fn packet_time_defaults(rtp_caps: CapsModel, parsed: Option<u64>)
    requires
        rtp_caps.first() matches Some(s) ==> s.text_field("a-ptime"@) is None,
    ensures
        packet_time(rtp_caps, parsed) == Ok::<u64, PacketizationErrorModel>(1_000_000),
{
}

/// What is said of a line that cannot be cut names its stride, then the least and the greatest
/// number of packets.
pub proof fn refused_lines_are_named(stride: u32, low: u32, high: u32)
    ensures
        ({
            let short = PacketizationErrorModel::LineTooShort {
                stride,
                min_ppl: low,
                max_ppl: high,
            };
            let odd = PacketizationErrorModel::NoDivisor { stride, min_ppl: low, max_ppl: high };
            &&& says_in_order(short.text(), decimal(stride as nat), decimal(low as nat))
            &&& says_in_order(short.text(), decimal(low as nat), decimal(high as nat))
            &&& says_in_order(odd.text(), decimal(stride as nat), decimal(low as nat))
            &&& says_in_order(odd.text(), decimal(low as nat), decimal(high as nat))
        }),
{
    let s = decimal(stride as nat);
    let l = decimal(low as nat);
    let h = decimal(high as nat);
    let short = PacketizationErrorModel::LineTooShort { stride, min_ppl: low, max_ppl: high };
    let odd = PacketizationErrorModel::NoDivisor { stride, min_ppl: low, max_ppl: high };
    let a = "no packets-per-line satisfies stride "@;
    let b = " with at least 800 bytes per packet (min ppl "@;
    let c = ", max ppl "@;
    put_together_in_order(a, s, b, l, c + h + ")"@);
    assert(short.text() =~= a + s + b + l + (c + h + ")"@));
    put_together_in_order(a + s + b, l, c, h, ")"@);
    assert(short.text() =~= (a + s + b) + l + c + h + ")"@);
    let x = "no packets-per-line divides line stride "@;
    let y = " between "@;
    let z = " and "@;
    put_together_in_order(x, s, y, l, z + h);
    assert(odd.text() =~= x + s + y + l + (z + h));
    put_together_in_order(x + s + y, l, z, h, Seq::empty());
    assert(odd.text() =~= (x + s + y) + l + z + h + Seq::<char>::empty());
}

/// Ancillary data is packetized a frame at a time: caps that ask for another alignment are
/// refused by name, as are caps of another essence; all others are taken.
pub proof fn ancillary_data_comes_by_the_frame(caps: CapsModel)
    ensures
        anc_result(caps) is Ok <==> (caps.first() matches Some(s) && s.name == "meta/x-st-2038"@ && (
        s.text_field("alignment"@) is None || s.text_field("alignment"@) == Some("frame"@))),
        anc_result(caps) matches Err(e) ==> match caps.first() {
            None => e == PacketizationErrorModel::EmptyAncCaps,
            Some(s) => if s.name != "meta/x-st-2038"@ {
                says(e.text(), s.name)
            } else {
                says(e.text(), s.text_field("alignment"@)->0)
            },
        },
{
    if let Some(s) = caps.first() {
        put_together_says("nvdsudp ANC expects meta/x-st-2038 caps, got `"@, s.name, "`"@);
        if let Some(alignment) = s.text_field("alignment"@) {
            put_together_says("nvdsudp ANC requires alignment=frame, got `"@, alignment, "`"@);
        }
    }
}

/// What is said of an essence that cannot be packetized names what cannot: the format, the text
/// that is no duration, the line that is too wide, or the terms that come to nothing in order.
pub proof fn unpacketizable_essence_is_named(
    format: Seq<char>,
    width: u32,
    rate: u32,
    ptime_ns: u64,
    channels: u32,
)
    ensures
        says(PacketizationErrorModel::UnsupportedVideoFormat { format }.text(), format),
        says(PacketizationErrorModel::UnsupportedAudioFormat { format }.text(), format),
        says(PacketizationErrorModel::BadPtime { ptime: format }.text(), format),
        says_in_order(
            PacketizationErrorModel::StrideOverflow { width, format }.text(),
            decimal(width as nat),
            format,
        ),
        ({
            let e = PacketizationErrorModel::ZeroPayload { rate, ptime_ns, format, channels };
            &&& says_in_order(e.text(), decimal(rate as nat), decimal(ptime_ns as nat))
            &&& says_in_order(e.text(), format, decimal(channels as nat))
        }),
{
    put_together_says(
        "unsupported video format `"@,
        format,
        "` for nvdsudp packetization"@,
    );
    put_together_says(
        "unsupported audio format `"@,
        format,
        "` for nvdsudp packetization"@,
    );
    put_together_says("parsing a-ptime=`"@, format, "` for nvdsudp audio packetization"@);
    let w = decimal(width as nat);
    let a = "line stride overflow for width="@;
    put_together_in_order(a, w, ", format="@, format, Seq::empty());
    assert(PacketizationErrorModel::StrideOverflow { width, format }.text() =~= a + w
        + ", format="@ + format + Seq::<char>::empty());
    let e = PacketizationErrorModel::ZeroPayload { rate, ptime_ns, format, channels };
    let r = decimal(rate as nat);
    let p = decimal(ptime_ns as nat);
    let c = decimal(channels as nat);
    let x = "computed audio payload size is zero (rate="@;
    let y = ", ptime_ns="@;
    let z = ", format="@;
    let u = ", channels="@;
    put_together_in_order(x, r, y, p, z + format + u + c + ")"@);
    assert(e.text() =~= x + r + y + p + (z + format + u + c + ")"@));
    put_together_in_order(x + r + y + p + z, format, u, c, ")"@);
    assert(e.text() =~= (x + r + y + p + z) + format + u + c + ")"@);
}

} // verus!
