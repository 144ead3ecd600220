//! Packet sizes for `nvdsudp`.

use nvnmos_gst::caps::{Caps, FieldValue, Structure};
use nvnmos_gst::nvdsudp::packetization::{
    anc_from_caps, audio_from_caps, audio_sample_bytes, audio_size_in_range,
    choose_packets_per_line, from_media, ptime_text, reconcile_sink_video_packetization,
    video_configured_stride, video_from_caps, video_line_stride, video_pgroup,
    video_target_stride, AudioPacketization, Packetization, PacketizationError, VideoPgroup,
    DEFAULT_MAX_VIDEO_RTP_PAYLOAD,
};
use nvnmos_gst::types::FlowFormat;

/// Caps out of their launch syntax: a name, then fields that are texts, integers or
/// fractions.
fn caps_from_str(s: &str) -> Caps {
    let mut parts = s.split(',');
    let mut structure = Structure::new(parts.next().unwrap());
    for part in parts {
        let (name, value) = part.split_once('=').unwrap();
        let value = match (value.parse::<i32>(), value.split_once('/')) {
            (Ok(n), _) => FieldValue::Int(n),
            (_, Some((n, d))) => FieldValue::Fraction(n.parse().unwrap(), d.parse().unwrap()),
            _ => FieldValue::Text(value.to_owned()),
        };
        structure.set(name, value);
    }
    Caps::of(structure)
}

fn empty() -> Caps {
    Caps::Structures(vec![])
}

fn l24_stereo() -> Caps {
    caps_from_str("audio/x-raw,format=S24BE,rate=48000,channels=2,layout=interleaved")
}

#[test]
fn uyvp_1920x1080_matches_deepstream_table() {
    let caps = caps_from_str("video/x-raw,format=UYVP,width=1920,height=1080,framerate=60/1");
    let pkt = video_from_caps(&caps, DEFAULT_MAX_VIDEO_RTP_PAYLOAD).unwrap();
    assert_eq!(pkt.packets_per_line, 4);
    assert_eq!(pkt.src_payload_size, 1200);
    assert_eq!(pkt.sink_payload_size, 1220);
}

#[test]
fn uyvp_1280x720_matches_rivermax_minimum_packet_size() {
    let caps = caps_from_str("video/x-raw,format=UYVP,width=1280,height=720,framerate=60/1");
    let pkt = video_from_caps(&caps, DEFAULT_MAX_VIDEO_RTP_PAYLOAD).unwrap();
    assert_eq!(pkt.packets_per_line, 4);
    assert_eq!(pkt.src_payload_size, 800);
    assert_eq!(pkt.sink_payload_size, 820);
}

#[test]
fn video_configured_stride_detects_mismatch() {
    let caps = caps_from_str("video/x-raw,format=UYVP,width=1920,height=1080,framerate=50/1");
    let target = video_target_stride(&caps).unwrap();
    let calculated = video_from_caps(&caps, DEFAULT_MAX_VIDEO_RTP_PAYLOAD).unwrap();
    assert_eq!(
        video_configured_stride(calculated.sink_payload_size, calculated.packets_per_line),
        target,
        "auto-calculated packetization must match essence stride",
    );
    assert_ne!(video_configured_stride(1220, 3), target);
}

#[test]
fn uyvp_3840x2160_10bit_matches_calculated_stride() {
    let caps = caps_from_str("video/x-raw,format=UYVP,width=3840,height=2160,framerate=60/1");
    let pkt = video_from_caps(&caps, DEFAULT_MAX_VIDEO_RTP_PAYLOAD).unwrap();
    assert_eq!(pkt.packets_per_line, 8);
    assert_eq!(pkt.src_payload_size, 1200);
    assert_eq!(pkt.sink_payload_size, 1220);
}

#[test]
fn uyvy_1920x1080_8bit_matches_deepstream_table() {
    let caps = caps_from_str("video/x-raw,format=UYVY,width=1920,height=1080,framerate=60/1");
    let pkt = video_from_caps(&caps, DEFAULT_MAX_VIDEO_RTP_PAYLOAD).unwrap();
    assert_eq!(pkt.packets_per_line, 3);
    assert_eq!(pkt.sink_payload_size, 1300);
    assert_eq!(pkt.src_payload_size, 1280);
}

#[test]
fn l24_48k_2ch_ptime_1ms_matches_example() {
    let pkt = audio_from_caps(&l24_stereo(), 1_000_000).unwrap();
    assert_eq!(pkt.src_payload_size, 288);
    assert_eq!(pkt.sink_payload_size, 300);
    assert_eq!(pkt.payload_multiple, 16);
}

#[test]
fn l24_48k_2ch_ptime_6ms_rounds_payload_multiple() {
    let pkt = audio_from_caps(&l24_stereo(), 6_000_000).unwrap();
    assert_eq!(pkt.payload_multiple, 3, "round(16 ms / 6 ms) = 3");
}

#[test]
fn l24_48k_2ch_ptime_125us_matches_integer_payload() {
    let ms: f64 = "0.125".parse().unwrap();
    let pkt = audio_from_caps(&l24_stereo(), (ms * 1_000_000.0) as u64).unwrap();
    assert_eq!(pkt.src_payload_size, 36);
    assert_eq!(pkt.sink_payload_size, 48);
}

#[test]
fn anc_from_meta_st2038_frame_alignment() {
    let caps = caps_from_str("meta/x-st-2038,alignment=frame,framerate=60/1");
    let pkt = from_media(FlowFormat::Data, &caps, &empty(), None).expect("ANC packetization");
    assert!(matches!(pkt, Packetization::Anc));
}

#[test]
fn anc_accepts_missing_alignment() {
    let caps = caps_from_str("meta/x-st-2038,framerate=60/1");
    let pkt = from_media(FlowFormat::Data, &caps, &empty(), None)
        .expect("ANC packetization with no alignment");
    assert!(matches!(pkt, Packetization::Anc));
}

#[test]
fn anc_rejects_non_frame_alignment() {
    let caps = caps_from_str("meta/x-st-2038,alignment=packets");
    assert!(from_media(FlowFormat::Data, &caps, &empty(), None).is_err());
}

#[test]
fn unsupported_video_format_errors() {
    let caps = caps_from_str("video/x-raw,format=v210,width=1920,height=1080,framerate=60/1");
    assert!(video_from_caps(&caps, DEFAULT_MAX_VIDEO_RTP_PAYLOAD).is_err());
}

#[test]
fn video_faults_are_told_apart() {
    let fault = |s: &str| video_from_caps(&caps_from_str(s), 1452).unwrap_err();
    assert_eq!(fault("video/x-raw,width=1920"), PacketizationError::MissingVideoFormat);
    assert_eq!(fault("video/x-raw,format=UYVP"), PacketizationError::MissingWidth);
    assert_eq!(fault("video/x-raw,format=UYVP,width=-2"), PacketizationError::NegativeWidth);
    assert_eq!(fault("video/x-raw,format=UYVP,width=0"), PacketizationError::ZeroWidth);
    assert_eq!(
        fault("video/x-raw,format=v210,width=2"),
        PacketizationError::UnsupportedVideoFormat { format: "v210".to_owned() }
    );
    assert_eq!(
        fault("video/x-raw,format=UYVP,width=2"),
        PacketizationError::LineTooShort { stride: 5, min_ppl: 1, max_ppl: 0 }
    );
    // 5 * 1993 bytes, and no divisor of them lies between 7 and 12.
    assert_eq!(
        fault("video/x-raw,format=UYVP,width=3986"),
        PacketizationError::NoDivisor { stride: 9965, min_ppl: 7, max_ppl: 12 }
    );
    assert_eq!(video_from_caps(&empty(), 1452), Err(PacketizationError::EmptyVideoCaps));
    assert_eq!(
        video_line_stride(u32::MAX - 1, "UYVP"),
        Err(PacketizationError::StrideOverflow {
            width: u32::MAX - 1,
            format: "UYVP".to_owned(),
        })
    );
}

#[test]
fn audio_faults_are_told_apart() {
    let fault = |s: &str, ptime: u64| audio_from_caps(&caps_from_str(s), ptime).unwrap_err();
    let full = "audio/x-raw,format=S24BE,rate=48000,channels=2";
    assert_eq!(fault(full, 0), PacketizationError::ZeroPtime);
    assert_eq!(
        audio_from_caps(&empty(), 1),
        Err(PacketizationError::EmptyAudioCaps)
    );
    assert_eq!(fault("audio/x-raw,rate=1,channels=1", 1), PacketizationError::MissingAudioFormat);
    assert_eq!(
        fault("audio/x-raw,format=S24BE,channels=1", 1),
        PacketizationError::MissingRate
    );
    assert_eq!(
        fault("audio/x-raw,format=S24BE,rate=-1,channels=1", 1),
        PacketizationError::NegativeRate
    );
    assert_eq!(
        fault("audio/x-raw,format=S24BE,rate=48000", 1),
        PacketizationError::MissingChannels
    );
    assert_eq!(
        fault("audio/x-raw,format=S24BE,rate=48000,channels=-2", 1),
        PacketizationError::NegativeChannels
    );
    assert_eq!(
        fault("audio/x-raw,format=S24BE,rate=48000,channels=0", 1),
        PacketizationError::ZeroRateOrChannels
    );
    assert_eq!(
        fault(full, 1),
        PacketizationError::ZeroPayload {
            rate: 48_000,
            ptime_ns: 1,
            format: "S24BE".to_owned(),
            channels: 2,
        }
    );
    assert_eq!(fault(full, u64::MAX), PacketizationError::PayloadOverflow);
    assert_eq!(
        audio_sample_bytes("F32LE"),
        Err(PacketizationError::UnsupportedAudioFormat { format: "F32LE".to_owned() })
    );
}

#[test]
fn anc_faults_are_told_apart() {
    assert_eq!(
        anc_from_caps(&caps_from_str("video/x-raw,format=UYVP")),
        Err(PacketizationError::NotAncCaps { name: "video/x-raw".to_owned() })
    );
    assert_eq!(
        anc_from_caps(&caps_from_str("meta/x-st-2038,alignment=line")),
        Err(PacketizationError::AncAlignment { alignment: "line".to_owned() })
    );
    assert_eq!(anc_from_caps(&empty()), Err(PacketizationError::EmptyAncCaps));
    assert_eq!(
        from_media(FlowFormat::Unspecified, &empty(), &empty(), None),
        Err(PacketizationError::UnspecifiedEssence)
    );
}

#[test]
fn pixel_groups_are_those_of_the_format() {
    assert_eq!(
        video_pgroup("UYVP"),
        Ok(VideoPgroup { pixels_per_group: 2, bytes_per_group: 5 })
    );
    assert_eq!(video_line_stride(1920, "UYVP"), Ok(4800));
    assert_eq!(video_line_stride(1920, "UYVY"), Ok(3840));
    assert_eq!(audio_sample_bytes("S24BE"), Ok(3));
    assert_eq!(audio_sample_bytes("S16BE"), Ok(2));
}

#[test]
fn packets_divide_the_line_evenly() {
    let ppl = choose_packets_per_line(4800, 1452).unwrap();
    assert_eq!(4800 % ppl, 0);
    assert!(4800 / ppl <= 1452);
    assert_eq!(choose_packets_per_line(4800, 0), Err(PacketizationError::ZeroMaxPayload));
}

#[test]
fn packet_time_comes_from_rtp_caps_or_is_one_millisecond() {
    let mut rtp = Structure::new("application/x-rtp");
    rtp.set("a-ptime", FieldValue::Text("0.125".to_owned()));
    let rtp = Caps::of(rtp);
    assert_eq!(ptime_text(&rtp), Some("0.125"));
    assert!(audio_size_in_range(&l24_stereo(), 125_000));
    assert_eq!(
        from_media(FlowFormat::Audio, &l24_stereo(), &rtp, Some(125_000)),
        Ok(Packetization::Audio(AudioPacketization {
            sink_payload_size: 48,
            src_payload_size: 36,
            payload_multiple: 128,
        }))
    );
    assert_eq!(
        from_media(FlowFormat::Audio, &l24_stereo(), &rtp, None),
        Err(PacketizationError::BadPtime { ptime: "0.125".to_owned() })
    );
    assert_eq!(
        from_media(FlowFormat::Audio, &l24_stereo(), &empty(), None),
        Ok(Packetization::Audio(AudioPacketization {
            sink_payload_size: 300,
            src_payload_size: 288,
            payload_multiple: 16,
        }))
    );
}

#[test]
fn sizes_that_fit_the_line_are_kept() {
    let caps = caps_from_str("video/x-raw,format=UYVP,width=1920,height=1080,framerate=50/1");
    assert_eq!(reconcile_sink_video_packetization(&caps, 1220, 4), Ok(None));
    let fixed = reconcile_sink_video_packetization(&caps, 1220, 3).unwrap().unwrap();
    assert_eq!(fixed.sink_payload_size, 1220);
    assert_eq!(fixed.packets_per_line, 4);
}

#[test]
fn faults_are_worded() {
    let video = |s: &str| video_from_caps(&caps_from_str(s), 1452).unwrap_err().message();
    let audio = |s: &str, t: u64| audio_from_caps(&caps_from_str(s), t).unwrap_err().message();
    assert_eq!(video_from_caps(&empty(), 1452).unwrap_err().message(), "raw video caps empty");
    assert_eq!(audio_from_caps(&empty(), 1).unwrap_err().message(), "raw audio caps empty");
    assert_eq!(anc_from_caps(&empty()).unwrap_err().message(), "ANC raw caps empty");
    assert_eq!(video("video/x-raw,width=2"), "raw video caps missing `format`");
    assert_eq!(video("video/x-raw,format=UYVP"), "raw video caps missing `width`");
    assert_eq!(video("video/x-raw,format=UYVP,width=-2"), "`width` must be non-negative");
    assert_eq!(video("video/x-raw,format=UYVP,width=0"), "raw video caps `width` must be > 0");
    assert_eq!(
        video("video/x-raw,format=v210,width=2"),
        "unsupported video format `v210` for nvdsudp packetization"
    );
    assert_eq!(
        video("video/x-raw,format=UYVP,width=2"),
        "no packets-per-line satisfies stride 5 with at least 800 bytes per packet (min ppl 1, \
         max ppl 0)"
    );
    assert_eq!(
        video("video/x-raw,format=UYVP,width=3986"),
        "no packets-per-line divides line stride 9965 between 7 and 12"
    );
    assert_eq!(
        video_line_stride(4_294_967_294, "UYVP").unwrap_err().message(),
        "line stride overflow for width=4294967294, format=UYVP"
    );
    assert_eq!(
        choose_packets_per_line(4800, 0).unwrap_err().message(),
        "max_rtp_payload must be > 0"
    );
    let full = "audio/x-raw,format=S24BE,rate=48000,channels=2";
    assert_eq!(audio(full, 0), "ptime_ns must be > 0");
    assert_eq!(audio("audio/x-raw,rate=1,channels=1", 1), "raw audio caps missing `format`");
    assert_eq!(
        audio("audio/x-raw,format=F32LE,rate=1,channels=1", 1),
        "unsupported audio format `F32LE` for nvdsudp packetization"
    );
    assert_eq!(audio("audio/x-raw,format=S24BE,channels=1", 1), "raw audio caps missing `rate`");
    assert_eq!(
        audio("audio/x-raw,format=S24BE,rate=-1,channels=1", 1),
        "`rate` must be non-negative"
    );
    assert_eq!(audio("audio/x-raw,format=S24BE,rate=1", 1), "raw audio caps missing `channels`");
    assert_eq!(
        audio("audio/x-raw,format=S24BE,rate=1,channels=-2", 1),
        "`channels` must be non-negative"
    );
    assert_eq!(
        audio("audio/x-raw,format=S24BE,rate=1,channels=0", 1),
        "audio `rate` and `channels` must be > 0"
    );
    assert_eq!(audio(full, u64::MAX), "audio payload size calculation overflow");
    assert_eq!(
        audio(full, 1),
        "computed audio payload size is zero (rate=48000, ptime_ns=1, format=S24BE, channels=2)"
    );
    assert_eq!(
        anc_from_caps(&caps_from_str("video/x-raw,format=UYVP")).unwrap_err().message(),
        "nvdsudp ANC expects meta/x-st-2038 caps, got `video/x-raw`"
    );
    assert_eq!(
        anc_from_caps(&caps_from_str("meta/x-st-2038,alignment=line")).unwrap_err().message(),
        "nvdsudp ANC requires alignment=frame, got `line`"
    );
    assert_eq!(
        from_media(FlowFormat::Unspecified, &empty(), &empty(), None).unwrap_err().message(),
        "nvdsudp Mode 3 does not support unspecified essence format"
    );
    assert_eq!(
        PacketizationError::BadPtime { ptime: "x".to_owned() }.message(),
        "parsing a-ptime=`x` for nvdsudp audio packetization"
    );
}
