//! The aligned test sources: pictures, pips, captions and ancillary data.

use nvnmos_gst::analyze::{
    ancillary_indices, bar_centroid, bin_of, caption_cdp_bytes, caption_cdps, caption_text,
    decode_caption, decode_captions, detect_pips, BIN_NS,
};
use nvnmos_gst::ancillary::{
    add_ancillary_meta, ancillary_checksum, extend_with_even_odd_parity, has_even_odd_parity,
    has_valid_ancillary_metas, is_permitted_word, is_valid_ancillary_meta, AncillaryPacket,
};
use nvnmos_gst::audiosrc::{
    fill, latency, pip_active, s16be, s24be, sample_running_time, AudioProperty, AudioState,
    AudioValue, Settings,
};
use nvnmos_gst::captions::{
    caption_codes, caption_for, cdp_framerate, CaptionCode, CaptionWriter, CC_DID, CC_SDID,
};
use nvnmos_gst::clock_wait::{wait_until, ClockWait, WaitOutcome};
use nvnmos_gst::signal::{
    circular_distance, mul_div_floor, ANC_DID, DEFAULT_PIP_DURATION, LUMA_BLACK, LUMA_WHITE, SECOND,
};
use nvnmos_gst::videosrc::{
    fill_uyvp, fill_v210, frame_times, luma_at, uyvp_row, v210_row, v210_word, VideoFormat,
    VideoFrame, VideoInfo, VideoProperty, VideoState, VideoValue,
};

const PIP_INTERVAL_NS: u64 = 200_000_000;
const FPS: u32 = 25;
const WIDTH: u32 = 192;
const HEIGHT: u32 = 4;
const VIDEO_FRAMES: u64 = 27;
const RATE: u32 = 48_000;
const SAMPLES_PER_BUFFER: u32 = 1_024;
const AUDIO_BUFFERS: u64 = 50;

// ---- ancillary data ---------------------------------------------------------

#[test]
fn even_odd_parity_matches_st291_and_gst_vbi_encoder() {
    // Odd popcount gives b8=1, b9=0 (0x100 | v), as SET_WITH_PARITY in video-anc.c
    assert_eq!(extend_with_even_odd_parity(0x00), 0x200); // 0 ones, even
    assert_eq!(extend_with_even_odd_parity(0x01), 0x101); // 1 one, odd
    assert_eq!(extend_with_even_odd_parity(0x03), 0x203); // 2 ones, even
    assert_eq!(extend_with_even_odd_parity(0x61), 0x161); // 3 ones, odd (CEA-708 DID)

    for v in 0u8..=255 {
        let w = extend_with_even_odd_parity(v);
        assert_eq!(w & 0xff, u16::from(v));
        // Even parity over b0..b8: popcount of those 9 bits must be even
        let popcount_0_to_8 = (w & 0x1ff).count_ones();
        assert!(
            popcount_0_to_8.is_multiple_of(2),
            "b0..b8 must have even popcount for {v:#04x}, got {w:#05x}"
        );
        let b8 = (w >> 8) & 1;
        let b9 = (w >> 9) & 1;
        assert_eq!(b9, 1 - b8, "b9 must be NOT b8 for {v:#04x}");
    }
}

#[test]
fn add_ancillary_meta_writes_parity_extended_adf_words() {
    let mut packets: Vec<AncillaryPacket> = Vec::new();
    // DC=3 (even popcount) and CEA-708 DID/SDID so values are fixed.
    add_ancillary_meta(&mut packets, 9, 0, 0x61, 0x01, &[0x41, 0x42, 0x43]);
    let meta = packets.first().expect("missing AncillaryMeta");
    assert!(
        is_valid_ancillary_meta(meta),
        "DID={:#x} SDID={:#x} DC={:#x} CS={:#x}",
        meta.did,
        meta.sdid_block_number,
        meta.data_count,
        meta.checksum
    );
    assert_eq!(meta.did, 0x161);
    assert_eq!(meta.sdid_block_number, 0x101);
    assert_eq!(meta.data_count, 0x203); // DC=3, even popcount => 0x203
}

#[test]
fn parity_is_checked_on_every_word() {
    for w in 0u16..0x400 {
        let extended = extend_with_even_odd_parity((w & 0xff) as u8);
        assert_eq!(has_even_odd_parity(w), w == extended, "{w:#05x}");
    }
}

#[test]
fn checksum_is_nine_bits_with_the_tenth_inverted() {
    let sum = (0x161 + 0x101 + 0x203 + 0x241) & 0x1ff;
    let expected = sum | if sum & 0x100 == 0 { 0x200 } else { 0 };
    assert_eq!(ancillary_checksum(0x161, 0x101, 0x203, &[0x241]), expected);
}

#[test]
fn reserved_words_are_not_permitted() {
    assert!(!is_permitted_word(0x000));
    assert!(!is_permitted_word(0x003));
    assert!(is_permitted_word(0x004));
    assert!(is_permitted_word(0x3fb));
    assert!(!is_permitted_word(0x3fc));
    assert!(!is_permitted_word(0x3ff));
}

#[test]
fn a_damaged_packet_is_refused() {
    let mut packets: Vec<AncillaryPacket> = Vec::new();
    add_ancillary_meta(&mut packets, 9, 0, 0x5f, 0xff, &[1, 2]);
    add_ancillary_meta(&mut packets, 9, 0, 0x61, 0x01, &[3]);
    assert!(has_valid_ancillary_metas(&packets));
    packets[1].data[0] ^= 1;
    assert!(is_valid_ancillary_meta(&packets[0]));
    assert!(!is_valid_ancillary_meta(&packets[1]));
    assert!(!has_valid_ancillary_metas(&packets));
    assert!(has_valid_ancillary_metas(&[]));
}

// ---- pictures ---------------------------------------------------------------

fn video_info(format: VideoFormat) -> VideoInfo {
    let stride: usize = match format {
        VideoFormat::V210 => (WIDTH as usize).div_ceil(48) * 128,
        VideoFormat::Uyvp => (WIDTH as usize).div_ceil(2) * 5,
    };
    VideoInfo {
        format,
        width: WIDTH,
        height: HEIGHT,
        stride,
        size: stride * HEIGHT as usize,
        fps_numer: FPS,
        fps_denom: 1,
    }
}

/// The bar's column at a running time: screen centre at every pip, sweeping right once per
/// interval.
fn bar_centre(running_ns: u64) -> u32 {
    let phase = (running_ns % PIP_INTERVAL_NS) as f64 / PIP_INTERVAL_NS as f64;
    let w = WIDTH as f64;
    ((phase * w + w / 2.0).rem_euclid(w)) as u32 % WIDTH
}

fn bar_width() -> u32 {
    let frames_per_interval = PIP_INTERVAL_NS as f64 * FPS as f64 / SECOND as f64;
    (WIDTH as f64 / frames_per_interval).round().max(1.0) as u32
}

fn frames(format: VideoFormat) -> Vec<VideoFrame> {
    let info = video_info(format);
    let mut state = VideoState {
        n_frames: 0,
        cdp_framerate: cdp_framerate(FPS as i32, 1),
        caption_writer: CaptionWriter::default(),
    };
    (0..VIDEO_FRAMES)
        .map(|n| {
            let (pts, _) = frame_times(n, FPS, 1);
            state.create(&info, bar_centre(pts), bar_width(), PIP_INTERVAL_NS)
        })
        .collect()
}

/// The luma of one line, read back from its packing, as 8-bit full range.
fn gray_row(info: &VideoInfo, frame: &VideoFrame) -> Vec<u8> {
    let line = &frame.data[info.stride..2 * info.stride];
    let mut luma: Vec<u16> = Vec::new();
    match info.format {
        VideoFormat::V210 => {
            for group in line.chunks_exact(16) {
                let word = |i: usize| {
                    u32::from_le_bytes([
                        group[4 * i],
                        group[4 * i + 1],
                        group[4 * i + 2],
                        group[4 * i + 3],
                    ])
                };
                let part = |i: usize, k: u32| ((word(i) >> (10 * k)) & 0x3ff) as u16;
                luma.extend([part(0, 1), part(1, 0), part(1, 2), part(2, 1), part(3, 0), part(3, 2)]);
            }
        }
        VideoFormat::Uyvp => {
            for pair in line.chunks_exact(5) {
                let bits = pair.iter().fold(0u64, |acc, b| (acc << 8) | u64::from(*b));
                luma.extend([((bits >> 20) & 0x3ff) as u16, (bits & 0x3ff) as u16]);
            }
        }
    }
    luma.truncate(WIDTH as usize);
    luma.iter().map(|y| ((u32::from(*y) - 64) * 255 / 876) as u8).collect()
}

#[test]
fn video_bar_sweeps_and_centres_on_pip() {
    let centre = WIDTH as f64 / 2.0;
    for format in [VideoFormat::V210, VideoFormat::Uyvp] {
        let info = video_info(format);
        let samples = frames(format);
        assert_eq!(samples.len(), VIDEO_FRAMES as usize, "{format:?}: expected {VIDEO_FRAMES} frames");

        let frame_period = SECOND / FPS as u64;
        let frames_per_interval = PIP_INTERVAL_NS / frame_period;
        // Bar width is one frame's step; centre frame lands within half of that.
        let tol = (WIDTH as f64 / frames_per_interval as f64).max(2.0);

        // Every pip frame (pts a multiple of the interval, except 0) is centred.
        for frame in &samples {
            let row = gray_row(&info, frame);
            let (sum, count) = bar_centroid(&row, WIDTH).expect("bar present");
            let c = sum as f64 / count as f64;
            let pts = frame.pts;
            if pts != 0 && pts.is_multiple_of(PIP_INTERVAL_NS) {
                assert!(
                    (c - centre).abs() <= tol,
                    "{format:?}: bar off-centre at pip pts {pts}: centroid {c}, want ~{centre}"
                );
            }
        }

        // And the bar actually moves across most of the frame.
        let cols: Vec<usize> = samples
            .iter()
            .map(|frame| {
                let row = gray_row(&info, frame);
                let brightest = *row.iter().max().unwrap();
                row.iter().rposition(|v| *v == brightest).unwrap()
            })
            .collect();
        let spread = cols.iter().max().unwrap() - cols.iter().min().unwrap();
        assert!(
            spread as f64 >= WIDTH as f64 * 0.4,
            "{format:?}: bar barely moved (spread {spread}px over width {WIDTH})"
        );
    }
}

#[test]
fn captions_tick_tock_on_pip_frames() {
    let samples = frames(VideoFormat::V210);
    assert_eq!(samples.len(), VIDEO_FRAMES as usize);
    let frame_period = SECOND / FPS as u64;

    let mut parser = cdp_types::CDPParser::new();
    let (mut ticks, mut tocks) = (0, 0);
    for s in &samples {
        let pts = s.pts;
        let n = pts / frame_period;
        let cdp = caption_cdp_bytes(&s.ancillary).expect("caption ancillary present");
        let text = match decode_caption(&mut parser, &cdp) {
            Ok(text) => text,
            Err(e) => panic!("frame {n} (pts {pts}): {e:?}"),
        };
        let on_pip = pts != 0 && pts.is_multiple_of(PIP_INTERVAL_NS);
        match text {
            Some(t) if on_pip => {
                let want = if (pts / PIP_INTERVAL_NS) % 2 == 1 { "TICK" } else { "TOCK" };
                assert_eq!(t, want, "frame {n} (pts {pts}): wrong caption");
                if want == "TICK" {
                    ticks += 1;
                } else {
                    tocks += 1;
                }
            }
            Some(t) => panic!("frame {n} (pts {pts}): caption {t:?} off a pip frame"),
            None => assert!(!on_pip, "frame {n} (pts {pts}): pip frame with no caption"),
        }
    }
    assert!(ticks >= 2 && tocks >= 2, "too few captions: {ticks} ticks, {tocks} tocks");
}

#[test]
fn frame_index_is_stamped_and_read_back() {
    for format in [VideoFormat::V210, VideoFormat::Uyvp] {
        for (n, frame) in frames(format).iter().enumerate() {
            assert_eq!(frame.data[0], n as u8);
            assert_eq!(ancillary_indices(&frame.ancillary, ANC_DID), vec![n as u8]);
            assert!(has_valid_ancillary_metas(&frame.ancillary));
            assert_eq!(frame.pts, n as u64 * SECOND / FPS as u64);
            assert_eq!(frame.duration, SECOND / FPS as u64);
        }
    }
}

#[test]
fn frame_times_do_not_drift_at_a_fractional_rate() {
    assert_eq!(frame_times(0, 30_000, 1_001), (0, 33_366_666));
    assert_eq!(frame_times(30_000, 30_000, 1_001).0, 1_001 * SECOND);
    for n in 0..100 {
        let (pts, next_pts) = frame_times(n, 30_000, 1_001);
        assert!(pts < next_pts);
        assert_eq!(frame_times(n + 1, 30_000, 1_001).0, next_pts);
    }
}

#[test]
fn lines_are_packed_as_their_format_says() {
    assert_eq!(v210_word(0x001, 0x002, 0x003), 0x0030_0801);
    assert_eq!(luma_at(0, 100, 0, 10), LUMA_WHITE);
    assert_eq!(luma_at(5, 100, 0, 10), LUMA_WHITE);
    assert_eq!(luma_at(6, 100, 0, 10), LUMA_BLACK);
    assert_eq!(luma_at(95, 100, 0, 10), LUMA_WHITE);
    assert_eq!(luma_at(100, 100, 0, 200), LUMA_BLACK);

    // Two black pixels, neutral chroma: 512, 64, 512, 64 in 10 bits each.
    assert_eq!(&uyvp_row(8, 5, 1)[..5], &[0x80, 0x04, 0x08, 0x00, 0x40]);
    let row = v210_row(6, 0, 1);
    assert_eq!(row.len() % 16, 0);
    // Cb, then the white Y of the bar, then Cr.
    assert_eq!(&row[..4], &(512u32 | (940 << 10) | (512 << 20)).to_le_bytes());
}

#[test]
fn only_lines_of_a_frame_are_painted() {
    let mut info = video_info(VideoFormat::Uyvp);
    info.stride += 3;
    info.size = info.stride * HEIGHT as usize;
    let mut data = vec![7u8; info.size];
    fill_uyvp(&mut data, &info, 0, 1);
    let row = uyvp_row(WIDTH, 0, 1);
    for y in 0..HEIGHT as usize {
        let line = &data[y * info.stride..(y + 1) * info.stride];
        assert_eq!(&line[..row.len()], &row[..]);
        assert!(line[row.len()..].iter().all(|b| *b == 7));
    }
    let info = video_info(VideoFormat::V210);
    let mut data = vec![0u8; info.size];
    fill_v210(&mut data, &info, 96, 24);
    let row = v210_row(WIDTH, 96, 24);
    assert_eq!(&data[info.stride..info.stride + row.len()], &row[..]);
}

#[test]
fn video_settings_are_read_back() {
    let mut s = nvnmos_gst::videosrc::Settings::default();
    assert_eq!(s.framerate, (30_000, 1_001));
    assert_eq!((s.width, s.height), (1_280, 720));
    assert_eq!(s.pip_interval, SECOND);
    let p = VideoProperty::from_name("pip-interval").unwrap();
    s.set_property(p, VideoValue::Nanoseconds(5));
    assert_eq!(s.property(p), VideoValue::Nanoseconds(5));
    assert!(VideoProperty::from_name("pips").is_none());
}

#[test]
fn bar_wraps_at_the_edge() {
    assert_eq!(circular_distance(0, 99, 100), 1);
    assert_eq!(circular_distance(99, 0, 100), 1);
    assert_eq!(circular_distance(10, 60, 100), 50);
    assert_eq!(circular_distance(42, 42, 100), 0);
}

#[test]
fn scaling_rounds_down_and_tells_overflow() {
    assert_eq!(mul_div_floor(7, 3, 2), Some(10));
    assert_eq!(mul_div_floor(u64::MAX, 2, 2), Some(u64::MAX));
    assert_eq!(mul_div_floor(u64::MAX, 2, 1), None);
}

#[test]
fn no_bar_has_no_centroid() {
    assert_eq!(bar_centroid(&[0, 128, 0], 3), None);
    assert_eq!(bar_centroid(&[0, 200, 200, 0, 200], 4), Some((3, 2)));
    assert_eq!(bar_centroid(&[200], 4), Some((0, 1)));
}

// ---- captions ---------------------------------------------------------------

#[test]
fn captions_alternate_between_pips() {
    assert_eq!(caption_for(0, 40, 200), None);
    assert_eq!(caption_for(160, 200, 200), None);
    assert_eq!(caption_for(200, 240, 200), Some("TICK"));
    assert_eq!(caption_for(390, 430, 200), Some("TOCK"));
    // The pip at the origin is skipped, so a frame that starts there waits for the next one.
    assert_eq!(caption_for(0, 1_500_000_000, 1_000_000_000), Some("TICK"));
    assert_eq!(caption_for(0, 1_000_000_000, 1_000_000_000), None);
}

#[test]
fn frame_rates_of_cdps_are_known() {
    let f = cdp_framerate(30_000, 1_001).unwrap();
    assert_eq!((f.id, f.numer, f.denom), (4, 30_000, 1_001));
    assert_eq!(cdp_framerate(60, 1).unwrap().id, 8);
    assert!(cdp_framerate(120, 1).is_none());
}

#[test]
fn a_caption_is_a_window_a_pen_and_its_letters() {
    let codes = caption_codes("TICK");
    assert!(matches!(codes[0], CaptionCode::DeleteWindows(_)));
    assert!(matches!(codes[1], CaptionCode::DefineWindow(_)));
    let letters: Vec<u32> = codes
        .iter()
        .filter_map(|c| match c {
            CaptionCode::Character(c) => Some(*c),
            _ => None,
        })
        .collect();
    assert_eq!(letters, "TICK".chars().map(u32::from).collect::<Vec<u32>>());
}

#[test]
fn a_written_caption_is_decoded_again() {
    let framerate = cdp_framerate(25, 1).unwrap();
    let mut writer = CaptionWriter::default();
    let mut parser = cdp_types::CDPParser::new();
    for (n, text) in [None, Some("TICK"), None, Some("HELLO")].into_iter().enumerate() {
        let cdp = writer.next_cdp(framerate, n as u16, text);
        assert_eq!(&cdp[..2], &[0x96, 0x69]);
        assert_eq!(usize::from(cdp[2]), cdp.len());
        let read = match decode_caption(&mut parser, &cdp) {
            Ok(read) => read,
            Err(e) => panic!("{e:?}"),
        };
        assert_eq!(read.as_deref(), text);
    }
}

#[test]
fn a_caption_that_does_not_fit_is_completed_by_the_next_cdp() {
    let framerate = cdp_framerate(60, 1).unwrap();
    let mut writer = CaptionWriter::default();
    let mut parser = cdp_types::CDPParser::new();
    let mut said = Vec::new();
    for (n, text) in [Some("TICK"), None, None].into_iter().enumerate() {
        let cdp = writer.next_cdp(framerate, n as u16, text);
        match decode_caption(&mut parser, &cdp) {
            Ok(read) => said.push(read),
            Err(e) => panic!("{e:?}"),
        }
    }
    assert_eq!(said, vec![None, Some("TICK".to_owned()), None]);
}

#[test]
fn captions_fit_at_every_rate_but_the_two_highest() {
    for (numer, denom) in [(24_000, 1_001), (24, 1), (25, 1), (30_000, 1_001), (30, 1), (50, 1)] {
        let framerate = cdp_framerate(numer, denom).unwrap();
        let mut writer = CaptionWriter::default();
        let mut parser = cdp_types::CDPParser::new();
        for (n, text) in [Some("TICK"), None, Some("TOCK"), Some("TICK")].into_iter().enumerate() {
            let cdp = writer.next_cdp(framerate, n as u16, text);
            match decode_caption(&mut parser, &cdp) {
                Ok(read) => assert_eq!(read.as_deref(), text, "{numer}/{denom}"),
                Err(e) => panic!("{numer}/{denom}: {e:?}"),
            }
        }
    }
}

#[test]
fn captions_of_a_run_are_read_back() {
    for (numer, denom) in [(24_000, 1_001), (24, 1), (25, 1), (30_000, 1_001), (30, 1), (50, 1)] {
        let framerate = cdp_framerate(numer, denom).unwrap();
        let mut writer = CaptionWriter::default();
        let texts = [None, Some("TICK"), None, Some("TOCK"), Some("TICK")];
        let cdps: Vec<Vec<u8>> = texts
            .iter()
            .enumerate()
            .map(|(n, text)| writer.next_cdp(framerate, n as u16, *text))
            .collect();
        let said = match decode_captions(&cdps) {
            Ok(said) => said,
            Err(e) => panic!("{numer}/{denom}: {e:?}"),
        };
        let said: Vec<Option<&str>> = said.iter().map(|text| text.as_deref()).collect();
        assert_eq!(said, texts, "{numer}/{denom}");
    }
    assert!(decode_captions(&[vec![0]]).is_err());
}

#[test]
fn captioned_frames_span_sounding_pips() {
    let settings = Settings { pip_interval: PIP_INTERVAL_NS, ..Settings::default() };
    let mut captions = 0;
    for n in 0..100 {
        let (pts, next_pts) = frame_times(n, 30_000, 1_001);
        if caption_for(pts, next_pts, PIP_INTERVAL_NS).is_some() {
            let pip = pts.div_ceil(PIP_INTERVAL_NS) * PIP_INTERVAL_NS;
            assert!(pts <= pip && pip < next_pts);
            assert!(pip_active(pip, &settings));
            captions += 1;
        }
    }
    assert_eq!(captions, 16);
}

#[test]
fn damaged_cdp_is_refused() {
    let framerate = cdp_framerate(25, 1).unwrap();
    let mut cdp = CaptionWriter::default().next_cdp(framerate, 0, Some("TICK"));
    cdp[0] = 0;
    let mut parser = cdp_types::CDPParser::new();
    assert!(decode_caption(&mut parser, &cdp).is_err());
}

#[test]
fn caption_packets_are_found_among_others() {
    let mut packets: Vec<AncillaryPacket> = Vec::new();
    add_ancillary_meta(&mut packets, 9, 0, 0x5f, 0xff, &[1]);
    assert_eq!(caption_cdp_bytes(&packets), None);
    add_ancillary_meta(&mut packets, 10, 0, CC_DID, CC_SDID, &[0x96, 0x69]);
    add_ancillary_meta(&mut packets, 10, 0, CC_DID, CC_SDID, &[3]);
    assert_eq!(caption_cdp_bytes(&packets), Some(vec![0x96, 0x69]));
    assert_eq!(caption_cdps(&packets), vec![vec![0x96, 0x69], vec![3]]);
}

#[test]
fn caption_packet_has_both_identifiers() {
    let mut packets: Vec<AncillaryPacket> = Vec::new();
    add_ancillary_meta(&mut packets, 9, 0, CC_DID, 0x02, &[2]);
    assert_eq!(caption_cdp_bytes(&packets), None);
    assert_eq!(caption_cdps(&packets), vec![vec![2]]);
    add_ancillary_meta(&mut packets, 9, 0, CC_DID, CC_SDID, &[0x96, 0x69]);
    assert_eq!(caption_cdp_bytes(&packets), Some(vec![0x96, 0x69]));
}

#[test]
fn caption_text_is_that_of_its_service() {
    let word = |s: &str| s.chars().map(Some).collect::<Vec<Option<char>>>();
    assert_eq!(caption_text(&[(2, word("NO")), (1, word("YES"))]).as_deref(), Some("YES"));
    assert_eq!(caption_text(&[(1, vec![None, None])]), None);
    assert_eq!(caption_text(&[]), None);
    assert_eq!(caption_text(&[(1, vec![None, Some('A'), None])]).as_deref(), Some("A"));
}

// ---- pips -------------------------------------------------------------------

/// Number of full pips in an audio run of `duration_ns` (the pip at t=0 is skipped).
fn expected_pips(duration_ns: u64) -> u64 {
    let half = DEFAULT_PIP_DURATION / 2;
    (1..).take_while(|k| k * PIP_INTERVAL_NS + half <= duration_ns).count() as u64
}

/// `(running_time_ns, amplitude)` of every sample, packed in `format` and read back.
fn audio_envelope(format: &str) -> Vec<(u64, f64)> {
    let settings = Settings { pip_interval: PIP_INTERVAL_NS, ..Settings::default() };
    let mut state = AudioState { sample_offset: 0 };
    let mut out = Vec::new();
    for _ in 0..AUDIO_BUFFERS {
        let start = state.sample_offset;
        let (pts, _) = state.next_buffer(SAMPLES_PER_BUFFER, RATE).unwrap();
        let samples: Vec<Vec<u8>> = (0..u64::from(SAMPLES_PER_BUFFER))
            .map(|i| {
                let t = sample_running_time(start + i, RATE);
                let seconds = t as f64 / SECOND as f64;
                let tone = 0.8 * (2.0 * std::f64::consts::PI * 1_000.0 * seconds).sin();
                let value = if pip_active(t, &settings) { tone } else { 0.0 };
                match format {
                    "S16BE" => s16be((value * 32_767.0).round() as i16),
                    "S24BE" => s24be((value * 8_388_607.0).round() as i32),
                    _ => (value as f32).to_le_bytes().to_vec(),
                }
            })
            .collect();
        let width = samples[0].len();
        let data = fill(&samples, 1);
        for (i, bytes) in data.chunks_exact(width).enumerate() {
            let value = match bytes {
                [a, b] => f64::from(i16::from_be_bytes([*a, *b])) / 32_767.0,
                [a, b, c] => f64::from(i32::from_be_bytes([*a, *b, *c, 0]) >> 8) / 8_388_607.0,
                [a, b, c, d] => f64::from(f32::from_le_bytes([*a, *b, *c, *d])),
                _ => unreachable!(),
            };
            out.push((pts + i as u64 * SECOND / u64::from(RATE), value));
        }
    }
    out
}

#[test]
fn audio_pips_land_on_interval() {
    let duration_ns = AUDIO_BUFFERS * u64::from(SAMPLES_PER_BUFFER) * SECOND / u64::from(RATE);
    let n_pips = expected_pips(duration_ns);
    assert!(n_pips >= 4, "test too short: only {n_pips} pips");
    let tol = DEFAULT_PIP_DURATION / 4;

    for format in ["F32LE", "S24BE", "S16BE"] {
        let env = audio_envelope(format);
        for k in 1..=n_pips {
            let centre = k * PIP_INTERVAL_NS;
            let lo = centre - PIP_INTERVAL_NS / 2;
            let hi = centre + PIP_INTERVAL_NS / 2;
            let mut energy = 0.0f64;
            let mut weighted = 0.0f64;
            for &(t, a) in &env {
                if t > lo && t <= hi {
                    let e = a * a;
                    energy += e;
                    weighted += t as f64 * e;
                }
            }
            assert!(energy > 0.0, "{format}: no pip energy near {centre} ns");
            let detected = (weighted / energy) as u64;
            assert!(
                detected.abs_diff(centre) <= tol,
                "{format}: pip {k} centroid {detected} ns off from {centre} ns (tol {tol})"
            );
        }
        assert!(env.iter().take(100).all(|(_, a)| *a == 0.0), "the first pip is skipped");
    }
}

#[test]
fn pip_sounds_for_its_duration() {
    let s = Settings { pip_interval: 1_000, pip_duration: 100, ..Settings::default() };
    assert!(!pip_active(0, &s));
    assert!(!pip_active(950, &s));
    assert!(pip_active(951, &s));
    assert!(pip_active(1_000, &s));
    assert!(pip_active(1_049, &s));
    assert!(!pip_active(1_050, &s));
}

#[test]
fn samples_are_big_endian() {
    assert_eq!(s16be(-2), vec![0xff, 0xfe]);
    assert_eq!(s24be(0x12_3456), vec![0x12, 0x34, 0x56]);
    assert_eq!(s24be(-1), vec![0xff, 0xff, 0xff]);
    assert_eq!(fill(&[vec![1, 2], vec![3, 4]], 2), vec![1, 2, 1, 2, 3, 4, 3, 4]);
}

#[test]
fn sample_times_are_rounded_down() {
    assert_eq!(sample_running_time(1, 48_000), 20_833);
    assert_eq!(sample_running_time(48_000, 48_000), SECOND);
    assert_eq!(latency(1_024, 48_000), 21_333_333);
    let mut state = AudioState { sample_offset: 48_000 };
    assert_eq!(state.next_buffer(24_000, 48_000), Some((SECOND, SECOND / 2)));
    assert_eq!(state.sample_offset, 72_000);
}

#[test]
fn audio_settings_are_read_back() {
    let mut s = Settings::default();
    assert_eq!(s.samples_per_buffer, 1_024);
    assert_eq!(s.pip_duration, 4_000_000);
    let p = AudioProperty::from_name("samples-per-buffer").unwrap();
    s.set_property(p, AudioValue::UInt(480));
    assert_eq!(s.property(p), AudioValue::UInt(480));
    assert!(AudioProperty::from_name("volume").is_none());
}

#[test]
fn pips_are_the_middles_of_loud_runs() {
    let mut loud = vec![false; 12];
    for i in [2, 3, 4, 8] {
        loud[i] = true;
    }
    let t0 = 1_000;
    assert_eq!(
        detect_pips(t0, &loud),
        vec![t0 + 3 * BIN_NS + BIN_NS / 2, t0 + 8 * BIN_NS + BIN_NS / 2]
    );
    assert!(detect_pips(t0, &[false; 3]).is_empty());
    assert_eq!(bin_of(t0 + BIN_NS, t0), 1);
    assert_eq!(bin_of(t0 + BIN_NS - 1, t0), 0);
}

// ---- waiting ----------------------------------------------------------------

#[test]
fn waiting_stops_when_flushing() {
    let mut w = ClockWait::default();
    assert_eq!(w.begin(), WaitOutcome::Flushing);
    w.unlock_stop();
    assert_eq!(w.begin(), WaitOutcome::Reached);
    assert!(w.scheduled);
    assert!(w.unlock());
    assert_eq!(w.end(true), WaitOutcome::Flushing);
    w.unlock_stop();
    assert_eq!(w.begin(), WaitOutcome::Reached);
    assert_eq!(w.end(false), WaitOutcome::Reached);
    assert!(!w.unlock());
}

#[test]
fn only_live_sources_wait() {
    assert_eq!(wait_until(true, Some(5), Some(10)), Some(15));
    assert_eq!(wait_until(false, Some(5), Some(10)), None);
    assert_eq!(wait_until(true, None, Some(10)), None);
    assert_eq!(wait_until(true, Some(5), None), None);
}

#[test]
fn pips_are_in_order_and_move_with_the_start() {
    let mut loud = vec![false; 20];
    for i in [0, 1, 5, 9, 10, 11] {
        loud[i] = true;
    }
    let pips = detect_pips(1_000, &loud);
    assert_eq!(pips.len(), 3);
    assert!(pips.windows(2).all(|w| w[0] < w[1]));
    let later: Vec<u64> = pips.iter().map(|t| t + 7).collect();
    assert_eq!(detect_pips(1_007, &loud), later);
    assert!(detect_pips(1_000, &[false; 20]).is_empty());
    assert!(detect_pips(1_000, &[]).is_empty());
}

#[test]
fn layout_can_be_cut_between_samples() {
    let samples: Vec<Vec<u8>> = (0..5u8).map(|n| vec![n, n + 100]).collect();
    let whole = fill(&samples, 3);
    for cut in 0..=5 {
        let mut parts = fill(&samples[..cut], 3);
        parts.extend(fill(&samples[cut..], 3));
        assert_eq!(parts, whole, "cut at {cut}");
    }
    // Byte 1 of channel 2 of frame 3.
    assert_eq!(whole[3 * 6 + 2 * 2 + 1], 103);
}
