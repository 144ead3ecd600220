//! Caps, and what is filled in on essence caps.

use nvnmos_gst::caps::{Caps, Features, FieldValue, Structure};
use nvnmos_gst::essence_caps::{
    audio_caps_from, caps_from, channel_order_from_rtp_structure, default_channel_mask,
    default_smpte2110_channel_order, overlay_features, without_features,
};

fn text(value: &str) -> FieldValue {
    FieldValue::Text(value.to_owned())
}

fn structure(name: &str, fields: &[(&str, FieldValue)]) -> Structure {
    let mut s = Structure::new(name);
    for (field, value) in fields {
        s.set(field, value.copy());
    }
    s
}

fn caps(name: &str, fields: &[(&str, FieldValue)]) -> Caps {
    Caps::of(structure(name, fields))
}

fn nvmm_caps(fields: &[(&str, FieldValue)]) -> Caps {
    let mut s = structure("video/x-raw", fields);
    s.features = Features::Named(vec!["memory:NVMM".to_owned()]);
    Caps::of(s)
}

fn raw_audio_caps(format: &str, rate: i32, channels: i32) -> Caps {
    caps(
        "audio/x-raw",
        &[
            ("format", text(format)),
            ("rate", FieldValue::Int(rate)),
            ("channels", FieldValue::Int(channels)),
            ("layout", text("interleaved")),
        ],
    )
}

#[test]
fn default_smpte2110_channel_order_uses_m_st_or_uxx() {
    assert_eq!(default_smpte2110_channel_order(1), "SMPTE2110.(M)");
    assert_eq!(default_smpte2110_channel_order(2), "SMPTE2110.(ST)");
    assert_eq!(default_smpte2110_channel_order(3), "SMPTE2110.(U03)");
    assert_eq!(default_smpte2110_channel_order(6), "SMPTE2110.(U06)");
    assert_eq!(default_smpte2110_channel_order(8), "SMPTE2110.(U08)");
}

#[test]
fn channel_order_counts_beyond_one_digit() {
    assert_eq!(default_smpte2110_channel_order(16), "SMPTE2110.(U16)");
    assert_eq!(default_smpte2110_channel_order(64), "SMPTE2110.(U64)");
    assert_eq!(default_smpte2110_channel_order(65), "SMPTE2110.(U01)");
    assert_eq!(default_smpte2110_channel_order(0), "SMPTE2110.(U01)");
}

#[test]
fn caps_from_leaves_video_unchanged() {
    let caps = caps(
        "video/x-raw",
        &[
            ("format", text("UYVY")),
            ("width", FieldValue::Int(1920)),
            ("height", FieldValue::Int(1080)),
            ("framerate", FieldValue::Fraction(25, 1)),
        ],
    );
    let out = caps_from(&caps, None);
    assert_eq!(out, caps);
}

#[test]
fn caps_from_adds_sequential_channel_mask_for_audio() {
    let caps = raw_audio_caps("S24BE", 48_000, 6);
    let out = caps_from(&caps, None);
    let s = out.first().expect("structure");
    assert_eq!(s.get_bitmask("channel-mask").unwrap(), (1u64 << 6) - 1);
}

#[test]
fn overlay_features_reattaches_non_default_feature() {
    let base = caps(
        "video/x-raw",
        &[
            ("format", text("UYVY")),
            ("width", FieldValue::Int(1920)),
            ("height", FieldValue::Int(1080)),
        ],
    );
    let source = nvmm_caps(&[("format", text("UYVY"))]);
    let out = overlay_features(&base, Some(&source));
    let first = out.first().unwrap();
    assert_eq!(first.features, Features::Named(vec!["memory:NVMM".to_owned()]));
    // essence fields untouched
    assert_eq!(first.get_int("width").unwrap(), 1920);
}

#[test]
fn overlay_features_ignores_system_memory_and_none() {
    let base = caps("video/x-raw", &[("format", text("UYVY"))]);
    let plain = caps("video/x-raw", &[("format", text("UYVY"))]);
    assert_eq!(overlay_features(&base, None), base);
    assert_eq!(overlay_features(&base, Some(&plain)), base);
}

#[test]
fn without_features_resets_to_system_memory() {
    let caps = nvmm_caps(&[("format", text("UYVY"))]);
    let out = without_features(&caps);
    assert_eq!(out.first().unwrap().features, Features::system_memory());
    assert_eq!(out.first().unwrap().get_text("format"), Some("UYVY"));
}

#[test]
fn caps_from_preserves_explicit_channel_mask() {
    let mut s = structure(
        "audio/x-raw",
        &[
            ("format", text("S24BE")),
            ("rate", FieldValue::Int(48_000)),
            ("channels", FieldValue::Int(6)),
            ("layout", text("interleaved")),
        ],
    );
    s.set("channel-mask", FieldValue::Bitmask(0xf));
    let caps = Caps::of(s);
    let out = caps_from(&caps, None);
    let s = out.first().expect("structure");
    assert_eq!(s.get_bitmask("channel-mask").unwrap(), 0xf);
}

#[test]
fn channel_mask_has_a_bit_per_channel() {
    assert_eq!(default_channel_mask(1), Some(0b1));
    assert_eq!(default_channel_mask(2), Some(0b11));
    assert_eq!(default_channel_mask(3), Some(0b111));
    assert_eq!(default_channel_mask(64), Some(u64::MAX));
    assert_eq!(default_channel_mask(65), None);
    assert_eq!(default_channel_mask(-1), None);
}

#[test]
fn channel_order_comes_from_rtp_caps() {
    let rtp = structure("application/x-rtp", &[("channel-order", text("SMPTE2110.(51)"))]);
    assert_eq!(channel_order_from_rtp_structure(&rtp).as_deref(), Some("SMPTE2110.(51)"));
    let bare = structure("application/x-rtp", &[]);
    assert_eq!(channel_order_from_rtp_structure(&bare), None);
}

#[test]
fn filling_audio_twice_changes_nothing_more() {
    let caps = raw_audio_caps("S24BE", 48_000, 8);
    let once = audio_caps_from(&caps, None);
    assert_eq!(audio_caps_from(&once, None), once);
}

#[test]
fn a_set_field_is_found_and_keeps_its_place() {
    let mut s = structure("x", &[("a", FieldValue::Int(1)), ("b", FieldValue::Int(2))]);
    s.set("a", FieldValue::Boolean(true));
    assert_eq!(s.get("a"), Some(&FieldValue::Boolean(true)));
    assert_eq!(s.get_int("a"), None);
    assert_eq!(s.get_int("b"), Some(2));
    assert_eq!(s.fields.len(), 2);
    assert_eq!(s.fields[0].name, "a");
}

#[test]
fn any_caps_have_no_first_structure() {
    assert!(Caps::Any.first().is_none());
    assert!(Caps::Structures(vec![]).first().is_none());
}
