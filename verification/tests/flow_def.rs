//! MXL flow definitions: reading, splicing, building, and the caps they stand for.

use nvnmos_gst::caps::{Caps, FieldValue, Structure};
use nvnmos_gst::flow_def::{
    build_from_caps, caps_from_flow_def, caps_from_raw, indicates_wide_receiver_caps,
    meta_from_raw, read_flow_def_meta, resolve_mxl_flow_meta, splice_overrides, tag_text,
    try_caps_from_flow_def, written_flow_def, written_flow_def_for_caps, FlowDefBuildError,
    FlowDefBuildInput, FlowDefCapsError, FlowDefError, FlowDefOverrides, FlowResolution,
    RawFlowDef, RawFlowDefForCaps, RawRational, ValueOrigin,
};
use nvnmos_gst::fraction::{fraction_in_range, reduce};
use nvnmos_gst::types::{CapsMode, FlowFormat};
use serde::Deserializer;

const UUID_A: &str = "00000000-0000-0000-0000-000000000001";
const UUID_B: &str = "00000000-0000-0000-0000-000000000002";

fn video_flow_def(id: &str) -> String {
    format!(r#"{{"id":"{id}","format":"urn:x-nmos:format:video"}}"#)
}

/// Collects the members of a JSON object that have a known key. A key that is repeated is an
/// error, and so is a document that is no object; other members are skipped.
struct Known(&'static [&'static str]);

impl<'de> serde::de::Visitor<'de> for Known {
    type Value = Vec<(&'static str, serde_json::Value)>;

    fn expecting(&self, f: &mut std::fmt::Formatter) -> std::fmt::Result {
        f.write_str("a record")
    }

    fn visit_map<A: serde::de::MapAccess<'de>>(self, mut map: A) -> Result<Self::Value, A::Error> {
        let mut found: Self::Value = Vec::new();
        while let Some(key) = map.next_key::<String>()? {
            match self.0.iter().copied().find(|k| *k == key) {
                Some(k) if found.iter().any(|(seen, _)| *seen == k) => {
                    return Err(serde::de::Error::duplicate_field(k));
                }
                Some(k) => found.push((k, map.next_value()?)),
                None => {
                    map.next_value::<serde::de::IgnoredAny>()?;
                }
            }
        }
        Ok(found)
    }
}

/// What a document says under the given keys.
fn members(
    text: &str,
    keys: &'static [&'static str],
) -> Result<Vec<(&'static str, serde_json::Value)>, String> {
    let mut reader = serde_json::Deserializer::from_str(text);
    let found = reader.deserialize_map(Known(keys)).map_err(|e| e.to_string())?;
    reader.end().map_err(|e| e.to_string())?;
    Ok(found)
}

/// A member that may be left out or null.
fn member<T: serde::de::DeserializeOwned>(
    found: &[(&'static str, serde_json::Value)],
    key: &str,
) -> Result<Option<T>, String> {
    match found.iter().find(|(k, _)| *k == key) {
        Some((_, v)) => serde_json::from_value(v.clone()).map_err(|e| e.to_string()),
        None => Ok(None),
    }
}

/// The fields of a document that identify a flow.
fn record(text: &str) -> Result<RawFlowDef, String> {
    let found = members(text, &["id", "format"])?;
    Ok(RawFlowDef { id: member(&found, "id")?, format: member(&found, "format")? })
}

fn rational(
    found: &[(&'static str, serde_json::Value)],
    key: &str,
) -> Result<Option<RawRational>, String> {
    let Some(value) = member::<serde_json::Value>(found, key)? else {
        return Ok(None);
    };
    let parts = members(&value.to_string(), &["numerator", "denominator"])?;
    match (member(&parts, "numerator")?, member(&parts, "denominator")?) {
        (Some(numerator), Some(denominator)) => Ok(Some(RawRational { numerator, denominator })),
        _ => Err("missing field".to_owned()),
    }
}

/// The fields of a document that describe its essence.
fn caps_record(text: &str) -> Result<RawFlowDefForCaps, String> {
    let found = members(
        text,
        &[
            "media_type",
            "grain_rate",
            "sample_rate",
            "frame_width",
            "frame_height",
            "channel_count",
            "interlace_mode",
        ],
    )?;
    Ok(RawFlowDefForCaps {
        media_type: member(&found, "media_type")?,
        grain_rate: rational(&found, "grain_rate")?,
        sample_rate: rational(&found, "sample_rate")?,
        frame_width: member(&found, "frame_width")?,
        frame_height: member(&found, "frame_height")?,
        channel_count: member(&found, "channel_count")?,
        interlace_mode: member(&found, "interlace_mode")?,
    })
}

fn resolve(
    property_id: &str,
    property_format: FlowFormat,
    text: Option<&str>,
) -> Result<FlowResolution, FlowDefError> {
    resolve_mxl_flow_meta(property_id, property_format, text, record(text.unwrap_or("")))
}

#[test]
fn parse_id_and_format() {
    let m = read_flow_def_meta(record(&video_flow_def(UUID_A))).unwrap();
    assert_eq!(m.id, UUID_A);
    assert_eq!(m.format, FlowFormat::Video);
}

#[test]
fn missing_format_is_unspecified_not_error() {
    let m = read_flow_def_meta(record(&format!(r#"{{"id":"{UUID_A}"}}"#))).unwrap();
    assert_eq!(m.format, FlowFormat::Unspecified);
}

#[test]
fn unknown_format_urn_is_hard_error() {
    let err =
        read_flow_def_meta(record(&format!(r#"{{"id":"{UUID_A}","format":"urn:bogus"}}"#))).unwrap_err();
    assert!(matches!(err, FlowDefError::UnknownFormat(_)), "got: {err:?}");
}

#[test]
fn malformed_json_is_parse_error() {
    let err = read_flow_def_meta(record("not json")).unwrap_err();
    assert!(matches!(err, FlowDefError::Parse { .. }), "got: {err:?}");
}

#[test]
fn property_only_no_file() {
    let r = resolve(UUID_A, FlowFormat::Video, None).unwrap();
    assert_eq!(r.id, UUID_A);
    assert_eq!(r.id_origin, ValueOrigin::Property);
    assert_eq!(r.format, FlowFormat::Video);
    assert_eq!(r.format_origin, ValueOrigin::Property);
}

#[test]
fn flow_def_file_only() {
    let r =
        resolve("", FlowFormat::Unspecified, Some(&video_flow_def(UUID_A))).unwrap();
    assert_eq!(r.id, UUID_A);
    assert_eq!(r.id_origin, ValueOrigin::File);
    assert_eq!(r.format, FlowFormat::Video);
    assert_eq!(r.format_origin, ValueOrigin::File);
}

#[test]
fn flow_def_both_agree() {
    let r =
        resolve(UUID_A, FlowFormat::Video, Some(&video_flow_def(UUID_A))).unwrap();
    assert_eq!(r.id, UUID_A);
    assert_eq!(r.id_origin, ValueOrigin::Both);
    assert_eq!(r.format, FlowFormat::Video);
    assert_eq!(r.format_origin, ValueOrigin::Both);
}

#[test]
fn id_mismatch_is_hard_error() {
    let err =
        resolve(UUID_B, FlowFormat::Unspecified, Some(&video_flow_def(UUID_A)))
            .unwrap_err();
    assert!(matches!(err, FlowDefError::IdMismatch { .. }), "got: {err:?}");
}

#[test]
fn format_mismatch_is_hard_error() {
    let err =
        resolve("", FlowFormat::Audio, Some(&video_flow_def(UUID_A))).unwrap_err();
    assert!(matches!(err, FlowDefError::FormatMismatch { .. }), "got: {err:?}");
}

#[test]
fn neither_supplied() {
    let r = resolve("", FlowFormat::Unspecified, None).unwrap();
    assert!(r.id.is_empty());
    assert_eq!(r.id_origin, ValueOrigin::Neither);
    assert_eq!(r.format, FlowFormat::Unspecified);
    assert_eq!(r.format_origin, ValueOrigin::Neither);
}

#[test]
fn empty_string_transport_file_is_treated_as_absent() {
    let r = resolve(UUID_A, FlowFormat::Video, Some("")).unwrap();
    assert_eq!(r.id, UUID_A);
    assert_eq!(r.id_origin, ValueOrigin::Property);
    assert_eq!(r.format, FlowFormat::Video);
    assert_eq!(r.format_origin, ValueOrigin::Property);
}

/// A JSON array of texts.
fn strings(texts: &[&str]) -> serde_json::Value {
    serde_json::Value::from(texts.to_vec())
}

/// What a document says of caps, for documents whose rates can be reduced.
fn caps_from(text: &str) -> Result<Caps, FlowDefCapsError> {
    try_caps_from_flow_def(caps_record(text)).expect("rates can be reduced")
}

/// Whether some caps meet both: no field has two values.
fn can_intersect(a: &Caps, b: &Caps) -> bool {
    let (a, b) = (a.first().unwrap(), b.first().unwrap());
    a.name == b.name
        && a.features == b.features
        && a.fields.iter().all(|f| b.get(&f.name).is_none_or(|v| *v == f.value))
}

fn parse_value(text: &str) -> serde_json::Value {
    serde_json::from_str(text).expect("splice output must be valid JSON")
}

#[test]
fn splice_noop_when_all_overrides_unset() {
    let original = video_flow_def(UUID_A);
    let spliced = splice_overrides(&original, &FlowDefOverrides::default()).unwrap();
    assert_eq!(parse_value(&spliced), parse_value(&original));
}

#[test]
fn splice_overrides_top_level_id_label_description() {
    let original = format!(
        r#"{{"id":"{UUID_A}","format":"urn:x-nmos:format:video","label":"orig","description":"od"}}"#
    );
    let spliced = splice_overrides(
        &original,
        &FlowDefOverrides {
            flow_id: Some(UUID_B),
            label: Some("new label"),
            description: Some("new description"),
            ..FlowDefOverrides::default()
        },
    )
    .unwrap();
    let v = parse_value(&spliced);
    assert_eq!(v["id"], UUID_B);
    assert_eq!(v["label"], "new label");
    assert_eq!(v["description"], "new description");
    // unrelated fields untouched
    assert_eq!(v["format"], "urn:x-nmos:format:video");
}

#[test]
fn splice_overrides_name_and_mxl_domain_id_tags() {
    let original = format!(
        r#"{{"id":"{UUID_A}","format":"urn:x-nmos:format:video","tags":{{"urn:x-nvnmos:tag:name":["old-name"],"urn:x-nvnmos:tag:mxl-domain-id":["00000000-0000-0000-0000-000000000abc"],"urn:x-nmos:tag:grouphint/v1.0":["g:Video"]}}}}"#
    );
    let spliced = splice_overrides(
        &original,
        &FlowDefOverrides {
            name: Some("new-name"),
            mxl_domain_id: Some(DOMAIN_ID),
            ..FlowDefOverrides::default()
        },
    )
    .unwrap();
    let v = parse_value(&spliced);
    assert_eq!(v["tags"]["urn:x-nvnmos:tag:name"], strings(&["new-name"]));
    assert_eq!(
        v["tags"]["urn:x-nvnmos:tag:mxl-domain-id"],
        strings(&[DOMAIN_ID])
    );
    // grouphint preserved
    assert_eq!(
        v["tags"]["urn:x-nmos:tag:grouphint/v1.0"],
        strings(&["g:Video"])
    );
}

#[test]
fn splice_creates_tags_object_if_missing_when_needed() {
    let original = video_flow_def(UUID_A);
    let spliced = splice_overrides(
        &original,
        &FlowDefOverrides {
            name: Some("foo"),
            ..FlowDefOverrides::default()
        },
    )
    .unwrap();
    let v = parse_value(&spliced);
    assert_eq!(v["tags"]["urn:x-nvnmos:tag:name"], strings(&["foo"]));
}

#[test]
fn splice_caps_mode_narrow_removes_tag() {
    let original = format!(
        r#"{{"id":"{UUID_A}","format":"urn:x-nmos:format:video","tags":{{"urn:x-nvnmos:tag:caps":[""]}}}}"#
    );
    let spliced = splice_overrides(
        &original,
        &FlowDefOverrides {
            caps_mode: CapsMode::Narrow,
            ..FlowDefOverrides::default()
        },
    )
    .unwrap();
    let v = parse_value(&spliced);
    assert!(
        v["tags"].as_object().unwrap().get("urn:x-nvnmos:tag:caps").is_none(),
        "tag should be removed; got {v}"
    );
}

#[test]
fn splice_caps_mode_wide_inserts_non_empty_array() {
    let original = video_flow_def(UUID_A);
    let spliced = splice_overrides(
        &original,
        &FlowDefOverrides {
            caps_mode: CapsMode::Wide,
            ..FlowDefOverrides::default()
        },
    )
    .unwrap();
    let v = parse_value(&spliced);
    let arr = v["tags"]["urn:x-nvnmos:tag:caps"]
        .as_array()
        .expect("caps tag must be an array");
    // libnvnmos's rule is "present + non-empty array means wide";
    // assert that's what we wrote.
    assert!(!arr.is_empty(), "wide-mode array must be non-empty; got {v}");
}

#[test]
fn splice_caps_mode_auto_leaves_file_tag_alone() {
    let with_tag = format!(
        r#"{{"id":"{UUID_A}","format":"urn:x-nmos:format:video","tags":{{"urn:x-nvnmos:tag:caps":[""]}}}}"#
    );
    let unchanged = splice_overrides(&with_tag, &FlowDefOverrides::default()).unwrap();
    assert_eq!(parse_value(&unchanged), parse_value(&with_tag));

    let without_tag = video_flow_def(UUID_A);
    let still_without = splice_overrides(&without_tag, &FlowDefOverrides::default()).unwrap();
    let v = parse_value(&still_without);
    // No tags object was needed, so none should have been
    // synthesised either.
    assert!(v.get("tags").is_none(), "auto must not synthesise tags; got {v}");
}

#[test]
fn splice_rejects_non_object_top_level() {
    let err = splice_overrides("[]", &FlowDefOverrides::default()).unwrap_err();
    assert!(matches!(err, FlowDefError::NotAnObject), "got: {err:?}");
}

#[test]
fn splice_rejects_tags_that_are_not_an_object() {
    let original = format!(r#"{{"id":"{UUID_A}","tags":42}}"#);
    let err = splice_overrides(
        &original,
        &FlowDefOverrides {
            name: Some("x"),
            ..FlowDefOverrides::default()
        },
    )
    .unwrap_err();
    assert!(matches!(err, FlowDefError::TagsNotAnObject), "got: {err:?}");
}

/// Caps out of their launch syntax: a name, then fields that are texts, integers or
/// fractions.
fn caps_from_str(s: &str) -> Caps {
    let mut parts = s.split(',');
    let mut structure = Structure::new(parts.next().unwrap());
    for part in parts {
        let (name, value) = part.split_once('=').unwrap();
        let value = match (value.parse::<i32>(), value.split_once('/')) {
            (Ok(n), _) => FieldValue::Int(n),
            (_, Some((n, d))) => FieldValue::Fraction(n.parse().unwrap(), d.parse().unwrap()),
            _ => FieldValue::Text(value.to_owned()),
        };
        structure.set(name, value);
    }
    Caps::of(structure)
}

const DOMAIN_ID: &str = "1ac254d9-c9be-475a-93a7-f80b9c1063a8";

fn input<'a>(
    flow_id: &'a str,
    name: &'a str,
    caps: &'a Caps,
) -> FlowDefBuildInput<'a> {
    FlowDefBuildInput {
        flow_id,
        name,
        mxl_domain_id: DOMAIN_ID,
        label: "",
        description: "",
        caps,
    }
}

fn parse(json: &str) -> serde_json::Value {
    serde_json::from_str(json).expect("builder emits valid JSON")
}

#[test]
fn build_video_v210_minimal() {
    let caps = caps_from_str(
        "video/x-raw,format=v210,width=1920,height=1080,framerate=30000/1001",
    );
    let json = build_from_caps(&input(UUID_A, "cam-1", &caps)).unwrap();
    let v = parse(&json);
    assert_eq!(v["id"], UUID_A);
    assert_eq!(v["format"], "urn:x-nmos:format:video");
    assert_eq!(v["media_type"], "video/v210");
    assert_eq!(v["frame_width"], 1920);
    assert_eq!(v["frame_height"], 1080);
    assert_eq!(v["grain_rate"]["numerator"], 30000);
    assert_eq!(v["grain_rate"]["denominator"], 1001);
    assert_eq!(v["label"], "cam-1", "label falls back to name when property is empty");
    assert_eq!(v["description"], "", "description is emitted even when empty");
    assert_eq!(v["parents"], strings(&[]));
    assert_eq!(
        v["tags"]["urn:x-nmos:tag:grouphint/v1.0"],
        strings(&["cam-1:Video"]),
    );
    assert_eq!(
        v["tags"]["urn:x-nvnmos:tag:name"],
        strings(&["cam-1"]),
        "libnvnmos requires the name tag",
    );
    assert_eq!(
        v["tags"]["urn:x-nvnmos:tag:mxl-domain-id"],
        strings(&[DOMAIN_ID]),
        "libnvnmos requires the mxl-domain-id tag",
    );
    assert!(v.get("interlace_mode").is_none(), "no caps field → no interlace_mode emitted");
    assert_eq!(v["colorspace"], "BT709", "BT709 default for v210");
    let components = v["components"].as_array().expect("components is an array");
    assert_eq!(components.len(), 3, "Y/Cb/Cr triple");
    assert_eq!(components[0]["name"], "Y");
    assert_eq!(components[0]["width"], 1920);
    assert_eq!(components[0]["bit_depth"], 10);
    assert_eq!(components[1]["name"], "Cb");
    assert_eq!(components[1]["width"], 960, "Cb is half-width for 4:2:2");
    assert_eq!(components[2]["name"], "Cr");
    assert_eq!(components[2]["width"], 960);
}

#[test]
fn build_video_v210_with_interlace_mode_label_and_description() {
    let caps = caps_from_str(
        "video/x-raw,format=v210,width=720,height=486,framerate=30000/1001,interlace-mode=interlaced-tff",
    );
    let json = build_from_caps(&FlowDefBuildInput {
        label: "Studio A v210",
        description: "long description goes here",
        ..input(UUID_A, "cam-1", &caps)
    })
    .unwrap();
    let v = parse(&json);
    assert_eq!(v["label"], "Studio A v210", "property wins over name fallback");
    assert_eq!(v["description"], "long description goes here");
    assert_eq!(v["interlace_mode"], "interlaced-tff");
}

#[test]
fn build_audio_f32le_minimal() {
    let caps = caps_from_str(
        "audio/x-raw,format=F32LE,rate=48000,channels=2,layout=interleaved",
    );
    let json = build_from_caps(&input(UUID_A, "mic-1", &caps)).unwrap();
    let v = parse(&json);
    assert_eq!(v["format"], "urn:x-nmos:format:audio");
    assert_eq!(v["media_type"], "audio/float32");
    assert_eq!(v["sample_rate"]["numerator"], 48000);
    assert_eq!(v["sample_rate"]["denominator"], 1);
    assert_eq!(v["channel_count"], 2);
    assert_eq!(v["bit_depth"], 32);
    assert_eq!(v["label"], "mic-1", "label falls back to name when property is empty");
    assert_eq!(v["description"], "", "description is emitted even when empty");
    assert_eq!(
        v["tags"]["urn:x-nmos:tag:grouphint/v1.0"],
        strings(&["mic-1:Audio"]),
    );
    assert!(v.get("colorspace").is_none(), "colorspace is video-only");
    assert!(v.get("components").is_none(), "components is video-only");
}

#[test]
fn build_data_st2038_with_framerate() {
    let caps = caps_from_str("meta/x-st-2038,framerate=30/1");
    let json = build_from_caps(&input(UUID_A, "anc-1", &caps)).unwrap();
    let v = parse(&json);
    assert_eq!(v["format"], "urn:x-nmos:format:data");
    assert_eq!(v["media_type"], "video/smpte291");
    assert_eq!(v["grain_rate"]["numerator"], 30);
    assert_eq!(v["grain_rate"]["denominator"], 1);
    assert_eq!(
        v["tags"]["urn:x-nmos:tag:grouphint/v1.0"],
        strings(&["anc-1:Ancillary Data"]),
    );
}

#[test]
fn build_data_st2038_without_framerate_is_hard_error() {
    let caps = caps_from_str("meta/x-st-2038");
    let err = build_from_caps(&input(UUID_A, "anc-1", &caps)).unwrap_err();
    let msg = err.message();
    assert!(matches!(err, FlowDefBuildError::MissingCapsField { field: "framerate", .. }));
    assert!(msg.contains("capsfilter"), "missing-framerate error guides the user: {msg}");
}

#[test]
fn missing_flow_id_is_hard_error() {
    let caps =
        caps_from_str("video/x-raw,format=v210,width=1920,height=1080,framerate=30000/1001");
    let err = build_from_caps(&input("", "cam-1", &caps)).unwrap_err();
    assert!(matches!(err, FlowDefBuildError::MissingFlowId), "got: {err:?}");
}

#[test]
fn missing_name_is_hard_error() {
    let caps =
        caps_from_str("video/x-raw,format=v210,width=1920,height=1080,framerate=30000/1001");
    let err = build_from_caps(&input(UUID_A, "", &caps)).unwrap_err();
    assert!(matches!(err, FlowDefBuildError::MissingName), "got: {err:?}");
}

#[test]
fn missing_mxl_domain_id_is_hard_error() {
    let caps =
        caps_from_str("video/x-raw,format=v210,width=1920,height=1080,framerate=30000/1001");
    let err = build_from_caps(&FlowDefBuildInput {
        mxl_domain_id: "",
        ..input(UUID_A, "cam-1", &caps)
    })
    .unwrap_err();
    assert!(matches!(err, FlowDefBuildError::MissingMxlDomainId), "got: {err:?}");
}

#[test]
fn unsupported_video_format_is_hard_error() {
    let caps =
        caps_from_str("video/x-raw,format=I420,width=1920,height=1080,framerate=30000/1001");
    let err = build_from_caps(&input(UUID_A, "cam-1", &caps)).unwrap_err();
    assert!(
        matches!(err, FlowDefBuildError::UnsupportedCapsValue { field: "format", .. }),
        "got: {err:?}"
    );
}

#[test]
fn unsupported_caps_is_hard_error() {
    let caps = caps_from_str("application/x-rtp,media=video");
    let err = build_from_caps(&input(UUID_A, "cam-1", &caps)).unwrap_err();
    assert!(matches!(err, FlowDefBuildError::UnsupportedCaps(_)), "got: {err:?}");
}

#[test]
fn missing_video_field_is_hard_error() {
    let caps = caps_from_str("video/x-raw,format=v210,width=1920,height=1080");
    let err = build_from_caps(&input(UUID_A, "cam-1", &caps)).unwrap_err();
    assert!(
        matches!(err, FlowDefBuildError::MissingCapsField { field: "framerate", .. }),
        "got: {err:?}",
    );
}

#[test]
fn build_then_parse_round_trips_through_read_flow_def_meta() {
    let caps =
        caps_from_str("video/x-raw,format=v210,width=1920,height=1080,framerate=30000/1001");
    let json = build_from_caps(&input(UUID_B, "cam-1", &caps)).unwrap();
    let meta = read_flow_def_meta(record(&json)).unwrap();
    assert_eq!(meta.id, UUID_B);
    assert_eq!(meta.format, FlowFormat::Video);
}



#[test]
fn video_v210() {
    let json = r#"{
        "id": "00000000-0000-0000-0000-000000000001",
        "format": "urn:x-nmos:format:video",
        "media_type": "video/v210",
        "grain_rate": { "numerator": 60000, "denominator": 1001 },
        "frame_width": 1920,
        "frame_height": 1080
    }"#;
    let caps = caps_from(json).unwrap();
    let s = caps.first().expect("structure");
    assert_eq!(s.name, "video/x-raw");
    assert_eq!(s.get_text("format").unwrap(), "v210");
    assert_eq!(s.get_int("width").unwrap(), 1920);
    assert_eq!(s.get_int("height").unwrap(), 1080);
    let fr = s.get_fraction("framerate").unwrap();
    assert_eq!(fr, (60000, 1001));
    assert!(s.get_text("interlace-mode").is_none());
}

#[test]
fn video_v210_with_interlace_mode() {
    let json = r#"{
        "id": "00000000-0000-0000-0000-000000000001",
        "format": "urn:x-nmos:format:video",
        "media_type": "video/v210",
        "grain_rate": { "numerator": 25, "denominator": 1 },
        "frame_width": 720, "frame_height": 576,
        "interlace_mode": "interleaved"
    }"#;
    let caps = caps_from(json).unwrap();
    let s = caps.first().expect("structure");
    assert_eq!(s.get_text("interlace-mode").unwrap(), "interleaved");
}

#[test]
fn audio_f32le() {
    let json = r#"{
        "id": "00000000-0000-0000-0000-000000000001",
        "format": "urn:x-nmos:format:audio",
        "media_type": "audio/float32",
        "sample_rate": { "numerator": 48000, "denominator": 1 },
        "channel_count": 2,
        "bit_depth": 32
    }"#;
    let caps = caps_from(json).unwrap();
    let s = caps.first().expect("structure");
    assert_eq!(s.name, "audio/x-raw");
    assert_eq!(s.get_text("format").unwrap(), "F32LE");
    assert_eq!(s.get_int("rate").unwrap(), 48000);
    assert_eq!(s.get_int("channels").unwrap(), 2);
    assert_eq!(s.get_text("layout").unwrap(), "interleaved");
}

#[test]
fn data_st2038() {
    let json = r#"{
        "id": "00000000-0000-0000-0000-000000000001",
        "format": "urn:x-nmos:format:data",
        "media_type": "video/smpte291",
        "grain_rate": { "numerator": 30, "denominator": 1 }
    }"#;
    let caps = caps_from(json).unwrap();
    let s = caps.first().expect("structure");
    assert_eq!(s.name, "meta/x-st-2038");
    let fr = s.get_fraction("framerate").unwrap();
    assert_eq!(fr, (30, 1));
}

#[test]
fn missing_media_type_is_error() {
    let err = caps_from(r#"{"id":"a"}"#).unwrap_err();
    assert!(
        matches!(err, FlowDefCapsError::MissingField("media_type")),
        "got: {err:?}"
    );
}

#[test]
fn unsupported_media_type_is_error() {
    let err = caps_from(r#"{"media_type":"image/jpeg"}"#).unwrap_err();
    assert!(matches!(err, FlowDefCapsError::UnsupportedMediaType(_)), "got: {err:?}");
}

#[test]
fn missing_grain_rate_for_video_is_error() {
    let err = caps_from(
        r#"{"media_type":"video/v210","frame_width":1920,"frame_height":1080}"#,
    )
    .unwrap_err();
    assert!(
        matches!(err, FlowDefCapsError::MissingField("grain_rate")),
        "got: {err:?}"
    );
}

#[test]
fn missing_frame_width_for_video_is_error() {
    let err = caps_from(
        r#"{"media_type":"video/v210","grain_rate":{"numerator":30,"denominator":1},"frame_height":1080}"#,
    )
    .unwrap_err();
    assert!(
        matches!(err, FlowDefCapsError::MissingField("frame_width")),
        "got: {err:?}"
    );
}

#[test]
fn parse_error_is_surfaced() {
    let err = caps_from("not json").unwrap_err();
    assert!(matches!(err, FlowDefCapsError::Parse { .. }), "got: {err:?}");
}

#[test]
fn round_trip_with_build_from_caps_video() {
    let original_caps =
        caps_from_str("video/x-raw,format=v210,width=1920,height=1080,framerate=30000/1001");
    let json = build_from_caps(&input(UUID_A, "cam-1", &original_caps)).unwrap();
    let derived = caps_from(&json).unwrap();
    // Both should agree on the structure name + the essence
    // fields the builder emits (framerate, width, height,
    // format).
    assert!(
        can_intersect(&derived, &original_caps),
        "derived caps `{derived:?}` should intersect original `{original_caps:?}`"
    );
}

#[test]
fn round_trip_with_build_from_caps_audio() {
    let original_caps =
        caps_from_str("audio/x-raw,format=F32LE,rate=48000,channels=2,layout=interleaved");
    let json = build_from_caps(&input(UUID_A, "mic-1", &original_caps)).unwrap();
    let derived = caps_from(&json).unwrap();
    assert!(
        can_intersect(&derived, &original_caps),
        "derived caps `{derived:?}` should intersect original `{original_caps:?}`"
    );
}

#[test]
fn round_trip_with_build_from_caps_data() {
    let original_caps = caps_from_str("meta/x-st-2038,framerate=30/1");
    let json = build_from_caps(&input(UUID_A, "anc-1", &original_caps)).unwrap();
    let derived = caps_from(&json).unwrap();
    assert!(
        can_intersect(&derived, &original_caps),
        "derived caps `{derived:?}` should intersect original `{original_caps:?}`"
    );
}

// ---- further cases ----------------------------------------------------------

#[test]
fn refused_values_are_named() {
    match read_flow_def_meta(record(r#"{"format":"urn:bogus"}"#)) {
        Err(FlowDefError::UnknownFormat(urn)) => assert_eq!(urn, "urn:bogus"),
        other => panic!("got: {other:?}"),
    }
    match resolve(UUID_B, FlowFormat::Video, Some(&video_flow_def(UUID_A))) {
        Err(FlowDefError::IdMismatch { property, file }) => {
            assert_eq!(property, UUID_B);
            assert_eq!(file, UUID_A);
        }
        other => panic!("got: {other:?}"),
    }
}

#[test]
fn document_without_id_has_an_empty_one() {
    let m = read_flow_def_meta(record("{}")).unwrap();
    assert_eq!(m.id, "");
    assert_eq!(m.format, FlowFormat::Unspecified);
    let raw = RawFlowDef { id: None, format: Some("urn:x-nmos:format:mux".to_owned()) };
    assert!(matches!(meta_from_raw(raw), Err(FlowDefError::UnknownFormat(_))));
    let raw = RawFlowDef { id: None, format: Some("urn:x-nmos:format:data".to_owned()) };
    assert_eq!(meta_from_raw(raw).unwrap().format, FlowFormat::Data);
}

#[test]
fn wrongly_typed_member_is_parse_error() {
    assert!(matches!(read_flow_def_meta(record(r#"{"id":42}"#)), Err(FlowDefError::Parse { .. })));
    assert!(matches!(read_flow_def_meta(record("42")), Err(FlowDefError::Parse { .. })));
    assert_eq!(read_flow_def_meta(record(r#"{"id":null}"#)).unwrap().id, "");
}

#[test]
fn splicing_twice_changes_nothing_more() {
    let overrides = FlowDefOverrides {
        flow_id: Some(UUID_B),
        name: Some("cam"),
        caps_mode: CapsMode::Wide,
        ..FlowDefOverrides::default()
    };
    let once = splice_overrides(&video_flow_def(UUID_A), &overrides).unwrap();
    let twice = splice_overrides(&once, &overrides).unwrap();
    assert_eq!(once, twice);
    assert_eq!(read_flow_def_meta(record(&once)).unwrap().id, UUID_B);
    assert!(matches!(
        splice_overrides("not json", &overrides),
        Err(FlowDefError::Parse { .. })
    ));
}

#[test]
fn wide_receiver_is_told_by_its_tag() {
    let narrow = video_flow_def(UUID_A);
    assert!(!indicates_wide_receiver_caps(&narrow).unwrap());
    let wide = splice_overrides(
        &narrow,
        &FlowDefOverrides { caps_mode: CapsMode::Wide, ..FlowDefOverrides::default() },
    )
    .unwrap();
    assert!(indicates_wide_receiver_caps(&wide).unwrap());
    assert!(!indicates_wide_receiver_caps(r#"{"tags":{"urn:x-nvnmos:tag:caps":[]}}"#).unwrap());
    assert!(indicates_wide_receiver_caps("not json").is_err());
}

#[test]
fn tag_is_a_json_array_of_one_text() {
    assert_eq!(tag_text("a\"b"), r#"["a\"b"]"#);
    assert_eq!(tag_text(""), r#"[""]"#);
}

#[test]
fn build_errors_say_what_is_missing() {
    let caps = Caps::Structures(vec![]);
    let err = build_from_caps(&input(UUID_A, "cam-1", &caps)).unwrap_err();
    assert!(matches!(err, FlowDefBuildError::EmptyCaps));
    assert_eq!(
        err.message(),
        "caps are empty or ANY; an essence shape is required to synthesise a flow_def"
    );
    let caps = caps_from_str("audio/x-raw,format=S16LE,rate=48000,channels=2");
    let err = build_from_caps(&input(UUID_A, "mic-1", &caps)).unwrap_err();
    assert_eq!(
        err.message(),
        "caps `audio/x-raw` field `format` has unsupported value `S16LE`"
    );
    let caps = caps_from_str("audio/x-raw,format=F32LE,channels=2");
    let err = build_from_caps(&input(UUID_A, "mic-1", &caps)).unwrap_err();
    assert_eq!(err.message(), "caps `audio/x-raw` are missing required field `rate`");
}

#[test]
fn rates_are_reduced() {
    let json = r#"{"media_type":"video/smpte291","grain_rate":{"numerator":50,"denominator":2}}"#;
    let caps = caps_from(json).unwrap();
    assert_eq!(caps.first().unwrap().get_fraction("framerate").unwrap(), (25, 1));
    assert_eq!(reduce(60_000, 1_001), (60_000, 1_001));
    assert_eq!(reduce(50, -2), (-25, 1));
    assert!(fraction_in_range(50, 2));
    assert!(!fraction_in_range(1, 0));
}

#[test]
fn rate_that_is_no_fraction_gives_no_caps() {
    let json = r#"{"media_type":"video/smpte291","grain_rate":{"numerator":50,"denominator":0}}"#;
    assert!(try_caps_from_flow_def(caps_record(json)).is_none());
}

#[test]
fn rate_out_of_range_is_named() {
    let json = r#"{"media_type":"video/smpte291",
        "grain_rate":{"numerator":4294967296,"denominator":1}}"#;
    let err = caps_from(json).unwrap_err();
    assert!(
        matches!(
            err,
            FlowDefCapsError::OutOfRangeField { field: "grain_rate", value: 4294967296 }
        ),
        "got: {err:?}"
    );
}

#[test]
fn audio_rate_is_a_whole_number() {
    let raw = |denominator: i64| RawFlowDefForCaps {
        media_type: Some("audio/float32".to_owned()),
        grain_rate: None,
        sample_rate: Some(RawRational { numerator: 44_100, denominator }),
        frame_width: None,
        frame_height: None,
        channel_count: Some(1),
        interlace_mode: None,
    };
    let from_raw = caps_from_raw(raw(1)).unwrap();
    let json = r#"{"media_type":"audio/float32","channel_count":1,
        "sample_rate":{"numerator":44100,"denominator":1}}"#;
    assert_eq!(caps_from(json).unwrap(), from_raw);
    assert_eq!(from_raw.first().unwrap().get_int("rate").unwrap(), 44_100);
    assert!(matches!(
        caps_from_raw(raw(2)),
        Err(FlowDefCapsError::OutOfRangeField { field: "sample_rate.denominator", value: 2 })
    ));
    let half = r#"{"media_type":"audio/float32","sample_rate":{"numerator":44100}}"#;
    assert!(matches!(caps_from(half), Err(FlowDefCapsError::Parse { .. })));
}

#[test]
fn fields_with_a_zero_denominator_give_no_caps() {
    let raw = |denominator: i64| RawFlowDefForCaps {
        media_type: Some("video/smpte291".to_owned()),
        grain_rate: Some(RawRational { numerator: 50, denominator }),
        sample_rate: None,
        frame_width: None,
        frame_height: None,
        channel_count: None,
        interlace_mode: None,
    };
    assert!(try_caps_from_flow_def(Ok(raw(0))).is_none());
    let caps = try_caps_from_flow_def(Ok(raw(2))).expect("a fraction").unwrap();
    assert_eq!(caps.first().unwrap().get_fraction("framerate").unwrap(), (25, 1));
}

#[test]
fn repeated_key_is_parse_error() {
    let err = read_flow_def_meta(record(r#"{"id":"first","label":"x","id":"last"}"#)).unwrap_err();
    assert_eq!(
        err.message(),
        "failed to parse transport file as JSON: duplicate field `id` at line 1 column 30"
    );
    let json = r#"{"media_type":"audio/float32","channel_count":1,"channel_count":2,
        "sample_rate":{"numerator":48000,"denominator":1}}"#;
    assert!(matches!(caps_from(json), Err(FlowDefCapsError::Parse { .. })));
    // Members that nobody asks for may be repeated, and hold what no 64-bit number does.
    let meta = read_flow_def_meta(record(r#"{"x":1e999,"x":2,"id":"a"}"#)).unwrap();
    assert_eq!(meta.id, "a");
}

#[test]
fn what_is_written_is_read_back() {
    let caps = caps_from_str(
        "video/x-raw,format=v210,width=1280,height=720,framerate=60000/1001,\
         interlace-mode=progressive",
    );
    let json = build_from_caps(&input(UUID_A, "cam-1", &caps)).unwrap();
    let raw = written_flow_def(&json).expect("a written document");
    let meta = read_flow_def_meta(Ok(raw)).unwrap();
    assert_eq!((meta.id.as_str(), meta.format), (UUID_A, FlowFormat::Video));
    let raw = written_flow_def_for_caps(&json).expect("a written document");
    let derived = caps_from_flow_def(Ok(raw)).unwrap();
    let (was, is) = (caps.first().unwrap(), derived.first().unwrap());
    assert_eq!(is.name, was.name);
    for field in ["format", "width", "height", "framerate", "interlace-mode"] {
        assert_eq!(is.get(field), was.get(field), "{field}");
    }
    // Only the form in which documents are written is taken.
    assert!(written_flow_def(&format!(" {json}")).is_none());
    assert!(written_flow_def(r#"{"id":"first","id":"last"}"#).is_none());
    assert!(written_flow_def(r#"{"id":42}"#).is_none());
    assert!(written_flow_def_for_caps("not json").is_none());
}

#[test]
fn flow_def_errors_are_worded() {
    let eof = "failed to parse transport file as JSON: EOF while parsing a value at line 1 column 0";
    assert_eq!(read_flow_def_meta(record("")).unwrap_err().message(), eof);
    let why = "invalid type: integer `42`, expected a string at line 1 column 8".to_owned();
    assert_eq!(
        read_flow_def_meta(Err(why)).unwrap_err().message(),
        "failed to parse transport file as JSON: invalid type: integer `42`, expected a string \
         at line 1 column 8"
    );
    assert_eq!(
        read_flow_def_meta(record(r#"{"format":"urn:bogus"}"#)).unwrap_err().message(),
        "transport file `format` `urn:bogus` is not a recognised NMOS format URN"
    );
    let file = r#"{"id":"b","format":"urn:x-nmos:format:audio"}"#;
    assert_eq!(
        resolve("a", FlowFormat::Audio, Some(file)).unwrap_err().message(),
        "mxl-flow-id mismatch: property `a` != transport file top-level `id` `b`"
    );
    assert_eq!(
        resolve("b", FlowFormat::Video, Some(file)).unwrap_err().message(),
        "flow format mismatch: caps-derived `Video` != transport file `format` `Audio`"
    );
    let overrides =
        FlowDefOverrides { caps_mode: CapsMode::Wide, ..FlowDefOverrides::default() };
    assert_eq!(
        splice_overrides("[]", &overrides).unwrap_err().message(),
        "transport file top-level JSON is not an object"
    );
    assert_eq!(
        splice_overrides(r#"{"tags":[]}"#, &overrides).unwrap_err().message(),
        "transport file `tags` is not a JSON object"
    );
}

#[test]
fn caps_errors_are_worded() {
    assert_eq!(
        caps_from("").unwrap_err().message(),
        "failed to parse transport file as JSON: EOF while parsing a value at line 1 column 0"
    );
    assert_eq!(
        caps_from("{}").unwrap_err().message(),
        "transport file is missing required field `media_type` (cannot derive essence caps \
         without it)"
    );
    assert_eq!(
        caps_from(r#"{"media_type":"video/jxsv"}"#).unwrap_err().message(),
        "transport file `media_type` `video/jxsv` is not supported by the caps reverse mapping; \
         supported: `video/v210`, `audio/float32`, `video/smpte291`"
    );
    let json = r#"{"media_type":"video/smpte291",
        "grain_rate":{"numerator":-9223372036854775808,"denominator":1}}"#;
    assert_eq!(
        caps_from(json).unwrap_err().message(),
        "transport file `grain_rate` has an out-of-range value `-9223372036854775808` (must fit \
         in i32)"
    );
}
