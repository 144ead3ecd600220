//! MXL domain ids.

use nvnmos_gst::domain::{
    combine_domain_id, domain_def_path, read_domain_def_id, resolve_mxl_domain_id, DomainDef,
    DomainDefFile, DomainError, DomainId,
};

const UUID_A: &str = "11111111-1111-1111-1111-111111111111";
const UUID_B: &str = "22222222-2222-2222-2222-222222222222";
const DIR: &str = "/dev/shm/domain";

/// What a definition file with the given text comes to.
fn file(body: &str) -> DomainDefFile {
    match serde_json::from_str::<serde_json::Value>(body) {
        Err(e) => DomainDefFile::Malformed(e.to_string()),
        Ok(v) => {
            let id = v.get("id").and_then(|id| id.as_str()).map(str::to_owned);
            DomainDefFile::Definition(DomainDef { id })
        }
    }
}

#[test]
fn property_only_no_path() {
    let id = resolve_mxl_domain_id(UUID_A, "", &DomainDefFile::NotFound).unwrap();
    assert_eq!(id, DomainId::Concrete(UUID_A.to_owned()));
}

#[test]
fn property_only_path_without_file() {
    let id = resolve_mxl_domain_id(UUID_A, DIR, &DomainDefFile::NotFound).unwrap();
    assert_eq!(id, DomainId::Concrete(UUID_A.to_owned()));
}

#[test]
fn domain_file_only() {
    let def = file(&format!(r#"{{"id":"{UUID_A}"}}"#));
    let id = resolve_mxl_domain_id("", DIR, &def).unwrap();
    assert_eq!(id, DomainId::Concrete(UUID_A.to_owned()));
}

#[test]
fn path_without_property_or_domain_def_is_application_resolved() {
    let id = resolve_mxl_domain_id("", DIR, &DomainDefFile::NotFound).unwrap();
    assert_eq!(id, DomainId::ApplicationResolved);
    let tag: serde_json::Value = serde_json::from_str(&id.tag_json()).unwrap();
    assert_eq!(tag, serde_json::Value::Array(vec![serde_json::Value::from("")]));
}

#[test]
fn domain_both_agree() {
    let def = file(&format!(r#"{{"id":"{UUID_A}"}}"#));
    let id = resolve_mxl_domain_id(UUID_A, DIR, &def).unwrap();
    assert_eq!(id, DomainId::Concrete(UUID_A.to_owned()));
}

#[test]
fn both_disagree_is_hard_error() {
    let def = file(&format!(r#"{{"id":"{UUID_A}"}}"#));
    let err = resolve_mxl_domain_id(UUID_B, DIR, &def).unwrap_err();
    assert!(matches!(err, DomainError::Mismatch { .. }), "got: {err:?}");
}

#[test]
fn neither_property_nor_path_is_unconfigured() {
    let err = resolve_mxl_domain_id("", "", &DomainDefFile::NotFound).unwrap_err();
    assert!(matches!(err, DomainError::Unconfigured), "got: {err:?}");
}

#[test]
fn bad_json_is_parse_error() {
    let err = resolve_mxl_domain_id("", DIR, &file("{ not json")).unwrap_err();
    assert!(matches!(err, DomainError::Parse { .. }), "got: {err:?}");
}

#[test]
fn json_without_id_is_missing_id() {
    let err = resolve_mxl_domain_id("", DIR, &file(r#"{"label":"no id here"}"#)).unwrap_err();
    assert!(matches!(err, DomainError::MissingId { .. }), "got: {err:?}");
}

#[test]
fn empty_id_string_is_missing_id() {
    let err = resolve_mxl_domain_id("", DIR, &file(r#"{"id":""}"#)).unwrap_err();
    assert!(matches!(err, DomainError::MissingId { .. }), "got: {err:?}");
}

#[test]
fn unreadable_domain_def_is_read_error() {
    let err =
        resolve_mxl_domain_id(UUID_A, DIR, &DomainDefFile::Unreadable("denied".into())).unwrap_err();
    assert!(
        matches!(err, DomainError::Read { ref source, .. } if source == "denied"),
        "got: {err:?}"
    );
}

#[test]
fn without_a_path_no_file_is_looked_at() {
    let id = resolve_mxl_domain_id(UUID_A, "", &file("{ not json")).unwrap();
    assert_eq!(id, DomainId::Concrete(UUID_A.to_owned()));
}

#[test]
fn mismatch_names_both_ids() {
    match combine_domain_id(UUID_B, DIR, Some(UUID_A.to_owned())) {
        Err(DomainError::Mismatch { property, domain_def, path }) => {
            assert_eq!(property, UUID_B);
            assert_eq!(domain_def, UUID_A);
            assert_eq!(path, domain_def_path(DIR));
        }
        other => panic!("got: {other:?}"),
    }
}

#[test]
fn tag_of_a_concrete_domain_is_its_id() {
    let id = DomainId::Concrete(UUID_A.to_owned());
    assert_eq!(id.tag_value(), UUID_A);
    assert_eq!(id.tag_json(), format!("[\"{UUID_A}\"]"));
    assert_eq!(DomainId::ApplicationResolved.tag_value(), "");
}

#[test]
fn domain_errors_name_the_file() {
    let fault = |id: &str, path: &str, def: &DomainDefFile| {
        resolve_mxl_domain_id(id, path, def).unwrap_err().message()
    };
    assert_eq!(
        fault("a", "/mxl", &file(r#"{"id":"b"}"#)),
        "mxl-domain-id mismatch: property `a` != domain_def.json `id` `b` at \
         `/mxl/domain_def.json`"
    );
    assert_eq!(
        fault("a", "/mxl/", &DomainDefFile::Unreadable("denied".to_owned())),
        "failed to read `/mxl/domain_def.json`: denied"
    );
    assert_eq!(
        fault("a", "/mxl", &file("")),
        "failed to parse `/mxl/domain_def.json` as JSON: EOF while parsing a value at line 1 \
         column 0"
    );
    assert_eq!(fault("a", "/mxl", &file("{}")), "`/mxl/domain_def.json` has no `id` field");
    assert_eq!(
        fault("", "", &DomainDefFile::NotFound),
        "`mxl-domain-id` or `mxl-domain-path` is required"
    );
}

#[test]
fn definition_is_found_below_the_path() {
    assert_eq!(domain_def_path("/mxl"), "/mxl/domain_def.json");
    assert_eq!(domain_def_path("/mxl/"), "/mxl/domain_def.json");
    assert_eq!(domain_def_path(""), "domain_def.json");
}

#[test]
fn id_field_has_to_name_a_domain() {
    let read = |id: Option<&str>| {
        let def = DomainDef { id: id.map(str::to_owned) };
        read_domain_def_id(DIR, &DomainDefFile::Definition(def))
    };
    assert_eq!(read(Some(UUID_A)).unwrap().as_deref(), Some(UUID_A));
    assert!(matches!(read(None), Err(DomainError::MissingId { .. })));
    assert!(matches!(read(Some("")), Err(DomainError::MissingId { .. })));
    assert!(read_domain_def_id(DIR, &DomainDefFile::NotFound).unwrap().is_none());
}

#[test]
fn refused_definition_is_parse_error() {
    let def = DomainDefFile::Malformed("duplicate field `id` at line 1 column 20".to_owned());
    assert_eq!(
        resolve_mxl_domain_id("", "/mxl", &def).unwrap_err().message(),
        "failed to parse `/mxl/domain_def.json` as JSON: duplicate field `id` at line 1 column 20"
    );
}
