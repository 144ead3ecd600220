//! MXL `flow_def` JSON documents.
//!
//! The transport file for MXL is a JSON document whose top-level `id` is the MXL flow
//! id and whose `format` is the NMOS format URN (`urn:x-nmos:format:video|audio|data`).
//!
//! A reader turns a document into the record of the fields that are looked at, or says why it
//! is none. [`read_flow_def_meta`] takes the two out of what was read, and
//! [`resolve_mxl_flow_meta`] combines them with the `mxl-flow-id` property and the format
//! derived from caps:
//!
//! * Property only: use it.
//! * File only: use it.
//! * Both agreeing: use the value.
//! * Both disagreeing: hard error.
//! * Neither: empty id / `Unspecified` format.
//!
//! [`splice_overrides`] writes the user's properties into a transport file.
//! [`build_from_caps`] makes a document from essence caps and property state, and
//! [`caps_from_flow_def`] gives the essence caps back.

use crate::caps::{
    lookup, Caps, CapsModel, Features, FeaturesModel, Field, FieldModel, FieldValue, Structure,
    StructureModel,
};
use crate::json::{
    array_value, as_integer, check_record, empty_object, field, integer_value, is_null, is_object,
    is_record, items, json_model, json_text, json_value, max_nesting, member, nested_within,
    optional_integer, optional_text, parse_value, read_optional_i32, read_optional_text,
    record_field, set_member, take_member, text_value, value_text, JsonModel,
};
use crate::fraction::{can_reduce, fraction_in_range, reduce, reduced};
use crate::text::{
    around, joined, put_together_in_order, put_together_says, same_text, says, says_in_order, signed_decimal,
    signed_decimal_i64,
};
use crate::types::{
    format_of_urn, format_urn, format_urn_round_trip, format_word, CapsMode, FlowFormat,
};
use vstd::prelude::*;

verus! {

// ---- reading id and format --------------------------------------------------

/// The fields of a document that identify a flow.
#[derive(Debug)]
pub struct RawFlowDef {
    /// MXL flow id (UUID).
    pub id: Option<String>,
    /// NMOS format URN. Optional in the file; the property may supply it instead.
    pub format: Option<String>,
}

/// Why a transport file was refused.
#[derive(Debug)]
#[allow(inconsistent_fields)]
pub enum FlowDefError {
    Parse { source: String },
    UnknownFormat(String),
    IdMismatch { property: String, file: String },
    FormatMismatch { property: FlowFormat, file: FlowFormat },
    NotAnObject,
    TagsNotAnObject,
}

pub enum FlowDefErrorModel {
    Parse(Seq<char>),
    UnknownFormat(Seq<char>),
    IdMismatch(Seq<char>, Seq<char>),
    FormatMismatch(FlowFormat, FlowFormat),
    NotAnObject,
    TagsNotAnObject,
}

impl DeepView for FlowDefError {
    type V = FlowDefErrorModel;

    open spec fn deep_view(&self) -> FlowDefErrorModel {
        match self {
            FlowDefError::Parse { source } => FlowDefErrorModel::Parse(source@),
            FlowDefError::UnknownFormat(urn) => FlowDefErrorModel::UnknownFormat(urn@),
            FlowDefError::IdMismatch { property, file } => FlowDefErrorModel::IdMismatch(
                property@,
                file@,
            ),
            FlowDefError::FormatMismatch { property, file } => FlowDefErrorModel::FormatMismatch(
                *property,
                *file,
            ),
            FlowDefError::NotAnObject => FlowDefErrorModel::NotAnObject,
            FlowDefError::TagsNotAnObject => FlowDefErrorModel::TagsNotAnObject,
        }
    }
}

impl FlowDefErrorModel {
    /// The wording of the error.
    pub open spec fn text(self) -> Seq<char> {
        match self {
            FlowDefErrorModel::Parse(source) => "failed to parse transport file as JSON: "@
                + source,
            FlowDefErrorModel::UnknownFormat(urn) => "transport file `format` `"@ + urn
                + "` is not a recognised NMOS format URN"@,
            FlowDefErrorModel::IdMismatch(property, file) =>
                "mxl-flow-id mismatch: property `"@ + property
                    + "` != transport file top-level `id` `"@ + file + "`"@,
            FlowDefErrorModel::FormatMismatch(property, file) =>
                "flow format mismatch: caps-derived `"@ + format_word(property)
                    + "` != transport file `format` `"@ + format_word(file) + "`"@,
            FlowDefErrorModel::NotAnObject => "transport file top-level JSON is not an object"@,
            FlowDefErrorModel::TagsNotAnObject => "transport file `tags` is not a JSON object"@,
        }
    }
}

impl FlowDefError {
    /// What is said of the error.
    pub fn message(&self) -> (r: String)
        ensures
            r@ == self.deep_view().text(),
    {
        match self {
            FlowDefError::Parse { source } => joined(
                "failed to parse transport file as JSON: ",
                source.as_str(),
            ),
            FlowDefError::UnknownFormat(urn) => around(
                "transport file `format` `",
                urn.as_str(),
                "` is not a recognised NMOS format URN",
            ),
            FlowDefError::IdMismatch { property, file } => {
                let mut r = around(
                    "mxl-flow-id mismatch: property `",
                    property.as_str(),
                    "` != transport file top-level `id` `",
                );
                r.append(file.as_str());
                r.append("`");
                r
            },
            FlowDefError::FormatMismatch { property, file } => {
                let mut r = around(
                    "flow format mismatch: caps-derived `",
                    property.word(),
                    "` != transport file `format` `",
                );
                r.append(file.word());
                r.append("`");
                r
            },
            FlowDefError::NotAnObject =>
                "transport file top-level JSON is not an object".to_owned(),
            FlowDefError::TagsNotAnObject =>
                "transport file `tags` is not a JSON object".to_owned(),
        }
    }
}

#[derive(Debug)]
pub struct FlowDefMeta {
    pub id: String,
    pub format: FlowFormat,
}

/// The `id` and `format` fields that a JSON value holds, where both are texts or left out.
pub open spec fn raw_flow_def(v: JsonModel) -> Option<(Option<Seq<char>>, Option<Seq<char>>)> {
    if is_record(v, 2) {
        match (optional_text(record_field(v, "id"@, 0)), optional_text(
            record_field(v, "format"@, 1),
        )) {
            (Ok(id), Ok(format)) => Some((id, format)),
            _ => None,
        }
    } else {
        None
    }
}

/// The id and format of a flow, from the two fields: a missing id is empty, a missing
/// format unspecified, and a format that names none is refused.
pub open spec fn flow_meta(id: Option<Seq<char>>, format: Option<Seq<char>>) -> Result<
    (Seq<char>, FlowFormat),
    FlowDefErrorModel,
> {
    let flow_id = match id {
        Some(t) => t,
        None => Seq::empty(),
    };
    match format {
        None => Ok((flow_id, FlowFormat::Unspecified)),
        Some(urn) => if format_of_urn(urn) == FlowFormat::Unspecified {
            Err(FlowDefErrorModel::UnknownFormat(urn))
        } else {
            Ok((flow_id, format_of_urn(urn)))
        },
    }
}

/// The two fields as they were read, or what was said of a document that is no record.
pub open spec fn flow_record(read: Result<RawFlowDef, String>) -> Result<
    (Option<Seq<char>>, Option<Seq<char>>),
    Seq<char>,
> {
    match read {
        Ok(raw) => Ok((raw.id.deep_view(), raw.format.deep_view())),
        Err(source) => Err(source@),
    }
}

/// The id and format that follow from what was read of a document.
pub open spec fn document_meta(
    read: Result<(Option<Seq<char>>, Option<Seq<char>>), Seq<char>>,
) -> Result<(Seq<char>, FlowFormat), FlowDefErrorModel> {
    match read {
        Err(source) => Err(FlowDefErrorModel::Parse(source)),
        Ok((id, format)) => flow_meta(id, format),
    }
}

/// The id and format from the raw fields.
pub fn meta_from_raw(raw: RawFlowDef) -> (r: Result<FlowDefMeta, FlowDefError>)
    ensures
        match r {
            Ok(meta) => flow_meta(raw.id.deep_view(), raw.format.deep_view()) == Ok::<
                _,
                FlowDefErrorModel,
            >((meta.id@, meta.format)),
            Err(e) => flow_meta(raw.id.deep_view(), raw.format.deep_view()) == Err::<
                (Seq<char>, FlowFormat),
                _,
            >(e.deep_view()),
        },
{
    let id: String = match raw.id {
        Some(t) => t,
        None => String::new(),
    };
    match raw.format {
        None => Ok(FlowDefMeta { id, format: FlowFormat::Unspecified }),
        Some(urn) => {
            let format = FlowFormat::from_format_urn(urn.as_str());
            if format == FlowFormat::Unspecified {
                Err(FlowDefError::UnknownFormat(urn))
            } else {
                Ok(FlowDefMeta { id, format })
            }
        },
    }
}

/// The `id` and `format` of a `flow_def` JSON document, from what was read of it. A transport
/// file that cannot be parsed at all is an error; missing individual fields surface as empty
/// `id` / [`FlowFormat::Unspecified`].
pub fn read_flow_def_meta(read: Result<RawFlowDef, String>) -> (r: Result<
    FlowDefMeta,
    FlowDefError,
>)
    ensures
        match r {
            Ok(meta) => document_meta(flow_record(read)) == Ok::<_, FlowDefErrorModel>(
                (meta.id@, meta.format),
            ),
            Err(e) => document_meta(flow_record(read)) == Err::<(Seq<char>, FlowFormat), _>(
                e.deep_view(),
            ),
        },
{
    match read {
        Ok(raw) => meta_from_raw(raw),
        Err(source) => Err(FlowDefError::Parse { source }),
    }
}

/// The text is a JSON document in the form in which documents are written here: compact, with
/// each key once.
pub open spec fn is_written(text: Seq<char>) -> bool {
    json_value(text) matches Ok(v) && json_text(v) == text
}

/// The JSON value of a text in the form in which documents are written here.
fn written_value(text: &str) -> (r: Option<serde_json::Value>)
    ensures
        match r {
            Some(v) => json_value(text@) == Ok::<_, Seq<char>>(json_model(v)) && json_text(
                json_model(v),
            ) == text@,
            None => !is_written(text@),
        },
{
    match parse_value(text) {
        Ok(v) => if same_text(value_text(&v).as_str(), text) {
            Some(v)
        } else {
            None
        },
        Err(_) => None,
    }
}

/// The record of a document that was written here ([`build_from_caps`], [`splice_overrides`]):
/// `None` for any other text, and where a field has another type.
pub fn written_flow_def(text: &str) -> (r: Option<RawFlowDef>)
    ensures
        match r {
            Some(raw) => is_written(text@) && raw_flow_def(json_value(text@)->Ok_0) == Some(
                (raw.id.deep_view(), raw.format.deep_view()),
            ),
            None => is_written(text@) ==> raw_flow_def(json_value(text@)->Ok_0) is None,
        },
{
    let v = match written_value(text) {
        Some(v) => v,
        None => {
            return None;
        },
    };
    if !check_record(&v, 2) {
        return None;
    }
    match (read_optional_text(field(&v, "id", 0)), read_optional_text(field(&v, "format", 1))) {
        (Ok(id), Ok(format)) => Some(RawFlowDef { id, format }),
        _ => None,
    }
}

// ---- combining with properties ----------------------------------------------

#[derive(Debug, Clone, Copy, PartialEq, Eq, Structural)]
pub enum ValueOrigin {
    /// User supplied the property; no transport file consulted (or the file did not
    /// carry the field).
    Property,
    /// Read from the transport file; user did not supply a property override.
    File,
    /// User supplied the property and the transport file agreed.
    Both,
    /// Neither source supplied a value.
    Neither,
}

#[derive(Debug)]
pub struct FlowResolution {
    pub id: String,
    pub id_origin: ValueOrigin,
    pub format: FlowFormat,
    pub format_origin: ValueOrigin,
}

/// The flow id from property and file, each of which may be empty.
pub open spec fn resolved_id(property: Seq<char>, file: Seq<char>) -> Result<
    (Seq<char>, ValueOrigin),
    FlowDefErrorModel,
> {
    if property.len() == 0 && file.len() == 0 {
        Ok((Seq::empty(), ValueOrigin::Neither))
    } else if file.len() == 0 {
        Ok((property, ValueOrigin::Property))
    } else if property.len() == 0 {
        Ok((file, ValueOrigin::File))
    } else if property == file {
        Ok((file, ValueOrigin::Both))
    } else {
        Err(FlowDefErrorModel::IdMismatch(property, file))
    }
}

/// The flow format from caps and file, each of which may be unspecified.
pub open spec fn resolved_format(property: FlowFormat, file: FlowFormat) -> Result<
    (FlowFormat, ValueOrigin),
    FlowDefErrorModel,
> {
    if property == FlowFormat::Unspecified && file == FlowFormat::Unspecified {
        Ok((FlowFormat::Unspecified, ValueOrigin::Neither))
    } else if file == FlowFormat::Unspecified {
        Ok((property, ValueOrigin::Property))
    } else if property == FlowFormat::Unspecified {
        Ok((file, ValueOrigin::File))
    } else if property == file {
        Ok((file, ValueOrigin::Both))
    } else {
        Err(FlowDefErrorModel::FormatMismatch(property, file))
    }
}

pub fn resolve_id(property: &str, file: Option<&str>) -> (r: Result<
    (String, ValueOrigin),
    FlowDefError,
>)
    ensures
        ({
            let expected = resolved_id(
                property@,
                match file {
                    Some(f) => f@,
                    None => Seq::empty(),
                },
            );
            match r {
                Ok((id, origin)) => expected == Ok::<_, FlowDefErrorModel>((id@, origin)),
                Err(e) => expected == Err::<(Seq<char>, ValueOrigin), _>(e.deep_view()),
            }
        }),
{
    match file {
        Some(f) => if f.is_empty() {
            if property.is_empty() {
                Ok((String::new(), ValueOrigin::Neither))
            } else {
                Ok((property.to_owned(), ValueOrigin::Property))
            }
        } else if property.is_empty() {
            Ok((f.to_owned(), ValueOrigin::File))
        } else if same_text(f, property) {
            Ok((f.to_owned(), ValueOrigin::Both))
        } else {
            Err(FlowDefError::IdMismatch { property: property.to_owned(), file: f.to_owned() })
        },
        None => if property.is_empty() {
            Ok((String::new(), ValueOrigin::Neither))
        } else {
            Ok((property.to_owned(), ValueOrigin::Property))
        },
    }
}

pub fn resolve_format(property: FlowFormat, file: FlowFormat) -> (r: Result<
    (FlowFormat, ValueOrigin),
    FlowDefError,
>)
    ensures
        match r {
            Ok(found) => resolved_format(property, file) == Ok::<_, FlowDefErrorModel>(found),
            Err(e) => resolved_format(property, file) == Err::<(FlowFormat, ValueOrigin), _>(
                e.deep_view(),
            ),
        },
{
    if property == FlowFormat::Unspecified && file == FlowFormat::Unspecified {
        Ok((FlowFormat::Unspecified, ValueOrigin::Neither))
    } else if file == FlowFormat::Unspecified {
        Ok((property, ValueOrigin::Property))
    } else if property == FlowFormat::Unspecified {
        Ok((file, ValueOrigin::File))
    } else if property == file {
        Ok((property, ValueOrigin::Both))
    } else {
        Err(FlowDefError::FormatMismatch { property, file })
    }
}

/// What a transport file contributes, from what was read of it: nothing where there is none, or
/// an empty one.
pub open spec fn file_meta(
    text: Option<Seq<char>>,
    read: Result<(Option<Seq<char>>, Option<Seq<char>>), Seq<char>>,
) -> Result<(Seq<char>, FlowFormat), FlowDefErrorModel> {
    match text {
        Some(t) if t.len() > 0 => document_meta(read),
        _ => Ok((Seq::empty(), FlowFormat::Unspecified)),
    }
}

/// What property, caps and file come to together: a file that is refused first, then an
/// id that disagrees, then a format that disagrees.
pub open spec fn resolved_flow(
    property_id: Seq<char>,
    property_format: FlowFormat,
    file: Result<(Seq<char>, FlowFormat), FlowDefErrorModel>,
) -> Result<((Seq<char>, ValueOrigin), (FlowFormat, ValueOrigin)), FlowDefErrorModel> {
    match file {
        Err(e) => Err(e),
        Ok((file_id, file_format)) => match resolved_id(property_id, file_id) {
            Err(e) => Err(e),
            Ok(id) => match resolved_format(property_format, file_format) {
                Err(e) => Err(e),
                Ok(format) => Ok((id, format)),
            },
        },
    }
}

/// Combine the user's `mxl-flow-id` property and the caps-derived [`FlowFormat`] with
/// `id` / `format` of the transport file, of which `read` was read. Without a file, or with an
/// empty one, `read` does not count.
pub fn resolve_mxl_flow_meta(
    property_id: &str,
    property_format: FlowFormat,
    transport_file_text: Option<&str>,
    read: Result<RawFlowDef, String>,
) -> (r: Result<FlowResolution, FlowDefError>)
    ensures
        ({
            let expected = resolved_flow(
                property_id@,
                property_format,
                file_meta(transport_file_text.deep_view(), flow_record(read)),
            );
            match r {
                Ok(flow) => expected == Ok::<_, FlowDefErrorModel>(
                    ((flow.id@, flow.id_origin), (flow.format, flow.format_origin)),
                ),
                Err(e) => expected is Err && expected->Err_0 == e.deep_view(),
            }
        }),
{
    let meta: Option<FlowDefMeta> = match transport_file_text {
        Some(t) => if t.is_empty() {
            None
        } else {
            match read_flow_def_meta(read) {
                Ok(m) => Some(m),
                Err(e) => {
                    return Err(e);
                },
            }
        },
        None => None,
    };
    let (file_id, file_format): (Option<&str>, FlowFormat) = match &meta {
        Some(m) => (Some(m.id.as_str()), m.format),
        None => (None, FlowFormat::Unspecified),
    };
    let (id, id_origin): (String, ValueOrigin) = match resolve_id(property_id, file_id) {
        Ok(found) => found,
        Err(e) => {
            return Err(e);
        },
    };
    match resolve_format(property_format, file_format) {
        Ok((format, format_origin)) => Ok(FlowResolution { id, id_origin, format, format_origin }),
        Err(e) => Err(e),
    }
}

// ---- splicing ---------------------------------------------------------------

/// User-set properties that, when present, are spliced into a transport file. Each
/// field that is `Some` replaces the corresponding field or tag in the JSON; `None`
/// leaves the file's value untouched.
#[derive(Debug, Clone, Copy)]
pub struct FlowDefOverrides<'a> {
    /// Top-level `id` (the MXL flow id).
    pub flow_id: Option<&'a str>,
    /// Top-level `label`.
    pub label: Option<&'a str>,
    /// Top-level `description`.
    pub description: Option<&'a str>,
    /// `tags["urn:x-nvnmos:tag:name"]` (the per-side resource name).
    pub name: Option<&'a str>,
    /// `tags["urn:x-nvnmos:tag:mxl-domain-id"]`.
    pub mxl_domain_id: Option<&'a str>,
    /// Presence of `tags["urn:x-nvnmos:tag:caps"]`. See [`CapsMode`].
    pub caps_mode: CapsMode,
}

impl<'a> Default for FlowDefOverrides<'a> {
    /// Nothing is overridden.
    fn default() -> (r: FlowDefOverrides<'a>)
        ensures
            r == (FlowDefOverrides {
                flow_id: None,
                label: None,
                description: None,
                name: None,
                mxl_domain_id: None,
                caps_mode: CapsMode::Auto,
            }),
    {
        FlowDefOverrides {
            flow_id: None,
            label: None,
            description: None,
            name: None,
            mxl_domain_id: None,
            caps_mode: CapsMode::Auto,
        }
    }
}

/// The members with one text set, where it is given.
pub open spec fn with_text(
    members: Map<Seq<char>, JsonModel>,
    key: Seq<char>,
    text: Option<&str>,
) -> Map<Seq<char>, JsonModel> {
    match text {
        Some(t) => members.insert(key, JsonModel::Text(t@)),
        None => members,
    }
}

/// A tag with a single value.
pub open spec fn tag(text: Seq<char>) -> JsonModel {
    JsonModel::Array(seq![JsonModel::Text(text)])
}

/// The members with one tag set, where it is given.
pub open spec fn with_tag(
    members: Map<Seq<char>, JsonModel>,
    key: Seq<char>,
    text: Option<&str>,
) -> Map<Seq<char>, JsonModel> {
    match text {
        Some(t) => members.insert(key, tag(t@)),
        None => members,
    }
}

impl<'a> FlowDefOverrides<'a> {
    /// Some tag is to be changed.
    pub open spec fn touches_tags(&self) -> bool {
        self.name is Some || self.mxl_domain_id is Some || self.caps_mode != CapsMode::Auto
    }

    /// The top-level members after the splice of `id`, `label` and `description`.
    pub open spec fn top_level(&self, members: Map<Seq<char>, JsonModel>) -> Map<
        Seq<char>,
        JsonModel,
    > {
        with_text(
            with_text(with_text(members, "id"@, self.flow_id), "label"@, self.label),
            "description"@,
            self.description,
        )
    }

    /// The tags after the splice.
    pub open spec fn tags(&self, tags: Map<Seq<char>, JsonModel>) -> Map<Seq<char>, JsonModel> {
        let named = with_tag(
            with_tag(tags, "urn:x-nvnmos:tag:name"@, self.name),
            "urn:x-nvnmos:tag:mxl-domain-id"@,
            self.mxl_domain_id,
        );
        match self.caps_mode {
            CapsMode::Auto => named,
            CapsMode::Narrow => named.remove("urn:x-nvnmos:tag:caps"@),
            CapsMode::Wide => named.insert("urn:x-nvnmos:tag:caps"@, tag(""@)),
        }
    }

    /// The document after the splice, or why there is none. A document without `tags`
    /// gets them where a tag is to be changed.
    pub open spec fn spliced(&self, document: Result<JsonModel, Seq<char>>) -> Result<
        JsonModel,
        FlowDefErrorModel,
    > {
        match document {
            Err(fault) => Err(FlowDefErrorModel::Parse(fault)),
            Ok(JsonModel::Object(members)) => {
                let top = self.top_level(members);
                if !self.touches_tags() {
                    Ok(JsonModel::Object(top))
                } else if !top.contains_key("tags"@) {
                    Ok(
                        JsonModel::Object(
                            top.insert("tags"@, JsonModel::Object(self.tags(Map::empty()))),
                        ),
                    )
                } else {
                    match top["tags"@] {
                        JsonModel::Object(tags) => Ok(
                            JsonModel::Object(
                                top.insert("tags"@, JsonModel::Object(self.tags(tags))),
                            ),
                        ),
                        _ => Err(FlowDefErrorModel::TagsNotAnObject),
                    }
                }
            },
            Ok(_) => Err(FlowDefErrorModel::NotAnObject),
        }
    }
}

/// A tag with a single value.
fn tag_value(text: &str) -> (v: serde_json::Value)
    ensures
        json_model(v) == tag(text@),
{
    let mut all: Vec<serde_json::Value> = Vec::new();
    all.push(text_value(text));
    assert(all@.map_values(|item: serde_json::Value| json_model(item)) =~= seq![
        JsonModel::Text(text@),
    ]);
    array_value(all)
}

/// The JSON text of a tag with a single value.
pub fn tag_text(text: &str) -> (r: String)
    ensures
        r@ == json_text(tag(text@)),
        json_value(r@) == Ok::<_, Seq<char>>(tag(text@)),
{
    proof {
        tag_nesting(text@, max_nesting());
    }
    value_text(&tag_value(text))
}

fn splice_text(v: &mut serde_json::Value, key: &str, text: Option<&str>)
    requires
        json_model(*old(v)) is Object,
    ensures
        json_model(*final(v)) == JsonModel::Object(
            with_text(json_model(*old(v))->Object_0, key@, text),
        ),
{
    if let Some(t) = text {
        set_member(v, key, text_value(t));
    }
}

fn splice_tag(v: &mut serde_json::Value, key: &str, text: Option<&str>)
    requires
        json_model(*old(v)) is Object,
    ensures
        json_model(*final(v)) == JsonModel::Object(
            with_tag(json_model(*old(v))->Object_0, key@, text),
        ),
{
    if let Some(t) = text {
        set_member(v, key, tag_value(t));
    }
}

/// Splice user-set property values into a transport file.
///
/// The reading rule for the caps tag is "present + non-empty array means wide":
/// `CapsMode::Wide` writes `[""]` to satisfy that rule, `CapsMode::Narrow` removes the
/// tag, and `CapsMode::Auto` leaves the file's existing presence alone.
pub fn splice_overrides(text: &str, overrides: &FlowDefOverrides<'_>) -> (r: Result<
    String,
    FlowDefError,
>)
    ensures
        match r {
            Ok(out) => overrides.spliced(json_value(text@)) is Ok && out@ == json_text(
                overrides.spliced(json_value(text@))->Ok_0,
            ) && json_value(out@) == Ok::<_, Seq<char>>(
                overrides.spliced(json_value(text@))->Ok_0,
            ) && is_written(out@),
            Err(e) => overrides.spliced(json_value(text@)) == Err::<JsonModel, _>(e.deep_view()),
        },
{
    let mut value = match parse_value(text) {
        Ok(v) => v,
        Err(source) => {
            return Err(FlowDefError::Parse { source });
        },
    };
    if !is_object(&value) {
        return Err(FlowDefError::NotAnObject);
    }
    let ghost before = json_model(value);
    splice_text(&mut value, "id", overrides.flow_id);
    splice_text(&mut value, "label", overrides.label);
    splice_text(&mut value, "description", overrides.description);
    let ghost top = json_model(value)->Object_0;
    let touches_tags: bool = overrides.name.is_some() || overrides.mxl_domain_id.is_some()
        || overrides.caps_mode != CapsMode::Auto;
    if touches_tags {
        let mut tags = match take_member(&mut value, "tags") {
            Some(t) => t,
            None => empty_object(),
        };
        if !is_object(&tags) {
            return Err(FlowDefError::TagsNotAnObject);
        }
        splice_tag(&mut tags, "urn:x-nvnmos:tag:name", overrides.name);
        splice_tag(&mut tags, "urn:x-nvnmos:tag:mxl-domain-id", overrides.mxl_domain_id);
        match overrides.caps_mode {
            CapsMode::Auto => {},
            CapsMode::Narrow => {
                let _ = take_member(&mut tags, "urn:x-nvnmos:tag:caps");
            },
            CapsMode::Wide => {
                set_member(&mut tags, "urn:x-nvnmos:tag:caps", tag_value(""));
            },
        }
        let ghost new_tags = json_model(tags);
        set_member(&mut value, "tags", tags);
        assert(top.remove("tags"@).insert("tags"@, new_tags) =~= top.insert("tags"@, new_tags));
    }
    proof {
        splice_keeps_nesting(*overrides, before);
    }
    Ok(value_text(&value))
}

proof fn text_nesting(members: Map<Seq<char>, JsonModel>, key: Seq<char>, text: Option<&str>, n: nat)
    requires
        nested_within(JsonModel::Object(members), n),
        n >= 2,
    ensures
        nested_within(JsonModel::Object(with_text(members, key, text)), n),
        nested_within(JsonModel::Object(with_tag(members, key, text)), n),
{
    reveal_with_fuel(nested_within, 2);
    let v = JsonModel::Object(members);
    assert(nested_within(v, n));
    assert(v->Object_0 == members);
    assert(forall|k: Seq<char>|
        members.contains_key(k) ==> nested_within(#[trigger] members[k], (n - 1) as nat));
    let a = with_text(members, key, text);
    let b = with_tag(members, key, text);
    assert forall|k: Seq<char>| a.contains_key(k) implies nested_within(
        #[trigger] a[k],
        (n - 1) as nat,
    ) by {
        if text is Some && k == key {
            assert(a[k] == JsonModel::Text(text->0@));
            assert(nested_within(a[k], (n - 1) as nat));
        } else {
            assert(members.contains_key(k) && a[k] == members[k]);
            assert(nested_within(members[k], (n - 1) as nat));
        }
    }
    assert forall|k: Seq<char>| b.contains_key(k) implies nested_within(
        #[trigger] b[k],
        (n - 1) as nat,
    ) by {
        if text is Some && k == key {
            tag_nesting(text->0@, (n - 1) as nat);
            assert(b[k] == tag(text->0@));
        } else {
            assert(members.contains_key(k) && b[k] == members[k]);
            assert(nested_within(members[k], (n - 1) as nat));
        }
    }
}

proof fn tag_nesting(text: Seq<char>, n: nat)
    requires
        n >= 1,
    ensures
        nested_within(tag(text), n),
{
    reveal_with_fuel(nested_within, 2);
}

proof fn splice_keeps_nesting(overrides: FlowDefOverrides<'_>, v: JsonModel)
    requires
        v is Object,
        nested_within(v, max_nesting()),
        overrides.spliced(Ok(v)) is Ok,
    ensures
        nested_within(overrides.spliced(Ok(v))->Ok_0, max_nesting()),
{
    reveal_with_fuel(nested_within, 3);
    let n = max_nesting();
    let members = v->Object_0;
    let a = with_text(members, "id"@, overrides.flow_id);
    text_nesting(members, "id"@, overrides.flow_id, n);
    let b = with_text(a, "label"@, overrides.label);
    text_nesting(a, "label"@, overrides.label, n);
    text_nesting(b, "description"@, overrides.description, n);
    let top = overrides.top_level(members);
    if overrides.touches_tags() {
        let old_tags = if top.contains_key("tags"@) {
            top["tags"@]->Object_0
        } else {
            Map::empty()
        };
        let m = (n - 1) as nat;
        assert(nested_within(JsonModel::Object(old_tags), m));
        let c = with_tag(old_tags, "urn:x-nvnmos:tag:name"@, overrides.name);
        text_nesting(old_tags, "urn:x-nvnmos:tag:name"@, overrides.name, m);
        let d = with_tag(c, "urn:x-nvnmos:tag:mxl-domain-id"@, overrides.mxl_domain_id);
        text_nesting(c, "urn:x-nvnmos:tag:mxl-domain-id"@, overrides.mxl_domain_id, m);
        let e = overrides.tags(old_tags);
        assert(nested_within(JsonModel::Object(e), m)) by {
            tag_nesting(""@, (m - 1) as nat);
            assert forall|k: Seq<char>| e.contains_key(k) implies nested_within(
                #[trigger] e[k],
                (m - 1) as nat,
            ) by {
                if overrides.caps_mode == CapsMode::Wide && k == "urn:x-nvnmos:tag:caps"@ {
                } else {
                    assert(d.contains_key(k) && e[k] == d[k]);
                }
            }
        }
        let all = top.insert("tags"@, JsonModel::Object(e));
        assert forall|k: Seq<char>| all.contains_key(k) implies nested_within(
            #[trigger] all[k],
            m,
        ) by {
            if k != "tags"@ {
                assert(top.contains_key(k) && all[k] == top[k]);
            }
        }
    }
}

/// Whether the caps tag of a document marks a wide receiver: present, and an array that
/// is not empty.
pub open spec fn wide_tag(v: JsonModel) -> bool {
    match record_field(v, "tags"@, -1) {
        Some(tags) => match record_field(tags, "urn:x-nvnmos:tag:caps"@, -1) {
            Some(JsonModel::Array(all)) => all.len() > 0,
            _ => false,
        },
        None => false,
    }
}

/// Whether a transport file marks its receiver as wide.
pub fn indicates_wide_receiver_caps(text: &str) -> (r: Result<bool, FlowDefError>)
    ensures
        match json_value(text@) {
            Err(fault) => r matches Err(e) && e.deep_view() == FlowDefErrorModel::Parse(fault),
            Ok(v) => r matches Ok(wide) && wide == wide_tag(v),
        },
{
    let v = match parse_value(text) {
        Ok(v) => v,
        Err(source) => {
            return Err(FlowDefError::Parse { source });
        },
    };
    match member(&v, "tags") {
        None => Ok(false),
        Some(tags) => match member(tags, "urn:x-nvnmos:tag:caps") {
            None => Ok(false),
            Some(caps) => match items(caps) {
                Some(all) => {
                    assert(json_model(*caps)->Array_0.len() == all@.len());
                    Ok(all.len() > 0)
                },
                None => Ok(false),
            },
        },
    }
}

// ---- splice laws ------------------------------------------------------------

proof fn distinct_keys()
    ensures
        "id"@ != "label"@,
        "id"@ != "description"@,
        "id"@ != "tags"@,
        "id"@ != "format"@,
        "label"@ != "description"@,
        "label"@ != "tags"@,
        "description"@ != "tags"@,
        "format"@ != "tags"@,
        "format"@ != "label"@,
        "format"@ != "description"@,
        "urn:x-nvnmos:tag:name"@ != "urn:x-nvnmos:tag:mxl-domain-id"@,
        "urn:x-nvnmos:tag:name"@ != "urn:x-nvnmos:tag:caps"@,
        "urn:x-nvnmos:tag:mxl-domain-id"@ != "urn:x-nvnmos:tag:caps"@,
{
    reveal_strlit("id");
    reveal_strlit("label");
    reveal_strlit("description");
    reveal_strlit("tags");
    reveal_strlit("format");
    reveal_strlit("urn:x-nvnmos:tag:name");
    reveal_strlit("urn:x-nvnmos:tag:mxl-domain-id");
    reveal_strlit("urn:x-nvnmos:tag:caps");
    assert("id"@.len() == 2);
    assert("label"@.len() == 5);
    assert("description"@.len() == 11);
    assert("tags"@.len() == 4);
    assert("format"@.len() == 6);
    assert("urn:x-nvnmos:tag:name"@.len() == 21);
    assert("urn:x-nvnmos:tag:mxl-domain-id"@.len() == 30);
    assert("urn:x-nvnmos:tag:caps"@.len() == 21);
    assert("urn:x-nvnmos:tag:name"@[17] == 'n');
    assert("urn:x-nvnmos:tag:caps"@[17] == 'c');
}

/// Property overrides file: after a splice each property that was given stands in the
/// document, and every other member and tag is as the file had it.
pub proof fn spliced_properties_win(
    overrides: FlowDefOverrides<'_>,
    members: Map<Seq<char>, JsonModel>,
    key: Seq<char>,
)
    requires
        overrides.spliced(Ok(JsonModel::Object(members))) is Ok,
    ensures
        ({
            let after = overrides.spliced(Ok(JsonModel::Object(members)))->Ok_0->Object_0;
            &&& overrides.spliced(Ok(JsonModel::Object(members)))->Ok_0 is Object
            &&& overrides.flow_id matches Some(t) ==> after.contains_key("id"@) && after["id"@]
                == JsonModel::Text(t@)
            &&& overrides.label matches Some(t) ==> after.contains_key("label"@)
                && after["label"@] == JsonModel::Text(t@)
            &&& overrides.description matches Some(t) ==> after.contains_key("description"@)
                && after["description"@] == JsonModel::Text(t@)
            &&& overrides.touches_tags() ==> after.contains_key("tags"@) && after["tags"@] is Object
            &&& overrides.name matches Some(t) ==> after["tags"@]->Object_0.contains_key(
                "urn:x-nvnmos:tag:name"@,
            ) && after["tags"@]->Object_0["urn:x-nvnmos:tag:name"@] == tag(t@)
            &&& overrides.mxl_domain_id matches Some(t) ==> after["tags"@]->Object_0.contains_key(
                "urn:x-nvnmos:tag:mxl-domain-id"@,
            ) && after["tags"@]->Object_0["urn:x-nvnmos:tag:mxl-domain-id"@] == tag(t@)
            &&& overrides.caps_mode == CapsMode::Wide ==> wide_tag(JsonModel::Object(after))
            &&& overrides.caps_mode == CapsMode::Narrow ==> !wide_tag(JsonModel::Object(after))
            &&& (key != "id"@ && key != "label"@ && key != "description"@ && key != "tags"@) ==> (
            after.contains_key(key) == members.contains_key(key) && (members.contains_key(key)
                ==> after[key] == members[key]))
            &&& !overrides.touches_tags() ==> (after.contains_key("tags"@) == members.contains_key(
                "tags"@,
            ) && (members.contains_key("tags"@) ==> after["tags"@] == members["tags"@]))
        }),
{
    distinct_keys();
}

/// Splicing the same properties a second time changes nothing.
pub proof fn splice_is_idempotent(overrides: FlowDefOverrides<'_>, v: JsonModel)
    requires
        overrides.spliced(Ok(v)) is Ok,
    ensures
        overrides.spliced(Ok(overrides.spliced(Ok(v))->Ok_0)) == overrides.spliced(Ok(v)),
{
    distinct_keys();
    let members = v->Object_0;
    let top = overrides.top_level(members);
    let once = overrides.spliced(Ok(v))->Ok_0->Object_0;
    if overrides.touches_tags() {
        let old_tags = if top.contains_key("tags"@) {
            top["tags"@]->Object_0
        } else {
            Map::empty()
        };
        let tags = overrides.tags(old_tags);
        assert(overrides.tags(tags) =~= tags);
        assert(overrides.top_level(once) =~= once);
        assert(once.insert("tags"@, JsonModel::Object(overrides.tags(tags))) =~= once);
    } else {
        assert(overrides.top_level(once) =~= once);
    }
}

/// A document whose id and format are texts keeps its format through a splice, and its
/// id is the property's where one was given.
pub proof fn spliced_id_is_read_back(overrides: FlowDefOverrides<'_>, v: JsonModel)
    requires
        v is Object,
        overrides.spliced(Ok(v)) is Ok,
        raw_flow_def(v) is Some,
    ensures
        ({
            let (id, format) = raw_flow_def(v)->0;
            raw_flow_def(overrides.spliced(Ok(v))->Ok_0) == Some(
                (
                    match overrides.flow_id {
                        Some(t) => Some(t@),
                        None => id,
                    },
                    format,
                ),
            )
        }),
{
    distinct_keys();
}

// ---- building from caps -----------------------------------------------------

/// Inputs to [`build_from_caps`].
#[derive(Debug, Clone, Copy)]
pub struct FlowDefBuildInput<'a> {
    /// MXL flow id (UUID). Required and non-empty.
    pub flow_id: &'a str,
    /// NMOS resource name. Used both as the `<group>` portion of the
    /// `urn:x-nmos:tag:grouphint/v1.0` tag and as the value of the
    /// `urn:x-nvnmos:tag:name` tag. Required non-empty.
    pub name: &'a str,
    /// Resolved MXL Domain id (UUID), for the `urn:x-nvnmos:tag:mxl-domain-id` tag.
    pub mxl_domain_id: &'a str,
    /// NMOS `label`. Falls back to `name` when empty.
    pub label: &'a str,
    /// NMOS `description`, written as it is even when empty.
    pub description: &'a str,
    /// Essence caps to translate. The first structure is used.
    pub caps: &'a Caps,
}

/// Why no document could be built.
#[derive(Debug)]
#[allow(inconsistent_fields)]
pub enum FlowDefBuildError {
    MissingFlowId,
    MissingName,
    MissingMxlDomainId,
    EmptyCaps,
    UnsupportedCaps(String),
    MissingCapsField { name: String, field: &'static str, hint: Option<&'static str> },
    UnsupportedCapsValue { name: String, field: &'static str, value: String },
}

pub enum FlowDefBuildErrorModel {
    MissingFlowId,
    MissingName,
    MissingMxlDomainId,
    EmptyCaps,
    UnsupportedCaps(Seq<char>),
    MissingCapsField(Seq<char>, Seq<char>, Option<Seq<char>>),
    UnsupportedCapsValue(Seq<char>, Seq<char>, Seq<char>),
}

impl DeepView for FlowDefBuildError {
    type V = FlowDefBuildErrorModel;

    open spec fn deep_view(&self) -> FlowDefBuildErrorModel {
        match self {
            FlowDefBuildError::MissingFlowId => FlowDefBuildErrorModel::MissingFlowId,
            FlowDefBuildError::MissingName => FlowDefBuildErrorModel::MissingName,
            FlowDefBuildError::MissingMxlDomainId => FlowDefBuildErrorModel::MissingMxlDomainId,
            FlowDefBuildError::EmptyCaps => FlowDefBuildErrorModel::EmptyCaps,
            FlowDefBuildError::UnsupportedCaps(name) => FlowDefBuildErrorModel::UnsupportedCaps(
                name@,
            ),
            FlowDefBuildError::MissingCapsField {
                name,
                field,
                hint,
            } => FlowDefBuildErrorModel::MissingCapsField(name@, field@, hint.deep_view()),
            FlowDefBuildError::UnsupportedCapsValue {
                name,
                field,
                value,
            } => FlowDefBuildErrorModel::UnsupportedCapsValue(name@, field@, value@),
        }
    }
}

impl FlowDefBuildErrorModel {
    /// The wording of the error.
    pub open spec fn text(self) -> Seq<char> {
        match self {
            FlowDefBuildErrorModel::MissingFlowId =>
                "synthesising flow_def from caps requires a non-empty `mxl-flow-id`"@,
            FlowDefBuildErrorModel::MissingName =>
                "synthesising flow_def from caps requires a non-empty `sender-name` / `receiver-name`"@,
            FlowDefBuildErrorModel::MissingMxlDomainId =>
                "synthesising flow_def from caps requires a non-empty `mxl-domain-id`"@,
            FlowDefBuildErrorModel::EmptyCaps =>
                "caps are empty or ANY; an essence shape is required to synthesise a flow_def"@,
            FlowDefBuildErrorModel::UnsupportedCaps(name) => "caps `"@ + name
                + "` are not supported by the caps→flow_def builder; supported shapes are `video/x-raw,format=v210,…`, `audio/x-raw,format=F32LE,…`, and `meta/x-st-2038,framerate=…,…`"@,
            FlowDefBuildErrorModel::MissingCapsField(name, field, hint) => {
                let start = "caps `"@ + name + "` are missing required field `"@ + field + "`"@;
                match hint {
                    Some(h) => start + " ("@ + h + ")"@,
                    None => start,
                }
            },
            FlowDefBuildErrorModel::UnsupportedCapsValue(name, field, value) => "caps `"@ + name
                + "` field `"@ + field + "` has unsupported value `"@ + value + "`"@,
        }
    }
}

impl FlowDefBuildError {
    /// What is said of the error.
    pub fn message(&self) -> (r: String)
        ensures
            r@ == self.deep_view().text(),
    {
        match self {
            FlowDefBuildError::MissingFlowId =>
                "synthesising flow_def from caps requires a non-empty `mxl-flow-id`".to_owned(),
            FlowDefBuildError::MissingName =>
                "synthesising flow_def from caps requires a non-empty `sender-name` / `receiver-name`".to_owned(),
            FlowDefBuildError::MissingMxlDomainId =>
                "synthesising flow_def from caps requires a non-empty `mxl-domain-id`".to_owned(),
            FlowDefBuildError::EmptyCaps =>
                "caps are empty or ANY; an essence shape is required to synthesise a flow_def".to_owned(),
            FlowDefBuildError::UnsupportedCaps(name) => around(
                "caps `",
                name.as_str(),
                "` are not supported by the caps→flow_def builder; supported shapes are `video/x-raw,format=v210,…`, `audio/x-raw,format=F32LE,…`, and `meta/x-st-2038,framerate=…,…`",
            ),
            FlowDefBuildError::MissingCapsField { name, field, hint } => {
                let mut r = around("caps `", name.as_str(), "` are missing required field `");
                r.append(field);
                r.append("`");
                if let Some(h) = hint {
                    r.append(" (");
                    r.append(h);
                    r.append(")");
                }
                r
            },
            FlowDefBuildError::UnsupportedCapsValue { name, field, value } => {
                let mut r = around("caps `", name.as_str(), "` field `");
                r.append(field);
                r.append("` has unsupported value `");
                r.append(value.as_str());
                r.append("`");
                r
            },
        }
    }
}

/// What to do about ST 2038 caps without a frame rate.
pub open spec fn framerate_hint() -> Seq<char> {
    "ST 2038 caps must carry a `framerate` field — insert a `capsfilter caps=\"meta/x-st-2038,framerate=30/1\"` upstream, or use `transport-file` / `transport-file-path` instead"@
}

/// What a caps structure says of its essence.
#[allow(inconsistent_fields)]
pub enum Essence {
    Video { width: i32, height: i32, rate: (i32, i32), interlace_mode: Option<Seq<char>> },
    Audio { rate: i32, channels: i32 },
    Data { rate: (i32, i32) },
}

/// The essence of a structure, or why it is not one that can be described: v210 video,
/// F32LE audio and ST 2038 ancillary data are.
pub open spec fn essence_of(s: StructureModel) -> Result<Essence, FlowDefBuildErrorModel> {
    if s.name == "video/x-raw"@ {
        match s.text_field("format"@) {
            None => Err(missing(s, "format"@)),
            Some(format) => if format != "v210"@ {
                Err(
                    FlowDefBuildErrorModel::UnsupportedCapsValue(s.name, "format"@, format),
                )
            } else {
                match (s.int_field("width"@), s.int_field("height"@), s.fraction_field(
                    "framerate"@,
                )) {
                    (None, _, _) => Err(missing(s, "width"@)),
                    (_, None, _) => Err(missing(s, "height"@)),
                    (_, _, None) => Err(missing(s, "framerate"@)),
                    (Some(width), Some(height), Some(rate)) => Ok(
                        Essence::Video {
                            width,
                            height,
                            rate,
                            interlace_mode: s.text_field("interlace-mode"@),
                        },
                    ),
                }
            },
        }
    } else if s.name == "audio/x-raw"@ {
        match s.text_field("format"@) {
            None => Err(missing(s, "format"@)),
            Some(format) => if format != "F32LE"@ {
                Err(
                    FlowDefBuildErrorModel::UnsupportedCapsValue(s.name, "format"@, format),
                )
            } else {
                match (s.int_field("rate"@), s.int_field("channels"@)) {
                    (None, _) => Err(missing(s, "rate"@)),
                    (_, None) => Err(missing(s, "channels"@)),
                    (Some(rate), Some(channels)) => Ok(Essence::Audio { rate, channels }),
                }
            },
        }
    } else if s.name == "meta/x-st-2038"@ {
        match s.fraction_field("framerate"@) {
            None => Err(
                FlowDefBuildErrorModel::MissingCapsField(
                    s.name,
                    "framerate"@,
                    Some(framerate_hint()),
                ),
            ),
            Some(rate) => Ok(Essence::Data { rate }),
        }
    } else {
        Err(FlowDefBuildErrorModel::UnsupportedCaps(s.name))
    }
}

pub open spec fn missing(s: StructureModel, field: Seq<char>) -> FlowDefBuildErrorModel {
    FlowDefBuildErrorModel::MissingCapsField(s.name, field, None)
}

pub open spec fn essence_format(essence: Essence) -> FlowFormat {
    match essence {
        Essence::Video { .. } => FlowFormat::Video,
        Essence::Audio { .. } => FlowFormat::Audio,
        Essence::Data { .. } => FlowFormat::Data,
    }
}

pub open spec fn essence_role(essence: Essence) -> Seq<char> {
    match essence {
        Essence::Video { .. } => "Video"@,
        Essence::Audio { .. } => "Audio"@,
        Essence::Data { .. } => "Ancillary Data"@,
    }
}

pub open spec fn rational_json(numerator: int, denominator: int) -> JsonModel {
    JsonModel::Object(
        Map::empty().insert("numerator"@, JsonModel::Integer(numerator)).insert(
            "denominator"@,
            JsonModel::Integer(denominator),
        ),
    )
}

pub open spec fn component_json(name: Seq<char>, width: int, height: int) -> JsonModel {
    JsonModel::Object(
        Map::empty().insert("name"@, JsonModel::Text(name)).insert(
            "width"@,
            JsonModel::Integer(width),
        ).insert("height"@, JsonModel::Integer(height)).insert(
            "bit_depth"@,
            JsonModel::Integer(10),
        ),
    )
}

/// Half of `n`, rounded towards zero.
pub open spec fn half(n: int) -> int {
    if n >= 0 {
        n / 2
    } else {
        -((-n) / 2)
    }
}

/// The members with those that describe the essence.
///
/// `colorspace` and `components` follow from v210: BT709 primaries, and Y/Cb/Cr 4:2:2
/// 10-bit components with Cb/Cr at half horizontal resolution.
pub open spec fn with_essence(m: Map<Seq<char>, JsonModel>, essence: Essence) -> Map<
    Seq<char>,
    JsonModel,
> {
    match essence {
        Essence::Video { width, height, rate, interlace_mode } => {
            let plain = m.insert("media_type"@, JsonModel::Text("video/v210"@)).insert(
                "grain_rate"@,
                rational_json(rate.0 as int, rate.1 as int),
            ).insert("frame_width"@, JsonModel::Integer(width as int)).insert(
                "frame_height"@,
                JsonModel::Integer(height as int),
            ).insert("colorspace"@, JsonModel::Text("BT709"@)).insert(
                "components"@,
                JsonModel::Array(
                    seq![
                        component_json("Y"@, width as int, height as int),
                        component_json("Cb"@, half(width as int), height as int),
                        component_json("Cr"@, half(width as int), height as int),
                    ],
                ),
            );
            match interlace_mode {
                Some(mode) => plain.insert("interlace_mode"@, JsonModel::Text(mode)),
                None => plain,
            }
        },
        Essence::Audio { rate, channels } => m.insert(
            "media_type"@,
            JsonModel::Text("audio/float32"@),
        ).insert("sample_rate"@, rational_json(rate as int, 1)).insert(
            "channel_count"@,
            JsonModel::Integer(channels as int),
        ).insert("bit_depth"@, JsonModel::Integer(32)),
        Essence::Data { rate } => m.insert(
            "media_type"@,
            JsonModel::Text("video/smpte291"@),
        ).insert("grain_rate"@, rational_json(rate.0 as int, rate.1 as int)),
    }
}

impl<'a> FlowDefBuildInput<'a> {
    /// The members that do not depend on the essence's shape.
    pub open spec fn common_members(&self, essence: Essence) -> Map<Seq<char>, JsonModel> {
        let label = if self.label@.len() == 0 {
            self.name@
        } else {
            self.label@
        };
        let tags = Map::empty().insert(
            "urn:x-nmos:tag:grouphint/v1.0"@,
            tag(self.name@ + ":"@ + essence_role(essence)),
        ).insert("urn:x-nvnmos:tag:name"@, tag(self.name@)).insert(
            "urn:x-nvnmos:tag:mxl-domain-id"@,
            tag(self.mxl_domain_id@),
        );
        Map::empty().insert("id"@, JsonModel::Text(self.flow_id@)).insert(
            "format"@,
            JsonModel::Text(format_urn(essence_format(essence))->0),
        ).insert("label"@, JsonModel::Text(label)).insert(
            "description"@,
            JsonModel::Text(self.description@),
        ).insert("tags"@, JsonModel::Object(tags)).insert(
            "parents"@,
            JsonModel::Array(Seq::empty()),
        )
    }

    /// The document for the input, or why there is none.
    pub open spec fn document(&self) -> Result<JsonModel, FlowDefBuildErrorModel> {
        if self.flow_id@.len() == 0 {
            Err(FlowDefBuildErrorModel::MissingFlowId)
        } else if self.name@.len() == 0 {
            Err(FlowDefBuildErrorModel::MissingName)
        } else if self.mxl_domain_id@.len() == 0 {
            Err(FlowDefBuildErrorModel::MissingMxlDomainId)
        } else {
            match self.caps.deep_view().first() {
                None => Err(FlowDefBuildErrorModel::EmptyCaps),
                Some(s) => match essence_of(s) {
                    Err(e) => Err(e),
                    Ok(essence) => Ok(
                        JsonModel::Object(with_essence(self.common_members(essence), essence)),
                    ),
                },
            }
        }
    }
}

fn missing_field(s: &Structure, field: &'static str) -> (e: FlowDefBuildError)
    ensures
        e.deep_view() == missing(s.deep_view(), field@),
{
    FlowDefBuildError::MissingCapsField { name: s.name.clone(), field, hint: None }
}

fn rational_value(numerator: i64, denominator: i64) -> (v: serde_json::Value)
    ensures
        json_model(v) == rational_json(numerator as int, denominator as int),
{
    let mut v = empty_object();
    set_member(&mut v, "numerator", integer_value(numerator));
    set_member(&mut v, "denominator", integer_value(denominator));
    v
}

fn component_value(name: &str, width: i64, height: i64) -> (v: serde_json::Value)
    ensures
        json_model(v) == component_json(name@, width as int, height as int),
{
    let mut v = empty_object();
    set_member(&mut v, "name", text_value(name));
    set_member(&mut v, "width", integer_value(width));
    set_member(&mut v, "height", integer_value(height));
    set_member(&mut v, "bit_depth", integer_value(10));
    v
}

/// The essence that a structure describes.
#[derive(Debug)]
#[allow(inconsistent_fields)]
enum EssenceShape<'a> {
    Video { width: i32, height: i32, rate: (i32, i32), interlace_mode: Option<&'a str> },
    Audio { rate: i32, channels: i32 },
    Data { rate: (i32, i32) },
}

impl<'a> EssenceShape<'a> {
    closed spec fn model(&self) -> Essence {
        match self {
            EssenceShape::Video { width, height, rate, interlace_mode } => Essence::Video {
                width: *width,
                height: *height,
                rate: *rate,
                interlace_mode: interlace_mode.deep_view(),
            },
            EssenceShape::Audio { rate, channels } => Essence::Audio {
                rate: *rate,
                channels: *channels,
            },
            EssenceShape::Data { rate } => Essence::Data { rate: *rate },
        }
    }
}

/// The shape of a v210 video structure.
fn read_video_shape<'a>(s: &'a Structure) -> (r: Result<EssenceShape<'a>, FlowDefBuildError>)
    requires
        s.name@ == "video/x-raw"@,
    ensures
        match r {
            Ok(shape) => essence_of(s.deep_view()) == Ok::<_, FlowDefBuildErrorModel>(
                shape.model(),
            ) && shape is Video,
            Err(e) => essence_of(s.deep_view()) == Err::<Essence, _>(e.deep_view()),
        },
{
    match s.get_text("format") {
        None => {
            return Err(missing_field(s, "format"));
        },
        Some(format) => if !same_text(format, "v210") {
            return Err(
                FlowDefBuildError::UnsupportedCapsValue {
                    name: s.name.clone(),
                    field: "format",
                    value: format.to_owned(),
                },
            );
        },
    }
    let width: i32 = match s.get_int("width") {
        Some(n) => n,
        None => {
            return Err(missing_field(s, "width"));
        },
    };
    let height: i32 = match s.get_int("height") {
        Some(n) => n,
        None => {
            return Err(missing_field(s, "height"));
        },
    };
    let rate: (i32, i32) = match s.get_fraction("framerate") {
        Some(f) => f,
        None => {
            return Err(missing_field(s, "framerate"));
        },
    };
    Ok(EssenceShape::Video { width, height, rate, interlace_mode: s.get_text("interlace-mode") })
}

/// The shape of an F32LE audio structure.
fn read_audio_shape<'a>(s: &'a Structure) -> (r: Result<EssenceShape<'a>, FlowDefBuildError>)
    requires
        s.name@ == "audio/x-raw"@,
        s.name@ != "video/x-raw"@,
    ensures
        match r {
            Ok(shape) => essence_of(s.deep_view()) == Ok::<_, FlowDefBuildErrorModel>(
                shape.model(),
            ) && shape is Audio,
            Err(e) => essence_of(s.deep_view()) == Err::<Essence, _>(e.deep_view()),
        },
{
    match s.get_text("format") {
        None => {
            return Err(missing_field(s, "format"));
        },
        Some(format) => if !same_text(format, "F32LE") {
            return Err(
                FlowDefBuildError::UnsupportedCapsValue {
                    name: s.name.clone(),
                    field: "format",
                    value: format.to_owned(),
                },
            );
        },
    }
    let rate: i32 = match s.get_int("rate") {
        Some(n) => n,
        None => {
            return Err(missing_field(s, "rate"));
        },
    };
    match s.get_int("channels") {
        Some(channels) => Ok(EssenceShape::Audio { rate, channels }),
        None => Err(missing_field(s, "channels")),
    }
}

/// The essence that a structure describes.
fn read_essence<'a>(s: &'a Structure) -> (r: Result<EssenceShape<'a>, FlowDefBuildError>)
    ensures
        match r {
            Ok(shape) => essence_of(s.deep_view()) == Ok::<_, FlowDefBuildErrorModel>(
                shape.model(),
            ),
            Err(e) => essence_of(s.deep_view()) == Err::<Essence, _>(e.deep_view()),
        },
{
    if same_text(s.name.as_str(), "video/x-raw") {
        read_video_shape(s)
    } else if same_text(s.name.as_str(), "audio/x-raw") {
        read_audio_shape(s)
    } else if same_text(s.name.as_str(), "meta/x-st-2038") {
        match s.get_fraction("framerate") {
            Some(rate) => Ok(EssenceShape::Data { rate }),
            None => Err(
                FlowDefBuildError::MissingCapsField {
                    name: s.name.clone(),
                    field: "framerate",
                    hint: Some(
                        "ST 2038 caps must carry a `framerate` field — insert a `capsfilter caps=\"meta/x-st-2038,framerate=30/1\"` upstream, or use `transport-file` / `transport-file-path` instead",
                    ),
                },
            ),
        }
    } else {
        Err(FlowDefBuildError::UnsupportedCaps(s.name.clone()))
    }
}

/// Add the members that describe a video flow.
fn build_video_body(
    v: &mut serde_json::Value,
    width: i32,
    height: i32,
    rate: (i32, i32),
    interlace_mode: Option<&str>,
)
    requires
        json_model(*old(v)) is Object,
    ensures
        json_model(*final(v)) == JsonModel::Object(
            with_essence(
                json_model(*old(v))->Object_0,
                Essence::Video {
                    width,
                    height,
                    rate,
                    interlace_mode: interlace_mode.deep_view(),
                },
            ),
        ),
{
    let wide: i64 = width as i64;
    let chroma_width: i64 = if wide >= 0 {
        wide / 2
    } else {
        -((-wide) / 2)
    };
    set_member(v, "media_type", text_value("video/v210"));
    set_member(v, "grain_rate", rational_value(rate.0 as i64, rate.1 as i64));
    set_member(v, "frame_width", integer_value(wide));
    set_member(v, "frame_height", integer_value(height as i64));
    set_member(v, "colorspace", text_value("BT709"));
    let mut components: Vec<serde_json::Value> = Vec::new();
    components.push(component_value("Y", wide, height as i64));
    components.push(component_value("Cb", chroma_width, height as i64));
    components.push(component_value("Cr", chroma_width, height as i64));
    assert(components@.map_values(|item: serde_json::Value| json_model(item)) =~= seq![
        component_json("Y"@, width as int, height as int),
        component_json("Cb"@, half(width as int), height as int),
        component_json("Cr"@, half(width as int), height as int),
    ]);
    set_member(v, "components", array_value(components));
    if let Some(mode) = interlace_mode {
        set_member(v, "interlace_mode", text_value(mode));
    }
}

/// Add the members that describe an audio flow.
fn build_audio_body(v: &mut serde_json::Value, rate: i32, channels: i32)
    requires
        json_model(*old(v)) is Object,
    ensures
        json_model(*final(v)) == JsonModel::Object(
            with_essence(json_model(*old(v))->Object_0, Essence::Audio { rate, channels }),
        ),
{
    set_member(v, "media_type", text_value("audio/float32"));
    set_member(v, "sample_rate", rational_value(rate as i64, 1));
    set_member(v, "channel_count", integer_value(channels as i64));
    set_member(v, "bit_depth", integer_value(32));
}

/// Add the members that describe an ancillary data flow.
fn build_data_body(v: &mut serde_json::Value, rate: (i32, i32))
    requires
        json_model(*old(v)) is Object,
    ensures
        json_model(*final(v)) == JsonModel::Object(
            with_essence(json_model(*old(v))->Object_0, Essence::Data { rate }),
        ),
{
    set_member(v, "media_type", text_value("video/smpte291"));
    set_member(v, "grain_rate", rational_value(rate.0 as i64, rate.1 as i64));
}

/// Build an MXL `flow_def` JSON document from essence caps and property state.
///
/// Only the fields directly derivable from the caps are emitted. The user can add
/// others by supplying a `transport-file` (which then wins over the builder).
pub fn build_from_caps(input: &FlowDefBuildInput<'_>) -> (r: Result<String, FlowDefBuildError>)
    ensures
        match r {
            Ok(text) => input.document() is Ok && text@ == json_text(input.document()->Ok_0)
                && json_value(text@) == Ok::<_, Seq<char>>(input.document()->Ok_0) && is_written(
                text@,
            ),
            Err(e) => input.document() == Err::<JsonModel, _>(e.deep_view()),
        },
{
    if input.flow_id.is_empty() {
        return Err(FlowDefBuildError::MissingFlowId);
    }
    if input.name.is_empty() {
        return Err(FlowDefBuildError::MissingName);
    }
    if input.mxl_domain_id.is_empty() {
        return Err(FlowDefBuildError::MissingMxlDomainId);
    }
    let structure = match input.caps.first() {
        Some(s) => s,
        None => {
            return Err(FlowDefBuildError::EmptyCaps);
        },
    };
    let shape = match read_essence(structure) {
        Ok(shape) => shape,
        Err(e) => {
            return Err(e);
        },
    };
    let ghost essence = shape.model();
    let (urn, role): (&str, &str) = match &shape {
        EssenceShape::Video { .. } => ("urn:x-nmos:format:video", "Video"),
        EssenceShape::Audio { .. } => ("urn:x-nmos:format:audio", "Audio"),
        EssenceShape::Data { .. } => ("urn:x-nmos:format:data", "Ancillary Data"),
    };
    let grouphint = around(input.name, ":", role);
    let label: &str = if input.label.is_empty() {
        input.name
    } else {
        input.label
    };
    let mut tags = empty_object();
    set_member(&mut tags, "urn:x-nmos:tag:grouphint/v1.0", tag_value(grouphint.as_str()));
    set_member(&mut tags, "urn:x-nvnmos:tag:name", tag_value(input.name));
    set_member(&mut tags, "urn:x-nvnmos:tag:mxl-domain-id", tag_value(input.mxl_domain_id));
    let parents: Vec<serde_json::Value> = Vec::new();
    assert(parents@.map_values(|item: serde_json::Value| json_model(item)) =~= Seq::empty());
    let mut value = empty_object();
    set_member(&mut value, "id", text_value(input.flow_id));
    set_member(&mut value, "format", text_value(urn));
    set_member(&mut value, "label", text_value(label));
    set_member(&mut value, "description", text_value(input.description));
    set_member(&mut value, "tags", tags);
    set_member(&mut value, "parents", array_value(parents));
    assert(json_model(value) == JsonModel::Object(input.common_members(essence)));
    match shape {
        EssenceShape::Video { width, height, rate, interlace_mode } => {
            build_video_body(&mut value, width, height, rate, interlace_mode);
        },
        EssenceShape::Audio { rate, channels } => {
            build_audio_body(&mut value, rate, channels);
        },
        EssenceShape::Data { rate } => {
            build_data_body(&mut value, rate);
        },
    }
    proof {
        document_nesting(*input, essence);
    }
    Ok(value_text(&value))
}

proof fn insert_nesting(
    members: Map<Seq<char>, JsonModel>,
    key: Seq<char>,
    value: JsonModel,
    n: nat,
)
    requires
        n >= 1,
        nested_within(JsonModel::Object(members), n),
        nested_within(value, (n - 1) as nat),
    ensures
        nested_within(JsonModel::Object(members.insert(key, value)), n),
{
    reveal_with_fuel(nested_within, 2);
    let v = JsonModel::Object(members);
    assert(nested_within(v, n));
    assert(v->Object_0 == members);
    assert(forall|k: Seq<char>|
        members.contains_key(k) ==> nested_within(#[trigger] members[k], (n - 1) as nat));
    let after = members.insert(key, value);
    assert forall|k: Seq<char>| after.contains_key(k) implies nested_within(
        #[trigger] after[k],
        (n - 1) as nat,
    ) by {
        if k != key {
            assert(members.contains_key(k) && after[k] == members[k]);
        }
    }
}

proof fn empty_nesting(n: nat)
    requires
        n >= 1,
    ensures
        nested_within(JsonModel::Object(Map::empty()), n),
        nested_within(JsonModel::Array(Seq::empty()), n),
{
}

proof fn leaf_nesting(n: nat, t: Seq<char>, i: int)
    ensures
        nested_within(JsonModel::Text(t), n),
        nested_within(JsonModel::Integer(i), n),
{
}

proof fn rational_nesting(a: int, b: int, n: nat)
    requires
        n >= 1,
    ensures
        nested_within(rational_json(a, b), n),
{
    let m0 = Map::<Seq<char>, JsonModel>::empty();
    empty_nesting(n);
    leaf_nesting((n - 1) as nat, Seq::empty(), a);
    leaf_nesting((n - 1) as nat, Seq::empty(), b);
    insert_nesting(m0, "numerator"@, JsonModel::Integer(a), n);
    insert_nesting(
        m0.insert("numerator"@, JsonModel::Integer(a)),
        "denominator"@,
        JsonModel::Integer(b),
        n,
    );
}

proof fn component_nesting(name: Seq<char>, w: int, h: int, n: nat)
    requires
        n >= 1,
    ensures
        nested_within(component_json(name, w, h), n),
{
    let m0 = Map::<Seq<char>, JsonModel>::empty();
    let m1 = m0.insert("name"@, JsonModel::Text(name));
    let m2 = m1.insert("width"@, JsonModel::Integer(w));
    let m3 = m2.insert("height"@, JsonModel::Integer(h));
    let k = (n - 1) as nat;
    empty_nesting(n);
    leaf_nesting(k, name, w);
    leaf_nesting(k, name, h);
    leaf_nesting(k, name, 10);
    insert_nesting(m0, "name"@, JsonModel::Text(name), n);
    insert_nesting(m1, "width"@, JsonModel::Integer(w), n);
    insert_nesting(m2, "height"@, JsonModel::Integer(h), n);
    insert_nesting(m3, "bit_depth"@, JsonModel::Integer(10), n);
}

proof fn document_nesting(input: FlowDefBuildInput<'_>, essence: Essence)
    ensures
        nested_within(
            JsonModel::Object(with_essence(input.common_members(essence), essence)),
            max_nesting(),
        ),
{
    let n = max_nesting();
    let k = (n - 1) as nat;
    let e = Map::<Seq<char>, JsonModel>::empty();
    empty_nesting(n);
    empty_nesting(k);
    let hint = input.name@ + ":"@ + essence_role(essence);
    tag_nesting(hint, (k - 1) as nat);
    tag_nesting(input.name@, (k - 1) as nat);
    tag_nesting(input.mxl_domain_id@, (k - 1) as nat);
    let t1 = e.insert("urn:x-nmos:tag:grouphint/v1.0"@, tag(hint));
    let t2 = t1.insert("urn:x-nvnmos:tag:name"@, tag(input.name@));
    let t3 = t2.insert("urn:x-nvnmos:tag:mxl-domain-id"@, tag(input.mxl_domain_id@));
    insert_nesting(e, "urn:x-nmos:tag:grouphint/v1.0"@, tag(hint), k);
    insert_nesting(t1, "urn:x-nvnmos:tag:name"@, tag(input.name@), k);
    insert_nesting(t2, "urn:x-nvnmos:tag:mxl-domain-id"@, tag(input.mxl_domain_id@), k);
    let label = if input.label@.len() == 0 {
        input.name@
    } else {
        input.label@
    };
    let urn = format_urn(essence_format(essence))->0;
    leaf_nesting(k, input.flow_id@, 32);
    leaf_nesting(k, urn, 0);
    leaf_nesting(k, label, 0);
    leaf_nesting(k, input.description@, 0);
    let c1 = e.insert("id"@, JsonModel::Text(input.flow_id@));
    let c2 = c1.insert("format"@, JsonModel::Text(urn));
    let c3 = c2.insert("label"@, JsonModel::Text(label));
    let c4 = c3.insert("description"@, JsonModel::Text(input.description@));
    let c5 = c4.insert("tags"@, JsonModel::Object(t3));
    let c6 = c5.insert("parents"@, JsonModel::Array(Seq::empty()));
    insert_nesting(e, "id"@, JsonModel::Text(input.flow_id@), n);
    insert_nesting(c1, "format"@, JsonModel::Text(urn), n);
    insert_nesting(c2, "label"@, JsonModel::Text(label), n);
    insert_nesting(c3, "description"@, JsonModel::Text(input.description@), n);
    insert_nesting(c4, "tags"@, JsonModel::Object(t3), n);
    insert_nesting(c5, "parents"@, JsonModel::Array(Seq::empty()), n);
    assert(c6 == input.common_members(essence));
    match essence {
        Essence::Video { width, height, rate, interlace_mode } => {
            let (w, h) = (width as int, height as int);
            let rational = rational_json(rate.0 as int, rate.1 as int);
            let parts = seq![
                component_json("Y"@, w, h),
                component_json("Cb"@, half(w), h),
                component_json("Cr"@, half(w), h),
            ];
            rational_nesting(rate.0 as int, rate.1 as int, k);
            component_nesting("Y"@, w, h, (k - 1) as nat);
            component_nesting("Cb"@, half(w), h, (k - 1) as nat);
            component_nesting("Cr"@, half(w), h, (k - 1) as nat);
            assert(nested_within(JsonModel::Array(parts), k)) by {
                reveal_with_fuel(nested_within, 2);
            }
            leaf_nesting(k, "video/v210"@, w);
            leaf_nesting(k, "BT709"@, h);
            let v1 = c6.insert("media_type"@, JsonModel::Text("video/v210"@));
            let v2 = v1.insert("grain_rate"@, rational);
            let v3 = v2.insert("frame_width"@, JsonModel::Integer(w));
            let v4 = v3.insert("frame_height"@, JsonModel::Integer(h));
            let v5 = v4.insert("colorspace"@, JsonModel::Text("BT709"@));
            let v6 = v5.insert("components"@, JsonModel::Array(parts));
            insert_nesting(c6, "media_type"@, JsonModel::Text("video/v210"@), n);
            insert_nesting(v1, "grain_rate"@, rational, n);
            insert_nesting(v2, "frame_width"@, JsonModel::Integer(w), n);
            insert_nesting(v3, "frame_height"@, JsonModel::Integer(h), n);
            insert_nesting(v4, "colorspace"@, JsonModel::Text("BT709"@), n);
            insert_nesting(v5, "components"@, JsonModel::Array(parts), n);
            if let Some(mode) = interlace_mode {
                leaf_nesting(k, mode, 0);
                insert_nesting(v6, "interlace_mode"@, JsonModel::Text(mode), n);
            }
        },
        Essence::Audio { rate, channels } => {
            let rational = rational_json(rate as int, 1);
            rational_nesting(rate as int, 1, k);
            leaf_nesting(k, "audio/float32"@, channels as int);
            let a1 = c6.insert("media_type"@, JsonModel::Text("audio/float32"@));
            let a2 = a1.insert("sample_rate"@, rational);
            let a3 = a2.insert("channel_count"@, JsonModel::Integer(channels as int));
            insert_nesting(c6, "media_type"@, JsonModel::Text("audio/float32"@), n);
            insert_nesting(a1, "sample_rate"@, rational, n);
            insert_nesting(a2, "channel_count"@, JsonModel::Integer(channels as int), n);
            insert_nesting(a3, "bit_depth"@, JsonModel::Integer(32), n);
        },
        Essence::Data { rate } => {
            let rational = rational_json(rate.0 as int, rate.1 as int);
            rational_nesting(rate.0 as int, rate.1 as int, k);
            leaf_nesting(k, "video/smpte291"@, 0);
            let d1 = c6.insert("media_type"@, JsonModel::Text("video/smpte291"@));
            insert_nesting(c6, "media_type"@, JsonModel::Text("video/smpte291"@), n);
            insert_nesting(d1, "grain_rate"@, rational, n);
        },
    }
}

// ---- caps from a document ---------------------------------------------------

#[derive(Debug)]
pub struct RawRational {
    pub numerator: i64,
    pub denominator: i64,
}

/// The fields of a document that describe its essence.
#[derive(Debug)]
pub struct RawFlowDefForCaps {
    pub media_type: Option<String>,
    pub grain_rate: Option<RawRational>,
    pub sample_rate: Option<RawRational>,
    pub frame_width: Option<i32>,
    pub frame_height: Option<i32>,
    pub channel_count: Option<i32>,
    pub interlace_mode: Option<String>,
}

pub struct RawCapsModel {
    pub media_type: Option<Seq<char>>,
    pub grain_rate: Option<(int, int)>,
    pub sample_rate: Option<(int, int)>,
    pub frame_width: Option<int>,
    pub frame_height: Option<int>,
    pub channel_count: Option<int>,
    pub interlace_mode: Option<Seq<char>>,
}

pub open spec fn rational_model(r: Option<RawRational>) -> Option<(int, int)> {
    match r {
        Some(r) => Some((r.numerator as int, r.denominator as int)),
        None => None,
    }
}

pub open spec fn int_model(n: Option<i32>) -> Option<int> {
    match n {
        Some(n) => Some(n as int),
        None => None,
    }
}

impl DeepView for RawFlowDefForCaps {
    type V = RawCapsModel;

    open spec fn deep_view(&self) -> RawCapsModel {
        RawCapsModel {
            media_type: self.media_type.deep_view(),
            grain_rate: rational_model(self.grain_rate),
            sample_rate: rational_model(self.sample_rate),
            frame_width: int_model(self.frame_width),
            frame_height: int_model(self.frame_height),
            channel_count: int_model(self.channel_count),
            interlace_mode: self.interlace_mode.deep_view(),
        }
    }
}

/// Why no caps follow from a document.
#[derive(Debug)]
pub enum FlowDefCapsError {
    Parse { source: String },
    MissingField(&'static str),
    UnsupportedMediaType(String),
    OutOfRangeField { field: &'static str, value: i64 },
}

pub enum FlowDefCapsErrorModel {
    Parse(Seq<char>),
    MissingField(Seq<char>),
    UnsupportedMediaType(Seq<char>),
    OutOfRangeField(Seq<char>, int),
}

impl DeepView for FlowDefCapsError {
    type V = FlowDefCapsErrorModel;

    open spec fn deep_view(&self) -> FlowDefCapsErrorModel {
        match self {
            FlowDefCapsError::Parse { source } => FlowDefCapsErrorModel::Parse(source@),
            FlowDefCapsError::MissingField(f) => FlowDefCapsErrorModel::MissingField(f@),
            FlowDefCapsError::UnsupportedMediaType(
                t,
            ) => FlowDefCapsErrorModel::UnsupportedMediaType(t@),
            FlowDefCapsError::OutOfRangeField {
                field,
                value,
            } => FlowDefCapsErrorModel::OutOfRangeField(field@, *value as int),
        }
    }
}

impl FlowDefCapsErrorModel {
    /// The wording of the error.
    pub open spec fn text(self) -> Seq<char> {
        match self {
            FlowDefCapsErrorModel::Parse(source) => "failed to parse transport file as JSON: "@
                + source,
            FlowDefCapsErrorModel::MissingField(field) =>
                "transport file is missing required field `"@ + field
                    + "` (cannot derive essence caps without it)"@,
            FlowDefCapsErrorModel::UnsupportedMediaType(media_type) =>
                "transport file `media_type` `"@ + media_type
                    + "` is not supported by the caps reverse mapping; supported: `video/v210`, `audio/float32`, `video/smpte291`"@,
            FlowDefCapsErrorModel::OutOfRangeField(field, value) => "transport file `"@ + field
                + "` has an out-of-range value `"@ + signed_decimal(value)
                + "` (must fit in i32)"@,
        }
    }
}

impl FlowDefCapsError {
    /// What is said of the error.
    pub fn message(&self) -> (r: String)
        ensures
            r@ == self.deep_view().text(),
    {
        match self {
            FlowDefCapsError::Parse { source } => joined(
                "failed to parse transport file as JSON: ",
                source.as_str(),
            ),
            FlowDefCapsError::MissingField(field) => around(
                "transport file is missing required field `",
                field,
                "` (cannot derive essence caps without it)",
            ),
            FlowDefCapsError::UnsupportedMediaType(media_type) => around(
                "transport file `media_type` `",
                media_type.as_str(),
                "` is not supported by the caps reverse mapping; supported: `video/v210`, `audio/float32`, `video/smpte291`",
            ),
            FlowDefCapsError::OutOfRangeField { field, value } => {
                let mut r = around("transport file `", field, "` has an out-of-range value `");
                r.append(signed_decimal_i64(*value).as_str());
                r.append("` (must fit in i32)");
                r
            },
        }
    }
}

/// A required 64-bit integer.
pub open spec fn required_integer(v: Option<JsonModel>) -> Option<int> {
    match v {
        Some(JsonModel::Integer(n)) => if i64::MIN <= n <= i64::MAX {
            Some(n)
        } else {
            None
        },
        _ => None,
    }
}

/// An optional rational: absent or null gives nothing, a record with both parts its
/// value; anything else is a fault.
pub open spec fn optional_rational(v: Option<JsonModel>) -> Result<Option<(int, int)>, ()> {
    match v {
        None => Ok(None),
        Some(JsonModel::Null) => Ok(None),
        Some(r) => if is_record(r, 2) {
            match (required_integer(record_field(r, "numerator"@, 0)), required_integer(
                record_field(r, "denominator"@, 1),
            )) {
                (Some(n), Some(d)) => Ok(Some((n, d))),
                _ => Err(()),
            }
        } else {
            Err(())
        },
    }
}

/// The fields of a document that describe its essence, where each has its type.
pub open spec fn raw_caps(v: JsonModel) -> Option<RawCapsModel> {
    let low = i32::MIN as int;
    let high = i32::MAX as int;
    let media_type = optional_text(record_field(v, "media_type"@, 0));
    let grain_rate = optional_rational(record_field(v, "grain_rate"@, 1));
    let sample_rate = optional_rational(record_field(v, "sample_rate"@, 2));
    let frame_width = optional_integer(record_field(v, "frame_width"@, 3), low, high);
    let frame_height = optional_integer(record_field(v, "frame_height"@, 4), low, high);
    let channel_count = optional_integer(record_field(v, "channel_count"@, 5), low, high);
    let interlace_mode = optional_text(record_field(v, "interlace_mode"@, 6));
    if is_record(v, 7) && media_type is Ok && grain_rate is Ok && sample_rate is Ok
        && frame_width is Ok && frame_height is Ok && channel_count is Ok && interlace_mode is Ok {
        Some(
            RawCapsModel {
                media_type: media_type->Ok_0,
                grain_rate: grain_rate->Ok_0,
                sample_rate: sample_rate->Ok_0,
                frame_width: frame_width->Ok_0,
                frame_height: frame_height->Ok_0,
                channel_count: channel_count->Ok_0,
                interlace_mode: interlace_mode->Ok_0,
            },
        )
    } else {
        None
    }
}

/// A rational as a fraction of 32-bit integers in lowest terms.
pub open spec fn fraction_of(field: Seq<char>, r: (int, int)) -> Result<
    (i32, i32),
    FlowDefCapsErrorModel,
> {
    if !(i32::MIN <= r.0 <= i32::MAX) {
        Err(FlowDefCapsErrorModel::OutOfRangeField(field, r.0))
    } else if !(i32::MIN <= r.1 <= i32::MAX) {
        Err(FlowDefCapsErrorModel::OutOfRangeField(field, r.1))
    } else {
        let (n, d) = reduced(r.0, r.1);
        Ok((n as i32, d as i32))
    }
}

/// A rational that 32-bit integers hold has lowest terms that they hold too.
pub open spec fn rational_ok(r: (int, int)) -> bool {
    i32::MIN <= r.0 <= i32::MAX && i32::MIN <= r.1 <= i32::MAX ==> can_reduce(r.0, r.1)
}

/// Caps of one structure in system memory.
pub open spec fn plain_caps(name: Seq<char>, fields: Seq<(Seq<char>, FieldModel)>) -> CapsModel {
    CapsModel::Structures(
        seq![
            StructureModel { name, fields, features: FeaturesModel::Named(Seq::empty()) },
        ],
    )
}

/// The caps of a v210 video flow.
pub open spec fn video_caps(
    width: i32,
    height: i32,
    rate: (i32, i32),
    interlace_mode: Option<Seq<char>>,
) -> CapsModel {
    let fields = seq![
        ("format"@, FieldModel::Text("v210"@)),
        ("width"@, FieldModel::Int(width)),
        ("height"@, FieldModel::Int(height)),
        ("framerate"@, FieldModel::Fraction(rate.0, rate.1)),
    ];
    plain_caps(
        "video/x-raw"@,
        match interlace_mode {
            Some(mode) => fields.push(("interlace-mode"@, FieldModel::Text(mode))),
            None => fields,
        },
    )
}

/// The caps of an F32LE audio flow.
pub open spec fn audio_caps(rate: i32, channels: i32) -> CapsModel {
    plain_caps(
        "audio/x-raw"@,
        seq![
            ("format"@, FieldModel::Text("F32LE"@)),
            ("rate"@, FieldModel::Int(rate)),
            ("channels"@, FieldModel::Int(channels)),
            ("layout"@, FieldModel::Text("interleaved"@)),
        ],
    )
}

/// The caps of an ST 2038 ancillary data flow.
pub open spec fn data_caps(rate: (i32, i32)) -> CapsModel {
    plain_caps("meta/x-st-2038"@, seq![("framerate"@, FieldModel::Fraction(rate.0, rate.1))])
}

/// The essence caps that the fields of a document describe, or why there are none.
pub open spec fn caps_of_raw(raw: RawCapsModel) -> Result<CapsModel, FlowDefCapsErrorModel> {
    match raw.media_type {
        None => Err(FlowDefCapsErrorModel::MissingField("media_type"@)),
        Some(media_type) => if media_type == "video/v210"@ {
            match (raw.grain_rate, raw.frame_width, raw.frame_height) {
                (None, _, _) => Err(FlowDefCapsErrorModel::MissingField("grain_rate"@)),
                (_, None, _) => Err(FlowDefCapsErrorModel::MissingField("frame_width"@)),
                (_, _, None) => Err(FlowDefCapsErrorModel::MissingField("frame_height"@)),
                (Some(r), Some(width), Some(height)) => match fraction_of("grain_rate"@, r) {
                    Err(e) => Err(e),
                    Ok(rate) => Ok(
                        video_caps(width as i32, height as i32, rate, raw.interlace_mode),
                    ),
                },
            }
        } else if media_type == "audio/float32"@ {
            match (raw.sample_rate, raw.channel_count) {
                (None, _) => Err(FlowDefCapsErrorModel::MissingField("sample_rate"@)),
                (_, None) => Err(FlowDefCapsErrorModel::MissingField("channel_count"@)),
                (Some((n, d)), Some(channels)) => if d != 1 {
                    Err(FlowDefCapsErrorModel::OutOfRangeField("sample_rate.denominator"@, d))
                } else if !(i32::MIN <= n <= i32::MAX) {
                    Err(FlowDefCapsErrorModel::OutOfRangeField("sample_rate.numerator"@, n))
                } else {
                    Ok(audio_caps(n as i32, channels as i32))
                },
            }
        } else if media_type == "video/smpte291"@ {
            match raw.grain_rate {
                None => Err(FlowDefCapsErrorModel::MissingField("grain_rate"@)),
                Some(r) => match fraction_of("grain_rate"@, r) {
                    Err(e) => Err(e),
                    Ok(rate) => Ok(data_caps(rate)),
                },
            }
        } else {
            Err(FlowDefCapsErrorModel::UnsupportedMediaType(media_type))
        },
    }
}

/// A frame rate that has to become a fraction can.
pub open spec fn rate_ok(raw: RawCapsModel) -> bool {
    (raw.media_type == Some("video/v210"@) && raw.frame_width is Some && raw.frame_height is Some
        || raw.media_type == Some("video/smpte291"@)) ==> (raw.grain_rate matches Some(r)
        ==> rational_ok(r))
}

/// The fields as they were read, or what was said of a document that is no record.
pub open spec fn caps_record(read: Result<RawFlowDefForCaps, String>) -> Result<
    RawCapsModel,
    Seq<char>,
> {
    match read {
        Ok(raw) => Ok(raw.deep_view()),
        Err(source) => Err(source@),
    }
}

/// The essence caps that follow from what was read of a document, or why there are none.
pub open spec fn document_caps(read: Result<RawCapsModel, Seq<char>>) -> Result<
    CapsModel,
    FlowDefCapsErrorModel,
> {
    match read {
        Err(source) => Err(FlowDefCapsErrorModel::Parse(source)),
        Ok(raw) => caps_of_raw(raw),
    }
}

/// The frame rate of a document, where it has to become a fraction, can.
pub open spec fn document_rate_ok(read: Result<RawCapsModel, Seq<char>>) -> bool {
    read matches Ok(raw) ==> rate_ok(raw)
}

pub fn rational_to_gst_fraction(field: &'static str, r: &RawRational) -> (out: Result<
    (i32, i32),
    FlowDefCapsError,
>)
    requires
        rational_ok((r.numerator as int, r.denominator as int)),
    ensures
        match out {
            Ok(f) => fraction_of(field@, (r.numerator as int, r.denominator as int)) == Ok::<
                _,
                FlowDefCapsErrorModel,
            >(f),
            Err(e) => fraction_of(field@, (r.numerator as int, r.denominator as int)) == Err::<
                (i32, i32),
                _,
            >(e.deep_view()),
        },
{
    if !(i32::MIN as i64 <= r.numerator && r.numerator <= i32::MAX as i64) {
        return Err(FlowDefCapsError::OutOfRangeField { field, value: r.numerator });
    }
    if !(i32::MIN as i64 <= r.denominator && r.denominator <= i32::MAX as i64) {
        return Err(FlowDefCapsError::OutOfRangeField { field, value: r.denominator });
    }
    Ok(reduce(r.numerator as i32, r.denominator as i32))
}

fn read_rational(v: Option<&serde_json::Value>) -> (r: Result<Option<RawRational>, ()>)
    ensures
        ({
            let m = match v {
                Some(x) => Some(json_model(*x)),
                None => None,
            };
            match r {
                Ok(out) => optional_rational(m) == Ok::<_, ()>(rational_model(out)),
                Err(_) => optional_rational(m) is Err,
            }
        }),
{
    let x = match v {
        None => {
            return Ok(None);
        },
        Some(x) => x,
    };
    if is_null(x) {
        return Ok(None);
    }
    if !check_record(x, 2) {
        return Err(());
    }
    match (field(x, "numerator", 0), field(x, "denominator", 1)) {
        (Some(n), Some(d)) => match (as_integer(n), as_integer(d)) {
            (Some(numerator), Some(denominator)) => Ok(
                Some(RawRational { numerator, denominator }),
            ),
            _ => Err(()),
        },
        _ => Err(()),
    }
}

/// The fields that describe the essence, of a document that was written here
/// ([`build_from_caps`], [`splice_overrides`]): `None` for any other text, and where a field
/// has another type.
pub fn written_flow_def_for_caps(text: &str) -> (r: Option<RawFlowDefForCaps>)
    ensures
        match r {
            Some(raw) => is_written(text@) && raw_caps(json_value(text@)->Ok_0) == Some(
                raw.deep_view(),
            ),
            None => is_written(text@) ==> raw_caps(json_value(text@)->Ok_0) is None,
        },
{
    let v = match written_value(text) {
        Some(v) => v,
        None => {
            return None;
        },
    };
    if !check_record(&v, 7) {
        return None;
    }
    let media_type = read_optional_text(field(&v, "media_type", 0));
    let grain_rate = read_rational(field(&v, "grain_rate", 1));
    let sample_rate = read_rational(field(&v, "sample_rate", 2));
    let frame_width = read_optional_i32(field(&v, "frame_width", 3));
    let frame_height = read_optional_i32(field(&v, "frame_height", 4));
    let channel_count = read_optional_i32(field(&v, "channel_count", 5));
    let interlace_mode = read_optional_text(field(&v, "interlace_mode", 6));
    match (media_type, grain_rate, sample_rate, frame_width) {
        (Ok(media_type), Ok(grain_rate), Ok(sample_rate), Ok(frame_width)) => match (
            frame_height,
            channel_count,
            interlace_mode,
        ) {
            (Ok(frame_height), Ok(channel_count), Ok(interlace_mode)) => Some(
                RawFlowDefForCaps {
                    media_type,
                    grain_rate,
                    sample_rate,
                    frame_width,
                    frame_height,
                    channel_count,
                    interlace_mode,
                },
            ),
            _ => None,
        },
        _ => None,
    }
}

fn caps_field(name: &str, value: FieldValue) -> (f: Field)
    ensures
        f.deep_view() == (name@, value.deep_view()),
{
    Field { name: name.to_owned(), value }
}

fn caps_of(name: &str, fields: Vec<Field>) -> (caps: Caps)
    ensures
        caps.deep_view() == plain_caps(name@, fields.deep_view()),
{
    Caps::of(Structure { name: name.to_owned(), fields, features: Features::system_memory() })
}

/// The essence caps that the fields of a document describe.
pub fn caps_from_raw(raw: RawFlowDefForCaps) -> (r: Result<Caps, FlowDefCapsError>)
    requires
        rate_ok(raw.deep_view()),
    ensures
        match r {
            Ok(caps) => caps_of_raw(raw.deep_view()) == Ok::<_, FlowDefCapsErrorModel>(
                caps.deep_view(),
            ),
            Err(e) => caps_of_raw(raw.deep_view()) == Err::<CapsModel, _>(e.deep_view()),
        },
{
    let media_type: String = match raw.media_type {
        Some(t) => t,
        None => {
            return Err(FlowDefCapsError::MissingField("media_type"));
        },
    };
    if same_text(media_type.as_str(), "video/v210") {
        let rate = match raw.grain_rate {
            Some(r) => r,
            None => {
                return Err(FlowDefCapsError::MissingField("grain_rate"));
            },
        };
        let width: i32 = match raw.frame_width {
            Some(n) => n,
            None => {
                return Err(FlowDefCapsError::MissingField("frame_width"));
            },
        };
        let height: i32 = match raw.frame_height {
            Some(n) => n,
            None => {
                return Err(FlowDefCapsError::MissingField("frame_height"));
            },
        };
        let (n, d): (i32, i32) = match rational_to_gst_fraction("grain_rate", &rate) {
            Ok(f) => f,
            Err(e) => {
                return Err(e);
            },
        };
        let ghost interlace = raw.interlace_mode.deep_view();
        let mut fields: Vec<Field> = Vec::new();
        fields.push(caps_field("format", FieldValue::Text("v210".to_owned())));
        fields.push(caps_field("width", FieldValue::Int(width)));
        fields.push(caps_field("height", FieldValue::Int(height)));
        fields.push(caps_field("framerate", FieldValue::Fraction(n, d)));
        if let Some(mode) = raw.interlace_mode {
            fields.push(caps_field("interlace-mode", FieldValue::Text(mode)));
        }
        let ghost plain = seq![
            ("format"@, FieldModel::Text("v210"@)),
            ("width"@, FieldModel::Int(width)),
            ("height"@, FieldModel::Int(height)),
            ("framerate"@, FieldModel::Fraction(n, d)),
        ];
        assert(fields.deep_view() =~= match interlace {
            Some(mode) => plain.push(("interlace-mode"@, FieldModel::Text(mode))),
            None => plain,
        });
        Ok(caps_of("video/x-raw", fields))
    } else if same_text(media_type.as_str(), "audio/float32") {
        let rate = match raw.sample_rate {
            Some(r) => r,
            None => {
                return Err(FlowDefCapsError::MissingField("sample_rate"));
            },
        };
        let channels: i32 = match raw.channel_count {
            Some(n) => n,
            None => {
                return Err(FlowDefCapsError::MissingField("channel_count"));
            },
        };
        if rate.denominator != 1 {
            return Err(
                FlowDefCapsError::OutOfRangeField {
                    field: "sample_rate.denominator",
                    value: rate.denominator,
                },
            );
        }
        if !(i32::MIN as i64 <= rate.numerator && rate.numerator <= i32::MAX as i64) {
            return Err(
                FlowDefCapsError::OutOfRangeField {
                    field: "sample_rate.numerator",
                    value: rate.numerator,
                },
            );
        }
        let mut fields: Vec<Field> = Vec::new();
        fields.push(caps_field("format", FieldValue::Text("F32LE".to_owned())));
        fields.push(caps_field("rate", FieldValue::Int(rate.numerator as i32)));
        fields.push(caps_field("channels", FieldValue::Int(channels)));
        fields.push(caps_field("layout", FieldValue::Text("interleaved".to_owned())));
        assert(fields.deep_view() =~= seq![
            ("format"@, FieldModel::Text("F32LE"@)),
            ("rate"@, FieldModel::Int(rate.numerator as i32)),
            ("channels"@, FieldModel::Int(channels)),
            ("layout"@, FieldModel::Text("interleaved"@)),
        ]);
        Ok(caps_of("audio/x-raw", fields))
    } else if same_text(media_type.as_str(), "video/smpte291") {
        let rate = match raw.grain_rate {
            Some(r) => r,
            None => {
                return Err(FlowDefCapsError::MissingField("grain_rate"));
            },
        };
        let (n, d): (i32, i32) = match rational_to_gst_fraction("grain_rate", &rate) {
            Ok(f) => f,
            Err(e) => {
                return Err(e);
            },
        };
        let mut fields: Vec<Field> = Vec::new();
        fields.push(caps_field("framerate", FieldValue::Fraction(n, d)));
        assert(fields.deep_view() =~= seq![("framerate"@, FieldModel::Fraction(n, d))]);
        Ok(caps_of("meta/x-st-2038", fields))
    } else {
        Err(FlowDefCapsError::UnsupportedMediaType(media_type))
    }
}

/// Reverse of [`build_from_caps`]: turn what was read of an MXL `flow_def` JSON document into
/// essence caps.
///
/// * `media_type=video/v210` gives
///   `video/x-raw,format=v210,width=…,height=…,framerate=…[,interlace-mode=…]`
/// * `media_type=audio/float32` gives
///   `audio/x-raw,format=F32LE,rate=…,channels=…,layout=interleaved`
/// * `media_type=video/smpte291` gives `meta/x-st-2038,framerate=…`
///
/// Other media types and missing required fields are errors. A frame rate must have a
/// denominator that is not zero; [`try_caps_from_flow_def`] takes any document.
pub fn caps_from_flow_def(read: Result<RawFlowDefForCaps, String>) -> (r: Result<
    Caps,
    FlowDefCapsError,
>)
    requires
        document_rate_ok(caps_record(read)),
    ensures
        match r {
            Ok(caps) => document_caps(caps_record(read)) == Ok::<_, FlowDefCapsErrorModel>(
                caps.deep_view(),
            ),
            Err(e) => document_caps(caps_record(read)) == Err::<CapsModel, _>(e.deep_view()),
        },
{
    match read {
        Ok(raw) => caps_from_raw(raw),
        Err(source) => Err(FlowDefCapsError::Parse { source }),
    }
}

/// The essence caps of a document, or `None` where its frame rate has no 32-bit fraction in
/// lowest terms (a zero denominator).
pub fn try_caps_from_flow_def(read: Result<RawFlowDefForCaps, String>) -> (r: Option<
    Result<Caps, FlowDefCapsError>,
>)
    ensures
        r is Some == document_rate_ok(caps_record(read)),
        match r {
            Some(Ok(caps)) => document_caps(caps_record(read)) == Ok::<_, FlowDefCapsErrorModel>(
                caps.deep_view(),
            ),
            Some(Err(e)) => document_caps(caps_record(read)) == Err::<CapsModel, _>(e.deep_view()),
            None => true,
        },
{
    if let Ok(raw) = &read {
        let needs_rate: bool = match &raw.media_type {
            Some(t) => (same_text(t.as_str(), "video/v210") && raw.frame_width.is_some()
                && raw.frame_height.is_some()) || same_text(t.as_str(), "video/smpte291"),
            None => false,
        };
        let in_range: bool = match &raw.grain_rate {
            Some(r) => !(i32::MIN as i64 <= r.numerator && r.numerator <= i32::MAX as i64
                && i32::MIN as i64 <= r.denominator && r.denominator <= i32::MAX as i64)
                || fraction_in_range(r.numerator as i32, r.denominator as i32),
            None => true,
        };
        if needs_rate && !in_range {
            return None;
        }
    }
    Some(caps_from_flow_def(read))
}

// ---- round trips ------------------------------------------------------------

/// The member names of a document are all different, and so are the media types.
proof fn distinct_document_keys()
    ensures
        "id"@ != "format"@,
        "id"@ != "label"@,
        "id"@ != "description"@,
        "id"@ != "tags"@,
        "id"@ != "parents"@,
        "id"@ != "media_type"@,
        "id"@ != "grain_rate"@,
        "id"@ != "sample_rate"@,
        "id"@ != "frame_width"@,
        "id"@ != "frame_height"@,
        "id"@ != "colorspace"@,
        "id"@ != "components"@,
        "id"@ != "interlace_mode"@,
        "id"@ != "channel_count"@,
        "id"@ != "bit_depth"@,
        "format"@ != "label"@,
        "format"@ != "description"@,
        "format"@ != "tags"@,
        "format"@ != "parents"@,
        "format"@ != "media_type"@,
        "format"@ != "grain_rate"@,
        "format"@ != "sample_rate"@,
        "format"@ != "frame_width"@,
        "format"@ != "frame_height"@,
        "format"@ != "colorspace"@,
        "format"@ != "components"@,
        "format"@ != "interlace_mode"@,
        "format"@ != "channel_count"@,
        "format"@ != "bit_depth"@,
        "label"@ != "description"@,
        "label"@ != "tags"@,
        "label"@ != "parents"@,
        "label"@ != "media_type"@,
        "label"@ != "grain_rate"@,
        "label"@ != "sample_rate"@,
        "label"@ != "frame_width"@,
        "label"@ != "frame_height"@,
        "label"@ != "colorspace"@,
        "label"@ != "components"@,
        "label"@ != "interlace_mode"@,
        "label"@ != "channel_count"@,
        "label"@ != "bit_depth"@,
        "description"@ != "tags"@,
        "description"@ != "parents"@,
        "description"@ != "media_type"@,
        "description"@ != "grain_rate"@,
        "description"@ != "sample_rate"@,
        "description"@ != "frame_width"@,
        "description"@ != "frame_height"@,
        "description"@ != "colorspace"@,
        "description"@ != "components"@,
        "description"@ != "interlace_mode"@,
        "description"@ != "channel_count"@,
        "description"@ != "bit_depth"@,
        "tags"@ != "parents"@,
        "tags"@ != "media_type"@,
        "tags"@ != "grain_rate"@,
        "tags"@ != "sample_rate"@,
        "tags"@ != "frame_width"@,
        "tags"@ != "frame_height"@,
        "tags"@ != "colorspace"@,
        "tags"@ != "components"@,
        "tags"@ != "interlace_mode"@,
        "tags"@ != "channel_count"@,
        "tags"@ != "bit_depth"@,
        "parents"@ != "media_type"@,
        "parents"@ != "grain_rate"@,
        "parents"@ != "sample_rate"@,
        "parents"@ != "frame_width"@,
        "parents"@ != "frame_height"@,
        "parents"@ != "colorspace"@,
        "parents"@ != "components"@,
        "parents"@ != "interlace_mode"@,
        "parents"@ != "channel_count"@,
        "parents"@ != "bit_depth"@,
        "media_type"@ != "grain_rate"@,
        "media_type"@ != "sample_rate"@,
        "media_type"@ != "frame_width"@,
        "media_type"@ != "frame_height"@,
        "media_type"@ != "colorspace"@,
        "media_type"@ != "components"@,
        "media_type"@ != "interlace_mode"@,
        "media_type"@ != "channel_count"@,
        "media_type"@ != "bit_depth"@,
        "grain_rate"@ != "sample_rate"@,
        "grain_rate"@ != "frame_width"@,
        "grain_rate"@ != "frame_height"@,
        "grain_rate"@ != "colorspace"@,
        "grain_rate"@ != "components"@,
        "grain_rate"@ != "interlace_mode"@,
        "grain_rate"@ != "channel_count"@,
        "grain_rate"@ != "bit_depth"@,
        "sample_rate"@ != "frame_width"@,
        "sample_rate"@ != "frame_height"@,
        "sample_rate"@ != "colorspace"@,
        "sample_rate"@ != "components"@,
        "sample_rate"@ != "interlace_mode"@,
        "sample_rate"@ != "channel_count"@,
        "sample_rate"@ != "bit_depth"@,
        "frame_width"@ != "frame_height"@,
        "frame_width"@ != "colorspace"@,
        "frame_width"@ != "components"@,
        "frame_width"@ != "interlace_mode"@,
        "frame_width"@ != "channel_count"@,
        "frame_width"@ != "bit_depth"@,
        "frame_height"@ != "colorspace"@,
        "frame_height"@ != "components"@,
        "frame_height"@ != "interlace_mode"@,
        "frame_height"@ != "channel_count"@,
        "frame_height"@ != "bit_depth"@,
        "colorspace"@ != "components"@,
        "colorspace"@ != "interlace_mode"@,
        "colorspace"@ != "channel_count"@,
        "colorspace"@ != "bit_depth"@,
        "components"@ != "interlace_mode"@,
        "components"@ != "channel_count"@,
        "components"@ != "bit_depth"@,
        "interlace_mode"@ != "channel_count"@,
        "interlace_mode"@ != "bit_depth"@,
        "channel_count"@ != "bit_depth"@,
        "numerator"@ != "denominator"@,
        "video/v210"@ != "audio/float32"@,
        "video/v210"@ != "video/smpte291"@,
        "audio/float32"@ != "video/smpte291"@,
{
    reveal_strlit("id");
    reveal_strlit("format");
    reveal_strlit("label");
    reveal_strlit("description");
    reveal_strlit("tags");
    reveal_strlit("parents");
    reveal_strlit("media_type");
    reveal_strlit("grain_rate");
    reveal_strlit("sample_rate");
    reveal_strlit("frame_width");
    reveal_strlit("frame_height");
    reveal_strlit("colorspace");
    reveal_strlit("components");
    reveal_strlit("interlace_mode");
    reveal_strlit("channel_count");
    reveal_strlit("bit_depth");
    assert("id"@.len() == 2 && "id"@[0] == 'i');
    assert("format"@.len() == 6 && "format"@[0] == 'f');
    assert("label"@.len() == 5 && "label"@[0] == 'l');
    assert("description"@.len() == 11 && "description"@[0] == 'd');
    assert("tags"@.len() == 4 && "tags"@[0] == 't');
    assert("parents"@.len() == 7 && "parents"@[0] == 'p');
    assert("media_type"@.len() == 10 && "media_type"@[0] == 'm');
    assert("grain_rate"@.len() == 10 && "grain_rate"@[0] == 'g');
    assert("sample_rate"@.len() == 11 && "sample_rate"@[0] == 's');
    assert("frame_width"@.len() == 11 && "frame_width"@[0] == 'f');
    assert("frame_height"@.len() == 12 && "frame_height"@[0] == 'f');
    assert("colorspace"@.len() == 10 && "colorspace"@[0] == 'c');
    assert("components"@.len() == 10 && "components"@[0] == 'c');
    assert("interlace_mode"@.len() == 14 && "interlace_mode"@[0] == 'i');
    assert("channel_count"@.len() == 13 && "channel_count"@[0] == 'c');
    assert("bit_depth"@.len() == 9 && "bit_depth"@[0] == 'b');
    assert("colorspace"@[2] == 'l' && "components"@[2] == 'm');
    reveal_strlit("numerator");
    reveal_strlit("denominator");
    assert("numerator"@.len() == 9 && "denominator"@.len() == 11);
    reveal_strlit("video/v210");
    reveal_strlit("audio/float32");
    reveal_strlit("video/smpte291");
    assert("video/v210"@.len() == 10);
    assert("audio/float32"@.len() == 13);
    assert("video/smpte291"@.len() == 14);
}

/// What was built is read back: the flow id and the format of a built document are the
/// input's flow id and the format of its essence.
pub proof fn built_document_is_read_back(input: FlowDefBuildInput<'_>, s: StructureModel)
    requires
        input.document() is Ok,
        input.caps.deep_view().first() == Some(s),
    ensures
        essence_of(s) is Ok,
        raw_flow_def(input.document()->Ok_0) matches Some(record) && document_meta(Ok(record))
            == Ok::<_, FlowDefErrorModel>(
            (input.flow_id@, essence_format(essence_of(s)->Ok_0)),
        ),
{
    distinct_document_keys();
    let essence = essence_of(s)->Ok_0;
    format_urn_round_trip(essence_format(essence));
}

/// The fraction in lowest terms, in 32 bits.
pub open spec fn lowest(rate: (i32, i32)) -> (i32, i32) {
    let (n, d) = reduced(rate.0 as int, rate.1 as int);
    (n as i32, d as i32)
}

/// Caps survive the document: the caps of a built document are those it was built from, with
/// the fields that a document carries. A frame rate comes back in lowest terms, so one that is
/// in lowest terms comes back as it was; it has to be a fraction that has them.
pub proof fn built_caps_are_read_back(input: FlowDefBuildInput<'_>, s: StructureModel)
    requires
        input.document() is Ok,
        input.caps.deep_view().first() == Some(s),
    ensures
        raw_caps(input.document()->Ok_0) is Some,
        ({
            let read = Ok(raw_caps(input.document()->Ok_0)->0);
            match essence_of(s)->Ok_0 {
                Essence::Video { width, height, rate, interlace_mode } => can_reduce(
                    rate.0 as int,
                    rate.1 as int,
                ) ==> document_rate_ok(read) && document_caps(read) == Ok::<
                    _,
                    FlowDefCapsErrorModel,
                >(video_caps(width, height, lowest(rate), interlace_mode)),
                Essence::Audio { rate, channels } => document_rate_ok(read) && document_caps(read)
                    == Ok::<_, FlowDefCapsErrorModel>(audio_caps(rate, channels)),
                Essence::Data { rate } => can_reduce(rate.0 as int, rate.1 as int)
                    ==> document_rate_ok(read) && document_caps(read) == Ok::<
                    _,
                    FlowDefCapsErrorModel,
                >(data_caps(lowest(rate))),
            }
        }),
        match essence_of(s)->Ok_0 {
            Essence::Video { rate, .. } => reduced(rate.0 as int, rate.1 as int) == (
                rate.0 as int,
                rate.1 as int,
            ) ==> lowest(rate) == rate,
            Essence::Audio { .. } => true,
            Essence::Data { rate } => reduced(rate.0 as int, rate.1 as int) == (
                rate.0 as int,
                rate.1 as int,
            ) ==> lowest(rate) == rate,
        },
{
    distinct_document_keys();
    let v = input.document()->Ok_0;
    let essence = essence_of(s)->Ok_0;
    let m = v->Object_0;
    match essence {
        Essence::Video { width, height, rate, interlace_mode } => {
            assert(m["grain_rate"@] == rational_json(rate.0 as int, rate.1 as int));
            assert(optional_rational(record_field(v, "grain_rate"@, 1)) == Ok::<_, ()>(
                Some((rate.0 as int, rate.1 as int)),
            ));
            assert(record_field(v, "sample_rate"@, 2) is None);
            assert(record_field(v, "channel_count"@, 5) is None);
            assert(optional_text(record_field(v, "interlace_mode"@, 6)) == Ok::<_, ()>(
                interlace_mode,
            ));
        },
        Essence::Audio { rate, channels } => {
            assert(m["sample_rate"@] == rational_json(rate as int, 1));
            assert(optional_rational(record_field(v, "sample_rate"@, 2)) == Ok::<_, ()>(
                Some((rate as int, 1int)),
            ));
            assert(record_field(v, "grain_rate"@, 1) is None);
            assert(record_field(v, "frame_width"@, 3) is None);
            assert(record_field(v, "frame_height"@, 4) is None);
            assert(record_field(v, "interlace_mode"@, 6) is None);
        },
        Essence::Data { rate } => {
            assert(m["grain_rate"@] == rational_json(rate.0 as int, rate.1 as int));
            assert(optional_rational(record_field(v, "grain_rate"@, 1)) == Ok::<_, ()>(
                Some((rate.0 as int, rate.1 as int)),
            ));
            assert(record_field(v, "sample_rate"@, 2) is None);
            assert(record_field(v, "frame_width"@, 3) is None);
            assert(record_field(v, "frame_height"@, 4) is None);
            assert(record_field(v, "channel_count"@, 5) is None);
            assert(record_field(v, "interlace_mode"@, 6) is None);
        },
    }
}

// ---- what a built document says ---------------------------------------------

/// A member of an object, where it has one of that name.
pub open spec fn member_of(v: JsonModel, key: Seq<char>) -> Option<JsonModel> {
    match v {
        JsonModel::Object(m) => if m.contains_key(key) {
            Some(m[key])
        } else {
            None
        },
        _ => None,
    }
}

/// An item of an array, where it has one there.
pub open spec fn item_of(v: Option<JsonModel>, i: int) -> JsonModel {
    match v {
        Some(JsonModel::Array(items)) => if 0 <= i < items.len() {
            items[i]
        } else {
            JsonModel::Null
        },
        _ => JsonModel::Null,
    }
}

/// A rational with the given terms.
pub open spec fn is_rational(v: Option<JsonModel>, numerator: int, denominator: int) -> bool {
    &&& v is Some
    &&& member_of(v->0, "numerator"@) == Some(JsonModel::Integer(numerator))
    &&& member_of(v->0, "denominator"@) == Some(JsonModel::Integer(denominator))
}

proof fn distinct_component_keys()
    ensures
        "name"@ != "width"@,
        "name"@ != "height"@,
        "name"@ != "bit_depth"@,
        "width"@ != "height"@,
        "width"@ != "bit_depth"@,
        "height"@ != "bit_depth"@,
{
    reveal_strlit("name");
    reveal_strlit("width");
    reveal_strlit("height");
    reveal_strlit("bit_depth");
    assert("name"@.len() == 4 && "width"@.len() == 5 && "height"@.len() == 6 && "bit_depth"@.len()
        == 9);
}

/// A component is described by its name, its size and its depth.
proof fn component_members(name: Seq<char>, width: int, height: int)
    ensures
        member_of(component_json(name, width, height), "name"@) == Some(JsonModel::Text(name)),
        member_of(component_json(name, width, height), "width"@) == Some(
            JsonModel::Integer(width),
        ),
        member_of(component_json(name, width, height), "height"@) == Some(
            JsonModel::Integer(height),
        ),
        member_of(component_json(name, width, height), "bit_depth"@) == Some(
            JsonModel::Integer(10),
        ),
{
    distinct_component_keys();
}

/// A document built from v210 caps has three components, Y, Cb and Cr: each of ten bits and as
/// high as the frame, Y as wide as the frame, Cb and Cr half as wide.
pub proof fn components_are_422(input: FlowDefBuildInput<'_>, s: StructureModel, v: JsonModel, i: int)
    requires
        input.document() == Ok::<_, FlowDefBuildErrorModel>(v),
        input.caps.deep_view().first() == Some(s),
        s.name == "video/x-raw"@,
        0 <= i < 3,
    ensures
        member_of(v, "components"@) matches Some(JsonModel::Array(items)) && items.len() == 3,
        ({
            let c = item_of(member_of(v, "components"@), i);
            &&& member_of(c, "name"@) == Some(
                JsonModel::Text(
                    if i == 0 {
                        "Y"@
                    } else if i == 1 {
                        "Cb"@
                    } else {
                        "Cr"@
                    },
                ),
            )
            &&& member_of(c, "bit_depth"@) == Some(JsonModel::Integer(10))
            &&& member_of(c, "height"@) is Some
            &&& member_of(c, "height"@) == member_of(v, "frame_height"@)
            &&& member_of(c, "width"@) matches Some(JsonModel::Integer(w)) && member_of(
                v,
                "frame_width"@,
            ) matches Some(JsonModel::Integer(frame)) && if i == 0 {
                w == frame
            } else {
                frame >= 0 ==> 0 <= frame - 2 * w <= 1
            }
        }),
{
    distinct_document_keys();
    if let Ok(Essence::Video { width, height, rate, interlace_mode }) = essence_of(s) {
        component_members("Y"@, width as int, height as int);
        component_members("Cb"@, half(width as int), height as int);
        component_members("Cr"@, half(width as int), height as int);
    }
}

/// A video document gives the frame size, the grain rate and the interlace mode of its caps.
pub proof fn video_document_follows_caps(
    input: FlowDefBuildInput<'_>,
    s: StructureModel,
    v: JsonModel,
    width: i32,
    height: i32,
    rate: (i32, i32),
)
    requires
        input.document() == Ok::<_, FlowDefBuildErrorModel>(v),
        input.caps.deep_view().first() == Some(s),
        s.name == "video/x-raw"@,
        s.int_field("width"@) == Some(width),
        s.int_field("height"@) == Some(height),
        s.fraction_field("framerate"@) == Some(rate),
    ensures
        s.text_field("format"@) == Some("v210"@),
        member_of(v, "media_type"@) == Some(JsonModel::Text("video/v210"@)),
        member_of(v, "format"@) == Some(JsonModel::Text("urn:x-nmos:format:video"@)),
        member_of(v, "frame_width"@) == Some(JsonModel::Integer(width as int)),
        member_of(v, "frame_height"@) == Some(JsonModel::Integer(height as int)),
        is_rational(member_of(v, "grain_rate"@), rate.0 as int, rate.1 as int),
        member_of(v, "interlace_mode"@) == match s.text_field("interlace-mode"@) {
            Some(mode) => Some(JsonModel::Text(mode)),
            None => None,
        },
        member_of(v, "colorspace"@) == Some(JsonModel::Text("BT709"@)),
        member_of(v, "sample_rate"@) is None,
        member_of(v, "channel_count"@) is None,
{
    distinct_document_keys();
}

/// An audio document gives the sample rate and the channel count of its caps, and samples of
/// 32 bits.
pub proof fn audio_document_follows_caps(
    input: FlowDefBuildInput<'_>,
    s: StructureModel,
    v: JsonModel,
    rate: i32,
    channels: i32,
)
    requires
        input.document() == Ok::<_, FlowDefBuildErrorModel>(v),
        input.caps.deep_view().first() == Some(s),
        s.name == "audio/x-raw"@,
        s.int_field("rate"@) == Some(rate),
        s.int_field("channels"@) == Some(channels),
    ensures
        s.text_field("format"@) == Some("F32LE"@),
        member_of(v, "media_type"@) == Some(JsonModel::Text("audio/float32"@)),
        member_of(v, "format"@) == Some(JsonModel::Text("urn:x-nmos:format:audio"@)),
        is_rational(member_of(v, "sample_rate"@), rate as int, 1),
        member_of(v, "channel_count"@) == Some(JsonModel::Integer(channels as int)),
        member_of(v, "bit_depth"@) == Some(JsonModel::Integer(32)),
        member_of(v, "grain_rate"@) is None,
        member_of(v, "components"@) is None,
        member_of(v, "frame_width"@) is None,
        member_of(v, "frame_height"@) is None,
{
    distinct_document_keys();
    distinct_caps_names();
}

/// An ancillary data document gives the grain rate of its caps.
pub proof fn data_document_follows_caps(
    input: FlowDefBuildInput<'_>,
    s: StructureModel,
    v: JsonModel,
    rate: (i32, i32),
)
    requires
        input.document() == Ok::<_, FlowDefBuildErrorModel>(v),
        input.caps.deep_view().first() == Some(s),
        s.name == "meta/x-st-2038"@,
        s.fraction_field("framerate"@) == Some(rate),
    ensures
        member_of(v, "media_type"@) == Some(JsonModel::Text("video/smpte291"@)),
        member_of(v, "format"@) == Some(JsonModel::Text("urn:x-nmos:format:data"@)),
        is_rational(member_of(v, "grain_rate"@), rate.0 as int, rate.1 as int),
        member_of(v, "components"@) is None,
        member_of(v, "frame_width"@) is None,
        member_of(v, "channel_count"@) is None,
{
    distinct_document_keys();
    distinct_caps_names();
}

proof fn distinct_caps_names()
    ensures
        "video/x-raw"@ != "audio/x-raw"@,
        "video/x-raw"@ != "meta/x-st-2038"@,
        "audio/x-raw"@ != "meta/x-st-2038"@,
{
    reveal_strlit("video/x-raw");
    reveal_strlit("audio/x-raw");
    reveal_strlit("meta/x-st-2038");
    assert("video/x-raw"@[0] == 'v' && "audio/x-raw"@[0] == 'a' && "meta/x-st-2038"@[0] == 'm');
}

/// A built document names its flow: the id, the description and the tags are the input's, the
/// label is the input's, or its name where it has no label.
pub proof fn document_names_its_flow(input: FlowDefBuildInput<'_>, v: JsonModel)
    requires
        input.document() == Ok::<_, FlowDefBuildErrorModel>(v),
    ensures
        input.flow_id@.len() > 0,
        input.name@.len() > 0,
        input.mxl_domain_id@.len() > 0,
        member_of(v, "id"@) == Some(JsonModel::Text(input.flow_id@)),
        member_of(v, "description"@) == Some(JsonModel::Text(input.description@)),
        input.label@.len() > 0 ==> member_of(v, "label"@) == Some(JsonModel::Text(input.label@)),
        input.label@.len() == 0 ==> member_of(v, "label"@) == Some(JsonModel::Text(input.name@)),
        member_of(v, "parents"@) matches Some(JsonModel::Array(items)) && items.len() == 0,
        member_of(v, "tags"@) is Some,
        ({
            let tags = member_of(v, "tags"@)->0;
            let names = member_of(tags, "urn:x-nvnmos:tag:name"@);
            let domains = member_of(tags, "urn:x-nvnmos:tag:mxl-domain-id"@);
            let hints = member_of(tags, "urn:x-nmos:tag:grouphint/v1.0"@);
            &&& item_of(names, 0) == JsonModel::Text(input.name@)
            &&& item_of(domains, 0) == JsonModel::Text(input.mxl_domain_id@)
            &&& item_of(hints, 0) matches JsonModel::Text(hint) && hint.len() > input.name@.len()
                && hint.take(input.name@.len() as int) == input.name@ && hint[input.name@.len() as int]
                == ':'
        }),
{
    distinct_document_keys();
    distinct_caps_names();
    distinct_keys();
    reveal_strlit(":");
    reveal_strlit("urn:x-nmos:tag:grouphint/v1.0");
    reveal_strlit("urn:x-nvnmos:tag:name");
    reveal_strlit("urn:x-nvnmos:tag:mxl-domain-id");
    assert("urn:x-nmos:tag:grouphint/v1.0"@.len() == 29);
    assert("urn:x-nvnmos:tag:name"@.len() == 21);
    assert("urn:x-nvnmos:tag:mxl-domain-id"@.len() == 30);
    let s = input.caps.deep_view().first()->0;
    let role = essence_role(essence_of(s)->Ok_0);
    let hint = input.name@ + ":"@ + role;
    assert(hint.take(input.name@.len() as int) =~= input.name@);
}

/// Caps that a document describes say what the document says: a v210 document its frame size,
/// its interlace mode and its grain rate, a float audio document its rate and its channels, an
/// ancillary data document its grain rate.
pub proof fn read_caps_say_the_document(
    raw: RawCapsModel,
    caps: CapsModel,
    width: i32,
    height: i32,
    channels: i32,
    rate: (i32, i32),
)
    requires
        caps_of_raw(raw) == Ok::<_, FlowDefCapsErrorModel>(caps),
        raw.frame_width is Some ==> raw.frame_width == Some(width as int),
        raw.frame_height is Some ==> raw.frame_height == Some(height as int),
        raw.channel_count is Some ==> raw.channel_count == Some(channels as int),
        raw.grain_rate matches Some(r) ==> reduced(r.0, r.1) == (rate.0 as int, rate.1 as int),
    ensures
        raw.media_type is Some,
        caps.first() is Some,
        ({
            let s = caps.first()->0;
            let media = raw.media_type->0;
            &&& media == "video/v210"@ ==> {
                &&& s.name == "video/x-raw"@
                &&& s.text_field("format"@) == Some("v210"@)
                &&& s.int_field("width"@) == Some(width)
                &&& s.int_field("height"@) == Some(height)
                &&& s.fraction_field("framerate"@) == Some(rate)
                &&& s.text_field("interlace-mode"@) == raw.interlace_mode
            }
            &&& media == "audio/float32"@ ==> {
                &&& s.name == "audio/x-raw"@
                &&& s.text_field("format"@) == Some("F32LE"@)
                &&& s.text_field("layout"@) == Some("interleaved"@)
                &&& s.int_field("channels"@) == Some(channels)
                &&& raw.sample_rate matches Some((n, d)) && d == 1 && (
                s.int_field("rate"@) matches Some(hz) && hz == n)
            }
            &&& media == "video/smpte291"@ ==> {
                &&& s.name == "meta/x-st-2038"@
                &&& s.fraction_field("framerate"@) == Some(rate)
            }
        }),
{
    distinct_document_keys();
    distinct_caps_fields();
    reveal_with_fuel(lookup, 6);
    let s = caps.first()->0;
    let f = s.fields;
    if f.len() >= 4 {
        assert(f.skip(1).skip(1) =~= f.skip(2));
        assert(f.skip(2).skip(1) =~= f.skip(3));
        assert(f.skip(3).skip(1) =~= f.skip(4));
    }
}

proof fn distinct_caps_fields()
    ensures
        "format"@ != "width"@,
        "format"@ != "height"@,
        "format"@ != "framerate"@,
        "format"@ != "interlace-mode"@,
        "format"@ != "rate"@,
        "format"@ != "channels"@,
        "format"@ != "layout"@,
        "width"@ != "height"@,
        "width"@ != "framerate"@,
        "width"@ != "interlace-mode"@,
        "height"@ != "framerate"@,
        "height"@ != "interlace-mode"@,
        "framerate"@ != "interlace-mode"@,
        "rate"@ != "channels"@,
        "rate"@ != "layout"@,
        "channels"@ != "layout"@,
{
    reveal_strlit("format");
    reveal_strlit("width");
    reveal_strlit("height");
    reveal_strlit("framerate");
    reveal_strlit("interlace-mode");
    reveal_strlit("rate");
    reveal_strlit("channels");
    reveal_strlit("layout");
    assert("format"@.len() == 6 && "format"@[0] == 'f');
    assert("height"@.len() == 6 && "height"@[0] == 'h');
    assert("layout"@.len() == 6 && "layout"@[0] == 'l');
    assert("width"@.len() == 5 && "framerate"@.len() == 9 && "interlace-mode"@.len() == 14
        && "rate"@.len() == 4 && "channels"@.len() == 8);
}

/// Property and file are of one mind about a flow or are refused: where only one of them names an
/// id, or a format, it is taken; where both do, they must agree.
pub proof fn flow_sources_agree(
    property: Seq<char>,
    file: Seq<char>,
    caps_format: FlowFormat,
    file_format: FlowFormat,
)
    ensures
        resolved_id(property, file) is Err <==> property.len() > 0 && file.len() > 0 && property
            != file,
        resolved_id(property, file) matches Ok((id, origin)) ==> {
            &&& property.len() > 0 ==> id == property
            &&& file.len() > 0 ==> id == file
            &&& (id.len() > 0 <==> property.len() > 0 || file.len() > 0)
            &&& (origin == ValueOrigin::Both <==> property.len() > 0 && file.len() > 0)
            &&& (origin == ValueOrigin::Property <==> property.len() > 0 && file.len() == 0)
            &&& (origin == ValueOrigin::File <==> property.len() == 0 && file.len() > 0)
        },
        resolved_format(caps_format, file_format) is Err <==> caps_format != FlowFormat::Unspecified
            && file_format != FlowFormat::Unspecified && caps_format != file_format,
        resolved_format(caps_format, file_format) matches Ok((format, origin)) ==> {
            &&& caps_format != FlowFormat::Unspecified ==> format == caps_format
            &&& file_format != FlowFormat::Unspecified ==> format == file_format
            &&& (caps_format == FlowFormat::Unspecified && file_format == FlowFormat::Unspecified
                ==> format == FlowFormat::Unspecified)
            &&& (origin == ValueOrigin::Both <==> caps_format != FlowFormat::Unspecified
                && file_format != FlowFormat::Unspecified)
            &&& (origin == ValueOrigin::Property <==> caps_format != FlowFormat::Unspecified
                && file_format == FlowFormat::Unspecified)
            &&& (origin == ValueOrigin::File <==> caps_format == FlowFormat::Unspecified
                && file_format != FlowFormat::Unspecified)
        },
{
}

/// What is not given is not spliced: without a property the member or tag stays as the file had
/// it, and a tag of any other name does so always.
pub proof fn splice_leaves_the_rest(
    overrides: FlowDefOverrides<'_>,
    v: JsonModel,
    after: JsonModel,
    key: Seq<char>,
)
    requires
        v is Object,
        overrides.spliced(Ok(v)) == Ok::<_, FlowDefErrorModel>(after),
    ensures
        overrides.flow_id is None ==> member_of(after, "id"@) == member_of(v, "id"@),
        overrides.label is None ==> member_of(after, "label"@) == member_of(v, "label"@),
        overrides.description is None ==> member_of(after, "description"@) == member_of(
            v,
            "description"@,
        ),
        member_of(v, "tags"@) matches Some(tags) ==> {
            let spliced = member_of(after, "tags"@)->0;
            &&& member_of(after, "tags"@) is Some
            &&& overrides.name is None ==> member_of(spliced, "urn:x-nvnmos:tag:name"@)
                == member_of(tags, "urn:x-nvnmos:tag:name"@)
            &&& overrides.mxl_domain_id is None ==> member_of(
                spliced,
                "urn:x-nvnmos:tag:mxl-domain-id"@,
            ) == member_of(tags, "urn:x-nvnmos:tag:mxl-domain-id"@)
            &&& overrides.caps_mode == CapsMode::Auto ==> member_of(
                spliced,
                "urn:x-nvnmos:tag:caps"@,
            ) == member_of(tags, "urn:x-nvnmos:tag:caps"@)
            &&& key != "urn:x-nvnmos:tag:name"@ && key != "urn:x-nvnmos:tag:mxl-domain-id"@ && key
                != "urn:x-nvnmos:tag:caps"@ ==> member_of(spliced, key) == member_of(tags, key)
        },
{
    distinct_keys();
}

/// What is spliced in is read back as the one item of its tag.
pub proof fn spliced_tags_are_read_back(
    overrides: FlowDefOverrides<'_>,
    v: JsonModel,
    after: JsonModel,
)
    requires
        v is Object,
        overrides.spliced(Ok(v)) == Ok::<_, FlowDefErrorModel>(after),
    ensures
        overrides.name matches Some(name) ==> member_of(after, "tags"@) is Some && item_of(
            member_of(member_of(after, "tags"@)->0, "urn:x-nvnmos:tag:name"@),
            0,
        ) == JsonModel::Text(name@),
        overrides.mxl_domain_id matches Some(id) ==> member_of(after, "tags"@) is Some && item_of(
            member_of(member_of(after, "tags"@)->0, "urn:x-nvnmos:tag:mxl-domain-id"@),
            0,
        ) == JsonModel::Text(id@),
        overrides.caps_mode == CapsMode::Narrow ==> member_of(after, "tags"@) is Some && member_of(
            member_of(after, "tags"@)->0,
            "urn:x-nvnmos:tag:caps"@,
        ) is None,
{
    distinct_keys();
}

/// Caps that say all that a document needs get one.
pub proof fn described_essence_gets_a_document(input: FlowDefBuildInput<'_>, s: StructureModel)
    requires
        input.flow_id@.len() > 0,
        input.name@.len() > 0,
        input.mxl_domain_id@.len() > 0,
        input.caps.deep_view().first() == Some(s),
        (s.name == "video/x-raw"@ && s.text_field("format"@) == Some("v210"@) && s.int_field(
            "width"@,
        ) is Some && s.int_field("height"@) is Some && s.fraction_field("framerate"@) is Some) || (
        s.name == "audio/x-raw"@ && s.text_field("format"@) == Some("F32LE"@) && s.int_field(
            "rate"@,
        ) is Some && s.int_field("channels"@) is Some) || (s.name == "meta/x-st-2038"@
            && s.fraction_field("framerate"@) is Some),
    ensures
        input.document() is Ok,
{
    distinct_caps_names();
}

/// What is said of a disagreement names the property's side before the file's.
pub proof fn disagreements_name_both_sides(
    property: Seq<char>,
    file: Seq<char>,
    caps_format: FlowFormat,
    file_format: FlowFormat,
)
    ensures
        resolved_id(property, file) matches Err(e) ==> says_in_order(e.text(), property, file),
        resolved_format(caps_format, file_format) matches Err(e) ==> says_in_order(
            e.text(),
            format_word(caps_format),
            format_word(file_format),
        ),
{
    put_together_in_order(
        "mxl-flow-id mismatch: property `"@,
        property,
        "` != transport file top-level `id` `"@,
        file,
        "`"@,
    );
    put_together_in_order(
        "flow format mismatch: caps-derived `"@,
        format_word(caps_format),
        "` != transport file `format` `"@,
        format_word(file_format),
        "`"@,
    );
}

/// Caps that cannot be described are refused by name: with the field that is missing, or the
/// field and its value.
pub proof fn refused_caps_are_named(s: StructureModel, e: FlowDefBuildErrorModel)
    requires
        essence_of(s) == Err::<Essence, _>(e),
    ensures
        match e {
            FlowDefBuildErrorModel::UnsupportedCaps(name) => name == s.name && name
                != "video/x-raw"@ && name != "audio/x-raw"@ && name != "meta/x-st-2038"@,
            FlowDefBuildErrorModel::MissingCapsField(name, field, _) => name == s.name && (
            s.text_field(field) is None && s.int_field(field) is None || s.fraction_field(
                field,
            ) is None) && says_in_order(e.text(), name, field),
            FlowDefBuildErrorModel::UnsupportedCapsValue(name, field, value) => name == s.name
                && s.text_field(field) == Some(value) && says_in_order(e.text(), field, value),
            _ => false,
        },
{
    match e {
        FlowDefBuildErrorModel::MissingCapsField(name, field, hint) => {
            let rest = match hint {
                Some(h) => " ("@ + h + ")"@,
                None => Seq::empty(),
            };
            let x = "` are missing required field `"@;
            put_together_in_order("caps `"@, name, x, field, "`"@ + rest);
            assert(e.text() =~= "caps `"@ + name + x + field + ("`"@ + rest));
        },
        FlowDefBuildErrorModel::UnsupportedCapsValue(name, field, value) => {
            let x = "` has unsupported value `"@;
            put_together_in_order("caps `"@ + name + "` field `"@, field, x, value, "`"@);
        },
        _ => {},
    }
}

/// A receiver is wide where the tag of its caps holds a value: not where the tag is missing, is
/// empty or is no list.
pub proof fn empty_tag_is_not_wide(v: JsonModel)
    ensures
        v is Object ==> (wide_tag(v) <==> (member_of(v, "tags"@) matches Some(tags) && (member_of(
            tags,
            "urn:x-nvnmos:tag:caps"@,
        ) matches Some(JsonModel::Array(items)) && items.len() != 0))),
        wide_tag(v) ==> v is Object,
{
}

/// A file that names no format, or no flow, leaves it to the property; one that does is right
/// where there is no property.
pub proof fn silent_files_leave_it_to_the_property(
    id: Option<Seq<char>>,
    format: Option<Seq<char>>,
    property_id: Seq<char>,
    property_format: FlowFormat,
)
    ensures
        flow_meta(id, format) matches Ok((file_id, file_format)) ==> {
            &&& format is None ==> (resolved_format(property_format, file_format) matches Ok(f)
                && f.0 == property_format)
            &&& id is None ==> (resolved_id(property_id, file_id) matches Ok(f) && f.0
                == property_id)
            &&& format matches Some(urn) ==> format_urn(file_format) == Some(urn)
            &&& id matches Some(named) ==> file_id == named
        },
        flow_meta(id, None) is Ok,
{
}

/// A record may also be written as a list of its values in order, where it says the same.
pub proof fn records_may_be_lists(m: Map<Seq<char>, JsonModel>, a: JsonModel, b: JsonModel)
    requires
        m.contains_key("id"@) && m["id"@] == a,
        m.contains_key("format"@) && m["format"@] == b,
    ensures
        raw_flow_def(JsonModel::Object(m)) == raw_flow_def(JsonModel::Array(seq![a, b])),
{
    let list = JsonModel::Array(seq![a, b]);
    assert(record_field(list, "id"@, 0) == Some(a));
    assert(record_field(list, "format"@, 1) == Some(b));
    assert(seq![a, b].len() == 2);
}

/// A rate may also be written as a list of its two terms, where it says the same.
pub proof fn rates_may_be_lists(m: Map<Seq<char>, JsonModel>, n: int, d: int)
    requires
        m.contains_key("numerator"@) && m["numerator"@] == JsonModel::Integer(n),
        m.contains_key("denominator"@) && m["denominator"@] == JsonModel::Integer(d),
        i64::MIN <= n <= i64::MAX,
        i64::MIN <= d <= i64::MAX,
    ensures
        optional_rational(Some(JsonModel::Object(m))) == Ok::<Option<(int, int)>, ()>(Some((n, d))),
        optional_rational(
            Some(JsonModel::Array(seq![JsonModel::Integer(n), JsonModel::Integer(d)])),
        ) == Ok::<Option<(int, int)>, ()>(Some((n, d))),
{
    let list = JsonModel::Array(seq![JsonModel::Integer(n), JsonModel::Integer(d)]);
    assert(record_field(list, "numerator"@, 0) == Some(JsonModel::Integer(n)));
    assert(record_field(list, "denominator"@, 1) == Some(JsonModel::Integer(d)));
}

/// What is said of a field that is out of range names the field, and behind it the value; of one
/// that is missing, the field; of a media type that is not known, the type.
pub proof fn unreadable_fields_are_named(field: Seq<char>, value: int)
    ensures
        says_in_order(
            FlowDefCapsErrorModel::OutOfRangeField(field, value).text(),
            field,
            signed_decimal(value),
        ),
        says(FlowDefCapsErrorModel::MissingField(field).text(), field),
        says(FlowDefCapsErrorModel::UnsupportedMediaType(field).text(), field),
        says(FlowDefErrorModel::UnknownFormat(field).text(), field),
{
    put_together_in_order(
        "transport file `"@,
        field,
        "` has an out-of-range value `"@,
        signed_decimal(value),
        "` (must fit in i32)"@,
    );
    put_together_says(
        "transport file is missing required field `"@,
        field,
        "` (cannot derive essence caps without it)"@,
    );
    put_together_says(
        "transport file `media_type` `"@,
        field,
        "` is not supported by the caps reverse mapping; supported: `video/v210`, `audio/float32`, `video/smpte291`"@,
    );
    put_together_says(
        "transport file `format` `"@,
        field,
        "` is not a recognised NMOS format URN"@,
    );
}

/// What a document lacks is named: the field that is said to be missing is not there, and the
/// value that is said to be out of range is that field's and is.
pub proof fn unreadable_documents_are_refused_for_what_they_are(
    raw: RawCapsModel,
    e: FlowDefCapsErrorModel,
)
    requires
        caps_of_raw(raw) == Err::<CapsModel, _>(e),
    ensures
        match e {
            FlowDefCapsErrorModel::Parse(_) => false,
            FlowDefCapsErrorModel::MissingField(f) => {
                &&& f == "media_type"@ ==> raw.media_type is None
                &&& f == "grain_rate"@ ==> raw.grain_rate is None
                &&& f == "sample_rate"@ ==> raw.sample_rate is None
                &&& f == "frame_width"@ ==> raw.frame_width is None
                &&& f == "frame_height"@ ==> raw.frame_height is None
                &&& f == "channel_count"@ ==> raw.channel_count is None
            },
            FlowDefCapsErrorModel::UnsupportedMediaType(t) => raw.media_type == Some(t),
            FlowDefCapsErrorModel::OutOfRangeField(f, value) => {
                &&& f == "grain_rate"@ ==> (raw.grain_rate matches Some((n, d)) && (value == n
                    || value == d)) && !(i32::MIN <= value <= i32::MAX)
                &&& f == "sample_rate.denominator"@ ==> (raw.sample_rate matches Some((n, d))
                    && value == d) && value != 1
                &&& f == "sample_rate.numerator"@ ==> (raw.sample_rate matches Some((n, d))
                    && value == n && d == 1) && !(i32::MIN <= value <= i32::MAX)
            },
        },
{
    reveal_strlit("media_type");
    reveal_strlit("grain_rate");
    reveal_strlit("sample_rate");
    reveal_strlit("frame_width");
    reveal_strlit("frame_height");
    reveal_strlit("channel_count");
    reveal_strlit("sample_rate.denominator");
    reveal_strlit("sample_rate.numerator");
    assert("media_type"@[0] == 'm' && "grain_rate"@[0] == 'g' && "sample_rate"@[0] == 's'
        && "frame_width"@[0] == 'f' && "frame_height"@[0] == 'f' && "channel_count"@[0] == 'c');
    assert("frame_width"@[6] == 'w' && "frame_height"@[6] == 'h');
    assert("sample_rate.denominator"@.len() == 23 && "sample_rate.numerator"@.len() == 21
        && "grain_rate"@.len() == 10);
}

/// A document, too, may be written as a list of its values in order, where its caps are the same.
pub proof fn documents_may_be_lists(m: Map<Seq<char>, JsonModel>, list: Seq<JsonModel>)
    requires
        list.len() == 7,
        m.contains_key("media_type"@) && m["media_type"@] == list[0],
        m.contains_key("grain_rate"@) && m["grain_rate"@] == list[1],
        m.contains_key("sample_rate"@) && m["sample_rate"@] == list[2],
        m.contains_key("frame_width"@) && m["frame_width"@] == list[3],
        m.contains_key("frame_height"@) && m["frame_height"@] == list[4],
        m.contains_key("channel_count"@) && m["channel_count"@] == list[5],
        m.contains_key("interlace_mode"@) && m["interlace_mode"@] == list[6],
    ensures
        raw_caps(JsonModel::Object(m)) == raw_caps(JsonModel::Array(list)),
{
    let v = JsonModel::Array(list);
    assert(record_field(v, "media_type"@, 0) == Some(list[0]));
    assert(record_field(v, "grain_rate"@, 1) == Some(list[1]));
    assert(record_field(v, "sample_rate"@, 2) == Some(list[2]));
    assert(record_field(v, "frame_width"@, 3) == Some(list[3]));
    assert(record_field(v, "frame_height"@, 4) == Some(list[4]));
    assert(record_field(v, "channel_count"@, 5) == Some(list[5]));
    assert(record_field(v, "interlace_mode"@, 6) == Some(list[6]));
}

} // verus!
