//! MXL Domain identity.
//!
//! An MXL Domain has two facets: a stable UUID identity advertised in NMOS
//! (`urn:x-nvnmos:tag:mxl-domain-id` in the flow_def), and a local filesystem path. Every
//! MXL Domain may hold a `domain_def.json` file in its host directory whose `id` field is
//! the Domain's authoritative UUID. It is cross-checked against the user-supplied
//! `mxl-domain-id`:
//!
//! * Both supplied and matching: fine.
//! * Both supplied and different: hard error.
//! * Only the property supplied (file missing or path empty): use the property.
//! * Only the file supplied: use the file's `id`.
//! * Neither property nor file, but `mxl-domain-path` is set: the NMOS tag is
//!   application-resolved (`[""]` in the flow_def).
//! * Neither property nor path: [`DomainError::Unconfigured`].
//!
//! The file's absence is not an error.

use crate::flow_def::tag;
use crate::json::{json_text, json_value};
use crate::text::{around, joined, put_together_in_order, put_together_says, same_text, says, says_at, says_in_order};
use vstd::prelude::*;

verus! {

/// The field of a domain definition that is looked at.
#[derive(Debug)]
pub struct DomainDef {
    /// MXL Domain identity (UUID).
    pub id: Option<String>,
}

/// What came of reading `domain_def.json` in the Domain's directory.
#[derive(Debug)]
pub enum DomainDefFile {
    /// There is no such file.
    NotFound,
    /// It could not be read.
    Unreadable(String),
    /// It is no domain definition, and what was said of it.
    Malformed(String),
    /// The definition that it holds.
    Definition(DomainDef),
}

/// Why the Domain's identity could not be settled.
#[derive(Debug)]
pub enum DomainError {
    /// The property and the file at `path` name different Domains.
    Mismatch { property: String, domain_def: String, path: String },
    /// The file at `path` could not be read.
    Read { path: String, source: String },
    /// The file at `path` is no domain definition.
    Parse { path: String, source: String },
    /// The file at `path` names no Domain.
    MissingId { path: String },
    Unconfigured,
}

pub enum DomainErrorModel {
    Mismatch { property: Seq<char>, domain_def: Seq<char>, path: Seq<char> },
    Read { path: Seq<char>, source: Seq<char> },
    Parse { path: Seq<char>, source: Seq<char> },
    MissingId { path: Seq<char> },
    Unconfigured,
}

impl DeepView for DomainError {
    type V = DomainErrorModel;

    open spec fn deep_view(&self) -> DomainErrorModel {
        match self {
            DomainError::Mismatch { property, domain_def, path } => DomainErrorModel::Mismatch {
                property: property@,
                domain_def: domain_def@,
                path: path@,
            },
            DomainError::Read { path, source } => DomainErrorModel::Read {
                path: path@,
                source: source@,
            },
            DomainError::Parse { path, source } => DomainErrorModel::Parse {
                path: path@,
                source: source@,
            },
            DomainError::MissingId { path } => DomainErrorModel::MissingId { path: path@ },
            DomainError::Unconfigured => DomainErrorModel::Unconfigured,
        }
    }
}

impl DomainErrorModel {
    /// The wording of the error.
    pub open spec fn text(self) -> Seq<char> {
        match self {
            DomainErrorModel::Mismatch { property, domain_def, path } =>
                "mxl-domain-id mismatch: property `"@ + property + "` != domain_def.json `id` `"@
                    + domain_def + "` at `"@ + path + "`"@,
            DomainErrorModel::Read { path, source } => "failed to read `"@ + path + "`: "@ + source,
            DomainErrorModel::Parse { path, source } => "failed to parse `"@ + path
                + "` as JSON: "@ + source,
            DomainErrorModel::MissingId { path } => "`"@ + path + "` has no `id` field"@,
            DomainErrorModel::Unconfigured =>
                "`mxl-domain-id` or `mxl-domain-path` is required"@,
        }
    }
}

impl DomainError {
    /// What is said of the error.
    pub fn message(&self) -> (r: String)
        ensures
            r@ == self.deep_view().text(),
    {
        match self {
            DomainError::Mismatch { property, domain_def, path } => {
                let mut r = around(
                    "mxl-domain-id mismatch: property `",
                    property.as_str(),
                    "` != domain_def.json `id` `",
                );
                r.append(domain_def.as_str());
                r.append("` at `");
                r.append(path.as_str());
                r.append("`");
                r
            },
            DomainError::Read { path, source } => {
                let mut r = around("failed to read `", path.as_str(), "`: ");
                r.append(source.as_str());
                r
            },
            DomainError::Parse { path, source } => {
                let mut r = around("failed to parse `", path.as_str(), "` as JSON: ");
                r.append(source.as_str());
                r
            },
            DomainError::MissingId { path } => around("`", path.as_str(), "` has no `id` field"),
            DomainError::Unconfigured =>
                "`mxl-domain-id` or `mxl-domain-path` is required".to_owned(),
        }
    }
}

/// Where the domain definition of a Domain's directory is.
pub open spec fn definition_path(domain_path: Seq<char>) -> Seq<char> {
    if domain_path.len() == 0 || domain_path.last() == '/' {
        domain_path + "domain_def.json"@
    } else {
        domain_path + "/domain_def.json"@
    }
}

/// Where the domain definition of a Domain's directory is.
pub fn domain_def_path(domain_path: &str) -> (r: String)
    ensures
        r@ == definition_path(domain_path@),
{
    let n: usize = domain_path.unicode_len();
    if n == 0 || domain_path.get_char(n - 1) == '/' {
        joined(domain_path, "domain_def.json")
    } else {
        joined(domain_path, "/domain_def.json")
    }
}

/// MXL Domain id carried in the configuring flow_def tag
/// `urn:x-nvnmos:tag:mxl-domain-id`.
#[derive(Debug, PartialEq, Eq)]
pub enum DomainId {
    /// A concrete Domain UUID in NMOS / IS-05.
    Concrete(String),
    /// No Domain UUID is pinned in NMOS (`[""]` tag); the Domain is resolved locally
    /// instead, via `mxl-domain-path`.
    ApplicationResolved,
}

pub enum DomainIdModel {
    Concrete(Seq<char>),
    ApplicationResolved,
}

impl DeepView for DomainId {
    type V = DomainIdModel;

    open spec fn deep_view(&self) -> DomainIdModel {
        match self {
            DomainId::Concrete(id) => DomainIdModel::Concrete(id@),
            DomainId::ApplicationResolved => DomainIdModel::ApplicationResolved,
        }
    }
}

impl DomainId {
    /// The value of the tag `urn:x-nvnmos:tag:mxl-domain-id`: the id, or the empty text.
    pub fn tag_value(&self) -> (r: &str)
        ensures
            r@ == match self.deep_view() {
                DomainIdModel::Concrete(id) => id,
                DomainIdModel::ApplicationResolved => ""@,
            },
    {
        match self {
            DomainId::Concrete(id) => id.as_str(),
            DomainId::ApplicationResolved => "",
        }
    }

    /// JSON tag value for `urn:x-nvnmos:tag:mxl-domain-id`.
    pub fn tag_json(&self) -> (text: String)
        ensures
            ({
                let value = tag(
                    match self.deep_view() {
                        DomainIdModel::Concrete(id) => id,
                        DomainIdModel::ApplicationResolved => ""@,
                    },
                );
                text@ == json_text(value) && json_value(text@) == Ok::<_, Seq<char>>(value)
            }),
    {
        crate::flow_def::tag_text(self.tag_value())
    }
}

/// The id that the definition at `path` names, `None` where it names none.
pub open spec fn named_domain(path: Seq<char>, id: Option<Seq<char>>) -> Result<
    Seq<char>,
    DomainErrorModel,
> {
    match id {
        Some(id) if id.len() > 0 => Ok(id),
        _ => Err(DomainErrorModel::MissingId { path }),
    }
}

/// The id that the file gives, `None` where there is no file.
pub open spec fn file_domain_id(domain_path: Seq<char>, file: DomainDefFile) -> Result<
    Option<Seq<char>>,
    DomainErrorModel,
> {
    let path = definition_path(domain_path);
    match file {
        DomainDefFile::NotFound => Ok(None),
        DomainDefFile::Unreadable(why) => Err(DomainErrorModel::Read { path, source: why@ }),
        DomainDefFile::Malformed(why) => Err(DomainErrorModel::Parse { path, source: why@ }),
        DomainDefFile::Definition(def) => match named_domain(path, def.id.deep_view()) {
            Ok(named) => Ok(Some(named)),
            Err(e) => Err(e),
        },
    }
}

/// Extract the `id` of `<domain_path>/domain_def.json`. Returns `Ok(None)` if the file
/// does not exist.
pub fn read_domain_def_id(domain_path: &str, file: &DomainDefFile) -> (r: Result<
    Option<String>,
    DomainError,
>)
    ensures
        match r {
            Ok(id) => file_domain_id(domain_path@, *file) == Ok::<_, DomainErrorModel>(
                id.deep_view(),
            ),
            Err(e) => file_domain_id(domain_path@, *file) == Err::<Option<Seq<char>>, _>(
                e.deep_view(),
            ),
        },
{
    match file {
        DomainDefFile::NotFound => Ok(None),
        DomainDefFile::Unreadable(why) => {
            let path = domain_def_path(domain_path);
            Err(DomainError::Read { path, source: why.as_str().to_owned() })
        },
        DomainDefFile::Malformed(why) => {
            let path = domain_def_path(domain_path);
            Err(DomainError::Parse { path, source: why.as_str().to_owned() })
        },
        DomainDefFile::Definition(def) => match &def.id {
            Some(id) if !id.as_str().is_empty() => Ok(Some(id.as_str().to_owned())),
            _ => Err(DomainError::MissingId { path: domain_def_path(domain_path) }),
        },
    }
}

/// The Domain's identity from the property, the path, and the id of the file under that
/// path.
pub open spec fn domain_identity(
    property_id: Seq<char>,
    domain_path: Seq<char>,
    file_id: Option<Seq<char>>,
) -> Result<DomainIdModel, DomainErrorModel> {
    match file_id {
        Some(id) => if property_id.len() == 0 || property_id == id {
            Ok(DomainIdModel::Concrete(id))
        } else {
            Err(
                DomainErrorModel::Mismatch {
                    property: property_id,
                    domain_def: id,
                    path: definition_path(domain_path),
                },
            )
        },
        None => if property_id.len() > 0 {
            Ok(DomainIdModel::Concrete(property_id))
        } else if domain_path.len() > 0 {
            Ok(DomainIdModel::ApplicationResolved)
        } else {
            Err(DomainErrorModel::Unconfigured)
        },
    }
}

/// The Domain's identity from the id that the file gave.
pub fn combine_domain_id(property_id: &str, domain_path: &str, file_id: Option<String>) -> (r:
    Result<DomainId, DomainError>)
    ensures
        match r {
            Ok(id) => domain_identity(property_id@, domain_path@, file_id.deep_view()) == Ok::<
                _,
                DomainErrorModel,
            >(id.deep_view()),
            Err(e) => domain_identity(property_id@, domain_path@, file_id.deep_view()) == Err::<
                DomainIdModel,
                _,
            >(e.deep_view()),
        },
{
    match file_id {
        Some(id) => if property_id.is_empty() || same_text(id.as_str(), property_id) {
            Ok(DomainId::Concrete(id))
        } else {
            Err(
                DomainError::Mismatch {
                    property: property_id.to_owned(),
                    domain_def: id,
                    path: domain_def_path(domain_path),
                },
            )
        },
        None => if !property_id.is_empty() {
            Ok(DomainId::Concrete(property_id.to_owned()))
        } else if !domain_path.is_empty() {
            Ok(DomainId::ApplicationResolved)
        } else {
            Err(DomainError::Unconfigured)
        },
    }
}

/// Combine the user's `mxl-domain-id` property with the `id` read from
/// `<mxl-domain-path>/domain_def.json`. The file counts only where a path is set.
pub fn resolve_mxl_domain_id(
    property_id: &str,
    domain_path: &str,
    domain_def: &DomainDefFile,
) -> (r: Result<DomainId, DomainError>)
    ensures
        ({
            let file_id = if domain_path@.len() == 0 {
                Ok(None)
            } else {
                file_domain_id(domain_path@, *domain_def)
            };
            let expected = match file_id {
                Err(e) => Err(e),
                Ok(id) => domain_identity(property_id@, domain_path@, id),
            };
            match r {
                Ok(id) => expected == Ok::<_, DomainErrorModel>(id.deep_view()),
                Err(e) => expected == Err::<DomainIdModel, _>(e.deep_view()),
            }
        }),
{
    let file_id: Option<String> = if domain_path.is_empty() {
        None
    } else {
        match read_domain_def_id(domain_path, domain_def) {
            Ok(id) => id,
            Err(e) => {
                return Err(e);
            },
        }
    };
    combine_domain_id(property_id, domain_path, file_id)
}

/// The advertisement never lies: where both the property and the file name a Domain, an
/// identity is settled only if they agree, and it is then the one that both name.
pub proof fn property_and_file_agree(
    property_id: Seq<char>,
    domain_path: Seq<char>,
    file_id: Seq<char>,
)
    requires
        property_id.len() > 0,
    ensures
        domain_identity(property_id, domain_path, Some(file_id)) is Ok <==> property_id == file_id,
        domain_identity(property_id, domain_path, Some(file_id)) matches Ok(id) ==> id
            == DomainIdModel::Concrete(property_id),
{
}

/// A Domain is what names it: the property where there is no file, the file where there is no
/// property, and neither where only a path is given.
pub proof fn domain_is_what_names_it(id: Seq<char>, domain_path: Seq<char>)
    requires
        id.len() > 0,
    ensures
        domain_identity(id, domain_path, None) == Ok::<_, DomainErrorModel>(
            DomainIdModel::Concrete(id),
        ),
        domain_identity(Seq::empty(), domain_path, Some(id)) == Ok::<_, DomainErrorModel>(
            DomainIdModel::Concrete(id),
        ),
        domain_path.len() > 0 ==> domain_identity(Seq::empty(), domain_path, None) == Ok::<
            _,
            DomainErrorModel,
        >(DomainIdModel::ApplicationResolved),
        domain_path.len() == 0 ==> domain_identity(Seq::empty(), domain_path, None) == Err::<
            DomainIdModel,
            _,
        >(DomainErrorModel::Unconfigured),
{
}

/// A file that is there and names a Domain gives its id; one that is not there gives none; every
/// other file is an error.
pub proof fn domain_file_is_read(domain_path: Seq<char>, file: DomainDefFile)
    ensures
        file is NotFound ==> file_domain_id(domain_path, file) == Ok::<_, DomainErrorModel>(
            None::<Seq<char>>,
        ),
        file matches DomainDefFile::Definition(def) ==> def.id matches Some(id) ==> id@.len() > 0
            ==> file_domain_id(domain_path, file) == Ok::<_, DomainErrorModel>(Some(id@)),
        file_domain_id(domain_path, file) matches Ok(Some(id)) ==> id.len() > 0 && file
            is Definition,
        file is Unreadable || file is Malformed ==> file_domain_id(domain_path, file) is Err,
{
}

/// The definition lies in the Domain's directory, with one slash between the two.
pub proof fn definition_lies_in_the_directory(domain_path: Seq<char>)
    requires
        domain_path.len() > 0,
    ensures
        ({
            let path = definition_path(domain_path);
            let n = path.len() - 15;
            &&& path.skip(n) == "domain_def.json"@
            &&& path[n - 1] == '/'
            &&& path.take(domain_path.len() as int) == domain_path
            &&& n == if domain_path.last() == '/' {
                domain_path.len() as int
            } else {
                domain_path.len() + 1int
            }
        }),
{
    reveal_strlit("domain_def.json");
    reveal_strlit("/domain_def.json");
    assert("domain_def.json"@.len() == 15 && "/domain_def.json"@.len() == 16);
    assert("/domain_def.json"@.skip(1) =~= "domain_def.json"@);
    let path = definition_path(domain_path);
    let n = path.len() - 15;
    assert(path.skip(n) =~= "domain_def.json"@);
    assert(path.take(domain_path.len() as int) =~= domain_path);
}

/// What is said of a disagreement names the property before the definition.
pub proof fn domain_disagreement_names_both(
    property_id: Seq<char>,
    domain_path: Seq<char>,
    file_id: Seq<char>,
)
    ensures
        domain_identity(property_id, domain_path, Some(file_id)) matches Err(e) ==> says_in_order(
            e.text(),
            property_id,
            file_id,
        ) && says_in_order(e.text(), file_id, definition_path(domain_path)),
{
    let path = definition_path(domain_path);
    let a = "mxl-domain-id mismatch: property `"@;
    let b = "` != domain_def.json `id` `"@;
    let c = "` at `"@;
    let said = a + property_id + b + file_id + c + path + "`"@;
    put_together_in_order(a, property_id, b, file_id, c + path + "`"@);
    assert(said =~= a + property_id + b + file_id + (c + path + "`"@));
    put_together_in_order(a + property_id + b, file_id, c, path, "`"@);
    assert(said =~= (a + property_id + b) + file_id + c + path + "`"@);
}

/// What is said of a definition that cannot be used names its path, and behind it the cause.
pub proof fn unusable_definitions_are_named(domain_path: Seq<char>, file: DomainDefFile)
    ensures
        file_domain_id(domain_path, file) matches Err(e) ==> {
            &&& says(e.text(), definition_path(domain_path))
            &&& file matches DomainDefFile::Unreadable(why) ==> says_in_order(
                e.text(),
                definition_path(domain_path),
                why@,
            ) && says(e.text(), "read"@)
            &&& file matches DomainDefFile::Malformed(why) ==> says_in_order(
                e.text(),
                definition_path(domain_path),
                why@,
            ) && says(e.text(), "parse"@)
        },
{
    let path = definition_path(domain_path);
    if let Err(e) = file_domain_id(domain_path, file) {
        match file {
            DomainDefFile::Unreadable(why) => {
                reveal_strlit("failed to read `");
                reveal_strlit("read");
                put_together_in_order("failed to read `"@, path, "`: "@, why@, Seq::empty());
                assert(e.text() =~= "failed to read `"@ + path + "`: "@ + why@
                    + Seq::<char>::empty());
                put_together_says("failed to read `"@, path, "`: "@ + why@);
                assert(e.text() =~= "failed to read `"@ + path + ("`: "@ + why@));
                says_at(e.text(), "read"@, 10);
            },
            DomainDefFile::Malformed(why) => {
                reveal_strlit("failed to parse `");
                reveal_strlit("parse");
                put_together_in_order(
                    "failed to parse `"@,
                    path,
                    "` as JSON: "@,
                    why@,
                    Seq::empty(),
                );
                assert(e.text() =~= "failed to parse `"@ + path + "` as JSON: "@ + why@
                    + Seq::<char>::empty());
                put_together_says("failed to parse `"@, path, "` as JSON: "@ + why@);
                assert(e.text() =~= "failed to parse `"@ + path + ("` as JSON: "@ + why@));
                says_at(e.text(), "parse"@, 10);
            },
            _ => {
                put_together_says("`"@, path, "` has no `id` field"@);
            },
        }
    }
}

} // verus!
