//! Element properties: how they are declared, and the values they take.

use crate::caps::{Caps, CapsModel};
use crate::session::{Properties, PropertiesModel};
use crate::types::{CapsMode, Transport};
use vstd::prelude::*;

verus! {

/// What values a property takes.
#[derive(Debug, Clone, Copy, PartialEq, Eq, Structural)]
pub enum PropertyKind {
    Text,
    /// Up to `max`.
    UInt { max: u32 },
    UInt64,
    Boolean,
    Transport,
    CapsMode,
    Caps,
    Structure,
}

/// How a property is declared.
#[derive(Debug)]
pub struct PropertySpec {
    pub name: &'static str,
    pub nick: &'static str,
    /// What is said of the property, where it is more than the nick.
    pub blurb: Option<&'static str>,
    pub kind: PropertyKind,
    pub default_text: Option<&'static str>,
    pub mutable_ready: bool,
}

/// The value of a property. Texts, caps and structures may be null.
#[derive(Debug)]
pub enum PropertyValue {
    Text(Option<String>),
    UInt(u32),
    UInt64(u64),
    Boolean(bool),
    Transport(Transport),
    CapsMode(CapsMode),
    Caps(Option<Caps>),
    Structure(Option<Properties>),
}

pub enum PropertyModel {
    Text(Option<Seq<char>>),
    UInt(u32),
    UInt64(u64),
    Boolean(bool),
    Transport(Transport),
    CapsMode(CapsMode),
    Caps(Option<CapsModel>),
    Structure(Option<PropertiesModel>),
}

impl DeepView for PropertyValue {
    type V = PropertyModel;

    open spec fn deep_view(&self) -> PropertyModel {
        match self {
            PropertyValue::Text(t) => PropertyModel::Text(t.deep_view()),
            PropertyValue::UInt(n) => PropertyModel::UInt(*n),
            PropertyValue::UInt64(n) => PropertyModel::UInt64(*n),
            PropertyValue::Boolean(b) => PropertyModel::Boolean(*b),
            PropertyValue::Transport(t) => PropertyModel::Transport(*t),
            PropertyValue::CapsMode(m) => PropertyModel::CapsMode(*m),
            PropertyValue::Caps(c) => PropertyModel::Caps(c.deep_view()),
            PropertyValue::Structure(s) => PropertyModel::Structure(s.deep_view()),
        }
    }
}

impl PropertyValue {
    /// The value is one that a property of this kind takes.
    pub open spec fn fits(&self, kind: PropertyKind) -> bool {
        match kind {
            PropertyKind::Text => self is Text,
            PropertyKind::UInt { max } => self matches PropertyValue::UInt(n) && n <= max,
            PropertyKind::UInt64 => self is UInt64,
            PropertyKind::Boolean => self is Boolean,
            PropertyKind::Transport => self is Transport,
            PropertyKind::CapsMode => self is CapsMode,
            PropertyKind::Caps => self is Caps,
            PropertyKind::Structure => self is Structure,
        }
    }
}

pub open spec fn default_daemon_uri() -> Seq<char> {
    "unix:/tmp/nvnmosd.sock"@
}

/// What is kept of a value: a null text becomes the default daemon URI, or the empty text.
pub open spec fn stored(value: PropertyModel, is_uri: bool) -> PropertyModel {
    match value {
        PropertyModel::Text(None) => PropertyModel::Text(
            Some(
                if is_uri {
                    default_daemon_uri()
                } else {
                    Seq::empty()
                },
            ),
        ),
        _ => value,
    }
}

/// The value of a property that was never set.
pub open spec fn default_value(kind: PropertyKind, is_uri: bool) -> PropertyModel {
    match kind {
        PropertyKind::Text => stored(PropertyModel::Text(None), is_uri),
        PropertyKind::UInt { .. } => PropertyModel::UInt(0),
        PropertyKind::UInt64 => PropertyModel::UInt64(0),
        PropertyKind::Boolean => PropertyModel::Boolean(false),
        PropertyKind::Transport => PropertyModel::Transport(Transport::Mxl),
        PropertyKind::CapsMode => PropertyModel::CapsMode(CapsMode::Auto),
        PropertyKind::Caps => PropertyModel::Caps(None),
        PropertyKind::Structure => PropertyModel::Structure(None),
    }
}

pub(crate) fn default_uri() -> (r: String)
    ensures
        r@ == default_daemon_uri(),
{
    "unix:/tmp/nvnmosd.sock".to_owned()
}

pub(crate) fn uri_or_default(text: Option<String>) -> (r: String)
    ensures
        r@ == match text {
            Some(t) => t@,
            None => default_daemon_uri(),
        },
{
    match text {
        Some(t) => t,
        None => default_uri(),
    }
}

pub(crate) fn text_or_empty(text: Option<String>) -> (r: String)
    ensures
        r@ == match text {
            Some(t) => t@,
            None => Seq::empty(),
        },
{
    match text {
        Some(t) => t,
        None => String::new(),
    }
}

pub(crate) fn copy_caps(caps: &Option<Caps>) -> (r: Option<Caps>)
    ensures
        r.deep_view() == caps.deep_view(),
{
    match caps {
        Some(c) => Some(c.copy()),
        None => None,
    }
}

pub(crate) fn copy_properties(properties: &Option<Properties>) -> (r: Option<Properties>)
    ensures
        r.deep_view() == properties.deep_view(),
{
    match properties {
        Some(p) => Some(p.copy()),
        None => None,
    }
}

/// `value` fits what `kind` asks for.
pub open spec fn model_fits(value: PropertyModel, kind: PropertyKind) -> bool {
    match kind {
        PropertyKind::Text => value is Text,
        PropertyKind::UInt { max } => value matches PropertyModel::UInt(n) && n <= max,
        PropertyKind::UInt64 => value is UInt64,
        PropertyKind::Boolean => value is Boolean,
        PropertyKind::Transport => value is Transport,
        PropertyKind::CapsMode => value is CapsMode,
        PropertyKind::Caps => value is Caps,
        PropertyKind::Structure => value is Structure,
    }
}

/// A value fits as its model does.
pub proof fn fitting_is_of_the_model(value: PropertyValue, kind: PropertyKind)
    ensures
        value.fits(kind) == model_fits(value.deep_view(), kind),
{
}

/// What is stored is what was set; only a null text becomes a text that is empty, or where the
/// property is the daemon's URI one that is not. What is stored stays so when it is set again.
pub proof fn stored_is_what_was_set(value: PropertyModel, is_uri: bool)
    ensures
        value != PropertyModel::Text(None) ==> stored(value, is_uri) == value,
        stored(stored(value, is_uri), is_uri) == stored(value, is_uri),
        stored(value, is_uri) != PropertyModel::Text(None),
        stored(PropertyModel::Text(None), false) == PropertyModel::Text(Some(Seq::empty())),
        stored(PropertyModel::Text(None), true) matches PropertyModel::Text(Some(uri))
            && uri.len() > 0,
{
    reveal_strlit("unix:/tmp/nvnmosd.sock");
}

/// What a property is before it is set fits its kind, whatever bound there is, and is stored as
/// it is: it sets nothing.
pub proof fn defaults_fit(kind: PropertyKind, is_uri: bool)
    ensures
        model_fits(default_value(kind, is_uri), kind),
        stored(default_value(kind, is_uri), is_uri) == default_value(kind, is_uri),
        default_value(kind, is_uri) matches PropertyModel::Boolean(b) ==> !b,
        default_value(kind, is_uri) matches PropertyModel::Caps(c) ==> c is None,
        default_value(kind, is_uri) matches PropertyModel::Structure(s) ==> s is None,
        default_value(kind, is_uri) matches PropertyModel::UInt64(n) ==> n == 0,
        default_value(kind, is_uri) == PropertyModel::Text(Some(Seq::empty())) || is_uri
            || kind != PropertyKind::Text,
{
}

} // verus!
