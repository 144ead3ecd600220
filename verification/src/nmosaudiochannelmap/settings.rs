//! Settings of the channel-mapping element.

use crate::channel_mapping_session::ChannelMappingSettings;
use crate::property::{
    default_daemon_uri, default_uri, default_value, model_fits, PropertyKind, PropertyModel,
    PropertySpec, PropertyValue,
};
use crate::session::NodeSettings;
use crate::text::same_text;
use vstd::prelude::*;

verus! {

/// A property of the channel-mapping element.
#[derive(Debug, Clone, Copy, PartialEq, Eq, Structural)]
pub enum MapProperty {
    DaemonUri,
    NodeSeed,
    HttpPort,
    HostName,
    Domain,
    RegistrationUrl,
    SystemUrl,
    ChannelmappingName,
    RestrictRoutableInputs,
}

impl MapProperty {
    /// The name of the property.
    pub open spec fn name(self) -> Seq<char> {
        match self {
            MapProperty::DaemonUri => "daemon-uri"@,
            MapProperty::NodeSeed => "node-seed"@,
            MapProperty::HttpPort => "http-port"@,
            MapProperty::HostName => "host-name"@,
            MapProperty::Domain => "domain"@,
            MapProperty::RegistrationUrl => "registration-url"@,
            MapProperty::SystemUrl => "system-url"@,
            MapProperty::ChannelmappingName => "channelmapping-name"@,
            MapProperty::RestrictRoutableInputs => "restrict-routable-inputs"@,
        }
    }

    /// What the property takes.
    pub open spec fn kind(self) -> PropertyKind {
        match self {
            MapProperty::DaemonUri => PropertyKind::Text,
            MapProperty::NodeSeed => PropertyKind::Text,
            MapProperty::HttpPort => PropertyKind::UInt { max: 65535 },
            MapProperty::HostName => PropertyKind::Text,
            MapProperty::Domain => PropertyKind::Text,
            MapProperty::RegistrationUrl => PropertyKind::Text,
            MapProperty::SystemUrl => PropertyKind::Text,
            MapProperty::ChannelmappingName => PropertyKind::Text,
            MapProperty::RestrictRoutableInputs => PropertyKind::Boolean,
        }
    }

    /// The property can still be set in the READY state.
    pub open spec fn mutable_ready(self) -> bool {
        match self {
            MapProperty::ChannelmappingName
            | MapProperty::RestrictRoutableInputs => true,
            _ => false,
        }
    }

    /// What the property is called for people.
    pub open spec fn nick(self) -> Seq<char> {
        match self {
            MapProperty::DaemonUri => "Daemon URI"@,
            MapProperty::NodeSeed => "Node seed"@,
            MapProperty::HttpPort => "HTTP port"@,
            MapProperty::HostName => "Host name"@,
            MapProperty::Domain => "NMOS DNS domain"@,
            MapProperty::RegistrationUrl => "Registration URL"@,
            MapProperty::SystemUrl => "System URL"@,
            MapProperty::ChannelmappingName => "Channel mapping name"@,
            MapProperty::RestrictRoutableInputs => "Restrict routable inputs"@,
        }
    }

    /// The text that the property starts with, where it is not null.
    pub open spec fn default_text(self) -> Option<Seq<char>> {
        match self {
            MapProperty::DaemonUri => Some(default_daemon_uri()),
            _ => None,
        }
    }

    /// What is said of the property, where it is more than the nick.
    pub open spec fn blurb(self) -> Option<Seq<char>> {
        None
    }

    /// How the property is declared.
    pub fn spec(self) -> (r: PropertySpec)
        ensures
            r.name@ == self.name(),
            r.kind == self.kind(),
            r.mutable_ready == self.mutable_ready(),
            r.nick@ == self.nick(),
            r.default_text.deep_view() == self.default_text(),
            r.blurb.deep_view() == self.blurb(),
    {
        match self {
            MapProperty::DaemonUri => PropertySpec {
                name: "daemon-uri",
                nick: "Daemon URI",
                blurb: None,
                kind: PropertyKind::Text,
                default_text: Some("unix:/tmp/nvnmosd.sock"),
                mutable_ready: false,
            },
            MapProperty::NodeSeed => PropertySpec {
                name: "node-seed",
                nick: "Node seed",
                blurb: None,
                kind: PropertyKind::Text,
                default_text: None,
                mutable_ready: false,
            },
            MapProperty::HttpPort => PropertySpec {
                name: "http-port",
                nick: "HTTP port",
                blurb: None,
                kind: PropertyKind::UInt { max: 65535 },
                default_text: None,
                mutable_ready: false,
            },
            MapProperty::HostName => PropertySpec {
                name: "host-name",
                nick: "Host name",
                blurb: None,
                kind: PropertyKind::Text,
                default_text: None,
                mutable_ready: false,
            },
            MapProperty::Domain => PropertySpec {
                name: "domain",
                nick: "NMOS DNS domain",
                blurb: None,
                kind: PropertyKind::Text,
                default_text: None,
                mutable_ready: false,
            },
            MapProperty::RegistrationUrl => PropertySpec {
                name: "registration-url",
                nick: "Registration URL",
                blurb: None,
                kind: PropertyKind::Text,
                default_text: None,
                mutable_ready: false,
            },
            MapProperty::SystemUrl => PropertySpec {
                name: "system-url",
                nick: "System URL",
                blurb: None,
                kind: PropertyKind::Text,
                default_text: None,
                mutable_ready: false,
            },
            MapProperty::ChannelmappingName => PropertySpec {
                name: "channelmapping-name",
                nick: "Channel mapping name",
                blurb: None,
                kind: PropertyKind::Text,
                default_text: None,
                mutable_ready: true,
            },
            MapProperty::RestrictRoutableInputs => PropertySpec {
                name: "restrict-routable-inputs",
                nick: "Restrict routable inputs",
                blurb: None,
                kind: PropertyKind::Boolean,
                default_text: None,
                mutable_ready: true,
            },
        }
    }

    /// The property of the given name.
    pub fn from_name(name: &str) -> (r: Option<MapProperty>)
        ensures
            match r {
                Some(p) => p.name() == name@,
                None => forall|p: MapProperty| (#[trigger] p.name()) != name@,
            },
    {
        if same_text(name, "daemon-uri") {
            Some(MapProperty::DaemonUri)
        } else if same_text(name, "node-seed") {
            Some(MapProperty::NodeSeed)
        } else if same_text(name, "http-port") {
            Some(MapProperty::HttpPort)
        } else if same_text(name, "host-name") {
            Some(MapProperty::HostName)
        } else if same_text(name, "domain") {
            Some(MapProperty::Domain)
        } else if same_text(name, "registration-url") {
            Some(MapProperty::RegistrationUrl)
        } else if same_text(name, "system-url") {
            Some(MapProperty::SystemUrl)
        } else if same_text(name, "channelmapping-name") {
            Some(MapProperty::ChannelmappingName)
        } else if same_text(name, "restrict-routable-inputs") {
            Some(MapProperty::RestrictRoutableInputs)
        } else {
            None
        }
    }
}

/// Every property, in the order in which they are declared.
pub open spec fn declared() -> Seq<MapProperty> {
    seq![
        MapProperty::DaemonUri,
        MapProperty::NodeSeed,
        MapProperty::HttpPort,
        MapProperty::HostName,
        MapProperty::Domain,
        MapProperty::RegistrationUrl,
        MapProperty::SystemUrl,
        MapProperty::ChannelmappingName,
        MapProperty::RestrictRoutableInputs,
    ]
}

/// The properties of the element.
pub fn properties() -> (r: Vec<PropertySpec>)
    ensures
        r@.len() == declared().len(),
        forall|i: int|
            0 <= i < r@.len() ==> (#[trigger] r@[i]).name@ == declared()[i].name() && r@[i].kind
                == declared()[i].kind() && r@[i].mutable_ready == declared()[i].mutable_ready()
                && r@[i].nick@ == declared()[i].nick() && r@[i].default_text.deep_view()
                == declared()[i].default_text() && r@[i].blurb.deep_view()
                == declared()[i].blurb(),
{
    let mut r: Vec<PropertySpec> = Vec::new();
    r.push(MapProperty::DaemonUri.spec());
    r.push(MapProperty::NodeSeed.spec());
    r.push(MapProperty::HttpPort.spec());
    r.push(MapProperty::HostName.spec());
    r.push(MapProperty::Domain.spec());
    r.push(MapProperty::RegistrationUrl.spec());
    r.push(MapProperty::SystemUrl.spec());
    r.push(MapProperty::ChannelmappingName.spec());
    r.push(MapProperty::RestrictRoutableInputs.spec());
    r
}

/// The declaration is complete: every property is declared, and only once.
pub proof fn every_property_is_declared_once(p: MapProperty, i: int, j: int)
    ensures
        declared().contains(p),
        0 <= i < j < declared().len() ==> declared()[i] != declared()[j],
{
    let d = declared();
    match p {
        MapProperty::DaemonUri => {
            assert(d[0] == p);
        },
        MapProperty::NodeSeed => {
            assert(d[1] == p);
        },
        MapProperty::HttpPort => {
            assert(d[2] == p);
        },
        MapProperty::HostName => {
            assert(d[3] == p);
        },
        MapProperty::Domain => {
            assert(d[4] == p);
        },
        MapProperty::RegistrationUrl => {
            assert(d[5] == p);
        },
        MapProperty::SystemUrl => {
            assert(d[6] == p);
        },
        MapProperty::ChannelmappingName => {
            assert(d[7] == p);
        },
        MapProperty::RestrictRoutableInputs => {
            assert(d[8] == p);
        },
    }
}

/// Settings of the channel-mapping element. Empty texts and zeros stand for what was not set.
#[derive(Debug)]
pub struct Settings {
    pub daemon_uri: String,
    pub node_seed: String,
    pub http_port: u16,
    pub host_name: String,
    pub domain: String,
    pub registration_url: String,
    pub system_url: String,
    pub channelmapping_name: String,
    pub restrict_routable_inputs: bool,
}

impl Settings {
    /// The value of a property.
    pub open spec fn value_of(&self, p: MapProperty) -> PropertyModel {
        match p {
            MapProperty::DaemonUri => PropertyModel::Text(Some(self.daemon_uri@)),
            MapProperty::NodeSeed => PropertyModel::Text(Some(self.node_seed@)),
            MapProperty::HttpPort => PropertyModel::UInt(self.http_port as u32),
            MapProperty::HostName => PropertyModel::Text(Some(self.host_name@)),
            MapProperty::Domain => PropertyModel::Text(Some(self.domain@)),
            MapProperty::RegistrationUrl => PropertyModel::Text(Some(self.registration_url@)),
            MapProperty::SystemUrl => PropertyModel::Text(Some(self.system_url@)),
            MapProperty::ChannelmappingName => PropertyModel::Text(Some(self.channelmapping_name@)),
            MapProperty::RestrictRoutableInputs => PropertyModel::Boolean(self.restrict_routable_inputs),
        }
    }

    /// Set a property. Nothing is written once the element's topology is fixed.
    pub fn set_property(&mut self, p: MapProperty, value: PropertyValue, fixated: bool)
        requires
            value.fits(p.kind()),
            !(value matches PropertyValue::Text(None)),
        ensures
            fixated ==> *final(self) == *old(self),
            !fixated ==> final(self).value_of(p) == value.deep_view(),
            forall|q: MapProperty|
                q != p ==> #[trigger] final(self).value_of(q) == old(self).value_of(q),
    {
        if fixated {
            return ;
        }
        match (p, value) {
            (MapProperty::DaemonUri, PropertyValue::Text(Some(t))) => {
                self.daemon_uri = t;
            },
            (MapProperty::NodeSeed, PropertyValue::Text(Some(t))) => {
                self.node_seed = t;
            },
            (MapProperty::HttpPort, PropertyValue::UInt(n)) => {
                self.http_port = n as u16;
            },
            (MapProperty::HostName, PropertyValue::Text(Some(t))) => {
                self.host_name = t;
            },
            (MapProperty::Domain, PropertyValue::Text(Some(t))) => {
                self.domain = t;
            },
            (MapProperty::RegistrationUrl, PropertyValue::Text(Some(t))) => {
                self.registration_url = t;
            },
            (MapProperty::SystemUrl, PropertyValue::Text(Some(t))) => {
                self.system_url = t;
            },
            (MapProperty::ChannelmappingName, PropertyValue::Text(Some(t))) => {
                self.channelmapping_name = t;
            },
            (MapProperty::RestrictRoutableInputs, PropertyValue::Boolean(b)) => {
                self.restrict_routable_inputs = b;
            },
            _ => {},
        }
    }

    /// The value of a property.
    pub fn property(&self, p: MapProperty) -> (r: PropertyValue)
        ensures
            r.deep_view() == self.value_of(p),
    {
        match p {
            MapProperty::DaemonUri => PropertyValue::Text(Some(self.daemon_uri.clone())),
            MapProperty::NodeSeed => PropertyValue::Text(Some(self.node_seed.clone())),
            MapProperty::HttpPort => PropertyValue::UInt(self.http_port as u32),
            MapProperty::HostName => PropertyValue::Text(Some(self.host_name.clone())),
            MapProperty::Domain => PropertyValue::Text(Some(self.domain.clone())),
            MapProperty::RegistrationUrl => PropertyValue::Text(Some(self.registration_url.clone())),
            MapProperty::SystemUrl => PropertyValue::Text(Some(self.system_url.clone())),
            MapProperty::ChannelmappingName => PropertyValue::Text(Some(self.channelmapping_name.clone())),
            MapProperty::RestrictRoutableInputs => PropertyValue::Boolean(self.restrict_routable_inputs),
        }
    }
}

impl Default for Settings {
    fn default() -> (r: Self)
        ensures
            forall|p: MapProperty| #[trigger]
                r.value_of(p) == default_value(p.kind(), p == MapProperty::DaemonUri),
    {
        Settings {
            daemon_uri: default_uri(),
            node_seed: String::new(),
            http_port: 0,
            host_name: String::new(),
            domain: String::new(),
            registration_url: String::new(),
            system_url: String::new(),
            channelmapping_name: String::new(),
            restrict_routable_inputs: false,
        }
    }
}

impl Settings {
    /// What the session is given of the settings.
    pub open spec fn reaches(self, r: ChannelMappingSettings) -> bool {
        &&& r.daemon_uri == self.daemon_uri
        &&& r.node.node_seed == self.node_seed
        &&& r.node.http_port == self.http_port
        &&& r.node.host_name == self.host_name
        &&& r.node.domain == self.domain
        &&& r.node.registration_url == self.registration_url
        &&& r.node.system_url == self.system_url
        &&& r.channelmapping_name == self.channelmapping_name
    }

    /// The settings as the session takes them.
    pub fn to_session(&self) -> (r: ChannelMappingSettings)
        ensures
            self.reaches(r),
            r == (ChannelMappingSettings {
                daemon_uri: self.daemon_uri,
                node: NodeSettings {
                    node_seed: self.node_seed,
                    http_port: self.http_port,
                    host_name: self.host_name,
                    domain: self.domain,
                    registration_url: self.registration_url,
                    system_url: self.system_url,
                },
                channelmapping_name: self.channelmapping_name,
            }),
    {
        ChannelMappingSettings {
            daemon_uri: self.daemon_uri.clone(),
            node: NodeSettings {
                node_seed: self.node_seed.clone(),
                http_port: self.http_port,
                host_name: self.host_name.clone(),
                domain: self.domain.clone(),
                registration_url: self.registration_url.clone(),
                system_url: self.system_url.clone(),
            },
            channelmapping_name: self.channelmapping_name.clone(),
        }
    }
}

/// What is set on the element reaches its session: each property is what the session finds in the
/// slot of that name.
pub proof fn properties_reach_the_session(s: Settings, r: ChannelMappingSettings)
    requires
        s.reaches(r),
    ensures
        s.value_of(MapProperty::DaemonUri) == PropertyModel::Text(Some(r.daemon_uri@)),
        s.value_of(MapProperty::NodeSeed) == PropertyModel::Text(Some(r.node.node_seed@)),
        s.value_of(MapProperty::HttpPort) == PropertyModel::UInt(r.node.http_port as u32),
        s.value_of(MapProperty::HostName) == PropertyModel::Text(Some(r.node.host_name@)),
        s.value_of(MapProperty::Domain) == PropertyModel::Text(Some(r.node.domain@)),
        s.value_of(MapProperty::RegistrationUrl) == PropertyModel::Text(Some(r.node.registration_url@)),
        s.value_of(MapProperty::SystemUrl) == PropertyModel::Text(Some(r.node.system_url@)),
        s.value_of(MapProperty::ChannelmappingName) == PropertyModel::Text(
            Some(r.channelmapping_name@),
        ),
{
}

/// `p` says which daemon serves the node, or what the node is.
pub open spec fn of_the_node(p: MapProperty) -> bool {
    p == MapProperty::DaemonUri || p == MapProperty::NodeSeed || p == MapProperty::HttpPort || p
        == MapProperty::HostName || p == MapProperty::Domain || p == MapProperty::RegistrationUrl
        || p == MapProperty::SystemUrl
}

/// Whatever the settings hold fits what the property is declared to take, and every port that
/// there is can be set. What says which daemon serves the node, or what the node is, is not
/// changed once the session is open; the rest may be.
pub proof fn settings_fit_their_properties(s: Settings, p: MapProperty, port: u16)
    ensures
        model_fits(s.value_of(p), p.kind()),
        p.kind() matches PropertyKind::UInt { max } ==> port <= max <= u16::MAX,
        of_the_node(p) <==> !p.mutable_ready(),
{
}

} // verus!
