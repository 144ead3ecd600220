//! NMOS network-services URLs and the node configuration handed to the daemon when a
//! session is opened.

use crate::session::{CommonSettings, NodeSettings};
use crate::text::{all_digits, around, is_digit, same_text};
use vstd::prelude::*;

verus! {

// ---- URLs -------------------------------------------------------------------

/// `url::ParseError`.
#[verifier::external_type_specification]
#[verifier::external_body]
pub struct ExParseError(url::ParseError);

/// The host of a URL.
#[derive(Debug)]
pub enum UrlHost {
    Absent,
    Domain(String),
    Ipv4(String),
    Ipv6(String),
}

/// The parts of a URL that are looked at.
#[derive(Debug)]
pub struct UrlParts {
    pub scheme: String,
    pub host: UrlHost,
    /// The port, or the scheme's default where it has one.
    pub port: Option<u16>,
    pub path: String,
}

pub enum UrlHostModel {
    Absent,
    Domain(Seq<char>),
    Ipv4(Seq<char>),
    Ipv6(Seq<char>),
}

pub struct UrlModel {
    pub scheme: Seq<char>,
    pub host: UrlHostModel,
    pub port: Option<u16>,
    pub path: Seq<char>,
}

impl DeepView for UrlParts {
    type V = UrlModel;

    open spec fn deep_view(&self) -> UrlModel {
        UrlModel {
            scheme: self.scheme@,
            host: match self.host {
                UrlHost::Absent => UrlHostModel::Absent,
                UrlHost::Domain(d) => UrlHostModel::Domain(d@),
                UrlHost::Ipv4(a) => UrlHostModel::Ipv4(a@),
                UrlHost::Ipv6(a) => UrlHostModel::Ipv6(a@),
            },
            port: self.port,
            path: self.path@,
        }
    }
}

/// The parts of the URL that `text` stands for, where `url::Url::parse` accepts it.
pub uninterp spec fn url_model(text: Seq<char>) -> Option<UrlModel>;

/// `url::Url::parse`, with the `scheme`, `host`, `port_or_known_default` and `path` of
/// the URL. What it accepts and the parts it finds are a function of the text.
#[verifier::external_body]
fn parse_url(text: &str) -> (r: Result<UrlParts, url::ParseError>)
    ensures
        match r {
            Ok(parts) => url_model(text@) == Some(parts.deep_view()),
            Err(_) => url_model(text@) is None,
        },
{
    let url = url::Url::parse(text)?;
    let host = match url.host() {
        None => UrlHost::Absent,
        Some(url::Host::Domain(d)) => UrlHost::Domain(d.to_owned()),
        Some(url::Host::Ipv4(a)) => UrlHost::Ipv4(a.to_string()),
        Some(url::Host::Ipv6(a)) => UrlHost::Ipv6(a.to_string()),
    };
    let scheme = url.scheme().to_owned();
    let path = url.path().to_owned();
    Ok(UrlParts { scheme, host, port: url.port_or_known_default(), path })
}

// ---- API versions -----------------------------------------------------------

/// A service name: up to 256 ASCII letters, digits and hyphens.
pub open spec fn plain_name(name: Seq<char>) -> bool {
    name.len() <= 256 && forall|i: int|
        0 <= i < name.len() ==> {
            let c = #[trigger] name[i];
            is_digit(c) || ('a' <= c && c <= 'z') || ('A' <= c && c <= 'Z') || c == '-'
        }
}

/// `v`, one or more digits, a dot, one or more digits.
pub open spec fn is_version(version: Seq<char>) -> bool {
    exists|dot: int|
        1 < dot < version.len() - 1 && version[0] == 'v' && #[trigger] version[dot] == '.'
            && all_digits(version.subrange(1, dot)) && all_digits(version.skip(dot + 1))
}

/// The path of an API of that version: `/x-nmos/<service>/<version>`, with or without a
/// slash at its end.
pub open spec fn is_api_path(path: Seq<char>, service: Seq<char>, version: Seq<char>) -> bool {
    let base = "/x-nmos/"@ + service + "/"@ + version;
    is_version(version) && (path == base || path == base + "/"@)
}

/// The regular expression for such paths, with the version as its only group.
pub open spec fn version_pattern(service: Seq<char>) -> Seq<char> {
    "^/x-nmos/"@ + service + "/(v[0-9]+\\.[0-9]+)/?$"@
}

/// `regex::Regex::captures` of a pattern for API paths: the text of the first group where
/// the path matches, which is the version in it.
#[verifier::external_body]
fn captured_version(pattern: &str, path: &str) -> (r: Option<String>)
    requires
        exists|service: Seq<char>|
            plain_name(service) && pattern@ == #[trigger] version_pattern(service),
    ensures
        forall|service: Seq<char>|
            plain_name(service) && pattern@ == #[trigger] version_pattern(service) ==> match r {
                Some(version) => is_api_path(path@, service, version@),
                None => forall|version: Seq<char>| !is_api_path(path@, service, version),
            },
{
    let re = regex::Regex::new(pattern).expect("NMOS version path pattern is valid");
    re.captures(path).map(|groups| groups[1].to_owned())
}

/// `version` is what a path says: the API version in it, or nothing where it is not the
/// path of an API.
pub open spec fn version_in_path(
    path: Seq<char>,
    service: Seq<char>,
    version: Seq<char>,
) -> bool {
    is_api_path(path, service, version) || (version.len() == 0 && forall|v: Seq<char>|
        !is_api_path(path, service, v))
}

/// The API version in a path, empty where there is none.
pub fn parse_version_from_path(path: &str, service_type: &str) -> (version: String)
    requires
        plain_name(service_type@),
    ensures
        version_in_path(path@, service_type@, version@),
{
    let pattern = around("^/x-nmos/", service_type, "/(v[0-9]+\\.[0-9]+)/?$");
    assert(pattern@ == version_pattern(service_type@));
    match captured_version(pattern.as_str(), path) {
        Some(version) => version,
        None => String::new(),
    }
}

proof fn versions_have_no_slash(version: Seq<char>, i: int)
    requires
        is_version(version),
        0 <= i < version.len(),
    ensures
        version[i] != '/',
{
    let dot = choose|dot: int|
        1 < dot < version.len() - 1 && version[0] == 'v' && #[trigger] version[dot] == '.'
            && all_digits(version.subrange(1, dot)) && all_digits(version.skip(dot + 1));
    if 0 < i < dot {
        assert(is_digit(version.subrange(1, dot)[i - 1]));
    } else if i > dot {
        assert(is_digit(version.skip(dot + 1)[i - dot - 1]));
    }
}

/// A path says one version only.
pub proof fn version_is_unique(
    path: Seq<char>,
    service: Seq<char>,
    a: Seq<char>,
    b: Seq<char>,
)
    requires
        version_in_path(path, service, a),
        version_in_path(path, service, b),
    ensures
        a == b,
{
    if is_api_path(path, service, a) && is_api_path(path, service, b) {
        let head = "/x-nmos/"@ + service + "/"@;
        reveal_strlit("/");
        assert("/"@.len() == 1 && "/"@[0] == '/');
        let rest = path.skip(head.len() as int);
        assert("/x-nmos/"@ + service + "/"@ + a =~= head + a);
        assert("/x-nmos/"@ + service + "/"@ + b =~= head + b);
        assert((head + a).skip(head.len() as int) =~= a);
        assert((head + b).skip(head.len() as int) =~= b);
        assert((head + a + "/"@).skip(head.len() as int) =~= a + "/"@);
        assert((head + b + "/"@).skip(head.len() as int) =~= b + "/"@);
        if path == head + a && path == head + b + "/"@ {
            assert(a == b + "/"@);
            versions_have_no_slash(a, a.len() - 1);
            assert(a[a.len() - 1] == '/');
        } else if path == head + a + "/"@ && path == head + b {
            assert(b == a + "/"@);
            versions_have_no_slash(b, b.len() - 1);
            assert(b[b.len() - 1] == '/');
        } else if path == head + a + "/"@ {
            assert(a + "/"@ == b + "/"@);
            assert(a =~= (a + "/"@).drop_last());
            assert(b =~= (b + "/"@).drop_last());
        }
    } else {
        assert(a =~= b);
    }
}

// ---- NMOS URLs --------------------------------------------------------------

/// Parsed pieces of an NMOS Registration or System API URL:
/// `http://host[:port]/x-nmos/{registration,system}/v<X.Y>[/]`.
#[derive(Debug)]
pub struct NmosUrlParts {
    pub address: String,
    /// TCP port from the URL (explicit, or the `http` scheme default).
    pub port: u32,
    pub version: String,
    pub valid: bool,
}

impl Default for NmosUrlParts {
    fn default() -> (r: Self)
        ensures
            r.is_blank(),
    {
        NmosUrlParts { address: String::new(), port: 0, version: String::new(), valid: false }
    }
}

impl NmosUrlParts {
    /// Nothing was found.
    pub open spec fn is_blank(&self) -> bool {
        self.address@.len() == 0 && self.port == 0 && self.version@.len() == 0 && !self.valid
    }
}

/// The address of a usable NMOS URL: `http` to a domain name or an IPv4 address.
pub open spec fn nmos_address(url: UrlModel) -> Option<Seq<char>> {
    if url.scheme == "http"@ {
        match url.host {
            UrlHostModel::Domain(d) => if d.len() > 0 {
                Some(d)
            } else {
                None
            },
            UrlHostModel::Ipv4(a) => Some(a),
            _ => None,
        }
    } else {
        None
    }
}

pub open spec fn nmos_port(url: UrlModel) -> u32 {
    match url.port {
        Some(p) => p as u32,
        None => 80,
    }
}

/// What the parts of a URL come to.
pub open spec fn nmos_parts(
    url: Option<UrlModel>,
    service: Seq<char>,
    parts: NmosUrlParts,
) -> bool {
    match url {
        None => parts.is_blank(),
        Some(u) => match nmos_address(u) {
            None => parts.is_blank(),
            Some(address) => parts.valid && parts.address@ == address && parts.port == nmos_port(u)
                && version_in_path(u.path, service, parts.version@),
        },
    }
}

/// The pieces of an NMOS URL from the parts of the URL.
pub fn nmos_url_from_parts(url: Option<UrlParts>, service_type: &str) -> (parts: NmosUrlParts)
    requires
        plain_name(service_type@),
    ensures
        nmos_parts(url.deep_view(), service_type@, parts),
{
    let url = match url {
        Some(u) => u,
        None => {
            return NmosUrlParts::default();
        },
    };
    if !same_text(url.scheme.as_str(), "http") {
        return NmosUrlParts::default();
    }
    let port: u32 = match url.port {
        Some(p) => p as u32,
        None => 80,
    };
    let version = parse_version_from_path(url.path.as_str(), service_type);
    let address: String = match url.host {
        UrlHost::Domain(d) => if d.as_str().is_empty() {
            return NmosUrlParts::default();
        } else {
            d
        },
        UrlHost::Ipv4(a) => a,
        _ => {
            return NmosUrlParts::default();
        },
    };
    NmosUrlParts { address, port, version, valid: true }
}

/// Parse an NMOS Registration or System API URL. Invalid URLs return `valid = false`
/// (callers should skip them).
pub fn parse_nmos_url(url_str: &str, service_type: &str) -> (parts: NmosUrlParts)
    requires
        plain_name(service_type@),
    ensures
        nmos_parts(
            if url_str@.len() == 0 {
                None
            } else {
                url_model(url_str@)
            },
            service_type@,
            parts,
        ),
{
    if url_str.is_empty() {
        return NmosUrlParts::default();
    }
    match parse_url(url_str) {
        Ok(parts) => nmos_url_from_parts(Some(parts), service_type),
        Err(_) => NmosUrlParts::default(),
    }
}

// ---- node configuration -----------------------------------------------------

/// Where a node finds network services. Empty texts and zeros leave the choice open.
#[derive(Debug)]
pub struct NetworkServicesConfig {
    pub domain: String,
    pub registration_address: String,
    pub registration_port: u32,
    pub registration_version: String,
    pub system_address: String,
    pub system_port: u32,
    pub system_version: String,
}

impl Default for NetworkServicesConfig {
    fn default() -> (r: Self)
        ensures
            r.domain@.len() == 0,
            r.registration_address@.len() == 0,
            r.registration_port == 0,
            r.registration_version@.len() == 0,
            r.system_address@.len() == 0,
            r.system_port == 0,
            r.system_version@.len() == 0,
    {
        NetworkServicesConfig {
            domain: String::new(),
            registration_address: String::new(),
            registration_port: 0,
            registration_version: String::new(),
            system_address: String::new(),
            system_port: 0,
            system_version: String::new(),
        }
    }
}

/// The node configuration handed to the daemon.
#[derive(Debug)]
pub struct NodeConfig {
    pub seed: String,
    pub host_name: String,
    pub http_port: u32,
    pub network_services: Option<NetworkServicesConfig>,
}

/// The parts that a service URL setting contributes: none where it is empty.
pub open spec fn service_parts(url: Seq<char>, service: Seq<char>, parts: NmosUrlParts) -> bool {
    nmos_parts(
        if url.len() == 0 {
            None
        } else {
            url_model(url)
        },
        service,
        parts,
    )
}

/// A setting that names a network service: one that the daemon can use.
pub open spec fn names_service(url: Seq<char>) -> bool {
    url.len() > 0 && (url_model(url) matches Some(u) && nmos_address(u) is Some)
}

/// The configuration for the settings: what each of the three gives, and nothing where it
/// is empty or cannot be used.
pub open spec fn services_of(settings: NodeSettings, config: NetworkServicesConfig) -> bool {
    &&& config.domain@ == settings.domain@
    &&& exists|parts: NmosUrlParts| #[trigger]
        service_parts(settings.registration_url@, "registration"@, parts)
            && config.registration_address@ == parts.address@ && config.registration_port
            == parts.port && config.registration_version@ == parts.version@
    &&& exists|parts: NmosUrlParts| #[trigger]
        service_parts(settings.system_url@, "system"@, parts) && config.system_address@
            == parts.address@ && config.system_port == parts.port && config.system_version@
            == parts.version@
}

proof fn plain_service_names()
    ensures
        plain_name("registration"@),
        plain_name("system"@),
{
    reveal_strlit("registration");
    reveal_strlit("system");
}

/// The network services that the settings name, where they name any.
pub fn build_network_services(settings: &NodeSettings) -> (r: Option<NetworkServicesConfig>)
    ensures
        match r {
            Some(config) => (settings.domain@.len() > 0 || names_service(
                settings.registration_url@,
            ) || names_service(settings.system_url@)) && services_of(*settings, config),
            None => settings.domain@.len() == 0 && !names_service(settings.registration_url@)
                && !names_service(settings.system_url@),
        },
{
    proof {
        plain_service_names();
    }
    let registration = parse_nmos_url(settings.registration_url.as_str(), "registration");
    let system = parse_nmos_url(settings.system_url.as_str(), "system");
    assert(service_parts(settings.registration_url@, "registration"@, registration));
    assert(service_parts(settings.system_url@, "system"@, system));
    if settings.domain.as_str().is_empty() && !registration.valid && !system.valid {
        return None;
    }
    Some(
        NetworkServicesConfig {
            domain: settings.domain.clone(),
            registration_address: registration.address,
            registration_port: registration.port,
            registration_version: registration.version,
            system_address: system.address,
            system_port: system.port,
            system_version: system.version,
        },
    )
}

/// The node configuration for the settings.
pub open spec fn node_config_of(settings: NodeSettings, config: NodeConfig) -> bool {
    &&& config.seed@ == settings.node_seed@
    &&& config.host_name@ == settings.host_name@
    &&& config.http_port == settings.http_port
    &&& match config.network_services {
        Some(services) => (settings.domain@.len() > 0 || names_service(settings.registration_url@)
            || names_service(settings.system_url@)) && services_of(settings, services),
        None => settings.domain@.len() == 0 && !names_service(settings.registration_url@)
            && !names_service(settings.system_url@),
    }
}

impl NodeSettings {
    /// Build the node configuration handed to the daemon. Service URLs that cannot be used
    /// are left out; other fields are still forwarded.
    pub fn to_node_config(&self) -> (config: NodeConfig)
        ensures
            node_config_of(*self, config),
    {
        NodeConfig {
            seed: self.node_seed.clone(),
            host_name: self.host_name.clone(),
            http_port: self.http_port as u32,
            network_services: build_network_services(self),
        }
    }
}

/// Build the node configuration handed to the daemon from a settings snapshot.
pub fn node_config_from_settings(settings: &CommonSettings) -> (config: NodeConfig)
    ensures
        node_config_of(settings.node, config),
{
    settings.node.to_node_config()
}

// ---- laws -------------------------------------------------------------------

/// A registration service and a system service are found through their own URLs: where a URL is
/// `http` to a name or an IPv4 address, its host and its port, or port 80, are configured, and so
/// is the version in its path; where it is not, nothing is.
pub proof fn services_are_found_through_their_urls(
    settings: NodeSettings,
    config: NetworkServicesConfig,
    registration: Option<UrlModel>,
    system: Option<UrlModel>,
)
    requires
        services_of(settings, config),
        settings.registration_url@.len() > 0 ==> registration == url_model(
            settings.registration_url@,
        ),
        settings.registration_url@.len() == 0 ==> registration is None,
        settings.system_url@.len() > 0 ==> system == url_model(settings.system_url@),
        settings.system_url@.len() == 0 ==> system is None,
    ensures
        config.domain@ == settings.domain@,
        reached_through(
            registration,
            "registration"@,
            config.registration_address@,
            config.registration_port,
            config.registration_version@,
        ),
        reached_through(
            system,
            "system"@,
            config.system_address@,
            config.system_port,
            config.system_version@,
        ),
{
    let a = choose|parts: NmosUrlParts| #[trigger]
        service_parts(settings.registration_url@, "registration"@, parts)
            && config.registration_address@ == parts.address@ && config.registration_port
            == parts.port && config.registration_version@ == parts.version@;
    parts_are_reached(registration, "registration"@, a);
    let b = choose|parts: NmosUrlParts| #[trigger]
        service_parts(settings.system_url@, "system"@, parts) && config.system_address@
            == parts.address@ && config.system_port == parts.port && config.system_version@
            == parts.version@;
    parts_are_reached(system, "system"@, b);
}

proof fn parts_are_reached(url: Option<UrlModel>, service: Seq<char>, parts: NmosUrlParts)
    requires
        nmos_parts(url, service, parts),
    ensures
        reached_through(url, service, parts.address@, parts.port, parts.version@),
{
    if parts.address@.len() == 0 {
        assert(parts.address@ =~= Seq::empty());
    }
    if let Some(u) = url {
        if let UrlHostModel::Domain(d) = u.host {
            if d.len() == 0 {
                assert(d =~= Seq::empty());
            }
        }
    }
    if url is Some && nmos_address(url->0) is Some {
        let path = url->0.path;
        assert forall|v: Seq<char>|
            is_version(v) && (path == "/x-nmos/"@ + service + "/"@ + v || path == "/x-nmos/"@
                + service + "/"@ + v + "/"@) implies #[trigger] is_api_path(path, service, v) && v
            == parts.version@ by {
            assert(version_in_path(path, service, v));
            version_is_unique(path, service, v, parts.version@);
        }
    }
}

/// An address, a port and a version are what a URL says of a service.
pub open spec fn reached_through(
    url: Option<UrlModel>,
    service: Seq<char>,
    address: Seq<char>,
    port: u32,
    version: Seq<char>,
) -> bool {
    let host = match url {
        Some(u) => match u.host {
            UrlHostModel::Domain(d) => if u.scheme == "http"@ {
                d
            } else {
                Seq::empty()
            },
            UrlHostModel::Ipv4(a) => if u.scheme == "http"@ {
                a
            } else {
                Seq::empty()
            },
            _ => Seq::empty(),
        },
        None => Seq::empty(),
    };
    &&& address == host
    &&& host.len() > 0 ==> (url->0.port matches Some(p) ==> port == p) && (url->0.port is None
        ==> port == 80)
    &&& url is None ==> port == 0 && version.len() == 0
    &&& host.len() > 0 ==> forall|v: Seq<char>|
        is_version(v) && (url->0.path == "/x-nmos/"@ + service + "/"@ + v || url->0.path
            == "/x-nmos/"@ + service + "/"@ + v + "/"@) ==> #[trigger] is_api_path(
            url->0.path,
            service,
            v,
        ) && v == version
}

/// The node keeps its seed, its host name and its port, and has network services exactly where a
/// domain or a usable URL is set.
pub proof fn node_keeps_its_identity(settings: NodeSettings, config: NodeConfig)
    requires
        node_config_of(settings, config),
    ensures
        config.seed@ == settings.node_seed@,
        config.host_name@ == settings.host_name@,
        config.http_port == settings.http_port,
        settings.domain@.len() > 0 ==> config.network_services is Some,
        settings.domain@.len() == 0 && settings.registration_url@.len() == 0
            && settings.system_url@.len() == 0 ==> config.network_services is None,
        config.network_services matches Some(services) ==> services.domain@ == settings.domain@,
{
}

/// A node is told of its network services wherever its settings name any: a domain, or a URL
/// with an address of either service; and otherwise of none.
pub proof fn named_services_are_told(settings: NodeSettings, config: NodeConfig)
    requires
        node_config_of(settings, config),
    ensures
        settings.domain@.len() > 0 ==> config.network_services is Some,
        names_service(settings.registration_url@) ==> config.network_services is Some,
        names_service(settings.system_url@) ==> config.network_services is Some,
        settings.domain@.len() == 0 && settings.registration_url@.len() == 0
            && settings.system_url@.len() == 0 ==> config.network_services is None,
{
}

} // verus!
