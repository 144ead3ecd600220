//! The sender element's settings.

use crate::caps::Caps;
use crate::property::{
    copy_caps, copy_properties, default_daemon_uri, default_uri, default_value, model_fits,
    stored, text_or_empty, uri_or_default, PropertyKind, PropertyModel, PropertySpec, PropertyValue,
};
use crate::session::{CommonSettings, NodeSettings, Properties, Side};
use crate::text::same_text;
use crate::types::{CapsMode, Transport};
use vstd::prelude::*;

verus! {

// ---- descriptions ------------------------------------------------------------

pub const MXL_DOMAIN_PATH_BLURB: &'static str =
    "Local filesystem path identifying the MXL Domain on this host. If the directory \
    contains a `domain_def.json` (AMWA BCP-007-03 WIP) its `id` is used to populate \
    `mxl-domain-id` (or cross-checked against it when both are set). Without \
    `domain_def.json`, an unset `mxl-domain-id` leaves the NMOS tag application-resolved \
    while the data plane still uses this path. The path itself will be consumed by the \
    inner `mxlsink` `domain=` property when the data path is wired up.";

pub const MXL_FLOW_ID_BLURB: &'static str =
    "MXL flow id (UUID) the inner `mxlsink` should push into. Overrides the transport \
    file's top-level `id` when both are supplied.";

pub const SOURCE_IP_BLURB: &'static str =
    "IS-05 sender transport_params `source_ip`: local egress NIC IP. Drives both the SDP \
    `a=source-filter:` include-source (RFC 4607 SSM convention) and the \
    `a=x-nvnmos-iface-ip:` attribute, and `udpsink.bind-address` on the RTP transports \
    (`udp`, `udp2`, `nvdsudp`). Empty = unset (leave the daemon / SDP / IS-05 `auto` \
    resolver to fill at activation time). Honoured only on the RTP transports; ignored on \
    `mxl`.";

pub const SOURCE_PORT_BLURB: &'static str =
    "IS-05 sender transport_params `source_port`: local egress port. Drives \
    `udpsink.bind-port` and the SDP `a=x-nvnmos-src-port:` attribute on the RTP \
    transports. 0 (the default) = unset; the OS picks an ephemeral port. Honoured only on \
    the RTP transports; ignored on `mxl`.";

pub const DESTINATION_IP_BLURB: &'static str =
    "IS-05 sender transport_params `destination_ip`: remote destination (unicast peer or \
    multicast group). Becomes the configuring SDP `c=` line address and `udpsink.host` on \
    the RTP transports. Empty = unset (use the transport file's `c=` line if present; \
    otherwise the daemon fills the IS-05 `auto` sentinel). Honoured only on the RTP \
    transports; ignored on `mxl`.";

pub const DESTINATION_PORT_BLURB: &'static str =
    "IS-05 sender transport_params `destination_port`: remote destination port. Becomes the \
    configuring SDP `m=` line port and `udpsink.port` on the RTP transports. 0 (the \
    default) = unset; falls back to the transport file's `m=` port if present, else to the \
    canonical RTP default 5004 (`nmos-cpp` `auto_rtp_port`). Honoured only on the RTP \
    transports; ignored on `mxl`.";

// ---- properties --------------------------------------------------------------

/// A property of the sender element.
#[derive(Debug, Clone, Copy, PartialEq, Eq, Structural)]
pub enum SinkProperty {
    DaemonUri,
    NodeSeed,
    HttpPort,
    HostName,
    Domain,
    RegistrationUrl,
    SystemUrl,
    Transport,
    SenderName,
    MxlDomainId,
    MxlDomainPath,
    MxlFlowId,
    AutoActivate,
    Label,
    Description,
    GroupHint,
    TransportFile,
    TransportFilePath,
    Caps,
    TransportCaps,
    TransportProperties,
    PayProperties,
    SourceIp,
    SourcePort,
    DestinationIp,
    DestinationPort,
    FormatBitRate,
    TransportBitRate,
}

impl SinkProperty {
    /// The name of the property.
    pub open spec fn name(self) -> Seq<char> {
        match self {
            SinkProperty::DaemonUri => "daemon-uri"@,
            SinkProperty::NodeSeed => "node-seed"@,
            SinkProperty::HttpPort => "http-port"@,
            SinkProperty::HostName => "host-name"@,
            SinkProperty::Domain => "domain"@,
            SinkProperty::RegistrationUrl => "registration-url"@,
            SinkProperty::SystemUrl => "system-url"@,
            SinkProperty::Transport => "transport"@,
            SinkProperty::SenderName => "sender-name"@,
            SinkProperty::MxlDomainId => "mxl-domain-id"@,
            SinkProperty::MxlDomainPath => "mxl-domain-path"@,
            SinkProperty::MxlFlowId => "mxl-flow-id"@,
            SinkProperty::AutoActivate => "auto-activate"@,
            SinkProperty::Label => "label"@,
            SinkProperty::Description => "description"@,
            SinkProperty::GroupHint => "group-hint"@,
            SinkProperty::TransportFile => "transport-file"@,
            SinkProperty::TransportFilePath => "transport-file-path"@,
            SinkProperty::Caps => "caps"@,
            SinkProperty::TransportCaps => "transport-caps"@,
            SinkProperty::TransportProperties => "transport-properties"@,
            SinkProperty::PayProperties => "pay-properties"@,
            SinkProperty::SourceIp => "source-ip"@,
            SinkProperty::SourcePort => "source-port"@,
            SinkProperty::DestinationIp => "destination-ip"@,
            SinkProperty::DestinationPort => "destination-port"@,
            SinkProperty::FormatBitRate => "format-bit-rate"@,
            SinkProperty::TransportBitRate => "transport-bit-rate"@,
        }
    }

    /// What the property takes.
    pub open spec fn kind(self) -> PropertyKind {
        match self {
            SinkProperty::DaemonUri => PropertyKind::Text,
            SinkProperty::NodeSeed => PropertyKind::Text,
            SinkProperty::HttpPort => PropertyKind::UInt { max: 65535 },
            SinkProperty::HostName => PropertyKind::Text,
            SinkProperty::Domain => PropertyKind::Text,
            SinkProperty::RegistrationUrl => PropertyKind::Text,
            SinkProperty::SystemUrl => PropertyKind::Text,
            SinkProperty::Transport => PropertyKind::Transport,
            SinkProperty::SenderName => PropertyKind::Text,
            SinkProperty::MxlDomainId => PropertyKind::Text,
            SinkProperty::MxlDomainPath => PropertyKind::Text,
            SinkProperty::MxlFlowId => PropertyKind::Text,
            SinkProperty::AutoActivate => PropertyKind::Boolean,
            SinkProperty::Label => PropertyKind::Text,
            SinkProperty::Description => PropertyKind::Text,
            SinkProperty::GroupHint => PropertyKind::Text,
            SinkProperty::TransportFile => PropertyKind::Text,
            SinkProperty::TransportFilePath => PropertyKind::Text,
            SinkProperty::Caps => PropertyKind::Caps,
            SinkProperty::TransportCaps => PropertyKind::Caps,
            SinkProperty::TransportProperties => PropertyKind::Structure,
            SinkProperty::PayProperties => PropertyKind::Structure,
            SinkProperty::SourceIp => PropertyKind::Text,
            SinkProperty::SourcePort => PropertyKind::UInt { max: 65535 },
            SinkProperty::DestinationIp => PropertyKind::Text,
            SinkProperty::DestinationPort => PropertyKind::UInt { max: 65535 },
            SinkProperty::FormatBitRate => PropertyKind::UInt64,
            SinkProperty::TransportBitRate => PropertyKind::UInt64,
        }
    }

    /// The property can still be set in the READY state.
    pub open spec fn mutable_ready(self) -> bool {
        match self {
            SinkProperty::DaemonUri
            | SinkProperty::NodeSeed
            | SinkProperty::HttpPort
            | SinkProperty::HostName
            | SinkProperty::Domain
            | SinkProperty::RegistrationUrl
            | SinkProperty::SystemUrl => false,
            _ => true,
        }
    }

    /// What the property is called for people.
    pub open spec fn nick(self) -> Seq<char> {
        match self {
            SinkProperty::DaemonUri => "Daemon URI"@,
            SinkProperty::NodeSeed => "Node seed"@,
            SinkProperty::HttpPort => "HTTP port"@,
            SinkProperty::HostName => "Host name"@,
            SinkProperty::Domain => "NMOS DNS domain"@,
            SinkProperty::RegistrationUrl => "Registration URL"@,
            SinkProperty::SystemUrl => "System URL"@,
            SinkProperty::Transport => "Transport"@,
            SinkProperty::SenderName => "NMOS sender name"@,
            SinkProperty::MxlDomainId => "MXL domain id"@,
            SinkProperty::MxlDomainPath => "MXL domain path"@,
            SinkProperty::MxlFlowId => "MXL flow id"@,
            SinkProperty::AutoActivate => "Auto-activate"@,
            SinkProperty::Label => "Label"@,
            SinkProperty::Description => "Description"@,
            SinkProperty::GroupHint => "Group hint"@,
            SinkProperty::TransportFile => "Transport file"@,
            SinkProperty::TransportFilePath => "Transport file path"@,
            SinkProperty::Caps => "Essence caps"@,
            SinkProperty::TransportCaps => "Transport caps"@,
            SinkProperty::TransportProperties => "Transport sink properties"@,
            SinkProperty::PayProperties => "Payloader properties"@,
            SinkProperty::SourceIp => "Source IP"@,
            SinkProperty::SourcePort => "Source port"@,
            SinkProperty::DestinationIp => "Destination IP"@,
            SinkProperty::DestinationPort => "Destination port"@,
            SinkProperty::FormatBitRate => "Format bit rate"@,
            SinkProperty::TransportBitRate => "Transport bit rate"@,
        }
    }

    /// The text that the property starts with, where it is not null.
    pub open spec fn default_text(self) -> Option<Seq<char>> {
        match self {
            SinkProperty::DaemonUri => Some(default_daemon_uri()),
            _ => None,
        }
    }

    /// What is said of the property, where it is more than the nick.
    pub open spec fn blurb(self) -> Option<Seq<char>> {
        match self {
            SinkProperty::MxlDomainPath => Some(MXL_DOMAIN_PATH_BLURB@),
            SinkProperty::MxlFlowId => Some(MXL_FLOW_ID_BLURB@),
            SinkProperty::SourceIp => Some(SOURCE_IP_BLURB@),
            SinkProperty::SourcePort => Some(SOURCE_PORT_BLURB@),
            SinkProperty::DestinationIp => Some(DESTINATION_IP_BLURB@),
            SinkProperty::DestinationPort => Some(DESTINATION_PORT_BLURB@),
            _ => None,
        }
    }

    /// How the property is declared.
    pub fn spec(self) -> (r: PropertySpec)
        ensures
            r.name@ == self.name(),
            r.kind == self.kind(),
            r.mutable_ready == self.mutable_ready(),
            r.nick@ == self.nick(),
            r.default_text.deep_view() == self.default_text(),
            r.blurb.deep_view() == self.blurb(),
    {
        match self {
            SinkProperty::DaemonUri => PropertySpec {
                name: "daemon-uri",
                nick: "Daemon URI",
                blurb: None,
                kind: PropertyKind::Text,
                default_text: Some("unix:/tmp/nvnmosd.sock"),
                mutable_ready: false,
            },
            SinkProperty::NodeSeed => PropertySpec {
                name: "node-seed",
                nick: "Node seed",
                blurb: None,
                kind: PropertyKind::Text,
                default_text: None,
                mutable_ready: false,
            },
            SinkProperty::HttpPort => PropertySpec {
                name: "http-port",
                nick: "HTTP port",
                blurb: None,
                kind: PropertyKind::UInt { max: 65535 },
                default_text: None,
                mutable_ready: false,
            },
            SinkProperty::HostName => PropertySpec {
                name: "host-name",
                nick: "Host name",
                blurb: None,
                kind: PropertyKind::Text,
                default_text: None,
                mutable_ready: false,
            },
            SinkProperty::Domain => PropertySpec {
                name: "domain",
                nick: "NMOS DNS domain",
                blurb: None,
                kind: PropertyKind::Text,
                default_text: None,
                mutable_ready: false,
            },
            SinkProperty::RegistrationUrl => PropertySpec {
                name: "registration-url",
                nick: "Registration URL",
                blurb: None,
                kind: PropertyKind::Text,
                default_text: None,
                mutable_ready: false,
            },
            SinkProperty::SystemUrl => PropertySpec {
                name: "system-url",
                nick: "System URL",
                blurb: None,
                kind: PropertyKind::Text,
                default_text: None,
                mutable_ready: false,
            },
            SinkProperty::Transport => PropertySpec {
                name: "transport",
                nick: "Transport",
                blurb: None,
                kind: PropertyKind::Transport,
                default_text: None,
                mutable_ready: true,
            },
            SinkProperty::SenderName => PropertySpec {
                name: "sender-name",
                nick: "NMOS sender name",
                blurb: None,
                kind: PropertyKind::Text,
                default_text: None,
                mutable_ready: true,
            },
            SinkProperty::MxlDomainId => PropertySpec {
                name: "mxl-domain-id",
                nick: "MXL domain id",
                blurb: None,
                kind: PropertyKind::Text,
                default_text: None,
                mutable_ready: true,
            },
            SinkProperty::MxlDomainPath => PropertySpec {
                name: "mxl-domain-path",
                nick: "MXL domain path",
                blurb: Some(MXL_DOMAIN_PATH_BLURB),
                kind: PropertyKind::Text,
                default_text: None,
                mutable_ready: true,
            },
            SinkProperty::MxlFlowId => PropertySpec {
                name: "mxl-flow-id",
                nick: "MXL flow id",
                blurb: Some(MXL_FLOW_ID_BLURB),
                kind: PropertyKind::Text,
                default_text: None,
                mutable_ready: true,
            },
            SinkProperty::AutoActivate => PropertySpec {
                name: "auto-activate",
                nick: "Auto-activate",
                blurb: None,
                kind: PropertyKind::Boolean,
                default_text: None,
                mutable_ready: true,
            },
            SinkProperty::Label => PropertySpec {
                name: "label",
                nick: "Label",
                blurb: None,
                kind: PropertyKind::Text,
                default_text: None,
                mutable_ready: true,
            },
            SinkProperty::Description => PropertySpec {
                name: "description",
                nick: "Description",
                blurb: None,
                kind: PropertyKind::Text,
                default_text: None,
                mutable_ready: true,
            },
            SinkProperty::GroupHint => PropertySpec {
                name: "group-hint",
                nick: "Group hint",
                blurb: None,
                kind: PropertyKind::Text,
                default_text: None,
                mutable_ready: true,
            },
            SinkProperty::TransportFile => PropertySpec {
                name: "transport-file",
                nick: "Transport file",
                blurb: None,
                kind: PropertyKind::Text,
                default_text: None,
                mutable_ready: true,
            },
            SinkProperty::TransportFilePath => PropertySpec {
                name: "transport-file-path",
                nick: "Transport file path",
                blurb: None,
                kind: PropertyKind::Text,
                default_text: None,
                mutable_ready: true,
            },
            SinkProperty::Caps => PropertySpec {
                name: "caps",
                nick: "Essence caps",
                blurb: None,
                kind: PropertyKind::Caps,
                default_text: None,
                mutable_ready: true,
            },
            SinkProperty::TransportCaps => PropertySpec {
                name: "transport-caps",
                nick: "Transport caps",
                blurb: None,
                kind: PropertyKind::Caps,
                default_text: None,
                mutable_ready: true,
            },
            SinkProperty::TransportProperties => PropertySpec {
                name: "transport-properties",
                nick: "Transport sink properties",
                blurb: None,
                kind: PropertyKind::Structure,
                default_text: None,
                mutable_ready: true,
            },
            SinkProperty::PayProperties => PropertySpec {
                name: "pay-properties",
                nick: "Payloader properties",
                blurb: None,
                kind: PropertyKind::Structure,
                default_text: None,
                mutable_ready: true,
            },
            SinkProperty::SourceIp => PropertySpec {
                name: "source-ip",
                nick: "Source IP",
                blurb: Some(SOURCE_IP_BLURB),
                kind: PropertyKind::Text,
                default_text: None,
                mutable_ready: true,
            },
            SinkProperty::SourcePort => PropertySpec {
                name: "source-port",
                nick: "Source port",
                blurb: Some(SOURCE_PORT_BLURB),
                kind: PropertyKind::UInt { max: 65535 },
                default_text: None,
                mutable_ready: true,
            },
            SinkProperty::DestinationIp => PropertySpec {
                name: "destination-ip",
                nick: "Destination IP",
                blurb: Some(DESTINATION_IP_BLURB),
                kind: PropertyKind::Text,
                default_text: None,
                mutable_ready: true,
            },
            SinkProperty::DestinationPort => PropertySpec {
                name: "destination-port",
                nick: "Destination port",
                blurb: Some(DESTINATION_PORT_BLURB),
                kind: PropertyKind::UInt { max: 65535 },
                default_text: None,
                mutable_ready: true,
            },
            SinkProperty::FormatBitRate => PropertySpec {
                name: "format-bit-rate",
                nick: "Format bit rate",
                blurb: None,
                kind: PropertyKind::UInt64,
                default_text: None,
                mutable_ready: true,
            },
            SinkProperty::TransportBitRate => PropertySpec {
                name: "transport-bit-rate",
                nick: "Transport bit rate",
                blurb: None,
                kind: PropertyKind::UInt64,
                default_text: None,
                mutable_ready: true,
            },
        }
    }

    /// The property of the given name.
    pub fn from_name(name: &str) -> (r: Option<SinkProperty>)
        ensures
            match r {
                Some(p) => p.name() == name@,
                None => forall|p: SinkProperty| (#[trigger] p.name()) != name@,
            },
    {
        if same_text(name, "daemon-uri") {
            Some(SinkProperty::DaemonUri)
        } else if same_text(name, "node-seed") {
            Some(SinkProperty::NodeSeed)
        } else if same_text(name, "http-port") {
            Some(SinkProperty::HttpPort)
        } else if same_text(name, "host-name") {
            Some(SinkProperty::HostName)
        } else if same_text(name, "domain") {
            Some(SinkProperty::Domain)
        } else if same_text(name, "registration-url") {
            Some(SinkProperty::RegistrationUrl)
        } else if same_text(name, "system-url") {
            Some(SinkProperty::SystemUrl)
        } else if same_text(name, "transport") {
            Some(SinkProperty::Transport)
        } else if same_text(name, "sender-name") {
            Some(SinkProperty::SenderName)
        } else if same_text(name, "mxl-domain-id") {
            Some(SinkProperty::MxlDomainId)
        } else if same_text(name, "mxl-domain-path") {
            Some(SinkProperty::MxlDomainPath)
        } else if same_text(name, "mxl-flow-id") {
            Some(SinkProperty::MxlFlowId)
        } else if same_text(name, "auto-activate") {
            Some(SinkProperty::AutoActivate)
        } else if same_text(name, "label") {
            Some(SinkProperty::Label)
        } else if same_text(name, "description") {
            Some(SinkProperty::Description)
        } else if same_text(name, "group-hint") {
            Some(SinkProperty::GroupHint)
        } else if same_text(name, "transport-file") {
            Some(SinkProperty::TransportFile)
        } else if same_text(name, "transport-file-path") {
            Some(SinkProperty::TransportFilePath)
        } else if same_text(name, "caps") {
            Some(SinkProperty::Caps)
        } else if same_text(name, "transport-caps") {
            Some(SinkProperty::TransportCaps)
        } else if same_text(name, "transport-properties") {
            Some(SinkProperty::TransportProperties)
        } else if same_text(name, "pay-properties") {
            Some(SinkProperty::PayProperties)
        } else if same_text(name, "source-ip") {
            Some(SinkProperty::SourceIp)
        } else if same_text(name, "source-port") {
            Some(SinkProperty::SourcePort)
        } else if same_text(name, "destination-ip") {
            Some(SinkProperty::DestinationIp)
        } else if same_text(name, "destination-port") {
            Some(SinkProperty::DestinationPort)
        } else if same_text(name, "format-bit-rate") {
            Some(SinkProperty::FormatBitRate)
        } else if same_text(name, "transport-bit-rate") {
            Some(SinkProperty::TransportBitRate)
        } else {
            None
        }
    }
}

/// Every property, in the order in which they are declared.
pub open spec fn declared() -> Seq<SinkProperty> {
    seq![
        SinkProperty::DaemonUri,
        SinkProperty::NodeSeed,
        SinkProperty::HttpPort,
        SinkProperty::HostName,
        SinkProperty::Domain,
        SinkProperty::RegistrationUrl,
        SinkProperty::SystemUrl,
        SinkProperty::Transport,
        SinkProperty::SenderName,
        SinkProperty::MxlDomainId,
        SinkProperty::MxlDomainPath,
        SinkProperty::MxlFlowId,
        SinkProperty::AutoActivate,
        SinkProperty::Label,
        SinkProperty::Description,
        SinkProperty::GroupHint,
        SinkProperty::TransportFile,
        SinkProperty::TransportFilePath,
        SinkProperty::Caps,
        SinkProperty::TransportCaps,
        SinkProperty::TransportProperties,
        SinkProperty::PayProperties,
        SinkProperty::SourceIp,
        SinkProperty::SourcePort,
        SinkProperty::DestinationIp,
        SinkProperty::DestinationPort,
        SinkProperty::FormatBitRate,
        SinkProperty::TransportBitRate,
    ]
}

/// The properties of the element.
pub fn properties() -> (r: Vec<PropertySpec>)
    ensures
        r@.len() == declared().len(),
        forall|i: int|
            0 <= i < r@.len() ==> (#[trigger] r@[i]).name@ == declared()[i].name() && r@[i].kind
                == declared()[i].kind() && r@[i].mutable_ready == declared()[i].mutable_ready()
                && r@[i].nick@ == declared()[i].nick() && r@[i].default_text.deep_view()
                == declared()[i].default_text() && r@[i].blurb.deep_view()
                == declared()[i].blurb(),
{
    let mut r: Vec<PropertySpec> = Vec::new();
    r.push(SinkProperty::DaemonUri.spec());
    r.push(SinkProperty::NodeSeed.spec());
    r.push(SinkProperty::HttpPort.spec());
    r.push(SinkProperty::HostName.spec());
    r.push(SinkProperty::Domain.spec());
    r.push(SinkProperty::RegistrationUrl.spec());
    r.push(SinkProperty::SystemUrl.spec());
    r.push(SinkProperty::Transport.spec());
    r.push(SinkProperty::SenderName.spec());
    r.push(SinkProperty::MxlDomainId.spec());
    r.push(SinkProperty::MxlDomainPath.spec());
    r.push(SinkProperty::MxlFlowId.spec());
    r.push(SinkProperty::AutoActivate.spec());
    r.push(SinkProperty::Label.spec());
    r.push(SinkProperty::Description.spec());
    r.push(SinkProperty::GroupHint.spec());
    r.push(SinkProperty::TransportFile.spec());
    r.push(SinkProperty::TransportFilePath.spec());
    r.push(SinkProperty::Caps.spec());
    r.push(SinkProperty::TransportCaps.spec());
    r.push(SinkProperty::TransportProperties.spec());
    r.push(SinkProperty::PayProperties.spec());
    r.push(SinkProperty::SourceIp.spec());
    r.push(SinkProperty::SourcePort.spec());
    r.push(SinkProperty::DestinationIp.spec());
    r.push(SinkProperty::DestinationPort.spec());
    r.push(SinkProperty::FormatBitRate.spec());
    r.push(SinkProperty::TransportBitRate.spec());
    r
}

/// The declaration is complete: every property is declared, and only once.
pub proof fn every_property_is_declared_once(p: SinkProperty, i: int, j: int)
    ensures
        declared().contains(p),
        0 <= i < j < declared().len() ==> declared()[i] != declared()[j],
{
    let d = declared();
    match p {
        SinkProperty::DaemonUri => {
            assert(d[0] == p);
        },
        SinkProperty::NodeSeed => {
            assert(d[1] == p);
        },
        SinkProperty::HttpPort => {
            assert(d[2] == p);
        },
        SinkProperty::HostName => {
            assert(d[3] == p);
        },
        SinkProperty::Domain => {
            assert(d[4] == p);
        },
        SinkProperty::RegistrationUrl => {
            assert(d[5] == p);
        },
        SinkProperty::SystemUrl => {
            assert(d[6] == p);
        },
        SinkProperty::Transport => {
            assert(d[7] == p);
        },
        SinkProperty::SenderName => {
            assert(d[8] == p);
        },
        SinkProperty::MxlDomainId => {
            assert(d[9] == p);
        },
        SinkProperty::MxlDomainPath => {
            assert(d[10] == p);
        },
        SinkProperty::MxlFlowId => {
            assert(d[11] == p);
        },
        SinkProperty::AutoActivate => {
            assert(d[12] == p);
        },
        SinkProperty::Label => {
            assert(d[13] == p);
        },
        SinkProperty::Description => {
            assert(d[14] == p);
        },
        SinkProperty::GroupHint => {
            assert(d[15] == p);
        },
        SinkProperty::TransportFile => {
            assert(d[16] == p);
        },
        SinkProperty::TransportFilePath => {
            assert(d[17] == p);
        },
        SinkProperty::Caps => {
            assert(d[18] == p);
        },
        SinkProperty::TransportCaps => {
            assert(d[19] == p);
        },
        SinkProperty::TransportProperties => {
            assert(d[20] == p);
        },
        SinkProperty::PayProperties => {
            assert(d[21] == p);
        },
        SinkProperty::SourceIp => {
            assert(d[22] == p);
        },
        SinkProperty::SourcePort => {
            assert(d[23] == p);
        },
        SinkProperty::DestinationIp => {
            assert(d[24] == p);
        },
        SinkProperty::DestinationPort => {
            assert(d[25] == p);
        },
        SinkProperty::FormatBitRate => {
            assert(d[26] == p);
        },
        SinkProperty::TransportBitRate => {
            assert(d[27] == p);
        },
    }
}

/// Settings of the sender element. Empty texts and zeros stand for what was not set.
#[derive(Debug)]
pub struct Settings {
    pub daemon_uri: String,
    pub node_seed: String,
    pub http_port: u16,
    pub host_name: String,
    pub domain: String,
    pub registration_url: String,
    pub system_url: String,
    pub transport: Transport,
    pub sender_name: String,
    pub mxl_domain_id: String,
    pub mxl_domain_path: String,
    pub mxl_flow_id: String,
    pub auto_activate: bool,
    pub label: String,
    pub description: String,
    pub group_hint: String,
    pub transport_file: String,
    pub transport_file_path: String,
    pub caps: Option<Caps>,
    pub transport_caps: Option<Caps>,
    pub transport_properties: Option<Properties>,
    pub pay_properties: Option<Properties>,
    /// Local egress NIC IP (IS-05 sender `source_ip`).
    pub source_ip: String,
    /// Local egress port, 0 where unset (IS-05 sender `source_port`).
    pub source_port: u16,
    /// Remote destination (IS-05 sender `destination_ip`).
    pub destination_ip: String,
    /// Remote destination port, 0 where unset (IS-05 sender `destination_port`).
    pub destination_port: u16,
    pub format_bit_rate: u64,
    pub transport_bit_rate: u64,
}

impl Settings {
    /// The value of a property.
    pub open spec fn value_of(&self, p: SinkProperty) -> PropertyModel {
        match p {
            SinkProperty::DaemonUri => PropertyModel::Text(Some(self.daemon_uri@)),
            SinkProperty::NodeSeed => PropertyModel::Text(Some(self.node_seed@)),
            SinkProperty::HttpPort => PropertyModel::UInt(self.http_port as u32),
            SinkProperty::HostName => PropertyModel::Text(Some(self.host_name@)),
            SinkProperty::Domain => PropertyModel::Text(Some(self.domain@)),
            SinkProperty::RegistrationUrl => PropertyModel::Text(Some(self.registration_url@)),
            SinkProperty::SystemUrl => PropertyModel::Text(Some(self.system_url@)),
            SinkProperty::Transport => PropertyModel::Transport(self.transport),
            SinkProperty::SenderName => PropertyModel::Text(Some(self.sender_name@)),
            SinkProperty::MxlDomainId => PropertyModel::Text(Some(self.mxl_domain_id@)),
            SinkProperty::MxlDomainPath => PropertyModel::Text(Some(self.mxl_domain_path@)),
            SinkProperty::MxlFlowId => PropertyModel::Text(Some(self.mxl_flow_id@)),
            SinkProperty::AutoActivate => PropertyModel::Boolean(self.auto_activate),
            SinkProperty::Label => PropertyModel::Text(Some(self.label@)),
            SinkProperty::Description => PropertyModel::Text(Some(self.description@)),
            SinkProperty::GroupHint => PropertyModel::Text(Some(self.group_hint@)),
            SinkProperty::TransportFile => PropertyModel::Text(Some(self.transport_file@)),
            SinkProperty::TransportFilePath => PropertyModel::Text(Some(self.transport_file_path@)),
            SinkProperty::Caps => PropertyModel::Caps(self.caps.deep_view()),
            SinkProperty::TransportCaps => PropertyModel::Caps(self.transport_caps.deep_view()),
            SinkProperty::TransportProperties => PropertyModel::Structure(self.transport_properties.deep_view()),
            SinkProperty::PayProperties => PropertyModel::Structure(self.pay_properties.deep_view()),
            SinkProperty::SourceIp => PropertyModel::Text(Some(self.source_ip@)),
            SinkProperty::SourcePort => PropertyModel::UInt(self.source_port as u32),
            SinkProperty::DestinationIp => PropertyModel::Text(Some(self.destination_ip@)),
            SinkProperty::DestinationPort => PropertyModel::UInt(self.destination_port as u32),
            SinkProperty::FormatBitRate => PropertyModel::UInt64(self.format_bit_rate),
            SinkProperty::TransportBitRate => PropertyModel::UInt64(self.transport_bit_rate),
        }
    }

    /// Set a property. A null text leaves the daemon URI at its default and any other
    /// text empty.
    pub fn set_property(&mut self, p: SinkProperty, value: PropertyValue)
        requires
            value.fits(p.kind()),
        ensures
            final(self).value_of(p) == stored(value.deep_view(), p == SinkProperty::DaemonUri),
            forall|q: SinkProperty|
                q != p ==> #[trigger] final(self).value_of(q) == old(self).value_of(q),
    {
        match (p, value) {
            (SinkProperty::DaemonUri, PropertyValue::Text(t)) => {
                self.daemon_uri = uri_or_default(t);
            },
            (SinkProperty::NodeSeed, PropertyValue::Text(t)) => {
                self.node_seed = text_or_empty(t);
            },
            (SinkProperty::HttpPort, PropertyValue::UInt(n)) => {
                self.http_port = n as u16;
            },
            (SinkProperty::HostName, PropertyValue::Text(t)) => {
                self.host_name = text_or_empty(t);
            },
            (SinkProperty::Domain, PropertyValue::Text(t)) => {
                self.domain = text_or_empty(t);
            },
            (SinkProperty::RegistrationUrl, PropertyValue::Text(t)) => {
                self.registration_url = text_or_empty(t);
            },
            (SinkProperty::SystemUrl, PropertyValue::Text(t)) => {
                self.system_url = text_or_empty(t);
            },
            (SinkProperty::Transport, PropertyValue::Transport(t)) => {
                self.transport = t;
            },
            (SinkProperty::SenderName, PropertyValue::Text(t)) => {
                self.sender_name = text_or_empty(t);
            },
            (SinkProperty::MxlDomainId, PropertyValue::Text(t)) => {
                self.mxl_domain_id = text_or_empty(t);
            },
            (SinkProperty::MxlDomainPath, PropertyValue::Text(t)) => {
                self.mxl_domain_path = text_or_empty(t);
            },
            (SinkProperty::MxlFlowId, PropertyValue::Text(t)) => {
                self.mxl_flow_id = text_or_empty(t);
            },
            (SinkProperty::AutoActivate, PropertyValue::Boolean(b)) => {
                self.auto_activate = b;
            },
            (SinkProperty::Label, PropertyValue::Text(t)) => {
                self.label = text_or_empty(t);
            },
            (SinkProperty::Description, PropertyValue::Text(t)) => {
                self.description = text_or_empty(t);
            },
            (SinkProperty::GroupHint, PropertyValue::Text(t)) => {
                self.group_hint = text_or_empty(t);
            },
            (SinkProperty::TransportFile, PropertyValue::Text(t)) => {
                self.transport_file = text_or_empty(t);
            },
            (SinkProperty::TransportFilePath, PropertyValue::Text(t)) => {
                self.transport_file_path = text_or_empty(t);
            },
            (SinkProperty::Caps, PropertyValue::Caps(c)) => {
                self.caps = c;
            },
            (SinkProperty::TransportCaps, PropertyValue::Caps(c)) => {
                self.transport_caps = c;
            },
            (SinkProperty::TransportProperties, PropertyValue::Structure(s)) => {
                self.transport_properties = s;
            },
            (SinkProperty::PayProperties, PropertyValue::Structure(s)) => {
                self.pay_properties = s;
            },
            (SinkProperty::SourceIp, PropertyValue::Text(t)) => {
                self.source_ip = text_or_empty(t);
            },
            (SinkProperty::SourcePort, PropertyValue::UInt(n)) => {
                self.source_port = n as u16;
            },
            (SinkProperty::DestinationIp, PropertyValue::Text(t)) => {
                self.destination_ip = text_or_empty(t);
            },
            (SinkProperty::DestinationPort, PropertyValue::UInt(n)) => {
                self.destination_port = n as u16;
            },
            (SinkProperty::FormatBitRate, PropertyValue::UInt64(n)) => {
                self.format_bit_rate = n;
            },
            (SinkProperty::TransportBitRate, PropertyValue::UInt64(n)) => {
                self.transport_bit_rate = n;
            },
            _ => {},
        }
    }

    /// The value of a property.
    pub fn property(&self, p: SinkProperty) -> (r: PropertyValue)
        ensures
            r.deep_view() == self.value_of(p),
    {
        match p {
            SinkProperty::DaemonUri => PropertyValue::Text(Some(self.daemon_uri.clone())),
            SinkProperty::NodeSeed => PropertyValue::Text(Some(self.node_seed.clone())),
            SinkProperty::HttpPort => PropertyValue::UInt(self.http_port as u32),
            SinkProperty::HostName => PropertyValue::Text(Some(self.host_name.clone())),
            SinkProperty::Domain => PropertyValue::Text(Some(self.domain.clone())),
            SinkProperty::RegistrationUrl => PropertyValue::Text(Some(self.registration_url.clone())),
            SinkProperty::SystemUrl => PropertyValue::Text(Some(self.system_url.clone())),
            SinkProperty::Transport => PropertyValue::Transport(self.transport),
            SinkProperty::SenderName => PropertyValue::Text(Some(self.sender_name.clone())),
            SinkProperty::MxlDomainId => PropertyValue::Text(Some(self.mxl_domain_id.clone())),
            SinkProperty::MxlDomainPath => PropertyValue::Text(Some(self.mxl_domain_path.clone())),
            SinkProperty::MxlFlowId => PropertyValue::Text(Some(self.mxl_flow_id.clone())),
            SinkProperty::AutoActivate => PropertyValue::Boolean(self.auto_activate),
            SinkProperty::Label => PropertyValue::Text(Some(self.label.clone())),
            SinkProperty::Description => PropertyValue::Text(Some(self.description.clone())),
            SinkProperty::GroupHint => PropertyValue::Text(Some(self.group_hint.clone())),
            SinkProperty::TransportFile => PropertyValue::Text(Some(self.transport_file.clone())),
            SinkProperty::TransportFilePath => PropertyValue::Text(Some(self.transport_file_path.clone())),
            SinkProperty::Caps => PropertyValue::Caps(copy_caps(&self.caps)),
            SinkProperty::TransportCaps => PropertyValue::Caps(copy_caps(&self.transport_caps)),
            SinkProperty::TransportProperties => PropertyValue::Structure(copy_properties(&self.transport_properties)),
            SinkProperty::PayProperties => PropertyValue::Structure(copy_properties(&self.pay_properties)),
            SinkProperty::SourceIp => PropertyValue::Text(Some(self.source_ip.clone())),
            SinkProperty::SourcePort => PropertyValue::UInt(self.source_port as u32),
            SinkProperty::DestinationIp => PropertyValue::Text(Some(self.destination_ip.clone())),
            SinkProperty::DestinationPort => PropertyValue::UInt(self.destination_port as u32),
            SinkProperty::FormatBitRate => PropertyValue::UInt64(self.format_bit_rate),
            SinkProperty::TransportBitRate => PropertyValue::UInt64(self.transport_bit_rate),
        }
    }
}

impl Default for Settings {
    fn default() -> (r: Self)
        ensures
            forall|p: SinkProperty| #[trigger]
                r.value_of(p) == default_value(p.kind(), p == SinkProperty::DaemonUri),
    {
        Settings {
            daemon_uri: default_uri(),
            node_seed: String::new(),
            http_port: 0,
            host_name: String::new(),
            domain: String::new(),
            registration_url: String::new(),
            system_url: String::new(),
            transport: Transport::Mxl,
            sender_name: String::new(),
            mxl_domain_id: String::new(),
            mxl_domain_path: String::new(),
            mxl_flow_id: String::new(),
            auto_activate: false,
            label: String::new(),
            description: String::new(),
            group_hint: String::new(),
            transport_file: String::new(),
            transport_file_path: String::new(),
            caps: None,
            transport_caps: None,
            transport_properties: None,
            pay_properties: None,
            source_ip: String::new(),
            source_port: 0,
            destination_ip: String::new(),
            destination_port: 0,
            format_bit_rate: 0,
            transport_bit_rate: 0,
        }
    }
}

impl Settings {
    /// What the session is given of the settings.
    pub open spec fn reaches(self, r: CommonSettings) -> bool {
        &&& r.daemon_uri == self.daemon_uri
        &&& r.node == (NodeSettings {
                node_seed: self.node_seed,
                http_port: self.http_port,
                host_name: self.host_name,
                domain: self.domain,
                registration_url: self.registration_url,
                system_url: self.system_url,
            })
        &&& r.transport == self.transport
        &&& r.side == Side::Sender
        &&& r.name == self.sender_name
        &&& r.mxl_domain_id == self.mxl_domain_id
        &&& r.mxl_domain_path == self.mxl_domain_path
        &&& r.mxl_flow_id == self.mxl_flow_id
        &&& r.transport_file == self.transport_file
        &&& r.transport_file_path == self.transport_file_path
        &&& r.label == self.label
        &&& r.description == self.description
        &&& r.group_hint == self.group_hint
        &&& r.caps == self.caps
        &&& r.transport_caps == self.transport_caps
        &&& r.caps_mode == CapsMode::Auto
        &&& r.source_ip == self.source_ip
        &&& r.source_port == self.source_port
        &&& r.destination_ip == self.destination_ip
        &&& r.destination_port == self.destination_port
        &&& r.format_bit_rate == self.format_bit_rate
        &&& r.transport_bit_rate == self.transport_bit_rate
        &&& r.interface_ip@.len() == 0
        &&& r.multicast_ip@.len() == 0
        &&& r.auto_activate == self.auto_activate
    }

    /// The settings as the session takes them: the sender's transport parameters in their
    /// own slots, the receiver's left empty.
    pub fn into_common(self) -> (r: CommonSettings)
        ensures
            self.reaches(r),
            r.daemon_uri == self.daemon_uri,
            r.node == (NodeSettings {
                node_seed: self.node_seed,
                http_port: self.http_port,
                host_name: self.host_name,
                domain: self.domain,
                registration_url: self.registration_url,
                system_url: self.system_url,
            }),
            r.transport == self.transport,
            r.side == Side::Sender,
            r.name == self.sender_name,
            r.mxl_domain_id == self.mxl_domain_id,
            r.mxl_domain_path == self.mxl_domain_path,
            r.mxl_flow_id == self.mxl_flow_id,
            r.transport_file == self.transport_file,
            r.transport_file_path == self.transport_file_path,
            r.label == self.label,
            r.description == self.description,
            r.group_hint == self.group_hint,
            r.caps == self.caps,
            r.transport_caps == self.transport_caps,
            r.caps_mode == CapsMode::Auto,
            r.source_ip == self.source_ip,
            r.source_port == self.source_port,
            r.destination_ip == self.destination_ip,
            r.destination_port == self.destination_port,
            r.format_bit_rate == self.format_bit_rate,
            r.transport_bit_rate == self.transport_bit_rate,
            r.interface_ip@.len() == 0,
            r.multicast_ip@.len() == 0,
            r.auto_activate == self.auto_activate,
    {
        CommonSettings {
            daemon_uri: self.daemon_uri,
            node: NodeSettings {
                node_seed: self.node_seed,
                http_port: self.http_port,
                host_name: self.host_name,
                domain: self.domain,
                registration_url: self.registration_url,
                system_url: self.system_url,
            },
            transport: self.transport,
            side: Side::Sender,
            name: self.sender_name,
            mxl_domain_id: self.mxl_domain_id,
            mxl_domain_path: self.mxl_domain_path,
            mxl_flow_id: self.mxl_flow_id,
            transport_file: self.transport_file,
            transport_file_path: self.transport_file_path,
            label: self.label,
            description: self.description,
            group_hint: self.group_hint,
            caps: self.caps,
            transport_caps: self.transport_caps,
            caps_mode: CapsMode::Auto,
            source_ip: self.source_ip,
            source_port: self.source_port,
            destination_ip: self.destination_ip,
            destination_port: self.destination_port,
            format_bit_rate: self.format_bit_rate,
            transport_bit_rate: self.transport_bit_rate,
            interface_ip: String::new(),
            multicast_ip: String::new(),
            auto_activate: self.auto_activate,
        }
    }
}

/// What is set on a sender reaches its session: each property is what the session finds in the
/// slot of that name, the side is the sender's, and the slots of a receiver stay empty.
pub proof fn properties_reach_the_session(s: Settings, r: CommonSettings)
    requires
        s.reaches(r),
    ensures
        s.value_of(SinkProperty::DaemonUri) == PropertyModel::Text(Some(r.daemon_uri@)),
        s.value_of(SinkProperty::NodeSeed) == PropertyModel::Text(Some(r.node.node_seed@)),
        s.value_of(SinkProperty::HttpPort) == PropertyModel::UInt(r.node.http_port as u32),
        s.value_of(SinkProperty::HostName) == PropertyModel::Text(Some(r.node.host_name@)),
        s.value_of(SinkProperty::Domain) == PropertyModel::Text(Some(r.node.domain@)),
        s.value_of(SinkProperty::RegistrationUrl) == PropertyModel::Text(Some(r.node.registration_url@)),
        s.value_of(SinkProperty::SystemUrl) == PropertyModel::Text(Some(r.node.system_url@)),
        s.value_of(SinkProperty::Transport) == PropertyModel::Transport(r.transport),
        s.value_of(SinkProperty::MxlDomainId) == PropertyModel::Text(Some(r.mxl_domain_id@)),
        s.value_of(SinkProperty::MxlDomainPath) == PropertyModel::Text(Some(r.mxl_domain_path@)),
        s.value_of(SinkProperty::MxlFlowId) == PropertyModel::Text(Some(r.mxl_flow_id@)),
        s.value_of(SinkProperty::AutoActivate) == PropertyModel::Boolean(r.auto_activate),
        s.value_of(SinkProperty::Label) == PropertyModel::Text(Some(r.label@)),
        s.value_of(SinkProperty::Description) == PropertyModel::Text(Some(r.description@)),
        s.value_of(SinkProperty::TransportFile) == PropertyModel::Text(Some(r.transport_file@)),
        s.value_of(SinkProperty::TransportFilePath) == PropertyModel::Text(Some(r.transport_file_path@)),
        s.value_of(SinkProperty::Caps) == PropertyModel::Caps(r.caps.deep_view()),
        s.value_of(SinkProperty::TransportCaps) == PropertyModel::Caps(r.transport_caps.deep_view()),
        s.value_of(SinkProperty::SourceIp) == PropertyModel::Text(Some(r.source_ip@)),
        s.value_of(SinkProperty::DestinationPort) == PropertyModel::UInt(r.destination_port as u32),
        s.value_of(SinkProperty::SenderName) == PropertyModel::Text(Some(r.name@)),
        s.value_of(SinkProperty::GroupHint) == PropertyModel::Text(Some(r.group_hint@)),
        s.value_of(SinkProperty::SourcePort) == PropertyModel::UInt(r.source_port as u32),
        s.value_of(SinkProperty::DestinationIp) == PropertyModel::Text(Some(r.destination_ip@)),
        s.value_of(SinkProperty::FormatBitRate) == PropertyModel::UInt64(r.format_bit_rate),
        s.value_of(SinkProperty::TransportBitRate) == PropertyModel::UInt64(r.transport_bit_rate),
        r.side == Side::Sender,
        r.interface_ip@.len() == 0,
        r.multicast_ip@.len() == 0,
{
}

/// `p` says which daemon serves the node, or what the node is.
pub open spec fn of_the_node(p: SinkProperty) -> bool {
    p == SinkProperty::DaemonUri || p == SinkProperty::NodeSeed || p == SinkProperty::HttpPort || p
        == SinkProperty::HostName || p == SinkProperty::Domain || p == SinkProperty::RegistrationUrl || p
        == SinkProperty::SystemUrl
}

/// Whatever the settings hold fits what the property is declared to take, and every port that
/// there is can be set. What says which daemon serves the node, or what the node is, is not
/// changed once the session is open.
pub proof fn settings_fit_their_properties(s: Settings, p: SinkProperty, port: u16)
    ensures
        model_fits(s.value_of(p), p.kind()),
        p.kind() matches PropertyKind::UInt { max } ==> port <= max <= u16::MAX,
        of_the_node(p) ==> !p.mutable_ready(),
        !p.mutable_ready() <==> of_the_node(p),
{
}

} // verus!
