//! The receiver element's settings.

use crate::caps::Caps;
use crate::property::{
    copy_caps, copy_properties, default_daemon_uri, default_uri, default_value, model_fits,
    stored, text_or_empty, uri_or_default, PropertyKind, PropertyModel, PropertySpec, PropertyValue,
};
use crate::session::{CommonSettings, NodeSettings, Properties, Side};
use crate::text::same_text;
use crate::types::{CapsMode, Transport};
use vstd::prelude::*;

verus! {

// ---- descriptions ------------------------------------------------------------

pub const MXL_DOMAIN_PATH_BLURB: &'static str =
    "Local filesystem path identifying the MXL Domain on this host. If the directory \
    contains a `domain_def.json` (AMWA BCP-007-03 WIP) its `id` is used to populate \
    `mxl-domain-id` (or cross-checked against it when both are set). Fed into the inner \
    `mxlsrc` `domain=` property when the real inner chain is installed (after IS-05 \
    activation, or at startup when `auto-activate=true`).";

pub const MXL_FLOW_ID_BLURB: &'static str =
    "MXL flow id (UUID) the inner `mxlsrc` should pull. An NMOS Receiver is normally \
    configured by IS-05 PATCH activation, so this is mainly a development convenience: \
    combined with `auto-activate=true` (plus `caps` and `mxl-domain-path`) the receiver \
    starts up pre-bound to a known flow without an external controller. Overrides the \
    transport file's top-level `id` when both are supplied.";

pub const RECEIVER_CAPS_MODE_BLURB: &'static str =
    "Whether the Receiver advertises BCP-004-01 Receiver Caps on IS-04 (narrow) or none \
    (wide). On MXL, wide is encoded via `urn:x-nvnmos:tag:caps`; on RTP/UDP via \
    media-level `a=x-nvnmos-caps:`. `auto` (default) leaves the marker untouched in the \
    spliced transport file — narrow when absent (or with no transport file), wide when \
    present. `narrow` strips it; `wide` ensures it is present (libnvnmos: present + \
    non-empty = wide).";

pub const SOURCE_IP_BLURB: &'static str =
    "IS-05 receiver transport_params `source_ip`: SSM include-source — the remote sender's \
    IP. Drives the configuring SDP `a=source-filter:` include-source. On the `udp2` \
    (gst-plugins-rs `udpsrc2`) variant this translates to `source-filter`; on the `udp` \
    (gst-plugins-good `udpsrc`) variant it translates to `multicast-source`. Empty = unset \
    (any-source multicast / unicast). Honoured only on the RTP transports; ignored on \
    `mxl`.";

pub const INTERFACE_IP_BLURB: &'static str =
    "IS-05 receiver transport_params `interface_ip`: local NIC IP used for the IGMP join. \
    Resolved to an interface name and fed into `udpsrc.multicast-iface` on the RTP \
    transports. Also emitted in the configuring SDP as `a=x-nvnmos-iface-ip:`. Empty = \
    unset (let the kernel pick). Honoured only on the RTP transports; ignored on `mxl`.";

pub const MULTICAST_IP_BLURB: &'static str =
    "IS-05 receiver transport_params `multicast_ip`: multicast group to join. Becomes \
    `udpsrc.address` and the SDP `c=` line address on the RTP transports. Empty = unset \
    (unicast reception). Honoured only on the RTP transports; ignored on `mxl`.";

pub const DESTINATION_PORT_BLURB: &'static str =
    "IS-05 receiver transport_params `destination_port`: local listen port (becomes \
    `udpsrc.port` and the SDP `m=` port slot). 0 (the default) = unset; falls back to the \
    transport file's `m=` port if present, else to the canonical RTP default 5004 \
    (`nmos-cpp` `auto_rtp_port`). Honoured only on the RTP transports; ignored on `mxl`.";

// ---- properties --------------------------------------------------------------

/// A property of the receiver element.
#[derive(Debug, Clone, Copy, PartialEq, Eq, Structural)]
pub enum SrcProperty {
    DaemonUri,
    NodeSeed,
    HttpPort,
    HostName,
    Domain,
    RegistrationUrl,
    SystemUrl,
    Transport,
    ReceiverName,
    MxlDomainId,
    MxlDomainPath,
    MxlFlowId,
    AutoActivate,
    Label,
    Description,
    TransportFile,
    TransportFilePath,
    Caps,
    TransportCaps,
    TransportProperties,
    DepayProperties,
    ReceiverCapsMode,
    SourceIp,
    InterfaceIp,
    MulticastIp,
    DestinationPort,
}

impl SrcProperty {
    /// The name of the property.
    pub open spec fn name(self) -> Seq<char> {
        match self {
            SrcProperty::DaemonUri => "daemon-uri"@,
            SrcProperty::NodeSeed => "node-seed"@,
            SrcProperty::HttpPort => "http-port"@,
            SrcProperty::HostName => "host-name"@,
            SrcProperty::Domain => "domain"@,
            SrcProperty::RegistrationUrl => "registration-url"@,
            SrcProperty::SystemUrl => "system-url"@,
            SrcProperty::Transport => "transport"@,
            SrcProperty::ReceiverName => "receiver-name"@,
            SrcProperty::MxlDomainId => "mxl-domain-id"@,
            SrcProperty::MxlDomainPath => "mxl-domain-path"@,
            SrcProperty::MxlFlowId => "mxl-flow-id"@,
            SrcProperty::AutoActivate => "auto-activate"@,
            SrcProperty::Label => "label"@,
            SrcProperty::Description => "description"@,
            SrcProperty::TransportFile => "transport-file"@,
            SrcProperty::TransportFilePath => "transport-file-path"@,
            SrcProperty::Caps => "caps"@,
            SrcProperty::TransportCaps => "transport-caps"@,
            SrcProperty::TransportProperties => "transport-properties"@,
            SrcProperty::DepayProperties => "depay-properties"@,
            SrcProperty::ReceiverCapsMode => "receiver-caps-mode"@,
            SrcProperty::SourceIp => "source-ip"@,
            SrcProperty::InterfaceIp => "interface-ip"@,
            SrcProperty::MulticastIp => "multicast-ip"@,
            SrcProperty::DestinationPort => "destination-port"@,
        }
    }

    /// What the property takes.
    pub open spec fn kind(self) -> PropertyKind {
        match self {
            SrcProperty::DaemonUri => PropertyKind::Text,
            SrcProperty::NodeSeed => PropertyKind::Text,
            SrcProperty::HttpPort => PropertyKind::UInt { max: 65535 },
            SrcProperty::HostName => PropertyKind::Text,
            SrcProperty::Domain => PropertyKind::Text,
            SrcProperty::RegistrationUrl => PropertyKind::Text,
            SrcProperty::SystemUrl => PropertyKind::Text,
            SrcProperty::Transport => PropertyKind::Transport,
            SrcProperty::ReceiverName => PropertyKind::Text,
            SrcProperty::MxlDomainId => PropertyKind::Text,
            SrcProperty::MxlDomainPath => PropertyKind::Text,
            SrcProperty::MxlFlowId => PropertyKind::Text,
            SrcProperty::AutoActivate => PropertyKind::Boolean,
            SrcProperty::Label => PropertyKind::Text,
            SrcProperty::Description => PropertyKind::Text,
            SrcProperty::TransportFile => PropertyKind::Text,
            SrcProperty::TransportFilePath => PropertyKind::Text,
            SrcProperty::Caps => PropertyKind::Caps,
            SrcProperty::TransportCaps => PropertyKind::Caps,
            SrcProperty::TransportProperties => PropertyKind::Structure,
            SrcProperty::DepayProperties => PropertyKind::Structure,
            SrcProperty::ReceiverCapsMode => PropertyKind::CapsMode,
            SrcProperty::SourceIp => PropertyKind::Text,
            SrcProperty::InterfaceIp => PropertyKind::Text,
            SrcProperty::MulticastIp => PropertyKind::Text,
            SrcProperty::DestinationPort => PropertyKind::UInt { max: 65535 },
        }
    }

    /// The property can still be set in the READY state.
    pub open spec fn mutable_ready(self) -> bool {
        match self {
            SrcProperty::MxlDomainPath
            | SrcProperty::TransportProperties
            | SrcProperty::DepayProperties => true,
            _ => false,
        }
    }

    /// What the property is called for people.
    pub open spec fn nick(self) -> Seq<char> {
        match self {
            SrcProperty::DaemonUri => "Daemon URI"@,
            SrcProperty::NodeSeed => "Node seed"@,
            SrcProperty::HttpPort => "HTTP port"@,
            SrcProperty::HostName => "Host name"@,
            SrcProperty::Domain => "NMOS DNS domain"@,
            SrcProperty::RegistrationUrl => "Registration URL"@,
            SrcProperty::SystemUrl => "System URL"@,
            SrcProperty::Transport => "Transport"@,
            SrcProperty::ReceiverName => "NMOS receiver name"@,
            SrcProperty::MxlDomainId => "MXL domain id"@,
            SrcProperty::MxlDomainPath => "MXL domain path"@,
            SrcProperty::MxlFlowId => "MXL flow id"@,
            SrcProperty::AutoActivate => "Auto-activate"@,
            SrcProperty::Label => "Label"@,
            SrcProperty::Description => "Description"@,
            SrcProperty::TransportFile => "Transport file"@,
            SrcProperty::TransportFilePath => "Transport file path"@,
            SrcProperty::Caps => "Essence caps"@,
            SrcProperty::TransportCaps => "Transport caps"@,
            SrcProperty::TransportProperties => "Transport source properties"@,
            SrcProperty::DepayProperties => "Depayloader properties"@,
            SrcProperty::ReceiverCapsMode => "Receiver caps mode"@,
            SrcProperty::SourceIp => "Source IP"@,
            SrcProperty::InterfaceIp => "Interface IP"@,
            SrcProperty::MulticastIp => "Multicast IP"@,
            SrcProperty::DestinationPort => "Destination port"@,
        }
    }

    /// The text that the property starts with, where it is not null.
    pub open spec fn default_text(self) -> Option<Seq<char>> {
        match self {
            SrcProperty::DaemonUri => Some(default_daemon_uri()),
            _ => None,
        }
    }

    /// What is said of the property, where it is more than the nick.
    pub open spec fn blurb(self) -> Option<Seq<char>> {
        match self {
            SrcProperty::MxlDomainPath => Some(MXL_DOMAIN_PATH_BLURB@),
            SrcProperty::MxlFlowId => Some(MXL_FLOW_ID_BLURB@),
            SrcProperty::ReceiverCapsMode => Some(RECEIVER_CAPS_MODE_BLURB@),
            SrcProperty::SourceIp => Some(SOURCE_IP_BLURB@),
            SrcProperty::InterfaceIp => Some(INTERFACE_IP_BLURB@),
            SrcProperty::MulticastIp => Some(MULTICAST_IP_BLURB@),
            SrcProperty::DestinationPort => Some(DESTINATION_PORT_BLURB@),
            _ => None,
        }
    }

    /// How the property is declared.
    pub fn spec(self) -> (r: PropertySpec)
        ensures
            r.name@ == self.name(),
            r.kind == self.kind(),
            r.mutable_ready == self.mutable_ready(),
            r.nick@ == self.nick(),
            r.default_text.deep_view() == self.default_text(),
            r.blurb.deep_view() == self.blurb(),
    {
        match self {
            SrcProperty::DaemonUri => PropertySpec {
                name: "daemon-uri",
                nick: "Daemon URI",
                blurb: None,
                kind: PropertyKind::Text,
                default_text: Some("unix:/tmp/nvnmosd.sock"),
                mutable_ready: false,
            },
            SrcProperty::NodeSeed => PropertySpec {
                name: "node-seed",
                nick: "Node seed",
                blurb: None,
                kind: PropertyKind::Text,
                default_text: None,
                mutable_ready: false,
            },
            SrcProperty::HttpPort => PropertySpec {
                name: "http-port",
                nick: "HTTP port",
                blurb: None,
                kind: PropertyKind::UInt { max: 65535 },
                default_text: None,
                mutable_ready: false,
            },
            SrcProperty::HostName => PropertySpec {
                name: "host-name",
                nick: "Host name",
                blurb: None,
                kind: PropertyKind::Text,
                default_text: None,
                mutable_ready: false,
            },
            SrcProperty::Domain => PropertySpec {
                name: "domain",
                nick: "NMOS DNS domain",
                blurb: None,
                kind: PropertyKind::Text,
                default_text: None,
                mutable_ready: false,
            },
            SrcProperty::RegistrationUrl => PropertySpec {
                name: "registration-url",
                nick: "Registration URL",
                blurb: None,
                kind: PropertyKind::Text,
                default_text: None,
                mutable_ready: false,
            },
            SrcProperty::SystemUrl => PropertySpec {
                name: "system-url",
                nick: "System URL",
                blurb: None,
                kind: PropertyKind::Text,
                default_text: None,
                mutable_ready: false,
            },
            SrcProperty::Transport => PropertySpec {
                name: "transport",
                nick: "Transport",
                blurb: None,
                kind: PropertyKind::Transport,
                default_text: None,
                mutable_ready: false,
            },
            SrcProperty::ReceiverName => PropertySpec {
                name: "receiver-name",
                nick: "NMOS receiver name",
                blurb: None,
                kind: PropertyKind::Text,
                default_text: None,
                mutable_ready: false,
            },
            SrcProperty::MxlDomainId => PropertySpec {
                name: "mxl-domain-id",
                nick: "MXL domain id",
                blurb: None,
                kind: PropertyKind::Text,
                default_text: None,
                mutable_ready: false,
            },
            SrcProperty::MxlDomainPath => PropertySpec {
                name: "mxl-domain-path",
                nick: "MXL domain path",
                blurb: Some(MXL_DOMAIN_PATH_BLURB),
                kind: PropertyKind::Text,
                default_text: None,
                mutable_ready: true,
            },
            SrcProperty::MxlFlowId => PropertySpec {
                name: "mxl-flow-id",
                nick: "MXL flow id",
                blurb: Some(MXL_FLOW_ID_BLURB),
                kind: PropertyKind::Text,
                default_text: None,
                mutable_ready: false,
            },
            SrcProperty::AutoActivate => PropertySpec {
                name: "auto-activate",
                nick: "Auto-activate",
                blurb: None,
                kind: PropertyKind::Boolean,
                default_text: None,
                mutable_ready: false,
            },
            SrcProperty::Label => PropertySpec {
                name: "label",
                nick: "Label",
                blurb: None,
                kind: PropertyKind::Text,
                default_text: None,
                mutable_ready: false,
            },
            SrcProperty::Description => PropertySpec {
                name: "description",
                nick: "Description",
                blurb: None,
                kind: PropertyKind::Text,
                default_text: None,
                mutable_ready: false,
            },
            SrcProperty::TransportFile => PropertySpec {
                name: "transport-file",
                nick: "Transport file",
                blurb: None,
                kind: PropertyKind::Text,
                default_text: None,
                mutable_ready: false,
            },
            SrcProperty::TransportFilePath => PropertySpec {
                name: "transport-file-path",
                nick: "Transport file path",
                blurb: None,
                kind: PropertyKind::Text,
                default_text: None,
                mutable_ready: false,
            },
            SrcProperty::Caps => PropertySpec {
                name: "caps",
                nick: "Essence caps",
                blurb: None,
                kind: PropertyKind::Caps,
                default_text: None,
                mutable_ready: false,
            },
            SrcProperty::TransportCaps => PropertySpec {
                name: "transport-caps",
                nick: "Transport caps",
                blurb: None,
                kind: PropertyKind::Caps,
                default_text: None,
                mutable_ready: false,
            },
            SrcProperty::TransportProperties => PropertySpec {
                name: "transport-properties",
                nick: "Transport source properties",
                blurb: None,
                kind: PropertyKind::Structure,
                default_text: None,
                mutable_ready: true,
            },
            SrcProperty::DepayProperties => PropertySpec {
                name: "depay-properties",
                nick: "Depayloader properties",
                blurb: None,
                kind: PropertyKind::Structure,
                default_text: None,
                mutable_ready: true,
            },
            SrcProperty::ReceiverCapsMode => PropertySpec {
                name: "receiver-caps-mode",
                nick: "Receiver caps mode",
                blurb: Some(RECEIVER_CAPS_MODE_BLURB),
                kind: PropertyKind::CapsMode,
                default_text: None,
                mutable_ready: false,
            },
            SrcProperty::SourceIp => PropertySpec {
                name: "source-ip",
                nick: "Source IP",
                blurb: Some(SOURCE_IP_BLURB),
                kind: PropertyKind::Text,
                default_text: None,
                mutable_ready: false,
            },
            SrcProperty::InterfaceIp => PropertySpec {
                name: "interface-ip",
                nick: "Interface IP",
                blurb: Some(INTERFACE_IP_BLURB),
                kind: PropertyKind::Text,
                default_text: None,
                mutable_ready: false,
            },
            SrcProperty::MulticastIp => PropertySpec {
                name: "multicast-ip",
                nick: "Multicast IP",
                blurb: Some(MULTICAST_IP_BLURB),
                kind: PropertyKind::Text,
                default_text: None,
                mutable_ready: false,
            },
            SrcProperty::DestinationPort => PropertySpec {
                name: "destination-port",
                nick: "Destination port",
                blurb: Some(DESTINATION_PORT_BLURB),
                kind: PropertyKind::UInt { max: 65535 },
                default_text: None,
                mutable_ready: false,
            },
        }
    }

    /// The property of the given name.
    pub fn from_name(name: &str) -> (r: Option<SrcProperty>)
        ensures
            match r {
                Some(p) => p.name() == name@,
                None => forall|p: SrcProperty| (#[trigger] p.name()) != name@,
            },
    {
        if same_text(name, "daemon-uri") {
            Some(SrcProperty::DaemonUri)
        } else if same_text(name, "node-seed") {
            Some(SrcProperty::NodeSeed)
        } else if same_text(name, "http-port") {
            Some(SrcProperty::HttpPort)
        } else if same_text(name, "host-name") {
            Some(SrcProperty::HostName)
        } else if same_text(name, "domain") {
            Some(SrcProperty::Domain)
        } else if same_text(name, "registration-url") {
            Some(SrcProperty::RegistrationUrl)
        } else if same_text(name, "system-url") {
            Some(SrcProperty::SystemUrl)
        } else if same_text(name, "transport") {
            Some(SrcProperty::Transport)
        } else if same_text(name, "receiver-name") {
            Some(SrcProperty::ReceiverName)
        } else if same_text(name, "mxl-domain-id") {
            Some(SrcProperty::MxlDomainId)
        } else if same_text(name, "mxl-domain-path") {
            Some(SrcProperty::MxlDomainPath)
        } else if same_text(name, "mxl-flow-id") {
            Some(SrcProperty::MxlFlowId)
        } else if same_text(name, "auto-activate") {
            Some(SrcProperty::AutoActivate)
        } else if same_text(name, "label") {
            Some(SrcProperty::Label)
        } else if same_text(name, "description") {
            Some(SrcProperty::Description)
        } else if same_text(name, "transport-file") {
            Some(SrcProperty::TransportFile)
        } else if same_text(name, "transport-file-path") {
            Some(SrcProperty::TransportFilePath)
        } else if same_text(name, "caps") {
            Some(SrcProperty::Caps)
        } else if same_text(name, "transport-caps") {
            Some(SrcProperty::TransportCaps)
        } else if same_text(name, "transport-properties") {
            Some(SrcProperty::TransportProperties)
        } else if same_text(name, "depay-properties") {
            Some(SrcProperty::DepayProperties)
        } else if same_text(name, "receiver-caps-mode") {
            Some(SrcProperty::ReceiverCapsMode)
        } else if same_text(name, "source-ip") {
            Some(SrcProperty::SourceIp)
        } else if same_text(name, "interface-ip") {
            Some(SrcProperty::InterfaceIp)
        } else if same_text(name, "multicast-ip") {
            Some(SrcProperty::MulticastIp)
        } else if same_text(name, "destination-port") {
            Some(SrcProperty::DestinationPort)
        } else {
            None
        }
    }
}

/// Every property, in the order in which they are declared.
pub open spec fn declared() -> Seq<SrcProperty> {
    seq![
        SrcProperty::DaemonUri,
        SrcProperty::NodeSeed,
        SrcProperty::HttpPort,
        SrcProperty::HostName,
        SrcProperty::Domain,
        SrcProperty::RegistrationUrl,
        SrcProperty::SystemUrl,
        SrcProperty::Transport,
        SrcProperty::ReceiverName,
        SrcProperty::MxlDomainId,
        SrcProperty::MxlDomainPath,
        SrcProperty::MxlFlowId,
        SrcProperty::AutoActivate,
        SrcProperty::Label,
        SrcProperty::Description,
        SrcProperty::TransportFile,
        SrcProperty::TransportFilePath,
        SrcProperty::Caps,
        SrcProperty::TransportCaps,
        SrcProperty::TransportProperties,
        SrcProperty::DepayProperties,
        SrcProperty::ReceiverCapsMode,
        SrcProperty::SourceIp,
        SrcProperty::InterfaceIp,
        SrcProperty::MulticastIp,
        SrcProperty::DestinationPort,
    ]
}

/// The properties of the element.
pub fn properties() -> (r: Vec<PropertySpec>)
    ensures
        r@.len() == declared().len(),
        forall|i: int|
            0 <= i < r@.len() ==> (#[trigger] r@[i]).name@ == declared()[i].name() && r@[i].kind
                == declared()[i].kind() && r@[i].mutable_ready == declared()[i].mutable_ready()
                && r@[i].nick@ == declared()[i].nick() && r@[i].default_text.deep_view()
                == declared()[i].default_text() && r@[i].blurb.deep_view()
                == declared()[i].blurb(),
{
    let mut r: Vec<PropertySpec> = Vec::new();
    r.push(SrcProperty::DaemonUri.spec());
    r.push(SrcProperty::NodeSeed.spec());
    r.push(SrcProperty::HttpPort.spec());
    r.push(SrcProperty::HostName.spec());
    r.push(SrcProperty::Domain.spec());
    r.push(SrcProperty::RegistrationUrl.spec());
    r.push(SrcProperty::SystemUrl.spec());
    r.push(SrcProperty::Transport.spec());
    r.push(SrcProperty::ReceiverName.spec());
    r.push(SrcProperty::MxlDomainId.spec());
    r.push(SrcProperty::MxlDomainPath.spec());
    r.push(SrcProperty::MxlFlowId.spec());
    r.push(SrcProperty::AutoActivate.spec());
    r.push(SrcProperty::Label.spec());
    r.push(SrcProperty::Description.spec());
    r.push(SrcProperty::TransportFile.spec());
    r.push(SrcProperty::TransportFilePath.spec());
    r.push(SrcProperty::Caps.spec());
    r.push(SrcProperty::TransportCaps.spec());
    r.push(SrcProperty::TransportProperties.spec());
    r.push(SrcProperty::DepayProperties.spec());
    r.push(SrcProperty::ReceiverCapsMode.spec());
    r.push(SrcProperty::SourceIp.spec());
    r.push(SrcProperty::InterfaceIp.spec());
    r.push(SrcProperty::MulticastIp.spec());
    r.push(SrcProperty::DestinationPort.spec());
    r
}

/// The declaration is complete: every property is declared, and only once.
pub proof fn every_property_is_declared_once(p: SrcProperty, i: int, j: int)
    ensures
        declared().contains(p),
        0 <= i < j < declared().len() ==> declared()[i] != declared()[j],
{
    let d = declared();
    match p {
        SrcProperty::DaemonUri => {
            assert(d[0] == p);
        },
        SrcProperty::NodeSeed => {
            assert(d[1] == p);
        },
        SrcProperty::HttpPort => {
            assert(d[2] == p);
        },
        SrcProperty::HostName => {
            assert(d[3] == p);
        },
        SrcProperty::Domain => {
            assert(d[4] == p);
        },
        SrcProperty::RegistrationUrl => {
            assert(d[5] == p);
        },
        SrcProperty::SystemUrl => {
            assert(d[6] == p);
        },
        SrcProperty::Transport => {
            assert(d[7] == p);
        },
        SrcProperty::ReceiverName => {
            assert(d[8] == p);
        },
        SrcProperty::MxlDomainId => {
            assert(d[9] == p);
        },
        SrcProperty::MxlDomainPath => {
            assert(d[10] == p);
        },
        SrcProperty::MxlFlowId => {
            assert(d[11] == p);
        },
        SrcProperty::AutoActivate => {
            assert(d[12] == p);
        },
        SrcProperty::Label => {
            assert(d[13] == p);
        },
        SrcProperty::Description => {
            assert(d[14] == p);
        },
        SrcProperty::TransportFile => {
            assert(d[15] == p);
        },
        SrcProperty::TransportFilePath => {
            assert(d[16] == p);
        },
        SrcProperty::Caps => {
            assert(d[17] == p);
        },
        SrcProperty::TransportCaps => {
            assert(d[18] == p);
        },
        SrcProperty::TransportProperties => {
            assert(d[19] == p);
        },
        SrcProperty::DepayProperties => {
            assert(d[20] == p);
        },
        SrcProperty::ReceiverCapsMode => {
            assert(d[21] == p);
        },
        SrcProperty::SourceIp => {
            assert(d[22] == p);
        },
        SrcProperty::InterfaceIp => {
            assert(d[23] == p);
        },
        SrcProperty::MulticastIp => {
            assert(d[24] == p);
        },
        SrcProperty::DestinationPort => {
            assert(d[25] == p);
        },
    }
}

/// Settings of the receiver element. Empty texts and zeros stand for what was not set.
#[derive(Debug)]
pub struct Settings {
    pub daemon_uri: String,
    pub node_seed: String,
    pub http_port: u16,
    pub host_name: String,
    pub domain: String,
    pub registration_url: String,
    pub system_url: String,
    pub transport: Transport,
    pub receiver_name: String,
    pub mxl_domain_id: String,
    pub mxl_domain_path: String,
    pub mxl_flow_id: String,
    pub auto_activate: bool,
    pub label: String,
    pub description: String,
    pub transport_file: String,
    pub transport_file_path: String,
    pub caps: Option<Caps>,
    pub transport_caps: Option<Caps>,
    pub transport_properties: Option<Properties>,
    pub depay_properties: Option<Properties>,
    pub receiver_caps_mode: CapsMode,
    /// Source filter (IS-05 receiver `source_ip`).
    pub source_ip: String,
    /// Local ingress NIC IP (IS-05 receiver `interface_ip`).
    pub interface_ip: String,
    /// Multicast group (IS-05 receiver `multicast_ip`).
    pub multicast_ip: String,
    /// Port to receive on, 0 where unset (IS-05 receiver `destination_port`).
    pub destination_port: u16,
}

impl Settings {
    /// The value of a property.
    pub open spec fn value_of(&self, p: SrcProperty) -> PropertyModel {
        match p {
            SrcProperty::DaemonUri => PropertyModel::Text(Some(self.daemon_uri@)),
            SrcProperty::NodeSeed => PropertyModel::Text(Some(self.node_seed@)),
            SrcProperty::HttpPort => PropertyModel::UInt(self.http_port as u32),
            SrcProperty::HostName => PropertyModel::Text(Some(self.host_name@)),
            SrcProperty::Domain => PropertyModel::Text(Some(self.domain@)),
            SrcProperty::RegistrationUrl => PropertyModel::Text(Some(self.registration_url@)),
            SrcProperty::SystemUrl => PropertyModel::Text(Some(self.system_url@)),
            SrcProperty::Transport => PropertyModel::Transport(self.transport),
            SrcProperty::ReceiverName => PropertyModel::Text(Some(self.receiver_name@)),
            SrcProperty::MxlDomainId => PropertyModel::Text(Some(self.mxl_domain_id@)),
            SrcProperty::MxlDomainPath => PropertyModel::Text(Some(self.mxl_domain_path@)),
            SrcProperty::MxlFlowId => PropertyModel::Text(Some(self.mxl_flow_id@)),
            SrcProperty::AutoActivate => PropertyModel::Boolean(self.auto_activate),
            SrcProperty::Label => PropertyModel::Text(Some(self.label@)),
            SrcProperty::Description => PropertyModel::Text(Some(self.description@)),
            SrcProperty::TransportFile => PropertyModel::Text(Some(self.transport_file@)),
            SrcProperty::TransportFilePath => PropertyModel::Text(Some(self.transport_file_path@)),
            SrcProperty::Caps => PropertyModel::Caps(self.caps.deep_view()),
            SrcProperty::TransportCaps => PropertyModel::Caps(self.transport_caps.deep_view()),
            SrcProperty::TransportProperties => PropertyModel::Structure(self.transport_properties.deep_view()),
            SrcProperty::DepayProperties => PropertyModel::Structure(self.depay_properties.deep_view()),
            SrcProperty::ReceiverCapsMode => PropertyModel::CapsMode(self.receiver_caps_mode),
            SrcProperty::SourceIp => PropertyModel::Text(Some(self.source_ip@)),
            SrcProperty::InterfaceIp => PropertyModel::Text(Some(self.interface_ip@)),
            SrcProperty::MulticastIp => PropertyModel::Text(Some(self.multicast_ip@)),
            SrcProperty::DestinationPort => PropertyModel::UInt(self.destination_port as u32),
        }
    }

    /// Set a property. A null text leaves the daemon URI at its default and any other
    /// text empty.
    pub fn set_property(&mut self, p: SrcProperty, value: PropertyValue)
        requires
            value.fits(p.kind()),
        ensures
            final(self).value_of(p) == stored(value.deep_view(), p == SrcProperty::DaemonUri),
            forall|q: SrcProperty|
                q != p ==> #[trigger] final(self).value_of(q) == old(self).value_of(q),
    {
        match (p, value) {
            (SrcProperty::DaemonUri, PropertyValue::Text(t)) => {
                self.daemon_uri = uri_or_default(t);
            },
            (SrcProperty::NodeSeed, PropertyValue::Text(t)) => {
                self.node_seed = text_or_empty(t);
            },
            (SrcProperty::HttpPort, PropertyValue::UInt(n)) => {
                self.http_port = n as u16;
            },
            (SrcProperty::HostName, PropertyValue::Text(t)) => {
                self.host_name = text_or_empty(t);
            },
            (SrcProperty::Domain, PropertyValue::Text(t)) => {
                self.domain = text_or_empty(t);
            },
            (SrcProperty::RegistrationUrl, PropertyValue::Text(t)) => {
                self.registration_url = text_or_empty(t);
            },
            (SrcProperty::SystemUrl, PropertyValue::Text(t)) => {
                self.system_url = text_or_empty(t);
            },
            (SrcProperty::Transport, PropertyValue::Transport(t)) => {
                self.transport = t;
            },
            (SrcProperty::ReceiverName, PropertyValue::Text(t)) => {
                self.receiver_name = text_or_empty(t);
            },
            (SrcProperty::MxlDomainId, PropertyValue::Text(t)) => {
                self.mxl_domain_id = text_or_empty(t);
            },
            (SrcProperty::MxlDomainPath, PropertyValue::Text(t)) => {
                self.mxl_domain_path = text_or_empty(t);
            },
            (SrcProperty::MxlFlowId, PropertyValue::Text(t)) => {
                self.mxl_flow_id = text_or_empty(t);
            },
            (SrcProperty::AutoActivate, PropertyValue::Boolean(b)) => {
                self.auto_activate = b;
            },
            (SrcProperty::Label, PropertyValue::Text(t)) => {
                self.label = text_or_empty(t);
            },
            (SrcProperty::Description, PropertyValue::Text(t)) => {
                self.description = text_or_empty(t);
            },
            (SrcProperty::TransportFile, PropertyValue::Text(t)) => {
                self.transport_file = text_or_empty(t);
            },
            (SrcProperty::TransportFilePath, PropertyValue::Text(t)) => {
                self.transport_file_path = text_or_empty(t);
            },
            (SrcProperty::Caps, PropertyValue::Caps(c)) => {
                self.caps = c;
            },
            (SrcProperty::TransportCaps, PropertyValue::Caps(c)) => {
                self.transport_caps = c;
            },
            (SrcProperty::TransportProperties, PropertyValue::Structure(s)) => {
                self.transport_properties = s;
            },
            (SrcProperty::DepayProperties, PropertyValue::Structure(s)) => {
                self.depay_properties = s;
            },
            (SrcProperty::ReceiverCapsMode, PropertyValue::CapsMode(m)) => {
                self.receiver_caps_mode = m;
            },
            (SrcProperty::SourceIp, PropertyValue::Text(t)) => {
                self.source_ip = text_or_empty(t);
            },
            (SrcProperty::InterfaceIp, PropertyValue::Text(t)) => {
                self.interface_ip = text_or_empty(t);
            },
            (SrcProperty::MulticastIp, PropertyValue::Text(t)) => {
                self.multicast_ip = text_or_empty(t);
            },
            (SrcProperty::DestinationPort, PropertyValue::UInt(n)) => {
                self.destination_port = n as u16;
            },
            _ => {},
        }
    }

    /// The value of a property.
    pub fn property(&self, p: SrcProperty) -> (r: PropertyValue)
        ensures
            r.deep_view() == self.value_of(p),
    {
        match p {
            SrcProperty::DaemonUri => PropertyValue::Text(Some(self.daemon_uri.clone())),
            SrcProperty::NodeSeed => PropertyValue::Text(Some(self.node_seed.clone())),
            SrcProperty::HttpPort => PropertyValue::UInt(self.http_port as u32),
            SrcProperty::HostName => PropertyValue::Text(Some(self.host_name.clone())),
            SrcProperty::Domain => PropertyValue::Text(Some(self.domain.clone())),
            SrcProperty::RegistrationUrl => PropertyValue::Text(Some(self.registration_url.clone())),
            SrcProperty::SystemUrl => PropertyValue::Text(Some(self.system_url.clone())),
            SrcProperty::Transport => PropertyValue::Transport(self.transport),
            SrcProperty::ReceiverName => PropertyValue::Text(Some(self.receiver_name.clone())),
            SrcProperty::MxlDomainId => PropertyValue::Text(Some(self.mxl_domain_id.clone())),
            SrcProperty::MxlDomainPath => PropertyValue::Text(Some(self.mxl_domain_path.clone())),
            SrcProperty::MxlFlowId => PropertyValue::Text(Some(self.mxl_flow_id.clone())),
            SrcProperty::AutoActivate => PropertyValue::Boolean(self.auto_activate),
            SrcProperty::Label => PropertyValue::Text(Some(self.label.clone())),
            SrcProperty::Description => PropertyValue::Text(Some(self.description.clone())),
            SrcProperty::TransportFile => PropertyValue::Text(Some(self.transport_file.clone())),
            SrcProperty::TransportFilePath => PropertyValue::Text(Some(self.transport_file_path.clone())),
            SrcProperty::Caps => PropertyValue::Caps(copy_caps(&self.caps)),
            SrcProperty::TransportCaps => PropertyValue::Caps(copy_caps(&self.transport_caps)),
            SrcProperty::TransportProperties => PropertyValue::Structure(copy_properties(&self.transport_properties)),
            SrcProperty::DepayProperties => PropertyValue::Structure(copy_properties(&self.depay_properties)),
            SrcProperty::ReceiverCapsMode => PropertyValue::CapsMode(self.receiver_caps_mode),
            SrcProperty::SourceIp => PropertyValue::Text(Some(self.source_ip.clone())),
            SrcProperty::InterfaceIp => PropertyValue::Text(Some(self.interface_ip.clone())),
            SrcProperty::MulticastIp => PropertyValue::Text(Some(self.multicast_ip.clone())),
            SrcProperty::DestinationPort => PropertyValue::UInt(self.destination_port as u32),
        }
    }
}

impl Default for Settings {
    fn default() -> (r: Self)
        ensures
            forall|p: SrcProperty| #[trigger]
                r.value_of(p) == default_value(p.kind(), p == SrcProperty::DaemonUri),
    {
        Settings {
            daemon_uri: default_uri(),
            node_seed: String::new(),
            http_port: 0,
            host_name: String::new(),
            domain: String::new(),
            registration_url: String::new(),
            system_url: String::new(),
            transport: Transport::Mxl,
            receiver_name: String::new(),
            mxl_domain_id: String::new(),
            mxl_domain_path: String::new(),
            mxl_flow_id: String::new(),
            auto_activate: false,
            label: String::new(),
            description: String::new(),
            transport_file: String::new(),
            transport_file_path: String::new(),
            caps: None,
            transport_caps: None,
            transport_properties: None,
            depay_properties: None,
            receiver_caps_mode: CapsMode::Auto,
            source_ip: String::new(),
            interface_ip: String::new(),
            multicast_ip: String::new(),
            destination_port: 0,
        }
    }
}

impl Settings {
    /// What the session is given of the settings.
    pub open spec fn reaches(self, r: CommonSettings) -> bool {
        &&& r.daemon_uri == self.daemon_uri
        &&& r.node == (NodeSettings {
                node_seed: self.node_seed,
                http_port: self.http_port,
                host_name: self.host_name,
                domain: self.domain,
                registration_url: self.registration_url,
                system_url: self.system_url,
            })
        &&& r.transport == self.transport
        &&& r.side == Side::Receiver
        &&& r.name == self.receiver_name
        &&& r.mxl_domain_id == self.mxl_domain_id
        &&& r.mxl_domain_path == self.mxl_domain_path
        &&& r.mxl_flow_id == self.mxl_flow_id
        &&& r.transport_file == self.transport_file
        &&& r.transport_file_path == self.transport_file_path
        &&& r.label == self.label
        &&& r.description == self.description
        &&& r.group_hint@.len() == 0
        &&& r.caps == self.caps
        &&& r.transport_caps == self.transport_caps
        &&& r.caps_mode == self.receiver_caps_mode
        &&& r.source_ip == self.source_ip
        &&& r.source_port == 0
        &&& r.destination_ip@.len() == 0
        &&& r.destination_port == self.destination_port
        &&& r.format_bit_rate == 0
        &&& r.transport_bit_rate == 0
        &&& r.interface_ip == self.interface_ip
        &&& r.multicast_ip == self.multicast_ip
        &&& r.auto_activate == self.auto_activate
    }

    /// The settings as the session takes them: the receiver's transport parameters in
    /// their own slots, the sender's left empty.
    pub fn into_common(self) -> (r: CommonSettings)
        ensures
            self.reaches(r),
            r.daemon_uri == self.daemon_uri,
            r.node == (NodeSettings {
                node_seed: self.node_seed,
                http_port: self.http_port,
                host_name: self.host_name,
                domain: self.domain,
                registration_url: self.registration_url,
                system_url: self.system_url,
            }),
            r.transport == self.transport,
            r.side == Side::Receiver,
            r.name == self.receiver_name,
            r.mxl_domain_id == self.mxl_domain_id,
            r.mxl_domain_path == self.mxl_domain_path,
            r.mxl_flow_id == self.mxl_flow_id,
            r.transport_file == self.transport_file,
            r.transport_file_path == self.transport_file_path,
            r.label == self.label,
            r.description == self.description,
            r.group_hint@.len() == 0,
            r.caps == self.caps,
            r.transport_caps == self.transport_caps,
            r.caps_mode == self.receiver_caps_mode,
            r.source_ip == self.source_ip,
            r.source_port == 0,
            r.destination_ip@.len() == 0,
            r.destination_port == self.destination_port,
            r.format_bit_rate == 0,
            r.transport_bit_rate == 0,
            r.interface_ip == self.interface_ip,
            r.multicast_ip == self.multicast_ip,
            r.auto_activate == self.auto_activate,
    {
        CommonSettings {
            daemon_uri: self.daemon_uri,
            node: NodeSettings {
                node_seed: self.node_seed,
                http_port: self.http_port,
                host_name: self.host_name,
                domain: self.domain,
                registration_url: self.registration_url,
                system_url: self.system_url,
            },
            transport: self.transport,
            side: Side::Receiver,
            name: self.receiver_name,
            mxl_domain_id: self.mxl_domain_id,
            mxl_domain_path: self.mxl_domain_path,
            mxl_flow_id: self.mxl_flow_id,
            transport_file: self.transport_file,
            transport_file_path: self.transport_file_path,
            label: self.label,
            description: self.description,
            group_hint: String::new(),
            caps: self.caps,
            transport_caps: self.transport_caps,
            caps_mode: self.receiver_caps_mode,
            source_ip: self.source_ip,
            source_port: 0,
            destination_ip: String::new(),
            destination_port: self.destination_port,
            format_bit_rate: 0,
            transport_bit_rate: 0,
            interface_ip: self.interface_ip,
            multicast_ip: self.multicast_ip,
            auto_activate: self.auto_activate,
        }
    }
}

/// What is set on a receiver reaches its session: each property is what the session finds in the
/// slot of that name, the side is the receiver's, and the slots of a sender stay empty.
pub proof fn properties_reach_the_session(s: Settings, r: CommonSettings)
    requires
        s.reaches(r),
    ensures
        s.value_of(SrcProperty::DaemonUri) == PropertyModel::Text(Some(r.daemon_uri@)),
        s.value_of(SrcProperty::NodeSeed) == PropertyModel::Text(Some(r.node.node_seed@)),
        s.value_of(SrcProperty::HttpPort) == PropertyModel::UInt(r.node.http_port as u32),
        s.value_of(SrcProperty::HostName) == PropertyModel::Text(Some(r.node.host_name@)),
        s.value_of(SrcProperty::Domain) == PropertyModel::Text(Some(r.node.domain@)),
        s.value_of(SrcProperty::RegistrationUrl) == PropertyModel::Text(Some(r.node.registration_url@)),
        s.value_of(SrcProperty::SystemUrl) == PropertyModel::Text(Some(r.node.system_url@)),
        s.value_of(SrcProperty::Transport) == PropertyModel::Transport(r.transport),
        s.value_of(SrcProperty::MxlDomainId) == PropertyModel::Text(Some(r.mxl_domain_id@)),
        s.value_of(SrcProperty::MxlDomainPath) == PropertyModel::Text(Some(r.mxl_domain_path@)),
        s.value_of(SrcProperty::MxlFlowId) == PropertyModel::Text(Some(r.mxl_flow_id@)),
        s.value_of(SrcProperty::AutoActivate) == PropertyModel::Boolean(r.auto_activate),
        s.value_of(SrcProperty::Label) == PropertyModel::Text(Some(r.label@)),
        s.value_of(SrcProperty::Description) == PropertyModel::Text(Some(r.description@)),
        s.value_of(SrcProperty::TransportFile) == PropertyModel::Text(Some(r.transport_file@)),
        s.value_of(SrcProperty::TransportFilePath) == PropertyModel::Text(Some(r.transport_file_path@)),
        s.value_of(SrcProperty::Caps) == PropertyModel::Caps(r.caps.deep_view()),
        s.value_of(SrcProperty::TransportCaps) == PropertyModel::Caps(r.transport_caps.deep_view()),
        s.value_of(SrcProperty::SourceIp) == PropertyModel::Text(Some(r.source_ip@)),
        s.value_of(SrcProperty::DestinationPort) == PropertyModel::UInt(r.destination_port as u32),
        s.value_of(SrcProperty::ReceiverName) == PropertyModel::Text(Some(r.name@)),
        s.value_of(SrcProperty::InterfaceIp) == PropertyModel::Text(Some(r.interface_ip@)),
        s.value_of(SrcProperty::MulticastIp) == PropertyModel::Text(Some(r.multicast_ip@)),
        s.value_of(SrcProperty::ReceiverCapsMode) == PropertyModel::CapsMode(r.caps_mode),
        r.side == Side::Receiver,
        r.destination_ip@.len() == 0,
        r.source_port == 0,
        r.group_hint@.len() == 0,
{
}

/// `p` says which daemon serves the node, or what the node is.
pub open spec fn of_the_node(p: SrcProperty) -> bool {
    p == SrcProperty::DaemonUri || p == SrcProperty::NodeSeed || p == SrcProperty::HttpPort || p
        == SrcProperty::HostName || p == SrcProperty::Domain || p == SrcProperty::RegistrationUrl || p
        == SrcProperty::SystemUrl
}

/// Whatever the settings hold fits what the property is declared to take, and every port that
/// there is can be set. What says which daemon serves the node, or what the node is, is not
/// changed once the session is open.
pub proof fn settings_fit_their_properties(s: Settings, p: SrcProperty, port: u16)
    ensures
        model_fits(s.value_of(p), p.kind()),
        p.kind() matches PropertyKind::UInt { max } ==> port <= max <= u16::MAX,
        of_the_node(p) ==> !p.mutable_ready(),
        p.mutable_ready() ==> !of_the_node(p) && p != SrcProperty::Caps && p
            != SrcProperty::TransportFile && p != SrcProperty::Transport,
{
}

} // verus!
