//! Settings that sender and receiver elements share, and what an activation asks for.

use crate::caps::{copy_fields, Caps, Field, FieldModel};
use crate::types::{CapsMode, FlowFormat, Transport};
use vstd::prelude::*;

verus! {

/// Which side of a flow a resource is on.
#[derive(Debug, Clone, Copy, PartialEq, Eq, Structural)]
pub enum Side {
    Sender,
    Receiver,
}

/// A named set of properties to set on an inner element.
#[derive(Debug)]
pub struct Properties {
    pub name: String,
    pub fields: Vec<Field>,
}

pub struct PropertiesModel {
    pub name: Seq<char>,
    pub fields: Seq<(Seq<char>, FieldModel)>,
}

impl DeepView for Properties {
    type V = PropertiesModel;

    open spec fn deep_view(&self) -> PropertiesModel {
        PropertiesModel { name: self.name@, fields: self.fields.deep_view() }
    }
}

impl Properties {
    pub fn copy(&self) -> (r: Properties)
        ensures
            r.deep_view() == self.deep_view(),
    {
        Properties { name: self.name.clone(), fields: copy_fields(self.fields.as_slice()) }
    }
}

/// Settings of the NMOS node that a session joins.
#[derive(Debug)]
pub struct NodeSettings {
    pub node_seed: String,
    pub http_port: u16,
    pub host_name: String,
    pub domain: String,
    pub registration_url: String,
    pub system_url: String,
}

impl Default for NodeSettings {
    fn default() -> (r: Self)
        ensures
            r.node_seed@.len() == 0,
            r.http_port == 0,
            r.host_name@.len() == 0,
            r.domain@.len() == 0,
            r.registration_url@.len() == 0,
            r.system_url@.len() == 0,
    {
        NodeSettings {
            node_seed: String::new(),
            http_port: 0,
            host_name: String::new(),
            domain: String::new(),
            registration_url: String::new(),
            system_url: String::new(),
        }
    }
}

/// Settings of either side, as the session takes them. Empty texts and zeros stand for
/// what was not set.
#[derive(Debug)]
pub struct CommonSettings {
    pub daemon_uri: String,
    pub node: NodeSettings,
    pub transport: Transport,
    pub side: Side,
    pub name: String,
    pub mxl_domain_id: String,
    pub mxl_domain_path: String,
    pub mxl_flow_id: String,
    pub transport_file: String,
    pub transport_file_path: String,
    pub label: String,
    pub description: String,
    pub group_hint: String,
    pub caps: Option<Caps>,
    pub transport_caps: Option<Caps>,
    pub caps_mode: CapsMode,
    pub source_ip: String,
    pub source_port: u16,
    pub destination_ip: String,
    pub destination_port: u16,
    pub format_bit_rate: u64,
    pub transport_bit_rate: u64,
    pub interface_ip: String,
    pub multicast_ip: String,
    pub auto_activate: bool,
}

/// Which `udpsrc` / `udpsink` implementation carries RTP.
#[derive(Debug, Clone, Copy, PartialEq, Eq, Structural)]
pub enum UdpVariant {
    V1,
    V2,
}

/// One leg of an RTP flow.
#[derive(Debug)]
pub struct UdpLeg {
    pub destination_ip: String,
    pub destination_port: u16,
    pub interface_ip: Option<String>,
    pub source_ip: Option<String>,
    pub source_port: Option<u16>,
}

/// What a session description says of an RTP flow.
#[derive(Debug)]
pub struct UdpMedia {
    pub format: FlowFormat,
    pub primary: UdpLeg,
    pub secondary: Option<UdpLeg>,
    pub rtp_caps: Caps,
    pub raw_caps: Caps,
}

/// The transport that an inner chain is built for.
#[derive(Debug)]
pub enum TransportConfig {
    Mxl {
        domain_path: String,
        flow_id: String,
        format: FlowFormat,
        transport_file: Option<String>,
    },
    Udp { variant: UdpVariant, media: UdpMedia, transport_file: Option<String> },
    NvDsUdp { media: UdpMedia, transport_file: Option<String> },
}

impl TransportConfig {
    pub open spec fn file(&self) -> Option<String> {
        match self {
            TransportConfig::Mxl { transport_file, .. } => *transport_file,
            TransportConfig::Udp { transport_file, .. } => *transport_file,
            TransportConfig::NvDsUdp { transport_file, .. } => *transport_file,
        }
    }

    /// The transport file that the configuration came from.
    pub fn transport_file(&self) -> (r: Option<&str>)
        ensures
            match r {
                Some(text) => self.file() matches Some(file) && file@ == text@,
                None => self.file() is None,
            },
    {
        let file = match self {
            TransportConfig::Mxl { transport_file, .. } => transport_file,
            TransportConfig::Udp { transport_file, .. } => transport_file,
            TransportConfig::NvDsUdp { transport_file, .. } => transport_file,
        };
        match file {
            Some(text) => Some(text.as_str()),
            None => None,
        }
    }
}

/// Why an element keeps a fake chain.
#[derive(Debug, Clone, Copy, PartialEq, Eq, Structural)]
pub enum FakeKind {
    NotActive,
    SideMismatch,
    Incomplete,
}

/// The inner chain that an element should hold.
#[derive(Debug)]
pub enum InnerConfig {
    Real(TransportConfig),
    Fake { kind: FakeKind, detail: String },
}

/// What an activation is answered with once it has been carried out.
#[derive(Debug)]
pub enum ActivationAck {
    Success,
    Failure { reason: String },
}

/// What an activation asks an element to do, and to answer.
#[derive(Debug)]
pub struct ActivationPlan {
    pub inner: InnerConfig,
    pub ack: ActivationAck,
}

} // verus!
