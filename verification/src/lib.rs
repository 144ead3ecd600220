//! Verified core of the NMOS GStreamer elements: the aligned A/V test signal,
//! SMPTE 291 ancillary data, and the rules by which NMOS senders, receivers and
//! channel mappings are configured and activated.

pub mod activation;
pub mod analyze;
pub mod ancillary;
pub mod audiosrc;
pub mod caps;
pub mod captions;
pub mod chain;
pub mod channel_mapping;
pub mod channel_mapping_session;
pub mod clock_wait;
pub mod daemon;
pub mod domain;
pub mod essence_caps;
pub mod flow_def;
pub mod fraction;
pub mod iface;
pub mod inner;
pub mod json;
pub mod network_services;
pub mod nmosaudiochannelmap;
pub mod nmossink;
pub mod nmossrc;
pub mod nvdsudp;
pub mod property;
pub mod rebuild;
pub mod sdp;
pub mod session;
pub mod signal;
pub mod state_change;
pub mod text;
pub mod types;
pub mod videosrc;
