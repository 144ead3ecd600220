//! IS-08 channel mapping: pad snapshots, the frozen topology, active maps and the
//! mix matrices that apply them.

pub mod active_map;
pub mod matrix;
pub mod request;
pub mod types;
