//! The channel-mapping element: its settings and pads, how its topology is fixed, and the
//! graph that carries out the mapping.

pub mod building;
pub mod caps;
pub mod fixation;
pub mod graph;
pub mod pads;
pub mod settings;
pub mod wired;
