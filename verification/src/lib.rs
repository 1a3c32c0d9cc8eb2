//! Route-synchronization engine for a mesh-networking daemon: derives
//! BGP peer descriptors from per-peer properties, renders the routing
//! daemon's configuration from a zone/peer roster, and coordinates
//! serialized, watermark-guarded update cycles with defer-and-retry on
//! roster contention.

pub mod addr;
pub mod bird;
pub mod coord;
pub mod render;
pub mod text;
