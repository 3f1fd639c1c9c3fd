//! Network layer definitions shared with the data link layer.

pub mod spp;
