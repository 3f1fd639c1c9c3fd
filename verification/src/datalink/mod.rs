//! The CCSDS data link layer: transfer frames, link channels, link
//! security and hop-by-hop reliability.

pub mod framing;
pub mod spp;
pub mod link;
pub mod reliability;
pub mod security;
