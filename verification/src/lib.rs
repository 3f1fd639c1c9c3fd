//! CCSDS space communication protocols: time codes, data link framing,
//! link security and hop-by-hop reliability, with verified contracts.

pub mod ids;
pub mod containers;
pub mod utils;
pub mod text;
pub mod datalink;
pub mod misc;
pub mod mission;
pub mod network;
