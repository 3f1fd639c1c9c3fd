//! Space Data Link Protocol frame definitions (TC, TM, AOS, Proximity-1).

pub mod aos;
pub mod proximity1;
pub mod tc;
pub mod tm;
