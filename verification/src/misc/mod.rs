//! Mission-independent formats: CCSDS time codes and Space Link Extension
//! PDUs.

/// CCSDS Space Link Extension (SLE) PDUs.
pub mod sle;
/// CCSDS time code formats.
pub mod time;
