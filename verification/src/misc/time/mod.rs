//! CCSDS Time Code Formats (CCSDS 301.0-B-4)
//!
//! Implements two CCSDS time formats:
//! - **CUC** (Unsegmented Code): binary seconds + fractional seconds
//! - **CDS** (Day Segmented): day count + milliseconds of day

/// CCSDS Day Segmented (CDS) time format.
pub mod cds;

pub use cds::CdsTime;
/// CCSDS Unsegmented Code (CUC) time format.
pub mod cuc;

pub use cuc::CucTime;
