//! CCSDS Communications Operation Procedure-1 (COP-1).
//!
//! - **FOP-1** (sender): sequences AD frames, retransmits on NACK/timeout.
//! - **FARM-1** (receiver): validates sequence numbers, generates CLCWs.
//! - **CLCW**: 32-bit feedback word carried in TM/AOS frames.

pub mod clcw;
pub mod farm;
pub mod fop;
