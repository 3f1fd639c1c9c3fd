//! CCSDS Space Link Extension (SLE) protocol.
//!
//! SLE provides a standardized interface for spacecraft
//! communication through ground station antennas. It runs over
//! TCP using ISP1 framing with ASN.1 BER-encoded PDUs.
//!
//! This module holds the Forward CLTU service PDUs, the shared SLE types
//! and the BER subset that encodes them. TCP I/O is the caller's.

/// Minimal ASN.1 BER encoder/decoder.
pub mod ber;
/// CLTU (Forward Command) service PDUs.
pub mod cltu;
/// ISP1 authentication credentials.
pub mod isp1;
/// Shared SLE types.
pub mod types;

pub use cltu::CltuBindInvocation;
pub use cltu::CltuStartInvocation;
pub use cltu::CltuStatus;
pub use cltu::CltuTransferDataInvocation;
pub use cltu::CltuTransferDataReturn;
pub use isp1::Credentials;
pub use types::BindResult;
pub use types::ServiceInstanceId;
pub use types::ServiceType;
pub use types::SleError;
pub use types::Time;
