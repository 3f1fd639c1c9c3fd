//! Link channels that compose a frame format with a coding pipeline.

/// Asymmetric link combining separate sender and receiver halves.
pub mod asymmetric;
/// Frame link channel: frame writer/reader with a coding pipeline.
pub mod channel;
/// Frame link channel with link security on the way out.
pub mod framed;
