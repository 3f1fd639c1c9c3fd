//! ColonyOS executor protocol over space packets.

/// Message op codes and the length-value argument encoding.
pub mod messages;
/// What an executor decides on an assignment reply.
pub mod executor;
