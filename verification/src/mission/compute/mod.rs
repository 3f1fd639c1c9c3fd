//! SpaceCoMP command packets.

/// Op codes, roles and role assignment payloads.
pub mod packet;
