//! SpaceCoMP application messages.

/// Op codes, roles, the message header and role assignment payloads.
pub mod packet;
