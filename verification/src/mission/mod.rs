//! Mission-level protocols: ColonyOS messages and SpaceCoMP MapReduce
//! command packets.

/// ColonyOS executor messages.
pub mod colonies;
/// SpaceCoMP command packets carried in SRSPP transport packets.
pub mod compute;
/// SpaceCoMP application messages.
pub mod spacecomp;
