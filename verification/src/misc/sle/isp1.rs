//! ISP1 authentication credentials carried in SLE invocations.
use vstd::prelude::*;

verus! {

/// SLE credentials: the time of the invocation, a random number and the
/// hash that the initiator computes over them and its password.
#[derive(Debug, Clone, Copy, PartialEq, Eq)]
pub struct Credentials {
    /// CDS time of the invocation (8 bytes).
    pub time: [u8; 8],
    /// Random number.
    pub random: u32,
    /// Protected hash (SHA-1, 20 bytes).
    pub hash: [u8; 20],
}

/// What a PDU carries of credentials: the time octets, the random number
/// and the hash octets.
pub open spec fn cred_view(c: Option<Credentials>) -> Option<(Seq<u8>, u32, Seq<u8>)> {
    match c {
        None => None,
        Some(c) => Some((c.time@, c.random, c.hash@)),
    }
}

} // verus!
