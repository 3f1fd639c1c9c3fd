//! Protocol identifier newtypes.
use vstd::prelude::*;

verus! {

/// Spacecraft Identifier.
#[derive(Copy, Clone, Eq, PartialEq, Hash, Debug, Default, Structural)]
pub struct Scid(pub u32);

impl Scid {
    /// Creates a new spacecraft ID.
    pub fn new(id: u32) -> (s: Self)
        ensures
            s.0 == id,
    {
        Scid(id)
    }

    /// Returns the raw value.
    pub fn get(self) -> (v: u32)
        ensures
            v == self.0,
    {
        self.0
    }
}

/// Virtual Channel Identifier.
#[derive(Copy, Clone, Eq, PartialEq, Hash, Debug, Default, Structural)]
pub struct Vcid(pub u32);

impl Vcid {
    /// Creates a new virtual channel ID.
    pub fn new(id: u32) -> (v: Self)
        ensures
            v.0 == id,
    {
        Vcid(id)
    }

    /// Returns the raw value.
    pub fn get(self) -> (v: u32)
        ensures
            v == self.0,
    {
        self.0
    }
}

} // verus!
