//! Identifiers of engine objects.

use vstd::prelude::*;

verus! {

/// The identifier of an object in the world. Two entities are the same object
/// exactly when their bits are equal.
#[derive(Debug, Clone, Copy, PartialEq, Eq, Hash, Structural)]
pub struct Entity(pub u64);

impl Entity {
    /// The entity with the given bits.
    pub fn from_bits(bits: u64) -> (entity: Entity)
        ensures
            entity == Entity(bits),
    {
        Entity(bits)
    }

    /// The bits that identify this entity.
    pub fn to_bits(self) -> (bits: u64)
        ensures
            bits == self.0,
    {
        self.0
    }
}

} // verus!
