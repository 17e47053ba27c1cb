use vstd::prelude::*;

verus! {

/// The bits of an entity of the UI tree (what bevy's `Entity::to_bits` gives).
#[derive(Clone, Copy, Debug, PartialEq, Eq, Structural, Hash)]
pub struct Entity(pub u64);

/// The bits of bevy's `Entity::PLACEHOLDER`: index `u32::MAX`, generation 0.
pub const PLACEHOLDER_BITS: u64 = 0xFFFF_FFFFu64;

impl Entity {
    /// The entity that stands for "not spawned yet".
    pub fn placeholder() -> (e: Entity)
        ensures
            e.0 == PLACEHOLDER_BITS,
    {
        Entity(PLACEHOLDER_BITS)
    }

    /// The raw bits of the entity.
    pub fn to_bits(&self) -> (bits: u64)
        ensures
            bits == self.0,
    {
        self.0
    }
}

} // verus!
