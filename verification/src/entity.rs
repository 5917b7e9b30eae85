use vstd::prelude::*;

verus! {

/// Entity identifier with a generation counter, so that a stale handle to a
/// despawned entity can be detected instead of silently naming its successor.
#[derive(Debug, Clone, Copy, PartialEq, Eq, Structural, Hash)]
pub struct Entity {
    /// Index of the entity's slot in the allocator.
    pub index: u32,
    /// Generation of the slot at the time this entity was issued.
    pub generation: u32,
}

impl Entity {
    /// Create a new entity handle with the given index and generation.
    pub fn new(index: u32, generation: u32) -> (e: Entity)
        ensures
            e.index == index,
            e.generation == generation,
    {
        Entity { index, generation }
    }
}

} // verus!
