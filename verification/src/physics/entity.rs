//! Identities of entities.

use vstd::prelude::*;

verus! {

/// The identity of an entity of the game world, as the bits the engine gives it.
#[derive(Debug, Clone, Copy, PartialEq, Eq, Structural, Hash)]
pub struct EntityId(pub u64);

} // verus!
