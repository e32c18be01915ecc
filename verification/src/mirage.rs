//! Mirages: the copies of an entity drawn at the wrapped places of the room.

use vstd::prelude::*;

use crate::math::{IVec2, UVec2, spec_wrap_offsets, wrap_offsets};
use crate::state::room::RoomState;

verus! {

/// Draws copies of an animated entity at these offsets.
#[derive(Debug, Clone)]
pub struct MirageAnimationManager {
    pub offsets: Vec<IVec2>,
}

impl MirageAnimationManager {
    /// Copies at the wrapped places of the room.
    pub fn room_offsets(room_state: &RoomState) -> (r: Self)
        ensures
            r.offsets@ == spec_wrap_offsets(room_state.room_size),
    {
        MirageAnimationManager { offsets: room_state.mirage_offsets() }
    }

    /// Copies at the wrapped places of a space of the given size.
    pub fn wrap_offsets(wrap: UVec2) -> (r: Self)
        ensures
            r.offsets@ == spec_wrap_offsets(wrap),
    {
        MirageAnimationManager { offsets: wrap_offsets(wrap) }
    }
}

/// Draws copies of a textured entity at these offsets.
#[derive(Debug, Clone)]
pub struct MirageTextureManager {
    pub offsets: Vec<IVec2>,
}

impl MirageTextureManager {
    /// Copies at the wrapped places of the room.
    pub fn room_offsets(room_state: &RoomState) -> (r: Self)
        ensures
            r.offsets@ == spec_wrap_offsets(room_state.room_size),
    {
        MirageTextureManager { offsets: room_state.mirage_offsets() }
    }
}

} // verus!
