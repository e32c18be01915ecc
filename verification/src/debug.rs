//! Debug settings: whether the physics bounds are drawn.

use vstd::prelude::*;

use crate::state::AppMode;

verus! {

#[derive(Debug, Clone, Copy, Eq, PartialEq, Structural, Hash)]
pub struct DebugState {
    pub show_physics_bounds: bool,
}

impl Default for DebugState {
    fn default() -> (r: DebugState)
        ensures
            r.show_physics_bounds,
    {
        DebugState { show_physics_bounds: true }
    }
}

/// Present exactly when physics bounds are to be drawn.
#[derive(Debug, Clone, Copy, Eq, PartialEq, Structural, Hash)]
pub struct ShowPhysicsBounds;

impl ShowPhysicsBounds {
    /// Bounds are drawn in development builds whose debug state asks for them.
    pub fn compute(app_mode: AppMode, debug_state: DebugState) -> (r: Option<ShowPhysicsBounds>)
        ensures
            r is Some <==> (app_mode == AppMode::Dev && debug_state.show_physics_bounds),
    {
        if let AppMode::Prod = app_mode {
            return None;
        }
        if debug_state.show_physics_bounds {
            Some(ShowPhysicsBounds)
        } else {
            None
        }
    }
}

/// The debug state to move to, if the one edited interactively differs from the current one.
pub fn debug_state_update(interactive: DebugState, current: DebugState) -> (r: Option<DebugState>)
    ensures
        r == (if interactive != current { Some(interactive) } else { None }),
{
    if interactive.show_physics_bounds != current.show_physics_bounds {
        Some(interactive)
    } else {
        None
    }
}

} // verus!
