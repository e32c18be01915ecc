//! A small example state machine of animations.

use vstd::prelude::*;

use crate::animation::animation_manager::AnimationStateMachine;

verus! {

/// The example machine: flying, falling, or standing still.
#[derive(Debug, Copy, Clone, PartialEq, Eq, Structural)]
pub enum AnimationLenny {
    Fly,
    Fall,
    Stable,
}

impl AnimationStateMachine for AnimationLenny {
    /// The first state of the machine is where it starts.
    open spec fn spec_initial() -> Self {
        AnimationLenny::Fly
    }

    fn initial() -> (r: Self) {
        AnimationLenny::Fly
    }

    fn same_state(&self, other: &Self) -> (r: bool) {
        *self == *other
    }
}

} // verus!
