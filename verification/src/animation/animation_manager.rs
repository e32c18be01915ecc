//! The animation manager of an entity and the actions that mutate it.

use vstd::prelude::*;

use crate::change::ChangeTracked;

verus! {

/// A finite state machine of animations. Every state names the bodies that are shown
/// while it is active; the machine starts in its initial state.
pub trait AnimationStateMachine: Sized + Copy {
    spec fn spec_initial() -> Self;

    /// The state a new manager starts in.
    fn initial() -> (r: Self)
        ensures
            r == Self::spec_initial(),
    ;

    /// Whether two states are the same state.
    fn same_state(&self, other: &Self) -> (r: bool)
        ensures
            r == (*self == *other),
    ;
}

/// What an animated entity shows: its state, whether it is hidden and how it is flipped.
#[derive(Debug, Clone, Copy)]
pub struct AnimationManager<StateMachine> {
    pub state: StateMachine,
    pub hidden: bool,
    pub flip_x: bool,
    pub flip_y: bool,
}

impl<StateMachine: AnimationStateMachine> AnimationManager<StateMachine> {
    /// A visible, unflipped manager in the initial state of its machine.
    pub fn new() -> (r: Self)
        ensures
            r.state == StateMachine::spec_initial(),
            !r.hidden,
            !r.flip_x,
            !r.flip_y,
    {
        AnimationManager { state: StateMachine::initial(), hidden: false, flip_x: false, flip_y: false }
    }

    pub fn get_state(&self) -> (r: StateMachine)
        ensures
            r == self.state,
    {
        self.state
    }

    pub fn with_state(self, state: StateMachine) -> (r: Self)
        ensures
            r == (AnimationManager { state, ..self }),
    {
        AnimationManager { state, ..self }
    }

    pub fn get_hidden(&self) -> (r: bool)
        ensures
            r == self.hidden,
    {
        self.hidden
    }

    pub fn with_hidden(self, hidden: bool) -> (r: Self)
        ensures
            r == (AnimationManager { hidden, ..self }),
    {
        AnimationManager { hidden, ..self }
    }

    pub fn get_flip_x(&self) -> (r: bool)
        ensures
            r == self.flip_x,
    {
        self.flip_x
    }

    pub fn with_flip_x(self, flip_x: bool) -> (r: Self)
        ensures
            r == (AnimationManager { flip_x, ..self }),
    {
        AnimationManager { flip_x, ..self }
    }

    pub fn get_flip_y(&self) -> (r: bool)
        ensures
            r == self.flip_y,
    {
        self.flip_y
    }

    pub fn with_flip_y(self, flip_y: bool) -> (r: Self)
        ensures
            r == (AnimationManager { flip_y, ..self }),
    {
        AnimationManager { flip_y, ..self }
    }
}

/// The result of setting a value: untouched when it already holds the value,
/// else written (and so marked changed).
pub open spec fn spec_set<T>(old: ChangeTracked<T>, written: T, same: bool) -> ChangeTracked<T> {
    if same {
        old
    } else {
        ChangeTracked { value: written, changed: true }
    }
}

/// The result of resetting a value: always written, and so marked changed.
pub open spec fn spec_reset<T>(written: T) -> ChangeTracked<T> {
    ChangeTracked { value: written, changed: true }
}

pub trait MutableAnimationManagerActions<StateMachine: AnimationStateMachine> {
    /// Sets the currently value of the animation manager state, doing nothing if the value is the same
    fn set_state(&mut self, state: StateMachine);
    /// Resets the currently value of the animation manager state, triggering change even if the value is the same
    fn reset_state(&mut self, state: StateMachine);
    /// Sets the currently value of the animation manager hidden, doing nothing if the value is the same
    fn set_hidden(&mut self, hidden: bool);
    /// Resets the currently value of the animation manager hidden, triggering change even if the value is the same
    fn reset_hidden(&mut self, hidden: bool);
    /// Sets the currently value of the animation manager flip_x, doing nothing if the value is the same
    fn set_flip_x(&mut self, flip_x: bool);
    /// Resets the currently value of the animation manager flip_x, triggering change even if the value is the same
    fn reset_flip_x(&mut self, flip_x: bool);
    /// Sets the currently value of the animation manager flip_y, doing nothing if the value is the same
    fn set_flip_y(&mut self, flip_y: bool);
    /// Resets the currently value of the animation manager flip_y, triggering change even if the value is the same
    fn reset_flip_y(&mut self, flip_y: bool);
}

impl<StateMachine: AnimationStateMachine> MutableAnimationManagerActions<StateMachine> for ChangeTracked<
    AnimationManager<StateMachine>,
> {
    fn set_state(&mut self, state: StateMachine)
        ensures
            *final(self) == spec_set(
                *old(self),
                AnimationManager { state, ..old(self).value },
                state == old(self).value.state,
            ),
    {
        if state.same_state(&self.value.state) {
            return;
        }
        self.value.state = state;
        self.changed = true;
    }

    fn reset_state(&mut self, state: StateMachine)
        ensures
            *final(self) == spec_reset(AnimationManager { state, ..old(self).value }),
    {
        self.value.state = state;
        self.changed = true;
    }

    fn set_hidden(&mut self, hidden: bool)
        ensures
            *final(self) == spec_set(
                *old(self),
                AnimationManager { hidden, ..old(self).value },
                hidden == old(self).value.hidden,
            ),
    {
        if hidden == self.value.hidden {
            return;
        }
        self.value.hidden = hidden;
        self.changed = true;
    }

    fn reset_hidden(&mut self, hidden: bool)
        ensures
            *final(self) == spec_reset(AnimationManager { hidden, ..old(self).value }),
    {
        self.value.hidden = hidden;
        self.changed = true;
    }

    fn set_flip_x(&mut self, flip_x: bool)
        ensures
            *final(self) == spec_set(
                *old(self),
                AnimationManager { flip_x, ..old(self).value },
                flip_x == old(self).value.flip_x,
            ),
    {
        if flip_x == self.value.flip_x {
            return;
        }
        self.value.flip_x = flip_x;
        self.changed = true;
    }

    fn reset_flip_x(&mut self, flip_x: bool)
        ensures
            *final(self) == spec_reset(AnimationManager { flip_x, ..old(self).value }),
    {
        self.value.flip_x = flip_x;
        self.changed = true;
    }

    fn set_flip_y(&mut self, flip_y: bool)
        ensures
            *final(self) == spec_set(
                *old(self),
                AnimationManager { flip_y, ..old(self).value },
                flip_y == old(self).value.flip_y,
            ),
    {
        if flip_y == self.value.flip_y {
            return;
        }
        self.value.flip_y = flip_y;
        self.changed = true;
    }

    fn reset_flip_y(&mut self, flip_y: bool)
        ensures
            *final(self) == spec_reset(AnimationManager { flip_y, ..old(self).value }),
    {
        self.value.flip_y = flip_y;
        self.changed = true;
    }
}


/// Setting a state makes it the manager's state and leaves the rest alone; setting the
/// state it already has writes nothing and so triggers no change; setting it again after
/// that changes nothing more; resetting always triggers a change.
pub proof fn lemma_set_state_laws<StateMachine>(
    tracked_manager: ChangeTracked<AnimationManager<StateMachine>>,
    state: StateMachine,
)
    ensures
        ({
            let once = spec_set(
                tracked_manager,
                AnimationManager { state, ..tracked_manager.value },
                state == tracked_manager.value.state,
            );
            let twice = spec_set(
                once,
                AnimationManager { state, ..once.value },
                state == once.value.state,
            );
            &&& once.value.state == state
            &&& once.value.hidden == tracked_manager.value.hidden
            &&& once.value.flip_x == tracked_manager.value.flip_x
            &&& once.value.flip_y == tracked_manager.value.flip_y
            &&& (state == tracked_manager.value.state ==> once == tracked_manager)
            &&& once.changed == (tracked_manager.changed || state != tracked_manager.value.state)
            &&& twice == once
        }),
        spec_reset(AnimationManager { state, ..tracked_manager.value }).changed,
        spec_reset(AnimationManager { state, ..tracked_manager.value }).value.state == state,
{
}

} // verus!
