//! How the frames of an animated body advance, and what happens when the last frame ends.

use vstd::prelude::*;

use crate::animation::animation_manager::{
    AnimationManager, AnimationStateMachine, MutableAnimationManagerActions, spec_reset, spec_set,
};
use crate::change::ChangeTracked;

verus! {

/// What a state does once the animation of its first body finishes.
#[derive(Debug, Clone, Copy, PartialEq, Eq, Structural)]
pub enum AnimationNextState<NextType, Time> {
    /// Loop the animation.
    Loop,
    /// Move to another state.
    Next(NextType),
    /// Hide the entity, then let it die after the given time.
    HideThenDie(Time),
}

/// What the body at position `ix` of a state does once its animation ends: only the first
/// body carries the state's next step; every other body loops.
pub fn next_for_body<NextType, Time>(ix: usize, next: AnimationNextState<NextType, Time>) -> (r:
    AnimationNextState<NextType, Time>)
    ensures
        r == (if ix == 0 { next } else { AnimationNextState::Loop }),
{
    if ix == 0 {
        next
    } else {
        AnimationNextState::Loop
    }
}

/// What a body does when its current frame has been shown long enough.
#[derive(Debug, Clone, Copy, PartialEq, Eq, Structural)]
pub enum FrameStep<NextType, Time> {
    /// Show the given frame.
    Show(u32),
    /// A single frame animation: nothing to do.
    Hold,
    /// The animation finished: move the manager to this state.
    Transition(NextType),
    /// The animation finished: hide the entity and let it die after the given time.
    HideThenDie(Time),
}

/// The step taken by a body showing frame `ix` of `length` frames.
pub open spec fn spec_frame_step<NextType, Time>(
    ix: u32,
    length: u32,
    next: AnimationNextState<NextType, Time>,
) -> FrameStep<NextType, Time> {
    if ix + 1 < length {
        FrameStep::Show((ix + 1) as u32)
    } else {
        match next {
            AnimationNextState::Loop => if length <= 1 {
                FrameStep::Hold
            } else {
                FrameStep::Show(0)
            },
            AnimationNextState::Next(state) => FrameStep::Transition(state),
            AnimationNextState::HideThenDie(time) => FrameStep::HideThenDie(time),
        }
    }
}

/// Decides the step of a body whose current frame has been shown for its full time:
/// the next frame while there is one; else loop, hold, change state, or hide and die.
pub fn advance_frame<NextType, Time>(
    ix: u32,
    length: u32,
    next: AnimationNextState<NextType, Time>,
) -> (r: FrameStep<NextType, Time>)
    requires
        ix < u32::MAX,
    ensures
        r == spec_frame_step(ix, length, next),
{
    if ix + 1 < length {
        FrameStep::Show(ix + 1)
    } else {
        match next {
            AnimationNextState::Loop => {
                if length <= 1 {
                    FrameStep::Hold
                } else {
                    FrameStep::Show(0)
                }
            },
            AnimationNextState::Next(state) => FrameStep::Transition(state),
            AnimationNextState::HideThenDie(time) => FrameStep::HideThenDie(time),
        }
    }
}

/// Applies the end of an animation to its manager. A transition resets the state (so the
/// new state's bodies are made even when the state is the same); hiding sets `hidden`.
/// Returns the dying time to give the entity, when it has to start dying and is not
/// dying already.
pub fn apply_frame_step<StateMachine: AnimationStateMachine, Time>(
    manager: &mut ChangeTracked<AnimationManager<StateMachine>>,
    step: FrameStep<StateMachine, Time>,
    already_dying: bool,
) -> (dying: Option<Time>)
    ensures
        match step {
            FrameStep::Transition(state) => {
                &&& *final(manager) == spec_reset(AnimationManager { state, ..old(manager).value })
                &&& dying is None
            },
            FrameStep::HideThenDie(time) => {
                &&& *final(manager) == spec_set(
                    *old(manager),
                    AnimationManager { hidden: true, ..old(manager).value },
                    old(manager).value.hidden,
                )
                &&& dying == (if already_dying { None } else { Some(time) })
            },
            _ => {
                &&& *final(manager) == *old(manager)
                &&& dying is None
            },
        },
{
    match step {
        FrameStep::Transition(state) => {
            manager.reset_state(state);
            None
        },
        FrameStep::HideThenDie(time) => {
            manager.set_hidden(true);
            if already_dying {
                None
            } else {
                Some(time)
            }
        },
        _ => None,
    }
}

/// Frames stay in range: a body showing a frame of an animation with frames shows a frame
/// of it after the step, and only the last frame of an animation ends it.
pub proof fn lemma_frames_stay_in_range<NextType, Time>(
    ix: u32,
    length: u32,
    next: AnimationNextState<NextType, Time>,
)
    requires
        ix < length,
    ensures
        spec_frame_step(ix, length, next) matches FrameStep::Show(n) ==> n < length,
        (spec_frame_step(ix, length, next) is Transition
            || spec_frame_step(ix, length, next) is HideThenDie) ==> ix + 1 == length,
        ix + 1 < length ==> spec_frame_step(ix, length, next) == FrameStep::<NextType, Time>::Show(
            (ix + 1) as u32,
        ),
{
}

} // verus!
