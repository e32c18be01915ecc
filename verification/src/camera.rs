//! The dynamic camera: fixed, or following the one leader.

use vstd::prelude::*;

verus! {

/// States that the dynamic camera can be in with respect to movement
#[derive(Debug, Clone, Copy, PartialEq, Eq, Structural)]
pub enum DynamicCameraMode {
    /// The camera is still and not moving
    Fixed,
    /// If there is one entity with a leader marker, it will ensure that
    /// is always exactly in the center of the screen.
    /// If there is no such entity, or for some reason multiple, nothing will happen
    Follow,
}

/// Where the camera moves to: the position of the leader when following exactly one.
pub fn camera_target<Pos: Copy>(mode: DynamicCameraMode, leaders: &Vec<Pos>) -> (r: Option<Pos>)
    ensures
        r == (if mode == DynamicCameraMode::Follow && leaders@.len() == 1 {
            Some(leaders@[0])
        } else {
            None
        }),
{
    match mode {
        DynamicCameraMode::Fixed => None,
        DynamicCameraMode::Follow => {
            if leaders.len() == 1 {
                Some(leaders[0])
            } else {
                None
            }
        },
    }
}

} // verus!
