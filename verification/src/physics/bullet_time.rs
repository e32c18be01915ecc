//! Bullet time: the game slows down while a ship is charging a launch.

use vstd::prelude::*;

verus! {

/// How fast in-game time runs.
#[derive(Debug, Clone, Copy, PartialEq, Eq, Structural)]
pub enum TimeSpeed {
    /// Time runs at its normal speed.
    Normal,
    /// Time runs slowed down.
    Slow,
}

/// Time runs slow exactly while some ship is charging a launch.
/// `launching[i]` says whether ship `i` is charging a launch.
pub fn bullet_time_speed(launching: &Vec<bool>) -> (speed: TimeSpeed)
    ensures
        speed == (if exists|i: int| 0 <= i < launching@.len() && launching@[i] {
            TimeSpeed::Slow
        } else {
            TimeSpeed::Normal
        }),
{
    let mut i: usize = 0;
    while i < launching.len()
        invariant
            i <= launching@.len(),
            forall|j: int| 0 <= j < i ==> !launching@[j],
        decreases launching@.len() - i,
    {
        if launching[i] {
            assert(launching@[i as int]);
            return TimeSpeed::Slow;
        }
        i = i + 1;
    }
    TimeSpeed::Normal
}

} // verus!
