//! Patrols: an entity watches a region and locks on to targets it sees.

use vstd::prelude::*;

use crate::physics::entity::EntityId;

verus! {

/// What a patrol does this frame.
#[derive(Debug, Clone, Copy, PartialEq, Eq, Structural)]
pub enum PatrolStep {
    /// Nothing is seen: the patrol becomes inactive.
    Deactivate,
    /// The current target is still seen: keep watching it (its seen time grows).
    KeepTarget,
    /// The current target is lost but others are seen: switch to this one, seen for no time yet.
    Retarget(EntityId),
    /// The patrol was not active and sees something: lock on to this one.
    Activate(EntityId),
}

/// The targets that are in vision, in order: `candidates[i]` is a target and whether the
/// vision overlaps its trigger.
pub open spec fn spec_in_vision(candidates: Seq<(EntityId, bool)>) -> Seq<EntityId>
    decreases candidates.len(),
{
    if candidates.len() == 0 {
        Seq::empty()
    } else {
        let prev = spec_in_vision(candidates.drop_last());
        if candidates.last().1 {
            prev.push(candidates.last().0)
        } else {
            prev
        }
    }
}

/// Finds all the targets in vision, keeping their order.
pub fn targets_in_vision(candidates: &Vec<(EntityId, bool)>) -> (seen: Vec<EntityId>)
    ensures
        seen@ == spec_in_vision(candidates@),
{
    let mut seen: Vec<EntityId> = Vec::new();
    let mut i: usize = 0;
    while i < candidates.len()
        invariant
            i <= candidates@.len(),
            seen@ == spec_in_vision(candidates@.take(i as int)),
        decreases candidates@.len() - i,
    {
        proof {
            assert(candidates@.take(i + 1).drop_last() =~= candidates@.take(i as int));
        }
        let (eid, overlapping) = candidates[i];
        if overlapping {
            seen.push(eid);
        }
        i = i + 1;
    }
    proof {
        assert(candidates@.take(candidates@.len() as int) =~= candidates@);
    }
    seen
}

/// The step of a patrol that sees `seen` and is locked on to `active`, if anything.
pub open spec fn spec_patrol_step(seen: Seq<EntityId>, active: Option<EntityId>) -> PatrolStep {
    if seen.len() == 0 {
        PatrolStep::Deactivate
    } else {
        match active {
            Some(target) => if seen.contains(target) {
                PatrolStep::KeepTarget
            } else {
                PatrolStep::Retarget(seen.last())
            },
            None => PatrolStep::Activate(seen.last()),
        }
    }
}

fn sees(seen: &Vec<EntityId>, target: EntityId) -> (r: bool)
    ensures
        r == seen@.contains(target),
{
    let mut i: usize = 0;
    while i < seen.len()
        invariant
            i <= seen@.len(),
            forall|j: int| 0 <= j < i ==> seen@[j] != target,
        decreases seen@.len() - i,
    {
        if seen[i].0 == target.0 {
            assert(seen@[i as int] == target);
            return true;
        }
        i = i + 1;
    }
    false
}

/// Decides what a patrol does: deactivate when nothing is seen; keep the target while it is
/// seen; otherwise lock on to the last target seen.
///
/// `active` is the target of the patrol's lock, if it holds one. The lock is looked up under
/// the default patrol marker: a patrol whose own marker is another one (`marker_is_default`
/// false) never finds the lock it holds, and so locks on anew, to the last target seen and
/// seen for no time yet, every frame in which it sees something.
pub fn patrol_step(seen: &Vec<EntityId>, active: Option<EntityId>, marker_is_default: bool) -> (step:
    PatrolStep)
    ensures
        step == spec_patrol_step(seen@, if marker_is_default { active } else { None }),
{
    let active = if marker_is_default {
        active
    } else {
        None
    };
    if seen.len() == 0 {
        PatrolStep::Deactivate
    } else {
        let last = seen[seen.len() - 1];
        match active {
            Some(target) => {
                if sees(seen, target) {
                    PatrolStep::KeepTarget
                } else {
                    PatrolStep::Retarget(last)
                }
            },
            None => PatrolStep::Activate(last),
        }
    }
}

/// A patrol only ever locks on to a target it sees, and keeps a target only while it sees it.
pub proof fn lemma_patrol_targets_are_seen(seen: Seq<EntityId>, active: Option<EntityId>)
    ensures
        spec_patrol_step(seen, active) matches PatrolStep::Retarget(t) ==> seen.contains(t),
        spec_patrol_step(seen, active) matches PatrolStep::Activate(t) ==> seen.contains(t),
        spec_patrol_step(seen, active) is KeepTarget ==> (active matches Some(t) && seen.contains(t)),
        spec_patrol_step(seen, active) is Deactivate <==> seen.len() == 0,
{
    if seen.len() > 0 {
        assert(seen[seen.len() - 1] == seen.last());
    }
}

/// Everything in vision is a candidate whose vision overlaps.
pub proof fn lemma_in_vision_overlaps(candidates: Seq<(EntityId, bool)>)
    ensures
        forall|t: EntityId| spec_in_vision(candidates).contains(t) ==> candidates.contains((t, true)),
    decreases candidates.len(),
{
    if candidates.len() > 0 {
        let prev_c = candidates.drop_last();
        lemma_in_vision_overlaps(prev_c);
        assert forall|t: EntityId| spec_in_vision(candidates).contains(t) implies candidates.contains((t, true)) by {
            let prev = spec_in_vision(prev_c);
            if prev.contains(t) {
                assert(prev_c.contains((t, true)));
                let k = choose|k: int| 0 <= k < prev_c.len() && prev_c[k] == (t, true);
                assert(candidates[k] == (t, true));
            } else {
                assert(candidates.last() == (t, true));
                assert(candidates[candidates.len() - 1] == (t, true));
            }
        }
    }
}

/// A patrol keeps its target whenever that target is anywhere among those seen, and only
/// then; a patrol that has lost its target, or holds none, locks on to the last target seen.
pub proof fn lemma_patrol_keeps_seen_target(seen: Seq<EntityId>, active: Option<EntityId>)
    ensures
        (match active {
            Some(t) => seen.contains(t) ==> spec_patrol_step(seen, active) == PatrolStep::KeepTarget,
            None => true,
        }),
        (match active {
            Some(t) => (seen.len() > 0 && !seen.contains(t)) ==> spec_patrol_step(seen, active)
                == PatrolStep::Retarget(seen[seen.len() - 1]),
            None => seen.len() > 0 ==> spec_patrol_step(seen, active) == PatrolStep::Activate(
                seen[seen.len() - 1],
            ),
        }),
{
    if let Some(t) = active {
        if seen.contains(t) {
            let k = choose|k: int| 0 <= k < seen.len() && seen[k] == t;
            assert(seen.len() > 0);
        }
    }
}

} // verus!
