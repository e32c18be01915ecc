//! Texture managers: an entity drawn as textured parts, each part an outline of points,
//! with a state that says which texture each part shows.

use vstd::prelude::*;

use crate::animation::animation_manager::{spec_reset, spec_set};
use crate::change::ChangeTracked;
use vstd::std_specs::cmp::PartialEqSpec;

verus! {

#[derive(Debug, Clone, Copy, PartialEq, Eq, Structural)]
pub enum TextureDimGrowth {
    Scale,
    Repeat,
}

impl Default for TextureDimGrowth {
    fn default() -> (r: TextureDimGrowth)
        ensures
            r == TextureDimGrowth::Repeat,
    {
        TextureDimGrowth::Repeat
    }
}

/// How a texture grows along each axis to cover its part.
#[derive(Debug, Clone, Copy, PartialEq, Eq, Structural)]
pub struct TextureGrowth {
    pub x: TextureDimGrowth,
    pub y: TextureDimGrowth,
}

impl Default for TextureGrowth {
    fn default() -> (r: TextureGrowth)
        ensures
            r.x == TextureDimGrowth::Repeat,
            r.y == TextureDimGrowth::Repeat,
    {
        TextureGrowth { x: TextureDimGrowth::Repeat, y: TextureDimGrowth::Repeat }
    }
}

/// The parts a textured entity is made of.
pub trait TexturePart: Sized + Copy {
    spec fn spec_all() -> Seq<Self>;

    /// Every part, in order.
    fn all() -> (r: Vec<Self>)
        ensures
            r@ == Self::spec_all(),
    ;

    /// Whether two parts are the same part.
    fn same_part(&self, other: &Self) -> (r: bool)
        ensures
            r == (*self == *other),
    ;
}

/// The states of a textured entity: each says which body (texture) each part shows.
pub trait TextureStateMachine: Sized + Copy {
    type BodyType;
    type PartType: TexturePart;

    spec fn spec_initial() -> Self;

    spec fn spec_part_to_body(&self, part: Self::PartType) -> Self::BodyType;

    /// The state a new manager starts in.
    fn initial() -> (r: Self)
        ensures
            r == Self::spec_initial(),
    ;

    /// Whether two states are the same state.
    fn same_state(&self, other: &Self) -> (r: bool)
        ensures
            r == (*self == *other),
    ;

    /// The body shown by a part in this state.
    fn part_to_body(&self, part: Self::PartType) -> (r: Self::BodyType)
        ensures
            r == self.spec_part_to_body(part),
    ;
}

/// The points of a part in a list of (part, points) entries: those of its last entry.
pub open spec fn spec_lookup<Part, Points>(entries: Seq<(Part, Points)>, part: Part) -> Option<Points>
    decreases entries.len(),
{
    if entries.len() == 0 {
        None
    } else if entries.last().0 == part {
        Some(entries.last().1)
    } else {
        spec_lookup(entries.drop_last(), part)
    }
}

/// The entries seen as a map from parts to their points.
pub open spec fn spec_point_map<Part, Points>(entries: Seq<(Part, Points)>) -> Map<Part, Points> {
    Map::new(|p: Part| spec_lookup(entries, p) is Some, |p: Part| spec_lookup(entries, p)->0)
}

/// Removing an entry of another part does not change where a part's points are found.
proof fn lemma_lookup_remove_other<Part, Points>(entries: Seq<(Part, Points)>, i: int, part: Part)
    requires
        0 <= i < entries.len(),
        entries[i].0 != part,
    ensures
        spec_lookup(entries.remove(i), part) == spec_lookup(entries, part),
    decreases entries.len(),
{
    if i == entries.len() - 1 {
        assert(entries.remove(i) =~= entries.drop_last());
    } else {
        assert(entries.remove(i).last() == entries.last());
        assert(entries.remove(i).drop_last() =~= entries.drop_last().remove(i));
        lemma_lookup_remove_other(entries.drop_last(), i, part);
    }
}

/// The map after `part` got new points by removing its entry at `i` and appending a new one.
proof fn lemma_replace_entry<Part, Points>(
    entries: Seq<(Part, Points)>,
    i: int,
    part: Part,
    points: Points,
)
    requires
        0 <= i < entries.len(),
        entries[i].0 == part,
    ensures
        spec_point_map(entries.remove(i).push((part, points))) == spec_point_map(entries).insert(
            part,
            points,
        ),
{
    let new_entries = entries.remove(i).push((part, points));
    assert forall|q: Part| q != part implies spec_lookup(new_entries, q) == spec_lookup(entries, q) by {
        assert(new_entries.drop_last() =~= entries.remove(i));
        lemma_lookup_remove_other(entries, i, q);
    }
    assert(new_entries.drop_last() =~= entries.remove(i));
    assert(spec_lookup(entries, part) is Some) by {
        lemma_lookup_present(entries, i);
    }
    assert(spec_point_map(new_entries) =~= spec_point_map(entries).insert(part, points));
}

/// A part that has an entry has points.
proof fn lemma_lookup_present<Part, Points>(entries: Seq<(Part, Points)>, i: int)
    requires
        0 <= i < entries.len(),
    ensures
        spec_lookup(entries, entries[i].0) is Some,
    decreases entries.len(),
{
    if entries.last().0 != entries[i].0 {
        assert(i != entries.len() - 1);
        assert(entries.drop_last()[i] == entries[i]);
        lemma_lookup_present(entries.drop_last(), i);
    }
}

/// A part without an entry has no points.
proof fn lemma_lookup_absent<Part, Points>(entries: Seq<(Part, Points)>, part: Part)
    requires
        forall|j: int| 0 <= j < entries.len() ==> entries[j].0 != part,
    ensures
        spec_lookup(entries, part) is None,
    decreases entries.len(),
{
    if entries.len() > 0 {
        lemma_lookup_absent(entries.drop_last(), part);
    }
}

/// What a textured entity shows: its state and the outline points of each of its parts.
#[derive(Debug)]
pub struct TextureManager<StateMachine: TextureStateMachine, Points> {
    pub state: StateMachine,
    pub point_map: Vec<(StateMachine::PartType, Points)>,
}

impl<StateMachine: TextureStateMachine, Points> TextureManager<StateMachine, Points> {
    /// The points of each part, as a map.
    pub open spec fn points(&self) -> Map<StateMachine::PartType, Points> {
        spec_point_map(self.point_map@)
    }

    /// A manager in the initial state, with no points for any part yet.
    pub fn new() -> (r: Self)
        ensures
            r.state == StateMachine::spec_initial(),
            r.points() == Map::<StateMachine::PartType, Points>::empty(),
    {
        let r = TextureManager { state: StateMachine::initial(), point_map: Vec::new() };
        assert(r.points() =~= Map::<StateMachine::PartType, Points>::empty());
        r
    }

    pub fn get_state(&self) -> (r: StateMachine)
        ensures
            r == self.state,
    {
        self.state
    }

    pub fn with_state(self, state: StateMachine) -> (r: Self)
        ensures
            r.state == state,
            r.point_map == self.point_map,
    {
        TextureManager { state, point_map: self.point_map }
    }

    /// Where the entry of `part` is, if it has one.
    fn find_part(&self, part: StateMachine::PartType) -> (r: Option<usize>)
        ensures
            match r {
                Some(i) => i < self.point_map@.len() && self.point_map@[i as int].0 == part,
                None => forall|j: int| 0 <= j < self.point_map@.len() ==> self.point_map@[j].0 != part,
            },
    {
        let mut i: usize = 0;
        while i < self.point_map.len()
            invariant
                i <= self.point_map@.len(),
                forall|j: int| 0 <= j < i ==> self.point_map@[j].0 != part,
            decreases self.point_map@.len() - i,
        {
            if self.point_map[i].0.same_part(&part) {
                return Some(i);
            }
            i = i + 1;
        }
        None
    }

    /// The points of a part that has points.
    pub fn get_part_points(&self, part: StateMachine::PartType) -> (r: &Points)
        requires
            self.points().contains_key(part),
        ensures
            *r == self.points()[part],
    {
        let mut i: usize = self.point_map.len();
        proof {
            assert(self.point_map@.take(i as int) =~= self.point_map@);
        }
        while i > 0
            invariant
                i <= self.point_map@.len(),
                spec_lookup(self.point_map@.take(i as int), part) == spec_lookup(self.point_map@, part),
            decreases i,
        {
            proof {
                assert(self.point_map@.take(i as int).drop_last() =~= self.point_map@.take(i - 1));
                assert(self.point_map@.take(i as int).last() == self.point_map@[i - 1]);
            }
            if self.point_map[i - 1].0.same_part(&part) {
                return &self.point_map[i - 1].1;
            }
            i = i - 1;
        }
        proof {
            assert(self.point_map@.take(0) =~= Seq::<(StateMachine::PartType, Points)>::empty());
        }
        &self.point_map[0].1
    }

    /// Gives a part new points.
    fn put_part_points(&mut self, part: StateMachine::PartType, points: Points)
        ensures
            final(self).state == old(self).state,
            final(self).points() == old(self).points().insert(part, points),
    {
        match self.find_part(part) {
            Some(i) => {
                let ghost before = self.point_map@;
                self.point_map.remove(i);
                self.point_map.push((part, points));
                proof {
                    lemma_replace_entry(before, i as int, part, points);
                }
            },
            None => {
                let ghost before = self.point_map@;
                self.point_map.push((part, points));
                proof {
                    assert(self.point_map@.drop_last() =~= before);
                    assert forall|q: StateMachine::PartType| q != part implies spec_lookup(self.point_map@, q)
                        == spec_lookup(before, q) by {}
                    assert(self.points() =~= spec_point_map(before).insert(part, points));
                }
            },
        }
    }

    /// The manager with new points for a part.
    pub fn with_part_points(self, part: StateMachine::PartType, points: Points) -> (r: Self)
        ensures
            r.state == self.state,
            r.points() == self.points().insert(part, points),
    {
        let mut r = self;
        r.put_part_points(part, points);
        r
    }
}

pub trait MutableTextureManagerActions<StateMachine: TextureStateMachine, Points> {
    /// Sets the state of this texture, only actually mutating the underlying reference if the state is changing
    fn set_state(&mut self, state: StateMachine);
    /// Resets the state of this texture, mutating the underlying reference (triggering Change) regardless of current state
    fn reset_state(&mut self, state: StateMachine);
    /// Whether a part has points (setting the points of a part without any is an error).
    spec fn has_part_points(&self, part: StateMachine::PartType) -> bool;

    /// Sets the points for a given part
    fn set_part_points(&mut self, part: StateMachine::PartType, points: Points)
        requires
            old(self).has_part_points(part),
    ;
    /// Resets the points for a given part
    fn reset_part_points(&mut self, part: StateMachine::PartType, points: Points);
}

impl<StateMachine: TextureStateMachine, Points: PartialEq> MutableTextureManagerActions<
    StateMachine,
    Points,
> for ChangeTracked<TextureManager<StateMachine, Points>> {
    fn set_state(&mut self, state: StateMachine)
        ensures
            final(self).value.point_map == old(self).value.point_map,
            if state == old(self).value.state {
                final(self).value.state == old(self).value.state && final(self).changed == old(
                    self,
                ).changed
            } else {
                final(self).value.state == state && final(self).changed
            },
    {
        if state.same_state(&self.value.state) {
            return;
        }
        self.value.state = state;
        self.changed = true;
    }

    fn reset_state(&mut self, state: StateMachine)
        ensures
            final(self).value.point_map == old(self).value.point_map,
            final(self).value.state == state,
            final(self).changed,
    {
        self.value.state = state;
        self.changed = true;
    }

    /// Leaves the manager alone when the part already has equal points (by the points'
    /// equality); otherwise writes the new points. A part without points is a caller error.
    open spec fn has_part_points(&self, part: StateMachine::PartType) -> bool {
        self.value.points().contains_key(part)
    }

    fn set_part_points(&mut self, part: StateMachine::PartType, points: Points)
        ensures
            final(self).value.state == old(self).value.state,
            ({
                let same = old(self).value.points()[part].eq_spec(&points);
                let untouched = final(self).value.points() == old(self).value.points()
                    && final(self).changed == old(self).changed;
                let written = final(self).value.points() == old(self).value.points().insert(part, points)
                    && final(self).changed;
                &&& untouched || written
                &&& Points::obeys_eq_spec() ==> (if same { untouched } else { written })
            }),
    {
        let same = *self.value.get_part_points(part) == points;
        if same {
            return;
        }
        self.value.put_part_points(part, points);
        self.changed = true;
    }

    fn reset_part_points(&mut self, part: StateMachine::PartType, points: Points)
        ensures
            final(self).value.state == old(self).value.state,
            final(self).value.points() == old(self).value.points().insert(part, points),
            final(self).changed,
    {
        self.value.put_part_points(part, points);
        self.changed = true;
    }
}

/// Reading back the points of a part gives what was last written for it, and writing the
/// points of one part leaves every other part as it was.
pub proof fn lemma_part_points_read_back<Part, Points>(
    points: Map<Part, Points>,
    part: Part,
    written: Points,
    other: Part,
)
    ensures
        points.insert(part, written).contains_key(part),
        points.insert(part, written)[part] == written,
        other != part ==> (points.insert(part, written).contains_key(other) == points.contains_key(
            other,
        )),
        other != part && points.contains_key(other) ==> points.insert(part, written)[other]
            == points[other],
{
}

} // verus!
