//! Trigger collisions: which records are made when a trigger receiver touches providers.

use vstd::prelude::*;

use crate::physics::entity::EntityId;

verus! {

/// All the different kinds of triggers.
#[derive(Debug, Clone, Copy, PartialEq, Eq, Structural, Hash)]
pub enum TriggerKind {
    /// Basically marks the hitbox of the protagonist
    Ship,
    /// Bullet fired by the protagonist
    ShipBullet,
}

/// Which side of a trigger collision a record is kept by.
#[derive(Debug, Clone, Copy, PartialEq, Eq, Structural)]
pub enum TriggerCollisionRole {
    Tx,
    Rx,
}

/// A record of a collision between a trigger provider and a trigger receiver.
#[derive(Debug, Clone, Copy, PartialEq, Eq, Structural)]
pub struct TriggerCollisionRecord {
    pub my_role: TriggerCollisionRole,
    pub tx_eid: EntityId,
    pub tx_kind: TriggerKind,
    pub rx_eid: EntityId,
    pub rx_kind: TriggerKind,
}

/// A named collision record, ready to be spawned.
#[derive(Debug)]
pub struct TriggerCollisionBundle {
    pub name: String,
    pub record: TriggerCollisionRecord,
}

impl TriggerCollisionBundle {
    pub fn new(record: TriggerCollisionRecord) -> (r: TriggerCollisionBundle)
        ensures
            r.record == record,
            r.name@ == "trigger_collision"@,
    {
        TriggerCollisionBundle { name: "trigger_collision".to_owned(), record }
    }
}

/// A trigger provider met this frame by a moving receiver, and whether their bounds overlap.
#[derive(Debug, Clone, Copy, PartialEq, Eq, Structural)]
pub struct TriggerContact {
    pub tx_eid: EntityId,
    pub tx_kind: TriggerKind,
    pub overlapping: bool,
}

/// A contact counts when the bounds overlap and it is not the receiver's own trigger.
pub open spec fn spec_contact_counts(rx: EntityId, c: TriggerContact) -> bool {
    c.overlapping && c.tx_eid != rx
}

pub open spec fn spec_pair(rx: EntityId, c: TriggerContact) -> (u64, u64) {
    (rx.0, c.tx_eid.0)
}

/// The (receiver, provider) pairs recorded once the contacts have been gone through.
pub open spec fn spec_seen_after(rx: EntityId, cs: Seq<TriggerContact>, seen: Set<(u64, u64)>) -> Set<
    (u64, u64),
>
    decreases cs.len(),
{
    if cs.len() == 0 {
        seen
    } else {
        let prev = spec_seen_after(rx, cs.drop_last(), seen);
        if spec_contact_counts(rx, cs.last()) {
            prev.insert(spec_pair(rx, cs.last()))
        } else {
            prev
        }
    }
}

pub open spec fn spec_record(
    role: TriggerCollisionRole,
    rx: EntityId,
    rx_kind: TriggerKind,
    c: TriggerContact,
) -> TriggerCollisionRecord {
    TriggerCollisionRecord { my_role: role, tx_eid: c.tx_eid, tx_kind: c.tx_kind, rx_eid: rx, rx_kind }
}

/// The records made for the contacts, in order: for each counting contact whose pair is not
/// recorded yet, one record kept by the receiver and one kept by the provider.
pub open spec fn spec_trigger_records(
    rx: EntityId,
    rx_kind: TriggerKind,
    cs: Seq<TriggerContact>,
    seen: Set<(u64, u64)>,
) -> Seq<TriggerCollisionRecord>
    decreases cs.len(),
{
    if cs.len() == 0 {
        Seq::empty()
    } else {
        let prev = spec_trigger_records(rx, rx_kind, cs.drop_last(), seen);
        let c = cs.last();
        if spec_contact_counts(rx, c) && !spec_seen_after(rx, cs.drop_last(), seen).contains(
            spec_pair(rx, c),
        ) {
            prev + seq![
                spec_record(TriggerCollisionRole::Rx, rx, rx_kind, c),
                spec_record(TriggerCollisionRole::Tx, rx, rx_kind, c),
            ]
        } else {
            prev
        }
    }
}

fn pair_recorded(seen: &Vec<(u64, u64)>, a: u64, b: u64) -> (r: bool)
    ensures
        r == seen@.contains((a, b)),
{
    let mut i: usize = 0;
    while i < seen.len()
        invariant
            i <= seen@.len(),
            forall|j: int| 0 <= j < i ==> seen@[j] != (a, b),
        decreases seen@.len() - i,
    {
        let (x, y) = seen[i];
        if x == a && y == b {
            assert(seen@[i as int] == (a, b));
            return true;
        }
        i = i + 1;
    }
    false
}

/// Resolves the trigger contacts of a receiver in one movement step. A receiver never
/// collides with its own trigger, and a (receiver, provider) pair is recorded at most once:
/// `seen` holds the pairs already recorded and gets the new ones.
/// Returns the records to spawn, in pairs: the receiver's, then the provider's.
pub fn resolve_trigger_contacts(
    rx_eid: EntityId,
    rx_kind: TriggerKind,
    contacts: &Vec<TriggerContact>,
    seen: &mut Vec<(u64, u64)>,
) -> (records: Vec<TriggerCollisionRecord>)
    ensures
        records@ == spec_trigger_records(rx_eid, rx_kind, contacts@, old(seen)@.to_set()),
        final(seen)@.to_set() == spec_seen_after(rx_eid, contacts@, old(seen)@.to_set()),
{
    let ghost seen0 = old(seen)@.to_set();
    let mut records: Vec<TriggerCollisionRecord> = Vec::new();
    let mut i: usize = 0;
    while i < contacts.len()
        invariant
            i <= contacts@.len(),
            records@ == spec_trigger_records(rx_eid, rx_kind, contacts@.take(i as int), seen0),
            seen@.to_set() == spec_seen_after(rx_eid, contacts@.take(i as int), seen0),
        decreases contacts@.len() - i,
    {
        let c = contacts[i];
        proof {
            assert(contacts@.take(i + 1).drop_last() =~= contacts@.take(i as int));
            assert(contacts@.take(i + 1).last() == c);
        }
        if c.overlapping && c.tx_eid.0 != rx_eid.0 {
            if !pair_recorded(seen, rx_eid.0, c.tx_eid.0) {
                proof {
                    assert(!seen@.to_set().contains((rx_eid.0, c.tx_eid.0)));
                }
                records.push(
                    TriggerCollisionRecord {
                        my_role: TriggerCollisionRole::Rx,
                        tx_eid: c.tx_eid,
                        tx_kind: c.tx_kind,
                        rx_eid,
                        rx_kind,
                    },
                );
                records.push(
                    TriggerCollisionRecord {
                        my_role: TriggerCollisionRole::Tx,
                        tx_eid: c.tx_eid,
                        tx_kind: c.tx_kind,
                        rx_eid,
                        rx_kind,
                    },
                );
                let ghost before = seen@;
                seen.push((rx_eid.0, c.tx_eid.0));
                proof {
                    assert(seen@.to_set() =~= before.to_set().insert((rx_eid.0, c.tx_eid.0))) by {
                        assert forall|p: (u64, u64)| seen@.contains(p) <==> (before.contains(p) || p == (rx_eid.0, c.tx_eid.0)) by {
                            if seen@.contains(p) {
                                let k = choose|k: int| 0 <= k < seen@.len() && seen@[k] == p;
                                if k < before.len() {
                                    assert(before[k] == p);
                                }
                            }
                            if before.contains(p) {
                                let k = choose|k: int| 0 <= k < before.len() && before[k] == p;
                                assert(seen@[k] == p);
                            }
                            if p == (rx_eid.0, c.tx_eid.0) {
                                assert(seen@[before.len() as int] == p);
                            }
                        }
                    }
                }
            } else {
                proof {
                    assert(seen@.to_set().contains((rx_eid.0, c.tx_eid.0)));
                    assert(seen@.to_set().insert((rx_eid.0, c.tx_eid.0)) =~= seen@.to_set());
                }
            }
        }
        i = i + 1;
    }
    proof {
        assert(contacts@.take(contacts@.len() as int) =~= contacts@);
    }
    records
}

/// The recorded pairs only grow.
proof fn lemma_seen_grows(rx: EntityId, cs: Seq<TriggerContact>, seen: Set<(u64, u64)>)
    ensures
        seen.subset_of(spec_seen_after(rx, cs, seen)),
    decreases cs.len(),
{
    if cs.len() > 0 {
        lemma_seen_grows(rx, cs.drop_last(), seen);
    }
}

/// Trigger collisions are recorded in pairs and never twice: the records come in pairs, the
/// receiver's then the provider's, for the same provider; no receiver collides with itself;
/// no provider is recorded twice, nor one whose pair was recorded before; and every recorded
/// pair is remembered afterwards.
pub proof fn lemma_trigger_records_are_unique_pairs(
    rx: EntityId,
    rx_kind: TriggerKind,
    cs: Seq<TriggerContact>,
    seen: Set<(u64, u64)>,
)
    ensures
        ({
            let recs = spec_trigger_records(rx, rx_kind, cs, seen);
            &&& recs.len() % 2 == 0
            &&& forall|k: int|
                0 <= k < recs.len() / 2 ==> {
                    &&& (#[trigger] recs[2 * k]).my_role == TriggerCollisionRole::Rx
                    &&& recs[2 * k + 1].my_role == TriggerCollisionRole::Tx
                    &&& recs[2 * k + 1].tx_eid == recs[2 * k].tx_eid
                    &&& recs[2 * k + 1].tx_kind == recs[2 * k].tx_kind
                    &&& recs[2 * k].rx_eid == rx && recs[2 * k + 1].rx_eid == rx
                    &&& recs[2 * k].tx_eid != rx
                    &&& !seen.contains((rx.0, recs[2 * k].tx_eid.0))
                    &&& spec_seen_after(rx, cs, seen).contains((rx.0, recs[2 * k].tx_eid.0))
                }
            &&& forall|k: int, l: int|
                0 <= k < l < recs.len() / 2 ==> (#[trigger] recs[2 * k]).tx_eid != (#[trigger] recs[2 * l]).tx_eid
        }),
    decreases cs.len(),
{
    if cs.len() > 0 {
        let prev_cs = cs.drop_last();
        lemma_trigger_records_are_unique_pairs(rx, rx_kind, prev_cs, seen);
        lemma_seen_grows(rx, prev_cs, seen);
        let prev = spec_trigger_records(rx, rx_kind, prev_cs, seen);
        let recs = spec_trigger_records(rx, rx_kind, cs, seen);
        let c = cs.last();
        let prev_seen = spec_seen_after(rx, prev_cs, seen);
        let new_seen = spec_seen_after(rx, cs, seen);
        assert(prev_seen.subset_of(new_seen));
        if spec_contact_counts(rx, c) && !prev_seen.contains(spec_pair(rx, c)) {
            let n = prev.len() / 2;
            assert(recs.len() == prev.len() + 2);
            assert forall|k: int| 0 <= k < recs.len() / 2 implies {
                &&& (#[trigger] recs[2 * k]).my_role == TriggerCollisionRole::Rx
                &&& recs[2 * k + 1].my_role == TriggerCollisionRole::Tx
                &&& recs[2 * k + 1].tx_eid == recs[2 * k].tx_eid
                &&& recs[2 * k + 1].tx_kind == recs[2 * k].tx_kind
                &&& recs[2 * k].rx_eid == rx && recs[2 * k + 1].rx_eid == rx
                &&& recs[2 * k].tx_eid != rx
                &&& !seen.contains((rx.0, recs[2 * k].tx_eid.0))
                &&& new_seen.contains((rx.0, recs[2 * k].tx_eid.0))
            } by {
                if k < n {
                    assert(recs[2 * k] == prev[2 * k]);
                    assert(recs[2 * k + 1] == prev[2 * k + 1]);
                    assert(prev_seen.contains((rx.0, prev[2 * k].tx_eid.0)));
                } else {
                    assert(k == n);
                    assert(recs[2 * k] == spec_record(TriggerCollisionRole::Rx, rx, rx_kind, c));
                    assert(recs[2 * k + 1] == spec_record(TriggerCollisionRole::Tx, rx, rx_kind, c));
                }
            }
            assert forall|k: int, l: int|
                0 <= k < l < recs.len() / 2 implies (#[trigger] recs[2 * k]).tx_eid != (#[trigger] recs[2 * l]).tx_eid by {
                assert(recs[2 * k] == prev[2 * k]);
                if l < n {
                    assert(recs[2 * l] == prev[2 * l]);
                } else {
                    assert(recs[2 * l].tx_eid == c.tx_eid);
                    assert(prev_seen.contains((rx.0, prev[2 * k].tx_eid.0)));
                }
            }
        } else {
            assert(recs == prev);
        }
    }
}

/// Every record names the receiver and the receiver's kind, and the provider and provider's
/// kind of a contact that made it: one whose bounds overlapped.
pub proof fn lemma_trigger_records_name_their_sides(
    rx: EntityId,
    rx_kind: TriggerKind,
    cs: Seq<TriggerContact>,
    seen: Set<(u64, u64)>,
)
    ensures
        forall|k: int|
            0 <= k < spec_trigger_records(rx, rx_kind, cs, seen).len() ==> {
                let rec = #[trigger] spec_trigger_records(rx, rx_kind, cs, seen)[k];
                &&& rec.rx_kind == rx_kind
                &&& rec.rx_eid == rx
                &&& exists|i: int|
                    0 <= i < cs.len() && (#[trigger] cs[i]).tx_eid == rec.tx_eid && cs[i].tx_kind
                        == rec.tx_kind && cs[i].overlapping
            },
    decreases cs.len(),
{
    if cs.len() > 0 {
        let prev_cs = cs.drop_last();
        lemma_trigger_records_name_their_sides(rx, rx_kind, prev_cs, seen);
        let prev = spec_trigger_records(rx, rx_kind, prev_cs, seen);
        let recs = spec_trigger_records(rx, rx_kind, cs, seen);
        let c = cs.last();
        assert forall|k: int| 0 <= k < recs.len() implies {
            let rec = #[trigger] recs[k];
            &&& rec.rx_kind == rx_kind
            &&& rec.rx_eid == rx
            &&& exists|i: int|
                0 <= i < cs.len() && (#[trigger] cs[i]).tx_eid == rec.tx_eid && cs[i].tx_kind == rec.tx_kind
                    && cs[i].overlapping
        } by {
            if k < prev.len() {
                assert(recs[k] == prev[k]);
                let i = choose|i: int|
                    0 <= i < prev_cs.len() && (#[trigger] prev_cs[i]).tx_eid == prev[k].tx_eid
                        && prev_cs[i].tx_kind == prev[k].tx_kind && prev_cs[i].overlapping;
                assert(cs[i] == prev_cs[i]);
            } else {
                assert(cs[cs.len() - 1] == c);
            }
        }
    }
}

} // verus!
