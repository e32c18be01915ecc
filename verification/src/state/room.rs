//! Rooms: which encounter is being fought, and which room comes next.

use vstd::prelude::*;

use crate::consts::{IDEAL_HEIGHT, IDEAL_WIDTH, ideal_vec};
use crate::math::{IVec2, UVec2, spec_wrap_offsets, wrap_offsets};
use crate::state::{MetaState, MetaUnfucker, spec_room_of};

verus! {

#[derive(Debug, Clone, Copy, Eq, PartialEq, Structural, Hash)]
pub enum EncounterKind {
    SimpOnly,
    SpewOnly,
    Both,
}

#[derive(Debug, Clone, Copy, Eq, PartialEq, Structural, Hash)]
pub enum EncounterProgress {
    Entering,
    Fighting,
    Meandering,
    Dead,
}

impl Default for EncounterProgress {
    fn default() -> (r: EncounterProgress)
        ensures
            r == EncounterProgress::Entering,
    {
        EncounterProgress::Entering
    }
}

#[derive(Debug, Clone, Copy, Eq, PartialEq, Structural, Hash)]
pub struct EncounterState {
    pub kind: EncounterKind,
    pub difficulty: u32,
    pub progress: EncounterProgress,
}

#[derive(Debug, Clone, Copy, Eq, PartialEq, Structural, Hash)]
pub struct RoomState {
    pub room_size: UVec2,
    pub encounter_state: EncounterState,
}

/// The room every encounter is fought in: twice the ideal screen in each direction.
pub open spec fn spec_encounter_room_size() -> UVec2 {
    UVec2 { x: (2 * IDEAL_WIDTH) as u32, y: (2 * IDEAL_HEIGHT) as u32 }
}

/// The encounter that follows `e`: three rounds of simps of rising difficulty,
/// then one round of spews, then rounds of both of ever rising difficulty.
pub open spec fn spec_next_encounter(e: EncounterState) -> EncounterState {
    match e.kind {
        EncounterKind::SimpOnly => if e.difficulty < 3 {
            EncounterState {
                kind: EncounterKind::SimpOnly,
                difficulty: (e.difficulty + 1) as u32,
                progress: EncounterProgress::Entering,
            }
        } else {
            EncounterState {
                kind: EncounterKind::SpewOnly,
                difficulty: 1,
                progress: EncounterProgress::Entering,
            }
        },
        EncounterKind::SpewOnly => EncounterState {
            kind: EncounterKind::Both,
            difficulty: 1,
            progress: EncounterProgress::Entering,
        },
        EncounterKind::Both => EncounterState {
            kind: EncounterKind::Both,
            difficulty: (e.difficulty + 1) as u32,
            progress: EncounterProgress::Entering,
        },
    }
}

/// The next room can be computed unless the difficulty of a mixed encounter is at its maximum.
pub open spec fn spec_has_next_room(r: RoomState) -> bool {
    r.encounter_state.kind == EncounterKind::Both ==> r.encounter_state.difficulty < u32::MAX
}

impl RoomState {
    /// The room of an encounter of the given kind and difficulty, just being entered.
    pub fn xth_encounter(kind: EncounterKind, difficulty: u32) -> (r: RoomState)
        ensures
            r.room_size == spec_encounter_room_size(),
            r.encounter_state == (EncounterState {
                kind,
                difficulty,
                progress: EncounterProgress::Entering,
            }),
    {
        RoomState {
            room_size: ideal_vec().scaled(2),
            encounter_state: EncounterState {
                kind,
                difficulty,
                progress: EncounterProgress::Entering,
            },
        }
    }

    /// The next room to go to (assuming the bird doesn't die, or if it is dead, wants to play again)
    pub fn next_room(&self) -> (r: RoomState)
        requires
            spec_has_next_room(*self),
        ensures
            r.room_size == self.room_size,
            r.encounter_state == spec_next_encounter(self.encounter_state),
    {
        match (self.encounter_state.kind, self.encounter_state.difficulty) {
            (EncounterKind::SimpOnly, d) => {
                if d < 3 {
                    RoomState {
                        room_size: self.room_size,
                        encounter_state: EncounterState {
                            kind: EncounterKind::SimpOnly,
                            difficulty: d + 1,
                            progress: EncounterProgress::Entering,
                        },
                    }
                } else {
                    RoomState {
                        room_size: self.room_size,
                        encounter_state: EncounterState {
                            kind: EncounterKind::SpewOnly,
                            difficulty: 1,
                            progress: EncounterProgress::Entering,
                        },
                    }
                }
            },
            (EncounterKind::SpewOnly, _) => RoomState {
                room_size: self.room_size,
                encounter_state: EncounterState {
                    kind: EncounterKind::Both,
                    difficulty: 1,
                    progress: EncounterProgress::Entering,
                },
            },
            (EncounterKind::Both, d) => RoomState {
                room_size: self.room_size,
                encounter_state: EncounterState {
                    kind: EncounterKind::Both,
                    difficulty: d + 1,
                    progress: EncounterProgress::Entering,
                },
            },
        }
    }

    /// The offsets of the copies of this room that make its edges wrap around.
    pub fn mirage_offsets(&self) -> (offsets: Vec<IVec2>)
        ensures
            offsets@ == spec_wrap_offsets(self.room_size),
    {
        wrap_offsets(self.room_size)
    }

    /// The room state shown by the meta state, if a room is shown.
    pub fn compute(source: MetaState) -> (r: Option<RoomState>)
        ensures
            r == spec_room_of(source),
    {
        source.get_room_state()
    }
}

impl EncounterKind {
    /// The kind of the encounter being fought, if a room is shown.
    pub fn compute(source: MetaState) -> (r: Option<EncounterKind>)
        ensures
            r == (match source {
                MetaState::Room(rs) => Some(rs.encounter_state.kind),
                _ => None::<EncounterKind>,
            }),
    {
        match source.get_room_state() {
            Some(room_state) => Some(room_state.encounter_state.kind),
            None => None,
        }
    }
}

impl EncounterProgress {
    /// The progress of the encounter being fought, if a room is shown.
    pub fn compute(source: MetaState) -> (r: Option<EncounterProgress>)
        ensures
            r == (match source {
                MetaState::Room(rs) => Some(rs.encounter_state.progress),
                _ => None::<EncounterProgress>,
            }),
    {
        match source.get_room_state() {
            Some(room_state) => Some(room_state.encounter_state.progress),
            None => None,
        }
    }
}

impl EncounterState {
    /// The encounter being fought, if a room is shown.
    pub fn compute(source: MetaState) -> (r: Option<EncounterState>)
        ensures
            r == (match source {
                MetaState::Room(rs) => Some(rs.encounter_state),
                _ => None::<EncounterState>,
            }),
    {
        match source.get_room_state() {
            Some(room_state) => Some(room_state.encounter_state),
            None => None,
        }
    }
}

impl MetaState {
    /// The size of the space that wraps around: the room when one is shown, else the ideal screen.
    pub fn wrap_size(&self) -> (size: UVec2)
        ensures
            size == (match *self {
                MetaState::Room(rs) => rs.room_size,
                _ => UVec2 { x: IDEAL_WIDTH, y: IDEAL_HEIGHT },
            }),
    {
        match self.get_room_state() {
            Some(room_state) => room_state.room_size,
            None => ideal_vec(),
        }
    }
}

/// The order in which encounter kinds come in the campaign.
pub open spec fn spec_kind_rank(kind: EncounterKind) -> int {
    match kind {
        EncounterKind::SimpOnly => 0,
        EncounterKind::SpewOnly => 1,
        EncounterKind::Both => 2,
    }
}

/// The campaign only moves forward: the next encounter is of a later kind, or of the same
/// kind one difficulty higher, and it is always just being entered.
pub proof fn lemma_next_encounter_advances(e: EncounterState)
    requires
        e.kind == EncounterKind::Both ==> e.difficulty < u32::MAX,
    ensures
        spec_kind_rank(spec_next_encounter(e).kind) > spec_kind_rank(e.kind)
            || (spec_next_encounter(e).kind == e.kind
                && spec_next_encounter(e).difficulty == e.difficulty + 1),
        spec_kind_rank(spec_next_encounter(e).kind) >= spec_kind_rank(e.kind),
        spec_next_encounter(e).progress == EncounterProgress::Entering,
        e.kind != spec_next_encounter(e).kind ==> spec_next_encounter(e).difficulty == 1,
{
}

/// The encounter readers of a meta state agree with the room it shows.
pub proof fn lemma_encounter_readers_agree(meta: MetaState)
    ensures
        (match meta {
            MetaState::Room(rs) => Some(rs.encounter_state.kind),
            _ => None::<EncounterKind>,
        }) == (match spec_room_of(meta) {
            Some(rs) => Some(rs.encounter_state.kind),
            None => None::<EncounterKind>,
        }),
        (match meta {
            MetaState::Room(rs) => Some(rs.encounter_state),
            _ => None::<EncounterState>,
        }) == (match spec_room_of(meta) {
            Some(rs) => Some(rs.encounter_state),
            None => None::<EncounterState>,
        }),
{
}

} // verus!
