//! The ground-truth states of the game and the states computed from them.

use vstd::prelude::*;

pub mod room;

use crate::state::room::RoomState;

verus! {

#[derive(Debug, Clone, Copy, Eq, PartialEq, Structural, Hash)]
pub enum AppMode {
    Dev,
    Prod,
}

#[derive(Debug, Clone, Copy, Eq, PartialEq, Structural, Hash)]
pub enum MenuState {
    Studio,
    Title,
}

/// No cutscene is written yet; the one variant stands for a cutscene to come.
#[derive(Debug, Clone, Copy, Eq, PartialEq, Structural, Hash)]
pub enum CutsceneState {
    Pending,
}

/// No tutorial is written yet; the one variant stands for a tutorial to come.
#[derive(Debug, Clone, Copy, Eq, PartialEq, Structural, Hash)]
pub enum TutorialState {
    Pending,
}

/// The top level state of the game.
#[derive(Debug, Clone, Copy, Eq, PartialEq, Structural, Hash)]
pub enum MetaState {
    Menu(MenuState),
    Cutscene(CutsceneState),
    Tutorial(TutorialState),
    Room(RoomState),
    Transition,
}

/// The menu shown by a meta state, if it shows one.
pub open spec fn spec_menu_of(meta: MetaState) -> Option<MenuState> {
    match meta {
        MetaState::Menu(m) => Some(m),
        _ => None,
    }
}

/// The cutscene shown by a meta state, if it shows one.
pub open spec fn spec_cutscene_of(meta: MetaState) -> Option<CutsceneState> {
    match meta {
        MetaState::Cutscene(c) => Some(c),
        _ => None,
    }
}

/// The tutorial shown by a meta state, if it shows one.
pub open spec fn spec_tutorial_of(meta: MetaState) -> Option<TutorialState> {
    match meta {
        MetaState::Tutorial(t) => Some(t),
        _ => None,
    }
}

/// The room shown by a meta state, if it shows one.
pub open spec fn spec_room_of(meta: MetaState) -> Option<RoomState> {
    match meta {
        MetaState::Room(r) => Some(r),
        _ => None,
    }
}

/// Kills some verbosity with reading meta states
pub trait MetaUnfucker {
    fn get_menu_state(&self) -> Option<MenuState>;
    fn get_cutscene_state(&self) -> Option<CutsceneState>;
    fn get_tutorial_state(&self) -> Option<TutorialState>;
    fn get_room_state(&self) -> Option<RoomState>;
}

impl MetaUnfucker for MetaState {
    fn get_menu_state(&self) -> (r: Option<MenuState>)
        ensures
            r == spec_menu_of(*self),
    {
        match self {
            MetaState::Menu(menu_state) => Some(*menu_state),
            _ => None,
        }
    }

    fn get_cutscene_state(&self) -> (r: Option<CutsceneState>)
        ensures
            r == spec_cutscene_of(*self),
    {
        match self {
            MetaState::Cutscene(cutscene_state) => Some(*cutscene_state),
            _ => None,
        }
    }

    fn get_tutorial_state(&self) -> (r: Option<TutorialState>)
        ensures
            r == spec_tutorial_of(*self),
    {
        match self {
            MetaState::Tutorial(tutorial_state) => Some(*tutorial_state),
            _ => None,
        }
    }

    fn get_room_state(&self) -> (r: Option<RoomState>)
        ensures
            r == spec_room_of(*self),
    {
        match self {
            MetaState::Room(room_state) => Some(*room_state),
            _ => None,
        }
    }
}

/// Kills some verbosity for writing meta states
pub trait ToMetaState {
    fn to_meta_state(&self) -> MetaState;
}

impl ToMetaState for MenuState {
    fn to_meta_state(&self) -> (r: MetaState)
        ensures
            r == MetaState::Menu(*self),
    {
        MetaState::Menu(*self)
    }
}

impl ToMetaState for CutsceneState {
    fn to_meta_state(&self) -> (r: MetaState)
        ensures
            r == MetaState::Cutscene(*self),
    {
        MetaState::Cutscene(*self)
    }
}

impl ToMetaState for TutorialState {
    fn to_meta_state(&self) -> (r: MetaState)
        ensures
            r == MetaState::Tutorial(*self),
    {
        MetaState::Tutorial(*self)
    }
}

impl ToMetaState for RoomState {
    fn to_meta_state(&self) -> (r: MetaState)
        ensures
            r == MetaState::Room(*self),
    {
        MetaState::Room(*self)
    }
}

#[derive(Debug, Clone, Copy, Eq, PartialEq, Structural, Hash)]
pub enum PauseState {
    Unpaused,
    Paused,
}

/// Whether physics runs: it does exactly while a tutorial or a room is shown unpaused.
#[derive(Debug, Clone, Copy, Eq, PartialEq, Structural, Hash)]
pub enum PhysicsState {
    Inactive,
    Active,
}

pub open spec fn spec_physics_active(meta: MetaState, pause: PauseState) -> bool {
    &&& (meta is Tutorial || meta is Room)
    &&& pause == PauseState::Unpaused
}

impl PhysicsState {
    /// Computes the physics state from the meta state and the pause state.
    /// It is always defined.
    pub fn compute(meta: MetaState, pause: PauseState) -> (r: Option<PhysicsState>)
        ensures
            r == Some(
                if spec_physics_active(meta, pause) {
                    PhysicsState::Active
                } else {
                    PhysicsState::Inactive
                },
            ),
    {
        match (meta, pause) {
            (MetaState::Tutorial(_), PauseState::Unpaused) => Some(PhysicsState::Active),
            (MetaState::Room(_), PauseState::Unpaused) => Some(PhysicsState::Active),
            _ => Some(PhysicsState::Inactive),
        }
    }
}

/// The state that actually holds data about transitions
#[derive(Debug, Clone, Copy, Eq, PartialEq, Structural, Hash)]
pub enum MetaTransitionState {
    Stable,
    Leaving { next_meta_state: MetaState },
    Waiting { next_meta_state: MetaState },
    Entering,
}

/// Basically just the discriminant of the MetaTransitionState
/// Useful for getting access to OnEnter, OnExit transition stuff
#[derive(Debug, Clone, Copy, Eq, PartialEq, Structural, Hash)]
pub enum TransitionState {
    Stable,
    Leaving,
    Waiting,
    Entering,
}

pub open spec fn spec_transition_kind(source: MetaTransitionState) -> TransitionState {
    match source {
        MetaTransitionState::Stable => TransitionState::Stable,
        MetaTransitionState::Leaving { .. } => TransitionState::Leaving,
        MetaTransitionState::Waiting { .. } => TransitionState::Waiting,
        MetaTransitionState::Entering => TransitionState::Entering,
    }
}

impl TransitionState {
    /// Computes the discriminant of a transition state. It is always defined.
    pub fn compute(source: MetaTransitionState) -> (r: Option<TransitionState>)
        ensures
            r == Some(spec_transition_kind(source)),
    {
        match source {
            MetaTransitionState::Stable => Some(TransitionState::Stable),
            MetaTransitionState::Leaving { .. } => Some(TransitionState::Leaving),
            MetaTransitionState::Waiting { .. } => Some(TransitionState::Waiting),
            MetaTransitionState::Entering => Some(TransitionState::Entering),
        }
    }
}

/// Reading back what was written: a state wrapped into a meta state is found again
/// by its own reader, and by no other reader.
pub proof fn lemma_meta_state_round_trip(menu: MenuState, cutscene: CutsceneState, tutorial: TutorialState, room: RoomState)
    ensures
        spec_menu_of(MetaState::Menu(menu)) == Some(menu),
        spec_cutscene_of(MetaState::Menu(menu)) is None,
        spec_tutorial_of(MetaState::Menu(menu)) is None,
        spec_room_of(MetaState::Menu(menu)) is None,
        spec_cutscene_of(MetaState::Cutscene(cutscene)) == Some(cutscene),
        spec_menu_of(MetaState::Cutscene(cutscene)) is None,
        spec_tutorial_of(MetaState::Cutscene(cutscene)) is None,
        spec_room_of(MetaState::Cutscene(cutscene)) is None,
        spec_tutorial_of(MetaState::Tutorial(tutorial)) == Some(tutorial),
        spec_menu_of(MetaState::Tutorial(tutorial)) is None,
        spec_cutscene_of(MetaState::Tutorial(tutorial)) is None,
        spec_room_of(MetaState::Tutorial(tutorial)) is None,
        spec_room_of(MetaState::Room(room)) == Some(room),
        spec_menu_of(MetaState::Room(room)) is None,
        spec_cutscene_of(MetaState::Room(room)) is None,
        spec_tutorial_of(MetaState::Room(room)) is None,
{
}

/// Every meta state is read by at most one reader, and only the transition is read by none.
pub proof fn lemma_meta_state_readers_partition(meta: MetaState)
    ensures
        (spec_menu_of(meta) is Some) as int + (spec_cutscene_of(meta) is Some) as int
            + (spec_tutorial_of(meta) is Some) as int + (spec_room_of(meta) is Some) as int
            == (if meta is Transition { 0int } else { 1int }),
{
}

/// Two transition states have the same discriminant exactly when they are in the same phase,
/// whatever meta state they lead to.
pub proof fn lemma_transition_kind_ignores_target(a: MetaState, b: MetaState)
    ensures
        spec_transition_kind(MetaTransitionState::Leaving { next_meta_state: a })
            == spec_transition_kind(MetaTransitionState::Leaving { next_meta_state: b }),
        spec_transition_kind(MetaTransitionState::Waiting { next_meta_state: a })
            == spec_transition_kind(MetaTransitionState::Waiting { next_meta_state: b }),
        spec_transition_kind(MetaTransitionState::Leaving { next_meta_state: a })
            != spec_transition_kind(MetaTransitionState::Waiting { next_meta_state: b }),
        spec_transition_kind(MetaTransitionState::Stable) != spec_transition_kind(MetaTransitionState::Entering),
{
}

} // verus!
