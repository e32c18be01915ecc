use zenith::consts::{IDEAL_HEIGHT, IDEAL_WIDTH, MENU_HEIGHT, MENU_WIDTH};
use zenith::consts::{ideal_vec, menu_vec};
use zenith::math::{wrap_offsets, IVec2, UVec2};
use zenith::state::room::{EncounterKind, EncounterProgress, EncounterState, RoomState};
use zenith::state::{
    CutsceneState, MenuState, MetaState, MetaTransitionState, MetaUnfucker, PauseState,
    PhysicsState, ToMetaState, TransitionState, TutorialState,
};

#[test]
fn ideal_and_menu_sizes() {
    assert_eq!(ideal_vec(), UVec2::new(320, 180));
    assert_eq!(menu_vec(), UVec2::new(1280, 720));
    assert_eq!(MENU_WIDTH, IDEAL_WIDTH * 4);
    assert_eq!(MENU_HEIGHT, IDEAL_HEIGHT * 4);
}

#[test]
fn xth_encounter_is_entered_in_a_double_room() {
    let r = RoomState::xth_encounter(EncounterKind::SimpOnly, 1);
    assert_eq!(r.room_size, UVec2::new(640, 360));
    assert_eq!(
        r.encounter_state,
        EncounterState {
            kind: EncounterKind::SimpOnly,
            difficulty: 1,
            progress: EncounterProgress::Entering
        }
    );
}

#[test]
fn campaign_order() {
    let mut r = RoomState::xth_encounter(EncounterKind::SimpOnly, 1);
    let mut seen = vec![];
    for _ in 0..6 {
        r = r.next_room();
        seen.push((r.encounter_state.kind, r.encounter_state.difficulty));
        assert_eq!(r.encounter_state.progress, EncounterProgress::Entering);
        assert_eq!(r.room_size, UVec2::new(640, 360));
    }
    assert_eq!(
        seen,
        vec![
            (EncounterKind::SimpOnly, 2),
            (EncounterKind::SimpOnly, 3),
            (EncounterKind::SpewOnly, 1),
            (EncounterKind::Both, 1),
            (EncounterKind::Both, 2),
            (EncounterKind::Both, 3),
        ]
    );
}

#[test]
fn next_room_resets_progress_and_keeps_size() {
    let r = RoomState {
        room_size: UVec2::new(10, 20),
        encounter_state: EncounterState {
            kind: EncounterKind::SpewOnly,
            difficulty: 7,
            progress: EncounterProgress::Dead,
        },
    };
    let n = r.next_room();
    assert_eq!(n.room_size, UVec2::new(10, 20));
    assert_eq!(n.encounter_state.kind, EncounterKind::Both);
    assert_eq!(n.encounter_state.difficulty, 1);
    assert_eq!(n.encounter_state.progress, EncounterProgress::Entering);
}

#[test]
fn meta_state_readers_round_trip() {
    let room = RoomState::xth_encounter(EncounterKind::Both, 4);
    let m = room.to_meta_state();
    assert_eq!(m, MetaState::Room(room));
    assert_eq!(m.get_room_state(), Some(room));
    assert_eq!(m.get_menu_state(), None);
    let menu = MenuState::Title.to_meta_state();
    assert_eq!(menu.get_menu_state(), Some(MenuState::Title));
    assert_eq!(menu.get_room_state(), None);
    let c = CutsceneState::Pending.to_meta_state();
    assert_eq!(c.get_cutscene_state(), Some(CutsceneState::Pending));
    assert_eq!(c.get_tutorial_state(), None);
    let t = TutorialState::Pending.to_meta_state();
    assert_eq!(t.get_tutorial_state(), Some(TutorialState::Pending));
    assert_eq!(MetaState::Transition.get_room_state(), None);
    assert_eq!(MetaState::Transition.get_menu_state(), None);
}

#[test]
fn physics_runs_only_in_unpaused_rooms_and_tutorials() {
    let room = MetaState::Room(RoomState::xth_encounter(EncounterKind::SimpOnly, 1));
    assert_eq!(PhysicsState::compute(room, PauseState::Unpaused), Some(PhysicsState::Active));
    assert_eq!(PhysicsState::compute(room, PauseState::Paused), Some(PhysicsState::Inactive));
    assert_eq!(
        PhysicsState::compute(MetaState::Tutorial(TutorialState::Pending), PauseState::Unpaused),
        Some(PhysicsState::Active)
    );
    assert_eq!(
        PhysicsState::compute(MetaState::Menu(MenuState::Studio), PauseState::Unpaused),
        Some(PhysicsState::Inactive)
    );
    assert_eq!(
        PhysicsState::compute(MetaState::Transition, PauseState::Unpaused),
        Some(PhysicsState::Inactive)
    );
}

#[test]
fn transition_state_is_the_discriminant() {
    let next = MetaState::Menu(MenuState::Title);
    assert_eq!(TransitionState::compute(MetaTransitionState::Stable), Some(TransitionState::Stable));
    assert_eq!(
        TransitionState::compute(MetaTransitionState::Leaving { next_meta_state: next }),
        Some(TransitionState::Leaving)
    );
    assert_eq!(
        TransitionState::compute(MetaTransitionState::Waiting { next_meta_state: next }),
        Some(TransitionState::Waiting)
    );
    assert_eq!(TransitionState::compute(MetaTransitionState::Entering), Some(TransitionState::Entering));
}

#[test]
fn encounter_computes_follow_the_room() {
    let room = RoomState::xth_encounter(EncounterKind::SpewOnly, 2);
    let m = MetaState::Room(room);
    assert_eq!(EncounterKind::compute(m), Some(EncounterKind::SpewOnly));
    assert_eq!(EncounterProgress::compute(m), Some(EncounterProgress::Entering));
    assert_eq!(EncounterState::compute(m), Some(room.encounter_state));
    assert_eq!(RoomState::compute(m), Some(room));
    let menu = MetaState::Menu(MenuState::Studio);
    assert_eq!(EncounterKind::compute(menu), None);
    assert_eq!(EncounterProgress::compute(menu), None);
    assert_eq!(EncounterState::compute(menu), None);
    assert_eq!(RoomState::compute(menu), None);
}

#[test]
fn wrap_size_is_room_or_ideal() {
    let room = RoomState::xth_encounter(EncounterKind::SimpOnly, 1);
    assert_eq!(MetaState::Room(room).wrap_size(), UVec2::new(640, 360));
    assert_eq!(MetaState::Transition.wrap_size(), UVec2::new(320, 180));
}

#[test]
fn mirage_offsets_are_the_eight_neighbours() {
    let room = RoomState::xth_encounter(EncounterKind::SimpOnly, 1);
    let offs = room.mirage_offsets();
    assert_eq!(offs.len(), 8);
    assert_eq!(offs[0], IVec2::new(-640, -360));
    assert_eq!(offs[4], IVec2::new(0, 360));
    assert_eq!(offs[7], IVec2::new(640, 360));
    assert!(!offs.contains(&IVec2::new(0, 0)));
    assert_eq!(wrap_offsets(UVec2::new(2, 3))[6], IVec2::new(2, 0));
}
