use zenith::animation::animation_manager::{AnimationManager, MutableAnimationManagerActions};
use zenith::animation::frames::{
    advance_frame, apply_frame_step, next_for_body, AnimationNextState, FrameStep,
};
use zenith::animation::manager::AnimationLenny;
use zenith::animation::planet_textures::{
    TextureNormalPlanetPart, TextureTestPlanetBody, TextureTestPlanetPart, TextureTestPlanetState,
};
use zenith::animation::texture_manager::{
    MutableTextureManagerActions, TextureDimGrowth, TextureGrowth, TextureManager, TexturePart,
    TextureStateMachine,
};
use zenith::change::ChangeTracked;
use zenith::enemy::suicido::AnimationSuicidoBody;

#[test]
fn new_manager_is_visible_and_initial() {
    let m: AnimationManager<AnimationLenny> = AnimationManager::new();
    assert_eq!(m.get_state(), AnimationLenny::Fly);
    assert!(!m.get_hidden());
    assert!(!m.get_flip_x());
    assert!(!m.get_flip_y());
    let m = m.with_state(AnimationLenny::Stable).with_hidden(true).with_flip_x(true).with_flip_y(true);
    assert_eq!(m.get_state(), AnimationLenny::Stable);
    assert!(m.get_hidden() && m.get_flip_x() && m.get_flip_y());
}

#[test]
fn set_same_value_does_not_change() {
    let mut t = ChangeTracked::new(AnimationManager::<AnimationLenny>::new());
    t.set_state(AnimationLenny::Fly);
    t.set_hidden(false);
    t.set_flip_x(false);
    t.set_flip_y(false);
    assert!(!t.is_changed());
    t.set_state(AnimationLenny::Fall);
    assert!(t.is_changed());
    assert_eq!(t.get().get_state(), AnimationLenny::Fall);
}

#[test]
fn reset_always_changes() {
    let mut t = ChangeTracked::new(AnimationManager::<AnimationLenny>::new());
    t.reset_state(AnimationLenny::Fly);
    assert!(t.is_changed());
    let mut t = ChangeTracked::new(AnimationManager::<AnimationLenny>::new());
    t.reset_hidden(false);
    assert!(t.is_changed());
    let mut t = ChangeTracked::new(AnimationManager::<AnimationLenny>::new());
    t.reset_flip_x(true);
    t.reset_flip_y(true);
    let m = t.into_inner();
    assert!(m.flip_x && m.flip_y);
}

#[test]
fn frames_advance_and_loop() {
    let next: AnimationNextState<AnimationLenny, f32> = AnimationNextState::Loop;
    assert_eq!(advance_frame(0, 3, next), FrameStep::Show(1));
    assert_eq!(advance_frame(1, 3, next), FrameStep::Show(2));
    assert_eq!(advance_frame(2, 3, next), FrameStep::Show(0));
    assert_eq!(advance_frame(0, 1, next), FrameStep::Hold);
    assert_eq!(advance_frame(0, 0, next), FrameStep::Hold);
}

#[test]
fn last_frame_ends_the_state() {
    let next: AnimationNextState<AnimationLenny, f32> = AnimationNextState::Next(AnimationLenny::Fall);
    assert_eq!(advance_frame(3, 4, next), FrameStep::Transition(AnimationLenny::Fall));
    assert_eq!(advance_frame(2, 4, next), FrameStep::Show(3));
    let die: AnimationNextState<AnimationLenny, f32> = AnimationNextState::HideThenDie(0.1);
    assert_eq!(advance_frame(0, 1, die), FrameStep::HideThenDie(0.1));
}

#[test]
fn applying_steps_to_the_manager() {
    let mut t = ChangeTracked::new(AnimationManager::<AnimationSuicidoBody>::new());
    assert_eq!(apply_frame_step(&mut t, FrameStep::<_, f32>::Show(2), false), None);
    assert!(!t.is_changed());
    assert_eq!(apply_frame_step(&mut t, FrameStep::<_, f32>::Transition(AnimationSuicidoBody::Charge), false), None);
    assert!(t.is_changed());
    let mut t = ChangeTracked::new(AnimationManager::<AnimationSuicidoBody>::new());
    assert_eq!(apply_frame_step(&mut t, FrameStep::<AnimationSuicidoBody, f32>::HideThenDie(0.5), false), Some(0.5));
    assert!(t.get().get_hidden());
    assert!(t.is_changed());
    assert_eq!(apply_frame_step(&mut t, FrameStep::<AnimationSuicidoBody, f32>::HideThenDie(0.5), true), None);
}

#[test]
fn texture_growth_defaults_to_repeat() {
    let g = TextureGrowth::default();
    assert_eq!(g.x, TextureDimGrowth::Repeat);
    assert_eq!(g.y, TextureDimGrowth::Repeat);
}

#[test]
fn texture_manager_points() {
    let m: TextureManager<TextureTestPlanetState, Vec<(i32, i32)>> = TextureManager::new();
    assert_eq!(m.get_state(), TextureTestPlanetState::BlueInner);
    let m = m
        .with_part_points(TextureTestPlanetPart::Inner, vec![(0, 0)])
        .with_part_points(TextureTestPlanetPart::Outer, vec![(1, 1), (2, 2)])
        .with_part_points(TextureTestPlanetPart::Inner, vec![(3, 3)]);
    assert_eq!(m.get_part_points(TextureTestPlanetPart::Inner), &vec![(3, 3)]);
    assert_eq!(m.get_part_points(TextureTestPlanetPart::Outer), &vec![(1, 1), (2, 2)]);
    let mut t = ChangeTracked::new(m);
    t.set_part_points(TextureTestPlanetPart::Outer, vec![(1, 1), (2, 2)]);
    assert!(!t.is_changed());
    t.set_part_points(TextureTestPlanetPart::Outer, vec![(5, 5)]);
    assert!(t.is_changed());
    assert_eq!(t.get().get_part_points(TextureTestPlanetPart::Outer), &vec![(5, 5)]);
    let mut t = ChangeTracked::new(t.into_inner());
    t.set_state(TextureTestPlanetState::BlueInner);
    assert!(!t.is_changed());
    t.set_state(TextureTestPlanetState::BlueInner.toggled());
    assert!(t.is_changed());
    assert_eq!(t.get().get_state(), TextureTestPlanetState::RedInner);
    let mut t = ChangeTracked::new(t.into_inner());
    t.reset_state(TextureTestPlanetState::RedInner);
    assert!(t.is_changed());
    let mut t = ChangeTracked::new(t.into_inner());
    t.reset_part_points(TextureTestPlanetPart::Inner, vec![(3, 3)]);
    assert!(t.is_changed());
}

#[test]
fn planet_parts_and_bodies() {
    assert_eq!(TextureTestPlanetPart::all(), vec![TextureTestPlanetPart::Inner, TextureTestPlanetPart::Outer]);
    assert_eq!(TextureNormalPlanetPart::all(), vec![TextureNormalPlanetPart::Single]);
    let s = TextureTestPlanetState::BlueInner;
    assert_eq!(s.part_to_body(TextureTestPlanetPart::Inner), TextureTestPlanetBody::Blue);
    assert_eq!(s.part_to_body(TextureTestPlanetPart::Outer), TextureTestPlanetBody::Red);
    let r = s.toggled();
    assert_eq!(r.part_to_body(TextureTestPlanetPart::Inner), TextureTestPlanetBody::Red);
    assert_eq!(r.toggled(), s);
}

#[test]
fn only_the_first_body_moves_the_state_on() {
    let next: AnimationNextState<AnimationLenny, f32> = AnimationNextState::Next(AnimationLenny::Fall);
    assert_eq!(next_for_body(0, next), next);
    assert_eq!(next_for_body(1, next), AnimationNextState::Loop);
    assert_eq!(next_for_body(2, AnimationNextState::<AnimationLenny, f32>::HideThenDie(0.1)), AnimationNextState::Loop);
}
