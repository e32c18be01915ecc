use zenith::input::{drag_step, ButtonSnapshot, DragInput, DragRelease};

const IDLE: ButtonSnapshot = ButtonSnapshot { just_pressed: false, pressed: false, just_released: false };
const PRESS: ButtonSnapshot = ButtonSnapshot { just_pressed: true, pressed: true, just_released: false };
const HOLD: ButtonSnapshot = ButtonSnapshot { just_pressed: false, pressed: true, just_released: false };
const RELEASE: ButtonSnapshot = ButtonSnapshot { just_pressed: false, pressed: false, just_released: true };

#[test]
fn press_starts_a_drag_at_the_cursor() {
    assert_eq!(drag_step(None, (1.0f32, 2.0f32), PRESS, false), (Some((1.0, 2.0)), None));
    // A press during a drag restarts it without releasing.
    assert_eq!(drag_step(Some((0.0f32, 0.0f32)), (5.0, 5.0), PRESS, true), (Some((5.0, 5.0)), None));
}

#[test]
fn holding_keeps_the_start() {
    assert_eq!(drag_step(Some((3, 4)), (9, 9), HOLD, false), (Some((3, 4)), None));
}

#[test]
fn release_sends_the_drag_off() {
    assert_eq!(
        drag_step(Some((3, 4)), (9, 1), RELEASE, false),
        (None, Some(DragRelease { start: (3, 4), end: (9, 1) }))
    );
    assert_eq!(
        drag_step(Some((3, 4)), (9, 1), IDLE, false),
        (None, Some(DragRelease { start: (3, 4), end: (9, 1) }))
    );
    // Forced while still held.
    assert_eq!(
        drag_step(Some((3, 4)), (9, 1), HOLD, true),
        (None, Some(DragRelease { start: (3, 4), end: (9, 1) }))
    );
}

#[test]
fn nothing_without_a_drag() {
    assert_eq!(drag_step(None::<(i32, i32)>, (9, 1), RELEASE, true), (None, None));
    assert_eq!(drag_step(None::<(i32, i32)>, (9, 1), HOLD, false), (None, None));
}

#[test]
fn update_drives_both_buttons() {
    let mut input = DragInput::new((0, 0));
    assert_eq!(input.get_screen_pos(), (0, 0));
    assert_eq!(input.get_left_drag_start(), None);
    let (launch, fire) = input.update((10, 10), (11, 11), PRESS, IDLE, false, false);
    assert_eq!((launch, fire), (None, None));
    assert_eq!(input.get_left_drag_start(), Some((10, 10)));
    assert_eq!(input.get_right_drag_start(), None);
    assert_eq!(input.get_world_pos(), (11, 11));
    let (launch, fire) = input.update((4, 6), (4, 6), RELEASE, PRESS, false, false);
    assert_eq!(launch, Some(DragRelease { start: (10, 10), end: (4, 6) }));
    assert_eq!(fire, None);
    assert_eq!(input.get_left_drag_start(), None);
    assert_eq!(input.get_right_drag_start(), Some((4, 6)));
    let (launch, fire) = input.update((1, 1), (1, 1), IDLE, HOLD, false, true);
    assert_eq!(launch, None);
    assert_eq!(fire, Some(DragRelease { start: (4, 6), end: (1, 1) }));
    assert_eq!(input.get_screen_pos(), (1, 1));
}
