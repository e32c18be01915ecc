//! Drag input: pressing a mouse button starts a drag, releasing it sends the drag off.
//!
//! Positions are handed in by the caller; the library only decides when a drag starts,
//! continues or ends, and which two positions a finished drag joins.

use vstd::prelude::*;

verus! {

/// What a mouse button did this frame.
#[derive(Debug, Clone, Copy, PartialEq, Eq, Structural)]
pub struct ButtonSnapshot {
    pub just_pressed: bool,
    pub pressed: bool,
    pub just_released: bool,
}

/// A finished drag: from where it started to where the cursor is now.
/// The launch (or fire) vector is `start - end`.
#[derive(Debug, Clone, Copy, PartialEq, Eq, Structural)]
pub struct DragRelease<Pos> {
    pub start: Pos,
    pub end: Pos,
}

/// Drag input
#[derive(Debug, Clone, Copy)]
pub struct DragInput<Pos> {
    pub screen_pos: Pos,
    pub world_pos: Pos,
    pub left_drag_start: Option<Pos>,
    pub right_drag_start: Option<Pos>,
}

/// Where a drag starts this frame, and the drag it finishes, if any.
pub open spec fn spec_drag_step<Pos>(
    drag_start: Option<Pos>,
    screen_pos: Pos,
    button: ButtonSnapshot,
    force: bool,
) -> (Option<Pos>, Option<DragRelease<Pos>>) {
    if button.just_pressed {
        (Some(screen_pos), None)
    } else {
        match drag_start {
            Some(start) => if !button.pressed || button.just_released || force {
                (None, Some(DragRelease { start, end: screen_pos }))
            } else {
                (Some(start), None)
            },
            None => (None, None),
        }
    }
}

/// One button's drag for one frame. A press starts a drag at the cursor; a drag in progress
/// ends (and is sent off) when the button is no longer held, was just released, or the end
/// is forced; otherwise it keeps its start.
pub fn drag_step<Pos: Copy>(
    drag_start: Option<Pos>,
    screen_pos: Pos,
    button: ButtonSnapshot,
    force: bool,
) -> (r: (Option<Pos>, Option<DragRelease<Pos>>))
    ensures
        r == spec_drag_step(drag_start, screen_pos, button, force),
{
    if button.just_pressed {
        (Some(screen_pos), None)
    } else {
        match drag_start {
            Some(start) => {
                if !button.pressed || button.just_released || force {
                    (None, Some(DragRelease { start, end: screen_pos }))
                } else {
                    (Some(start), None)
                }
            },
            None => (None, None),
        }
    }
}

impl<Pos: Copy> DragInput<Pos> {
    /// Drag input with the cursor at `pos` and no drag in progress.
    pub fn new(pos: Pos) -> (r: DragInput<Pos>)
        ensures
            r.screen_pos == pos,
            r.world_pos == pos,
            r.left_drag_start is None,
            r.right_drag_start is None,
    {
        DragInput { screen_pos: pos, world_pos: pos, left_drag_start: None, right_drag_start: None }
    }

    pub fn get_screen_pos(&self) -> (r: Pos)
        ensures
            r == self.screen_pos,
    {
        self.screen_pos
    }

    pub fn get_world_pos(&self) -> (r: Pos)
        ensures
            r == self.world_pos,
    {
        self.world_pos
    }

    pub fn get_left_drag_start(&self) -> (r: Option<Pos>)
        ensures
            r == self.left_drag_start,
    {
        self.left_drag_start
    }

    pub fn get_right_drag_start(&self) -> (r: Option<Pos>)
        ensures
            r == self.right_drag_start,
    {
        self.right_drag_start
    }

    /// Updates the drag input for a frame in which the cursor is at `screen_pos` in the window.
    /// The left button drives launches, the right one fires. Returns the launch and the fire
    /// finished this frame.
    pub fn update(
        &mut self,
        screen_pos: Pos,
        world_pos: Pos,
        left: ButtonSnapshot,
        right: ButtonSnapshot,
        force_launch: bool,
        force_fire: bool,
    ) -> (released: (Option<DragRelease<Pos>>, Option<DragRelease<Pos>>))
        ensures
            ({
                let l = spec_drag_step(old(self).left_drag_start, screen_pos, left, force_launch);
                let r = spec_drag_step(old(self).right_drag_start, screen_pos, right, force_fire);
                &&& final(self).screen_pos == screen_pos
                &&& final(self).world_pos == world_pos
                &&& final(self).left_drag_start == l.0
                &&& final(self).right_drag_start == r.0
                &&& released == (l.1, r.1)
            }),
    {
        let (left_drag_start, launch) = drag_step(self.left_drag_start, screen_pos, left, force_launch);
        let (right_drag_start, fire) = drag_step(self.right_drag_start, screen_pos, right, force_fire);
        *self = DragInput { screen_pos, world_pos, left_drag_start, right_drag_start };
        (launch, fire)
    }
}

/// A drag keeps the place where it started: while the button stays held it is neither
/// released nor moved; a release joins where the drag started to the current cursor and clears
/// the drag; without a drag in progress nothing is released.
pub proof fn lemma_drag_keeps_start<Pos>(
    start: Pos,
    screen_pos: Pos,
    button: ButtonSnapshot,
    force: bool,
)
    ensures
        (!button.just_pressed && button.pressed && !button.just_released && !force)
            ==> spec_drag_step(Some(start), screen_pos, button, force) == (
            Some(start),
            None::<DragRelease<Pos>>,
        ),
        spec_drag_step(Some(start), screen_pos, button, force).1 matches Some(rel) ==> (rel.start
            == start && rel.end == screen_pos && spec_drag_step(
            Some(start),
            screen_pos,
            button,
            force,
        ).0 is None),
        spec_drag_step(None::<Pos>, screen_pos, button, force).1 is None,
        button.just_pressed ==> spec_drag_step(Some(start), screen_pos, button, force).0 == Some(
            screen_pos,
        ),
{
}

} // verus!
