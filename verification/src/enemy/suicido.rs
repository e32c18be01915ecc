//! The suicido: an enemy that charges up, launches itself at the ship, and explodes.
//! Angles, distances and times are the caller's; the library decides the goals and states.

use vstd::prelude::*;

use crate::animation::animation_manager::AnimationStateMachine;
use crate::physics::entity::EntityId;

verus! {

/// The animation states of a suicido's body.
#[derive(Debug, Copy, Clone, PartialEq, Eq, Structural)]
pub enum AnimationSuicidoBody {
    Charge,
    Launch,
    Explode,
}

impl AnimationStateMachine for AnimationSuicidoBody {
    open spec fn spec_initial() -> Self {
        AnimationSuicidoBody::Charge
    }

    fn initial() -> (r: Self) {
        AnimationSuicidoBody::Charge
    }

    fn same_state(&self, other: &Self) -> (r: bool) {
        *self == *other
    }
}

/// What a charging suicido aims at: a spin at some speed, or an entity.
#[derive(Debug, Clone, Copy, PartialEq, Eq, Structural)]
pub enum ChargeGoal<Speed> {
    Angle { speed: Speed },
    Entity { eid: EntityId },
}

/// The animation a suicido shows: the one of the single phase it is in, and the charge
/// animation when it is in none or in several.
pub fn suicido_animation(charging: bool, launching: bool, exploding: bool) -> (state: AnimationSuicidoBody)
    ensures
        state == (if charging && !launching && !exploding {
            AnimationSuicidoBody::Charge
        } else if !charging && launching && !exploding {
            AnimationSuicidoBody::Launch
        } else if !charging && !launching && exploding {
            AnimationSuicidoBody::Explode
        } else {
            AnimationSuicidoBody::Charge
        }),
{
    match (charging, launching, exploding) {
        (true, false, false) => AnimationSuicidoBody::Charge,
        (false, true, false) => AnimationSuicidoBody::Launch,
        (false, false, true) => AnimationSuicidoBody::Explode,
        _ => AnimationSuicidoBody::Charge,
    }
}

/// Updates the goal of a charging suicido: a spinning suicido locks on to the target its
/// engage vision sees; one locked on to an entity that is no longer a ship stops spinning.
pub fn update_charge_goal<Speed: Copy>(
    goal: ChargeGoal<Speed>,
    engaged: Option<EntityId>,
    goal_is_ship: bool,
    still: Speed,
) -> (r: ChargeGoal<Speed>)
    ensures
        r == (match goal {
            ChargeGoal::Angle { .. } => match engaged {
                Some(t) => ChargeGoal::Entity { eid: t },
                None => goal,
            },
            ChargeGoal::Entity { .. } => if goal_is_ship {
                goal
            } else {
                ChargeGoal::Angle { speed: still }
            },
        }),
{
    match goal {
        ChargeGoal::Angle { .. } => match engaged {
            Some(t) => ChargeGoal::Entity { eid: t },
            None => goal,
        },
        ChargeGoal::Entity { .. } => {
            if goal_is_ship {
                goal
            } else {
                ChargeGoal::Angle { speed: still }
            }
        },
    }
}

/// The target a launched suicido is moving away from, if any.
pub open spec fn spec_moving_away(
    last_seen: Option<EntityId>,
    now_seen: Option<EntityId>,
    got_further: bool,
) -> Option<EntityId> {
    match (last_seen, now_seen) {
        (Some(_), Some(t)) => if got_further {
            Some(t)
        } else {
            None
        },
        (Some(t), None) => Some(t),
        _ => None,
    }
}

/// The goal of a suicido that starts charging again after a launch.
pub open spec fn spec_relaunch_goal<Speed>(
    engaged: Option<EntityId>,
    moving_away_from: Option<EntityId>,
    spin: Speed,
) -> ChargeGoal<Speed> {
    match engaged {
        Some(t) => ChargeGoal::Entity { eid: t },
        None => match moving_away_from {
            Some(t) => ChargeGoal::Entity { eid: t },
            None => ChargeGoal::Angle { speed: spin },
        },
    }
}

/// The target a launched suicido is moving away from, if any: the target it sees now when
/// it is seen in both frames and got further, or the target it saw last frame and no longer sees.
pub fn moving_away(
    last_seen: Option<EntityId>,
    now_seen: Option<EntityId>,
    got_further: bool,
) -> (r: Option<EntityId>)
    ensures
        r == spec_moving_away(last_seen, now_seen, got_further),
{
    match (last_seen, now_seen) {
        (Some(_), Some(t)) => {
            if got_further {
                Some(t)
            } else {
                None
            }
        },
        (Some(t), None) => Some(t),
        _ => None,
    }
}

/// The goal of a suicido that starts charging again after a launch: the target it sees,
/// else the target it was moving away from, else a spin at the given speed.
pub fn relaunch_goal<Speed>(
    engaged: Option<EntityId>,
    moving_away_from: Option<EntityId>,
    spin: Speed,
) -> (r: ChargeGoal<Speed>)
    ensures
        r == spec_relaunch_goal(engaged, moving_away_from, spin),
{
    match engaged {
        Some(t) => ChargeGoal::Entity { eid: t },
        None => match moving_away_from {
            Some(t) => ChargeGoal::Entity { eid: t },
            None => ChargeGoal::Angle { speed: spin },
        },
    }
}

/// The frame of the explosion at which the explosion circle appears.
pub const EXPLOSION_CIRCLE_FRAME: u32 = 3;

/// Whether an exploding suicido spawns its explosion circle now: once only, when its body
/// shows the explosion and the explosion has reached the circle's frame.
pub fn should_spawn_explosion_circle(
    has_spawned_circle: bool,
    state: AnimationSuicidoBody,
    explode_frame: Option<u32>,
) -> (r: bool)
    ensures
        r == (!has_spawned_circle && state == AnimationSuicidoBody::Explode && explode_frame == Some(
            EXPLOSION_CIRCLE_FRAME,
        )),
{
    if has_spawned_circle {
        return false;
    }
    match (state, explode_frame) {
        (AnimationSuicidoBody::Explode, Some(ix)) => ix == EXPLOSION_CIRCLE_FRAME,
        _ => false,
    }
}

/// How fast a suicido launches.
#[derive(Debug, Clone, Copy, PartialEq, Eq, Structural)]
pub enum LaunchSpeedKind {
    /// Locked on to a target: the engaged launch speed (and a ring shrinks where it launches).
    Engaged,
    /// Spinning freely: the wander launch speed.
    Wander,
}

/// What a charging suicido does once its charge timer has been advanced this frame.
#[derive(Debug, Clone, Copy, PartialEq, Eq, Structural)]
pub enum ChargingStep {
    /// The charge time is not up: keep charging.
    KeepCharging,
    /// The charge time is up: stop charging and launch. `target` is the entity locked on to,
    /// which the launch then watches (starting from the greatest distance).
    Launch { target: Option<EntityId>, speed: LaunchSpeedKind },
}

pub open spec fn spec_charging_step<Speed>(goal: ChargeGoal<Speed>, time_up: bool) -> ChargingStep {
    if !time_up {
        ChargingStep::KeepCharging
    } else {
        match goal {
            ChargeGoal::Entity { eid } => ChargingStep::Launch {
                target: Some(eid),
                speed: LaunchSpeedKind::Engaged,
            },
            ChargeGoal::Angle { .. } => ChargingStep::Launch {
                target: None,
                speed: LaunchSpeedKind::Wander,
            },
        }
    }
}

/// Decides whether a charging suicido launches: it does once its charge time is up
/// (`time_up`: the advanced timer exceeds the charge time), at the engaged speed and
/// watching its target when locked on to one, else at the wander speed.
pub fn charging_step<Speed>(goal: &ChargeGoal<Speed>, time_up: bool) -> (step: ChargingStep)
    ensures
        step == spec_charging_step(*goal, time_up),
{
    if !time_up {
        return ChargingStep::KeepCharging;
    }
    match goal {
        ChargeGoal::Entity { eid } => ChargingStep::Launch {
            target: Some(*eid),
            speed: LaunchSpeedKind::Engaged,
        },
        ChargeGoal::Angle { .. } => ChargingStep::Launch { target: None, speed: LaunchSpeedKind::Wander },
    }
}

/// What a launched suicido does this frame.
#[derive(Debug, Clone, Copy, PartialEq, Eq, Structural)]
pub enum LaunchingStep<Speed> {
    /// A ship is in explode range: start exploding (nothing else happens this frame).
    Explode,
    /// Keep flying. When `moving_away_from` is some target, time runs faster by the
    /// moving-away multiplier.
    KeepLaunching { moving_away_from: Option<EntityId> },
    /// The launch time is up: charge again towards `goal`.
    Charge { goal: ChargeGoal<Speed>, moving_away_from: Option<EntityId> },
}

pub open spec fn spec_launching_step<Speed>(
    explode_in_range: bool,
    last_seen: Option<EntityId>,
    now_seen: Option<EntityId>,
    got_further: bool,
    time_up: bool,
    time_up_moving_away: bool,
    spin: Speed,
) -> LaunchingStep<Speed> {
    if explode_in_range {
        LaunchingStep::Explode
    } else {
        let away = spec_moving_away(last_seen, now_seen, got_further);
        let up = if away is Some {
            time_up_moving_away
        } else {
            time_up
        };
        if up {
            LaunchingStep::Charge { goal: spec_relaunch_goal(now_seen, away, spin), moving_away_from: away }
        } else {
            LaunchingStep::KeepLaunching { moving_away_from: away }
        }
    }
}

/// Decides what a launched suicido does this frame: explode when a ship is in explode range;
/// otherwise it notes whether it is moving away from a target (seen in both frames and got
/// further, or seen last frame only), which makes its time run faster, and once its launch
/// time is up it charges again, towards the target it sees, else the one it moves away from,
/// else spinning at `spin`.
///
/// `now_seen` is the target its engage vision sees now, `last_seen` the one it saw last frame,
/// `got_further` whether the target is now further than before. `time_up` and
/// `time_up_moving_away` say whether the launch time is up once this frame's time is added
/// at the normal rate and at the moving-away rate.
pub fn launching_step<Speed>(
    explode_in_range: bool,
    last_seen: Option<EntityId>,
    now_seen: Option<EntityId>,
    got_further: bool,
    time_up: bool,
    time_up_moving_away: bool,
    spin: Speed,
) -> (step: LaunchingStep<Speed>)
    ensures
        step == spec_launching_step(
            explode_in_range,
            last_seen,
            now_seen,
            got_further,
            time_up,
            time_up_moving_away,
            spin,
        ),
{
    if explode_in_range {
        return LaunchingStep::Explode;
    }
    let away = moving_away(last_seen, now_seen, got_further);
    let up = match away {
        Some(_) => time_up_moving_away,
        None => time_up,
    };
    if up {
        LaunchingStep::Charge { goal: relaunch_goal(now_seen, away, spin), moving_away_from: away }
    } else {
        LaunchingStep::KeepLaunching { moving_away_from: away }
    }
}

/// The suicido's cycle never gets stuck and never aims at nothing it knew of: a launch locked
/// on to a target watches that target; a suicido that charges again after a launch aims at an
/// entity whenever it saw one this frame or last frame; exploding takes precedence over all.
pub proof fn lemma_suicido_cycle<Speed>(
    goal: ChargeGoal<Speed>,
    last_seen: Option<EntityId>,
    now_seen: Option<EntityId>,
    got_further: bool,
    time_up: bool,
    time_up_moving_away: bool,
    spin: Speed,
)
    ensures
        (spec_charging_step(goal, true) is Launch),
        (match goal {
            ChargeGoal::Entity { eid } => spec_charging_step(goal, true) == (ChargingStep::Launch {
                target: Some(eid),
                speed: LaunchSpeedKind::Engaged,
            }),
            _ => true,
        }),
        (spec_launching_step(true, last_seen, now_seen, got_further, time_up, time_up_moving_away, spin)
            is Explode),
        (match spec_launching_step(false, last_seen, now_seen, got_further, time_up, time_up_moving_away, spin) {
            LaunchingStep::Charge { goal: g, .. } => (now_seen is Some || last_seen is Some) ==> (g is Entity),
            _ => true,
        }),
{
}

/// A suicido keeps charging until its charge time is up, whatever its goal; once the time is
/// up it launches, locked on to its goal's entity at the engaged speed, or at the wander
/// speed when it is only spinning.
pub proof fn lemma_charge_until_time_up<Speed>(goal: ChargeGoal<Speed>, time_up: bool)
    ensures
        !time_up ==> spec_charging_step(goal, time_up) == ChargingStep::KeepCharging,
        time_up ==> (spec_charging_step(goal, time_up) is Launch),
        (time_up && goal is Angle) ==> spec_charging_step(goal, time_up) == (ChargingStep::Launch {
            target: None,
            speed: LaunchSpeedKind::Wander,
        }),
        (match goal {
            ChargeGoal::Entity { eid } => time_up ==> spec_charging_step(goal, time_up) == (
            ChargingStep::Launch { target: Some(eid), speed: LaunchSpeedKind::Engaged }),
            _ => true,
        }),
{
}

} // verus!
