use zenith::camera::{camera_target, DynamicCameraMode};
use zenith::debug::{debug_state_update, DebugState, ShowPhysicsBounds};
use zenith::enemy::suicido::{
    charging_step, launching_step, ChargingStep, LaunchSpeedKind, LaunchingStep, moving_away, relaunch_goal, should_spawn_explosion_circle, suicido_animation,
    update_charge_goal, AnimationSuicidoBody, ChargeGoal,
};
use zenith::layer::{BgLightLayer, BgSpriteLayer, CameraLayer, LightLayer, MenuLayer, SpriteLayer};
use zenith::math::{IVec2, UVec2};
use zenith::mirage::{MirageAnimationManager, MirageTextureManager};
use zenith::physics::bullet_time::{bullet_time_speed, TimeSpeed};
use zenith::physics::entity::EntityId;
use zenith::physics::patrol::{patrol_step, targets_in_vision, PatrolStep};
use zenith::physics::statics::{static_response, StaticResponse, StaticRxKind, StaticTxKind};
use zenith::physics::triggers::{
    resolve_trigger_contacts, TriggerCollisionBundle, TriggerCollisionRecord, TriggerCollisionRole,
    TriggerContact, TriggerKind,
};
use zenith::ship::charges::{ChargeEvent, ChargeOutcome, RechargeEvent, ShipFireState, ShipLaunchState};
use zenith::ship::parts::part_missing;
use zenith::state::room::{EncounterKind, RoomState};
use zenith::state::AppMode;

fn contact(eid: u64, overlapping: bool) -> TriggerContact {
    TriggerContact { tx_eid: EntityId(eid), tx_kind: TriggerKind::ShipBullet, overlapping }
}

#[test]
fn trigger_records_come_in_pairs_once() {
    let mut seen = vec![];
    let contacts = vec![contact(1, true), contact(7, true), contact(2, false), contact(3, true), contact(3, true)];
    let recs = resolve_trigger_contacts(EntityId(1), TriggerKind::Ship, &contacts, &mut seen);
    assert_eq!(recs.len(), 4);
    assert_eq!(
        recs[0],
        TriggerCollisionRecord {
            my_role: TriggerCollisionRole::Rx,
            tx_eid: EntityId(7),
            tx_kind: TriggerKind::ShipBullet,
            rx_eid: EntityId(1),
            rx_kind: TriggerKind::Ship,
        }
    );
    assert_eq!(recs[1].my_role, TriggerCollisionRole::Tx);
    assert_eq!(recs[1].tx_eid, EntityId(7));
    assert_eq!(recs[2].tx_eid, EntityId(3));
    assert_eq!(recs[3].tx_eid, EntityId(3));
    assert_eq!(seen, vec![(1, 7), (1, 3)]);
    // A later step of the same move records nothing new for the same providers.
    let again = resolve_trigger_contacts(EntityId(1), TriggerKind::Ship, &contacts, &mut seen);
    assert!(again.is_empty());
    assert_eq!(seen.len(), 2);
}

#[test]
fn trigger_bundle_name() {
    let rec = TriggerCollisionRecord {
        my_role: TriggerCollisionRole::Tx,
        tx_eid: EntityId(4),
        tx_kind: TriggerKind::Ship,
        rx_eid: EntityId(5),
        rx_kind: TriggerKind::ShipBullet,
    };
    let b = TriggerCollisionBundle::new(rec);
    assert_eq!(b.name, "trigger_collision");
    assert_eq!(b.record, rec);
}

#[test]
fn patrol_steps() {
    let seen = targets_in_vision(&vec![(EntityId(1), true), (EntityId(2), false), (EntityId(3), true)]);
    assert_eq!(seen, vec![EntityId(1), EntityId(3)]);
    assert_eq!(patrol_step(&vec![], Some(EntityId(1)), true), PatrolStep::Deactivate);
    assert_eq!(patrol_step(&vec![], None, true), PatrolStep::Deactivate);
    assert_eq!(patrol_step(&vec![], Some(EntityId(1)), false), PatrolStep::Deactivate);
    assert_eq!(patrol_step(&seen, Some(EntityId(1)), true), PatrolStep::KeepTarget);
    assert_eq!(patrol_step(&seen, Some(EntityId(9)), true), PatrolStep::Retarget(EntityId(3)));
    assert_eq!(patrol_step(&seen, None, true), PatrolStep::Activate(EntityId(3)));
    // A patrol with its own marker never finds its lock and locks on anew every frame.
    assert_eq!(patrol_step(&seen, Some(EntityId(1)), false), PatrolStep::Activate(EntityId(3)));
    assert_eq!(patrol_step(&seen, None, false), PatrolStep::Activate(EntityId(3)));
}

fn charge_ev(within_time: bool, released: bool, drag_started: bool) -> ChargeEvent<f32> {
    ChargeEvent { within_time, advanced: 0.5, released, drag_started, zero: 0.0 }
}

#[test]
fn launch_charges() {
    let mut s = ShipLaunchState::new(1, 0.75f32, 1.0);
    assert_eq!(s.num_launches, 1);
    assert_eq!(s.current_launch, None);
    // No drag: nothing starts.
    assert_eq!(s.update_launch(charge_ev(true, false, false)), ChargeOutcome { force_release: false, released: false });
    assert_eq!(s.num_launches, 1);
    // A drag starts charging a launch, spending the charge.
    s.update_launch(charge_ev(true, false, true));
    assert_eq!(s.num_launches, 0);
    assert_eq!(s.current_launch, Some(0.0));
    // Charging goes on.
    s.update_launch(charge_ev(true, false, true));
    assert_eq!(s.current_launch, Some(0.5));
    // Out of time: the release is forced.
    assert_eq!(s.update_launch(charge_ev(false, false, true)), ChargeOutcome { force_release: true, released: false });
    assert_eq!(s.current_launch, Some(0.5));
    // The release launches.
    assert_eq!(s.update_launch(charge_ev(true, true, true)), ChargeOutcome { force_release: false, released: true });
    assert_eq!(s.current_launch, None);
    // With no charges left a drag starts nothing.
    s.update_launch(charge_ev(true, false, true));
    assert_eq!(s.current_launch, None);
    assert_eq!(s.num_launches, 0);
}

#[test]
fn recharging() {
    let mut s = ShipFireState::new(3, 0.75f32, 1.0);
    s.num_fires = 1;
    s.update_recharge(RechargeEvent { done: false, advanced: 0.3, zero: 0.0 });
    assert_eq!(s.current_recharge, Some(0.0));
    s.update_recharge(RechargeEvent { done: false, advanced: 0.3, zero: 0.0 });
    assert_eq!(s.current_recharge, Some(0.3));
    s.update_recharge(RechargeEvent { done: true, advanced: 1.3, zero: 0.0 });
    assert_eq!(s.num_fires, 2);
    assert_eq!(s.current_recharge, None);
    s.num_fires = 3;
    s.update_recharge(RechargeEvent { done: false, advanced: 0.3, zero: 0.0 });
    assert_eq!(s.current_recharge, None);
    // A fire spends a charge; a store over its maximum is capped by the recharge.
    s.update_fire(charge_ev(true, false, true));
    assert_eq!(s.num_fires, 2);
    assert_eq!(s.current_fire, Some(0.0));
    let mut t = ShipLaunchState::new(1, 0.75f32, 1.0);
    t.num_launches = 1;
    t.current_recharge = Some(2.0);
    t.update_recharge(RechargeEvent { done: true, advanced: 2.0, zero: 0.0 });
    assert_eq!(t.num_launches, 1);
}

#[test]
fn missing_parts() {
    assert!(part_missing(None));
    assert!(part_missing(Some(&vec![])));
    assert!(part_missing(Some(&vec![false, false])));
    assert!(!part_missing(Some(&vec![false, true])));
}

#[test]
fn suicido_decisions() {
    assert_eq!(suicido_animation(true, false, false), AnimationSuicidoBody::Charge);
    assert_eq!(suicido_animation(false, true, false), AnimationSuicidoBody::Launch);
    assert_eq!(suicido_animation(false, false, true), AnimationSuicidoBody::Explode);
    assert_eq!(suicido_animation(true, true, false), AnimationSuicidoBody::Charge);
    assert_eq!(suicido_animation(false, false, false), AnimationSuicidoBody::Charge);

    let spin: ChargeGoal<f32> = ChargeGoal::Angle { speed: 0.3 };
    assert_eq!(update_charge_goal(spin, Some(EntityId(5)), false, 0.0), ChargeGoal::Entity { eid: EntityId(5) });
    assert_eq!(update_charge_goal(spin, None, false, 0.0), spin);
    let locked: ChargeGoal<f32> = ChargeGoal::Entity { eid: EntityId(5) };
    assert_eq!(update_charge_goal(locked, None, true, 0.0), locked);
    assert_eq!(update_charge_goal(locked, None, false, 0.0), ChargeGoal::Angle { speed: 0.0 });

    assert_eq!(moving_away(Some(EntityId(1)), Some(EntityId(2)), true), Some(EntityId(2)));
    assert_eq!(moving_away(Some(EntityId(1)), Some(EntityId(2)), false), None);
    assert_eq!(moving_away(Some(EntityId(1)), None, false), Some(EntityId(1)));
    assert_eq!(moving_away(None, Some(EntityId(2)), true), None);

    assert_eq!(relaunch_goal(Some(EntityId(1)), Some(EntityId(2)), 0.1f32), ChargeGoal::Entity { eid: EntityId(1) });
    assert_eq!(relaunch_goal(None, Some(EntityId(2)), 0.1f32), ChargeGoal::Entity { eid: EntityId(2) });
    assert_eq!(relaunch_goal(None, None, 0.1f32), ChargeGoal::Angle { speed: 0.1 });

    assert!(should_spawn_explosion_circle(false, AnimationSuicidoBody::Explode, Some(3)));
    assert!(!should_spawn_explosion_circle(true, AnimationSuicidoBody::Explode, Some(3)));
    assert!(!should_spawn_explosion_circle(false, AnimationSuicidoBody::Explode, Some(2)));
    assert!(!should_spawn_explosion_circle(false, AnimationSuicidoBody::Launch, Some(3)));
    assert!(!should_spawn_explosion_circle(false, AnimationSuicidoBody::Explode, None));
}

#[test]
fn debug_settings() {
    let d = DebugState::default();
    assert!(d.show_physics_bounds);
    assert_eq!(ShowPhysicsBounds::compute(AppMode::Dev, d), Some(ShowPhysicsBounds));
    assert_eq!(ShowPhysicsBounds::compute(AppMode::Prod, d), None);
    let off = DebugState { show_physics_bounds: false };
    assert_eq!(ShowPhysicsBounds::compute(AppMode::Dev, off), None);
    assert_eq!(debug_state_update(off, d), Some(off));
    assert_eq!(debug_state_update(d, d), None);
}

#[test]
fn camera_follows_a_single_leader() {
    assert_eq!(camera_target(DynamicCameraMode::Follow, &vec![(1, 2)]), Some((1, 2)));
    assert_eq!(camera_target(DynamicCameraMode::Follow, &vec![(1, 2), (3, 4)]), None);
    assert_eq!(camera_target::<(i32, i32)>(DynamicCameraMode::Follow, &vec![]), None);
    assert_eq!(camera_target(DynamicCameraMode::Fixed, &vec![(1, 2)]), None);
}

#[test]
fn layers() {
    assert_eq!(BgSpriteLayer::layer(), 1);
    assert_eq!(BgLightLayer::layer(), 2);
    assert_eq!(SpriteLayer::layer(), 3);
    assert_eq!(LightLayer::layer(), 4);
    assert_eq!(MenuLayer::layer(), 5);
}

#[test]
fn mirages() {
    let room = RoomState::xth_encounter(EncounterKind::SimpOnly, 1);
    let a = MirageAnimationManager::room_offsets(&room);
    assert_eq!(a.offsets.len(), 8);
    assert_eq!(a.offsets[1], IVec2::new(-640, 0));
    let t = MirageTextureManager::room_offsets(&room);
    assert_eq!(t.offsets, a.offsets);
    let w = MirageAnimationManager::wrap_offsets(UVec2::new(320, 180));
    assert_eq!(w.offsets[3], IVec2::new(0, -180));
}

#[test]
fn bullet_time_slows_while_launching() {
    assert_eq!(bullet_time_speed(&vec![]), TimeSpeed::Normal);
    assert_eq!(bullet_time_speed(&vec![false, false]), TimeSpeed::Normal);
    assert_eq!(bullet_time_speed(&vec![false, true]), TimeSpeed::Slow);
}

#[test]
fn static_responses() {
    assert_eq!(static_response(StaticTxKind::Sticky, StaticRxKind::Stop), StaticResponse::Stop);
    assert_eq!(static_response(StaticTxKind::Normal, StaticRxKind::GoAround { mult: 2 }), StaticResponse::GoAround { mult: 2 });
    assert_eq!(static_response(StaticTxKind::Normal, StaticRxKind::Normal), StaticResponse::Bounce);
    assert_eq!(static_response(StaticTxKind::Sticky, StaticRxKind::Normal), StaticResponse::Stick);
}

#[test]
fn suicido_phase_switches() {
    let locked: ChargeGoal<f32> = ChargeGoal::Entity { eid: EntityId(5) };
    let spin: ChargeGoal<f32> = ChargeGoal::Angle { speed: 0.2 };
    assert_eq!(charging_step(&locked, false), ChargingStep::KeepCharging);
    assert_eq!(
        charging_step(&locked, true),
        ChargingStep::Launch { target: Some(EntityId(5)), speed: LaunchSpeedKind::Engaged }
    );
    assert_eq!(charging_step(&spin, true), ChargingStep::Launch { target: None, speed: LaunchSpeedKind::Wander });

    let e1 = Some(EntityId(1));
    let e2 = Some(EntityId(2));
    // Exploding comes first.
    assert_eq!(launching_step(true, e1, e2, true, true, true, 0.3f32), LaunchingStep::Explode);
    // Target seen in both frames, not further: time runs normally.
    assert_eq!(
        launching_step(false, e1, e2, false, false, true, 0.3f32),
        LaunchingStep::KeepLaunching { moving_away_from: None }
    );
    assert_eq!(
        launching_step(false, e1, e2, false, true, false, 0.3f32),
        LaunchingStep::Charge { goal: ChargeGoal::Entity { eid: EntityId(2) }, moving_away_from: None }
    );
    // Target lost: moving away from it, time runs fast, charge back towards it.
    assert_eq!(
        launching_step(false, e1, None, false, false, false, 0.3f32),
        LaunchingStep::KeepLaunching { moving_away_from: e1 }
    );
    assert_eq!(
        launching_step(false, e1, None, false, false, true, 0.3f32),
        LaunchingStep::Charge { goal: ChargeGoal::Entity { eid: EntityId(1) }, moving_away_from: e1 }
    );
    // Never saw anything: spin.
    assert_eq!(
        launching_step(false, None, None, false, true, false, 0.3f32),
        LaunchingStep::Charge { goal: ChargeGoal::Angle { speed: 0.3 }, moving_away_from: None }
    );
}

#[test]
fn recharge_completing_at_the_counter_limit_is_capped_by_the_maximum() {
    // A running recharge that is not done yet is accepted even at the counter's limit.
    let mut s = ShipFireState::new(u32::MAX, 0.75f32, 1.0);
    s.current_recharge = Some(0.0);
    s.update_recharge(RechargeEvent { done: false, advanced: 0.5, zero: 0.0 });
    assert_eq!(s.num_fires, u32::MAX);
    assert_eq!(s.current_recharge, Some(0.5));
}
