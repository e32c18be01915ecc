//! Launches and fires are charges: the ship holds a few, spends one to start charging
//! a launch (or a fire), and recharges them one at a time.
//!
//! Timers are values of a type chosen by the caller. Each frame the caller hands in what
//! the clock says (whether a timer is still within its limit, and what a timer reads once
//! the frame's time is added); the library decides what happens to the counts and timers.

use vstd::prelude::*;

verus! {

/// What the clock and the input say, this frame, to a charge in progress or waiting to start.
#[derive(Debug, Clone, Copy)]
pub struct ChargeEvent<Time> {
    /// The charge in progress has been held for less than its maximum time.
    pub within_time: bool,
    /// What the timer of the charge in progress reads after this frame.
    pub advanced: Time,
    /// A release (a launch or a fire) arrived this frame.
    pub released: bool,
    /// A drag of the matching button is in progress.
    pub drag_started: bool,
    /// The reading of a timer that has just started.
    pub zero: Time,
}

/// What a charge did this frame.
#[derive(Debug, Clone, Copy, PartialEq, Eq, Structural)]
pub struct ChargeOutcome {
    /// The charge ran out of time: the release must be forced.
    pub force_release: bool,
    /// The charge was released (the ship launches, or fires).
    pub released: bool,
}

/// What the clock says, this frame, to the recharge timer.
#[derive(Debug, Clone, Copy)]
pub struct RechargeEvent<Time> {
    /// The recharge in progress has run longer than the recharge time.
    pub done: bool,
    /// What the recharge timer reads after this frame.
    pub advanced: Time,
    /// The reading of a timer that has just started.
    pub zero: Time,
}

/// Counts and timers of one kind of charge after the charging part of a frame.
pub open spec fn spec_charge<Time>(num: u32, current: Option<Time>, ev: ChargeEvent<Time>) -> (
    u32,
    Option<Time>,
    ChargeOutcome,
) {
    match current {
        Some(_) => {
            let force = !ev.within_time;
            if ev.released {
                (num, None, ChargeOutcome { force_release: force, released: true })
            } else if ev.within_time {
                (num, Some(ev.advanced), ChargeOutcome { force_release: force, released: false })
            } else {
                (num, current, ChargeOutcome { force_release: force, released: false })
            }
        },
        None => if num > 0 && ev.drag_started {
            ((num - 1) as u32, Some(ev.zero), ChargeOutcome { force_release: false, released: false })
        } else {
            (num, None, ChargeOutcome { force_release: false, released: false })
        },
    }
}

/// Count and recharge timer of one kind of charge after the recharging part of a frame.
pub open spec fn spec_recharge<Time>(
    num: u32,
    max: u32,
    recharge: Option<Time>,
    ev: RechargeEvent<Time>,
) -> (u32, Option<Time>) {
    match recharge {
        Some(_) => if ev.done {
            (if max < num + 1 { max } else { (num + 1) as u32 }, None)
        } else {
            (num, Some(ev.advanced))
        },
        None => if num < max {
            (num, Some(ev.zero))
        } else {
            (num, None)
        },
    }
}

fn charge<Time: Copy>(num: u32, current: Option<Time>, ev: ChargeEvent<Time>) -> (r: (
    u32,
    Option<Time>,
    ChargeOutcome,
))
    ensures
        r == spec_charge(num, current, ev),
{
    match current {
        Some(_) => {
            let force = !ev.within_time;
            if ev.released {
                (num, None, ChargeOutcome { force_release: force, released: true })
            } else if ev.within_time {
                (num, Some(ev.advanced), ChargeOutcome { force_release: force, released: false })
            } else {
                (num, current, ChargeOutcome { force_release: force, released: false })
            }
        },
        None => {
            if num > 0 && ev.drag_started {
                (num - 1, Some(ev.zero), ChargeOutcome { force_release: false, released: false })
            } else {
                (num, None, ChargeOutcome { force_release: false, released: false })
            }
        },
    }
}

fn recharge<Time: Copy>(num: u32, max: u32, current: Option<Time>, ev: RechargeEvent<Time>) -> (r: (
    u32,
    Option<Time>,
))
    requires
        current is Some && ev.done ==> num < u32::MAX,
    ensures
        r == spec_recharge(num, max, current, ev),
{
    match current {
        Some(_) => {
            if ev.done {
                let next = if max < num + 1 {
                    max
                } else {
                    num + 1
                };
                (next, None)
            } else {
                (num, Some(ev.advanced))
            }
        },
        None => {
            if num < max {
                (num, Some(ev.zero))
            } else {
                (num, None)
            }
        },
    }
}

/// The store of launches of a ship.
#[derive(Debug, Clone, Copy)]
pub struct ShipLaunchState<Time> {
    /// How many launches the ship currently has
    pub num_launches: u32,
    /// How many total launches can the ship store at once
    pub max_num_launches: u32,
    /// How long can we be in launch-bullet time before we force fire?
    pub max_launch_time: Time,
    /// The current launch (how long we've spent launching), None if not launching
    pub current_launch: Option<Time>,
    /// How long does it take the ship to recharge a single launch
    pub launch_recharge_time: Time,
    /// The current recharge timer, None if num_launches = max_num_launches
    pub current_recharge: Option<Time>,
}

/// The store of fires of a ship.
#[derive(Debug, Clone, Copy)]
pub struct ShipFireState<Time> {
    /// How many fires the ship currently has
    pub num_fires: u32,
    /// How many total fires can the ship store at once
    pub max_num_fires: u32,
    /// How long can we be in fire-bullet time before we force fire?
    pub max_fire_time: Time,
    /// The current fire (how long we've spent firing), None if not firing
    pub current_fire: Option<Time>,
    /// How long does it take the ship to recharge a single fire
    pub fire_recharge_time: Time,
    /// The current recharge timer, None if num_fires = max_num_fires
    pub current_recharge: Option<Time>,
}

/// A store of charges is consistent: it never holds more than it can, and it recharges
/// only while it is not full.
pub open spec fn spec_charges_wf<Time>(num: u32, max: u32, recharge: Option<Time>) -> bool {
    &&& num <= max
    &&& num == max ==> recharge is None
}

impl<Time: Copy> ShipLaunchState<Time> {
    pub open spec fn wf(&self) -> bool {
        spec_charges_wf(self.num_launches, self.max_num_launches, self.current_recharge)
    }

    /// A full store of launches, none being charged or recharged.
    pub fn new(max_num_launches: u32, max_launch_time: Time, launch_recharge_time: Time) -> (r: Self)
        ensures
            r.num_launches == max_num_launches,
            r.max_num_launches == max_num_launches,
            r.max_launch_time == max_launch_time,
            r.current_launch is None,
            r.launch_recharge_time == launch_recharge_time,
            r.current_recharge is None,
            r.wf(),
    {
        ShipLaunchState {
            num_launches: max_num_launches,
            max_num_launches,
            max_launch_time,
            current_launch: None,
            launch_recharge_time,
            current_recharge: None,
        }
    }

    /// Handles starting a launch, charging it, and releasing it.
    pub fn update_launch(&mut self, ev: ChargeEvent<Time>) -> (outcome: ChargeOutcome)
        ensures
            ({
                let r = spec_charge(old(self).num_launches, old(self).current_launch, ev);
                &&& final(self).num_launches == r.0
                &&& final(self).current_launch == r.1
                &&& outcome == r.2
                &&& final(self).max_num_launches == old(self).max_num_launches
                &&& final(self).max_launch_time == old(self).max_launch_time
                &&& final(self).launch_recharge_time == old(self).launch_recharge_time
                &&& final(self).current_recharge == old(self).current_recharge
            }),
    {
        let (num, current, outcome) = charge(self.num_launches, self.current_launch, ev);
        self.num_launches = num;
        self.current_launch = current;
        outcome
    }

    /// Handles recharging launches, one at a time.
    pub fn update_recharge(&mut self, ev: RechargeEvent<Time>)
        requires
            old(self).current_recharge is Some && ev.done ==> old(self).num_launches < u32::MAX,
        ensures
            ({
                let r = spec_recharge(
                    old(self).num_launches,
                    old(self).max_num_launches,
                    old(self).current_recharge,
                    ev,
                );
                &&& final(self).num_launches == r.0
                &&& final(self).current_recharge == r.1
                &&& final(self).max_num_launches == old(self).max_num_launches
                &&& final(self).max_launch_time == old(self).max_launch_time
                &&& final(self).current_launch == old(self).current_launch
                &&& final(self).launch_recharge_time == old(self).launch_recharge_time
            }),
    {
        let (num, current) = recharge(self.num_launches, self.max_num_launches, self.current_recharge, ev);
        self.num_launches = num;
        self.current_recharge = current;
    }
}

impl<Time: Copy> ShipFireState<Time> {
    pub open spec fn wf(&self) -> bool {
        spec_charges_wf(self.num_fires, self.max_num_fires, self.current_recharge)
    }

    /// A full store of fires, none being charged or recharged.
    pub fn new(max_num_fires: u32, max_fire_time: Time, fire_recharge_time: Time) -> (r: Self)
        ensures
            r.num_fires == max_num_fires,
            r.max_num_fires == max_num_fires,
            r.max_fire_time == max_fire_time,
            r.current_fire is None,
            r.fire_recharge_time == fire_recharge_time,
            r.current_recharge is None,
            r.wf(),
    {
        ShipFireState {
            num_fires: max_num_fires,
            max_num_fires,
            max_fire_time,
            current_fire: None,
            fire_recharge_time,
            current_recharge: None,
        }
    }

    /// Handles starting a fire, charging it, and releasing it.
    pub fn update_fire(&mut self, ev: ChargeEvent<Time>) -> (outcome: ChargeOutcome)
        ensures
            ({
                let r = spec_charge(old(self).num_fires, old(self).current_fire, ev);
                &&& final(self).num_fires == r.0
                &&& final(self).current_fire == r.1
                &&& outcome == r.2
                &&& final(self).max_num_fires == old(self).max_num_fires
                &&& final(self).max_fire_time == old(self).max_fire_time
                &&& final(self).fire_recharge_time == old(self).fire_recharge_time
                &&& final(self).current_recharge == old(self).current_recharge
            }),
    {
        let (num, current, outcome) = charge(self.num_fires, self.current_fire, ev);
        self.num_fires = num;
        self.current_fire = current;
        outcome
    }

    /// Handles recharging fires, one at a time.
    pub fn update_recharge(&mut self, ev: RechargeEvent<Time>)
        requires
            old(self).current_recharge is Some && ev.done ==> old(self).num_fires < u32::MAX,
        ensures
            ({
                let r = spec_recharge(
                    old(self).num_fires,
                    old(self).max_num_fires,
                    old(self).current_recharge,
                    ev,
                );
                &&& final(self).num_fires == r.0
                &&& final(self).current_recharge == r.1
                &&& final(self).max_num_fires == old(self).max_num_fires
                &&& final(self).max_fire_time == old(self).max_fire_time
                &&& final(self).current_fire == old(self).current_fire
                &&& final(self).fire_recharge_time == old(self).fire_recharge_time
            }),
    {
        let (num, current) = recharge(self.num_fires, self.max_num_fires, self.current_recharge, ev);
        self.num_fires = num;
        self.current_recharge = current;
    }
}

/// Charging and recharging keep a store consistent: never more charges than it can hold,
/// and no recharge while full. A charge starts only by spending one of the stored charges,
/// and a recharge gives back at most one.
pub proof fn lemma_charges_stay_consistent<Time>(
    num: u32,
    max: u32,
    current: Option<Time>,
    recharge: Option<Time>,
    ev: ChargeEvent<Time>,
    rev: RechargeEvent<Time>,
)
    requires
        spec_charges_wf(num, max, recharge),
    ensures
        spec_charges_wf(spec_charge(num, current, ev).0, max, recharge),
        spec_charges_wf(spec_recharge(num, max, recharge, rev).0, max, spec_recharge(num, max, recharge, rev).1),
        spec_charge(num, current, ev).0 == num || (current is None && num > 0 && spec_charge(num, current, ev).0 == num - 1
            && spec_charge(num, current, ev).1 is Some),
        spec_recharge(num, max, recharge, rev).0 == num || spec_recharge(num, max, recharge, rev).0 == num + 1,
        (current is None && spec_charge(num, current, ev).1 is Some) ==> num > 0,
        spec_charge(num, current, ev).2.released ==> current is Some && spec_charge(num, current, ev).1 is None,
{
}

/// A recharge adds charges one at a time up to the maximum: a recharge that completes
/// gives back exactly one charge to a store below its maximum (a store at or above its
/// maximum is set to the maximum) and stops the recharge timer; a recharge that does not
/// complete keeps the count and advances its timer; with no recharge running, a store below
/// its maximum starts one and a full store does nothing.
pub proof fn lemma_recharge_adds_one_up_to_max<Time>(
    num: u32,
    max: u32,
    recharge: Option<Time>,
    ev: RechargeEvent<Time>,
)
    ensures
        (recharge is Some && ev.done && num < max) ==> spec_recharge(num, max, recharge, ev) == (
            (num + 1) as u32,
            None::<Time>,
        ),
        (recharge is Some && ev.done && num >= max) ==> spec_recharge(num, max, recharge, ev) == (
            max,
            None::<Time>,
        ),
        (recharge is Some && !ev.done) ==> spec_recharge(num, max, recharge, ev) == (
            num,
            Some(ev.advanced),
        ),
        (recharge is None && num < max) ==> spec_recharge(num, max, recharge, ev) == (num, Some(ev.zero)),
        (recharge is None && num >= max) ==> spec_recharge(num, max, recharge, ev) == (num, None::<Time>),
{
}

/// A release that arrives while a charge is in progress always ends it, whether or not the
/// charge has run out of time: the charge is released, its timer stops, and the count stays.
/// Without a release, a charge within its time keeps charging (its timer advances) and one
/// out of time asks for the release to be forced. A charge never starts while one is in
/// progress, and without one in progress nothing is released or forced.
pub proof fn lemma_release_ends_charge<Time>(num: u32, current: Option<Time>, ev: ChargeEvent<Time>)
    ensures
        (current is Some && ev.released) ==> ({
            let r = spec_charge(num, current, ev);
            &&& r.0 == num
            &&& r.1 is None
            &&& r.2.released
            &&& r.2.force_release == !ev.within_time
        }),
        (current is Some && !ev.released && ev.within_time) ==> spec_charge(num, current, ev) == (
            num,
            Some(ev.advanced),
            ChargeOutcome { force_release: false, released: false },
        ),
        (current is Some && !ev.released && !ev.within_time) ==> spec_charge(num, current, ev) == (
            num,
            current,
            ChargeOutcome { force_release: true, released: false },
        ),
        current is None ==> !spec_charge(num, current, ev).2.released && !spec_charge(num, current, ev).2.force_release,
        (current is None && num > 0 && ev.drag_started) ==> spec_charge(num, current, ev).1 == Some(ev.zero),
        (current is None && !(num > 0 && ev.drag_started)) ==> (spec_charge(num, current, ev).0 == num
            && spec_charge(num, current, ev).1 is None),
{
}

} // verus!
