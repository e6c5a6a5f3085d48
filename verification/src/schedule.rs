//! When a node announces itself: a full beacon on every change and on every fifth tick, and a
//! heartbeat on the other ticks.
use vstd::prelude::*;

verus! {

/// The time between two ticks.
pub const HEARTBEAT_INTERVAL_MILLIS: u64 = 1000;

/// How many ticks apart the full beacons are.
pub const FULL_BEACON_TICKS: u32 = 5;

/// The time between two looks for nodes that were not heard of for too long.
pub const CLEANUP_INTERVAL_MILLIS: u64 = 1000;

/// What the announcing task waited for.
#[derive(Debug, Clone, Copy, PartialEq, Eq, Structural)]
pub enum BeaconTrigger {
    Cancelled,
    /// What the node announces has changed.
    Changed,
    /// There is nobody left who could change it.
    ChangesClosed,
    Tick,
}

/// What is due.
#[derive(Debug, Clone, Copy, PartialEq, Eq, Structural)]
pub enum BeaconDue {
    Stop,
    FullBeacon,
    Heartbeat,
}

/// What is due, from the number of ticks since the last full beacon.
pub open spec fn due_after(ticks: nat, trigger: BeaconTrigger) -> BeaconDue {
    match trigger {
        BeaconTrigger::Cancelled => BeaconDue::Stop,
        BeaconTrigger::ChangesClosed => BeaconDue::Stop,
        BeaconTrigger::Changed => BeaconDue::FullBeacon,
        BeaconTrigger::Tick => if ticks + 1 >= FULL_BEACON_TICKS {
            BeaconDue::FullBeacon
        } else {
            BeaconDue::Heartbeat
        },
    }
}

/// The number of ticks since the last full beacon, after one more trigger.
pub open spec fn ticks_after(ticks: nat, trigger: BeaconTrigger) -> nat {
    match due_after(ticks, trigger) {
        BeaconDue::Stop => ticks,
        BeaconDue::FullBeacon => 0,
        BeaconDue::Heartbeat => ticks + 1,
    }
}

/// The announcing task of a node.
#[derive(Debug)]
pub struct BeaconSchedule {
    ticks_since_full: u32,
}

impl View for BeaconSchedule {
    type V = nat;

    closed spec fn view(&self) -> nat {
        self.ticks_since_full as nat
    }
}

impl BeaconSchedule {
    /// What every schedule keeps: a full beacon is never overdue.
    pub closed spec fn wf(self) -> bool {
        self.ticks_since_full < FULL_BEACON_TICKS
    }

    /// A schedule right after a full beacon.
    pub fn new() -> (schedule: Self)
        ensures
            schedule.wf(),
            schedule@ == 0,
    {
        BeaconSchedule { ticks_since_full: 0 }
    }

    /// What is due.
    pub fn step(&mut self, trigger: BeaconTrigger) -> (due: BeaconDue)
        requires
            old(self).wf(),
        ensures
            final(self).wf(),
            due == due_after(old(self)@, trigger),
            final(self)@ == ticks_after(old(self)@, trigger),
    {
        match trigger {
            BeaconTrigger::Cancelled => BeaconDue::Stop,
            BeaconTrigger::ChangesClosed => BeaconDue::Stop,
            BeaconTrigger::Changed => {
                self.ticks_since_full = 0;
                BeaconDue::FullBeacon
            },
            BeaconTrigger::Tick => {
                self.ticks_since_full = self.ticks_since_full + 1;
                if self.ticks_since_full >= FULL_BEACON_TICKS {
                    self.ticks_since_full = 0;
                    BeaconDue::FullBeacon
                } else {
                    BeaconDue::Heartbeat
                }
            },
        }
    }
}

/// The number of ticks since the last full beacon, after a run of ticks that began right after one.
pub open spec fn ticks_after_run(run: nat) -> nat
    decreases run,
{
    if run == 0 {
        0
    } else {
        ticks_after(ticks_after_run((run - 1) as nat), BeaconTrigger::Tick)
    }
}

/// While nothing changes, exactly every fifth tick brings a full beacon, and the others bring
/// heartbeats.
pub proof fn law_every_fifth_tick_is_full(tick: nat)
    requires
        tick > 0,
    ensures
        due_after(ticks_after_run((tick - 1) as nat), BeaconTrigger::Tick) == (if tick
            % FULL_BEACON_TICKS as nat == 0 {
            BeaconDue::FullBeacon
        } else {
            BeaconDue::Heartbeat
        }),
{
    lemma_ticks_after_run((tick - 1) as nat);
}

proof fn lemma_ticks_after_run(run: nat)
    ensures
        ticks_after_run(run) == run % FULL_BEACON_TICKS as nat,
    decreases run,
{
    if run > 0 {
        lemma_ticks_after_run((run - 1) as nat);
    }
}

/// A change is announced at once, whatever went before.
pub proof fn law_change_announced_at_once(ticks: nat)
    ensures
        due_after(ticks, BeaconTrigger::Changed) == BeaconDue::FullBeacon,
        ticks_after(ticks, BeaconTrigger::Changed) == 0,
{
}

} // verus!
