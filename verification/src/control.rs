//! The fan controller: one tick of the control loop, write suppression, the
//! idle fallback, and the once-only cleanup that hands the device back.
//!
//! The controller itself only decides; the process around it reads the
//! sensor and performs the file writes. [`FanController::plan_tick`] and
//! [`FanController::commit`] are the two halves of a tick as the loop runs
//! them against the real device; [`FanController::tick`] composes them with
//! the [`DeviceModel`], where every write goes through, and carries the laws
//! of the loop.

use crate::curve::duty_for;
use crate::curve::calculate_fan_speed;
use crate::curve::IDLE_DUTY;
use crate::device::AUTOMATIC_CODE;
use crate::device::ControlMode;
use crate::device::DeviceModel;
use crate::device::MANUAL_CODE;
use vstd::prelude::*;

verus! {

/// What one tick decides to do before any write is attempted.
#[derive(Clone, Copy, Debug, PartialEq, Eq, Structural)]
pub enum TickPlan {
    /// A reading arrived and the (temperature, duty) pair changed: write
    /// this duty.
    Write { temp: u32, duty: u8 },
    /// No reading arrived and the last applied duty is not the idle floor:
    /// write the idle floor.
    Fallback,
    /// Nothing to write.
    Skip,
}

/// The controller's state between ticks: the last applied (temperature,
/// duty) pair, used to suppress redundant writes, and whether cleanup has
/// already run.
#[derive(Clone, Copy, Debug, PartialEq, Eq, Structural)]
pub struct FanController {
    pub last_temp: u32,
    pub last_speed: u8,
    pub stopped: bool,
}

/// The tick decision: on a reading, write exactly when the (temperature,
/// duty) pair differs from the last applied one; on sensor failure, fall
/// back to the idle floor unless it is already applied.
pub open spec fn spec_plan_tick(c: FanController, reading: Option<u32>) -> TickPlan {
    match reading {
        Some(t) => {
            if t != c.last_temp || duty_for(t) != c.last_speed {
                TickPlan::Write { temp: t, duty: duty_for(t) }
            } else {
                TickPlan::Skip
            }
        },
        None => {
            if c.last_speed != IDLE_DUTY {
                TickPlan::Fallback
            } else {
                TickPlan::Skip
            }
        },
    }
}

/// How the state advances once the planned write has been attempted: the
/// last applied pair moves only on success, so a failed write is retried on
/// the next tick.
pub open spec fn spec_commit(c: FanController, plan: TickPlan, ok: bool) -> FanController {
    if !ok {
        c
    } else {
        match plan {
            TickPlan::Write { temp, duty } => FanController {
                last_temp: temp,
                last_speed: duty,
                stopped: c.stopped,
            },
            TickPlan::Fallback => FanController {
                last_temp: c.last_temp,
                last_speed: IDLE_DUTY,
                stopped: c.stopped,
            },
            TickPlan::Skip => c,
        }
    }
}

/// One tick against a device where every write goes through: the planned
/// write lands in the duty file, the mode is untouched, and the returned
/// flag says whether a write happened.
pub open spec fn spec_tick(c: FanController, d: DeviceModel, reading: Option<u32>) -> (
    FanController,
    DeviceModel,
    bool,
) {
    match spec_plan_tick(c, reading) {
        TickPlan::Write { temp, duty } => (
            spec_commit(c, TickPlan::Write { temp, duty }, true),
            DeviceModel { enable_code: d.enable_code, duty },
            true,
        ),
        TickPlan::Fallback => (
            spec_commit(c, TickPlan::Fallback, true),
            DeviceModel { enable_code: d.enable_code, duty: IDLE_DUTY },
            true,
        ),
        TickPlan::Skip => (c, d, false),
    }
}

/// Cleanup against a device where every write goes through: the first call
/// restores the idle floor and automatic mode; any further call does
/// nothing at all.
pub open spec fn spec_cleanup(c: FanController, d: DeviceModel) -> (
    FanController,
    DeviceModel,
    bool,
) {
    if c.stopped {
        (c, d, false)
    } else {
        (
            FanController { last_temp: c.last_temp, last_speed: c.last_speed, stopped: true },
            DeviceModel { enable_code: AUTOMATIC_CODE, duty: IDLE_DUTY },
            true,
        )
    }
}

impl FanController {
    /// A freshly constructed controller: no pair applied yet, cleanup still
    /// ahead.
    pub fn new() -> (c: FanController)
        ensures
            c.last_temp == 0,
            c.last_speed == 0,
            !c.stopped,
    {
        FanController { last_temp: 0, last_speed: 0, stopped: false }
    }

    /// Construction against the model device: entry into the running state
    /// puts the device in manual mode and nothing else.
    pub fn start(dev: &mut DeviceModel) -> (c: FanController)
        ensures
            final(dev).enable_code == MANUAL_CODE,
            final(dev).duty == old(dev).duty,
            c.last_temp == 0,
            c.last_speed == 0,
            !c.stopped,
    {
        dev.set_mode(ControlMode::Manual);
        FanController::new()
    }

    /// Decide what this tick writes, from the sensor reading alone.
    pub fn plan_tick(&self, reading: Option<u32>) -> (plan: TickPlan)
        ensures
            plan == spec_plan_tick(*self, reading),
    {
        match reading {
            Some(t) => {
                let duty = calculate_fan_speed(t);
                if t != self.last_temp || duty != self.last_speed {
                    TickPlan::Write { temp: t, duty }
                } else {
                    TickPlan::Skip
                }
            },
            None => {
                if self.last_speed != IDLE_DUTY {
                    TickPlan::Fallback
                } else {
                    TickPlan::Skip
                }
            },
        }
    }

    /// Record the outcome of the planned write: the last applied pair moves
    /// only when the write succeeded.
    pub fn commit(&mut self, plan: TickPlan, ok: bool)
        ensures
            *final(self) == spec_commit(*old(self), plan, ok),
    {
        if ok {
            match plan {
                TickPlan::Write { temp, duty } => {
                    self.last_temp = temp;
                    self.last_speed = duty;
                },
                TickPlan::Fallback => {
                    self.last_speed = IDLE_DUTY;
                },
                TickPlan::Skip => {},
            }
        }
    }

    /// One full tick against the model device.
    pub fn tick(&mut self, dev: &mut DeviceModel, reading: Option<u32>) -> (wrote: bool)
        requires
            !old(self).stopped,
        ensures
            (*final(self), *final(dev), wrote) == spec_tick(*old(self), *old(dev), reading),
            !final(self).stopped,
            final(dev).enable_code == old(dev).enable_code,
    {
        let plan = self.plan_tick(reading);
        match plan {
            TickPlan::Write { temp: _, duty } => {
                dev.set_speed(duty);
                self.commit(plan, true);
                true
            },
            TickPlan::Fallback => {
                dev.set_speed(IDLE_DUTY);
                self.commit(plan, true);
                true
            },
            TickPlan::Skip => false,
        }
    }

    /// The once-only gate into cleanup: true exactly on the first call, and
    /// the controller is marked stopped from then on. The loop around the
    /// library restores the device only when this returns true.
    pub fn begin_cleanup(&mut self) -> (go: bool)
        ensures
            go == !old(self).stopped,
            final(self).stopped,
            final(self).last_temp == old(self).last_temp,
            final(self).last_speed == old(self).last_speed,
    {
        let go = !self.stopped;
        self.stopped = true;
        go
    }

    /// Cleanup against the model device: restore the idle floor and
    /// automatic mode, exactly once.
    pub fn cleanup(&mut self, dev: &mut DeviceModel) -> (performed: bool)
        ensures
            (*final(self), *final(dev), performed) == spec_cleanup(*old(self), *old(dev)),
    {
        if self.begin_cleanup() {
            dev.set_speed(IDLE_DUTY);
            dev.set_mode(ControlMode::Automatic);
            true
        } else {
            false
        }
    }
}

/// The floor on the polling interval, in nanoseconds: a tenth of a second,
/// so that a misconfigured near-zero interval cannot busy-loop.
pub const MIN_INTERVAL_NANOS: u64 = 100_000_000;

/// Clamp a configured polling interval, given in nanoseconds, to the
/// enforced floor.
pub fn clamp_interval_nanos(nanos: u64) -> (r: u64)
    ensures
        r == (if nanos < MIN_INTERVAL_NANOS {
            MIN_INTERVAL_NANOS
        } else {
            nanos
        }),
        r >= MIN_INTERVAL_NANOS,
{
    if nanos < MIN_INTERVAL_NANOS {
        MIN_INTERVAL_NANOS
    } else {
        nanos
    }
}

/// Write suppression: when two consecutive ticks see the same reading, the
/// second tick writes nothing and changes nothing.
pub proof fn lemma_write_suppression(c: FanController, d: DeviceModel, t: u32)
    ensures
        ({
            let (c1, d1, w1) = spec_tick(c, d, Some(t));
            let (c2, d2, w2) = spec_tick(c1, d1, Some(t));
            &&& w2 == false
            &&& c2 == c1
            &&& d2 == d1
        }),
{
}

/// Idle fallback: one tick without a reading brings the last applied duty
/// to the idle floor — writing it exactly when it was not already applied —
/// and every further tick without a reading writes nothing and changes
/// nothing.
pub proof fn lemma_fallback_converges(c: FanController, d: DeviceModel)
    ensures
        ({
            let (c1, d1, w1) = spec_tick(c, d, None);
            let (c2, d2, w2) = spec_tick(c1, d1, None);
            &&& c1.last_speed == IDLE_DUTY
            &&& w1 == (c.last_speed != IDLE_DUTY)
            &&& (c.last_speed != IDLE_DUTY ==> d1.duty == IDLE_DUTY)
            &&& (d.duty == c.last_speed ==> d1.duty == IDLE_DUTY)
            &&& w2 == false
            &&& c2 == c1
            &&& d2 == d1
        }),
{
}

/// A failed write leaves the last applied pair unchanged, so the next tick
/// with the same reading plans the very same write again.
pub proof fn lemma_failed_write_retries(c: FanController, reading: Option<u32>)
    ensures
        spec_commit(c, spec_plan_tick(c, reading), false) == c,
        spec_plan_tick(spec_commit(c, spec_plan_tick(c, reading), false), reading)
            == spec_plan_tick(c, reading),
{
}

/// A tick never touches the enable file: the device stays in whatever mode
/// construction put it in until cleanup begins.
pub proof fn lemma_tick_keeps_mode(c: FanController, d: DeviceModel, reading: Option<u32>)
    ensures
        spec_tick(c, d, reading).1.enable_code == d.enable_code,
{
}

/// Cleanup guarantee: from a running controller, cleanup leaves the device
/// in automatic mode with the idle duty; a second cleanup performs nothing
/// and leaves both the controller and the device exactly as they were.
pub proof fn lemma_cleanup_once(c: FanController, d: DeviceModel)
    requires
        !c.stopped,
    ensures
        ({
            let (c1, d1, p1) = spec_cleanup(c, d);
            let (c2, d2, p2) = spec_cleanup(c1, d1);
            &&& p1 == true
            &&& d1.duty == IDLE_DUTY
            &&& d1.enable_code == AUTOMATIC_CODE
            &&& c1.stopped
            &&& p2 == false
            &&& c2 == c1
            &&& d2 == d1
        }),
{
}

} // verus!
