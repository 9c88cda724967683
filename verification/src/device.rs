//! The PWM device as the controller sees it: a duty value and a mode code,
//! with idempotent mode switching.
//!
//! [`DeviceModel`] is the library's statement of what the two control files
//! hold once an operation has gone through. The process around the library
//! performs the actual reads and writes; [`plan_set_mode`] is the decision it
//! follows, and the model carries the laws that the decision guarantees.

use vstd::prelude::*;

verus! {

/// The enable-file encoding of manual control (the driver ignores its own
/// thermal curve).
pub const MANUAL_CODE: u8 = 1;

/// The enable-file encoding of automatic control (the driver manages speed
/// itself).
pub const AUTOMATIC_CODE: u8 = 2;

#[derive(Clone, Copy, Debug, PartialEq, Eq, Structural)]
pub enum ControlMode {
    Manual,
    Automatic,
}

impl ControlMode {
    /// The numeric encoding the enable file takes.
    pub open spec fn spec_code(self) -> u8 {
        match self {
            ControlMode::Manual => MANUAL_CODE,
            ControlMode::Automatic => AUTOMATIC_CODE,
        }
    }

    pub fn code(self) -> (c: u8)
        ensures
            c == self.spec_code(),
    {
        match self {
            ControlMode::Manual => MANUAL_CODE,
            ControlMode::Automatic => AUTOMATIC_CODE,
        }
    }

    /// Decode what the enable file holds; any other value is unknown.
    pub fn from_code(c: u8) -> (m: Option<ControlMode>)
        ensures
            m == (if c == MANUAL_CODE {
                Some(ControlMode::Manual)
            } else if c == AUTOMATIC_CODE {
                Some(ControlMode::Automatic)
            } else {
                None::<ControlMode>
            }),
    {
        if c == MANUAL_CODE {
            Some(ControlMode::Manual)
        } else if c == AUTOMATIC_CODE {
            Some(ControlMode::Automatic)
        } else {
            None
        }
    }
}

/// The mode-setting decision after a successful read of the enable file:
/// `None` when the file already holds the target (the write is suppressed and
/// the operation still counts as success), `Some(code)` when that code must
/// be written.
pub fn plan_set_mode(current: u8, target: ControlMode) -> (w: Option<u8>)
    ensures
        w == (if current == target.spec_code() {
            None::<u8>
        } else {
            Some(target.spec_code())
        }),
{
    let code = target.code();
    if current == code {
        None
    } else {
        Some(code)
    }
}

/// What the device holds: the content of the enable file and of the duty
/// file, each a single byte value.
#[derive(Clone, Copy, Debug, PartialEq, Eq, Structural)]
pub struct DeviceModel {
    pub enable_code: u8,
    pub duty: u8,
}

/// Mode switching on the model device: read, compare, write only on change.
pub open spec fn spec_set_mode(d: DeviceModel, m: ControlMode) -> (DeviceModel, bool) {
    if d.enable_code == m.spec_code() {
        (d, false)
    } else {
        (DeviceModel { enable_code: m.spec_code(), duty: d.duty }, true)
    }
}

impl DeviceModel {
    /// Put the device in the given mode; the returned flag says whether the
    /// enable file was actually written.
    pub fn set_mode(&mut self, m: ControlMode) -> (wrote: bool)
        ensures
            (*final(self), wrote) == spec_set_mode(*old(self), m),
            final(self).enable_code == m.spec_code(),
            final(self).duty == old(self).duty,
            wrote == (old(self).enable_code != m.spec_code()),
    {
        match plan_set_mode(self.enable_code, m) {
            None => false,
            Some(code) => {
                self.enable_code = code;
                true
            },
        }
    }

    /// Command a duty value. The device layer always writes — suppression of
    /// redundant writes belongs to the controller above it.
    pub fn set_speed(&mut self, duty: u8)
        ensures
            final(self).duty == duty,
            final(self).enable_code == old(self).enable_code,
    {
        self.duty = duty;
    }
}

/// The lifecycle of one lazily opened, cached file handle: the open is
/// attempted at most once per process, and a failed attempt is remembered
/// so that later operations report failure at once instead of retrying the
/// open on every tick.
#[derive(Clone, Copy, Debug, PartialEq, Eq, Structural)]
pub enum SlotState {
    /// No open attempted yet.
    Unopened,
    /// The single open attempt succeeded; the handle is cached.
    Open,
    /// The single open attempt failed; every later operation fails at once.
    Failed,
}

impl SlotState {
    /// Whether an open may be attempted now: only before the first attempt.
    pub fn should_attempt_open(self) -> (b: bool)
        ensures
            b == (self == SlotState::Unopened),
    {
        match self {
            SlotState::Unopened => true,
            SlotState::Open => false,
            SlotState::Failed => false,
        }
    }

    /// Record the outcome of the single open attempt.
    pub fn note_open(self, ok: bool) -> (s: SlotState)
        requires
            self == SlotState::Unopened,
        ensures
            s == (if ok {
                SlotState::Open
            } else {
                SlotState::Failed
            }),
    {
        if ok {
            SlotState::Open
        } else {
            SlotState::Failed
        }
    }

    /// Whether the cached handle can carry an operation now.
    pub fn usable(self) -> (b: bool)
        ensures
            b == (self == SlotState::Open),
    {
        match self {
            SlotState::Unopened => false,
            SlotState::Open => true,
            SlotState::Failed => false,
        }
    }
}

/// Setting the same mode twice performs exactly one underlying write: the
/// second call changes nothing and suppresses its write.
pub proof fn lemma_set_mode_idempotent(d: DeviceModel, m: ControlMode)
    ensures
        ({
            let (d1, w1) = spec_set_mode(d, m);
            let (d2, w2) = spec_set_mode(d1, m);
            &&& w2 == false
            &&& d2 == d1
            &&& w1 == (d.enable_code != m.spec_code())
        }),
{
}

} // verus!
