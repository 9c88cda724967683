//! Temperature-driven PWM fan control, as a verified state machine.
//!
//! The library holds the control policy itself: the temperature-to-duty
//! staircase, the decimal text read from and written to the two control
//! files, the idempotent mode switching, the tick logic with its write
//! suppression and idle fallback, and the once-only cleanup that hands the
//! device back to automatic mode. The surrounding process (sensor queries,
//! file handles, signal handling, the poll loop) feeds plain values in and
//! carries plain values out.

pub mod buffer;
pub mod control;
pub mod curve;
pub mod device;
pub mod text;
