//! The temperature-to-duty policy: a fixed, discretized staircase.

use vstd::prelude::*;

verus! {

/// Duty commanded at or below the cool band, and the safe fallback when no
/// reading is available.
pub const IDLE_DUTY: u8 = 77;

/// Duty commanded at or above the hot band.
pub const MAX_DUTY: u8 = 255;

/// The policy as a mathematical function: 77 up to 25 degrees, 255 from 60
/// degrees, and in between a staircase rising by exactly 5 per degree, from
/// 82 at 26 to 247 at 59.
pub open spec fn duty_for(temp: u32) -> u8 {
    if temp <= 25 {
        77
    } else if temp >= 60 {
        255
    } else {
        (77 + 5 * (temp - 25)) as u8
    }
}

/// Map a temperature reading (degrees Celsius) to the PWM duty to command.
pub fn calculate_fan_speed(temp: u32) -> (duty: u8)
    ensures
        duty == duty_for(temp),
{
    if temp <= 25 {
        77
    } else if temp >= 60 {
        255
    } else {
        let step: u32 = (temp - 25) * 5;
        let step: u32 = if step > 178 {
            178
        } else {
            step
        };
        77 + (step as u8)
    }
}

/// The staircase shape of the policy: constant floors outside 26..=59, and a
/// rise of exactly 5 per degree inside, anchored at 82 and 247.
pub proof fn lemma_duty_staircase(temp: u32)
    ensures
        temp <= 25 ==> duty_for(temp) == 77,
        temp >= 60 ==> duty_for(temp) == 255,
        26 <= temp <= 59 ==> duty_for(temp) == duty_for((temp - 1) as u32) + 5,
        duty_for(26) == 82,
        duty_for(59) == 247,
{
}

/// A hotter reading never commands a slower fan.
pub proof fn lemma_duty_monotone(t1: u32, t2: u32)
    requires
        t1 <= t2,
    ensures
        duty_for(t1) <= duty_for(t2),
{
}

} // verus!
