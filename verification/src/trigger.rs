use vstd::prelude::*;

use crate::attenuation::Attenuation;
use crate::channel::Channel;

verus! {

/// The ADC-code band around a trigger threshold that suppresses re-triggering
/// on noise, as the richer multi-condition arming path programs it.
pub open spec fn spec_hysteresis(attenuation: Attenuation) -> int {
    2560int / attenuation.spec_factor()
}

/// The hysteresis band around a trigger threshold, in ADC codes, for the
/// given external attenuation.
pub fn hysteresis_adc(attenuation: Attenuation) -> (h: i16)
    ensures
        h as int == spec_hysteresis(attenuation),
{
    2560 / (attenuation.factor() as i16)
}

/// Direction of the threshold crossing that fires a trigger.  The first five
/// belong to level mode, the next five to window mode; `Disabled` never fires.
#[derive(Clone, Copy, Debug, PartialEq, Eq, Structural)]
pub enum ThresholdDirection {
    Above,
    Below,
    Rising,
    Falling,
    RisingOrFalling,
    Inside,
    Outside,
    Enter,
    Exit,
    EnterOrExit,
    Disabled,
}

/// Threshold interpretation of a trigger condition.
#[derive(Clone, Copy, Debug, PartialEq, Eq, Structural)]
pub enum ThresholdMode {
    Level,
    Window,
}

/// Per-channel condition state in the richer multi-condition trigger path.
#[derive(Clone, Copy, Debug, PartialEq, Eq, Structural)]
pub enum TriggerState {
    DoNotCare,
    True,
    False,
}

/// Armed-trigger descriptor: which channel fires the capture, in which
/// direction the signal must cross the millivolt threshold, and the delay,
/// pre-trigger sample count and auto-trigger timeout to program.  Immutable
/// once built; the optional fields default to zero.
#[derive(Clone, Copy, Debug, PartialEq, Eq, Structural)]
pub struct Trigger {
    pub channel: Channel,
    pub value_mv: i32,
    pub dir: ThresholdDirection,
    pub no_of_pre_trigger_samples: i32,
    pub delay: u32,
    pub auto_trigger_ms: i16,
}

impl Trigger {
    /// A trigger on `channel` crossing `value_mv` millivolts in direction
    /// `dir`, with no delay, no pre-trigger samples, and no auto-trigger
    /// timeout (wait indefinitely).
    pub fn new(channel: Channel, dir: ThresholdDirection, value_mv: i32) -> (t: Trigger)
        ensures
            t.channel == channel,
            t.dir == dir,
            t.value_mv == value_mv,
            t.no_of_pre_trigger_samples == 0,
            t.delay == 0,
            t.auto_trigger_ms == 0,
    {
        Trigger {
            channel,
            dir,
            value_mv,
            delay: 0,
            no_of_pre_trigger_samples: 0,
            auto_trigger_ms: 0,
        }
    }

    /// The same trigger with the pre-trigger sample count replaced.
    pub fn with_no_of_pre_trigger_samples(self, no_of_pre_trigger_samples: i32) -> (t: Trigger)
        ensures
            t == (Trigger { no_of_pre_trigger_samples, ..self }),
    {
        Trigger { no_of_pre_trigger_samples, ..self }
    }

    /// The same trigger with the post-trigger delay replaced.
    pub fn with_delay(self, delay: u32) -> (t: Trigger)
        ensures
            t == (Trigger { delay, ..self }),
    {
        Trigger { delay, ..self }
    }

    /// The same trigger with the auto-trigger timeout replaced.
    pub fn with_auto_trigger_ms(self, auto_trigger_ms: i16) -> (t: Trigger)
        ensures
            t == (Trigger { auto_trigger_ms, ..self }),
    {
        Trigger { auto_trigger_ms, ..self }
    }
}

} // verus!
