use vstd::prelude::*;

use crate::attenuation::Attenuation;
use crate::device::DeviceRequest;
use crate::device::PicoError;
use crate::range::Range;

verus! {

/// One of the two input channels.
#[derive(Clone, Copy, Debug, PartialEq, Eq, Structural)]
pub enum Channel {
    A,
    B,
}

impl Channel {
    /// The other input channel.
    pub open spec fn spec_other(self) -> Channel {
        match self {
            Channel::A => Channel::B,
            Channel::B => Channel::A,
        }
    }

    /// The other input channel.
    pub fn other(&self) -> (c: Channel)
        ensures
            c == self.spec_other(),
    {
        match self {
            Channel::A => Channel::B,
            Channel::B => Channel::A,
        }
    }
}

/// Input coupling of a channel's front end.
#[derive(Clone, Copy, Debug, PartialEq, Eq, Structural)]
pub enum Coupling {
    AC,
    DC,
}

/// Per-channel front-end state.  It is pushed to the device at the start of
/// every capture, for both channels, so that no stale configuration ever
/// persists across calls.
#[derive(Clone, Copy, Debug, PartialEq, Eq, Structural)]
pub struct ChannelConfig {
    pub enable: bool,
    pub coupling: Coupling,
    pub range: Range,
    pub attenuation: Attenuation,
}

impl ChannelConfig {
    /// The state every channel starts in: enabled, DC coupling, the 5 V band,
    /// no external attenuation.
    pub open spec fn spec_default() -> ChannelConfig {
        ChannelConfig {
            enable: true,
            coupling: Coupling::DC,
            range: Range::Range5v,
            attenuation: Attenuation::X1,
        }
    }

    /// Builds the default front-end state.
    pub fn new() -> (c: ChannelConfig)
        ensures
            c == ChannelConfig::spec_default(),
    {
        ChannelConfig {
            enable: true,
            coupling: Coupling::DC,
            range: Range::Range5v,
            attenuation: Attenuation::X1,
        }
    }

    /// Whether range and attenuation combine to a reachable hardware band.
    pub open spec fn resolvable(self) -> bool {
        self.range.spec_resolve(self.attenuation) is Some
    }

    /// The set-channel call that pushes this state for `channel`.
    pub open spec fn spec_request(self, channel: Channel) -> DeviceRequest
        recommends
            self.resolvable(),
    {
        DeviceRequest::SetChannel {
            channel,
            enabled: self.enable,
            coupling: self.coupling,
            hw_range: self.range.spec_resolve(self.attenuation)->Some_0,
        }
    }

    /// Derives the device call that pushes this state for `channel`, or the
    /// resolution failure if the range cannot be reached.
    pub fn set_channel_request(&self, channel: Channel) -> (r: Result<DeviceRequest, PicoError>)
        ensures
            r == if self.resolvable() {
                Ok::<DeviceRequest, PicoError>(self.spec_request(channel))
            } else {
                Err::<DeviceRequest, PicoError>(PicoError::InvalidVoltageRange)
            },
    {
        match self.range.into_range(self.attenuation) {
            Ok(hw) => Ok(
                DeviceRequest::SetChannel {
                    channel,
                    enabled: self.enable,
                    coupling: self.coupling,
                    hw_range: hw,
                },
            ),
            Err(e) => Err(e),
        }
    }
}

} // verus!
