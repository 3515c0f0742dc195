use vstd::prelude::*;

use crate::acquisition::BlockAcquisition;
use crate::channel::Channel;
use crate::channel::ChannelConfig;
use crate::device::DeviceRequest;
use crate::device::PicoError;
use crate::trigger::Trigger;

verus! {

/// The acquisition engine's own state: the open device handle (a negative
/// value marks "closed") and the two channel configurations.  All device
/// work is decided here and by [`BlockAcquisition`]; the caller owns the
/// device boundary and executes the decisions.
pub struct PS4262 {
    handle: i16,
    channel_a: ChannelConfig,
    channel_b: ChannelConfig,
}

impl PS4262 {
    /// Largest ADC code this model reports.
    pub const MAX_VALUE: u32 = 32767;

    /// Number of input channels.
    pub const MAX_CHANNELS: usize = 2;

    /// The device handle, or a negative sentinel once closed.
    pub closed spec fn spec_handle(self) -> i16 {
        self.handle
    }

    /// Whether the engine still holds an open handle.
    pub open spec fn is_open(self) -> bool {
        self.spec_handle() >= 0
    }

    /// The configuration held for `channel`.
    pub closed spec fn spec_channel(self, channel: Channel) -> ChannelConfig {
        match channel {
            Channel::A => self.channel_a,
            Channel::B => self.channel_b,
        }
    }

    /// The close-unit call that a close must execute: none once the engine is
    /// already closed.
    pub open spec fn spec_close_request(self) -> Option<i16> {
        if self.is_open() {
            Some(self.spec_handle())
        } else {
            None
        }
    }

    /// Wraps a freshly opened device handle.  Both channels start in the
    /// default state: enabled, DC coupling, the 5 V band, 1x attenuation.
    /// The caller pushes both configurations to the device right away, with
    /// the requests of [`Self::push_config_request`].
    pub fn new(handle: i16) -> (device: PS4262)
        requires
            handle >= 0,
        ensures
            device.spec_handle() == handle,
            device.is_open(),
            device.spec_channel(Channel::A) == ChannelConfig::spec_default(),
            device.spec_channel(Channel::B) == ChannelConfig::spec_default(),
    {
        PS4262 { handle, channel_a: ChannelConfig::new(), channel_b: ChannelConfig::new() }
    }

    /// The engine's device handle.
    pub fn handle(&self) -> (h: i16)
        ensures
            h == self.spec_handle(),
    {
        self.handle
    }

    /// The configuration held for `channel`.
    pub fn channel_config(&self, channel: Channel) -> (config: ChannelConfig)
        ensures
            config == self.spec_channel(channel),
    {
        match channel {
            Channel::A => self.channel_a,
            Channel::B => self.channel_b,
        }
    }

    /// Replaces the configuration held for `channel`.  The new state reaches
    /// the device at the start of the next capture.
    pub fn set_channel_config(&mut self, channel: Channel, config: ChannelConfig)
        ensures
            final(self).spec_handle() == old(self).spec_handle(),
            final(self).spec_channel(channel) == config,
            final(self).spec_channel(channel.spec_other()) == old(self).spec_channel(
                channel.spec_other(),
            ),
    {
        match channel {
            Channel::A => {
                self.channel_a = config;
            },
            Channel::B => {
                self.channel_b = config;
            },
        }
    }

    /// The set-channel call that pushes the configuration held for `channel`,
    /// or the resolution failure if its range cannot be reached.
    pub fn push_config_request(&self, channel: Channel) -> (r: Result<DeviceRequest, PicoError>)
        ensures
            r == if self.spec_channel(channel).resolvable() {
                Ok::<DeviceRequest, PicoError>(self.spec_channel(channel).spec_request(channel))
            } else {
                Err::<DeviceRequest, PicoError>(PicoError::InvalidVoltageRange)
            },
    {
        match channel {
            Channel::A => self.channel_a.set_channel_request(channel),
            Channel::B => self.channel_b.set_channel_request(channel),
        }
    }

    /// The close-unit call a close must execute, if any.  On an already
    /// closed engine there is nothing to do and closing succeeds at once.
    pub fn close_request(&self) -> (r: Option<i16>)
        ensures
            r == self.spec_close_request(),
    {
        if self.handle >= 0 {
            Some(self.handle)
        } else {
            None
        }
    }

    /// Accounts for the status of the executed close-unit call: on success
    /// the handle becomes the closed sentinel; on failure the engine is
    /// unchanged and the status is surfaced.
    pub fn finish_close(&mut self, status: u32) -> (r: Result<(), PicoError>)
        requires
            old(self).is_open(),
        ensures
            status == 0 ==> {
                &&& r == Ok::<(), PicoError>(())
                &&& !final(self).is_open()
                &&& final(self).spec_channel(Channel::A) == old(self).spec_channel(Channel::A)
                &&& final(self).spec_channel(Channel::B) == old(self).spec_channel(Channel::B)
            },
            status != 0 ==> {
                &&& r == Err::<(), PicoError>(PicoError::Device(status))
                &&& *final(self) == *old(self)
            },
    {
        if status == 0 {
            self.handle = -1;
            Ok(())
        } else {
            Err(PicoError::Device(status))
        }
    }

    /// Starts an immediate (untriggered) capture: both channel
    /// configurations are pushed, any latent trigger is disarmed, and the
    /// block sequence runs with no pre-trigger samples.
    pub fn begin_block_immediate(&self, sample_count: u32, sample_rate: u32) -> (r: Result<
        (BlockAcquisition, DeviceRequest),
        PicoError,
    >)
        requires
            self.is_open(),
            1 <= sample_rate <= 10_000_000,
            sample_count <= 0x7FFF_FFFF,
        ensures
            BlockAcquisition::spec_begin(*self, sample_count, sample_rate, None, r),
    {
        BlockAcquisition::begin(self, sample_count, sample_rate, None)
    }

    /// Starts a triggered capture: both channel configurations are pushed,
    /// the trigger is armed on its channel and disarmed on the other, and
    /// the block sequence runs with the trigger's pre-trigger sample count.
    pub fn begin_block_triggered(&self, sample_count: u32, sample_rate: u32, cond: Trigger) -> (r:
        Result<(BlockAcquisition, DeviceRequest), PicoError>)
        requires
            self.is_open(),
            1 <= sample_rate <= 10_000_000,
            sample_count <= 0x7FFF_FFFF,
        ensures
            BlockAcquisition::spec_begin(*self, sample_count, sample_rate, Some(cond), r),
    {
        BlockAcquisition::begin(self, sample_count, sample_rate, Some(cond))
    }
}

/// Idempotent close: once the engine is closed, a further close asks nothing
/// of the device boundary and the state stays closed — so a second close in
/// a row never returns an error.
pub proof fn lemma_close_idempotent(device: PS4262)
    requires
        !device.is_open(),
    ensures
        device.spec_close_request() is None,
{
}

} // verus!
