use vstd::prelude::*;

use crate::block_data::BlockData;
use crate::channel::Channel;
use crate::channel::ChannelConfig;
use crate::convert::convert_mv_to_adc;
use crate::convert::spec_mv_to_adc;
use crate::device::DeviceReply;
use crate::device::DeviceRequest;
use crate::device::PicoError;
use crate::ps4000::PS4262;
use crate::trigger::ThresholdDirection;
use crate::trigger::Trigger;

verus! {

/// Position of a block capture in its device-call sequence.  Every phase up
/// to [`Phase::Fetching`] names the request that has been issued and awaits
/// its reply.
#[derive(Clone, Copy, Debug, PartialEq, Eq, Structural)]
pub enum Phase {
    /// Channel A's configuration is being pushed.
    ConfigA,
    /// Channel B's configuration is being pushed.
    ConfigB,
    /// The trigger is being armed (triggered capture) or channel A's trigger
    /// disarmed (immediate capture).
    TriggerFirst,
    /// The remaining channel's trigger is being disarmed, so that no stale
    /// condition on the idle channel can fire.
    TriggerSecond,
    /// Channel A's sample buffer is being registered.
    BuffersA,
    /// Channel B's sample buffer is being registered.
    BuffersB,
    /// The current timebase index is being queried; rejected indices are
    /// stepped past one by one.
    FindTimebase,
    /// The run-block command is being issued.
    Running,
    /// The ready flag is being polled.
    Polling,
    /// The device is being stopped after completion.
    Stopping,
    /// The captured values are being fetched.
    Fetching,
    /// The capture completed and its result was handed out.
    Done,
    /// A device call failed, or no timebase was accepted; the capture was
    /// abandoned at the first failure.
    Failed,
}

/// What one step of the machine asks of its driver.
#[derive(Debug)]
pub enum StepOutcome {
    /// Execute this request against the device and feed the reply back in.
    Next(DeviceRequest),
    /// The capture completed with this result.
    Finished(BlockData),
    /// The capture failed; nothing further is asked of the device.
    Failed(PicoError),
}

/// The block-acquisition state machine: a snapshot of everything one capture
/// needs, advanced one device reply at a time.  [`BlockAcquisition::begin`]
/// validates the capture call and yields the first request; each
/// [`BlockAcquisition::step`] consumes the previous request's reply and
/// yields the next request, the finished result, or the failure.  Any
/// nonzero status fails the capture immediately — no retry, no partial
/// success.
pub struct BlockAcquisition {
    /// Where in the call sequence the capture stands.
    pub phase: Phase,
    /// Requested total sample count; also the length of each registered
    /// buffer.
    pub sample_count: u32,
    /// Samples to retain from before the trigger event; zero for immediate
    /// captures.
    pub pre_trigger: i32,
    /// The timebase index currently under consideration.
    pub timebase: u32,
    /// Nanoseconds per sample of the accepted timebase; meaningful from
    /// [`Phase::Running`] on.
    pub interval_ns: i32,
    /// The armed trigger, or `None` for an immediate capture.
    pub trigger: Option<Trigger>,
    /// The trigger threshold as an ADC code on the trigger channel's band.
    pub threshold_adc: i16,
    /// Channel A's configuration as captured when the capture began.
    pub config_a: ChannelConfig,
    /// Channel B's configuration as captured when the capture began.
    pub config_b: ChannelConfig,
}

impl BlockAcquisition {
    /// The configuration snapshot for `channel`.
    pub open spec fn spec_config(self, channel: Channel) -> ChannelConfig {
        match channel {
            Channel::A => self.config_a,
            Channel::B => self.config_b,
        }
    }

    /// Internal consistency: both snapshots resolve, the pre-trigger count
    /// fits the sample count, and the threshold code is the trigger's
    /// millivolt threshold converted on its channel's band.
    pub open spec fn wf(self) -> bool {
        &&& self.config_a.resolvable()
        &&& self.config_b.resolvable()
        &&& 0 <= self.pre_trigger <= self.sample_count <= 0x7FFF_FFFF
        &&& match self.trigger {
            Some(t) => {
                &&& t.no_of_pre_trigger_samples == self.pre_trigger
                &&& self.threshold_adc as int == spec_mv_to_adc(
                    t.value_mv as int,
                    self.spec_config(t.channel).range,
                    self.spec_config(t.channel).attenuation,
                )
            },
            None => self.pre_trigger == 0,
        }
    }

    /// Whether the capture still awaits a reply.
    pub open spec fn in_progress(self) -> bool {
        self.phase != Phase::Done && self.phase != Phase::Failed
    }

    /// The call that disarms the simple trigger on one channel.
    pub open spec fn spec_disarm_request(channel: Channel) -> DeviceRequest {
        DeviceRequest::SetSimpleTrigger {
            enabled: false,
            channel,
            threshold_adc: 0,
            direction: ThresholdDirection::Disabled,
            delay: 0,
            auto_trigger_ms: 0,
        }
    }

    /// The call that arms the capture's trigger.
    pub open spec fn spec_arm_request(self) -> DeviceRequest
        recommends
            self.trigger is Some,
    {
        let t = self.trigger->Some_0;
        DeviceRequest::SetSimpleTrigger {
            enabled: true,
            channel: t.channel,
            threshold_adc: self.threshold_adc,
            direction: t.dir,
            delay: t.delay,
            auto_trigger_ms: t.auto_trigger_ms,
        }
    }

    /// The request pending in the current phase.
    pub open spec fn spec_request(self) -> DeviceRequest
        recommends
            self.wf(),
            self.in_progress(),
    {
        match self.phase {
            Phase::ConfigA => self.config_a.spec_request(Channel::A),
            Phase::ConfigB => self.config_b.spec_request(Channel::B),
            Phase::TriggerFirst => match self.trigger {
                Some(_) => self.spec_arm_request(),
                None => Self::spec_disarm_request(Channel::A),
            },
            Phase::TriggerSecond => match self.trigger {
                Some(t) => Self::spec_disarm_request(t.channel.spec_other()),
                None => Self::spec_disarm_request(Channel::B),
            },
            Phase::BuffersA => DeviceRequest::SetDataBuffers {
                channel: Channel::A,
                buffer_len: self.sample_count,
            },
            Phase::BuffersB => DeviceRequest::SetDataBuffers {
                channel: Channel::B,
                buffer_len: self.sample_count,
            },
            Phase::FindTimebase => DeviceRequest::GetTimebase {
                timebase: self.timebase,
                sample_count: self.sample_count as i32,
            },
            Phase::Running => DeviceRequest::RunBlock {
                pre_trigger_samples: self.pre_trigger,
                post_trigger_samples: (self.sample_count - self.pre_trigger) as i32,
                timebase: self.timebase,
            },
            Phase::Polling => DeviceRequest::IsReady,
            Phase::Stopping => DeviceRequest::Stop,
            Phase::Fetching => DeviceRequest::GetValues { sample_count: self.sample_count },
            Phase::Done => arbitrary(),
            Phase::Failed => arbitrary(),
        }
    }

    /// The same snapshot standing at another phase.
    pub open spec fn at_phase(self, phase: Phase) -> Self {
        BlockAcquisition { phase, ..self }
    }

    /// The same snapshot considering another timebase index.
    pub open spec fn with_timebase(self, timebase: u32) -> Self {
        BlockAcquisition { timebase, ..self }
    }

    /// The same snapshot with the accepted sampling interval recorded.
    pub open spec fn with_interval(self, interval_ns: i32) -> Self {
        BlockAcquisition { interval_ns, ..self }
    }

    /// Which reply shape answers the current phase's request.
    pub open spec fn reply_matches(self, reply: DeviceReply) -> bool {
        match self.phase {
            Phase::ConfigA => reply is Status,
            Phase::ConfigB => reply is Status,
            Phase::TriggerFirst => reply is Status,
            Phase::TriggerSecond => reply is Status,
            Phase::BuffersA => reply is Status,
            Phase::BuffersB => reply is Status,
            Phase::FindTimebase => reply is Timebase,
            Phase::Running => reply is Status,
            Phase::Polling => reply is Ready,
            Phase::Stopping => reply is Status,
            Phase::Fetching => reply is Values,
            Phase::Done => false,
            Phase::Failed => false,
        }
    }

    /// One transition on a plain status reply: on success the machine stands
    /// at `next` and asks for that phase's request; on any nonzero status it
    /// fails with that code and asks for nothing further.
    pub open spec fn spec_status_step(
        pre: Self,
        status: u32,
        next: Phase,
        post: Self,
        out: StepOutcome,
    ) -> bool {
        if status == 0 {
            &&& post == pre.at_phase(next)
            &&& out == StepOutcome::Next(post.spec_request())
        } else {
            &&& post == pre.at_phase(Phase::Failed)
            &&& out == StepOutcome::Failed(PicoError::Device(status))
        }
    }

    /// The transition relation of one step of the machine.
    pub open spec fn spec_step(pre: Self, reply: DeviceReply, post: Self, out: StepOutcome) -> bool {
        match pre.phase {
            Phase::ConfigA => reply matches DeviceReply::Status(s) && Self::spec_status_step(
                pre,
                s,
                Phase::ConfigB,
                post,
                out,
            ),
            Phase::ConfigB => reply matches DeviceReply::Status(s) && Self::spec_status_step(
                pre,
                s,
                Phase::TriggerFirst,
                post,
                out,
            ),
            Phase::TriggerFirst => reply matches DeviceReply::Status(s) && Self::spec_status_step(
                pre,
                s,
                Phase::TriggerSecond,
                post,
                out,
            ),
            Phase::TriggerSecond => reply matches DeviceReply::Status(s) && Self::spec_status_step(
                pre,
                s,
                Phase::BuffersA,
                post,
                out,
            ),
            Phase::BuffersA => reply matches DeviceReply::Status(s) && Self::spec_status_step(
                pre,
                s,
                Phase::BuffersB,
                post,
                out,
            ),
            Phase::BuffersB => reply matches DeviceReply::Status(s) && Self::spec_status_step(
                pre,
                s,
                Phase::FindTimebase,
                post,
                out,
            ),
            Phase::FindTimebase => reply matches DeviceReply::Timebase { accepted, interval_ns }
                && (if accepted {
                &&& post == pre.with_interval(interval_ns).at_phase(Phase::Running)
                &&& out == StepOutcome::Next(post.spec_request())
            } else if pre.timebase < u32::MAX {
                &&& post == pre.with_timebase((pre.timebase + 1) as u32)
                &&& out == StepOutcome::Next(post.spec_request())
            } else {
                &&& post == pre.at_phase(Phase::Failed)
                &&& out == StepOutcome::Failed(PicoError::NoValidTimebase)
            }),
            Phase::Running => reply matches DeviceReply::Status(s) && Self::spec_status_step(
                pre,
                s,
                Phase::Polling,
                post,
                out,
            ),
            Phase::Polling => reply matches DeviceReply::Ready { status, ready } && (if status != 0 {
                &&& post == pre.at_phase(Phase::Failed)
                &&& out == StepOutcome::Failed(PicoError::Device(status))
            } else if ready {
                &&& post == pre.at_phase(Phase::Stopping)
                &&& out == StepOutcome::Next(post.spec_request())
            } else {
                &&& post == pre
                &&& out == StepOutcome::Next(DeviceRequest::IsReady)
            }),
            Phase::Stopping => reply matches DeviceReply::Status(s) && Self::spec_status_step(
                pre,
                s,
                Phase::Fetching,
                post,
                out,
            ),
            Phase::Fetching => reply matches DeviceReply::Values {
                status,
                returned,
                overflow,
                samples_a,
                samples_b,
            } && (if status == 0 {
                &&& post == pre.at_phase(Phase::Done)
                &&& out matches StepOutcome::Finished(data)
                &&& data.wf()
                &&& data.spec_sample_count() == returned
                &&& data.spec_overflow() == (overflow != 0)
                &&& data.spec_time_interval() == pre.interval_ns
                &&& data.spec_samples(Channel::A) == samples_a@
                &&& data.spec_samples(Channel::B) == samples_b@
                &&& data.spec_range(Channel::A) == pre.config_a.range
                &&& data.spec_range(Channel::B) == pre.config_b.range
                &&& data.spec_attenuation(Channel::A) == pre.config_a.attenuation
                &&& data.spec_attenuation(Channel::B) == pre.config_b.attenuation
            } else {
                &&& post == pre.at_phase(Phase::Failed)
                &&& out == StepOutcome::Failed(PicoError::Device(status))
            }),
            Phase::Done => false,
            Phase::Failed => false,
        }
    }

    /// Contract of [`Self::begin`]: a resolution failure of either channel
    /// (channel A checked first) yields the invalid-range error before any
    /// device call; an out-of-bounds pre-trigger count is rejected next;
    /// otherwise the machine starts at [`Phase::ConfigA`] with the timebase
    /// index derived from the requested sample rate against the 10 MHz base
    /// clock, and its first request is channel A's configuration push.
    pub open spec fn spec_begin(
        device: PS4262,
        sample_count: u32,
        sample_rate: u32,
        trigger: Option<Trigger>,
        r: Result<(BlockAcquisition, DeviceRequest), PicoError>,
    ) -> bool {
        let config_a = device.spec_channel(Channel::A);
        let config_b = device.spec_channel(Channel::B);
        if !(config_a.resolvable() && config_b.resolvable()) {
            r == Err::<(BlockAcquisition, DeviceRequest), PicoError>(PicoError::InvalidVoltageRange)
        } else if trigger matches Some(t) && !(0 <= t.no_of_pre_trigger_samples <= sample_count) {
            r == Err::<(BlockAcquisition, DeviceRequest), PicoError>(
                PicoError::InvalidPreTriggerCount,
            )
        } else {
            &&& r matches Ok((m, request))
            &&& m.wf()
            &&& m.phase == Phase::ConfigA
            &&& m.sample_count == sample_count
            &&& m.timebase as int == 10_000_000int / (sample_rate as int) - 1
            &&& m.interval_ns == 0
            &&& m.trigger == trigger
            &&& m.pre_trigger as int == (match trigger {
                Some(t) => t.no_of_pre_trigger_samples as int,
                None => 0int,
            })
            &&& m.config_a == config_a
            &&& m.config_b == config_b
            &&& request == m.spec_request()
        }
    }

    /// Validates a capture call against the engine's state and builds the
    /// machine, returning it together with its first request.
    pub fn begin(
        device: &PS4262,
        sample_count: u32,
        sample_rate: u32,
        trigger: Option<Trigger>,
    ) -> (r: Result<(BlockAcquisition, DeviceRequest), PicoError>)
        requires
            device.is_open(),
            1 <= sample_rate <= 10_000_000,
            sample_count <= 0x7FFF_FFFF,
        ensures
            Self::spec_begin(*device, sample_count, sample_rate, trigger, r),
    {
        let config_a = device.channel_config(Channel::A);
        let config_b = device.channel_config(Channel::B);
        match config_a.range.into_range(config_a.attenuation) {
            Err(e) => {
                return Err(e);
            },
            Ok(_) => {},
        }
        match config_b.range.into_range(config_b.attenuation) {
            Err(e) => {
                return Err(e);
            },
            Ok(_) => {},
        }
        let (pre_trigger, threshold_adc): (i32, i16) = match &trigger {
            Some(t) => {
                if t.no_of_pre_trigger_samples < 0 {
                    return Err(PicoError::InvalidPreTriggerCount);
                }
                if t.no_of_pre_trigger_samples as u32 > sample_count {
                    return Err(PicoError::InvalidPreTriggerCount);
                }
                let config = match t.channel {
                    Channel::A => config_a,
                    Channel::B => config_b,
                };
                let threshold = match convert_mv_to_adc(t.value_mv, config.attenuation, config.range) {
                    Ok(v) => v,
                    Err(_) => unreached(),
                };
                (t.no_of_pre_trigger_samples, threshold)
            },
            None => (0, 0),
        };
        assert(10_000_000int / (sample_rate as int) >= 1) by (nonlinear_arith)
            requires
                1 <= sample_rate as int <= 10_000_000,
        ;
        let timebase: u32 = 10_000_000 / sample_rate - 1;
        let machine = BlockAcquisition {
            phase: Phase::ConfigA,
            sample_count,
            pre_trigger,
            timebase,
            interval_ns: 0,
            trigger,
            threshold_adc,
            config_a,
            config_b,
        };
        let request = machine.current_request();
        Ok((machine, request))
    }

    /// The request pending in the current phase.
    pub fn current_request(&self) -> (r: DeviceRequest)
        requires
            self.wf(),
            self.in_progress(),
        ensures
            r == self.spec_request(),
    {
        match self.phase {
            Phase::ConfigA => Self::channel_request(&self.config_a, Channel::A),
            Phase::ConfigB => Self::channel_request(&self.config_b, Channel::B),
            Phase::TriggerFirst => match &self.trigger {
                Some(t) => DeviceRequest::SetSimpleTrigger {
                    enabled: true,
                    channel: t.channel,
                    threshold_adc: self.threshold_adc,
                    direction: t.dir,
                    delay: t.delay,
                    auto_trigger_ms: t.auto_trigger_ms,
                },
                None => Self::disarm_request(Channel::A),
            },
            Phase::TriggerSecond => match &self.trigger {
                Some(t) => Self::disarm_request(t.channel.other()),
                None => Self::disarm_request(Channel::B),
            },
            Phase::BuffersA => DeviceRequest::SetDataBuffers {
                channel: Channel::A,
                buffer_len: self.sample_count,
            },
            Phase::BuffersB => DeviceRequest::SetDataBuffers {
                channel: Channel::B,
                buffer_len: self.sample_count,
            },
            Phase::FindTimebase => DeviceRequest::GetTimebase {
                timebase: self.timebase,
                sample_count: self.sample_count as i32,
            },
            Phase::Running => DeviceRequest::RunBlock {
                pre_trigger_samples: self.pre_trigger,
                post_trigger_samples: (self.sample_count as i32) - self.pre_trigger,
                timebase: self.timebase,
            },
            Phase::Polling => DeviceRequest::IsReady,
            Phase::Stopping => DeviceRequest::Stop,
            Phase::Fetching => DeviceRequest::GetValues { sample_count: self.sample_count },
            Phase::Done => unreached(),
            Phase::Failed => unreached(),
        }
    }

    /// Advances the machine by the reply to the pending request.
    pub fn step(&mut self, reply: DeviceReply) -> (out: StepOutcome)
        requires
            old(self).wf(),
            old(self).in_progress(),
            old(self).reply_matches(reply),
        ensures
            final(self).wf(),
            Self::spec_step(*old(self), reply, *final(self), out),
    {
        match reply {
            DeviceReply::Status(status) => {
                let next = match self.phase {
                    Phase::ConfigA => Phase::ConfigB,
                    Phase::ConfigB => Phase::TriggerFirst,
                    Phase::TriggerFirst => Phase::TriggerSecond,
                    Phase::TriggerSecond => Phase::BuffersA,
                    Phase::BuffersA => Phase::BuffersB,
                    Phase::BuffersB => Phase::FindTimebase,
                    Phase::Running => Phase::Polling,
                    Phase::Stopping => Phase::Fetching,
                    _ => unreached(),
                };
                self.status_step(status, next)
            },
            DeviceReply::Timebase { accepted, interval_ns } => {
                if accepted {
                    self.interval_ns = interval_ns;
                    self.phase = Phase::Running;
                    let request = self.current_request();
                    StepOutcome::Next(request)
                } else if self.timebase < u32::MAX {
                    self.timebase = self.timebase + 1;
                    let request = self.current_request();
                    StepOutcome::Next(request)
                } else {
                    self.phase = Phase::Failed;
                    StepOutcome::Failed(PicoError::NoValidTimebase)
                }
            },
            DeviceReply::Ready { status, ready } => {
                if status != 0 {
                    self.phase = Phase::Failed;
                    StepOutcome::Failed(PicoError::Device(status))
                } else if ready {
                    self.phase = Phase::Stopping;
                    let request = self.current_request();
                    StepOutcome::Next(request)
                } else {
                    StepOutcome::Next(DeviceRequest::IsReady)
                }
            },
            DeviceReply::Values { status, returned, overflow, samples_a, samples_b } => {
                if status == 0 {
                    self.phase = Phase::Done;
                    let data = BlockData::new(
                        returned,
                        overflow,
                        self.interval_ns,
                        samples_a,
                        samples_b,
                        self.config_a.range,
                        self.config_a.attenuation,
                        self.config_b.range,
                        self.config_b.attenuation,
                    );
                    StepOutcome::Finished(data)
                } else {
                    self.phase = Phase::Failed;
                    StepOutcome::Failed(PicoError::Device(status))
                }
            },
        }
    }

    /// Executes one plain-status transition toward `next`.
    fn status_step(&mut self, status: u32, next: Phase) -> (out: StepOutcome)
        requires
            old(self).wf(),
            next != Phase::Done,
            next != Phase::Failed,
        ensures
            final(self).wf(),
            Self::spec_status_step(*old(self), status, next, *final(self), out),
    {
        if status == 0 {
            self.phase = next;
            let request = self.current_request();
            StepOutcome::Next(request)
        } else {
            self.phase = Phase::Failed;
            StepOutcome::Failed(PicoError::Device(status))
        }
    }

    /// The set-channel call for a snapshot whose range resolves.
    fn channel_request(config: &ChannelConfig, channel: Channel) -> (r: DeviceRequest)
        requires
            config.resolvable(),
        ensures
            r == config.spec_request(channel),
    {
        match config.set_channel_request(channel) {
            Ok(request) => request,
            Err(_) => unreached(),
        }
    }

    /// The disarm call for one channel.
    fn disarm_request(channel: Channel) -> (r: DeviceRequest)
        ensures
            r == Self::spec_disarm_request(channel),
    {
        DeviceRequest::SetSimpleTrigger {
            enabled: false,
            channel,
            threshold_adc: 0,
            direction: ThresholdDirection::Disabled,
            delay: 0,
            auto_trigger_ms: 0,
        }
    }
}

} // verus!
