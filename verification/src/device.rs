use vstd::prelude::*;

use crate::channel::Channel;
use crate::channel::Coupling;
use crate::range::Range;
use crate::trigger::ThresholdDirection;

verus! {

/// Failure of a configuration or capture operation.
///
/// The device boundary reports failures as nonzero status codes, carried here
/// by [`PicoError::Device`].  The remaining variants are raised by this
/// library before any device call is made.
#[derive(Clone, Copy, Debug, PartialEq, Eq, Structural)]
pub enum PicoError {
    /// The requested nominal range has no hardware equivalent under the
    /// requested attenuation.
    InvalidVoltageRange,
    /// The trigger asks for more pre-trigger samples than the total sample
    /// count, or a negative number of them.
    InvalidPreTriggerCount,
    /// The device rejected every timebase index.
    NoValidTimebase,
    /// A device-boundary call returned this nonzero status code.
    Device(u32),
}

/// One call to be executed against the device boundary.  The caller owns the
/// device handle and the sample buffers; requests carry everything else.
#[derive(Clone, Copy, Debug, PartialEq, Eq, Structural)]
pub enum DeviceRequest {
    /// Program one channel's front end: enabled flag, coupling, and the
    /// resolved hardware band.
    SetChannel { channel: Channel, enabled: bool, coupling: Coupling, hw_range: Range },
    /// Program (or, with `enabled == false`, disarm) the simple one-channel
    /// threshold trigger.
    SetSimpleTrigger {
        enabled: bool,
        channel: Channel,
        threshold_adc: i16,
        direction: ThresholdDirection,
        delay: u32,
        auto_trigger_ms: i16,
    },
    /// Register a zero-filled sample buffer of `buffer_len` codes for the
    /// channel.  The buffer must stay in place until the values are fetched.
    SetDataBuffers { channel: Channel, buffer_len: u32 },
    /// Ask whether the timebase index supports the sample count, and for its
    /// sampling interval.
    GetTimebase { timebase: u32, sample_count: i32 },
    /// Start the block capture.
    RunBlock { pre_trigger_samples: i32, post_trigger_samples: i32, timebase: u32 },
    /// Poll whether the capture has completed.
    IsReady,
    /// Stop the device after completion.
    Stop,
    /// Fetch the captured codes into the registered buffers.
    GetValues { sample_count: u32 },
}

/// The device boundary's answer to one [`DeviceRequest`].  A status of 0
/// means success; any other value is the device's error code.
#[derive(Debug, PartialEq)]
pub enum DeviceReply {
    /// Answer to the plain status-returning calls.
    Status(u32),
    /// Answer to [`DeviceRequest::GetTimebase`]: whether the index was
    /// accepted, and if so the nanosecond interval per sample.
    Timebase { accepted: bool, interval_ns: i32 },
    /// Answer to [`DeviceRequest::IsReady`].
    Ready { status: u32, ready: bool },
    /// Answer to [`DeviceRequest::GetValues`]: the returned sample count, the
    /// per-channel overflow flags (nonzero if any channel saturated), and the
    /// contents of the two registered buffers.
    Values { status: u32, returned: u32, overflow: i16, samples_a: Vec<i16>, samples_b: Vec<i16> },
}

} // verus!
