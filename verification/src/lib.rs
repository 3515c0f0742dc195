//! Host-side control layer for a two-channel block-mode oscilloscope digitizer
//! (PicoScope 4262 class).
//!
//! The crate holds the verified decision logic of the driver wrapper: the
//! range/attenuation resolver, per-channel configuration, trigger
//! descriptors, ADC/millivolt conversion, and the block-acquisition state
//! machine that decides which device-boundary call comes next.  The vendor
//! driver itself is an opaque boundary: callers execute each emitted
//! [`DeviceRequest`] against it and feed the [`DeviceReply`] back into the
//! machine.

mod acquisition;
mod attenuation;
mod block_data;
mod channel;
mod convert;
mod device;
mod ps4000;
mod range;
mod trigger;

pub use acquisition::BlockAcquisition;
pub use acquisition::Phase;
pub use acquisition::StepOutcome;
pub use attenuation::Attenuation;
pub use block_data::BlockData;
pub use block_data::lemma_truncation;
pub use channel::Channel;
pub use channel::ChannelConfig;
pub use channel::Coupling;
pub use convert::MAX_ADC_VALUE;
pub use convert::lemma_attenuation_scaling;
pub use convert::lemma_round_trip;
pub use convert::spec_adc_to_mv_scaled;
pub use convert::spec_mv_scaled_to_adc;
pub use convert::spec_mv_to_adc;
pub use convert::convert_adc_to_mv_scaled;
pub use convert::convert_mv_scaled_to_adc;
pub use convert::convert_mv_to_adc;
pub use device::DeviceReply;
pub use device::DeviceRequest;
pub use device::PicoError;
pub use ps4000::PS4262;
pub use ps4000::lemma_close_idempotent;
pub use range::Range;
pub use range::lemma_mv_bounds;
pub use range::lemma_range_resolution_totality;
pub use trigger::ThresholdDirection;
pub use trigger::ThresholdMode;
pub use trigger::Trigger;
pub use trigger::TriggerState;
pub use trigger::hysteresis_adc;
pub use trigger::spec_hysteresis;
