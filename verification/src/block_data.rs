use vstd::prelude::*;

use crate::attenuation::Attenuation;
use crate::channel::Channel;
use crate::convert::convert_adc_to_mv_scaled;
use crate::convert::spec_adc_to_mv_scaled;
use crate::range::Range;

verus! {

/// Immutable snapshot of one completed block acquisition: the raw codes the
/// device wrote into the two channel buffers, the sample count it actually
/// returned, the overflow flag, the device-reported sampling interval, and
/// the range/attenuation each channel was captured with (not the current
/// configuration — later configuration changes never touch a result).
#[derive(Debug)]
pub struct BlockData {
    sample_count: u32,
    overflow: bool,
    time_interval: i32,
    samples_a: Vec<i16>,
    samples_b: Vec<i16>,
    range_a: Range,
    range_b: Range,
    attenuation_a: Attenuation,
    attenuation_b: Attenuation,
}

impl BlockData {
    /// The sample count the device reported back.
    pub closed spec fn spec_sample_count(self) -> u32 {
        self.sample_count
    }

    /// Whether at least one channel saturated during the capture.
    pub closed spec fn spec_overflow(self) -> bool {
        self.overflow
    }

    /// Nanoseconds per sample, as the device reported for the resolved
    /// timebase.
    pub closed spec fn spec_time_interval(self) -> i32 {
        self.time_interval
    }

    /// The full buffer the device wrote for the channel.
    pub closed spec fn spec_samples(self, channel: Channel) -> Seq<i16> {
        match channel {
            Channel::A => self.samples_a@,
            Channel::B => self.samples_b@,
        }
    }

    /// The nominal range the channel was captured with.
    pub closed spec fn spec_range(self, channel: Channel) -> Range {
        match channel {
            Channel::A => self.range_a,
            Channel::B => self.range_b,
        }
    }

    /// The attenuation the channel was captured with.
    pub closed spec fn spec_attenuation(self, channel: Channel) -> Attenuation {
        match channel {
            Channel::A => self.attenuation_a,
            Channel::B => self.attenuation_b,
        }
    }

    /// Both captured range/attenuation pairs resolve to hardware bands; every
    /// snapshot is built from configurations that were pushed successfully.
    pub open spec fn wf(self) -> bool {
        &&& self.spec_range(Channel::A).spec_resolve(self.spec_attenuation(Channel::A)) is Some
        &&& self.spec_range(Channel::B).spec_resolve(self.spec_attenuation(Channel::B)) is Some
    }

    /// Length of the sample sequences handed out: the returned sample count,
    /// truncated to the buffer's length if the device reported more.
    pub open spec fn spec_returned_len(self, channel: Channel) -> int {
        if self.spec_sample_count() <= self.spec_samples(channel).len() {
            self.spec_sample_count() as int
        } else {
            self.spec_samples(channel).len() as int
        }
    }

    /// Packages one completed acquisition.
    pub fn new(
        sample_count: u32,
        overflow: i16,
        time_interval: i32,
        samples_a: Vec<i16>,
        samples_b: Vec<i16>,
        range_a: Range,
        attenuation_a: Attenuation,
        range_b: Range,
        attenuation_b: Attenuation,
    ) -> (data: BlockData)
        requires
            range_a.spec_resolve(attenuation_a) is Some,
            range_b.spec_resolve(attenuation_b) is Some,
        ensures
            data.wf(),
            data.spec_sample_count() == sample_count,
            data.spec_overflow() == (overflow != 0),
            data.spec_time_interval() == time_interval,
            data.spec_samples(Channel::A) == samples_a@,
            data.spec_samples(Channel::B) == samples_b@,
            data.spec_range(Channel::A) == range_a,
            data.spec_range(Channel::B) == range_b,
            data.spec_attenuation(Channel::A) == attenuation_a,
            data.spec_attenuation(Channel::B) == attenuation_b,
    {
        BlockData {
            sample_count,
            overflow: overflow != 0,
            time_interval,
            samples_a,
            samples_b,
            range_a,
            range_b,
            attenuation_a,
            attenuation_b,
        }
    }

    /// Nanoseconds per sample, as the device reported it.
    pub fn time_interval(&self) -> (t: i32)
        ensures
            t == self.spec_time_interval(),
    {
        self.time_interval
    }

    /// Whether at least one channel saturated.
    pub fn overflow(&self) -> (o: bool)
        ensures
            o == self.spec_overflow(),
    {
        self.overflow
    }

    /// The sample count the device reported back.
    pub fn sample_count(&self) -> (n: u32)
        ensures
            n == self.spec_sample_count(),
    {
        self.sample_count
    }

    /// The range the channel was captured with.
    pub fn range(&self, channel: Channel) -> (r: Range)
        ensures
            r == self.spec_range(channel),
    {
        match channel {
            Channel::A => self.range_a,
            Channel::B => self.range_b,
        }
    }

    /// The attenuation the channel was captured with.
    pub fn attenuation(&self, channel: Channel) -> (a: Attenuation)
        ensures
            a == self.spec_attenuation(channel),
    {
        match channel {
            Channel::A => self.attenuation_a,
            Channel::B => self.attenuation_b,
        }
    }

    /// The channel's raw ADC codes, truncated to the sample count the device
    /// actually returned — never padded to the allocated buffer's capacity.
    pub fn get_adc(&self, channel: Channel) -> (v: Vec<i16>)
        ensures
            v@.len() == self.spec_returned_len(channel),
            forall|i: int| 0 <= i < v@.len() ==> v@[i] == self.spec_samples(channel)[i],
    {
        let src: &Vec<i16> = match channel {
            Channel::A => &self.samples_a,
            Channel::B => &self.samples_b,
        };
        let n: usize = if (self.sample_count as usize) <= src.len() {
            self.sample_count as usize
        } else {
            src.len()
        };
        let mut v: Vec<i16> = Vec::new();
        let mut i: usize = 0;
        while i < n
            invariant
                i <= n,
                n == self.spec_returned_len(channel),
                n <= src@.len(),
                src@ == self.spec_samples(channel),
                v@.len() == i,
                forall|j: int| 0 <= j < i ==> v@[j] == src@[j],
            decreases n - i,
        {
            v.push(src[i]);
            i += 1;
        }
        v
    }

    /// The channel's calibrated values in scaled millivolts (millivolts
    /// times [`crate::convert::MAX_ADC_VALUE`]), truncated like [`Self::get_adc`].
    pub fn get_mv_scaled(&self, channel: Channel) -> (v: Vec<i64>)
        requires
            self.wf(),
        ensures
            v@.len() == self.spec_returned_len(channel),
            forall|i: int| 0 <= i < v@.len() ==> v@[i] == spec_adc_to_mv_scaled(
                self.spec_samples(channel)[i] as int,
                self.spec_range(channel),
                self.spec_attenuation(channel),
            ),
    {
        let src: &Vec<i16> = match channel {
            Channel::A => &self.samples_a,
            Channel::B => &self.samples_b,
        };
        let range = match channel {
            Channel::A => self.range_a,
            Channel::B => self.range_b,
        };
        let attenuation = match channel {
            Channel::A => self.attenuation_a,
            Channel::B => self.attenuation_b,
        };
        let n: usize = if (self.sample_count as usize) <= src.len() {
            self.sample_count as usize
        } else {
            src.len()
        };
        let mut v: Vec<i64> = Vec::new();
        let mut i: usize = 0;
        while i < n
            invariant
                i <= n,
                n == self.spec_returned_len(channel),
                n <= src@.len(),
                src@ == self.spec_samples(channel),
                range == self.spec_range(channel),
                attenuation == self.spec_attenuation(channel),
                range.spec_resolve(attenuation) is Some,
                v@.len() == i,
                forall|j: int| 0 <= j < i ==> v@[j] == spec_adc_to_mv_scaled(
                    src@[j] as int,
                    range,
                    attenuation,
                ),
            decreases n - i,
        {
            let value = match convert_adc_to_mv_scaled(src[i], attenuation, range) {
                Ok(x) => x,
                Err(_) => unreached(),
            };
            v.push(value);
            i += 1;
        }
        v
    }
}

/// Truncation invariant: whenever the returned sample count does not exceed
/// the buffer's length, the sample sequences handed out have exactly that
/// count — never the allocated capacity.
pub proof fn lemma_truncation(data: BlockData, channel: Channel)
    requires
        data.spec_sample_count() <= data.spec_samples(channel).len(),
    ensures
        data.spec_returned_len(channel) == data.spec_sample_count(),
{
}

} // verus!
