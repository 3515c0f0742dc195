use vstd::prelude::*;

use crate::attenuation::Attenuation;
use crate::device::PicoError;

verus! {

/// Nominal full-scale voltage band of the analog front end, from 10 mV to
/// 100 V in the 1-2-5 decade progression.  The same enumeration also names
/// the concrete hardware band that a nominal band resolves to.
#[derive(Clone, Copy, Debug, PartialEq, Eq, Structural)]
pub enum Range {
    Range10mv,
    Range20mv,
    Range50mv,
    Range100mv,
    Range200mv,
    Range500mv,
    Range1v,
    Range2v,
    Range5v,
    Range10v,
    Range20v,
    Range50v,
    Range100v,
}

impl Range {
    /// Full-scale magnitude of this band in millivolts.
    pub open spec fn spec_mv(self) -> int {
        match self {
            Range::Range10mv => 10,
            Range::Range20mv => 20,
            Range::Range50mv => 50,
            Range::Range100mv => 100,
            Range::Range200mv => 200,
            Range::Range500mv => 500,
            Range::Range1v => 1000,
            Range::Range2v => 2000,
            Range::Range5v => 5000,
            Range::Range10v => 10_000,
            Range::Range20v => 20_000,
            Range::Range50v => 50_000,
            Range::Range100v => 100_000,
        }
    }

    /// The hardware band that nominal band `self` resolves to under the given
    /// attenuation: the band itself at 1x; one decade step down at 10x,
    /// because the external divider shrinks the input before the front end.
    /// The three lowest bands have no 10x-scaled hardware equivalent.
    pub open spec fn spec_resolve(self, attenuation: Attenuation) -> Option<Range> {
        match attenuation {
            Attenuation::X1 => Some(self),
            Attenuation::X10 => match self {
                Range::Range10mv => None,
                Range::Range20mv => None,
                Range::Range50mv => None,
                Range::Range100mv => Some(Range::Range10mv),
                Range::Range200mv => Some(Range::Range20mv),
                Range::Range500mv => Some(Range::Range50mv),
                Range::Range1v => Some(Range::Range100mv),
                Range::Range2v => Some(Range::Range200mv),
                Range::Range5v => Some(Range::Range500mv),
                Range::Range10v => Some(Range::Range1v),
                Range::Range20v => Some(Range::Range2v),
                Range::Range50v => Some(Range::Range5v),
                Range::Range100v => Some(Range::Range10v),
            },
        }
    }

    /// Full scale of the hardware band this nominal band resolves to, in
    /// millivolts.  Meaningful only when the pair resolves.
    pub open spec fn spec_resolved_mv(self, attenuation: Attenuation) -> int
        recommends
            self.spec_resolve(attenuation) is Some,
    {
        self.spec_resolve(attenuation)->Some_0.spec_mv()
    }

    /// Resolves this nominal band under the given attenuation to the hardware
    /// band the device must be programmed with, or fails for the pairs the
    /// hardware cannot represent.
    pub fn into_range(&self, attenuation: Attenuation) -> (r: Result<Range, PicoError>)
        ensures
            r == match self.spec_resolve(attenuation) {
                Some(hw) => Ok::<Range, PicoError>(hw),
                None => Err::<Range, PicoError>(PicoError::InvalidVoltageRange),
            },
    {
        match attenuation {
            Attenuation::X1 => Ok(*self),
            Attenuation::X10 => match self {
                Range::Range10mv => Err(PicoError::InvalidVoltageRange),
                Range::Range20mv => Err(PicoError::InvalidVoltageRange),
                Range::Range50mv => Err(PicoError::InvalidVoltageRange),
                Range::Range100mv => Ok(Range::Range10mv),
                Range::Range200mv => Ok(Range::Range20mv),
                Range::Range500mv => Ok(Range::Range50mv),
                Range::Range1v => Ok(Range::Range100mv),
                Range::Range2v => Ok(Range::Range200mv),
                Range::Range5v => Ok(Range::Range500mv),
                Range::Range10v => Ok(Range::Range1v),
                Range::Range20v => Ok(Range::Range2v),
                Range::Range50v => Ok(Range::Range5v),
                Range::Range100v => Ok(Range::Range10v),
            },
        }
    }

    /// Full-scale millivolts of the hardware band this nominal band resolves
    /// to under the given attenuation, or the resolution failure.
    pub fn mv(&self, attenuation: Attenuation) -> (r: Result<i32, PicoError>)
        ensures
            r == match self.spec_resolve(attenuation) {
                Some(hw) => Ok::<i32, PicoError>(hw.spec_mv() as i32),
                None => Err::<i32, PicoError>(PicoError::InvalidVoltageRange),
            },
    {
        match self.into_range(attenuation) {
            Ok(hw) => Ok(match hw {
                Range::Range10mv => 10,
                Range::Range20mv => 20,
                Range::Range50mv => 50,
                Range::Range100mv => 100,
                Range::Range200mv => 200,
                Range::Range500mv => 500,
                Range::Range1v => 1000,
                Range::Range2v => 2000,
                Range::Range5v => 5000,
                Range::Range10v => 10_000,
                Range::Range20v => 20_000,
                Range::Range50v => 50_000,
                Range::Range100v => 100_000,
            }),
            Err(e) => Err(e),
        }
    }
}

/// Every band's full scale lies between 10 mV and 100 V.
pub proof fn lemma_mv_bounds(range: Range)
    ensures
        10 <= range.spec_mv() <= 100_000,
{
}

/// Range resolution is total: every nominal band and attenuation pair either
/// resolves to a hardware band whose full scale is no larger than the nominal
/// one, or fails; at 1x every band resolves to itself; and resolution fails
/// exactly for the three lowest bands under 10x attenuation.
pub proof fn lemma_range_resolution_totality(range: Range, attenuation: Attenuation)
    ensures
        range.spec_resolve(attenuation) matches Some(hw) ==> hw.spec_mv() <= range.spec_mv(),
        range.spec_resolve(Attenuation::X1) == Some(range),
        range.spec_resolve(attenuation) is None <==> (attenuation == Attenuation::X10 && (
        range == Range::Range10mv || range == Range::Range20mv || range == Range::Range50mv)),
{
}

} // verus!
