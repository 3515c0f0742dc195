use vstd::prelude::*;

verus! {

/// External probe attenuation: a passive divider placed before the analog
/// front end.  Measured values must be multiplied back up by this factor.
#[derive(Clone, Copy, Debug, PartialEq, Eq, Structural)]
pub enum Attenuation {
    X1,
    X10,
}

impl Attenuation {
    /// The division factor of the probe, as an exact integer.
    pub open spec fn spec_factor(self) -> int {
        match self {
            Attenuation::X1 => 1,
            Attenuation::X10 => 10,
        }
    }

    /// The factor that measured values are scaled back up by.
    pub fn factor(&self) -> (f: u32)
        ensures
            f == self.spec_factor(),
    {
        match self {
            Attenuation::X1 => 1,
            Attenuation::X10 => 10,
        }
    }
}

} // verus!
