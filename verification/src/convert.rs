use vstd::prelude::*;

use vstd::arithmetic::div_mod::lemma_div_multiples_vanish;

use crate::attenuation::Attenuation;
use crate::device::PicoError;
use crate::range::Range;
use crate::range::lemma_mv_bounds;

verus! {

/// Largest ADC code the device can report; codes run from `-MAX_ADC_VALUE`
/// to `MAX_ADC_VALUE` over the full scale of the programmed band.
pub const MAX_ADC_VALUE: u32 = 32767;

/// Exact calibrated value of one ADC code, in scaled millivolts: the
/// millivolt value multiplied by [`MAX_ADC_VALUE`].  The scaling keeps the
/// quotient `code * full_scale / MAX_ADC_VALUE * factor` exact; dividing by
/// [`MAX_ADC_VALUE`] yields plain millivolts.  The attenuation factor
/// multiplies the result back up because the probe divided the true input
/// down before digitization.
pub open spec fn spec_adc_to_mv_scaled(raw: int, range: Range, attenuation: Attenuation) -> int
    recommends
        range.spec_resolve(attenuation) is Some,
{
    raw * range.spec_resolved_mv(attenuation) * attenuation.spec_factor()
}

/// The ADC code whose exact scaled-millivolt value is nearest to `scaled`
/// toward zero, clamped to the signed 16-bit code space.
pub open spec fn spec_mv_scaled_to_adc(scaled: int, range: Range, attenuation: Attenuation) -> int
    recommends
        range.spec_resolve(attenuation) is Some,
{
    let d = range.spec_resolved_mv(attenuation) * attenuation.spec_factor();
    let q = if scaled >= 0 {
        scaled / d
    } else {
        -((-scaled) / d)
    };
    if q > i16::MAX as int {
        i16::MAX as int
    } else if q < i16::MIN as int {
        i16::MIN as int
    } else {
        q
    }
}

/// The ADC code for a plain millivolt value.
pub open spec fn spec_mv_to_adc(value_mv: int, range: Range, attenuation: Attenuation) -> int
    recommends
        range.spec_resolve(attenuation) is Some,
{
    spec_mv_scaled_to_adc(value_mv * MAX_ADC_VALUE, range, attenuation)
}

/// Converts a raw ADC code to its exact calibrated value in scaled
/// millivolts (millivolts times [`MAX_ADC_VALUE`]), or fails where the
/// range/attenuation pair does not resolve.
pub fn convert_adc_to_mv_scaled(raw: i16, attenuation: Attenuation, range: Range) -> (r: Result<
    i64,
    PicoError,
>)
    ensures
        range.spec_resolve(attenuation) is Some ==> (r matches Ok(v) && v
            == spec_adc_to_mv_scaled(raw as int, range, attenuation)),
        range.spec_resolve(attenuation) is None ==> r == Err::<i64, PicoError>(
            PicoError::InvalidVoltageRange,
        ),
{
    let fs = match range.mv(attenuation) {
        Ok(v) => v,
        Err(e) => {
            return Err(e);
        },
    };
    let k = attenuation.factor();
    proof {
        lemma_mv_bounds(range.spec_resolve(attenuation)->Some_0);
    }
    assert(-(32768 * 100000int) <= (raw as int) * (fs as int) <= 32768 * 100000int)
        by (nonlinear_arith)
        requires
            -32768 <= raw as int <= 32767,
            10 <= fs as int <= 100_000,
    ;
    let prod: i64 = (raw as i64) * (fs as i64);
    assert(-(32768 * 100000 * 10int) <= (prod as int) * (k as int) <= 32768 * 100000 * 10int)
        by (nonlinear_arith)
        requires
            -(32768 * 100000int) <= prod as int <= 32768 * 100000int,
            1 <= k as int <= 10,
    ;
    Ok(prod * (k as i64))
}

/// Converts a scaled-millivolt value (millivolts times [`MAX_ADC_VALUE`])
/// back to the ADC code it came from, truncating toward zero and clamping to
/// the signed 16-bit code space; fails where the range/attenuation pair does
/// not resolve.
pub fn convert_mv_scaled_to_adc(scaled: i64, attenuation: Attenuation, range: Range) -> (r: Result<
    i16,
    PicoError,
>)
    ensures
        range.spec_resolve(attenuation) is Some ==> (r matches Ok(a) && a as int
            == spec_mv_scaled_to_adc(scaled as int, range, attenuation)),
        range.spec_resolve(attenuation) is None ==> r == Err::<i16, PicoError>(
            PicoError::InvalidVoltageRange,
        ),
{
    let fs = match range.mv(attenuation) {
        Ok(v) => v,
        Err(e) => {
            return Err(e);
        },
    };
    let k = attenuation.factor();
    proof {
        lemma_mv_bounds(range.spec_resolve(attenuation)->Some_0);
    }
    let d: u64 = (fs as u64) * (k as u64);
    assert(10 <= d as int <= 1000_000) by (nonlinear_arith)
        requires
            10 <= fs as int <= 100_000,
            1 <= k as int <= 10,
            d as int == (fs as int) * (k as int),
    ;
    if scaled >= 0 {
        let q: u64 = (scaled as u64) / d;
        if q > 32767 {
            Ok(32767)
        } else {
            Ok(q as i16)
        }
    } else {
        let mag: u64 = (-(scaled as i128)) as u64;
        let q: u64 = mag / d;
        if q > 32768 {
            Ok(-32768)
        } else {
            Ok((-(q as i64)) as i16)
        }
    }
}

/// Converts a plain millivolt value (as a trigger threshold is given) to the
/// ADC code the device compares against, or fails where the
/// range/attenuation pair does not resolve.
pub fn convert_mv_to_adc(value_mv: i32, attenuation: Attenuation, range: Range) -> (r: Result<
    i16,
    PicoError,
>)
    ensures
        range.spec_resolve(attenuation) is Some ==> (r matches Ok(a) && a as int
            == spec_mv_to_adc(value_mv as int, range, attenuation)),
        range.spec_resolve(attenuation) is None ==> r == Err::<i16, PicoError>(
            PicoError::InvalidVoltageRange,
        ),
{
    assert(-(0x8000_0000 * 32767int) <= (value_mv as int) * (MAX_ADC_VALUE as int) <= 0x8000_0000
        * 32767int)
        by (nonlinear_arith)
        requires
            -0x8000_0000 <= value_mv as int <= 0x7FFF_FFFF,
            MAX_ADC_VALUE as int == 32767,
    ;
    let scaled: i64 = (value_mv as i64) * (MAX_ADC_VALUE as i64);
    convert_mv_scaled_to_adc(scaled, attenuation, range)
}

/// Round-trip conversion: any ADC code, converted to its exact
/// scaled-millivolt value and back, is recovered exactly — in particular to
/// within one code.
pub proof fn lemma_round_trip(raw: i16, range: Range, attenuation: Attenuation)
    requires
        range.spec_resolve(attenuation) is Some,
    ensures
        spec_mv_scaled_to_adc(
            spec_adc_to_mv_scaled(raw as int, range, attenuation),
            range,
            attenuation,
        ) == raw as int,
{
    let fs = range.spec_resolved_mv(attenuation);
    let k = attenuation.spec_factor();
    let d = fs * k;
    lemma_mv_bounds(range.spec_resolve(attenuation)->Some_0);
    assert(10 <= d) by (nonlinear_arith)
        requires
            10 <= fs,
            1 <= k,
            d == fs * k,
    ;
    let scaled = spec_adc_to_mv_scaled(raw as int, range, attenuation);
    assert(scaled == d * (raw as int)) by (nonlinear_arith)
        requires
            scaled == (raw as int) * fs * k,
            d == fs * k,
    ;
    if raw >= 0 {
        lemma_div_multiples_vanish(raw as int, d);
    } else {
        assert(-scaled == d * (-(raw as int))) by (nonlinear_arith)
            requires
                scaled == d * (raw as int),
        ;
        lemma_div_multiples_vanish(-(raw as int), d);
    }
}

/// Attenuation scaling: with a 10x probe, a code converts to exactly ten
/// times the millivolts it converts to on the equivalent resolved band with
/// a 1x probe.
pub proof fn lemma_attenuation_scaling(raw: i16, range: Range)
    requires
        range.spec_resolve(Attenuation::X10) is Some,
    ensures
        spec_adc_to_mv_scaled(raw as int, range, Attenuation::X10) == 10 * spec_adc_to_mv_scaled(
            raw as int,
            range.spec_resolve(Attenuation::X10)->Some_0,
            Attenuation::X1,
        ),
{
    let hw = range.spec_resolve(Attenuation::X10)->Some_0;
    assert(range.spec_resolved_mv(Attenuation::X10) == hw.spec_mv());
    assert(hw.spec_resolve(Attenuation::X1) == Some(hw));
    assert((raw as int) * hw.spec_mv() * 10 == 10 * ((raw as int) * hw.spec_mv() * 1))
        by (nonlinear_arith);
}

} // verus!
