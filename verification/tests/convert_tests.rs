use ps4000lib::Attenuation;
use ps4000lib::MAX_ADC_VALUE;
use ps4000lib::PicoError;
use ps4000lib::Range;
use ps4000lib::convert_adc_to_mv_scaled;
use ps4000lib::convert_mv_scaled_to_adc;
use ps4000lib::convert_mv_to_adc;

#[test]
fn adc_to_mv_scaled_exact_values() {
    // Scaled millivolts are plain millivolts times MAX_ADC_VALUE.
    assert_eq!(convert_adc_to_mv_scaled(16384, Attenuation::X1, Range::Range5v), Ok(16384 * 5000));
    assert_eq!(convert_adc_to_mv_scaled(-32767, Attenuation::X1, Range::Range10mv), Ok(-32767 * 10));
    assert_eq!(convert_adc_to_mv_scaled(0, Attenuation::X1, Range::Range100v), Ok(0));
    // Full scale: the largest code converts to exactly the full-scale value.
    let full = convert_adc_to_mv_scaled(32767, Attenuation::X1, Range::Range5v).unwrap();
    assert_eq!(full as f64 / MAX_ADC_VALUE as f64, 5000.0);
}

#[test]
fn adc_to_mv_scaled_multiplies_back_up_at_10x() {
    // Nominal 1 V at 10x resolves to the 100 mV band; the factor restores
    // the true input scale: code * 100 * 10.
    assert_eq!(convert_adc_to_mv_scaled(1000, Attenuation::X10, Range::Range1v), Ok(1000 * 100 * 10));
}

#[test]
fn adc_to_mv_scaled_fails_where_resolution_fails() {
    assert_eq!(
        convert_adc_to_mv_scaled(5, Attenuation::X10, Range::Range20mv),
        Err(PicoError::InvalidVoltageRange)
    );
}

#[test]
fn mv_to_adc_exact_values() {
    // 2000 mV on the 5 V band: 2000 * 32767 / 5000, truncated toward zero.
    assert_eq!(convert_mv_to_adc(2000, Attenuation::X1, Range::Range5v), Ok(13106));
    assert_eq!(convert_mv_to_adc(-2000, Attenuation::X1, Range::Range5v), Ok(-13106));
    assert_eq!(convert_mv_to_adc(0, Attenuation::X1, Range::Range5v), Ok(0));
    assert_eq!(convert_mv_to_adc(5000, Attenuation::X1, Range::Range5v), Ok(32767));
    // At 10x the true input is divided down first: 10 V on nominal 1 V@10x
    // is full scale of the resolved 100 mV band times the factor.
    assert_eq!(convert_mv_to_adc(1000, Attenuation::X10, Range::Range1v), Ok(32767));
    assert_eq!(convert_mv_to_adc(500, Attenuation::X10, Range::Range1v), Ok(16383));
}

#[test]
fn mv_to_adc_clamps_to_the_code_space() {
    assert_eq!(convert_mv_to_adc(6000, Attenuation::X1, Range::Range5v), Ok(32767));
    assert_eq!(convert_mv_to_adc(-6000, Attenuation::X1, Range::Range5v), Ok(-32768));
    assert_eq!(convert_mv_to_adc(i32::MAX, Attenuation::X1, Range::Range10mv), Ok(32767));
    assert_eq!(convert_mv_to_adc(i32::MIN, Attenuation::X1, Range::Range10mv), Ok(-32768));
}

#[test]
fn mv_to_adc_fails_where_resolution_fails() {
    assert_eq!(
        convert_mv_to_adc(5, Attenuation::X10, Range::Range10mv),
        Err(PicoError::InvalidVoltageRange)
    );
}

#[test]
fn round_trip_is_exact_on_scaled_millivolts() {
    for code in [-32767i16, -32766, -12345, -1, 0, 1, 777, 12345, 32766, 32767] {
        for range in [Range::Range10mv, Range::Range500mv, Range::Range5v, Range::Range100v] {
            let scaled = convert_adc_to_mv_scaled(code, Attenuation::X1, range).unwrap();
            assert_eq!(convert_mv_scaled_to_adc(scaled, Attenuation::X1, range), Ok(code));
        }
        let scaled = convert_adc_to_mv_scaled(code, Attenuation::X10, Range::Range2v).unwrap();
        assert_eq!(convert_mv_scaled_to_adc(scaled, Attenuation::X10, Range::Range2v), Ok(code));
    }
}

#[test]
fn attenuation_scaling_is_exactly_tenfold() {
    // voltage(code, range, 10x) == 10 * voltage(code, resolved band, 1x).
    for code in [-32767i16, -100, 0, 1, 32767] {
        let at_10x = convert_adc_to_mv_scaled(code, Attenuation::X10, Range::Range1v).unwrap();
        let at_1x = convert_adc_to_mv_scaled(code, Attenuation::X1, Range::Range100mv).unwrap();
        assert_eq!(at_10x, 10 * at_1x);
        let mv_10x = at_10x as f64 / MAX_ADC_VALUE as f64;
        let mv_1x = at_1x as f64 / MAX_ADC_VALUE as f64;
        assert!((mv_10x - 10.0 * mv_1x).abs() < 1e-9);
    }
}

#[test]
fn mv_scaled_to_adc_fails_where_resolution_fails() {
    assert_eq!(
        convert_mv_scaled_to_adc(5, Attenuation::X10, Range::Range50mv),
        Err(PicoError::InvalidVoltageRange)
    );
}
