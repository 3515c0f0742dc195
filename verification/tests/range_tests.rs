use ps4000lib::Attenuation;
use ps4000lib::PicoError;
use ps4000lib::Range;

const ALL_RANGES: [Range; 13] = [
    Range::Range10mv,
    Range::Range20mv,
    Range::Range50mv,
    Range::Range100mv,
    Range::Range200mv,
    Range::Range500mv,
    Range::Range1v,
    Range::Range2v,
    Range::Range5v,
    Range::Range10v,
    Range::Range20v,
    Range::Range50v,
    Range::Range100v,
];

const ALL_MV: [i32; 13] = [
    10, 20, 50, 100, 200, 500, 1000, 2000, 5000, 10_000, 20_000, 50_000, 100_000,
];

#[test]
fn resolve_is_identity_at_1x() {
    for range in ALL_RANGES {
        assert_eq!(range.into_range(Attenuation::X1), Ok(range));
    }
}

#[test]
fn resolve_shifts_one_band_down_at_10x() {
    for i in 3..13 {
        assert_eq!(ALL_RANGES[i].into_range(Attenuation::X10), Ok(ALL_RANGES[i - 3]));
    }
}

#[test]
fn resolve_fails_exactly_for_three_lowest_bands_at_10x() {
    for (i, range) in ALL_RANGES.iter().enumerate() {
        let resolved = range.into_range(Attenuation::X10);
        if i < 3 {
            assert_eq!(resolved, Err(PicoError::InvalidVoltageRange));
        } else {
            assert!(resolved.is_ok());
        }
    }
}

#[test]
fn resolved_full_scale_never_exceeds_nominal() {
    for (i, range) in ALL_RANGES.iter().enumerate() {
        for attenuation in [Attenuation::X1, Attenuation::X10] {
            if let Ok(mv) = range.mv(attenuation) {
                assert!(mv <= ALL_MV[i]);
            }
        }
    }
}

#[test]
fn full_scale_millivolt_table_at_1x() {
    for (i, range) in ALL_RANGES.iter().enumerate() {
        assert_eq!(range.mv(Attenuation::X1), Ok(ALL_MV[i]));
    }
}

#[test]
fn full_scale_millivolts_at_10x_follow_the_resolved_band() {
    assert_eq!(Range::Range1v.mv(Attenuation::X10), Ok(100));
    assert_eq!(Range::Range100v.mv(Attenuation::X10), Ok(10_000));
    assert_eq!(Range::Range100mv.mv(Attenuation::X10), Ok(10));
    assert_eq!(Range::Range50mv.mv(Attenuation::X10), Err(PicoError::InvalidVoltageRange));
}

#[test]
fn attenuation_factors() {
    assert_eq!(Attenuation::X1.factor(), 1);
    assert_eq!(Attenuation::X10.factor(), 10);
}
