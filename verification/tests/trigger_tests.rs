use ps4000lib::Channel;
use ps4000lib::ThresholdDirection;
use ps4000lib::Trigger;

#[test]
fn new_trigger_defaults_optional_fields_to_zero() {
    let trigger = Trigger::new(Channel::A, ThresholdDirection::Rising, 2000);
    assert_eq!(trigger.channel, Channel::A);
    assert_eq!(trigger.dir, ThresholdDirection::Rising);
    assert_eq!(trigger.value_mv, 2000);
    assert_eq!(trigger.no_of_pre_trigger_samples, 0);
    assert_eq!(trigger.delay, 0);
    assert_eq!(trigger.auto_trigger_ms, 0);
}

#[test]
fn builders_replace_one_field_each() {
    let trigger = Trigger::new(Channel::B, ThresholdDirection::Falling, -500)
        .with_no_of_pre_trigger_samples(250)
        .with_delay(7)
        .with_auto_trigger_ms(100);
    assert_eq!(trigger.channel, Channel::B);
    assert_eq!(trigger.dir, ThresholdDirection::Falling);
    assert_eq!(trigger.value_mv, -500);
    assert_eq!(trigger.no_of_pre_trigger_samples, 250);
    assert_eq!(trigger.delay, 7);
    assert_eq!(trigger.auto_trigger_ms, 100);
}

#[test]
fn builders_leave_the_other_fields_alone() {
    let base = Trigger::new(Channel::A, ThresholdDirection::Above, 10);
    let with_delay = base.with_delay(3);
    assert_eq!(with_delay.no_of_pre_trigger_samples, 0);
    assert_eq!(with_delay.auto_trigger_ms, 0);
    assert_eq!(with_delay.value_mv, 10);
    let with_auto = base.with_auto_trigger_ms(9);
    assert_eq!(with_auto.delay, 0);
    assert_eq!(with_auto.no_of_pre_trigger_samples, 0);
}

#[test]
fn hysteresis_divides_by_the_attenuation_factor() {
    assert_eq!(ps4000lib::hysteresis_adc(ps4000lib::Attenuation::X1), 2560);
    assert_eq!(ps4000lib::hysteresis_adc(ps4000lib::Attenuation::X10), 256);
}
