use ps4000lib::Attenuation;
use ps4000lib::Channel;
use ps4000lib::Coupling;
use ps4000lib::DeviceRequest;
use ps4000lib::PS4262;
use ps4000lib::PicoError;
use ps4000lib::Range;

#[test]
fn new_engine_holds_the_handle_and_default_channels() {
    let device = PS4262::new(4);
    assert_eq!(device.handle(), 4);
    for channel in [Channel::A, Channel::B] {
        let config = device.channel_config(channel);
        assert!(config.enable);
        assert_eq!(config.coupling, Coupling::DC);
        assert_eq!(config.range, Range::Range5v);
        assert_eq!(config.attenuation, Attenuation::X1);
    }
}

#[test]
fn set_channel_config_touches_only_its_channel() {
    let mut device = PS4262::new(0);
    let mut config = device.channel_config(Channel::A);
    config.range = Range::Range10v;
    config.attenuation = Attenuation::X10;
    config.enable = false;
    device.set_channel_config(Channel::A, config);
    assert_eq!(device.channel_config(Channel::A).range, Range::Range10v);
    assert_eq!(device.channel_config(Channel::A).attenuation, Attenuation::X10);
    assert!(!device.channel_config(Channel::A).enable);
    assert_eq!(device.channel_config(Channel::B).range, Range::Range5v);
    assert!(device.channel_config(Channel::B).enable);
}

#[test]
fn push_config_request_carries_the_resolved_band() {
    let mut device = PS4262::new(0);
    let mut config = device.channel_config(Channel::A);
    config.range = Range::Range1v;
    config.attenuation = Attenuation::X10;
    device.set_channel_config(Channel::A, config);
    assert_eq!(
        device.push_config_request(Channel::A),
        Ok(DeviceRequest::SetChannel {
            channel: Channel::A,
            enabled: true,
            coupling: Coupling::DC,
            hw_range: Range::Range100mv,
        })
    );
}

#[test]
fn push_config_request_fails_for_an_unreachable_band() {
    let mut device = PS4262::new(0);
    let mut config = device.channel_config(Channel::B);
    config.range = Range::Range20mv;
    config.attenuation = Attenuation::X10;
    device.set_channel_config(Channel::B, config);
    assert_eq!(device.push_config_request(Channel::B), Err(PicoError::InvalidVoltageRange));
}

#[test]
fn close_twice_never_errors_the_second_time() {
    let mut device = PS4262::new(11);

    // First close: the engine asks for one close-unit call and, on success,
    // marks the handle closed.
    let first = device.close_request();
    assert_eq!(first, Some(11));
    assert_eq!(device.finish_close(0), Ok(()));
    assert!(device.handle() < 0);

    // Second close: nothing to execute, so nothing can fail, and the handle
    // stays closed.
    assert_eq!(device.close_request(), None);
    assert!(device.handle() < 0);
}

#[test]
fn failed_close_keeps_the_handle_open_and_surfaces_the_status() {
    let mut device = PS4262::new(2);
    assert_eq!(device.close_request(), Some(2));
    assert_eq!(device.finish_close(55), Err(PicoError::Device(55)));
    assert_eq!(device.handle(), 2);
    // The close can then be retried.
    assert_eq!(device.close_request(), Some(2));
}
