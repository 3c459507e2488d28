use firewire_protocols::digi00x::{
    deserialize_clock_rate, parse_sampling_clock_parameters, sampling_clock_parameters_value,
    serialize_clock_rate, ClockRate, ClockSource, Dg00xCommonOperation, Dg00xMonitorOperation,
    Dg00xSamplingClockParameters, Digi002Protocol, Digi003Protocol,
};

#[test]
fn digi00x_clock_rate_serdes() {
    for rate in [ClockRate::R44100, ClockRate::R48000, ClockRate::R88200, ClockRate::R96000] {
        let val = serialize_clock_rate(&rate);
        let mut r = ClockRate::default();
        deserialize_clock_rate(&mut r, val).unwrap();
        assert_eq!(r, rate);
    }
    let mut r = ClockRate::R48000;
    assert!(deserialize_clock_rate(&mut r, 4).is_err());
    assert_eq!(r, ClockRate::R48000);
}

#[test]
fn digi00x_sampling_clock_source_index() {
    let mut params = Dg00xSamplingClockParameters::default();
    parse_sampling_clock_parameters::<Digi003Protocol>(&mut params, 3).unwrap();
    assert_eq!(params.source, ClockSource::WordClock);
    assert!(parse_sampling_clock_parameters::<Digi002Protocol>(&mut params, 3).is_err());
    assert_eq!(sampling_clock_parameters_value::<Digi003Protocol>(&params).unwrap(), 3);
    assert!(sampling_clock_parameters_value::<Digi002Protocol>(&params).is_err());
}

#[test]
fn digi00x_clock_source_register() {
    assert_eq!(Digi002Protocol::parse_sampling_clock_source(2).unwrap(), ClockSource::Adat);
    assert!(Digi002Protocol::parse_sampling_clock_source(3).is_err());
    assert_eq!(Digi003Protocol::sampling_clock_source_value(ClockSource::WordClock).unwrap(), 3);
    assert!(Digi002Protocol::sampling_clock_source_value(ClockSource::WordClock).is_err());
    assert_eq!(Digi002Protocol::external_clock_source_rate(0, 3), None);
    assert_eq!(Digi002Protocol::external_clock_source_rate(1, 3), Some(ClockRate::R96000));
}

#[test]
fn digi00x_monitor_gain_register() {
    assert_eq!(
        Digi002Protocol::monitor_source_gain_request(1, 17, 0x80).unwrap(),
        (0x0300 + 4 + 17 * 8, 0x80000000)
    );
    assert!(Digi002Protocol::monitor_source_gain_request(2, 0, 0).is_err());
    assert!(Digi002Protocol::monitor_source_gain_request(0, 18, 0).is_err());
    assert_eq!(Digi002Protocol::monitor_source_gain_of(0x7f123456), 0x7f);
}
