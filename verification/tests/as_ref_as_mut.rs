use firewire_protocols::fireface::latter::{FfLatterHpfState, FfLatterInputHpfParameters};
use firewire_protocols::tcelectronic::shell::k24d::{K24dConfig, K24dHwState};
use firewire_protocols::tcelectronic::shell::{ShellHwState, ShellStandaloneClockSource};
use firewire_protocols::tcelectronic::{FireWireLedState, TcKonnektStandaloneClockRate};

#[test]
fn as_ref_as_mut_of_config() {
    let mut config = K24dConfig::default();
    *AsMut::<TcKonnektStandaloneClockRate>::as_mut(&mut config) =
        TcKonnektStandaloneClockRate::R96000;
    assert_eq!(config.standalone_rate, TcKonnektStandaloneClockRate::R96000);
    assert_eq!(
        AsRef::<TcKonnektStandaloneClockRate>::as_ref(&config),
        &TcKonnektStandaloneClockRate::R96000
    );
    assert_eq!(
        AsRef::<ShellStandaloneClockSource>::as_ref(&config),
        &config.standalone_src
    );
}

#[test]
fn as_ref_as_mut_of_nested_field() {
    let mut state = K24dHwState::default();
    *AsMut::<FireWireLedState>::as_mut(&mut state) = FireWireLedState::BlinkFast;
    assert_eq!(state.0.firewire_led, FireWireLedState::BlinkFast);
    assert_eq!(
        AsRef::<FireWireLedState>::as_ref(&state),
        &FireWireLedState::BlinkFast
    );
    let hw: &ShellHwState = state.as_ref();
    assert_eq!(hw.firewire_led, FireWireLedState::BlinkFast);
}

#[test]
fn as_ref_as_mut_of_latter_parameters() {
    let mut params = FfLatterInputHpfParameters(FfLatterHpfState {
        activates: vec![false; 2],
        cut_offs: vec![20; 2],
        roll_offs: Vec::new(),
    });
    params.as_mut().activates[1] = true;
    assert_eq!(params.0.activates, vec![false, true]);
    let state: &FfLatterHpfState = params.as_ref();
    assert_eq!(state.cut_offs, vec![20, 20]);
}
