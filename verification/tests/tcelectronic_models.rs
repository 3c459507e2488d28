use firewire_protocols::tcelectronic::desktop::{
    DesktopHpSrc, DesktopHwState, DesktopMixerState, Desktopk6Protocol, InputScene, MeterTarget,
};
use firewire_protocols::tcelectronic::shell::itwin::{
    ItwinConfig, ItwinOutputPairSrc, ItwinProtocol,
};
use firewire_protocols::tcelectronic::shell::k24d::{K24dConfig, K24dKnob, K24dProtocol};
use firewire_protocols::tcelectronic::shell::klive::{KliveKnob, KliveProtocol, OutputImpedance};
use firewire_protocols::tcelectronic::shell::{
    ShellKnob0Target, ShellKnob1Target, ShellMixerStreamSourcePair, ShellPhysOutSrc,
    ShellStandaloneClockSource,
};
use firewire_protocols::tcelectronic::{
    TcKonnektLoadedProgram, TcKonnektSegmentSerdes, TcKonnektStandaloneClockRate,
};

#[test]
fn k24d_knob_serdes() {
    let params = K24dKnob {
        knob0_target: ShellKnob0Target::Configurable,
        knob1_target: ShellKnob1Target::TunerPitchTone,
        prog: TcKonnektLoadedProgram::P2,
    };
    let mut raw = vec![0u8; <K24dProtocol as TcKonnektSegmentSerdes<K24dKnob>>::SIZE];
    K24dProtocol::serialize(&params, &mut raw).unwrap();
    assert_eq!(&raw[..12], &[0, 0, 0, 3, 0, 0, 0, 7, 0, 0, 0, 2]);
    let mut p = K24dKnob::default();
    K24dProtocol::deserialize(&mut p, &raw).unwrap();
    assert_eq!(p, params);

    // The target which the model does not have is refused.
    let params = K24dKnob {
        knob0_target: ShellKnob0Target::ChannelStrip0,
        ..Default::default()
    };
    assert!(K24dProtocol::serialize(&params, &mut raw).is_err());
}

#[test]
fn k24d_config_serdes() {
    let mut params = K24dConfig::default();
    params.out_23_src = ShellPhysOutSrc::MixerSend01;
    params.standalone_src = ShellStandaloneClockSource::Internal;
    params.standalone_rate = TcKonnektStandaloneClockRate::R96000;
    let mut raw = vec![0u8; <K24dProtocol as TcKonnektSegmentSerdes<K24dConfig>>::SIZE];
    K24dProtocol::serialize(&params, &mut raw).unwrap();
    assert_eq!(&raw[16..28], &[0, 0, 0, 3, 0, 0, 0, 2, 0, 0, 0, 3]);
    let mut p = K24dConfig::default();
    K24dProtocol::deserialize(&mut p, &raw).unwrap();
    assert_eq!(p, params);

    // A position out of the list of standalone sources is an error.
    raw[20..24].copy_from_slice(&3u32.to_be_bytes());
    assert!(K24dProtocol::deserialize(&mut p, &raw).is_err());
}

#[test]
fn klive_knob_serdes() {
    let params = KliveKnob {
        knob0_target: ShellKnob0Target::Analog2_3,
        knob1_target: ShellKnob1Target::MidiSend,
        prog: TcKonnektLoadedProgram::P1,
        out_impedance: [OutputImpedance::Balance, OutputImpedance::Unbalance],
    };
    let mut raw = vec![0u8; <KliveProtocol as TcKonnektSegmentSerdes<KliveKnob>>::SIZE];
    KliveProtocol::serialize(&params, &mut raw).unwrap();
    assert_eq!(&raw[4..8], &[0, 0, 0, 8]);
    assert_eq!(&raw[12..20], &[0, 0, 0, 1, 0, 0, 0, 0]);
    let mut p = KliveKnob::default();
    KliveProtocol::deserialize(&mut p, &raw).unwrap();
    assert_eq!(p, params);
}

#[test]
fn itwin_config_serdes() {
    let mut params = ItwinConfig::default();
    params.mixer_stream_src_pair = ShellMixerStreamSourcePair::Stream12_13;
    params.output_pair_src[6] = ItwinOutputPairSrc::MixerSend01;
    let mut raw = vec![0u8; <ItwinProtocol as TcKonnektSegmentSerdes<ItwinConfig>>::SIZE];
    ItwinProtocol::serialize(&params, &mut raw).unwrap();
    assert_eq!(&raw[24..28], &[0, 0, 0, 6]);
    assert_eq!(&raw[144..148], &[0, 0, 0, 15]);
    let mut p = ItwinConfig::default();
    ItwinProtocol::deserialize(&mut p, &raw).unwrap();
    assert_eq!(p, params);
}

#[test]
fn desktop_hw_state_serdes() {
    let params = DesktopHwState {
        meter_target: MeterTarget::Post,
        mixer_output_monaural: true,
        knob_assign_to_hp: false,
        mixer_output_dim_enabled: true,
        mixer_output_dim_volume: -12,
        input_scene: InputScene::StereoIn,
        reverb_to_master: false,
        reverb_to_hp: true,
        master_knob_backlight: true,
        mic_0_phantom: true,
        mic_0_boost: false,
    };
    let mut raw = vec![0u8; <Desktopk6Protocol as TcKonnektSegmentSerdes<DesktopHwState>>::SIZE];
    Desktopk6Protocol::serialize(&params, &mut raw).unwrap();
    assert_eq!(&raw[28..32], &[0, 0, 0, 2]);
    assert_eq!(&raw[16..20], &(-12i32).to_be_bytes());
    let mut p = DesktopHwState::default();
    Desktopk6Protocol::deserialize(&mut p, &raw).unwrap();
    assert_eq!(p, params);
}

#[test]
fn desktop_mixer_state_hp_src() {
    let mut params = DesktopMixerState::default();
    params.hp_src = DesktopHpSrc::Mixer01;
    params.stereo_in_pan = 50;
    let mut raw = vec![0u8; <Desktopk6Protocol as TcKonnektSegmentSerdes<DesktopMixerState>>::SIZE];
    Desktopk6Protocol::serialize(&params, &mut raw).unwrap();
    assert_eq!(&raw[648..652], &[0, 0, 0, 0x0b]);
    let mut p = DesktopMixerState::default();
    Desktopk6Protocol::deserialize(&mut p, &raw).unwrap();
    assert_eq!(p, params);

    // Any code but the one of stream stands for the mixer.
    raw[648..652].copy_from_slice(&0x20u32.to_be_bytes());
    Desktopk6Protocol::deserialize(&mut p, &raw).unwrap();
    assert_eq!(p.hp_src, DesktopHpSrc::Mixer01);
}
