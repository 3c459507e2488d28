use firewire_protocols::fireface::former::ff400::{
    amp_to_vol_value, deserialize_analog_input_config, deserialize_clock_config,
    deserialize_lock_status, deserialize_midi_tx_low_offset, deserialize_sync_status,
    serialize_analog_input_config, serialize_clock_config, serialize_lock_status,
    serialize_midi_tx_low_offset, serialize_sync_status, Ff400AnalogInConfig, Ff400ClkConfig,
    Ff400ClkLockStatus, Ff400ClkSrc, Ff400ClkSyncStatus, Ff400Config, Ff400InputGainStatus,
    Ff400MessageParse, Ff400MidiMessage, Ff400MidiTxLowOffset, Ff400Protocol, Ff400Status,
    KNOB_IS_RIGHT_CHANNEL_FLAG, KNOB_IS_SIGNAL_LEVEL_FLAG, KNOB_IS_STEREO_PAIRED_FLAG,
    KNOB_SIGNAL_LEVEL_MASK, KNOB_SIGNAL_LEVEL_SHIFT, KNOB_TARGET_HP_OUTPUT_PAIR,
    KNOB_TARGET_LINE_INPUT_PAIR_1, MIDI_PORT_1_BYTE_MASK, MIDI_PORT_1_BYTE_SHIFT, MIDI_PORT_1_FLAG,
};
use firewire_protocols::fireface::former::{
    FormerLineInNominalLevel, FormerOutputVolumeState, FormerSpdifOutput,
};
use firewire_protocols::fireface::{
    ClkNominalRate, OpticalOutputSignal, RmeFfOffsetParamsDeserialize, RmeFfOffsetParamsSerialize,
    SpdifFormat, SpdifIface, SpdifInput,
};

#[test]
fn ff400_lock_status_serdes() {
    let orig = Ff400ClkLockStatus {
        adat: true,
        spdif: true,
        word_clock: true,
    };
    let mut quads = [0; Ff400ClkLockStatus::QUADLET_COUNT];
    serialize_lock_status(&orig, &mut quads);
    let mut target = Ff400ClkLockStatus::default();
    deserialize_lock_status(&mut target, &quads);

    assert_eq!(target, orig);
}

#[test]
fn ff400_sync_status_serdes() {
    let orig = Ff400ClkSyncStatus {
        adat: true,
        spdif: true,
        word_clock: true,
    };
    let mut quads = [0; Ff400ClkSyncStatus::QUADLET_COUNT];
    serialize_sync_status(&orig, &mut quads);
    let mut target = Ff400ClkSyncStatus::default();
    deserialize_sync_status(&mut target, &quads);

    assert_eq!(target, orig);
}

#[test]
fn ff400_status_serdes() {
    let orig = Ff400Status {
        spdif_in: SpdifInput {
            iface: SpdifIface::Optical,
            // Not readable.
            use_preemble: false,
        },
        spdif_out: FormerSpdifOutput {
            format: SpdifFormat::Professional,
            emphasis: true,
            // Not readable.
            non_audio: false,
        },
        opt_out_signal: OpticalOutputSignal::Spdif,
        word_out_single: true,
        spdif_rate: Some(ClkNominalRate::R96000),
        active_clk_src: Ff400ClkSrc::Ltc,
        external_clk_rate: Some(ClkNominalRate::R88200),
        configured_clk_src: Ff400ClkSrc::Spdif,
        configured_clk_rate: ClkNominalRate::R176400,
        ..Default::default()
    };
    let raw = Ff400Protocol::serialize_offsets(&orig);
    let mut target = Ff400Status::default();
    Ff400Protocol::deserialize_offsets(&mut target, &raw);

    assert_eq!(target, orig);
}

#[test]
fn ff400_clock_config_serdes() {
    let orig = Ff400ClkConfig {
        primary_src: Ff400ClkSrc::Adat,
        avail_rate_44100: true,
        avail_rate_48000: true,
        avail_rate_double: true,
        avail_rate_quadruple: true,
    };
    let mut quads = [0; Ff400ClkConfig::QUADLET_COUNT];
    serialize_clock_config(&orig, &mut quads);
    let mut target = Ff400ClkConfig::default();
    deserialize_clock_config(&mut target, &quads);

    assert_eq!(target, orig);
}

#[test]
fn ff400_analog_input_config_serdes() {
    let orig = Ff400AnalogInConfig {
        line_level: FormerLineInNominalLevel::Professional,
        phantom_powering: [true; 2],
        insts: [true; 2],
        pad: [true; 2],
    };
    let mut quads = [0; Ff400AnalogInConfig::QUADLET_COUNT];
    serialize_analog_input_config(&orig, &mut quads);
    let mut target = Ff400AnalogInConfig::default();
    deserialize_analog_input_config(&mut target, &quads);

    assert_eq!(target, orig);
}

#[test]
fn ff400_midi_tx_low_offset_serdes() {
    let orig = Ff400MidiTxLowOffset::A0180;
    let mut quads = [0; Ff400MidiTxLowOffset::QUADLET_COUNT];
    serialize_midi_tx_low_offset(&orig, &mut quads);
    let mut target = Ff400MidiTxLowOffset::default();
    deserialize_midi_tx_low_offset(&mut target, &quads);

    assert_eq!(target, orig);
}

#[test]
fn ff400_config_serdes() {
    let orig = Ff400Config::default();
    let raw = Ff400Protocol::serialize_offsets(&orig);
    let mut target = Ff400Config::default();
    Ff400Protocol::deserialize_offsets(&mut target, &raw);

    assert_eq!(target, orig);
}

#[test]
fn message_parse() {
    let expected = Ff400InputGainStatus {
        mic: [0, 0],
        line: [0x1c, 0x1c],
    };
    let msg = KNOB_IS_SIGNAL_LEVEL_FLAG
        | KNOB_IS_STEREO_PAIRED_FLAG
        | KNOB_TARGET_LINE_INPUT_PAIR_1
        | ((0x1c << KNOB_SIGNAL_LEVEL_SHIFT) & KNOB_SIGNAL_LEVEL_MASK);
    let mut target = Ff400InputGainStatus::default();
    let res = Ff400Protocol::parse_message(&mut target, msg);
    assert_eq!(res, true);
    assert_eq!(target, expected);

    let expected = FormerOutputVolumeState(vec![
        0,
        0,
        0,
        0,
        0,
        0, // Analog.
        0,
        amp_to_vol_value(0x32), // Headphone.
        0,
        0, // S/PDIF.
        0,
        0,
        0,
        0,
        0,
        0,
        0,
        0, // ADAT.
    ]);
    let msg = KNOB_IS_SIGNAL_LEVEL_FLAG
        | KNOB_IS_RIGHT_CHANNEL_FLAG
        | KNOB_TARGET_HP_OUTPUT_PAIR
        | ((0x32 << KNOB_SIGNAL_LEVEL_SHIFT) & KNOB_SIGNAL_LEVEL_MASK);
    let mut target = FormerOutputVolumeState(vec![0; 18]);
    let res = Ff400Protocol::parse_message(&mut target, msg);
    assert_eq!(res, true);
    assert_eq!(target, expected);

    let expected = Ff400MidiMessage {
        port: 1,
        byte: 0x5a,
    };
    let msg = MIDI_PORT_1_FLAG | ((0x5a << MIDI_PORT_1_BYTE_SHIFT) & MIDI_PORT_1_BYTE_MASK);
    let mut target = Ff400MidiMessage::default();
    let res = Ff400Protocol::parse_message(&mut target, msg);
    assert_eq!(res, true);
    assert_eq!(target, expected);
}
