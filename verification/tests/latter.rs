use firewire_protocols::fireface::latter::ff802::{
    deserialize_clock_source as ff802_deserialize_clock_source,
    deserialize_external_lock_status as ff802_deserialize_external_lock_status,
    deserialize_external_rate_status as ff802_deserialize_external_rate_status,
    deserialize_external_sync_status as ff802_deserialize_external_sync_status,
    serialize_clock_source as ff802_serialize_clock_source,
    serialize_external_lock_status as ff802_serialize_external_lock_status,
    serialize_external_rate_status as ff802_serialize_external_rate_status,
    serialize_external_sync_status as ff802_serialize_external_sync_status, Ff802ClkSrc,
    Ff802Config, Ff802ExtLockStatus, Ff802ExtRateStatus, Ff802ExtSyncStatus, Ff802Protocol,
    Ff802SpdifIface, Ff802Status,
};
use firewire_protocols::fireface::latter::ucx::{
    deserialize_clock_source as ucx_deserialize_clock_source,
    deserialize_external_lock_status as ucx_deserialize_external_lock_status,
    deserialize_external_rate_status as ucx_deserialize_external_rate_status,
    deserialize_external_sync_status as ucx_deserialize_external_sync_status,
    serialize_clock_source as ucx_serialize_clock_source,
    serialize_external_lock_status as ucx_serialize_external_lock_status,
    serialize_external_rate_status as ucx_serialize_external_rate_status,
    serialize_external_sync_status as ucx_serialize_external_sync_status, FfUcxClkSrc, FfUcxConfig,
    FfUcxExtLockStatus, FfUcxExtRateStatus, FfUcxExtSyncStatus, FfUcxProtocol, FfUcxStatus,
};
use firewire_protocols::fireface::latter::{
    add_odd_parity, create_phys_port_cmd, create_virt_port_cmd, deserialize_clock_rate,
    deserialize_midi_tx_low_offset, eq_state_to_cmds, hpf_state_to_cmds, serialize_clock_rate,
    serialize_midi_tx_low_offset, write_dsp_cmd, write_dsp_cmds, FfLatterChStripEqType,
    FfLatterEqState, FfLatterFxEchoLpfFreq, FfLatterFxEchoState, FfLatterFxEchoType,
    FfLatterHpfRollOffLevel, FfLatterHpfState, FfLatterInputState, FfLatterMeterState,
    FfLatterMidiTxLowOffset, FfLatterMixer, FfLatterMixerState, FfLatterOutputHpfParameters,
    LatterInNominalLevel, RmeFfCommandParamsSerialize, RmeFfLatterInputSpecification,
    RmeFfLatterMeterSpecification, RmeFfPartiallyCommandableParamsOperation,
    RmeFfWhollyCommandableParamsOperation,
};
use firewire_protocols::fireface::{
    ClkNominalRate, OpticalOutputSignal, RmeFfOffsetParamsDeserialize,
    RmeFfOffsetParamsSerialize, SpdifFormat,
};

#[test]
fn latter_midi_tx_low_offset_serdes() {
    [
        FfLatterMidiTxLowOffset::A0000,
        FfLatterMidiTxLowOffset::A0080,
        FfLatterMidiTxLowOffset::A0100,
        FfLatterMidiTxLowOffset::A0180,
    ]
    .iter()
    .for_each(|orig| {
        let mut quad = 0;
        serialize_midi_tx_low_offset(orig, &mut quad);
        let mut target = FfLatterMidiTxLowOffset::default();
        deserialize_midi_tx_low_offset(&mut target, &quad);

        assert_eq!(&target, orig);
    });
}

#[test]
fn clock_rate_serdes() {
    [
        ClkNominalRate::R32000,
        ClkNominalRate::R44100,
        ClkNominalRate::R48000,
        ClkNominalRate::R64000,
        ClkNominalRate::R88200,
        ClkNominalRate::R96000,
        ClkNominalRate::R128000,
        ClkNominalRate::R176400,
        ClkNominalRate::R192000,
    ]
    .iter()
    .for_each(|orig| {
        let mut quad = 0;
        serialize_clock_rate(orig, &mut quad, 0);
        let mut target = ClkNominalRate::default();
        deserialize_clock_rate(&mut target, &quad, 0);

        assert_eq!(&target, orig);
    });
}

#[test]
fn ff802_clock_source_serdes() {
    [
        Ff802ClkSrc::AdatB,
        Ff802ClkSrc::AdatA,
        Ff802ClkSrc::AesEbu,
        Ff802ClkSrc::WordClk,
        Ff802ClkSrc::Internal,
    ]
    .iter()
    .for_each(|orig| {
        let mut quad = 0;
        ff802_serialize_clock_source(&orig, &mut quad);
        let mut target = Ff802ClkSrc::default();
        ff802_deserialize_clock_source(&mut target, &quad);

        assert_eq!(&target, orig);
    });
}

#[test]
fn ff802_config_serdes() {
    let orig = Ff802Config {
        midi_tx_low_offset: FfLatterMidiTxLowOffset::A0180,
        clk_src: Ff802ClkSrc::AesEbu,
        spdif_in_iface: Ff802SpdifIface::Optical,
        opt_out_signal: OpticalOutputSignal::Spdif,
        effect_on_inputs: true,
        spdif_out_format: SpdifFormat::Professional,
        word_out_single: true,
    };
    let quads = Ff802Protocol::serialize_offsets(&orig);
    let mut target = Ff802Config::default();
    Ff802Protocol::deserialize_offsets(&mut target, &quads);

    assert_eq!(target, orig);
}

#[test]
fn ff802_external_lock_status_serdes() {
    let orig = Ff802ExtLockStatus {
        word_clk: true,
        spdif: true,
        adat_b: true,
        adat_a: true,
    };
    let mut quad = 0;
    ff802_serialize_external_lock_status(&orig, &mut quad);
    let mut target = Ff802ExtLockStatus::default();
    ff802_deserialize_external_lock_status(&mut target, &quad);

    assert_eq!(target, orig);
}

#[test]
fn ff802_external_sync_status_serdes() {
    let orig = Ff802ExtSyncStatus {
        word_clk: true,
        spdif: true,
        adat_b: true,
        adat_a: true,
    };
    let mut quad = 0;
    ff802_serialize_external_sync_status(&orig, &mut quad);
    let mut target = Ff802ExtSyncStatus::default();
    ff802_deserialize_external_sync_status(&mut target, &quad);

    assert_eq!(target, orig);
}

#[test]
fn ff802_external_rate_status_serdes() {
    let orig = Ff802ExtRateStatus {
        word_clk: Some(ClkNominalRate::R88200),
        spdif: Some(ClkNominalRate::R192000),
        adat_b: Some(ClkNominalRate::R44100),
        adat_a: None,
    };
    let mut quad = 0;
    ff802_serialize_external_rate_status(&orig, &mut quad);
    let mut target = Ff802ExtRateStatus::default();
    ff802_deserialize_external_rate_status(&mut target, &quad);

    assert_eq!(target, orig);
}

#[test]
fn ff802_status_serdes() {
    let orig = Ff802Status {
        ext_lock: Ff802ExtLockStatus {
            word_clk: true,
            spdif: false,
            adat_b: true,
            adat_a: false,
        },
        ext_sync: Ff802ExtSyncStatus {
            word_clk: true,
            spdif: false,
            adat_b: false,
            adat_a: false,
        },
        ext_rate: Ff802ExtRateStatus {
            word_clk: Some(ClkNominalRate::R88200),
            spdif: None,
            adat_b: Some(ClkNominalRate::R44100),
            adat_a: None,
        },
        active_clk_src: Ff802ClkSrc::AdatA,
        active_clk_rate: ClkNominalRate::R96000,
    };
    let raw = Ff802Protocol::serialize_offsets(&orig);
    let mut target = Ff802Status::default();
    Ff802Protocol::deserialize_offsets(&mut target, &raw);

    assert_eq!(target, orig);
}

#[test]
fn ff802_status_rates_kept_without_word_clock() {
    let mut orig = Ff802Status::default();
    orig.ext_lock.spdif = true;
    orig.ext_rate.spdif = Some(ClkNominalRate::R48000);
    let raw = Ff802Protocol::serialize_offsets(&orig);
    let mut target = Ff802Status::default();
    target.ext_rate.adat_a = Some(ClkNominalRate::R32000);
    Ff802Protocol::deserialize_offsets(&mut target, &raw);

    assert_eq!(target.ext_lock, orig.ext_lock);
    assert_eq!(target.ext_rate.spdif, None);
    assert_eq!(target.ext_rate.adat_a, Some(ClkNominalRate::R32000));
}

#[test]
fn ucx_clock_source_serdes() {
    [
        FfUcxClkSrc::WordClk,
        FfUcxClkSrc::Opt,
        FfUcxClkSrc::Coax,
        FfUcxClkSrc::Internal,
    ]
    .iter()
    .for_each(|orig| {
        let mut quad = 0;
        ucx_serialize_clock_source(&orig, &mut quad);
        let mut target = FfUcxClkSrc::default();
        ucx_deserialize_clock_source(&mut target, &quad);

        assert_eq!(&target, orig);
    });
}

#[test]
fn ucx_config_serdes() {
    let orig = FfUcxConfig {
        midi_tx_low_offset: FfLatterMidiTxLowOffset::A0180,
        clk_src: FfUcxClkSrc::Opt,
        opt_out_signal: OpticalOutputSignal::Spdif,
        word_out_single: true,
        effect_on_inputs: true,
        word_in_terminate: true,
        spdif_out_format: SpdifFormat::Professional,
    };
    let quads = FfUcxProtocol::serialize_offsets(&orig);
    let mut target = FfUcxConfig::default();
    FfUcxProtocol::deserialize_offsets(&mut target, &quads);

    assert_eq!(target, orig);
}

#[test]
fn ucx_external_lock_status_serdes() {
    let orig = FfUcxExtLockStatus {
        word_clk: true,
        opt_iface: true,
        coax_iface: true,
    };
    let mut quad = 0;
    ucx_serialize_external_lock_status(&orig, &mut quad);
    let mut target = FfUcxExtLockStatus::default();
    ucx_deserialize_external_lock_status(&mut target, &quad);

    assert_eq!(target, orig);
}

#[test]
fn ucx_external_sync_status_serdes() {
    let orig = FfUcxExtSyncStatus {
        word_clk: true,
        opt_iface: true,
        coax_iface: true,
    };
    let mut quad = 0;
    ucx_serialize_external_sync_status(&orig, &mut quad);
    let mut target = FfUcxExtSyncStatus::default();
    ucx_deserialize_external_sync_status(&mut target, &quad);

    assert_eq!(target, orig);
}

#[test]
fn ucx_external_rate_status_serdes() {
    let orig = FfUcxExtRateStatus {
        word_clk: Some(ClkNominalRate::R88200),
        opt_iface: Some(ClkNominalRate::R192000),
        coax_iface: Some(ClkNominalRate::R44100),
    };
    let mut quad = 0;
    ucx_serialize_external_rate_status(&orig, &mut quad);
    let mut target = FfUcxExtRateStatus::default();
    ucx_deserialize_external_rate_status(&mut target, &quad);

    assert_eq!(target, orig);
}

#[test]
fn ucx_status_serdes() {
    let orig = FfUcxStatus {
        ext_lock: FfUcxExtLockStatus {
            word_clk: true,
            opt_iface: false,
            coax_iface: true,
        },
        ext_sync: FfUcxExtSyncStatus {
            word_clk: false,
            opt_iface: false,
            coax_iface: true,
        },
        ext_rate: FfUcxExtRateStatus {
            word_clk: Some(ClkNominalRate::R176400),
            opt_iface: None,
            coax_iface: Some(ClkNominalRate::R48000),
        },
        opt_out_signal: OpticalOutputSignal::Spdif,
        active_clk_src: FfUcxClkSrc::Opt,
        active_clk_rate: ClkNominalRate::R88200,
    };
    let raw = FfUcxProtocol::serialize_offsets(&orig);
    let mut target = FfUcxStatus::default();
    FfUcxProtocol::deserialize_offsets(&mut target, &raw);

    assert_eq!(target, orig);
}

#[test]
fn latter_phys_port_cmd_layout() {
    assert_eq!(create_phys_port_cmd(0x3c, 0x0c, -650), 0x3c0cfd76);
    assert_eq!(create_phys_port_cmd(0x01, 0x21, 500), 0x012101f4);
}

#[test]
fn latter_virt_port_cmd_layout() {
    assert_eq!(create_virt_port_cmd(0x40, 2, 3, 0x9000), 0x40839000);
}

#[test]
fn latter_dsp_cmd_odd_parity() {
    // No bit set: the parity bit makes it odd.
    assert_eq!(add_odd_parity(0x00000000), 0x80000000);
    // One bit set: already odd.
    assert_eq!(add_odd_parity(0x00000001), 0x00000001);
    // Two bits set.
    assert_eq!(add_odd_parity(0x00010001), 0x80010001);
    assert_eq!(write_dsp_cmd(0x00000003), vec![0x03, 0x00, 0x00, 0x80]);
}

#[test]
fn latter_dsp_cmds_changed_only() {
    let curr = [1u32, 2, 3, 4];
    let cmds = [1u32, 5, 3, 6, 7];
    assert_eq!(write_dsp_cmds(&curr, &cmds), vec![5, 6]);
}

#[test]
fn latter_hpf_cmds() {
    let state = FfLatterHpfState {
        activates: vec![true, false],
        cut_offs: vec![20, 500],
        roll_offs: vec![FfLatterHpfRollOffLevel::L24, FfLatterHpfRollOffLevel::L6],
    };
    let cmds = hpf_state_to_cmds(&state, 4);
    assert_eq!(
        cmds,
        vec![0x04200001, 0x04210014, 0x04220003, 0x05200000, 0x052101f4, 0x05220000]
    );
    let params = FfLatterOutputHpfParameters(state);
    let out = <Ff802Protocol as RmeFfCommandParamsSerialize<FfLatterOutputHpfParameters>>::serialize_commands(&params);
    assert_eq!(out[0], 0x1e200001);
}

#[test]
fn latter_eq_cmds() {
    let state = FfLatterEqState {
        activates: vec![true],
        low_types: vec![FfLatterChStripEqType::Shelf],
        low_gains: vec![-20],
        low_freqs: vec![100],
        low_qualities: vec![7],
        middle_gains: vec![0],
        middle_freqs: vec![1000],
        middle_qualities: vec![10],
        high_types: vec![FfLatterChStripEqType::LowPass],
        high_gains: vec![20],
        high_freqs: vec![20000],
        high_qualities: vec![50],
    };
    let cmds = eq_state_to_cmds(&state, 0);
    assert_eq!(cmds.len(), 12);
    assert_eq!(cmds[0], 0x00400001);
    assert_eq!(cmds[1], 0x00410001);
    assert_eq!(cmds[2], 0x0042ffec);
    assert_eq!(cmds[8], 0x00480002);
    assert_eq!(cmds[10], 0x004a4e20);
}

#[test]
fn latter_input_cmds() {
    let mut state = Ff802Protocol::create_input_parameters();
    state.mic_powers[0] = true;
    state.mic_insts[1] = true;
    state.mic_powers[1] = true;
    state.line_levels[0] = LatterInNominalLevel::Professional;
    let cmds = <Ff802Protocol as RmeFfCommandParamsSerialize<FfLatterInputState>>::serialize_commands(&state);
    // 15 links, 30 phases, 8 gains, 8 levels, and two commands for each of 4 microphones.
    assert_eq!(cmds.len(), 15 + 30 + 8 + 8 + 8);
    assert_eq!(cmds[15 + 30 + 8], 0x00080001);
    // The first microphone follows the line inputs: powered, not for instrument.
    assert_eq!(cmds[61], 0x08090000);
    assert_eq!(cmds[62], 0x08080001);
    // The powering is off for an instrument.
    assert_eq!(cmds[63], 0x09090001);
    assert_eq!(cmds[64], 0x09080000);
}

#[test]
fn latter_mixer_cmds() {
    let state = FfLatterMixerState(vec![
        FfLatterMixer {
            line_gains: vec![0x9000],
            mic_gains: vec![],
            spdif_gains: vec![0x1000],
            adat_gains: vec![],
            stream_gains: vec![0x2000],
        },
        FfLatterMixer {
            line_gains: vec![0x0001],
            mic_gains: vec![],
            spdif_gains: vec![],
            adat_gains: vec![],
            stream_gains: vec![],
        },
    ]);
    let cmds = <Ff802Protocol as RmeFfCommandParamsSerialize<FfLatterMixerState>>::serialize_commands(&state);
    assert_eq!(cmds, vec![0x40009000, 0x40011000, 0x40400001]);
}

#[test]
fn latter_echo_commands_wholly_and_partially() {
    let mut state = FfLatterFxEchoState::default();
    let cmds = <Ff802Protocol as RmeFfWhollyCommandableParamsOperation<FfLatterFxEchoState>>::command_wholly(&state);
    assert_eq!(cmds.len(), 7);
    assert_eq!(cmds[0], 0x3c200000);

    let mut update = state;
    update.echo_type = FfLatterFxEchoType::PongEcho;
    update.lpf = FfLatterFxEchoLpfFreq::H2000;
    let cmds = <Ff802Protocol as RmeFfPartiallyCommandableParamsOperation<FfLatterFxEchoState>>::command_partially(&mut state, update);
    assert_eq!(cmds, vec![0x3c210002, 0xbc240005]);
    assert_eq!(state, update);
}

#[test]
fn latter_meter_outputs() {
    let mut state = Ff802Protocol::create_meter_state();
    let mut raw = vec![0u8; 392];
    raw[388..392].copy_from_slice(&0x11111111u32.to_le_bytes());
    // The first headphone output follows the line outputs.
    raw[256 + 8 * 4..256 + 8 * 4 + 4].copy_from_slice(&0x7fffffffu32.to_le_bytes());
    Ff802Protocol::deserialize_offsets(&mut state, &raw);
    assert_eq!(state.hp_outputs[0], 0x07fffff0);
    assert_eq!(state.line_outputs[7], 0);
    assert_eq!(state.line_inputs.len(), 8);

    let mut other = FfLatterMeterState::default();
    raw[388..392].copy_from_slice(&0x22222222u32.to_le_bytes());
    Ff802Protocol::deserialize_offsets(&mut other, &raw);
    assert_eq!(other, FfLatterMeterState::default());
}
