use firewire_protocols::tcelectronic::studio::{
    deserialize_src_entry, serialize_src_entry, MonitorSrcPairMode, OutGroup, SrcEntry,
    StudioAnalogJackState, StudioHwState, StudioLineOutLevel, StudioMixerState, StudioPhysOut,
    StudioRemote, Studiok48Protocol, NominalSignalLevel, LowPassFreq, CrossOverFreq,
};
use firewire_protocols::tcelectronic::TcKonnektSegmentSerdes;

fn size<T>() -> usize
where
    Studiok48Protocol: TcKonnektSegmentSerdes<T>,
{
    <Studiok48Protocol as TcKonnektSegmentSerdes<T>>::SIZE
}

#[test]
fn studio_src_entry_codes() {
    let cases = [
        (SrcEntry::Unused, 0x00u32),
        (SrcEntry::Analog(0), 0x01),
        (SrcEntry::Analog(11), 0x0c),
        (SrcEntry::Spdif(1), 0x0e),
        (SrcEntry::Adat(7), 0x16),
        (SrcEntry::StreamA(15), 0x46),
        (SrcEntry::StreamB(13), 0x54),
        (SrcEntry::Mixer(7), 0x5c),
    ];
    for (entry, code) in cases {
        let mut raw = [0u8; 4];
        serialize_src_entry(&entry, &mut raw, 0).unwrap();
        assert_eq!(u32::from_be_bytes(raw), code);
        let mut e = SrcEntry::Unused;
        deserialize_src_entry(&mut e, &raw, 0).unwrap();
        assert_eq!(e, entry);
    }
    // A code out of any range stands for unused.
    let raw = 0x30u32.to_be_bytes();
    let mut e = SrcEntry::Analog(1);
    deserialize_src_entry(&mut e, &raw, 0).unwrap();
    assert_eq!(e, SrcEntry::Unused);
}

#[test]
fn studio_line_out_level_serdes() {
    let params = StudioLineOutLevel {
        line_45: NominalSignalLevel::Consumer,
        line_67: NominalSignalLevel::Professional,
        line_89: NominalSignalLevel::Consumer,
        line_1011: NominalSignalLevel::Professional,
    };
    let mut raw = vec![0u8; size::<StudioLineOutLevel>()];
    Studiok48Protocol::serialize(&params, &mut raw).unwrap();
    assert_eq!(&raw[4..8], &[0, 0, 0, 1]);
    let mut p = StudioLineOutLevel::default();
    Studiok48Protocol::deserialize(&mut p, &raw).unwrap();
    assert_eq!(p, params);

    // A position out of the table is an error.
    raw[8..12].copy_from_slice(&2u32.to_be_bytes());
    assert!(Studiok48Protocol::deserialize(&mut p, &raw).is_err());
}

#[test]
fn studio_remote_serdes() {
    let mut params = StudioRemote::default();
    params.user_assigns[0] = SrcEntry::Analog(3);
    params.user_assigns[5] = SrcEntry::Mixer(2);
    params.fallback_to_master_enable = true;
    params.fallback_to_master_duration = 1000;
    let mut raw = vec![0u8; size::<StudioRemote>()];
    Studiok48Protocol::serialize(&params, &mut raw).unwrap();
    assert_eq!(&raw[4..8], &[0, 0, 0, 4]);
    assert_eq!(&raw[24..28], &[0, 0, 0, 0x57]);
    let mut p = StudioRemote::default();
    Studiok48Protocol::deserialize(&mut p, &raw).unwrap();
    assert_eq!(p, params);
}

#[test]
fn studio_mixer_state_serdes() {
    let mut params = StudioMixerState::default();
    params.src_pairs[3].mode = MonitorSrcPairMode::Fixed;
    params.src_pairs[3].params[1].src = SrcEntry::StreamA(2);
    params.src_pairs[3].params[1].gain_to_main = -500;
    params.mutes[0] = true;
    params.mutes[11] = true;
    params.ch_strip_src[2] = SrcEntry::Adat(4);
    params.mixer_out[1].vol = -20;
    params.post_fader = [true, false, true];
    params.enabled = true;
    let mut raw = vec![0u8; size::<StudioMixerState>()];
    Studiok48Protocol::serialize(&params, &mut raw).unwrap();
    assert_eq!(&raw[672..676], &[0, 0, 0x08, 0x01]);
    let mut p = StudioMixerState::default();
    Studiok48Protocol::deserialize(&mut p, &raw).unwrap();
    assert_eq!(p, params);
}

#[test]
fn studio_out_group_limits_channels() {
    let mut params = StudioPhysOut::default();
    params.out_grps[0] = OutGroup {
        assigned_phys_outs: [true; 22],
        bass_management: true,
        sub_channel: Some(3),
        main_cross_over_freq: CrossOverFreq::F95,
        main_level_to_sub: -3,
        sub_level_to_sub: -4,
        main_filter_for_main: Default::default(),
        main_filter_for_sub: LowPassFreq::Below24,
    };
    let mut raw = vec![0u8; size::<StudioPhysOut>()];
    Studiok48Protocol::serialize(&params, &mut raw).unwrap();
    // Only the first eight outputs are assigned.
    assert_eq!(&raw[332..336], &[0, 0, 0, 0xff]);
    assert_eq!(&raw[344..348], &[0, 0, 0, 0x08]);
    assert_eq!(&raw[364..368], &[0, 0, 0, 2]);
    let mut p = StudioPhysOut::default();
    Studiok48Protocol::deserialize(&mut p, &raw).unwrap();
    let mut expected = [false; 22];
    expected[..8].fill(true);
    assert_eq!(p.out_grps[0].assigned_phys_outs, expected);
    assert_eq!(p.out_grps[0].sub_channel, Some(3));
    assert_eq!(p.out_grps[0].main_filter_for_sub, LowPassFreq::Below24);

    // An unknown code of low pass filter is an error.
    raw[364..368].copy_from_slice(&3u32.to_be_bytes());
    assert!(Studiok48Protocol::deserialize(&mut p, &raw).is_err());
}

#[test]
fn studio_hw_state_serdes() {
    let mut params = StudioHwState::default();
    params.analog_jack_states[0] = StudioAnalogJackState::RearInserted;
    params.analog_jack_states[11] = StudioAnalogJackState::FrontInserted;
    params.valid_master_level = true;
    let mut raw = vec![0u8; size::<StudioHwState>()];
    Studiok48Protocol::serialize(&params, &mut raw).unwrap();
    assert_eq!(&raw[0..4], &[0, 0, 0, 8]);
    assert_eq!(&raw[4..8], &[0, 0, 0, 5]);
    let mut p = StudioHwState::default();
    Studiok48Protocol::deserialize(&mut p, &raw).unwrap();
    assert_eq!(p, params);
}
