use firewire_protocols::fireface::former::ff400::{amp_to_vol_value, vol_to_amp_value};
use firewire_protocols::tcelectronic::ch_strip::{
    deserialize_ch_strip_meters, deserialize_ch_strip_states, serialize_ch_strip_meters,
    serialize_ch_strip_states, ChStripMeter, ChStripSrcType, ChStripState,
};
use firewire_protocols::tcelectronic::reverb::{
    deserialize_reverb_state, serialize_reverb_state, ReverbAlgorithm, ReverbState,
};
use firewire_protocols::tcelectronic::shell::k8::K8Protocol;
use firewire_protocols::tcelectronic::shell::{
    deserialize_mixer_meter, deserialize_mixer_state, serialize_mixer_meter, serialize_mixer_state,
    MonitorSrcParam, ShellMixerMeterSpecification, ShellMixerStateSpecification,
    ShellMonitorSrcPair,
};

#[test]
fn reverb_state_keeps_level_of_reverb() {
    let s = ReverbState {
        input_level: -3,
        bypass: true,
        kill_wet: false,
        kill_dry: true,
        output_level: 5,
        time_decay: 100,
        time_pre_decay: 20,
        color_low: -7,
        color_high: 8,
        color_high_factor: -9,
        mod_rate: 10,
        mod_depth: -11,
        level_early: -12,
        level_reverb: -13,
        level_dry: -14,
        algorithm: ReverbAlgorithm::Plate,
    };
    let mut raw = vec![0u8; 68];
    serialize_reverb_state(&s, &mut raw, 0).unwrap();
    assert_eq!(&raw[56..60], &(-13i32).to_be_bytes());
    assert_eq!(&raw[28..32], &[0, 0, 0, 0]);
    let mut t = ReverbState::default();
    deserialize_reverb_state(&mut t, &raw, 0).unwrap();
    assert_eq!(t, s);
}

fn pair(base: i32, link: bool) -> ShellMonitorSrcPair {
    ShellMonitorSrcPair {
        stereo_link: link,
        params: [
            MonitorSrcParam {
                gain_to_mixer: base,
                pan_to_mixer: base + 1,
                gain_to_send: base + 2,
            },
            MonitorSrcParam {
                gain_to_mixer: base + 3,
                pan_to_mixer: base + 4,
                gain_to_send: base + 5,
            },
        ],
    }
}

#[test]
fn k8_mixer_state_read_back() {
    let mut s = K8Protocol::create_mixer_state();
    s.stream = pair(-10, true);
    s.analog[0] = pair(-20, false);
    s.digital[0] = pair(-30, true);
    s.mutes.stream = true;
    s.mutes.analog[1] = true;
    s.mutes.digital[0] = true;
    s.output_volume = -40;
    s.output_dim_enable = true;
    s.output_dim_volume = -50;
    let mut raw = vec![0u8; 316];
    serialize_mixer_state::<K8Protocol>(&s, &mut raw).unwrap();
    let mut t = K8Protocol::create_mixer_state();
    deserialize_mixer_state::<K8Protocol>(&mut t, &raw).unwrap();
    // The digital pair is read from the first place, where the stream inputs are written; the
    // S/PDIF pair written at place 9 stays in the bytes.
    assert_eq!(t.digital[0], s.stream);
    assert_eq!(&raw[252..256], &1u32.to_be_bytes());
    assert_eq!(&raw[256..260], &(-30i32).to_be_bytes());
    let mut expected = s.clone();
    expected.digital[0] = s.stream;
    assert_eq!(t, expected);
}

#[test]
fn k8_mixer_meter_roundtrip() {
    let mut s = K8Protocol::create_meter_state();
    s.stream_inputs = vec![-1, -2];
    s.analog_inputs = vec![-3, -4];
    s.digital_inputs = vec![-5, -6];
    s.main_outputs = vec![-7, -8];
    let mut raw = vec![0u8; 92];
    serialize_mixer_meter::<K8Protocol>(&s, &mut raw).unwrap();
    assert_eq!(&raw[32..36], &(-3i32).to_be_bytes());
    assert_eq!(&raw[48..52], &(-5i32).to_be_bytes());
    assert_eq!(&raw[80..84], &(-7i32).to_be_bytes());
    let mut t = K8Protocol::create_meter_state();
    deserialize_mixer_meter::<K8Protocol>(&mut t, &raw).unwrap();
    assert_eq!(t, s);
}

fn ch_strip_state(i: u32) -> ChStripState {
    let mut s = ChStripState::default();
    s.src_type = if i % 2 == 0 {
        ChStripSrcType::Guitar
    } else {
        ChStripSrcType::Kick
    };
    s.comp.input_gain = 10 + i;
    s.comp.ctl = [1 + i, 2, 3];
    s.deesser.ratio = 4 + i;
    s.eq[3].freq = 5000 + i;
    s.limitter.threshold = 7 + i;
    s.bypass = i % 2 == 1;
    s
}

#[test]
fn ch_strip_states_segment_roundtrip() {
    for n in [2usize, 4] {
        let s: Vec<ChStripState> = (0..n as u32).map(ch_strip_state).collect();
        let mut raw = vec![0u8; ((n + 1) / 2) * 4 + n * 144];
        serialize_ch_strip_states(&s, &mut raw).unwrap();
        let mut t = vec![ChStripState::default(); n];
        deserialize_ch_strip_states(&mut t, &raw).unwrap();
        assert_eq!(t, s);
    }
}

#[test]
fn ch_strip_meters_segment_roundtrip() {
    for n in [2usize, 4] {
        let m: Vec<ChStripMeter> = (0..n as i32)
            .map(|i| ChStripMeter {
                input: -i,
                limit: -2 * i,
                output: -3 * i,
                gains: [i, i + 1, i + 2],
            })
            .collect();
        let mut raw = vec![0u8; ((n + 1) / 2) * 4 + 28 * n];
        serialize_ch_strip_meters(&m, &mut raw).unwrap();
        let mut t = vec![
            ChStripMeter {
                input: 0,
                limit: 0,
                output: 0,
                gains: [0; 3]
            };
            n
        ];
        deserialize_ch_strip_meters(&mut t, &raw).unwrap();
        assert_eq!(t, m);
    }
}

#[test]
fn amp_and_volume_roundtrip() {
    for a in 0..=0x3fi8 {
        assert_eq!(vol_to_amp_value(amp_to_vol_value(a)), a);
    }
    assert_eq!(vol_to_amp_value(0), 0x3f);
    assert_eq!(vol_to_amp_value(0x10000), 0);
    let mut prev = vol_to_amp_value(0);
    for v in (0..=0x10000).step_by(97) {
        let a = vol_to_amp_value(v);
        assert!(a <= prev && (0..=0x3f).contains(&a));
        prev = a;
    }
}
