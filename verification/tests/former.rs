use firewire_protocols::fireface::former::{
    serialize_mixer_src_gains, FormerOutputVolumeState, RmeFfFormerMeterOperation,
    RmeFormerMixerOperation, RmeFormerOutputOperation,
};

struct TestMeter;

impl RmeFfFormerMeterOperation for TestMeter {
    const METER_OFFSET: usize = 0;
    const ANALOG_INPUT_COUNT: usize = 2;
    const SPDIF_INPUT_COUNT: usize = 1;
    const ADAT_INPUT_COUNT: usize = 0;
    const STREAM_INPUT_COUNT: usize = 1;
    const ANALOG_OUTPUT_COUNT: usize = 1;
    const SPDIF_OUTPUT_COUNT: usize = 0;
    const ADAT_OUTPUT_COUNT: usize = 1;
}

impl RmeFormerOutputOperation for TestMeter {
    const ANALOG_OUTPUT_COUNT: usize = 2;
    const SPDIF_OUTPUT_COUNT: usize = 2;
    const ADAT_OUTPUT_COUNT: usize = 0;
}

impl RmeFormerMixerOperation for TestMeter {
    const ANALOG_INPUT_COUNT: usize = 8;
    const SPDIF_INPUT_COUNT: usize = 2;
    const ADAT_INPUT_COUNT: usize = 8;
    const STREAM_INPUT_COUNT: usize = 18;
    const ANALOG_OUTPUT_COUNT: usize = 8;
    const SPDIF_OUTPUT_COUNT: usize = 2;
    const ADAT_OUTPUT_COUNT: usize = 8;
    const MIXER_OFFSET: usize = 0x1000;
    const AVAIL_COUNT: usize = 18;
}

#[test]
fn former_meter_parse() {
    let length = TestMeter::meter_length();
    // Octuples for 3 inputs and 2 outputs twice, then quadlets for 3 + 1 + 2.
    assert_eq!(length, 8 * (3 + 2 * 2) + 4 * (3 + 1 + 2));
    let mut raw = vec![0u8; length];
    let base = 8 * (3 + 2 * 2);
    raw[base..(base + 4)].copy_from_slice(&0x7fffff42i32.to_le_bytes());
    raw[(base + 8)..(base + 12)].copy_from_slice(&0x12345678i32.to_le_bytes());
    raw[(base + 20)..(base + 24)].copy_from_slice(&(-1i32).to_le_bytes());
    let mut state = TestMeter::create_meter_state();
    let end = TestMeter::parse_meter(&mut state, &raw);
    assert_eq!(end, length);
    assert_eq!(state.analog_inputs, vec![0x7fffff00, 0]);
    assert_eq!(state.spdif_inputs, vec![0x12345600]);
    assert_eq!(state.adat_outputs, vec![0x7fffff00]);
}

#[test]
fn former_output_volume_changes() {
    let state = FormerOutputVolumeState(vec![0, 1, 2, 3]);
    assert_eq!(TestMeter::create_output_volume_state(), FormerOutputVolumeState(vec![0; 4]));
    assert_eq!(
        TestMeter::changed_output_vols(&state, &[0, 5, 2]),
        vec![(1, 5)]
    );
}

#[test]
fn former_mixer_gains_layout() {
    assert_eq!(TestMeter::mixer_src_gains_offset(1, 10), 0x1000 + (18 * 2 + 10) * 4);
    assert_eq!(TestMeter::mixer_src_offsets(), [0, 8, 10, 18]);
    assert_eq!(
        serialize_mixer_src_gains(&[0x8000, -1]),
        vec![0x00, 0x80, 0x00, 0x00, 0xff, 0xff, 0xff, 0xff]
    );
}
