use firewire_protocols::fireface::former::ff800::{
    deserialize_analog_input_config, deserialize_clock_config, deserialize_instrument_config,
    deserialize_lock_status, deserialize_sync_status, serialize_analog_input_config,
    serialize_clock_config, serialize_instrument_config, serialize_lock_status,
    serialize_sync_status, Ff800AnalogInConfig, Ff800AnalogInputJack, Ff800ClkConfig,
    Ff800ClkLockStatus, Ff800ClkSrc, Ff800ClkSyncStatus, Ff800Config, Ff800InstConfig,
    Ff800Protocol, Ff800Status,
};
use firewire_protocols::fireface::former::FormerLineInNominalLevel;
use firewire_protocols::fireface::{
    ClkNominalRate, LineOutNominalLevel, OpticalOutputSignal, RmeFfOffsetParamsDeserialize,
    RmeFfOffsetParamsSerialize, SpdifFormat, SpdifIface,
};

    fn quads_to_bytes(quads: &[u32]) -> Vec<u8> {
    quads.iter().flat_map(|quad| quad.to_le_bytes()).collect()
}
    fn config_to_quads(raw: &[u8]) -> Vec<u32> {
    let mut quadlet = [0; 4];
    (0..Ff800Config::QUADLET_COUNT)
    .map(|i| {
        let pos = i * 4;
        quadlet.copy_from_slice(&raw[pos..(pos + 4)]);
        u32::from_le_bytes(quadlet)
    })
    .collect()
}
#[test]
fn ff800_lock_status_serdes() {
    let orig = Ff800ClkLockStatus {
        adat_a: true,
        adat_b: true,
        spdif: true,
        word_clock: true,
        tco: true,
    };
    let mut quads = [0; Ff800ClkLockStatus::QUADLET_COUNT];
    serialize_lock_status(&orig, &mut quads);
    let mut target = Ff800ClkLockStatus::default();
    deserialize_lock_status(&mut target, &quads);

    assert_eq!(target, orig);
}

#[test]
fn ff800_sync_status_serdes() {
    let orig = Ff800ClkSyncStatus {
        adat_a: true,
        adat_b: true,
        spdif: true,
        word_clock: true,
        tco: true,
    };
    let mut quads = [0; Ff800ClkSyncStatus::QUADLET_COUNT];
    serialize_sync_status(&orig, &mut quads);
    let mut target = Ff800ClkSyncStatus::default();
    deserialize_sync_status(&mut target, &quads);

    assert_eq!(target, orig);
}

#[test]
fn ff800_status_serdes() {
    let mut status = Ff800Status::default();

    let quads = [0x02001000, 0x00000000];
    Ff800Protocol::deserialize_offsets(&mut status, &quads_to_bytes(&quads));
    assert_eq!(status.lock.adat_a, true);

    let quads = [0x02002000, 0x00000000];
    Ff800Protocol::deserialize_offsets(&mut status, &quads_to_bytes(&quads));
    assert_eq!(status.lock.adat_b, true);

    let quads = [0x02040000, 0x00000000];
    Ff800Protocol::deserialize_offsets(&mut status, &quads_to_bytes(&quads));
    assert_eq!(status.lock.spdif, true);

    let quads = [0x22000000, 0x00000000];
    Ff800Protocol::deserialize_offsets(&mut status, &quads_to_bytes(&quads));
    assert_eq!(status.lock.word_clock, true);

    let quads = [0x02000400, 0x00000000];
    Ff800Protocol::deserialize_offsets(&mut status, &quads_to_bytes(&quads));
    assert_eq!(status.sync.adat_a, true);

    let quads = [0x02000800, 0x00000000];
    Ff800Protocol::deserialize_offsets(&mut status, &quads_to_bytes(&quads));
    assert_eq!(status.sync.adat_b, true);

    let quads = [0x02100800, 0x00000000];
    Ff800Protocol::deserialize_offsets(&mut status, &quads_to_bytes(&quads));
    assert_eq!(status.sync.spdif, true);

    let quads = [0x42000000, 0x00000000];
    Ff800Protocol::deserialize_offsets(&mut status, &quads_to_bytes(&quads));
    assert_eq!(status.sync.word_clock, true);

    let quads = [0x02000000, 0x00800000];
    Ff800Protocol::deserialize_offsets(&mut status, &quads_to_bytes(&quads));
    assert_eq!(status.sync.tco, true);

    let quads = [0x02004000, 0x00000000];
    Ff800Protocol::deserialize_offsets(&mut status, &quads_to_bytes(&quads));
    assert_eq!(status.spdif_rate, Some(ClkNominalRate::R32000));

    let quads = [0x02008000, 0x00000000];
    Ff800Protocol::deserialize_offsets(&mut status, &quads_to_bytes(&quads));
    assert_eq!(status.spdif_rate, Some(ClkNominalRate::R44100));

    let quads = [0x0200c000, 0x00000000];
    Ff800Protocol::deserialize_offsets(&mut status, &quads_to_bytes(&quads));
    assert_eq!(status.spdif_rate, Some(ClkNominalRate::R48000));

    let quads = [0x02010000, 0x00000000];
    Ff800Protocol::deserialize_offsets(&mut status, &quads_to_bytes(&quads));
    assert_eq!(status.spdif_rate, Some(ClkNominalRate::R64000));

    let quads = [0x02014000, 0x00000000];
    Ff800Protocol::deserialize_offsets(&mut status, &quads_to_bytes(&quads));
    assert_eq!(status.spdif_rate, Some(ClkNominalRate::R88200));

    let quads = [0x02018000, 0x00000000];
    Ff800Protocol::deserialize_offsets(&mut status, &quads_to_bytes(&quads));
    assert_eq!(status.spdif_rate, Some(ClkNominalRate::R96000));

    let quads = [0x0201c000, 0x00000000];
    Ff800Protocol::deserialize_offsets(&mut status, &quads_to_bytes(&quads));
    assert_eq!(status.spdif_rate, Some(ClkNominalRate::R128000));

    let quads = [0x02020000, 0x00000000];
    Ff800Protocol::deserialize_offsets(&mut status, &quads_to_bytes(&quads));
    assert_eq!(status.spdif_rate, Some(ClkNominalRate::R176400));

    let quads = [0x02024000, 0x00000000];
    Ff800Protocol::deserialize_offsets(&mut status, &quads_to_bytes(&quads));
    assert_eq!(status.spdif_rate, Some(ClkNominalRate::R192000));

    let quads = [0x02000000, 0x00000000];
    Ff800Protocol::deserialize_offsets(&mut status, &quads_to_bytes(&quads));
    assert_eq!(status.active_clk_src, Ff800ClkSrc::AdatA);

    let quads = [0x02400000, 0x00000000];
    Ff800Protocol::deserialize_offsets(&mut status, &quads_to_bytes(&quads));
    assert_eq!(status.active_clk_src, Ff800ClkSrc::AdatB);

    let quads = [0x02c00000, 0x00000000];
    Ff800Protocol::deserialize_offsets(&mut status, &quads_to_bytes(&quads));
    assert_eq!(status.active_clk_src, Ff800ClkSrc::Spdif);

    let quads = [0x03000000, 0x00000000];
    Ff800Protocol::deserialize_offsets(&mut status, &quads_to_bytes(&quads));
    assert_eq!(status.active_clk_src, Ff800ClkSrc::WordClock);

    let quads = [0x03800000, 0x00000000];
    Ff800Protocol::deserialize_offsets(&mut status, &quads_to_bytes(&quads));
    assert_eq!(status.active_clk_src, Ff800ClkSrc::Tco);

    let quads = [0x03c00000, 0x00000000];
    Ff800Protocol::deserialize_offsets(&mut status, &quads_to_bytes(&quads));
    assert_eq!(status.active_clk_src, Ff800ClkSrc::Internal);

    let quads = [0x02000000, 0x00000000];
    Ff800Protocol::deserialize_offsets(&mut status, &quads_to_bytes(&quads));
    assert_eq!(status.external_clk_rate, Some(ClkNominalRate::R32000));

    let quads = [0x04000000, 0x00000000];
    Ff800Protocol::deserialize_offsets(&mut status, &quads_to_bytes(&quads));
    assert_eq!(status.external_clk_rate, Some(ClkNominalRate::R44100));

    let quads = [0x06000000, 0x00000000];
    Ff800Protocol::deserialize_offsets(&mut status, &quads_to_bytes(&quads));
    assert_eq!(status.external_clk_rate, Some(ClkNominalRate::R48000));

    let quads = [0x08000000, 0x00000000];
    Ff800Protocol::deserialize_offsets(&mut status, &quads_to_bytes(&quads));
    assert_eq!(status.external_clk_rate, Some(ClkNominalRate::R64000));

    let quads = [0x0a000000, 0x00000000];
    Ff800Protocol::deserialize_offsets(&mut status, &quads_to_bytes(&quads));
    assert_eq!(status.external_clk_rate, Some(ClkNominalRate::R88200));

    let quads = [0x0e000000, 0x00000000];
    Ff800Protocol::deserialize_offsets(&mut status, &quads_to_bytes(&quads));
    assert_eq!(status.external_clk_rate, Some(ClkNominalRate::R96000));

    let quads = [0x0c000000, 0x00000000];
    Ff800Protocol::deserialize_offsets(&mut status, &quads_to_bytes(&quads));
    assert_eq!(status.external_clk_rate, Some(ClkNominalRate::R128000));

    let quads = [0x10000000, 0x00000000];
    Ff800Protocol::deserialize_offsets(&mut status, &quads_to_bytes(&quads));
    assert_eq!(status.external_clk_rate, Some(ClkNominalRate::R176400));

    let quads = [0x12000000, 0x00000000];
    Ff800Protocol::deserialize_offsets(&mut status, &quads_to_bytes(&quads));
    assert_eq!(status.external_clk_rate, Some(ClkNominalRate::R192000));

    let quads = [0x02000000, 0x00400000];
    Ff800Protocol::deserialize_offsets(&mut status, &quads_to_bytes(&quads));
    assert_eq!(status.lock.tco, true);

    let quads = [0x02000000, 0x00800000];
    Ff800Protocol::deserialize_offsets(&mut status, &quads_to_bytes(&quads));
    assert_eq!(status.sync.tco, true);

    let quads = [0x02000000, 0x00002000];
    Ff800Protocol::deserialize_offsets(&mut status, &quads_to_bytes(&quads));
    assert_eq!(status.word_out_single, true);

    let quads = [0x02000000, 0x00000200];
    Ff800Protocol::deserialize_offsets(&mut status, &quads_to_bytes(&quads));
    assert_eq!(status.spdif_in.iface, SpdifIface::Optical);

    let quads = [0x02000000, 0x00000100];
    Ff800Protocol::deserialize_offsets(&mut status, &quads_to_bytes(&quads));
    assert_eq!(status.opt_out_signal, OpticalOutputSignal::Spdif);

    let quads = [0x02000000, 0x00000040];
    Ff800Protocol::deserialize_offsets(&mut status, &quads_to_bytes(&quads));
    assert_eq!(status.spdif_out.emphasis, true);

    let quads = [0x02000000, 0x00000020];
    Ff800Protocol::deserialize_offsets(&mut status, &quads_to_bytes(&quads));
    assert_eq!(status.spdif_out.format, SpdifFormat::Professional);

    let quads = [0x02000000, 0x00000002];
    Ff800Protocol::deserialize_offsets(&mut status, &quads_to_bytes(&quads));
    assert_eq!(status.configured_clk_rate, ClkNominalRate::R32000);

    let quads = [0x02000000, 0x00000000];
    Ff800Protocol::deserialize_offsets(&mut status, &quads_to_bytes(&quads));
    assert_eq!(status.configured_clk_rate, ClkNominalRate::R44100);

    let quads = [0x02000000, 0x00000006];
    Ff800Protocol::deserialize_offsets(&mut status, &quads_to_bytes(&quads));
    assert_eq!(status.configured_clk_rate, ClkNominalRate::R48000);

    let quads = [0x02000000, 0x0000000a];
    Ff800Protocol::deserialize_offsets(&mut status, &quads_to_bytes(&quads));
    assert_eq!(status.configured_clk_rate, ClkNominalRate::R64000);

    let quads = [0x02000000, 0x00000008];
    Ff800Protocol::deserialize_offsets(&mut status, &quads_to_bytes(&quads));
    assert_eq!(status.configured_clk_rate, ClkNominalRate::R88200);

    let quads = [0x02000000, 0x0000000e];
    Ff800Protocol::deserialize_offsets(&mut status, &quads_to_bytes(&quads));
    assert_eq!(status.configured_clk_rate, ClkNominalRate::R96000);

    let quads = [0x02000000, 0x00000012];
    Ff800Protocol::deserialize_offsets(&mut status, &quads_to_bytes(&quads));
    assert_eq!(status.configured_clk_rate, ClkNominalRate::R128000);

    let quads = [0x02000000, 0x00000010];
    Ff800Protocol::deserialize_offsets(&mut status, &quads_to_bytes(&quads));
    assert_eq!(status.configured_clk_rate, ClkNominalRate::R176400);

    let quads = [0x02000000, 0x00000016];
    Ff800Protocol::deserialize_offsets(&mut status, &quads_to_bytes(&quads));
    assert_eq!(status.configured_clk_rate, ClkNominalRate::R192000);

    let quads = [0x02000000, 0x00001000];
    Ff800Protocol::deserialize_offsets(&mut status, &quads_to_bytes(&quads));
    assert_eq!(status.configured_clk_src, Ff800ClkSrc::WordClock);

    let quads = [0x02000000, 0x00001800];
    Ff800Protocol::deserialize_offsets(&mut status, &quads_to_bytes(&quads));
    assert_eq!(status.configured_clk_src, Ff800ClkSrc::Tco);

    let quads = [0x02000000, 0x00000c00];
    Ff800Protocol::deserialize_offsets(&mut status, &quads_to_bytes(&quads));
    assert_eq!(status.configured_clk_src, Ff800ClkSrc::Spdif);

    let quads = [0x02000000, 0x00000400];
    Ff800Protocol::deserialize_offsets(&mut status, &quads_to_bytes(&quads));
    assert_eq!(status.configured_clk_src, Ff800ClkSrc::AdatB);

    let quads = [0x02000000, 0x00000001];
    Ff800Protocol::deserialize_offsets(&mut status, &quads_to_bytes(&quads));
    assert_eq!(status.configured_clk_src, Ff800ClkSrc::Internal);

    let quads = [0x02000000, 0x00000000];
    Ff800Protocol::deserialize_offsets(&mut status, &quads_to_bytes(&quads));
    assert_eq!(status.configured_clk_src, Ff800ClkSrc::AdatA);

    let raw = Ff800Protocol::serialize_offsets(&status);
    let mut target = Ff800Status::default();
    Ff800Protocol::deserialize_offsets(&mut target, &raw);
    assert_eq!(target, status);
}

#[test]
fn ff800_clock_config_serdes() {
    let mut orig = Ff800ClkConfig::default();
    let mut cfg = Ff800ClkConfig::default();

    orig.primary_src = Ff800ClkSrc::Internal;
    let mut quads = [0u32; 3];
    serialize_clock_config(&orig, &mut quads);
    assert_eq!(quads[2], 0x0000001f);
    deserialize_clock_config(&mut cfg, &quads);
    assert_eq!(cfg, orig);

    orig.primary_src = Ff800ClkSrc::WordClock;
    let mut quads = [0u32; 3];
    serialize_clock_config(&orig, &mut quads);
    assert_eq!(quads[2], 0x0000141e);
    deserialize_clock_config(&mut cfg, &quads);
    assert_eq!(cfg, orig);

    orig.primary_src = Ff800ClkSrc::AdatA;
    let mut quads = [0u32; 3];
    serialize_clock_config(&orig, &mut quads);
    assert_eq!(quads[2], 0x0000001e);
    deserialize_clock_config(&mut cfg, &quads);
    assert_eq!(cfg, orig);

    orig.primary_src = Ff800ClkSrc::AdatB;
    let mut quads = [0u32; 3];
    serialize_clock_config(&orig, &mut quads);
    assert_eq!(quads[2], 0x0000041e);
    deserialize_clock_config(&mut cfg, &quads);
    assert_eq!(cfg, orig);

    orig.primary_src = Ff800ClkSrc::Spdif;
    let mut quads = [0u32; 3];
    serialize_clock_config(&orig, &mut quads);
    assert_eq!(quads[2], 0x00000c1e);
    deserialize_clock_config(&mut cfg, &quads);
    assert_eq!(cfg, orig);

    orig.primary_src = Ff800ClkSrc::Tco;
    let mut quads = [0u32; 3];
    serialize_clock_config(&orig, &mut quads);
    assert_eq!(quads[2], 0x00001c1e);
    deserialize_clock_config(&mut cfg, &quads);
    assert_eq!(cfg, orig);
}

#[test]
fn instrument_config_serdes() {
    let mut orig = Ff800InstConfig::default();
    let mut cfg = Ff800InstConfig::default();

    orig.drive = false;
    orig.limitter = false;
    orig.speaker_emulation = false;
    let mut quads = [0u32; 3];
    serialize_instrument_config(&orig, &mut quads);
    assert_eq!(&quads[..], &[0x00000000, 0x00000000, 0x00000000]);
    deserialize_instrument_config(&mut cfg, &quads);
    assert_eq!(cfg, orig);

    orig.drive = true;
    let mut quads = [0u32; 3];
    serialize_instrument_config(&orig, &mut quads);
    assert_eq!(&quads[..], &[0x00000200, 0x00000200, 0x00000000]);
    deserialize_instrument_config(&mut cfg, &quads);
    assert_eq!(cfg, orig);

    orig.limitter = true;
    let mut quads = [0u32; 3];
    serialize_instrument_config(&orig, &mut quads);
    assert_eq!(&quads[..], &[0x00000200, 0x00000200, 0x00010000]);
    deserialize_instrument_config(&mut cfg, &quads);
    assert_eq!(cfg, orig);

    orig.speaker_emulation = true;
    let mut quads = [0u32; 3];
    serialize_instrument_config(&orig, &mut quads);
    assert_eq!(&quads[..], &[0x00000204, 0x00000200, 0x00010000]);
    deserialize_instrument_config(&mut cfg, &quads);
    assert_eq!(cfg, orig);
}

#[test]
fn ff800_analog_input_config_serdes() {
    let mut orig = Ff800AnalogInConfig::default();
    let mut cfg = Ff800AnalogInConfig::default();

    orig.jacks[0] = Ff800AnalogInputJack::FrontRear;
    let mut quads = [0u32; 3];
    serialize_analog_input_config(&orig, &mut quads);
    assert_eq!(&quads[..], &[0x00000008, 0x000008a4, 0x00000000]);
    deserialize_analog_input_config(&mut cfg, &quads);
    assert_eq!(cfg, orig);

    orig.jacks[1] = Ff800AnalogInputJack::FrontRear;
    let mut quads = [0u32; 3];
    serialize_analog_input_config(&orig, &mut quads);
    assert_eq!(&quads[..], &[0x00000008, 0x000008e4, 0x00000000]);
    deserialize_analog_input_config(&mut cfg, &quads);
    assert_eq!(cfg, orig);

    orig.jacks[2] = Ff800AnalogInputJack::FrontRear;
    let mut quads = [0u32; 3];
    serialize_analog_input_config(&orig, &mut quads);
    assert_eq!(&quads[..], &[0x00000008, 0x000009e4, 0x00000000]);
    deserialize_analog_input_config(&mut cfg, &quads);
    assert_eq!(cfg, orig);

    orig.line_level = FormerLineInNominalLevel::Consumer;
    let mut quads = [0u32; 3];
    serialize_analog_input_config(&orig, &mut quads);
    assert_eq!(&quads[..], &[0x00000020, 0x000009e7, 0x00000000]);
    deserialize_analog_input_config(&mut cfg, &quads);
    assert_eq!(cfg, orig);

    orig.line_level = FormerLineInNominalLevel::Professional;
    let mut quads = [0u32; 3];
    serialize_analog_input_config(&orig, &mut quads);
    assert_eq!(&quads[..], &[0x00000010, 0x000009e6, 0x00000000]);
    deserialize_analog_input_config(&mut cfg, &quads);
    assert_eq!(cfg, orig);

    orig.phantom_powering[0] = true;
    let mut quads = [0u32; 3];
    serialize_analog_input_config(&orig, &mut quads);
    assert_eq!(&quads[..], &[0x00000011, 0x000009e6, 0x00000000]);
    deserialize_analog_input_config(&mut cfg, &quads);
    assert_eq!(cfg, orig);

    orig.phantom_powering[1] = true;
    let mut quads = [0u32; 3];
    serialize_analog_input_config(&orig, &mut quads);
    assert_eq!(&quads[..], &[0x00000091, 0x000009e6, 0x00000000]);
    deserialize_analog_input_config(&mut cfg, &quads);
    assert_eq!(cfg, orig);

    orig.phantom_powering[2] = true;
    let mut quads = [0u32; 3];
    serialize_analog_input_config(&orig, &mut quads);
    assert_eq!(&quads[..], &[0x00000093, 0x000009e6, 0x00000000]);
    deserialize_analog_input_config(&mut cfg, &quads);
    assert_eq!(cfg, orig);

    orig.phantom_powering[3] = true;
    let mut quads = [0u32; 3];
    serialize_analog_input_config(&orig, &mut quads);
    assert_eq!(&quads[..], &[0x00000193, 0x000009e6, 0x00000000]);
    deserialize_analog_input_config(&mut cfg, &quads);
    assert_eq!(cfg, orig);
}

#[test]
fn ff800_config_serdes() {
    let mut orig = Ff800Config::default();
    let mut cfg = Ff800Config::default();

    orig.line_out_level = LineOutNominalLevel::High;
    let raw = Ff800Protocol::serialize_offsets(&orig);
    Ff800Protocol::deserialize_offsets(&mut cfg, &raw);
    assert_eq!(cfg, orig);
    let quads = config_to_quads(&raw);
    assert_eq!(&quads[..], &[0x00000408, 0x000008b0, 0x8000001e]);

    orig.line_out_level = LineOutNominalLevel::Consumer;
    let raw = Ff800Protocol::serialize_offsets(&orig);
    Ff800Protocol::deserialize_offsets(&mut cfg, &raw);
    assert_eq!(cfg, orig);
    let quads = config_to_quads(&raw);
    assert_eq!(&quads[..], &[0x00001008, 0x000008a8, 0x8000001e]);

    orig.line_out_level = LineOutNominalLevel::Professional;
    let raw = Ff800Protocol::serialize_offsets(&orig);
    Ff800Protocol::deserialize_offsets(&mut cfg, &raw);
    assert_eq!(cfg, orig);
    let quads = config_to_quads(&raw);
    assert_eq!(&quads[..], &[0x00000808, 0x000008b8, 0x8000001e]);

    orig.spdif_in.iface = SpdifIface::Optical;
    let raw = Ff800Protocol::serialize_offsets(&orig);
    Ff800Protocol::deserialize_offsets(&mut cfg, &raw);
    assert_eq!(cfg, orig);
    let quads = config_to_quads(&raw);
    assert_eq!(&quads[..], &[0x00000808, 0x000008b8, 0x8000021e]);

    orig.spdif_in.use_preemble = true;
    let raw = Ff800Protocol::serialize_offsets(&orig);
    Ff800Protocol::deserialize_offsets(&mut cfg, &raw);
    assert_eq!(cfg, orig);
    let quads = config_to_quads(&raw);
    assert_eq!(&quads[..], &[0x00000808, 0x000008b8, 0xc000021e]);

    orig.opt_out_signal = OpticalOutputSignal::Spdif;
    let raw = Ff800Protocol::serialize_offsets(&orig);
    Ff800Protocol::deserialize_offsets(&mut cfg, &raw);
    assert_eq!(cfg, orig);
    let quads = config_to_quads(&raw);
    assert_eq!(&quads[..], &[0x00000808, 0x000008b8, 0xc000031e]);

    orig.spdif_out.format = SpdifFormat::Professional;
    let raw = Ff800Protocol::serialize_offsets(&orig);
    Ff800Protocol::deserialize_offsets(&mut cfg, &raw);
    assert_eq!(cfg, orig);
    let quads = config_to_quads(&raw);
    assert_eq!(&quads[..], &[0x00000808, 0x000008b8, 0xc000033e]);

    orig.spdif_out.emphasis = true;
    let raw = Ff800Protocol::serialize_offsets(&orig);
    Ff800Protocol::deserialize_offsets(&mut cfg, &raw);
    assert_eq!(cfg, orig);
    let quads = config_to_quads(&raw);
    assert_eq!(&quads[..], &[0x00000808, 0x000008b8, 0xc000037e]);

    orig.spdif_out.non_audio = true;
    let raw = Ff800Protocol::serialize_offsets(&orig);
    Ff800Protocol::deserialize_offsets(&mut cfg, &raw);
    assert_eq!(cfg, orig);
    let quads = config_to_quads(&raw);
    assert_eq!(&quads[..], &[0x00000808, 0x000008b8, 0xc00003fe]);

    orig.word_out_single = true;
    let raw = Ff800Protocol::serialize_offsets(&orig);
    Ff800Protocol::deserialize_offsets(&mut cfg, &raw);
    assert_eq!(cfg, orig);
    let quads = config_to_quads(&raw);
    assert_eq!(&quads[..], &[0x00000808, 0x000008b8, 0xc00023fe]);
}
