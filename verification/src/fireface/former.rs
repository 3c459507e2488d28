//! Protocol defined by RME GmbH for former models of Firewire series.

pub mod ff400;
pub mod ff800;

use crate::codec::{le_quad_at, le_quads_bytes, quads_to_le_bytes, read_le_quad};
use crate::fireface::SpdifFormat;
use vstd::prelude::*;

verus! {

/// The size of configuration registers in former models.
pub const FORMER_CONFIG_SIZE: usize = 12;

/// The size of status registers in former models.
pub const FORMER_STATUS_SIZE: usize = 8;

/// Configuration of S/PDIF output.
#[derive(Debug, Copy, Clone, PartialEq, Eq, Structural)]
pub struct FormerSpdifOutput {
    /// The format of S/PDIF signal.
    pub format: SpdifFormat,
    /// Whether to boost signal.
    pub emphasis: bool,
    /// Whether to transfer non-audio bit in preemble.
    pub non_audio: bool,
}

impl Default for FormerSpdifOutput {
    fn default() -> (r: Self)
        ensures
            r == (FormerSpdifOutput {
                format: SpdifFormat::Consumer,
                emphasis: false,
                non_audio: false,
            }),
    {
        FormerSpdifOutput { format: SpdifFormat::default(), emphasis: false, non_audio: false }
    }
}

/// Nominal level of line inputs.
#[derive(Debug, Copy, Clone, PartialEq, Eq, Structural)]
pub enum FormerLineInNominalLevel {
    Low,
    /// -10 dBV.
    Consumer,
    /// +4 dBu.
    Professional,
}

impl Default for FormerLineInNominalLevel {
    fn default() -> (r: Self)
        ensures
            r == FormerLineInNominalLevel::Low,
    {
        FormerLineInNominalLevel::Low
    }
}

/// State of output volumes.
///
/// The value for volume is between 0x00000000 and 0x00010000 through 0x00000001 and 0x00080000 to
/// represent the range from negative infinite to 6.00 dB through -90.30 dB and 0.00 dB.
#[derive(Default, Debug, Clone, PartialEq, Eq)]
pub struct FormerOutputVolumeState(pub Vec<i32>);

/// State of hardware meter.
///
/// Each value of 32 bit integer is between 0x00000000 and 0x7fffff00 to represent -90.03 and
/// 0.00 dB. When reaching saturation, 1 byte in LSB side represent ratio of overload.
#[derive(Default, Debug, Clone, Eq, PartialEq)]
pub struct FormerMeterState {
    pub analog_inputs: Vec<i32>,
    pub spdif_inputs: Vec<i32>,
    pub adat_inputs: Vec<i32>,
    pub stream_inputs: Vec<i32>,
    pub analog_outputs: Vec<i32>,
    pub spdif_outputs: Vec<i32>,
    pub adat_outputs: Vec<i32>,
}

/// The level of meter in the quadlet: the bits but those of overload and the sign.
pub open spec fn meter_level(quad: u32) -> i32 {
    (quad as i32) & 0x7fffff00i32
}

/// Read the levels of meter one after another from the quadlets in little-endian order at `pos`,
/// and give back the position after them.
pub fn read_meter_levels(levels: &mut Vec<i32>, raw: &[u8], pos: usize) -> (r: usize)
    requires
        pos + 4 * old(levels)@.len() <= raw@.len(),
    ensures
        r == pos + 4 * old(levels)@.len(),
        final(levels)@.len() == old(levels)@.len(),
        forall|i: int|
            0 <= i < old(levels)@.len() ==> #[trigger] final(levels)@[i] == meter_level(
                le_quad_at(raw@, pos + 4 * i),
            ),
{
    let mut offset = pos;
    let mut i: usize = 0;
    while i < levels.len()
        invariant
            i <= levels@.len(),
            levels@.len() == old(levels)@.len(),
            offset == pos + 4 * i,
            pos + 4 * old(levels)@.len() <= raw@.len(),
            raw@.len() == raw.len(),
            forall|k: int|
                0 <= k < i ==> #[trigger] levels@[k] == meter_level(le_quad_at(raw@, pos + 4 * k)),
        decreases levels@.len() - i,
    {
        let quad = read_le_quad(raw, offset);
        levels.set(i, (quad as i32) & 0x7fffff00i32);
        offset = offset + 4;
        i = i + 1;
    }
    offset
}

/// The number of quadlets of levels in the state of meter.
pub open spec fn meter_level_count(state: FormerMeterState) -> int {
    state.analog_inputs@.len() as int + state.spdif_inputs@.len() + state.adat_inputs@.len()
        + state.stream_inputs@.len() + state.analog_outputs@.len() + state.spdif_outputs@.len()
        + state.adat_outputs@.len() as int
}

/// The number of bytes to read for the meter: octuples for each source of mixer and each output
/// of mixer before and after fader, then quadlets for each physical input, stream input, and
/// physical output.
pub open spec fn former_meter_length(
    analog_inputs: usize,
    spdif_inputs: usize,
    adat_inputs: usize,
    stream_inputs: usize,
    analog_outputs: usize,
    spdif_outputs: usize,
    adat_outputs: usize,
) -> int {
    let phys_inputs = analog_inputs as int + spdif_inputs + adat_inputs;
    let phys_outputs = analog_outputs as int + spdif_outputs + adat_outputs;
    8 * (phys_inputs + phys_outputs * 2) + 4 * (phys_inputs + stream_inputs + phys_outputs)
}

/// The number of bytes of octuples before the quadlets of levels in the meter.
pub open spec fn former_meter_header(
    analog_inputs: usize,
    spdif_inputs: usize,
    adat_inputs: usize,
    analog_outputs: usize,
    spdif_outputs: usize,
    adat_outputs: usize,
) -> int {
    8 * ((analog_inputs + spdif_inputs + adat_inputs) + (analog_outputs + spdif_outputs + adat_outputs) * 2)
}

/// The levels are read from the quadlets in little-endian order one after another at `pos`.
pub open spec fn meter_levels_read(levels: Seq<i32>, raw: Seq<u8>, pos: int) -> bool {
    forall|i: int| 0 <= i < levels.len() ==> #[trigger] levels[i] == meter_level(le_quad_at(raw, pos + 4 * i))
}

/// Meter protocol of former models.
pub trait RmeFfFormerMeterOperation {
    /// The offset of meter.
    const METER_OFFSET: usize;

    /// The number of analog inputs.
    const ANALOG_INPUT_COUNT: usize;
    /// The number of S/PDIF inputs.
    const SPDIF_INPUT_COUNT: usize;
    /// The number of ADAT inputs.
    const ADAT_INPUT_COUNT: usize;
    /// The number of stream inputs.
    const STREAM_INPUT_COUNT: usize;

    /// The number of analog outputs.
    const ANALOG_OUTPUT_COUNT: usize;
    /// The number of S/PDIF outputs.
    const SPDIF_OUTPUT_COUNT: usize;
    /// The number of ADAT outputs.
    const ADAT_OUTPUT_COUNT: usize;

    /// The minimum of level.
    const LEVEL_MIN: i32 = 0x00000000;
    /// The maximum of level.
    const LEVEL_MAX: i32 = 0x7fffff00;
    /// The step of level.
    const LEVEL_STEP: i32 = 0x100;

    /// The state of meter with a level for each input and output.
    fn create_meter_state() -> (r: FormerMeterState)
        ensures
            r.analog_inputs@.len() == Self::ANALOG_INPUT_COUNT,
            r.spdif_inputs@.len() == Self::SPDIF_INPUT_COUNT,
            r.adat_inputs@.len() == Self::ADAT_INPUT_COUNT,
            r.stream_inputs@.len() == Self::STREAM_INPUT_COUNT,
            r.analog_outputs@.len() == Self::ANALOG_OUTPUT_COUNT,
            r.spdif_outputs@.len() == Self::SPDIF_OUTPUT_COUNT,
            r.adat_outputs@.len() == Self::ADAT_OUTPUT_COUNT,
    {
        FormerMeterState {
            analog_inputs: vec![0; Self::ANALOG_INPUT_COUNT],
            spdif_inputs: vec![0; Self::SPDIF_INPUT_COUNT],
            adat_inputs: vec![0; Self::ADAT_INPUT_COUNT],
            stream_inputs: vec![0; Self::STREAM_INPUT_COUNT],
            analog_outputs: vec![0; Self::ANALOG_OUTPUT_COUNT],
            spdif_outputs: vec![0; Self::SPDIF_OUTPUT_COUNT],
            adat_outputs: vec![0; Self::ADAT_OUTPUT_COUNT],
        }
    }

    /// The number of bytes to read for the meter: octuples for each source of mixer and each
    /// output of mixer before and after fader, then quadlets for each physical input, stream
    /// input, and physical output.
    fn meter_length() -> (r: usize)
        requires
            former_meter_length(Self::ANALOG_INPUT_COUNT, Self::SPDIF_INPUT_COUNT, Self::ADAT_INPUT_COUNT, Self::STREAM_INPUT_COUNT, Self::ANALOG_OUTPUT_COUNT, Self::SPDIF_OUTPUT_COUNT, Self::ADAT_OUTPUT_COUNT) <= usize::MAX,
        ensures
            r == former_meter_length(Self::ANALOG_INPUT_COUNT, Self::SPDIF_INPUT_COUNT, Self::ADAT_INPUT_COUNT, Self::STREAM_INPUT_COUNT, Self::ANALOG_OUTPUT_COUNT, Self::SPDIF_OUTPUT_COUNT, Self::ADAT_OUTPUT_COUNT),
    {
        let phys_inputs = Self::ANALOG_INPUT_COUNT + Self::SPDIF_INPUT_COUNT + Self::ADAT_INPUT_COUNT;
        let phys_outputs = Self::ANALOG_OUTPUT_COUNT + Self::SPDIF_OUTPUT_COUNT + Self::ADAT_OUTPUT_COUNT;
        8 * (phys_inputs + phys_outputs * 2) + 4 * (phys_inputs + Self::STREAM_INPUT_COUNT + phys_outputs)
    }

    /// Take the levels from the bytes read for the meter: after the octuples, each level is the
    /// quadlet in little-endian order without the bits for overload, for the analog, S/PDIF,
    /// ADAT and stream inputs, then the analog, S/PDIF and ADAT outputs.
    fn parse_meter(state: &mut FormerMeterState, raw: &[u8]) -> (r: usize)
        requires
            former_meter_length(Self::ANALOG_INPUT_COUNT, Self::SPDIF_INPUT_COUNT, Self::ADAT_INPUT_COUNT, Self::STREAM_INPUT_COUNT, Self::ANALOG_OUTPUT_COUNT, Self::SPDIF_OUTPUT_COUNT, Self::ADAT_OUTPUT_COUNT) <= usize::MAX,
            former_meter_header(Self::ANALOG_INPUT_COUNT, Self::SPDIF_INPUT_COUNT, Self::ADAT_INPUT_COUNT, Self::ANALOG_OUTPUT_COUNT, Self::SPDIF_OUTPUT_COUNT, Self::ADAT_OUTPUT_COUNT) + 4 * meter_level_count(*old(state)) <= raw@.len(),
        ensures
            r == former_meter_header(Self::ANALOG_INPUT_COUNT, Self::SPDIF_INPUT_COUNT, Self::ADAT_INPUT_COUNT, Self::ANALOG_OUTPUT_COUNT, Self::SPDIF_OUTPUT_COUNT, Self::ADAT_OUTPUT_COUNT) + 4 * meter_level_count(*old(state)),
            meter_levels_read(final(state).analog_inputs@, raw@, former_meter_header(Self::ANALOG_INPUT_COUNT, Self::SPDIF_INPUT_COUNT, Self::ADAT_INPUT_COUNT, Self::ANALOG_OUTPUT_COUNT, Self::SPDIF_OUTPUT_COUNT, Self::ADAT_OUTPUT_COUNT)),
            final(state).analog_inputs@.len() == old(state).analog_inputs@.len(),
            meter_levels_read(final(state).spdif_inputs@, raw@, former_meter_header(Self::ANALOG_INPUT_COUNT, Self::SPDIF_INPUT_COUNT, Self::ADAT_INPUT_COUNT, Self::ANALOG_OUTPUT_COUNT, Self::SPDIF_OUTPUT_COUNT, Self::ADAT_OUTPUT_COUNT) + 4 * old(state).analog_inputs@.len()),
            final(state).spdif_inputs@.len() == old(state).spdif_inputs@.len(),
            meter_levels_read(final(state).adat_inputs@, raw@, former_meter_header(Self::ANALOG_INPUT_COUNT, Self::SPDIF_INPUT_COUNT, Self::ADAT_INPUT_COUNT, Self::ANALOG_OUTPUT_COUNT, Self::SPDIF_OUTPUT_COUNT, Self::ADAT_OUTPUT_COUNT) + 4 * old(state).analog_inputs@.len() + 4 * old(state).spdif_inputs@.len()),
            final(state).adat_inputs@.len() == old(state).adat_inputs@.len(),
            meter_levels_read(final(state).stream_inputs@, raw@, former_meter_header(Self::ANALOG_INPUT_COUNT, Self::SPDIF_INPUT_COUNT, Self::ADAT_INPUT_COUNT, Self::ANALOG_OUTPUT_COUNT, Self::SPDIF_OUTPUT_COUNT, Self::ADAT_OUTPUT_COUNT) + 4 * old(state).analog_inputs@.len() + 4 * old(state).spdif_inputs@.len() + 4 * old(state).adat_inputs@.len()),
            final(state).stream_inputs@.len() == old(state).stream_inputs@.len(),
            meter_levels_read(final(state).analog_outputs@, raw@, former_meter_header(Self::ANALOG_INPUT_COUNT, Self::SPDIF_INPUT_COUNT, Self::ADAT_INPUT_COUNT, Self::ANALOG_OUTPUT_COUNT, Self::SPDIF_OUTPUT_COUNT, Self::ADAT_OUTPUT_COUNT) + 4 * old(state).analog_inputs@.len() + 4 * old(state).spdif_inputs@.len() + 4 * old(state).adat_inputs@.len() + 4 * old(state).stream_inputs@.len()),
            final(state).analog_outputs@.len() == old(state).analog_outputs@.len(),
            meter_levels_read(final(state).spdif_outputs@, raw@, former_meter_header(Self::ANALOG_INPUT_COUNT, Self::SPDIF_INPUT_COUNT, Self::ADAT_INPUT_COUNT, Self::ANALOG_OUTPUT_COUNT, Self::SPDIF_OUTPUT_COUNT, Self::ADAT_OUTPUT_COUNT) + 4 * old(state).analog_inputs@.len() + 4 * old(state).spdif_inputs@.len() + 4 * old(state).adat_inputs@.len() + 4 * old(state).stream_inputs@.len() + 4 * old(state).analog_outputs@.len()),
            final(state).spdif_outputs@.len() == old(state).spdif_outputs@.len(),
            meter_levels_read(final(state).adat_outputs@, raw@, former_meter_header(Self::ANALOG_INPUT_COUNT, Self::SPDIF_INPUT_COUNT, Self::ADAT_INPUT_COUNT, Self::ANALOG_OUTPUT_COUNT, Self::SPDIF_OUTPUT_COUNT, Self::ADAT_OUTPUT_COUNT) + 4 * old(state).analog_inputs@.len() + 4 * old(state).spdif_inputs@.len() + 4 * old(state).adat_inputs@.len() + 4 * old(state).stream_inputs@.len() + 4 * old(state).analog_outputs@.len() + 4 * old(state).spdif_outputs@.len()),
            final(state).adat_outputs@.len() == old(state).adat_outputs@.len(),
    {
        let phys_inputs = Self::ANALOG_INPUT_COUNT + Self::SPDIF_INPUT_COUNT + Self::ADAT_INPUT_COUNT;
        let phys_outputs = Self::ANALOG_OUTPUT_COUNT + Self::SPDIF_OUTPUT_COUNT + Self::ADAT_OUTPUT_COUNT;
        let offset = 8 * (phys_inputs + phys_outputs * 2);
        let offset = read_meter_levels(&mut state.analog_inputs, raw, offset);
        let offset = read_meter_levels(&mut state.spdif_inputs, raw, offset);
        let offset = read_meter_levels(&mut state.adat_inputs, raw, offset);
        let offset = read_meter_levels(&mut state.stream_inputs, raw, offset);
        let offset = read_meter_levels(&mut state.analog_outputs, raw, offset);
        let offset = read_meter_levels(&mut state.spdif_outputs, raw, offset);
        read_meter_levels(&mut state.adat_outputs, raw, offset)
    }
}

/// Output protocol specific to former models of RME Fireface.
pub trait RmeFormerOutputOperation {
    /// The number of analog outputs.
    const ANALOG_OUTPUT_COUNT: usize;
    /// The number of S/PDIF outputs.
    const SPDIF_OUTPUT_COUNT: usize;
    /// The number of ADAT outputs.
    const ADAT_OUTPUT_COUNT: usize;

    /// The minimum of volume.
    const VOL_MIN: i32 = 0x00000000;
    /// The volume for 0 dB.
    const VOL_ZERO: i32 = 0x00008000;
    /// The maximum of volume.
    const VOL_MAX: i32 = 0x00010000;
    /// The step of volume.
    const VOL_STEP: i32 = 1;

    /// The number of physical outputs.
    fn phys_output_count() -> (r: usize)
        requires
            Self::ANALOG_OUTPUT_COUNT + Self::SPDIF_OUTPUT_COUNT + Self::ADAT_OUTPUT_COUNT <= usize::MAX,
        ensures
            r == Self::ANALOG_OUTPUT_COUNT + Self::SPDIF_OUTPUT_COUNT + Self::ADAT_OUTPUT_COUNT,
    {
        Self::ANALOG_OUTPUT_COUNT + Self::SPDIF_OUTPUT_COUNT + Self::ADAT_OUTPUT_COUNT
    }

    /// The state with a volume for each physical output.
    fn create_output_volume_state() -> (r: FormerOutputVolumeState)
        requires
            Self::ANALOG_OUTPUT_COUNT + Self::SPDIF_OUTPUT_COUNT + Self::ADAT_OUTPUT_COUNT <= usize::MAX,
        ensures
            r.0@ == Seq::new(
                (Self::ANALOG_OUTPUT_COUNT + Self::SPDIF_OUTPUT_COUNT + Self::ADAT_OUTPUT_COUNT) as nat,
                |i: int| 0i32,
            ),
    {
        let vols = vec![0i32; Self::phys_output_count()];
        proof {
            assert(vols@ =~= Seq::new(
                (Self::ANALOG_OUTPUT_COUNT + Self::SPDIF_OUTPUT_COUNT + Self::ADAT_OUTPUT_COUNT) as nat,
                |i: int| 0i32,
            ));
        }
        FormerOutputVolumeState(vols)
    }

    /// The channels whose volumes differ from the new ones, with the new volumes, in the order of
    /// channels; the channels beyond the shorter of both are left as they are.
    fn changed_output_vols(state: &FormerOutputVolumeState, vols: &[i32]) -> (r: Vec<(usize, i32)>)
        ensures
            r@ == changed_vols(state.0@, vols@, if state.0@.len() < vols@.len() {
                state.0@.len() as int
            } else {
                vols@.len() as int
            }),
    {
        let count = if state.0.len() < vols.len() {
            state.0.len()
        } else {
            vols.len()
        };
        let mut changes = Vec::new();
        let mut i: usize = 0;
        while i < count
            invariant
                i <= count,
                count <= state.0@.len(),
                count <= vols@.len(),
                changes@ == changed_vols(state.0@, vols@, i as int),
            decreases count - i,
        {
            if state.0[i] != vols[i] {
                changes.push((i, vols[i]));
            }
            i = i + 1;
        }
        changes
    }
}

/// The channels among the first `n` whose volumes differ from the new ones, with the new volumes.
pub open spec fn changed_vols(vols: Seq<i32>, news: Seq<i32>, n: int) -> Seq<(usize, i32)>
    decreases n,
{
    if n <= 0 {
        Seq::empty()
    } else {
        let prev = changed_vols(vols, news, n - 1);
        if vols[n - 1] != news[n - 1] {
            prev.push(((n - 1) as usize, news[n - 1]))
        } else {
            prev
        }
    }
}

/// Sources of mixer specific to former models of RME Fireface.
///
/// The value is between 0x00000000 and 0x00010000 through 0x00008000 to represent -90.30 and 6.02 dB
/// through 0x00008000.
#[derive(Default, Debug, Clone, Eq, PartialEq)]
pub struct FormerMixerSrc {
    pub analog_gains: Vec<i32>,
    pub spdif_gains: Vec<i32>,
    pub adat_gains: Vec<i32>,
    pub stream_gains: Vec<i32>,
}

/// State of mixer.
#[derive(Default, Debug, Clone, Eq, PartialEq)]
pub struct FormerMixerState(pub Vec<FormerMixerSrc>);

/// The signed quadlets laid out in little-endian order.
pub fn serialize_mixer_src_gains(gains: &[i32]) -> (r: Vec<u8>)
    requires
        4 * gains@.len() <= usize::MAX,
    ensures
        r@ == le_quads_bytes(gains@.map_values(|g: i32| g as u32)),
{
    let mut quads: Vec<u32> = Vec::new();
    let mut i: usize = 0;
    while i < gains.len()
        invariant
            i <= gains@.len(),
            quads@ == gains@.take(i as int).map_values(|g: i32| g as u32),
        decreases gains@.len() - i,
    {
        quads.push(gains[i] as u32);
        i = i + 1;
        proof {
            assert(quads@ =~= gains@.take(i as int).map_values(|g: i32| g as u32));
        }
    }
    proof {
        assert(gains@.take(gains@.len() as int) =~= gains@);
    }
    quads_to_le_bytes(quads.as_slice())
}

/// Mixer protocol specific to former models of RME Fireface.
pub trait RmeFormerMixerOperation {
    /// The number of analog inputs.
    const ANALOG_INPUT_COUNT: usize;
    /// The number of S/PDIF inputs.
    const SPDIF_INPUT_COUNT: usize;
    /// The number of ADAT inputs.
    const ADAT_INPUT_COUNT: usize;
    /// The number of stream inputs.
    const STREAM_INPUT_COUNT: usize;

    /// The number of analog outputs.
    const ANALOG_OUTPUT_COUNT: usize;
    /// The number of S/PDIF outputs.
    const SPDIF_OUTPUT_COUNT: usize;
    /// The number of ADAT outputs.
    const ADAT_OUTPUT_COUNT: usize;

    /// The offset of mixer.
    const MIXER_OFFSET: usize;
    /// The number of available sources for each kind.
    const AVAIL_COUNT: usize;

    /// The minimum of gain.
    const GAIN_MIN: i32 = 0x00000000;
    /// The gain for 0 dB.
    const GAIN_ZERO: i32 = 0x00008000;
    /// The maximum of gain.
    const GAIN_MAX: i32 = 0x00010000;
    /// The step of gain.
    const GAIN_STEP: i32 = 1;

    /// The offset of the gains of the sources from `src_offset` to the mixer.
    fn mixer_src_gains_offset(mixer: usize, src_offset: usize) -> (r: usize)
        requires
            Self::MIXER_OFFSET + ((Self::AVAIL_COUNT * mixer * 2) + src_offset) * 4 <= usize::MAX,
        ensures
            r == Self::MIXER_OFFSET + ((Self::AVAIL_COUNT * mixer * 2) + src_offset) * 4,
    {
        assert(Self::AVAIL_COUNT * mixer * 2 <= usize::MAX) by (nonlinear_arith)
            requires
                Self::MIXER_OFFSET + ((Self::AVAIL_COUNT * mixer * 2) + src_offset) * 4 <= usize::MAX,
        ;
        assert(Self::AVAIL_COUNT * mixer <= usize::MAX) by (nonlinear_arith)
            requires
                Self::AVAIL_COUNT * mixer * 2 <= usize::MAX,
        ;
        Self::MIXER_OFFSET + ((Self::AVAIL_COUNT * mixer * 2) + src_offset) * 4
    }

    /// The offsets of the first analog, S/PDIF, ADAT and stream sources among the gains.
    fn mixer_src_offsets() -> (r: [usize; 4])
        requires
            Self::ANALOG_INPUT_COUNT + Self::SPDIF_INPUT_COUNT <= usize::MAX,
        ensures
            r@ == seq![0usize, Self::ANALOG_INPUT_COUNT, (Self::ANALOG_INPUT_COUNT
                + Self::SPDIF_INPUT_COUNT) as usize, Self::AVAIL_COUNT],
    {
        let r = [0, Self::ANALOG_INPUT_COUNT, Self::ANALOG_INPUT_COUNT + Self::SPDIF_INPUT_COUNT, Self::AVAIL_COUNT];
        proof {
            assert(r@ =~= seq![0usize, Self::ANALOG_INPUT_COUNT, (Self::ANALOG_INPUT_COUNT
                + Self::SPDIF_INPUT_COUNT) as usize, Self::AVAIL_COUNT]);
        }
        r
    }
}

} // verus!
