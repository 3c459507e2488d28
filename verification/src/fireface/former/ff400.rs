//! Protocol defined by RME GmbH for Fireface 400.

use crate::bits::{
    add_flag, check_flag, flag_bits, has_flag, lemma_flag_bits, lemma_put_field_bits, or_bits, or_flag,
    put_field, put_flag,
    set_field, set_flag,
};
use crate::codec::{le_quad_at, le_quads_bytes, lemma_le_quads_bytes, quads_to_le_bytes, read_le_quad};
use crate::fireface::former::{
    FormerLineInNominalLevel, FormerOutputVolumeState, FormerSpdifOutput, FORMER_CONFIG_SIZE,
    FORMER_STATUS_SIZE,
};
use crate::fireface::{
    ClkNominalRate, LineOutNominalLevel, OpticalOutputSignal, RmeFfOffsetParamsDeserialize,
    RmeFfOffsetParamsSerialize, SpdifFormat, SpdifIface, SpdifInput,
};
use vstd::prelude::*;

verus! {

/// The protocol implementation for Fireface 400.
#[derive(Default, Debug)]
pub struct Ff400Protocol;

/// The offset of mixer registers.
pub const MIXER_OFFSET: u64 = 0x000080080000;
/// The offset of output registers.
pub const OUTPUT_OFFSET: u64 = 0x000080080f80;
/// The offset of meter registers.
pub const METER_OFFSET: u64 = 0x000080100000;
/// The offset of configuration registers.
pub const CFG_OFFSET: u64 = 0x000080100514;
/// The offset of status registers.
pub const STATUS_OFFSET: u64 = 0x0000801c0000;
/// The offset of amplifier registers.
pub const AMP_OFFSET: u64 = 0x0000801c0180;

/// The first channel of amplifier for microphone inputs.
pub const AMP_MIC_IN_CH_OFFSET: u8 = 0;
/// The first channel of amplifier for line inputs.
pub const AMP_LINE_IN_CH_OFFSET: u8 = 2;
/// The first channel of amplifier for outputs.
pub const AMP_OUT_CH_OFFSET: u8 = 4;

/// The quadlet of command to amplifier for the channel and the level.
pub open spec fn amp_cmd_value(ch: u8, level: i8) -> u32 {
    ((ch as u32) << 16u32) | ((level as u32) & 0xffu32)
}

/// Build the command to amplifier for the channel and the level, in little-endian order.
pub fn write_amp_cmd(ch: u8, level: i8) -> (r: Vec<u8>)
    ensures
        r@ == le_quads_bytes(seq![amp_cmd_value(ch, level)]),
{
    let cmd = ((ch as u32) << 16u32) | ((level as u32) & 0xffu32);
    let quads = [cmd];
    proof {
        assert(quads@ =~= seq![amp_cmd_value(ch, level)]);
    }
    quads_to_le_bytes(&quads)
}

/// Status of input gains of Fireface 400.
#[derive(Debug, Copy, Clone, PartialEq, Eq)]
pub struct Ff400InputGainStatus {
    /// The level of gain for input 1 and 2. The value is between 0 and 65 by step 1 to represent
    /// the range from 0 to 65 dB.
    pub mic: [i8; 2],
    /// The level of gain for input 3 and 4. The value is between 0 and 36 by step 1 to represent
    /// the range from 0 to 18 dB.
    pub line: [i8; 2],
}

impl Default for Ff400InputGainStatus {
    fn default() -> (r: Self)
        ensures
            r == (Ff400InputGainStatus { mic: [0, 0], line: [0, 0] }),
    {
        Ff400InputGainStatus { mic: [0, 0], line: [0, 0] }
    }
}

pub const KNOB_IS_SIGNAL_LEVEL_FLAG: u32 = 0x04000000;
pub const KNOB_IS_STEREO_PAIRED_FLAG: u32 = 0x02000000;
pub const KNOB_IS_RIGHT_CHANNEL_FLAG: u32 = 0x08000000;

pub const MIDI_PORT_0_FLAG: u32 = 0x00000100;
pub const MIDI_PORT_0_BYTE_MASK: u32 = 0x000000ff;
pub const MIDI_PORT_0_BYTE_SHIFT: u32 = 0;
pub const MIDI_PORT_1_FLAG: u32 = 0x01000000;
pub const MIDI_PORT_1_BYTE_MASK: u32 = 0x00ff0000;
pub const MIDI_PORT_1_BYTE_SHIFT: u32 = 16;

pub const KNOB_TARGET_MASK: u32 = 0xf0000000;
pub const KNOB_TARGET_MIC_INPUT_PAIR_0: u32 = 0x00000000;
pub const KNOB_TARGET_LINE_INPUT_PAIR_1: u32 = 0x10000000;
pub const KNOB_TARGET_LINE_OUTPUT_PAIR_0: u32 = 0x20000000;
pub const KNOB_TARGET_LINE_OUTPUT_PAIR_1: u32 = 0x30000000;
pub const KNOB_TARGET_LINE_OUTPUT_PAIR_2: u32 = 0x40000000;
pub const KNOB_TARGET_HP_OUTPUT_PAIR: u32 = 0x50000000;
pub const KNOB_TARGET_SPDIF_OUTPUT_PAIR: u32 = 0x60000000;
pub const KNOB_TARGET_ADAT_OUTPUT_PAIR_0: u32 = 0x70000000;
pub const KNOB_TARGET_ADAT_OUTPUT_PAIR_1: u32 = 0x80000000;
pub const KNOB_TARGET_ADAT_OUTPUT_PAIR_2: u32 = 0x90000000;
pub const KNOB_TARGET_ADAT_OUTPUT_PAIR_3: u32 = 0xa0000000;

pub const KNOB_SIGNAL_LEVEL_MASK: u32 = 0x00fffc00;
pub const KNOB_SIGNAL_LEVEL_SHIFT: u32 = 10;

/// The inbound MIDI message to physical port in Fireface 400.
#[derive(Debug, Copy, Clone, PartialEq, Eq)]
pub struct Ff400MidiMessage {
    pub port: u8,
    pub byte: u8,
}

impl Default for Ff400MidiMessage {
    fn default() -> (r: Self)
        ensures
            r == (Ff400MidiMessage { port: u8::MAX, byte: u8::MAX }),
    {
        Ff400MidiMessage { port: u8::MAX, byte: u8::MAX }
    }
}

/// The level carried by a message of knob.
pub open spec fn knob_level(message: u32) -> i8 {
    ((message & KNOB_SIGNAL_LEVEL_MASK) >> KNOB_SIGNAL_LEVEL_SHIFT) as i8
}

fn knob_level_exec(message: u32) -> (r: i8)
    ensures
        r == knob_level(message),
{
    ((message & KNOB_SIGNAL_LEVEL_MASK) >> KNOB_SIGNAL_LEVEL_SHIFT) as i8
}

/// Deserializer for messages from Fireface 400.
pub trait Ff400MessageParse<T> {
    /// Whether the message can be parsed into the parameters.
    spec fn message_acceptable(params: T, message: u32) -> bool;

    /// Return false if no event is found. If found, deserialize parameters and return true.
    fn parse_message(params: &mut T, message: u32) -> bool
        requires
            Self::message_acceptable(*old(params), message),
    ;
}

/// The MIDI message carried by the message, if any.
pub open spec fn midi_message_of(message: u32) -> Option<Ff400MidiMessage> {
    if message & KNOB_IS_SIGNAL_LEVEL_FLAG != 0 {
        None
    } else if message & MIDI_PORT_0_FLAG > 0 {
        Some(
            Ff400MidiMessage {
                port: 0,
                byte: ((message & MIDI_PORT_0_BYTE_MASK) >> MIDI_PORT_0_BYTE_SHIFT) as u8,
            },
        )
    } else if message & MIDI_PORT_1_FLAG > 0 {
        Some(
            Ff400MidiMessage {
                port: 1,
                byte: ((message & MIDI_PORT_1_BYTE_MASK) >> MIDI_PORT_1_BYTE_SHIFT) as u8,
            },
        )
    } else {
        None
    }
}

impl Ff400MessageParse<Ff400MidiMessage> for Ff400Protocol {
    open spec fn message_acceptable(params: Ff400MidiMessage, message: u32) -> bool {
        true
    }

    fn parse_message(params: &mut Ff400MidiMessage, message: u32) -> (r: bool)
        ensures
            r == midi_message_of(message).is_some(),
            r ==> *final(params) == midi_message_of(message).unwrap(),
            !r ==> *final(params) == *old(params),
    {
        if message & KNOB_IS_SIGNAL_LEVEL_FLAG == 0 {
            if message & MIDI_PORT_0_FLAG > 0 {
                params.port = 0;
                params.byte = ((message & MIDI_PORT_0_BYTE_MASK) >> MIDI_PORT_0_BYTE_SHIFT) as u8;
                true
            } else if message & MIDI_PORT_1_FLAG > 0 {
                params.port = 1;
                params.byte = ((message & MIDI_PORT_1_BYTE_MASK) >> MIDI_PORT_1_BYTE_SHIFT) as u8;
                true
            } else {
                false
            }
        } else {
            false
        }
    }
}

/// The gains after applying the level to the pair: both channels when stereo-paired, else the
/// left or right one.
pub open spec fn apply_knob_level(gains: [i8; 2], message: u32) -> [i8; 2] {
    let val = knob_level(message);
    if message & KNOB_IS_STEREO_PAIRED_FLAG > 0 {
        [val, val]
    } else if message & KNOB_IS_RIGHT_CHANNEL_FLAG > 0 {
        [gains[0], val]
    } else {
        [val, gains[1]]
    }
}

fn apply_knob_level_exec(gains: &mut [i8; 2], message: u32)
    ensures
        *final(gains) == apply_knob_level(*old(gains), message),
{
    let val = knob_level_exec(message);
    if message & KNOB_IS_STEREO_PAIRED_FLAG > 0 {
        gains[0] = val;
        gains[1] = val;
    } else {
        let ch: usize = if message & KNOB_IS_RIGHT_CHANNEL_FLAG > 0 {
            1
        } else {
            0
        };
        gains[ch] = val;
    }
    proof {
        assert(*gains =~= apply_knob_level(*old(gains), message));
    }
}

/// The input gains after the message, if it carries them.
pub open spec fn input_gains_of(params: Ff400InputGainStatus, message: u32) -> Option<
    Ff400InputGainStatus,
> {
    if message & KNOB_IS_SIGNAL_LEVEL_FLAG > 0 {
        let target = message & KNOB_TARGET_MASK;
        if target == KNOB_TARGET_MIC_INPUT_PAIR_0 {
            Some(Ff400InputGainStatus { mic: apply_knob_level(params.mic, message), ..params })
        } else if target == KNOB_TARGET_LINE_INPUT_PAIR_1 {
            Some(Ff400InputGainStatus { line: apply_knob_level(params.line, message), ..params })
        } else {
            None
        }
    } else {
        None
    }
}

impl Ff400MessageParse<Ff400InputGainStatus> for Ff400Protocol {
    open spec fn message_acceptable(params: Ff400InputGainStatus, message: u32) -> bool {
        true
    }

    fn parse_message(params: &mut Ff400InputGainStatus, message: u32) -> (r: bool)
        ensures
            r == input_gains_of(*old(params), message).is_some(),
            r ==> *final(params) == input_gains_of(*old(params), message).unwrap(),
            !r ==> *final(params) == *old(params),
    {
        if message & KNOB_IS_SIGNAL_LEVEL_FLAG > 0 {
            let target = message & KNOB_TARGET_MASK;
            if target == KNOB_TARGET_MIC_INPUT_PAIR_0 {
                apply_knob_level_exec(&mut params.mic, message);
                true
            } else if target == KNOB_TARGET_LINE_INPUT_PAIR_1 {
                apply_knob_level_exec(&mut params.line, message);
                true
            } else {
                false
            }
        } else {
            false
        }
    }
}

/// The targets of knob for output pairs, in the order of the pairs.
pub open spec fn output_knob_targets() -> Seq<u32> {
    seq![
        KNOB_TARGET_LINE_OUTPUT_PAIR_0,
        KNOB_TARGET_LINE_OUTPUT_PAIR_1,
        KNOB_TARGET_LINE_OUTPUT_PAIR_2,
        KNOB_TARGET_HP_OUTPUT_PAIR,
        KNOB_TARGET_SPDIF_OUTPUT_PAIR,
        KNOB_TARGET_ADAT_OUTPUT_PAIR_0,
        KNOB_TARGET_ADAT_OUTPUT_PAIR_1,
        KNOB_TARGET_ADAT_OUTPUT_PAIR_2,
        KNOB_TARGET_ADAT_OUTPUT_PAIR_3,
    ]
}

/// The entries of `output_knob_targets`, in their order.
pub proof fn lemma_output_knob_targets_order()
    ensures
        output_knob_targets().len() == 9,
        output_knob_targets()[0] == KNOB_TARGET_LINE_OUTPUT_PAIR_0,
        output_knob_targets()[1] == KNOB_TARGET_LINE_OUTPUT_PAIR_1,
        output_knob_targets()[2] == KNOB_TARGET_LINE_OUTPUT_PAIR_2,
        output_knob_targets()[3] == KNOB_TARGET_HP_OUTPUT_PAIR,
        output_knob_targets()[4] == KNOB_TARGET_SPDIF_OUTPUT_PAIR,
        output_knob_targets()[5] == KNOB_TARGET_ADAT_OUTPUT_PAIR_0,
        output_knob_targets()[6] == KNOB_TARGET_ADAT_OUTPUT_PAIR_1,
        output_knob_targets()[7] == KNOB_TARGET_ADAT_OUTPUT_PAIR_2,
        output_knob_targets()[8] == KNOB_TARGET_ADAT_OUTPUT_PAIR_3,
{
}

fn output_knob_target_table() -> (r: &'static [u32])
    ensures
        r@ == output_knob_targets(),
{
    &[
        KNOB_TARGET_LINE_OUTPUT_PAIR_0,
        KNOB_TARGET_LINE_OUTPUT_PAIR_1,
        KNOB_TARGET_LINE_OUTPUT_PAIR_2,
        KNOB_TARGET_HP_OUTPUT_PAIR,
        KNOB_TARGET_SPDIF_OUTPUT_PAIR,
        KNOB_TARGET_ADAT_OUTPUT_PAIR_0,
        KNOB_TARGET_ADAT_OUTPUT_PAIR_1,
        KNOB_TARGET_ADAT_OUTPUT_PAIR_2,
        KNOB_TARGET_ADAT_OUTPUT_PAIR_3,
    ]
}

/// The number of physical outputs of Fireface 400.
pub const FF400_PHYS_OUTPUT_COUNT: usize = 18;

/// The output volumes after the message, if it carries one; `pos` is the index of the pair.
pub open spec fn output_volumes_of(vols: Seq<i32>, message: u32, pos: int) -> Seq<i32> {
    let vol = amp_to_vol(knob_level(message));
    let ch = pos * 2;
    if message & KNOB_IS_STEREO_PAIRED_FLAG > 0 {
        vols.update(ch, vol).update(ch + 1, vol)
    } else if message & KNOB_IS_RIGHT_CHANNEL_FLAG > 0 {
        vols.update(ch + 1, vol)
    } else {
        vols.update(ch, vol)
    }
}

/// The index of the output pair which the message targets, if any.
pub open spec fn output_pair_of(message: u32) -> Option<int> {
    if message & KNOB_IS_SIGNAL_LEVEL_FLAG > 0 && output_knob_targets().contains(
        message & KNOB_TARGET_MASK,
    ) {
        Some(output_knob_targets().index_of_first(message & KNOB_TARGET_MASK).unwrap())
    } else {
        None
    }
}

impl Ff400MessageParse<FormerOutputVolumeState> for Ff400Protocol {
    open spec fn message_acceptable(params: FormerOutputVolumeState, message: u32) -> bool {
        &&& params.0@.len() == FF400_PHYS_OUTPUT_COUNT
        &&& output_pair_of(message) is Some ==> amp_value_convertible(knob_level(message))
    }

    fn parse_message(params: &mut FormerOutputVolumeState, message: u32) -> (r: bool)
        ensures
            r == output_pair_of(message) is Some,
            r ==> final(params).0@ == output_volumes_of(
                old(params).0@,
                message,
                output_pair_of(message).unwrap(),
            ),
            !r ==> *final(params) == *old(params),
    {
        if message & KNOB_IS_SIGNAL_LEVEL_FLAG > 0 {
            let target = message & KNOB_TARGET_MASK;
            let table = output_knob_target_table();
            let mut pos: usize = 0;
            while pos < table.len()
                invariant
                    table@ == output_knob_targets(),
                    pos <= table@.len(),
                    forall|j: int| 0 <= j < pos ==> table@[j] != target,
                ensures
                    pos <= table@.len(),
                    pos < table@.len() ==> table@[pos as int] == target,
                    forall|j: int| 0 <= j < pos ==> table@[j] != target,
                decreases table@.len() - pos,
            {
                if table[pos] == target {
                    break;
                }
                pos = pos + 1;
            }
            if pos == table.len() {
                return false;
            }
            proof {
                assert(output_knob_targets()[pos as int] == target);
                assert(output_knob_targets().contains(target));
                let found = output_knob_targets().index_of_first(target);
                output_knob_targets().index_of_first_ensures(target);
                assert(found == Some(pos as int));
            }
            let val = knob_level_exec(message);
            let vol = amp_to_vol_value(val);
            let mut ch = pos * 2;
            if message & KNOB_IS_STEREO_PAIRED_FLAG > 0 {
                params.0.set(ch, vol);
                params.0.set(ch + 1, vol);
            } else {
                if message & KNOB_IS_RIGHT_CHANNEL_FLAG > 0 {
                    ch += 1;
                }
                params.0.set(ch, vol);
            }
            true
        } else {
            false
        }
    }
}

/// The minimum value of gain for microphone input.
pub const MIC_INPUT_GAIN_MIN: i8 = 0;
/// The maximum value of gain for microphone input.
pub const MIC_INPUT_GAIN_MAX: i8 = 65;
/// The step value of gain for microphone input.
pub const MIC_INPUT_GAIN_STEP: i8 = 1;
/// The minimum value of gain for line input.
pub const LINE_INPUT_GAIN_MIN: i8 = 0;
/// The maximum value of gain for line input.
pub const LINE_INPUT_GAIN_MAX: i8 = 36;
/// The step value of gain for line input.
pub const LINE_INPUT_GAIN_STEP: i8 = 1;

/// The maximum value of volume.
pub const FF400_VOL_MAX: i32 = 0x00010000;
/// The maximum value of amplifier for outputs.
pub const OUTPUT_AMP_MAX: i8 = 0x3f;

/// The volumes which can be converted to a value of amplifier.
pub open spec fn vol_convertible(vol: i32) -> bool {
    FF400_VOL_MAX - i32::MAX <= vol <= FF400_VOL_MAX
}

/// The value of amplifier for the volume: 0x3f to 0x00 by step 1 represents -57 dB (=mute) to
/// +6 dB.
pub open spec fn vol_to_amp(vol: i32) -> i8 {
    ((OUTPUT_AMP_MAX as int) * (FF400_VOL_MAX - vol) / (FF400_VOL_MAX as int)) as i8
}

/// Convert the volume to the value of amplifier.
pub fn vol_to_amp_value(vol: i32) -> (r: i8)
    requires
        vol_convertible(vol),
    ensures
        r == vol_to_amp(vol),
{
    let diff = (FF400_VOL_MAX - vol) as u64;
    assert((OUTPUT_AMP_MAX as u64) * diff <= 0x3f * 0xffff_ffff) by (nonlinear_arith)
        requires
            diff <= 0xffff_ffff;
    ((OUTPUT_AMP_MAX as u64) * diff / (FF400_VOL_MAX as u64)) as i8
}

/// The values of amplifier which can be converted to a volume.
pub open spec fn amp_value_convertible(amp: i8) -> bool {
    -64 <= amp <= OUTPUT_AMP_MAX
}

/// The volume for the value of amplifier.
pub open spec fn amp_to_vol(amp: i8) -> i32 {
    ((FF400_VOL_MAX as int) * (OUTPUT_AMP_MAX - amp) / (OUTPUT_AMP_MAX as int)) as i32
}

/// Convert the value of amplifier to the volume.
pub fn amp_to_vol_value(amp: i8) -> (r: i32)
    requires
        amp_value_convertible(amp),
    ensures
        r == amp_to_vol(amp),
{
    let diff = (OUTPUT_AMP_MAX - amp) as u64;
    assert((FF400_VOL_MAX as u64) * diff <= 0x10000 * 127) by (nonlinear_arith)
        requires
            diff <= 127;
    ((FF400_VOL_MAX as u64) * diff / (OUTPUT_AMP_MAX as u64)) as i32
}

/// A value of amplifier between 0 and the maximum survives the conversion to a volume and back.
pub proof fn lemma_amp_vol_roundtrip(amp: i8)
    requires
        0 <= amp <= OUTPUT_AMP_MAX,
    ensures
        amp_value_convertible(amp),
        0 <= amp_to_vol(amp) <= FF400_VOL_MAX,
        vol_convertible(amp_to_vol(amp)),
        vol_to_amp(amp_to_vol(amp)) == amp,
{
    let a = amp as int;
    let v = 65536 * (63 - a) / 63;
    assert(0 <= v <= 65536) by (nonlinear_arith)
        requires
            0 <= a <= 63,
            v == 65536 * (63 - a) / 63,
    ;
    assert(amp_to_vol(amp) == v);
    assert(63 * (65536 - v) / 65536 == a) by (nonlinear_arith)
        requires
            0 <= a <= 63,
            v == 65536 * (63 - a) / 63,
    ;
}

/// The value of amplifier falls from the maximum at no volume to zero at the maximum volume, and
/// never grows with the volume.
pub proof fn lemma_vol_to_amp_monotone(v1: i32, v2: i32)
    requires
        0 <= v1 <= v2 <= FF400_VOL_MAX,
    ensures
        0 <= vol_to_amp(v2) <= vol_to_amp(v1) <= OUTPUT_AMP_MAX,
        vol_to_amp(0) == OUTPUT_AMP_MAX,
        vol_to_amp(FF400_VOL_MAX) == 0,
{
    let x1 = 63 * (65536 - v1 as int) / 65536;
    let x2 = 63 * (65536 - v2 as int) / 65536;
    assert(0 <= x2 <= x1 <= 63) by (nonlinear_arith)
        requires
            0 <= v1 <= v2 <= 65536,
            x1 == 63 * (65536 - v1 as int) / 65536,
            x2 == 63 * (65536 - v2 as int) / 65536,
    ;
    assert(vol_to_amp(v1) == x1);
    assert(vol_to_amp(v2) == x2);
}

/// Build the command to amplifier for the output channel, from the volume in little-endian order.
pub fn write_output_amp_cmd(ch: u8, raw: &[u8]) -> (r: Vec<u8>)
    requires
        raw@.len() == 4,
        vol_convertible(le_quad_at(raw@, 0) as i32),
        AMP_OUT_CH_OFFSET + ch <= u8::MAX,
    ensures
        r@ == le_quads_bytes(
            seq![amp_cmd_value((AMP_OUT_CH_OFFSET + ch) as u8, vol_to_amp(le_quad_at(raw@, 0) as i32))],
        ),
{
    let vol = read_le_quad(raw, 0) as i32;
    let val = vol_to_amp_value(vol);
    write_amp_cmd(AMP_OUT_CH_OFFSET + ch, val)
}

/// Signal source of sampling clock.
#[derive(Debug, Copy, Clone, PartialEq, Eq, Structural)]
pub enum Ff400ClkSrc {
    Internal,
    WordClock,
    Adat,
    Spdif,
    Ltc,
}

impl Default for Ff400ClkSrc {
    fn default() -> (r: Self)
        ensures
            r == Ff400ClkSrc::Internal,
    {
        Ff400ClkSrc::Internal
    }
}


// NOTE: for first quadlet of status quadlets.
pub const Q0_SYNC_WORD_CLOCK_MASK: u32 = 0x40000000;
pub const Q0_LOCK_WORD_CLOCK_MASK: u32 = 0x20000000;
pub const Q0_EXT_CLK_RATE_MASK: u32 = 0x1e000000;
pub const Q0_EXT_CLK_RATE_192000_FLAG: u32 = 0x12000000;
pub const Q0_EXT_CLK_RATE_176400_FLAG: u32 = 0x10000000;
pub const Q0_EXT_CLK_RATE_128000_FLAG: u32 = 0x0c000000;
pub const Q0_EXT_CLK_RATE_96000_FLAG: u32 = 0x0e000000;
pub const Q0_EXT_CLK_RATE_88200_FLAG: u32 = 0x0a000000;
pub const Q0_EXT_CLK_RATE_64000_FLAG: u32 = 0x08000000;
pub const Q0_EXT_CLK_RATE_48000_FLAG: u32 = 0x06000000;
pub const Q0_EXT_CLK_RATE_44100_FLAG: u32 = 0x04000000;
pub const Q0_EXT_CLK_RATE_32000_FLAG: u32 = 0x02000000;
pub const Q0_ACTIVE_CLK_SRC_MASK: u32 = 0x01c00000;
pub const Q0_ACTIVE_CLK_SRC_INTERNAL_FLAG: u32 = 0x01c00000;
pub const Q0_ACTIVE_CLK_SRC_LTC_FLAG: u32 = 0x01400000;
pub const Q0_ACTIVE_CLK_SRC_WORD_CLK_FLAG: u32 = 0x01000000;
pub const Q0_ACTIVE_CLK_SRC_SPDIF_FLAG: u32 = 0x00c00000;
pub const Q0_ACTIVE_CLK_SRC_ADAT_FLAG: u32 = 0x00000000;
pub const Q0_SYNC_SPDIF_MASK: u32 = 0x00100000;
pub const Q0_LOCK_SPDIF_MASK: u32 = 0x00040000;
pub const Q0_SPDIF_RATE_MASK: u32 = 0x0003c000;
pub const Q0_SPDIF_RATE_192000_FLAG: u32 = 0x00024000;
pub const Q0_SPDIF_RATE_176400_FLAG: u32 = 0x00020000;
pub const Q0_SPDIF_RATE_128000_FLAG: u32 = 0x0001c000;
pub const Q0_SPDIF_RATE_96000_FLAG: u32 = 0x00018000;
pub const Q0_SPDIF_RATE_88200_FLAG: u32 = 0x00014000;
pub const Q0_SPDIF_RATE_64000_FLAG: u32 = 0x00010000;
pub const Q0_SPDIF_RATE_48000_FLAG: u32 = 0x0000c000;
pub const Q0_SPDIF_RATE_44100_FLAG: u32 = 0x00008000;
pub const Q0_SPDIF_RATE_32000_FLAG: u32 = 0x00004000;
pub const Q0_LOCK_ADAT_MASK: u32 = 0x00001000;
pub const Q0_SYNC_ADAT_MASK: u32 = 0x00000400;

// NOTE: for second quadlet of status quadlets.
pub const Q1_WORD_OUT_SINGLE_MASK: u32 = 0x00002000;
pub const Q1_CONF_CLK_SRC_MASK: u32 = 0x00001c01;
pub const Q1_CONF_CLK_SRC_LTC_FLAG: u32 = 0x00001400;
pub const Q1_CONF_CLK_SRC_WORD_CLK_FLAG: u32 = 0x00001000;
pub const Q1_CONF_CLK_SRC_SPDIF_FLAG: u32 = 0x00000c00;
pub const Q1_CONF_CLK_SRC_INTERNAL_FLAG: u32 = 0x00000001;
pub const Q1_CONF_CLK_SRC_ADAT_FLAG: u32 = 0x00000000;
pub const Q1_SPDIF_IN_IFACE_MASK: u32 = 0x00000200;
pub const Q1_OPT_OUT_SIGNAL_MASK: u32 = 0x00000100;
pub const Q1_SPDIF_OUT_EMPHASIS_MASK: u32 = 0x00000040;
pub const Q1_SPDIF_OUT_FMT_MASK: u32 = 0x00000020;
pub const Q1_CONF_CLK_RATE_MASK: u32 = 0x0000001e;
pub const Q1_CONF_CLK_RATE_192000_FLAG: u32 = 0x00000016;
pub const Q1_CONF_CLK_RATE_176400_FLAG: u32 = 0x00000010;
pub const Q1_CONF_CLK_RATE_128000_FLAG: u32 = 0x00000012;
pub const Q1_CONF_CLK_RATE_96000_FLAG: u32 = 0x0000000e;
pub const Q1_CONF_CLK_RATE_88200_FLAG: u32 = 0x00000008;
pub const Q1_CONF_CLK_RATE_64000_FLAG: u32 = 0x0000000a;
pub const Q1_CONF_CLK_RATE_48000_FLAG: u32 = 0x00000006;
pub const Q1_CONF_CLK_RATE_44100_FLAG: u32 = 0x00000000;
pub const Q1_CONF_CLK_RATE_32000_FLAG: u32 = 0x00000002;

/// The flag of rate of S/PDIF input in status.
#[verifier::opaque]
pub open spec fn spdif_rate_flag(rate: ClkNominalRate) -> u32 {
    match rate {
        ClkNominalRate::R32000 => Q0_SPDIF_RATE_32000_FLAG,
        ClkNominalRate::R44100 => Q0_SPDIF_RATE_44100_FLAG,
        ClkNominalRate::R48000 => Q0_SPDIF_RATE_48000_FLAG,
        ClkNominalRate::R64000 => Q0_SPDIF_RATE_64000_FLAG,
        ClkNominalRate::R88200 => Q0_SPDIF_RATE_88200_FLAG,
        ClkNominalRate::R96000 => Q0_SPDIF_RATE_96000_FLAG,
        ClkNominalRate::R128000 => Q0_SPDIF_RATE_128000_FLAG,
        ClkNominalRate::R176400 => Q0_SPDIF_RATE_176400_FLAG,
        ClkNominalRate::R192000 => Q0_SPDIF_RATE_192000_FLAG,
    }
}

/// Each value of `ClkNominalRate` has its own value in `spdif_rate_flag`, as the device knows it.
pub proof fn lemma_spdif_rate_flag_table()
    ensures
        spdif_rate_flag(ClkNominalRate::R32000) == Q0_SPDIF_RATE_32000_FLAG,
        spdif_rate_flag(ClkNominalRate::R44100) == Q0_SPDIF_RATE_44100_FLAG,
        spdif_rate_flag(ClkNominalRate::R48000) == Q0_SPDIF_RATE_48000_FLAG,
        spdif_rate_flag(ClkNominalRate::R64000) == Q0_SPDIF_RATE_64000_FLAG,
        spdif_rate_flag(ClkNominalRate::R88200) == Q0_SPDIF_RATE_88200_FLAG,
        spdif_rate_flag(ClkNominalRate::R96000) == Q0_SPDIF_RATE_96000_FLAG,
        spdif_rate_flag(ClkNominalRate::R128000) == Q0_SPDIF_RATE_128000_FLAG,
        spdif_rate_flag(ClkNominalRate::R176400) == Q0_SPDIF_RATE_176400_FLAG,
        spdif_rate_flag(ClkNominalRate::R192000) == Q0_SPDIF_RATE_192000_FLAG,
{
    reveal(spdif_rate_flag);
}

fn spdif_rate_flag_exec(rate: ClkNominalRate) -> (r: u32)
    ensures
        r == spdif_rate_flag(rate),
{
    proof {
        reveal(spdif_rate_flag);
    }
    match rate {
        ClkNominalRate::R32000 => Q0_SPDIF_RATE_32000_FLAG,
        ClkNominalRate::R44100 => Q0_SPDIF_RATE_44100_FLAG,
        ClkNominalRate::R48000 => Q0_SPDIF_RATE_48000_FLAG,
        ClkNominalRate::R64000 => Q0_SPDIF_RATE_64000_FLAG,
        ClkNominalRate::R88200 => Q0_SPDIF_RATE_88200_FLAG,
        ClkNominalRate::R96000 => Q0_SPDIF_RATE_96000_FLAG,
        ClkNominalRate::R128000 => Q0_SPDIF_RATE_128000_FLAG,
        ClkNominalRate::R176400 => Q0_SPDIF_RATE_176400_FLAG,
        ClkNominalRate::R192000 => Q0_SPDIF_RATE_192000_FLAG,
    }
}

/// The rate of S/PDIF input in status, if detected.
#[verifier::opaque]
pub open spec fn spdif_rate_of(val: u32) -> Option<ClkNominalRate> {
    if val == Q0_SPDIF_RATE_32000_FLAG {
        Some(ClkNominalRate::R32000)
    } else if val == Q0_SPDIF_RATE_44100_FLAG {
        Some(ClkNominalRate::R44100)
    } else if val == Q0_SPDIF_RATE_48000_FLAG {
        Some(ClkNominalRate::R48000)
    } else if val == Q0_SPDIF_RATE_64000_FLAG {
        Some(ClkNominalRate::R64000)
    } else if val == Q0_SPDIF_RATE_88200_FLAG {
        Some(ClkNominalRate::R88200)
    } else if val == Q0_SPDIF_RATE_96000_FLAG {
        Some(ClkNominalRate::R96000)
    } else if val == Q0_SPDIF_RATE_128000_FLAG {
        Some(ClkNominalRate::R128000)
    } else if val == Q0_SPDIF_RATE_176400_FLAG {
        Some(ClkNominalRate::R176400)
    } else if val == Q0_SPDIF_RATE_192000_FLAG {
        Some(ClkNominalRate::R192000)
    } else {
        None
    }
}

/// Each value which the device uses is read by `spdif_rate_of` as its own `ClkNominalRate`.
pub proof fn lemma_spdif_rate_of_table()
    ensures
        spdif_rate_of(Q0_SPDIF_RATE_32000_FLAG) == Some(ClkNominalRate::R32000),
        spdif_rate_of(Q0_SPDIF_RATE_44100_FLAG) == Some(ClkNominalRate::R44100),
        spdif_rate_of(Q0_SPDIF_RATE_48000_FLAG) == Some(ClkNominalRate::R48000),
        spdif_rate_of(Q0_SPDIF_RATE_64000_FLAG) == Some(ClkNominalRate::R64000),
        spdif_rate_of(Q0_SPDIF_RATE_88200_FLAG) == Some(ClkNominalRate::R88200),
        spdif_rate_of(Q0_SPDIF_RATE_96000_FLAG) == Some(ClkNominalRate::R96000),
        spdif_rate_of(Q0_SPDIF_RATE_128000_FLAG) == Some(ClkNominalRate::R128000),
        spdif_rate_of(Q0_SPDIF_RATE_176400_FLAG) == Some(ClkNominalRate::R176400),
        spdif_rate_of(Q0_SPDIF_RATE_192000_FLAG) == Some(ClkNominalRate::R192000),
{
    reveal(spdif_rate_of);
}

fn spdif_rate_of_exec(val: u32) -> (r: Option<ClkNominalRate>)
    ensures
        r == spdif_rate_of(val),
{
    proof {
        reveal(spdif_rate_of);
    }
    if val == Q0_SPDIF_RATE_32000_FLAG {
        Some(ClkNominalRate::R32000)
    } else if val == Q0_SPDIF_RATE_44100_FLAG {
        Some(ClkNominalRate::R44100)
    } else if val == Q0_SPDIF_RATE_48000_FLAG {
        Some(ClkNominalRate::R48000)
    } else if val == Q0_SPDIF_RATE_64000_FLAG {
        Some(ClkNominalRate::R64000)
    } else if val == Q0_SPDIF_RATE_88200_FLAG {
        Some(ClkNominalRate::R88200)
    } else if val == Q0_SPDIF_RATE_96000_FLAG {
        Some(ClkNominalRate::R96000)
    } else if val == Q0_SPDIF_RATE_128000_FLAG {
        Some(ClkNominalRate::R128000)
    } else if val == Q0_SPDIF_RATE_176400_FLAG {
        Some(ClkNominalRate::R176400)
    } else if val == Q0_SPDIF_RATE_192000_FLAG {
        Some(ClkNominalRate::R192000)
    } else {
        None
    }
}

/// The flag of rate of external clock in status.
#[verifier::opaque]
pub open spec fn ext_clk_rate_flag(rate: ClkNominalRate) -> u32 {
    match rate {
        ClkNominalRate::R32000 => Q0_EXT_CLK_RATE_32000_FLAG,
        ClkNominalRate::R44100 => Q0_EXT_CLK_RATE_44100_FLAG,
        ClkNominalRate::R48000 => Q0_EXT_CLK_RATE_48000_FLAG,
        ClkNominalRate::R64000 => Q0_EXT_CLK_RATE_64000_FLAG,
        ClkNominalRate::R88200 => Q0_EXT_CLK_RATE_88200_FLAG,
        ClkNominalRate::R96000 => Q0_EXT_CLK_RATE_96000_FLAG,
        ClkNominalRate::R128000 => Q0_EXT_CLK_RATE_128000_FLAG,
        ClkNominalRate::R176400 => Q0_EXT_CLK_RATE_176400_FLAG,
        ClkNominalRate::R192000 => Q0_EXT_CLK_RATE_192000_FLAG,
    }
}

/// Each value of `ClkNominalRate` has its own value in `ext_clk_rate_flag`, as the device knows it.
pub proof fn lemma_ext_clk_rate_flag_table()
    ensures
        ext_clk_rate_flag(ClkNominalRate::R32000) == Q0_EXT_CLK_RATE_32000_FLAG,
        ext_clk_rate_flag(ClkNominalRate::R44100) == Q0_EXT_CLK_RATE_44100_FLAG,
        ext_clk_rate_flag(ClkNominalRate::R48000) == Q0_EXT_CLK_RATE_48000_FLAG,
        ext_clk_rate_flag(ClkNominalRate::R64000) == Q0_EXT_CLK_RATE_64000_FLAG,
        ext_clk_rate_flag(ClkNominalRate::R88200) == Q0_EXT_CLK_RATE_88200_FLAG,
        ext_clk_rate_flag(ClkNominalRate::R96000) == Q0_EXT_CLK_RATE_96000_FLAG,
        ext_clk_rate_flag(ClkNominalRate::R128000) == Q0_EXT_CLK_RATE_128000_FLAG,
        ext_clk_rate_flag(ClkNominalRate::R176400) == Q0_EXT_CLK_RATE_176400_FLAG,
        ext_clk_rate_flag(ClkNominalRate::R192000) == Q0_EXT_CLK_RATE_192000_FLAG,
{
    reveal(ext_clk_rate_flag);
}

fn ext_clk_rate_flag_exec(rate: ClkNominalRate) -> (r: u32)
    ensures
        r == ext_clk_rate_flag(rate),
{
    proof {
        reveal(ext_clk_rate_flag);
    }
    match rate {
        ClkNominalRate::R32000 => Q0_EXT_CLK_RATE_32000_FLAG,
        ClkNominalRate::R44100 => Q0_EXT_CLK_RATE_44100_FLAG,
        ClkNominalRate::R48000 => Q0_EXT_CLK_RATE_48000_FLAG,
        ClkNominalRate::R64000 => Q0_EXT_CLK_RATE_64000_FLAG,
        ClkNominalRate::R88200 => Q0_EXT_CLK_RATE_88200_FLAG,
        ClkNominalRate::R96000 => Q0_EXT_CLK_RATE_96000_FLAG,
        ClkNominalRate::R128000 => Q0_EXT_CLK_RATE_128000_FLAG,
        ClkNominalRate::R176400 => Q0_EXT_CLK_RATE_176400_FLAG,
        ClkNominalRate::R192000 => Q0_EXT_CLK_RATE_192000_FLAG,
    }
}

/// The rate of external clock in status, if detected.
#[verifier::opaque]
pub open spec fn ext_clk_rate_of(val: u32) -> Option<ClkNominalRate> {
    if val == Q0_EXT_CLK_RATE_32000_FLAG {
        Some(ClkNominalRate::R32000)
    } else if val == Q0_EXT_CLK_RATE_44100_FLAG {
        Some(ClkNominalRate::R44100)
    } else if val == Q0_EXT_CLK_RATE_48000_FLAG {
        Some(ClkNominalRate::R48000)
    } else if val == Q0_EXT_CLK_RATE_64000_FLAG {
        Some(ClkNominalRate::R64000)
    } else if val == Q0_EXT_CLK_RATE_88200_FLAG {
        Some(ClkNominalRate::R88200)
    } else if val == Q0_EXT_CLK_RATE_96000_FLAG {
        Some(ClkNominalRate::R96000)
    } else if val == Q0_EXT_CLK_RATE_128000_FLAG {
        Some(ClkNominalRate::R128000)
    } else if val == Q0_EXT_CLK_RATE_176400_FLAG {
        Some(ClkNominalRate::R176400)
    } else if val == Q0_EXT_CLK_RATE_192000_FLAG {
        Some(ClkNominalRate::R192000)
    } else {
        None
    }
}

/// Each value which the device uses is read by `ext_clk_rate_of` as its own `ClkNominalRate`.
pub proof fn lemma_ext_clk_rate_of_table()
    ensures
        ext_clk_rate_of(Q0_EXT_CLK_RATE_32000_FLAG) == Some(ClkNominalRate::R32000),
        ext_clk_rate_of(Q0_EXT_CLK_RATE_44100_FLAG) == Some(ClkNominalRate::R44100),
        ext_clk_rate_of(Q0_EXT_CLK_RATE_48000_FLAG) == Some(ClkNominalRate::R48000),
        ext_clk_rate_of(Q0_EXT_CLK_RATE_64000_FLAG) == Some(ClkNominalRate::R64000),
        ext_clk_rate_of(Q0_EXT_CLK_RATE_88200_FLAG) == Some(ClkNominalRate::R88200),
        ext_clk_rate_of(Q0_EXT_CLK_RATE_96000_FLAG) == Some(ClkNominalRate::R96000),
        ext_clk_rate_of(Q0_EXT_CLK_RATE_128000_FLAG) == Some(ClkNominalRate::R128000),
        ext_clk_rate_of(Q0_EXT_CLK_RATE_176400_FLAG) == Some(ClkNominalRate::R176400),
        ext_clk_rate_of(Q0_EXT_CLK_RATE_192000_FLAG) == Some(ClkNominalRate::R192000),
{
    reveal(ext_clk_rate_of);
}

fn ext_clk_rate_of_exec(val: u32) -> (r: Option<ClkNominalRate>)
    ensures
        r == ext_clk_rate_of(val),
{
    proof {
        reveal(ext_clk_rate_of);
    }
    if val == Q0_EXT_CLK_RATE_32000_FLAG {
        Some(ClkNominalRate::R32000)
    } else if val == Q0_EXT_CLK_RATE_44100_FLAG {
        Some(ClkNominalRate::R44100)
    } else if val == Q0_EXT_CLK_RATE_48000_FLAG {
        Some(ClkNominalRate::R48000)
    } else if val == Q0_EXT_CLK_RATE_64000_FLAG {
        Some(ClkNominalRate::R64000)
    } else if val == Q0_EXT_CLK_RATE_88200_FLAG {
        Some(ClkNominalRate::R88200)
    } else if val == Q0_EXT_CLK_RATE_96000_FLAG {
        Some(ClkNominalRate::R96000)
    } else if val == Q0_EXT_CLK_RATE_128000_FLAG {
        Some(ClkNominalRate::R128000)
    } else if val == Q0_EXT_CLK_RATE_176400_FLAG {
        Some(ClkNominalRate::R176400)
    } else if val == Q0_EXT_CLK_RATE_192000_FLAG {
        Some(ClkNominalRate::R192000)
    } else {
        None
    }
}

/// The flag of active source of sampling clock in status.
#[verifier::opaque]
pub open spec fn active_clk_src_flag(src: Ff400ClkSrc) -> u32 {
    match src {
        Ff400ClkSrc::Adat => Q0_ACTIVE_CLK_SRC_ADAT_FLAG,
        Ff400ClkSrc::Spdif => Q0_ACTIVE_CLK_SRC_SPDIF_FLAG,
        Ff400ClkSrc::WordClock => Q0_ACTIVE_CLK_SRC_WORD_CLK_FLAG,
        Ff400ClkSrc::Ltc => Q0_ACTIVE_CLK_SRC_LTC_FLAG,
        Ff400ClkSrc::Internal => Q0_ACTIVE_CLK_SRC_INTERNAL_FLAG,
    }
}

/// Each value of `Ff400ClkSrc` has its own value in `active_clk_src_flag`, as the device knows it.
pub proof fn lemma_active_clk_src_flag_table()
    ensures
        active_clk_src_flag(Ff400ClkSrc::Adat) == Q0_ACTIVE_CLK_SRC_ADAT_FLAG,
        active_clk_src_flag(Ff400ClkSrc::Spdif) == Q0_ACTIVE_CLK_SRC_SPDIF_FLAG,
        active_clk_src_flag(Ff400ClkSrc::WordClock) == Q0_ACTIVE_CLK_SRC_WORD_CLK_FLAG,
        active_clk_src_flag(Ff400ClkSrc::Ltc) == Q0_ACTIVE_CLK_SRC_LTC_FLAG,
        active_clk_src_flag(Ff400ClkSrc::Internal) == Q0_ACTIVE_CLK_SRC_INTERNAL_FLAG,
{
    reveal(active_clk_src_flag);
}

fn active_clk_src_flag_exec(src: Ff400ClkSrc) -> (r: u32)
    ensures
        r == active_clk_src_flag(src),
{
    proof {
        reveal(active_clk_src_flag);
    }
    match src {
        Ff400ClkSrc::Adat => Q0_ACTIVE_CLK_SRC_ADAT_FLAG,
        Ff400ClkSrc::Spdif => Q0_ACTIVE_CLK_SRC_SPDIF_FLAG,
        Ff400ClkSrc::WordClock => Q0_ACTIVE_CLK_SRC_WORD_CLK_FLAG,
        Ff400ClkSrc::Ltc => Q0_ACTIVE_CLK_SRC_LTC_FLAG,
        Ff400ClkSrc::Internal => Q0_ACTIVE_CLK_SRC_INTERNAL_FLAG,
    }
}

/// The active source of sampling clock in status.
#[verifier::opaque]
pub open spec fn active_clk_src_of(val: u32) -> Ff400ClkSrc {
    if val == Q0_ACTIVE_CLK_SRC_ADAT_FLAG {
        Ff400ClkSrc::Adat
    } else if val == Q0_ACTIVE_CLK_SRC_SPDIF_FLAG {
        Ff400ClkSrc::Spdif
    } else if val == Q0_ACTIVE_CLK_SRC_WORD_CLK_FLAG {
        Ff400ClkSrc::WordClock
    } else if val == Q0_ACTIVE_CLK_SRC_LTC_FLAG {
        Ff400ClkSrc::Ltc
    } else if val == Q0_ACTIVE_CLK_SRC_INTERNAL_FLAG {
        Ff400ClkSrc::Internal
    } else {
        Ff400ClkSrc::Internal
    }
}

/// Each value which the device uses is read by `active_clk_src_of` as its own `Ff400ClkSrc`.
pub proof fn lemma_active_clk_src_of_table()
    ensures
        active_clk_src_of(Q0_ACTIVE_CLK_SRC_ADAT_FLAG) == Ff400ClkSrc::Adat,
        active_clk_src_of(Q0_ACTIVE_CLK_SRC_SPDIF_FLAG) == Ff400ClkSrc::Spdif,
        active_clk_src_of(Q0_ACTIVE_CLK_SRC_WORD_CLK_FLAG) == Ff400ClkSrc::WordClock,
        active_clk_src_of(Q0_ACTIVE_CLK_SRC_LTC_FLAG) == Ff400ClkSrc::Ltc,
        active_clk_src_of(Q0_ACTIVE_CLK_SRC_INTERNAL_FLAG) == Ff400ClkSrc::Internal,
{
    reveal(active_clk_src_of);
}

fn active_clk_src_of_exec(val: u32) -> (r: Ff400ClkSrc)
    ensures
        r == active_clk_src_of(val),
{
    proof {
        reveal(active_clk_src_of);
    }
    if val == Q0_ACTIVE_CLK_SRC_ADAT_FLAG {
        Ff400ClkSrc::Adat
    } else if val == Q0_ACTIVE_CLK_SRC_SPDIF_FLAG {
        Ff400ClkSrc::Spdif
    } else if val == Q0_ACTIVE_CLK_SRC_WORD_CLK_FLAG {
        Ff400ClkSrc::WordClock
    } else if val == Q0_ACTIVE_CLK_SRC_LTC_FLAG {
        Ff400ClkSrc::Ltc
    } else if val == Q0_ACTIVE_CLK_SRC_INTERNAL_FLAG {
        Ff400ClkSrc::Internal
    } else {
        Ff400ClkSrc::Internal
    }
}

/// Whether the bits stand for an active source of sampling clock.
pub open spec fn active_clk_src_valid(val: u32) -> bool {
    val == Q0_ACTIVE_CLK_SRC_ADAT_FLAG || val == Q0_ACTIVE_CLK_SRC_SPDIF_FLAG || val == Q0_ACTIVE_CLK_SRC_WORD_CLK_FLAG || val == Q0_ACTIVE_CLK_SRC_LTC_FLAG || val == Q0_ACTIVE_CLK_SRC_INTERNAL_FLAG
}

/// Each value is read back from its flag.
pub proof fn lemma_active_clk_src_code(v: Ff400ClkSrc)
    ensures
        active_clk_src_valid(active_clk_src_flag(v)),
        active_clk_src_of(active_clk_src_flag(v)) == v,
{
    reveal(active_clk_src_flag);
    reveal(active_clk_src_of);
}

/// The flag of configured source of sampling clock in status.
#[verifier::opaque]
pub open spec fn conf_clk_src_flag(src: Ff400ClkSrc) -> u32 {
    match src {
        Ff400ClkSrc::Internal => Q1_CONF_CLK_SRC_INTERNAL_FLAG,
        Ff400ClkSrc::Spdif => Q1_CONF_CLK_SRC_SPDIF_FLAG,
        Ff400ClkSrc::WordClock => Q1_CONF_CLK_SRC_WORD_CLK_FLAG,
        Ff400ClkSrc::Ltc => Q1_CONF_CLK_SRC_LTC_FLAG,
        Ff400ClkSrc::Adat => Q1_CONF_CLK_SRC_ADAT_FLAG,
    }
}

/// Each value of `Ff400ClkSrc` has its own value in `conf_clk_src_flag`, as the device knows it.
pub proof fn lemma_conf_clk_src_flag_table()
    ensures
        conf_clk_src_flag(Ff400ClkSrc::Internal) == Q1_CONF_CLK_SRC_INTERNAL_FLAG,
        conf_clk_src_flag(Ff400ClkSrc::Spdif) == Q1_CONF_CLK_SRC_SPDIF_FLAG,
        conf_clk_src_flag(Ff400ClkSrc::WordClock) == Q1_CONF_CLK_SRC_WORD_CLK_FLAG,
        conf_clk_src_flag(Ff400ClkSrc::Ltc) == Q1_CONF_CLK_SRC_LTC_FLAG,
        conf_clk_src_flag(Ff400ClkSrc::Adat) == Q1_CONF_CLK_SRC_ADAT_FLAG,
{
    reveal(conf_clk_src_flag);
}

fn conf_clk_src_flag_exec(src: Ff400ClkSrc) -> (r: u32)
    ensures
        r == conf_clk_src_flag(src),
{
    proof {
        reveal(conf_clk_src_flag);
    }
    match src {
        Ff400ClkSrc::Internal => Q1_CONF_CLK_SRC_INTERNAL_FLAG,
        Ff400ClkSrc::Spdif => Q1_CONF_CLK_SRC_SPDIF_FLAG,
        Ff400ClkSrc::WordClock => Q1_CONF_CLK_SRC_WORD_CLK_FLAG,
        Ff400ClkSrc::Ltc => Q1_CONF_CLK_SRC_LTC_FLAG,
        Ff400ClkSrc::Adat => Q1_CONF_CLK_SRC_ADAT_FLAG,
    }
}

/// The configured source of sampling clock in status; unknown bits stand for ADAT.
#[verifier::opaque]
pub open spec fn conf_clk_src_of(val: u32) -> Ff400ClkSrc {
    if val == Q1_CONF_CLK_SRC_INTERNAL_FLAG {
        Ff400ClkSrc::Internal
    } else if val == Q1_CONF_CLK_SRC_SPDIF_FLAG {
        Ff400ClkSrc::Spdif
    } else if val == Q1_CONF_CLK_SRC_WORD_CLK_FLAG {
        Ff400ClkSrc::WordClock
    } else if val == Q1_CONF_CLK_SRC_LTC_FLAG {
        Ff400ClkSrc::Ltc
    } else {
        Ff400ClkSrc::Adat
    }
}

/// Each value which the device uses is read by `conf_clk_src_of` as its own `Ff400ClkSrc`.
pub proof fn lemma_conf_clk_src_of_table()
    ensures
        conf_clk_src_of(Q1_CONF_CLK_SRC_INTERNAL_FLAG) == Ff400ClkSrc::Internal,
        conf_clk_src_of(Q1_CONF_CLK_SRC_SPDIF_FLAG) == Ff400ClkSrc::Spdif,
        conf_clk_src_of(Q1_CONF_CLK_SRC_WORD_CLK_FLAG) == Ff400ClkSrc::WordClock,
        conf_clk_src_of(Q1_CONF_CLK_SRC_LTC_FLAG) == Ff400ClkSrc::Ltc,
{
    reveal(conf_clk_src_of);
}

fn conf_clk_src_of_exec(val: u32) -> (r: Ff400ClkSrc)
    ensures
        r == conf_clk_src_of(val),
{
    proof {
        reveal(conf_clk_src_of);
    }
    if val == Q1_CONF_CLK_SRC_INTERNAL_FLAG {
        Ff400ClkSrc::Internal
    } else if val == Q1_CONF_CLK_SRC_SPDIF_FLAG {
        Ff400ClkSrc::Spdif
    } else if val == Q1_CONF_CLK_SRC_WORD_CLK_FLAG {
        Ff400ClkSrc::WordClock
    } else if val == Q1_CONF_CLK_SRC_LTC_FLAG {
        Ff400ClkSrc::Ltc
    } else {
        Ff400ClkSrc::Adat
    }
}

/// The flag of configured rate of sampling clock in status.
#[verifier::opaque]
pub open spec fn conf_clk_rate_flag(rate: ClkNominalRate) -> u32 {
    match rate {
        ClkNominalRate::R32000 => Q1_CONF_CLK_RATE_32000_FLAG,
        ClkNominalRate::R48000 => Q1_CONF_CLK_RATE_48000_FLAG,
        ClkNominalRate::R64000 => Q1_CONF_CLK_RATE_64000_FLAG,
        ClkNominalRate::R88200 => Q1_CONF_CLK_RATE_88200_FLAG,
        ClkNominalRate::R96000 => Q1_CONF_CLK_RATE_96000_FLAG,
        ClkNominalRate::R128000 => Q1_CONF_CLK_RATE_128000_FLAG,
        ClkNominalRate::R176400 => Q1_CONF_CLK_RATE_176400_FLAG,
        ClkNominalRate::R192000 => Q1_CONF_CLK_RATE_192000_FLAG,
        ClkNominalRate::R44100 => Q1_CONF_CLK_RATE_44100_FLAG,
    }
}

fn conf_clk_rate_flag_exec(rate: ClkNominalRate) -> (r: u32)
    ensures
        r == conf_clk_rate_flag(rate),
{
    proof {
        reveal(conf_clk_rate_flag);
    }
    match rate {
        ClkNominalRate::R32000 => Q1_CONF_CLK_RATE_32000_FLAG,
        ClkNominalRate::R48000 => Q1_CONF_CLK_RATE_48000_FLAG,
        ClkNominalRate::R64000 => Q1_CONF_CLK_RATE_64000_FLAG,
        ClkNominalRate::R88200 => Q1_CONF_CLK_RATE_88200_FLAG,
        ClkNominalRate::R96000 => Q1_CONF_CLK_RATE_96000_FLAG,
        ClkNominalRate::R128000 => Q1_CONF_CLK_RATE_128000_FLAG,
        ClkNominalRate::R176400 => Q1_CONF_CLK_RATE_176400_FLAG,
        ClkNominalRate::R192000 => Q1_CONF_CLK_RATE_192000_FLAG,
        ClkNominalRate::R44100 => Q1_CONF_CLK_RATE_44100_FLAG,
    }
}

/// Each configured rate of sampling clock is marked in status by the flag for its frequency:
/// 0x00 for 44.1 kHz, 0x02 for 32 kHz, 0x06 for 48 kHz, 0x0a for 64 kHz, 0x08 for 88.2 kHz,
/// 0x0e for 96 kHz, 0x12 for 128 kHz, 0x10 for 176.4 kHz and 0x16 for 192 kHz; each flag reads
/// back as its rate.
pub proof fn lemma_conf_clk_rate_flags()
    ensures
        conf_clk_rate_flag(ClkNominalRate::R44100) == 0x00u32,
        conf_clk_rate_flag(ClkNominalRate::R32000) == 0x02u32,
        conf_clk_rate_flag(ClkNominalRate::R48000) == 0x06u32,
        conf_clk_rate_flag(ClkNominalRate::R64000) == 0x0au32,
        conf_clk_rate_flag(ClkNominalRate::R88200) == 0x08u32,
        conf_clk_rate_flag(ClkNominalRate::R96000) == 0x0eu32,
        conf_clk_rate_flag(ClkNominalRate::R128000) == 0x12u32,
        conf_clk_rate_flag(ClkNominalRate::R176400) == 0x10u32,
        conf_clk_rate_flag(ClkNominalRate::R192000) == 0x16u32,
        conf_clk_rate_of(0x00) == ClkNominalRate::R44100,
        conf_clk_rate_of(0x02) == ClkNominalRate::R32000,
        conf_clk_rate_of(0x06) == ClkNominalRate::R48000,
        conf_clk_rate_of(0x0a) == ClkNominalRate::R64000,
        conf_clk_rate_of(0x08) == ClkNominalRate::R88200,
        conf_clk_rate_of(0x0e) == ClkNominalRate::R96000,
        conf_clk_rate_of(0x12) == ClkNominalRate::R128000,
        conf_clk_rate_of(0x10) == ClkNominalRate::R176400,
        conf_clk_rate_of(0x16) == ClkNominalRate::R192000,
{
    reveal(conf_clk_rate_flag);
    reveal(conf_clk_rate_of);
}

/// The configured rate of sampling clock in status; unknown bits stand for 44.1 kHz.
#[verifier::opaque]
pub open spec fn conf_clk_rate_of(val: u32) -> ClkNominalRate {
    if val == Q1_CONF_CLK_RATE_32000_FLAG {
        ClkNominalRate::R32000
    } else if val == Q1_CONF_CLK_RATE_48000_FLAG {
        ClkNominalRate::R48000
    } else if val == Q1_CONF_CLK_RATE_64000_FLAG {
        ClkNominalRate::R64000
    } else if val == Q1_CONF_CLK_RATE_88200_FLAG {
        ClkNominalRate::R88200
    } else if val == Q1_CONF_CLK_RATE_96000_FLAG {
        ClkNominalRate::R96000
    } else if val == Q1_CONF_CLK_RATE_128000_FLAG {
        ClkNominalRate::R128000
    } else if val == Q1_CONF_CLK_RATE_176400_FLAG {
        ClkNominalRate::R176400
    } else if val == Q1_CONF_CLK_RATE_192000_FLAG {
        ClkNominalRate::R192000
    } else {
        ClkNominalRate::R44100
    }
}

fn conf_clk_rate_of_exec(val: u32) -> (r: ClkNominalRate)
    ensures
        r == conf_clk_rate_of(val),
{
    proof {
        reveal(conf_clk_rate_of);
    }
    if val == Q1_CONF_CLK_RATE_32000_FLAG {
        ClkNominalRate::R32000
    } else if val == Q1_CONF_CLK_RATE_48000_FLAG {
        ClkNominalRate::R48000
    } else if val == Q1_CONF_CLK_RATE_64000_FLAG {
        ClkNominalRate::R64000
    } else if val == Q1_CONF_CLK_RATE_88200_FLAG {
        ClkNominalRate::R88200
    } else if val == Q1_CONF_CLK_RATE_96000_FLAG {
        ClkNominalRate::R96000
    } else if val == Q1_CONF_CLK_RATE_128000_FLAG {
        ClkNominalRate::R128000
    } else if val == Q1_CONF_CLK_RATE_176400_FLAG {
        ClkNominalRate::R176400
    } else if val == Q1_CONF_CLK_RATE_192000_FLAG {
        ClkNominalRate::R192000
    } else {
        ClkNominalRate::R44100
    }
}

/// Status of clock locking.
#[derive(Debug, Copy, Clone, PartialEq, Eq, Structural)]
pub struct Ff400ClkLockStatus {
    pub adat: bool,
    pub spdif: bool,
    pub word_clock: bool,
}

impl Default for Ff400ClkLockStatus {
    fn default() -> (r: Self)
        ensures
            r == (Ff400ClkLockStatus { adat: false, spdif: false, word_clock: false }),
    {
        Ff400ClkLockStatus { adat: false, spdif: false, word_clock: false }
    }
}

impl Ff400ClkLockStatus {
    /// The number of quadlets which the status takes.
    pub const QUADLET_COUNT: usize = 1;
}

/// The quadlet after serializing the status into it.
pub open spec fn lock_status_quad(q: u32, s: Ff400ClkLockStatus) -> u32 {
    let q = put_flag(q, Q0_LOCK_ADAT_MASK, s.adat);
    let q = put_flag(q, Q0_LOCK_SPDIF_MASK, s.spdif);
    put_flag(q, Q0_LOCK_WORD_CLOCK_MASK, s.word_clock)
}

/// The fields are read back from the bits of the quadlet.
pub proof fn lemma_lock_status_roundtrip_facts(q: u32, s: Ff400ClkLockStatus)
    ensures
        has_flag(lock_status_quad(q, s), Q0_LOCK_ADAT_MASK) == (s.adat),
        has_flag(lock_status_quad(q, s), Q0_LOCK_SPDIF_MASK) == (s.spdif),
        has_flag(lock_status_quad(q, s), Q0_LOCK_WORD_CLOCK_MASK) == (s.word_clock),
{
    lemma_flag_bits(s.adat, Q0_LOCK_ADAT_MASK);
    lemma_flag_bits(s.spdif, Q0_LOCK_SPDIF_MASK);
    lemma_flag_bits(s.word_clock, Q0_LOCK_WORD_CLOCK_MASK);
    lemma_ff400_bits(q, flag_bits(s.adat, Q0_LOCK_ADAT_MASK), flag_bits(s.spdif, Q0_LOCK_SPDIF_MASK), flag_bits(s.word_clock, Q0_LOCK_WORD_CLOCK_MASK), 0, 0, 0, 0, 0, 0, 0, 0, 0, 0, 0, 0, 0, 0, 0, 0, 0, 0, 0, 0, 0, 0, 0, 0, 0, 0, 0, 0, 0, 0, 0, 0, 0, 0, 0, 0, 0, 0, 0, 0, 0, 0, 0, 0, 0, 0, 0, 0, 0, 0, 0, 0, 0, 0, 0, 0, 0, 0, 0, 0, 0, 0, 0, 0, 0, 0, 0);
}

/// The status read from the quadlet.
pub open spec fn lock_status_of(q: u32) -> Ff400ClkLockStatus {
    Ff400ClkLockStatus { adat: has_flag(q, Q0_LOCK_ADAT_MASK), spdif: has_flag(q, Q0_LOCK_SPDIF_MASK), word_clock: has_flag(q, Q0_LOCK_WORD_CLOCK_MASK) }
}

/// Serialize the status into the quadlets.
pub fn serialize_lock_status(status: &Ff400ClkLockStatus, quads: &mut [u32])
    requires
        old(quads)@.len() >= Ff400ClkLockStatus::QUADLET_COUNT,
    ensures
        final(quads)@ == old(quads)@.update(0, lock_status_quad(old(quads)@[0], *status)),
{
    quads[0] = set_flag(quads[0], Q0_LOCK_ADAT_MASK, status.adat);
    quads[0] = set_flag(quads[0], Q0_LOCK_SPDIF_MASK, status.spdif);
    quads[0] = set_flag(quads[0], Q0_LOCK_WORD_CLOCK_MASK, status.word_clock);
}

/// Deserialize the status from the quadlets.
pub fn deserialize_lock_status(status: &mut Ff400ClkLockStatus, quads: &[u32])
    requires
        quads@.len() >= Ff400ClkLockStatus::QUADLET_COUNT,
    ensures
        *final(status) == lock_status_of(quads@[0]),
{
    status.adat = check_flag(quads[0], Q0_LOCK_ADAT_MASK);
    status.spdif = check_flag(quads[0], Q0_LOCK_SPDIF_MASK);
    status.word_clock = check_flag(quads[0], Q0_LOCK_WORD_CLOCK_MASK);
}

/// Deserializing what was serialized gives the status back.
pub proof fn lemma_lock_status_roundtrip(q: u32, s: Ff400ClkLockStatus)
    ensures
        lock_status_of(lock_status_quad(q, s)) == s,
{
    lemma_lock_status_roundtrip_facts(q, s);
}

/// Status of clock synchronization.
#[derive(Debug, Copy, Clone, PartialEq, Eq, Structural)]
pub struct Ff400ClkSyncStatus {
    pub adat: bool,
    pub spdif: bool,
    pub word_clock: bool,
}

impl Default for Ff400ClkSyncStatus {
    fn default() -> (r: Self)
        ensures
            r == (Ff400ClkSyncStatus { adat: false, spdif: false, word_clock: false }),
    {
        Ff400ClkSyncStatus { adat: false, spdif: false, word_clock: false }
    }
}

impl Ff400ClkSyncStatus {
    /// The number of quadlets which the status takes.
    pub const QUADLET_COUNT: usize = 1;
}

/// The quadlet after serializing the status into it.
pub open spec fn sync_status_quad(q: u32, s: Ff400ClkSyncStatus) -> u32 {
    let q = put_flag(q, Q0_SYNC_ADAT_MASK, s.adat);
    let q = put_flag(q, Q0_SYNC_SPDIF_MASK, s.spdif);
    put_flag(q, Q0_SYNC_WORD_CLOCK_MASK, s.word_clock)
}

/// The fields are read back from the bits of the quadlet.
pub proof fn lemma_sync_status_roundtrip_facts(q: u32, s: Ff400ClkSyncStatus)
    ensures
        has_flag(sync_status_quad(q, s), Q0_SYNC_ADAT_MASK) == (s.adat),
        has_flag(sync_status_quad(q, s), Q0_SYNC_SPDIF_MASK) == (s.spdif),
        has_flag(sync_status_quad(q, s), Q0_SYNC_WORD_CLOCK_MASK) == (s.word_clock),
{
    lemma_flag_bits(s.adat, Q0_SYNC_ADAT_MASK);
    lemma_flag_bits(s.spdif, Q0_SYNC_SPDIF_MASK);
    lemma_flag_bits(s.word_clock, Q0_SYNC_WORD_CLOCK_MASK);
    lemma_ff400_bits(0, 0, 0, 0, q, flag_bits(s.adat, Q0_SYNC_ADAT_MASK), flag_bits(s.spdif, Q0_SYNC_SPDIF_MASK), flag_bits(s.word_clock, Q0_SYNC_WORD_CLOCK_MASK), 0, 0, 0, 0, 0, 0, 0, 0, 0, 0, 0, 0, 0, 0, 0, 0, 0, 0, 0, 0, 0, 0, 0, 0, 0, 0, 0, 0, 0, 0, 0, 0, 0, 0, 0, 0, 0, 0, 0, 0, 0, 0, 0, 0, 0, 0, 0, 0, 0, 0, 0, 0, 0, 0, 0, 0, 0, 0, 0, 0, 0, 0, 0);
}

/// The status read from the quadlet.
pub open spec fn sync_status_of(q: u32) -> Ff400ClkSyncStatus {
    Ff400ClkSyncStatus { adat: has_flag(q, Q0_SYNC_ADAT_MASK), spdif: has_flag(q, Q0_SYNC_SPDIF_MASK), word_clock: has_flag(q, Q0_SYNC_WORD_CLOCK_MASK) }
}

/// Serialize the status into the quadlets.
pub fn serialize_sync_status(status: &Ff400ClkSyncStatus, quads: &mut [u32])
    requires
        old(quads)@.len() >= Ff400ClkSyncStatus::QUADLET_COUNT,
    ensures
        final(quads)@ == old(quads)@.update(0, sync_status_quad(old(quads)@[0], *status)),
{
    quads[0] = set_flag(quads[0], Q0_SYNC_ADAT_MASK, status.adat);
    quads[0] = set_flag(quads[0], Q0_SYNC_SPDIF_MASK, status.spdif);
    quads[0] = set_flag(quads[0], Q0_SYNC_WORD_CLOCK_MASK, status.word_clock);
}

/// Deserialize the status from the quadlets.
pub fn deserialize_sync_status(status: &mut Ff400ClkSyncStatus, quads: &[u32])
    requires
        quads@.len() >= Ff400ClkSyncStatus::QUADLET_COUNT,
    ensures
        *final(status) == sync_status_of(quads@[0]),
{
    status.adat = check_flag(quads[0], Q0_SYNC_ADAT_MASK);
    status.spdif = check_flag(quads[0], Q0_SYNC_SPDIF_MASK);
    status.word_clock = check_flag(quads[0], Q0_SYNC_WORD_CLOCK_MASK);
}

/// Deserializing what was serialized gives the status back.
pub proof fn lemma_sync_status_roundtrip(q: u32, s: Ff400ClkSyncStatus)
    ensures
        sync_status_of(sync_status_quad(q, s)) == s,
{
    lemma_sync_status_roundtrip_facts(q, s);
}

/// Whether the bits stand for a rate of S/PDIF input or none.
pub open spec fn spdif_rate_flag_valid(val: u32) -> bool {
    val == 0 || val == Q0_SPDIF_RATE_32000_FLAG || val == Q0_SPDIF_RATE_44100_FLAG || val == Q0_SPDIF_RATE_48000_FLAG || val == Q0_SPDIF_RATE_64000_FLAG || val == Q0_SPDIF_RATE_88200_FLAG || val == Q0_SPDIF_RATE_96000_FLAG || val == Q0_SPDIF_RATE_128000_FLAG || val == Q0_SPDIF_RATE_176400_FLAG || val == Q0_SPDIF_RATE_192000_FLAG
}

/// Whether the bits stand for a rate of external clock or none.
pub open spec fn ext_clk_rate_flag_valid(val: u32) -> bool {
    val == 0 || val == Q0_EXT_CLK_RATE_32000_FLAG || val == Q0_EXT_CLK_RATE_44100_FLAG || val == Q0_EXT_CLK_RATE_48000_FLAG || val == Q0_EXT_CLK_RATE_64000_FLAG || val == Q0_EXT_CLK_RATE_88200_FLAG || val == Q0_EXT_CLK_RATE_96000_FLAG || val == Q0_EXT_CLK_RATE_128000_FLAG || val == Q0_EXT_CLK_RATE_176400_FLAG || val == Q0_EXT_CLK_RATE_192000_FLAG
}

/// Whether the bits stand for a configured source of sampling clock.
pub open spec fn conf_clk_src_flag_valid(val: u32) -> bool {
    val == Q1_CONF_CLK_SRC_INTERNAL_FLAG || val == Q1_CONF_CLK_SRC_SPDIF_FLAG || val == Q1_CONF_CLK_SRC_WORD_CLK_FLAG || val == Q1_CONF_CLK_SRC_LTC_FLAG || val == Q1_CONF_CLK_SRC_ADAT_FLAG
}

/// Whether the bits stand for a configured rate of sampling clock.
pub open spec fn conf_clk_rate_flag_valid(val: u32) -> bool {
    val == Q1_CONF_CLK_RATE_32000_FLAG || val == Q1_CONF_CLK_RATE_48000_FLAG || val == Q1_CONF_CLK_RATE_64000_FLAG || val == Q1_CONF_CLK_RATE_88200_FLAG || val == Q1_CONF_CLK_RATE_96000_FLAG || val == Q1_CONF_CLK_RATE_128000_FLAG || val == Q1_CONF_CLK_RATE_176400_FLAG || val == Q1_CONF_CLK_RATE_192000_FLAG || val == Q1_CONF_CLK_RATE_44100_FLAG
}

/// Each value is read back from its flag.
pub proof fn lemma_conf_clk_src_code(v: Ff400ClkSrc)
    ensures
        conf_clk_src_flag_valid(conf_clk_src_flag(v)),
        conf_clk_src_of(conf_clk_src_flag(v)) == v,
{
    reveal(conf_clk_src_flag);
    reveal(conf_clk_src_of);
}

/// Each value is read back from its flag.
pub proof fn lemma_conf_clk_rate_code(v: ClkNominalRate)
    ensures
        conf_clk_rate_flag_valid(conf_clk_rate_flag(v)),
        conf_clk_rate_of(conf_clk_rate_flag(v)) == v,
{
    reveal(conf_clk_rate_flag);
    reveal(conf_clk_rate_of);
}

/// Status of clock synchronization.
#[derive(Debug, Copy, Clone, PartialEq, Eq, Structural)]
pub struct Ff400Status {
    /// For S/PDIF input.
    pub spdif_in: SpdifInput,
    /// For S/PDIF output.
    pub spdif_out: FormerSpdifOutput,
    /// The type of signal to optical output interface.
    pub opt_out_signal: OpticalOutputSignal,
    /// Whether to fix speed to single even if at double/quadruple rate.
    pub word_out_single: bool,
    /// For status of synchronization to external clocks.
    pub sync: Ff400ClkSyncStatus,
    /// For status of locking to external clocks.
    pub lock: Ff400ClkLockStatus,
    pub spdif_rate: Option<ClkNominalRate>,
    pub active_clk_src: Ff400ClkSrc,
    pub external_clk_rate: Option<ClkNominalRate>,
    pub configured_clk_src: Ff400ClkSrc,
    pub configured_clk_rate: ClkNominalRate,
}

impl Default for Ff400Status {
    fn default() -> (r: Self)
        ensures
            r == (Ff400Status {
                spdif_in: SpdifInput { iface: SpdifIface::Coaxial, use_preemble: false },
                spdif_out: FormerSpdifOutput {
                    format: SpdifFormat::Consumer,
                    emphasis: false,
                    non_audio: false,
                },
                opt_out_signal: OpticalOutputSignal::Adat,
                word_out_single: false,
                sync: Ff400ClkSyncStatus { adat: false, spdif: false, word_clock: false },
                lock: Ff400ClkLockStatus { adat: false, spdif: false, word_clock: false },
                spdif_rate: None,
                active_clk_src: Ff400ClkSrc::Internal,
                external_clk_rate: None,
                configured_clk_src: Ff400ClkSrc::Internal,
                configured_clk_rate: ClkNominalRate::R44100,
            }),
    {
        Ff400Status {
            spdif_in: SpdifInput::default(),
            spdif_out: FormerSpdifOutput::default(),
            opt_out_signal: OpticalOutputSignal::default(),
            word_out_single: false,
            sync: Ff400ClkSyncStatus::default(),
            lock: Ff400ClkLockStatus::default(),
            spdif_rate: None,
            active_clk_src: Ff400ClkSrc::default(),
            external_clk_rate: None,
            configured_clk_src: Ff400ClkSrc::default(),
            configured_clk_rate: ClkNominalRate::default(),
        }
    }
}

impl Ff400Status {
    /// The number of quadlets which the status takes.
    pub const QUADLET_COUNT: usize = 2;
}

/// The flag of an optional rate of S/PDIF input.
pub open spec fn opt_spdif_rate_flag(rate: Option<ClkNominalRate>) -> u32 {
    match rate {
        Some(r) => spdif_rate_flag(r),
        None => 0,
    }
}

/// The flag of an optional rate of external clock.
pub open spec fn opt_ext_clk_rate_flag(rate: Option<ClkNominalRate>) -> u32 {
    match rate {
        Some(r) => ext_clk_rate_flag(r),
        None => 0,
    }
}

/// An optional rate of S/PDIF input is read back from its flag.
pub proof fn lemma_opt_spdif_rate_code(rate: Option<ClkNominalRate>)
    ensures
        spdif_rate_flag_valid(opt_spdif_rate_flag(rate)),
        spdif_rate_of(opt_spdif_rate_flag(rate)) == rate,
{
    reveal(spdif_rate_flag);
    reveal(spdif_rate_of);
}

/// An optional rate of external clock is read back from its flag.
pub proof fn lemma_opt_ext_clk_rate_code(rate: Option<ClkNominalRate>)
    ensures
        ext_clk_rate_flag_valid(opt_ext_clk_rate_flag(rate)),
        ext_clk_rate_of(opt_ext_clk_rate_flag(rate)) == rate,
{
    reveal(ext_clk_rate_flag);
    reveal(ext_clk_rate_of);
}


/// The first quadlet of serialized status.
pub open spec fn status_quad0(s: Ff400Status) -> u32 {
    let q = put_flag(0, Q0_LOCK_ADAT_MASK, s.lock.adat);
    let q = put_flag(q, Q0_LOCK_SPDIF_MASK, s.lock.spdif);
    let q = put_flag(q, Q0_LOCK_WORD_CLOCK_MASK, s.lock.word_clock);
    let q = put_flag(q, Q0_SYNC_ADAT_MASK, s.sync.adat);
    let q = put_flag(q, Q0_SYNC_SPDIF_MASK, s.sync.spdif);
    let q = put_flag(q, Q0_SYNC_WORD_CLOCK_MASK, s.sync.word_clock);
    let q = put_field(q, Q0_SPDIF_RATE_MASK, opt_spdif_rate_flag(s.spdif_rate));
    let q = put_field(q, Q0_ACTIVE_CLK_SRC_MASK, active_clk_src_flag(s.active_clk_src));
    put_field(q, Q0_EXT_CLK_RATE_MASK, opt_ext_clk_rate_flag(s.external_clk_rate))
}

/// The fields are read back from the bits of the quadlet.
pub proof fn lemma_status_quad0_facts(s: Ff400Status)
    ensures
        has_flag(status_quad0(s), Q0_LOCK_ADAT_MASK) == (s.lock.adat),
        has_flag(status_quad0(s), Q0_LOCK_SPDIF_MASK) == (s.lock.spdif),
        has_flag(status_quad0(s), Q0_LOCK_WORD_CLOCK_MASK) == (s.lock.word_clock),
        has_flag(status_quad0(s), Q0_SYNC_ADAT_MASK) == (s.sync.adat),
        has_flag(status_quad0(s), Q0_SYNC_SPDIF_MASK) == (s.sync.spdif),
        has_flag(status_quad0(s), Q0_SYNC_WORD_CLOCK_MASK) == (s.sync.word_clock),
        status_quad0(s) & Q0_SPDIF_RATE_MASK == opt_spdif_rate_flag(s.spdif_rate),
        status_quad0(s) & Q0_ACTIVE_CLK_SRC_MASK == active_clk_src_flag(s.active_clk_src),
        status_quad0(s) & Q0_EXT_CLK_RATE_MASK == opt_ext_clk_rate_flag(s.external_clk_rate),
{
    lemma_flag_bits(s.lock.adat, Q0_LOCK_ADAT_MASK);
    lemma_flag_bits(s.lock.spdif, Q0_LOCK_SPDIF_MASK);
    lemma_flag_bits(s.lock.word_clock, Q0_LOCK_WORD_CLOCK_MASK);
    lemma_flag_bits(s.sync.adat, Q0_SYNC_ADAT_MASK);
    lemma_flag_bits(s.sync.spdif, Q0_SYNC_SPDIF_MASK);
    lemma_flag_bits(s.sync.word_clock, Q0_SYNC_WORD_CLOCK_MASK);
    lemma_opt_spdif_rate_code(s.spdif_rate);
    lemma_active_clk_src_code(s.active_clk_src);
    lemma_opt_ext_clk_rate_code(s.external_clk_rate);
    lemma_ff400_bits(0, 0, 0, 0, 0, 0, 0, 0, flag_bits(s.lock.adat, Q0_LOCK_ADAT_MASK), flag_bits(s.lock.spdif, Q0_LOCK_SPDIF_MASK), flag_bits(s.lock.word_clock, Q0_LOCK_WORD_CLOCK_MASK), flag_bits(s.sync.adat, Q0_SYNC_ADAT_MASK), flag_bits(s.sync.spdif, Q0_SYNC_SPDIF_MASK), flag_bits(s.sync.word_clock, Q0_SYNC_WORD_CLOCK_MASK), opt_spdif_rate_flag(s.spdif_rate), active_clk_src_flag(s.active_clk_src), opt_ext_clk_rate_flag(s.external_clk_rate), 0, 0, 0, 0, 0, 0, 0, 0, 0, 0, 0, 0, 0, 0, 0, 0, 0, 0, 0, 0, 0, 0, 0, 0, 0, 0, 0, 0, 0, 0, 0, 0, 0, 0, 0, 0, 0, 0, 0, 0, 0, 0, 0, 0, 0, 0, 0, 0, 0, 0, 0, 0, 0, 0);
}

/// The second quadlet of serialized status.
pub open spec fn status_quad1(s: Ff400Status) -> u32 {
    let q = put_flag(0, Q1_SPDIF_IN_IFACE_MASK, s.spdif_in.iface == SpdifIface::Optical);
    let q = put_flag(q, Q1_SPDIF_OUT_FMT_MASK, s.spdif_out.format == SpdifFormat::Professional);
    let q = put_flag(q, Q1_SPDIF_OUT_EMPHASIS_MASK, s.spdif_out.emphasis);
    let q = put_flag(q, Q1_OPT_OUT_SIGNAL_MASK, s.opt_out_signal == OpticalOutputSignal::Spdif);
    let q = put_flag(q, Q1_WORD_OUT_SINGLE_MASK, s.word_out_single);
    let q = put_field(q, Q1_CONF_CLK_SRC_MASK, conf_clk_src_flag(s.configured_clk_src));
    put_field(q, Q1_CONF_CLK_RATE_MASK, conf_clk_rate_flag(s.configured_clk_rate))
}

/// The fields are read back from the bits of the quadlet.
pub proof fn lemma_status_quad1_facts(s: Ff400Status)
    ensures
        has_flag(status_quad1(s), Q1_SPDIF_IN_IFACE_MASK) == (s.spdif_in.iface == SpdifIface::Optical),
        has_flag(status_quad1(s), Q1_SPDIF_OUT_FMT_MASK) == (s.spdif_out.format == SpdifFormat::Professional),
        has_flag(status_quad1(s), Q1_SPDIF_OUT_EMPHASIS_MASK) == (s.spdif_out.emphasis),
        has_flag(status_quad1(s), Q1_OPT_OUT_SIGNAL_MASK) == (s.opt_out_signal == OpticalOutputSignal::Spdif),
        has_flag(status_quad1(s), Q1_WORD_OUT_SINGLE_MASK) == (s.word_out_single),
        status_quad1(s) & Q1_CONF_CLK_SRC_MASK == conf_clk_src_flag(s.configured_clk_src),
        status_quad1(s) & Q1_CONF_CLK_RATE_MASK == conf_clk_rate_flag(s.configured_clk_rate),
{
    lemma_flag_bits(s.spdif_in.iface == SpdifIface::Optical, Q1_SPDIF_IN_IFACE_MASK);
    lemma_flag_bits(s.spdif_out.format == SpdifFormat::Professional, Q1_SPDIF_OUT_FMT_MASK);
    lemma_flag_bits(s.spdif_out.emphasis, Q1_SPDIF_OUT_EMPHASIS_MASK);
    lemma_flag_bits(s.opt_out_signal == OpticalOutputSignal::Spdif, Q1_OPT_OUT_SIGNAL_MASK);
    lemma_flag_bits(s.word_out_single, Q1_WORD_OUT_SINGLE_MASK);
    lemma_conf_clk_src_code(s.configured_clk_src);
    lemma_conf_clk_rate_code(s.configured_clk_rate);
    lemma_ff400_bits(0, 0, 0, 0, 0, 0, 0, 0, 0, 0, 0, 0, 0, 0, 0, 0, 0, flag_bits(s.spdif_in.iface == SpdifIface::Optical, Q1_SPDIF_IN_IFACE_MASK), flag_bits(s.spdif_out.format == SpdifFormat::Professional, Q1_SPDIF_OUT_FMT_MASK), flag_bits(s.spdif_out.emphasis, Q1_SPDIF_OUT_EMPHASIS_MASK), flag_bits(s.opt_out_signal == OpticalOutputSignal::Spdif, Q1_OPT_OUT_SIGNAL_MASK), flag_bits(s.word_out_single, Q1_WORD_OUT_SINGLE_MASK), conf_clk_src_flag(s.configured_clk_src), conf_clk_rate_flag(s.configured_clk_rate), 0, 0, 0, 0, 0, 0, 0, 0, 0, 0, 0, 0, 0, 0, 0, 0, 0, 0, 0, 0, 0, 0, 0, 0, 0, 0, 0, 0, 0, 0, 0, 0, 0, 0, 0, 0, 0, 0, 0, 0, 0, 0, 0, 0, 0, 0, 0);
}

/// The status read from the quadlets; the fields which the registers do not carry are kept.
pub open spec fn status_from_quads(q0: u32, q1: u32, old: Ff400Status) -> Ff400Status {
    Ff400Status {
        spdif_in: SpdifInput {
            iface: if has_flag(q1, Q1_SPDIF_IN_IFACE_MASK) {
                SpdifIface::Optical
            } else {
                SpdifIface::Coaxial
            },
            ..old.spdif_in
        },
        spdif_out: FormerSpdifOutput {
            format: if has_flag(q1, Q1_SPDIF_OUT_FMT_MASK) {
                SpdifFormat::Professional
            } else {
                SpdifFormat::Consumer
            },
            emphasis: has_flag(q1, Q1_SPDIF_OUT_EMPHASIS_MASK),
            ..old.spdif_out
        },
        opt_out_signal: if has_flag(q1, Q1_OPT_OUT_SIGNAL_MASK) {
            OpticalOutputSignal::Spdif
        } else {
            OpticalOutputSignal::Adat
        },
        word_out_single: has_flag(q1, Q1_WORD_OUT_SINGLE_MASK),
        sync: sync_status_of(q0),
        lock: lock_status_of(q0),
        spdif_rate: spdif_rate_of(q0 & Q0_SPDIF_RATE_MASK),
        active_clk_src: active_clk_src_of(q0 & Q0_ACTIVE_CLK_SRC_MASK),
        external_clk_rate: ext_clk_rate_of(q0 & Q0_EXT_CLK_RATE_MASK),
        configured_clk_src: conf_clk_src_of(q1 & Q1_CONF_CLK_SRC_MASK),
        configured_clk_rate: conf_clk_rate_of(q1 & Q1_CONF_CLK_RATE_MASK),
    }
}

/// Whether the raw data can be deserialized into status.
pub open spec fn status_acceptable(raw: Seq<u8>) -> bool {
    &&& raw.len() >= FORMER_STATUS_SIZE
    &&& active_clk_src_valid(le_quad_at(raw, 0) & Q0_ACTIVE_CLK_SRC_MASK)
}

impl RmeFfOffsetParamsSerialize<Ff400Status> for Ff400Protocol {
    open spec fn offsets_of(params: Ff400Status) -> Seq<u8> {
        le_quads_bytes(seq![status_quad0(params), status_quad1(params)])
    }

    #[verifier::rlimit(40)]
    fn serialize_offsets(params: &Ff400Status) -> (r: Vec<u8>)
        ensures
            r@ == le_quads_bytes(seq![status_quad0(*params), status_quad1(*params)]),
    {
        let mut quads = [0u32, 0u32];
        serialize_lock_status(&params.lock, &mut quads);
        serialize_sync_status(&params.sync, &mut quads);
        let flag = match params.spdif_rate {
            Some(rate) => spdif_rate_flag_exec(rate),
            None => 0,
        };
        quads[0] = set_field(quads[0], Q0_SPDIF_RATE_MASK, flag);
        let flag = active_clk_src_flag_exec(params.active_clk_src);
        quads[0] = set_field(quads[0], Q0_ACTIVE_CLK_SRC_MASK, flag);
        let flag = match params.external_clk_rate {
            Some(rate) => ext_clk_rate_flag_exec(rate),
            None => 0,
        };
        quads[0] = set_field(quads[0], Q0_EXT_CLK_RATE_MASK, flag);

        quads[1] = set_flag(
            quads[1],
            Q1_SPDIF_IN_IFACE_MASK,
            params.spdif_in.iface == SpdifIface::Optical,
        );
        quads[1] = set_flag(
            quads[1],
            Q1_SPDIF_OUT_FMT_MASK,
            params.spdif_out.format == SpdifFormat::Professional,
        );
        quads[1] = set_flag(quads[1], Q1_SPDIF_OUT_EMPHASIS_MASK, params.spdif_out.emphasis);
        quads[1] = set_flag(
            quads[1],
            Q1_OPT_OUT_SIGNAL_MASK,
            params.opt_out_signal == OpticalOutputSignal::Spdif,
        );
        quads[1] = set_flag(quads[1], Q1_WORD_OUT_SINGLE_MASK, params.word_out_single);
        let flag = conf_clk_src_flag_exec(params.configured_clk_src);
        quads[1] = set_field(quads[1], Q1_CONF_CLK_SRC_MASK, flag);
        let flag = conf_clk_rate_flag_exec(params.configured_clk_rate);
        quads[1] = set_field(quads[1], Q1_CONF_CLK_RATE_MASK, flag);
        proof {
            assert(quads@ =~= seq![status_quad0(*params), status_quad1(*params)]);
        }
        quads_to_le_bytes(&quads)
    }
}

impl RmeFfOffsetParamsDeserialize<Ff400Status> for Ff400Protocol {
    open spec fn deserialized(params: Ff400Status, raw: Seq<u8>, after: Ff400Status) -> bool {
        after == status_from_quads(
                le_quad_at(raw, 0),
                le_quad_at(raw, 4),
                params,
            )
    }

    open spec fn offsets_acceptable(params: Ff400Status, raw: Seq<u8>) -> bool {
        status_acceptable(raw)
    }

    fn deserialize_offsets(params: &mut Ff400Status, raw: &[u8])
        ensures
            *final(params) == status_from_quads(
                le_quad_at(raw@, 0),
                le_quad_at(raw@, 4),
                *old(params),
            ),
    {
        let quads = [read_le_quad(raw, 0), read_le_quad(raw, 4)];
        deserialize_lock_status(&mut params.lock, &quads);
        deserialize_sync_status(&mut params.sync, &quads);
        params.spdif_rate = spdif_rate_of_exec(quads[0] & Q0_SPDIF_RATE_MASK);
        params.active_clk_src = active_clk_src_of_exec(quads[0] & Q0_ACTIVE_CLK_SRC_MASK);
        params.external_clk_rate = ext_clk_rate_of_exec(quads[0] & Q0_EXT_CLK_RATE_MASK);
        params.spdif_in.iface = if check_flag(quads[1], Q1_SPDIF_IN_IFACE_MASK) {
            SpdifIface::Optical
        } else {
            SpdifIface::Coaxial
        };
        params.spdif_out.format = if check_flag(quads[1], Q1_SPDIF_OUT_FMT_MASK) {
            SpdifFormat::Professional
        } else {
            SpdifFormat::Consumer
        };
        params.spdif_out.emphasis = check_flag(quads[1], Q1_SPDIF_OUT_EMPHASIS_MASK);
        params.opt_out_signal = if check_flag(quads[1], Q1_OPT_OUT_SIGNAL_MASK) {
            OpticalOutputSignal::Spdif
        } else {
            OpticalOutputSignal::Adat
        };
        params.word_out_single = check_flag(quads[1], Q1_WORD_OUT_SINGLE_MASK);
        params.configured_clk_src = conf_clk_src_of_exec(quads[1] & Q1_CONF_CLK_SRC_MASK);
        params.configured_clk_rate = conf_clk_rate_of_exec(quads[1] & Q1_CONF_CLK_RATE_MASK);
    }
}

/// The flags of the status are read back from the serialized quadlets.
proof fn lemma_status_quads(s: Ff400Status)
    ensures
        lock_status_of(status_quad0(s)) == s.lock,
        sync_status_of(status_quad0(s)) == s.sync,
        spdif_rate_of(status_quad0(s) & Q0_SPDIF_RATE_MASK) == s.spdif_rate,
        active_clk_src_valid(status_quad0(s) & Q0_ACTIVE_CLK_SRC_MASK),
        active_clk_src_of(status_quad0(s) & Q0_ACTIVE_CLK_SRC_MASK) == s.active_clk_src,
        ext_clk_rate_of(status_quad0(s) & Q0_EXT_CLK_RATE_MASK) == s.external_clk_rate,
        has_flag(status_quad1(s), Q1_SPDIF_IN_IFACE_MASK) == (s.spdif_in.iface
            == SpdifIface::Optical),
        has_flag(status_quad1(s), Q1_SPDIF_OUT_FMT_MASK) == (s.spdif_out.format
            == SpdifFormat::Professional),
        has_flag(status_quad1(s), Q1_SPDIF_OUT_EMPHASIS_MASK) == s.spdif_out.emphasis,
        has_flag(status_quad1(s), Q1_OPT_OUT_SIGNAL_MASK) == (s.opt_out_signal
            == OpticalOutputSignal::Spdif),
        has_flag(status_quad1(s), Q1_WORD_OUT_SINGLE_MASK) == s.word_out_single,
        conf_clk_src_of(status_quad1(s) & Q1_CONF_CLK_SRC_MASK) == s.configured_clk_src,
        conf_clk_rate_of(status_quad1(s) & Q1_CONF_CLK_RATE_MASK) == s.configured_clk_rate,
{
    lemma_status_quad0_facts(s);
    lemma_status_quad1_facts(s);
    lemma_opt_spdif_rate_code(s.spdif_rate);
    lemma_active_clk_src_code(s.active_clk_src);
    lemma_opt_ext_clk_rate_code(s.external_clk_rate);
    lemma_conf_clk_src_code(s.configured_clk_src);
    lemma_conf_clk_rate_code(s.configured_clk_rate);
    assert(lock_status_of(status_quad0(s)) == s.lock);
    assert(sync_status_of(status_quad0(s)) == s.sync);
}

/// Deserializing what was serialized gives the status back, except for the fields which the
/// status registers do not carry (whether to use preemble for S/PDIF input, and whether to transfer
/// non-audio bit for S/PDIF output): those keep their former values.
pub proof fn lemma_status_roundtrip(s: Ff400Status, old: Ff400Status)
    requires
        old.spdif_in.use_preemble == s.spdif_in.use_preemble,
        old.spdif_out.non_audio == s.spdif_out.non_audio,
    ensures
        status_acceptable(le_quads_bytes(seq![status_quad0(s), status_quad1(s)])),
        status_from_quads(
            le_quad_at(le_quads_bytes(seq![status_quad0(s), status_quad1(s)]), 0),
            le_quad_at(le_quads_bytes(seq![status_quad0(s), status_quad1(s)]), 4),
            old,
        ) == s,
{
    let qs = seq![status_quad0(s), status_quad1(s)];
    lemma_le_quads_bytes(qs, 0);
    lemma_le_quads_bytes(qs, 1);
    lemma_status_quads(s);
    let d = status_from_quads(status_quad0(s), status_quad1(s), old);
    assert(d.lock == s.lock);
    assert(d.sync == s.sync);
    assert(d.spdif_in == s.spdif_in);
    assert(d.spdif_out == s.spdif_out);
}


// NOTE: for first quadlet of configuration quadlets.
pub const Q0_HP_OUT_LEVEL_MASK: u32 = 0x00060000;
pub const Q0_HP_OUT_LEVEL_HIGH_FLAG: u32 = 0x00040000;
pub const Q0_HP_OUT_LEVEL_CON_FLAG: u32 = 0x00020000;
pub const Q0_HP_OUT_LEVEL_PRO_FLAG: u32 = 0x00000000;
pub const Q0_LINE_OUT_LEVEL_MASK: u32 = 0x00001c00;
pub const Q0_LINE_OUT_LEVEL_CON_FLAG: u32 = 0x00001000;
pub const Q0_LINE_OUT_LEVEL_PRO_FLAG: u32 = 0x00000800;
pub const Q0_LINE_OUT_LEVEL_HIGH_FLAG: u32 = 0x00000400;
pub const Q0_INPUT_2_INST_MASK: u32 = 0x00000200;
pub const Q0_INPUT_2_PAD_MASK: u32 = 0x00000100;
pub const Q0_INPUT_1_POWERING_MASK: u32 = 0x00000080;
pub const Q0_LINE_IN_LEVEL_MASK: u32 = 0x00000038;
pub const Q0_LINE_IN_LEVEL_CON_FLAG: u32 = 0x00000020;
pub const Q0_LINE_IN_LEVEL_LOW_FLAG: u32 = 0x00000010;
pub const Q0_LINE_IN_LEVEL_PRO_FLAG: u32 = 0x00000008;
pub const Q0_INPUT_3_INST_MASK: u32 = 0x00000004;
pub const Q0_INPUT_3_PAD_MASK: u32 = 0x00000002;
pub const Q0_INPUT_0_POWERING_MASK: u32 = 0x00000001;

// NOTE: for second quadlet of configuration quadlets.
pub const Q1_LINE_OUT_LEVEL_MASK: u32 = 0x00000018;
pub const Q1_LINE_OUT_LEVEL_PRO_FLAG: u32 = 0x00000018;
pub const Q1_LINE_OUT_LEVEL_HIGH_FLAG: u32 = 0x00000010;
pub const Q1_LINE_OUT_LEVEL_CON_FLAG: u32 = 0x00000008;
pub const Q1_LINE_IN_LEVEL_MASK: u32 = 0x00000003;
pub const Q1_LINE_IN_LEVEL_CON_FLAG: u32 = 0x00000003;
pub const Q1_LINE_IN_LEVEL_PRO_FLAG: u32 = 0x00000002;
pub const Q1_LINE_IN_LEVEL_LOW_FLAG: u32 = 0x00000000;

// NOTE: for third quadlet of configuration quadlets.
pub const Q2_CONTINUE_AT_ERRORS: u32 = 0x80000000;
pub const Q2_SPDIF_IN_USE_PREEMBLE: u32 = 0x40000000;
pub const Q2_MIDI_TX_LOW_OFFSET_MASK: u32 = 0x3c000000;
pub const Q2_MIDI_TX_LOW_OFFSET_0180_FLAG: u32 = 0x20000000;
pub const Q2_MIDI_TX_LOW_OFFSET_0100_FLAG: u32 = 0x10000000;
pub const Q2_MIDI_TX_LOW_OFFSET_0080_FLAG: u32 = 0x08000000;
pub const Q2_MIDI_TX_LOW_OFFSET_0000_FLAG: u32 = 0x04000000;
pub const Q2_MIDI_TX_SUPPRESS_MASK: u32 = 0x03000000;
pub const Q2_WORD_OUT_SINGLE_SPEED_MASK: u32 = 0x00002000;
pub const Q2_CLK_SRC_MASK: u32 = 0x00001c01;
pub const Q2_CLK_SRC_LTC_FLAG: u32 = 0x00001400;
pub const Q2_CLK_SRC_WORD_CLK_FLAG: u32 = 0x00001000;
pub const Q2_CLK_SRC_SPDIF_FLAG: u32 = 0x00000c00;
pub const Q2_CLK_SRC_INTERNAL_FLAG: u32 = 0x00000001;
pub const Q2_CLK_SRC_ADAT_FLAG: u32 = 0x00000000;
pub const Q2_SPDIF_IN_IFACE_OPT_MASK: u32 = 0x00000200;
pub const Q2_OPT_OUT_SIGNAL_MASK: u32 = 0x00000100;
pub const Q2_SPDIF_OUT_NON_AUDIO_MASK: u32 = 0x00000080;
pub const Q2_SPDIF_OUT_EMPHASIS_MASK: u32 = 0x00000040;
pub const Q2_SPDIF_OUT_FMT_PRO_MASK: u32 = 0x00000020;
pub const Q2_CLK_AVAIL_RATE_QUADRUPLE_MASK: u32 = 0x00000010;
pub const Q2_CLK_AVAIL_RATE_DOUBLE_MASK: u32 = 0x00000008;
pub const Q2_CLK_AVAIL_RATE_BASE_48000_MASK: u32 = 0x00000004;
pub const Q2_CLK_AVAIL_RATE_BASE_44100_MASK: u32 = 0x00000002;

/// The flag of primary source of sampling clock in configuration.
#[verifier::opaque]
pub open spec fn clk_src_flag(src: Ff400ClkSrc) -> u32 {
    match src {
        Ff400ClkSrc::Internal => Q2_CLK_SRC_INTERNAL_FLAG,
        Ff400ClkSrc::Ltc => Q2_CLK_SRC_LTC_FLAG,
        Ff400ClkSrc::WordClock => Q2_CLK_SRC_WORD_CLK_FLAG,
        Ff400ClkSrc::Adat => Q2_CLK_SRC_ADAT_FLAG,
        Ff400ClkSrc::Spdif => Q2_CLK_SRC_SPDIF_FLAG,
    }
}

/// Each value of `Ff400ClkSrc` has its own value in `clk_src_flag`, as the device knows it.
pub proof fn lemma_clk_src_flag_table()
    ensures
        clk_src_flag(Ff400ClkSrc::Internal) == Q2_CLK_SRC_INTERNAL_FLAG,
        clk_src_flag(Ff400ClkSrc::Ltc) == Q2_CLK_SRC_LTC_FLAG,
        clk_src_flag(Ff400ClkSrc::WordClock) == Q2_CLK_SRC_WORD_CLK_FLAG,
        clk_src_flag(Ff400ClkSrc::Adat) == Q2_CLK_SRC_ADAT_FLAG,
        clk_src_flag(Ff400ClkSrc::Spdif) == Q2_CLK_SRC_SPDIF_FLAG,
{
    reveal(clk_src_flag);
}

fn clk_src_flag_exec(src: Ff400ClkSrc) -> (r: u32)
    ensures
        r == clk_src_flag(src),
{
    proof {
        reveal(clk_src_flag);
    }
    match src {
        Ff400ClkSrc::Internal => Q2_CLK_SRC_INTERNAL_FLAG,
        Ff400ClkSrc::Ltc => Q2_CLK_SRC_LTC_FLAG,
        Ff400ClkSrc::WordClock => Q2_CLK_SRC_WORD_CLK_FLAG,
        Ff400ClkSrc::Adat => Q2_CLK_SRC_ADAT_FLAG,
        Ff400ClkSrc::Spdif => Q2_CLK_SRC_SPDIF_FLAG,
    }
}

/// The primary source of sampling clock in configuration; unknown bits stand for ADAT.
#[verifier::opaque]
pub open spec fn clk_src_of(val: u32) -> Ff400ClkSrc {
    if val == Q2_CLK_SRC_INTERNAL_FLAG {
        Ff400ClkSrc::Internal
    } else if val == Q2_CLK_SRC_LTC_FLAG {
        Ff400ClkSrc::Ltc
    } else if val == Q2_CLK_SRC_WORD_CLK_FLAG {
        Ff400ClkSrc::WordClock
    } else if val == Q2_CLK_SRC_SPDIF_FLAG {
        Ff400ClkSrc::Spdif
    } else {
        Ff400ClkSrc::Adat
    }
}

/// Each value which the device uses is read by `clk_src_of` as its own `Ff400ClkSrc`.
pub proof fn lemma_clk_src_of_table()
    ensures
        clk_src_of(Q2_CLK_SRC_INTERNAL_FLAG) == Ff400ClkSrc::Internal,
        clk_src_of(Q2_CLK_SRC_LTC_FLAG) == Ff400ClkSrc::Ltc,
        clk_src_of(Q2_CLK_SRC_WORD_CLK_FLAG) == Ff400ClkSrc::WordClock,
        clk_src_of(Q2_CLK_SRC_SPDIF_FLAG) == Ff400ClkSrc::Spdif,
{
    reveal(clk_src_of);
}

fn clk_src_of_exec(val: u32) -> (r: Ff400ClkSrc)
    ensures
        r == clk_src_of(val),
{
    proof {
        reveal(clk_src_of);
    }
    if val == Q2_CLK_SRC_INTERNAL_FLAG {
        Ff400ClkSrc::Internal
    } else if val == Q2_CLK_SRC_LTC_FLAG {
        Ff400ClkSrc::Ltc
    } else if val == Q2_CLK_SRC_WORD_CLK_FLAG {
        Ff400ClkSrc::WordClock
    } else if val == Q2_CLK_SRC_SPDIF_FLAG {
        Ff400ClkSrc::Spdif
    } else {
        Ff400ClkSrc::Adat
    }
}

/// Whether the bits stand for a primary source of sampling clock.
pub open spec fn clk_src_flag_valid(val: u32) -> bool {
    val == Q2_CLK_SRC_INTERNAL_FLAG || val == Q2_CLK_SRC_LTC_FLAG || val == Q2_CLK_SRC_WORD_CLK_FLAG || val == Q2_CLK_SRC_ADAT_FLAG || val == Q2_CLK_SRC_SPDIF_FLAG
}

/// Each value is read back from its flag.
pub proof fn lemma_clk_src_code(v: Ff400ClkSrc)
    ensures
        clk_src_flag_valid(clk_src_flag(v)),
        clk_src_of(clk_src_flag(v)) == v,
{
    reveal(clk_src_flag);
    reveal(clk_src_of);
}

/// The flag of nominal level of line inputs in the first quadlet.
#[verifier::opaque]
pub open spec fn line_in_level_flag0(level: FormerLineInNominalLevel) -> u32 {
    match level {
        FormerLineInNominalLevel::Low => Q0_LINE_IN_LEVEL_LOW_FLAG,
        FormerLineInNominalLevel::Consumer => Q0_LINE_IN_LEVEL_CON_FLAG,
        FormerLineInNominalLevel::Professional => Q0_LINE_IN_LEVEL_PRO_FLAG,
    }
}

/// Each value of `FormerLineInNominalLevel` has its own value in `line_in_level_flag0`, as the device knows it.
pub proof fn lemma_line_in_level_flag0_table()
    ensures
        line_in_level_flag0(FormerLineInNominalLevel::Low) == Q0_LINE_IN_LEVEL_LOW_FLAG,
        line_in_level_flag0(FormerLineInNominalLevel::Consumer) == Q0_LINE_IN_LEVEL_CON_FLAG,
        line_in_level_flag0(FormerLineInNominalLevel::Professional) == Q0_LINE_IN_LEVEL_PRO_FLAG,
{
    reveal(line_in_level_flag0);
}

fn line_in_level_flag0_exec(level: FormerLineInNominalLevel) -> (r: u32)
    ensures
        r == line_in_level_flag0(level),
{
    proof {
        reveal(line_in_level_flag0);
    }
    match level {
        FormerLineInNominalLevel::Low => Q0_LINE_IN_LEVEL_LOW_FLAG,
        FormerLineInNominalLevel::Consumer => Q0_LINE_IN_LEVEL_CON_FLAG,
        FormerLineInNominalLevel::Professional => Q0_LINE_IN_LEVEL_PRO_FLAG,
    }
}

/// The flag of nominal level of line inputs in the second quadlet.
#[verifier::opaque]
pub open spec fn line_in_level_flag1(level: FormerLineInNominalLevel) -> u32 {
    match level {
        FormerLineInNominalLevel::Low => Q1_LINE_IN_LEVEL_LOW_FLAG,
        FormerLineInNominalLevel::Consumer => Q1_LINE_IN_LEVEL_CON_FLAG,
        FormerLineInNominalLevel::Professional => Q1_LINE_IN_LEVEL_PRO_FLAG,
    }
}

/// Each value of `FormerLineInNominalLevel` has its own value in `line_in_level_flag1`, as the device knows it.
pub proof fn lemma_line_in_level_flag1_table()
    ensures
        line_in_level_flag1(FormerLineInNominalLevel::Low) == Q1_LINE_IN_LEVEL_LOW_FLAG,
        line_in_level_flag1(FormerLineInNominalLevel::Consumer) == Q1_LINE_IN_LEVEL_CON_FLAG,
        line_in_level_flag1(FormerLineInNominalLevel::Professional) == Q1_LINE_IN_LEVEL_PRO_FLAG,
{
    reveal(line_in_level_flag1);
}

fn line_in_level_flag1_exec(level: FormerLineInNominalLevel) -> (r: u32)
    ensures
        r == line_in_level_flag1(level),
{
    proof {
        reveal(line_in_level_flag1);
    }
    match level {
        FormerLineInNominalLevel::Low => Q1_LINE_IN_LEVEL_LOW_FLAG,
        FormerLineInNominalLevel::Consumer => Q1_LINE_IN_LEVEL_CON_FLAG,
        FormerLineInNominalLevel::Professional => Q1_LINE_IN_LEVEL_PRO_FLAG,
    }
}

/// Whether the bits in the first quadlet stand for a nominal level of line inputs.
pub open spec fn line_in_level_flag0_valid(val: u32) -> bool {
    val == Q0_LINE_IN_LEVEL_LOW_FLAG || val == Q0_LINE_IN_LEVEL_CON_FLAG || val == Q0_LINE_IN_LEVEL_PRO_FLAG
}

/// Whether the bits in the second quadlet stand for a nominal level of line inputs.
pub open spec fn line_in_level_flag1_valid(val: u32) -> bool {
    val == Q1_LINE_IN_LEVEL_LOW_FLAG || val == Q1_LINE_IN_LEVEL_CON_FLAG || val == Q1_LINE_IN_LEVEL_PRO_FLAG
}

/// The flag of nominal level of line outputs in the first quadlet.
#[verifier::opaque]
pub open spec fn line_out_level_flag0(level: LineOutNominalLevel) -> u32 {
    match level {
        LineOutNominalLevel::High => Q0_LINE_OUT_LEVEL_HIGH_FLAG,
        LineOutNominalLevel::Consumer => Q0_LINE_OUT_LEVEL_CON_FLAG,
        LineOutNominalLevel::Professional => Q0_LINE_OUT_LEVEL_PRO_FLAG,
    }
}

/// Each value of `LineOutNominalLevel` has its own value in `line_out_level_flag0`, as the device knows it.
pub proof fn lemma_line_out_level_flag0_table()
    ensures
        line_out_level_flag0(LineOutNominalLevel::High) == Q0_LINE_OUT_LEVEL_HIGH_FLAG,
        line_out_level_flag0(LineOutNominalLevel::Consumer) == Q0_LINE_OUT_LEVEL_CON_FLAG,
        line_out_level_flag0(LineOutNominalLevel::Professional) == Q0_LINE_OUT_LEVEL_PRO_FLAG,
{
    reveal(line_out_level_flag0);
}

fn line_out_level_flag0_exec(level: LineOutNominalLevel) -> (r: u32)
    ensures
        r == line_out_level_flag0(level),
{
    proof {
        reveal(line_out_level_flag0);
    }
    match level {
        LineOutNominalLevel::High => Q0_LINE_OUT_LEVEL_HIGH_FLAG,
        LineOutNominalLevel::Consumer => Q0_LINE_OUT_LEVEL_CON_FLAG,
        LineOutNominalLevel::Professional => Q0_LINE_OUT_LEVEL_PRO_FLAG,
    }
}

/// The flag of nominal level of line outputs in the second quadlet.
#[verifier::opaque]
pub open spec fn line_out_level_flag1(level: LineOutNominalLevel) -> u32 {
    match level {
        LineOutNominalLevel::High => Q1_LINE_OUT_LEVEL_HIGH_FLAG,
        LineOutNominalLevel::Consumer => Q1_LINE_OUT_LEVEL_CON_FLAG,
        LineOutNominalLevel::Professional => Q1_LINE_OUT_LEVEL_PRO_FLAG,
    }
}

/// Each value of `LineOutNominalLevel` has its own value in `line_out_level_flag1`, as the device knows it.
pub proof fn lemma_line_out_level_flag1_table()
    ensures
        line_out_level_flag1(LineOutNominalLevel::High) == Q1_LINE_OUT_LEVEL_HIGH_FLAG,
        line_out_level_flag1(LineOutNominalLevel::Consumer) == Q1_LINE_OUT_LEVEL_CON_FLAG,
        line_out_level_flag1(LineOutNominalLevel::Professional) == Q1_LINE_OUT_LEVEL_PRO_FLAG,
{
    reveal(line_out_level_flag1);
}

fn line_out_level_flag1_exec(level: LineOutNominalLevel) -> (r: u32)
    ensures
        r == line_out_level_flag1(level),
{
    proof {
        reveal(line_out_level_flag1);
    }
    match level {
        LineOutNominalLevel::High => Q1_LINE_OUT_LEVEL_HIGH_FLAG,
        LineOutNominalLevel::Consumer => Q1_LINE_OUT_LEVEL_CON_FLAG,
        LineOutNominalLevel::Professional => Q1_LINE_OUT_LEVEL_PRO_FLAG,
    }
}

/// The flag of nominal level of headphone output.
#[verifier::opaque]
pub open spec fn hp_out_level_flag(level: LineOutNominalLevel) -> u32 {
    match level {
        LineOutNominalLevel::High => Q0_HP_OUT_LEVEL_HIGH_FLAG,
        LineOutNominalLevel::Consumer => Q0_HP_OUT_LEVEL_CON_FLAG,
        LineOutNominalLevel::Professional => Q0_HP_OUT_LEVEL_PRO_FLAG,
    }
}

/// Each value of `LineOutNominalLevel` has its own value in `hp_out_level_flag`, as the device knows it.
pub proof fn lemma_hp_out_level_flag_table()
    ensures
        hp_out_level_flag(LineOutNominalLevel::High) == Q0_HP_OUT_LEVEL_HIGH_FLAG,
        hp_out_level_flag(LineOutNominalLevel::Consumer) == Q0_HP_OUT_LEVEL_CON_FLAG,
        hp_out_level_flag(LineOutNominalLevel::Professional) == Q0_HP_OUT_LEVEL_PRO_FLAG,
{
    reveal(hp_out_level_flag);
}

fn hp_out_level_flag_exec(level: LineOutNominalLevel) -> (r: u32)
    ensures
        r == hp_out_level_flag(level),
{
    proof {
        reveal(hp_out_level_flag);
    }
    match level {
        LineOutNominalLevel::High => Q0_HP_OUT_LEVEL_HIGH_FLAG,
        LineOutNominalLevel::Consumer => Q0_HP_OUT_LEVEL_CON_FLAG,
        LineOutNominalLevel::Professional => Q0_HP_OUT_LEVEL_PRO_FLAG,
    }
}

/// The nominal level of headphone output.
#[verifier::opaque]
pub open spec fn hp_out_level_of(val: u32) -> LineOutNominalLevel {
    if val == Q0_HP_OUT_LEVEL_HIGH_FLAG {
        LineOutNominalLevel::High
    } else if val == Q0_HP_OUT_LEVEL_CON_FLAG {
        LineOutNominalLevel::Consumer
    } else {
        LineOutNominalLevel::Professional
    }
}

/// Each value which the device uses is read by `hp_out_level_of` as its own `LineOutNominalLevel`.
pub proof fn lemma_hp_out_level_of_table()
    ensures
        hp_out_level_of(Q0_HP_OUT_LEVEL_HIGH_FLAG) == LineOutNominalLevel::High,
        hp_out_level_of(Q0_HP_OUT_LEVEL_CON_FLAG) == LineOutNominalLevel::Consumer,
{
    reveal(hp_out_level_of);
}

fn hp_out_level_of_exec(val: u32) -> (r: LineOutNominalLevel)
    ensures
        r == hp_out_level_of(val),
{
    proof {
        reveal(hp_out_level_of);
    }
    if val == Q0_HP_OUT_LEVEL_HIGH_FLAG {
        LineOutNominalLevel::High
    } else if val == Q0_HP_OUT_LEVEL_CON_FLAG {
        LineOutNominalLevel::Consumer
    } else {
        LineOutNominalLevel::Professional
    }
}

/// Whether the bits in the first quadlet stand for a nominal level of line outputs.
pub open spec fn line_out_level_flag0_valid(val: u32) -> bool {
    val == Q0_LINE_OUT_LEVEL_HIGH_FLAG || val == Q0_LINE_OUT_LEVEL_CON_FLAG || val == Q0_LINE_OUT_LEVEL_PRO_FLAG
}

/// Whether the bits in the second quadlet stand for a nominal level of line outputs.
pub open spec fn line_out_level_flag1_valid(val: u32) -> bool {
    val == Q1_LINE_OUT_LEVEL_HIGH_FLAG || val == Q1_LINE_OUT_LEVEL_CON_FLAG || val == Q1_LINE_OUT_LEVEL_PRO_FLAG
}

/// Whether the bits stand for a nominal level of headphone output.
pub open spec fn hp_out_level_flag_valid(val: u32) -> bool {
    val == Q0_HP_OUT_LEVEL_HIGH_FLAG || val == Q0_HP_OUT_LEVEL_CON_FLAG || val == Q0_HP_OUT_LEVEL_PRO_FLAG
}

/// Each value is read back from its flag.
pub proof fn lemma_hp_out_level_code(v: LineOutNominalLevel)
    ensures
        hp_out_level_flag_valid(hp_out_level_flag(v)),
        hp_out_level_of(hp_out_level_flag(v)) == v,
{
    reveal(hp_out_level_flag);
    reveal(hp_out_level_of);
}

/// Low offset of destination address for MIDI messages.
#[derive(Debug, Copy, Clone, PartialEq, Eq, Structural)]
pub enum Ff400MidiTxLowOffset {
    /// Between 0x0000 to 0x007c.
    A0000,
    /// Between 0x0080 to 0x00fc.
    A0080,
    /// Between 0x0100 to 0x017c.
    A0100,
    /// Between 0x0180 to 0x01fc.
    A0180,
}

impl Default for Ff400MidiTxLowOffset {
    fn default() -> (r: Self)
        ensures
            r == Ff400MidiTxLowOffset::A0000,
    {
        Ff400MidiTxLowOffset::A0000
    }
}

impl Ff400MidiTxLowOffset {
    /// The number of quadlets which the offset takes.
    pub const QUADLET_COUNT: usize = 3;
}

/// The flag of low offset of destination address for MIDI messages.
#[verifier::opaque]
pub open spec fn midi_tx_low_offset_flag(offset: Ff400MidiTxLowOffset) -> u32 {
    match offset {
        Ff400MidiTxLowOffset::A0000 => Q2_MIDI_TX_LOW_OFFSET_0000_FLAG,
        Ff400MidiTxLowOffset::A0080 => Q2_MIDI_TX_LOW_OFFSET_0080_FLAG,
        Ff400MidiTxLowOffset::A0100 => Q2_MIDI_TX_LOW_OFFSET_0100_FLAG,
        Ff400MidiTxLowOffset::A0180 => Q2_MIDI_TX_LOW_OFFSET_0180_FLAG,
    }
}

/// Each value of `Ff400MidiTxLowOffset` has its own value in `midi_tx_low_offset_flag`, as the device knows it.
pub proof fn lemma_midi_tx_low_offset_flag_table()
    ensures
        midi_tx_low_offset_flag(Ff400MidiTxLowOffset::A0000) == Q2_MIDI_TX_LOW_OFFSET_0000_FLAG,
        midi_tx_low_offset_flag(Ff400MidiTxLowOffset::A0080) == Q2_MIDI_TX_LOW_OFFSET_0080_FLAG,
        midi_tx_low_offset_flag(Ff400MidiTxLowOffset::A0100) == Q2_MIDI_TX_LOW_OFFSET_0100_FLAG,
        midi_tx_low_offset_flag(Ff400MidiTxLowOffset::A0180) == Q2_MIDI_TX_LOW_OFFSET_0180_FLAG,
{
    reveal(midi_tx_low_offset_flag);
}

fn midi_tx_low_offset_flag_exec(offset: Ff400MidiTxLowOffset) -> (r: u32)
    ensures
        r == midi_tx_low_offset_flag(offset),
{
    proof {
        reveal(midi_tx_low_offset_flag);
    }
    match offset {
        Ff400MidiTxLowOffset::A0000 => Q2_MIDI_TX_LOW_OFFSET_0000_FLAG,
        Ff400MidiTxLowOffset::A0080 => Q2_MIDI_TX_LOW_OFFSET_0080_FLAG,
        Ff400MidiTxLowOffset::A0100 => Q2_MIDI_TX_LOW_OFFSET_0100_FLAG,
        Ff400MidiTxLowOffset::A0180 => Q2_MIDI_TX_LOW_OFFSET_0180_FLAG,
    }
}

/// The low offset of destination address for MIDI messages.
#[verifier::opaque]
pub open spec fn midi_tx_low_offset_of(val: u32) -> Ff400MidiTxLowOffset {
    if val == Q2_MIDI_TX_LOW_OFFSET_0180_FLAG {
        Ff400MidiTxLowOffset::A0180
    } else if val == Q2_MIDI_TX_LOW_OFFSET_0100_FLAG {
        Ff400MidiTxLowOffset::A0100
    } else if val == Q2_MIDI_TX_LOW_OFFSET_0080_FLAG {
        Ff400MidiTxLowOffset::A0080
    } else {
        Ff400MidiTxLowOffset::A0000
    }
}

/// Each value which the device uses is read by `midi_tx_low_offset_of` as its own `Ff400MidiTxLowOffset`.
pub proof fn lemma_midi_tx_low_offset_of_table()
    ensures
        midi_tx_low_offset_of(Q2_MIDI_TX_LOW_OFFSET_0180_FLAG) == Ff400MidiTxLowOffset::A0180,
        midi_tx_low_offset_of(Q2_MIDI_TX_LOW_OFFSET_0100_FLAG) == Ff400MidiTxLowOffset::A0100,
        midi_tx_low_offset_of(Q2_MIDI_TX_LOW_OFFSET_0080_FLAG) == Ff400MidiTxLowOffset::A0080,
{
    reveal(midi_tx_low_offset_of);
}

fn midi_tx_low_offset_of_exec(val: u32) -> (r: Ff400MidiTxLowOffset)
    ensures
        r == midi_tx_low_offset_of(val),
{
    proof {
        reveal(midi_tx_low_offset_of);
    }
    if val == Q2_MIDI_TX_LOW_OFFSET_0180_FLAG {
        Ff400MidiTxLowOffset::A0180
    } else if val == Q2_MIDI_TX_LOW_OFFSET_0100_FLAG {
        Ff400MidiTxLowOffset::A0100
    } else if val == Q2_MIDI_TX_LOW_OFFSET_0080_FLAG {
        Ff400MidiTxLowOffset::A0080
    } else {
        Ff400MidiTxLowOffset::A0000
    }
}

/// Whether the bits stand for a low offset of destination address for MIDI messages.
pub open spec fn midi_tx_low_offset_flag_valid(val: u32) -> bool {
    val == Q2_MIDI_TX_LOW_OFFSET_0000_FLAG || val == Q2_MIDI_TX_LOW_OFFSET_0080_FLAG || val == Q2_MIDI_TX_LOW_OFFSET_0100_FLAG || val == Q2_MIDI_TX_LOW_OFFSET_0180_FLAG
}

/// Each value is read back from its flag.
pub proof fn lemma_midi_tx_low_offset_code(v: Ff400MidiTxLowOffset)
    ensures
        midi_tx_low_offset_flag_valid(midi_tx_low_offset_flag(v)),
        midi_tx_low_offset_of(midi_tx_low_offset_flag(v)) == v,
{
    reveal(midi_tx_low_offset_flag);
    reveal(midi_tx_low_offset_of);
}

/// Configurations of sampling clock.
#[derive(Debug, Copy, Clone, PartialEq, Eq, Structural)]
pub struct Ff400ClkConfig {
    pub primary_src: Ff400ClkSrc,
    pub avail_rate_44100: bool,
    pub avail_rate_48000: bool,
    pub avail_rate_double: bool,
    pub avail_rate_quadruple: bool,
}

impl Default for Ff400ClkConfig {
    fn default() -> (r: Self)
        ensures
            r == (Ff400ClkConfig {
                primary_src: Ff400ClkSrc::Internal,
                avail_rate_44100: true,
                avail_rate_48000: true,
                avail_rate_double: true,
                avail_rate_quadruple: true,
            }),
    {
        Ff400ClkConfig {
            primary_src: Ff400ClkSrc::default(),
            avail_rate_44100: true,
            avail_rate_48000: true,
            avail_rate_double: true,
            avail_rate_quadruple: true,
        }
    }
}

impl Ff400ClkConfig {
    /// The number of quadlets which the configuration takes.
    pub const QUADLET_COUNT: usize = 3;
}


/// The third quadlet after serializing the configuration of sampling clock into it.
pub open spec fn clock_config_quad(q: u32, c: Ff400ClkConfig) -> u32 {
    let q = put_field(q, Q2_CLK_SRC_MASK, clk_src_flag(c.primary_src));
    let q = put_flag(q, Q2_CLK_AVAIL_RATE_BASE_44100_MASK, c.avail_rate_44100);
    let q = put_flag(q, Q2_CLK_AVAIL_RATE_BASE_48000_MASK, c.avail_rate_48000);
    let q = put_flag(q, Q2_CLK_AVAIL_RATE_DOUBLE_MASK, c.avail_rate_double);
    put_flag(q, Q2_CLK_AVAIL_RATE_QUADRUPLE_MASK, c.avail_rate_quadruple)
}

/// The fields are read back from the bits of the quadlet.
pub proof fn lemma_clock_config_facts(q: u32, c: Ff400ClkConfig)
    ensures
        clock_config_quad(q, c) & Q2_CLK_SRC_MASK == clk_src_flag(c.primary_src),
        has_flag(clock_config_quad(q, c), Q2_CLK_AVAIL_RATE_BASE_44100_MASK) == (c.avail_rate_44100),
        has_flag(clock_config_quad(q, c), Q2_CLK_AVAIL_RATE_BASE_48000_MASK) == (c.avail_rate_48000),
        has_flag(clock_config_quad(q, c), Q2_CLK_AVAIL_RATE_DOUBLE_MASK) == (c.avail_rate_double),
        has_flag(clock_config_quad(q, c), Q2_CLK_AVAIL_RATE_QUADRUPLE_MASK) == (c.avail_rate_quadruple),
{
    lemma_flag_bits(c.avail_rate_44100, Q2_CLK_AVAIL_RATE_BASE_44100_MASK);
    lemma_flag_bits(c.avail_rate_48000, Q2_CLK_AVAIL_RATE_BASE_48000_MASK);
    lemma_flag_bits(c.avail_rate_double, Q2_CLK_AVAIL_RATE_DOUBLE_MASK);
    lemma_flag_bits(c.avail_rate_quadruple, Q2_CLK_AVAIL_RATE_QUADRUPLE_MASK);
    lemma_clk_src_code(c.primary_src);
    lemma_ff400_bits(0, 0, 0, 0, 0, 0, 0, 0, 0, 0, 0, 0, 0, 0, 0, 0, 0, 0, 0, 0, 0, 0, 0, 0, q, clk_src_flag(c.primary_src), flag_bits(c.avail_rate_44100, Q2_CLK_AVAIL_RATE_BASE_44100_MASK), flag_bits(c.avail_rate_48000, Q2_CLK_AVAIL_RATE_BASE_48000_MASK), flag_bits(c.avail_rate_double, Q2_CLK_AVAIL_RATE_DOUBLE_MASK), flag_bits(c.avail_rate_quadruple, Q2_CLK_AVAIL_RATE_QUADRUPLE_MASK), 0, 0, 0, 0, 0, 0, 0, 0, 0, 0, 0, 0, 0, 0, 0, 0, 0, 0, 0, 0, 0, 0, 0, 0, 0, 0, 0, 0, 0, 0, 0, 0, 0, 0, 0, 0, 0, 0, 0, 0, 0);
}

/// The configuration of sampling clock read from the third quadlet.
pub open spec fn clock_config_of(q: u32) -> Ff400ClkConfig {
    Ff400ClkConfig {
        primary_src: clk_src_of(q & Q2_CLK_SRC_MASK),
        avail_rate_44100: has_flag(q, Q2_CLK_AVAIL_RATE_BASE_44100_MASK),
        avail_rate_48000: has_flag(q, Q2_CLK_AVAIL_RATE_BASE_48000_MASK),
        avail_rate_double: has_flag(q, Q2_CLK_AVAIL_RATE_DOUBLE_MASK),
        avail_rate_quadruple: has_flag(q, Q2_CLK_AVAIL_RATE_QUADRUPLE_MASK),
    }
}

/// Serialize the configuration of sampling clock into the quadlets.
pub fn serialize_clock_config(config: &Ff400ClkConfig, quads: &mut [u32])
    requires
        old(quads)@.len() >= Ff400ClkConfig::QUADLET_COUNT,
    ensures
        final(quads)@ == old(quads)@.update(2, clock_config_quad(old(quads)@[2], *config)),
{
    let flag = clk_src_flag_exec(config.primary_src);
    quads[2] = set_field(quads[2], Q2_CLK_SRC_MASK, flag);
    quads[2] = set_flag(quads[2], Q2_CLK_AVAIL_RATE_BASE_44100_MASK, config.avail_rate_44100);
    quads[2] = set_flag(quads[2], Q2_CLK_AVAIL_RATE_BASE_48000_MASK, config.avail_rate_48000);
    quads[2] = set_flag(quads[2], Q2_CLK_AVAIL_RATE_DOUBLE_MASK, config.avail_rate_double);
    quads[2] = set_flag(quads[2], Q2_CLK_AVAIL_RATE_QUADRUPLE_MASK, config.avail_rate_quadruple);
}

/// Deserialize the configuration of sampling clock from the quadlets.
pub fn deserialize_clock_config(config: &mut Ff400ClkConfig, quads: &[u32])
    requires
        quads@.len() >= Ff400ClkConfig::QUADLET_COUNT,
    ensures
        *final(config) == clock_config_of(quads@[2]),
{
    config.primary_src = clk_src_of_exec(quads[2] & Q2_CLK_SRC_MASK);
    config.avail_rate_44100 = check_flag(quads[2], Q2_CLK_AVAIL_RATE_BASE_44100_MASK);
    config.avail_rate_48000 = check_flag(quads[2], Q2_CLK_AVAIL_RATE_BASE_48000_MASK);
    config.avail_rate_double = check_flag(quads[2], Q2_CLK_AVAIL_RATE_DOUBLE_MASK);
    config.avail_rate_quadruple = check_flag(quads[2], Q2_CLK_AVAIL_RATE_QUADRUPLE_MASK);
}

/// Deserializing what was serialized gives the configuration of sampling clock back.
pub proof fn lemma_clock_config_roundtrip(q: u32, c: Ff400ClkConfig)
    ensures
        clock_config_of(clock_config_quad(q, c)) == c,
{
    lemma_clock_config_facts(q, c);
    lemma_clk_src_code(c.primary_src);
}

/// Configuration for analog inputs.
#[derive(Debug, Copy, Clone, PartialEq, Eq)]
pub struct Ff400AnalogInConfig {
    /// The nominal level of audio signal for input 5, 6, 7 and 8.
    pub line_level: FormerLineInNominalLevel,
    /// Whether to deliver +48 V powering for input 1 and 2.
    pub phantom_powering: [bool; 2],
    /// Whether to use input 3 and 4 for instrument.
    pub insts: [bool; 2],
    /// Whether to attenuate signal level from input 3 and 4.
    pub pad: [bool; 2],
}

impl Default for Ff400AnalogInConfig {
    fn default() -> (r: Self)
        ensures
            r == (Ff400AnalogInConfig {
                line_level: FormerLineInNominalLevel::Low,
                phantom_powering: [false, false],
                insts: [false, false],
                pad: [false, false],
            }),
    {
        Ff400AnalogInConfig {
            line_level: FormerLineInNominalLevel::default(),
            phantom_powering: [false, false],
            insts: [false, false],
            pad: [false, false],
        }
    }
}

impl Ff400AnalogInConfig {
    /// The number of quadlets which the configuration takes.
    pub const QUADLET_COUNT: usize = 2;
}

/// The bits of the first quadlet which the configuration for analog inputs sets without clearing.
pub open spec fn analog_in_or_bits() -> u32 {
    Q0_INPUT_0_POWERING_MASK | Q0_INPUT_1_POWERING_MASK | Q0_INPUT_2_INST_MASK
        | Q0_INPUT_3_INST_MASK | Q0_INPUT_2_PAD_MASK | Q0_INPUT_3_PAD_MASK
}


/// The first quadlet after serializing the configuration for analog inputs into it.
pub open spec fn analog_in_quad0(q: u32, c: Ff400AnalogInConfig) -> u32 {
    let q = put_field(q, Q0_LINE_IN_LEVEL_MASK, line_in_level_flag0(c.line_level));
    let q = or_flag(q, Q0_INPUT_0_POWERING_MASK, c.phantom_powering[0]);
    let q = or_flag(q, Q0_INPUT_1_POWERING_MASK, c.phantom_powering[1]);
    let q = or_flag(q, Q0_INPUT_2_INST_MASK, c.insts[0]);
    let q = or_flag(q, Q0_INPUT_3_INST_MASK, c.insts[1]);
    let q = or_flag(q, Q0_INPUT_2_PAD_MASK, c.pad[0]);
    or_flag(q, Q0_INPUT_3_PAD_MASK, c.pad[1])
}

/// The fields are read back from the bits of the quadlet.
pub proof fn lemma_analog_in_quad0_facts(q: u32, c: Ff400AnalogInConfig)
    requires
        q & analog_in_or_bits() == 0,
    ensures
        analog_in_quad0(q, c) & Q0_LINE_IN_LEVEL_MASK == line_in_level_flag0(c.line_level),
        has_flag(analog_in_quad0(q, c), Q0_INPUT_0_POWERING_MASK) == (c.phantom_powering[0]),
        has_flag(analog_in_quad0(q, c), Q0_INPUT_1_POWERING_MASK) == (c.phantom_powering[1]),
        has_flag(analog_in_quad0(q, c), Q0_INPUT_2_INST_MASK) == (c.insts[0]),
        has_flag(analog_in_quad0(q, c), Q0_INPUT_3_INST_MASK) == (c.insts[1]),
        has_flag(analog_in_quad0(q, c), Q0_INPUT_2_PAD_MASK) == (c.pad[0]),
        has_flag(analog_in_quad0(q, c), Q0_INPUT_3_PAD_MASK) == (c.pad[1]),
{
    lemma_flag_bits(c.phantom_powering[0], Q0_INPUT_0_POWERING_MASK);
    lemma_flag_bits(c.phantom_powering[1], Q0_INPUT_1_POWERING_MASK);
    lemma_flag_bits(c.insts[0], Q0_INPUT_2_INST_MASK);
    lemma_flag_bits(c.insts[1], Q0_INPUT_3_INST_MASK);
    lemma_flag_bits(c.pad[0], Q0_INPUT_2_PAD_MASK);
    lemma_flag_bits(c.pad[1], Q0_INPUT_3_PAD_MASK);
    reveal(line_in_level_flag0);
    lemma_ff400_bits(0, 0, 0, 0, 0, 0, 0, 0, 0, 0, 0, 0, 0, 0, 0, 0, 0, 0, 0, 0, 0, 0, 0, 0, 0, 0, 0, 0, 0, 0, q, line_in_level_flag0(c.line_level), flag_bits(c.phantom_powering[0], Q0_INPUT_0_POWERING_MASK), flag_bits(c.phantom_powering[1], Q0_INPUT_1_POWERING_MASK), flag_bits(c.insts[0], Q0_INPUT_2_INST_MASK), flag_bits(c.insts[1], Q0_INPUT_3_INST_MASK), flag_bits(c.pad[0], Q0_INPUT_2_PAD_MASK), flag_bits(c.pad[1], Q0_INPUT_3_PAD_MASK), 0, 0, 0, 0, 0, 0, 0, 0, 0, 0, 0, 0, 0, 0, 0, 0, 0, 0, 0, 0, 0, 0, 0, 0, 0, 0, 0, 0, 0, 0, 0, 0, 0);
}

/// The second quadlet after serializing the configuration for analog inputs into it.
pub open spec fn analog_in_quad1(q: u32, c: Ff400AnalogInConfig) -> u32 {
    put_field(q, Q1_LINE_IN_LEVEL_MASK, line_in_level_flag1(c.line_level))
}

/// The fields are read back from the bits of the quadlet.
pub proof fn lemma_analog_in_quad1_facts(q: u32, c: Ff400AnalogInConfig)
    ensures
        analog_in_quad1(q, c) & Q1_LINE_IN_LEVEL_MASK == line_in_level_flag1(c.line_level),
{
    reveal(line_in_level_flag1);
    lemma_ff400_bits(0, 0, 0, 0, 0, 0, 0, 0, 0, 0, 0, 0, 0, 0, 0, 0, 0, 0, 0, 0, 0, 0, 0, 0, 0, 0, 0, 0, 0, 0, 0, 0, 0, 0, 0, 0, 0, 0, q, line_in_level_flag1(c.line_level), 0, 0, 0, 0, 0, 0, 0, 0, 0, 0, 0, 0, 0, 0, 0, 0, 0, 0, 0, 0, 0, 0, 0, 0, 0, 0, 0, 0, 0, 0, 0);
}

/// The nominal level of line inputs read from the quadlets, if the bits stand for one.
pub open spec fn line_in_level_of(q0: u32, q1: u32) -> Option<FormerLineInNominalLevel> {
    let pair = (q0 & Q0_LINE_IN_LEVEL_MASK, q1 & Q1_LINE_IN_LEVEL_MASK);
    if pair == (Q0_LINE_IN_LEVEL_LOW_FLAG, Q1_LINE_IN_LEVEL_LOW_FLAG) {
        Some(FormerLineInNominalLevel::Low)
    } else if pair == (Q0_LINE_IN_LEVEL_CON_FLAG, Q1_LINE_IN_LEVEL_CON_FLAG) {
        Some(FormerLineInNominalLevel::Consumer)
    } else if pair == (Q0_LINE_IN_LEVEL_PRO_FLAG, Q1_LINE_IN_LEVEL_PRO_FLAG) {
        Some(FormerLineInNominalLevel::Professional)
    } else {
        None
    }
}

fn line_in_level_of_exec(q0: u32, q1: u32) -> (r: Option<FormerLineInNominalLevel>)
    ensures
        r == line_in_level_of(q0, q1),
{
    let pair = (q0 & Q0_LINE_IN_LEVEL_MASK, q1 & Q1_LINE_IN_LEVEL_MASK);
    if pair.0 == Q0_LINE_IN_LEVEL_LOW_FLAG && pair.1 == Q1_LINE_IN_LEVEL_LOW_FLAG {
        Some(FormerLineInNominalLevel::Low)
    } else if pair.0 == Q0_LINE_IN_LEVEL_CON_FLAG && pair.1 == Q1_LINE_IN_LEVEL_CON_FLAG {
        Some(FormerLineInNominalLevel::Consumer)
    } else if pair.0 == Q0_LINE_IN_LEVEL_PRO_FLAG && pair.1 == Q1_LINE_IN_LEVEL_PRO_FLAG {
        Some(FormerLineInNominalLevel::Professional)
    } else {
        None
    }
}

/// The nominal level of line inputs is read back from its flags.
pub proof fn lemma_line_in_level_code(level: FormerLineInNominalLevel, q0: u32, q1: u32)
    requires
        q0 & Q0_LINE_IN_LEVEL_MASK == line_in_level_flag0(level),
        q1 & Q1_LINE_IN_LEVEL_MASK == line_in_level_flag1(level),
    ensures
        line_in_level_flag0_valid(line_in_level_flag0(level)),
        line_in_level_flag1_valid(line_in_level_flag1(level)),
        line_in_level_of(q0, q1) == Some(level),
{
    reveal(line_in_level_flag0);
    reveal(line_in_level_flag1);
}

/// The configuration for analog inputs read from the quadlets.
pub open spec fn analog_in_config_of(q0: u32, q1: u32) -> Ff400AnalogInConfig {
    Ff400AnalogInConfig {
        line_level: line_in_level_of(q0, q1).unwrap(),
        phantom_powering: [
            has_flag(q0, Q0_INPUT_0_POWERING_MASK),
            has_flag(q0, Q0_INPUT_1_POWERING_MASK),
        ],
        insts: [has_flag(q0, Q0_INPUT_2_INST_MASK), has_flag(q0, Q0_INPUT_3_INST_MASK)],
        pad: [has_flag(q0, Q0_INPUT_2_PAD_MASK), has_flag(q0, Q0_INPUT_3_PAD_MASK)],
    }
}

/// Serialize the configuration for analog inputs into the quadlets.
pub fn serialize_analog_input_config(config: &Ff400AnalogInConfig, quads: &mut [u32])
    requires
        old(quads)@.len() >= Ff400AnalogInConfig::QUADLET_COUNT,
    ensures
        final(quads)@ == old(quads)@.update(0, analog_in_quad0(old(quads)@[0], *config)).update(
            1,
            analog_in_quad1(old(quads)@[1], *config),
        ),
{
    let flag0 = line_in_level_flag0_exec(config.line_level);
    let flag1 = line_in_level_flag1_exec(config.line_level);
    quads[0] = set_field(quads[0], Q0_LINE_IN_LEVEL_MASK, flag0);
    quads[1] = set_field(quads[1], Q1_LINE_IN_LEVEL_MASK, flag1);
    quads[0] = add_flag(quads[0], Q0_INPUT_0_POWERING_MASK, config.phantom_powering[0]);
    quads[0] = add_flag(quads[0], Q0_INPUT_1_POWERING_MASK, config.phantom_powering[1]);
    quads[0] = add_flag(quads[0], Q0_INPUT_2_INST_MASK, config.insts[0]);
    quads[0] = add_flag(quads[0], Q0_INPUT_3_INST_MASK, config.insts[1]);
    quads[0] = add_flag(quads[0], Q0_INPUT_2_PAD_MASK, config.pad[0]);
    quads[0] = add_flag(quads[0], Q0_INPUT_3_PAD_MASK, config.pad[1]);
}

/// Deserialize the configuration for analog inputs from the quadlets.
pub fn deserialize_analog_input_config(config: &mut Ff400AnalogInConfig, quads: &[u32])
    requires
        quads@.len() >= Ff400AnalogInConfig::QUADLET_COUNT,
        line_in_level_of(quads@[0], quads@[1]) is Some,
    ensures
        *final(config) == analog_in_config_of(quads@[0], quads@[1]),
{
    config.line_level = match line_in_level_of_exec(quads[0], quads[1]) {
        Some(level) => level,
        None => config.line_level,
    };
    config.phantom_powering[0] = check_flag(quads[0], Q0_INPUT_0_POWERING_MASK);
    config.phantom_powering[1] = check_flag(quads[0], Q0_INPUT_1_POWERING_MASK);
    config.insts[0] = check_flag(quads[0], Q0_INPUT_2_INST_MASK);
    config.insts[1] = check_flag(quads[0], Q0_INPUT_3_INST_MASK);
    config.pad[0] = check_flag(quads[0], Q0_INPUT_2_PAD_MASK);
    config.pad[1] = check_flag(quads[0], Q0_INPUT_3_PAD_MASK);
    proof {
        assert(config.phantom_powering =~= analog_in_config_of(quads@[0], quads@[1]).phantom_powering);
        assert(config.insts =~= analog_in_config_of(quads@[0], quads@[1]).insts);
        assert(config.pad =~= analog_in_config_of(quads@[0], quads@[1]).pad);
    }
}

/// Deserializing what was serialized gives the configuration for analog inputs back, as long as
/// the bits which the serialization sets without clearing were cleared in the first quadlet.
pub proof fn lemma_analog_input_config_roundtrip(q0: u32, q1: u32, c: Ff400AnalogInConfig)
    requires
        q0 & analog_in_or_bits() == 0,
    ensures
        line_in_level_of(analog_in_quad0(q0, c), analog_in_quad1(q1, c)) is Some,
        analog_in_config_of(analog_in_quad0(q0, c), analog_in_quad1(q1, c)) == c,
{
    lemma_analog_in_quad0_facts(q0, c);
    lemma_analog_in_quad1_facts(q1, c);
    lemma_line_in_level_code(c.line_level, analog_in_quad0(q0, c), analog_in_quad1(q1, c));
    let d = analog_in_config_of(analog_in_quad0(q0, c), analog_in_quad1(q1, c));
    assert(d.phantom_powering =~= c.phantom_powering);
    assert(d.insts =~= c.insts);
    assert(d.pad =~= c.pad);
}


/// The third quadlet after serializing the low offset for MIDI messages into it.
pub open spec fn midi_tx_low_offset_quad(q: u32, offset: Ff400MidiTxLowOffset) -> u32 {
    put_field(q, Q2_MIDI_TX_LOW_OFFSET_MASK, midi_tx_low_offset_flag(offset))
}

/// The fields are read back from the bits of the quadlet.
pub proof fn lemma_midi_tx_low_offset_facts(q: u32, offset: Ff400MidiTxLowOffset)
    ensures
        midi_tx_low_offset_quad(q, offset) & Q2_MIDI_TX_LOW_OFFSET_MASK == midi_tx_low_offset_flag(offset),
{
    lemma_midi_tx_low_offset_code(offset);
    lemma_ff400_bits(0, 0, 0, 0, 0, 0, 0, 0, 0, 0, 0, 0, 0, 0, 0, 0, 0, 0, 0, 0, 0, 0, 0, 0, 0, 0, 0, 0, 0, 0, 0, 0, 0, 0, 0, 0, 0, 0, 0, 0, q, midi_tx_low_offset_flag(offset), 0, 0, 0, 0, 0, 0, 0, 0, 0, 0, 0, 0, 0, 0, 0, 0, 0, 0, 0, 0, 0, 0, 0, 0, 0, 0, 0, 0, 0);
}

/// Serialize the low offset of destination address for MIDI messages into the quadlets.
pub fn serialize_midi_tx_low_offset(offset: &Ff400MidiTxLowOffset, quads: &mut [u32])
    requires
        old(quads)@.len() >= Ff400MidiTxLowOffset::QUADLET_COUNT,
    ensures
        final(quads)@ == old(quads)@.update(2, midi_tx_low_offset_quad(old(quads)@[2], *offset)),
{
    let flag = midi_tx_low_offset_flag_exec(*offset);
    quads[2] = set_field(quads[2], Q2_MIDI_TX_LOW_OFFSET_MASK, flag);
}

/// Deserialize the low offset of destination address for MIDI messages from the quadlets.
pub fn deserialize_midi_tx_low_offset(offset: &mut Ff400MidiTxLowOffset, quads: &[u32])
    requires
        quads@.len() >= Ff400MidiTxLowOffset::QUADLET_COUNT,
        midi_tx_low_offset_flag_valid(quads@[2] & Q2_MIDI_TX_LOW_OFFSET_MASK),
    ensures
        *final(offset) == midi_tx_low_offset_of(quads@[2] & Q2_MIDI_TX_LOW_OFFSET_MASK),
{
    *offset = midi_tx_low_offset_of_exec(quads[2] & Q2_MIDI_TX_LOW_OFFSET_MASK);
}

/// Deserializing what was serialized gives the low offset for MIDI messages back.
pub proof fn lemma_midi_tx_low_offset_roundtrip(q: u32, offset: Ff400MidiTxLowOffset)
    ensures
        midi_tx_low_offset_flag_valid(
            midi_tx_low_offset_quad(q, offset) & Q2_MIDI_TX_LOW_OFFSET_MASK,
        ),
        midi_tx_low_offset_of(midi_tx_low_offset_quad(q, offset) & Q2_MIDI_TX_LOW_OFFSET_MASK)
            == offset,
{
    lemma_midi_tx_low_offset_facts(q, offset);
    lemma_midi_tx_low_offset_code(offset);
}

/// Configurations for Fireface 400.
#[derive(Debug, Copy, Clone, PartialEq, Eq)]
pub struct Ff400Config {
    /// The low offset of destination address for MIDI messages.
    pub midi_tx_low_offset: Ff400MidiTxLowOffset,
    /// Whether to enable transaction for MIDI messages.
    pub midi_tx_enable: bool,
    /// For sampling clock.
    pub clk: Ff400ClkConfig,
    /// For analog inputs.
    pub analog_in: Ff400AnalogInConfig,
    /// The nominal level of audio signal for output 1, 2, 3, 4, 5, and 6.
    pub line_out_level: LineOutNominalLevel,
    /// The nominal level of audio signal for headphone output.
    pub hp_out_level: LineOutNominalLevel,
    /// For S/PDIF input.
    pub spdif_in: SpdifInput,
    /// For S/PDIF output.
    pub spdif_out: FormerSpdifOutput,
    /// The type of signal to optical output interface.
    pub opt_out_signal: OpticalOutputSignal,
    /// Whether to fix speed to single even if at double/quadruple rate.
    pub word_out_single: bool,
    /// Whether to continue audio processing against any synchronization corruption.
    pub continue_at_errors: bool,
}

impl Default for Ff400Config {
    fn default() -> (r: Self)
        ensures
            r == (Ff400Config {
                midi_tx_low_offset: Ff400MidiTxLowOffset::A0000,
                midi_tx_enable: true,
                clk: Ff400ClkConfig {
                    primary_src: Ff400ClkSrc::Internal,
                    avail_rate_44100: true,
                    avail_rate_48000: true,
                    avail_rate_double: true,
                    avail_rate_quadruple: true,
                },
                analog_in: Ff400AnalogInConfig {
                    line_level: FormerLineInNominalLevel::Low,
                    phantom_powering: [false, false],
                    insts: [false, false],
                    pad: [false, false],
                },
                line_out_level: LineOutNominalLevel::High,
                hp_out_level: LineOutNominalLevel::High,
                spdif_in: SpdifInput { iface: SpdifIface::Coaxial, use_preemble: false },
                spdif_out: FormerSpdifOutput {
                    format: SpdifFormat::Consumer,
                    emphasis: false,
                    non_audio: false,
                },
                opt_out_signal: OpticalOutputSignal::Adat,
                word_out_single: false,
                continue_at_errors: true,
            }),
    {
        Ff400Config {
            midi_tx_low_offset: Ff400MidiTxLowOffset::default(),
            midi_tx_enable: true,
            clk: Ff400ClkConfig::default(),
            analog_in: Ff400AnalogInConfig::default(),
            line_out_level: LineOutNominalLevel::default(),
            hp_out_level: LineOutNominalLevel::default(),
            spdif_in: SpdifInput::default(),
            spdif_out: FormerSpdifOutput::default(),
            opt_out_signal: OpticalOutputSignal::default(),
            word_out_single: false,
            continue_at_errors: true,
        }
    }
}

impl Ff400Config {
    /// The number of quadlets which the configuration takes.
    pub const QUADLET_COUNT: usize = 3;

    /// Although the configuration registers are write-only, some of them are available in status
    /// registers.
    pub fn init(&mut self, status: &Ff400Status)
        ensures
            *final(self) == (Ff400Config {
                clk: Ff400ClkConfig { primary_src: status.configured_clk_src, ..old(self).clk },
                spdif_in: status.spdif_in,
                spdif_out: status.spdif_out,
                opt_out_signal: status.opt_out_signal,
                word_out_single: status.word_out_single,
                ..*old(self)
            }),
    {
        self.clk.primary_src = status.configured_clk_src;
        self.spdif_in = status.spdif_in;
        self.spdif_out = status.spdif_out;
        self.opt_out_signal = status.opt_out_signal;
        self.word_out_single = status.word_out_single;
    }
}


/// The first quadlet of serialized configuration.
pub open spec fn config_quad0(c: Ff400Config) -> u32 {
    let q = put_field(0, Q0_LINE_IN_LEVEL_MASK, line_in_level_flag0(c.analog_in.line_level));
    let q = or_flag(q, Q0_INPUT_0_POWERING_MASK, c.analog_in.phantom_powering[0]);
    let q = or_flag(q, Q0_INPUT_1_POWERING_MASK, c.analog_in.phantom_powering[1]);
    let q = or_flag(q, Q0_INPUT_2_INST_MASK, c.analog_in.insts[0]);
    let q = or_flag(q, Q0_INPUT_3_INST_MASK, c.analog_in.insts[1]);
    let q = or_flag(q, Q0_INPUT_2_PAD_MASK, c.analog_in.pad[0]);
    let q = or_flag(q, Q0_INPUT_3_PAD_MASK, c.analog_in.pad[1]);
    let q = put_field(q, Q0_LINE_OUT_LEVEL_MASK, line_out_level_flag0(c.line_out_level));
    put_field(q, Q0_HP_OUT_LEVEL_MASK, hp_out_level_flag(c.hp_out_level))
}

/// The fields are read back from the bits of the quadlet.
pub proof fn lemma_config_quad0_facts(c: Ff400Config)
    ensures
        config_quad0(c) & Q0_LINE_IN_LEVEL_MASK == line_in_level_flag0(c.analog_in.line_level),
        has_flag(config_quad0(c), Q0_INPUT_0_POWERING_MASK) == (c.analog_in.phantom_powering[0]),
        has_flag(config_quad0(c), Q0_INPUT_1_POWERING_MASK) == (c.analog_in.phantom_powering[1]),
        has_flag(config_quad0(c), Q0_INPUT_2_INST_MASK) == (c.analog_in.insts[0]),
        has_flag(config_quad0(c), Q0_INPUT_3_INST_MASK) == (c.analog_in.insts[1]),
        has_flag(config_quad0(c), Q0_INPUT_2_PAD_MASK) == (c.analog_in.pad[0]),
        has_flag(config_quad0(c), Q0_INPUT_3_PAD_MASK) == (c.analog_in.pad[1]),
        config_quad0(c) & Q0_LINE_OUT_LEVEL_MASK == line_out_level_flag0(c.line_out_level),
        config_quad0(c) & Q0_HP_OUT_LEVEL_MASK == hp_out_level_flag(c.hp_out_level),
{
    lemma_flag_bits(c.analog_in.phantom_powering[0], Q0_INPUT_0_POWERING_MASK);
    lemma_flag_bits(c.analog_in.phantom_powering[1], Q0_INPUT_1_POWERING_MASK);
    lemma_flag_bits(c.analog_in.insts[0], Q0_INPUT_2_INST_MASK);
    lemma_flag_bits(c.analog_in.insts[1], Q0_INPUT_3_INST_MASK);
    lemma_flag_bits(c.analog_in.pad[0], Q0_INPUT_2_PAD_MASK);
    lemma_flag_bits(c.analog_in.pad[1], Q0_INPUT_3_PAD_MASK);
    reveal(line_in_level_flag0);
    reveal(line_out_level_flag0);
    lemma_hp_out_level_code(c.hp_out_level);
    lemma_ff400_bits(0, 0, 0, 0, 0, 0, 0, 0, 0, 0, 0, 0, 0, 0, 0, 0, 0, 0, 0, 0, 0, 0, 0, 0, 0, 0, 0, 0, 0, 0, 0, 0, 0, 0, 0, 0, 0, 0, 0, 0, 0, 0, line_in_level_flag0(c.analog_in.line_level), flag_bits(c.analog_in.phantom_powering[0], Q0_INPUT_0_POWERING_MASK), flag_bits(c.analog_in.phantom_powering[1], Q0_INPUT_1_POWERING_MASK), flag_bits(c.analog_in.insts[0], Q0_INPUT_2_INST_MASK), flag_bits(c.analog_in.insts[1], Q0_INPUT_3_INST_MASK), flag_bits(c.analog_in.pad[0], Q0_INPUT_2_PAD_MASK), flag_bits(c.analog_in.pad[1], Q0_INPUT_3_PAD_MASK), line_out_level_flag0(c.line_out_level), hp_out_level_flag(c.hp_out_level), 0, 0, 0, 0, 0, 0, 0, 0, 0, 0, 0, 0, 0, 0, 0, 0, 0, 0, 0, 0);
}

/// The second quadlet of serialized configuration.
pub open spec fn config_quad1(c: Ff400Config) -> u32 {
    let q = put_field(0, Q1_LINE_IN_LEVEL_MASK, line_in_level_flag1(c.analog_in.line_level));
    put_field(q, Q1_LINE_OUT_LEVEL_MASK, line_out_level_flag1(c.line_out_level))
}

/// The fields are read back from the bits of the quadlet.
pub proof fn lemma_config_quad1_facts(c: Ff400Config)
    ensures
        config_quad1(c) & Q1_LINE_IN_LEVEL_MASK == line_in_level_flag1(c.analog_in.line_level),
        config_quad1(c) & Q1_LINE_OUT_LEVEL_MASK == line_out_level_flag1(c.line_out_level),
{
    reveal(line_in_level_flag1);
    reveal(line_out_level_flag1);
    lemma_ff400_bits(0, 0, 0, 0, 0, 0, 0, 0, 0, 0, 0, 0, 0, 0, 0, 0, 0, 0, 0, 0, 0, 0, 0, 0, 0, 0, 0, 0, 0, 0, 0, 0, 0, 0, 0, 0, 0, 0, 0, 0, 0, 0, 0, 0, 0, 0, 0, 0, 0, 0, 0, line_in_level_flag1(c.analog_in.line_level), line_out_level_flag1(c.line_out_level), 0, 0, 0, 0, 0, 0, 0, 0, 0, 0, 0, 0, 0, 0, 0, 0, 0, 0);
}

/// The bits of the first fields of the third quadlet of serialized configuration.
pub open spec fn config_quad2_part0(c: Ff400Config) -> u32 {
    let q = put_field(0, Q2_MIDI_TX_LOW_OFFSET_MASK, midi_tx_low_offset_flag(c.midi_tx_low_offset));
    let q = put_flag(q, Q2_MIDI_TX_SUPPRESS_MASK, !c.midi_tx_enable);
    let q = put_field(q, Q2_CLK_SRC_MASK, clk_src_flag(c.clk.primary_src));
    let q = put_flag(q, Q2_CLK_AVAIL_RATE_BASE_44100_MASK, c.clk.avail_rate_44100);
    put_flag(q, Q2_CLK_AVAIL_RATE_BASE_48000_MASK, c.clk.avail_rate_48000)
}

/// The fields are read back from the bits of the quadlet.
proof fn config_quad2_part0_facts(c: Ff400Config)
    ensures
        config_quad2_part0(c) & Q2_MIDI_TX_LOW_OFFSET_MASK == midi_tx_low_offset_flag(c.midi_tx_low_offset),
        has_flag(config_quad2_part0(c), Q2_MIDI_TX_SUPPRESS_MASK) == (!c.midi_tx_enable),
        config_quad2_part0(c) & Q2_CLK_SRC_MASK == clk_src_flag(c.clk.primary_src),
        has_flag(config_quad2_part0(c), Q2_CLK_AVAIL_RATE_BASE_44100_MASK) == (c.clk.avail_rate_44100),
        has_flag(config_quad2_part0(c), Q2_CLK_AVAIL_RATE_BASE_48000_MASK) == (c.clk.avail_rate_48000),
        config_quad2_part0(c) & (Q2_SPDIF_IN_IFACE_OPT_MASK | Q2_SPDIF_IN_USE_PREEMBLE | Q2_OPT_OUT_SIGNAL_MASK | Q2_SPDIF_OUT_FMT_PRO_MASK | Q2_SPDIF_OUT_EMPHASIS_MASK | Q2_SPDIF_OUT_NON_AUDIO_MASK | Q2_WORD_OUT_SINGLE_SPEED_MASK | Q2_CONTINUE_AT_ERRORS) == 0,
{
    lemma_flag_bits(!c.midi_tx_enable, Q2_MIDI_TX_SUPPRESS_MASK);
    lemma_flag_bits(c.clk.avail_rate_44100, Q2_CLK_AVAIL_RATE_BASE_44100_MASK);
    lemma_flag_bits(c.clk.avail_rate_48000, Q2_CLK_AVAIL_RATE_BASE_48000_MASK);
    lemma_midi_tx_low_offset_code(c.midi_tx_low_offset);
    lemma_clk_src_code(c.clk.primary_src);
    lemma_ff400_bits(0, 0, 0, 0, 0, 0, 0, 0, 0, 0, 0, 0, 0, 0, 0, 0, 0, 0, 0, 0, 0, 0, 0, 0, 0, 0, 0, 0, 0, 0, 0, 0, 0, 0, 0, 0, 0, 0, 0, 0, 0, 0, 0, 0, 0, 0, 0, 0, 0, 0, 0, 0, 0, 0, midi_tx_low_offset_flag(c.midi_tx_low_offset), flag_bits(!c.midi_tx_enable, Q2_MIDI_TX_SUPPRESS_MASK), clk_src_flag(c.clk.primary_src), flag_bits(c.clk.avail_rate_44100, Q2_CLK_AVAIL_RATE_BASE_44100_MASK), flag_bits(c.clk.avail_rate_48000, Q2_CLK_AVAIL_RATE_BASE_48000_MASK), 0, 0, 0, 0, 0, 0, 0, 0, 0, 0, 0, 0);
}

/// The bits of the first fields of the third quadlet of serialized configuration.
pub open spec fn config_quad2_part1(c: Ff400Config) -> u32 {
    let q = put_flag(config_quad2_part0(c), Q2_CLK_AVAIL_RATE_DOUBLE_MASK, c.clk.avail_rate_double);
    let q = put_flag(q, Q2_CLK_AVAIL_RATE_QUADRUPLE_MASK, c.clk.avail_rate_quadruple);
    let q = or_flag(q, Q2_SPDIF_IN_IFACE_OPT_MASK, c.spdif_in.iface == SpdifIface::Optical);
    let q = or_flag(q, Q2_SPDIF_IN_USE_PREEMBLE, c.spdif_in.use_preemble);
    or_flag(q, Q2_OPT_OUT_SIGNAL_MASK, c.opt_out_signal == OpticalOutputSignal::Spdif)
}

/// The fields are read back from the bits of the quadlet.
proof fn config_quad2_part1_facts(c: Ff400Config)
    ensures
        config_quad2_part1(c) & Q2_MIDI_TX_LOW_OFFSET_MASK == midi_tx_low_offset_flag(c.midi_tx_low_offset),
        has_flag(config_quad2_part1(c), Q2_MIDI_TX_SUPPRESS_MASK) == (!c.midi_tx_enable),
        config_quad2_part1(c) & Q2_CLK_SRC_MASK == clk_src_flag(c.clk.primary_src),
        has_flag(config_quad2_part1(c), Q2_CLK_AVAIL_RATE_BASE_44100_MASK) == (c.clk.avail_rate_44100),
        has_flag(config_quad2_part1(c), Q2_CLK_AVAIL_RATE_BASE_48000_MASK) == (c.clk.avail_rate_48000),
        has_flag(config_quad2_part1(c), Q2_CLK_AVAIL_RATE_DOUBLE_MASK) == (c.clk.avail_rate_double),
        has_flag(config_quad2_part1(c), Q2_CLK_AVAIL_RATE_QUADRUPLE_MASK) == (c.clk.avail_rate_quadruple),
        has_flag(config_quad2_part1(c), Q2_SPDIF_IN_IFACE_OPT_MASK) == (c.spdif_in.iface == SpdifIface::Optical),
        has_flag(config_quad2_part1(c), Q2_SPDIF_IN_USE_PREEMBLE) == (c.spdif_in.use_preemble),
        has_flag(config_quad2_part1(c), Q2_OPT_OUT_SIGNAL_MASK) == (c.opt_out_signal == OpticalOutputSignal::Spdif),
        config_quad2_part1(c) & (Q2_SPDIF_OUT_FMT_PRO_MASK | Q2_SPDIF_OUT_EMPHASIS_MASK | Q2_SPDIF_OUT_NON_AUDIO_MASK | Q2_WORD_OUT_SINGLE_SPEED_MASK | Q2_CONTINUE_AT_ERRORS) == 0,
{
    config_quad2_part0_facts(c);
    lemma_flag_bits(c.clk.avail_rate_double, Q2_CLK_AVAIL_RATE_DOUBLE_MASK);
    lemma_flag_bits(c.clk.avail_rate_quadruple, Q2_CLK_AVAIL_RATE_QUADRUPLE_MASK);
    lemma_flag_bits(c.spdif_in.iface == SpdifIface::Optical, Q2_SPDIF_IN_IFACE_OPT_MASK);
    lemma_flag_bits(c.spdif_in.use_preemble, Q2_SPDIF_IN_USE_PREEMBLE);
    lemma_flag_bits(c.opt_out_signal == OpticalOutputSignal::Spdif, Q2_OPT_OUT_SIGNAL_MASK);
    lemma_midi_tx_low_offset_code(c.midi_tx_low_offset);
    lemma_clk_src_code(c.clk.primary_src);
    lemma_ff400_bits(0, 0, 0, 0, 0, 0, 0, 0, 0, 0, 0, 0, 0, 0, 0, 0, 0, 0, 0, 0, 0, 0, 0, 0, 0, 0, 0, 0, 0, 0, 0, 0, 0, 0, 0, 0, 0, 0, 0, 0, 0, 0, 0, 0, 0, 0, 0, 0, 0, 0, 0, 0, 0, 0, 0, 0, 0, 0, 0, config_quad2_part0(c), flag_bits(c.clk.avail_rate_double, Q2_CLK_AVAIL_RATE_DOUBLE_MASK), flag_bits(c.clk.avail_rate_quadruple, Q2_CLK_AVAIL_RATE_QUADRUPLE_MASK), flag_bits(c.spdif_in.iface == SpdifIface::Optical, Q2_SPDIF_IN_IFACE_OPT_MASK), flag_bits(c.spdif_in.use_preemble, Q2_SPDIF_IN_USE_PREEMBLE), flag_bits(c.opt_out_signal == OpticalOutputSignal::Spdif, Q2_OPT_OUT_SIGNAL_MASK), 0, 0, 0, 0, 0, 0);
}

/// The third quadlet of serialized configuration.
pub open spec fn config_quad2(c: Ff400Config) -> u32 {
    let q = or_flag(config_quad2_part1(c), Q2_SPDIF_OUT_FMT_PRO_MASK, c.spdif_out.format == SpdifFormat::Professional);
    let q = or_flag(q, Q2_SPDIF_OUT_EMPHASIS_MASK, c.spdif_out.emphasis);
    let q = or_flag(q, Q2_SPDIF_OUT_NON_AUDIO_MASK, c.spdif_out.non_audio);
    let q = or_flag(q, Q2_WORD_OUT_SINGLE_SPEED_MASK, c.word_out_single);
    or_flag(q, Q2_CONTINUE_AT_ERRORS, c.continue_at_errors)
}

/// The fields are read back from the bits of the quadlet.
proof fn config_quad2_facts(c: Ff400Config)
    ensures
        config_quad2(c) & Q2_MIDI_TX_LOW_OFFSET_MASK == midi_tx_low_offset_flag(c.midi_tx_low_offset),
        has_flag(config_quad2(c), Q2_MIDI_TX_SUPPRESS_MASK) == (!c.midi_tx_enable),
        config_quad2(c) & Q2_CLK_SRC_MASK == clk_src_flag(c.clk.primary_src),
        has_flag(config_quad2(c), Q2_CLK_AVAIL_RATE_BASE_44100_MASK) == (c.clk.avail_rate_44100),
        has_flag(config_quad2(c), Q2_CLK_AVAIL_RATE_BASE_48000_MASK) == (c.clk.avail_rate_48000),
        has_flag(config_quad2(c), Q2_CLK_AVAIL_RATE_DOUBLE_MASK) == (c.clk.avail_rate_double),
        has_flag(config_quad2(c), Q2_CLK_AVAIL_RATE_QUADRUPLE_MASK) == (c.clk.avail_rate_quadruple),
        has_flag(config_quad2(c), Q2_SPDIF_IN_IFACE_OPT_MASK) == (c.spdif_in.iface == SpdifIface::Optical),
        has_flag(config_quad2(c), Q2_SPDIF_IN_USE_PREEMBLE) == (c.spdif_in.use_preemble),
        has_flag(config_quad2(c), Q2_OPT_OUT_SIGNAL_MASK) == (c.opt_out_signal == OpticalOutputSignal::Spdif),
        has_flag(config_quad2(c), Q2_SPDIF_OUT_FMT_PRO_MASK) == (c.spdif_out.format == SpdifFormat::Professional),
        has_flag(config_quad2(c), Q2_SPDIF_OUT_EMPHASIS_MASK) == (c.spdif_out.emphasis),
        has_flag(config_quad2(c), Q2_SPDIF_OUT_NON_AUDIO_MASK) == (c.spdif_out.non_audio),
        has_flag(config_quad2(c), Q2_WORD_OUT_SINGLE_SPEED_MASK) == (c.word_out_single),
        has_flag(config_quad2(c), Q2_CONTINUE_AT_ERRORS) == (c.continue_at_errors),
{
    config_quad2_part1_facts(c);
    lemma_flag_bits(c.spdif_out.format == SpdifFormat::Professional, Q2_SPDIF_OUT_FMT_PRO_MASK);
    lemma_flag_bits(c.spdif_out.emphasis, Q2_SPDIF_OUT_EMPHASIS_MASK);
    lemma_flag_bits(c.spdif_out.non_audio, Q2_SPDIF_OUT_NON_AUDIO_MASK);
    lemma_flag_bits(c.word_out_single, Q2_WORD_OUT_SINGLE_SPEED_MASK);
    lemma_flag_bits(c.continue_at_errors, Q2_CONTINUE_AT_ERRORS);
    lemma_midi_tx_low_offset_code(c.midi_tx_low_offset);
    lemma_clk_src_code(c.clk.primary_src);
    lemma_ff400_bits(0, 0, 0, 0, 0, 0, 0, 0, 0, 0, 0, 0, 0, 0, 0, 0, 0, 0, 0, 0, 0, 0, 0, 0, 0, 0, 0, 0, 0, 0, 0, 0, 0, 0, 0, 0, 0, 0, 0, 0, 0, 0, 0, 0, 0, 0, 0, 0, 0, 0, 0, 0, 0, 0, 0, 0, 0, 0, 0, 0, 0, 0, 0, 0, 0, config_quad2_part1(c), flag_bits(c.spdif_out.format == SpdifFormat::Professional, Q2_SPDIF_OUT_FMT_PRO_MASK), flag_bits(c.spdif_out.emphasis, Q2_SPDIF_OUT_EMPHASIS_MASK), flag_bits(c.spdif_out.non_audio, Q2_SPDIF_OUT_NON_AUDIO_MASK), flag_bits(c.word_out_single, Q2_WORD_OUT_SINGLE_SPEED_MASK), flag_bits(c.continue_at_errors, Q2_CONTINUE_AT_ERRORS));
}

/// The nominal level of line outputs read from the quadlets, if the bits stand for one.
pub open spec fn line_out_level_of(q0: u32, q1: u32) -> Option<LineOutNominalLevel> {
    let pair = (q0 & Q0_LINE_OUT_LEVEL_MASK, q1 & Q1_LINE_OUT_LEVEL_MASK);
    if pair == (Q0_LINE_OUT_LEVEL_HIGH_FLAG, Q1_LINE_OUT_LEVEL_HIGH_FLAG) {
        Some(LineOutNominalLevel::High)
    } else if pair == (Q0_LINE_OUT_LEVEL_CON_FLAG, Q1_LINE_OUT_LEVEL_CON_FLAG) {
        Some(LineOutNominalLevel::Consumer)
    } else if pair == (Q0_LINE_OUT_LEVEL_PRO_FLAG, Q1_LINE_OUT_LEVEL_PRO_FLAG) {
        Some(LineOutNominalLevel::Professional)
    } else {
        None
    }
}

fn line_out_level_of_exec(q0: u32, q1: u32) -> (r: Option<LineOutNominalLevel>)
    ensures
        r == line_out_level_of(q0, q1),
{
    let pair = (q0 & Q0_LINE_OUT_LEVEL_MASK, q1 & Q1_LINE_OUT_LEVEL_MASK);
    if pair.0 == Q0_LINE_OUT_LEVEL_HIGH_FLAG && pair.1 == Q1_LINE_OUT_LEVEL_HIGH_FLAG {
        Some(LineOutNominalLevel::High)
    } else if pair.0 == Q0_LINE_OUT_LEVEL_CON_FLAG && pair.1 == Q1_LINE_OUT_LEVEL_CON_FLAG {
        Some(LineOutNominalLevel::Consumer)
    } else if pair.0 == Q0_LINE_OUT_LEVEL_PRO_FLAG && pair.1 == Q1_LINE_OUT_LEVEL_PRO_FLAG {
        Some(LineOutNominalLevel::Professional)
    } else {
        None
    }
}

/// The nominal level of line outputs is read back from its flags.
pub proof fn lemma_line_out_level_code(level: LineOutNominalLevel, q0: u32, q1: u32)
    requires
        q0 & Q0_LINE_OUT_LEVEL_MASK == line_out_level_flag0(level),
        q1 & Q1_LINE_OUT_LEVEL_MASK == line_out_level_flag1(level),
    ensures
        line_out_level_flag0_valid(line_out_level_flag0(level)),
        line_out_level_flag1_valid(line_out_level_flag1(level)),
        line_out_level_of(q0, q1) == Some(level),
{
    reveal(line_out_level_flag0);
    reveal(line_out_level_flag1);
}

/// The configuration read from the quadlets.
pub open spec fn config_from_quads(q0: u32, q1: u32, q2: u32) -> Ff400Config {
    Ff400Config {
        midi_tx_low_offset: midi_tx_low_offset_of(q2 & Q2_MIDI_TX_LOW_OFFSET_MASK),
        midi_tx_enable: q2 & Q2_MIDI_TX_SUPPRESS_MASK == 0,
        clk: clock_config_of(q2),
        analog_in: analog_in_config_of(q0, q1),
        line_out_level: line_out_level_of(q0, q1).unwrap(),
        hp_out_level: hp_out_level_of(q0 & Q0_HP_OUT_LEVEL_MASK),
        spdif_in: SpdifInput {
            iface: if has_flag(q2, Q2_SPDIF_IN_IFACE_OPT_MASK) {
                SpdifIface::Optical
            } else {
                SpdifIface::Coaxial
            },
            use_preemble: has_flag(q2, Q2_SPDIF_IN_USE_PREEMBLE),
        },
        spdif_out: FormerSpdifOutput {
            format: if has_flag(q2, Q2_SPDIF_OUT_FMT_PRO_MASK) {
                SpdifFormat::Professional
            } else {
                SpdifFormat::Consumer
            },
            emphasis: has_flag(q2, Q2_SPDIF_OUT_EMPHASIS_MASK),
            non_audio: has_flag(q2, Q2_SPDIF_OUT_NON_AUDIO_MASK),
        },
        opt_out_signal: if has_flag(q2, Q2_OPT_OUT_SIGNAL_MASK) {
            OpticalOutputSignal::Spdif
        } else {
            OpticalOutputSignal::Adat
        },
        word_out_single: has_flag(q2, Q2_WORD_OUT_SINGLE_SPEED_MASK),
        continue_at_errors: has_flag(q2, Q2_CONTINUE_AT_ERRORS),
    }
}

/// Whether the raw data can be deserialized into configuration.
pub open spec fn config_acceptable(raw: Seq<u8>) -> bool {
    &&& raw.len() >= FORMER_CONFIG_SIZE
    &&& midi_tx_low_offset_flag_valid(le_quad_at(raw, 8) & Q2_MIDI_TX_LOW_OFFSET_MASK)
    &&& line_in_level_of(le_quad_at(raw, 0), le_quad_at(raw, 4)) is Some
    &&& line_out_level_of(le_quad_at(raw, 0), le_quad_at(raw, 4)) is Some
    &&& hp_out_level_flag_valid(le_quad_at(raw, 0) & Q0_HP_OUT_LEVEL_MASK)
}

impl RmeFfOffsetParamsSerialize<Ff400Config> for Ff400Protocol {
    open spec fn offsets_of(params: Ff400Config) -> Seq<u8> {
        le_quads_bytes(
                seq![config_quad0(params), config_quad1(params), config_quad2(params)],
            )
    }

    #[verifier::rlimit(40)]
    fn serialize_offsets(params: &Ff400Config) -> (r: Vec<u8>)
        ensures
            r@ == le_quads_bytes(
                seq![config_quad0(*params), config_quad1(*params), config_quad2(*params)],
            ),
    {
        let mut quads = [0u32, 0u32, 0u32];
        serialize_midi_tx_low_offset(&params.midi_tx_low_offset, &mut quads);
        quads[2] = set_flag(quads[2], Q2_MIDI_TX_SUPPRESS_MASK, !params.midi_tx_enable);
        serialize_clock_config(&params.clk, &mut quads);
        serialize_analog_input_config(&params.analog_in, &mut quads);
        let flag = line_out_level_flag0_exec(params.line_out_level);
        quads[0] = set_field(quads[0], Q0_LINE_OUT_LEVEL_MASK, flag);
        let flag = line_out_level_flag1_exec(params.line_out_level);
        quads[1] = set_field(quads[1], Q1_LINE_OUT_LEVEL_MASK, flag);
        let flag = hp_out_level_flag_exec(params.hp_out_level);
        quads[0] = set_field(quads[0], Q0_HP_OUT_LEVEL_MASK, flag);
        quads[2] = add_flag(
            quads[2],
            Q2_SPDIF_IN_IFACE_OPT_MASK,
            params.spdif_in.iface == SpdifIface::Optical,
        );
        quads[2] = add_flag(quads[2], Q2_SPDIF_IN_USE_PREEMBLE, params.spdif_in.use_preemble);
        quads[2] = add_flag(
            quads[2],
            Q2_OPT_OUT_SIGNAL_MASK,
            params.opt_out_signal == OpticalOutputSignal::Spdif,
        );
        quads[2] = add_flag(
            quads[2],
            Q2_SPDIF_OUT_FMT_PRO_MASK,
            params.spdif_out.format == SpdifFormat::Professional,
        );
        quads[2] = add_flag(quads[2], Q2_SPDIF_OUT_EMPHASIS_MASK, params.spdif_out.emphasis);
        quads[2] = add_flag(quads[2], Q2_SPDIF_OUT_NON_AUDIO_MASK, params.spdif_out.non_audio);
        quads[2] = add_flag(quads[2], Q2_WORD_OUT_SINGLE_SPEED_MASK, params.word_out_single);
        quads[2] = add_flag(quads[2], Q2_CONTINUE_AT_ERRORS, params.continue_at_errors);
        proof {
            assert(quads@ =~= seq![
                config_quad0(*params),
                config_quad1(*params),
                config_quad2(*params),
            ]);
        }
        quads_to_le_bytes(&quads)
    }
}

impl RmeFfOffsetParamsDeserialize<Ff400Config> for Ff400Protocol {
    open spec fn deserialized(params: Ff400Config, raw: Seq<u8>, after: Ff400Config) -> bool {
        after == config_from_quads(
                le_quad_at(raw, 0),
                le_quad_at(raw, 4),
                le_quad_at(raw, 8),
            )
    }

    open spec fn offsets_acceptable(params: Ff400Config, raw: Seq<u8>) -> bool {
        config_acceptable(raw)
    }

    fn deserialize_offsets(params: &mut Ff400Config, raw: &[u8])
        ensures
            *final(params) == config_from_quads(
                le_quad_at(raw@, 0),
                le_quad_at(raw@, 4),
                le_quad_at(raw@, 8),
            ),
    {
        let quads = [read_le_quad(raw, 0), read_le_quad(raw, 4), read_le_quad(raw, 8)];
        let mut midi_tx_low_offset = params.midi_tx_low_offset;
        deserialize_midi_tx_low_offset(&mut midi_tx_low_offset, &quads);
        let mut clk = params.clk;
        deserialize_clock_config(&mut clk, &quads);
        let mut analog_in = params.analog_in;
        deserialize_analog_input_config(&mut analog_in, &quads);
        let line_out_level = match line_out_level_of_exec(quads[0], quads[1]) {
            Some(level) => level,
            None => params.line_out_level,
        };
        let iface = if check_flag(quads[2], Q2_SPDIF_IN_IFACE_OPT_MASK) {
            SpdifIface::Optical
        } else {
            SpdifIface::Coaxial
        };
        let format = if check_flag(quads[2], Q2_SPDIF_OUT_FMT_PRO_MASK) {
            SpdifFormat::Professional
        } else {
            SpdifFormat::Consumer
        };
        let opt_out_signal = if check_flag(quads[2], Q2_OPT_OUT_SIGNAL_MASK) {
            OpticalOutputSignal::Spdif
        } else {
            OpticalOutputSignal::Adat
        };
        *params = Ff400Config {
            midi_tx_low_offset,
            midi_tx_enable: quads[2] & Q2_MIDI_TX_SUPPRESS_MASK == 0,
            clk,
            analog_in,
            line_out_level,
            hp_out_level: hp_out_level_of_exec(quads[0] & Q0_HP_OUT_LEVEL_MASK),
            spdif_in: SpdifInput {
                iface,
                use_preemble: check_flag(quads[2], Q2_SPDIF_IN_USE_PREEMBLE),
            },
            spdif_out: FormerSpdifOutput {
                format,
                emphasis: check_flag(quads[2], Q2_SPDIF_OUT_EMPHASIS_MASK),
                non_audio: check_flag(quads[2], Q2_SPDIF_OUT_NON_AUDIO_MASK),
            },
            opt_out_signal,
            word_out_single: check_flag(quads[2], Q2_WORD_OUT_SINGLE_SPEED_MASK),
            continue_at_errors: check_flag(quads[2], Q2_CONTINUE_AT_ERRORS),
        };
    }
}

/// The fields of the configuration are read back from quadlets which carry their bits.
proof fn lemma_config_quads(c: Ff400Config, q0: u32, q1: u32, q2: u32)
    requires
        q0 & Q0_LINE_IN_LEVEL_MASK == line_in_level_flag0(c.analog_in.line_level),
        has_flag(q0, Q0_INPUT_0_POWERING_MASK) == c.analog_in.phantom_powering[0],
        has_flag(q0, Q0_INPUT_1_POWERING_MASK) == c.analog_in.phantom_powering[1],
        has_flag(q0, Q0_INPUT_2_INST_MASK) == c.analog_in.insts[0],
        has_flag(q0, Q0_INPUT_3_INST_MASK) == c.analog_in.insts[1],
        has_flag(q0, Q0_INPUT_2_PAD_MASK) == c.analog_in.pad[0],
        has_flag(q0, Q0_INPUT_3_PAD_MASK) == c.analog_in.pad[1],
        q0 & Q0_LINE_OUT_LEVEL_MASK == line_out_level_flag0(c.line_out_level),
        q0 & Q0_HP_OUT_LEVEL_MASK == hp_out_level_flag(c.hp_out_level),
        q1 & Q1_LINE_IN_LEVEL_MASK == line_in_level_flag1(c.analog_in.line_level),
        q1 & Q1_LINE_OUT_LEVEL_MASK == line_out_level_flag1(c.line_out_level),
        q2 & Q2_MIDI_TX_LOW_OFFSET_MASK == midi_tx_low_offset_flag(c.midi_tx_low_offset),
        (q2 & Q2_MIDI_TX_SUPPRESS_MASK == 0) == c.midi_tx_enable,
        q2 & Q2_CLK_SRC_MASK == clk_src_flag(c.clk.primary_src),
        has_flag(q2, Q2_CLK_AVAIL_RATE_BASE_44100_MASK) == c.clk.avail_rate_44100,
        has_flag(q2, Q2_CLK_AVAIL_RATE_BASE_48000_MASK) == c.clk.avail_rate_48000,
        has_flag(q2, Q2_CLK_AVAIL_RATE_DOUBLE_MASK) == c.clk.avail_rate_double,
        has_flag(q2, Q2_CLK_AVAIL_RATE_QUADRUPLE_MASK) == c.clk.avail_rate_quadruple,
        has_flag(q2, Q2_SPDIF_IN_IFACE_OPT_MASK) == (c.spdif_in.iface == SpdifIface::Optical),
        has_flag(q2, Q2_SPDIF_IN_USE_PREEMBLE) == c.spdif_in.use_preemble,
        has_flag(q2, Q2_OPT_OUT_SIGNAL_MASK) == (c.opt_out_signal == OpticalOutputSignal::Spdif),
        has_flag(q2, Q2_SPDIF_OUT_FMT_PRO_MASK) == (c.spdif_out.format
            == SpdifFormat::Professional),
        has_flag(q2, Q2_SPDIF_OUT_EMPHASIS_MASK) == c.spdif_out.emphasis,
        has_flag(q2, Q2_SPDIF_OUT_NON_AUDIO_MASK) == c.spdif_out.non_audio,
        has_flag(q2, Q2_WORD_OUT_SINGLE_SPEED_MASK) == c.word_out_single,
        has_flag(q2, Q2_CONTINUE_AT_ERRORS) == c.continue_at_errors,
    ensures
        line_in_level_of(q0, q1) is Some,
        line_out_level_of(q0, q1) is Some,
        hp_out_level_flag_valid(q0 & Q0_HP_OUT_LEVEL_MASK),
        midi_tx_low_offset_flag_valid(q2 & Q2_MIDI_TX_LOW_OFFSET_MASK),
        config_from_quads(q0, q1, q2) == c,
{
    let a = c.analog_in;
    let d = config_from_quads(q0, q1, q2);
    lemma_line_in_level_code(a.line_level, q0, q1);
    lemma_line_out_level_code(c.line_out_level, q0, q1);
    lemma_hp_out_level_code(c.hp_out_level);
    lemma_midi_tx_low_offset_code(c.midi_tx_low_offset);
    lemma_clk_src_code(c.clk.primary_src);
    assert(d.analog_in.phantom_powering =~= a.phantom_powering);
    assert(d.analog_in.insts =~= a.insts);
    assert(d.analog_in.pad =~= a.pad);
    assert(d.analog_in == a);
    assert(d.clk == c.clk);
    assert(d.spdif_in == c.spdif_in);
    assert(d.spdif_out == c.spdif_out);
}

/// Deserializing what was serialized gives the configuration back.
pub proof fn lemma_config_roundtrip(c: Ff400Config)
    ensures
        config_acceptable(
            le_quads_bytes(seq![config_quad0(c), config_quad1(c), config_quad2(c)]),
        ),
        ({
            let raw = le_quads_bytes(seq![config_quad0(c), config_quad1(c), config_quad2(c)]);
            config_from_quads(le_quad_at(raw, 0), le_quad_at(raw, 4), le_quad_at(raw, 8)) == c
        }),
{
    let qs = seq![config_quad0(c), config_quad1(c), config_quad2(c)];
    lemma_le_quads_bytes(qs, 0);
    lemma_le_quads_bytes(qs, 1);
    lemma_le_quads_bytes(qs, 2);
    lemma_config_quad0_facts(c);
    lemma_config_quad1_facts(c);
    config_quad2_facts(c);
    lemma_config_quads(c, config_quad0(c), config_quad1(c), config_quad2(c));
}

/// The bits of each field are read back after the serialization of the quadlets.
proof fn lemma_ff400_bits(g0_q: u32, g0_v0: u32, g0_v1: u32, g0_v2: u32, g1_q: u32, g1_v0: u32, g1_v1: u32, g1_v2: u32, g2_v0: u32, g2_v1: u32, g2_v2: u32, g2_v3: u32, g2_v4: u32, g2_v5: u32, g2_v6: u32, g2_v7: u32, g2_v8: u32, g3_v0: u32, g3_v1: u32, g3_v2: u32, g3_v3: u32, g3_v4: u32, g3_v5: u32, g3_v6: u32, g4_q: u32, g4_v0: u32, g4_v1: u32, g4_v2: u32, g4_v3: u32, g4_v4: u32, g5_q: u32, g5_v0: u32, g5_v1: u32, g5_v2: u32, g5_v3: u32, g5_v4: u32, g5_v5: u32, g5_v6: u32, g6_q: u32, g6_v0: u32, g7_q: u32, g7_v0: u32, g8_v0: u32, g8_v1: u32, g8_v2: u32, g8_v3: u32, g8_v4: u32, g8_v5: u32, g8_v6: u32, g8_v7: u32, g8_v8: u32, g9_v0: u32, g9_v1: u32, g10_q: u32, g10_v0: u32, g10_v1: u32, g10_v2: u32, g10_v3: u32, g10_v4: u32, g11_q: u32, g11_v0: u32, g11_v1: u32, g11_v2: u32, g11_v3: u32, g11_v4: u32, g12_q: u32, g12_v0: u32, g12_v1: u32, g12_v2: u32, g12_v3: u32, g12_v4: u32) by (bit_vector)
    ensures
        ((g0_v0 & !Q0_LOCK_ADAT_MASK == 0) && (g0_v1 & !Q0_LOCK_SPDIF_MASK == 0) && (g0_v2 & !Q0_LOCK_WORD_CLOCK_MASK == 0)) ==> ({
            let r = put_field(g0_q, Q0_LOCK_ADAT_MASK, g0_v0);
            let r = put_field(r, Q0_LOCK_SPDIF_MASK, g0_v1);
            let r = put_field(r, Q0_LOCK_WORD_CLOCK_MASK, g0_v2);
            &&& r & Q0_LOCK_ADAT_MASK == g0_v0
            &&& r & Q0_LOCK_SPDIF_MASK == g0_v1
            &&& r & Q0_LOCK_WORD_CLOCK_MASK == g0_v2
        }),
        ((g1_v0 & !Q0_SYNC_ADAT_MASK == 0) && (g1_v1 & !Q0_SYNC_SPDIF_MASK == 0) && (g1_v2 & !Q0_SYNC_WORD_CLOCK_MASK == 0)) ==> ({
            let r = put_field(g1_q, Q0_SYNC_ADAT_MASK, g1_v0);
            let r = put_field(r, Q0_SYNC_SPDIF_MASK, g1_v1);
            let r = put_field(r, Q0_SYNC_WORD_CLOCK_MASK, g1_v2);
            &&& r & Q0_SYNC_ADAT_MASK == g1_v0
            &&& r & Q0_SYNC_SPDIF_MASK == g1_v1
            &&& r & Q0_SYNC_WORD_CLOCK_MASK == g1_v2
        }),
        ((g2_v0 & !Q0_LOCK_ADAT_MASK == 0) && (g2_v1 & !Q0_LOCK_SPDIF_MASK == 0) && (g2_v2 & !Q0_LOCK_WORD_CLOCK_MASK == 0) && (g2_v3 & !Q0_SYNC_ADAT_MASK == 0) && (g2_v4 & !Q0_SYNC_SPDIF_MASK == 0) && (g2_v5 & !Q0_SYNC_WORD_CLOCK_MASK == 0) && (spdif_rate_flag_valid(g2_v6)) && (active_clk_src_valid(g2_v7)) && (ext_clk_rate_flag_valid(g2_v8))) ==> ({
            let r = put_field(0, Q0_LOCK_ADAT_MASK, g2_v0);
            let r = put_field(r, Q0_LOCK_SPDIF_MASK, g2_v1);
            let r = put_field(r, Q0_LOCK_WORD_CLOCK_MASK, g2_v2);
            let r = put_field(r, Q0_SYNC_ADAT_MASK, g2_v3);
            let r = put_field(r, Q0_SYNC_SPDIF_MASK, g2_v4);
            let r = put_field(r, Q0_SYNC_WORD_CLOCK_MASK, g2_v5);
            let r = put_field(r, Q0_SPDIF_RATE_MASK, g2_v6);
            let r = put_field(r, Q0_ACTIVE_CLK_SRC_MASK, g2_v7);
            let r = put_field(r, Q0_EXT_CLK_RATE_MASK, g2_v8);
            &&& r & Q0_LOCK_ADAT_MASK == g2_v0
            &&& r & Q0_LOCK_SPDIF_MASK == g2_v1
            &&& r & Q0_LOCK_WORD_CLOCK_MASK == g2_v2
            &&& r & Q0_SYNC_ADAT_MASK == g2_v3
            &&& r & Q0_SYNC_SPDIF_MASK == g2_v4
            &&& r & Q0_SYNC_WORD_CLOCK_MASK == g2_v5
            &&& r & Q0_SPDIF_RATE_MASK == g2_v6
            &&& r & Q0_ACTIVE_CLK_SRC_MASK == g2_v7
            &&& r & Q0_EXT_CLK_RATE_MASK == g2_v8
        }),
        ((g3_v0 & !Q1_SPDIF_IN_IFACE_MASK == 0) && (g3_v1 & !Q1_SPDIF_OUT_FMT_MASK == 0) && (g3_v2 & !Q1_SPDIF_OUT_EMPHASIS_MASK == 0) && (g3_v3 & !Q1_OPT_OUT_SIGNAL_MASK == 0) && (g3_v4 & !Q1_WORD_OUT_SINGLE_MASK == 0) && (conf_clk_src_flag_valid(g3_v5)) && (conf_clk_rate_flag_valid(g3_v6))) ==> ({
            let r = put_field(0, Q1_SPDIF_IN_IFACE_MASK, g3_v0);
            let r = put_field(r, Q1_SPDIF_OUT_FMT_MASK, g3_v1);
            let r = put_field(r, Q1_SPDIF_OUT_EMPHASIS_MASK, g3_v2);
            let r = put_field(r, Q1_OPT_OUT_SIGNAL_MASK, g3_v3);
            let r = put_field(r, Q1_WORD_OUT_SINGLE_MASK, g3_v4);
            let r = put_field(r, Q1_CONF_CLK_SRC_MASK, g3_v5);
            let r = put_field(r, Q1_CONF_CLK_RATE_MASK, g3_v6);
            &&& r & Q1_SPDIF_IN_IFACE_MASK == g3_v0
            &&& r & Q1_SPDIF_OUT_FMT_MASK == g3_v1
            &&& r & Q1_SPDIF_OUT_EMPHASIS_MASK == g3_v2
            &&& r & Q1_OPT_OUT_SIGNAL_MASK == g3_v3
            &&& r & Q1_WORD_OUT_SINGLE_MASK == g3_v4
            &&& r & Q1_CONF_CLK_SRC_MASK == g3_v5
            &&& r & Q1_CONF_CLK_RATE_MASK == g3_v6
        }),
        ((clk_src_flag_valid(g4_v0)) && (g4_v1 & !Q2_CLK_AVAIL_RATE_BASE_44100_MASK == 0) && (g4_v2 & !Q2_CLK_AVAIL_RATE_BASE_48000_MASK == 0) && (g4_v3 & !Q2_CLK_AVAIL_RATE_DOUBLE_MASK == 0) && (g4_v4 & !Q2_CLK_AVAIL_RATE_QUADRUPLE_MASK == 0)) ==> ({
            let r = put_field(g4_q, Q2_CLK_SRC_MASK, g4_v0);
            let r = put_field(r, Q2_CLK_AVAIL_RATE_BASE_44100_MASK, g4_v1);
            let r = put_field(r, Q2_CLK_AVAIL_RATE_BASE_48000_MASK, g4_v2);
            let r = put_field(r, Q2_CLK_AVAIL_RATE_DOUBLE_MASK, g4_v3);
            let r = put_field(r, Q2_CLK_AVAIL_RATE_QUADRUPLE_MASK, g4_v4);
            &&& r & Q2_CLK_SRC_MASK == g4_v0
            &&& r & Q2_CLK_AVAIL_RATE_BASE_44100_MASK == g4_v1
            &&& r & Q2_CLK_AVAIL_RATE_BASE_48000_MASK == g4_v2
            &&& r & Q2_CLK_AVAIL_RATE_DOUBLE_MASK == g4_v3
            &&& r & Q2_CLK_AVAIL_RATE_QUADRUPLE_MASK == g4_v4
        }),
        ((g5_q & analog_in_or_bits() == 0) && (line_in_level_flag0_valid(g5_v0)) && (g5_v1 & !Q0_INPUT_0_POWERING_MASK == 0) && (g5_v2 & !Q0_INPUT_1_POWERING_MASK == 0) && (g5_v3 & !Q0_INPUT_2_INST_MASK == 0) && (g5_v4 & !Q0_INPUT_3_INST_MASK == 0) && (g5_v5 & !Q0_INPUT_2_PAD_MASK == 0) && (g5_v6 & !Q0_INPUT_3_PAD_MASK == 0)) ==> ({
            let r = put_field(g5_q, Q0_LINE_IN_LEVEL_MASK, g5_v0);
            let r = or_bits(r, g5_v1);
            let r = or_bits(r, g5_v2);
            let r = or_bits(r, g5_v3);
            let r = or_bits(r, g5_v4);
            let r = or_bits(r, g5_v5);
            let r = or_bits(r, g5_v6);
            &&& r & Q0_LINE_IN_LEVEL_MASK == g5_v0
            &&& r & Q0_INPUT_0_POWERING_MASK == g5_v1
            &&& r & Q0_INPUT_1_POWERING_MASK == g5_v2
            &&& r & Q0_INPUT_2_INST_MASK == g5_v3
            &&& r & Q0_INPUT_3_INST_MASK == g5_v4
            &&& r & Q0_INPUT_2_PAD_MASK == g5_v5
            &&& r & Q0_INPUT_3_PAD_MASK == g5_v6
        }),
        ((line_in_level_flag1_valid(g6_v0))) ==> ({
            let r = put_field(g6_q, Q1_LINE_IN_LEVEL_MASK, g6_v0);
            &&& r & Q1_LINE_IN_LEVEL_MASK == g6_v0
        }),
        ((midi_tx_low_offset_flag_valid(g7_v0))) ==> ({
            let r = put_field(g7_q, Q2_MIDI_TX_LOW_OFFSET_MASK, g7_v0);
            &&& r & Q2_MIDI_TX_LOW_OFFSET_MASK == g7_v0
        }),
        ((line_in_level_flag0_valid(g8_v0)) && (g8_v1 & !Q0_INPUT_0_POWERING_MASK == 0) && (g8_v2 & !Q0_INPUT_1_POWERING_MASK == 0) && (g8_v3 & !Q0_INPUT_2_INST_MASK == 0) && (g8_v4 & !Q0_INPUT_3_INST_MASK == 0) && (g8_v5 & !Q0_INPUT_2_PAD_MASK == 0) && (g8_v6 & !Q0_INPUT_3_PAD_MASK == 0) && (line_out_level_flag0_valid(g8_v7)) && (hp_out_level_flag_valid(g8_v8))) ==> ({
            let r = put_field(0, Q0_LINE_IN_LEVEL_MASK, g8_v0);
            let r = or_bits(r, g8_v1);
            let r = or_bits(r, g8_v2);
            let r = or_bits(r, g8_v3);
            let r = or_bits(r, g8_v4);
            let r = or_bits(r, g8_v5);
            let r = or_bits(r, g8_v6);
            let r = put_field(r, Q0_LINE_OUT_LEVEL_MASK, g8_v7);
            let r = put_field(r, Q0_HP_OUT_LEVEL_MASK, g8_v8);
            &&& r & Q0_LINE_IN_LEVEL_MASK == g8_v0
            &&& r & Q0_INPUT_0_POWERING_MASK == g8_v1
            &&& r & Q0_INPUT_1_POWERING_MASK == g8_v2
            &&& r & Q0_INPUT_2_INST_MASK == g8_v3
            &&& r & Q0_INPUT_3_INST_MASK == g8_v4
            &&& r & Q0_INPUT_2_PAD_MASK == g8_v5
            &&& r & Q0_INPUT_3_PAD_MASK == g8_v6
            &&& r & Q0_LINE_OUT_LEVEL_MASK == g8_v7
            &&& r & Q0_HP_OUT_LEVEL_MASK == g8_v8
        }),
        ((line_in_level_flag1_valid(g9_v0)) && (line_out_level_flag1_valid(g9_v1))) ==> ({
            let r = put_field(0, Q1_LINE_IN_LEVEL_MASK, g9_v0);
            let r = put_field(r, Q1_LINE_OUT_LEVEL_MASK, g9_v1);
            &&& r & Q1_LINE_IN_LEVEL_MASK == g9_v0
            &&& r & Q1_LINE_OUT_LEVEL_MASK == g9_v1
        }),
        ((g10_q == 0) && (midi_tx_low_offset_flag_valid(g10_v0)) && (g10_v1 & !Q2_MIDI_TX_SUPPRESS_MASK == 0) && (clk_src_flag_valid(g10_v2)) && (g10_v3 & !Q2_CLK_AVAIL_RATE_BASE_44100_MASK == 0) && (g10_v4 & !Q2_CLK_AVAIL_RATE_BASE_48000_MASK == 0)) ==> ({
            let r = put_field(g10_q, Q2_MIDI_TX_LOW_OFFSET_MASK, g10_v0);
            let r = put_field(r, Q2_MIDI_TX_SUPPRESS_MASK, g10_v1);
            let r = put_field(r, Q2_CLK_SRC_MASK, g10_v2);
            let r = put_field(r, Q2_CLK_AVAIL_RATE_BASE_44100_MASK, g10_v3);
            let r = put_field(r, Q2_CLK_AVAIL_RATE_BASE_48000_MASK, g10_v4);
            &&& r & Q2_MIDI_TX_LOW_OFFSET_MASK == g10_v0
            &&& r & Q2_MIDI_TX_SUPPRESS_MASK == g10_v1
            &&& r & Q2_CLK_SRC_MASK == g10_v2
            &&& r & Q2_CLK_AVAIL_RATE_BASE_44100_MASK == g10_v3
            &&& r & Q2_CLK_AVAIL_RATE_BASE_48000_MASK == g10_v4
            &&& r & (Q2_SPDIF_IN_IFACE_OPT_MASK | Q2_SPDIF_IN_USE_PREEMBLE | Q2_OPT_OUT_SIGNAL_MASK | Q2_SPDIF_OUT_FMT_PRO_MASK | Q2_SPDIF_OUT_EMPHASIS_MASK | Q2_SPDIF_OUT_NON_AUDIO_MASK | Q2_WORD_OUT_SINGLE_SPEED_MASK | Q2_CONTINUE_AT_ERRORS) == 0
        }),
        ((g11_q & (Q2_SPDIF_IN_IFACE_OPT_MASK | Q2_SPDIF_IN_USE_PREEMBLE | Q2_OPT_OUT_SIGNAL_MASK | Q2_SPDIF_OUT_FMT_PRO_MASK | Q2_SPDIF_OUT_EMPHASIS_MASK | Q2_SPDIF_OUT_NON_AUDIO_MASK | Q2_WORD_OUT_SINGLE_SPEED_MASK | Q2_CONTINUE_AT_ERRORS) == 0) && (g11_v0 & !Q2_CLK_AVAIL_RATE_DOUBLE_MASK == 0) && (g11_v1 & !Q2_CLK_AVAIL_RATE_QUADRUPLE_MASK == 0) && (g11_v2 & !Q2_SPDIF_IN_IFACE_OPT_MASK == 0) && (g11_v3 & !Q2_SPDIF_IN_USE_PREEMBLE == 0) && (g11_v4 & !Q2_OPT_OUT_SIGNAL_MASK == 0)) ==> ({
            let r = put_field(g11_q, Q2_CLK_AVAIL_RATE_DOUBLE_MASK, g11_v0);
            let r = put_field(r, Q2_CLK_AVAIL_RATE_QUADRUPLE_MASK, g11_v1);
            let r = or_bits(r, g11_v2);
            let r = or_bits(r, g11_v3);
            let r = or_bits(r, g11_v4);
            &&& r & Q2_CLK_AVAIL_RATE_DOUBLE_MASK == g11_v0
            &&& r & Q2_CLK_AVAIL_RATE_QUADRUPLE_MASK == g11_v1
            &&& r & Q2_SPDIF_IN_IFACE_OPT_MASK == g11_v2
            &&& r & Q2_SPDIF_IN_USE_PREEMBLE == g11_v3
            &&& r & Q2_OPT_OUT_SIGNAL_MASK == g11_v4
            &&& r & Q2_MIDI_TX_LOW_OFFSET_MASK == g11_q & Q2_MIDI_TX_LOW_OFFSET_MASK
            &&& r & Q2_MIDI_TX_SUPPRESS_MASK == g11_q & Q2_MIDI_TX_SUPPRESS_MASK
            &&& r & Q2_CLK_SRC_MASK == g11_q & Q2_CLK_SRC_MASK
            &&& r & Q2_CLK_AVAIL_RATE_BASE_44100_MASK == g11_q & Q2_CLK_AVAIL_RATE_BASE_44100_MASK
            &&& r & Q2_CLK_AVAIL_RATE_BASE_48000_MASK == g11_q & Q2_CLK_AVAIL_RATE_BASE_48000_MASK
            &&& r & (Q2_SPDIF_OUT_FMT_PRO_MASK | Q2_SPDIF_OUT_EMPHASIS_MASK | Q2_SPDIF_OUT_NON_AUDIO_MASK | Q2_WORD_OUT_SINGLE_SPEED_MASK | Q2_CONTINUE_AT_ERRORS) == 0
        }),
        ((g12_q & (Q2_SPDIF_OUT_FMT_PRO_MASK | Q2_SPDIF_OUT_EMPHASIS_MASK | Q2_SPDIF_OUT_NON_AUDIO_MASK | Q2_WORD_OUT_SINGLE_SPEED_MASK | Q2_CONTINUE_AT_ERRORS) == 0) && (g12_v0 & !Q2_SPDIF_OUT_FMT_PRO_MASK == 0) && (g12_v1 & !Q2_SPDIF_OUT_EMPHASIS_MASK == 0) && (g12_v2 & !Q2_SPDIF_OUT_NON_AUDIO_MASK == 0) && (g12_v3 & !Q2_WORD_OUT_SINGLE_SPEED_MASK == 0) && (g12_v4 & !Q2_CONTINUE_AT_ERRORS == 0)) ==> ({
            let r = or_bits(g12_q, g12_v0);
            let r = or_bits(r, g12_v1);
            let r = or_bits(r, g12_v2);
            let r = or_bits(r, g12_v3);
            let r = or_bits(r, g12_v4);
            &&& r & Q2_SPDIF_OUT_FMT_PRO_MASK == g12_v0
            &&& r & Q2_SPDIF_OUT_EMPHASIS_MASK == g12_v1
            &&& r & Q2_SPDIF_OUT_NON_AUDIO_MASK == g12_v2
            &&& r & Q2_WORD_OUT_SINGLE_SPEED_MASK == g12_v3
            &&& r & Q2_CONTINUE_AT_ERRORS == g12_v4
            &&& r & Q2_MIDI_TX_LOW_OFFSET_MASK == g12_q & Q2_MIDI_TX_LOW_OFFSET_MASK
            &&& r & Q2_MIDI_TX_SUPPRESS_MASK == g12_q & Q2_MIDI_TX_SUPPRESS_MASK
            &&& r & Q2_CLK_SRC_MASK == g12_q & Q2_CLK_SRC_MASK
            &&& r & Q2_CLK_AVAIL_RATE_BASE_44100_MASK == g12_q & Q2_CLK_AVAIL_RATE_BASE_44100_MASK
            &&& r & Q2_CLK_AVAIL_RATE_BASE_48000_MASK == g12_q & Q2_CLK_AVAIL_RATE_BASE_48000_MASK
            &&& r & Q2_CLK_AVAIL_RATE_DOUBLE_MASK == g12_q & Q2_CLK_AVAIL_RATE_DOUBLE_MASK
            &&& r & Q2_CLK_AVAIL_RATE_QUADRUPLE_MASK == g12_q & Q2_CLK_AVAIL_RATE_QUADRUPLE_MASK
            &&& r & Q2_SPDIF_IN_IFACE_OPT_MASK == g12_q & Q2_SPDIF_IN_IFACE_OPT_MASK
            &&& r & Q2_SPDIF_IN_USE_PREEMBLE == g12_q & Q2_SPDIF_IN_USE_PREEMBLE
            &&& r & Q2_OPT_OUT_SIGNAL_MASK == g12_q & Q2_OPT_OUT_SIGNAL_MASK
        }),
{
}

} // verus!
