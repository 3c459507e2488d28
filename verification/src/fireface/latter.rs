//! Protocol defined by RME GmbH for latter models of Fireface series.

pub mod ff802;
pub mod ucx;

use crate::bits::{lemma_put_field_bits, put_field, set_field};
use crate::codec::{filled, le_quad_at, le_quads_bytes, push_all, quads_to_le_bytes, read_le_quad};
use crate::fireface::{
    ClkNominalRate, LineOutNominalLevel, RmeFfOffsetParamsDeserialize, RmeFfOffsetParamsSerialize,
};
use vstd::prelude::*;

verus! {

/// The offset of configuration register.
pub const CFG_OFFSET: u64 = 0xffff00000014;
/// The offset of DSP register, which is also read as status register.
pub const DSP_OFFSET: u64 = 0xffff0000001c;
/// The offset of meter registers.
pub const METER_OFFSET: u64 = 0xffffff000000;

// For configuration register (0x'ffff'0000'0014).
pub const CFG_MIDI_TX_LOW_OFFSET_MASK: u32 = 0x0001e000;
pub const CFG_MIDI_TX_LOW_OFFSET_0180_FLAG: u32 = 0x00010000;
pub const CFG_MIDI_TX_LOW_OFFSET_0100_FLAG: u32 = 0x00008000;
pub const CFG_MIDI_TX_LOW_OFFSET_0080_FLAG: u32 = 0x00004000;
pub const CFG_MIDI_TX_LOW_OFFSET_0000_FLAG: u32 = 0x00002000;

/// Low offset of destination address for MIDI messages.
#[derive(Debug, Clone, Copy, PartialEq, Eq, Structural)]
pub enum FfLatterMidiTxLowOffset {
    /// Between 0x0000 to 0x007c.
    A0000,
    /// Between 0x0080 to 0x00fc.
    A0080,
    /// Between 0x0100 to 0x017c.
    A0100,
    /// Between 0x0180 to 0x01fc.
    A0180,
}

impl Default for FfLatterMidiTxLowOffset {
    fn default() -> (r: Self)
        ensures
            r == FfLatterMidiTxLowOffset::A0000,
    {
        FfLatterMidiTxLowOffset::A0000
    }
}

/// The flag of low offset for MIDI messages in configuration register.
pub open spec fn midi_tx_low_offset_flag(offset: FfLatterMidiTxLowOffset) -> u32 {
    match offset {
        FfLatterMidiTxLowOffset::A0000 => CFG_MIDI_TX_LOW_OFFSET_0000_FLAG,
        FfLatterMidiTxLowOffset::A0080 => CFG_MIDI_TX_LOW_OFFSET_0080_FLAG,
        FfLatterMidiTxLowOffset::A0100 => CFG_MIDI_TX_LOW_OFFSET_0100_FLAG,
        FfLatterMidiTxLowOffset::A0180 => CFG_MIDI_TX_LOW_OFFSET_0180_FLAG,
    }
}

/// Each value of `FfLatterMidiTxLowOffset` has its own value in `midi_tx_low_offset_flag`, as the device knows it.
pub proof fn lemma_midi_tx_low_offset_flag_table()
    ensures
        midi_tx_low_offset_flag(FfLatterMidiTxLowOffset::A0000) == CFG_MIDI_TX_LOW_OFFSET_0000_FLAG,
        midi_tx_low_offset_flag(FfLatterMidiTxLowOffset::A0080) == CFG_MIDI_TX_LOW_OFFSET_0080_FLAG,
        midi_tx_low_offset_flag(FfLatterMidiTxLowOffset::A0100) == CFG_MIDI_TX_LOW_OFFSET_0100_FLAG,
        midi_tx_low_offset_flag(FfLatterMidiTxLowOffset::A0180) == CFG_MIDI_TX_LOW_OFFSET_0180_FLAG,
{
}

/// Whether the bits of low offset for MIDI messages stand for one of the offsets.
pub open spec fn midi_tx_low_offset_valid(quad: u32) -> bool {
    let v = quad & CFG_MIDI_TX_LOW_OFFSET_MASK;
    v == CFG_MIDI_TX_LOW_OFFSET_0000_FLAG || v == CFG_MIDI_TX_LOW_OFFSET_0080_FLAG || v
        == CFG_MIDI_TX_LOW_OFFSET_0100_FLAG || v == CFG_MIDI_TX_LOW_OFFSET_0180_FLAG
}

/// The low offset for MIDI messages which the bits stand for.
pub open spec fn midi_tx_low_offset_of(quad: u32) -> FfLatterMidiTxLowOffset {
    let v = quad & CFG_MIDI_TX_LOW_OFFSET_MASK;
    if v == CFG_MIDI_TX_LOW_OFFSET_0180_FLAG {
        FfLatterMidiTxLowOffset::A0180
    } else if v == CFG_MIDI_TX_LOW_OFFSET_0100_FLAG {
        FfLatterMidiTxLowOffset::A0100
    } else if v == CFG_MIDI_TX_LOW_OFFSET_0080_FLAG {
        FfLatterMidiTxLowOffset::A0080
    } else {
        FfLatterMidiTxLowOffset::A0000
    }
}

/// Write the bits of low offset for MIDI messages into the configuration quadlet.
pub fn serialize_midi_tx_low_offset(offset: &FfLatterMidiTxLowOffset, quad: &mut u32)
    ensures
        *final(quad) == put_field(
            *old(quad),
            CFG_MIDI_TX_LOW_OFFSET_MASK,
            midi_tx_low_offset_flag(*offset),
        ),
{
    let flag = match offset {
        FfLatterMidiTxLowOffset::A0000 => CFG_MIDI_TX_LOW_OFFSET_0000_FLAG,
        FfLatterMidiTxLowOffset::A0080 => CFG_MIDI_TX_LOW_OFFSET_0080_FLAG,
        FfLatterMidiTxLowOffset::A0100 => CFG_MIDI_TX_LOW_OFFSET_0100_FLAG,
        FfLatterMidiTxLowOffset::A0180 => CFG_MIDI_TX_LOW_OFFSET_0180_FLAG,
    };
    *quad = set_field(*quad, CFG_MIDI_TX_LOW_OFFSET_MASK, flag);
}

/// Read the low offset for MIDI messages from the configuration quadlet.
pub fn deserialize_midi_tx_low_offset(offset: &mut FfLatterMidiTxLowOffset, quad: &u32)
    requires
        midi_tx_low_offset_valid(*quad),
    ensures
        *final(offset) == midi_tx_low_offset_of(*quad),
{
    let v = *quad & CFG_MIDI_TX_LOW_OFFSET_MASK;
    *offset = if v == CFG_MIDI_TX_LOW_OFFSET_0180_FLAG {
        FfLatterMidiTxLowOffset::A0180
    } else if v == CFG_MIDI_TX_LOW_OFFSET_0100_FLAG {
        FfLatterMidiTxLowOffset::A0100
    } else if v == CFG_MIDI_TX_LOW_OFFSET_0080_FLAG {
        FfLatterMidiTxLowOffset::A0080
    } else {
        FfLatterMidiTxLowOffset::A0000
    };
}

/// The flags of the fields in configuration register lie within their masks.
pub proof fn lemma_latter_cfg_flags() by (bit_vector)
    ensures
        CFG_MIDI_TX_LOW_OFFSET_0000_FLAG & !CFG_MIDI_TX_LOW_OFFSET_MASK == 0,
        CFG_MIDI_TX_LOW_OFFSET_0080_FLAG & !CFG_MIDI_TX_LOW_OFFSET_MASK == 0,
        CFG_MIDI_TX_LOW_OFFSET_0100_FLAG & !CFG_MIDI_TX_LOW_OFFSET_MASK == 0,
        CFG_MIDI_TX_LOW_OFFSET_0180_FLAG & !CFG_MIDI_TX_LOW_OFFSET_MASK == 0,
{
}

/// The low offset for MIDI messages is read back from any quadlet it was written into.
pub proof fn lemma_midi_tx_low_offset_roundtrip(quad: u32, offset: FfLatterMidiTxLowOffset)
    ensures
        midi_tx_low_offset_valid(
            put_field(quad, CFG_MIDI_TX_LOW_OFFSET_MASK, midi_tx_low_offset_flag(offset)),
        ),
        midi_tx_low_offset_of(
            put_field(quad, CFG_MIDI_TX_LOW_OFFSET_MASK, midi_tx_low_offset_flag(offset)),
        ) == offset,
{
    lemma_latter_cfg_flags();
    lemma_put_field_bits(quad, CFG_MIDI_TX_LOW_OFFSET_MASK, midi_tx_low_offset_flag(offset));
}

/// The size of configuration register.
pub const LATTER_CONFIG_SIZE: usize = 4;

/// The size of status register.
pub const LATTER_STATUS_SIZE: usize = 4;

// For status register (0x'ffff'0000'001c).
pub const STATUS_CLK_RATE_32000: u32 = 0x00;
pub const STATUS_CLK_RATE_44100: u32 = 0x01;
pub const STATUS_CLK_RATE_48000: u32 = 0x02;
pub const STATUS_CLK_RATE_64000: u32 = 0x04;
pub const STATUS_CLK_RATE_88200: u32 = 0x05;
pub const STATUS_CLK_RATE_96000: u32 = 0x06;
pub const STATUS_CLK_RATE_128000: u32 = 0x08;
pub const STATUS_CLK_RATE_176400: u32 = 0x09;
pub const STATUS_CLK_RATE_192000: u32 = 0x0a;
pub const STATUS_CLK_RATE_NONE: u32 = 0x0f;

/// The four bits of code at the shift in the status quadlet.
pub open spec fn rate_field(quad: u32, shift: u32) -> u32 {
    (quad >> shift) & 0xfu32
}

/// The code of the rate of sampling clock in status register.
pub open spec fn clock_rate_code(rate: ClkNominalRate) -> u32 {
    match rate {
        ClkNominalRate::R32000 => STATUS_CLK_RATE_32000,
        ClkNominalRate::R44100 => STATUS_CLK_RATE_44100,
        ClkNominalRate::R48000 => STATUS_CLK_RATE_48000,
        ClkNominalRate::R64000 => STATUS_CLK_RATE_64000,
        ClkNominalRate::R88200 => STATUS_CLK_RATE_88200,
        ClkNominalRate::R96000 => STATUS_CLK_RATE_96000,
        ClkNominalRate::R128000 => STATUS_CLK_RATE_128000,
        ClkNominalRate::R176400 => STATUS_CLK_RATE_176400,
        ClkNominalRate::R192000 => STATUS_CLK_RATE_192000,
    }
}

/// Each value of `ClkNominalRate` has its own value in `clock_rate_code`, as the device knows it.
pub proof fn lemma_clock_rate_code_table()
    ensures
        clock_rate_code(ClkNominalRate::R32000) == STATUS_CLK_RATE_32000,
        clock_rate_code(ClkNominalRate::R44100) == STATUS_CLK_RATE_44100,
        clock_rate_code(ClkNominalRate::R48000) == STATUS_CLK_RATE_48000,
        clock_rate_code(ClkNominalRate::R64000) == STATUS_CLK_RATE_64000,
        clock_rate_code(ClkNominalRate::R88200) == STATUS_CLK_RATE_88200,
        clock_rate_code(ClkNominalRate::R96000) == STATUS_CLK_RATE_96000,
        clock_rate_code(ClkNominalRate::R128000) == STATUS_CLK_RATE_128000,
        clock_rate_code(ClkNominalRate::R176400) == STATUS_CLK_RATE_176400,
        clock_rate_code(ClkNominalRate::R192000) == STATUS_CLK_RATE_192000,
{
}

/// Whether the code stands for a rate of sampling clock.
pub open spec fn clock_rate_code_valid(code: u32) -> bool {
    code == STATUS_CLK_RATE_32000 || code == STATUS_CLK_RATE_44100 || code
        == STATUS_CLK_RATE_48000 || code == STATUS_CLK_RATE_64000 || code == STATUS_CLK_RATE_88200
        || code == STATUS_CLK_RATE_96000 || code == STATUS_CLK_RATE_128000 || code
        == STATUS_CLK_RATE_176400 || code == STATUS_CLK_RATE_192000
}

/// The rate of sampling clock which the code stands for.
pub open spec fn clock_rate_of_code(code: u32) -> ClkNominalRate {
    if code == STATUS_CLK_RATE_32000 {
        ClkNominalRate::R32000
    } else if code == STATUS_CLK_RATE_44100 {
        ClkNominalRate::R44100
    } else if code == STATUS_CLK_RATE_48000 {
        ClkNominalRate::R48000
    } else if code == STATUS_CLK_RATE_64000 {
        ClkNominalRate::R64000
    } else if code == STATUS_CLK_RATE_88200 {
        ClkNominalRate::R88200
    } else if code == STATUS_CLK_RATE_96000 {
        ClkNominalRate::R96000
    } else if code == STATUS_CLK_RATE_128000 {
        ClkNominalRate::R128000
    } else if code == STATUS_CLK_RATE_176400 {
        ClkNominalRate::R176400
    } else {
        ClkNominalRate::R192000
    }
}

/// Each value which the device uses is read by `clock_rate_of_code` as its own `ClkNominalRate`.
pub proof fn lemma_clock_rate_of_code_table()
    ensures
        clock_rate_of_code(STATUS_CLK_RATE_32000) == ClkNominalRate::R32000,
        clock_rate_of_code(STATUS_CLK_RATE_44100) == ClkNominalRate::R44100,
        clock_rate_of_code(STATUS_CLK_RATE_48000) == ClkNominalRate::R48000,
        clock_rate_of_code(STATUS_CLK_RATE_64000) == ClkNominalRate::R64000,
        clock_rate_of_code(STATUS_CLK_RATE_88200) == ClkNominalRate::R88200,
        clock_rate_of_code(STATUS_CLK_RATE_96000) == ClkNominalRate::R96000,
        clock_rate_of_code(STATUS_CLK_RATE_128000) == ClkNominalRate::R128000,
        clock_rate_of_code(STATUS_CLK_RATE_176400) == ClkNominalRate::R176400,
{
}

/// The code of an optional rate of sampling clock; none has its own code.
pub open spec fn opt_clock_rate_code(rate: Option<ClkNominalRate>) -> u32 {
    match rate {
        Some(r) => clock_rate_code(r),
        None => STATUS_CLK_RATE_NONE,
    }
}

/// The optional rate which the code stands for.
pub open spec fn opt_clock_rate_of_code(code: u32) -> Option<ClkNominalRate> {
    if code != STATUS_CLK_RATE_NONE {
        Some(clock_rate_of_code(code))
    } else {
        None
    }
}

fn clock_rate_code_exec(rate: &ClkNominalRate) -> (r: u32)
    ensures
        r == clock_rate_code(*rate),
{
    match rate {
        ClkNominalRate::R32000 => STATUS_CLK_RATE_32000,
        ClkNominalRate::R44100 => STATUS_CLK_RATE_44100,
        ClkNominalRate::R48000 => STATUS_CLK_RATE_48000,
        ClkNominalRate::R64000 => STATUS_CLK_RATE_64000,
        ClkNominalRate::R88200 => STATUS_CLK_RATE_88200,
        ClkNominalRate::R96000 => STATUS_CLK_RATE_96000,
        ClkNominalRate::R128000 => STATUS_CLK_RATE_128000,
        ClkNominalRate::R176400 => STATUS_CLK_RATE_176400,
        ClkNominalRate::R192000 => STATUS_CLK_RATE_192000,
    }
}

/// Add the code of rate of sampling clock at the shift into the quadlet.
pub fn serialize_clock_rate(clock_rate: &ClkNominalRate, quad: &mut u32, shift: usize)
    requires
        shift <= 28,
    ensures
        *final(quad) == *old(quad) | (clock_rate_code(*clock_rate) << (shift as u32)),
{
    let val = clock_rate_code_exec(clock_rate);
    *quad = *quad | (val << (shift as u32));
}

fn clock_rate_of_code_exec(code: u32) -> (r: ClkNominalRate)
    ensures
        r == clock_rate_of_code(code),
{
    if code == STATUS_CLK_RATE_32000 {
        ClkNominalRate::R32000
    } else if code == STATUS_CLK_RATE_44100 {
        ClkNominalRate::R44100
    } else if code == STATUS_CLK_RATE_48000 {
        ClkNominalRate::R48000
    } else if code == STATUS_CLK_RATE_64000 {
        ClkNominalRate::R64000
    } else if code == STATUS_CLK_RATE_88200 {
        ClkNominalRate::R88200
    } else if code == STATUS_CLK_RATE_96000 {
        ClkNominalRate::R96000
    } else if code == STATUS_CLK_RATE_128000 {
        ClkNominalRate::R128000
    } else if code == STATUS_CLK_RATE_176400 {
        ClkNominalRate::R176400
    } else {
        ClkNominalRate::R192000
    }
}

/// Read the rate of sampling clock from the code at the shift in the quadlet.
pub fn deserialize_clock_rate(clock_rate: &mut ClkNominalRate, quad: &u32, shift: usize)
    requires
        shift <= 28,
        clock_rate_code_valid(rate_field(*quad, shift as u32)),
    ensures
        *final(clock_rate) == clock_rate_of_code(rate_field(*quad, shift as u32)),
{
    *clock_rate = clock_rate_of_code_exec((*quad >> (shift as u32)) & 0xfu32);
}

/// Add the code of an optional rate of sampling clock at the shift into the quadlet.
pub fn serialize_clock_rate_optional(
    clock_rate: &Option<ClkNominalRate>,
    quad: &mut u32,
    shift: usize,
)
    requires
        shift <= 28,
    ensures
        *final(quad) == *old(quad) | (opt_clock_rate_code(*clock_rate) << (shift as u32)),
{
    if let Some(r) = clock_rate {
        serialize_clock_rate(r, quad, shift)
    } else {
        *quad = *quad | (STATUS_CLK_RATE_NONE << (shift as u32));
    }
}

/// Read an optional rate of sampling clock from the code at the shift in the quadlet.
pub fn deserialize_clock_rate_optional(
    clock_rate: &mut Option<ClkNominalRate>,
    quad: &u32,
    shift: usize,
)
    requires
        shift <= 28,
        rate_field(*quad, shift as u32) == STATUS_CLK_RATE_NONE || clock_rate_code_valid(
            rate_field(*quad, shift as u32),
        ),
    ensures
        *final(clock_rate) == opt_clock_rate_of_code(rate_field(*quad, shift as u32)),
{
    if (*quad >> (shift as u32)) & 0xfu32 != STATUS_CLK_RATE_NONE {
        let mut r = ClkNominalRate::default();
        deserialize_clock_rate(&mut r, quad, shift);
        *clock_rate = Some(r);
    } else {
        *clock_rate = None;
    }
}

/// A code of four bits added into cleared bits at the shift is read back, and the other codes
/// stay as they are.
pub proof fn lemma_rate_field_put(quad: u32, code: u32, shift: u32, other: u32) by (bit_vector)
    requires
        code < 16,
        shift <= 28,
        other <= 28,
        (quad >> shift) & 0xfu32 == 0,
        shift + 4 <= other || other + 4 <= shift,
    ensures
        ((quad | (code << shift)) >> shift) & 0xfu32 == code,
        ((quad | (code << shift)) >> other) & 0xfu32 == (quad >> other) & 0xfu32,
{
}

/// A rate is read back from its code, which never stands for none.
pub proof fn lemma_clock_rate_code(rate: ClkNominalRate)
    ensures
        clock_rate_code(rate) < 16,
        clock_rate_code(rate) != STATUS_CLK_RATE_NONE,
        clock_rate_code_valid(clock_rate_code(rate)),
        clock_rate_of_code(clock_rate_code(rate)) == rate,
{
}

/// An optional rate is read back from its code.
pub proof fn lemma_opt_clock_rate_code(rate: Option<ClkNominalRate>)
    ensures
        opt_clock_rate_code(rate) < 16,
        opt_clock_rate_code(rate) == STATUS_CLK_RATE_NONE || clock_rate_code_valid(
            opt_clock_rate_code(rate),
        ),
        opt_clock_rate_of_code(opt_clock_rate_code(rate)) == rate,
{
}

/// The rate of sampling clock is read back from the quadlet it was added into at the shift,
/// when the bits there were clear.
pub proof fn lemma_clock_rate_roundtrip(quad: u32, rate: ClkNominalRate, shift: u32)
    requires
        shift <= 28,
        rate_field(quad, shift) == 0,
    ensures
        clock_rate_code_valid(rate_field(quad | (clock_rate_code(rate) << shift), shift)),
        clock_rate_of_code(rate_field(quad | (clock_rate_code(rate) << shift), shift)) == rate,
{
    lemma_clock_rate_code(rate);
    lemma_rate_field_put(quad, clock_rate_code(rate), shift, if shift >= 4 { 0 } else { 8 });
}

/// The specification of latter model.
pub trait RmeFfLatterSpecification {
    /// The number of line inputs.
    const LINE_INPUT_COUNT: usize;
    /// The number of microphone inputs.
    const MIC_INPUT_COUNT: usize;
    /// The number of S/PDIF inputs.
    const SPDIF_INPUT_COUNT: usize;
    /// The number of ADAT inputs.
    const ADAT_INPUT_COUNT: usize;
    /// The number of stream inputs.
    const STREAM_INPUT_COUNT: usize;
    /// The number of returns from effect.
    const FX_RETURN_COUNT: usize;

    /// The number of line outputs.
    const LINE_OUTPUT_COUNT: usize;
    /// The number of headphone outputs.
    const HP_OUTPUT_COUNT: usize;
    /// The number of S/PDIF outputs.
    const SPDIF_OUTPUT_COUNT: usize;
    /// The number of ADAT outputs.
    const ADAT_OUTPUT_COUNT: usize;

    /// The physical inputs, and apart from them the physical outputs, are as many as the meter
    /// chunk has room for, and stream inputs follow them in the address space of DSP.
    proof fn lemma_port_counts()
        ensures
            Self::LINE_INPUT_COUNT + Self::MIC_INPUT_COUNT + Self::SPDIF_INPUT_COUNT
                + Self::ADAT_INPUT_COUNT <= 32,
            Self::LINE_OUTPUT_COUNT + Self::HP_OUTPUT_COUNT + Self::SPDIF_OUTPUT_COUNT
                + Self::ADAT_OUTPUT_COUNT <= 32,
            Self::STREAM_INPUT_COUNT <= 32,
    ;
}

/// The number of physical inputs of the model.
pub open spec fn phys_input_count<O: RmeFfLatterSpecification + ?Sized>() -> int {
    O::LINE_INPUT_COUNT + O::MIC_INPUT_COUNT + O::SPDIF_INPUT_COUNT + O::ADAT_INPUT_COUNT
}

/// The number of physical outputs of the model.
pub open spec fn output_count<O: RmeFfLatterSpecification + ?Sized>() -> int {
    O::LINE_OUTPUT_COUNT + O::HP_OUTPUT_COUNT + O::SPDIF_OUTPUT_COUNT + O::ADAT_OUTPUT_COUNT
}

/// The specification of DSP.
///
/// DSP is configurable by quadlet write request with command aligned to little endian, which
/// consists of two parts; 16 bit target and 16 bit coefficient. The command has odd parity
/// bit in its most significant bit against the rest of bits.
pub trait RmeFfLatterDspSpecification: RmeFfLatterSpecification {
    /// The number of physical inputs.
    fn phys_input_count() -> (r: usize)
        ensures
            r == phys_input_count::<Self>(),
    {
        proof {
            Self::lemma_port_counts();
        }
        Self::LINE_INPUT_COUNT + Self::MIC_INPUT_COUNT + Self::SPDIF_INPUT_COUNT
            + Self::ADAT_INPUT_COUNT
    }

    /// The number of inputs, physical and stream.
    fn input_count() -> (r: usize)
        ensures
            r == phys_input_count::<Self>() + Self::STREAM_INPUT_COUNT,
    {
        proof {
            Self::lemma_port_counts();
        }
        Self::phys_input_count() + Self::STREAM_INPUT_COUNT
    }

    /// The number of physical outputs.
    fn output_count() -> (r: usize)
        ensures
            r == output_count::<Self>(),
    {
        proof {
            Self::lemma_port_counts();
        }
        Self::LINE_OUTPUT_COUNT + Self::HP_OUTPUT_COUNT + Self::SPDIF_OUTPUT_COUNT
            + Self::ADAT_OUTPUT_COUNT
    }

    /// The offset of stream inputs in the address space of DSP.
    const STREAM_OFFSET: u16 = 0x0020;
    /// The step between mixers in the address space of DSP.
    const MIXER_STEP: u16 = 0x0040;
}

impl<O: RmeFfLatterSpecification> RmeFfLatterDspSpecification for O {

}

pub const VIRT_PORT_CMD_FLAG: u32 = 0x40000000;
pub const ODD_PARITY_FLAG: u32 = 0x80000000;

/// The command to a physical port: the channel, the kind of command and the 16 bit word of its
/// coefficient.
pub open spec fn port_cmd_value(ch: u8, cmd: u8, word: u16) -> u32 {
    ((ch as u32) << 24u32) | ((cmd as u32) << 16u32) | (word as u32)
}

/// The channel which a command to a physical port addresses: its highest byte.
pub open spec fn cmd_channel(v: u32) -> u32 {
    v >> 24u32
}

/// The kind of a command to a physical port: its second highest byte.
pub open spec fn cmd_code(v: u32) -> u32 {
    (v >> 16u32) & 0xffu32
}

/// The word of coefficient which a command to a physical port carries: its lower half.
pub open spec fn cmd_word(v: u32) -> u32 {
    v & 0xffffu32
}

/// A command to a physical port carries its channel in the highest byte, its kind in the next
/// byte and its word in the lower half.
pub proof fn lemma_port_cmd_fields(ch: u8, cmd: u8, word: u16)
    ensures
        cmd_channel(port_cmd_value(ch, cmd, word)) == ch as u32,
        cmd_code(port_cmd_value(ch, cmd, word)) == cmd as u32,
        cmd_word(port_cmd_value(ch, cmd, word)) == word as u32,
{
    let c = ch as u32;
    let k = cmd as u32;
    let w = word as u32;
    assert(c < 256 && k < 256 && w < 65536 ==> ((c << 24u32) | (k << 16u32) | w) >> 24u32 == c) by (bit_vector);
    assert(c < 256 && k < 256 && w < 65536 ==> ((((c << 24u32) | (k << 16u32) | w) >> 16u32) & 0xffu32) == k)
        by (bit_vector);
    assert(c < 256 && k < 256 && w < 65536 ==> (((c << 24u32) | (k << 16u32) | w) & 0xffffu32) == w) by (bit_vector);
}

/// The command to a source of virtual mixer: the flag, the address of the source in the mixer and
/// the coefficient.
pub open spec fn virt_port_cmd_value(mixer_step: u16, mixer: u16, ch: u16, coef: u16) -> u32 {
    VIRT_PORT_CMD_FLAG | (((mixer_step * mixer + ch) as u32) << 16u32) | (coef as u32)
}

/// Build the command to a physical port; the coefficient is carried in two's complement.
pub fn create_phys_port_cmd(ch: u8, cmd: u8, coef: i16) -> (r: u32)
    ensures
        r == port_cmd_value(ch, cmd, coef as u16),
{
    port_cmd(ch, cmd, coef as u16)
}

fn port_cmd(ch: u8, cmd: u8, word: u16) -> (r: u32)
    ensures
        r == port_cmd_value(ch, cmd, word),
{
    ((ch as u32) << 24u32) | ((cmd as u32) << 16u32) | (word as u32)
}

/// Build the command to a source of virtual mixer.
pub fn create_virt_port_cmd(mixer_step: u16, mixer: u16, ch: u16, coef: u16) -> (r: u32)
    requires
        mixer_step * mixer + ch <= u16::MAX,
    ensures
        r == virt_port_cmd_value(mixer_step, mixer, ch, coef),
{
    VIRT_PORT_CMD_FLAG | (((mixer_step * mixer + ch) as u32) << 16u32) | (coef as u32)
}

/// The number of bits set among the lowest `n` bits.
pub open spec fn count_ones(v: u32, n: nat) -> nat
    decreases n,
{
    if n == 0 {
        0
    } else {
        count_ones(v, (n - 1) as nat) + ((v >> ((n - 1) as u32)) & 1u32) as nat
    }
}

/// The command with the bit of odd parity: the most significant bit is set when the bits of the
/// command are even in number.
pub open spec fn with_odd_parity(cmd: u32) -> u32 {
    if count_ones(cmd, 32) % 2 == 0 {
        cmd | ODD_PARITY_FLAG
    } else {
        cmd
    }
}

/// The bit of a quadlet, either zero or one.
proof fn lemma_bit_value(v: u32, shift: u32) by (bit_vector)
    requires
        shift < 32,
    ensures
        (v >> shift) & 1u32 <= 1,
{
}

/// Add the bit of odd parity to the command.
pub fn add_odd_parity(cmd: u32) -> (r: u32)
    ensures
        r == with_odd_parity(cmd),
{
    let mut count: u32 = 0;
    let mut shift: u32 = 0;
    while shift < 32
        invariant
            shift <= 32,
            count == count_ones(cmd, shift as nat),
            count <= shift,
        decreases 32 - shift,
    {
        proof {
            lemma_bit_value(cmd, shift);
        }
        count = count + ((cmd >> shift) & 1u32);
        shift = shift + 1;
    }
    if count % 2 == 0 {
        cmd | ODD_PARITY_FLAG
    } else {
        cmd
    }
}

/// Frame the command for DSP: add the bit of odd parity and lay the quadlet out in little endian.
pub fn write_dsp_cmd(cmd: u32) -> (raw: Vec<u8>)
    ensures
        raw@ == le_quads_bytes(seq![with_odd_parity(cmd)]),
{
    let quads = [add_odd_parity(cmd)];
    proof {
        assert(quads@ =~= seq![with_odd_parity(cmd)]);
    }
    quads_to_le_bytes(&quads)
}

/// The commands with the bit of odd parity each.
pub open spec fn framed_cmds(cmds: Seq<u32>) -> Seq<u32> {
    cmds.map_values(|c: u32| with_odd_parity(c))
}

/// Add the bit of odd parity to each command.
pub fn add_odd_parities(cmds: &[u32]) -> (r: Vec<u32>)
    ensures
        r@ == framed_cmds(cmds@),
{
    let mut r: Vec<u32> = Vec::new();
    let mut i: usize = 0;
    while i < cmds.len()
        invariant
            i <= cmds@.len(),
            r@ == framed_cmds(cmds@.take(i as int)),
        decreases cmds@.len() - i,
    {
        r.push(add_odd_parity(cmds[i]));
        proof {
            assert(cmds@.take(i + 1) =~= cmds@.take(i as int).push(cmds@[i as int]));
            assert(r@ =~= framed_cmds(cmds@.take(i + 1)));
        }
        i = i + 1;
    }
    proof {
        assert(cmds@.take(cmds@.len() as int) =~= cmds@);
    }
    r
}

/// The commands in the prefix of `n` entries which differ from the current ones at the same
/// position.
pub open spec fn changed_cmds(curr: Seq<u32>, cmds: Seq<u32>, n: nat) -> Seq<u32>
    decreases n,
{
    if n == 0 {
        Seq::empty()
    } else {
        let prev = changed_cmds(curr, cmds, (n - 1) as nat);
        if cmds[n - 1] != curr[n - 1] {
            prev.push(cmds[n - 1])
        } else {
            prev
        }
    }
}

/// The smaller of two lengths.
pub open spec fn min_len(a: nat, b: nat) -> nat {
    if a <= b {
        a
    } else {
        b
    }
}

/// Select the commands to write: those which differ from the current ones at the same position,
/// as far as both go.
pub fn write_dsp_cmds(curr: &[u32], cmds: &[u32]) -> (r: Vec<u32>)
    ensures
        r@ == changed_cmds(curr@, cmds@, min_len(curr@.len(), cmds@.len())),
{
    let n = if cmds.len() <= curr.len() {
        cmds.len()
    } else {
        curr.len()
    };
    let mut r: Vec<u32> = Vec::new();
    let mut i: usize = 0;
    while i < n
        invariant
            i <= n,
            n == min_len(curr@.len(), cmds@.len()),
            r@ == changed_cmds(curr@, cmds@, i as nat),
        decreases n - i,
    {
        if cmds[i] != curr[i] {
            r.push(cmds[i]);
        }
        i = i + 1;
    }
    r
}

/// Serialize commands for parameters.
pub trait RmeFfCommandParamsSerialize<T> {
    /// Whether the parameters have the shape which the model expects.
    spec fn commands_acceptable(params: T) -> bool;

    /// The commands for the parameters.
    spec fn commands_of(params: T) -> Seq<u32>;

    /// Serialize parameters into commands.
    fn serialize_commands(params: &T) -> (cmds: Vec<u32>)
        requires
            Self::commands_acceptable(*params),
        ensures
            cmds@ == Self::commands_of(*params),
    ;
}

/// Deserialize commands for parameters.
pub trait RmeFfCommandParamsDeserialize<T> {
    /// Derialize parameters from commands.
    fn deserialize_commands(params: &mut T, raw: &[u32]);
}

/// Operation for parameters which can be updated wholly at once.
pub trait RmeFfWhollyCommandableParamsOperation<T>: RmeFfCommandParamsSerialize<T> {
    /// The framed commands to write in order to update the whole parameters.
    fn command_wholly(params: &T) -> (cmds: Vec<u32>)
        requires
            Self::commands_acceptable(*params),
        ensures
            cmds@ == framed_cmds(Self::commands_of(*params)),
    ;
}

impl<O, T> RmeFfWhollyCommandableParamsOperation<T> for O where O: RmeFfCommandParamsSerialize<T> {
    fn command_wholly(params: &T) -> (cmds: Vec<u32>) {
        let cmds = Self::serialize_commands(params);
        add_odd_parities(&cmds)
    }
}

/// Operation for parameters which can be updated partially.
pub trait RmeFfPartiallyCommandableParamsOperation<T>: RmeFfCommandParamsSerialize<T> {
    /// The framed commands to write in order to update the parameters to the new ones: those
    /// which differ from the commands of the current parameters. The parameters are replaced by
    /// the new ones.
    fn command_partially(params: &mut T, update: T) -> (cmds: Vec<u32>)
        requires
            Self::commands_acceptable(*old(params)),
            Self::commands_acceptable(update),
        ensures
            cmds@ == framed_cmds(
                changed_cmds(
                    Self::commands_of(*old(params)),
                    Self::commands_of(update),
                    min_len(
                        Self::commands_of(*old(params)).len(),
                        Self::commands_of(update).len(),
                    ),
                ),
            ),
            *final(params) == update,
    ;
}

impl<O, T> RmeFfPartiallyCommandableParamsOperation<T> for O where
    O: RmeFfCommandParamsSerialize<T>,
 {
    fn command_partially(params: &mut T, update: T) -> (cmds: Vec<u32>) {
        let old = Self::serialize_commands(params);
        let new = Self::serialize_commands(&update);
        let changed = write_dsp_cmds(&old, &new);
        *params = update;
        add_odd_parities(&changed)
    }
}



// Kinds of command to DSP.
pub const INPUT_TO_FX_CMD: u8 = 0x01;
pub const INPUT_STEREO_LINK_CMD: u8 = 0x02;
pub const INPUT_INVERT_PHASE_CMD: u8 = 0x06;
pub const INPUT_LINE_GAIN_CMD: u8 = 0x07;
pub const INPUT_LINE_LEVEL_CMD: u8 = 0x08;
pub const INPUT_MIC_POWER_CMD: u8 = 0x08;
pub const INPUT_MIC_INST_CMD: u8 = 0x09;
pub const OUTPUT_VOL_CMD: u8 = 0x00;
pub const OUTPUT_STEREO_BALANCE_CMD: u8 = 0x01;
pub const OUTPUT_FROM_FX_CMD: u8 = 0x03;
pub const OUTPUT_STEREO_LINK_CMD: u8 = 0x04;
pub const OUTPUT_INVERT_PHASE_CMD: u8 = 0x07;
pub const OUTPUT_LINE_LEVEL_CMD: u8 = 0x08;
pub const HPF_ACTIVATE_CMD: u8 = 0x20;
pub const HPF_CUT_OFF_CMD: u8 = 0x21;
pub const HPF_ROLL_OFF_CMD: u8 = 0x22;
pub const EQ_ACTIVATE_CMD: u8 = 0x40;
pub const EQ_LOW_TYPE_CMD: u8 = 0x41;
pub const EQ_LOW_GAIN_CMD: u8 = 0x42;
pub const EQ_LOW_FREQ_CMD: u8 = 0x43;
pub const EQ_LOW_QUALITY_CMD: u8 = 0x44;
pub const EQ_MIDDLE_GAIN_CMD: u8 = 0x45;
pub const EQ_MIDDLE_FREQ_CMD: u8 = 0x46;
pub const EQ_MIDDLE_QUALITY_CMD: u8 = 0x47;
pub const EQ_HIGH_TYPE_CMD: u8 = 0x48;
pub const EQ_HIGH_GAIN_CMD: u8 = 0x49;
pub const EQ_HIGH_FREQ_CMD: u8 = 0x4a;
pub const EQ_HIGH_QUALITY_CMD: u8 = 0x4b;
pub const DYN_ACTIVATE_CMD: u8 = 0x60;
pub const DYN_GAIN_CMD: u8 = 0x61;
pub const DYN_ATTACK_CMD: u8 = 0x62;
pub const DYN_RELEASE_CMD: u8 = 0x63;
pub const DYN_COMPR_THRESHOLD_CMD: u8 = 0x64;
pub const DYN_COMPR_RATIO_CMD: u8 = 0x65;
pub const DYN_EXPANDER_THRESHOLD_CMD: u8 = 0x66;
pub const DYN_EXPANDER_RATIO_CMD: u8 = 0x67;
pub const AUTOLEVEL_ACTIVATE_CMD: u8 = 0x80;
pub const AUTOLEVEL_MAX_GAIN_CMD: u8 = 0x81;
pub const AUTOLEVEL_HEADROOM_CMD: u8 = 0x82;
pub const AUTOLEVEL_RISE_TIME_CMD: u8 = 0x83;
pub const FX_REVERB_ACTIVATE_CMD: u8 = 0x00;
pub const FX_REVERB_TYPE_CMD: u8 = 0x01;
pub const FX_REVERB_PRE_DELAY_CMD: u8 = 0x02;
pub const FX_REVERB_PRE_HPF_FREQ_CMD: u8 = 0x03;
pub const FX_REVERB_ROOM_SCALE_CMD: u8 = 0x04;
pub const FX_REVERB_ATTACK_CMD: u8 = 0x05;
pub const FX_REVERB_HOLD_CMD: u8 = 0x06;
pub const FX_REVERB_RELEASE_CMD: u8 = 0x07;
pub const FX_REVERB_POST_LPF_FREQ_CMD: u8 = 0x08;
pub const FX_REVERB_TIME_CMD: u8 = 0x09;
pub const FX_REVERB_DAMPING_FREQ_CMD: u8 = 0x0a;
pub const FX_REVERB_SMOOTH_CMD: u8 = 0x0b;
pub const FX_REVERB_VOLUME_CMD: u8 = 0x0c;
pub const FX_REVERB_STEREO_WIDTH_CMD: u8 = 0x0d;
pub const FX_ECHO_ACTIVATE_CMD: u8 = 0x20;
pub const FX_ECHO_TYPE_CMD: u8 = 0x21;
pub const FX_ECHO_DELAY_CMD: u8 = 0x22;
pub const FX_ECHO_FEEDBACK_CMD: u8 = 0x23;
pub const FX_ECHO_LPF_FREQ_CMD: u8 = 0x24;
pub const FX_ECHO_VOLUME_CMD: u8 = 0x25;
pub const FX_ECHO_STEREO_WIDTH_CMD: u8 = 0x26;

/// The word of coefficient for a switch.
pub open spec fn bool_word(on: bool) -> u16 {
    if on {
        1
    } else {
        0
    }
}

fn bool_word_exec(on: bool) -> (r: u16)
    ensures
        r == bool_word(on),
{
    if on {
        1
    } else {
        0
    }
}

/// Nominal level of analog input.
#[derive(Debug, Clone, Copy, PartialEq, Eq, Structural)]
pub enum LatterInNominalLevel {
    Low,
    /// +4 dBu.
    Professional,
}

impl Default for LatterInNominalLevel {
    fn default() -> (r: Self)
        ensures
            r == LatterInNominalLevel::Low,
    {
        LatterInNominalLevel::Low
    }
}

/// The coefficient which stands for the value.
pub open spec fn input_nominal_level_code(v: LatterInNominalLevel) -> i16 {
    match v {
        LatterInNominalLevel::Low => 0x0000,
        LatterInNominalLevel::Professional => 0x0001,
    }
}

/// Each value of `LatterInNominalLevel` has its own value in `input_nominal_level_code`, as the device knows it.
pub proof fn lemma_input_nominal_level_code_table()
    ensures
        input_nominal_level_code(LatterInNominalLevel::Low) == 0x0000,
        input_nominal_level_code(LatterInNominalLevel::Professional) == 0x0001,
{
}

/// The coefficient which stands for the value.
pub fn deserialize_input_nominal_level(v: &LatterInNominalLevel) -> (r: i16)
    ensures
        r == input_nominal_level_code(*v),
        0 <= r,
{
    match v {
        LatterInNominalLevel::Low => 0x0000,
        LatterInNominalLevel::Professional => 0x0001,
    }
}

/// The coefficient which stands for the value.
pub open spec fn output_nominal_level_code(v: LineOutNominalLevel) -> i16 {
    match v {
        LineOutNominalLevel::Consumer => 0x0000,
        LineOutNominalLevel::Professional => 0x0001,
        LineOutNominalLevel::High => 0x0002,
    }
}

/// Each value of `LineOutNominalLevel` has its own value in `output_nominal_level_code`, as the device knows it.
pub proof fn lemma_output_nominal_level_code_table()
    ensures
        output_nominal_level_code(LineOutNominalLevel::Consumer) == 0x0000,
        output_nominal_level_code(LineOutNominalLevel::Professional) == 0x0001,
        output_nominal_level_code(LineOutNominalLevel::High) == 0x0002,
{
}

/// The coefficient which stands for the value.
pub fn deserialize_output_nominal_level(v: &LineOutNominalLevel) -> (r: i16)
    ensures
        r == output_nominal_level_code(*v),
        0 <= r,
{
    match v {
        LineOutNominalLevel::Consumer => 0x0000,
        LineOutNominalLevel::Professional => 0x0001,
        LineOutNominalLevel::High => 0x0002,
    }
}

/// Level of roll off in high pass filter.
#[derive(Debug, Clone, Copy, PartialEq, Eq, Structural)]
pub enum FfLatterHpfRollOffLevel {
    L6,
    L12,
    L18,
    L24,
}

impl Default for FfLatterHpfRollOffLevel {
    fn default() -> (r: Self)
        ensures
            r == FfLatterHpfRollOffLevel::L6,
    {
        FfLatterHpfRollOffLevel::L6
    }
}

/// The coefficient which stands for the value.
pub open spec fn hpf_roll_off_level_code(v: FfLatterHpfRollOffLevel) -> i16 {
    match v {
        FfLatterHpfRollOffLevel::L6 => 0,
        FfLatterHpfRollOffLevel::L12 => 1,
        FfLatterHpfRollOffLevel::L18 => 2,
        FfLatterHpfRollOffLevel::L24 => 3,
    }
}

/// Each value of `FfLatterHpfRollOffLevel` has its own value in `hpf_roll_off_level_code`, as the device knows it.
pub proof fn lemma_hpf_roll_off_level_code_table()
    ensures
        hpf_roll_off_level_code(FfLatterHpfRollOffLevel::L6) == 0,
        hpf_roll_off_level_code(FfLatterHpfRollOffLevel::L12) == 1,
        hpf_roll_off_level_code(FfLatterHpfRollOffLevel::L18) == 2,
        hpf_roll_off_level_code(FfLatterHpfRollOffLevel::L24) == 3,
{
}

/// The coefficient which stands for the value.
pub fn deserialize_hpf_roll_off_level(v: &FfLatterHpfRollOffLevel) -> (r: i16)
    ensures
        r == hpf_roll_off_level_code(*v),
        0 <= r,
{
    match v {
        FfLatterHpfRollOffLevel::L6 => 0,
        FfLatterHpfRollOffLevel::L12 => 1,
        FfLatterHpfRollOffLevel::L18 => 2,
        FfLatterHpfRollOffLevel::L24 => 3,
    }
}

/// Type of bandwidth equalizing.
#[derive(Debug, Clone, Copy, PartialEq, Eq, Structural)]
pub enum FfLatterChStripEqType {
    Peak,
    Shelf,
    LowPass,
}

impl Default for FfLatterChStripEqType {
    fn default() -> (r: Self)
        ensures
            r == FfLatterChStripEqType::Peak,
    {
        FfLatterChStripEqType::Peak
    }
}

/// The coefficient which stands for the value.
pub open spec fn eq_type_code(v: FfLatterChStripEqType) -> i16 {
    match v {
        FfLatterChStripEqType::Peak => 0x0000,
        FfLatterChStripEqType::Shelf => 0x0001,
        FfLatterChStripEqType::LowPass => 0x0002,
    }
}

/// Each value of `FfLatterChStripEqType` has its own value in `eq_type_code`, as the device knows it.
pub proof fn lemma_eq_type_code_table()
    ensures
        eq_type_code(FfLatterChStripEqType::Peak) == 0x0000,
        eq_type_code(FfLatterChStripEqType::Shelf) == 0x0001,
        eq_type_code(FfLatterChStripEqType::LowPass) == 0x0002,
{
}

/// The coefficient which stands for the value.
pub fn deserialize_eq_type(v: &FfLatterChStripEqType) -> (r: i16)
    ensures
        r == eq_type_code(*v),
        0 <= r,
{
    match v {
        FfLatterChStripEqType::Peak => 0x0000,
        FfLatterChStripEqType::Shelf => 0x0001,
        FfLatterChStripEqType::LowPass => 0x0002,
    }
}

/// Type of reverb effect.
#[derive(Debug, Clone, Copy, PartialEq, Eq, Structural)]
pub enum FfLatterFxReverbType {
    SmallRoom,
    MediumRoom,
    LargeRoom,
    Walls,
    Shorty,
    Attack,
    Swagger,
    OldSchool,
    Echoistic,
    EightPlusNine,
    GrandWide,
    Thicker,
    Envelope,
    Gated,
    Space,
}

impl Default for FfLatterFxReverbType {
    fn default() -> (r: Self)
        ensures
            r == FfLatterFxReverbType::SmallRoom,
    {
        FfLatterFxReverbType::SmallRoom
    }
}

/// The coefficient which stands for the value.
pub open spec fn fx_reverb_type_code(v: FfLatterFxReverbType) -> i16 {
    match v {
        FfLatterFxReverbType::SmallRoom => 0x0000,
        FfLatterFxReverbType::MediumRoom => 0x0001,
        FfLatterFxReverbType::LargeRoom => 0x0002,
        FfLatterFxReverbType::Walls => 0x0003,
        FfLatterFxReverbType::Shorty => 0x0004,
        FfLatterFxReverbType::Attack => 0x0005,
        FfLatterFxReverbType::Swagger => 0x0006,
        FfLatterFxReverbType::OldSchool => 0x0007,
        FfLatterFxReverbType::Echoistic => 0x0008,
        FfLatterFxReverbType::EightPlusNine => 0x0009,
        FfLatterFxReverbType::GrandWide => 0x000a,
        FfLatterFxReverbType::Thicker => 0x000b,
        FfLatterFxReverbType::Envelope => 0x000c,
        FfLatterFxReverbType::Gated => 0x000d,
        FfLatterFxReverbType::Space => 0x000e,
    }
}

/// Each value of `FfLatterFxReverbType` has its own value in `fx_reverb_type_code`, as the device knows it.
pub proof fn lemma_fx_reverb_type_code_table()
    ensures
        fx_reverb_type_code(FfLatterFxReverbType::SmallRoom) == 0x0000,
        fx_reverb_type_code(FfLatterFxReverbType::MediumRoom) == 0x0001,
        fx_reverb_type_code(FfLatterFxReverbType::LargeRoom) == 0x0002,
        fx_reverb_type_code(FfLatterFxReverbType::Walls) == 0x0003,
        fx_reverb_type_code(FfLatterFxReverbType::Shorty) == 0x0004,
        fx_reverb_type_code(FfLatterFxReverbType::Attack) == 0x0005,
        fx_reverb_type_code(FfLatterFxReverbType::Swagger) == 0x0006,
        fx_reverb_type_code(FfLatterFxReverbType::OldSchool) == 0x0007,
        fx_reverb_type_code(FfLatterFxReverbType::Echoistic) == 0x0008,
        fx_reverb_type_code(FfLatterFxReverbType::EightPlusNine) == 0x0009,
        fx_reverb_type_code(FfLatterFxReverbType::GrandWide) == 0x000a,
        fx_reverb_type_code(FfLatterFxReverbType::Thicker) == 0x000b,
        fx_reverb_type_code(FfLatterFxReverbType::Envelope) == 0x000c,
        fx_reverb_type_code(FfLatterFxReverbType::Gated) == 0x000d,
        fx_reverb_type_code(FfLatterFxReverbType::Space) == 0x000e,
{
}

/// The coefficient which stands for the value.
pub fn deserialize_fx_reverb_type(v: &FfLatterFxReverbType) -> (r: i16)
    ensures
        r == fx_reverb_type_code(*v),
        0 <= r,
{
    match v {
        FfLatterFxReverbType::SmallRoom => 0x0000,
        FfLatterFxReverbType::MediumRoom => 0x0001,
        FfLatterFxReverbType::LargeRoom => 0x0002,
        FfLatterFxReverbType::Walls => 0x0003,
        FfLatterFxReverbType::Shorty => 0x0004,
        FfLatterFxReverbType::Attack => 0x0005,
        FfLatterFxReverbType::Swagger => 0x0006,
        FfLatterFxReverbType::OldSchool => 0x0007,
        FfLatterFxReverbType::Echoistic => 0x0008,
        FfLatterFxReverbType::EightPlusNine => 0x0009,
        FfLatterFxReverbType::GrandWide => 0x000a,
        FfLatterFxReverbType::Thicker => 0x000b,
        FfLatterFxReverbType::Envelope => 0x000c,
        FfLatterFxReverbType::Gated => 0x000d,
        FfLatterFxReverbType::Space => 0x000e,
    }
}

/// Type of echo effect.
#[derive(Debug, Clone, Copy, PartialEq, Eq, Structural)]
pub enum FfLatterFxEchoType {
    StereoEcho,
    StereoCross,
    PongEcho,
}

impl Default for FfLatterFxEchoType {
    fn default() -> (r: Self)
        ensures
            r == FfLatterFxEchoType::StereoEcho,
    {
        FfLatterFxEchoType::StereoEcho
    }
}

/// The coefficient which stands for the value.
pub open spec fn fx_echo_type_code(v: FfLatterFxEchoType) -> i16 {
    match v {
        FfLatterFxEchoType::StereoEcho => 0x0000,
        FfLatterFxEchoType::StereoCross => 0x0001,
        FfLatterFxEchoType::PongEcho => 0x0002,
    }
}

/// Each value of `FfLatterFxEchoType` has its own value in `fx_echo_type_code`, as the device knows it.
pub proof fn lemma_fx_echo_type_code_table()
    ensures
        fx_echo_type_code(FfLatterFxEchoType::StereoEcho) == 0x0000,
        fx_echo_type_code(FfLatterFxEchoType::StereoCross) == 0x0001,
        fx_echo_type_code(FfLatterFxEchoType::PongEcho) == 0x0002,
{
}

/// The coefficient which stands for the value.
pub fn deserialize_fx_echo_type(v: &FfLatterFxEchoType) -> (r: i16)
    ensures
        r == fx_echo_type_code(*v),
        0 <= r,
{
    match v {
        FfLatterFxEchoType::StereoEcho => 0x0000,
        FfLatterFxEchoType::StereoCross => 0x0001,
        FfLatterFxEchoType::PongEcho => 0x0002,
    }
}

/// Frequency of low pass filter for echo effect.
#[derive(Debug, Clone, Copy, PartialEq, Eq, Structural)]
pub enum FfLatterFxEchoLpfFreq {
    Off,
    H2000,
    H4000,
    H8000,
    H12000,
    H16000,
}

impl Default for FfLatterFxEchoLpfFreq {
    fn default() -> (r: Self)
        ensures
            r == FfLatterFxEchoLpfFreq::Off,
    {
        FfLatterFxEchoLpfFreq::Off
    }
}

/// The coefficient which stands for the value.
pub open spec fn fx_echo_lpf_freq_code(v: FfLatterFxEchoLpfFreq) -> i16 {
    match v {
        FfLatterFxEchoLpfFreq::Off => 0x0000,
        FfLatterFxEchoLpfFreq::H2000 => 0x0005,
        FfLatterFxEchoLpfFreq::H4000 => 0x0004,
        FfLatterFxEchoLpfFreq::H8000 => 0x0003,
        FfLatterFxEchoLpfFreq::H12000 => 0x0002,
        FfLatterFxEchoLpfFreq::H16000 => 0x0001,
    }
}

/// Each value of `FfLatterFxEchoLpfFreq` has its own value in `fx_echo_lpf_freq_code`, as the device knows it.
pub proof fn lemma_fx_echo_lpf_freq_code_table()
    ensures
        fx_echo_lpf_freq_code(FfLatterFxEchoLpfFreq::Off) == 0x0000,
        fx_echo_lpf_freq_code(FfLatterFxEchoLpfFreq::H2000) == 0x0005,
        fx_echo_lpf_freq_code(FfLatterFxEchoLpfFreq::H4000) == 0x0004,
        fx_echo_lpf_freq_code(FfLatterFxEchoLpfFreq::H8000) == 0x0003,
        fx_echo_lpf_freq_code(FfLatterFxEchoLpfFreq::H12000) == 0x0002,
        fx_echo_lpf_freq_code(FfLatterFxEchoLpfFreq::H16000) == 0x0001,
{
}

/// The coefficient which stands for the value.
pub fn deserialize_fx_echo_lpf_freq(v: &FfLatterFxEchoLpfFreq) -> (r: i16)
    ensures
        r == fx_echo_lpf_freq_code(*v),
        0 <= r,
{
    match v {
        FfLatterFxEchoLpfFreq::Off => 0x0000,
        FfLatterFxEchoLpfFreq::H2000 => 0x0005,
        FfLatterFxEchoLpfFreq::H4000 => 0x0004,
        FfLatterFxEchoLpfFreq::H8000 => 0x0003,
        FfLatterFxEchoLpfFreq::H12000 => 0x0002,
        FfLatterFxEchoLpfFreq::H16000 => 0x0001,
    }
}

/// State of high pass filter in channel strip effect.
#[derive(Debug, Clone, PartialEq, Eq)]
pub struct FfLatterHpfState {
    /// Whether to activate high pass filter.
    pub activates: Vec<bool>,
    /// The frequency to cut between 20 and 500 Hz.
    pub cut_offs: Vec<u16>,
    /// The ratio to decline gain.
    pub roll_offs: Vec<FfLatterHpfRollOffLevel>,
}

/// The entry at the place `i` after the first `base` entries.
pub open spec fn entry_after<T>(s: Seq<T>, base: int, i: int) -> T {
    s[base + i]
}

/// The entry at the place `j` of the chunk `i`, in a sequence of chunks of the same size.
pub open spec fn chunk_entry<T>(s: Seq<T>, size: int, i: int, j: int) -> T {
    s[size * i + j]
}

/// The commands for the channel at the index.
pub open spec fn hpf_chunk(state: FfLatterHpfState, ch_offset: u8, i: int) -> Seq<u32> {
    let ch = (ch_offset + i) as u8;
    seq![
        port_cmd_value(ch, HPF_ACTIVATE_CMD, bool_word(state.activates@[i])),
        port_cmd_value(ch, HPF_CUT_OFF_CMD, state.cut_offs@[i]),
        port_cmd_value(ch, HPF_ROLL_OFF_CMD, hpf_roll_off_level_code(state.roll_offs@[i]) as u16),
    ]
}

/// The commands for the first `n` channels, channel by channel.
pub open spec fn hpf_cmds_upto(state: FfLatterHpfState, ch_offset: u8, n: nat) -> Seq<u32>
    decreases n,
{
    if n == 0 {
        Seq::empty()
    } else {
        hpf_cmds_upto(state, ch_offset, (n - 1) as nat) + hpf_chunk(state, ch_offset, n - 1)
    }
}

/// The commands for all of the channels.
pub open spec fn hpf_cmds(state: FfLatterHpfState, ch_offset: u8) -> Seq<u32> {
    hpf_cmds_upto(state, ch_offset, state.activates@.len())
}

/// The commands for the first `n` channels hold the chunk of each channel in its place.
proof fn lemma_hpf_cmds_upto_index(state: FfLatterHpfState, ch_offset: u8, n: nat)
    ensures
        hpf_cmds_upto(state, ch_offset, n).len() == 3 * n,
        forall|i: int, j: int|
            0 <= i < n && 0 <= j < 3 ==> #[trigger] chunk_entry(hpf_cmds_upto(state, ch_offset, n), 3, i, j)
                == hpf_chunk(state, ch_offset, i)[j],
    decreases n,
{
    if n > 0 {
        lemma_hpf_cmds_upto_index(state, ch_offset, (n - 1) as nat);
        let prev = hpf_cmds_upto(state, ch_offset, (n - 1) as nat);
        let c = hpf_chunk(state, ch_offset, n - 1);
        assert(hpf_cmds_upto(state, ch_offset, n) == prev + c);
        assert forall|i: int, j: int| 0 <= i < n && 0 <= j < 3 implies #[trigger] chunk_entry(
            hpf_cmds_upto(state, ch_offset, n),
            3,
            i,
            j,
        ) == hpf_chunk(state, ch_offset, i)[j] by {
            if i < n - 1 {
                assert(0 <= 3 * i + j < 3 * (n - 1)) by (nonlinear_arith)
                    requires
                        0 <= i < n - 1,
                        0 <= j < 3,
                ;
                assert(chunk_entry(prev, 3, i, j) == hpf_chunk(state, ch_offset, i)[j]);
            } else {
                assert(3 * i + j == 3 * (n - 1) + j);
            }
        }
    }
}

/// The commands hold 3 entries for each channel, channel by channel; each entry goes to the port
/// of its channel, counted from the offset, and carries the parameter of that channel which its
/// command names.
pub proof fn lemma_hpf_cmds_carry_state(state: FfLatterHpfState, ch_offset: u8)
    ensures
        hpf_cmds(state, ch_offset).len() == 3 * state.activates@.len(),
        forall|i: int|
            0 <= i < state.activates@.len() ==> {
                let e = #[trigger] chunk_entry(hpf_cmds(state, ch_offset), 3, i, 0);
                &&& cmd_channel(e) == ((ch_offset + i) as u8) as u32
                &&& cmd_code(e) == HPF_ACTIVATE_CMD as u32
                &&& cmd_word(e) == bool_word(state.activates@[i]) as u32
            },
        forall|i: int|
            0 <= i < state.activates@.len() ==> {
                let e = #[trigger] chunk_entry(hpf_cmds(state, ch_offset), 3, i, 1);
                &&& cmd_channel(e) == ((ch_offset + i) as u8) as u32
                &&& cmd_code(e) == HPF_CUT_OFF_CMD as u32
                &&& cmd_word(e) == (state.cut_offs@[i]) as u32
            },
        forall|i: int|
            0 <= i < state.activates@.len() ==> {
                let e = #[trigger] chunk_entry(hpf_cmds(state, ch_offset), 3, i, 2);
                &&& cmd_channel(e) == ((ch_offset + i) as u8) as u32
                &&& cmd_code(e) == HPF_ROLL_OFF_CMD as u32
                &&& cmd_word(e) == (hpf_roll_off_level_code(state.roll_offs@[i]) as u16) as u32
            },
{
    lemma_hpf_cmds_upto_index(state, ch_offset, state.activates@.len());
    assert forall|i: int| 0 <= i < state.activates@.len() implies {
        let e = #[trigger] chunk_entry(hpf_cmds(state, ch_offset), 3, i, 0);
        &&& cmd_channel(e) == ((ch_offset + i) as u8) as u32
        &&& cmd_code(e) == HPF_ACTIVATE_CMD as u32
        &&& cmd_word(e) == bool_word(state.activates@[i]) as u32
    } by {
        lemma_port_cmd_fields(((ch_offset + i) as u8), HPF_ACTIVATE_CMD, bool_word(state.activates@[i]));
        assert(chunk_entry(hpf_cmds(state, ch_offset), 3, i, 0) == hpf_chunk(state, ch_offset, i)[0]);
    }
    assert forall|i: int| 0 <= i < state.activates@.len() implies {
        let e = #[trigger] chunk_entry(hpf_cmds(state, ch_offset), 3, i, 1);
        &&& cmd_channel(e) == ((ch_offset + i) as u8) as u32
        &&& cmd_code(e) == HPF_CUT_OFF_CMD as u32
        &&& cmd_word(e) == (state.cut_offs@[i]) as u32
    } by {
        lemma_port_cmd_fields(((ch_offset + i) as u8), HPF_CUT_OFF_CMD, state.cut_offs@[i]);
        assert(chunk_entry(hpf_cmds(state, ch_offset), 3, i, 1) == hpf_chunk(state, ch_offset, i)[1]);
    }
    assert forall|i: int| 0 <= i < state.activates@.len() implies {
        let e = #[trigger] chunk_entry(hpf_cmds(state, ch_offset), 3, i, 2);
        &&& cmd_channel(e) == ((ch_offset + i) as u8) as u32
        &&& cmd_code(e) == HPF_ROLL_OFF_CMD as u32
        &&& cmd_word(e) == (hpf_roll_off_level_code(state.roll_offs@[i]) as u16) as u32
    } by {
        lemma_port_cmd_fields(((ch_offset + i) as u8), HPF_ROLL_OFF_CMD, hpf_roll_off_level_code(state.roll_offs@[i]) as u16);
        assert(chunk_entry(hpf_cmds(state, ch_offset), 3, i, 2) == hpf_chunk(state, ch_offset, i)[2]);
    }
}


/// Whether the parameters have one entry per channel each, and the channels fit in the address
/// space from the offset.
pub open spec fn hpf_state_fits(state: FfLatterHpfState, ch_offset: u8) -> bool {
    &&& state.cut_offs@.len() == state.activates@.len()
    &&& state.roll_offs@.len() == state.activates@.len()
    &&& ch_offset + state.activates@.len() <= 256
}

/// Build the commands for the parameters of the channels from the offset.
pub fn hpf_state_to_cmds(state: &FfLatterHpfState, ch_offset: u8) -> (cmds: Vec<u32>)
    requires
        hpf_state_fits(*state, ch_offset),
    ensures
        cmds@ == hpf_cmds(*state, ch_offset),
{
    let n = state.activates.len();
    let mut cmds: Vec<u32> = Vec::new();
    let mut i: usize = 0;
    while i < n
        invariant
            i <= n,
            n == state.activates@.len(),
            hpf_state_fits(*state, ch_offset),
            cmds@ == hpf_cmds_upto(*state, ch_offset, i as nat),
        decreases n - i,
    {
        let ch = ch_offset + i as u8;
        let ghost prev = cmds@;
        cmds.push(port_cmd(ch, HPF_ACTIVATE_CMD, bool_word_exec(state.activates[i])));
        cmds.push(port_cmd(ch, HPF_CUT_OFF_CMD, state.cut_offs[i]));
        cmds.push(create_phys_port_cmd(ch, HPF_ROLL_OFF_CMD, deserialize_hpf_roll_off_level(&state.roll_offs[i])));
        proof {
            assert(cmds@ =~= prev + hpf_chunk(*state, ch_offset, i as int));
        }
        i = i + 1;
    }
    cmds
}

/// Whether each of the `n` channels has the initial parameters.
pub open spec fn hpf_state_is_default(state: FfLatterHpfState, n: nat) -> bool {
    &&& state.activates@ == Seq::new(n, |i: int| false)
    &&& state.cut_offs@ == Seq::new(n, |i: int| 0u16)
    &&& state.roll_offs@ == Seq::new(n, |i: int| FfLatterHpfRollOffLevel::L6)
}

/// Instantiate the initial parameters for `n` channels.
pub fn create_hpf_state(n: usize) -> (r: FfLatterHpfState)
    ensures
        hpf_state_is_default(r, n as nat),
{
    FfLatterHpfState {
        activates: filled(n, false),
        cut_offs: filled(n, 0u16),
        roll_offs: filled(n, FfLatterHpfRollOffLevel::L6),
    }
}

/// Parameters of input high pass filter.
#[derive(Debug, Clone, PartialEq, Eq)]
pub struct FfLatterInputHpfParameters(pub FfLatterHpfState);

/// Parameters of output high pass filter.
#[derive(Debug, Clone, PartialEq, Eq)]
pub struct FfLatterOutputHpfParameters(pub FfLatterHpfState);

/// The trait for specification of high pass filter.
pub trait RmeFfLatterHpfSpecification {
    /// The minimum value of cut off.
    const HPF_CUT_OFF_MIN: i32 = 20;
    /// The maximum value of cut off.
    const HPF_CUT_OFF_MAX: i32 = 500;
    /// The step value of cut off.
    const HPF_CUT_OFF_STEP: i32 = 1;
}

impl<O: RmeFfLatterDspSpecification> RmeFfLatterHpfSpecification for O {

}

impl<O> RmeFfCommandParamsSerialize<FfLatterInputHpfParameters> for O where O: RmeFfLatterHpfSpecification + RmeFfLatterInputSpecification {
    open spec fn commands_acceptable(params: FfLatterInputHpfParameters) -> bool {
        hpf_state_fits(params.0, 0)
    }

    open spec fn commands_of(params: FfLatterInputHpfParameters) -> Seq<u32> {
        hpf_cmds(params.0, 0)
    }

    fn serialize_commands(params: &FfLatterInputHpfParameters) -> (cmds: Vec<u32>) {
        hpf_state_to_cmds(&params.0, 0)
    }
}

impl<O> RmeFfCommandParamsSerialize<FfLatterOutputHpfParameters> for O where O: RmeFfLatterHpfSpecification + RmeFfLatterOutputSpecification {
    open spec fn commands_acceptable(params: FfLatterOutputHpfParameters) -> bool {
        hpf_state_fits(params.0, phys_input_count::<O>() as u8)
    }

    open spec fn commands_of(params: FfLatterOutputHpfParameters) -> Seq<u32> {
        hpf_cmds(params.0, phys_input_count::<O>() as u8)
    }

    fn serialize_commands(params: &FfLatterOutputHpfParameters) -> (cmds: Vec<u32>) {
        proof {
            O::lemma_port_counts();
        }
        hpf_state_to_cmds(&params.0, O::phys_input_count() as u8)
    }
}

/// State of equalizer in channel strip effect.
#[derive(Debug, Clone, PartialEq, Eq)]
pub struct FfLatterEqState {
    /// Whether to activate equalizer.
    pub activates: Vec<bool>,
    /// The type of equalizer at low bandwidth.
    pub low_types: Vec<FfLatterChStripEqType>,
    /// The gain of equalizer at low bandwidth between -20 and 20.
    pub low_gains: Vec<i16>,
    /// The frequency of equalizer at low bandwidth between 20 and 20000.
    pub low_freqs: Vec<u16>,
    /// The quality of equalizer at low bandwidth between 7 and 50, displayed by 1/10.
    pub low_qualities: Vec<u16>,
    /// The gain of equalizer at middle bandwidth between -20 and 20.
    pub middle_gains: Vec<i16>,
    /// The frequency of equalizer at middle bandwidth between 20 and 20000.
    pub middle_freqs: Vec<u16>,
    /// The quality of equalizer at middle bandwidth between 7 and 50, displayed by 1/10.
    pub middle_qualities: Vec<u16>,
    /// The type of equalizer at high bandwidth.
    pub high_types: Vec<FfLatterChStripEqType>,
    /// The gain of equalizer at high bandwidth between -20 and 20.
    pub high_gains: Vec<i16>,
    /// The frequency of equalizer at high bandwidth between 20 and 20000.
    pub high_freqs: Vec<u16>,
    /// The quality of equalizer at high bandwidth between 7 and 50, displayed by 1/10.
    pub high_qualities: Vec<u16>,
}

/// The commands for the channel at the index.
pub open spec fn eq_chunk(state: FfLatterEqState, ch_offset: u8, i: int) -> Seq<u32> {
    let ch = (ch_offset + i) as u8;
    seq![
        port_cmd_value(ch, EQ_ACTIVATE_CMD, bool_word(state.activates@[i])),
        port_cmd_value(ch, EQ_LOW_TYPE_CMD, eq_type_code(state.low_types@[i]) as u16),
        port_cmd_value(ch, EQ_LOW_GAIN_CMD, state.low_gains@[i] as u16),
        port_cmd_value(ch, EQ_LOW_FREQ_CMD, state.low_freqs@[i]),
        port_cmd_value(ch, EQ_LOW_QUALITY_CMD, state.low_qualities@[i]),
        port_cmd_value(ch, EQ_MIDDLE_GAIN_CMD, state.middle_gains@[i] as u16),
        port_cmd_value(ch, EQ_MIDDLE_FREQ_CMD, state.middle_freqs@[i]),
        port_cmd_value(ch, EQ_MIDDLE_QUALITY_CMD, state.middle_qualities@[i]),
        port_cmd_value(ch, EQ_HIGH_TYPE_CMD, eq_type_code(state.high_types@[i]) as u16),
        port_cmd_value(ch, EQ_HIGH_GAIN_CMD, state.high_gains@[i] as u16),
        port_cmd_value(ch, EQ_HIGH_FREQ_CMD, state.high_freqs@[i]),
        port_cmd_value(ch, EQ_HIGH_QUALITY_CMD, state.high_qualities@[i]),
    ]
}

/// The commands for the first `n` channels, channel by channel.
pub open spec fn eq_cmds_upto(state: FfLatterEqState, ch_offset: u8, n: nat) -> Seq<u32>
    decreases n,
{
    if n == 0 {
        Seq::empty()
    } else {
        eq_cmds_upto(state, ch_offset, (n - 1) as nat) + eq_chunk(state, ch_offset, n - 1)
    }
}

/// The commands for all of the channels.
pub open spec fn eq_cmds(state: FfLatterEqState, ch_offset: u8) -> Seq<u32> {
    eq_cmds_upto(state, ch_offset, state.activates@.len())
}

/// The commands for the first `n` channels hold the chunk of each channel in its place.
proof fn lemma_eq_cmds_upto_index(state: FfLatterEqState, ch_offset: u8, n: nat)
    ensures
        eq_cmds_upto(state, ch_offset, n).len() == 12 * n,
        forall|i: int, j: int|
            0 <= i < n && 0 <= j < 12 ==> #[trigger] chunk_entry(eq_cmds_upto(state, ch_offset, n), 12, i, j)
                == eq_chunk(state, ch_offset, i)[j],
    decreases n,
{
    if n > 0 {
        lemma_eq_cmds_upto_index(state, ch_offset, (n - 1) as nat);
        let prev = eq_cmds_upto(state, ch_offset, (n - 1) as nat);
        let c = eq_chunk(state, ch_offset, n - 1);
        assert(eq_cmds_upto(state, ch_offset, n) == prev + c);
        assert forall|i: int, j: int| 0 <= i < n && 0 <= j < 12 implies #[trigger] chunk_entry(
            eq_cmds_upto(state, ch_offset, n),
            12,
            i,
            j,
        ) == eq_chunk(state, ch_offset, i)[j] by {
            if i < n - 1 {
                assert(0 <= 12 * i + j < 12 * (n - 1)) by (nonlinear_arith)
                    requires
                        0 <= i < n - 1,
                        0 <= j < 12,
                ;
                assert(chunk_entry(prev, 12, i, j) == eq_chunk(state, ch_offset, i)[j]);
            } else {
                assert(12 * i + j == 12 * (n - 1) + j);
            }
        }
    }
}

/// The commands hold 12 entries for each channel, channel by channel; each entry goes to the port
/// of its channel, counted from the offset, and carries the parameter of that channel which its
/// command names.
pub proof fn lemma_eq_cmds_carry_state(state: FfLatterEqState, ch_offset: u8)
    ensures
        eq_cmds(state, ch_offset).len() == 12 * state.activates@.len(),
        forall|i: int|
            0 <= i < state.activates@.len() ==> {
                let e = #[trigger] chunk_entry(eq_cmds(state, ch_offset), 12, i, 0);
                &&& cmd_channel(e) == ((ch_offset + i) as u8) as u32
                &&& cmd_code(e) == EQ_ACTIVATE_CMD as u32
                &&& cmd_word(e) == bool_word(state.activates@[i]) as u32
            },
        forall|i: int|
            0 <= i < state.activates@.len() ==> {
                let e = #[trigger] chunk_entry(eq_cmds(state, ch_offset), 12, i, 1);
                &&& cmd_channel(e) == ((ch_offset + i) as u8) as u32
                &&& cmd_code(e) == EQ_LOW_TYPE_CMD as u32
                &&& cmd_word(e) == (eq_type_code(state.low_types@[i]) as u16) as u32
            },
        forall|i: int|
            0 <= i < state.activates@.len() ==> {
                let e = #[trigger] chunk_entry(eq_cmds(state, ch_offset), 12, i, 2);
                &&& cmd_channel(e) == ((ch_offset + i) as u8) as u32
                &&& cmd_code(e) == EQ_LOW_GAIN_CMD as u32
                &&& cmd_word(e) == (state.low_gains@[i] as u16) as u32
            },
        forall|i: int|
            0 <= i < state.activates@.len() ==> {
                let e = #[trigger] chunk_entry(eq_cmds(state, ch_offset), 12, i, 3);
                &&& cmd_channel(e) == ((ch_offset + i) as u8) as u32
                &&& cmd_code(e) == EQ_LOW_FREQ_CMD as u32
                &&& cmd_word(e) == (state.low_freqs@[i]) as u32
            },
        forall|i: int|
            0 <= i < state.activates@.len() ==> {
                let e = #[trigger] chunk_entry(eq_cmds(state, ch_offset), 12, i, 4);
                &&& cmd_channel(e) == ((ch_offset + i) as u8) as u32
                &&& cmd_code(e) == EQ_LOW_QUALITY_CMD as u32
                &&& cmd_word(e) == (state.low_qualities@[i]) as u32
            },
        forall|i: int|
            0 <= i < state.activates@.len() ==> {
                let e = #[trigger] chunk_entry(eq_cmds(state, ch_offset), 12, i, 5);
                &&& cmd_channel(e) == ((ch_offset + i) as u8) as u32
                &&& cmd_code(e) == EQ_MIDDLE_GAIN_CMD as u32
                &&& cmd_word(e) == (state.middle_gains@[i] as u16) as u32
            },
        forall|i: int|
            0 <= i < state.activates@.len() ==> {
                let e = #[trigger] chunk_entry(eq_cmds(state, ch_offset), 12, i, 6);
                &&& cmd_channel(e) == ((ch_offset + i) as u8) as u32
                &&& cmd_code(e) == EQ_MIDDLE_FREQ_CMD as u32
                &&& cmd_word(e) == (state.middle_freqs@[i]) as u32
            },
        forall|i: int|
            0 <= i < state.activates@.len() ==> {
                let e = #[trigger] chunk_entry(eq_cmds(state, ch_offset), 12, i, 7);
                &&& cmd_channel(e) == ((ch_offset + i) as u8) as u32
                &&& cmd_code(e) == EQ_MIDDLE_QUALITY_CMD as u32
                &&& cmd_word(e) == (state.middle_qualities@[i]) as u32
            },
        forall|i: int|
            0 <= i < state.activates@.len() ==> {
                let e = #[trigger] chunk_entry(eq_cmds(state, ch_offset), 12, i, 8);
                &&& cmd_channel(e) == ((ch_offset + i) as u8) as u32
                &&& cmd_code(e) == EQ_HIGH_TYPE_CMD as u32
                &&& cmd_word(e) == (eq_type_code(state.high_types@[i]) as u16) as u32
            },
        forall|i: int|
            0 <= i < state.activates@.len() ==> {
                let e = #[trigger] chunk_entry(eq_cmds(state, ch_offset), 12, i, 9);
                &&& cmd_channel(e) == ((ch_offset + i) as u8) as u32
                &&& cmd_code(e) == EQ_HIGH_GAIN_CMD as u32
                &&& cmd_word(e) == (state.high_gains@[i] as u16) as u32
            },
        forall|i: int|
            0 <= i < state.activates@.len() ==> {
                let e = #[trigger] chunk_entry(eq_cmds(state, ch_offset), 12, i, 10);
                &&& cmd_channel(e) == ((ch_offset + i) as u8) as u32
                &&& cmd_code(e) == EQ_HIGH_FREQ_CMD as u32
                &&& cmd_word(e) == (state.high_freqs@[i]) as u32
            },
        forall|i: int|
            0 <= i < state.activates@.len() ==> {
                let e = #[trigger] chunk_entry(eq_cmds(state, ch_offset), 12, i, 11);
                &&& cmd_channel(e) == ((ch_offset + i) as u8) as u32
                &&& cmd_code(e) == EQ_HIGH_QUALITY_CMD as u32
                &&& cmd_word(e) == (state.high_qualities@[i]) as u32
            },
{
    lemma_eq_cmds_upto_index(state, ch_offset, state.activates@.len());
    assert forall|i: int| 0 <= i < state.activates@.len() implies {
        let e = #[trigger] chunk_entry(eq_cmds(state, ch_offset), 12, i, 0);
        &&& cmd_channel(e) == ((ch_offset + i) as u8) as u32
        &&& cmd_code(e) == EQ_ACTIVATE_CMD as u32
        &&& cmd_word(e) == bool_word(state.activates@[i]) as u32
    } by {
        lemma_port_cmd_fields(((ch_offset + i) as u8), EQ_ACTIVATE_CMD, bool_word(state.activates@[i]));
        assert(chunk_entry(eq_cmds(state, ch_offset), 12, i, 0) == eq_chunk(state, ch_offset, i)[0]);
    }
    assert forall|i: int| 0 <= i < state.activates@.len() implies {
        let e = #[trigger] chunk_entry(eq_cmds(state, ch_offset), 12, i, 1);
        &&& cmd_channel(e) == ((ch_offset + i) as u8) as u32
        &&& cmd_code(e) == EQ_LOW_TYPE_CMD as u32
        &&& cmd_word(e) == (eq_type_code(state.low_types@[i]) as u16) as u32
    } by {
        lemma_port_cmd_fields(((ch_offset + i) as u8), EQ_LOW_TYPE_CMD, eq_type_code(state.low_types@[i]) as u16);
        assert(chunk_entry(eq_cmds(state, ch_offset), 12, i, 1) == eq_chunk(state, ch_offset, i)[1]);
    }
    assert forall|i: int| 0 <= i < state.activates@.len() implies {
        let e = #[trigger] chunk_entry(eq_cmds(state, ch_offset), 12, i, 2);
        &&& cmd_channel(e) == ((ch_offset + i) as u8) as u32
        &&& cmd_code(e) == EQ_LOW_GAIN_CMD as u32
        &&& cmd_word(e) == (state.low_gains@[i] as u16) as u32
    } by {
        lemma_port_cmd_fields(((ch_offset + i) as u8), EQ_LOW_GAIN_CMD, state.low_gains@[i] as u16);
        assert(chunk_entry(eq_cmds(state, ch_offset), 12, i, 2) == eq_chunk(state, ch_offset, i)[2]);
    }
    assert forall|i: int| 0 <= i < state.activates@.len() implies {
        let e = #[trigger] chunk_entry(eq_cmds(state, ch_offset), 12, i, 3);
        &&& cmd_channel(e) == ((ch_offset + i) as u8) as u32
        &&& cmd_code(e) == EQ_LOW_FREQ_CMD as u32
        &&& cmd_word(e) == (state.low_freqs@[i]) as u32
    } by {
        lemma_port_cmd_fields(((ch_offset + i) as u8), EQ_LOW_FREQ_CMD, state.low_freqs@[i]);
        assert(chunk_entry(eq_cmds(state, ch_offset), 12, i, 3) == eq_chunk(state, ch_offset, i)[3]);
    }
    assert forall|i: int| 0 <= i < state.activates@.len() implies {
        let e = #[trigger] chunk_entry(eq_cmds(state, ch_offset), 12, i, 4);
        &&& cmd_channel(e) == ((ch_offset + i) as u8) as u32
        &&& cmd_code(e) == EQ_LOW_QUALITY_CMD as u32
        &&& cmd_word(e) == (state.low_qualities@[i]) as u32
    } by {
        lemma_port_cmd_fields(((ch_offset + i) as u8), EQ_LOW_QUALITY_CMD, state.low_qualities@[i]);
        assert(chunk_entry(eq_cmds(state, ch_offset), 12, i, 4) == eq_chunk(state, ch_offset, i)[4]);
    }
    assert forall|i: int| 0 <= i < state.activates@.len() implies {
        let e = #[trigger] chunk_entry(eq_cmds(state, ch_offset), 12, i, 5);
        &&& cmd_channel(e) == ((ch_offset + i) as u8) as u32
        &&& cmd_code(e) == EQ_MIDDLE_GAIN_CMD as u32
        &&& cmd_word(e) == (state.middle_gains@[i] as u16) as u32
    } by {
        lemma_port_cmd_fields(((ch_offset + i) as u8), EQ_MIDDLE_GAIN_CMD, state.middle_gains@[i] as u16);
        assert(chunk_entry(eq_cmds(state, ch_offset), 12, i, 5) == eq_chunk(state, ch_offset, i)[5]);
    }
    assert forall|i: int| 0 <= i < state.activates@.len() implies {
        let e = #[trigger] chunk_entry(eq_cmds(state, ch_offset), 12, i, 6);
        &&& cmd_channel(e) == ((ch_offset + i) as u8) as u32
        &&& cmd_code(e) == EQ_MIDDLE_FREQ_CMD as u32
        &&& cmd_word(e) == (state.middle_freqs@[i]) as u32
    } by {
        lemma_port_cmd_fields(((ch_offset + i) as u8), EQ_MIDDLE_FREQ_CMD, state.middle_freqs@[i]);
        assert(chunk_entry(eq_cmds(state, ch_offset), 12, i, 6) == eq_chunk(state, ch_offset, i)[6]);
    }
    assert forall|i: int| 0 <= i < state.activates@.len() implies {
        let e = #[trigger] chunk_entry(eq_cmds(state, ch_offset), 12, i, 7);
        &&& cmd_channel(e) == ((ch_offset + i) as u8) as u32
        &&& cmd_code(e) == EQ_MIDDLE_QUALITY_CMD as u32
        &&& cmd_word(e) == (state.middle_qualities@[i]) as u32
    } by {
        lemma_port_cmd_fields(((ch_offset + i) as u8), EQ_MIDDLE_QUALITY_CMD, state.middle_qualities@[i]);
        assert(chunk_entry(eq_cmds(state, ch_offset), 12, i, 7) == eq_chunk(state, ch_offset, i)[7]);
    }
    assert forall|i: int| 0 <= i < state.activates@.len() implies {
        let e = #[trigger] chunk_entry(eq_cmds(state, ch_offset), 12, i, 8);
        &&& cmd_channel(e) == ((ch_offset + i) as u8) as u32
        &&& cmd_code(e) == EQ_HIGH_TYPE_CMD as u32
        &&& cmd_word(e) == (eq_type_code(state.high_types@[i]) as u16) as u32
    } by {
        lemma_port_cmd_fields(((ch_offset + i) as u8), EQ_HIGH_TYPE_CMD, eq_type_code(state.high_types@[i]) as u16);
        assert(chunk_entry(eq_cmds(state, ch_offset), 12, i, 8) == eq_chunk(state, ch_offset, i)[8]);
    }
    assert forall|i: int| 0 <= i < state.activates@.len() implies {
        let e = #[trigger] chunk_entry(eq_cmds(state, ch_offset), 12, i, 9);
        &&& cmd_channel(e) == ((ch_offset + i) as u8) as u32
        &&& cmd_code(e) == EQ_HIGH_GAIN_CMD as u32
        &&& cmd_word(e) == (state.high_gains@[i] as u16) as u32
    } by {
        lemma_port_cmd_fields(((ch_offset + i) as u8), EQ_HIGH_GAIN_CMD, state.high_gains@[i] as u16);
        assert(chunk_entry(eq_cmds(state, ch_offset), 12, i, 9) == eq_chunk(state, ch_offset, i)[9]);
    }
    assert forall|i: int| 0 <= i < state.activates@.len() implies {
        let e = #[trigger] chunk_entry(eq_cmds(state, ch_offset), 12, i, 10);
        &&& cmd_channel(e) == ((ch_offset + i) as u8) as u32
        &&& cmd_code(e) == EQ_HIGH_FREQ_CMD as u32
        &&& cmd_word(e) == (state.high_freqs@[i]) as u32
    } by {
        lemma_port_cmd_fields(((ch_offset + i) as u8), EQ_HIGH_FREQ_CMD, state.high_freqs@[i]);
        assert(chunk_entry(eq_cmds(state, ch_offset), 12, i, 10) == eq_chunk(state, ch_offset, i)[10]);
    }
    assert forall|i: int| 0 <= i < state.activates@.len() implies {
        let e = #[trigger] chunk_entry(eq_cmds(state, ch_offset), 12, i, 11);
        &&& cmd_channel(e) == ((ch_offset + i) as u8) as u32
        &&& cmd_code(e) == EQ_HIGH_QUALITY_CMD as u32
        &&& cmd_word(e) == (state.high_qualities@[i]) as u32
    } by {
        lemma_port_cmd_fields(((ch_offset + i) as u8), EQ_HIGH_QUALITY_CMD, state.high_qualities@[i]);
        assert(chunk_entry(eq_cmds(state, ch_offset), 12, i, 11) == eq_chunk(state, ch_offset, i)[11]);
    }
}


/// Whether the parameters have one entry per channel each, and the channels fit in the address
/// space from the offset.
pub open spec fn eq_state_fits(state: FfLatterEqState, ch_offset: u8) -> bool {
    &&& state.low_types@.len() == state.activates@.len()
    &&& state.low_gains@.len() == state.activates@.len()
    &&& state.low_freqs@.len() == state.activates@.len()
    &&& state.low_qualities@.len() == state.activates@.len()
    &&& state.middle_gains@.len() == state.activates@.len()
    &&& state.middle_freqs@.len() == state.activates@.len()
    &&& state.middle_qualities@.len() == state.activates@.len()
    &&& state.high_types@.len() == state.activates@.len()
    &&& state.high_gains@.len() == state.activates@.len()
    &&& state.high_freqs@.len() == state.activates@.len()
    &&& state.high_qualities@.len() == state.activates@.len()
    &&& ch_offset + state.activates@.len() <= 256
}

/// Build the commands for the parameters of the channels from the offset.
pub fn eq_state_to_cmds(state: &FfLatterEqState, ch_offset: u8) -> (cmds: Vec<u32>)
    requires
        eq_state_fits(*state, ch_offset),
    ensures
        cmds@ == eq_cmds(*state, ch_offset),
{
    let n = state.activates.len();
    let mut cmds: Vec<u32> = Vec::new();
    let mut i: usize = 0;
    while i < n
        invariant
            i <= n,
            n == state.activates@.len(),
            eq_state_fits(*state, ch_offset),
            cmds@ == eq_cmds_upto(*state, ch_offset, i as nat),
        decreases n - i,
    {
        let ch = ch_offset + i as u8;
        let ghost prev = cmds@;
        cmds.push(port_cmd(ch, EQ_ACTIVATE_CMD, bool_word_exec(state.activates[i])));
        cmds.push(create_phys_port_cmd(ch, EQ_LOW_TYPE_CMD, deserialize_eq_type(&state.low_types[i])));
        cmds.push(create_phys_port_cmd(ch, EQ_LOW_GAIN_CMD, state.low_gains[i]));
        cmds.push(port_cmd(ch, EQ_LOW_FREQ_CMD, state.low_freqs[i]));
        cmds.push(port_cmd(ch, EQ_LOW_QUALITY_CMD, state.low_qualities[i]));
        cmds.push(create_phys_port_cmd(ch, EQ_MIDDLE_GAIN_CMD, state.middle_gains[i]));
        cmds.push(port_cmd(ch, EQ_MIDDLE_FREQ_CMD, state.middle_freqs[i]));
        cmds.push(port_cmd(ch, EQ_MIDDLE_QUALITY_CMD, state.middle_qualities[i]));
        cmds.push(create_phys_port_cmd(ch, EQ_HIGH_TYPE_CMD, deserialize_eq_type(&state.high_types[i])));
        cmds.push(create_phys_port_cmd(ch, EQ_HIGH_GAIN_CMD, state.high_gains[i]));
        cmds.push(port_cmd(ch, EQ_HIGH_FREQ_CMD, state.high_freqs[i]));
        cmds.push(port_cmd(ch, EQ_HIGH_QUALITY_CMD, state.high_qualities[i]));
        proof {
            assert(cmds@ =~= prev + eq_chunk(*state, ch_offset, i as int));
        }
        i = i + 1;
    }
    cmds
}

/// Whether each of the `n` channels has the initial parameters.
pub open spec fn eq_state_is_default(state: FfLatterEqState, n: nat) -> bool {
    &&& state.activates@ == Seq::new(n, |i: int| false)
    &&& state.low_types@ == Seq::new(n, |i: int| FfLatterChStripEqType::Peak)
    &&& state.low_gains@ == Seq::new(n, |i: int| 0i16)
    &&& state.low_freqs@ == Seq::new(n, |i: int| 0u16)
    &&& state.low_qualities@ == Seq::new(n, |i: int| 0u16)
    &&& state.middle_gains@ == Seq::new(n, |i: int| 0i16)
    &&& state.middle_freqs@ == Seq::new(n, |i: int| 0u16)
    &&& state.middle_qualities@ == Seq::new(n, |i: int| 0u16)
    &&& state.high_types@ == Seq::new(n, |i: int| FfLatterChStripEqType::Peak)
    &&& state.high_gains@ == Seq::new(n, |i: int| 0i16)
    &&& state.high_freqs@ == Seq::new(n, |i: int| 0u16)
    &&& state.high_qualities@ == Seq::new(n, |i: int| 0u16)
}

/// Instantiate the initial parameters for `n` channels.
pub fn create_eq_state(n: usize) -> (r: FfLatterEqState)
    ensures
        eq_state_is_default(r, n as nat),
{
    FfLatterEqState {
        activates: filled(n, false),
        low_types: filled(n, FfLatterChStripEqType::Peak),
        low_gains: filled(n, 0i16),
        low_freqs: filled(n, 0u16),
        low_qualities: filled(n, 0u16),
        middle_gains: filled(n, 0i16),
        middle_freqs: filled(n, 0u16),
        middle_qualities: filled(n, 0u16),
        high_types: filled(n, FfLatterChStripEqType::Peak),
        high_gains: filled(n, 0i16),
        high_freqs: filled(n, 0u16),
        high_qualities: filled(n, 0u16),
    }
}

/// Parameters of input equalizer.
#[derive(Debug, Clone, PartialEq, Eq)]
pub struct FfLatterInputEqualizerParameters(pub FfLatterEqState);

/// Parameters of output equalizer.
#[derive(Debug, Clone, PartialEq, Eq)]
pub struct FfLatterOutputEqualizerParameters(pub FfLatterEqState);

/// The trait for specification of equalizer.
pub trait RmeFfLatterEqualizerSpecification {
    /// The minimum value of gain.
    const EQ_GAIN_MIN: i32 = -20;
    /// The maximum value of gain.
    const EQ_GAIN_MAX: i32 = 20;
    /// The step value of gain.
    const EQ_GAIN_STEP: i32 = 1;
    /// The minimum value of frequency.
    const EQ_FREQ_MIN: i32 = 20;
    /// The maximum value of frequency.
    const EQ_FREQ_MAX: i32 = 20000;
    /// The step value of frequency.
    const EQ_FREQ_STEP: i32 = 1;
    /// The minimum value of quality.
    const EQ_QUALITY_MIN: i32 = 7;
    /// The maximum value of quality.
    const EQ_QUALITY_MAX: i32 = 50;
    /// The step value of quality.
    const EQ_QUALITY_STEP: i32 = 1;
}

impl<O: RmeFfLatterDspSpecification> RmeFfLatterEqualizerSpecification for O {

}

impl<O> RmeFfCommandParamsSerialize<FfLatterInputEqualizerParameters> for O where O: RmeFfLatterEqualizerSpecification + RmeFfLatterInputSpecification {
    open spec fn commands_acceptable(params: FfLatterInputEqualizerParameters) -> bool {
        eq_state_fits(params.0, 0)
    }

    open spec fn commands_of(params: FfLatterInputEqualizerParameters) -> Seq<u32> {
        eq_cmds(params.0, 0)
    }

    fn serialize_commands(params: &FfLatterInputEqualizerParameters) -> (cmds: Vec<u32>) {
        eq_state_to_cmds(&params.0, 0)
    }
}

impl<O> RmeFfCommandParamsSerialize<FfLatterOutputEqualizerParameters> for O where O: RmeFfLatterEqualizerSpecification + RmeFfLatterOutputSpecification {
    open spec fn commands_acceptable(params: FfLatterOutputEqualizerParameters) -> bool {
        eq_state_fits(params.0, phys_input_count::<O>() as u8)
    }

    open spec fn commands_of(params: FfLatterOutputEqualizerParameters) -> Seq<u32> {
        eq_cmds(params.0, phys_input_count::<O>() as u8)
    }

    fn serialize_commands(params: &FfLatterOutputEqualizerParameters) -> (cmds: Vec<u32>) {
        proof {
            O::lemma_port_counts();
        }
        eq_state_to_cmds(&params.0, O::phys_input_count() as u8)
    }
}

/// State of dynamics in channel strip effect.
#[derive(Debug, Clone, PartialEq, Eq)]
pub struct FfLatterDynState {
    /// Whether to activate dynamics.
    pub activates: Vec<bool>,
    /// The gain of dynamics between -300 and 300, displayed by 1/10.
    pub gains: Vec<i16>,
    /// The rise time of dynamics between 0 and 200 ms.
    pub attacks: Vec<u16>,
    /// The release time of dynamics between 100 and 999 ms.
    pub releases: Vec<u16>,
    /// The threshold of compressor between -600 and 0, displayed by 1/10.
    pub compressor_thresholds: Vec<i16>,
    /// The ratio of compressor between 10 and 100.
    pub compressor_ratios: Vec<u16>,
    /// The threshold of expander between -990 and -200, displayed by 1/10.
    pub expander_thresholds: Vec<i16>,
    /// The ratio of expander between 10 and 100.
    pub expander_ratios: Vec<u16>,
}

/// The commands for the channel at the index.
pub open spec fn dyn_chunk(state: FfLatterDynState, ch_offset: u8, i: int) -> Seq<u32> {
    let ch = (ch_offset + i) as u8;
    seq![
        port_cmd_value(ch, DYN_ACTIVATE_CMD, bool_word(state.activates@[i])),
        port_cmd_value(ch, DYN_GAIN_CMD, state.gains@[i] as u16),
        port_cmd_value(ch, DYN_ATTACK_CMD, state.attacks@[i]),
        port_cmd_value(ch, DYN_RELEASE_CMD, state.releases@[i]),
        port_cmd_value(ch, DYN_COMPR_THRESHOLD_CMD, state.compressor_thresholds@[i] as u16),
        port_cmd_value(ch, DYN_COMPR_RATIO_CMD, state.compressor_ratios@[i]),
        port_cmd_value(ch, DYN_EXPANDER_THRESHOLD_CMD, state.expander_thresholds@[i] as u16),
        port_cmd_value(ch, DYN_EXPANDER_RATIO_CMD, state.expander_ratios@[i]),
    ]
}

/// The commands for the first `n` channels, channel by channel.
pub open spec fn dyn_cmds_upto(state: FfLatterDynState, ch_offset: u8, n: nat) -> Seq<u32>
    decreases n,
{
    if n == 0 {
        Seq::empty()
    } else {
        dyn_cmds_upto(state, ch_offset, (n - 1) as nat) + dyn_chunk(state, ch_offset, n - 1)
    }
}

/// The commands for all of the channels.
pub open spec fn dyn_cmds(state: FfLatterDynState, ch_offset: u8) -> Seq<u32> {
    dyn_cmds_upto(state, ch_offset, state.activates@.len())
}

/// The commands for the first `n` channels hold the chunk of each channel in its place.
proof fn lemma_dyn_cmds_upto_index(state: FfLatterDynState, ch_offset: u8, n: nat)
    ensures
        dyn_cmds_upto(state, ch_offset, n).len() == 8 * n,
        forall|i: int, j: int|
            0 <= i < n && 0 <= j < 8 ==> #[trigger] chunk_entry(dyn_cmds_upto(state, ch_offset, n), 8, i, j)
                == dyn_chunk(state, ch_offset, i)[j],
    decreases n,
{
    if n > 0 {
        lemma_dyn_cmds_upto_index(state, ch_offset, (n - 1) as nat);
        let prev = dyn_cmds_upto(state, ch_offset, (n - 1) as nat);
        let c = dyn_chunk(state, ch_offset, n - 1);
        assert(dyn_cmds_upto(state, ch_offset, n) == prev + c);
        assert forall|i: int, j: int| 0 <= i < n && 0 <= j < 8 implies #[trigger] chunk_entry(
            dyn_cmds_upto(state, ch_offset, n),
            8,
            i,
            j,
        ) == dyn_chunk(state, ch_offset, i)[j] by {
            if i < n - 1 {
                assert(0 <= 8 * i + j < 8 * (n - 1)) by (nonlinear_arith)
                    requires
                        0 <= i < n - 1,
                        0 <= j < 8,
                ;
                assert(chunk_entry(prev, 8, i, j) == dyn_chunk(state, ch_offset, i)[j]);
            } else {
                assert(8 * i + j == 8 * (n - 1) + j);
            }
        }
    }
}

/// The commands hold 8 entries for each channel, channel by channel; each entry goes to the port
/// of its channel, counted from the offset, and carries the parameter of that channel which its
/// command names.
pub proof fn lemma_dyn_cmds_carry_state(state: FfLatterDynState, ch_offset: u8)
    ensures
        dyn_cmds(state, ch_offset).len() == 8 * state.activates@.len(),
        forall|i: int|
            0 <= i < state.activates@.len() ==> {
                let e = #[trigger] chunk_entry(dyn_cmds(state, ch_offset), 8, i, 0);
                &&& cmd_channel(e) == ((ch_offset + i) as u8) as u32
                &&& cmd_code(e) == DYN_ACTIVATE_CMD as u32
                &&& cmd_word(e) == bool_word(state.activates@[i]) as u32
            },
        forall|i: int|
            0 <= i < state.activates@.len() ==> {
                let e = #[trigger] chunk_entry(dyn_cmds(state, ch_offset), 8, i, 1);
                &&& cmd_channel(e) == ((ch_offset + i) as u8) as u32
                &&& cmd_code(e) == DYN_GAIN_CMD as u32
                &&& cmd_word(e) == (state.gains@[i] as u16) as u32
            },
        forall|i: int|
            0 <= i < state.activates@.len() ==> {
                let e = #[trigger] chunk_entry(dyn_cmds(state, ch_offset), 8, i, 2);
                &&& cmd_channel(e) == ((ch_offset + i) as u8) as u32
                &&& cmd_code(e) == DYN_ATTACK_CMD as u32
                &&& cmd_word(e) == (state.attacks@[i]) as u32
            },
        forall|i: int|
            0 <= i < state.activates@.len() ==> {
                let e = #[trigger] chunk_entry(dyn_cmds(state, ch_offset), 8, i, 3);
                &&& cmd_channel(e) == ((ch_offset + i) as u8) as u32
                &&& cmd_code(e) == DYN_RELEASE_CMD as u32
                &&& cmd_word(e) == (state.releases@[i]) as u32
            },
        forall|i: int|
            0 <= i < state.activates@.len() ==> {
                let e = #[trigger] chunk_entry(dyn_cmds(state, ch_offset), 8, i, 4);
                &&& cmd_channel(e) == ((ch_offset + i) as u8) as u32
                &&& cmd_code(e) == DYN_COMPR_THRESHOLD_CMD as u32
                &&& cmd_word(e) == (state.compressor_thresholds@[i] as u16) as u32
            },
        forall|i: int|
            0 <= i < state.activates@.len() ==> {
                let e = #[trigger] chunk_entry(dyn_cmds(state, ch_offset), 8, i, 5);
                &&& cmd_channel(e) == ((ch_offset + i) as u8) as u32
                &&& cmd_code(e) == DYN_COMPR_RATIO_CMD as u32
                &&& cmd_word(e) == (state.compressor_ratios@[i]) as u32
            },
        forall|i: int|
            0 <= i < state.activates@.len() ==> {
                let e = #[trigger] chunk_entry(dyn_cmds(state, ch_offset), 8, i, 6);
                &&& cmd_channel(e) == ((ch_offset + i) as u8) as u32
                &&& cmd_code(e) == DYN_EXPANDER_THRESHOLD_CMD as u32
                &&& cmd_word(e) == (state.expander_thresholds@[i] as u16) as u32
            },
        forall|i: int|
            0 <= i < state.activates@.len() ==> {
                let e = #[trigger] chunk_entry(dyn_cmds(state, ch_offset), 8, i, 7);
                &&& cmd_channel(e) == ((ch_offset + i) as u8) as u32
                &&& cmd_code(e) == DYN_EXPANDER_RATIO_CMD as u32
                &&& cmd_word(e) == (state.expander_ratios@[i]) as u32
            },
{
    lemma_dyn_cmds_upto_index(state, ch_offset, state.activates@.len());
    assert forall|i: int| 0 <= i < state.activates@.len() implies {
        let e = #[trigger] chunk_entry(dyn_cmds(state, ch_offset), 8, i, 0);
        &&& cmd_channel(e) == ((ch_offset + i) as u8) as u32
        &&& cmd_code(e) == DYN_ACTIVATE_CMD as u32
        &&& cmd_word(e) == bool_word(state.activates@[i]) as u32
    } by {
        lemma_port_cmd_fields(((ch_offset + i) as u8), DYN_ACTIVATE_CMD, bool_word(state.activates@[i]));
        assert(chunk_entry(dyn_cmds(state, ch_offset), 8, i, 0) == dyn_chunk(state, ch_offset, i)[0]);
    }
    assert forall|i: int| 0 <= i < state.activates@.len() implies {
        let e = #[trigger] chunk_entry(dyn_cmds(state, ch_offset), 8, i, 1);
        &&& cmd_channel(e) == ((ch_offset + i) as u8) as u32
        &&& cmd_code(e) == DYN_GAIN_CMD as u32
        &&& cmd_word(e) == (state.gains@[i] as u16) as u32
    } by {
        lemma_port_cmd_fields(((ch_offset + i) as u8), DYN_GAIN_CMD, state.gains@[i] as u16);
        assert(chunk_entry(dyn_cmds(state, ch_offset), 8, i, 1) == dyn_chunk(state, ch_offset, i)[1]);
    }
    assert forall|i: int| 0 <= i < state.activates@.len() implies {
        let e = #[trigger] chunk_entry(dyn_cmds(state, ch_offset), 8, i, 2);
        &&& cmd_channel(e) == ((ch_offset + i) as u8) as u32
        &&& cmd_code(e) == DYN_ATTACK_CMD as u32
        &&& cmd_word(e) == (state.attacks@[i]) as u32
    } by {
        lemma_port_cmd_fields(((ch_offset + i) as u8), DYN_ATTACK_CMD, state.attacks@[i]);
        assert(chunk_entry(dyn_cmds(state, ch_offset), 8, i, 2) == dyn_chunk(state, ch_offset, i)[2]);
    }
    assert forall|i: int| 0 <= i < state.activates@.len() implies {
        let e = #[trigger] chunk_entry(dyn_cmds(state, ch_offset), 8, i, 3);
        &&& cmd_channel(e) == ((ch_offset + i) as u8) as u32
        &&& cmd_code(e) == DYN_RELEASE_CMD as u32
        &&& cmd_word(e) == (state.releases@[i]) as u32
    } by {
        lemma_port_cmd_fields(((ch_offset + i) as u8), DYN_RELEASE_CMD, state.releases@[i]);
        assert(chunk_entry(dyn_cmds(state, ch_offset), 8, i, 3) == dyn_chunk(state, ch_offset, i)[3]);
    }
    assert forall|i: int| 0 <= i < state.activates@.len() implies {
        let e = #[trigger] chunk_entry(dyn_cmds(state, ch_offset), 8, i, 4);
        &&& cmd_channel(e) == ((ch_offset + i) as u8) as u32
        &&& cmd_code(e) == DYN_COMPR_THRESHOLD_CMD as u32
        &&& cmd_word(e) == (state.compressor_thresholds@[i] as u16) as u32
    } by {
        lemma_port_cmd_fields(((ch_offset + i) as u8), DYN_COMPR_THRESHOLD_CMD, state.compressor_thresholds@[i] as u16);
        assert(chunk_entry(dyn_cmds(state, ch_offset), 8, i, 4) == dyn_chunk(state, ch_offset, i)[4]);
    }
    assert forall|i: int| 0 <= i < state.activates@.len() implies {
        let e = #[trigger] chunk_entry(dyn_cmds(state, ch_offset), 8, i, 5);
        &&& cmd_channel(e) == ((ch_offset + i) as u8) as u32
        &&& cmd_code(e) == DYN_COMPR_RATIO_CMD as u32
        &&& cmd_word(e) == (state.compressor_ratios@[i]) as u32
    } by {
        lemma_port_cmd_fields(((ch_offset + i) as u8), DYN_COMPR_RATIO_CMD, state.compressor_ratios@[i]);
        assert(chunk_entry(dyn_cmds(state, ch_offset), 8, i, 5) == dyn_chunk(state, ch_offset, i)[5]);
    }
    assert forall|i: int| 0 <= i < state.activates@.len() implies {
        let e = #[trigger] chunk_entry(dyn_cmds(state, ch_offset), 8, i, 6);
        &&& cmd_channel(e) == ((ch_offset + i) as u8) as u32
        &&& cmd_code(e) == DYN_EXPANDER_THRESHOLD_CMD as u32
        &&& cmd_word(e) == (state.expander_thresholds@[i] as u16) as u32
    } by {
        lemma_port_cmd_fields(((ch_offset + i) as u8), DYN_EXPANDER_THRESHOLD_CMD, state.expander_thresholds@[i] as u16);
        assert(chunk_entry(dyn_cmds(state, ch_offset), 8, i, 6) == dyn_chunk(state, ch_offset, i)[6]);
    }
    assert forall|i: int| 0 <= i < state.activates@.len() implies {
        let e = #[trigger] chunk_entry(dyn_cmds(state, ch_offset), 8, i, 7);
        &&& cmd_channel(e) == ((ch_offset + i) as u8) as u32
        &&& cmd_code(e) == DYN_EXPANDER_RATIO_CMD as u32
        &&& cmd_word(e) == (state.expander_ratios@[i]) as u32
    } by {
        lemma_port_cmd_fields(((ch_offset + i) as u8), DYN_EXPANDER_RATIO_CMD, state.expander_ratios@[i]);
        assert(chunk_entry(dyn_cmds(state, ch_offset), 8, i, 7) == dyn_chunk(state, ch_offset, i)[7]);
    }
}


/// Whether the parameters have one entry per channel each, and the channels fit in the address
/// space from the offset.
pub open spec fn dyn_state_fits(state: FfLatterDynState, ch_offset: u8) -> bool {
    &&& state.gains@.len() == state.activates@.len()
    &&& state.attacks@.len() == state.activates@.len()
    &&& state.releases@.len() == state.activates@.len()
    &&& state.compressor_thresholds@.len() == state.activates@.len()
    &&& state.compressor_ratios@.len() == state.activates@.len()
    &&& state.expander_thresholds@.len() == state.activates@.len()
    &&& state.expander_ratios@.len() == state.activates@.len()
    &&& ch_offset + state.activates@.len() <= 256
}

/// Build the commands for the parameters of the channels from the offset.
pub fn dyn_state_to_cmds(state: &FfLatterDynState, ch_offset: u8) -> (cmds: Vec<u32>)
    requires
        dyn_state_fits(*state, ch_offset),
    ensures
        cmds@ == dyn_cmds(*state, ch_offset),
{
    let n = state.activates.len();
    let mut cmds: Vec<u32> = Vec::new();
    let mut i: usize = 0;
    while i < n
        invariant
            i <= n,
            n == state.activates@.len(),
            dyn_state_fits(*state, ch_offset),
            cmds@ == dyn_cmds_upto(*state, ch_offset, i as nat),
        decreases n - i,
    {
        let ch = ch_offset + i as u8;
        let ghost prev = cmds@;
        cmds.push(port_cmd(ch, DYN_ACTIVATE_CMD, bool_word_exec(state.activates[i])));
        cmds.push(create_phys_port_cmd(ch, DYN_GAIN_CMD, state.gains[i]));
        cmds.push(port_cmd(ch, DYN_ATTACK_CMD, state.attacks[i]));
        cmds.push(port_cmd(ch, DYN_RELEASE_CMD, state.releases[i]));
        cmds.push(create_phys_port_cmd(ch, DYN_COMPR_THRESHOLD_CMD, state.compressor_thresholds[i]));
        cmds.push(port_cmd(ch, DYN_COMPR_RATIO_CMD, state.compressor_ratios[i]));
        cmds.push(create_phys_port_cmd(ch, DYN_EXPANDER_THRESHOLD_CMD, state.expander_thresholds[i]));
        cmds.push(port_cmd(ch, DYN_EXPANDER_RATIO_CMD, state.expander_ratios[i]));
        proof {
            assert(cmds@ =~= prev + dyn_chunk(*state, ch_offset, i as int));
        }
        i = i + 1;
    }
    cmds
}

/// Whether each of the `n` channels has the initial parameters.
pub open spec fn dyn_state_is_default(state: FfLatterDynState, n: nat) -> bool {
    &&& state.activates@ == Seq::new(n, |i: int| false)
    &&& state.gains@ == Seq::new(n, |i: int| 0i16)
    &&& state.attacks@ == Seq::new(n, |i: int| 0u16)
    &&& state.releases@ == Seq::new(n, |i: int| 0u16)
    &&& state.compressor_thresholds@ == Seq::new(n, |i: int| 0i16)
    &&& state.compressor_ratios@ == Seq::new(n, |i: int| 0u16)
    &&& state.expander_thresholds@ == Seq::new(n, |i: int| 0i16)
    &&& state.expander_ratios@ == Seq::new(n, |i: int| 0u16)
}

/// Instantiate the initial parameters for `n` channels.
pub fn create_dyn_state(n: usize) -> (r: FfLatterDynState)
    ensures
        dyn_state_is_default(r, n as nat),
{
    FfLatterDynState {
        activates: filled(n, false),
        gains: filled(n, 0i16),
        attacks: filled(n, 0u16),
        releases: filled(n, 0u16),
        compressor_thresholds: filled(n, 0i16),
        compressor_ratios: filled(n, 0u16),
        expander_thresholds: filled(n, 0i16),
        expander_ratios: filled(n, 0u16),
    }
}

/// Parameters of input dynamics.
#[derive(Debug, Clone, PartialEq, Eq)]
pub struct FfLatterInputDynamicsParameters(pub FfLatterDynState);

/// Parameters of output dynamics.
#[derive(Debug, Clone, PartialEq, Eq)]
pub struct FfLatterOutputDynamicsParameters(pub FfLatterDynState);

/// The specification of channel strip.
pub trait RmeFfLatterDynamicsSpecification {
    /// The minimum value of gain.
    const DYN_GAIN_MIN: i32 = -300;
    /// The maximum value of gain.
    const DYN_GAIN_MAX: i32 = 300;
    /// The step value of gain.
    const DYN_GAIN_STEP: i32 = 1;
    /// The minimum value of attack.
    const DYN_ATTACK_MIN: i32 = 0;
    /// The maximum value of attack.
    const DYN_ATTACK_MAX: i32 = 200;
    /// The step value of attack.
    const DYN_ATTACK_STEP: i32 = 1;
    /// The minimum value of release.
    const DYN_RELEASE_MIN: i32 = 100;
    /// The maximum value of release.
    const DYN_RELEASE_MAX: i32 = 999;
    /// The step value of release.
    const DYN_RELEASE_STEP: i32 = 1;
    /// The minimum value of compressor threshold.
    const DYN_COMP_THRESHOLD_MIN: i32 = -600;
    /// The maximum value of compressor threshold.
    const DYN_COMP_THRESHOLD_MAX: i32 = 0;
    /// The step value of compressor threshold.
    const DYN_COMP_THRESHOLD_STEP: i32 = 1;
    /// The minimum value of ratio.
    const DYN_RATIO_MIN: i32 = 10;
    /// The maximum value of ratio.
    const DYN_RATIO_MAX: i32 = 100;
    /// The step value of ratio.
    const DYN_RATIO_STEP: i32 = 1;
    /// The minimum value of extra threshold.
    const DYN_EX_THRESHOLD_MIN: i32 = -999;
    /// The maximum value of extra threshold.
    const DYN_EX_THRESHOLD_MAX: i32 = -200;
    /// The step value of extra threshold.
    const DYN_EX_THRESHOLD_STEP: i32 = 1;
}

impl<O: RmeFfLatterDspSpecification> RmeFfLatterDynamicsSpecification for O {

}

impl<O> RmeFfCommandParamsSerialize<FfLatterInputDynamicsParameters> for O where O: RmeFfLatterDynamicsSpecification + RmeFfLatterInputSpecification {
    open spec fn commands_acceptable(params: FfLatterInputDynamicsParameters) -> bool {
        dyn_state_fits(params.0, 0)
    }

    open spec fn commands_of(params: FfLatterInputDynamicsParameters) -> Seq<u32> {
        dyn_cmds(params.0, 0)
    }

    fn serialize_commands(params: &FfLatterInputDynamicsParameters) -> (cmds: Vec<u32>) {
        dyn_state_to_cmds(&params.0, 0)
    }
}

impl<O> RmeFfCommandParamsSerialize<FfLatterOutputDynamicsParameters> for O where O: RmeFfLatterDynamicsSpecification + RmeFfLatterOutputSpecification {
    open spec fn commands_acceptable(params: FfLatterOutputDynamicsParameters) -> bool {
        dyn_state_fits(params.0, phys_input_count::<O>() as u8)
    }

    open spec fn commands_of(params: FfLatterOutputDynamicsParameters) -> Seq<u32> {
        dyn_cmds(params.0, phys_input_count::<O>() as u8)
    }

    fn serialize_commands(params: &FfLatterOutputDynamicsParameters) -> (cmds: Vec<u32>) {
        proof {
            O::lemma_port_counts();
        }
        dyn_state_to_cmds(&params.0, O::phys_input_count() as u8)
    }
}

/// State of autolevel in channel strip effects.
#[derive(Debug, Clone, PartialEq, Eq)]
pub struct FfLatterAutolevelState {
    /// Whether to activate auto level.
    pub activates: Vec<bool>,
    /// The maximum level of amplification between 0 and 180, displayed by 1/10 for dB.
    pub max_gains: Vec<u16>,
    /// The level of head room to decline signal peak between 30 and 120, displayed by 1/10 for dB.
    pub headrooms: Vec<u16>,
    /// The speed of level increase between 1 and 99, displayed by 1/10 for seconds.
    pub rise_times: Vec<u16>,
}

/// The commands for the channel at the index.
pub open spec fn autolevel_chunk(state: FfLatterAutolevelState, ch_offset: u8, i: int) -> Seq<u32> {
    let ch = (ch_offset + i) as u8;
    seq![
        port_cmd_value(ch, AUTOLEVEL_ACTIVATE_CMD, bool_word(state.activates@[i])),
        port_cmd_value(ch, AUTOLEVEL_MAX_GAIN_CMD, state.max_gains@[i]),
        port_cmd_value(ch, AUTOLEVEL_HEADROOM_CMD, state.headrooms@[i]),
        port_cmd_value(ch, AUTOLEVEL_RISE_TIME_CMD, state.rise_times@[i]),
    ]
}

/// The commands for the first `n` channels, channel by channel.
pub open spec fn autolevel_cmds_upto(state: FfLatterAutolevelState, ch_offset: u8, n: nat) -> Seq<u32>
    decreases n,
{
    if n == 0 {
        Seq::empty()
    } else {
        autolevel_cmds_upto(state, ch_offset, (n - 1) as nat) + autolevel_chunk(state, ch_offset, n - 1)
    }
}

/// The commands for all of the channels.
pub open spec fn autolevel_cmds(state: FfLatterAutolevelState, ch_offset: u8) -> Seq<u32> {
    autolevel_cmds_upto(state, ch_offset, state.activates@.len())
}

/// The commands for the first `n` channels hold the chunk of each channel in its place.
proof fn lemma_autolevel_cmds_upto_index(state: FfLatterAutolevelState, ch_offset: u8, n: nat)
    ensures
        autolevel_cmds_upto(state, ch_offset, n).len() == 4 * n,
        forall|i: int, j: int|
            0 <= i < n && 0 <= j < 4 ==> #[trigger] chunk_entry(autolevel_cmds_upto(state, ch_offset, n), 4, i, j)
                == autolevel_chunk(state, ch_offset, i)[j],
    decreases n,
{
    if n > 0 {
        lemma_autolevel_cmds_upto_index(state, ch_offset, (n - 1) as nat);
        let prev = autolevel_cmds_upto(state, ch_offset, (n - 1) as nat);
        let c = autolevel_chunk(state, ch_offset, n - 1);
        assert(autolevel_cmds_upto(state, ch_offset, n) == prev + c);
        assert forall|i: int, j: int| 0 <= i < n && 0 <= j < 4 implies #[trigger] chunk_entry(
            autolevel_cmds_upto(state, ch_offset, n),
            4,
            i,
            j,
        ) == autolevel_chunk(state, ch_offset, i)[j] by {
            if i < n - 1 {
                assert(0 <= 4 * i + j < 4 * (n - 1)) by (nonlinear_arith)
                    requires
                        0 <= i < n - 1,
                        0 <= j < 4,
                ;
                assert(chunk_entry(prev, 4, i, j) == autolevel_chunk(state, ch_offset, i)[j]);
            } else {
                assert(4 * i + j == 4 * (n - 1) + j);
            }
        }
    }
}

/// The commands hold 4 entries for each channel, channel by channel; each entry goes to the port
/// of its channel, counted from the offset, and carries the parameter of that channel which its
/// command names.
pub proof fn lemma_autolevel_cmds_carry_state(state: FfLatterAutolevelState, ch_offset: u8)
    ensures
        autolevel_cmds(state, ch_offset).len() == 4 * state.activates@.len(),
        forall|i: int|
            0 <= i < state.activates@.len() ==> {
                let e = #[trigger] chunk_entry(autolevel_cmds(state, ch_offset), 4, i, 0);
                &&& cmd_channel(e) == ((ch_offset + i) as u8) as u32
                &&& cmd_code(e) == AUTOLEVEL_ACTIVATE_CMD as u32
                &&& cmd_word(e) == bool_word(state.activates@[i]) as u32
            },
        forall|i: int|
            0 <= i < state.activates@.len() ==> {
                let e = #[trigger] chunk_entry(autolevel_cmds(state, ch_offset), 4, i, 1);
                &&& cmd_channel(e) == ((ch_offset + i) as u8) as u32
                &&& cmd_code(e) == AUTOLEVEL_MAX_GAIN_CMD as u32
                &&& cmd_word(e) == (state.max_gains@[i]) as u32
            },
        forall|i: int|
            0 <= i < state.activates@.len() ==> {
                let e = #[trigger] chunk_entry(autolevel_cmds(state, ch_offset), 4, i, 2);
                &&& cmd_channel(e) == ((ch_offset + i) as u8) as u32
                &&& cmd_code(e) == AUTOLEVEL_HEADROOM_CMD as u32
                &&& cmd_word(e) == (state.headrooms@[i]) as u32
            },
        forall|i: int|
            0 <= i < state.activates@.len() ==> {
                let e = #[trigger] chunk_entry(autolevel_cmds(state, ch_offset), 4, i, 3);
                &&& cmd_channel(e) == ((ch_offset + i) as u8) as u32
                &&& cmd_code(e) == AUTOLEVEL_RISE_TIME_CMD as u32
                &&& cmd_word(e) == (state.rise_times@[i]) as u32
            },
{
    lemma_autolevel_cmds_upto_index(state, ch_offset, state.activates@.len());
    assert forall|i: int| 0 <= i < state.activates@.len() implies {
        let e = #[trigger] chunk_entry(autolevel_cmds(state, ch_offset), 4, i, 0);
        &&& cmd_channel(e) == ((ch_offset + i) as u8) as u32
        &&& cmd_code(e) == AUTOLEVEL_ACTIVATE_CMD as u32
        &&& cmd_word(e) == bool_word(state.activates@[i]) as u32
    } by {
        lemma_port_cmd_fields(((ch_offset + i) as u8), AUTOLEVEL_ACTIVATE_CMD, bool_word(state.activates@[i]));
        assert(chunk_entry(autolevel_cmds(state, ch_offset), 4, i, 0) == autolevel_chunk(state, ch_offset, i)[0]);
    }
    assert forall|i: int| 0 <= i < state.activates@.len() implies {
        let e = #[trigger] chunk_entry(autolevel_cmds(state, ch_offset), 4, i, 1);
        &&& cmd_channel(e) == ((ch_offset + i) as u8) as u32
        &&& cmd_code(e) == AUTOLEVEL_MAX_GAIN_CMD as u32
        &&& cmd_word(e) == (state.max_gains@[i]) as u32
    } by {
        lemma_port_cmd_fields(((ch_offset + i) as u8), AUTOLEVEL_MAX_GAIN_CMD, state.max_gains@[i]);
        assert(chunk_entry(autolevel_cmds(state, ch_offset), 4, i, 1) == autolevel_chunk(state, ch_offset, i)[1]);
    }
    assert forall|i: int| 0 <= i < state.activates@.len() implies {
        let e = #[trigger] chunk_entry(autolevel_cmds(state, ch_offset), 4, i, 2);
        &&& cmd_channel(e) == ((ch_offset + i) as u8) as u32
        &&& cmd_code(e) == AUTOLEVEL_HEADROOM_CMD as u32
        &&& cmd_word(e) == (state.headrooms@[i]) as u32
    } by {
        lemma_port_cmd_fields(((ch_offset + i) as u8), AUTOLEVEL_HEADROOM_CMD, state.headrooms@[i]);
        assert(chunk_entry(autolevel_cmds(state, ch_offset), 4, i, 2) == autolevel_chunk(state, ch_offset, i)[2]);
    }
    assert forall|i: int| 0 <= i < state.activates@.len() implies {
        let e = #[trigger] chunk_entry(autolevel_cmds(state, ch_offset), 4, i, 3);
        &&& cmd_channel(e) == ((ch_offset + i) as u8) as u32
        &&& cmd_code(e) == AUTOLEVEL_RISE_TIME_CMD as u32
        &&& cmd_word(e) == (state.rise_times@[i]) as u32
    } by {
        lemma_port_cmd_fields(((ch_offset + i) as u8), AUTOLEVEL_RISE_TIME_CMD, state.rise_times@[i]);
        assert(chunk_entry(autolevel_cmds(state, ch_offset), 4, i, 3) == autolevel_chunk(state, ch_offset, i)[3]);
    }
}


/// Whether the parameters have one entry per channel each, and the channels fit in the address
/// space from the offset.
pub open spec fn autolevel_state_fits(state: FfLatterAutolevelState, ch_offset: u8) -> bool {
    &&& state.max_gains@.len() == state.activates@.len()
    &&& state.headrooms@.len() == state.activates@.len()
    &&& state.rise_times@.len() == state.activates@.len()
    &&& ch_offset + state.activates@.len() <= 256
}

/// Build the commands for the parameters of the channels from the offset.
pub fn autolevel_state_to_cmds(state: &FfLatterAutolevelState, ch_offset: u8) -> (cmds: Vec<u32>)
    requires
        autolevel_state_fits(*state, ch_offset),
    ensures
        cmds@ == autolevel_cmds(*state, ch_offset),
{
    let n = state.activates.len();
    let mut cmds: Vec<u32> = Vec::new();
    let mut i: usize = 0;
    while i < n
        invariant
            i <= n,
            n == state.activates@.len(),
            autolevel_state_fits(*state, ch_offset),
            cmds@ == autolevel_cmds_upto(*state, ch_offset, i as nat),
        decreases n - i,
    {
        let ch = ch_offset + i as u8;
        let ghost prev = cmds@;
        cmds.push(port_cmd(ch, AUTOLEVEL_ACTIVATE_CMD, bool_word_exec(state.activates[i])));
        cmds.push(port_cmd(ch, AUTOLEVEL_MAX_GAIN_CMD, state.max_gains[i]));
        cmds.push(port_cmd(ch, AUTOLEVEL_HEADROOM_CMD, state.headrooms[i]));
        cmds.push(port_cmd(ch, AUTOLEVEL_RISE_TIME_CMD, state.rise_times[i]));
        proof {
            assert(cmds@ =~= prev + autolevel_chunk(*state, ch_offset, i as int));
        }
        i = i + 1;
    }
    cmds
}

/// Whether each of the `n` channels has the initial parameters.
pub open spec fn autolevel_state_is_default(state: FfLatterAutolevelState, n: nat) -> bool {
    &&& state.activates@ == Seq::new(n, |i: int| false)
    &&& state.max_gains@ == Seq::new(n, |i: int| 0u16)
    &&& state.headrooms@ == Seq::new(n, |i: int| 0u16)
    &&& state.rise_times@ == Seq::new(n, |i: int| 0u16)
}

/// Instantiate the initial parameters for `n` channels.
pub fn create_autolevel_state(n: usize) -> (r: FfLatterAutolevelState)
    ensures
        autolevel_state_is_default(r, n as nat),
{
    FfLatterAutolevelState {
        activates: filled(n, false),
        max_gains: filled(n, 0u16),
        headrooms: filled(n, 0u16),
        rise_times: filled(n, 0u16),
    }
}

/// Parameters of input autolevel.
#[derive(Debug, Clone, PartialEq, Eq)]
pub struct FfLatterInputAutolevelParameters(pub FfLatterAutolevelState);

/// Parameters of output autolevel.
#[derive(Debug, Clone, PartialEq, Eq)]
pub struct FfLatterOutputAutolevelParameters(pub FfLatterAutolevelState);

/// The specification of autolevel in channel strip effects.
pub trait RmeFfLatterAutolevelSpecification {
    /// The minimum value of max gain.
    const AUTOLEVEL_MAX_GAIN_MIN: i32 = 0;
    /// The maximum value of max gain.
    const AUTOLEVEL_MAX_GAIN_MAX: i32 = 180;
    /// The step value of max gain.
    const AUTOLEVEL_MAX_GAIN_STEP: i32 = 1;
    /// The minimum value of head room.
    const AUTOLEVEL_HEAD_ROOM_MIN: i32 = 30;
    /// The maximum value of head room.
    const AUTOLEVEL_HEAD_ROOM_MAX: i32 = 120;
    /// The step value of head room.
    const AUTOLEVEL_HEAD_ROOM_STEP: i32 = 1;
    /// The minimum value of rise time.
    const AUTOLEVEL_RISE_TIME_MIN: i32 = 1;
    /// The maximum value of rise time.
    const AUTOLEVEL_RISE_TIME_MAX: i32 = 99;
    /// The step value of rise time.
    const AUTOLEVEL_RISE_TIME_STEP: i32 = 1;
}

impl<O: RmeFfLatterDspSpecification> RmeFfLatterAutolevelSpecification for O {

}

impl<O> RmeFfCommandParamsSerialize<FfLatterInputAutolevelParameters> for O where O: RmeFfLatterAutolevelSpecification + RmeFfLatterInputSpecification {
    open spec fn commands_acceptable(params: FfLatterInputAutolevelParameters) -> bool {
        autolevel_state_fits(params.0, 0)
    }

    open spec fn commands_of(params: FfLatterInputAutolevelParameters) -> Seq<u32> {
        autolevel_cmds(params.0, 0)
    }

    fn serialize_commands(params: &FfLatterInputAutolevelParameters) -> (cmds: Vec<u32>) {
        autolevel_state_to_cmds(&params.0, 0)
    }
}

impl<O> RmeFfCommandParamsSerialize<FfLatterOutputAutolevelParameters> for O where O: RmeFfLatterAutolevelSpecification + RmeFfLatterOutputSpecification {
    open spec fn commands_acceptable(params: FfLatterOutputAutolevelParameters) -> bool {
        autolevel_state_fits(params.0, phys_input_count::<O>() as u8)
    }

    open spec fn commands_of(params: FfLatterOutputAutolevelParameters) -> Seq<u32> {
        autolevel_cmds(params.0, phys_input_count::<O>() as u8)
    }

    fn serialize_commands(params: &FfLatterOutputAutolevelParameters) -> (cmds: Vec<u32>) {
        proof {
            O::lemma_port_counts();
        }
        autolevel_state_to_cmds(&params.0, O::phys_input_count() as u8)
    }
}

/// State of inputs.
#[derive(Debug, Clone, PartialEq, Eq)]
pub struct FfLatterInputState {
    /// Whether to link each pair of left and right ports.
    pub stereo_links: Vec<bool>,
    /// Whether to inverse the phase of analog, spdif, and adat inputs.
    pub invert_phases: Vec<bool>,
    /// The gain of analog line input. The value is between 0 and 120 to represent 0.00 dB and 12.00 dB.
    pub line_gains: Vec<i16>,
    /// The nominal level of analog line input.
    pub line_levels: Vec<LatterInNominalLevel>,
    /// Whether to enable powering for mic input. This setting has no effect when the microphone is
    /// used for instrument.
    pub mic_powers: Vec<bool>,
    /// Whether to use mic input for instrument.
    pub mic_insts: Vec<bool>,
}

/// The command for the stereo link of the pair at the index.
pub open spec fn input_link_cmd(state: FfLatterInputState, i: int) -> u32 {
    port_cmd_value((i * 2) as u8, INPUT_STEREO_LINK_CMD, bool_word(state.stereo_links@[i]))
}

/// The command for the phase of the input at the index.
pub open spec fn input_invert_cmd(state: FfLatterInputState, i: int) -> u32 {
    port_cmd_value(i as u8, INPUT_INVERT_PHASE_CMD, bool_word(state.invert_phases@[i]))
}

/// The command for the gain of the line input at the index.
pub open spec fn input_gain_cmd(state: FfLatterInputState, i: int) -> u32 {
    port_cmd_value(i as u8, INPUT_LINE_GAIN_CMD, state.line_gains@[i] as u16)
}

/// The command for the nominal level of the line input at the index.
pub open spec fn input_level_cmd(state: FfLatterInputState, i: int) -> u32 {
    port_cmd_value(
        i as u8,
        INPUT_LINE_LEVEL_CMD,
        input_nominal_level_code(state.line_levels@[i]) as u16,
    )
}

/// The commands for the microphone input at the index, which follows the line inputs: the use
/// for instrument, then the powering, which is off for an instrument.
pub open spec fn mic_chunk(state: FfLatterInputState, line_count: nat, i: int) -> Seq<u32> {
    let ch = (line_count + i) as u8;
    seq![
        port_cmd_value(ch, INPUT_MIC_INST_CMD, bool_word(state.mic_insts@[i])),
        port_cmd_value(
            ch,
            INPUT_MIC_POWER_CMD,
            bool_word(state.mic_powers@[i] && !state.mic_insts@[i]),
        ),
    ]
}

/// The commands for the first `n` microphone inputs.
pub open spec fn mic_cmds_upto(state: FfLatterInputState, line_count: nat, n: nat) -> Seq<u32>
    decreases n,
{
    if n == 0 {
        Seq::empty()
    } else {
        mic_cmds_upto(state, line_count, (n - 1) as nat) + mic_chunk(state, line_count, n - 1)
    }
}

/// The commands for the inputs: stereo links, phases, gains and levels of line inputs, then the
/// microphone inputs.
pub open spec fn input_cmds(state: FfLatterInputState) -> Seq<u32> {
    Seq::new(state.stereo_links@.len(), |i: int| input_link_cmd(state, i)) + Seq::new(
        state.invert_phases@.len(),
        |i: int| input_invert_cmd(state, i),
    ) + Seq::new(state.line_gains@.len(), |i: int| input_gain_cmd(state, i)) + Seq::new(
        state.line_levels@.len(),
        |i: int| input_level_cmd(state, i),
    ) + mic_cmds_upto(state, state.line_gains@.len(), state.mic_powers@.len())
}

/// The commands for the first `n` microphone inputs hold the two commands of each in its place.
proof fn lemma_mic_cmds_upto_index(state: FfLatterInputState, line_count: nat, n: nat)
    ensures
        mic_cmds_upto(state, line_count, n).len() == 2 * n,
        forall|i: int, j: int|
            0 <= i < n && 0 <= j < 2 ==> #[trigger] chunk_entry(mic_cmds_upto(state, line_count, n), 2, i, j)
                == mic_chunk(state, line_count, i)[j],
    decreases n,
{
    if n > 0 {
        lemma_mic_cmds_upto_index(state, line_count, (n - 1) as nat);
        let prev = mic_cmds_upto(state, line_count, (n - 1) as nat);
        assert forall|i: int, j: int| 0 <= i < n && 0 <= j < 2 implies #[trigger] chunk_entry(
            mic_cmds_upto(state, line_count, n),
            2,
            i,
            j,
        ) == mic_chunk(state, line_count, i)[j] by {
            if i < n - 1 {
                assert(chunk_entry(prev, 2, i, j) == mic_chunk(state, line_count, i)[j]);
            }
        }
    }
}

/// The commands for the inputs hold, kind after kind, the stereo link of each pair of inputs
/// (addressed by its first channel), the phase, the gain and the nominal level of each line
/// input, then for each microphone input the use for instrument and the powering, which is off
/// for an instrument; each carries that parameter of its input.
pub proof fn lemma_input_cmds_carry_state(state: FfLatterInputState)
    ensures
        input_cmds(state).len() == state.stereo_links@.len() + state.invert_phases@.len() + state.line_gains@.len() + state.line_levels@.len() + 2 * state.mic_powers@.len(),
        forall|i: int|
            0 <= i < state.stereo_links@.len() ==> {
                let e = #[trigger] entry_after(input_cmds(state), 0, i);
                &&& cmd_channel(e) == ((i * 2) as u8) as u32
                &&& cmd_code(e) == INPUT_STEREO_LINK_CMD as u32
                &&& cmd_word(e) == (bool_word(state.stereo_links@[i])) as u32
            },
        forall|i: int|
            0 <= i < state.invert_phases@.len() ==> {
                let e = #[trigger] entry_after(input_cmds(state), (state.stereo_links@.len()) as int, i);
                &&& cmd_channel(e) == (i as u8) as u32
                &&& cmd_code(e) == INPUT_INVERT_PHASE_CMD as u32
                &&& cmd_word(e) == (bool_word(state.invert_phases@[i])) as u32
            },
        forall|i: int|
            0 <= i < state.line_gains@.len() ==> {
                let e = #[trigger] entry_after(input_cmds(state), (state.stereo_links@.len() + state.invert_phases@.len()) as int, i);
                &&& cmd_channel(e) == (i as u8) as u32
                &&& cmd_code(e) == INPUT_LINE_GAIN_CMD as u32
                &&& cmd_word(e) == (state.line_gains@[i] as u16) as u32
            },
        forall|i: int|
            0 <= i < state.line_levels@.len() ==> {
                let e = #[trigger] entry_after(input_cmds(state), (state.stereo_links@.len() + state.invert_phases@.len() + state.line_gains@.len()) as int, i);
                &&& cmd_channel(e) == (i as u8) as u32
                &&& cmd_code(e) == INPUT_LINE_LEVEL_CMD as u32
                &&& cmd_word(e) == (input_nominal_level_code(state.line_levels@[i]) as u16) as u32
            },
        forall|i: int|
            0 <= i < state.mic_powers@.len() ==> {
                let e = #[trigger] entry_after(input_cmds(state), (state.stereo_links@.len() + state.invert_phases@.len() + state.line_gains@.len() + state.line_levels@.len() + 2 * i) as int, 0);
                &&& cmd_channel(e) == ((state.line_gains@.len() + i) as u8) as u32
                &&& cmd_code(e) == INPUT_MIC_INST_CMD as u32
                &&& cmd_word(e) == (bool_word(state.mic_insts@[i])) as u32
            },
        forall|i: int|
            0 <= i < state.mic_powers@.len() ==> {
                let e = #[trigger] entry_after(input_cmds(state), (state.stereo_links@.len() + state.invert_phases@.len() + state.line_gains@.len() + state.line_levels@.len() + 2 * i) as int, 1);
                &&& cmd_channel(e) == ((state.line_gains@.len() + i) as u8) as u32
                &&& cmd_code(e) == INPUT_MIC_POWER_CMD as u32
                &&& cmd_word(e) == (bool_word(state.mic_powers@[i] && !state.mic_insts@[i])) as u32
            },
{
    let c = input_cmds(state);
    assert forall|i: int| 0 <= i < state.stereo_links@.len() implies {
        let e = #[trigger] entry_after(input_cmds(state), 0, i);
        &&& cmd_channel(e) == ((i * 2) as u8) as u32
        &&& cmd_code(e) == INPUT_STEREO_LINK_CMD as u32
        &&& cmd_word(e) == (bool_word(state.stereo_links@[i])) as u32
    } by {
        lemma_port_cmd_fields((i * 2) as u8, INPUT_STEREO_LINK_CMD, bool_word(state.stereo_links@[i]));
        assert(entry_after(input_cmds(state), 0, i) == c[0 + i]);
    }
    assert forall|i: int| 0 <= i < state.invert_phases@.len() implies {
        let e = #[trigger] entry_after(input_cmds(state), (state.stereo_links@.len()) as int, i);
        &&& cmd_channel(e) == (i as u8) as u32
        &&& cmd_code(e) == INPUT_INVERT_PHASE_CMD as u32
        &&& cmd_word(e) == (bool_word(state.invert_phases@[i])) as u32
    } by {
        lemma_port_cmd_fields(i as u8, INPUT_INVERT_PHASE_CMD, bool_word(state.invert_phases@[i]));
        assert(entry_after(input_cmds(state), (state.stereo_links@.len()) as int, i) == c[(state.stereo_links@.len()) as int + i]);
    }
    assert forall|i: int| 0 <= i < state.line_gains@.len() implies {
        let e = #[trigger] entry_after(input_cmds(state), (state.stereo_links@.len() + state.invert_phases@.len()) as int, i);
        &&& cmd_channel(e) == (i as u8) as u32
        &&& cmd_code(e) == INPUT_LINE_GAIN_CMD as u32
        &&& cmd_word(e) == (state.line_gains@[i] as u16) as u32
    } by {
        lemma_port_cmd_fields(i as u8, INPUT_LINE_GAIN_CMD, state.line_gains@[i] as u16);
        assert(entry_after(input_cmds(state), (state.stereo_links@.len() + state.invert_phases@.len()) as int, i) == c[(state.stereo_links@.len() + state.invert_phases@.len()) as int + i]);
    }
    assert forall|i: int| 0 <= i < state.line_levels@.len() implies {
        let e = #[trigger] entry_after(input_cmds(state), (state.stereo_links@.len() + state.invert_phases@.len() + state.line_gains@.len()) as int, i);
        &&& cmd_channel(e) == (i as u8) as u32
        &&& cmd_code(e) == INPUT_LINE_LEVEL_CMD as u32
        &&& cmd_word(e) == (input_nominal_level_code(state.line_levels@[i]) as u16) as u32
    } by {
        lemma_port_cmd_fields(i as u8, INPUT_LINE_LEVEL_CMD, input_nominal_level_code(state.line_levels@[i]) as u16);
        assert(entry_after(input_cmds(state), (state.stereo_links@.len() + state.invert_phases@.len() + state.line_gains@.len()) as int, i) == c[(state.stereo_links@.len() + state.invert_phases@.len() + state.line_gains@.len()) as int + i]);
    }
    lemma_mic_cmds_upto_index(state, state.line_gains@.len(), state.mic_powers@.len());
    let m = mic_cmds_upto(state, state.line_gains@.len(), state.mic_powers@.len());
    assert forall|i: int| 0 <= i < state.mic_powers@.len() implies {
        let e = #[trigger] entry_after(input_cmds(state), (state.stereo_links@.len() + state.invert_phases@.len() + state.line_gains@.len() + state.line_levels@.len() + 2 * i) as int, 0);
        &&& cmd_channel(e) == ((state.line_gains@.len() + i) as u8) as u32
        &&& cmd_code(e) == INPUT_MIC_INST_CMD as u32
        &&& cmd_word(e) == (bool_word(state.mic_insts@[i])) as u32
    } by {
        lemma_port_cmd_fields((state.line_gains@.len() + i) as u8, INPUT_MIC_INST_CMD, bool_word(state.mic_insts@[i]));
        assert(chunk_entry(m, 2, i, 0) == mic_chunk(state, state.line_gains@.len(), i)[0]);
        assert(c[state.stereo_links@.len() + state.invert_phases@.len() + state.line_gains@.len() + state.line_levels@.len() + 2 * i] == m[2 * i]);
    }
    assert forall|i: int| 0 <= i < state.mic_powers@.len() implies {
        let e = #[trigger] entry_after(input_cmds(state), (state.stereo_links@.len() + state.invert_phases@.len() + state.line_gains@.len() + state.line_levels@.len() + 2 * i) as int, 1);
        &&& cmd_channel(e) == ((state.line_gains@.len() + i) as u8) as u32
        &&& cmd_code(e) == INPUT_MIC_POWER_CMD as u32
        &&& cmd_word(e) == (bool_word(state.mic_powers@[i] && !state.mic_insts@[i])) as u32
    } by {
        lemma_port_cmd_fields((state.line_gains@.len() + i) as u8, INPUT_MIC_POWER_CMD, bool_word(state.mic_powers@[i] && !state.mic_insts@[i]));
        assert(chunk_entry(m, 2, i, 1) == mic_chunk(state, state.line_gains@.len(), i)[1]);
        assert(c[state.stereo_links@.len() + state.invert_phases@.len() + state.line_gains@.len() + state.line_levels@.len() + 2 * i + 1] == m[2 * i + 1]);
    }
}

/// Whether the state of inputs fits in the address space of DSP.
pub open spec fn input_state_fits(state: FfLatterInputState) -> bool {
    &&& state.stereo_links@.len() <= 128
    &&& state.invert_phases@.len() <= 256
    &&& state.line_levels@.len() == state.line_gains@.len()
    &&& state.mic_insts@.len() == state.mic_powers@.len()
    &&& state.line_gains@.len() + state.mic_powers@.len() <= 256
}

fn input_state_to_cmds(state: &FfLatterInputState) -> (cmds: Vec<u32>)
    requires
        input_state_fits(*state),
    ensures
        cmds@ == input_cmds(*state),
{
    let mut cmds: Vec<u32> = Vec::new();
    let mut i: usize = 0;
    while i < state.stereo_links.len()
        invariant
            i <= state.stereo_links@.len() <= 128,
            cmds@ =~= Seq::new(i as nat, |k: int| input_link_cmd(*state, k)),
        decreases state.stereo_links@.len() - i,
    {
        cmds.push(port_cmd((i * 2) as u8, INPUT_STEREO_LINK_CMD, bool_word_exec(state.stereo_links[i])));
        i = i + 1;
        proof {
            assert(cmds@ =~= Seq::new(i as nat, |k: int| input_link_cmd(*state, k)));
        }
    }
    let ghost a = cmds@;
    let mut i: usize = 0;
    while i < state.invert_phases.len()
        invariant
            i <= state.invert_phases@.len() <= 256,
            cmds@ =~= a + Seq::new(i as nat, |k: int| input_invert_cmd(*state, k)),
        decreases state.invert_phases@.len() - i,
    {
        cmds.push(port_cmd(i as u8, INPUT_INVERT_PHASE_CMD, bool_word_exec(state.invert_phases[i])));
        i = i + 1;
        proof {
            assert(cmds@ =~= a + Seq::new(i as nat, |k: int| input_invert_cmd(*state, k)));
        }
    }
    let ghost b = cmds@;
    let mut i: usize = 0;
    while i < state.line_gains.len()
        invariant
            i <= state.line_gains@.len() <= 256,
            cmds@ =~= b + Seq::new(i as nat, |k: int| input_gain_cmd(*state, k)),
        decreases state.line_gains@.len() - i,
    {
        cmds.push(create_phys_port_cmd(i as u8, INPUT_LINE_GAIN_CMD, state.line_gains[i]));
        i = i + 1;
        proof {
            assert(cmds@ =~= b + Seq::new(i as nat, |k: int| input_gain_cmd(*state, k)));
        }
    }
    let ghost c = cmds@;
    let mut i: usize = 0;
    while i < state.line_levels.len()
        invariant
            i <= state.line_levels@.len() <= 256,
            cmds@ =~= c + Seq::new(i as nat, |k: int| input_level_cmd(*state, k)),
        decreases state.line_levels@.len() - i,
    {
        cmds.push(
            create_phys_port_cmd(
                i as u8,
                INPUT_LINE_LEVEL_CMD,
                deserialize_input_nominal_level(&state.line_levels[i]),
            ),
        );
        i = i + 1;
        proof {
            assert(cmds@ =~= c + Seq::new(i as nat, |k: int| input_level_cmd(*state, k)));
        }
    }
    let ghost d = cmds@;
    let line_count = state.line_gains.len();
    let mut i: usize = 0;
    while i < state.mic_powers.len()
        invariant
            i <= state.mic_powers@.len(),
            line_count == state.line_gains@.len(),
            input_state_fits(*state),
            cmds@ =~= d + mic_cmds_upto(*state, line_count as nat, i as nat),
        decreases state.mic_powers@.len() - i,
    {
        // NOTE: The offset is required for microphone inputs.
        let ch = (line_count + i) as u8;
        let ghost prev = cmds@;
        cmds.push(port_cmd(ch, INPUT_MIC_INST_CMD, bool_word_exec(state.mic_insts[i])));
        // NOTE: When enabling the setting for instrument, the setting for phantom powering is
        // disabled automatically.
        let powering = state.mic_powers[i] && !state.mic_insts[i];
        cmds.push(port_cmd(ch, INPUT_MIC_POWER_CMD, bool_word_exec(powering)));
        proof {
            assert(cmds@ =~= prev + mic_chunk(*state, line_count as nat, i as int));
        }
        i = i + 1;
    }
    cmds
}

/// The specification of inputs.
pub trait RmeFfLatterInputSpecification: RmeFfLatterDspSpecification {
    /// The minimum value of physical inputs.
    const PHYS_INPUT_GAIN_MIN: i32 = 0;
    /// The maximum value of physical inputs.
    const PHYS_INPUT_GAIN_MAX: i32 = 120;
    /// The step value of physical inputs.
    const PHYS_INPUT_GAIN_STEP: i32 = 1;

    /// Instantiate input parameters.
    fn create_input_parameters() -> (r: FfLatterInputState)
        ensures
            r.stereo_links@ == Seq::new((phys_input_count::<Self>() / 2) as nat, |i: int| false),
            r.invert_phases@ == Seq::new(phys_input_count::<Self>() as nat, |i: int| false),
            r.line_gains@ == Seq::new(Self::LINE_INPUT_COUNT as nat, |i: int| 0i16),
            r.line_levels@ == Seq::new(
                Self::LINE_INPUT_COUNT as nat,
                |i: int| LatterInNominalLevel::Low,
            ),
            r.mic_powers@ == Seq::new(Self::MIC_INPUT_COUNT as nat, |i: int| false),
            r.mic_insts@ == Seq::new(Self::MIC_INPUT_COUNT as nat, |i: int| false),
    {
        FfLatterInputState {
            stereo_links: filled(Self::phys_input_count() / 2, false),
            invert_phases: filled(Self::phys_input_count(), false),
            line_gains: filled(Self::LINE_INPUT_COUNT, 0i16),
            line_levels: filled(Self::LINE_INPUT_COUNT, LatterInNominalLevel::Low),
            mic_powers: filled(Self::MIC_INPUT_COUNT, false),
            mic_insts: filled(Self::MIC_INPUT_COUNT, false),
        }
    }

    /// Instantiate input high pass filter parameters.
    fn create_input_hpf_parameters() -> (r: FfLatterInputHpfParameters)
        ensures
            hpf_state_is_default(r.0, phys_input_count::<Self>() as nat),
    {
        FfLatterInputHpfParameters(create_hpf_state(Self::phys_input_count()))
    }

    /// Instantiate input equalizer parameters.
    fn create_input_equalizer_parameters() -> (r: FfLatterInputEqualizerParameters)
        ensures
            eq_state_is_default(r.0, phys_input_count::<Self>() as nat),
    {
        FfLatterInputEqualizerParameters(create_eq_state(Self::phys_input_count()))
    }

    /// Instantiate input dynamics parameters.
    fn create_input_dynamics_parameters() -> (r: FfLatterInputDynamicsParameters)
        ensures
            dyn_state_is_default(r.0, phys_input_count::<Self>() as nat),
    {
        FfLatterInputDynamicsParameters(create_dyn_state(Self::phys_input_count()))
    }

    /// Instantiate input autolevel parameters.
    fn create_input_autolevel_parameters() -> (r: FfLatterInputAutolevelParameters)
        ensures
            autolevel_state_is_default(r.0, phys_input_count::<Self>() as nat),
    {
        FfLatterInputAutolevelParameters(create_autolevel_state(Self::phys_input_count()))
    }
}

impl<O: RmeFfLatterDspSpecification> RmeFfLatterInputSpecification for O {

}

impl<O: RmeFfLatterInputSpecification> RmeFfCommandParamsSerialize<FfLatterInputState> for O {
    open spec fn commands_acceptable(state: FfLatterInputState) -> bool {
        &&& state.stereo_links@.len() == phys_input_count::<O>() / 2
        &&& state.invert_phases@.len() == phys_input_count::<O>()
        &&& state.line_gains@.len() == O::LINE_INPUT_COUNT
        &&& state.line_levels@.len() == O::LINE_INPUT_COUNT
        &&& state.mic_powers@.len() == O::MIC_INPUT_COUNT
        &&& state.mic_insts@.len() == O::MIC_INPUT_COUNT
    }

    open spec fn commands_of(state: FfLatterInputState) -> Seq<u32> {
        input_cmds(state)
    }

    fn serialize_commands(state: &FfLatterInputState) -> (cmds: Vec<u32>) {
        proof {
            O::lemma_port_counts();
        }
        input_state_to_cmds(state)
    }
}

/// The specification of output.
#[derive(Debug, Clone, PartialEq, Eq)]
pub struct FfLatterOutputState {
    /// The level of volume. Each value is between -650 (0xfd76) and 60 (0x003c) to represent
    /// -65.00 dB and 6.00 dB.
    pub vols: Vec<i16>,
    /// The balance between left and right. The value is between -100 (0xff9c) and 100 (0x0064).
    pub stereo_balance: Vec<i16>,
    /// Whether to link each pair of left and right ports.
    pub stereo_links: Vec<bool>,
    /// Whether to inverse the phase of analog, spdif, and adat outputs.
    pub invert_phases: Vec<bool>,
    /// The nominal level of analog line output.
    pub line_levels: Vec<LineOutNominalLevel>,
}

/// The command for the volume of the output at the index.
pub open spec fn output_vol_cmd(state: FfLatterOutputState, ch_offset: u8, i: int) -> u32 {
    port_cmd_value((ch_offset + i) as u8, OUTPUT_VOL_CMD, state.vols@[i] as u16)
}

/// The command for the balance of the output at the index.
pub open spec fn output_balance_cmd(state: FfLatterOutputState, ch_offset: u8, i: int) -> u32 {
    port_cmd_value((ch_offset + i) as u8, OUTPUT_STEREO_BALANCE_CMD, state.stereo_balance@[i] as u16)
}

/// The command for the stereo link of the output at the index.
pub open spec fn output_link_cmd(state: FfLatterOutputState, ch_offset: u8, i: int) -> u32 {
    port_cmd_value((ch_offset + i) as u8, OUTPUT_STEREO_LINK_CMD, bool_word(state.stereo_links@[i]))
}

/// The command for the phase of the output at the index.
pub open spec fn output_invert_cmd(state: FfLatterOutputState, ch_offset: u8, i: int) -> u32 {
    port_cmd_value(
        (ch_offset + i) as u8,
        OUTPUT_INVERT_PHASE_CMD,
        bool_word(state.invert_phases@[i]),
    )
}

/// The command for the nominal level of the line output at the index.
pub open spec fn output_level_cmd(state: FfLatterOutputState, ch_offset: u8, i: int) -> u32 {
    port_cmd_value(
        (ch_offset + i) as u8,
        OUTPUT_LINE_LEVEL_CMD,
        output_nominal_level_code(state.line_levels@[i]) as u16,
    )
}

/// The commands for the outputs: volumes, balances, stereo links, phases, and levels of line
/// outputs, each kind for the channels from the offset.
pub open spec fn output_cmds(state: FfLatterOutputState, ch_offset: u8) -> Seq<u32> {
    Seq::new(state.vols@.len(), |i: int| output_vol_cmd(state, ch_offset, i)) + Seq::new(
        state.stereo_balance@.len(),
        |i: int| output_balance_cmd(state, ch_offset, i),
    ) + Seq::new(state.stereo_links@.len(), |i: int| output_link_cmd(state, ch_offset, i))
        + Seq::new(state.invert_phases@.len(), |i: int| output_invert_cmd(state, ch_offset, i))
        + Seq::new(state.line_levels@.len(), |i: int| output_level_cmd(state, ch_offset, i))
}

/// The commands for the outputs hold, kind after kind, the volume, the balance, the stereo link,
/// the phase and the nominal level of each output; each goes to the port of its output, counted
/// from the offset, and carries that parameter of the output.
pub proof fn lemma_output_cmds_carry_state(state: FfLatterOutputState, ch_offset: u8)
    ensures
        output_cmds(state, ch_offset).len() == state.vols@.len() + state.stereo_balance@.len()
            + state.stereo_links@.len() + state.invert_phases@.len() + state.line_levels@.len(),
        forall|i: int|
            0 <= i < state.vols@.len() ==> {
                let e = #[trigger] entry_after(output_cmds(state, ch_offset), 0, i);
                &&& cmd_channel(e) == ((ch_offset + i) as u8) as u32
                &&& cmd_code(e) == OUTPUT_VOL_CMD as u32
                &&& cmd_word(e) == (state.vols@[i] as u16) as u32
            },
        forall|i: int|
            0 <= i < state.stereo_balance@.len() ==> {
                let e = #[trigger] entry_after(output_cmds(state, ch_offset), (state.vols@.len()) as int, i);
                &&& cmd_channel(e) == ((ch_offset + i) as u8) as u32
                &&& cmd_code(e) == OUTPUT_STEREO_BALANCE_CMD as u32
                &&& cmd_word(e) == (state.stereo_balance@[i] as u16) as u32
            },
        forall|i: int|
            0 <= i < state.stereo_links@.len() ==> {
                let e = #[trigger] entry_after(output_cmds(state, ch_offset), (state.vols@.len() + state.stereo_balance@.len()) as int, i);
                &&& cmd_channel(e) == ((ch_offset + i) as u8) as u32
                &&& cmd_code(e) == OUTPUT_STEREO_LINK_CMD as u32
                &&& cmd_word(e) == (bool_word(state.stereo_links@[i])) as u32
            },
        forall|i: int|
            0 <= i < state.invert_phases@.len() ==> {
                let e = #[trigger] entry_after(output_cmds(state, ch_offset), (state.vols@.len() + state.stereo_balance@.len() + state.stereo_links@.len()) as int, i);
                &&& cmd_channel(e) == ((ch_offset + i) as u8) as u32
                &&& cmd_code(e) == OUTPUT_INVERT_PHASE_CMD as u32
                &&& cmd_word(e) == (bool_word(state.invert_phases@[i])) as u32
            },
        forall|i: int|
            0 <= i < state.line_levels@.len() ==> {
                let e = #[trigger] entry_after(output_cmds(state, ch_offset), (state.vols@.len() + state.stereo_balance@.len() + state.stereo_links@.len() + state.invert_phases@.len()) as int, i);
                &&& cmd_channel(e) == ((ch_offset + i) as u8) as u32
                &&& cmd_code(e) == OUTPUT_LINE_LEVEL_CMD as u32
                &&& cmd_word(e) == (output_nominal_level_code(state.line_levels@[i]) as u16) as u32
            },
{
    let c = output_cmds(state, ch_offset);
    assert forall|i: int| 0 <= i < state.vols@.len() implies {
        let e = #[trigger] entry_after(output_cmds(state, ch_offset), 0, i);
        &&& cmd_channel(e) == ((ch_offset + i) as u8) as u32
        &&& cmd_code(e) == OUTPUT_VOL_CMD as u32
        &&& cmd_word(e) == (state.vols@[i] as u16) as u32
    } by {
        lemma_port_cmd_fields((ch_offset + i) as u8, OUTPUT_VOL_CMD, state.vols@[i] as u16);
        assert(entry_after(output_cmds(state, ch_offset), 0, i) == c[0 + i]);
    }
    assert forall|i: int| 0 <= i < state.stereo_balance@.len() implies {
        let e = #[trigger] entry_after(output_cmds(state, ch_offset), (state.vols@.len()) as int, i);
        &&& cmd_channel(e) == ((ch_offset + i) as u8) as u32
        &&& cmd_code(e) == OUTPUT_STEREO_BALANCE_CMD as u32
        &&& cmd_word(e) == (state.stereo_balance@[i] as u16) as u32
    } by {
        lemma_port_cmd_fields((ch_offset + i) as u8, OUTPUT_STEREO_BALANCE_CMD, state.stereo_balance@[i] as u16);
        assert(entry_after(output_cmds(state, ch_offset), (state.vols@.len()) as int, i) == c[state.vols@.len() + i]);
    }
    assert forall|i: int| 0 <= i < state.stereo_links@.len() implies {
        let e = #[trigger] entry_after(output_cmds(state, ch_offset), (state.vols@.len() + state.stereo_balance@.len()) as int, i);
        &&& cmd_channel(e) == ((ch_offset + i) as u8) as u32
        &&& cmd_code(e) == OUTPUT_STEREO_LINK_CMD as u32
        &&& cmd_word(e) == (bool_word(state.stereo_links@[i])) as u32
    } by {
        lemma_port_cmd_fields((ch_offset + i) as u8, OUTPUT_STEREO_LINK_CMD, bool_word(state.stereo_links@[i]));
        assert(entry_after(output_cmds(state, ch_offset), (state.vols@.len() + state.stereo_balance@.len()) as int, i) == c[state.vols@.len() + state.stereo_balance@.len() + i]);
    }
    assert forall|i: int| 0 <= i < state.invert_phases@.len() implies {
        let e = #[trigger] entry_after(output_cmds(state, ch_offset), (state.vols@.len() + state.stereo_balance@.len() + state.stereo_links@.len()) as int, i);
        &&& cmd_channel(e) == ((ch_offset + i) as u8) as u32
        &&& cmd_code(e) == OUTPUT_INVERT_PHASE_CMD as u32
        &&& cmd_word(e) == (bool_word(state.invert_phases@[i])) as u32
    } by {
        lemma_port_cmd_fields((ch_offset + i) as u8, OUTPUT_INVERT_PHASE_CMD, bool_word(state.invert_phases@[i]));
        assert(entry_after(output_cmds(state, ch_offset), (state.vols@.len() + state.stereo_balance@.len() + state.stereo_links@.len()) as int, i) == c[state.vols@.len() + state.stereo_balance@.len() + state.stereo_links@.len() + i]);
    }
    assert forall|i: int| 0 <= i < state.line_levels@.len() implies {
        let e = #[trigger] entry_after(output_cmds(state, ch_offset), (state.vols@.len() + state.stereo_balance@.len() + state.stereo_links@.len() + state.invert_phases@.len()) as int, i);
        &&& cmd_channel(e) == ((ch_offset + i) as u8) as u32
        &&& cmd_code(e) == OUTPUT_LINE_LEVEL_CMD as u32
        &&& cmd_word(e) == (output_nominal_level_code(state.line_levels@[i]) as u16) as u32
    } by {
        lemma_port_cmd_fields((ch_offset + i) as u8, OUTPUT_LINE_LEVEL_CMD, output_nominal_level_code(state.line_levels@[i]) as u16);
        assert(entry_after(output_cmds(state, ch_offset), (state.vols@.len() + state.stereo_balance@.len() + state.stereo_links@.len() + state.invert_phases@.len()) as int, i) == c[state.vols@.len() + state.stereo_balance@.len() + state.stereo_links@.len() + state.invert_phases@.len() + i]);
    }
}

/// Whether the state of outputs fits in the address space of DSP from the offset.
pub open spec fn output_state_fits(state: FfLatterOutputState, ch_offset: u8) -> bool {
    &&& ch_offset + state.vols@.len() <= 256
    &&& ch_offset + state.stereo_balance@.len() <= 256
    &&& ch_offset + state.stereo_links@.len() <= 256
    &&& ch_offset + state.invert_phases@.len() <= 256
    &&& ch_offset + state.line_levels@.len() <= 256
}

fn output_state_to_cmds(state: &FfLatterOutputState, ch_offset: u8) -> (cmds: Vec<u32>)
    requires
        output_state_fits(*state, ch_offset),
    ensures
        cmds@ == output_cmds(*state, ch_offset),
{
    let mut cmds: Vec<u32> = Vec::new();
    let mut i: usize = 0;
    while i < state.vols.len()
        invariant
            i <= state.vols@.len(),
            ch_offset + state.vols@.len() <= 256,
            cmds@ =~= Seq::new(i as nat, |k: int| output_vol_cmd(*state, ch_offset, k)),
        decreases state.vols@.len() - i,
    {
        cmds.push(create_phys_port_cmd(ch_offset + i as u8, OUTPUT_VOL_CMD, state.vols[i]));
        i = i + 1;
        proof {
            assert(cmds@ =~= Seq::new(i as nat, |k: int| output_vol_cmd(*state, ch_offset, k)));
        }
    }
    let ghost a = cmds@;
    let mut i: usize = 0;
    while i < state.stereo_balance.len()
        invariant
            i <= state.stereo_balance@.len(),
            ch_offset + state.stereo_balance@.len() <= 256,
            cmds@ =~= a + Seq::new(i as nat, |k: int| output_balance_cmd(*state, ch_offset, k)),
        decreases state.stereo_balance@.len() - i,
    {
        cmds.push(
            create_phys_port_cmd(
                ch_offset + i as u8,
                OUTPUT_STEREO_BALANCE_CMD,
                state.stereo_balance[i],
            ),
        );
        i = i + 1;
        proof {
            assert(cmds@ =~= a + Seq::new(
                i as nat,
                |k: int| output_balance_cmd(*state, ch_offset, k),
            ));
        }
    }
    let ghost b = cmds@;
    let mut i: usize = 0;
    while i < state.stereo_links.len()
        invariant
            i <= state.stereo_links@.len(),
            ch_offset + state.stereo_links@.len() <= 256,
            cmds@ =~= b + Seq::new(i as nat, |k: int| output_link_cmd(*state, ch_offset, k)),
        decreases state.stereo_links@.len() - i,
    {
        cmds.push(
            port_cmd(
                ch_offset + i as u8,
                OUTPUT_STEREO_LINK_CMD,
                bool_word_exec(state.stereo_links[i]),
            ),
        );
        i = i + 1;
        proof {
            assert(cmds@ =~= b + Seq::new(i as nat, |k: int| output_link_cmd(*state, ch_offset, k)));
        }
    }
    let ghost c = cmds@;
    let mut i: usize = 0;
    while i < state.invert_phases.len()
        invariant
            i <= state.invert_phases@.len(),
            ch_offset + state.invert_phases@.len() <= 256,
            cmds@ =~= c + Seq::new(i as nat, |k: int| output_invert_cmd(*state, ch_offset, k)),
        decreases state.invert_phases@.len() - i,
    {
        cmds.push(
            port_cmd(
                ch_offset + i as u8,
                OUTPUT_INVERT_PHASE_CMD,
                bool_word_exec(state.invert_phases[i]),
            ),
        );
        i = i + 1;
        proof {
            assert(cmds@ =~= c + Seq::new(
                i as nat,
                |k: int| output_invert_cmd(*state, ch_offset, k),
            ));
        }
    }
    let ghost d = cmds@;
    let mut i: usize = 0;
    while i < state.line_levels.len()
        invariant
            i <= state.line_levels@.len(),
            ch_offset + state.line_levels@.len() <= 256,
            cmds@ =~= d + Seq::new(i as nat, |k: int| output_level_cmd(*state, ch_offset, k)),
        decreases state.line_levels@.len() - i,
    {
        cmds.push(
            create_phys_port_cmd(
                ch_offset + i as u8,
                OUTPUT_LINE_LEVEL_CMD,
                deserialize_output_nominal_level(&state.line_levels[i]),
            ),
        );
        i = i + 1;
        proof {
            assert(cmds@ =~= d + Seq::new(i as nat, |k: int| output_level_cmd(*state, ch_offset, k)));
        }
    }
    cmds
}

/// The specification of output.
pub trait RmeFfLatterOutputSpecification: RmeFfLatterDspSpecification {
    /// The minimum value for volume of physical output.
    const PHYS_OUTPUT_VOL_MIN: i32 = -650;
    /// The maximum value for volume of physical output.
    const PHYS_OUTPUT_VOL_MAX: i32 = 60;
    /// The step value of for volume physical output.
    const PHYS_OUTPUT_VOL_STEP: i32 = 1;

    /// The minimum value for left and right balance of physical output.
    const PHYS_OUTPUT_BALANCE_MIN: i32 = -100;
    /// The maximum value for left and right balance of physical output.
    const PHYS_OUTPUT_BALANCE_MAX: i32 = 100;
    /// The step value for left and right balance of physical output.
    const PHYS_OUTPUT_BALANCE_STEP: i32 = 1;

    /// Instantiate output parameters.
    fn create_output_parameters() -> (r: FfLatterOutputState)
        ensures
            r.vols@ == Seq::new(output_count::<Self>() as nat, |i: int| 0i16),
            r.stereo_balance@ == Seq::new((output_count::<Self>() / 2) as nat, |i: int| 0i16),
            r.stereo_links@ == Seq::new((output_count::<Self>() / 2) as nat, |i: int| false),
            r.invert_phases@ == Seq::new(output_count::<Self>() as nat, |i: int| false),
            r.line_levels@ == Seq::new(
                Self::LINE_OUTPUT_COUNT as nat,
                |i: int| LineOutNominalLevel::High,
            ),
    {
        FfLatterOutputState {
            vols: filled(Self::output_count(), 0i16),
            stereo_balance: filled(Self::output_count() / 2, 0i16),
            stereo_links: filled(Self::output_count() / 2, false),
            invert_phases: filled(Self::output_count(), false),
            line_levels: filled(Self::LINE_OUTPUT_COUNT, LineOutNominalLevel::High),
        }
    }

    /// Instantiate output high pass filter parameters.
    fn create_output_hpf_parameters() -> (r: FfLatterOutputHpfParameters)
        ensures
            hpf_state_is_default(r.0, output_count::<Self>() as nat),
    {
        FfLatterOutputHpfParameters(create_hpf_state(Self::output_count()))
    }

    /// Instantiate output equalizer parameters.
    fn create_output_equalizer_parameters() -> (r: FfLatterOutputEqualizerParameters)
        ensures
            eq_state_is_default(r.0, output_count::<Self>() as nat),
    {
        FfLatterOutputEqualizerParameters(create_eq_state(Self::output_count()))
    }

    /// Instantiate output dynamics parameters.
    fn create_output_dynamics_parameters() -> (r: FfLatterOutputDynamicsParameters)
        ensures
            dyn_state_is_default(r.0, output_count::<Self>() as nat),
    {
        FfLatterOutputDynamicsParameters(create_dyn_state(Self::output_count()))
    }

    /// Instantiate output autolevel parameters.
    fn create_output_autolevel_parameters() -> (r: FfLatterOutputAutolevelParameters)
        ensures
            autolevel_state_is_default(r.0, output_count::<Self>() as nat),
    {
        FfLatterOutputAutolevelParameters(create_autolevel_state(Self::output_count()))
    }
}

impl<O: RmeFfLatterDspSpecification> RmeFfLatterOutputSpecification for O {

}

impl<O: RmeFfLatterOutputSpecification> RmeFfCommandParamsSerialize<FfLatterOutputState> for O {
    open spec fn commands_acceptable(state: FfLatterOutputState) -> bool {
        &&& state.vols@.len() == output_count::<O>()
        &&& state.stereo_balance@.len() == output_count::<O>() / 2
        &&& state.stereo_links@.len() == output_count::<O>() / 2
        &&& state.invert_phases@.len() == output_count::<O>()
        &&& state.line_levels@.len() == O::LINE_OUTPUT_COUNT
    }

    open spec fn commands_of(state: FfLatterOutputState) -> Seq<u32> {
        output_cmds(state, phys_input_count::<O>() as u8)
    }

    fn serialize_commands(state: &FfLatterOutputState) -> (cmds: Vec<u32>) {
        proof {
            O::lemma_port_counts();
        }
        output_state_to_cmds(state, O::phys_input_count() as u8)
    }
}

/// State of sources for mixer.
///
/// Each value is between 0x0000 and 0xa000 through 0x9000 to represent -65.00 dB and 6.00 dB
/// through 0.00 dB.
#[derive(Debug, Clone, PartialEq, Eq)]
pub struct FfLatterMixer {
    /// The gain of sources from line inputs.
    pub line_gains: Vec<u16>,
    /// The gain of sources from microphone inputs.
    pub mic_gains: Vec<u16>,
    /// The gain of sources from S/PDIF inputs.
    pub spdif_gains: Vec<u16>,
    /// The gain of sources from ADAT inputs.
    pub adat_gains: Vec<u16>,
    /// The gain of sources from stream inputs.
    pub stream_gains: Vec<u16>,
}

/// State of mixers.
#[derive(Debug, Clone, PartialEq, Eq)]
pub struct FfLatterMixerState(pub Vec<FfLatterMixer>);

/// The gains of the physical sources of the mixer, line, microphone, S/PDIF and ADAT inputs in
/// turn.
pub open spec fn mixer_phys_gains(mixer: FfLatterMixer) -> Seq<u16> {
    mixer.line_gains@ + mixer.mic_gains@ + mixer.spdif_gains@ + mixer.adat_gains@
}

/// The commands for the physical sources of the mixer at the index.
pub open spec fn mixer_chunk(mixer_step: u16, mixer: FfLatterMixer, index: int) -> Seq<u32> {
    Seq::new(
        mixer_phys_gains(mixer).len(),
        |j: int| virt_port_cmd_value(mixer_step, index as u16, j as u16, mixer_phys_gains(mixer)[j]),
    )
}

/// The commands for the first `n` mixers.
pub open spec fn mixer_cmds_upto(mixer_step: u16, mixers: Seq<FfLatterMixer>, n: nat) -> Seq<u32>
    decreases n,
{
    if n == 0 {
        Seq::empty()
    } else {
        mixer_cmds_upto(mixer_step, mixers, (n - 1) as nat) + mixer_chunk(
            mixer_step,
            mixers[n - 1],
            n - 1,
        )
    }
}

/// Whether the address of each source of each mixer fits in 16 bits.
pub open spec fn mixer_state_fits(mixer_step: u16, mixers: Seq<FfLatterMixer>) -> bool {
    &&& mixers.len() <= 0x10000
    &&& forall|i: int|
        0 <= i < mixers.len() ==> mixer_step * i + #[trigger] mixer_phys_gains(mixers[i]).len()
            <= 0x10000
}

fn mixer_phys_gains_exec(mixer: &FfLatterMixer) -> (r: Vec<u16>)
    ensures
        r@ == mixer_phys_gains(*mixer),
{
    let mut r: Vec<u16> = Vec::new();
    push_all(&mut r, mixer.line_gains.as_slice());
    push_all(&mut r, mixer.mic_gains.as_slice());
    push_all(&mut r, mixer.spdif_gains.as_slice());
    push_all(&mut r, mixer.adat_gains.as_slice());
    proof {
        assert(r@ =~= mixer_phys_gains(*mixer));
    }
    r
}

fn mixer_state_to_cmds(mixer_step: u16, state: &FfLatterMixerState) -> (cmds: Vec<u32>)
    requires
        mixer_state_fits(mixer_step, state.0@),
    ensures
        cmds@ == mixer_cmds_upto(mixer_step, state.0@, state.0@.len()),
{
    let mut cmds: Vec<u32> = Vec::new();
    let mut i: usize = 0;
    while i < state.0.len()
        invariant
            i <= state.0@.len(),
            mixer_state_fits(mixer_step, state.0@),
            cmds@ == mixer_cmds_upto(mixer_step, state.0@, i as nat),
        decreases state.0@.len() - i,
    {
        let index = i as u16;
        let mixer = &state.0[i];
        assert(mixer_step * i + mixer_phys_gains(state.0@[i as int]).len() <= 0x10000);
        let gains = mixer_phys_gains_exec(mixer);
        let ghost prev = cmds@;
        let mut j: usize = 0;
        while j < gains.len()
            invariant
                j <= gains@.len(),
                gains@ == mixer_phys_gains(*mixer),
                index as int == i as int,
                mixer_step * index + gains@.len() <= 0x10000,
                cmds@ =~= prev + mixer_chunk(mixer_step, *mixer, i as int).take(j as int),
            decreases gains@.len() - j,
        {
            cmds.push(create_virt_port_cmd(mixer_step, index, j as u16, gains[j]));
            j = j + 1;
            proof {
                assert(cmds@ =~= prev + mixer_chunk(mixer_step, *mixer, i as int).take(j as int));
            }
        }
        proof {
            assert(mixer_chunk(mixer_step, *mixer, i as int).take(gains@.len() as int)
                =~= mixer_chunk(mixer_step, *mixer, i as int));
        }
        i = i + 1;
    }
    cmds
}

/// The specification of mixer.
pub trait RmeFfLatterMixerSpecification: RmeFfLatterDspSpecification {
    /// The minimum value of gain for source of mixer.
    const MIXER_INPUT_GAIN_MIN: i32 = 0x0000;
    /// The zero value of gain for source of mixer.
    const MIXER_INPUT_GAIN_ZERO: i32 = 0x9000;
    /// The maximum value of gain for source of mixer.
    const MIXER_INPUT_GAIN_MAX: i32 = 0xa000;
    /// The step value of gain for source of mixer.
    const MIXER_INPUT_GAIN_STEP: i32 = 1;

    /// Instantiate mixer parameters, one mixer for each output.
    fn create_mixer_parameters() -> (r: FfLatterMixerState)
        ensures
            r.0@.len() == output_count::<Self>(),
            forall|i: int|
                0 <= i < r.0@.len() ==> {
                    &&& (#[trigger] r.0@[i]).line_gains@ == Seq::new(
                        Self::LINE_INPUT_COUNT as nat,
                        |k: int| 0u16,
                    )
                    &&& r.0@[i].mic_gains@ == Seq::new(Self::MIC_INPUT_COUNT as nat, |k: int| 0u16)
                    &&& r.0@[i].spdif_gains@ == Seq::new(
                        Self::SPDIF_INPUT_COUNT as nat,
                        |k: int| 0u16,
                    )
                    &&& r.0@[i].adat_gains@ == Seq::new(Self::ADAT_INPUT_COUNT as nat, |k: int| 0u16)
                    &&& r.0@[i].stream_gains@ == Seq::new(
                        Self::STREAM_INPUT_COUNT as nat,
                        |k: int| 0u16,
                    )
                },
    {
        let n = Self::output_count();
        let mut mixers: Vec<FfLatterMixer> = Vec::new();
        let mut i: usize = 0;
        while i < n
            invariant
                i <= n,
                n == output_count::<Self>(),
                mixers@.len() == i,
                forall|k: int|
                    0 <= k < i ==> {
                        &&& (#[trigger] mixers@[k]).line_gains@ == Seq::new(
                            Self::LINE_INPUT_COUNT as nat,
                            |k: int| 0u16,
                        )
                        &&& mixers@[k].mic_gains@ == Seq::new(
                            Self::MIC_INPUT_COUNT as nat,
                            |k: int| 0u16,
                        )
                        &&& mixers@[k].spdif_gains@ == Seq::new(
                            Self::SPDIF_INPUT_COUNT as nat,
                            |k: int| 0u16,
                        )
                        &&& mixers@[k].adat_gains@ == Seq::new(
                            Self::ADAT_INPUT_COUNT as nat,
                            |k: int| 0u16,
                        )
                        &&& mixers@[k].stream_gains@ == Seq::new(
                            Self::STREAM_INPUT_COUNT as nat,
                            |k: int| 0u16,
                        )
                    },
            decreases n - i,
        {
            mixers.push(
                FfLatterMixer {
                    line_gains: filled(Self::LINE_INPUT_COUNT, 0u16),
                    mic_gains: filled(Self::MIC_INPUT_COUNT, 0u16),
                    spdif_gains: filled(Self::SPDIF_INPUT_COUNT, 0u16),
                    adat_gains: filled(Self::ADAT_INPUT_COUNT, 0u16),
                    stream_gains: filled(Self::STREAM_INPUT_COUNT, 0u16),
                },
            );
            i = i + 1;
        }
        FfLatterMixerState(mixers)
    }
}

impl<O: RmeFfLatterDspSpecification> RmeFfLatterMixerSpecification for O {

}

impl<O: RmeFfLatterMixerSpecification> RmeFfCommandParamsSerialize<FfLatterMixerState> for O {
    open spec fn commands_acceptable(state: FfLatterMixerState) -> bool {
        mixer_state_fits(O::MIXER_STEP, state.0@)
    }

    open spec fn commands_of(state: FfLatterMixerState) -> Seq<u32> {
        mixer_cmds_upto(O::MIXER_STEP, state.0@, state.0@.len())
    }

    fn serialize_commands(state: &FfLatterMixerState) -> (cmds: Vec<u32>) {
        mixer_state_to_cmds(O::MIXER_STEP, state)
    }
}

/// Parameters of sources to fx component.
#[derive(Default, Debug, Clone, PartialEq, Eq)]
pub struct FfLatterFxSourceParameters {
    /// The gain of line inputs. Each value is between 0xfd76 (-65.0 dB) and 0x0000 (0.0 dB).
    pub line_input_gains: Vec<i16>,
    /// The gain of mic inputs. Each value is between 0xfd76 (-65.0 dB) and 0x0000 (0.0 dB).
    pub mic_input_gains: Vec<i16>,
    /// The gain of S/PDIF inputs. Each value is between 0xfd76 (-65.0 dB) and 0x0000 (0.0 dB).
    pub spdif_input_gains: Vec<i16>,
    /// The gain of ADAT inputs. Each value is between 0xfd76 (-65.0 dB) and 0x0000 (0.0 dB).
    pub adat_input_gains: Vec<i16>,
    /// The gain of stream inputs. Each value is between 0x0000 (-65.0 dB) and 0x8b5c (0.0 dB).
    pub stream_input_gains: Vec<u16>,
}

/// The first mixer for the effect.
pub const FX_MIXER_0: u16 = 0x1e;
/// The second mixer for the effect.
pub const FX_MIXER_1: u16 = 0x1f;

/// The gains of the physical inputs to the effect, line, microphone, S/PDIF and ADAT inputs in
/// turn.
pub open spec fn fx_phys_gains(params: FfLatterFxSourceParameters) -> Seq<i16> {
    params.line_input_gains@ + params.mic_input_gains@ + params.spdif_input_gains@
        + params.adat_input_gains@
}

/// The command for the physical input at the index to the effect.
pub open spec fn fx_phys_cmd(gains: Seq<i16>, i: int) -> u32 {
    port_cmd_value(i as u8, INPUT_TO_FX_CMD, gains[i] as u16)
}

/// The commands for the stream input at the index, one to each mixer for the effect.
pub open spec fn fx_stream_chunk(
    mixer_step: u16,
    stream_offset: u16,
    gains: Seq<u16>,
    i: int,
) -> Seq<u32> {
    seq![
        virt_port_cmd_value(mixer_step, FX_MIXER_0, (stream_offset + i) as u16, gains[i]),
        virt_port_cmd_value(mixer_step, FX_MIXER_1, (stream_offset + i) as u16, gains[i]),
    ]
}

/// The commands for the first `n` stream inputs to the effect.
pub open spec fn fx_stream_cmds_upto(
    mixer_step: u16,
    stream_offset: u16,
    gains: Seq<u16>,
    n: nat,
) -> Seq<u32>
    decreases n,
{
    if n == 0 {
        Seq::empty()
    } else {
        fx_stream_cmds_upto(mixer_step, stream_offset, gains, (n - 1) as nat) + fx_stream_chunk(
            mixer_step,
            stream_offset,
            gains,
            n - 1,
        )
    }
}

/// The commands for the sources to the effect: the physical inputs, then the stream inputs.
pub open spec fn fx_source_cmds(
    mixer_step: u16,
    stream_offset: u16,
    params: FfLatterFxSourceParameters,
) -> Seq<u32> {
    Seq::new(fx_phys_gains(params).len(), |i: int| fx_phys_cmd(fx_phys_gains(params), i))
        + fx_stream_cmds_upto(
        mixer_step,
        stream_offset,
        params.stream_input_gains@,
        params.stream_input_gains@.len(),
    )
}

/// Whether the addresses of the sources to the effect fit in 16 bits.
pub open spec fn fx_source_fits(
    mixer_step: u16,
    stream_offset: u16,
    params: FfLatterFxSourceParameters,
) -> bool {
    &&& fx_phys_gains(params).len() <= usize::MAX
    &&& mixer_step * FX_MIXER_1 + stream_offset + params.stream_input_gains@.len() <= 0x10000
}

fn fx_phys_gains_exec(params: &FfLatterFxSourceParameters) -> (r: Vec<i16>)
    requires
        fx_phys_gains(*params).len() <= usize::MAX,
    ensures
        r@ == fx_phys_gains(*params),
{
    let mut r: Vec<i16> = Vec::new();
    push_all(&mut r, params.line_input_gains.as_slice());
    push_all(&mut r, params.mic_input_gains.as_slice());
    push_all(&mut r, params.spdif_input_gains.as_slice());
    push_all(&mut r, params.adat_input_gains.as_slice());
    proof {
        assert(r@ =~= fx_phys_gains(*params));
    }
    r
}

fn fx_source_to_cmds(mixer_step: u16, stream_offset: u16, params: &FfLatterFxSourceParameters) -> (cmds: Vec<u32>)
    requires
        fx_source_fits(mixer_step, stream_offset, *params),
    ensures
        cmds@ == fx_source_cmds(mixer_step, stream_offset, *params),
{
    let gains = fx_phys_gains_exec(params);
    let mut cmds: Vec<u32> = Vec::new();
    let mut i: usize = 0;
    while i < gains.len()
        invariant
            i <= gains@.len(),
            gains@ == fx_phys_gains(*params),
            cmds@ =~= Seq::new(i as nat, |k: int| fx_phys_cmd(fx_phys_gains(*params), k)),
        decreases gains@.len() - i,
    {
        cmds.push(create_phys_port_cmd(i as u8, INPUT_TO_FX_CMD, gains[i]));
        i = i + 1;
        proof {
            assert(cmds@ =~= Seq::new(i as nat, |k: int| fx_phys_cmd(fx_phys_gains(*params), k)));
        }
    }
    let ghost a = cmds@;
    let mut i: usize = 0;
    while i < params.stream_input_gains.len()
        invariant
            i <= params.stream_input_gains@.len(),
            fx_source_fits(mixer_step, stream_offset, *params),
            cmds@ =~= a + fx_stream_cmds_upto(
                mixer_step,
                stream_offset,
                params.stream_input_gains@,
                i as nat,
            ),
        decreases params.stream_input_gains@.len() - i,
    {
        let ch = stream_offset + i as u16;
        let gain = params.stream_input_gains[i];
        let ghost prev = cmds@;
        cmds.push(create_virt_port_cmd(mixer_step, FX_MIXER_0, ch, gain));
        cmds.push(create_virt_port_cmd(mixer_step, FX_MIXER_1, ch, gain));
        proof {
            assert(cmds@ =~= prev + fx_stream_chunk(
                mixer_step,
                stream_offset,
                params.stream_input_gains@,
                i as int,
            ));
        }
        i = i + 1;
    }
    cmds
}

impl<O> RmeFfCommandParamsSerialize<FfLatterFxSourceParameters> for O where
    O: RmeFfLatterFxSpecification,
 {
    open spec fn commands_acceptable(params: FfLatterFxSourceParameters) -> bool {
        fx_source_fits(O::MIXER_STEP, O::STREAM_OFFSET, params)
    }

    open spec fn commands_of(params: FfLatterFxSourceParameters) -> Seq<u32> {
        fx_source_cmds(O::MIXER_STEP, O::STREAM_OFFSET, params)
    }

    fn serialize_commands(params: &FfLatterFxSourceParameters) -> (cmds: Vec<u32>) {
        fx_source_to_cmds(O::MIXER_STEP, O::STREAM_OFFSET, params)
    }
}

/// Parameters of outputs from fx component.
#[derive(Default, Debug, Clone, PartialEq, Eq)]
pub struct FfLatterFxOutputParameters {
    /// The volume to line outputs. Each value is between 0xfd76 (-65.0 dB) and 0x0000 (0.0 dB).
    pub line_output_vols: Vec<i16>,
    /// The volume to hp outputs. Each value is between 0xfd76 (-65.0 dB) and 0x0000 (0.0 dB).
    pub hp_output_vols: Vec<i16>,
    /// The volume to S/PDIF outputs. Each value is between 0xfd76 (-65.0 dB) and 0x0000 (0.0 dB).
    pub spdif_output_vols: Vec<i16>,
    /// The volume to ADAT outputs. Each value is between 0xfd76 (-65.0 dB) and 0x0000 (0.0 dB).
    pub adat_output_vols: Vec<i16>,
}

/// The volumes from the effect to line, headphone, S/PDIF and ADAT outputs in turn.
pub open spec fn fx_output_vols(params: FfLatterFxOutputParameters) -> Seq<i16> {
    params.line_output_vols@ + params.hp_output_vols@ + params.spdif_output_vols@
        + params.adat_output_vols@
}

/// The commands for the outputs from the effect; the channel numbers follow the physical
/// inputs and wrap around in eight bits.
pub open spec fn fx_output_cmds(phys_inputs: nat, params: FfLatterFxOutputParameters) -> Seq<u32> {
    Seq::new(
        fx_output_vols(params).len(),
        |i: int|
            port_cmd_value(
                (phys_inputs + i) as u8,
                OUTPUT_FROM_FX_CMD,
                fx_output_vols(params)[i] as u16,
            ),
    )
}

fn fx_output_to_cmds(phys_inputs: usize, params: &FfLatterFxOutputParameters) -> (cmds: Vec<u32>)
    requires
        phys_inputs + fx_output_vols(*params).len() <= usize::MAX,
    ensures
        cmds@ == fx_output_cmds(phys_inputs as nat, *params),
{
    let mut vols: Vec<i16> = Vec::new();
    push_all(&mut vols, params.line_output_vols.as_slice());
    push_all(&mut vols, params.hp_output_vols.as_slice());
    push_all(&mut vols, params.spdif_output_vols.as_slice());
    push_all(&mut vols, params.adat_output_vols.as_slice());
    proof {
        assert(vols@ =~= fx_output_vols(*params));
    }
    let mut cmds: Vec<u32> = Vec::new();
    let mut i: usize = 0;
    while i < vols.len()
        invariant
            i <= vols@.len(),
            vols@ == fx_output_vols(*params),
            phys_inputs + vols@.len() <= usize::MAX,
            cmds@ =~= fx_output_cmds(phys_inputs as nat, *params).take(i as int),
        decreases vols@.len() - i,
    {
        let ch = (phys_inputs + i) as u8;
        cmds.push(create_phys_port_cmd(ch, OUTPUT_FROM_FX_CMD, vols[i]));
        i = i + 1;
        proof {
            assert(cmds@ =~= fx_output_cmds(phys_inputs as nat, *params).take(i as int));
        }
    }
    proof {
        assert(fx_output_cmds(phys_inputs as nat, *params).take(vols@.len() as int)
            =~= fx_output_cmds(phys_inputs as nat, *params));
    }
    cmds
}

impl<O: RmeFfLatterFxSpecification> RmeFfCommandParamsSerialize<FfLatterFxOutputParameters> for O {
    open spec fn commands_acceptable(params: FfLatterFxOutputParameters) -> bool {
        phys_input_count::<O>() + fx_output_vols(params).len() <= usize::MAX
    }

    open spec fn commands_of(params: FfLatterFxOutputParameters) -> Seq<u32> {
        fx_output_cmds(phys_input_count::<O>() as nat, params)
    }

    fn serialize_commands(params: &FfLatterFxOutputParameters) -> (cmds: Vec<u32>) {
        fx_output_to_cmds(O::phys_input_count(), params)
    }
}

/// State of reverb in send effect.
#[derive(Default, Debug, Clone, Copy, PartialEq, Eq, Structural)]
pub struct FfLatterFxReverbState {
    /// Whether to activate reverb effect.
    pub activate: bool,
    /// The type of reverb effect.
    pub reverb_type: FfLatterFxReverbType,
    /// The pre-delay of reverb effect between 0 and 999.
    pub pre_delay: u16,
    /// The frequency of high pass filter before reverb generation between 20 and 500 Hz.
    pub pre_hpf: u16,
    /// The scale of room between 50 and 300, displayed by 1/10.
    pub room_scale: u16,
    /// The time for increase volume between 5 and 400 ms.
    pub attack: u16,
    /// The time for fixed volume between 5 and 400 ms.
    pub hold: u16,
    /// The time for volume decrease between 5 and 500 ms.
    pub release: u16,
    /// The frequency of low pass filter after reverb generation between 200 and 20000 Hz.
    pub post_lpf: u16,
    /// The time for volume drop between 1 and 49, displayed by 1/10 sec.
    pub time: u16,
    /// The frequency of treble dampling for reverb generation between 2000 and 20000 Hz.
    pub damping: u16,
    /// The level of softener between 0 and 100.
    pub smooth: u16,
    /// The level of output between -650 and 60, displayed by 1/10.
    pub volume: i16,
    /// The stereo width between 0(monaural) and 100(stereo).
    pub stereo_width: u16,
}

/// The channel of the effect.
pub const FX_CH: u8 = 0x3c;

/// The commands for the reverb effect, one for each parameter in the order of declaration.
pub open spec fn reverb_cmds(state: FfLatterFxReverbState) -> Seq<u32> {
    seq![
        port_cmd_value(FX_CH, FX_REVERB_ACTIVATE_CMD, bool_word(state.activate)),
        port_cmd_value(FX_CH, FX_REVERB_TYPE_CMD, fx_reverb_type_code(state.reverb_type) as u16),
        port_cmd_value(FX_CH, FX_REVERB_PRE_DELAY_CMD, state.pre_delay),
        port_cmd_value(FX_CH, FX_REVERB_PRE_HPF_FREQ_CMD, state.pre_hpf),
        port_cmd_value(FX_CH, FX_REVERB_ROOM_SCALE_CMD, state.room_scale),
        port_cmd_value(FX_CH, FX_REVERB_ATTACK_CMD, state.attack),
        port_cmd_value(FX_CH, FX_REVERB_HOLD_CMD, state.hold),
        port_cmd_value(FX_CH, FX_REVERB_RELEASE_CMD, state.release),
        port_cmd_value(FX_CH, FX_REVERB_POST_LPF_FREQ_CMD, state.post_lpf),
        port_cmd_value(FX_CH, FX_REVERB_TIME_CMD, state.time),
        port_cmd_value(FX_CH, FX_REVERB_DAMPING_FREQ_CMD, state.damping),
        port_cmd_value(FX_CH, FX_REVERB_SMOOTH_CMD, state.smooth),
        port_cmd_value(FX_CH, FX_REVERB_VOLUME_CMD, state.volume as u16),
        port_cmd_value(FX_CH, FX_REVERB_STEREO_WIDTH_CMD, state.stereo_width),
    ]
}

/// Every command for the reverb effect goes to the channel of the effect, the command at each
/// place is the one of that number, and each carries the parameter of the state that it names:
/// the switch of activation as 1 or 0, the code of the type, the pre-delay, the frequency of the
/// high pass filter, the scale of room, the attack, the hold, the release, the frequency of the
/// low pass filter, the time, the damping, the smoothness, the volume in two's complement and the
/// stereo width.
pub proof fn lemma_reverb_cmds_carry_state(state: FfLatterFxReverbState)
    ensures
        reverb_cmds(state).len() == 14,
        forall|k: int|
            0 <= k < 14 ==> cmd_channel(#[trigger] reverb_cmds(state)[k]) == FX_CH as u32 && cmd_code(
                reverb_cmds(state)[k],
            ) == k,
        cmd_word(reverb_cmds(state)[FX_REVERB_ACTIVATE_CMD as int]) == if state.activate { 1u32 } else { 0u32 },
        cmd_word(reverb_cmds(state)[FX_REVERB_TYPE_CMD as int]) == fx_reverb_type_code(state.reverb_type) as u16 as u32,
        cmd_word(reverb_cmds(state)[FX_REVERB_PRE_DELAY_CMD as int]) == state.pre_delay as u32,
        cmd_word(reverb_cmds(state)[FX_REVERB_PRE_HPF_FREQ_CMD as int]) == state.pre_hpf as u32,
        cmd_word(reverb_cmds(state)[FX_REVERB_ROOM_SCALE_CMD as int]) == state.room_scale as u32,
        cmd_word(reverb_cmds(state)[FX_REVERB_ATTACK_CMD as int]) == state.attack as u32,
        cmd_word(reverb_cmds(state)[FX_REVERB_HOLD_CMD as int]) == state.hold as u32,
        cmd_word(reverb_cmds(state)[FX_REVERB_RELEASE_CMD as int]) == state.release as u32,
        cmd_word(reverb_cmds(state)[FX_REVERB_POST_LPF_FREQ_CMD as int]) == state.post_lpf as u32,
        cmd_word(reverb_cmds(state)[FX_REVERB_TIME_CMD as int]) == state.time as u32,
        cmd_word(reverb_cmds(state)[FX_REVERB_DAMPING_FREQ_CMD as int]) == state.damping as u32,
        cmd_word(reverb_cmds(state)[FX_REVERB_SMOOTH_CMD as int]) == state.smooth as u32,
        cmd_word(reverb_cmds(state)[FX_REVERB_VOLUME_CMD as int]) == state.volume as u16 as u32,
        cmd_word(reverb_cmds(state)[FX_REVERB_STEREO_WIDTH_CMD as int]) == state.stereo_width as u32,
{
    let c = reverb_cmds(state);
    lemma_port_cmd_fields(FX_CH, FX_REVERB_ACTIVATE_CMD, bool_word(state.activate));
    lemma_port_cmd_fields(FX_CH, FX_REVERB_TYPE_CMD, fx_reverb_type_code(state.reverb_type) as u16);
    lemma_port_cmd_fields(FX_CH, FX_REVERB_PRE_DELAY_CMD, state.pre_delay);
    lemma_port_cmd_fields(FX_CH, FX_REVERB_PRE_HPF_FREQ_CMD, state.pre_hpf);
    lemma_port_cmd_fields(FX_CH, FX_REVERB_ROOM_SCALE_CMD, state.room_scale);
    lemma_port_cmd_fields(FX_CH, FX_REVERB_ATTACK_CMD, state.attack);
    lemma_port_cmd_fields(FX_CH, FX_REVERB_HOLD_CMD, state.hold);
    lemma_port_cmd_fields(FX_CH, FX_REVERB_RELEASE_CMD, state.release);
    lemma_port_cmd_fields(FX_CH, FX_REVERB_POST_LPF_FREQ_CMD, state.post_lpf);
    lemma_port_cmd_fields(FX_CH, FX_REVERB_TIME_CMD, state.time);
    lemma_port_cmd_fields(FX_CH, FX_REVERB_DAMPING_FREQ_CMD, state.damping);
    lemma_port_cmd_fields(FX_CH, FX_REVERB_SMOOTH_CMD, state.smooth);
    lemma_port_cmd_fields(FX_CH, FX_REVERB_VOLUME_CMD, state.volume as u16);
    lemma_port_cmd_fields(FX_CH, FX_REVERB_STEREO_WIDTH_CMD, state.stereo_width);
    assert forall|k: int| 0 <= k < 14 implies cmd_channel(#[trigger] c[k]) == FX_CH as u32 && cmd_code(c[k]) == k by {
        if k == 0 {
        } else if k == 1 {
        } else if k == 2 {
        } else if k == 3 {
        } else if k == 4 {
        } else if k == 5 {
        } else if k == 6 {
        } else if k == 7 {
        } else if k == 8 {
        } else if k == 9 {
        } else if k == 10 {
        } else if k == 11 {
        } else if k == 12 {
        } else {
        }
    }
}

/// Build the commands for the reverb effect.
pub fn reverb_state_to_cmds(state: &FfLatterFxReverbState) -> (cmds: Vec<u32>)
    ensures
        cmds@ == reverb_cmds(*state),
{
    let mut cmds: Vec<u32> = Vec::new();
    cmds.push(port_cmd(FX_CH, FX_REVERB_ACTIVATE_CMD, bool_word_exec(state.activate)));
    cmds.push(
        create_phys_port_cmd(FX_CH, FX_REVERB_TYPE_CMD, deserialize_fx_reverb_type(&state.reverb_type)),
    );
    cmds.push(port_cmd(FX_CH, FX_REVERB_PRE_DELAY_CMD, state.pre_delay));
    cmds.push(port_cmd(FX_CH, FX_REVERB_PRE_HPF_FREQ_CMD, state.pre_hpf));
    cmds.push(port_cmd(FX_CH, FX_REVERB_ROOM_SCALE_CMD, state.room_scale));
    cmds.push(port_cmd(FX_CH, FX_REVERB_ATTACK_CMD, state.attack));
    cmds.push(port_cmd(FX_CH, FX_REVERB_HOLD_CMD, state.hold));
    cmds.push(port_cmd(FX_CH, FX_REVERB_RELEASE_CMD, state.release));
    cmds.push(port_cmd(FX_CH, FX_REVERB_POST_LPF_FREQ_CMD, state.post_lpf));
    cmds.push(port_cmd(FX_CH, FX_REVERB_TIME_CMD, state.time));
    cmds.push(port_cmd(FX_CH, FX_REVERB_DAMPING_FREQ_CMD, state.damping));
    cmds.push(port_cmd(FX_CH, FX_REVERB_SMOOTH_CMD, state.smooth));
    cmds.push(create_phys_port_cmd(FX_CH, FX_REVERB_VOLUME_CMD, state.volume));
    cmds.push(port_cmd(FX_CH, FX_REVERB_STEREO_WIDTH_CMD, state.stereo_width));
    proof {
        assert(cmds@ =~= reverb_cmds(*state));
    }
    cmds
}

impl<O: RmeFfLatterFxSpecification> RmeFfCommandParamsSerialize<FfLatterFxReverbState> for O {
    open spec fn commands_acceptable(params: FfLatterFxReverbState) -> bool {
        true
    }

    open spec fn commands_of(params: FfLatterFxReverbState) -> Seq<u32> {
        reverb_cmds(params)
    }

    fn serialize_commands(params: &FfLatterFxReverbState) -> (cmds: Vec<u32>) {
        reverb_state_to_cmds(params)
    }
}

/// State of echo in send effect.
#[derive(Default, Debug, Clone, Copy, PartialEq, Eq, Structural)]
pub struct FfLatterFxEchoState {
    /// Whether to activate echo effect.
    pub activate: bool,
    /// The type of echo effect.
    pub echo_type: FfLatterFxEchoType,
    /// The time to delay for echo between 0 and 100.
    pub delay: u16,
    /// The level of feedback for further echo between 0 and 100.
    pub feedback: u16,
    /// The frequency of low pass filter.
    pub lpf: FfLatterFxEchoLpfFreq,
    /// The level of output between -650 and 0, displayed by 1/10.
    pub volume: i16,
    /// The stereo width between 0(monaural) and 100(stereo).
    pub stereo_width: u16,
}

/// The commands for the echo effect, one for each parameter in the order of declaration.
pub open spec fn echo_cmds(state: FfLatterFxEchoState) -> Seq<u32> {
    seq![
        port_cmd_value(FX_CH, FX_ECHO_ACTIVATE_CMD, bool_word(state.activate)),
        port_cmd_value(FX_CH, FX_ECHO_TYPE_CMD, fx_echo_type_code(state.echo_type) as u16),
        port_cmd_value(FX_CH, FX_ECHO_DELAY_CMD, state.delay),
        port_cmd_value(FX_CH, FX_ECHO_FEEDBACK_CMD, state.feedback),
        port_cmd_value(FX_CH, FX_ECHO_LPF_FREQ_CMD, fx_echo_lpf_freq_code(state.lpf) as u16),
        port_cmd_value(FX_CH, FX_ECHO_VOLUME_CMD, state.volume as u16),
        port_cmd_value(FX_CH, FX_ECHO_STEREO_WIDTH_CMD, state.stereo_width),
    ]
}

/// Every command for the echo effect goes to the channel of the effect, the commands come in the
/// order of their numbers from the one to activate, and each carries the parameter of the state
/// that it names: the switch of activation as 1 or 0, the code of the type, the delay, the
/// feedback, the code of the frequency of the low pass filter, the volume in two's complement and
/// the stereo width.
pub proof fn lemma_echo_cmds_carry_state(state: FfLatterFxEchoState)
    ensures
        echo_cmds(state).len() == 7,
        forall|k: int|
            0 <= k < 7 ==> cmd_channel(#[trigger] echo_cmds(state)[k]) == FX_CH as u32 && cmd_code(
                echo_cmds(state)[k],
            ) == FX_ECHO_ACTIVATE_CMD + k,
        cmd_word(echo_cmds(state)[0]) == if state.activate { 1u32 } else { 0u32 },
        cmd_word(echo_cmds(state)[1]) == fx_echo_type_code(state.echo_type) as u16 as u32,
        cmd_word(echo_cmds(state)[2]) == state.delay as u32,
        cmd_word(echo_cmds(state)[3]) == state.feedback as u32,
        cmd_word(echo_cmds(state)[4]) == fx_echo_lpf_freq_code(state.lpf) as u16 as u32,
        cmd_word(echo_cmds(state)[5]) == state.volume as u16 as u32,
        cmd_word(echo_cmds(state)[6]) == state.stereo_width as u32,
{
    let c = echo_cmds(state);
    lemma_port_cmd_fields(FX_CH, FX_ECHO_ACTIVATE_CMD, bool_word(state.activate));
    lemma_port_cmd_fields(FX_CH, FX_ECHO_TYPE_CMD, fx_echo_type_code(state.echo_type) as u16);
    lemma_port_cmd_fields(FX_CH, FX_ECHO_DELAY_CMD, state.delay);
    lemma_port_cmd_fields(FX_CH, FX_ECHO_FEEDBACK_CMD, state.feedback);
    lemma_port_cmd_fields(FX_CH, FX_ECHO_LPF_FREQ_CMD, fx_echo_lpf_freq_code(state.lpf) as u16);
    lemma_port_cmd_fields(FX_CH, FX_ECHO_VOLUME_CMD, state.volume as u16);
    lemma_port_cmd_fields(FX_CH, FX_ECHO_STEREO_WIDTH_CMD, state.stereo_width);
    assert forall|k: int| 0 <= k < 7 implies cmd_channel(#[trigger] c[k]) == FX_CH as u32 && cmd_code(c[k])
        == FX_ECHO_ACTIVATE_CMD + k by {
        if k == 0 {
        } else if k == 1 {
        } else if k == 2 {
        } else if k == 3 {
        } else if k == 4 {
        } else if k == 5 {
        } else {
        }
    }
}

/// Build the commands for the echo effect.
pub fn echo_state_to_cmds(state: &FfLatterFxEchoState) -> (cmds: Vec<u32>)
    ensures
        cmds@ == echo_cmds(*state),
{
    let mut cmds: Vec<u32> = Vec::new();
    cmds.push(port_cmd(FX_CH, FX_ECHO_ACTIVATE_CMD, bool_word_exec(state.activate)));
    cmds.push(create_phys_port_cmd(FX_CH, FX_ECHO_TYPE_CMD, deserialize_fx_echo_type(&state.echo_type)));
    cmds.push(port_cmd(FX_CH, FX_ECHO_DELAY_CMD, state.delay));
    cmds.push(port_cmd(FX_CH, FX_ECHO_FEEDBACK_CMD, state.feedback));
    cmds.push(create_phys_port_cmd(FX_CH, FX_ECHO_LPF_FREQ_CMD, deserialize_fx_echo_lpf_freq(&state.lpf)));
    cmds.push(create_phys_port_cmd(FX_CH, FX_ECHO_VOLUME_CMD, state.volume));
    cmds.push(port_cmd(FX_CH, FX_ECHO_STEREO_WIDTH_CMD, state.stereo_width));
    proof {
        assert(cmds@ =~= echo_cmds(*state));
    }
    cmds
}

impl<O: RmeFfLatterFxSpecification> RmeFfCommandParamsSerialize<FfLatterFxEchoState> for O {
    open spec fn commands_acceptable(params: FfLatterFxEchoState) -> bool {
        true
    }

    open spec fn commands_of(params: FfLatterFxEchoState) -> Seq<u32> {
        echo_cmds(params)
    }

    fn serialize_commands(params: &FfLatterFxEchoState) -> (cmds: Vec<u32>) {
        echo_state_to_cmds(params)
    }
}

/// The specification of FX.
pub trait RmeFfLatterFxSpecification: RmeFfLatterDspSpecification {
    /// The minimum value for physical level.
    const FX_PHYS_LEVEL_MIN: i32 = -650;
    /// The maximum value for physical level.
    const FX_PHYS_LEVEL_MAX: i32 = 0;
    /// The step value for physical level.
    const FX_PHYS_LEVEL_STEP: i32 = 1;

    /// The minimum value for virtual level.
    const FX_VIRT_LEVEL_MIN: i32 = 0;
    /// The maximum value for virtual level.
    const FX_VIRT_LEVEL_MAX: i32 = 35676;
    /// The step value for virtual level.
    const FX_VIRT_LEVEL_STEP: i32 = 1;

    /// The minimum value for pre delay.
    const REVERB_PRE_DELAY_MIN: i32 = 0;
    /// The maximum value for pre delay.
    const REVERB_PRE_DELAY_MAX: i32 = 999;
    /// The step value for pre delay.
    const REVERB_PRE_DELAY_STEP: i32 = 1;

    /// The minimum value for attack.
    const REVERB_ATTACK_MIN: i32 = 5;
    /// The maximum value for attack.
    const REVERB_ATTACK_MAX: i32 = 400;
    /// The step value for attack.
    const REVERB_ATTACK_STEP: i32 = 1;

    /// The minimum value for hold.
    const REVERB_HOLD_MIN: i32 = 5;
    /// The maximum value for hold.
    const REVERB_HOLD_MAX: i32 = 400;
    /// The step value for hold.
    const REVERB_HOLD_STEP: i32 = 1;

    /// The minimum value for release.
    const REVERB_RELEASE_MIN: i32 = 5;
    /// The maximum value for release.
    const REVERB_RELEASE_MAX: i32 = 500;
    /// The step value for release.
    const REVERB_RELEASE_STEP: i32 = 1;

    /// The minimum value for post low pass filter.
    const REVERB_POST_LPF_FREQ_MIN: i32 = 200;
    /// The maximum value for post low pass filter.
    const REVERB_POST_LPF_FREQ_MAX: i32 = 20000;
    /// The step value for post low pass filter.
    const REVERB_POST_LPF_FREQ_STEP: i32 = 1;

    /// The minimum value for decay time.
    const REVERB_TIME_MIN: i32 = 1;
    /// The maximum value for decay time.
    const REVERB_TIME_MAX: i32 = 49;
    /// The step value for decay time.
    const REVERB_TIME_STEP: i32 = 1;

    /// The minimum value for damping.
    const REVERB_DAMPING_MIN: i32 = 2000;
    /// The maximum value for damping.
    const REVERB_DAMPING_MAX: i32 = 20000;
    /// The step value for damping.
    const REVERB_DAMPING_STEP: i32 = 1;

    /// The minimum value for smooth.
    const REVERB_SMOOTH_MIN: i32 = 0;
    /// The maximum value for smooth.
    const REVERB_SMOOTH_MAX: i32 = 100;
    /// The step value for smooth.
    const REVERB_SMOOTH_STEP: i32 = 1;

    /// The minimum value for volume.
    const REVERB_VOL_MIN: i32 = -650;
    /// The maximum value for volume.
    const REVERB_VOL_MAX: i32 = 60;
    /// The step value for volume.
    const REVERB_VOL_STEP: i32 = 1;

    /// The minimum value for stereo width.
    const REVERB_STEREO_WIDTH_MIN: i32 = 0;
    /// The maximum value for stereo width.
    const REVERB_STEREO_WIDTH_MAX: i32 = 100;
    /// The step value for stereo width.
    const REVERB_STEREO_WIDTH_STEP: i32 = 1;

    /// The minimum value for echo delay.
    const ECHO_DELAY_MIN: i32 = 0;
    /// The maximum value for echo delay.
    const ECHO_DELAY_MAX: i32 = 100;
    /// The step value for echo delay.
    const ECHO_DELAY_STEP: i32 = 1;

    /// The minimum value for echo feedback.
    const ECHO_FEEDBACK_MIN: i32 = 0;
    /// The maximum value for echo feedback.
    const ECHO_FEEDBACK_MAX: i32 = 100;
    /// The step value for echo feedback.
    const ECHO_FEEDBACK_STEP: i32 = 1;

    /// The minimum value for echo volume.
    const ECHO_VOL_MIN: i32 = -650;
    /// The maximum value for echo volume.
    const ECHO_VOL_MAX: i32 = 0;
    /// The step value for echo volume.
    const ECHO_VOL_STEP: i32 = 1;

    /// The minimum value for echo stereo width.
    const ECHO_STEREO_WIDTH_MIN: i32 = 0;
    /// The maximum value for echo stereo width.
    const ECHO_STEREO_WIDTH_MAX: i32 = 100;
    /// The step value for echo stereo width.
    const ECHO_STEREO_WIDTH_STEP: i32 = 1;

    /// Instantiate fx source parameters.
    fn create_fx_sources_parameters() -> (r: FfLatterFxSourceParameters)
        ensures
            r.line_input_gains@ == Seq::new(Self::LINE_INPUT_COUNT as nat, |i: int| 0i16),
            r.mic_input_gains@ == Seq::new(Self::MIC_INPUT_COUNT as nat, |i: int| 0i16),
            r.spdif_input_gains@ == Seq::new(Self::SPDIF_INPUT_COUNT as nat, |i: int| 0i16),
            r.adat_input_gains@ == Seq::new(Self::ADAT_INPUT_COUNT as nat, |i: int| 0i16),
            r.stream_input_gains@ == Seq::new(Self::STREAM_INPUT_COUNT as nat, |i: int| 0u16),
    {
        FfLatterFxSourceParameters {
            line_input_gains: filled(Self::LINE_INPUT_COUNT, 0i16),
            mic_input_gains: filled(Self::MIC_INPUT_COUNT, 0i16),
            spdif_input_gains: filled(Self::SPDIF_INPUT_COUNT, 0i16),
            adat_input_gains: filled(Self::ADAT_INPUT_COUNT, 0i16),
            stream_input_gains: filled(Self::STREAM_INPUT_COUNT, 0u16),
        }
    }

    /// Instantiate fx output parameters.
    fn create_fx_output_parameters() -> (r: FfLatterFxOutputParameters)
        ensures
            r.line_output_vols@ == Seq::new(Self::LINE_OUTPUT_COUNT as nat, |i: int| 0i16),
            r.hp_output_vols@ == Seq::new(Self::HP_OUTPUT_COUNT as nat, |i: int| 0i16),
            r.spdif_output_vols@ == Seq::new(Self::SPDIF_OUTPUT_COUNT as nat, |i: int| 0i16),
            r.adat_output_vols@ == Seq::new(Self::ADAT_OUTPUT_COUNT as nat, |i: int| 0i16),
    {
        FfLatterFxOutputParameters {
            line_output_vols: filled(Self::LINE_OUTPUT_COUNT, 0i16),
            hp_output_vols: filled(Self::HP_OUTPUT_COUNT, 0i16),
            spdif_output_vols: filled(Self::SPDIF_OUTPUT_COUNT, 0i16),
            adat_output_vols: filled(Self::ADAT_OUTPUT_COUNT, 0i16),
        }
    }
}

impl<O: RmeFfLatterDspSpecification> RmeFfLatterFxSpecification for O {

}

/// State of meters.
///
/// Each value is between 0x'0000'0000'0000'0000 and 0x'3fff'ffff'ffff'ffff. 0x'0000'0000'0000'001f
/// represents negative infinite.
#[derive(Default, Debug, Clone, PartialEq, Eq)]
pub struct FfLatterMeterState {
    /// The number of line inputs.
    pub line_inputs: Vec<i32>,
    /// The number of microphone inputs.
    pub mic_inputs: Vec<i32>,
    /// The number of S/PDIF inputs.
    pub spdif_inputs: Vec<i32>,
    /// The number of ADAT inputs.
    pub adat_inputs: Vec<i32>,
    /// The number of stream inputs.
    pub stream_inputs: Vec<i32>,
    /// The number of line outputs.
    pub line_outputs: Vec<i32>,
    /// The number of headphone outputs.
    pub hp_outputs: Vec<i32>,
    /// The number of S/PDIF outputs.
    pub spdif_outputs: Vec<i32>,
    /// The number of ADAT outputs.
    pub adat_outputs: Vec<i32>,
}

/// The size of each chunk of meters read at once.
pub const METER_CHUNK_SIZE: usize = 392;
/// The number of chunks of meters.
pub const METER_CHUNK_COUNT: usize = 5;
/// The bits of level in each quadlet of meter.
pub const METER32_MASK: i32 = 0x07fffff0;

/// The tag of the chunk of meters for physical outputs.
pub const METER_TAG_PHYS_OUTPUTS: u32 = 0x11111111;
/// The tag of the chunk of meters for stream inputs.
pub const METER_TAG_STREAM_INPUTS: u32 = 0x33333333;
/// The tag of the chunk of meters for physical inputs.
pub const METER_TAG_PHYS_INPUTS: u32 = 0x66666666;

/// The specification of hardware meter.
pub trait RmeFfLatterMeterSpecification: RmeFfLatterSpecification {
    const LEVEL_MIN: i32 = 0x0;
    const LEVEL_MAX: i32 = 0x07fffff0;
    const LEVEL_STEP: i32 = 0x10;

    /// Instantiate the state of meters with a level for each port.
    fn create_meter_state() -> (r: FfLatterMeterState)
        ensures
            r.line_inputs@ == Seq::new(Self::LINE_INPUT_COUNT as nat, |i: int| 0i32),
            r.mic_inputs@ == Seq::new(Self::MIC_INPUT_COUNT as nat, |i: int| 0i32),
            r.spdif_inputs@ == Seq::new(Self::SPDIF_INPUT_COUNT as nat, |i: int| 0i32),
            r.adat_inputs@ == Seq::new(Self::ADAT_INPUT_COUNT as nat, |i: int| 0i32),
            r.stream_inputs@ == Seq::new(Self::STREAM_INPUT_COUNT as nat, |i: int| 0i32),
            r.line_outputs@ == Seq::new(Self::LINE_OUTPUT_COUNT as nat, |i: int| 0i32),
            r.hp_outputs@ == Seq::new(Self::HP_OUTPUT_COUNT as nat, |i: int| 0i32),
            r.spdif_outputs@ == Seq::new(Self::SPDIF_OUTPUT_COUNT as nat, |i: int| 0i32),
            r.adat_outputs@ == Seq::new(Self::ADAT_OUTPUT_COUNT as nat, |i: int| 0i32),
    {
        FfLatterMeterState {
            line_inputs: filled(Self::LINE_INPUT_COUNT, 0i32),
            mic_inputs: filled(Self::MIC_INPUT_COUNT, 0i32),
            spdif_inputs: filled(Self::SPDIF_INPUT_COUNT, 0i32),
            adat_inputs: filled(Self::ADAT_INPUT_COUNT, 0i32),
            stream_inputs: filled(Self::STREAM_INPUT_COUNT, 0i32),
            line_outputs: filled(Self::LINE_OUTPUT_COUNT, 0i32),
            hp_outputs: filled(Self::HP_OUTPUT_COUNT, 0i32),
            spdif_outputs: filled(Self::SPDIF_OUTPUT_COUNT, 0i32),
            adat_outputs: filled(Self::ADAT_OUTPUT_COUNT, 0i32),
        }
    }
}

impl<O: RmeFfLatterSpecification> RmeFfLatterMeterSpecification for O {

}

/// The level of the meter at the index in the chunk: the bits of level in the quadlet in little
/// endian after the octlets.
pub open spec fn meter_at(raw: Seq<u8>, k: int) -> i32 {
    (le_quad_at(raw, 256 + 4 * k) & 0x07fffff0u32) as i32
}

/// The levels of `len` meters from the index in the chunk.
pub open spec fn meter_levels(raw: Seq<u8>, base: int, len: nat) -> Seq<i32> {
    Seq::new(len, |i: int| meter_at(raw, base + i))
}

/// The tag of the chunk in its last quadlet.
pub open spec fn meter_tag(raw: Seq<u8>) -> u32 {
    le_quad_at(raw, METER_CHUNK_SIZE - 4)
}

/// The bits of level in a quadlet of meter are a non-negative level.
proof fn lemma_meter_bits(v: u32) by (bit_vector)
    ensures
        v & 0x07fffff0u32 <= 0x07fffff0u32,
{
}

/// Read `vals.len()` meters from the index in the chunk.
fn read_meters(vals: &mut Vec<i32>, raw: &[u8], base: usize)
    requires
        raw@.len() == METER_CHUNK_SIZE,
        base + old(vals)@.len() <= 34,
    ensures
        final(vals)@ == meter_levels(raw@, base as int, old(vals)@.len()),
{
    let n = vals.len();
    let mut i: usize = 0;
    while i < n
        invariant
            i <= n,
            n == vals@.len(),
            raw@.len() == METER_CHUNK_SIZE,
            base + n <= 34,
            forall|k: int| 0 <= k < i ==> vals@[k] == meter_at(raw@, base + k),
        decreases n - i,
    {
        let pos = 256 + (base + i) * 4;
        let q = read_le_quad(raw, pos);
        proof {
            lemma_meter_bits(q);
        }
        vals.set(i, (q & 0x07fffff0u32) as i32);
        i = i + 1;
    }
    proof {
        assert(vals@ =~= meter_levels(raw@, base as int, n as nat));
    }
}

/// Whether the meters of each group in the chunk fit in it, for the groups which the tag selects.
pub open spec fn meter_chunk_fits<O: RmeFfLatterSpecification + ?Sized>(
    state: FfLatterMeterState,
    raw: Seq<u8>,
) -> bool {
    &&& raw.len() == METER_CHUNK_SIZE
    &&& meter_tag(raw) == METER_TAG_PHYS_OUTPUTS ==> {
        &&& state.line_outputs@.len() <= 34
        &&& O::LINE_OUTPUT_COUNT + state.hp_outputs@.len() <= 34
        &&& O::LINE_OUTPUT_COUNT + O::HP_OUTPUT_COUNT + state.spdif_outputs@.len() <= 34
        &&& O::LINE_OUTPUT_COUNT + O::HP_OUTPUT_COUNT + O::SPDIF_OUTPUT_COUNT
            + state.adat_outputs@.len() <= 34
    }
    &&& meter_tag(raw) == METER_TAG_STREAM_INPUTS ==> state.stream_inputs@.len() <= 34
    &&& meter_tag(raw) == METER_TAG_PHYS_INPUTS ==> {
        &&& state.line_inputs@.len() <= 34
        &&& O::LINE_INPUT_COUNT + state.mic_inputs@.len() <= 34
        &&& O::LINE_INPUT_COUNT + O::MIC_INPUT_COUNT + state.spdif_inputs@.len() <= 34
        &&& O::LINE_INPUT_COUNT + O::MIC_INPUT_COUNT + O::SPDIF_INPUT_COUNT
            + state.adat_inputs@.len() <= 34
    }
}

/// The state of meters after reading the chunk: the tag selects the group of meters which the
/// chunk carries, one level for each port in the group and in the order of kinds; the chunk of
/// any other tag changes nothing.
pub open spec fn meter_state_after<O: RmeFfLatterSpecification + ?Sized>(
    state: FfLatterMeterState,
    raw: Seq<u8>,
    after: FfLatterMeterState,
) -> bool {
    let tag = meter_tag(raw);
    let lo = O::LINE_OUTPUT_COUNT as int;
    let ho = O::HP_OUTPUT_COUNT as int;
    let so = O::SPDIF_OUTPUT_COUNT as int;
    let li = O::LINE_INPUT_COUNT as int;
    let mi = O::MIC_INPUT_COUNT as int;
    let si = O::SPDIF_INPUT_COUNT as int;
    &&& after.line_outputs@ == if tag == METER_TAG_PHYS_OUTPUTS {
        meter_levels(raw, 0, state.line_outputs@.len())
    } else {
        state.line_outputs@
    }
    &&& after.hp_outputs@ == if tag == METER_TAG_PHYS_OUTPUTS {
        meter_levels(raw, lo, state.hp_outputs@.len())
    } else {
        state.hp_outputs@
    }
    &&& after.spdif_outputs@ == if tag == METER_TAG_PHYS_OUTPUTS {
        meter_levels(raw, lo + ho, state.spdif_outputs@.len())
    } else {
        state.spdif_outputs@
    }
    &&& after.adat_outputs@ == if tag == METER_TAG_PHYS_OUTPUTS {
        meter_levels(raw, lo + ho + so, state.adat_outputs@.len())
    } else {
        state.adat_outputs@
    }
    &&& after.stream_inputs@ == if tag == METER_TAG_STREAM_INPUTS {
        meter_levels(raw, 0, state.stream_inputs@.len())
    } else {
        state.stream_inputs@
    }
    &&& after.line_inputs@ == if tag == METER_TAG_PHYS_INPUTS {
        meter_levels(raw, 0, state.line_inputs@.len())
    } else {
        state.line_inputs@
    }
    &&& after.mic_inputs@ == if tag == METER_TAG_PHYS_INPUTS {
        meter_levels(raw, li, state.mic_inputs@.len())
    } else {
        state.mic_inputs@
    }
    &&& after.spdif_inputs@ == if tag == METER_TAG_PHYS_INPUTS {
        meter_levels(raw, li + mi, state.spdif_inputs@.len())
    } else {
        state.spdif_inputs@
    }
    &&& after.adat_inputs@ == if tag == METER_TAG_PHYS_INPUTS {
        meter_levels(raw, li + mi + si, state.adat_inputs@.len())
    } else {
        state.adat_inputs@
    }
}

// Read data retrieved by each block read transaction consists of below chunks in the order:
//  32 octlets for meters detected by DSP.
//  32 quadlets for meters detected by DSP.
//  2 quadlets for unknown meters.
//  2 quadlets for tags.
//
// The first tag represents the set of content:
//  0x11111111 - hardware outputs
//  0x22222222 - channel strip for hardware inputs
//  0x33333333 - stream inputs
//  0x55555555 - fx bus
//  0x66666666 - hardware inputs
//
//  The maximum value for quadlet is 0x07fffff0. The byte in LSB is 0xf at satulated.
impl<O: RmeFfLatterMeterSpecification> RmeFfOffsetParamsDeserialize<FfLatterMeterState> for O {
    open spec fn offsets_acceptable(state: FfLatterMeterState, raw: Seq<u8>) -> bool {
        meter_chunk_fits::<O>(state, raw)
    }

    open spec fn deserialized(
        state: FfLatterMeterState,
        raw: Seq<u8>,
        after: FfLatterMeterState,
    ) -> bool {
        meter_state_after::<O>(state, raw, after)
    }

    fn deserialize_offsets(state: &mut FfLatterMeterState, raw: &[u8]) {
        proof {
            O::lemma_port_counts();
        }
        let target = read_le_quad(raw, METER_CHUNK_SIZE - 4);
        if target == METER_TAG_PHYS_OUTPUTS {
            let lo = O::LINE_OUTPUT_COUNT;
            let ho = O::HP_OUTPUT_COUNT;
            let so = O::SPDIF_OUTPUT_COUNT;
            read_meters(&mut state.line_outputs, raw, 0);
            read_meters(&mut state.hp_outputs, raw, lo);
            read_meters(&mut state.spdif_outputs, raw, lo + ho);
            read_meters(&mut state.adat_outputs, raw, lo + ho + so);
        } else if target == METER_TAG_STREAM_INPUTS {
            read_meters(&mut state.stream_inputs, raw, 0);
        } else if target == METER_TAG_PHYS_INPUTS {
            let li = O::LINE_INPUT_COUNT;
            let mi = O::MIC_INPUT_COUNT;
            let si = O::SPDIF_INPUT_COUNT;
            read_meters(&mut state.line_inputs, raw, 0);
            read_meters(&mut state.mic_inputs, raw, li);
            read_meters(&mut state.spdif_inputs, raw, li + mi);
            read_meters(&mut state.adat_inputs, raw, li + mi + si);
        }
    }
}

/// Serialize the configuration into the bytes to write to the configuration register.
pub fn write_config<T: RmeFfOffsetParamsSerialize<U>, U>(config: &U) -> (raw: Vec<u8>)
    ensures
        raw@ == T::offsets_of(*config),
{
    T::serialize_offsets(config)
}

/// Deserialize the bytes read from the status register into the status.
pub fn read_status<T: RmeFfOffsetParamsDeserialize<U>, U>(status: &mut U, raw: &[u8])
    requires
        T::offsets_acceptable(*old(status), raw@),
    ensures
        T::deserialized(*old(status), raw@, *final(status)),
{
    T::deserialize_offsets(status, raw)
}

} // verus!

verus! {

impl AsRef<crate::fireface::latter::FfLatterHpfState> for FfLatterInputHpfParameters {
    fn as_ref(&self) -> &crate::fireface::latter::FfLatterHpfState
        returns
            &self.0,
    {
        &self.0
    }
}

impl AsMut<crate::fireface::latter::FfLatterHpfState> for FfLatterInputHpfParameters {
    fn as_mut(&mut self) -> (r: &mut crate::fireface::latter::FfLatterHpfState)
        ensures
            *r == old(self).0,
            *final(self) == FfLatterInputHpfParameters(*final(r)),
    {
        &mut self.0
    }
}

impl AsRef<crate::fireface::latter::FfLatterHpfState> for FfLatterOutputHpfParameters {
    fn as_ref(&self) -> &crate::fireface::latter::FfLatterHpfState
        returns
            &self.0,
    {
        &self.0
    }
}

impl AsMut<crate::fireface::latter::FfLatterHpfState> for FfLatterOutputHpfParameters {
    fn as_mut(&mut self) -> (r: &mut crate::fireface::latter::FfLatterHpfState)
        ensures
            *r == old(self).0,
            *final(self) == FfLatterOutputHpfParameters(*final(r)),
    {
        &mut self.0
    }
}

impl AsRef<crate::fireface::latter::FfLatterEqState> for FfLatterInputEqualizerParameters {
    fn as_ref(&self) -> &crate::fireface::latter::FfLatterEqState
        returns
            &self.0,
    {
        &self.0
    }
}

impl AsMut<crate::fireface::latter::FfLatterEqState> for FfLatterInputEqualizerParameters {
    fn as_mut(&mut self) -> (r: &mut crate::fireface::latter::FfLatterEqState)
        ensures
            *r == old(self).0,
            *final(self) == FfLatterInputEqualizerParameters(*final(r)),
    {
        &mut self.0
    }
}

impl AsRef<crate::fireface::latter::FfLatterEqState> for FfLatterOutputEqualizerParameters {
    fn as_ref(&self) -> &crate::fireface::latter::FfLatterEqState
        returns
            &self.0,
    {
        &self.0
    }
}

impl AsMut<crate::fireface::latter::FfLatterEqState> for FfLatterOutputEqualizerParameters {
    fn as_mut(&mut self) -> (r: &mut crate::fireface::latter::FfLatterEqState)
        ensures
            *r == old(self).0,
            *final(self) == FfLatterOutputEqualizerParameters(*final(r)),
    {
        &mut self.0
    }
}

impl AsRef<crate::fireface::latter::FfLatterDynState> for FfLatterInputDynamicsParameters {
    fn as_ref(&self) -> &crate::fireface::latter::FfLatterDynState
        returns
            &self.0,
    {
        &self.0
    }
}

impl AsMut<crate::fireface::latter::FfLatterDynState> for FfLatterInputDynamicsParameters {
    fn as_mut(&mut self) -> (r: &mut crate::fireface::latter::FfLatterDynState)
        ensures
            *r == old(self).0,
            *final(self) == FfLatterInputDynamicsParameters(*final(r)),
    {
        &mut self.0
    }
}

impl AsRef<crate::fireface::latter::FfLatterDynState> for FfLatterOutputDynamicsParameters {
    fn as_ref(&self) -> &crate::fireface::latter::FfLatterDynState
        returns
            &self.0,
    {
        &self.0
    }
}

impl AsMut<crate::fireface::latter::FfLatterDynState> for FfLatterOutputDynamicsParameters {
    fn as_mut(&mut self) -> (r: &mut crate::fireface::latter::FfLatterDynState)
        ensures
            *r == old(self).0,
            *final(self) == FfLatterOutputDynamicsParameters(*final(r)),
    {
        &mut self.0
    }
}

impl AsRef<crate::fireface::latter::FfLatterAutolevelState> for FfLatterInputAutolevelParameters {
    fn as_ref(&self) -> &crate::fireface::latter::FfLatterAutolevelState
        returns
            &self.0,
    {
        &self.0
    }
}

impl AsMut<crate::fireface::latter::FfLatterAutolevelState> for FfLatterInputAutolevelParameters {
    fn as_mut(&mut self) -> (r: &mut crate::fireface::latter::FfLatterAutolevelState)
        ensures
            *r == old(self).0,
            *final(self) == FfLatterInputAutolevelParameters(*final(r)),
    {
        &mut self.0
    }
}

impl AsRef<crate::fireface::latter::FfLatterAutolevelState> for FfLatterOutputAutolevelParameters {
    fn as_ref(&self) -> &crate::fireface::latter::FfLatterAutolevelState
        returns
            &self.0,
    {
        &self.0
    }
}

impl AsMut<crate::fireface::latter::FfLatterAutolevelState> for FfLatterOutputAutolevelParameters {
    fn as_mut(&mut self) -> (r: &mut crate::fireface::latter::FfLatterAutolevelState)
        ensures
            *r == old(self).0,
            *final(self) == FfLatterOutputAutolevelParameters(*final(r)),
    {
        &mut self.0
    }
}

} // verus!
