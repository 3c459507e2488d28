//! Protocol defined by TC Electronic for Studio Konnekt 48.
//!
//! The module includes structure, enumeration, and trait and its implementation for protocol
//! defined by TC Electronic for Studio Konnekt 48.

use crate::bits::{
    flags_mask, flags_to_mask, has_flag, lemma_flags_mask, lemma_lowest_flag_single,
    lemma_lowest_flag_zero, lowest_flag, lowest_flag_from, mask_to_flags,
};
use crate::codec::{
    be_bool_at, be_i32_at, be_quad_at, deserialize_position, group_quad_lemmas,
    lemma_position_of_contained, position_of, put_be_bool, put_be_i32, put_be_quad, read_be_bool,
    read_be_i32, read_be_quad, serialize_position, write_be_bool, write_be_i32, write_be_quad,
    TableEntry,
};
use crate::tcelectronic::ch_strip::{
    ch_strip_meter_decoded, ch_strip_meter_pos, ch_strip_state_decoded, ch_strip_state_pos,
    ch_strip_states_decodable, deserialize_ch_strip_meters, deserialize_ch_strip_states,
    put_ch_strip_meters, put_ch_strip_states, serialize_ch_strip_meters, serialize_ch_strip_states,
    ChStripMeter, ChStripState, CH_STRIP_METER_SIZE, CH_STRIP_STATE_SIZE,
};
use crate::tcelectronic::reverb::{
    deserialize_reverb_meter, deserialize_reverb_state, put_reverb_meter, put_reverb_state,
    reverb_meter_decoded, reverb_state_decodable, reverb_state_decoded, serialize_reverb_meter,
    serialize_reverb_state, ReverbMeter, ReverbState, REVERB_METER_SIZE, REVERB_STATE_SIZE,
};
use crate::tcelectronic::{
    deserialize_fw_led_state, deserialize_loaded_program, deserialize_standalone_clock_rate,
    fw_led_states, loaded_programs, serialize_fw_led_state, serialize_loaded_program,
    serialize_standalone_clock_rate, standalone_clock_rates, FireWireLedState,
    TcKonnektLoadedProgram, TcKonnektSegmentSerdes, TcKonnektStandaloneClockRate,
};
use vstd::prelude::*;

verus! {

/// Protocol implementation of Studio Konnekt 48.
#[derive(Default, Debug)]
pub struct Studiok48Protocol;

/// The notification flag for line output level.
pub const STUDIO_LINE_OUT_LEVEL_NOTIFY_FLAG: u32 = 0x00010000;
/// The notification flag for remote controller.
pub const STUDIO_REMOTE_NOTIFY_FLAG: u32 = 0x00020000;
/// The notification flag for configuration.
pub const STUDIO_CONFIG_NOTIFY_FLAG: u32 = 0x00040000;
/// The notification flag for mixer state.
pub const STUDIO_MIXER_STATE_NOTIFY_FLAG: u32 = 0x00080000;
/// The notification flag for physical output.
pub const STUDIO_PHYS_OUT_NOTIFY_FLAG: u32 = 0x00100000;
/// The notification flag for reverb effect.
pub const STUDIO_REVERB_NOTIFY_CHANGE: u32 = 0x00200000;
/// The notification flag for the 1st and 2nd channel strip effects.
pub const STUDIO_CH_STRIP_NOTIFY_01_CHANGE: u32 = 0x00400000;
/// The notification flag for the 3rd and 4th channel strip effects.
pub const STUDIO_CH_STRIP_NOTIFY_23_CHANGE: u32 = 0x00800000;
/// The notification flag for hardware state.
pub const STUDIO_HW_STATE_NOTIFY_FLAG: u32 = 0x04000000;

/// Line output level.
#[derive(Debug, Copy, Clone, PartialEq, Eq, Structural)]
pub enum NominalSignalLevel {
    /// +4dBu.
    Professional,
    /// -10dBV.
    Consumer,
}

impl Default for NominalSignalLevel {
    fn default() -> (r: Self)
        ensures
            r == NominalSignalLevel::Professional,
    {
        NominalSignalLevel::Professional
    }
}

impl TableEntry for NominalSignalLevel {
    fn same(&self, other: &Self) -> (r: bool) {
        *self == *other
    }
}

/// The order of the values on the wire.
pub open spec fn nominal_levels() -> Seq<NominalSignalLevel> {
    seq![
        NominalSignalLevel::Professional,
        NominalSignalLevel::Consumer,
    ]
}

/// The entries of `nominal_levels` in their order; the place of an entry is the code which stands for it.
pub proof fn lemma_nominal_levels_order()
    ensures
        nominal_levels().len() == 2,
        nominal_levels()[0] == NominalSignalLevel::Professional,
        nominal_levels()[1] == NominalSignalLevel::Consumer,
{
}

fn nominal_levels_exec() -> (r: &'static [NominalSignalLevel])
    ensures
        r@ == nominal_levels(),
{
    &[
        NominalSignalLevel::Professional,
        NominalSignalLevel::Consumer,
    ]
}

/// Every value has its place on the wire.
pub proof fn lemma_nominal_levels_contains(v: NominalSignalLevel)
    ensures
        nominal_levels().contains(v),
{
    match v {
        NominalSignalLevel::Professional => assert(nominal_levels()[0] == v),
        NominalSignalLevel::Consumer => assert(nominal_levels()[1] == v),
    }
}

/// Serialize the value as its position at `pos`.
pub fn serialize_nominal_level(v: &NominalSignalLevel, raw: &mut [u8], pos: usize) -> (r: Result<(), String>)
    requires
        pos + 4 <= old(raw)@.len(),
    ensures
        r.is_ok(),
        final(raw)@ == put_be_quad(old(raw)@, pos as int, position_of(nominal_levels(), *v) as u32),
        final(raw)@.len() == old(raw)@.len(),
{
    proof {
        lemma_nominal_levels_contains(*v);
    }
    serialize_position(nominal_levels_exec(), v, raw, pos, "nominal level")
}

/// Deserialize the value from its position at `pos`.
pub fn deserialize_nominal_level(v: &mut NominalSignalLevel, raw: &[u8], pos: usize) -> (r: Result<(), String>)
    requires
        pos + 4 <= raw@.len(),
    ensures
        r.is_ok() <==> (be_quad_at(raw@, pos as int) as int) < nominal_levels().len(),
        r.is_ok() ==> *final(v) == nominal_levels()[be_quad_at(raw@, pos as int) as int],
        r.is_err() ==> *final(v) == *old(v),
{
    deserialize_position(nominal_levels_exec(), v, raw, pos, "nominal level")
}

/// Line output levels.
#[derive(Default, Debug, Copy, Clone, PartialEq, Eq, Structural)]
pub struct StudioLineOutLevel {
    pub line_45: NominalSignalLevel,
    pub line_67: NominalSignalLevel,
    pub line_89: NominalSignalLevel,
    pub line_1011: NominalSignalLevel,
}

impl TcKonnektSegmentSerdes<StudioLineOutLevel> for Studiok48Protocol {
    const NAME: &'static str = "line-output-level";
    const OFFSET: usize = 0x0000;
    const SIZE: usize = 20;

    open spec fn segment_fits(params: StudioLineOutLevel) -> bool {
        true
    }

    fn serialize(params: &StudioLineOutLevel, raw: &mut [u8]) -> (r: Result<(), String>)
        ensures
            r.is_ok() <==> (true),
            final(raw)@ == put_be_quad(put_be_quad(put_be_quad(put_be_quad(old(raw)@, 4, position_of(nominal_levels(), params.line_45) as u32), 8, position_of(nominal_levels(), params.line_67) as u32), 12, position_of(nominal_levels(), params.line_89) as u32), 16, position_of(nominal_levels(), params.line_1011) as u32),
    {
        let len = raw.len();
        serialize_nominal_level(&params.line_45, raw, 4)?;
        serialize_nominal_level(&params.line_67, raw, 8)?;
        serialize_nominal_level(&params.line_89, raw, 12)?;
        serialize_nominal_level(&params.line_1011, raw, 16)?;
        Ok(())
    }

    fn deserialize(params: &mut StudioLineOutLevel, raw: &[u8]) -> (r: Result<(), String>)
        ensures
            r.is_ok() <==> ((be_quad_at(raw@, 4) as int) < nominal_levels().len() && (be_quad_at(raw@, 8) as int) < nominal_levels().len() && (be_quad_at(raw@, 12) as int) < nominal_levels().len() && (be_quad_at(raw@, 16) as int) < nominal_levels().len()),
            (true && (be_quad_at(raw@, 4) as int) < nominal_levels().len()) ==> final(params).line_45 == nominal_levels()[be_quad_at(raw@, 4) as int],
            !(true && (be_quad_at(raw@, 4) as int) < nominal_levels().len()) ==> final(params).line_45 == old(params).line_45,
            ((be_quad_at(raw@, 4) as int) < nominal_levels().len() && (be_quad_at(raw@, 8) as int) < nominal_levels().len()) ==> final(params).line_67 == nominal_levels()[be_quad_at(raw@, 8) as int],
            !((be_quad_at(raw@, 4) as int) < nominal_levels().len() && (be_quad_at(raw@, 8) as int) < nominal_levels().len()) ==> final(params).line_67 == old(params).line_67,
            ((be_quad_at(raw@, 4) as int) < nominal_levels().len() && (be_quad_at(raw@, 8) as int) < nominal_levels().len() && (be_quad_at(raw@, 12) as int) < nominal_levels().len()) ==> final(params).line_89 == nominal_levels()[be_quad_at(raw@, 12) as int],
            !((be_quad_at(raw@, 4) as int) < nominal_levels().len() && (be_quad_at(raw@, 8) as int) < nominal_levels().len() && (be_quad_at(raw@, 12) as int) < nominal_levels().len()) ==> final(params).line_89 == old(params).line_89,
            ((be_quad_at(raw@, 4) as int) < nominal_levels().len() && (be_quad_at(raw@, 8) as int) < nominal_levels().len() && (be_quad_at(raw@, 12) as int) < nominal_levels().len() && (be_quad_at(raw@, 16) as int) < nominal_levels().len()) ==> final(params).line_1011 == nominal_levels()[be_quad_at(raw@, 16) as int],
            !((be_quad_at(raw@, 4) as int) < nominal_levels().len() && (be_quad_at(raw@, 8) as int) < nominal_levels().len() && (be_quad_at(raw@, 12) as int) < nominal_levels().len() && (be_quad_at(raw@, 16) as int) < nominal_levels().len()) ==> final(params).line_1011 == old(params).line_1011,
    {
        let len = raw.len();
        deserialize_nominal_level(&mut params.line_45, raw, 4)?;
        deserialize_nominal_level(&mut params.line_67, raw, 8)?;
        deserialize_nominal_level(&mut params.line_89, raw, 12)?;
        deserialize_nominal_level(&mut params.line_1011, raw, 16)?;
        Ok(())
    }
}

/// Mode of remote effect button.
#[derive(Debug, Copy, Clone, PartialEq, Eq, Structural)]
pub enum RemoteEffectButtonMode {
    /// For reverb effect.
    Reverb,
    /// For MIDI message generator.
    Midi,
}

impl Default for RemoteEffectButtonMode {
    fn default() -> (r: Self)
        ensures
            r == RemoteEffectButtonMode::Reverb,
    {
        RemoteEffectButtonMode::Reverb
    }
}

impl TableEntry for RemoteEffectButtonMode {
    fn same(&self, other: &Self) -> (r: bool) {
        *self == *other
    }
}

/// The order of the values on the wire.
pub open spec fn remote_effect_button_modes() -> Seq<RemoteEffectButtonMode> {
    seq![
        RemoteEffectButtonMode::Reverb,
        RemoteEffectButtonMode::Midi,
    ]
}

/// The entries of `remote_effect_button_modes` in their order; the place of an entry is the code which stands for it.
pub proof fn lemma_remote_effect_button_modes_order()
    ensures
        remote_effect_button_modes().len() == 2,
        remote_effect_button_modes()[0] == RemoteEffectButtonMode::Reverb,
        remote_effect_button_modes()[1] == RemoteEffectButtonMode::Midi,
{
}

fn remote_effect_button_modes_exec() -> (r: &'static [RemoteEffectButtonMode])
    ensures
        r@ == remote_effect_button_modes(),
{
    &[
        RemoteEffectButtonMode::Reverb,
        RemoteEffectButtonMode::Midi,
    ]
}

/// Every value has its place on the wire.
pub proof fn lemma_remote_effect_button_modes_contains(v: RemoteEffectButtonMode)
    ensures
        remote_effect_button_modes().contains(v),
{
    match v {
        RemoteEffectButtonMode::Reverb => assert(remote_effect_button_modes()[0] == v),
        RemoteEffectButtonMode::Midi => assert(remote_effect_button_modes()[1] == v),
    }
}

/// Serialize the value as its position at `pos`.
pub fn serialize_remote_effect_button_mode(v: &RemoteEffectButtonMode, raw: &mut [u8], pos: usize) -> (r: Result<(), String>)
    requires
        pos + 4 <= old(raw)@.len(),
    ensures
        r.is_ok(),
        final(raw)@ == put_be_quad(old(raw)@, pos as int, position_of(remote_effect_button_modes(), *v) as u32),
        final(raw)@.len() == old(raw)@.len(),
{
    proof {
        lemma_remote_effect_button_modes_contains(*v);
    }
    serialize_position(remote_effect_button_modes_exec(), v, raw, pos, "remote effect button mode")
}

/// Deserialize the value from its position at `pos`.
pub fn deserialize_remote_effect_button_mode(v: &mut RemoteEffectButtonMode, raw: &[u8], pos: usize) -> (r: Result<(), String>)
    requires
        pos + 4 <= raw@.len(),
    ensures
        r.is_ok() <==> (be_quad_at(raw@, pos as int) as int) < remote_effect_button_modes().len(),
        r.is_ok() ==> *final(v) == remote_effect_button_modes()[be_quad_at(raw@, pos as int) as int],
        r.is_err() ==> *final(v) == *old(v),
{
    deserialize_position(remote_effect_button_modes_exec(), v, raw, pos, "remote effect button mode")
}

/// Mode of knob target at pushed state.
#[derive(Debug, Copy, Clone, PartialEq, Eq, Structural)]
pub enum KnobPushMode {
    /// Left/Right balance.
    Pan,
    /// Gain to reverb effect.
    GainToReverb,
    /// Gain to 1st auxiliary mixer.
    GainToAux0,
    /// Gain to 2nd auxiliary mixer.
    GainToAux1,
}

impl Default for KnobPushMode {
    fn default() -> (r: Self)
        ensures
            r == KnobPushMode::Pan,
    {
        KnobPushMode::Pan
    }
}

impl TableEntry for KnobPushMode {
    fn same(&self, other: &Self) -> (r: bool) {
        *self == *other
    }
}

/// The order of the values on the wire.
pub open spec fn knob_push_modes() -> Seq<KnobPushMode> {
    seq![
        KnobPushMode::Pan,
        KnobPushMode::GainToReverb,
        KnobPushMode::GainToAux0,
        KnobPushMode::GainToAux1,
    ]
}

/// The entries of `knob_push_modes` in their order; the place of an entry is the code which stands for it.
pub proof fn lemma_knob_push_modes_order()
    ensures
        knob_push_modes().len() == 4,
        knob_push_modes()[0] == KnobPushMode::Pan,
        knob_push_modes()[1] == KnobPushMode::GainToReverb,
        knob_push_modes()[2] == KnobPushMode::GainToAux0,
        knob_push_modes()[3] == KnobPushMode::GainToAux1,
{
}

fn knob_push_modes_exec() -> (r: &'static [KnobPushMode])
    ensures
        r@ == knob_push_modes(),
{
    &[
        KnobPushMode::Pan,
        KnobPushMode::GainToReverb,
        KnobPushMode::GainToAux0,
        KnobPushMode::GainToAux1,
    ]
}

/// Every value has its place on the wire.
pub proof fn lemma_knob_push_modes_contains(v: KnobPushMode)
    ensures
        knob_push_modes().contains(v),
{
    match v {
        KnobPushMode::Pan => assert(knob_push_modes()[0] == v),
        KnobPushMode::GainToReverb => assert(knob_push_modes()[1] == v),
        KnobPushMode::GainToAux0 => assert(knob_push_modes()[2] == v),
        KnobPushMode::GainToAux1 => assert(knob_push_modes()[3] == v),
    }
}

/// Serialize the value as its position at `pos`.
pub fn serialize_knob_push_mode(v: &KnobPushMode, raw: &mut [u8], pos: usize) -> (r: Result<(), String>)
    requires
        pos + 4 <= old(raw)@.len(),
    ensures
        r.is_ok(),
        final(raw)@ == put_be_quad(old(raw)@, pos as int, position_of(knob_push_modes(), *v) as u32),
        final(raw)@.len() == old(raw)@.len(),
{
    proof {
        lemma_knob_push_modes_contains(*v);
    }
    serialize_position(knob_push_modes_exec(), v, raw, pos, "knob push mode")
}

/// Deserialize the value from its position at `pos`.
pub fn deserialize_knob_push_mode(v: &mut KnobPushMode, raw: &[u8], pos: usize) -> (r: Result<(), String>)
    requires
        pos + 4 <= raw@.len(),
    ensures
        r.is_ok() <==> (be_quad_at(raw@, pos as int) as int) < knob_push_modes().len(),
        r.is_ok() ==> *final(v) == knob_push_modes()[be_quad_at(raw@, pos as int) as int],
        r.is_err() ==> *final(v) == *old(v),
{
    deserialize_position(knob_push_modes_exec(), v, raw, pos, "knob push mode")
}

/// Entry of signal source.
#[derive(Debug, Copy, Clone, PartialEq, Eq, Structural)]
pub enum SrcEntry {
    /// For unused.
    Unused,
    /// For analog 0..11.
    Analog(usize),
    /// For S/PDIF 0..1
    Spdif(usize),
    /// For ADAT 0..7.
    Adat(usize),
    /// For stream A 0..11, 14,15.
    StreamA(usize),
    /// For stream B 0..8.
    StreamB(usize),
    /// For mixer output (main/aux0/aux1/reverb)
    Mixer(usize),
}

/// The code of unused source.
pub const SRC_ENTRY_UNUSED: usize = 0x00;
/// The code of the first analog source.
pub const SRC_ENTRY_ANALOG_OFFSET: usize = 0x01;
/// The code of the first S/PDIF source.
pub const SRC_ENTRY_SPDIF_OFFSET: usize = 0x0d;
/// The code of the first ADAT source.
pub const SRC_ENTRY_ADAT_OFFSET: usize = 0x0f;
/// The code of the first source of stream A.
pub const SRC_ENTRY_STREAM_A_OFFSET: usize = 0x37;
/// The code of the first source of stream B.
pub const SRC_ENTRY_STREAM_B_OFFSET: usize = 0x47;
/// The code of the first mixer output.
pub const SRC_ENTRY_MIXER_OFFSET: usize = 0x55;

impl Default for SrcEntry {
    fn default() -> (r: Self)
        ensures
            r == SrcEntry::Unused,
    {
        SrcEntry::Unused
    }
}

/// The code of the entry of source is computed without overflow.
pub open spec fn src_entry_fits(entry: SrcEntry) -> bool {
    match entry {
        SrcEntry::Unused => true,
        SrcEntry::Analog(ch) => SRC_ENTRY_ANALOG_OFFSET + ch <= usize::MAX,
        SrcEntry::Spdif(ch) => SRC_ENTRY_SPDIF_OFFSET + ch <= usize::MAX,
        SrcEntry::Adat(ch) => SRC_ENTRY_ADAT_OFFSET + ch <= usize::MAX,
        SrcEntry::StreamA(ch) => SRC_ENTRY_STREAM_A_OFFSET + ch <= usize::MAX,
        SrcEntry::StreamB(ch) => SRC_ENTRY_STREAM_B_OFFSET + ch <= usize::MAX,
        SrcEntry::Mixer(ch) => SRC_ENTRY_MIXER_OFFSET + ch <= usize::MAX,
    }
}

/// The code of the entry of source, truncated to a quadlet.
pub open spec fn src_entry_code(entry: SrcEntry) -> u32 {
    match entry {
        SrcEntry::Unused => SRC_ENTRY_UNUSED as u32,
        SrcEntry::Analog(ch) => (SRC_ENTRY_ANALOG_OFFSET + ch) as u32,
        SrcEntry::Spdif(ch) => (SRC_ENTRY_SPDIF_OFFSET + ch) as u32,
        SrcEntry::Adat(ch) => (SRC_ENTRY_ADAT_OFFSET + ch) as u32,
        SrcEntry::StreamA(ch) => (SRC_ENTRY_STREAM_A_OFFSET + ch) as u32,
        SrcEntry::StreamB(ch) => (SRC_ENTRY_STREAM_B_OFFSET + ch) as u32,
        SrcEntry::Mixer(ch) => (SRC_ENTRY_MIXER_OFFSET + ch) as u32,
    }
}

/// The entry of source which the code stands for; codes out of any range stand for unused.
pub open spec fn src_entry_of(val: u32) -> SrcEntry {
    if SRC_ENTRY_ANALOG_OFFSET <= val < SRC_ENTRY_SPDIF_OFFSET {
        SrcEntry::Analog((val - SRC_ENTRY_ANALOG_OFFSET) as usize)
    } else if SRC_ENTRY_SPDIF_OFFSET <= val < SRC_ENTRY_ADAT_OFFSET {
        SrcEntry::Spdif((val - SRC_ENTRY_SPDIF_OFFSET) as usize)
    } else if SRC_ENTRY_ADAT_OFFSET <= val < 0x17 {
        SrcEntry::Adat((val - SRC_ENTRY_ADAT_OFFSET) as usize)
    } else if SRC_ENTRY_STREAM_A_OFFSET <= val < SRC_ENTRY_STREAM_B_OFFSET {
        SrcEntry::StreamA((val - SRC_ENTRY_STREAM_A_OFFSET) as usize)
    } else if SRC_ENTRY_STREAM_B_OFFSET <= val < SRC_ENTRY_MIXER_OFFSET {
        SrcEntry::StreamB((val - SRC_ENTRY_STREAM_B_OFFSET) as usize)
    } else if SRC_ENTRY_MIXER_OFFSET <= val < 0x5d {
        SrcEntry::Mixer((val - SRC_ENTRY_MIXER_OFFSET) as usize)
    } else {
        SrcEntry::Unused
    }
}

/// The channel of the entry lies within the range of codes for its kind of source.
pub open spec fn src_entry_in_range(entry: SrcEntry) -> bool {
    match entry {
        SrcEntry::Unused => true,
        SrcEntry::Analog(ch) => ch < SRC_ENTRY_SPDIF_OFFSET - SRC_ENTRY_ANALOG_OFFSET,
        SrcEntry::Spdif(ch) => ch < SRC_ENTRY_ADAT_OFFSET - SRC_ENTRY_SPDIF_OFFSET,
        SrcEntry::Adat(ch) => ch < 0x17 - SRC_ENTRY_ADAT_OFFSET,
        SrcEntry::StreamA(ch) => ch < SRC_ENTRY_STREAM_B_OFFSET - SRC_ENTRY_STREAM_A_OFFSET,
        SrcEntry::StreamB(ch) => ch < SRC_ENTRY_MIXER_OFFSET - SRC_ENTRY_STREAM_B_OFFSET,
        SrcEntry::Mixer(ch) => ch < 0x5d - SRC_ENTRY_MIXER_OFFSET,
    }
}

/// The bytes after serializing the entry of source at `pos`.
pub open spec fn put_src_entry(s: Seq<u8>, pos: int, entry: SrcEntry) -> Seq<u8> {
    put_be_quad(s, pos, src_entry_code(entry))
}

/// `new` is the entry of source deserialized at `pos`.
pub open spec fn src_entry_decoded(raw: Seq<u8>, pos: int, old: SrcEntry, new: SrcEntry) -> bool {
    new == src_entry_of(be_quad_at(raw, pos))
}

/// Serialize the entry of source as its code at `pos`.
pub fn serialize_src_entry(entry: &SrcEntry, raw: &mut [u8], pos: usize) -> (r: Result<(), String>)
    requires
        pos + 4 <= old(raw)@.len(),
        src_entry_fits(*entry),
    ensures
        r.is_ok(),
        final(raw)@ == put_src_entry(old(raw)@, pos as int, *entry),
        final(raw)@.len() == old(raw)@.len(),
{
    let val = (match entry {
        SrcEntry::Unused => SRC_ENTRY_UNUSED,
        SrcEntry::Analog(ch) => SRC_ENTRY_ANALOG_OFFSET + *ch,
        SrcEntry::Spdif(ch) => SRC_ENTRY_SPDIF_OFFSET + *ch,
        SrcEntry::Adat(ch) => SRC_ENTRY_ADAT_OFFSET + *ch,
        SrcEntry::StreamA(ch) => SRC_ENTRY_STREAM_A_OFFSET + *ch,
        SrcEntry::StreamB(ch) => SRC_ENTRY_STREAM_B_OFFSET + *ch,
        SrcEntry::Mixer(ch) => SRC_ENTRY_MIXER_OFFSET + *ch,
    }) as u32;
    write_be_quad(raw, pos, val);
    Ok(())
}

/// Deserialize the entry of source from its code at `pos`.
pub fn deserialize_src_entry(entry: &mut SrcEntry, raw: &[u8], pos: usize) -> (r: Result<(), String>)
    requires
        pos + 4 <= raw@.len(),
    ensures
        r.is_ok(),
        *final(entry) == src_entry_of(be_quad_at(raw@, pos as int)),
{
    let val = read_be_quad(raw, pos);
    let v = val as usize;
    *entry = if v >= SRC_ENTRY_ANALOG_OFFSET && v < SRC_ENTRY_SPDIF_OFFSET {
        SrcEntry::Analog(v - SRC_ENTRY_ANALOG_OFFSET)
    } else if v >= SRC_ENTRY_SPDIF_OFFSET && v < SRC_ENTRY_ADAT_OFFSET {
        SrcEntry::Spdif(v - SRC_ENTRY_SPDIF_OFFSET)
    } else if v >= SRC_ENTRY_ADAT_OFFSET && v < 0x17 {
        SrcEntry::Adat(v - SRC_ENTRY_ADAT_OFFSET)
    } else if v >= SRC_ENTRY_STREAM_A_OFFSET && v < SRC_ENTRY_STREAM_B_OFFSET {
        SrcEntry::StreamA(v - SRC_ENTRY_STREAM_A_OFFSET)
    } else if v >= SRC_ENTRY_STREAM_B_OFFSET && v < SRC_ENTRY_MIXER_OFFSET {
        SrcEntry::StreamB(v - SRC_ENTRY_STREAM_B_OFFSET)
    } else if v >= SRC_ENTRY_MIXER_OFFSET && v < 0x5d {
        SrcEntry::Mixer(v - SRC_ENTRY_MIXER_OFFSET)
    } else {
        SrcEntry::Unused
    };
    Ok(())
}

/// An entry of source whose channel lies within its range is read back from its code.
pub proof fn lemma_src_entry_roundtrip(entry: SrcEntry)
    requires
        src_entry_in_range(entry),
    ensures
        src_entry_fits(entry),
        src_entry_of(src_entry_code(entry)) == entry,
{
}

/// The number of entries for user-assigned button.
pub const STUDIO_REMOTE_USER_ASSIGN_COUNT: usize = 6;

/// State of remote controller.
#[derive(Default, Debug, Copy, Clone, PartialEq, Eq)]
pub struct StudioRemote {
    /// Loaded program number.
    pub prog: TcKonnektLoadedProgram,
    /// Assignment of each user button to control one of source.
    pub user_assigns: [SrcEntry; STUDIO_REMOTE_USER_ASSIGN_COUNT],
    /// The mode of effect button.
    pub effect_button_mode: RemoteEffectButtonMode,
    /// Enable mode of fallback to master.
    pub fallback_to_master_enable: bool,
    /// The duration for the fallback mode.
    pub fallback_to_master_duration: u32,
    /// The mode at pushing knob.
    pub knob_push_mode: KnobPushMode,
}

impl TcKonnektSegmentSerdes<StudioRemote> for Studiok48Protocol {
    const NAME: &'static str = "remote-controller";
    const OFFSET: usize = 0x0014;
    const SIZE: usize = 48;

    open spec fn segment_fits(params: StudioRemote) -> bool {
        src_entry_fits(params.user_assigns[0]) && src_entry_fits(params.user_assigns[1]) && src_entry_fits(params.user_assigns[2]) && src_entry_fits(params.user_assigns[3]) && src_entry_fits(params.user_assigns[4]) && src_entry_fits(params.user_assigns[5])
    }

    fn serialize(params: &StudioRemote, raw: &mut [u8]) -> (r: Result<(), String>)
        ensures
            r.is_ok() <==> (true),
            final(raw)@ == put_be_quad(put_be_quad(put_be_bool(put_be_quad(put_src_entry(put_src_entry(put_src_entry(put_src_entry(put_src_entry(put_src_entry(put_be_quad(old(raw)@, 0, position_of(loaded_programs(), params.prog) as u32), 4, params.user_assigns[0]), 8, params.user_assigns[1]), 12, params.user_assigns[2]), 16, params.user_assigns[3]), 20, params.user_assigns[4]), 24, params.user_assigns[5]), 28, position_of(remote_effect_button_modes(), params.effect_button_mode) as u32), 32, params.fallback_to_master_enable), 36, params.fallback_to_master_duration), 40, position_of(knob_push_modes(), params.knob_push_mode) as u32),
    {
        let len = raw.len();
        serialize_loaded_program(&params.prog, raw, 0)?;
        serialize_src_entry(&params.user_assigns[0], raw, 4)?;
        serialize_src_entry(&params.user_assigns[1], raw, 8)?;
        serialize_src_entry(&params.user_assigns[2], raw, 12)?;
        serialize_src_entry(&params.user_assigns[3], raw, 16)?;
        serialize_src_entry(&params.user_assigns[4], raw, 20)?;
        serialize_src_entry(&params.user_assigns[5], raw, 24)?;
        serialize_remote_effect_button_mode(&params.effect_button_mode, raw, 28)?;
        write_be_bool(raw, 32, params.fallback_to_master_enable);
        write_be_quad(raw, 36, params.fallback_to_master_duration);
        serialize_knob_push_mode(&params.knob_push_mode, raw, 40)?;
        Ok(())
    }

    fn deserialize(params: &mut StudioRemote, raw: &[u8]) -> (r: Result<(), String>)
        ensures
            r.is_ok() <==> ((be_quad_at(raw@, 0) as int) < loaded_programs().len() && (be_quad_at(raw@, 28) as int) < remote_effect_button_modes().len() && (be_quad_at(raw@, 40) as int) < knob_push_modes().len()),
            (true && (be_quad_at(raw@, 0) as int) < loaded_programs().len()) ==> final(params).prog == loaded_programs()[be_quad_at(raw@, 0) as int],
            !(true && (be_quad_at(raw@, 0) as int) < loaded_programs().len()) ==> final(params).prog == old(params).prog,
            ((be_quad_at(raw@, 0) as int) < loaded_programs().len()) ==> final(params).user_assigns[0] == src_entry_of(be_quad_at(raw@, 4)),
            !((be_quad_at(raw@, 0) as int) < loaded_programs().len()) ==> final(params).user_assigns[0] == old(params).user_assigns[0],
            ((be_quad_at(raw@, 0) as int) < loaded_programs().len()) ==> final(params).user_assigns[1] == src_entry_of(be_quad_at(raw@, 8)),
            !((be_quad_at(raw@, 0) as int) < loaded_programs().len()) ==> final(params).user_assigns[1] == old(params).user_assigns[1],
            ((be_quad_at(raw@, 0) as int) < loaded_programs().len()) ==> final(params).user_assigns[2] == src_entry_of(be_quad_at(raw@, 12)),
            !((be_quad_at(raw@, 0) as int) < loaded_programs().len()) ==> final(params).user_assigns[2] == old(params).user_assigns[2],
            ((be_quad_at(raw@, 0) as int) < loaded_programs().len()) ==> final(params).user_assigns[3] == src_entry_of(be_quad_at(raw@, 16)),
            !((be_quad_at(raw@, 0) as int) < loaded_programs().len()) ==> final(params).user_assigns[3] == old(params).user_assigns[3],
            ((be_quad_at(raw@, 0) as int) < loaded_programs().len()) ==> final(params).user_assigns[4] == src_entry_of(be_quad_at(raw@, 20)),
            !((be_quad_at(raw@, 0) as int) < loaded_programs().len()) ==> final(params).user_assigns[4] == old(params).user_assigns[4],
            ((be_quad_at(raw@, 0) as int) < loaded_programs().len()) ==> final(params).user_assigns[5] == src_entry_of(be_quad_at(raw@, 24)),
            !((be_quad_at(raw@, 0) as int) < loaded_programs().len()) ==> final(params).user_assigns[5] == old(params).user_assigns[5],
            ((be_quad_at(raw@, 0) as int) < loaded_programs().len() && (be_quad_at(raw@, 28) as int) < remote_effect_button_modes().len()) ==> final(params).effect_button_mode == remote_effect_button_modes()[be_quad_at(raw@, 28) as int],
            !((be_quad_at(raw@, 0) as int) < loaded_programs().len() && (be_quad_at(raw@, 28) as int) < remote_effect_button_modes().len()) ==> final(params).effect_button_mode == old(params).effect_button_mode,
            ((be_quad_at(raw@, 0) as int) < loaded_programs().len() && (be_quad_at(raw@, 28) as int) < remote_effect_button_modes().len()) ==> final(params).fallback_to_master_enable == be_bool_at(raw@, 32),
            !((be_quad_at(raw@, 0) as int) < loaded_programs().len() && (be_quad_at(raw@, 28) as int) < remote_effect_button_modes().len()) ==> final(params).fallback_to_master_enable == old(params).fallback_to_master_enable,
            ((be_quad_at(raw@, 0) as int) < loaded_programs().len() && (be_quad_at(raw@, 28) as int) < remote_effect_button_modes().len()) ==> final(params).fallback_to_master_duration == be_quad_at(raw@, 36),
            !((be_quad_at(raw@, 0) as int) < loaded_programs().len() && (be_quad_at(raw@, 28) as int) < remote_effect_button_modes().len()) ==> final(params).fallback_to_master_duration == old(params).fallback_to_master_duration,
            ((be_quad_at(raw@, 0) as int) < loaded_programs().len() && (be_quad_at(raw@, 28) as int) < remote_effect_button_modes().len() && (be_quad_at(raw@, 40) as int) < knob_push_modes().len()) ==> final(params).knob_push_mode == knob_push_modes()[be_quad_at(raw@, 40) as int],
            !((be_quad_at(raw@, 0) as int) < loaded_programs().len() && (be_quad_at(raw@, 28) as int) < remote_effect_button_modes().len() && (be_quad_at(raw@, 40) as int) < knob_push_modes().len()) ==> final(params).knob_push_mode == old(params).knob_push_mode,
    {
        let len = raw.len();
        deserialize_loaded_program(&mut params.prog, raw, 0)?;
        deserialize_src_entry(&mut params.user_assigns[0], raw, 4)?;
        deserialize_src_entry(&mut params.user_assigns[1], raw, 8)?;
        deserialize_src_entry(&mut params.user_assigns[2], raw, 12)?;
        deserialize_src_entry(&mut params.user_assigns[3], raw, 16)?;
        deserialize_src_entry(&mut params.user_assigns[4], raw, 20)?;
        deserialize_src_entry(&mut params.user_assigns[5], raw, 24)?;
        deserialize_remote_effect_button_mode(&mut params.effect_button_mode, raw, 28)?;
        params.fallback_to_master_enable = read_be_bool(raw, 32);
        params.fallback_to_master_duration = read_be_quad(raw, 36);
        deserialize_knob_push_mode(&mut params.knob_push_mode, raw, 40)?;
        Ok(())
    }
}

/// Mode of optical interface.
#[derive(Debug, Copy, Clone, PartialEq, Eq, Structural)]
pub enum OptIfaceMode {
    /// For ADAT signal.
    Adat,
    /// For S/PDIF signal.
    Spdif,
}

impl Default for OptIfaceMode {
    fn default() -> (r: Self)
        ensures
            r == OptIfaceMode::Adat,
    {
        OptIfaceMode::Adat
    }
}

impl TableEntry for OptIfaceMode {
    fn same(&self, other: &Self) -> (r: bool) {
        *self == *other
    }
}

/// The order of the values on the wire.
pub open spec fn opt_iface_modes() -> Seq<OptIfaceMode> {
    seq![
        OptIfaceMode::Adat,
        OptIfaceMode::Spdif,
    ]
}

/// The entries of `opt_iface_modes` in their order; the place of an entry is the code which stands for it.
pub proof fn lemma_opt_iface_modes_order()
    ensures
        opt_iface_modes().len() == 2,
        opt_iface_modes()[0] == OptIfaceMode::Adat,
        opt_iface_modes()[1] == OptIfaceMode::Spdif,
{
}

fn opt_iface_modes_exec() -> (r: &'static [OptIfaceMode])
    ensures
        r@ == opt_iface_modes(),
{
    &[
        OptIfaceMode::Adat,
        OptIfaceMode::Spdif,
    ]
}

/// Every value has its place on the wire.
pub proof fn lemma_opt_iface_modes_contains(v: OptIfaceMode)
    ensures
        opt_iface_modes().contains(v),
{
    match v {
        OptIfaceMode::Adat => assert(opt_iface_modes()[0] == v),
        OptIfaceMode::Spdif => assert(opt_iface_modes()[1] == v),
    }
}

/// Serialize the value as its position at `pos`.
pub fn serialize_opt_iface_mode(v: &OptIfaceMode, raw: &mut [u8], pos: usize) -> (r: Result<(), String>)
    requires
        pos + 4 <= old(raw)@.len(),
    ensures
        r.is_ok(),
        final(raw)@ == put_be_quad(old(raw)@, pos as int, position_of(opt_iface_modes(), *v) as u32),
        final(raw)@.len() == old(raw)@.len(),
{
    proof {
        lemma_opt_iface_modes_contains(*v);
    }
    serialize_position(opt_iface_modes_exec(), v, raw, pos, "optical interface mode")
}

/// Deserialize the value from its position at `pos`.
pub fn deserialize_opt_iface_mode(v: &mut OptIfaceMode, raw: &[u8], pos: usize) -> (r: Result<(), String>)
    requires
        pos + 4 <= raw@.len(),
    ensures
        r.is_ok() <==> (be_quad_at(raw@, pos as int) as int) < opt_iface_modes().len(),
        r.is_ok() ==> *final(v) == opt_iface_modes()[be_quad_at(raw@, pos as int) as int],
        r.is_err() ==> *final(v) == *old(v),
{
    deserialize_position(opt_iface_modes_exec(), v, raw, pos, "optical interface mode")
}

/// Source of standalone clock.
#[derive(Debug, Copy, Clone, PartialEq, Eq, Structural)]
pub enum StudioStandaloneClkSrc {
    /// From ADAT in optical input interface.
    Adat,
    /// From S/PDIF in 1st optical input interface.
    SpdifOnOpt01,
    /// From S/PDIF in 2nd optical input interface.
    SpdifOnOpt23,
    /// From S/PDIF in coaxial input interface.
    SpdifOnCoax,
    /// Word clock in BNC input interface.
    WordClock,
    /// Internal oscillator.
    Internal,
}

impl Default for StudioStandaloneClkSrc {
    fn default() -> (r: Self)
        ensures
            r == StudioStandaloneClkSrc::Internal,
    {
        StudioStandaloneClkSrc::Internal
    }
}

impl TableEntry for StudioStandaloneClkSrc {
    fn same(&self, other: &Self) -> (r: bool) {
        *self == *other
    }
}

/// The order of the values on the wire.
pub open spec fn standalone_clock_sources() -> Seq<StudioStandaloneClkSrc> {
    seq![
        StudioStandaloneClkSrc::Adat,
        StudioStandaloneClkSrc::SpdifOnOpt01,
        StudioStandaloneClkSrc::SpdifOnOpt23,
        StudioStandaloneClkSrc::SpdifOnCoax,
        StudioStandaloneClkSrc::WordClock,
        StudioStandaloneClkSrc::Internal,
    ]
}

/// The entries of `standalone_clock_sources` in their order; the place of an entry is the code which stands for it.
pub proof fn lemma_standalone_clock_sources_order()
    ensures
        standalone_clock_sources().len() == 6,
        standalone_clock_sources()[0] == StudioStandaloneClkSrc::Adat,
        standalone_clock_sources()[1] == StudioStandaloneClkSrc::SpdifOnOpt01,
        standalone_clock_sources()[2] == StudioStandaloneClkSrc::SpdifOnOpt23,
        standalone_clock_sources()[3] == StudioStandaloneClkSrc::SpdifOnCoax,
        standalone_clock_sources()[4] == StudioStandaloneClkSrc::WordClock,
        standalone_clock_sources()[5] == StudioStandaloneClkSrc::Internal,
{
}

fn standalone_clock_sources_exec() -> (r: &'static [StudioStandaloneClkSrc])
    ensures
        r@ == standalone_clock_sources(),
{
    &[
        StudioStandaloneClkSrc::Adat,
        StudioStandaloneClkSrc::SpdifOnOpt01,
        StudioStandaloneClkSrc::SpdifOnOpt23,
        StudioStandaloneClkSrc::SpdifOnCoax,
        StudioStandaloneClkSrc::WordClock,
        StudioStandaloneClkSrc::Internal,
    ]
}

/// Every value has its place on the wire.
pub proof fn lemma_standalone_clock_sources_contains(v: StudioStandaloneClkSrc)
    ensures
        standalone_clock_sources().contains(v),
{
    match v {
        StudioStandaloneClkSrc::Adat => assert(standalone_clock_sources()[0] == v),
        StudioStandaloneClkSrc::SpdifOnOpt01 => assert(standalone_clock_sources()[1] == v),
        StudioStandaloneClkSrc::SpdifOnOpt23 => assert(standalone_clock_sources()[2] == v),
        StudioStandaloneClkSrc::SpdifOnCoax => assert(standalone_clock_sources()[3] == v),
        StudioStandaloneClkSrc::WordClock => assert(standalone_clock_sources()[4] == v),
        StudioStandaloneClkSrc::Internal => assert(standalone_clock_sources()[5] == v),
    }
}

/// Serialize the value as its position at `pos`.
pub fn serialize_standalone_clock_source(v: &StudioStandaloneClkSrc, raw: &mut [u8], pos: usize) -> (r: Result<(), String>)
    requires
        pos + 4 <= old(raw)@.len(),
    ensures
        r.is_ok(),
        final(raw)@ == put_be_quad(old(raw)@, pos as int, position_of(standalone_clock_sources(), *v) as u32),
        final(raw)@.len() == old(raw)@.len(),
{
    proof {
        lemma_standalone_clock_sources_contains(*v);
    }
    serialize_position(standalone_clock_sources_exec(), v, raw, pos, "standalone clock source")
}

/// Deserialize the value from its position at `pos`.
pub fn deserialize_standalone_clock_source(v: &mut StudioStandaloneClkSrc, raw: &[u8], pos: usize) -> (r: Result<(), String>)
    requires
        pos + 4 <= raw@.len(),
    ensures
        r.is_ok() <==> (be_quad_at(raw@, pos as int) as int) < standalone_clock_sources().len(),
        r.is_ok() ==> *final(v) == standalone_clock_sources()[be_quad_at(raw@, pos as int) as int],
        r.is_err() ==> *final(v) == *old(v),
{
    deserialize_position(standalone_clock_sources_exec(), v, raw, pos, "standalone clock source")
}

/// Configuration.
#[derive(Default, Debug, Copy, Clone, PartialEq, Eq, Structural)]
pub struct StudioConfig {
    /// The mode of optical input/output interfaces.
    pub opt_iface_mode: OptIfaceMode,
    /// Source of sampling clock at standalone mode.
    pub standalone_src: StudioStandaloneClkSrc,
    /// Rate of sampling clock at standalone mode.
    pub standalone_rate: TcKonnektStandaloneClockRate,
    /// Whether to recover sampling clock from any source jitter.
    pub clock_recovery: bool,
}

impl TcKonnektSegmentSerdes<StudioConfig> for Studiok48Protocol {
    const NAME: &'static str = "configuration";
    const OFFSET: usize = 0x0044;
    const SIZE: usize = 100;

    open spec fn segment_fits(params: StudioConfig) -> bool {
        true
    }

    fn serialize(params: &StudioConfig, raw: &mut [u8]) -> (r: Result<(), String>)
        ensures
            r.is_ok() <==> (true),
            final(raw)@ == put_be_bool(put_be_quad(put_be_quad(put_be_quad(old(raw)@, 0, position_of(opt_iface_modes(), params.opt_iface_mode) as u32), 4, position_of(standalone_clock_sources(), params.standalone_src) as u32), 8, position_of(standalone_clock_rates(), params.standalone_rate) as u32), 16, params.clock_recovery),
    {
        let len = raw.len();
        serialize_opt_iface_mode(&params.opt_iface_mode, raw, 0)?;
        serialize_standalone_clock_source(&params.standalone_src, raw, 4)?;
        serialize_standalone_clock_rate(&params.standalone_rate, raw, 8)?;
        write_be_bool(raw, 16, params.clock_recovery);
        Ok(())
    }

    fn deserialize(params: &mut StudioConfig, raw: &[u8]) -> (r: Result<(), String>)
        ensures
            r.is_ok() <==> ((be_quad_at(raw@, 0) as int) < opt_iface_modes().len() && (be_quad_at(raw@, 4) as int) < standalone_clock_sources().len() && (be_quad_at(raw@, 8) as int) < standalone_clock_rates().len()),
            (true && (be_quad_at(raw@, 0) as int) < opt_iface_modes().len()) ==> final(params).opt_iface_mode == opt_iface_modes()[be_quad_at(raw@, 0) as int],
            !(true && (be_quad_at(raw@, 0) as int) < opt_iface_modes().len()) ==> final(params).opt_iface_mode == old(params).opt_iface_mode,
            ((be_quad_at(raw@, 0) as int) < opt_iface_modes().len() && (be_quad_at(raw@, 4) as int) < standalone_clock_sources().len()) ==> final(params).standalone_src == standalone_clock_sources()[be_quad_at(raw@, 4) as int],
            !((be_quad_at(raw@, 0) as int) < opt_iface_modes().len() && (be_quad_at(raw@, 4) as int) < standalone_clock_sources().len()) ==> final(params).standalone_src == old(params).standalone_src,
            ((be_quad_at(raw@, 0) as int) < opt_iface_modes().len() && (be_quad_at(raw@, 4) as int) < standalone_clock_sources().len() && (be_quad_at(raw@, 8) as int) < standalone_clock_rates().len()) ==> final(params).standalone_rate == standalone_clock_rates()[be_quad_at(raw@, 8) as int],
            !((be_quad_at(raw@, 0) as int) < opt_iface_modes().len() && (be_quad_at(raw@, 4) as int) < standalone_clock_sources().len() && (be_quad_at(raw@, 8) as int) < standalone_clock_rates().len()) ==> final(params).standalone_rate == old(params).standalone_rate,
            ((be_quad_at(raw@, 0) as int) < opt_iface_modes().len() && (be_quad_at(raw@, 4) as int) < standalone_clock_sources().len() && (be_quad_at(raw@, 8) as int) < standalone_clock_rates().len()) ==> final(params).clock_recovery == be_bool_at(raw@, 16),
            !((be_quad_at(raw@, 0) as int) < opt_iface_modes().len() && (be_quad_at(raw@, 4) as int) < standalone_clock_sources().len() && (be_quad_at(raw@, 8) as int) < standalone_clock_rates().len()) ==> final(params).clock_recovery == old(params).clock_recovery,
    {
        let len = raw.len();
        deserialize_opt_iface_mode(&mut params.opt_iface_mode, raw, 0)?;
        deserialize_standalone_clock_source(&mut params.standalone_src, raw, 4)?;
        deserialize_standalone_clock_rate(&mut params.standalone_rate, raw, 8)?;
        params.clock_recovery = read_be_bool(raw, 16);
        Ok(())
    }
}

/// State of output pair.
#[derive(Default, Debug, Copy, Clone, PartialEq, Eq, Structural)]
pub struct OutPair {
    /// Whether to enable dim or not.
    pub dim_enabled: bool,
    /// Volume of the pair.
    pub vol: i32,
    /// Dimmed volume of the pair.
    pub dim_vol: i32,
}

/// The size of serialized state of output pair.
pub const OUT_PAIR_SIZE: usize = 12;

/// The bytes after serializing the state of output pair at `pos`.
pub open spec fn put_out_pair(s: Seq<u8>, pos: int, v: OutPair) -> Seq<u8> {
    let s = put_be_bool(s, pos, v.dim_enabled);
    let s = put_be_i32(s, pos + 4, v.vol);
    put_be_i32(s, pos + 8, v.dim_vol)
}

/// Each part of the out pair stands in the quadlet at its own place from `pos`, whatever the
/// parts stored after it.
pub proof fn lemma_put_out_pair_layout(s: Seq<u8>, pos: int, v: OutPair)
    requires
        0 <= pos,
        pos + 12 <= s.len(),
    ensures
        be_bool_at(put_out_pair(s, pos, v), pos) == v.dim_enabled,
        be_i32_at(put_out_pair(s, pos, v), pos + 4) == v.vol,
        be_i32_at(put_out_pair(s, pos, v), pos + 8) == v.dim_vol,
{
    broadcast use group_quad_lemmas;
}

/// Serialize the state of output pair at `pos`.
pub fn serialize_out_pair(v: &OutPair, raw: &mut [u8], pos: usize) -> (r: Result<(), String>)
    requires
        pos + OUT_PAIR_SIZE <= old(raw)@.len(),
    ensures
        r.is_ok(),
        final(raw)@ == put_out_pair(old(raw)@, pos as int, *v),
        final(raw)@.len() == old(raw)@.len(),
{
    let len = raw.len();
    write_be_bool(raw, pos, v.dim_enabled);
    write_be_i32(raw, pos + 4, v.vol);
    write_be_i32(raw, pos + 8, v.dim_vol);
    Ok(())
}

/// `new` is `old` after deserializing the state of output pair at `pos`.
pub open spec fn out_pair_decoded(raw: Seq<u8>, pos: int, old: OutPair, new: OutPair) -> bool {
    &&& new.dim_enabled == be_bool_at(raw, pos)
    &&& new.vol == be_i32_at(raw, pos + 4)
    &&& new.dim_vol == be_i32_at(raw, pos + 8)
}

/// Deserialize the state of output pair at `pos`.
pub fn deserialize_out_pair(v: &mut OutPair, raw: &[u8], pos: usize) -> (r: Result<(), String>)
    requires
        pos + OUT_PAIR_SIZE <= raw@.len(),
    ensures
        r.is_ok(),
        out_pair_decoded(raw@, pos as int, *old(v), *final(v)),
{
    let len = raw.len();
    v.dim_enabled = read_be_bool(raw, pos);
    v.vol = read_be_i32(raw, pos + 4);
    v.dim_vol = read_be_i32(raw, pos + 8);
    Ok(())
}

/// Deserializing what was serialized for the state of output pair gives it back.
pub proof fn lemma_out_pair_roundtrip(v: OutPair, s: Seq<u8>, pos: int, old: OutPair, new: OutPair)
    requires
        0 <= pos,
        pos + OUT_PAIR_SIZE <= s.len(),
    ensures
        put_out_pair(s, pos, v).len() == s.len(),
        out_pair_decoded(put_out_pair(s, pos, v), pos, old, new) ==> new == v,
{
    broadcast use group_quad_lemmas;
}

/// The mode of entry for pair of source of monitor.
#[derive(Debug, Copy, Clone, PartialEq, Eq, Structural)]
pub enum MonitorSrcPairMode {
    /// Inactive.
    Inactive,
    /// Active.
    Active,
    /// Always available.
    Fixed,
}

impl Default for MonitorSrcPairMode {
    fn default() -> (r: Self)
        ensures
            r == MonitorSrcPairMode::Inactive,
    {
        MonitorSrcPairMode::Inactive
    }
}

impl TableEntry for MonitorSrcPairMode {
    fn same(&self, other: &Self) -> (r: bool) {
        *self == *other
    }
}

/// The order of the values on the wire.
pub open spec fn monitor_src_pair_modes() -> Seq<MonitorSrcPairMode> {
    seq![
        MonitorSrcPairMode::Inactive,
        MonitorSrcPairMode::Active,
        MonitorSrcPairMode::Fixed,
    ]
}

/// The entries of `monitor_src_pair_modes` in their order; the place of an entry is the code which stands for it.
pub proof fn lemma_monitor_src_pair_modes_order()
    ensures
        monitor_src_pair_modes().len() == 3,
        monitor_src_pair_modes()[0] == MonitorSrcPairMode::Inactive,
        monitor_src_pair_modes()[1] == MonitorSrcPairMode::Active,
        monitor_src_pair_modes()[2] == MonitorSrcPairMode::Fixed,
{
}

fn monitor_src_pair_modes_exec() -> (r: &'static [MonitorSrcPairMode])
    ensures
        r@ == monitor_src_pair_modes(),
{
    &[
        MonitorSrcPairMode::Inactive,
        MonitorSrcPairMode::Active,
        MonitorSrcPairMode::Fixed,
    ]
}

/// Every value has its place on the wire.
pub proof fn lemma_monitor_src_pair_modes_contains(v: MonitorSrcPairMode)
    ensures
        monitor_src_pair_modes().contains(v),
{
    match v {
        MonitorSrcPairMode::Inactive => assert(monitor_src_pair_modes()[0] == v),
        MonitorSrcPairMode::Active => assert(monitor_src_pair_modes()[1] == v),
        MonitorSrcPairMode::Fixed => assert(monitor_src_pair_modes()[2] == v),
    }
}

/// Serialize the value as its position at `pos`.
pub fn serialize_monitor_src_pair_mode(v: &MonitorSrcPairMode, raw: &mut [u8], pos: usize) -> (r: Result<(), String>)
    requires
        pos + 4 <= old(raw)@.len(),
    ensures
        r.is_ok(),
        final(raw)@ == put_be_quad(old(raw)@, pos as int, position_of(monitor_src_pair_modes(), *v) as u32),
        final(raw)@.len() == old(raw)@.len(),
{
    proof {
        lemma_monitor_src_pair_modes_contains(*v);
    }
    serialize_position(monitor_src_pair_modes_exec(), v, raw, pos, "monitor source pair mode")
}

/// Deserialize the value from its position at `pos`.
pub fn deserialize_monitor_src_pair_mode(v: &mut MonitorSrcPairMode, raw: &[u8], pos: usize) -> (r: Result<(), String>)
    requires
        pos + 4 <= raw@.len(),
    ensures
        r.is_ok() <==> (be_quad_at(raw@, pos as int) as int) < monitor_src_pair_modes().len(),
        r.is_ok() ==> *final(v) == monitor_src_pair_modes()[be_quad_at(raw@, pos as int) as int],
        r.is_err() ==> *final(v) == *old(v),
{
    deserialize_position(monitor_src_pair_modes_exec(), v, raw, pos, "monitor source pair mode")
}

/// Parameters of source of monitor.
#[derive(Default, Debug, Copy, Clone, PartialEq, Eq, Structural)]
pub struct MonitorSrcParam {
    /// Assigned mixer source.
    pub src: SrcEntry,
    /// Gain to main mixer, between -1000 and 0 (-72.00 and 0.00 dB).
    pub gain_to_main: i32,
    /// Left/Right balance to main mixer, between -50 and 50.
    pub pan_to_main: i32,
    /// Gain to reverb effect, between -1000 and 0 (-72.00 and 0.00 dB).
    pub gain_to_reverb: i32,
    /// Gain to 1st auxiliary mixer, between -1000 and 0 (-72.00 and 0.00 dB).
    pub gain_to_aux0: i32,
    /// Gain to 2nd auxiliary mixer, between -1000 and 0 (-72.00 and 0.00 dB).
    pub gain_to_aux1: i32,
}

/// The size of serialized parameters of source of monitor.
pub const MONITOR_SRC_PARAM_SIZE: usize = 24;

/// The bytes after serializing the parameters of source of monitor at `pos`.
pub open spec fn put_monitor_src_params(s: Seq<u8>, pos: int, v: MonitorSrcParam) -> Seq<u8> {
    let s = put_src_entry(s, pos, v.src);
    let s = put_be_i32(s, pos + 4, v.gain_to_main);
    let s = put_be_i32(s, pos + 8, v.pan_to_main);
    let s = put_be_i32(s, pos + 12, v.gain_to_reverb);
    let s = put_be_i32(s, pos + 16, v.gain_to_aux0);
    put_be_i32(s, pos + 20, v.gain_to_aux1)
}

/// The codes of the entries of source in the parameters of source of monitor are computed without overflow.
pub open spec fn monitor_src_params_fits(v: MonitorSrcParam) -> bool {
    src_entry_fits(v.src)
}

/// The channels of the entries of source in the parameters of source of monitor lie within their ranges.
pub open spec fn monitor_src_params_in_range(v: MonitorSrcParam) -> bool {
    src_entry_in_range(v.src)
}

/// Serialize the parameters of source of monitor at `pos`.
pub fn serialize_monitor_src_params(v: &MonitorSrcParam, raw: &mut [u8], pos: usize) -> (r: Result<(), String>)
    requires
        pos + MONITOR_SRC_PARAM_SIZE <= old(raw)@.len(),
        monitor_src_params_fits(*v),
    ensures
        r.is_ok(),
        final(raw)@ == put_monitor_src_params(old(raw)@, pos as int, *v),
        final(raw)@.len() == old(raw)@.len(),
{
    let len = raw.len();
    serialize_src_entry(&v.src, raw, pos)?;
    write_be_i32(raw, pos + 4, v.gain_to_main);
    write_be_i32(raw, pos + 8, v.pan_to_main);
    write_be_i32(raw, pos + 12, v.gain_to_reverb);
    write_be_i32(raw, pos + 16, v.gain_to_aux0);
    write_be_i32(raw, pos + 20, v.gain_to_aux1);
    Ok(())
}

/// `new` is `old` after deserializing the parameters of source of monitor at `pos`.
pub open spec fn monitor_src_params_decoded(raw: Seq<u8>, pos: int, old: MonitorSrcParam, new: MonitorSrcParam) -> bool {
    &&& new.src == src_entry_of(be_quad_at(raw, pos))
    &&& new.gain_to_main == be_i32_at(raw, pos + 4)
    &&& new.pan_to_main == be_i32_at(raw, pos + 8)
    &&& new.gain_to_reverb == be_i32_at(raw, pos + 12)
    &&& new.gain_to_aux0 == be_i32_at(raw, pos + 16)
    &&& new.gain_to_aux1 == be_i32_at(raw, pos + 20)
}

/// Deserialize the parameters of source of monitor at `pos`.
pub fn deserialize_monitor_src_params(v: &mut MonitorSrcParam, raw: &[u8], pos: usize) -> (r: Result<(), String>)
    requires
        pos + MONITOR_SRC_PARAM_SIZE <= raw@.len(),
    ensures
        r.is_ok(),
        monitor_src_params_decoded(raw@, pos as int, *old(v), *final(v)),
{
    let len = raw.len();
    deserialize_src_entry(&mut v.src, raw, pos)?;
    v.gain_to_main = read_be_i32(raw, pos + 4);
    v.pan_to_main = read_be_i32(raw, pos + 8);
    v.gain_to_reverb = read_be_i32(raw, pos + 12);
    v.gain_to_aux0 = read_be_i32(raw, pos + 16);
    v.gain_to_aux1 = read_be_i32(raw, pos + 20);
    Ok(())
}

/// Deserializing what was serialized for the parameters of source of monitor gives it back.
pub proof fn lemma_monitor_src_params_roundtrip(v: MonitorSrcParam, s: Seq<u8>, pos: int, old: MonitorSrcParam, new: MonitorSrcParam)
    requires
        0 <= pos,
        pos + MONITOR_SRC_PARAM_SIZE <= s.len(),
        monitor_src_params_in_range(v),
    ensures
        put_monitor_src_params(s, pos, v).len() == s.len(),
        monitor_src_params_decoded(put_monitor_src_params(s, pos, v), pos, old, new) ==> new == v,
{
    broadcast use group_quad_lemmas;
    lemma_src_entry_roundtrip(v.src);
}

/// Source of monitor.
#[derive(Default, Debug, Copy, Clone, PartialEq, Eq)]
pub struct MonitorSrcPair {
    /// Mode of source pair of monitor.
    pub mode: MonitorSrcPairMode,
    ///  Stereo channel link for the pair.
    pub stereo_link: bool,
    /// Parameters of monitor source for left and right channels in its order.
    pub params: [MonitorSrcParam; 2],
}

/// The size of serialized source of monitor.
pub const MONITOR_SRC_PAIR_SIZE: usize = 56;

/// The bytes after serializing the source pair of monitor at `pos`.
pub open spec fn put_monitor_src_pair(s: Seq<u8>, pos: int, v: MonitorSrcPair) -> Seq<u8> {
    let s = put_be_quad(s, pos, position_of(monitor_src_pair_modes(), v.mode) as u32);
    let s = put_be_bool(s, pos + 4, v.stereo_link);
    let s = put_monitor_src_params(s, pos + 8, v.params[0]);
    put_monitor_src_params(s, pos + 32, v.params[1])
}

/// The codes of the entries of source in the source pair of monitor are computed without overflow.
pub open spec fn monitor_src_pair_fits(v: MonitorSrcPair) -> bool {
    monitor_src_params_fits(v.params[0])
    && monitor_src_params_fits(v.params[1])
}

/// The channels of the entries of source in the source pair of monitor lie within their ranges.
pub open spec fn monitor_src_pair_in_range(v: MonitorSrcPair) -> bool {
    monitor_src_params_in_range(v.params[0])
    && monitor_src_params_in_range(v.params[1])
}

/// Serialize the source pair of monitor at `pos`.
pub fn serialize_monitor_src_pair(v: &MonitorSrcPair, raw: &mut [u8], pos: usize) -> (r: Result<(), String>)
    requires
        pos + MONITOR_SRC_PAIR_SIZE <= old(raw)@.len(),
        monitor_src_pair_fits(*v),
    ensures
        r.is_ok(),
        final(raw)@ == put_monitor_src_pair(old(raw)@, pos as int, *v),
        final(raw)@.len() == old(raw)@.len(),
{
    let len = raw.len();
    serialize_monitor_src_pair_mode(&v.mode, raw, pos)?;
    write_be_bool(raw, pos + 4, v.stereo_link);
    serialize_monitor_src_params(&v.params[0], raw, pos + 8)?;
    serialize_monitor_src_params(&v.params[1], raw, pos + 32)?;
    Ok(())
}

/// Whether the source pair of monitor at `pos` can be deserialized.
pub open spec fn monitor_src_pair_decodable(raw: Seq<u8>, pos: int) -> bool {
    (be_quad_at(raw, pos) as int) < monitor_src_pair_modes().len()
}

/// `new` is `old` after deserializing the source pair of monitor at `pos`.
pub open spec fn monitor_src_pair_decoded(raw: Seq<u8>, pos: int, old: MonitorSrcPair, new: MonitorSrcPair) -> bool {
    &&& new.mode == if (be_quad_at(raw, pos) as int) < monitor_src_pair_modes().len() { monitor_src_pair_modes()[be_quad_at(raw, pos) as int] } else { old.mode }
    &&& new.stereo_link == if (be_quad_at(raw, pos) as int) < monitor_src_pair_modes().len() { be_bool_at(raw, pos + 4) } else { old.stereo_link }
    &&& if (be_quad_at(raw, pos) as int) < monitor_src_pair_modes().len() { monitor_src_params_decoded(raw, pos + 8, old.params[0], new.params[0]) } else { new.params[0] == old.params[0] }
    &&& if (be_quad_at(raw, pos) as int) < monitor_src_pair_modes().len() { monitor_src_params_decoded(raw, pos + 32, old.params[1], new.params[1]) } else { new.params[1] == old.params[1] }
}

/// Deserialize the source pair of monitor at `pos`.
pub fn deserialize_monitor_src_pair(v: &mut MonitorSrcPair, raw: &[u8], pos: usize) -> (r: Result<(), String>)
    requires
        pos + MONITOR_SRC_PAIR_SIZE <= raw@.len(),
    ensures
        r.is_ok() <==> monitor_src_pair_decodable(raw@, pos as int),
        monitor_src_pair_decoded(raw@, pos as int, *old(v), *final(v)),
{
    let len = raw.len();
    deserialize_monitor_src_pair_mode(&mut v.mode, raw, pos)?;
    v.stereo_link = read_be_bool(raw, pos + 4);
    deserialize_monitor_src_params(&mut v.params[0], raw, pos + 8)?;
    deserialize_monitor_src_params(&mut v.params[1], raw, pos + 32)?;
    Ok(())
}

/// Deserializing what was serialized for the source pair of monitor gives it back.
#[verifier::rlimit(60)]
pub proof fn lemma_monitor_src_pair_roundtrip(v: MonitorSrcPair, s: Seq<u8>, pos: int, old: MonitorSrcPair, new: MonitorSrcPair)
    requires
        0 <= pos,
        pos + MONITOR_SRC_PAIR_SIZE <= s.len(),
        monitor_src_pair_in_range(v),
    ensures
        put_monitor_src_pair(s, pos, v).len() == s.len(),
        monitor_src_pair_decodable(put_monitor_src_pair(s, pos, v), pos),
        monitor_src_pair_decoded(put_monitor_src_pair(s, pos, v), pos, old, new) ==> new == v,
{
    broadcast use group_quad_lemmas;
    lemma_monitor_src_pair_modes_contains(v.mode);
    lemma_position_of_contained(monitor_src_pair_modes(), v.mode);
    lemma_src_entry_roundtrip(v.params[0].src);
    lemma_src_entry_roundtrip(v.params[1].src);
    if monitor_src_pair_decoded(put_monitor_src_pair(s, pos, v), pos, old, new) {
        assert(new.params =~= v.params);
    }
}

/// The number of pairs for source of monitor.
pub const STUDIO_MIXER_SRC_PAIR_COUNT: usize = 12;

/// State of mixer.
#[derive(Default, Debug, Copy, Clone, PartialEq, Eq)]
pub struct StudioMixerState {
    /// For mixer sources.
    pub src_pairs: [MonitorSrcPair; STUDIO_MIXER_SRC_PAIR_COUNT],
    /// Whethe to mute mixer sources.
    pub mutes: [bool; STUDIO_MIXER_SRC_PAIR_COUNT],
    /// Whether to mute reverb effect return.
    pub reverb_return_mute: [bool; 3],
    /// Gain of reverb effect return.
    pub reverb_return_gain: [i32; 3],
    /// Whether to use channel strip effects as plugin.
    pub ch_strip_as_plugin: [bool; 2],
    /// The source of channel strip effects.
    pub ch_strip_src: [SrcEntry; 4],
    /// Use 3rd and 4th channel strip effects at 88.2/96.0 kHz.
    pub ch_strip_23_at_mid_rate: bool,
    /// Settings for mixer outputs.
    pub mixer_out: [OutPair; 3],
    /// Control volume before/after mixing.
    pub post_fader: [bool; 3],
    /// Whether to enable mixer function or not.
    pub enabled: bool,
}

impl TcKonnektSegmentSerdes<StudioMixerState> for Studiok48Protocol {
    const NAME: &'static str = "mixer-state";
    const OFFSET: usize = 0x00a8;
    const SIZE: usize = 820;

    open spec fn segment_fits(params: StudioMixerState) -> bool {
        monitor_src_pair_fits(params.src_pairs[0]) && monitor_src_pair_fits(params.src_pairs[1]) && monitor_src_pair_fits(params.src_pairs[2]) && monitor_src_pair_fits(params.src_pairs[3]) && monitor_src_pair_fits(params.src_pairs[4]) && monitor_src_pair_fits(params.src_pairs[5]) && monitor_src_pair_fits(params.src_pairs[6]) && monitor_src_pair_fits(params.src_pairs[7]) && monitor_src_pair_fits(params.src_pairs[8]) && monitor_src_pair_fits(params.src_pairs[9]) && monitor_src_pair_fits(params.src_pairs[10]) && monitor_src_pair_fits(params.src_pairs[11]) && src_entry_fits(params.ch_strip_src[0]) && src_entry_fits(params.ch_strip_src[1]) && src_entry_fits(params.ch_strip_src[2]) && src_entry_fits(params.ch_strip_src[3])
    }

    fn serialize(params: &StudioMixerState, raw: &mut [u8]) -> (r: Result<(), String>)
        ensures
            r.is_ok() <==> (true),
            final(raw)@ == put_be_bool(put_be_bool(put_be_bool(put_be_bool(put_out_pair(put_out_pair(put_out_pair(put_be_bool(put_src_entry(put_src_entry(put_src_entry(put_src_entry(put_be_bool(put_be_bool(put_be_i32(put_be_bool(put_be_i32(put_be_bool(put_be_i32(put_be_bool(put_be_quad(put_monitor_src_pair(put_monitor_src_pair(put_monitor_src_pair(put_monitor_src_pair(put_monitor_src_pair(put_monitor_src_pair(put_monitor_src_pair(put_monitor_src_pair(put_monitor_src_pair(put_monitor_src_pair(put_monitor_src_pair(put_monitor_src_pair(old(raw)@, 0, params.src_pairs[0]), 56, params.src_pairs[1]), 112, params.src_pairs[2]), 168, params.src_pairs[3]), 224, params.src_pairs[4]), 280, params.src_pairs[5]), 336, params.src_pairs[6]), 392, params.src_pairs[7]), 448, params.src_pairs[8]), 504, params.src_pairs[9]), 560, params.src_pairs[10]), 616, params.src_pairs[11]), 672, flags_mask(params.mutes@, 12)), 712, params.reverb_return_mute[0]), 716, params.reverb_return_gain[0]), 720, params.reverb_return_mute[1]), 724, params.reverb_return_gain[1]), 728, params.reverb_return_mute[2]), 732, params.reverb_return_gain[2]), 736, params.ch_strip_as_plugin[0]), 740, params.ch_strip_as_plugin[1]), 744, params.ch_strip_src[0]), 748, params.ch_strip_src[1]), 752, params.ch_strip_src[2]), 756, params.ch_strip_src[3]), 760, params.ch_strip_23_at_mid_rate), 764, params.mixer_out[0]), 776, params.mixer_out[1]), 788, params.mixer_out[2]), 800, params.post_fader[0]), 804, params.post_fader[1]), 808, params.post_fader[2]), 812, params.enabled),
    {
        let len = raw.len();
        serialize_monitor_src_pair(&params.src_pairs[0], raw, 0)?;
        serialize_monitor_src_pair(&params.src_pairs[1], raw, 56)?;
        serialize_monitor_src_pair(&params.src_pairs[2], raw, 112)?;
        serialize_monitor_src_pair(&params.src_pairs[3], raw, 168)?;
        serialize_monitor_src_pair(&params.src_pairs[4], raw, 224)?;
        serialize_monitor_src_pair(&params.src_pairs[5], raw, 280)?;
        serialize_monitor_src_pair(&params.src_pairs[6], raw, 336)?;
        serialize_monitor_src_pair(&params.src_pairs[7], raw, 392)?;
        serialize_monitor_src_pair(&params.src_pairs[8], raw, 448)?;
        serialize_monitor_src_pair(&params.src_pairs[9], raw, 504)?;
        serialize_monitor_src_pair(&params.src_pairs[10], raw, 560)?;
        serialize_monitor_src_pair(&params.src_pairs[11], raw, 616)?;
        write_be_quad(raw, 672, flags_to_mask(&params.mutes, 12));
        write_be_bool(raw, 712, params.reverb_return_mute[0]);
        write_be_i32(raw, 716, params.reverb_return_gain[0]);
        write_be_bool(raw, 720, params.reverb_return_mute[1]);
        write_be_i32(raw, 724, params.reverb_return_gain[1]);
        write_be_bool(raw, 728, params.reverb_return_mute[2]);
        write_be_i32(raw, 732, params.reverb_return_gain[2]);
        write_be_bool(raw, 736, params.ch_strip_as_plugin[0]);
        write_be_bool(raw, 740, params.ch_strip_as_plugin[1]);
        serialize_src_entry(&params.ch_strip_src[0], raw, 744)?;
        serialize_src_entry(&params.ch_strip_src[1], raw, 748)?;
        serialize_src_entry(&params.ch_strip_src[2], raw, 752)?;
        serialize_src_entry(&params.ch_strip_src[3], raw, 756)?;
        write_be_bool(raw, 760, params.ch_strip_23_at_mid_rate);
        serialize_out_pair(&params.mixer_out[0], raw, 764)?;
        serialize_out_pair(&params.mixer_out[1], raw, 776)?;
        serialize_out_pair(&params.mixer_out[2], raw, 788)?;
        write_be_bool(raw, 800, params.post_fader[0]);
        write_be_bool(raw, 804, params.post_fader[1]);
        write_be_bool(raw, 808, params.post_fader[2]);
        write_be_bool(raw, 812, params.enabled);
        Ok(())
    }

    fn deserialize(params: &mut StudioMixerState, raw: &[u8]) -> (r: Result<(), String>)
        ensures
            r.is_ok() <==> (monitor_src_pair_decodable(raw@, 0) && monitor_src_pair_decodable(raw@, 56) && monitor_src_pair_decodable(raw@, 112) && monitor_src_pair_decodable(raw@, 168) && monitor_src_pair_decodable(raw@, 224) && monitor_src_pair_decodable(raw@, 280) && monitor_src_pair_decodable(raw@, 336) && monitor_src_pair_decodable(raw@, 392) && monitor_src_pair_decodable(raw@, 448) && monitor_src_pair_decodable(raw@, 504) && monitor_src_pair_decodable(raw@, 560) && monitor_src_pair_decodable(raw@, 616)),
            monitor_src_pair_decoded(raw@, 0, old(params).src_pairs[0], final(params).src_pairs[0]),
            (monitor_src_pair_decodable(raw@, 0)) ==> monitor_src_pair_decoded(raw@, 56, old(params).src_pairs[1], final(params).src_pairs[1]),
            !(monitor_src_pair_decodable(raw@, 0)) ==> final(params).src_pairs[1] == old(params).src_pairs[1],
            (monitor_src_pair_decodable(raw@, 0) && monitor_src_pair_decodable(raw@, 56)) ==> monitor_src_pair_decoded(raw@, 112, old(params).src_pairs[2], final(params).src_pairs[2]),
            !(monitor_src_pair_decodable(raw@, 0) && monitor_src_pair_decodable(raw@, 56)) ==> final(params).src_pairs[2] == old(params).src_pairs[2],
            (monitor_src_pair_decodable(raw@, 0) && monitor_src_pair_decodable(raw@, 56) && monitor_src_pair_decodable(raw@, 112)) ==> monitor_src_pair_decoded(raw@, 168, old(params).src_pairs[3], final(params).src_pairs[3]),
            !(monitor_src_pair_decodable(raw@, 0) && monitor_src_pair_decodable(raw@, 56) && monitor_src_pair_decodable(raw@, 112)) ==> final(params).src_pairs[3] == old(params).src_pairs[3],
            (monitor_src_pair_decodable(raw@, 0) && monitor_src_pair_decodable(raw@, 56) && monitor_src_pair_decodable(raw@, 112) && monitor_src_pair_decodable(raw@, 168)) ==> monitor_src_pair_decoded(raw@, 224, old(params).src_pairs[4], final(params).src_pairs[4]),
            !(monitor_src_pair_decodable(raw@, 0) && monitor_src_pair_decodable(raw@, 56) && monitor_src_pair_decodable(raw@, 112) && monitor_src_pair_decodable(raw@, 168)) ==> final(params).src_pairs[4] == old(params).src_pairs[4],
            (monitor_src_pair_decodable(raw@, 0) && monitor_src_pair_decodable(raw@, 56) && monitor_src_pair_decodable(raw@, 112) && monitor_src_pair_decodable(raw@, 168) && monitor_src_pair_decodable(raw@, 224)) ==> monitor_src_pair_decoded(raw@, 280, old(params).src_pairs[5], final(params).src_pairs[5]),
            !(monitor_src_pair_decodable(raw@, 0) && monitor_src_pair_decodable(raw@, 56) && monitor_src_pair_decodable(raw@, 112) && monitor_src_pair_decodable(raw@, 168) && monitor_src_pair_decodable(raw@, 224)) ==> final(params).src_pairs[5] == old(params).src_pairs[5],
            (monitor_src_pair_decodable(raw@, 0) && monitor_src_pair_decodable(raw@, 56) && monitor_src_pair_decodable(raw@, 112) && monitor_src_pair_decodable(raw@, 168) && monitor_src_pair_decodable(raw@, 224) && monitor_src_pair_decodable(raw@, 280)) ==> monitor_src_pair_decoded(raw@, 336, old(params).src_pairs[6], final(params).src_pairs[6]),
            !(monitor_src_pair_decodable(raw@, 0) && monitor_src_pair_decodable(raw@, 56) && monitor_src_pair_decodable(raw@, 112) && monitor_src_pair_decodable(raw@, 168) && monitor_src_pair_decodable(raw@, 224) && monitor_src_pair_decodable(raw@, 280)) ==> final(params).src_pairs[6] == old(params).src_pairs[6],
            (monitor_src_pair_decodable(raw@, 0) && monitor_src_pair_decodable(raw@, 56) && monitor_src_pair_decodable(raw@, 112) && monitor_src_pair_decodable(raw@, 168) && monitor_src_pair_decodable(raw@, 224) && monitor_src_pair_decodable(raw@, 280) && monitor_src_pair_decodable(raw@, 336)) ==> monitor_src_pair_decoded(raw@, 392, old(params).src_pairs[7], final(params).src_pairs[7]),
            !(monitor_src_pair_decodable(raw@, 0) && monitor_src_pair_decodable(raw@, 56) && monitor_src_pair_decodable(raw@, 112) && monitor_src_pair_decodable(raw@, 168) && monitor_src_pair_decodable(raw@, 224) && monitor_src_pair_decodable(raw@, 280) && monitor_src_pair_decodable(raw@, 336)) ==> final(params).src_pairs[7] == old(params).src_pairs[7],
            (monitor_src_pair_decodable(raw@, 0) && monitor_src_pair_decodable(raw@, 56) && monitor_src_pair_decodable(raw@, 112) && monitor_src_pair_decodable(raw@, 168) && monitor_src_pair_decodable(raw@, 224) && monitor_src_pair_decodable(raw@, 280) && monitor_src_pair_decodable(raw@, 336) && monitor_src_pair_decodable(raw@, 392)) ==> monitor_src_pair_decoded(raw@, 448, old(params).src_pairs[8], final(params).src_pairs[8]),
            !(monitor_src_pair_decodable(raw@, 0) && monitor_src_pair_decodable(raw@, 56) && monitor_src_pair_decodable(raw@, 112) && monitor_src_pair_decodable(raw@, 168) && monitor_src_pair_decodable(raw@, 224) && monitor_src_pair_decodable(raw@, 280) && monitor_src_pair_decodable(raw@, 336) && monitor_src_pair_decodable(raw@, 392)) ==> final(params).src_pairs[8] == old(params).src_pairs[8],
            (monitor_src_pair_decodable(raw@, 0) && monitor_src_pair_decodable(raw@, 56) && monitor_src_pair_decodable(raw@, 112) && monitor_src_pair_decodable(raw@, 168) && monitor_src_pair_decodable(raw@, 224) && monitor_src_pair_decodable(raw@, 280) && monitor_src_pair_decodable(raw@, 336) && monitor_src_pair_decodable(raw@, 392) && monitor_src_pair_decodable(raw@, 448)) ==> monitor_src_pair_decoded(raw@, 504, old(params).src_pairs[9], final(params).src_pairs[9]),
            !(monitor_src_pair_decodable(raw@, 0) && monitor_src_pair_decodable(raw@, 56) && monitor_src_pair_decodable(raw@, 112) && monitor_src_pair_decodable(raw@, 168) && monitor_src_pair_decodable(raw@, 224) && monitor_src_pair_decodable(raw@, 280) && monitor_src_pair_decodable(raw@, 336) && monitor_src_pair_decodable(raw@, 392) && monitor_src_pair_decodable(raw@, 448)) ==> final(params).src_pairs[9] == old(params).src_pairs[9],
            (monitor_src_pair_decodable(raw@, 0) && monitor_src_pair_decodable(raw@, 56) && monitor_src_pair_decodable(raw@, 112) && monitor_src_pair_decodable(raw@, 168) && monitor_src_pair_decodable(raw@, 224) && monitor_src_pair_decodable(raw@, 280) && monitor_src_pair_decodable(raw@, 336) && monitor_src_pair_decodable(raw@, 392) && monitor_src_pair_decodable(raw@, 448) && monitor_src_pair_decodable(raw@, 504)) ==> monitor_src_pair_decoded(raw@, 560, old(params).src_pairs[10], final(params).src_pairs[10]),
            !(monitor_src_pair_decodable(raw@, 0) && monitor_src_pair_decodable(raw@, 56) && monitor_src_pair_decodable(raw@, 112) && monitor_src_pair_decodable(raw@, 168) && monitor_src_pair_decodable(raw@, 224) && monitor_src_pair_decodable(raw@, 280) && monitor_src_pair_decodable(raw@, 336) && monitor_src_pair_decodable(raw@, 392) && monitor_src_pair_decodable(raw@, 448) && monitor_src_pair_decodable(raw@, 504)) ==> final(params).src_pairs[10] == old(params).src_pairs[10],
            (monitor_src_pair_decodable(raw@, 0) && monitor_src_pair_decodable(raw@, 56) && monitor_src_pair_decodable(raw@, 112) && monitor_src_pair_decodable(raw@, 168) && monitor_src_pair_decodable(raw@, 224) && monitor_src_pair_decodable(raw@, 280) && monitor_src_pair_decodable(raw@, 336) && monitor_src_pair_decodable(raw@, 392) && monitor_src_pair_decodable(raw@, 448) && monitor_src_pair_decodable(raw@, 504) && monitor_src_pair_decodable(raw@, 560)) ==> monitor_src_pair_decoded(raw@, 616, old(params).src_pairs[11], final(params).src_pairs[11]),
            !(monitor_src_pair_decodable(raw@, 0) && monitor_src_pair_decodable(raw@, 56) && monitor_src_pair_decodable(raw@, 112) && monitor_src_pair_decodable(raw@, 168) && monitor_src_pair_decodable(raw@, 224) && monitor_src_pair_decodable(raw@, 280) && monitor_src_pair_decodable(raw@, 336) && monitor_src_pair_decodable(raw@, 392) && monitor_src_pair_decodable(raw@, 448) && monitor_src_pair_decodable(raw@, 504) && monitor_src_pair_decodable(raw@, 560)) ==> final(params).src_pairs[11] == old(params).src_pairs[11],
            (monitor_src_pair_decodable(raw@, 0) && monitor_src_pair_decodable(raw@, 56) && monitor_src_pair_decodable(raw@, 112) && monitor_src_pair_decodable(raw@, 168) && monitor_src_pair_decodable(raw@, 224) && monitor_src_pair_decodable(raw@, 280) && monitor_src_pair_decodable(raw@, 336) && monitor_src_pair_decodable(raw@, 392) && monitor_src_pair_decodable(raw@, 448) && monitor_src_pair_decodable(raw@, 504) && monitor_src_pair_decodable(raw@, 560) && monitor_src_pair_decodable(raw@, 616)) ==> (forall|i: int| 0 <= i < 12 ==> #[trigger] final(params).mutes@[i] == has_flag(be_quad_at(raw@, 672), 1u32 << (i as u32))),
            !(monitor_src_pair_decodable(raw@, 0) && monitor_src_pair_decodable(raw@, 56) && monitor_src_pair_decodable(raw@, 112) && monitor_src_pair_decodable(raw@, 168) && monitor_src_pair_decodable(raw@, 224) && monitor_src_pair_decodable(raw@, 280) && monitor_src_pair_decodable(raw@, 336) && monitor_src_pair_decodable(raw@, 392) && monitor_src_pair_decodable(raw@, 448) && monitor_src_pair_decodable(raw@, 504) && monitor_src_pair_decodable(raw@, 560) && monitor_src_pair_decodable(raw@, 616)) ==> final(params).mutes == old(params).mutes,
            (monitor_src_pair_decodable(raw@, 0) && monitor_src_pair_decodable(raw@, 56) && monitor_src_pair_decodable(raw@, 112) && monitor_src_pair_decodable(raw@, 168) && monitor_src_pair_decodable(raw@, 224) && monitor_src_pair_decodable(raw@, 280) && monitor_src_pair_decodable(raw@, 336) && monitor_src_pair_decodable(raw@, 392) && monitor_src_pair_decodable(raw@, 448) && monitor_src_pair_decodable(raw@, 504) && monitor_src_pair_decodable(raw@, 560) && monitor_src_pair_decodable(raw@, 616)) ==> final(params).reverb_return_mute[0] == be_bool_at(raw@, 712),
            !(monitor_src_pair_decodable(raw@, 0) && monitor_src_pair_decodable(raw@, 56) && monitor_src_pair_decodable(raw@, 112) && monitor_src_pair_decodable(raw@, 168) && monitor_src_pair_decodable(raw@, 224) && monitor_src_pair_decodable(raw@, 280) && monitor_src_pair_decodable(raw@, 336) && monitor_src_pair_decodable(raw@, 392) && monitor_src_pair_decodable(raw@, 448) && monitor_src_pair_decodable(raw@, 504) && monitor_src_pair_decodable(raw@, 560) && monitor_src_pair_decodable(raw@, 616)) ==> final(params).reverb_return_mute[0] == old(params).reverb_return_mute[0],
            (monitor_src_pair_decodable(raw@, 0) && monitor_src_pair_decodable(raw@, 56) && monitor_src_pair_decodable(raw@, 112) && monitor_src_pair_decodable(raw@, 168) && monitor_src_pair_decodable(raw@, 224) && monitor_src_pair_decodable(raw@, 280) && monitor_src_pair_decodable(raw@, 336) && monitor_src_pair_decodable(raw@, 392) && monitor_src_pair_decodable(raw@, 448) && monitor_src_pair_decodable(raw@, 504) && monitor_src_pair_decodable(raw@, 560) && monitor_src_pair_decodable(raw@, 616)) ==> final(params).reverb_return_gain[0] == be_i32_at(raw@, 716),
            !(monitor_src_pair_decodable(raw@, 0) && monitor_src_pair_decodable(raw@, 56) && monitor_src_pair_decodable(raw@, 112) && monitor_src_pair_decodable(raw@, 168) && monitor_src_pair_decodable(raw@, 224) && monitor_src_pair_decodable(raw@, 280) && monitor_src_pair_decodable(raw@, 336) && monitor_src_pair_decodable(raw@, 392) && monitor_src_pair_decodable(raw@, 448) && monitor_src_pair_decodable(raw@, 504) && monitor_src_pair_decodable(raw@, 560) && monitor_src_pair_decodable(raw@, 616)) ==> final(params).reverb_return_gain[0] == old(params).reverb_return_gain[0],
            (monitor_src_pair_decodable(raw@, 0) && monitor_src_pair_decodable(raw@, 56) && monitor_src_pair_decodable(raw@, 112) && monitor_src_pair_decodable(raw@, 168) && monitor_src_pair_decodable(raw@, 224) && monitor_src_pair_decodable(raw@, 280) && monitor_src_pair_decodable(raw@, 336) && monitor_src_pair_decodable(raw@, 392) && monitor_src_pair_decodable(raw@, 448) && monitor_src_pair_decodable(raw@, 504) && monitor_src_pair_decodable(raw@, 560) && monitor_src_pair_decodable(raw@, 616)) ==> final(params).reverb_return_mute[1] == be_bool_at(raw@, 720),
            !(monitor_src_pair_decodable(raw@, 0) && monitor_src_pair_decodable(raw@, 56) && monitor_src_pair_decodable(raw@, 112) && monitor_src_pair_decodable(raw@, 168) && monitor_src_pair_decodable(raw@, 224) && monitor_src_pair_decodable(raw@, 280) && monitor_src_pair_decodable(raw@, 336) && monitor_src_pair_decodable(raw@, 392) && monitor_src_pair_decodable(raw@, 448) && monitor_src_pair_decodable(raw@, 504) && monitor_src_pair_decodable(raw@, 560) && monitor_src_pair_decodable(raw@, 616)) ==> final(params).reverb_return_mute[1] == old(params).reverb_return_mute[1],
            (monitor_src_pair_decodable(raw@, 0) && monitor_src_pair_decodable(raw@, 56) && monitor_src_pair_decodable(raw@, 112) && monitor_src_pair_decodable(raw@, 168) && monitor_src_pair_decodable(raw@, 224) && monitor_src_pair_decodable(raw@, 280) && monitor_src_pair_decodable(raw@, 336) && monitor_src_pair_decodable(raw@, 392) && monitor_src_pair_decodable(raw@, 448) && monitor_src_pair_decodable(raw@, 504) && monitor_src_pair_decodable(raw@, 560) && monitor_src_pair_decodable(raw@, 616)) ==> final(params).reverb_return_gain[1] == be_i32_at(raw@, 724),
            !(monitor_src_pair_decodable(raw@, 0) && monitor_src_pair_decodable(raw@, 56) && monitor_src_pair_decodable(raw@, 112) && monitor_src_pair_decodable(raw@, 168) && monitor_src_pair_decodable(raw@, 224) && monitor_src_pair_decodable(raw@, 280) && monitor_src_pair_decodable(raw@, 336) && monitor_src_pair_decodable(raw@, 392) && monitor_src_pair_decodable(raw@, 448) && monitor_src_pair_decodable(raw@, 504) && monitor_src_pair_decodable(raw@, 560) && monitor_src_pair_decodable(raw@, 616)) ==> final(params).reverb_return_gain[1] == old(params).reverb_return_gain[1],
            (monitor_src_pair_decodable(raw@, 0) && monitor_src_pair_decodable(raw@, 56) && monitor_src_pair_decodable(raw@, 112) && monitor_src_pair_decodable(raw@, 168) && monitor_src_pair_decodable(raw@, 224) && monitor_src_pair_decodable(raw@, 280) && monitor_src_pair_decodable(raw@, 336) && monitor_src_pair_decodable(raw@, 392) && monitor_src_pair_decodable(raw@, 448) && monitor_src_pair_decodable(raw@, 504) && monitor_src_pair_decodable(raw@, 560) && monitor_src_pair_decodable(raw@, 616)) ==> final(params).reverb_return_mute[2] == be_bool_at(raw@, 728),
            !(monitor_src_pair_decodable(raw@, 0) && monitor_src_pair_decodable(raw@, 56) && monitor_src_pair_decodable(raw@, 112) && monitor_src_pair_decodable(raw@, 168) && monitor_src_pair_decodable(raw@, 224) && monitor_src_pair_decodable(raw@, 280) && monitor_src_pair_decodable(raw@, 336) && monitor_src_pair_decodable(raw@, 392) && monitor_src_pair_decodable(raw@, 448) && monitor_src_pair_decodable(raw@, 504) && monitor_src_pair_decodable(raw@, 560) && monitor_src_pair_decodable(raw@, 616)) ==> final(params).reverb_return_mute[2] == old(params).reverb_return_mute[2],
            (monitor_src_pair_decodable(raw@, 0) && monitor_src_pair_decodable(raw@, 56) && monitor_src_pair_decodable(raw@, 112) && monitor_src_pair_decodable(raw@, 168) && monitor_src_pair_decodable(raw@, 224) && monitor_src_pair_decodable(raw@, 280) && monitor_src_pair_decodable(raw@, 336) && monitor_src_pair_decodable(raw@, 392) && monitor_src_pair_decodable(raw@, 448) && monitor_src_pair_decodable(raw@, 504) && monitor_src_pair_decodable(raw@, 560) && monitor_src_pair_decodable(raw@, 616)) ==> final(params).reverb_return_gain[2] == be_i32_at(raw@, 732),
            !(monitor_src_pair_decodable(raw@, 0) && monitor_src_pair_decodable(raw@, 56) && monitor_src_pair_decodable(raw@, 112) && monitor_src_pair_decodable(raw@, 168) && monitor_src_pair_decodable(raw@, 224) && monitor_src_pair_decodable(raw@, 280) && monitor_src_pair_decodable(raw@, 336) && monitor_src_pair_decodable(raw@, 392) && monitor_src_pair_decodable(raw@, 448) && monitor_src_pair_decodable(raw@, 504) && monitor_src_pair_decodable(raw@, 560) && monitor_src_pair_decodable(raw@, 616)) ==> final(params).reverb_return_gain[2] == old(params).reverb_return_gain[2],
            (monitor_src_pair_decodable(raw@, 0) && monitor_src_pair_decodable(raw@, 56) && monitor_src_pair_decodable(raw@, 112) && monitor_src_pair_decodable(raw@, 168) && monitor_src_pair_decodable(raw@, 224) && monitor_src_pair_decodable(raw@, 280) && monitor_src_pair_decodable(raw@, 336) && monitor_src_pair_decodable(raw@, 392) && monitor_src_pair_decodable(raw@, 448) && monitor_src_pair_decodable(raw@, 504) && monitor_src_pair_decodable(raw@, 560) && monitor_src_pair_decodable(raw@, 616)) ==> final(params).ch_strip_as_plugin[0] == be_bool_at(raw@, 736),
            !(monitor_src_pair_decodable(raw@, 0) && monitor_src_pair_decodable(raw@, 56) && monitor_src_pair_decodable(raw@, 112) && monitor_src_pair_decodable(raw@, 168) && monitor_src_pair_decodable(raw@, 224) && monitor_src_pair_decodable(raw@, 280) && monitor_src_pair_decodable(raw@, 336) && monitor_src_pair_decodable(raw@, 392) && monitor_src_pair_decodable(raw@, 448) && monitor_src_pair_decodable(raw@, 504) && monitor_src_pair_decodable(raw@, 560) && monitor_src_pair_decodable(raw@, 616)) ==> final(params).ch_strip_as_plugin[0] == old(params).ch_strip_as_plugin[0],
            (monitor_src_pair_decodable(raw@, 0) && monitor_src_pair_decodable(raw@, 56) && monitor_src_pair_decodable(raw@, 112) && monitor_src_pair_decodable(raw@, 168) && monitor_src_pair_decodable(raw@, 224) && monitor_src_pair_decodable(raw@, 280) && monitor_src_pair_decodable(raw@, 336) && monitor_src_pair_decodable(raw@, 392) && monitor_src_pair_decodable(raw@, 448) && monitor_src_pair_decodable(raw@, 504) && monitor_src_pair_decodable(raw@, 560) && monitor_src_pair_decodable(raw@, 616)) ==> final(params).ch_strip_as_plugin[1] == be_bool_at(raw@, 740),
            !(monitor_src_pair_decodable(raw@, 0) && monitor_src_pair_decodable(raw@, 56) && monitor_src_pair_decodable(raw@, 112) && monitor_src_pair_decodable(raw@, 168) && monitor_src_pair_decodable(raw@, 224) && monitor_src_pair_decodable(raw@, 280) && monitor_src_pair_decodable(raw@, 336) && monitor_src_pair_decodable(raw@, 392) && monitor_src_pair_decodable(raw@, 448) && monitor_src_pair_decodable(raw@, 504) && monitor_src_pair_decodable(raw@, 560) && monitor_src_pair_decodable(raw@, 616)) ==> final(params).ch_strip_as_plugin[1] == old(params).ch_strip_as_plugin[1],
            (monitor_src_pair_decodable(raw@, 0) && monitor_src_pair_decodable(raw@, 56) && monitor_src_pair_decodable(raw@, 112) && monitor_src_pair_decodable(raw@, 168) && monitor_src_pair_decodable(raw@, 224) && monitor_src_pair_decodable(raw@, 280) && monitor_src_pair_decodable(raw@, 336) && monitor_src_pair_decodable(raw@, 392) && monitor_src_pair_decodable(raw@, 448) && monitor_src_pair_decodable(raw@, 504) && monitor_src_pair_decodable(raw@, 560) && monitor_src_pair_decodable(raw@, 616)) ==> final(params).ch_strip_src[0] == src_entry_of(be_quad_at(raw@, 744)),
            !(monitor_src_pair_decodable(raw@, 0) && monitor_src_pair_decodable(raw@, 56) && monitor_src_pair_decodable(raw@, 112) && monitor_src_pair_decodable(raw@, 168) && monitor_src_pair_decodable(raw@, 224) && monitor_src_pair_decodable(raw@, 280) && monitor_src_pair_decodable(raw@, 336) && monitor_src_pair_decodable(raw@, 392) && monitor_src_pair_decodable(raw@, 448) && monitor_src_pair_decodable(raw@, 504) && monitor_src_pair_decodable(raw@, 560) && monitor_src_pair_decodable(raw@, 616)) ==> final(params).ch_strip_src[0] == old(params).ch_strip_src[0],
            (monitor_src_pair_decodable(raw@, 0) && monitor_src_pair_decodable(raw@, 56) && monitor_src_pair_decodable(raw@, 112) && monitor_src_pair_decodable(raw@, 168) && monitor_src_pair_decodable(raw@, 224) && monitor_src_pair_decodable(raw@, 280) && monitor_src_pair_decodable(raw@, 336) && monitor_src_pair_decodable(raw@, 392) && monitor_src_pair_decodable(raw@, 448) && monitor_src_pair_decodable(raw@, 504) && monitor_src_pair_decodable(raw@, 560) && monitor_src_pair_decodable(raw@, 616)) ==> final(params).ch_strip_src[1] == src_entry_of(be_quad_at(raw@, 748)),
            !(monitor_src_pair_decodable(raw@, 0) && monitor_src_pair_decodable(raw@, 56) && monitor_src_pair_decodable(raw@, 112) && monitor_src_pair_decodable(raw@, 168) && monitor_src_pair_decodable(raw@, 224) && monitor_src_pair_decodable(raw@, 280) && monitor_src_pair_decodable(raw@, 336) && monitor_src_pair_decodable(raw@, 392) && monitor_src_pair_decodable(raw@, 448) && monitor_src_pair_decodable(raw@, 504) && monitor_src_pair_decodable(raw@, 560) && monitor_src_pair_decodable(raw@, 616)) ==> final(params).ch_strip_src[1] == old(params).ch_strip_src[1],
            (monitor_src_pair_decodable(raw@, 0) && monitor_src_pair_decodable(raw@, 56) && monitor_src_pair_decodable(raw@, 112) && monitor_src_pair_decodable(raw@, 168) && monitor_src_pair_decodable(raw@, 224) && monitor_src_pair_decodable(raw@, 280) && monitor_src_pair_decodable(raw@, 336) && monitor_src_pair_decodable(raw@, 392) && monitor_src_pair_decodable(raw@, 448) && monitor_src_pair_decodable(raw@, 504) && monitor_src_pair_decodable(raw@, 560) && monitor_src_pair_decodable(raw@, 616)) ==> final(params).ch_strip_src[2] == src_entry_of(be_quad_at(raw@, 752)),
            !(monitor_src_pair_decodable(raw@, 0) && monitor_src_pair_decodable(raw@, 56) && monitor_src_pair_decodable(raw@, 112) && monitor_src_pair_decodable(raw@, 168) && monitor_src_pair_decodable(raw@, 224) && monitor_src_pair_decodable(raw@, 280) && monitor_src_pair_decodable(raw@, 336) && monitor_src_pair_decodable(raw@, 392) && monitor_src_pair_decodable(raw@, 448) && monitor_src_pair_decodable(raw@, 504) && monitor_src_pair_decodable(raw@, 560) && monitor_src_pair_decodable(raw@, 616)) ==> final(params).ch_strip_src[2] == old(params).ch_strip_src[2],
            (monitor_src_pair_decodable(raw@, 0) && monitor_src_pair_decodable(raw@, 56) && monitor_src_pair_decodable(raw@, 112) && monitor_src_pair_decodable(raw@, 168) && monitor_src_pair_decodable(raw@, 224) && monitor_src_pair_decodable(raw@, 280) && monitor_src_pair_decodable(raw@, 336) && monitor_src_pair_decodable(raw@, 392) && monitor_src_pair_decodable(raw@, 448) && monitor_src_pair_decodable(raw@, 504) && monitor_src_pair_decodable(raw@, 560) && monitor_src_pair_decodable(raw@, 616)) ==> final(params).ch_strip_src[3] == src_entry_of(be_quad_at(raw@, 756)),
            !(monitor_src_pair_decodable(raw@, 0) && monitor_src_pair_decodable(raw@, 56) && monitor_src_pair_decodable(raw@, 112) && monitor_src_pair_decodable(raw@, 168) && monitor_src_pair_decodable(raw@, 224) && monitor_src_pair_decodable(raw@, 280) && monitor_src_pair_decodable(raw@, 336) && monitor_src_pair_decodable(raw@, 392) && monitor_src_pair_decodable(raw@, 448) && monitor_src_pair_decodable(raw@, 504) && monitor_src_pair_decodable(raw@, 560) && monitor_src_pair_decodable(raw@, 616)) ==> final(params).ch_strip_src[3] == old(params).ch_strip_src[3],
            (monitor_src_pair_decodable(raw@, 0) && monitor_src_pair_decodable(raw@, 56) && monitor_src_pair_decodable(raw@, 112) && monitor_src_pair_decodable(raw@, 168) && monitor_src_pair_decodable(raw@, 224) && monitor_src_pair_decodable(raw@, 280) && monitor_src_pair_decodable(raw@, 336) && monitor_src_pair_decodable(raw@, 392) && monitor_src_pair_decodable(raw@, 448) && monitor_src_pair_decodable(raw@, 504) && monitor_src_pair_decodable(raw@, 560) && monitor_src_pair_decodable(raw@, 616)) ==> final(params).ch_strip_23_at_mid_rate == be_bool_at(raw@, 760),
            !(monitor_src_pair_decodable(raw@, 0) && monitor_src_pair_decodable(raw@, 56) && monitor_src_pair_decodable(raw@, 112) && monitor_src_pair_decodable(raw@, 168) && monitor_src_pair_decodable(raw@, 224) && monitor_src_pair_decodable(raw@, 280) && monitor_src_pair_decodable(raw@, 336) && monitor_src_pair_decodable(raw@, 392) && monitor_src_pair_decodable(raw@, 448) && monitor_src_pair_decodable(raw@, 504) && monitor_src_pair_decodable(raw@, 560) && monitor_src_pair_decodable(raw@, 616)) ==> final(params).ch_strip_23_at_mid_rate == old(params).ch_strip_23_at_mid_rate,
            (monitor_src_pair_decodable(raw@, 0) && monitor_src_pair_decodable(raw@, 56) && monitor_src_pair_decodable(raw@, 112) && monitor_src_pair_decodable(raw@, 168) && monitor_src_pair_decodable(raw@, 224) && monitor_src_pair_decodable(raw@, 280) && monitor_src_pair_decodable(raw@, 336) && monitor_src_pair_decodable(raw@, 392) && monitor_src_pair_decodable(raw@, 448) && monitor_src_pair_decodable(raw@, 504) && monitor_src_pair_decodable(raw@, 560) && monitor_src_pair_decodable(raw@, 616)) ==> out_pair_decoded(raw@, 764, old(params).mixer_out[0], final(params).mixer_out[0]),
            !(monitor_src_pair_decodable(raw@, 0) && monitor_src_pair_decodable(raw@, 56) && monitor_src_pair_decodable(raw@, 112) && monitor_src_pair_decodable(raw@, 168) && monitor_src_pair_decodable(raw@, 224) && monitor_src_pair_decodable(raw@, 280) && monitor_src_pair_decodable(raw@, 336) && monitor_src_pair_decodable(raw@, 392) && monitor_src_pair_decodable(raw@, 448) && monitor_src_pair_decodable(raw@, 504) && monitor_src_pair_decodable(raw@, 560) && monitor_src_pair_decodable(raw@, 616)) ==> final(params).mixer_out[0] == old(params).mixer_out[0],
            (monitor_src_pair_decodable(raw@, 0) && monitor_src_pair_decodable(raw@, 56) && monitor_src_pair_decodable(raw@, 112) && monitor_src_pair_decodable(raw@, 168) && monitor_src_pair_decodable(raw@, 224) && monitor_src_pair_decodable(raw@, 280) && monitor_src_pair_decodable(raw@, 336) && monitor_src_pair_decodable(raw@, 392) && monitor_src_pair_decodable(raw@, 448) && monitor_src_pair_decodable(raw@, 504) && monitor_src_pair_decodable(raw@, 560) && monitor_src_pair_decodable(raw@, 616)) ==> out_pair_decoded(raw@, 776, old(params).mixer_out[1], final(params).mixer_out[1]),
            !(monitor_src_pair_decodable(raw@, 0) && monitor_src_pair_decodable(raw@, 56) && monitor_src_pair_decodable(raw@, 112) && monitor_src_pair_decodable(raw@, 168) && monitor_src_pair_decodable(raw@, 224) && monitor_src_pair_decodable(raw@, 280) && monitor_src_pair_decodable(raw@, 336) && monitor_src_pair_decodable(raw@, 392) && monitor_src_pair_decodable(raw@, 448) && monitor_src_pair_decodable(raw@, 504) && monitor_src_pair_decodable(raw@, 560) && monitor_src_pair_decodable(raw@, 616)) ==> final(params).mixer_out[1] == old(params).mixer_out[1],
            (monitor_src_pair_decodable(raw@, 0) && monitor_src_pair_decodable(raw@, 56) && monitor_src_pair_decodable(raw@, 112) && monitor_src_pair_decodable(raw@, 168) && monitor_src_pair_decodable(raw@, 224) && monitor_src_pair_decodable(raw@, 280) && monitor_src_pair_decodable(raw@, 336) && monitor_src_pair_decodable(raw@, 392) && monitor_src_pair_decodable(raw@, 448) && monitor_src_pair_decodable(raw@, 504) && monitor_src_pair_decodable(raw@, 560) && monitor_src_pair_decodable(raw@, 616)) ==> out_pair_decoded(raw@, 788, old(params).mixer_out[2], final(params).mixer_out[2]),
            !(monitor_src_pair_decodable(raw@, 0) && monitor_src_pair_decodable(raw@, 56) && monitor_src_pair_decodable(raw@, 112) && monitor_src_pair_decodable(raw@, 168) && monitor_src_pair_decodable(raw@, 224) && monitor_src_pair_decodable(raw@, 280) && monitor_src_pair_decodable(raw@, 336) && monitor_src_pair_decodable(raw@, 392) && monitor_src_pair_decodable(raw@, 448) && monitor_src_pair_decodable(raw@, 504) && monitor_src_pair_decodable(raw@, 560) && monitor_src_pair_decodable(raw@, 616)) ==> final(params).mixer_out[2] == old(params).mixer_out[2],
            (monitor_src_pair_decodable(raw@, 0) && monitor_src_pair_decodable(raw@, 56) && monitor_src_pair_decodable(raw@, 112) && monitor_src_pair_decodable(raw@, 168) && monitor_src_pair_decodable(raw@, 224) && monitor_src_pair_decodable(raw@, 280) && monitor_src_pair_decodable(raw@, 336) && monitor_src_pair_decodable(raw@, 392) && monitor_src_pair_decodable(raw@, 448) && monitor_src_pair_decodable(raw@, 504) && monitor_src_pair_decodable(raw@, 560) && monitor_src_pair_decodable(raw@, 616)) ==> final(params).post_fader[0] == be_bool_at(raw@, 800),
            !(monitor_src_pair_decodable(raw@, 0) && monitor_src_pair_decodable(raw@, 56) && monitor_src_pair_decodable(raw@, 112) && monitor_src_pair_decodable(raw@, 168) && monitor_src_pair_decodable(raw@, 224) && monitor_src_pair_decodable(raw@, 280) && monitor_src_pair_decodable(raw@, 336) && monitor_src_pair_decodable(raw@, 392) && monitor_src_pair_decodable(raw@, 448) && monitor_src_pair_decodable(raw@, 504) && monitor_src_pair_decodable(raw@, 560) && monitor_src_pair_decodable(raw@, 616)) ==> final(params).post_fader[0] == old(params).post_fader[0],
            (monitor_src_pair_decodable(raw@, 0) && monitor_src_pair_decodable(raw@, 56) && monitor_src_pair_decodable(raw@, 112) && monitor_src_pair_decodable(raw@, 168) && monitor_src_pair_decodable(raw@, 224) && monitor_src_pair_decodable(raw@, 280) && monitor_src_pair_decodable(raw@, 336) && monitor_src_pair_decodable(raw@, 392) && monitor_src_pair_decodable(raw@, 448) && monitor_src_pair_decodable(raw@, 504) && monitor_src_pair_decodable(raw@, 560) && monitor_src_pair_decodable(raw@, 616)) ==> final(params).post_fader[1] == be_bool_at(raw@, 804),
            !(monitor_src_pair_decodable(raw@, 0) && monitor_src_pair_decodable(raw@, 56) && monitor_src_pair_decodable(raw@, 112) && monitor_src_pair_decodable(raw@, 168) && monitor_src_pair_decodable(raw@, 224) && monitor_src_pair_decodable(raw@, 280) && monitor_src_pair_decodable(raw@, 336) && monitor_src_pair_decodable(raw@, 392) && monitor_src_pair_decodable(raw@, 448) && monitor_src_pair_decodable(raw@, 504) && monitor_src_pair_decodable(raw@, 560) && monitor_src_pair_decodable(raw@, 616)) ==> final(params).post_fader[1] == old(params).post_fader[1],
            (monitor_src_pair_decodable(raw@, 0) && monitor_src_pair_decodable(raw@, 56) && monitor_src_pair_decodable(raw@, 112) && monitor_src_pair_decodable(raw@, 168) && monitor_src_pair_decodable(raw@, 224) && monitor_src_pair_decodable(raw@, 280) && monitor_src_pair_decodable(raw@, 336) && monitor_src_pair_decodable(raw@, 392) && monitor_src_pair_decodable(raw@, 448) && monitor_src_pair_decodable(raw@, 504) && monitor_src_pair_decodable(raw@, 560) && monitor_src_pair_decodable(raw@, 616)) ==> final(params).post_fader[2] == be_bool_at(raw@, 800),
            !(monitor_src_pair_decodable(raw@, 0) && monitor_src_pair_decodable(raw@, 56) && monitor_src_pair_decodable(raw@, 112) && monitor_src_pair_decodable(raw@, 168) && monitor_src_pair_decodable(raw@, 224) && monitor_src_pair_decodable(raw@, 280) && monitor_src_pair_decodable(raw@, 336) && monitor_src_pair_decodable(raw@, 392) && monitor_src_pair_decodable(raw@, 448) && monitor_src_pair_decodable(raw@, 504) && monitor_src_pair_decodable(raw@, 560) && monitor_src_pair_decodable(raw@, 616)) ==> final(params).post_fader[2] == old(params).post_fader[2],
            (monitor_src_pair_decodable(raw@, 0) && monitor_src_pair_decodable(raw@, 56) && monitor_src_pair_decodable(raw@, 112) && monitor_src_pair_decodable(raw@, 168) && monitor_src_pair_decodable(raw@, 224) && monitor_src_pair_decodable(raw@, 280) && monitor_src_pair_decodable(raw@, 336) && monitor_src_pair_decodable(raw@, 392) && monitor_src_pair_decodable(raw@, 448) && monitor_src_pair_decodable(raw@, 504) && monitor_src_pair_decodable(raw@, 560) && monitor_src_pair_decodable(raw@, 616)) ==> final(params).enabled == be_bool_at(raw@, 812),
            !(monitor_src_pair_decodable(raw@, 0) && monitor_src_pair_decodable(raw@, 56) && monitor_src_pair_decodable(raw@, 112) && monitor_src_pair_decodable(raw@, 168) && monitor_src_pair_decodable(raw@, 224) && monitor_src_pair_decodable(raw@, 280) && monitor_src_pair_decodable(raw@, 336) && monitor_src_pair_decodable(raw@, 392) && monitor_src_pair_decodable(raw@, 448) && monitor_src_pair_decodable(raw@, 504) && monitor_src_pair_decodable(raw@, 560) && monitor_src_pair_decodable(raw@, 616)) ==> final(params).enabled == old(params).enabled,
    {
        let len = raw.len();
        deserialize_monitor_src_pair(&mut params.src_pairs[0], raw, 0)?;
        deserialize_monitor_src_pair(&mut params.src_pairs[1], raw, 56)?;
        deserialize_monitor_src_pair(&mut params.src_pairs[2], raw, 112)?;
        deserialize_monitor_src_pair(&mut params.src_pairs[3], raw, 168)?;
        deserialize_monitor_src_pair(&mut params.src_pairs[4], raw, 224)?;
        deserialize_monitor_src_pair(&mut params.src_pairs[5], raw, 280)?;
        deserialize_monitor_src_pair(&mut params.src_pairs[6], raw, 336)?;
        deserialize_monitor_src_pair(&mut params.src_pairs[7], raw, 392)?;
        deserialize_monitor_src_pair(&mut params.src_pairs[8], raw, 448)?;
        deserialize_monitor_src_pair(&mut params.src_pairs[9], raw, 504)?;
        deserialize_monitor_src_pair(&mut params.src_pairs[10], raw, 560)?;
        deserialize_monitor_src_pair(&mut params.src_pairs[11], raw, 616)?;
        mask_to_flags(&mut params.mutes, read_be_quad(raw, 672), 12);
        params.reverb_return_mute[0] = read_be_bool(raw, 712);
        params.reverb_return_gain[0] = read_be_i32(raw, 716);
        params.reverb_return_mute[1] = read_be_bool(raw, 720);
        params.reverb_return_gain[1] = read_be_i32(raw, 724);
        params.reverb_return_mute[2] = read_be_bool(raw, 728);
        params.reverb_return_gain[2] = read_be_i32(raw, 732);
        params.ch_strip_as_plugin[0] = read_be_bool(raw, 736);
        params.ch_strip_as_plugin[1] = read_be_bool(raw, 740);
        deserialize_src_entry(&mut params.ch_strip_src[0], raw, 744)?;
        deserialize_src_entry(&mut params.ch_strip_src[1], raw, 748)?;
        deserialize_src_entry(&mut params.ch_strip_src[2], raw, 752)?;
        deserialize_src_entry(&mut params.ch_strip_src[3], raw, 756)?;
        params.ch_strip_23_at_mid_rate = read_be_bool(raw, 760);
        let _ = deserialize_out_pair(&mut params.mixer_out[0], raw, 764);
        let _ = deserialize_out_pair(&mut params.mixer_out[1], raw, 776);
        let _ = deserialize_out_pair(&mut params.mixer_out[2], raw, 788);
        params.post_fader[0] = read_be_bool(raw, 800);
        params.post_fader[1] = read_be_bool(raw, 804);
        params.post_fader[2] = read_be_bool(raw, 800);
        params.enabled = read_be_bool(raw, 812);
        Ok(())
    }
}

/// Parameter of each channel for source of physical output.
#[derive(Default, Debug, Copy, Clone, PartialEq, Eq, Structural)]
pub struct PhysOutSrcParam {
    /// Source.
    pub src: SrcEntry,
    /// Volume.
    pub vol: i32,
    /// Delay.
    pub delay: i32,
}

/// The size of serialized parameter of source of physical output.
pub const PHYS_OUT_SRC_PARAM_SIZE: usize = 12;

/// The bytes after serializing the parameter of source of physical output at `pos`.
pub open spec fn put_phys_out_src_params(s: Seq<u8>, pos: int, v: PhysOutSrcParam) -> Seq<u8> {
    let s = put_src_entry(s, pos, v.src);
    let s = put_be_i32(s, pos + 4, v.vol);
    put_be_i32(s, pos + 8, v.delay)
}

/// The codes of the entries of source in the parameter of source of physical output are computed without overflow.
pub open spec fn phys_out_src_params_fits(v: PhysOutSrcParam) -> bool {
    src_entry_fits(v.src)
}

/// The channels of the entries of source in the parameter of source of physical output lie within their ranges.
pub open spec fn phys_out_src_params_in_range(v: PhysOutSrcParam) -> bool {
    src_entry_in_range(v.src)
}

/// Serialize the parameter of source of physical output at `pos`.
pub fn serialize_phys_out_src_params(v: &PhysOutSrcParam, raw: &mut [u8], pos: usize) -> (r: Result<(), String>)
    requires
        pos + PHYS_OUT_SRC_PARAM_SIZE <= old(raw)@.len(),
        phys_out_src_params_fits(*v),
    ensures
        r.is_ok(),
        final(raw)@ == put_phys_out_src_params(old(raw)@, pos as int, *v),
        final(raw)@.len() == old(raw)@.len(),
{
    let len = raw.len();
    serialize_src_entry(&v.src, raw, pos)?;
    write_be_i32(raw, pos + 4, v.vol);
    write_be_i32(raw, pos + 8, v.delay);
    Ok(())
}

/// `new` is `old` after deserializing the parameter of source of physical output at `pos`.
pub open spec fn phys_out_src_params_decoded(raw: Seq<u8>, pos: int, old: PhysOutSrcParam, new: PhysOutSrcParam) -> bool {
    &&& new.src == src_entry_of(be_quad_at(raw, pos))
    &&& new.vol == be_i32_at(raw, pos + 4)
    &&& new.delay == be_i32_at(raw, pos + 8)
}

/// Deserialize the parameter of source of physical output at `pos`.
pub fn deserialize_phys_out_src_params(v: &mut PhysOutSrcParam, raw: &[u8], pos: usize) -> (r: Result<(), String>)
    requires
        pos + PHYS_OUT_SRC_PARAM_SIZE <= raw@.len(),
    ensures
        r.is_ok(),
        phys_out_src_params_decoded(raw@, pos as int, *old(v), *final(v)),
{
    let len = raw.len();
    deserialize_src_entry(&mut v.src, raw, pos)?;
    v.vol = read_be_i32(raw, pos + 4);
    v.delay = read_be_i32(raw, pos + 8);
    Ok(())
}

/// Deserializing what was serialized for the parameter of source of physical output gives it back.
pub proof fn lemma_phys_out_src_params_roundtrip(v: PhysOutSrcParam, s: Seq<u8>, pos: int, old: PhysOutSrcParam, new: PhysOutSrcParam)
    requires
        0 <= pos,
        pos + PHYS_OUT_SRC_PARAM_SIZE <= s.len(),
        phys_out_src_params_in_range(v),
    ensures
        put_phys_out_src_params(s, pos, v).len() == s.len(),
        phys_out_src_params_decoded(put_phys_out_src_params(s, pos, v), pos, old, new) ==> new == v,
{
    broadcast use group_quad_lemmas;
    lemma_src_entry_roundtrip(v.src);
}

/// Source of physical output.
#[derive(Default, Debug, Copy, Clone, PartialEq, Eq)]
pub struct PhysOutPairSrc {
    /// Stereo channel link for the pair.
    pub stereo_link: bool,
    /// Parameters of sources for left and right channels.
    pub params: [PhysOutSrcParam; 2],
}

/// The size of serialized source of physical output.
pub const PHYS_OUT_PAIR_SRC_SIZE: usize = 28;

/// The bytes after serializing the source of physical output pair at `pos`.
pub open spec fn put_phys_out_pair_src(s: Seq<u8>, pos: int, v: PhysOutPairSrc) -> Seq<u8> {
    let s = put_be_bool(s, pos, v.stereo_link);
    let s = put_phys_out_src_params(s, pos + 4, v.params[0]);
    put_phys_out_src_params(s, pos + 16, v.params[1])
}

/// The codes of the entries of source in the source of physical output pair are computed without overflow.
pub open spec fn phys_out_pair_src_fits(v: PhysOutPairSrc) -> bool {
    phys_out_src_params_fits(v.params[0])
    && phys_out_src_params_fits(v.params[1])
}

/// The channels of the entries of source in the source of physical output pair lie within their ranges.
pub open spec fn phys_out_pair_src_in_range(v: PhysOutPairSrc) -> bool {
    phys_out_src_params_in_range(v.params[0])
    && phys_out_src_params_in_range(v.params[1])
}

/// Serialize the source of physical output pair at `pos`.
pub fn serialize_phys_out_pair_src(v: &PhysOutPairSrc, raw: &mut [u8], pos: usize) -> (r: Result<(), String>)
    requires
        pos + PHYS_OUT_PAIR_SRC_SIZE <= old(raw)@.len(),
        phys_out_pair_src_fits(*v),
    ensures
        r.is_ok(),
        final(raw)@ == put_phys_out_pair_src(old(raw)@, pos as int, *v),
        final(raw)@.len() == old(raw)@.len(),
{
    let len = raw.len();
    write_be_bool(raw, pos, v.stereo_link);
    serialize_phys_out_src_params(&v.params[0], raw, pos + 4)?;
    serialize_phys_out_src_params(&v.params[1], raw, pos + 16)?;
    Ok(())
}

/// `new` is `old` after deserializing the source of physical output pair at `pos`.
pub open spec fn phys_out_pair_src_decoded(raw: Seq<u8>, pos: int, old: PhysOutPairSrc, new: PhysOutPairSrc) -> bool {
    &&& new.stereo_link == be_bool_at(raw, pos)
    &&& phys_out_src_params_decoded(raw, pos + 4, old.params[0], new.params[0])
    &&& phys_out_src_params_decoded(raw, pos + 16, old.params[1], new.params[1])
}

/// Deserialize the source of physical output pair at `pos`.
pub fn deserialize_phys_out_pair_src(v: &mut PhysOutPairSrc, raw: &[u8], pos: usize) -> (r: Result<(), String>)
    requires
        pos + PHYS_OUT_PAIR_SRC_SIZE <= raw@.len(),
    ensures
        r.is_ok(),
        phys_out_pair_src_decoded(raw@, pos as int, *old(v), *final(v)),
{
    let len = raw.len();
    v.stereo_link = read_be_bool(raw, pos);
    deserialize_phys_out_src_params(&mut v.params[0], raw, pos + 4)?;
    deserialize_phys_out_src_params(&mut v.params[1], raw, pos + 16)?;
    Ok(())
}

/// Deserializing what was serialized for the source of physical output pair gives it back.
pub proof fn lemma_phys_out_pair_src_roundtrip(v: PhysOutPairSrc, s: Seq<u8>, pos: int, old: PhysOutPairSrc, new: PhysOutPairSrc)
    requires
        0 <= pos,
        pos + PHYS_OUT_PAIR_SRC_SIZE <= s.len(),
        phys_out_pair_src_in_range(v),
    ensures
        put_phys_out_pair_src(s, pos, v).len() == s.len(),
        phys_out_pair_src_decoded(put_phys_out_pair_src(s, pos, v), pos, old, new) ==> new == v,
{
    broadcast use group_quad_lemmas;
    lemma_src_entry_roundtrip(v.params[0].src);
    lemma_src_entry_roundtrip(v.params[1].src);
    if phys_out_pair_src_decoded(put_phys_out_pair_src(s, pos, v), pos, old, new) {
        assert(new.params =~= v.params);
    }
}

/// The highest frequency to cross over into LFE channel.
#[derive(Debug, Copy, Clone, PartialEq, Eq, Structural)]
pub enum CrossOverFreq {
    /// 50 Hz.
    F50,
    /// 80 Hz.
    F80,
    /// 95 Hz.
    F95,
    /// 110 Hz.
    F110,
    /// 115 Hz.
    F115,
    /// 120 Hz.
    F120,
}

impl Default for CrossOverFreq {
    fn default() -> (r: Self)
        ensures
            r == CrossOverFreq::F50,
    {
        CrossOverFreq::F50
    }
}

impl TableEntry for CrossOverFreq {
    fn same(&self, other: &Self) -> (r: bool) {
        *self == *other
    }
}

/// The order of the values on the wire.
pub open spec fn cross_over_freqs() -> Seq<CrossOverFreq> {
    seq![
        CrossOverFreq::F50,
        CrossOverFreq::F80,
        CrossOverFreq::F95,
        CrossOverFreq::F110,
        CrossOverFreq::F115,
        CrossOverFreq::F120,
    ]
}

/// The entries of `cross_over_freqs` in their order; the place of an entry is the code which stands for it.
pub proof fn lemma_cross_over_freqs_order()
    ensures
        cross_over_freqs().len() == 6,
        cross_over_freqs()[0] == CrossOverFreq::F50,
        cross_over_freqs()[1] == CrossOverFreq::F80,
        cross_over_freqs()[2] == CrossOverFreq::F95,
        cross_over_freqs()[3] == CrossOverFreq::F110,
        cross_over_freqs()[4] == CrossOverFreq::F115,
        cross_over_freqs()[5] == CrossOverFreq::F120,
{
}

fn cross_over_freqs_exec() -> (r: &'static [CrossOverFreq])
    ensures
        r@ == cross_over_freqs(),
{
    &[
        CrossOverFreq::F50,
        CrossOverFreq::F80,
        CrossOverFreq::F95,
        CrossOverFreq::F110,
        CrossOverFreq::F115,
        CrossOverFreq::F120,
    ]
}

/// Every value has its place on the wire.
pub proof fn lemma_cross_over_freqs_contains(v: CrossOverFreq)
    ensures
        cross_over_freqs().contains(v),
{
    match v {
        CrossOverFreq::F50 => assert(cross_over_freqs()[0] == v),
        CrossOverFreq::F80 => assert(cross_over_freqs()[1] == v),
        CrossOverFreq::F95 => assert(cross_over_freqs()[2] == v),
        CrossOverFreq::F110 => assert(cross_over_freqs()[3] == v),
        CrossOverFreq::F115 => assert(cross_over_freqs()[4] == v),
        CrossOverFreq::F120 => assert(cross_over_freqs()[5] == v),
    }
}

/// Serialize the value as its position at `pos`.
pub fn serialize_cross_over_freq(v: &CrossOverFreq, raw: &mut [u8], pos: usize) -> (r: Result<(), String>)
    requires
        pos + 4 <= old(raw)@.len(),
    ensures
        r.is_ok(),
        final(raw)@ == put_be_quad(old(raw)@, pos as int, position_of(cross_over_freqs(), *v) as u32),
        final(raw)@.len() == old(raw)@.len(),
{
    proof {
        lemma_cross_over_freqs_contains(*v);
    }
    serialize_position(cross_over_freqs_exec(), v, raw, pos, "cross over frequency")
}

/// Deserialize the value from its position at `pos`.
pub fn deserialize_cross_over_freq(v: &mut CrossOverFreq, raw: &[u8], pos: usize) -> (r: Result<(), String>)
    requires
        pos + 4 <= raw@.len(),
    ensures
        r.is_ok() <==> (be_quad_at(raw@, pos as int) as int) < cross_over_freqs().len(),
        r.is_ok() ==> *final(v) == cross_over_freqs()[be_quad_at(raw@, pos as int) as int],
        r.is_err() ==> *final(v) == *old(v),
{
    deserialize_position(cross_over_freqs_exec(), v, raw, pos, "cross over frequency")
}

/// The frequency above cross over frequency into main channel.
#[derive(Debug, Copy, Clone, PartialEq, Eq, Structural)]
pub enum HighPassFreq {
    /// Off.
    Off,
    /// Above 12 Hz per octave.
    Above12,
    /// Above 24 Hz per octave.
    Above24,
}

impl Default for HighPassFreq {
    fn default() -> (r: Self)
        ensures
            r == HighPassFreq::Off,
    {
        HighPassFreq::Off
    }
}

impl TableEntry for HighPassFreq {
    fn same(&self, other: &Self) -> (r: bool) {
        *self == *other
    }
}

/// The order of the values on the wire.
pub open spec fn high_pass_freqs() -> Seq<HighPassFreq> {
    seq![
        HighPassFreq::Off,
        HighPassFreq::Above12,
        HighPassFreq::Above24,
    ]
}

/// The entries of `high_pass_freqs` in their order; the place of an entry is the code which stands for it.
pub proof fn lemma_high_pass_freqs_order()
    ensures
        high_pass_freqs().len() == 3,
        high_pass_freqs()[0] == HighPassFreq::Off,
        high_pass_freqs()[1] == HighPassFreq::Above12,
        high_pass_freqs()[2] == HighPassFreq::Above24,
{
}

fn high_pass_freqs_exec() -> (r: &'static [HighPassFreq])
    ensures
        r@ == high_pass_freqs(),
{
    &[
        HighPassFreq::Off,
        HighPassFreq::Above12,
        HighPassFreq::Above24,
    ]
}

/// Every value has its place on the wire.
pub proof fn lemma_high_pass_freqs_contains(v: HighPassFreq)
    ensures
        high_pass_freqs().contains(v),
{
    match v {
        HighPassFreq::Off => assert(high_pass_freqs()[0] == v),
        HighPassFreq::Above12 => assert(high_pass_freqs()[1] == v),
        HighPassFreq::Above24 => assert(high_pass_freqs()[2] == v),
    }
}

/// Serialize the value as its position at `pos`.
pub fn serialize_high_pass_freq(v: &HighPassFreq, raw: &mut [u8], pos: usize) -> (r: Result<(), String>)
    requires
        pos + 4 <= old(raw)@.len(),
    ensures
        r.is_ok(),
        final(raw)@ == put_be_quad(old(raw)@, pos as int, position_of(high_pass_freqs(), *v) as u32),
        final(raw)@.len() == old(raw)@.len(),
{
    proof {
        lemma_high_pass_freqs_contains(*v);
    }
    serialize_position(high_pass_freqs_exec(), v, raw, pos, "high pass frequency")
}

/// Deserialize the value from its position at `pos`.
pub fn deserialize_high_pass_freq(v: &mut HighPassFreq, raw: &[u8], pos: usize) -> (r: Result<(), String>)
    requires
        pos + 4 <= raw@.len(),
    ensures
        r.is_ok() <==> (be_quad_at(raw@, pos as int) as int) < high_pass_freqs().len(),
        r.is_ok() ==> *final(v) == high_pass_freqs()[be_quad_at(raw@, pos as int) as int],
        r.is_err() ==> *final(v) == *old(v),
{
    deserialize_position(high_pass_freqs_exec(), v, raw, pos, "high pass frequency")
}

/// The frequency below cross over frequency into LFE channel.
#[derive(Debug, Copy, Clone, PartialEq, Eq, Structural)]
pub enum LowPassFreq {
    /// Below 12 Hz per octave.
    Below12,
    /// Below 24 Hz per octave.
    Below24,
}

impl Default for LowPassFreq {
    fn default() -> (r: Self)
        ensures
            r == LowPassFreq::Below12,
    {
        LowPassFreq::Below12
    }
}

/// The code of frequency of low pass filter.
pub open spec fn low_pass_freq_code(freq: LowPassFreq) -> u32 {
    match freq {
        LowPassFreq::Below12 => 1,
        LowPassFreq::Below24 => 2,
    }
}

/// Each value of `LowPassFreq` has its own value in `low_pass_freq_code`, as the device knows it.
pub proof fn lemma_low_pass_freq_code_table()
    ensures
        low_pass_freq_code(LowPassFreq::Below12) == 1,
        low_pass_freq_code(LowPassFreq::Below24) == 2,
{
}

/// Whether the code stands for a frequency of low pass filter.
pub open spec fn low_pass_freq_known(val: u32) -> bool {
    val == 1 || val == 2
}

/// The frequency of low pass filter which the known code stands for.
pub open spec fn low_pass_freq_of(val: u32) -> LowPassFreq {
    if val == 1 {
        LowPassFreq::Below12
    } else {
        LowPassFreq::Below24
    }
}

/// Each value which the device uses is read by `low_pass_freq_of` as its own `LowPassFreq`.
pub proof fn lemma_low_pass_freq_of_table()
    ensures
        low_pass_freq_of(1) == LowPassFreq::Below12,
{
}

/// Serialize the frequency of low pass filter as its code at `pos`.
pub fn serialize_low_pass_freq(freq: &LowPassFreq, raw: &mut [u8], pos: usize) -> (r: Result<(), String>)
    requires
        pos + 4 <= old(raw)@.len(),
    ensures
        r.is_ok(),
        final(raw)@ == put_be_quad(old(raw)@, pos as int, low_pass_freq_code(*freq)),
        final(raw)@.len() == old(raw)@.len(),
{
    let val: u32 = match freq {
        LowPassFreq::Below12 => 1,
        LowPassFreq::Below24 => 2,
    };
    write_be_quad(raw, pos, val);
    Ok(())
}

/// Deserialize the frequency of low pass filter from its code at `pos`; an unknown code is an
/// error.
pub fn deserialize_low_pass_freq(freq: &mut LowPassFreq, raw: &[u8], pos: usize) -> (r: Result<(), String>)
    requires
        pos + 4 <= raw@.len(),
    ensures
        r.is_ok() <==> low_pass_freq_known(be_quad_at(raw@, pos as int)),
        r.is_ok() ==> *final(freq) == low_pass_freq_of(be_quad_at(raw@, pos as int)),
        r.is_err() ==> *final(freq) == *old(freq),
{
    let val = read_be_quad(raw, pos);
    if val == 1 {
        *freq = LowPassFreq::Below12;
        Ok(())
    } else if val == 2 {
        *freq = LowPassFreq::Below24;
        Ok(())
    } else {
        Err(unknown_low_pass_freq_message(val))
    }
}

/// The message for a code which stands for no frequency of low pass filter.
///
/// Formatted by `std::format!`; the contract claims nothing of the text.
#[verifier::external_body]
fn unknown_low_pass_freq_message(val: u32) -> String {
    format!("low pass frequency not found for value {}", val)
}

/// A frequency of low pass filter is read back from its code.
pub proof fn lemma_low_pass_freq_roundtrip(freq: LowPassFreq)
    ensures
        low_pass_freq_known(low_pass_freq_code(freq)),
        low_pass_freq_of(low_pass_freq_code(freq)) == freq,
{
}

/// The maximum number of surround channel of which a output group consists.
pub const STUDIO_MAX_SURROUND_CHANNELS: usize = 8;

/// The number of pairs of physical output.
pub const STUDIO_PHYS_OUT_PAIR_COUNT: usize = 11;

/// The number of channels of physical output.
pub const STUDIO_PHYS_OUT_CHANNEL_COUNT: usize = STUDIO_PHYS_OUT_PAIR_COUNT * 2;

/// The number of groups to aggregate several outputs for surround channels.
pub const STUDIO_OUTPUT_GROUP_COUNT: usize = 3;

/// The group to aggregate several outputs for surround channels.
#[derive(Default, Debug, Copy, Clone, PartialEq, Eq)]
pub struct OutGroup {
    /// Assignment of physical outputs to the group.
    pub assigned_phys_outs: [bool; STUDIO_PHYS_OUT_CHANNEL_COUNT],
    /// Whether to enable bass management.
    pub bass_management: bool,
    /// The sub channel to Low Frequency Effect (LFE).
    pub sub_channel: Option<usize>,
    /// The frequency above which signal is to main , below which signal is to Low Frequency Effect
    /// (LFE).
    pub main_cross_over_freq: CrossOverFreq,
    /// Gain for signal from main to Low Frequency Effect (LFE).
    pub main_level_to_sub: i32,
    /// Gain for signal from sub channel to Low Frequency Effect (LFE).
    pub sub_level_to_sub: i32,
    /// Frequency of high pass filter for the signal of main channel.
    pub main_filter_for_main: HighPassFreq,
    /// Frequency of low pass filter for the signal from main channel to sub channel.
    pub main_filter_for_sub: LowPassFreq,
}

/// The size of serialized output group.
pub const OUT_GROUP_SIZE: usize = 36;

/// The number of switches on among the first `n`.
pub open spec fn count_on(flags: Seq<bool>, n: nat) -> nat
    decreases n,
{
    if n == 0 {
        0
    } else {
        count_on(flags, (n - 1) as nat) + if flags[n - 1] {
            1nat
        } else {
            0nat
        }
    }
}

/// The switches which stay on when at most `limit` of them are taken in order; the hardware
/// freezes when more than its number of surround channels are assigned.
pub open spec fn first_on(flags: Seq<bool>, limit: nat) -> Seq<bool> {
    Seq::new(flags.len(), |i: int| flags[i] && count_on(flags, i as nat) < limit)
}

/// The bits of the sub channel.
pub open spec fn sub_channel_bits(sub: Option<usize>) -> u32 {
    match sub {
        Some(pos) => 1u32 << (pos as u32),
        None => 0,
    }
}

/// The shift for the sub channel stays within a quadlet.
pub open spec fn out_group_fits(group: OutGroup) -> bool {
    group.sub_channel matches Some(pos) ==> pos < 32
}

/// The bytes after serializing the output group at `pos`.
pub open spec fn put_out_group(s: Seq<u8>, pos: int, group: OutGroup) -> Seq<u8> {
    let s = put_be_quad(
        s,
        pos,
        flags_mask(first_on(group.assigned_phys_outs@, STUDIO_MAX_SURROUND_CHANNELS as nat), 22),
    );
    let s = put_be_bool(s, pos + 4, group.bass_management);
    let s = put_be_quad(s, pos + 12, sub_channel_bits(group.sub_channel));
    let s = put_be_quad(s, pos + 16, position_of(cross_over_freqs(), group.main_cross_over_freq) as u32);
    let s = put_be_i32(s, pos + 20, group.main_level_to_sub);
    let s = put_be_i32(s, pos + 24, group.sub_level_to_sub);
    let s = put_be_quad(s, pos + 28, position_of(high_pass_freqs(), group.main_filter_for_main) as u32);
    put_be_quad(s, pos + 32, low_pass_freq_code(group.main_filter_for_sub))
}

/// Serialize the output group at `pos`; only the first assigned outputs up to the maximum number
/// of surround channels are serialized.
pub fn serialize_out_group(group: &OutGroup, raw: &mut [u8], pos: usize) -> (r: Result<(), String>)
    requires
        pos + OUT_GROUP_SIZE <= old(raw)@.len(),
        out_group_fits(*group),
    ensures
        r.is_ok(),
        final(raw)@ == put_out_group(old(raw)@, pos as int, *group),
        final(raw)@.len() == old(raw)@.len(),
{
    let len = raw.len();
    let mut taken = [false; STUDIO_PHYS_OUT_CHANNEL_COUNT];
    let mut count: usize = 0;
    let mut i: usize = 0;
    while i < STUDIO_PHYS_OUT_CHANNEL_COUNT
        invariant
            i <= STUDIO_PHYS_OUT_CHANNEL_COUNT,
            count <= STUDIO_MAX_SURROUND_CHANNELS,
            count == if count_on(group.assigned_phys_outs@, i as nat) < STUDIO_MAX_SURROUND_CHANNELS {
                count_on(group.assigned_phys_outs@, i as nat)
            } else {
                STUDIO_MAX_SURROUND_CHANNELS as nat
            },
            taken@.len() == STUDIO_PHYS_OUT_CHANNEL_COUNT,
            forall|k: int| i <= k < STUDIO_PHYS_OUT_CHANNEL_COUNT ==> !#[trigger] taken@[k],
            group.assigned_phys_outs@.len() == STUDIO_PHYS_OUT_CHANNEL_COUNT,
            forall|k: int| 0 <= k < i ==> #[trigger] taken@[k] == first_on(group.assigned_phys_outs@, STUDIO_MAX_SURROUND_CHANNELS as nat)[k],
        decreases STUDIO_PHYS_OUT_CHANNEL_COUNT - i,
    {
        assert(count_on(group.assigned_phys_outs@, (i + 1) as nat) == count_on(group.assigned_phys_outs@, i as nat) + if group.assigned_phys_outs@[i as int] { 1nat } else { 0nat });
        if group.assigned_phys_outs[i] && count < STUDIO_MAX_SURROUND_CHANNELS {
            taken[i] = true;
            count = count + 1;
        }
        i = i + 1;
    }
    proof {
        assert(taken@ =~= first_on(group.assigned_phys_outs@, STUDIO_MAX_SURROUND_CHANNELS as nat));
    }
    write_be_quad(raw, pos, flags_to_mask(&taken, STUDIO_PHYS_OUT_CHANNEL_COUNT));
    write_be_bool(raw, pos + 4, group.bass_management);
    let val: u32 = match group.sub_channel {
        Some(p) => 1u32 << (p as u32),
        None => 0,
    };
    write_be_quad(raw, pos + 12, val);
    serialize_cross_over_freq(&group.main_cross_over_freq, raw, pos + 16)?;
    write_be_i32(raw, pos + 20, group.main_level_to_sub);
    write_be_i32(raw, pos + 24, group.sub_level_to_sub);
    serialize_high_pass_freq(&group.main_filter_for_main, raw, pos + 28)?;
    serialize_low_pass_freq(&group.main_filter_for_sub, raw, pos + 32)?;
    Ok(())
}

/// Whether the output group at `pos` can be deserialized.
pub open spec fn out_group_decodable(raw: Seq<u8>, pos: int) -> bool {
    &&& (be_quad_at(raw, pos + 16) as int) < cross_over_freqs().len()
    &&& (be_quad_at(raw, pos + 28) as int) < high_pass_freqs().len()
    &&& low_pass_freq_known(be_quad_at(raw, pos + 32))
}

/// The sub channel which the bits stand for: the lowest bit set among the channels.
pub open spec fn sub_channel_of(val: u32) -> Option<usize> {
    match lowest_flag_from(val, 0, 22) {
        Some(p) => Some(p as usize),
        None => None,
    }
}

/// `new` is `old` after deserializing the output group at `pos`.
pub open spec fn out_group_decoded(raw: Seq<u8>, pos: int, old: OutGroup, new: OutGroup) -> bool {
    let c = (be_quad_at(raw, pos + 16) as int) < cross_over_freqs().len();
    let h = c && (be_quad_at(raw, pos + 28) as int) < high_pass_freqs().len();
    let l = h && low_pass_freq_known(be_quad_at(raw, pos + 32));
    &&& forall|i: int|
        0 <= i < 22 ==> #[trigger] new.assigned_phys_outs@[i] == has_flag(
            be_quad_at(raw, pos),
            1u32 << (i as u32),
        )
    &&& new.bass_management == be_bool_at(raw, pos + 4)
    &&& new.sub_channel == sub_channel_of(be_quad_at(raw, pos + 12))
    &&& new.main_cross_over_freq == if c {
        cross_over_freqs()[be_quad_at(raw, pos + 16) as int]
    } else {
        old.main_cross_over_freq
    }
    &&& new.main_level_to_sub == if c {
        be_i32_at(raw, pos + 20)
    } else {
        old.main_level_to_sub
    }
    &&& new.sub_level_to_sub == if c {
        be_i32_at(raw, pos + 24)
    } else {
        old.sub_level_to_sub
    }
    &&& new.main_filter_for_main == if h {
        high_pass_freqs()[be_quad_at(raw, pos + 28) as int]
    } else {
        old.main_filter_for_main
    }
    &&& new.main_filter_for_sub == if l {
        low_pass_freq_of(be_quad_at(raw, pos + 32))
    } else {
        old.main_filter_for_sub
    }
}

/// Deserialize the output group at `pos`.
pub fn deserialize_out_group(group: &mut OutGroup, raw: &[u8], pos: usize) -> (r: Result<(), String>)
    requires
        pos + OUT_GROUP_SIZE <= raw@.len(),
    ensures
        r.is_ok() <==> out_group_decodable(raw@, pos as int),
        out_group_decoded(raw@, pos as int, *old(group), *final(group)),
{
    let len = raw.len();
    let val = read_be_quad(raw, pos);
    mask_to_flags(&mut group.assigned_phys_outs, val, STUDIO_PHYS_OUT_CHANNEL_COUNT);
    group.bass_management = read_be_bool(raw, pos + 4);
    let val = read_be_quad(raw, pos + 12);
    group.sub_channel = lowest_flag(val, STUDIO_PHYS_OUT_CHANNEL_COUNT);
    deserialize_cross_over_freq(&mut group.main_cross_over_freq, raw, pos + 16)?;
    group.main_level_to_sub = read_be_i32(raw, pos + 20);
    group.sub_level_to_sub = read_be_i32(raw, pos + 24);
    deserialize_high_pass_freq(&mut group.main_filter_for_main, raw, pos + 28)?;
    deserialize_low_pass_freq(&mut group.main_filter_for_sub, raw, pos + 32)?;
    Ok(())
}

/// The number of switches on grows with the number of switches counted.
pub proof fn lemma_count_on_monotone(flags: Seq<bool>, i: nat, n: nat)
    requires
        i <= n,
        n <= flags.len(),
    ensures
        count_on(flags, i) <= count_on(flags, n),
        i < n && flags[i as int] ==> count_on(flags, i) < count_on(flags, n),
    decreases n - i,
{
    if i < n {
        lemma_count_on_monotone(flags, i, (n - 1) as nat);
        if i < n - 1 && flags[i as int] {
            lemma_count_on_monotone(flags, i + 1, (n - 1) as nat);
        }
    }
}

/// Deserializing what was serialized for the output group gives it back, when no more outputs
/// than the maximum number of surround channels are assigned and its sub channel is one of the
/// channels.
#[verifier::rlimit(60)]
pub proof fn lemma_out_group_roundtrip(group: OutGroup, s: Seq<u8>, pos: int, old: OutGroup, new: OutGroup)
    requires
        0 <= pos,
        pos + OUT_GROUP_SIZE <= s.len(),
        count_on(group.assigned_phys_outs@, 22) <= STUDIO_MAX_SURROUND_CHANNELS,
        group.sub_channel matches Some(p) ==> p < 22,
    ensures
        put_out_group(s, pos, group).len() == s.len(),
        out_group_decodable(put_out_group(s, pos, group), pos),
        out_group_decoded(put_out_group(s, pos, group), pos, old, new) ==> new == group,
{
    broadcast use group_quad_lemmas;
    let flags = group.assigned_phys_outs@;
    let t = put_out_group(s, pos, group);
    lemma_cross_over_freqs_contains(group.main_cross_over_freq);
    lemma_position_of_contained(cross_over_freqs(), group.main_cross_over_freq);
    lemma_high_pass_freqs_contains(group.main_filter_for_main);
    lemma_position_of_contained(high_pass_freqs(), group.main_filter_for_main);
    lemma_low_pass_freq_roundtrip(group.main_filter_for_sub);
    let mask = flags_mask(first_on(flags, STUDIO_MAX_SURROUND_CHANNELS as nat), 22);
    assert(be_quad_at(t, pos) == mask);
    assert forall|i: int| 0 <= i < 22 implies has_flag(mask, 1u32 << (i as u32)) == flags[i] by {
        lemma_flags_mask(first_on(flags, STUDIO_MAX_SURROUND_CHANNELS as nat), 22, i as u32);
        lemma_count_on_monotone(flags, i as nat, 22);
        lemma_count_on_monotone(flags, (i + 1) as nat, 22);
    }
    match group.sub_channel {
        Some(p) => {
            lemma_lowest_flag_single(p as nat, 0, 22);
        },
        None => {
            lemma_lowest_flag_zero(0, 22);
        },
    }
    if out_group_decoded(t, pos, old, new) {
        assert(new.assigned_phys_outs@ =~= group.assigned_phys_outs@);
        assert(new.assigned_phys_outs == group.assigned_phys_outs);
    }
}

/// Data of physical out segment.
#[derive(Default, Debug, Copy, Clone, PartialEq, Eq)]
pub struct StudioPhysOut {
    /// The configuration for master output
    pub master_out: OutPair,
    /// The selected output group.
    pub selected_out_grp: usize,
    /// The source for pairs of physical output. It includes below pairs in
    /// the order:
    /// - main out 1/2
    /// - phone out 1/2
    /// - line out 5/6, 7/8, 9/10, 11/12,
    /// - S/PDIF out 1/2,
    /// - ADAT out 1/2, 3/4, 5/6, 7/8,
    pub out_pair_srcs: [PhysOutPairSrc; STUDIO_PHYS_OUT_PAIR_COUNT],
    /// The state of assignment to output group.
    pub out_assign_to_grp: [bool; STUDIO_PHYS_OUT_CHANNEL_COUNT],
    /// Whether to mute any source to the physical output.
    pub out_mutes: [bool; STUDIO_PHYS_OUT_CHANNEL_COUNT],
    /// The settings of each group for surround channels.
    pub out_grps: [OutGroup; STUDIO_OUTPUT_GROUP_COUNT],
}

impl TcKonnektSegmentSerdes<StudioPhysOut> for Studiok48Protocol {
    const NAME: &'static str = "physical-output";
    const OFFSET: usize = 0x03dc;
    const SIZE: usize = 440;

    open spec fn segment_fits(params: StudioPhysOut) -> bool {
        phys_out_pair_src_fits(params.out_pair_srcs[0]) && phys_out_pair_src_fits(params.out_pair_srcs[1]) && phys_out_pair_src_fits(params.out_pair_srcs[2]) && phys_out_pair_src_fits(params.out_pair_srcs[3]) && phys_out_pair_src_fits(params.out_pair_srcs[4]) && phys_out_pair_src_fits(params.out_pair_srcs[5]) && phys_out_pair_src_fits(params.out_pair_srcs[6]) && phys_out_pair_src_fits(params.out_pair_srcs[7]) && phys_out_pair_src_fits(params.out_pair_srcs[8]) && phys_out_pair_src_fits(params.out_pair_srcs[9]) && phys_out_pair_src_fits(params.out_pair_srcs[10]) && out_group_fits(params.out_grps[0]) && out_group_fits(params.out_grps[1]) && out_group_fits(params.out_grps[2])
    }

    fn serialize(params: &StudioPhysOut, raw: &mut [u8]) -> (r: Result<(), String>)
        ensures
            r.is_ok() <==> (true),
            final(raw)@ == put_out_group(put_out_group(put_out_group(put_be_quad(put_be_quad(put_be_quad(put_phys_out_pair_src(put_phys_out_pair_src(put_phys_out_pair_src(put_phys_out_pair_src(put_phys_out_pair_src(put_phys_out_pair_src(put_phys_out_pair_src(put_phys_out_pair_src(put_phys_out_pair_src(put_phys_out_pair_src(put_phys_out_pair_src(put_out_pair(old(raw)@, 0, params.master_out), 16, params.out_pair_srcs[0]), 44, params.out_pair_srcs[1]), 72, params.out_pair_srcs[2]), 100, params.out_pair_srcs[3]), 128, params.out_pair_srcs[4]), 156, params.out_pair_srcs[5]), 184, params.out_pair_srcs[6]), 212, params.out_pair_srcs[7]), 240, params.out_pair_srcs[8]), 268, params.out_pair_srcs[9]), 296, params.out_pair_srcs[10]), 12, params.selected_out_grp as u32), 324, flags_mask(params.out_assign_to_grp@, 22)), 328, flags_mask(params.out_mutes@, 22)), 332, params.out_grps[0]), 368, params.out_grps[1]), 404, params.out_grps[2]),
    {
        let len = raw.len();
        serialize_out_pair(&params.master_out, raw, 0)?;
        serialize_phys_out_pair_src(&params.out_pair_srcs[0], raw, 16)?;
        serialize_phys_out_pair_src(&params.out_pair_srcs[1], raw, 44)?;
        serialize_phys_out_pair_src(&params.out_pair_srcs[2], raw, 72)?;
        serialize_phys_out_pair_src(&params.out_pair_srcs[3], raw, 100)?;
        serialize_phys_out_pair_src(&params.out_pair_srcs[4], raw, 128)?;
        serialize_phys_out_pair_src(&params.out_pair_srcs[5], raw, 156)?;
        serialize_phys_out_pair_src(&params.out_pair_srcs[6], raw, 184)?;
        serialize_phys_out_pair_src(&params.out_pair_srcs[7], raw, 212)?;
        serialize_phys_out_pair_src(&params.out_pair_srcs[8], raw, 240)?;
        serialize_phys_out_pair_src(&params.out_pair_srcs[9], raw, 268)?;
        serialize_phys_out_pair_src(&params.out_pair_srcs[10], raw, 296)?;
        write_be_quad(raw, 12, params.selected_out_grp as u32);
        write_be_quad(raw, 324, flags_to_mask(&params.out_assign_to_grp, 22));
        write_be_quad(raw, 328, flags_to_mask(&params.out_mutes, 22));
        serialize_out_group(&params.out_grps[0], raw, 332)?;
        serialize_out_group(&params.out_grps[1], raw, 368)?;
        serialize_out_group(&params.out_grps[2], raw, 404)?;
        Ok(())
    }

    fn deserialize(params: &mut StudioPhysOut, raw: &[u8]) -> (r: Result<(), String>)
        ensures
            r.is_ok() <==> (out_group_decodable(raw@, 332) && out_group_decodable(raw@, 368) && out_group_decodable(raw@, 404)),
            out_pair_decoded(raw@, 0, old(params).master_out, final(params).master_out),
            phys_out_pair_src_decoded(raw@, 16, old(params).out_pair_srcs[0], final(params).out_pair_srcs[0]),
            phys_out_pair_src_decoded(raw@, 44, old(params).out_pair_srcs[1], final(params).out_pair_srcs[1]),
            phys_out_pair_src_decoded(raw@, 72, old(params).out_pair_srcs[2], final(params).out_pair_srcs[2]),
            phys_out_pair_src_decoded(raw@, 100, old(params).out_pair_srcs[3], final(params).out_pair_srcs[3]),
            phys_out_pair_src_decoded(raw@, 128, old(params).out_pair_srcs[4], final(params).out_pair_srcs[4]),
            phys_out_pair_src_decoded(raw@, 156, old(params).out_pair_srcs[5], final(params).out_pair_srcs[5]),
            phys_out_pair_src_decoded(raw@, 184, old(params).out_pair_srcs[6], final(params).out_pair_srcs[6]),
            phys_out_pair_src_decoded(raw@, 212, old(params).out_pair_srcs[7], final(params).out_pair_srcs[7]),
            phys_out_pair_src_decoded(raw@, 240, old(params).out_pair_srcs[8], final(params).out_pair_srcs[8]),
            phys_out_pair_src_decoded(raw@, 268, old(params).out_pair_srcs[9], final(params).out_pair_srcs[9]),
            phys_out_pair_src_decoded(raw@, 296, old(params).out_pair_srcs[10], final(params).out_pair_srcs[10]),
            (forall|i: int| 0 <= i < 22 ==> #[trigger] final(params).out_assign_to_grp@[i] == has_flag(be_quad_at(raw@, 12), 1u32 << (i as u32))),
            final(params).selected_out_grp == be_quad_at(raw@, 324) as usize,
            (forall|i: int| 0 <= i < 22 ==> #[trigger] final(params).out_mutes@[i] == has_flag(be_quad_at(raw@, 328), 1u32 << (i as u32))),
            out_group_decoded(raw@, 332, old(params).out_grps[0], final(params).out_grps[0]),
            (out_group_decodable(raw@, 332)) ==> out_group_decoded(raw@, 368, old(params).out_grps[1], final(params).out_grps[1]),
            !(out_group_decodable(raw@, 332)) ==> final(params).out_grps[1] == old(params).out_grps[1],
            (out_group_decodable(raw@, 332) && out_group_decodable(raw@, 368)) ==> out_group_decoded(raw@, 404, old(params).out_grps[2], final(params).out_grps[2]),
            !(out_group_decodable(raw@, 332) && out_group_decodable(raw@, 368)) ==> final(params).out_grps[2] == old(params).out_grps[2],
    {
        let len = raw.len();
        let _ = deserialize_out_pair(&mut params.master_out, raw, 0);
        let _ = deserialize_phys_out_pair_src(&mut params.out_pair_srcs[0], raw, 16);
        let _ = deserialize_phys_out_pair_src(&mut params.out_pair_srcs[1], raw, 44);
        let _ = deserialize_phys_out_pair_src(&mut params.out_pair_srcs[2], raw, 72);
        let _ = deserialize_phys_out_pair_src(&mut params.out_pair_srcs[3], raw, 100);
        let _ = deserialize_phys_out_pair_src(&mut params.out_pair_srcs[4], raw, 128);
        let _ = deserialize_phys_out_pair_src(&mut params.out_pair_srcs[5], raw, 156);
        let _ = deserialize_phys_out_pair_src(&mut params.out_pair_srcs[6], raw, 184);
        let _ = deserialize_phys_out_pair_src(&mut params.out_pair_srcs[7], raw, 212);
        let _ = deserialize_phys_out_pair_src(&mut params.out_pair_srcs[8], raw, 240);
        let _ = deserialize_phys_out_pair_src(&mut params.out_pair_srcs[9], raw, 268);
        let _ = deserialize_phys_out_pair_src(&mut params.out_pair_srcs[10], raw, 296);
        mask_to_flags(&mut params.out_assign_to_grp, read_be_quad(raw, 12), 22);
        params.selected_out_grp = read_be_quad(raw, 324) as usize;
        mask_to_flags(&mut params.out_mutes, read_be_quad(raw, 328), 22);
        deserialize_out_group(&mut params.out_grps[0], raw, 332)?;
        deserialize_out_group(&mut params.out_grps[1], raw, 368)?;
        deserialize_out_group(&mut params.out_grps[2], raw, 404)?;
        Ok(())
    }
}

/// The number of channel strip effects.
pub const STUDIO_CH_STRIP_COUNT: usize = 4;

/// Configuration for reverb effect.
#[derive(Default, Debug, Copy, Clone, PartialEq, Eq)]
pub struct StudioReverbState(pub ReverbState);

impl TcKonnektSegmentSerdes<StudioReverbState> for Studiok48Protocol {
    const NAME: &'static str = "reverb-state";
    const OFFSET: usize = 0x0594;
    const SIZE: usize = REVERB_STATE_SIZE;

    open spec fn segment_fits(params: StudioReverbState) -> bool {
        true
    }

    fn serialize(params: &StudioReverbState, raw: &mut [u8]) -> (r: Result<(), String>)
        ensures
            r.is_ok() <==> (true),
            final(raw)@ == put_reverb_state(old(raw)@, 0, params.0),
    {
        let len = raw.len();
        serialize_reverb_state(&params.0, raw, 0)?;
        Ok(())
    }

    fn deserialize(params: &mut StudioReverbState, raw: &[u8]) -> (r: Result<(), String>)
        ensures
            r.is_ok() <==> (reverb_state_decodable(raw@, 0)),
            reverb_state_decoded(raw@, 0, old(params).0, final(params).0),
    {
        let len = raw.len();
        deserialize_reverb_state(&mut params.0, raw, 0)?;
        Ok(())
    }
}

/// Configuration for channel strip effect.
#[derive(Default, Debug, Copy, Clone, PartialEq, Eq)]
pub struct StudioChStripStates(pub [ChStripState; STUDIO_CH_STRIP_COUNT]);

impl TcKonnektSegmentSerdes<StudioChStripStates> for Studiok48Protocol {
    const NAME: &'static str = "channel-strip-state";
    const OFFSET: usize = 0x05dc;
    const SIZE: usize = CH_STRIP_STATE_SIZE * STUDIO_CH_STRIP_COUNT + 8;

    open spec fn segment_fits(params: StudioChStripStates) -> bool {
        true
    }

    fn serialize(params: &StudioChStripStates, raw: &mut [u8]) -> (r: Result<(), String>)
        ensures
            r.is_ok(),
            final(raw)@ == put_ch_strip_states(old(raw)@, params.0@),
    {
        serialize_ch_strip_states(params.0.as_slice(), raw)
    }

    fn deserialize(params: &mut StudioChStripStates, raw: &[u8]) -> (r: Result<(), String>)
        ensures
            r.is_ok() <==> ch_strip_states_decodable(raw@, 4),
            forall|i: int|
                0 <= i < 4 ==> if ch_strip_states_decodable(raw@, i) {
                    ch_strip_state_decoded(
                        raw@,
                        ch_strip_state_pos(i),
                        old(params).0@[i],
                        #[trigger] final(params).0@[i],
                    )
                } else {
                    final(params).0@[i] == old(params).0@[i]
                },
    {
        let mut states = [params.0[0], params.0[1], params.0[2], params.0[3]];
        let r = deserialize_ch_strip_states(&mut states, raw);
        params.0 = states;
        r
    }
}

/// State of jack sense for analog input.
#[derive(Debug, Copy, Clone, PartialEq, Eq, Structural)]
pub enum StudioAnalogJackState {
    /// Select front jack instead of rear.
    FrontSelected,
    /// Detect plug insertion in front jack.
    FrontInserted,
    /// Select rear jack instead of front.
    RearSelected,
    /// Detect plug insertion in rear jack.
    RearInserted,
}

impl Default for StudioAnalogJackState {
    fn default() -> (r: Self)
        ensures
            r == StudioAnalogJackState::FrontSelected,
    {
        StudioAnalogJackState::FrontSelected
    }
}

/// The code of state of jack sense.
pub open spec fn analog_jack_state_code(state: StudioAnalogJackState) -> u32 {
    match state {
        StudioAnalogJackState::FrontSelected => 5,
        StudioAnalogJackState::FrontInserted => 6,
        StudioAnalogJackState::RearSelected => 7,
        StudioAnalogJackState::RearInserted => 8,
    }
}

/// The state of jack sense which the code stands for; unknown codes stand for the front jack
/// selected.
pub open spec fn analog_jack_state_of(val: u32) -> StudioAnalogJackState {
    if val == 8 {
        StudioAnalogJackState::RearInserted
    } else if val == 7 {
        StudioAnalogJackState::RearSelected
    } else if val == 6 {
        StudioAnalogJackState::FrontInserted
    } else {
        StudioAnalogJackState::FrontSelected
    }
}

/// The codes of the states of jack sense: front selected 5, front inserted 6, rear selected 7 and
/// rear inserted 8; each of these codes reads back as its state.
pub proof fn lemma_analog_jack_state_codes()
    ensures
        analog_jack_state_code(StudioAnalogJackState::FrontSelected) == 5,
        analog_jack_state_code(StudioAnalogJackState::FrontInserted) == 6,
        analog_jack_state_code(StudioAnalogJackState::RearSelected) == 7,
        analog_jack_state_code(StudioAnalogJackState::RearInserted) == 8,
        analog_jack_state_of(5) == StudioAnalogJackState::FrontSelected,
        analog_jack_state_of(6) == StudioAnalogJackState::FrontInserted,
        analog_jack_state_of(7) == StudioAnalogJackState::RearSelected,
        analog_jack_state_of(8) == StudioAnalogJackState::RearInserted,
{
}

/// Serialize the state of jack sense as its code at `pos`.
pub fn serialize_analog_jack_state(state: &StudioAnalogJackState, raw: &mut [u8], pos: usize) -> (r: Result<(), String>)
    requires
        pos + 4 <= old(raw)@.len(),
    ensures
        r.is_ok(),
        final(raw)@ == put_be_quad(old(raw)@, pos as int, analog_jack_state_code(*state)),
        final(raw)@.len() == old(raw)@.len(),
{
    let val: u32 = match state {
        StudioAnalogJackState::FrontSelected => 5,
        StudioAnalogJackState::FrontInserted => 6,
        StudioAnalogJackState::RearSelected => 7,
        StudioAnalogJackState::RearInserted => 8,
    };
    write_be_quad(raw, pos, val);
    Ok(())
}

/// Deserialize the state of jack sense from its code at `pos`.
pub fn deserialize_analog_jack_state(state: &mut StudioAnalogJackState, raw: &[u8], pos: usize) -> (r: Result<(), String>)
    requires
        pos + 4 <= raw@.len(),
    ensures
        r.is_ok(),
        *final(state) == analog_jack_state_of(be_quad_at(raw@, pos as int)),
{
    let val = read_be_quad(raw, pos);
    *state = if val == 8 {
        StudioAnalogJackState::RearInserted
    } else if val == 7 {
        StudioAnalogJackState::RearSelected
    } else if val == 6 {
        StudioAnalogJackState::FrontInserted
    } else {
        StudioAnalogJackState::FrontSelected
    };
    Ok(())
}

/// A state of jack sense is read back from its code.
pub proof fn lemma_analog_jack_state_roundtrip(state: StudioAnalogJackState)
    ensures
        analog_jack_state_of(analog_jack_state_code(state)) == state,
{
}

/// The number of analog inputs which has jack sense.
pub const STUDIO_ANALOG_JACK_STATE_COUNT: usize = 12;

/// Hardware state.
#[derive(Default, Debug, Copy, Clone, PartialEq, Eq)]
pub struct StudioHwState {
    /// The state of analog jack with sense.
    pub analog_jack_states: [StudioAnalogJackState; STUDIO_ANALOG_JACK_STATE_COUNT],
    /// State of headphone.
    pub hp_state: [bool; 2],
    /// State of FireWire LED.
    pub firewire_led: FireWireLedState,
    /// Whether knob of master level is actually effective for volume of master output. This is
    /// needed since the volume is controlled by remote controller as well.
    pub valid_master_level: bool,
}

impl TcKonnektSegmentSerdes<StudioHwState> for Studiok48Protocol {
    const NAME: &'static str = "hardware-state";
    const OFFSET: usize = 0x2008;
    const SIZE: usize = 68;

    open spec fn segment_fits(params: StudioHwState) -> bool {
        true
    }

    fn serialize(params: &StudioHwState, raw: &mut [u8]) -> (r: Result<(), String>)
        ensures
            r.is_ok() <==> (true),
            final(raw)@ == put_be_bool(put_be_quad(put_be_bool(put_be_bool(put_be_quad(put_be_quad(put_be_quad(put_be_quad(put_be_quad(put_be_quad(put_be_quad(put_be_quad(put_be_quad(put_be_quad(put_be_quad(put_be_quad(old(raw)@, 0, analog_jack_state_code(params.analog_jack_states[0])), 4, analog_jack_state_code(params.analog_jack_states[1])), 8, analog_jack_state_code(params.analog_jack_states[2])), 12, analog_jack_state_code(params.analog_jack_states[3])), 16, analog_jack_state_code(params.analog_jack_states[4])), 20, analog_jack_state_code(params.analog_jack_states[5])), 24, analog_jack_state_code(params.analog_jack_states[6])), 28, analog_jack_state_code(params.analog_jack_states[7])), 32, analog_jack_state_code(params.analog_jack_states[8])), 36, analog_jack_state_code(params.analog_jack_states[9])), 40, analog_jack_state_code(params.analog_jack_states[10])), 44, analog_jack_state_code(params.analog_jack_states[11])), 48, params.hp_state[0]), 48, params.hp_state[1]), 56, position_of(fw_led_states(), params.firewire_led) as u32), 60, params.valid_master_level),
    {
        let len = raw.len();
        serialize_analog_jack_state(&params.analog_jack_states[0], raw, 0)?;
        serialize_analog_jack_state(&params.analog_jack_states[1], raw, 4)?;
        serialize_analog_jack_state(&params.analog_jack_states[2], raw, 8)?;
        serialize_analog_jack_state(&params.analog_jack_states[3], raw, 12)?;
        serialize_analog_jack_state(&params.analog_jack_states[4], raw, 16)?;
        serialize_analog_jack_state(&params.analog_jack_states[5], raw, 20)?;
        serialize_analog_jack_state(&params.analog_jack_states[6], raw, 24)?;
        serialize_analog_jack_state(&params.analog_jack_states[7], raw, 28)?;
        serialize_analog_jack_state(&params.analog_jack_states[8], raw, 32)?;
        serialize_analog_jack_state(&params.analog_jack_states[9], raw, 36)?;
        serialize_analog_jack_state(&params.analog_jack_states[10], raw, 40)?;
        serialize_analog_jack_state(&params.analog_jack_states[11], raw, 44)?;
        write_be_bool(raw, 48, params.hp_state[0]);
        write_be_bool(raw, 48, params.hp_state[1]);
        serialize_fw_led_state(&params.firewire_led, raw, 56)?;
        write_be_bool(raw, 60, params.valid_master_level);
        Ok(())
    }

    fn deserialize(params: &mut StudioHwState, raw: &[u8]) -> (r: Result<(), String>)
        ensures
            r.is_ok() <==> ((be_quad_at(raw@, 56) as int) < fw_led_states().len()),
            final(params).analog_jack_states[0] == analog_jack_state_of(be_quad_at(raw@, 0)),
            final(params).analog_jack_states[1] == analog_jack_state_of(be_quad_at(raw@, 4)),
            final(params).analog_jack_states[2] == analog_jack_state_of(be_quad_at(raw@, 8)),
            final(params).analog_jack_states[3] == analog_jack_state_of(be_quad_at(raw@, 12)),
            final(params).analog_jack_states[4] == analog_jack_state_of(be_quad_at(raw@, 16)),
            final(params).analog_jack_states[5] == analog_jack_state_of(be_quad_at(raw@, 20)),
            final(params).analog_jack_states[6] == analog_jack_state_of(be_quad_at(raw@, 24)),
            final(params).analog_jack_states[7] == analog_jack_state_of(be_quad_at(raw@, 28)),
            final(params).analog_jack_states[8] == analog_jack_state_of(be_quad_at(raw@, 32)),
            final(params).analog_jack_states[9] == analog_jack_state_of(be_quad_at(raw@, 36)),
            final(params).analog_jack_states[10] == analog_jack_state_of(be_quad_at(raw@, 40)),
            final(params).analog_jack_states[11] == analog_jack_state_of(be_quad_at(raw@, 44)),
            final(params).hp_state[0] == be_bool_at(raw@, 48),
            final(params).hp_state[1] == be_bool_at(raw@, 52),
            (true && (be_quad_at(raw@, 56) as int) < fw_led_states().len()) ==> final(params).firewire_led == fw_led_states()[be_quad_at(raw@, 56) as int],
            !(true && (be_quad_at(raw@, 56) as int) < fw_led_states().len()) ==> final(params).firewire_led == old(params).firewire_led,
            ((be_quad_at(raw@, 56) as int) < fw_led_states().len()) ==> final(params).valid_master_level == be_bool_at(raw@, 60),
            !((be_quad_at(raw@, 56) as int) < fw_led_states().len()) ==> final(params).valid_master_level == old(params).valid_master_level,
    {
        let len = raw.len();
        deserialize_analog_jack_state(&mut params.analog_jack_states[0], raw, 0)?;
        deserialize_analog_jack_state(&mut params.analog_jack_states[1], raw, 4)?;
        deserialize_analog_jack_state(&mut params.analog_jack_states[2], raw, 8)?;
        deserialize_analog_jack_state(&mut params.analog_jack_states[3], raw, 12)?;
        deserialize_analog_jack_state(&mut params.analog_jack_states[4], raw, 16)?;
        deserialize_analog_jack_state(&mut params.analog_jack_states[5], raw, 20)?;
        deserialize_analog_jack_state(&mut params.analog_jack_states[6], raw, 24)?;
        deserialize_analog_jack_state(&mut params.analog_jack_states[7], raw, 28)?;
        deserialize_analog_jack_state(&mut params.analog_jack_states[8], raw, 32)?;
        deserialize_analog_jack_state(&mut params.analog_jack_states[9], raw, 36)?;
        deserialize_analog_jack_state(&mut params.analog_jack_states[10], raw, 40)?;
        deserialize_analog_jack_state(&mut params.analog_jack_states[11], raw, 44)?;
        params.hp_state[0] = read_be_bool(raw, 48);
        params.hp_state[1] = read_be_bool(raw, 52);
        deserialize_fw_led_state(&mut params.firewire_led, raw, 56)?;
        params.valid_master_level = read_be_bool(raw, 60);
        Ok(())
    }
}

/// Hardware metering for mixer function.
#[derive(Default, Debug, Copy, Clone, PartialEq, Eq)]
pub struct StudioMixerMeter {
    /// Detected signal level of main mixer sources.
    pub src_inputs: [i32; 24],
    /// Detected signal level of main mixer outputs.
    pub mixer_outputs: [i32; 2],
    /// Detected signal level of aux mixer outputs.
    pub aux_outputs: [i32; 4],
}

impl TcKonnektSegmentSerdes<StudioMixerMeter> for Studiok48Protocol {
    const NAME: &'static str = "mixer-meter";
    const OFFSET: usize = 0x20b8;
    const SIZE: usize = 128;

    open spec fn segment_fits(params: StudioMixerMeter) -> bool {
        true
    }

    fn serialize(params: &StudioMixerMeter, raw: &mut [u8]) -> (r: Result<(), String>)
        ensures
            r.is_ok() <==> (true),
            final(raw)@ == put_be_i32(put_be_i32(put_be_i32(put_be_i32(put_be_i32(put_be_i32(put_be_i32(put_be_i32(put_be_i32(put_be_i32(put_be_i32(put_be_i32(put_be_i32(put_be_i32(put_be_i32(put_be_i32(put_be_i32(put_be_i32(put_be_i32(put_be_i32(put_be_i32(put_be_i32(put_be_i32(put_be_i32(put_be_i32(put_be_i32(put_be_i32(put_be_i32(put_be_i32(put_be_i32(old(raw)@, 0, params.src_inputs[0]), 4, params.src_inputs[1]), 8, params.src_inputs[2]), 12, params.src_inputs[3]), 16, params.src_inputs[4]), 20, params.src_inputs[5]), 24, params.src_inputs[6]), 28, params.src_inputs[7]), 32, params.src_inputs[8]), 36, params.src_inputs[9]), 40, params.src_inputs[10]), 44, params.src_inputs[11]), 48, params.src_inputs[12]), 52, params.src_inputs[13]), 56, params.src_inputs[14]), 60, params.src_inputs[15]), 64, params.src_inputs[16]), 68, params.src_inputs[17]), 72, params.src_inputs[18]), 76, params.src_inputs[19]), 80, params.src_inputs[20]), 84, params.src_inputs[21]), 88, params.src_inputs[22]), 92, params.src_inputs[23]), 96, params.mixer_outputs[0]), 100, params.mixer_outputs[1]), 104, params.aux_outputs[0]), 108, params.aux_outputs[1]), 112, params.aux_outputs[2]), 116, params.aux_outputs[3]),
    {
        let len = raw.len();
        write_be_i32(raw, 0, params.src_inputs[0]);
        write_be_i32(raw, 4, params.src_inputs[1]);
        write_be_i32(raw, 8, params.src_inputs[2]);
        write_be_i32(raw, 12, params.src_inputs[3]);
        write_be_i32(raw, 16, params.src_inputs[4]);
        write_be_i32(raw, 20, params.src_inputs[5]);
        write_be_i32(raw, 24, params.src_inputs[6]);
        write_be_i32(raw, 28, params.src_inputs[7]);
        write_be_i32(raw, 32, params.src_inputs[8]);
        write_be_i32(raw, 36, params.src_inputs[9]);
        write_be_i32(raw, 40, params.src_inputs[10]);
        write_be_i32(raw, 44, params.src_inputs[11]);
        write_be_i32(raw, 48, params.src_inputs[12]);
        write_be_i32(raw, 52, params.src_inputs[13]);
        write_be_i32(raw, 56, params.src_inputs[14]);
        write_be_i32(raw, 60, params.src_inputs[15]);
        write_be_i32(raw, 64, params.src_inputs[16]);
        write_be_i32(raw, 68, params.src_inputs[17]);
        write_be_i32(raw, 72, params.src_inputs[18]);
        write_be_i32(raw, 76, params.src_inputs[19]);
        write_be_i32(raw, 80, params.src_inputs[20]);
        write_be_i32(raw, 84, params.src_inputs[21]);
        write_be_i32(raw, 88, params.src_inputs[22]);
        write_be_i32(raw, 92, params.src_inputs[23]);
        write_be_i32(raw, 96, params.mixer_outputs[0]);
        write_be_i32(raw, 100, params.mixer_outputs[1]);
        write_be_i32(raw, 104, params.aux_outputs[0]);
        write_be_i32(raw, 108, params.aux_outputs[1]);
        write_be_i32(raw, 112, params.aux_outputs[2]);
        write_be_i32(raw, 116, params.aux_outputs[3]);
        Ok(())
    }

    fn deserialize(params: &mut StudioMixerMeter, raw: &[u8]) -> (r: Result<(), String>)
        ensures
            r.is_ok() <==> (true),
            final(params).src_inputs[0] == be_i32_at(raw@, 0),
            final(params).src_inputs[1] == be_i32_at(raw@, 4),
            final(params).src_inputs[2] == be_i32_at(raw@, 8),
            final(params).src_inputs[3] == be_i32_at(raw@, 12),
            final(params).src_inputs[4] == be_i32_at(raw@, 16),
            final(params).src_inputs[5] == be_i32_at(raw@, 20),
            final(params).src_inputs[6] == be_i32_at(raw@, 24),
            final(params).src_inputs[7] == be_i32_at(raw@, 28),
            final(params).src_inputs[8] == be_i32_at(raw@, 32),
            final(params).src_inputs[9] == be_i32_at(raw@, 36),
            final(params).src_inputs[10] == be_i32_at(raw@, 40),
            final(params).src_inputs[11] == be_i32_at(raw@, 44),
            final(params).src_inputs[12] == be_i32_at(raw@, 48),
            final(params).src_inputs[13] == be_i32_at(raw@, 52),
            final(params).src_inputs[14] == be_i32_at(raw@, 56),
            final(params).src_inputs[15] == be_i32_at(raw@, 60),
            final(params).src_inputs[16] == be_i32_at(raw@, 64),
            final(params).src_inputs[17] == be_i32_at(raw@, 68),
            final(params).src_inputs[18] == be_i32_at(raw@, 72),
            final(params).src_inputs[19] == be_i32_at(raw@, 76),
            final(params).src_inputs[20] == be_i32_at(raw@, 80),
            final(params).src_inputs[21] == be_i32_at(raw@, 84),
            final(params).src_inputs[22] == be_i32_at(raw@, 88),
            final(params).src_inputs[23] == be_i32_at(raw@, 92),
            final(params).mixer_outputs[0] == be_i32_at(raw@, 96),
            final(params).mixer_outputs[1] == be_i32_at(raw@, 100),
            final(params).aux_outputs[0] == be_i32_at(raw@, 104),
            final(params).aux_outputs[1] == be_i32_at(raw@, 108),
            final(params).aux_outputs[2] == be_i32_at(raw@, 112),
            final(params).aux_outputs[3] == be_i32_at(raw@, 116),
    {
        let len = raw.len();
        params.src_inputs[0] = read_be_i32(raw, 0);
        params.src_inputs[1] = read_be_i32(raw, 4);
        params.src_inputs[2] = read_be_i32(raw, 8);
        params.src_inputs[3] = read_be_i32(raw, 12);
        params.src_inputs[4] = read_be_i32(raw, 16);
        params.src_inputs[5] = read_be_i32(raw, 20);
        params.src_inputs[6] = read_be_i32(raw, 24);
        params.src_inputs[7] = read_be_i32(raw, 28);
        params.src_inputs[8] = read_be_i32(raw, 32);
        params.src_inputs[9] = read_be_i32(raw, 36);
        params.src_inputs[10] = read_be_i32(raw, 40);
        params.src_inputs[11] = read_be_i32(raw, 44);
        params.src_inputs[12] = read_be_i32(raw, 48);
        params.src_inputs[13] = read_be_i32(raw, 52);
        params.src_inputs[14] = read_be_i32(raw, 56);
        params.src_inputs[15] = read_be_i32(raw, 60);
        params.src_inputs[16] = read_be_i32(raw, 64);
        params.src_inputs[17] = read_be_i32(raw, 68);
        params.src_inputs[18] = read_be_i32(raw, 72);
        params.src_inputs[19] = read_be_i32(raw, 76);
        params.src_inputs[20] = read_be_i32(raw, 80);
        params.src_inputs[21] = read_be_i32(raw, 84);
        params.src_inputs[22] = read_be_i32(raw, 88);
        params.src_inputs[23] = read_be_i32(raw, 92);
        params.mixer_outputs[0] = read_be_i32(raw, 96);
        params.mixer_outputs[1] = read_be_i32(raw, 100);
        params.aux_outputs[0] = read_be_i32(raw, 104);
        params.aux_outputs[1] = read_be_i32(raw, 108);
        params.aux_outputs[2] = read_be_i32(raw, 112);
        params.aux_outputs[3] = read_be_i32(raw, 116);
        Ok(())
    }
}

/// Hardware metering for reverb effect.
#[derive(Default, Debug, Copy, Clone, PartialEq, Eq)]
pub struct StudioReverbMeter(pub ReverbMeter);

impl TcKonnektSegmentSerdes<StudioReverbMeter> for Studiok48Protocol {
    const NAME: &'static str = "reverb-meter";
    const OFFSET: usize = 0x2164;
    const SIZE: usize = REVERB_METER_SIZE;

    open spec fn segment_fits(params: StudioReverbMeter) -> bool {
        true
    }

    fn serialize(params: &StudioReverbMeter, raw: &mut [u8]) -> (r: Result<(), String>)
        ensures
            r.is_ok() <==> (true),
            final(raw)@ == put_reverb_meter(old(raw)@, 0, params.0),
    {
        let len = raw.len();
        serialize_reverb_meter(&params.0, raw, 0)?;
        Ok(())
    }

    fn deserialize(params: &mut StudioReverbMeter, raw: &[u8]) -> (r: Result<(), String>)
        ensures
            r.is_ok() <==> (true),
            reverb_meter_decoded(raw@, 0, old(params).0, final(params).0),
    {
        let len = raw.len();
        let _ = deserialize_reverb_meter(&mut params.0, raw, 0);
        Ok(())
    }
}

/// Hardware metering for channel strip effect.
#[derive(Default, Debug, Copy, Clone, PartialEq, Eq)]
pub struct StudioChStripMeters(pub [ChStripMeter; STUDIO_CH_STRIP_COUNT]);

impl TcKonnektSegmentSerdes<StudioChStripMeters> for Studiok48Protocol {
    const NAME: &'static str = "channel-strip-meter";
    const OFFSET: usize = 0x217c;
    const SIZE: usize = CH_STRIP_METER_SIZE * STUDIO_CH_STRIP_COUNT + 8;

    open spec fn segment_fits(params: StudioChStripMeters) -> bool {
        true
    }

    fn serialize(params: &StudioChStripMeters, raw: &mut [u8]) -> (r: Result<(), String>)
        ensures
            r.is_ok(),
            final(raw)@ == put_ch_strip_meters(old(raw)@, params.0@),
    {
        serialize_ch_strip_meters(params.0.as_slice(), raw)
    }

    fn deserialize(params: &mut StudioChStripMeters, raw: &[u8]) -> (r: Result<(), String>)
        ensures
            r.is_ok(),
            forall|i: int|
                0 <= i < 4 ==> ch_strip_meter_decoded(
                    raw@,
                    ch_strip_meter_pos(i),
                    old(params).0@[i],
                    #[trigger] final(params).0@[i],
                ),
    {
        let mut meters = [params.0[0], params.0[1], params.0[2], params.0[3]];
        let r = deserialize_ch_strip_meters(&mut meters, raw);
        params.0 = meters;
        r
    }
}

} // verus!

verus! {

impl AsRef<crate::tcelectronic::TcKonnektLoadedProgram> for StudioRemote {
    fn as_ref(&self) -> &crate::tcelectronic::TcKonnektLoadedProgram
        returns
            &self.prog,
    {
        &self.prog
    }
}

impl AsMut<crate::tcelectronic::TcKonnektLoadedProgram> for StudioRemote {
    fn as_mut(&mut self) -> (r: &mut crate::tcelectronic::TcKonnektLoadedProgram)
        ensures
            *r == old(self).prog,
            *final(self) == (StudioRemote { prog: *final(r), ..*old(self) }),
    {
        &mut self.prog
    }
}

impl AsRef<crate::tcelectronic::TcKonnektStandaloneClockRate> for StudioConfig {
    fn as_ref(&self) -> &crate::tcelectronic::TcKonnektStandaloneClockRate
        returns
            &self.standalone_rate,
    {
        &self.standalone_rate
    }
}

impl AsMut<crate::tcelectronic::TcKonnektStandaloneClockRate> for StudioConfig {
    fn as_mut(&mut self) -> (r: &mut crate::tcelectronic::TcKonnektStandaloneClockRate)
        ensures
            *r == old(self).standalone_rate,
            *final(self) == (StudioConfig { standalone_rate: *final(r), ..*old(self) }),
    {
        &mut self.standalone_rate
    }
}

impl AsRef<crate::tcelectronic::reverb::ReverbState> for StudioReverbState {
    fn as_ref(&self) -> &crate::tcelectronic::reverb::ReverbState
        returns
            &self.0,
    {
        &self.0
    }
}

impl AsMut<crate::tcelectronic::reverb::ReverbState> for StudioReverbState {
    fn as_mut(&mut self) -> (r: &mut crate::tcelectronic::reverb::ReverbState)
        ensures
            *r == old(self).0,
            *final(self) == StudioReverbState(*final(r)),
    {
        &mut self.0
    }
}

impl AsRef<[crate::tcelectronic::ch_strip::ChStripState]> for StudioChStripStates {
    fn as_ref(&self) -> (r: &[crate::tcelectronic::ch_strip::ChStripState])
        ensures
            r@ == self.0@,
    {
        &self.0
    }
}

impl AsMut<[crate::tcelectronic::ch_strip::ChStripState]> for StudioChStripStates {
    fn as_mut(&mut self) -> (r: &mut [crate::tcelectronic::ch_strip::ChStripState])
        ensures
            r@ == old(self).0@,
            final(self).0@ == final(r)@,
    {
        &mut self.0
    }
}

impl AsRef<crate::tcelectronic::FireWireLedState> for StudioHwState {
    fn as_ref(&self) -> &crate::tcelectronic::FireWireLedState
        returns
            &self.firewire_led,
    {
        &self.firewire_led
    }
}

impl AsMut<crate::tcelectronic::FireWireLedState> for StudioHwState {
    fn as_mut(&mut self) -> (r: &mut crate::tcelectronic::FireWireLedState)
        ensures
            *r == old(self).firewire_led,
            *final(self) == (StudioHwState { firewire_led: *final(r), ..*old(self) }),
    {
        &mut self.firewire_led
    }
}

impl AsRef<crate::tcelectronic::reverb::ReverbMeter> for StudioReverbMeter {
    fn as_ref(&self) -> &crate::tcelectronic::reverb::ReverbMeter
        returns
            &self.0,
    {
        &self.0
    }
}

impl AsMut<crate::tcelectronic::reverb::ReverbMeter> for StudioReverbMeter {
    fn as_mut(&mut self) -> (r: &mut crate::tcelectronic::reverb::ReverbMeter)
        ensures
            *r == old(self).0,
            *final(self) == StudioReverbMeter(*final(r)),
    {
        &mut self.0
    }
}

impl AsRef<[crate::tcelectronic::ch_strip::ChStripMeter]> for StudioChStripMeters {
    fn as_ref(&self) -> (r: &[crate::tcelectronic::ch_strip::ChStripMeter])
        ensures
            r@ == self.0@,
    {
        &self.0
    }
}

impl AsMut<[crate::tcelectronic::ch_strip::ChStripMeter]> for StudioChStripMeters {
    fn as_mut(&mut self) -> (r: &mut [crate::tcelectronic::ch_strip::ChStripMeter])
        ensures
            r@ == old(self).0@,
            final(self).0@ == final(r)@,
    {
        &mut self.0
    }
}

} // verus!
