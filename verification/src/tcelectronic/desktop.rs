//! Protocol specific to TC Electronic Desktop Konnekt 6.

use crate::bits::{check_flag, has_flag};
use crate::codec::{
    be_bool_at, be_i32_at, be_quad_at, deserialize_position, position_of, put_be_bool,
    put_be_i32, put_be_quad, read_be_bool, read_be_i32, read_be_quad, serialize_position,
    write_be_bool, write_be_i32, write_be_quad, TableEntry,
};
use crate::tcelectronic::{
    deserialize_fw_led_state, deserialize_standalone_clock_rate, fw_led_states,
    serialize_fw_led_state, serialize_standalone_clock_rate, standalone_clock_rates,
    FireWireLedState, TcKonnektSegmentSerdes, TcKonnektStandaloneClockRate,
};
use vstd::prelude::*;

verus! {

/// The notification flag for hardware state.
pub const DESKTOP_HW_STATE_NOTIFY_FLAG: u32 = 0x00010000;
/// The notification flag for configuration.
pub const DESKTOP_CONFIG_NOTIFY_FLAG: u32 = 0x00020000;
/// The notification flag for mixer state.
pub const DESKTOP_MIXER_STATE_NOTIFY_FLAG: u32 = 0x00040000;
/// The notification flag for panel.
pub const DESKTOP_PANEL_NOTIFY_FLAG: u32 = 0x00080000;

/// Protocol implementation for Desktop Konnekt 6.
#[derive(Default, Debug)]
pub struct Desktopk6Protocol;

/// The target of meter.
#[derive(Debug, Copy, Clone, PartialEq, Eq, Structural)]
pub enum MeterTarget {
    Input,
    Pre,
    Post,
}

impl Default for MeterTarget {
    fn default() -> (r: Self)
        ensures
            r == MeterTarget::Input,
    {
        MeterTarget::Input
    }
}

impl TableEntry for MeterTarget {
    fn same(&self, other: &Self) -> (r: bool) {
        *self == *other
    }
}

/// The order of the values on the wire.
pub open spec fn meter_targets() -> Seq<MeterTarget> {
    seq![
        MeterTarget::Input,
        MeterTarget::Pre,
        MeterTarget::Post,
    ]
}

/// The entries of `meter_targets` in their order; the place of an entry is the code which stands for it.
pub proof fn lemma_meter_targets_order()
    ensures
        meter_targets().len() == 3,
        meter_targets()[0] == MeterTarget::Input,
        meter_targets()[1] == MeterTarget::Pre,
        meter_targets()[2] == MeterTarget::Post,
{
}

fn meter_targets_exec() -> (r: &'static [MeterTarget])
    ensures
        r@ == meter_targets(),
{
    &[
        MeterTarget::Input,
        MeterTarget::Pre,
        MeterTarget::Post,
    ]
}

/// Every value has its place on the wire.
pub proof fn lemma_meter_targets_contains(v: MeterTarget)
    ensures
        meter_targets().contains(v),
{
    match v {
        MeterTarget::Input => assert(meter_targets()[0] == v),
        MeterTarget::Pre => assert(meter_targets()[1] == v),
        MeterTarget::Post => assert(meter_targets()[2] == v),
    }
}

/// Serialize the value as its position at `pos`.
pub fn serialize_meter_target(v: &MeterTarget, raw: &mut [u8], pos: usize) -> (r: Result<(), String>)
    requires
        pos + 4 <= old(raw)@.len(),
    ensures
        r.is_ok(),
        final(raw)@ == put_be_quad(old(raw)@, pos as int, position_of(meter_targets(), *v) as u32),
        final(raw)@.len() == old(raw)@.len(),
{
    proof {
        lemma_meter_targets_contains(*v);
    }
    serialize_position(meter_targets_exec(), v, raw, pos, "meter-target")
}

/// Deserialize the value from its position at `pos`.
pub fn deserialize_meter_target(v: &mut MeterTarget, raw: &[u8], pos: usize) -> (r: Result<(), String>)
    requires
        pos + 4 <= raw@.len(),
    ensures
        r.is_ok() <==> (be_quad_at(raw@, pos as int) as int) < meter_targets().len(),
        r.is_ok() ==> *final(v) == meter_targets()[be_quad_at(raw@, pos as int) as int],
        r.is_err() ==> *final(v) == *old(v),
{
    deserialize_position(meter_targets_exec(), v, raw, pos, "meter-target")
}

/// The scene of input.
#[derive(Debug, Copy, Clone, PartialEq, Eq, Structural)]
pub enum InputScene {
    MicInst,
    DualInst,
    StereoIn,
}

impl Default for InputScene {
    fn default() -> (r: Self)
        ensures
            r == InputScene::MicInst,
    {
        InputScene::MicInst
    }
}

impl TableEntry for InputScene {
    fn same(&self, other: &Self) -> (r: bool) {
        *self == *other
    }
}

/// The order of the values on the wire.
pub open spec fn input_scenes() -> Seq<InputScene> {
    seq![
        InputScene::MicInst,
        InputScene::DualInst,
        InputScene::StereoIn,
    ]
}

/// The entries of `input_scenes` in their order; the place of an entry is the code which stands for it.
pub proof fn lemma_input_scenes_order()
    ensures
        input_scenes().len() == 3,
        input_scenes()[0] == InputScene::MicInst,
        input_scenes()[1] == InputScene::DualInst,
        input_scenes()[2] == InputScene::StereoIn,
{
}

fn input_scenes_exec() -> (r: &'static [InputScene])
    ensures
        r@ == input_scenes(),
{
    &[
        InputScene::MicInst,
        InputScene::DualInst,
        InputScene::StereoIn,
    ]
}

/// Every value has its place on the wire.
pub proof fn lemma_input_scenes_contains(v: InputScene)
    ensures
        input_scenes().contains(v),
{
    match v {
        InputScene::MicInst => assert(input_scenes()[0] == v),
        InputScene::DualInst => assert(input_scenes()[1] == v),
        InputScene::StereoIn => assert(input_scenes()[2] == v),
    }
}

/// Serialize the value as its position at `pos`.
pub fn serialize_input_scene(v: &InputScene, raw: &mut [u8], pos: usize) -> (r: Result<(), String>)
    requires
        pos + 4 <= old(raw)@.len(),
    ensures
        r.is_ok(),
        final(raw)@ == put_be_quad(old(raw)@, pos as int, position_of(input_scenes(), *v) as u32),
        final(raw)@.len() == old(raw)@.len(),
{
    proof {
        lemma_input_scenes_contains(*v);
    }
    serialize_position(input_scenes_exec(), v, raw, pos, "inputscene")
}

/// Deserialize the value from its position at `pos`.
pub fn deserialize_input_scene(v: &mut InputScene, raw: &[u8], pos: usize) -> (r: Result<(), String>)
    requires
        pos + 4 <= raw@.len(),
    ensures
        r.is_ok() <==> (be_quad_at(raw@, pos as int) as int) < input_scenes().len(),
        r.is_ok() ==> *final(v) == input_scenes()[be_quad_at(raw@, pos as int) as int],
        r.is_err() ==> *final(v) == *old(v),
{
    deserialize_position(input_scenes_exec(), v, raw, pos, "inputscene")
}

/// Hardware state.
#[derive(Default, Debug, Copy, Clone, PartialEq, Eq, Structural)]
pub struct DesktopHwState {
    pub meter_target: MeterTarget,
    pub mixer_output_monaural: bool,
    pub knob_assign_to_hp: bool,
    pub mixer_output_dim_enabled: bool,
    pub mixer_output_dim_volume: i32,
    pub input_scene: InputScene,
    pub reverb_to_master: bool,
    pub reverb_to_hp: bool,
    pub master_knob_backlight: bool,
    pub mic_0_phantom: bool,
    pub mic_0_boost: bool,
}

/// The bit to send reverb to main outputs.
pub const DESKTOP_REVERB_TO_MAIN_MASK: u32 = 0x00000001;
/// The bit to send reverb to headphone outputs.
pub const DESKTOP_REVERB_TO_HP_MASK: u32 = 0x00000002;

/// The bits of destinations of reverb effect.
pub open spec fn desktop_reverb_bits(to_master: bool, to_hp: bool) -> u32 {
    (if to_master {
        DESKTOP_REVERB_TO_MAIN_MASK
    } else {
        0
    }) | (if to_hp {
        DESKTOP_REVERB_TO_HP_MASK
    } else {
        0
    })
}

fn desktop_reverb_bits_exec(to_master: bool, to_hp: bool) -> (r: u32)
    ensures
        r == desktop_reverb_bits(to_master, to_hp),
{
    let mut val: u32 = 0;
    if to_master {
        val = val | DESKTOP_REVERB_TO_MAIN_MASK;
    }
    if to_hp {
        val = val | DESKTOP_REVERB_TO_HP_MASK;
    }
    proof {
        lemma_reverb_bits_or(to_master, to_hp);
    }
    val
}

proof fn lemma_reverb_bits_or(to_master: bool, to_hp: bool) by (bit_vector)
    ensures
        (0u32 | 1u32) == 1u32,
        (0u32 | 2u32) == 2u32,
        (0u32 | 0u32) == 0u32,
        (1u32 | 0u32) == 1u32,
{
}

/// The destinations of reverb effect are read back from their bits.
pub proof fn lemma_desktop_reverb_bits(to_master: bool, to_hp: bool) by (bit_vector)
    ensures
        has_flag(desktop_reverb_bits(to_master, to_hp), DESKTOP_REVERB_TO_MAIN_MASK) == to_master,
        has_flag(desktop_reverb_bits(to_master, to_hp), DESKTOP_REVERB_TO_HP_MASK) == to_hp,
{
}

impl TcKonnektSegmentSerdes<DesktopHwState> for Desktopk6Protocol {
    const NAME: &'static str = "hardware-state";
    const OFFSET: usize = 0x0008;
    const SIZE: usize = 144;

    open spec fn segment_fits(params: DesktopHwState) -> bool {
        true
    }

    fn serialize(params: &DesktopHwState, raw: &mut [u8]) -> (r: Result<(), String>)
        ensures
            r.is_ok() <==> (true),
            final(raw)@ == put_be_bool(put_be_bool(put_be_bool(put_be_quad(put_be_quad(put_be_i32(put_be_bool(put_be_bool(put_be_bool(put_be_quad(old(raw)@, 0, position_of(meter_targets(), params.meter_target) as u32), 4, params.mixer_output_monaural), 8, params.knob_assign_to_hp), 12, params.mixer_output_dim_enabled), 16, params.mixer_output_dim_volume), 20, position_of(input_scenes(), params.input_scene) as u32), 28, desktop_reverb_bits(params.reverb_to_master, params.reverb_to_hp)), 32, params.master_knob_backlight), 52, params.mic_0_phantom), 56, params.mic_0_boost),
    {
        let len = raw.len();
        serialize_meter_target(&params.meter_target, raw, 0)?;
        write_be_bool(raw, 4, params.mixer_output_monaural);
        write_be_bool(raw, 8, params.knob_assign_to_hp);
        write_be_bool(raw, 12, params.mixer_output_dim_enabled);
        write_be_i32(raw, 16, params.mixer_output_dim_volume);
        serialize_input_scene(&params.input_scene, raw, 20)?;
        write_be_quad(raw, 28, desktop_reverb_bits_exec(params.reverb_to_master, params.reverb_to_hp));
        write_be_bool(raw, 32, params.master_knob_backlight);
        write_be_bool(raw, 52, params.mic_0_phantom);
        write_be_bool(raw, 56, params.mic_0_boost);
        Ok(())
    }

    fn deserialize(params: &mut DesktopHwState, raw: &[u8]) -> (r: Result<(), String>)
        ensures
            r.is_ok() <==> ((be_quad_at(raw@, 0) as int) < meter_targets().len() && (be_quad_at(raw@, 20) as int) < input_scenes().len()),
            (true && (be_quad_at(raw@, 0) as int) < meter_targets().len()) ==> final(params).meter_target == meter_targets()[be_quad_at(raw@, 0) as int],
            !(true && (be_quad_at(raw@, 0) as int) < meter_targets().len()) ==> final(params).meter_target == old(params).meter_target,
            ((be_quad_at(raw@, 0) as int) < meter_targets().len()) ==> final(params).mixer_output_monaural == be_bool_at(raw@, 4),
            !((be_quad_at(raw@, 0) as int) < meter_targets().len()) ==> final(params).mixer_output_monaural == old(params).mixer_output_monaural,
            ((be_quad_at(raw@, 0) as int) < meter_targets().len()) ==> final(params).knob_assign_to_hp == be_bool_at(raw@, 8),
            !((be_quad_at(raw@, 0) as int) < meter_targets().len()) ==> final(params).knob_assign_to_hp == old(params).knob_assign_to_hp,
            ((be_quad_at(raw@, 0) as int) < meter_targets().len()) ==> final(params).mixer_output_dim_enabled == be_bool_at(raw@, 12),
            !((be_quad_at(raw@, 0) as int) < meter_targets().len()) ==> final(params).mixer_output_dim_enabled == old(params).mixer_output_dim_enabled,
            ((be_quad_at(raw@, 0) as int) < meter_targets().len()) ==> final(params).mixer_output_dim_volume == be_i32_at(raw@, 16),
            !((be_quad_at(raw@, 0) as int) < meter_targets().len()) ==> final(params).mixer_output_dim_volume == old(params).mixer_output_dim_volume,
            ((be_quad_at(raw@, 0) as int) < meter_targets().len() && (be_quad_at(raw@, 20) as int) < input_scenes().len()) ==> final(params).input_scene == input_scenes()[be_quad_at(raw@, 20) as int],
            !((be_quad_at(raw@, 0) as int) < meter_targets().len() && (be_quad_at(raw@, 20) as int) < input_scenes().len()) ==> final(params).input_scene == old(params).input_scene,
            ((be_quad_at(raw@, 0) as int) < meter_targets().len() && (be_quad_at(raw@, 20) as int) < input_scenes().len()) ==> final(params).reverb_to_master == has_flag(be_quad_at(raw@, 28), DESKTOP_REVERB_TO_MAIN_MASK) && final(params).reverb_to_hp == has_flag(be_quad_at(raw@, 28), DESKTOP_REVERB_TO_HP_MASK),
            !((be_quad_at(raw@, 0) as int) < meter_targets().len() && (be_quad_at(raw@, 20) as int) < input_scenes().len()) ==> final(params).reverb_to_master == old(params).reverb_to_master,
            ((be_quad_at(raw@, 0) as int) < meter_targets().len() && (be_quad_at(raw@, 20) as int) < input_scenes().len()) ==> final(params).master_knob_backlight == be_bool_at(raw@, 32),
            !((be_quad_at(raw@, 0) as int) < meter_targets().len() && (be_quad_at(raw@, 20) as int) < input_scenes().len()) ==> final(params).master_knob_backlight == old(params).master_knob_backlight,
            ((be_quad_at(raw@, 0) as int) < meter_targets().len() && (be_quad_at(raw@, 20) as int) < input_scenes().len()) ==> final(params).mic_0_phantom == be_bool_at(raw@, 52),
            !((be_quad_at(raw@, 0) as int) < meter_targets().len() && (be_quad_at(raw@, 20) as int) < input_scenes().len()) ==> final(params).mic_0_phantom == old(params).mic_0_phantom,
            ((be_quad_at(raw@, 0) as int) < meter_targets().len() && (be_quad_at(raw@, 20) as int) < input_scenes().len()) ==> final(params).mic_0_boost == be_bool_at(raw@, 56),
            !((be_quad_at(raw@, 0) as int) < meter_targets().len() && (be_quad_at(raw@, 20) as int) < input_scenes().len()) ==> final(params).mic_0_boost == old(params).mic_0_boost,
    {
        let len = raw.len();
        deserialize_meter_target(&mut params.meter_target, raw, 0)?;
        params.mixer_output_monaural = read_be_bool(raw, 4);
        params.knob_assign_to_hp = read_be_bool(raw, 8);
        params.mixer_output_dim_enabled = read_be_bool(raw, 12);
        params.mixer_output_dim_volume = read_be_i32(raw, 16);
        deserialize_input_scene(&mut params.input_scene, raw, 20)?;
        let bits = read_be_quad(raw, 28);
        params.reverb_to_master = check_flag(bits, DESKTOP_REVERB_TO_MAIN_MASK);
        params.reverb_to_hp = check_flag(bits, DESKTOP_REVERB_TO_HP_MASK);
        params.master_knob_backlight = read_be_bool(raw, 32);
        params.mic_0_phantom = read_be_bool(raw, 52);
        params.mic_0_boost = read_be_bool(raw, 56);
        Ok(())
    }
}

/// Configuration.
#[derive(Default, Debug, Copy, Clone, PartialEq, Eq, Structural)]
pub struct DesktopConfig {
    pub standalone_rate: TcKonnektStandaloneClockRate,
}

impl TcKonnektSegmentSerdes<DesktopConfig> for Desktopk6Protocol {
    const NAME: &'static str = "configuration";
    const OFFSET: usize = 0x0098;
    const SIZE: usize = 32;

    open spec fn segment_fits(params: DesktopConfig) -> bool {
        true
    }

    fn serialize(params: &DesktopConfig, raw: &mut [u8]) -> (r: Result<(), String>)
        ensures
            r.is_ok() <==> (true),
            final(raw)@ == put_be_quad(old(raw)@, 4, position_of(standalone_clock_rates(), params.standalone_rate) as u32),
    {
        let len = raw.len();
        serialize_standalone_clock_rate(&params.standalone_rate, raw, 4)?;
        Ok(())
    }

    fn deserialize(params: &mut DesktopConfig, raw: &[u8]) -> (r: Result<(), String>)
        ensures
            r.is_ok() <==> ((be_quad_at(raw@, 4) as int) < standalone_clock_rates().len()),
            (true && (be_quad_at(raw@, 4) as int) < standalone_clock_rates().len()) ==> final(params).standalone_rate == standalone_clock_rates()[be_quad_at(raw@, 4) as int],
            !(true && (be_quad_at(raw@, 4) as int) < standalone_clock_rates().len()) ==> final(params).standalone_rate == old(params).standalone_rate,
    {
        let len = raw.len();
        deserialize_standalone_clock_rate(&mut params.standalone_rate, raw, 4)?;
        Ok(())
    }
}

/// Source of headphone.
#[derive(Debug, Copy, Clone, PartialEq, Eq, Structural)]
pub enum DesktopHpSrc {
    Stream23,
    Mixer01,
}

impl Default for DesktopHpSrc {
    fn default() -> (r: Self)
        ensures
            r == DesktopHpSrc::Stream23,
    {
        DesktopHpSrc::Stream23
    }
}

/// The code of source of headphone.
pub open spec fn hp_src_code(src: DesktopHpSrc) -> u32 {
    match src {
        DesktopHpSrc::Stream23 => 0x05,
        DesktopHpSrc::Mixer01 => 0x0b,
    }
}

/// Each value of `DesktopHpSrc` has its own value in `hp_src_code`, as the device knows it.
pub proof fn lemma_hp_src_code_table()
    ensures
        hp_src_code(DesktopHpSrc::Stream23) == 0x05,
        hp_src_code(DesktopHpSrc::Mixer01) == 0x0b,
{
}

/// The source of headphone which the code stands for; any code but the one of the stream stands
/// for the mixer.
pub open spec fn hp_src_of(val: u32) -> DesktopHpSrc {
    if val == 0x05 {
        DesktopHpSrc::Stream23
    } else {
        DesktopHpSrc::Mixer01
    }
}

/// Each value which the device uses is read by `hp_src_of` as its own `DesktopHpSrc`.
pub proof fn lemma_hp_src_of_table()
    ensures
        hp_src_of(0x05) == DesktopHpSrc::Stream23,
{
}

impl From<u32> for DesktopHpSrc {
    fn from(val: u32) -> (r: Self) {
        if val == 0x05 {
            DesktopHpSrc::Stream23
        } else {
            DesktopHpSrc::Mixer01
        }
    }
}

impl vstd::std_specs::convert::FromSpecImpl<u32> for DesktopHpSrc {
    open spec fn obeys_from_spec() -> bool {
        true
    }

    open spec fn from_spec(v: u32) -> Self {
        hp_src_of(v)
    }
}

impl From<DesktopHpSrc> for u32 {
    fn from(src: DesktopHpSrc) -> (r: Self) {
        match src {
            DesktopHpSrc::Stream23 => 0x05,
            DesktopHpSrc::Mixer01 => 0x0b,
        }
    }
}

impl vstd::std_specs::convert::FromSpecImpl<DesktopHpSrc> for u32 {
    open spec fn obeys_from_spec() -> bool {
        true
    }

    open spec fn from_spec(v: DesktopHpSrc) -> Self {
        hp_src_code(v)
    }
}

/// A source of headphone is read back from its code.
pub proof fn lemma_hp_src_roundtrip(src: DesktopHpSrc)
    ensures
        hp_src_of(hp_src_code(src)) == src,
{
}

/// State of mixer.
#[derive(Default, Debug, Copy, Clone, PartialEq, Eq)]
pub struct DesktopMixerState {
    pub mic_inst_level: [i32; 2],
    pub mic_inst_pan: [i32; 2],
    pub mic_inst_send: [i32; 2],
    pub dual_inst_level: [i32; 2],
    pub dual_inst_pan: [i32; 2],
    pub dual_inst_send: [i32; 2],
    pub stereo_in_level: i32,
    pub stereo_in_pan: i32,
    pub stereo_in_send: i32,
    pub hp_src: DesktopHpSrc,
}

impl TcKonnektSegmentSerdes<DesktopMixerState> for Desktopk6Protocol {
    const NAME: &'static str = "mixer-state";
    const OFFSET: usize = 0x00b8;
    const SIZE: usize = 688;

    open spec fn segment_fits(params: DesktopMixerState) -> bool {
        true
    }

    fn serialize(params: &DesktopMixerState, raw: &mut [u8]) -> (r: Result<(), String>)
        ensures
            r.is_ok() <==> (true),
            final(raw)@ == put_be_quad(put_be_i32(put_be_i32(put_be_i32(put_be_i32(put_be_i32(put_be_i32(put_be_i32(put_be_i32(put_be_i32(put_be_i32(put_be_i32(put_be_i32(put_be_i32(put_be_i32(put_be_i32(old(raw)@, 12, params.mic_inst_level[0]), 16, params.mic_inst_pan[0]), 20, params.mic_inst_send[0]), 28, params.mic_inst_level[1]), 32, params.mic_inst_pan[1]), 40, params.mic_inst_send[1]), 228, params.dual_inst_level[0]), 232, params.dual_inst_pan[0]), 240, params.dual_inst_send[0]), 248, params.dual_inst_level[1]), 252, params.dual_inst_pan[1]), 260, params.dual_inst_send[1]), 444, params.stereo_in_level), 448, params.stereo_in_pan), 452, params.stereo_in_send), 648, hp_src_code(params.hp_src)),
    {
        let len = raw.len();
        write_be_i32(raw, 12, params.mic_inst_level[0]);
        write_be_i32(raw, 16, params.mic_inst_pan[0]);
        write_be_i32(raw, 20, params.mic_inst_send[0]);
        write_be_i32(raw, 28, params.mic_inst_level[1]);
        write_be_i32(raw, 32, params.mic_inst_pan[1]);
        write_be_i32(raw, 40, params.mic_inst_send[1]);
        write_be_i32(raw, 228, params.dual_inst_level[0]);
        write_be_i32(raw, 232, params.dual_inst_pan[0]);
        write_be_i32(raw, 240, params.dual_inst_send[0]);
        write_be_i32(raw, 248, params.dual_inst_level[1]);
        write_be_i32(raw, 252, params.dual_inst_pan[1]);
        write_be_i32(raw, 260, params.dual_inst_send[1]);
        write_be_i32(raw, 444, params.stereo_in_level);
        write_be_i32(raw, 448, params.stereo_in_pan);
        write_be_i32(raw, 452, params.stereo_in_send);
        write_be_quad(raw, 648, u32::from(params.hp_src));
        Ok(())
    }

    fn deserialize(params: &mut DesktopMixerState, raw: &[u8]) -> (r: Result<(), String>)
        ensures
            r.is_ok() <==> (true),
            final(params).mic_inst_level[0] == be_i32_at(raw@, 12),
            final(params).mic_inst_pan[0] == be_i32_at(raw@, 16),
            final(params).mic_inst_send[0] == be_i32_at(raw@, 20),
            final(params).mic_inst_level[1] == be_i32_at(raw@, 28),
            final(params).mic_inst_pan[1] == be_i32_at(raw@, 32),
            final(params).mic_inst_send[1] == be_i32_at(raw@, 40),
            final(params).dual_inst_level[0] == be_i32_at(raw@, 228),
            final(params).dual_inst_pan[0] == be_i32_at(raw@, 232),
            final(params).dual_inst_send[0] == be_i32_at(raw@, 240),
            final(params).dual_inst_level[1] == be_i32_at(raw@, 248),
            final(params).dual_inst_pan[1] == be_i32_at(raw@, 252),
            final(params).dual_inst_send[1] == be_i32_at(raw@, 260),
            final(params).stereo_in_level == be_i32_at(raw@, 444),
            final(params).stereo_in_pan == be_i32_at(raw@, 448),
            final(params).stereo_in_send == be_i32_at(raw@, 452),
            final(params).hp_src == hp_src_of(be_quad_at(raw@, 648)),
    {
        let len = raw.len();
        params.mic_inst_level[0] = read_be_i32(raw, 12);
        params.mic_inst_pan[0] = read_be_i32(raw, 16);
        params.mic_inst_send[0] = read_be_i32(raw, 20);
        params.mic_inst_level[1] = read_be_i32(raw, 28);
        params.mic_inst_pan[1] = read_be_i32(raw, 32);
        params.mic_inst_send[1] = read_be_i32(raw, 40);
        params.dual_inst_level[0] = read_be_i32(raw, 228);
        params.dual_inst_pan[0] = read_be_i32(raw, 232);
        params.dual_inst_send[0] = read_be_i32(raw, 240);
        params.dual_inst_level[1] = read_be_i32(raw, 248);
        params.dual_inst_pan[1] = read_be_i32(raw, 252);
        params.dual_inst_send[1] = read_be_i32(raw, 260);
        params.stereo_in_level = read_be_i32(raw, 444);
        params.stereo_in_pan = read_be_i32(raw, 448);
        params.stereo_in_send = read_be_i32(raw, 452);
        params.hp_src = DesktopHpSrc::from(read_be_quad(raw, 648));
        Ok(())
    }
}

/// State of panel.
#[derive(Default, Debug, Copy, Clone, PartialEq, Eq, Structural)]
pub struct DesktopPanel {
    pub panel_button_count: u32,
    pub main_knob_value: i32,
    pub phone_knob_value: i32,
    pub mix_knob_value: u32,
    pub reverb_led_on: bool,
    pub reverb_knob_value: i32,
    pub firewire_led: FireWireLedState,
}

impl TcKonnektSegmentSerdes<DesktopPanel> for Desktopk6Protocol {
    const NAME: &'static str = "hardware-panel";
    const OFFSET: usize = 0x2008;
    const SIZE: usize = 64;

    open spec fn segment_fits(params: DesktopPanel) -> bool {
        true
    }

    fn serialize(params: &DesktopPanel, raw: &mut [u8]) -> (r: Result<(), String>)
        ensures
            r.is_ok() <==> (true),
            final(raw)@ == put_be_quad(put_be_i32(put_be_bool(put_be_quad(put_be_i32(put_be_i32(put_be_quad(old(raw)@, 0, params.panel_button_count), 4, params.main_knob_value), 8, params.phone_knob_value), 12, params.mix_knob_value), 16, params.reverb_led_on), 24, params.reverb_knob_value), 36, position_of(fw_led_states(), params.firewire_led) as u32),
    {
        let len = raw.len();
        write_be_quad(raw, 0, params.panel_button_count);
        write_be_i32(raw, 4, params.main_knob_value);
        write_be_i32(raw, 8, params.phone_knob_value);
        write_be_quad(raw, 12, params.mix_knob_value);
        write_be_bool(raw, 16, params.reverb_led_on);
        write_be_i32(raw, 24, params.reverb_knob_value);
        serialize_fw_led_state(&params.firewire_led, raw, 36)?;
        Ok(())
    }

    fn deserialize(params: &mut DesktopPanel, raw: &[u8]) -> (r: Result<(), String>)
        ensures
            r.is_ok() <==> ((be_quad_at(raw@, 36) as int) < fw_led_states().len()),
            final(params).panel_button_count == be_quad_at(raw@, 0),
            final(params).main_knob_value == be_i32_at(raw@, 4),
            final(params).phone_knob_value == be_i32_at(raw@, 8),
            final(params).mix_knob_value == be_quad_at(raw@, 12),
            final(params).reverb_led_on == be_bool_at(raw@, 16),
            final(params).reverb_knob_value == be_i32_at(raw@, 24),
            (true && (be_quad_at(raw@, 36) as int) < fw_led_states().len()) ==> final(params).firewire_led == fw_led_states()[be_quad_at(raw@, 36) as int],
            !(true && (be_quad_at(raw@, 36) as int) < fw_led_states().len()) ==> final(params).firewire_led == old(params).firewire_led,
    {
        let len = raw.len();
        params.panel_button_count = read_be_quad(raw, 0);
        params.main_knob_value = read_be_i32(raw, 4);
        params.phone_knob_value = read_be_i32(raw, 8);
        params.mix_knob_value = read_be_quad(raw, 12);
        params.reverb_led_on = read_be_bool(raw, 16);
        params.reverb_knob_value = read_be_i32(raw, 24);
        deserialize_fw_led_state(&mut params.firewire_led, raw, 36)?;
        Ok(())
    }
}

/// Hardware meter.
#[derive(Default, Debug, Copy, Clone, PartialEq, Eq)]
pub struct DesktopMeter {
    pub analog_inputs: [i32; 2],
    pub mixer_outputs: [i32; 2],
    pub stream_inputs: [i32; 2],
}

impl TcKonnektSegmentSerdes<DesktopMeter> for Desktopk6Protocol {
    const NAME: &'static str = "hardware-meter";
    const OFFSET: usize = 0x20e4;
    const SIZE: usize = 92;

    open spec fn segment_fits(params: DesktopMeter) -> bool {
        true
    }

    fn serialize(params: &DesktopMeter, raw: &mut [u8]) -> (r: Result<(), String>)
        ensures
            r.is_ok() <==> (true),
            final(raw)@ == put_be_i32(put_be_i32(put_be_i32(put_be_i32(put_be_i32(put_be_i32(old(raw)@, 0, params.analog_inputs[0]), 4, params.analog_inputs[1]), 40, params.mixer_outputs[0]), 44, params.mixer_outputs[1]), 48, params.stream_inputs[0]), 52, params.stream_inputs[1]),
    {
        let len = raw.len();
        write_be_i32(raw, 0, params.analog_inputs[0]);
        write_be_i32(raw, 4, params.analog_inputs[1]);
        write_be_i32(raw, 40, params.mixer_outputs[0]);
        write_be_i32(raw, 44, params.mixer_outputs[1]);
        write_be_i32(raw, 48, params.stream_inputs[0]);
        write_be_i32(raw, 52, params.stream_inputs[1]);
        Ok(())
    }

    fn deserialize(params: &mut DesktopMeter, raw: &[u8]) -> (r: Result<(), String>)
        ensures
            r.is_ok() <==> (true),
            final(params).analog_inputs[0] == be_i32_at(raw@, 0),
            final(params).analog_inputs[1] == be_i32_at(raw@, 4),
            final(params).mixer_outputs[0] == be_i32_at(raw@, 40),
            final(params).mixer_outputs[1] == be_i32_at(raw@, 44),
            final(params).stream_inputs[0] == be_i32_at(raw@, 48),
            final(params).stream_inputs[1] == be_i32_at(raw@, 52),
    {
        let len = raw.len();
        params.analog_inputs[0] = read_be_i32(raw, 0);
        params.analog_inputs[1] = read_be_i32(raw, 4);
        params.mixer_outputs[0] = read_be_i32(raw, 40);
        params.mixer_outputs[1] = read_be_i32(raw, 44);
        params.stream_inputs[0] = read_be_i32(raw, 48);
        params.stream_inputs[1] = read_be_i32(raw, 52);
        Ok(())
    }
}

} // verus!
