//! Protocol specific to TC Electronic Impact Twin.


use crate::codec::{
    be_bool_at, be_i32_at, be_quad_at, deserialize_position, position_of, put_be_bool,
    put_be_i32, put_be_quad, read_be_bool, read_be_quad, serialize_position, write_be_bool,
    write_be_quad, TableEntry,
};
use crate::tcelectronic::ch_strip::{
    ch_strip_meter_decoded, ch_strip_meter_pos, ch_strip_state_decoded, ch_strip_state_pos,
    ch_strip_states_decodable, deserialize_ch_strip_meters, deserialize_ch_strip_states,
    put_ch_strip_meters, put_ch_strip_states, serialize_ch_strip_meters, serialize_ch_strip_states,
    ChStripMeter, ChStripState, CH_STRIP_METER_SIZE, CH_STRIP_STATE_SIZE,
};
use crate::tcelectronic::reverb::{
    deserialize_reverb_meter, deserialize_reverb_state, put_reverb_meter, put_reverb_state,
    reverb_meter_decoded, reverb_state_decodable, reverb_state_decoded, serialize_reverb_meter,
    serialize_reverb_state, ReverbMeter, ReverbState, REVERB_METER_SIZE, REVERB_STATE_SIZE,
};
use crate::tcelectronic::shell::{
    count_srcs, deserialize_coax_out_pair_source, deserialize_hw_state, deserialize_knob0_target,
    deserialize_knob1_target, deserialize_mixer_meter, deserialize_mixer_state,
    deserialize_mixer_stream_source_pair, deserialize_opt_iface_config, deserialize_phys_out_src,
    deserialize_reverb_return, deserialize_standalone_clock_source, hw_state_decodable,
    hw_state_decoded, is_analog_src, is_digital_src, mixer_meter_decoded, mixer_meter_fits,
    mixer_state_decoded, mixer_state_fits, opt_iface_config_decodable, opt_iface_config_decoded,
    phys_out_srcs, put_hw_state, put_mixer_meter, put_mixer_state, put_opt_iface_config,
    put_reverb_return, reverb_return_decoded, serialize_coax_out_pair_source, serialize_hw_state,
    serialize_knob0_target, serialize_knob1_target, serialize_mixer_meter, serialize_mixer_state,
    serialize_mixer_stream_source_pair, serialize_opt_iface_config, serialize_phys_out_src,
    serialize_reverb_return, serialize_standalone_clock_source, ShellCoaxOutPairSrc, ShellHwState,
    ShellKnob0Target, ShellKnob0TargetSpecification, ShellKnob1Target,
    ShellKnob1TargetSpecification, ShellMixerMeter, ShellMixerMeterSpecification,
    ShellMixerMonitorSrcType, ShellMixerState, ShellMixerStateSpecification,
    ShellMixerStreamSourcePair, ShellMixerStreamSourcePairSpecification, ShellOptIfaceConfig,
    ShellPhysOutSrc, ShellReverbReturn, ShellStandaloneClockSource,
    ShellStandaloneClockSpecification, SHELL_CH_STRIP_COUNT, SHELL_HW_STATE_SIZE,
    SHELL_KNOB_SEGMENT_SIZE, SHELL_MIXER_METER_SIZE, SHELL_MIXER_STATE_SIZE,
};
use crate::tcelectronic::{
    deserialize_loaded_program, deserialize_standalone_clock_rate, loaded_programs,
    serialize_loaded_program, serialize_standalone_clock_rate, standalone_clock_rates,
    TcKonnektLoadedProgram, TcKonnektSegmentSerdes, TcKonnektStandaloneClockRate,
};
use vstd::prelude::*;

verus! {

/// Protocol implementation specific to Impact Twin.
#[derive(Default, Debug)]
pub struct ItwinProtocol;

/// State of knob.
#[derive(Debug, Copy, Clone, PartialEq, Eq, Structural)]
pub struct ItwinKnob {
    pub target: ShellKnob0Target,
    pub clock_recovery: bool,
}

impl Default for ItwinKnob {
    fn default() -> (r: Self)
        ensures
            r == (ItwinKnob { target: ShellKnob0Target::ChannelStrip0, clock_recovery: false }),
    {
        ItwinKnob { target: ShellKnob0Target::ChannelStrip0, clock_recovery: false }
    }
}

impl ShellKnob0TargetSpecification for ItwinProtocol {
    open spec fn knob0_target_list() -> Seq<ShellKnob0Target> {
        seq![
            ShellKnob0Target::ChannelStrip0,
            ShellKnob0Target::ChannelStrip1,
            ShellKnob0Target::Reverb,
            ShellKnob0Target::Mixer,
        ]
    }

    fn knob0_targets() -> (r: &'static [ShellKnob0Target]) {
        &[
            ShellKnob0Target::ChannelStrip0,
            ShellKnob0Target::ChannelStrip1,
            ShellKnob0Target::Reverb,
            ShellKnob0Target::Mixer,
        ]
    }
}

impl TcKonnektSegmentSerdes<ItwinKnob> for ItwinProtocol {
    const NAME: &'static str = "knob";
    const OFFSET: usize = 0x0004;
    const SIZE: usize = SHELL_KNOB_SEGMENT_SIZE;

    open spec fn segment_fits(params: ItwinKnob) -> bool {
        true
    }

    fn serialize(params: &ItwinKnob, raw: &mut [u8]) -> (r: Result<(), String>)
        ensures
            r.is_ok() <==> (ItwinProtocol::knob0_target_list().contains(params.target)),
            final(raw)@ == (if ItwinProtocol::knob0_target_list().contains(params.target) { put_be_bool(put_be_quad(old(raw)@, 0, position_of(ItwinProtocol::knob0_target_list(), params.target) as u32), 8, params.clock_recovery) } else { old(raw)@ }),
    {
        let len = raw.len();
        serialize_knob0_target::<ItwinProtocol>(&params.target, raw, 0)?;
        write_be_bool(raw, 8, params.clock_recovery);
        Ok(())
    }

    fn deserialize(params: &mut ItwinKnob, raw: &[u8]) -> (r: Result<(), String>)
        ensures
            r.is_ok() <==> ((be_quad_at(raw@, 0) as int) < ItwinProtocol::knob0_target_list().len()),
            (true && (be_quad_at(raw@, 0) as int) < ItwinProtocol::knob0_target_list().len()) ==> final(params).target == ItwinProtocol::knob0_target_list()[be_quad_at(raw@, 0) as int],
            !(true && (be_quad_at(raw@, 0) as int) < ItwinProtocol::knob0_target_list().len()) ==> final(params).target == old(params).target,
            ((be_quad_at(raw@, 0) as int) < ItwinProtocol::knob0_target_list().len()) ==> final(params).clock_recovery == be_bool_at(raw@, 8),
            !((be_quad_at(raw@, 0) as int) < ItwinProtocol::knob0_target_list().len()) ==> final(params).clock_recovery == old(params).clock_recovery,
    {
        let len = raw.len();
        deserialize_knob0_target::<ItwinProtocol>(&mut params.target, raw, 0)?;
        params.clock_recovery = read_be_bool(raw, 8);
        Ok(())
    }
}

/// The number of pairs for physical output.
pub const ITWIN_PHYS_OUT_PAIR_COUNT: usize = 7;

/// Source of output pair.
#[derive(Debug, Copy, Clone, PartialEq, Eq, Structural)]
pub enum ItwinOutputPairSrc {
    MixerOut01,
    Analog01,
    Analog23,
    Spdif01,
    Adat01,
    Adat23,
    Adat45,
    Adat67,
    Stream01,
    Stream23,
    Stream45,
    Stream67,
    Stream89,
    Stream1011,
    Stream1213,
    MixerSend01,
}

impl Default for ItwinOutputPairSrc {
    fn default() -> (r: Self)
        ensures
            r == ItwinOutputPairSrc::MixerOut01,
    {
        ItwinOutputPairSrc::MixerOut01
    }
}

impl TableEntry for ItwinOutputPairSrc {
    fn same(&self, other: &Self) -> (r: bool) {
        *self == *other
    }
}

/// The order of the values on the wire.
pub open spec fn output_pair_srcs() -> Seq<ItwinOutputPairSrc> {
    seq![
        ItwinOutputPairSrc::MixerOut01,
        ItwinOutputPairSrc::Analog01,
        ItwinOutputPairSrc::Analog23,
        ItwinOutputPairSrc::Spdif01,
        ItwinOutputPairSrc::Adat01,
        ItwinOutputPairSrc::Adat23,
        ItwinOutputPairSrc::Adat45,
        ItwinOutputPairSrc::Adat67,
        ItwinOutputPairSrc::Stream01,
        ItwinOutputPairSrc::Stream23,
        ItwinOutputPairSrc::Stream45,
        ItwinOutputPairSrc::Stream67,
        ItwinOutputPairSrc::Stream89,
        ItwinOutputPairSrc::Stream1011,
        ItwinOutputPairSrc::Stream1213,
        ItwinOutputPairSrc::MixerSend01,
    ]
}

/// The entries of `output_pair_srcs` in their order; the place of an entry is the code which stands for it.
pub proof fn lemma_output_pair_srcs_order()
    ensures
        output_pair_srcs().len() == 16,
        output_pair_srcs()[0] == ItwinOutputPairSrc::MixerOut01,
        output_pair_srcs()[1] == ItwinOutputPairSrc::Analog01,
        output_pair_srcs()[2] == ItwinOutputPairSrc::Analog23,
        output_pair_srcs()[3] == ItwinOutputPairSrc::Spdif01,
        output_pair_srcs()[4] == ItwinOutputPairSrc::Adat01,
        output_pair_srcs()[5] == ItwinOutputPairSrc::Adat23,
        output_pair_srcs()[6] == ItwinOutputPairSrc::Adat45,
        output_pair_srcs()[7] == ItwinOutputPairSrc::Adat67,
        output_pair_srcs()[8] == ItwinOutputPairSrc::Stream01,
        output_pair_srcs()[9] == ItwinOutputPairSrc::Stream23,
        output_pair_srcs()[10] == ItwinOutputPairSrc::Stream45,
        output_pair_srcs()[11] == ItwinOutputPairSrc::Stream67,
        output_pair_srcs()[12] == ItwinOutputPairSrc::Stream89,
        output_pair_srcs()[13] == ItwinOutputPairSrc::Stream1011,
        output_pair_srcs()[14] == ItwinOutputPairSrc::Stream1213,
        output_pair_srcs()[15] == ItwinOutputPairSrc::MixerSend01,
{
}

fn output_pair_srcs_exec() -> (r: &'static [ItwinOutputPairSrc])
    ensures
        r@ == output_pair_srcs(),
{
    &[
        ItwinOutputPairSrc::MixerOut01,
        ItwinOutputPairSrc::Analog01,
        ItwinOutputPairSrc::Analog23,
        ItwinOutputPairSrc::Spdif01,
        ItwinOutputPairSrc::Adat01,
        ItwinOutputPairSrc::Adat23,
        ItwinOutputPairSrc::Adat45,
        ItwinOutputPairSrc::Adat67,
        ItwinOutputPairSrc::Stream01,
        ItwinOutputPairSrc::Stream23,
        ItwinOutputPairSrc::Stream45,
        ItwinOutputPairSrc::Stream67,
        ItwinOutputPairSrc::Stream89,
        ItwinOutputPairSrc::Stream1011,
        ItwinOutputPairSrc::Stream1213,
        ItwinOutputPairSrc::MixerSend01,
    ]
}

/// Every value has its place on the wire.
pub proof fn lemma_output_pair_srcs_contains(v: ItwinOutputPairSrc)
    ensures
        output_pair_srcs().contains(v),
{
    match v {
        ItwinOutputPairSrc::MixerOut01 => assert(output_pair_srcs()[0] == v),
        ItwinOutputPairSrc::Analog01 => assert(output_pair_srcs()[1] == v),
        ItwinOutputPairSrc::Analog23 => assert(output_pair_srcs()[2] == v),
        ItwinOutputPairSrc::Spdif01 => assert(output_pair_srcs()[3] == v),
        ItwinOutputPairSrc::Adat01 => assert(output_pair_srcs()[4] == v),
        ItwinOutputPairSrc::Adat23 => assert(output_pair_srcs()[5] == v),
        ItwinOutputPairSrc::Adat45 => assert(output_pair_srcs()[6] == v),
        ItwinOutputPairSrc::Adat67 => assert(output_pair_srcs()[7] == v),
        ItwinOutputPairSrc::Stream01 => assert(output_pair_srcs()[8] == v),
        ItwinOutputPairSrc::Stream23 => assert(output_pair_srcs()[9] == v),
        ItwinOutputPairSrc::Stream45 => assert(output_pair_srcs()[10] == v),
        ItwinOutputPairSrc::Stream67 => assert(output_pair_srcs()[11] == v),
        ItwinOutputPairSrc::Stream89 => assert(output_pair_srcs()[12] == v),
        ItwinOutputPairSrc::Stream1011 => assert(output_pair_srcs()[13] == v),
        ItwinOutputPairSrc::Stream1213 => assert(output_pair_srcs()[14] == v),
        ItwinOutputPairSrc::MixerSend01 => assert(output_pair_srcs()[15] == v),
    }
}

/// Serialize the value as its position at `pos`.
pub fn serialize_output_pair_src(v: &ItwinOutputPairSrc, raw: &mut [u8], pos: usize) -> (r: Result<(), String>)
    requires
        pos + 4 <= old(raw)@.len(),
    ensures
        r.is_ok(),
        final(raw)@ == put_be_quad(old(raw)@, pos as int, position_of(output_pair_srcs(), *v) as u32),
        final(raw)@.len() == old(raw)@.len(),
{
    proof {
        lemma_output_pair_srcs_contains(*v);
    }
    serialize_position(output_pair_srcs_exec(), v, raw, pos, "output pair source")
}

/// Deserialize the value from its position at `pos`.
pub fn deserialize_output_pair_src(v: &mut ItwinOutputPairSrc, raw: &[u8], pos: usize) -> (r: Result<(), String>)
    requires
        pos + 4 <= raw@.len(),
    ensures
        r.is_ok() <==> (be_quad_at(raw@, pos as int) as int) < output_pair_srcs().len(),
        r.is_ok() ==> *final(v) == output_pair_srcs()[be_quad_at(raw@, pos as int) as int],
        r.is_err() ==> *final(v) == *old(v),
{
    deserialize_position(output_pair_srcs_exec(), v, raw, pos, "output pair source")
}

/// Configuration.
#[derive(Default, Debug, Copy, Clone, PartialEq, Eq)]
pub struct ItwinConfig {
    pub mixer_stream_src_pair: ShellMixerStreamSourcePair,
    pub standalone_src: ShellStandaloneClockSource,
    pub standalone_rate: TcKonnektStandaloneClockRate,
    pub output_pair_src: [ItwinOutputPairSrc; ITWIN_PHYS_OUT_PAIR_COUNT],
}

impl ShellMixerStreamSourcePairSpecification for ItwinProtocol {
    open spec fn mixer_stream_source_pair_list() -> Seq<ShellMixerStreamSourcePair> {
        seq![
            ShellMixerStreamSourcePair::Stream0_1,
            ShellMixerStreamSourcePair::Stream2_3,
            ShellMixerStreamSourcePair::Stream4_5,
            ShellMixerStreamSourcePair::Stream6_7,
            ShellMixerStreamSourcePair::Stream8_9,
            ShellMixerStreamSourcePair::Stream10_11,
            ShellMixerStreamSourcePair::Stream12_13,
        ]
    }

    fn mixer_stream_source_pairs() -> (r: &'static [ShellMixerStreamSourcePair]) {
        &[
            ShellMixerStreamSourcePair::Stream0_1,
            ShellMixerStreamSourcePair::Stream2_3,
            ShellMixerStreamSourcePair::Stream4_5,
            ShellMixerStreamSourcePair::Stream6_7,
            ShellMixerStreamSourcePair::Stream8_9,
            ShellMixerStreamSourcePair::Stream10_11,
            ShellMixerStreamSourcePair::Stream12_13,
        ]
    }
}

impl ShellStandaloneClockSpecification for ItwinProtocol {
    open spec fn standalone_clock_source_list() -> Seq<ShellStandaloneClockSource> {
        seq![
            ShellStandaloneClockSource::Optical,
            ShellStandaloneClockSource::Coaxial,
            ShellStandaloneClockSource::Internal,
        ]
    }

    fn standalone_clock_sources() -> (r: &'static [ShellStandaloneClockSource]) {
        &[
            ShellStandaloneClockSource::Optical,
            ShellStandaloneClockSource::Coaxial,
            ShellStandaloneClockSource::Internal,
        ]
    }
}

impl TcKonnektSegmentSerdes<ItwinConfig> for ItwinProtocol {
    const NAME: &'static str = "configuration";
    const OFFSET: usize = 0x0028;
    const SIZE: usize = 168;

    open spec fn segment_fits(params: ItwinConfig) -> bool {
        true
    }

    fn serialize(params: &ItwinConfig, raw: &mut [u8]) -> (r: Result<(), String>)
        ensures
            r.is_ok() <==> (ItwinProtocol::mixer_stream_source_pair_list().contains(params.mixer_stream_src_pair) && ItwinProtocol::standalone_clock_source_list().contains(params.standalone_src)),
            final(raw)@ == (if ItwinProtocol::mixer_stream_source_pair_list().contains(params.mixer_stream_src_pair) { (if ItwinProtocol::standalone_clock_source_list().contains(params.standalone_src) { put_be_quad(put_be_quad(put_be_quad(put_be_quad(put_be_quad(put_be_quad(put_be_quad(put_be_quad(put_be_quad(put_be_quad(old(raw)@, 24, position_of(ItwinProtocol::mixer_stream_source_pair_list(), params.mixer_stream_src_pair) as u32), 28, position_of(ItwinProtocol::standalone_clock_source_list(), params.standalone_src) as u32), 32, position_of(standalone_clock_rates(), params.standalone_rate) as u32), 120, position_of(output_pair_srcs(), params.output_pair_src[0]) as u32), 124, position_of(output_pair_srcs(), params.output_pair_src[1]) as u32), 128, position_of(output_pair_srcs(), params.output_pair_src[2]) as u32), 132, position_of(output_pair_srcs(), params.output_pair_src[3]) as u32), 136, position_of(output_pair_srcs(), params.output_pair_src[4]) as u32), 140, position_of(output_pair_srcs(), params.output_pair_src[5]) as u32), 144, position_of(output_pair_srcs(), params.output_pair_src[6]) as u32) } else { put_be_quad(old(raw)@, 24, position_of(ItwinProtocol::mixer_stream_source_pair_list(), params.mixer_stream_src_pair) as u32) }) } else { old(raw)@ }),
    {
        let len = raw.len();
        serialize_mixer_stream_source_pair::<ItwinProtocol>(&params.mixer_stream_src_pair, raw, 24)?;
        serialize_standalone_clock_source::<ItwinProtocol>(&params.standalone_src, raw, 28)?;
        serialize_standalone_clock_rate(&params.standalone_rate, raw, 32)?;
        serialize_output_pair_src(&params.output_pair_src[0], raw, 120)?;
        serialize_output_pair_src(&params.output_pair_src[1], raw, 124)?;
        serialize_output_pair_src(&params.output_pair_src[2], raw, 128)?;
        serialize_output_pair_src(&params.output_pair_src[3], raw, 132)?;
        serialize_output_pair_src(&params.output_pair_src[4], raw, 136)?;
        serialize_output_pair_src(&params.output_pair_src[5], raw, 140)?;
        serialize_output_pair_src(&params.output_pair_src[6], raw, 144)?;
        Ok(())
    }

    fn deserialize(params: &mut ItwinConfig, raw: &[u8]) -> (r: Result<(), String>)
        ensures
            r.is_ok() <==> ((be_quad_at(raw@, 24) as int) < ItwinProtocol::mixer_stream_source_pair_list().len() && (be_quad_at(raw@, 28) as int) < ItwinProtocol::standalone_clock_source_list().len() && (be_quad_at(raw@, 32) as int) < standalone_clock_rates().len() && (be_quad_at(raw@, 120) as int) < output_pair_srcs().len() && (be_quad_at(raw@, 124) as int) < output_pair_srcs().len() && (be_quad_at(raw@, 128) as int) < output_pair_srcs().len() && (be_quad_at(raw@, 132) as int) < output_pair_srcs().len() && (be_quad_at(raw@, 136) as int) < output_pair_srcs().len() && (be_quad_at(raw@, 140) as int) < output_pair_srcs().len() && (be_quad_at(raw@, 144) as int) < output_pair_srcs().len()),
            (true && (be_quad_at(raw@, 24) as int) < ItwinProtocol::mixer_stream_source_pair_list().len()) ==> final(params).mixer_stream_src_pair == ItwinProtocol::mixer_stream_source_pair_list()[be_quad_at(raw@, 24) as int],
            !(true && (be_quad_at(raw@, 24) as int) < ItwinProtocol::mixer_stream_source_pair_list().len()) ==> final(params).mixer_stream_src_pair == old(params).mixer_stream_src_pair,
            ((be_quad_at(raw@, 24) as int) < ItwinProtocol::mixer_stream_source_pair_list().len() && (be_quad_at(raw@, 28) as int) < ItwinProtocol::standalone_clock_source_list().len()) ==> final(params).standalone_src == ItwinProtocol::standalone_clock_source_list()[be_quad_at(raw@, 28) as int],
            !((be_quad_at(raw@, 24) as int) < ItwinProtocol::mixer_stream_source_pair_list().len() && (be_quad_at(raw@, 28) as int) < ItwinProtocol::standalone_clock_source_list().len()) ==> final(params).standalone_src == old(params).standalone_src,
            ((be_quad_at(raw@, 24) as int) < ItwinProtocol::mixer_stream_source_pair_list().len() && (be_quad_at(raw@, 28) as int) < ItwinProtocol::standalone_clock_source_list().len() && (be_quad_at(raw@, 32) as int) < standalone_clock_rates().len()) ==> final(params).standalone_rate == standalone_clock_rates()[be_quad_at(raw@, 32) as int],
            !((be_quad_at(raw@, 24) as int) < ItwinProtocol::mixer_stream_source_pair_list().len() && (be_quad_at(raw@, 28) as int) < ItwinProtocol::standalone_clock_source_list().len() && (be_quad_at(raw@, 32) as int) < standalone_clock_rates().len()) ==> final(params).standalone_rate == old(params).standalone_rate,
            ((be_quad_at(raw@, 24) as int) < ItwinProtocol::mixer_stream_source_pair_list().len() && (be_quad_at(raw@, 28) as int) < ItwinProtocol::standalone_clock_source_list().len() && (be_quad_at(raw@, 32) as int) < standalone_clock_rates().len() && (be_quad_at(raw@, 120) as int) < output_pair_srcs().len()) ==> final(params).output_pair_src[0] == output_pair_srcs()[be_quad_at(raw@, 120) as int],
            !((be_quad_at(raw@, 24) as int) < ItwinProtocol::mixer_stream_source_pair_list().len() && (be_quad_at(raw@, 28) as int) < ItwinProtocol::standalone_clock_source_list().len() && (be_quad_at(raw@, 32) as int) < standalone_clock_rates().len() && (be_quad_at(raw@, 120) as int) < output_pair_srcs().len()) ==> final(params).output_pair_src[0] == old(params).output_pair_src[0],
            ((be_quad_at(raw@, 24) as int) < ItwinProtocol::mixer_stream_source_pair_list().len() && (be_quad_at(raw@, 28) as int) < ItwinProtocol::standalone_clock_source_list().len() && (be_quad_at(raw@, 32) as int) < standalone_clock_rates().len() && (be_quad_at(raw@, 120) as int) < output_pair_srcs().len() && (be_quad_at(raw@, 124) as int) < output_pair_srcs().len()) ==> final(params).output_pair_src[1] == output_pair_srcs()[be_quad_at(raw@, 124) as int],
            !((be_quad_at(raw@, 24) as int) < ItwinProtocol::mixer_stream_source_pair_list().len() && (be_quad_at(raw@, 28) as int) < ItwinProtocol::standalone_clock_source_list().len() && (be_quad_at(raw@, 32) as int) < standalone_clock_rates().len() && (be_quad_at(raw@, 120) as int) < output_pair_srcs().len() && (be_quad_at(raw@, 124) as int) < output_pair_srcs().len()) ==> final(params).output_pair_src[1] == old(params).output_pair_src[1],
            ((be_quad_at(raw@, 24) as int) < ItwinProtocol::mixer_stream_source_pair_list().len() && (be_quad_at(raw@, 28) as int) < ItwinProtocol::standalone_clock_source_list().len() && (be_quad_at(raw@, 32) as int) < standalone_clock_rates().len() && (be_quad_at(raw@, 120) as int) < output_pair_srcs().len() && (be_quad_at(raw@, 124) as int) < output_pair_srcs().len() && (be_quad_at(raw@, 128) as int) < output_pair_srcs().len()) ==> final(params).output_pair_src[2] == output_pair_srcs()[be_quad_at(raw@, 128) as int],
            !((be_quad_at(raw@, 24) as int) < ItwinProtocol::mixer_stream_source_pair_list().len() && (be_quad_at(raw@, 28) as int) < ItwinProtocol::standalone_clock_source_list().len() && (be_quad_at(raw@, 32) as int) < standalone_clock_rates().len() && (be_quad_at(raw@, 120) as int) < output_pair_srcs().len() && (be_quad_at(raw@, 124) as int) < output_pair_srcs().len() && (be_quad_at(raw@, 128) as int) < output_pair_srcs().len()) ==> final(params).output_pair_src[2] == old(params).output_pair_src[2],
            ((be_quad_at(raw@, 24) as int) < ItwinProtocol::mixer_stream_source_pair_list().len() && (be_quad_at(raw@, 28) as int) < ItwinProtocol::standalone_clock_source_list().len() && (be_quad_at(raw@, 32) as int) < standalone_clock_rates().len() && (be_quad_at(raw@, 120) as int) < output_pair_srcs().len() && (be_quad_at(raw@, 124) as int) < output_pair_srcs().len() && (be_quad_at(raw@, 128) as int) < output_pair_srcs().len() && (be_quad_at(raw@, 132) as int) < output_pair_srcs().len()) ==> final(params).output_pair_src[3] == output_pair_srcs()[be_quad_at(raw@, 132) as int],
            !((be_quad_at(raw@, 24) as int) < ItwinProtocol::mixer_stream_source_pair_list().len() && (be_quad_at(raw@, 28) as int) < ItwinProtocol::standalone_clock_source_list().len() && (be_quad_at(raw@, 32) as int) < standalone_clock_rates().len() && (be_quad_at(raw@, 120) as int) < output_pair_srcs().len() && (be_quad_at(raw@, 124) as int) < output_pair_srcs().len() && (be_quad_at(raw@, 128) as int) < output_pair_srcs().len() && (be_quad_at(raw@, 132) as int) < output_pair_srcs().len()) ==> final(params).output_pair_src[3] == old(params).output_pair_src[3],
            ((be_quad_at(raw@, 24) as int) < ItwinProtocol::mixer_stream_source_pair_list().len() && (be_quad_at(raw@, 28) as int) < ItwinProtocol::standalone_clock_source_list().len() && (be_quad_at(raw@, 32) as int) < standalone_clock_rates().len() && (be_quad_at(raw@, 120) as int) < output_pair_srcs().len() && (be_quad_at(raw@, 124) as int) < output_pair_srcs().len() && (be_quad_at(raw@, 128) as int) < output_pair_srcs().len() && (be_quad_at(raw@, 132) as int) < output_pair_srcs().len() && (be_quad_at(raw@, 136) as int) < output_pair_srcs().len()) ==> final(params).output_pair_src[4] == output_pair_srcs()[be_quad_at(raw@, 136) as int],
            !((be_quad_at(raw@, 24) as int) < ItwinProtocol::mixer_stream_source_pair_list().len() && (be_quad_at(raw@, 28) as int) < ItwinProtocol::standalone_clock_source_list().len() && (be_quad_at(raw@, 32) as int) < standalone_clock_rates().len() && (be_quad_at(raw@, 120) as int) < output_pair_srcs().len() && (be_quad_at(raw@, 124) as int) < output_pair_srcs().len() && (be_quad_at(raw@, 128) as int) < output_pair_srcs().len() && (be_quad_at(raw@, 132) as int) < output_pair_srcs().len() && (be_quad_at(raw@, 136) as int) < output_pair_srcs().len()) ==> final(params).output_pair_src[4] == old(params).output_pair_src[4],
            ((be_quad_at(raw@, 24) as int) < ItwinProtocol::mixer_stream_source_pair_list().len() && (be_quad_at(raw@, 28) as int) < ItwinProtocol::standalone_clock_source_list().len() && (be_quad_at(raw@, 32) as int) < standalone_clock_rates().len() && (be_quad_at(raw@, 120) as int) < output_pair_srcs().len() && (be_quad_at(raw@, 124) as int) < output_pair_srcs().len() && (be_quad_at(raw@, 128) as int) < output_pair_srcs().len() && (be_quad_at(raw@, 132) as int) < output_pair_srcs().len() && (be_quad_at(raw@, 136) as int) < output_pair_srcs().len() && (be_quad_at(raw@, 140) as int) < output_pair_srcs().len()) ==> final(params).output_pair_src[5] == output_pair_srcs()[be_quad_at(raw@, 140) as int],
            !((be_quad_at(raw@, 24) as int) < ItwinProtocol::mixer_stream_source_pair_list().len() && (be_quad_at(raw@, 28) as int) < ItwinProtocol::standalone_clock_source_list().len() && (be_quad_at(raw@, 32) as int) < standalone_clock_rates().len() && (be_quad_at(raw@, 120) as int) < output_pair_srcs().len() && (be_quad_at(raw@, 124) as int) < output_pair_srcs().len() && (be_quad_at(raw@, 128) as int) < output_pair_srcs().len() && (be_quad_at(raw@, 132) as int) < output_pair_srcs().len() && (be_quad_at(raw@, 136) as int) < output_pair_srcs().len() && (be_quad_at(raw@, 140) as int) < output_pair_srcs().len()) ==> final(params).output_pair_src[5] == old(params).output_pair_src[5],
            ((be_quad_at(raw@, 24) as int) < ItwinProtocol::mixer_stream_source_pair_list().len() && (be_quad_at(raw@, 28) as int) < ItwinProtocol::standalone_clock_source_list().len() && (be_quad_at(raw@, 32) as int) < standalone_clock_rates().len() && (be_quad_at(raw@, 120) as int) < output_pair_srcs().len() && (be_quad_at(raw@, 124) as int) < output_pair_srcs().len() && (be_quad_at(raw@, 128) as int) < output_pair_srcs().len() && (be_quad_at(raw@, 132) as int) < output_pair_srcs().len() && (be_quad_at(raw@, 136) as int) < output_pair_srcs().len() && (be_quad_at(raw@, 140) as int) < output_pair_srcs().len() && (be_quad_at(raw@, 144) as int) < output_pair_srcs().len()) ==> final(params).output_pair_src[6] == output_pair_srcs()[be_quad_at(raw@, 144) as int],
            !((be_quad_at(raw@, 24) as int) < ItwinProtocol::mixer_stream_source_pair_list().len() && (be_quad_at(raw@, 28) as int) < ItwinProtocol::standalone_clock_source_list().len() && (be_quad_at(raw@, 32) as int) < standalone_clock_rates().len() && (be_quad_at(raw@, 120) as int) < output_pair_srcs().len() && (be_quad_at(raw@, 124) as int) < output_pair_srcs().len() && (be_quad_at(raw@, 128) as int) < output_pair_srcs().len() && (be_quad_at(raw@, 132) as int) < output_pair_srcs().len() && (be_quad_at(raw@, 136) as int) < output_pair_srcs().len() && (be_quad_at(raw@, 140) as int) < output_pair_srcs().len() && (be_quad_at(raw@, 144) as int) < output_pair_srcs().len()) ==> final(params).output_pair_src[6] == old(params).output_pair_src[6],
    {
        let len = raw.len();
        deserialize_mixer_stream_source_pair::<ItwinProtocol>(&mut params.mixer_stream_src_pair, raw, 24)?;
        deserialize_standalone_clock_source::<ItwinProtocol>(&mut params.standalone_src, raw, 28)?;
        deserialize_standalone_clock_rate(&mut params.standalone_rate, raw, 32)?;
        deserialize_output_pair_src(&mut params.output_pair_src[0], raw, 120)?;
        deserialize_output_pair_src(&mut params.output_pair_src[1], raw, 124)?;
        deserialize_output_pair_src(&mut params.output_pair_src[2], raw, 128)?;
        deserialize_output_pair_src(&mut params.output_pair_src[3], raw, 132)?;
        deserialize_output_pair_src(&mut params.output_pair_src[4], raw, 136)?;
        deserialize_output_pair_src(&mut params.output_pair_src[5], raw, 140)?;
        deserialize_output_pair_src(&mut params.output_pair_src[6], raw, 144)?;
        Ok(())
    }
}

/// State of mixer.
#[derive(Debug, Clone, PartialEq, Eq)]
pub struct ItwinMixerState {
    pub mixer: ShellMixerState,
    pub stream_mix_balance: u32,
    pub enabled: bool,
}

impl Default for ItwinMixerState {
    fn default() -> (r: Self)
        ensures
            r.mixer.analog@.len() == count_srcs(ItwinProtocol::spec_monitor_src_map(), |m| is_analog_src(m), 10),
            r.mixer.digital@.len() == count_srcs(ItwinProtocol::spec_monitor_src_map(), |m| is_digital_src(m), 10),
            r.stream_mix_balance == 0,
            r.enabled == false,
    {
        ItwinMixerState { mixer: ItwinProtocol::create_mixer_state(), stream_mix_balance: 0, enabled: false }
    }
}

impl ShellMixerStateSpecification for ItwinProtocol {
    open spec fn spec_monitor_src_map() -> Seq<Option<ShellMixerMonitorSrcType>> {
        seq![
            Some(ShellMixerMonitorSrcType::Stream),
            None,
            None,
            Some(ShellMixerMonitorSrcType::Spdif),
            Some(ShellMixerMonitorSrcType::Analog),
            Some(ShellMixerMonitorSrcType::Analog),
            Some(ShellMixerMonitorSrcType::AdatSpdif),
            Some(ShellMixerMonitorSrcType::Adat),
            Some(ShellMixerMonitorSrcType::Adat),
            Some(ShellMixerMonitorSrcType::Adat),
        ]
    }

    fn monitor_src_map() -> (r: [Option<ShellMixerMonitorSrcType>; 10]) {
        let r = [
            Some(ShellMixerMonitorSrcType::Stream),
            None,
            None,
            Some(ShellMixerMonitorSrcType::Spdif),
            Some(ShellMixerMonitorSrcType::Analog),
            Some(ShellMixerMonitorSrcType::Analog),
            Some(ShellMixerMonitorSrcType::AdatSpdif),
            Some(ShellMixerMonitorSrcType::Adat),
            Some(ShellMixerMonitorSrcType::Adat),
            Some(ShellMixerMonitorSrcType::Adat),
        ];
        proof {
            assert(r@ =~= Self::spec_monitor_src_map());
        }
        r
    }
}

impl TcKonnektSegmentSerdes<ItwinMixerState> for ItwinProtocol {
    const NAME: &'static str = "mixer-state";
    const OFFSET: usize = 0x00d0;
    const SIZE: usize = SHELL_MIXER_STATE_SIZE + 56;

    open spec fn segment_fits(params: ItwinMixerState) -> bool {
        mixer_state_fits(params.mixer, SHELL_MIXER_STATE_SIZE as int)
    }

    fn serialize(params: &ItwinMixerState, raw: &mut [u8]) -> (r: Result<(), String>)
        ensures
            r.is_ok() <==> (true),
            final(raw)@ == put_be_bool(put_be_quad(put_mixer_state::<ItwinProtocol>(old(raw)@, params.mixer), 348, params.stream_mix_balance), 352, params.enabled),
    {
        let len = raw.len();
        serialize_mixer_state::<ItwinProtocol>(&params.mixer, raw)?;
        write_be_quad(raw, 348, params.stream_mix_balance);
        write_be_bool(raw, 352, params.enabled);
        Ok(())
    }

    fn deserialize(params: &mut ItwinMixerState, raw: &[u8]) -> (r: Result<(), String>)
        ensures
            r.is_ok() <==> (true),
            mixer_state_decoded::<ItwinProtocol>(raw@, old(params).mixer, final(params).mixer),
            final(params).stream_mix_balance == be_quad_at(raw@, 348),
            final(params).enabled == be_bool_at(raw@, 352),
    {
        let len = raw.len();
        deserialize_mixer_state::<ItwinProtocol>(&mut params.mixer, raw)?;
        params.stream_mix_balance = read_be_quad(raw, 348);
        params.enabled = read_be_bool(raw, 352);
        Ok(())
    }
}

/// State of reverb effect.
#[derive(Default, Debug, Copy, Clone, PartialEq, Eq)]
pub struct ItwinReverbState(pub ReverbState);

impl TcKonnektSegmentSerdes<ItwinReverbState> for ItwinProtocol {
    const NAME: &'static str = "reverb-state";
    const OFFSET: usize = 0x0244;
    const SIZE: usize = REVERB_STATE_SIZE;

    open spec fn segment_fits(params: ItwinReverbState) -> bool {
        true
    }

    fn serialize(params: &ItwinReverbState, raw: &mut [u8]) -> (r: Result<(), String>)
        ensures
            r.is_ok() <==> (true),
            final(raw)@ == put_reverb_state(old(raw)@, 0, params.0),
    {
        let len = raw.len();
        serialize_reverb_state(&params.0, raw, 0)?;
        Ok(())
    }

    fn deserialize(params: &mut ItwinReverbState, raw: &[u8]) -> (r: Result<(), String>)
        ensures
            r.is_ok() <==> (reverb_state_decodable(raw@, 0)),
            reverb_state_decoded(raw@, 0, old(params).0, final(params).0),
    {
        let len = raw.len();
        deserialize_reverb_state(&mut params.0, raw, 0)?;
        Ok(())
    }
}

/// States of channel strip effect.
#[derive(Debug, Copy, Clone, PartialEq, Eq)]
pub struct ItwinChStripStates(pub [ChStripState; SHELL_CH_STRIP_COUNT]);

impl Default for ItwinChStripStates {
    fn default() -> Self {
        ItwinChStripStates([ChStripState::default(), ChStripState::default()])
    }
}

impl TcKonnektSegmentSerdes<ItwinChStripStates> for ItwinProtocol {
    const NAME: &'static str = "channel-strip-state";
    const OFFSET: usize = 0x028c;
    const SIZE: usize = CH_STRIP_STATE_SIZE * SHELL_CH_STRIP_COUNT + 4;

    open spec fn segment_fits(params: ItwinChStripStates) -> bool {
        true
    }

    fn serialize(params: &ItwinChStripStates, raw: &mut [u8]) -> (r: Result<(), String>)
        ensures
            r.is_ok(),
            final(raw)@ == put_ch_strip_states(old(raw)@, params.0@),
    {
        serialize_ch_strip_states(params.0.as_slice(), raw)
    }

    fn deserialize(params: &mut ItwinChStripStates, raw: &[u8]) -> (r: Result<(), String>)
        ensures
            r.is_ok() <==> ch_strip_states_decodable(raw@, 2),
            forall|i: int|
                0 <= i < 2 ==> if ch_strip_states_decodable(raw@, i) {
                    ch_strip_state_decoded(
                        raw@,
                        ch_strip_state_pos(i),
                        old(params).0@[i],
                        #[trigger] final(params).0@[i],
                    )
                } else {
                    final(params).0@[i] == old(params).0@[i]
                },
    {
        let mut states = [params.0[0], params.0[1]];
        let r = deserialize_ch_strip_states(&mut states, raw);
        params.0 = states;
        r
    }
}

/// Mode of listening.
#[derive(Debug, Copy, Clone, PartialEq, Eq, Structural)]
pub enum ListeningMode {
    Monaural,
    Stereo,
    Side,
}

impl Default for ListeningMode {
    fn default() -> (r: Self)
        ensures
            r == ListeningMode::Monaural,
    {
        ListeningMode::Monaural
    }
}

impl TableEntry for ListeningMode {
    fn same(&self, other: &Self) -> (r: bool) {
        *self == *other
    }
}

/// The order of the values on the wire.
pub open spec fn listening_modes() -> Seq<ListeningMode> {
    seq![
        ListeningMode::Monaural,
        ListeningMode::Stereo,
        ListeningMode::Side,
    ]
}

/// The entries of `listening_modes` in their order; the place of an entry is the code which stands for it.
pub proof fn lemma_listening_modes_order()
    ensures
        listening_modes().len() == 3,
        listening_modes()[0] == ListeningMode::Monaural,
        listening_modes()[1] == ListeningMode::Stereo,
        listening_modes()[2] == ListeningMode::Side,
{
}

fn listening_modes_exec() -> (r: &'static [ListeningMode])
    ensures
        r@ == listening_modes(),
{
    &[
        ListeningMode::Monaural,
        ListeningMode::Stereo,
        ListeningMode::Side,
    ]
}

/// Every value has its place on the wire.
pub proof fn lemma_listening_modes_contains(v: ListeningMode)
    ensures
        listening_modes().contains(v),
{
    match v {
        ListeningMode::Monaural => assert(listening_modes()[0] == v),
        ListeningMode::Stereo => assert(listening_modes()[1] == v),
        ListeningMode::Side => assert(listening_modes()[2] == v),
    }
}

/// Serialize the value as its position at `pos`.
pub fn serialize_listening_mode(v: &ListeningMode, raw: &mut [u8], pos: usize) -> (r: Result<(), String>)
    requires
        pos + 4 <= old(raw)@.len(),
    ensures
        r.is_ok(),
        final(raw)@ == put_be_quad(old(raw)@, pos as int, position_of(listening_modes(), *v) as u32),
        final(raw)@.len() == old(raw)@.len(),
{
    proof {
        lemma_listening_modes_contains(*v);
    }
    serialize_position(listening_modes_exec(), v, raw, pos, "listening mode")
}

/// Deserialize the value from its position at `pos`.
pub fn deserialize_listening_mode(v: &mut ListeningMode, raw: &[u8], pos: usize) -> (r: Result<(), String>)
    requires
        pos + 4 <= raw@.len(),
    ensures
        r.is_ok() <==> (be_quad_at(raw@, pos as int) as int) < listening_modes().len(),
        r.is_ok() ==> *final(v) == listening_modes()[be_quad_at(raw@, pos as int) as int],
        r.is_err() ==> *final(v) == *old(v),
{
    deserialize_position(listening_modes_exec(), v, raw, pos, "listening mode")
}

/// Hardware state.
#[derive(Default, Debug, Copy, Clone, PartialEq, Eq)]
pub struct ItwinHwState {
    pub hw_state: ShellHwState,
    pub listening_mode: ListeningMode,
}

impl TcKonnektSegmentSerdes<ItwinHwState> for ItwinProtocol {
    const NAME: &'static str = "hardware-state";
    const OFFSET: usize = 0x1008;
    const SIZE: usize = SHELL_HW_STATE_SIZE;

    open spec fn segment_fits(params: ItwinHwState) -> bool {
        true
    }

    fn serialize(params: &ItwinHwState, raw: &mut [u8]) -> (r: Result<(), String>)
        ensures
            r.is_ok() <==> (true),
            final(raw)@ == put_be_quad(put_hw_state(old(raw)@, 0, params.hw_state), 8, position_of(listening_modes(), params.listening_mode) as u32),
    {
        let len = raw.len();
        serialize_hw_state(&params.hw_state, raw, 0)?;
        serialize_listening_mode(&params.listening_mode, raw, 8)?;
        Ok(())
    }

    fn deserialize(params: &mut ItwinHwState, raw: &[u8]) -> (r: Result<(), String>)
        ensures
            r.is_ok() <==> (hw_state_decodable(raw@, 0) && (be_quad_at(raw@, 8) as int) < listening_modes().len()),
            hw_state_decoded(raw@, 0, old(params).hw_state, final(params).hw_state),
            (hw_state_decodable(raw@, 0) && (be_quad_at(raw@, 8) as int) < listening_modes().len()) ==> final(params).listening_mode == listening_modes()[be_quad_at(raw@, 8) as int],
            !(hw_state_decodable(raw@, 0) && (be_quad_at(raw@, 8) as int) < listening_modes().len()) ==> final(params).listening_mode == old(params).listening_mode,
    {
        let len = raw.len();
        deserialize_hw_state(&mut params.hw_state, raw, 0)?;
        deserialize_listening_mode(&mut params.listening_mode, raw, 8)?;
        Ok(())
    }
}

/// The number of analog inputs in meter.
pub const ITWIN_METER_ANALOG_INPUT_COUNT: usize = 4;
/// The number of digital inputs in meter.
pub const ITWIN_METER_DIGITAL_INPUT_COUNT: usize = 8;

/// Meter of mixer.
#[derive(Debug, Clone, PartialEq, Eq)]
pub struct ItwinMixerMeter(pub ShellMixerMeter);

impl Default for ItwinMixerMeter {
    fn default() -> (r: Self)
        ensures
            r.0.stream_inputs@.len() == 2,
            r.0.analog_inputs@.len() == ITWIN_METER_ANALOG_INPUT_COUNT,
            r.0.digital_inputs@.len() == ITWIN_METER_DIGITAL_INPUT_COUNT,
            r.0.main_outputs@.len() == 2,
    {
        ItwinMixerMeter(ItwinProtocol::create_meter_state())
    }
}

impl ShellMixerMeterSpecification for ItwinProtocol {
    const ANALOG_INPUT_COUNT: usize = ITWIN_METER_ANALOG_INPUT_COUNT;
    const DIGITAL_INPUT_COUNT: usize = ITWIN_METER_DIGITAL_INPUT_COUNT;
}

impl TcKonnektSegmentSerdes<ItwinMixerMeter> for ItwinProtocol {
    const NAME: &'static str = "mixer-meter";
    const OFFSET: usize = 0x106c;
    const SIZE: usize = SHELL_MIXER_METER_SIZE;

    open spec fn segment_fits(params: ItwinMixerMeter) -> bool {
        mixer_meter_fits::<ItwinProtocol>(params.0, SHELL_MIXER_METER_SIZE as int)
    }

    fn serialize(params: &ItwinMixerMeter, raw: &mut [u8]) -> (r: Result<(), String>)
        ensures
            r.is_ok(),
            final(raw)@ == put_mixer_meter::<ItwinProtocol>(old(raw)@, params.0),
    {
        serialize_mixer_meter::<ItwinProtocol>(&params.0, raw)
    }

    fn deserialize(params: &mut ItwinMixerMeter, raw: &[u8]) -> (r: Result<(), String>)
        ensures
            r.is_ok(),
            mixer_meter_decoded::<ItwinProtocol>(raw@, old(params).0, final(params).0),
    {
        deserialize_mixer_meter::<ItwinProtocol>(&mut params.0, raw)
    }
}

/// Meter of reverb effect.
#[derive(Default, Debug, Copy, Clone, PartialEq, Eq)]
pub struct ItwinReverbMeter(pub ReverbMeter);

impl TcKonnektSegmentSerdes<ItwinReverbMeter> for ItwinProtocol {
    const NAME: &'static str = "reverb-meter";
    const OFFSET: usize = 0x10c8;
    const SIZE: usize = REVERB_METER_SIZE;

    open spec fn segment_fits(params: ItwinReverbMeter) -> bool {
        true
    }

    fn serialize(params: &ItwinReverbMeter, raw: &mut [u8]) -> (r: Result<(), String>)
        ensures
            r.is_ok() <==> (true),
            final(raw)@ == put_reverb_meter(old(raw)@, 0, params.0),
    {
        let len = raw.len();
        serialize_reverb_meter(&params.0, raw, 0)?;
        Ok(())
    }

    fn deserialize(params: &mut ItwinReverbMeter, raw: &[u8]) -> (r: Result<(), String>)
        ensures
            r.is_ok() <==> (true),
            reverb_meter_decoded(raw@, 0, old(params).0, final(params).0),
    {
        let len = raw.len();
        let _ = deserialize_reverb_meter(&mut params.0, raw, 0);
        Ok(())
    }
}

/// Meters of channel strip effect.
#[derive(Debug, Copy, Clone, PartialEq, Eq)]
pub struct ItwinChStripMeters(pub [ChStripMeter; SHELL_CH_STRIP_COUNT]);

impl Default for ItwinChStripMeters {
    fn default() -> Self {
        ItwinChStripMeters([ChStripMeter::default(), ChStripMeter::default()])
    }
}

impl TcKonnektSegmentSerdes<ItwinChStripMeters> for ItwinProtocol {
    const NAME: &'static str = "channel-strip-meter";
    const OFFSET: usize = 0x10e0;
    const SIZE: usize = CH_STRIP_METER_SIZE * SHELL_CH_STRIP_COUNT + 4;

    open spec fn segment_fits(params: ItwinChStripMeters) -> bool {
        true
    }

    fn serialize(params: &ItwinChStripMeters, raw: &mut [u8]) -> (r: Result<(), String>)
        ensures
            r.is_ok(),
            final(raw)@ == put_ch_strip_meters(old(raw)@, params.0@),
    {
        serialize_ch_strip_meters(params.0.as_slice(), raw)
    }

    fn deserialize(params: &mut ItwinChStripMeters, raw: &[u8]) -> (r: Result<(), String>)
        ensures
            r.is_ok(),
            forall|i: int|
                0 <= i < 2 ==> ch_strip_meter_decoded(
                    raw@,
                    ch_strip_meter_pos(i),
                    old(params).0@[i],
                    #[trigger] final(params).0@[i],
                ),
    {
        let mut meters = [params.0[0], params.0[1]];
        let r = deserialize_ch_strip_meters(&mut meters, raw);
        params.0 = meters;
        r
    }
}

} // verus!

verus! {

impl AsRef<crate::tcelectronic::TcKonnektStandaloneClockRate> for ItwinConfig {
    fn as_ref(&self) -> &crate::tcelectronic::TcKonnektStandaloneClockRate
        returns
            &self.standalone_rate,
    {
        &self.standalone_rate
    }
}

impl AsMut<crate::tcelectronic::TcKonnektStandaloneClockRate> for ItwinConfig {
    fn as_mut(&mut self) -> (r: &mut crate::tcelectronic::TcKonnektStandaloneClockRate)
        ensures
            *r == old(self).standalone_rate,
            *final(self) == (ItwinConfig { standalone_rate: *final(r), ..*old(self) }),
    {
        &mut self.standalone_rate
    }
}

impl AsRef<crate::tcelectronic::shell::ShellMixerState> for ItwinMixerState {
    fn as_ref(&self) -> &crate::tcelectronic::shell::ShellMixerState
        returns
            &self.mixer,
    {
        &self.mixer
    }
}

impl AsMut<crate::tcelectronic::shell::ShellMixerState> for ItwinMixerState {
    fn as_mut(&mut self) -> (r: &mut crate::tcelectronic::shell::ShellMixerState)
        ensures
            *r == old(self).mixer,
            *final(self) == (ItwinMixerState { mixer: *final(r), ..*old(self) }),
    {
        &mut self.mixer
    }
}

impl AsRef<crate::tcelectronic::reverb::ReverbState> for ItwinReverbState {
    fn as_ref(&self) -> &crate::tcelectronic::reverb::ReverbState
        returns
            &self.0,
    {
        &self.0
    }
}

impl AsMut<crate::tcelectronic::reverb::ReverbState> for ItwinReverbState {
    fn as_mut(&mut self) -> (r: &mut crate::tcelectronic::reverb::ReverbState)
        ensures
            *r == old(self).0,
            *final(self) == ItwinReverbState(*final(r)),
    {
        &mut self.0
    }
}

impl AsRef<[crate::tcelectronic::ch_strip::ChStripState]> for ItwinChStripStates {
    fn as_ref(&self) -> (r: &[crate::tcelectronic::ch_strip::ChStripState])
        ensures
            r@ == self.0@,
    {
        &self.0
    }
}

impl AsMut<[crate::tcelectronic::ch_strip::ChStripState]> for ItwinChStripStates {
    fn as_mut(&mut self) -> (r: &mut [crate::tcelectronic::ch_strip::ChStripState])
        ensures
            r@ == old(self).0@,
            final(self).0@ == final(r)@,
    {
        &mut self.0
    }
}

impl AsRef<crate::tcelectronic::shell::ShellHwState> for ItwinHwState {
    fn as_ref(&self) -> &crate::tcelectronic::shell::ShellHwState
        returns
            &self.hw_state,
    {
        &self.hw_state
    }
}

impl AsMut<crate::tcelectronic::shell::ShellHwState> for ItwinHwState {
    fn as_mut(&mut self) -> (r: &mut crate::tcelectronic::shell::ShellHwState)
        ensures
            *r == old(self).hw_state,
            *final(self) == (ItwinHwState { hw_state: *final(r), ..*old(self) }),
    {
        &mut self.hw_state
    }
}

impl AsRef<crate::tcelectronic::FireWireLedState> for ItwinHwState {
    fn as_ref(&self) -> &crate::tcelectronic::FireWireLedState
        returns
            &self.hw_state.firewire_led,
    {
        &self.hw_state.firewire_led
    }
}

impl AsMut<crate::tcelectronic::FireWireLedState> for ItwinHwState {
    fn as_mut(&mut self) -> (r: &mut crate::tcelectronic::FireWireLedState)
        ensures
            *r == old(self).hw_state.firewire_led,
            *final(self) == (ItwinHwState { hw_state: crate::tcelectronic::shell::ShellHwState { firewire_led: *final(r), ..old(self).hw_state }, ..*old(self) }),
    {
        &mut self.hw_state.firewire_led
    }
}

impl AsRef<crate::tcelectronic::shell::ShellMixerMeter> for ItwinMixerMeter {
    fn as_ref(&self) -> &crate::tcelectronic::shell::ShellMixerMeter
        returns
            &self.0,
    {
        &self.0
    }
}

impl AsMut<crate::tcelectronic::shell::ShellMixerMeter> for ItwinMixerMeter {
    fn as_mut(&mut self) -> (r: &mut crate::tcelectronic::shell::ShellMixerMeter)
        ensures
            *r == old(self).0,
            *final(self) == ItwinMixerMeter(*final(r)),
    {
        &mut self.0
    }
}

impl AsRef<crate::tcelectronic::reverb::ReverbMeter> for ItwinReverbMeter {
    fn as_ref(&self) -> &crate::tcelectronic::reverb::ReverbMeter
        returns
            &self.0,
    {
        &self.0
    }
}

impl AsMut<crate::tcelectronic::reverb::ReverbMeter> for ItwinReverbMeter {
    fn as_mut(&mut self) -> (r: &mut crate::tcelectronic::reverb::ReverbMeter)
        ensures
            *r == old(self).0,
            *final(self) == ItwinReverbMeter(*final(r)),
    {
        &mut self.0
    }
}

impl AsRef<[crate::tcelectronic::ch_strip::ChStripMeter]> for ItwinChStripMeters {
    fn as_ref(&self) -> (r: &[crate::tcelectronic::ch_strip::ChStripMeter])
        ensures
            r@ == self.0@,
    {
        &self.0
    }
}

impl AsMut<[crate::tcelectronic::ch_strip::ChStripMeter]> for ItwinChStripMeters {
    fn as_mut(&mut self) -> (r: &mut [crate::tcelectronic::ch_strip::ChStripMeter])
        ensures
            r@ == old(self).0@,
            final(self).0@ == final(r)@,
    {
        &mut self.0
    }
}

} // verus!
