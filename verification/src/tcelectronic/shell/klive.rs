//! Protocol specific to TC Electronic Konnekt Live.


use crate::codec::{
    be_bool_at, be_i32_at, be_quad_at, deserialize_position, position_of, put_be_bool,
    put_be_i32, put_be_quad, read_be_bool, read_be_quad, serialize_position, write_be_bool,
    write_be_quad, TableEntry,
};
use crate::tcelectronic::ch_strip::{
    ch_strip_meter_decoded, ch_strip_meter_pos, ch_strip_state_decoded, ch_strip_state_pos,
    ch_strip_states_decodable, deserialize_ch_strip_meters, deserialize_ch_strip_states,
    put_ch_strip_meters, put_ch_strip_states, serialize_ch_strip_meters, serialize_ch_strip_states,
    ChStripMeter, ChStripState, CH_STRIP_METER_SIZE, CH_STRIP_STATE_SIZE,
};
use crate::tcelectronic::reverb::{
    deserialize_reverb_meter, deserialize_reverb_state, put_reverb_meter, put_reverb_state,
    reverb_meter_decoded, reverb_state_decodable, reverb_state_decoded, serialize_reverb_meter,
    serialize_reverb_state, ReverbMeter, ReverbState, REVERB_METER_SIZE, REVERB_STATE_SIZE,
};
use crate::tcelectronic::shell::{
    count_srcs, deserialize_coax_out_pair_source, deserialize_hw_state, deserialize_knob0_target,
    deserialize_knob1_target, deserialize_mixer_meter, deserialize_mixer_state,
    deserialize_mixer_stream_source_pair, deserialize_opt_iface_config, deserialize_phys_out_src,
    deserialize_reverb_return, deserialize_standalone_clock_source, hw_state_decodable,
    hw_state_decoded, is_analog_src, is_digital_src, mixer_meter_decoded, mixer_meter_fits,
    mixer_state_decoded, mixer_state_fits, opt_iface_config_decodable, opt_iface_config_decoded,
    phys_out_srcs, put_hw_state, put_mixer_meter, put_mixer_state, put_opt_iface_config,
    put_reverb_return, reverb_return_decoded, serialize_coax_out_pair_source, serialize_hw_state,
    serialize_knob0_target, serialize_knob1_target, serialize_mixer_meter, serialize_mixer_state,
    serialize_mixer_stream_source_pair, serialize_opt_iface_config, serialize_phys_out_src,
    serialize_reverb_return, serialize_standalone_clock_source, ShellCoaxOutPairSrc, ShellHwState,
    ShellKnob0Target, ShellKnob0TargetSpecification, ShellKnob1Target,
    ShellKnob1TargetSpecification, ShellMixerMeter, ShellMixerMeterSpecification,
    ShellMixerMonitorSrcType, ShellMixerState, ShellMixerStateSpecification,
    ShellMixerStreamSourcePair, ShellMixerStreamSourcePairSpecification, ShellOptIfaceConfig,
    ShellPhysOutSrc, ShellReverbReturn, ShellStandaloneClockSource,
    ShellStandaloneClockSpecification, SHELL_CH_STRIP_COUNT, SHELL_HW_STATE_SIZE,
    SHELL_KNOB_SEGMENT_SIZE, SHELL_MIXER_METER_SIZE, SHELL_MIXER_STATE_SIZE,
};
use crate::tcelectronic::{
    deserialize_loaded_program, deserialize_standalone_clock_rate, loaded_programs,
    serialize_loaded_program, serialize_standalone_clock_rate, standalone_clock_rates,
    TcKonnektLoadedProgram, TcKonnektSegmentSerdes, TcKonnektStandaloneClockRate,
};
use vstd::prelude::*;

verus! {

/// Protocol implementation specific to Konnekt Live.
#[derive(Default, Debug)]
pub struct KliveProtocol;

/// Impedance of output.
#[derive(Debug, Copy, Clone, PartialEq, Eq, Structural)]
pub enum OutputImpedance {
    Unbalance,
    Balance,
}

impl Default for OutputImpedance {
    fn default() -> (r: Self)
        ensures
            r == OutputImpedance::Unbalance,
    {
        OutputImpedance::Unbalance
    }
}

impl TableEntry for OutputImpedance {
    fn same(&self, other: &Self) -> (r: bool) {
        *self == *other
    }
}

/// The order of the values on the wire.
pub open spec fn output_impedances() -> Seq<OutputImpedance> {
    seq![
        OutputImpedance::Unbalance,
        OutputImpedance::Balance,
    ]
}

/// The entries of `output_impedances` in their order; the place of an entry is the code which stands for it.
pub proof fn lemma_output_impedances_order()
    ensures
        output_impedances().len() == 2,
        output_impedances()[0] == OutputImpedance::Unbalance,
        output_impedances()[1] == OutputImpedance::Balance,
{
}

fn output_impedances_exec() -> (r: &'static [OutputImpedance])
    ensures
        r@ == output_impedances(),
{
    &[
        OutputImpedance::Unbalance,
        OutputImpedance::Balance,
    ]
}

/// Every value has its place on the wire.
pub proof fn lemma_output_impedances_contains(v: OutputImpedance)
    ensures
        output_impedances().contains(v),
{
    match v {
        OutputImpedance::Unbalance => assert(output_impedances()[0] == v),
        OutputImpedance::Balance => assert(output_impedances()[1] == v),
    }
}

/// Serialize the value as its position at `pos`.
pub fn serialize_output_impedance(v: &OutputImpedance, raw: &mut [u8], pos: usize) -> (r: Result<(), String>)
    requires
        pos + 4 <= old(raw)@.len(),
    ensures
        r.is_ok(),
        final(raw)@ == put_be_quad(old(raw)@, pos as int, position_of(output_impedances(), *v) as u32),
        final(raw)@.len() == old(raw)@.len(),
{
    proof {
        lemma_output_impedances_contains(*v);
    }
    serialize_position(output_impedances_exec(), v, raw, pos, "output impedance")
}

/// Deserialize the value from its position at `pos`.
pub fn deserialize_output_impedance(v: &mut OutputImpedance, raw: &[u8], pos: usize) -> (r: Result<(), String>)
    requires
        pos + 4 <= raw@.len(),
    ensures
        r.is_ok() <==> (be_quad_at(raw@, pos as int) as int) < output_impedances().len(),
        r.is_ok() ==> *final(v) == output_impedances()[be_quad_at(raw@, pos as int) as int],
        r.is_err() ==> *final(v) == *old(v),
{
    deserialize_position(output_impedances_exec(), v, raw, pos, "output impedance")
}

/// State of knob.
#[derive(Debug, Copy, Clone, PartialEq, Eq)]
pub struct KliveKnob {
    pub knob0_target: ShellKnob0Target,
    pub knob1_target: ShellKnob1Target,
    pub prog: TcKonnektLoadedProgram,
    pub out_impedance: [OutputImpedance; 2],
}

impl Default for KliveKnob {
    fn default() -> (r: Self)
        ensures
            r == (KliveKnob { knob0_target: ShellKnob0Target::Analog0, knob1_target: ShellKnob1Target::Digital0_1, prog: TcKonnektLoadedProgram::P0, out_impedance: [OutputImpedance::Unbalance, OutputImpedance::Unbalance] }),
    {
        KliveKnob { knob0_target: ShellKnob0Target::Analog0, knob1_target: ShellKnob1Target::Digital0_1, prog: TcKonnektLoadedProgram::P0, out_impedance: [OutputImpedance::Unbalance, OutputImpedance::Unbalance] }
    }
}

impl ShellKnob0TargetSpecification for KliveProtocol {
    open spec fn knob0_target_list() -> Seq<ShellKnob0Target> {
        seq![
            ShellKnob0Target::Analog0,
            ShellKnob0Target::Analog1,
            ShellKnob0Target::Analog2_3,
            ShellKnob0Target::Configurable,
        ]
    }

    fn knob0_targets() -> (r: &'static [ShellKnob0Target]) {
        &[
            ShellKnob0Target::Analog0,
            ShellKnob0Target::Analog1,
            ShellKnob0Target::Analog2_3,
            ShellKnob0Target::Configurable,
        ]
    }
}

impl ShellKnob1TargetSpecification for KliveProtocol {
    open spec fn knob1_target_list() -> Seq<ShellKnob1Target> {
        seq![
            ShellKnob1Target::Digital0_1,
            ShellKnob1Target::Digital2_3,
            ShellKnob1Target::Digital4_5,
            ShellKnob1Target::Digital6_7,
            ShellKnob1Target::Stream,
            ShellKnob1Target::Reverb,
            ShellKnob1Target::Mixer,
            ShellKnob1Target::TunerPitchTone,
            ShellKnob1Target::MidiSend,
        ]
    }

    fn knob1_targets() -> (r: &'static [ShellKnob1Target]) {
        &[
            ShellKnob1Target::Digital0_1,
            ShellKnob1Target::Digital2_3,
            ShellKnob1Target::Digital4_5,
            ShellKnob1Target::Digital6_7,
            ShellKnob1Target::Stream,
            ShellKnob1Target::Reverb,
            ShellKnob1Target::Mixer,
            ShellKnob1Target::TunerPitchTone,
            ShellKnob1Target::MidiSend,
        ]
    }
}

impl TcKonnektSegmentSerdes<KliveKnob> for KliveProtocol {
    const NAME: &'static str = "knob";
    const OFFSET: usize = 0x0004;
    const SIZE: usize = SHELL_KNOB_SEGMENT_SIZE;

    open spec fn segment_fits(params: KliveKnob) -> bool {
        true
    }

    fn serialize(params: &KliveKnob, raw: &mut [u8]) -> (r: Result<(), String>)
        ensures
            r.is_ok() <==> (KliveProtocol::knob0_target_list().contains(params.knob0_target) && KliveProtocol::knob1_target_list().contains(params.knob1_target)),
            final(raw)@ == (if KliveProtocol::knob0_target_list().contains(params.knob0_target) { (if KliveProtocol::knob1_target_list().contains(params.knob1_target) { put_be_quad(put_be_quad(put_be_quad(put_be_quad(put_be_quad(old(raw)@, 0, position_of(KliveProtocol::knob0_target_list(), params.knob0_target) as u32), 4, position_of(KliveProtocol::knob1_target_list(), params.knob1_target) as u32), 8, position_of(loaded_programs(), params.prog) as u32), 12, position_of(output_impedances(), params.out_impedance[0]) as u32), 16, position_of(output_impedances(), params.out_impedance[1]) as u32) } else { put_be_quad(old(raw)@, 0, position_of(KliveProtocol::knob0_target_list(), params.knob0_target) as u32) }) } else { old(raw)@ }),
    {
        let len = raw.len();
        serialize_knob0_target::<KliveProtocol>(&params.knob0_target, raw, 0)?;
        serialize_knob1_target::<KliveProtocol>(&params.knob1_target, raw, 4)?;
        serialize_loaded_program(&params.prog, raw, 8)?;
        serialize_output_impedance(&params.out_impedance[0], raw, 12)?;
        serialize_output_impedance(&params.out_impedance[1], raw, 16)?;
        Ok(())
    }

    fn deserialize(params: &mut KliveKnob, raw: &[u8]) -> (r: Result<(), String>)
        ensures
            r.is_ok() <==> ((be_quad_at(raw@, 0) as int) < KliveProtocol::knob0_target_list().len() && (be_quad_at(raw@, 4) as int) < KliveProtocol::knob1_target_list().len() && (be_quad_at(raw@, 8) as int) < loaded_programs().len() && (be_quad_at(raw@, 12) as int) < output_impedances().len() && (be_quad_at(raw@, 16) as int) < output_impedances().len()),
            (true && (be_quad_at(raw@, 0) as int) < KliveProtocol::knob0_target_list().len()) ==> final(params).knob0_target == KliveProtocol::knob0_target_list()[be_quad_at(raw@, 0) as int],
            !(true && (be_quad_at(raw@, 0) as int) < KliveProtocol::knob0_target_list().len()) ==> final(params).knob0_target == old(params).knob0_target,
            ((be_quad_at(raw@, 0) as int) < KliveProtocol::knob0_target_list().len() && (be_quad_at(raw@, 4) as int) < KliveProtocol::knob1_target_list().len()) ==> final(params).knob1_target == KliveProtocol::knob1_target_list()[be_quad_at(raw@, 4) as int],
            !((be_quad_at(raw@, 0) as int) < KliveProtocol::knob0_target_list().len() && (be_quad_at(raw@, 4) as int) < KliveProtocol::knob1_target_list().len()) ==> final(params).knob1_target == old(params).knob1_target,
            ((be_quad_at(raw@, 0) as int) < KliveProtocol::knob0_target_list().len() && (be_quad_at(raw@, 4) as int) < KliveProtocol::knob1_target_list().len() && (be_quad_at(raw@, 8) as int) < loaded_programs().len()) ==> final(params).prog == loaded_programs()[be_quad_at(raw@, 8) as int],
            !((be_quad_at(raw@, 0) as int) < KliveProtocol::knob0_target_list().len() && (be_quad_at(raw@, 4) as int) < KliveProtocol::knob1_target_list().len() && (be_quad_at(raw@, 8) as int) < loaded_programs().len()) ==> final(params).prog == old(params).prog,
            ((be_quad_at(raw@, 0) as int) < KliveProtocol::knob0_target_list().len() && (be_quad_at(raw@, 4) as int) < KliveProtocol::knob1_target_list().len() && (be_quad_at(raw@, 8) as int) < loaded_programs().len() && (be_quad_at(raw@, 12) as int) < output_impedances().len()) ==> final(params).out_impedance[0] == output_impedances()[be_quad_at(raw@, 12) as int],
            !((be_quad_at(raw@, 0) as int) < KliveProtocol::knob0_target_list().len() && (be_quad_at(raw@, 4) as int) < KliveProtocol::knob1_target_list().len() && (be_quad_at(raw@, 8) as int) < loaded_programs().len() && (be_quad_at(raw@, 12) as int) < output_impedances().len()) ==> final(params).out_impedance[0] == old(params).out_impedance[0],
            ((be_quad_at(raw@, 0) as int) < KliveProtocol::knob0_target_list().len() && (be_quad_at(raw@, 4) as int) < KliveProtocol::knob1_target_list().len() && (be_quad_at(raw@, 8) as int) < loaded_programs().len() && (be_quad_at(raw@, 12) as int) < output_impedances().len() && (be_quad_at(raw@, 16) as int) < output_impedances().len()) ==> final(params).out_impedance[1] == output_impedances()[be_quad_at(raw@, 16) as int],
            !((be_quad_at(raw@, 0) as int) < KliveProtocol::knob0_target_list().len() && (be_quad_at(raw@, 4) as int) < KliveProtocol::knob1_target_list().len() && (be_quad_at(raw@, 8) as int) < loaded_programs().len() && (be_quad_at(raw@, 12) as int) < output_impedances().len() && (be_quad_at(raw@, 16) as int) < output_impedances().len()) ==> final(params).out_impedance[1] == old(params).out_impedance[1],
    {
        let len = raw.len();
        deserialize_knob0_target::<KliveProtocol>(&mut params.knob0_target, raw, 0)?;
        deserialize_knob1_target::<KliveProtocol>(&mut params.knob1_target, raw, 4)?;
        deserialize_loaded_program(&mut params.prog, raw, 8)?;
        deserialize_output_impedance(&mut params.out_impedance[0], raw, 12)?;
        deserialize_output_impedance(&mut params.out_impedance[1], raw, 16)?;
        Ok(())
    }
}

/// Configuration.
#[derive(Default, Debug, Copy, Clone, PartialEq, Eq, Structural)]
pub struct KliveConfig {
    pub opt: ShellOptIfaceConfig,
    pub coax_out_src: ShellCoaxOutPairSrc,
    pub out_01_src: ShellPhysOutSrc,
    pub out_23_src: ShellPhysOutSrc,
    pub mixer_stream_src_pair: ShellMixerStreamSourcePair,
    pub standalone_src: ShellStandaloneClockSource,
    pub standalone_rate: TcKonnektStandaloneClockRate,
}

impl ShellMixerStreamSourcePairSpecification for KliveProtocol {
    open spec fn mixer_stream_source_pair_list() -> Seq<ShellMixerStreamSourcePair> {
        seq![
            ShellMixerStreamSourcePair::Stream0_1,
            ShellMixerStreamSourcePair::Stream2_3,
            ShellMixerStreamSourcePair::Stream4_5,
            ShellMixerStreamSourcePair::Stream6_7,
            ShellMixerStreamSourcePair::Stream8_9,
            ShellMixerStreamSourcePair::Stream10_11,
        ]
    }

    fn mixer_stream_source_pairs() -> (r: &'static [ShellMixerStreamSourcePair]) {
        &[
            ShellMixerStreamSourcePair::Stream0_1,
            ShellMixerStreamSourcePair::Stream2_3,
            ShellMixerStreamSourcePair::Stream4_5,
            ShellMixerStreamSourcePair::Stream6_7,
            ShellMixerStreamSourcePair::Stream8_9,
            ShellMixerStreamSourcePair::Stream10_11,
        ]
    }
}

impl ShellStandaloneClockSpecification for KliveProtocol {
    open spec fn standalone_clock_source_list() -> Seq<ShellStandaloneClockSource> {
        seq![
            ShellStandaloneClockSource::Optical,
            ShellStandaloneClockSource::Coaxial,
            ShellStandaloneClockSource::Internal,
        ]
    }

    fn standalone_clock_sources() -> (r: &'static [ShellStandaloneClockSource]) {
        &[
            ShellStandaloneClockSource::Optical,
            ShellStandaloneClockSource::Coaxial,
            ShellStandaloneClockSource::Internal,
        ]
    }
}

impl TcKonnektSegmentSerdes<KliveConfig> for KliveProtocol {
    const NAME: &'static str = "configuration";
    const OFFSET: usize = 0x0028;
    const SIZE: usize = 132;

    open spec fn segment_fits(params: KliveConfig) -> bool {
        true
    }

    fn serialize(params: &KliveConfig, raw: &mut [u8]) -> (r: Result<(), String>)
        ensures
            r.is_ok() <==> (KliveProtocol::mixer_stream_source_pair_list().contains(params.mixer_stream_src_pair) && KliveProtocol::standalone_clock_source_list().contains(params.standalone_src)),
            final(raw)@ == (if KliveProtocol::mixer_stream_source_pair_list().contains(params.mixer_stream_src_pair) { (if KliveProtocol::standalone_clock_source_list().contains(params.standalone_src) { put_be_quad(put_be_quad(put_be_quad(put_be_quad(put_be_quad(put_be_quad(put_opt_iface_config(old(raw)@, 0, params.opt), 12, position_of(phys_out_srcs(), params.coax_out_src.0) as u32), 16, position_of(phys_out_srcs(), params.out_01_src) as u32), 20, position_of(phys_out_srcs(), params.out_23_src) as u32), 24, position_of(KliveProtocol::mixer_stream_source_pair_list(), params.mixer_stream_src_pair) as u32), 28, position_of(KliveProtocol::standalone_clock_source_list(), params.standalone_src) as u32), 32, position_of(standalone_clock_rates(), params.standalone_rate) as u32) } else { put_be_quad(put_be_quad(put_be_quad(put_be_quad(put_opt_iface_config(old(raw)@, 0, params.opt), 12, position_of(phys_out_srcs(), params.coax_out_src.0) as u32), 16, position_of(phys_out_srcs(), params.out_01_src) as u32), 20, position_of(phys_out_srcs(), params.out_23_src) as u32), 24, position_of(KliveProtocol::mixer_stream_source_pair_list(), params.mixer_stream_src_pair) as u32) }) } else { put_be_quad(put_be_quad(put_be_quad(put_opt_iface_config(old(raw)@, 0, params.opt), 12, position_of(phys_out_srcs(), params.coax_out_src.0) as u32), 16, position_of(phys_out_srcs(), params.out_01_src) as u32), 20, position_of(phys_out_srcs(), params.out_23_src) as u32) }),
    {
        let len = raw.len();
        serialize_opt_iface_config(&params.opt, raw, 0)?;
        serialize_coax_out_pair_source(&params.coax_out_src, raw, 12)?;
        serialize_phys_out_src(&params.out_01_src, raw, 16)?;
        serialize_phys_out_src(&params.out_23_src, raw, 20)?;
        serialize_mixer_stream_source_pair::<KliveProtocol>(&params.mixer_stream_src_pair, raw, 24)?;
        serialize_standalone_clock_source::<KliveProtocol>(&params.standalone_src, raw, 28)?;
        serialize_standalone_clock_rate(&params.standalone_rate, raw, 32)?;
        Ok(())
    }

    fn deserialize(params: &mut KliveConfig, raw: &[u8]) -> (r: Result<(), String>)
        ensures
            r.is_ok() <==> (opt_iface_config_decodable(raw@, 0) && (be_quad_at(raw@, 12) as int) < phys_out_srcs().len() && (be_quad_at(raw@, 16) as int) < phys_out_srcs().len() && (be_quad_at(raw@, 20) as int) < phys_out_srcs().len() && (be_quad_at(raw@, 24) as int) < KliveProtocol::mixer_stream_source_pair_list().len() && (be_quad_at(raw@, 28) as int) < KliveProtocol::standalone_clock_source_list().len() && (be_quad_at(raw@, 32) as int) < standalone_clock_rates().len()),
            opt_iface_config_decoded(raw@, 0, old(params).opt, final(params).opt),
            (opt_iface_config_decodable(raw@, 0) && (be_quad_at(raw@, 12) as int) < phys_out_srcs().len()) ==> final(params).coax_out_src.0 == phys_out_srcs()[be_quad_at(raw@, 12) as int],
            !(opt_iface_config_decodable(raw@, 0) && (be_quad_at(raw@, 12) as int) < phys_out_srcs().len()) ==> final(params).coax_out_src == old(params).coax_out_src,
            (opt_iface_config_decodable(raw@, 0) && (be_quad_at(raw@, 12) as int) < phys_out_srcs().len() && (be_quad_at(raw@, 16) as int) < phys_out_srcs().len()) ==> final(params).out_01_src == phys_out_srcs()[be_quad_at(raw@, 16) as int],
            !(opt_iface_config_decodable(raw@, 0) && (be_quad_at(raw@, 12) as int) < phys_out_srcs().len() && (be_quad_at(raw@, 16) as int) < phys_out_srcs().len()) ==> final(params).out_01_src == old(params).out_01_src,
            (opt_iface_config_decodable(raw@, 0) && (be_quad_at(raw@, 12) as int) < phys_out_srcs().len() && (be_quad_at(raw@, 16) as int) < phys_out_srcs().len() && (be_quad_at(raw@, 20) as int) < phys_out_srcs().len()) ==> final(params).out_23_src == phys_out_srcs()[be_quad_at(raw@, 20) as int],
            !(opt_iface_config_decodable(raw@, 0) && (be_quad_at(raw@, 12) as int) < phys_out_srcs().len() && (be_quad_at(raw@, 16) as int) < phys_out_srcs().len() && (be_quad_at(raw@, 20) as int) < phys_out_srcs().len()) ==> final(params).out_23_src == old(params).out_23_src,
            (opt_iface_config_decodable(raw@, 0) && (be_quad_at(raw@, 12) as int) < phys_out_srcs().len() && (be_quad_at(raw@, 16) as int) < phys_out_srcs().len() && (be_quad_at(raw@, 20) as int) < phys_out_srcs().len() && (be_quad_at(raw@, 24) as int) < KliveProtocol::mixer_stream_source_pair_list().len()) ==> final(params).mixer_stream_src_pair == KliveProtocol::mixer_stream_source_pair_list()[be_quad_at(raw@, 24) as int],
            !(opt_iface_config_decodable(raw@, 0) && (be_quad_at(raw@, 12) as int) < phys_out_srcs().len() && (be_quad_at(raw@, 16) as int) < phys_out_srcs().len() && (be_quad_at(raw@, 20) as int) < phys_out_srcs().len() && (be_quad_at(raw@, 24) as int) < KliveProtocol::mixer_stream_source_pair_list().len()) ==> final(params).mixer_stream_src_pair == old(params).mixer_stream_src_pair,
            (opt_iface_config_decodable(raw@, 0) && (be_quad_at(raw@, 12) as int) < phys_out_srcs().len() && (be_quad_at(raw@, 16) as int) < phys_out_srcs().len() && (be_quad_at(raw@, 20) as int) < phys_out_srcs().len() && (be_quad_at(raw@, 24) as int) < KliveProtocol::mixer_stream_source_pair_list().len() && (be_quad_at(raw@, 28) as int) < KliveProtocol::standalone_clock_source_list().len()) ==> final(params).standalone_src == KliveProtocol::standalone_clock_source_list()[be_quad_at(raw@, 28) as int],
            !(opt_iface_config_decodable(raw@, 0) && (be_quad_at(raw@, 12) as int) < phys_out_srcs().len() && (be_quad_at(raw@, 16) as int) < phys_out_srcs().len() && (be_quad_at(raw@, 20) as int) < phys_out_srcs().len() && (be_quad_at(raw@, 24) as int) < KliveProtocol::mixer_stream_source_pair_list().len() && (be_quad_at(raw@, 28) as int) < KliveProtocol::standalone_clock_source_list().len()) ==> final(params).standalone_src == old(params).standalone_src,
            (opt_iface_config_decodable(raw@, 0) && (be_quad_at(raw@, 12) as int) < phys_out_srcs().len() && (be_quad_at(raw@, 16) as int) < phys_out_srcs().len() && (be_quad_at(raw@, 20) as int) < phys_out_srcs().len() && (be_quad_at(raw@, 24) as int) < KliveProtocol::mixer_stream_source_pair_list().len() && (be_quad_at(raw@, 28) as int) < KliveProtocol::standalone_clock_source_list().len() && (be_quad_at(raw@, 32) as int) < standalone_clock_rates().len()) ==> final(params).standalone_rate == standalone_clock_rates()[be_quad_at(raw@, 32) as int],
            !(opt_iface_config_decodable(raw@, 0) && (be_quad_at(raw@, 12) as int) < phys_out_srcs().len() && (be_quad_at(raw@, 16) as int) < phys_out_srcs().len() && (be_quad_at(raw@, 20) as int) < phys_out_srcs().len() && (be_quad_at(raw@, 24) as int) < KliveProtocol::mixer_stream_source_pair_list().len() && (be_quad_at(raw@, 28) as int) < KliveProtocol::standalone_clock_source_list().len() && (be_quad_at(raw@, 32) as int) < standalone_clock_rates().len()) ==> final(params).standalone_rate == old(params).standalone_rate,
    {
        let len = raw.len();
        deserialize_opt_iface_config(&mut params.opt, raw, 0)?;
        deserialize_coax_out_pair_source(&mut params.coax_out_src, raw, 12)?;
        deserialize_phys_out_src(&mut params.out_01_src, raw, 16)?;
        deserialize_phys_out_src(&mut params.out_23_src, raw, 20)?;
        deserialize_mixer_stream_source_pair::<KliveProtocol>(&mut params.mixer_stream_src_pair, raw, 24)?;
        deserialize_standalone_clock_source::<KliveProtocol>(&mut params.standalone_src, raw, 28)?;
        deserialize_standalone_clock_rate(&mut params.standalone_rate, raw, 32)?;
        Ok(())
    }
}

/// Source of channel strip effect.
#[derive(Debug, Copy, Clone, PartialEq, Eq, Structural)]
pub enum ChStripSrc {
    Stream01,
    Analog01,
    Analog23,
    Digital01,
    Digital23,
    Digital45,
    Digital67,
    MixerOutput,
    NoSrc,
}

impl Default for ChStripSrc {
    fn default() -> (r: Self)
        ensures
            r == ChStripSrc::NoSrc,
    {
        ChStripSrc::NoSrc
    }
}

/// The code of source of channel strip effect.
pub open spec fn ch_strip_src_code(src: ChStripSrc) -> u32 {
    match src {
        ChStripSrc::Stream01 => 0,
        ChStripSrc::Analog01 => 4,
        ChStripSrc::Analog23 => 5,
        ChStripSrc::Digital01 => 6,
        ChStripSrc::Digital23 => 7,
        ChStripSrc::Digital45 => 8,
        ChStripSrc::Digital67 => 9,
        ChStripSrc::MixerOutput => 10,
        ChStripSrc::NoSrc => 11,
    }
}

/// Each value of `ChStripSrc` has its own value in `ch_strip_src_code`, as the device knows it.
pub proof fn lemma_ch_strip_src_code_table()
    ensures
        ch_strip_src_code(ChStripSrc::Stream01) == 0,
        ch_strip_src_code(ChStripSrc::Analog01) == 4,
        ch_strip_src_code(ChStripSrc::Analog23) == 5,
        ch_strip_src_code(ChStripSrc::Digital01) == 6,
        ch_strip_src_code(ChStripSrc::Digital23) == 7,
        ch_strip_src_code(ChStripSrc::Digital45) == 8,
        ch_strip_src_code(ChStripSrc::Digital67) == 9,
        ch_strip_src_code(ChStripSrc::MixerOutput) == 10,
        ch_strip_src_code(ChStripSrc::NoSrc) == 11,
{
}

/// The source of channel strip effect which the code stands for; unknown codes stand for none.
pub open spec fn ch_strip_src_of(val: u32) -> ChStripSrc {
    if val == 0 {
        ChStripSrc::Stream01
    } else if val == 4 {
        ChStripSrc::Analog01
    } else if val == 5 {
        ChStripSrc::Analog23
    } else if val == 6 {
        ChStripSrc::Digital01
    } else if val == 7 {
        ChStripSrc::Digital23
    } else if val == 8 {
        ChStripSrc::Digital45
    } else if val == 9 {
        ChStripSrc::Digital67
    } else if val == 10 {
        ChStripSrc::MixerOutput
    } else {
        ChStripSrc::NoSrc
    }
}

/// Each value which the device uses is read by `ch_strip_src_of` as its own `ChStripSrc`.
pub proof fn lemma_ch_strip_src_of_table()
    ensures
        ch_strip_src_of(0) == ChStripSrc::Stream01,
        ch_strip_src_of(4) == ChStripSrc::Analog01,
        ch_strip_src_of(5) == ChStripSrc::Analog23,
        ch_strip_src_of(6) == ChStripSrc::Digital01,
        ch_strip_src_of(7) == ChStripSrc::Digital23,
        ch_strip_src_of(8) == ChStripSrc::Digital45,
        ch_strip_src_of(9) == ChStripSrc::Digital67,
        ch_strip_src_of(10) == ChStripSrc::MixerOutput,
{
}

/// Serialize the source of channel strip effect as its code at `pos`.
pub fn serialize_ch_strip_src(src: &ChStripSrc, raw: &mut [u8], pos: usize) -> (r: Result<(), String>)
    requires
        pos + 4 <= old(raw)@.len(),
    ensures
        r.is_ok(),
        final(raw)@ == put_be_quad(old(raw)@, pos as int, ch_strip_src_code(*src)),
        final(raw)@.len() == old(raw)@.len(),
{
    let val: u32 = match src {
        ChStripSrc::Stream01 => 0,
        ChStripSrc::Analog01 => 4,
        ChStripSrc::Analog23 => 5,
        ChStripSrc::Digital01 => 6,
        ChStripSrc::Digital23 => 7,
        ChStripSrc::Digital45 => 8,
        ChStripSrc::Digital67 => 9,
        ChStripSrc::MixerOutput => 10,
        ChStripSrc::NoSrc => 11,
    };
    write_be_quad(raw, pos, val);
    Ok(())
}

/// Deserialize the source of channel strip effect from its code at `pos`.
pub fn deserialize_ch_strip_src(src: &mut ChStripSrc, raw: &[u8], pos: usize) -> (r: Result<(), String>)
    requires
        pos + 4 <= raw@.len(),
    ensures
        r.is_ok(),
        *final(src) == ch_strip_src_of(be_quad_at(raw@, pos as int)),
{
    let val = read_be_quad(raw, pos);
    *src = if val == 0 {
        ChStripSrc::Stream01
    } else if val == 4 {
        ChStripSrc::Analog01
    } else if val == 5 {
        ChStripSrc::Analog23
    } else if val == 6 {
        ChStripSrc::Digital01
    } else if val == 7 {
        ChStripSrc::Digital23
    } else if val == 8 {
        ChStripSrc::Digital45
    } else if val == 9 {
        ChStripSrc::Digital67
    } else if val == 10 {
        ChStripSrc::MixerOutput
    } else {
        ChStripSrc::NoSrc
    };
    Ok(())
}

/// A source of channel strip effect is read back from its code.
pub proof fn lemma_ch_strip_src_roundtrip(src: ChStripSrc)
    ensures
        ch_strip_src_of(ch_strip_src_code(src)) == src,
{
}

/// Mode of channel strip effect.
#[derive(Debug, Copy, Clone, PartialEq, Eq, Structural)]
pub enum ChStripMode {
    FabrikC,
    RIAA1964,
    RIAA1987,
}

impl Default for ChStripMode {
    fn default() -> (r: Self)
        ensures
            r == ChStripMode::FabrikC,
    {
        ChStripMode::FabrikC
    }
}

impl TableEntry for ChStripMode {
    fn same(&self, other: &Self) -> (r: bool) {
        *self == *other
    }
}

/// The order of the values on the wire.
pub open spec fn ch_strip_modes() -> Seq<ChStripMode> {
    seq![
        ChStripMode::FabrikC,
        ChStripMode::RIAA1964,
        ChStripMode::RIAA1987,
    ]
}

/// The entries of `ch_strip_modes` in their order; the place of an entry is the code which stands for it.
pub proof fn lemma_ch_strip_modes_order()
    ensures
        ch_strip_modes().len() == 3,
        ch_strip_modes()[0] == ChStripMode::FabrikC,
        ch_strip_modes()[1] == ChStripMode::RIAA1964,
        ch_strip_modes()[2] == ChStripMode::RIAA1987,
{
}

fn ch_strip_modes_exec() -> (r: &'static [ChStripMode])
    ensures
        r@ == ch_strip_modes(),
{
    &[
        ChStripMode::FabrikC,
        ChStripMode::RIAA1964,
        ChStripMode::RIAA1987,
    ]
}

/// Every value has its place on the wire.
pub proof fn lemma_ch_strip_modes_contains(v: ChStripMode)
    ensures
        ch_strip_modes().contains(v),
{
    match v {
        ChStripMode::FabrikC => assert(ch_strip_modes()[0] == v),
        ChStripMode::RIAA1964 => assert(ch_strip_modes()[1] == v),
        ChStripMode::RIAA1987 => assert(ch_strip_modes()[2] == v),
    }
}

/// Serialize the value as its position at `pos`.
pub fn serialize_ch_strip_mode(v: &ChStripMode, raw: &mut [u8], pos: usize) -> (r: Result<(), String>)
    requires
        pos + 4 <= old(raw)@.len(),
    ensures
        r.is_ok(),
        final(raw)@ == put_be_quad(old(raw)@, pos as int, position_of(ch_strip_modes(), *v) as u32),
        final(raw)@.len() == old(raw)@.len(),
{
    proof {
        lemma_ch_strip_modes_contains(*v);
    }
    serialize_position(ch_strip_modes_exec(), v, raw, pos, "channel strip mode")
}

/// Deserialize the value from its position at `pos`.
pub fn deserialize_ch_strip_mode(v: &mut ChStripMode, raw: &[u8], pos: usize) -> (r: Result<(), String>)
    requires
        pos + 4 <= raw@.len(),
    ensures
        r.is_ok() <==> (be_quad_at(raw@, pos as int) as int) < ch_strip_modes().len(),
        r.is_ok() ==> *final(v) == ch_strip_modes()[be_quad_at(raw@, pos as int) as int],
        r.is_err() ==> *final(v) == *old(v),
{
    deserialize_position(ch_strip_modes_exec(), v, raw, pos, "channel strip mode")
}

/// State of mixer.
#[derive(Debug, Clone, PartialEq, Eq)]
pub struct KliveMixerState {
    pub mixer: ShellMixerState,
    pub reverb_return: ShellReverbReturn,
    pub use_ch_strip_as_plugin: bool,
    pub ch_strip_src: ChStripSrc,
    pub ch_strip_mode: ChStripMode,
    pub use_reverb_at_mid_rate: bool,
    pub enabled: bool,
}

impl Default for KliveMixerState {
    fn default() -> (r: Self)
        ensures
            r.mixer.analog@.len() == count_srcs(KliveProtocol::spec_monitor_src_map(), |m| is_analog_src(m), 10),
            r.mixer.digital@.len() == count_srcs(KliveProtocol::spec_monitor_src_map(), |m| is_digital_src(m), 10),
            r.reverb_return == (ShellReverbReturn { plugin_mode: false, return_gain: 0, return_mute: false }),
            r.use_ch_strip_as_plugin == false,
            r.ch_strip_src == ChStripSrc::NoSrc,
            r.ch_strip_mode == ChStripMode::FabrikC,
            r.use_reverb_at_mid_rate == false,
            r.enabled == false,
    {
        KliveMixerState { mixer: KliveProtocol::create_mixer_state(), reverb_return: (ShellReverbReturn { plugin_mode: false, return_gain: 0, return_mute: false }), use_ch_strip_as_plugin: false, ch_strip_src: ChStripSrc::NoSrc, ch_strip_mode: ChStripMode::FabrikC, use_reverb_at_mid_rate: false, enabled: false }
    }
}

impl ShellMixerStateSpecification for KliveProtocol {
    open spec fn spec_monitor_src_map() -> Seq<Option<ShellMixerMonitorSrcType>> {
        seq![
            Some(ShellMixerMonitorSrcType::Stream),
            None,
            None,
            Some(ShellMixerMonitorSrcType::Spdif),
            Some(ShellMixerMonitorSrcType::Analog),
            Some(ShellMixerMonitorSrcType::Analog),
            Some(ShellMixerMonitorSrcType::AdatSpdif),
            Some(ShellMixerMonitorSrcType::Adat),
            Some(ShellMixerMonitorSrcType::Adat),
            Some(ShellMixerMonitorSrcType::Adat),
        ]
    }

    fn monitor_src_map() -> (r: [Option<ShellMixerMonitorSrcType>; 10]) {
        let r = [
            Some(ShellMixerMonitorSrcType::Stream),
            None,
            None,
            Some(ShellMixerMonitorSrcType::Spdif),
            Some(ShellMixerMonitorSrcType::Analog),
            Some(ShellMixerMonitorSrcType::Analog),
            Some(ShellMixerMonitorSrcType::AdatSpdif),
            Some(ShellMixerMonitorSrcType::Adat),
            Some(ShellMixerMonitorSrcType::Adat),
            Some(ShellMixerMonitorSrcType::Adat),
        ];
        proof {
            assert(r@ =~= Self::spec_monitor_src_map());
        }
        r
    }
}

impl TcKonnektSegmentSerdes<KliveMixerState> for KliveProtocol {
    const NAME: &'static str = "mixer-state";
    const OFFSET: usize = 0x0004;
    const SIZE: usize = SHELL_MIXER_STATE_SIZE + 48;

    open spec fn segment_fits(params: KliveMixerState) -> bool {
        mixer_state_fits(params.mixer, SHELL_MIXER_STATE_SIZE as int)
    }

    fn serialize(params: &KliveMixerState, raw: &mut [u8]) -> (r: Result<(), String>)
        ensures
            r.is_ok() <==> (true),
            final(raw)@ == put_be_bool(put_be_bool(put_be_quad(put_be_quad(put_be_bool(put_reverb_return(put_mixer_state::<KliveProtocol>(old(raw)@, params.mixer), 316, params.reverb_return), 328, params.use_ch_strip_as_plugin), 332, ch_strip_src_code(params.ch_strip_src)), 336, position_of(ch_strip_modes(), params.ch_strip_mode) as u32), 340, params.use_reverb_at_mid_rate), 344, params.enabled),
    {
        let len = raw.len();
        serialize_mixer_state::<KliveProtocol>(&params.mixer, raw)?;
        serialize_reverb_return(&params.reverb_return, raw, 316)?;
        write_be_bool(raw, 328, params.use_ch_strip_as_plugin);
        serialize_ch_strip_src(&params.ch_strip_src, raw, 332)?;
        serialize_ch_strip_mode(&params.ch_strip_mode, raw, 336)?;
        write_be_bool(raw, 340, params.use_reverb_at_mid_rate);
        write_be_bool(raw, 344, params.enabled);
        Ok(())
    }

    fn deserialize(params: &mut KliveMixerState, raw: &[u8]) -> (r: Result<(), String>)
        ensures
            r.is_ok() <==> ((be_quad_at(raw@, 336) as int) < ch_strip_modes().len()),
            mixer_state_decoded::<KliveProtocol>(raw@, old(params).mixer, final(params).mixer),
            reverb_return_decoded(raw@, 316, old(params).reverb_return, final(params).reverb_return),
            final(params).use_ch_strip_as_plugin == be_bool_at(raw@, 328),
            final(params).ch_strip_src == ch_strip_src_of(be_quad_at(raw@, 332)),
            (true && (be_quad_at(raw@, 336) as int) < ch_strip_modes().len()) ==> final(params).ch_strip_mode == ch_strip_modes()[be_quad_at(raw@, 336) as int],
            !(true && (be_quad_at(raw@, 336) as int) < ch_strip_modes().len()) ==> final(params).ch_strip_mode == old(params).ch_strip_mode,
            ((be_quad_at(raw@, 336) as int) < ch_strip_modes().len()) ==> final(params).use_reverb_at_mid_rate == be_bool_at(raw@, 340),
            !((be_quad_at(raw@, 336) as int) < ch_strip_modes().len()) ==> final(params).use_reverb_at_mid_rate == old(params).use_reverb_at_mid_rate,
            ((be_quad_at(raw@, 336) as int) < ch_strip_modes().len()) ==> final(params).enabled == be_bool_at(raw@, 344),
            !((be_quad_at(raw@, 336) as int) < ch_strip_modes().len()) ==> final(params).enabled == old(params).enabled,
    {
        let len = raw.len();
        deserialize_mixer_state::<KliveProtocol>(&mut params.mixer, raw)?;
        let _ = deserialize_reverb_return(&mut params.reverb_return, raw, 316);
        params.use_ch_strip_as_plugin = read_be_bool(raw, 328);
        deserialize_ch_strip_src(&mut params.ch_strip_src, raw, 332)?;
        deserialize_ch_strip_mode(&mut params.ch_strip_mode, raw, 336)?;
        params.use_reverb_at_mid_rate = read_be_bool(raw, 340);
        params.enabled = read_be_bool(raw, 344);
        Ok(())
    }
}

/// State of reverb effect.
#[derive(Default, Debug, Copy, Clone, PartialEq, Eq)]
pub struct KliveReverbState(pub ReverbState);

impl TcKonnektSegmentSerdes<KliveReverbState> for KliveProtocol {
    const NAME: &'static str = "reverb-state";
    const OFFSET: usize = 0x0218;
    const SIZE: usize = REVERB_STATE_SIZE;

    open spec fn segment_fits(params: KliveReverbState) -> bool {
        true
    }

    fn serialize(params: &KliveReverbState, raw: &mut [u8]) -> (r: Result<(), String>)
        ensures
            r.is_ok() <==> (true),
            final(raw)@ == put_reverb_state(old(raw)@, 0, params.0),
    {
        let len = raw.len();
        serialize_reverb_state(&params.0, raw, 0)?;
        Ok(())
    }

    fn deserialize(params: &mut KliveReverbState, raw: &[u8]) -> (r: Result<(), String>)
        ensures
            r.is_ok() <==> (reverb_state_decodable(raw@, 0)),
            reverb_state_decoded(raw@, 0, old(params).0, final(params).0),
    {
        let len = raw.len();
        deserialize_reverb_state(&mut params.0, raw, 0)?;
        Ok(())
    }
}

/// States of channel strip effect.
#[derive(Debug, Copy, Clone, PartialEq, Eq)]
pub struct KliveChStripStates(pub [ChStripState; SHELL_CH_STRIP_COUNT]);

impl Default for KliveChStripStates {
    fn default() -> Self {
        KliveChStripStates([ChStripState::default(), ChStripState::default()])
    }
}

impl TcKonnektSegmentSerdes<KliveChStripStates> for KliveProtocol {
    const NAME: &'static str = "channel-strip-state";
    const OFFSET: usize = 0x0260;
    const SIZE: usize = CH_STRIP_STATE_SIZE * SHELL_CH_STRIP_COUNT + 4;

    open spec fn segment_fits(params: KliveChStripStates) -> bool {
        true
    }

    fn serialize(params: &KliveChStripStates, raw: &mut [u8]) -> (r: Result<(), String>)
        ensures
            r.is_ok(),
            final(raw)@ == put_ch_strip_states(old(raw)@, params.0@),
    {
        serialize_ch_strip_states(params.0.as_slice(), raw)
    }

    fn deserialize(params: &mut KliveChStripStates, raw: &[u8]) -> (r: Result<(), String>)
        ensures
            r.is_ok() <==> ch_strip_states_decodable(raw@, 2),
            forall|i: int|
                0 <= i < 2 ==> if ch_strip_states_decodable(raw@, i) {
                    ch_strip_state_decoded(
                        raw@,
                        ch_strip_state_pos(i),
                        old(params).0@[i],
                        #[trigger] final(params).0@[i],
                    )
                } else {
                    final(params).0@[i] == old(params).0@[i]
                },
    {
        let mut states = [params.0[0], params.0[1]];
        let r = deserialize_ch_strip_states(&mut states, raw);
        params.0 = states;
        r
    }
}

/// Hardware state.
#[derive(Default, Debug, Copy, Clone, PartialEq, Eq)]
pub struct KliveHwState(pub ShellHwState);

impl TcKonnektSegmentSerdes<KliveHwState> for KliveProtocol {
    const NAME: &'static str = "hardware-state";
    const OFFSET: usize = 0x1008;
    const SIZE: usize = SHELL_HW_STATE_SIZE;

    open spec fn segment_fits(params: KliveHwState) -> bool {
        true
    }

    fn serialize(params: &KliveHwState, raw: &mut [u8]) -> (r: Result<(), String>)
        ensures
            r.is_ok() <==> (true),
            final(raw)@ == put_hw_state(old(raw)@, 0, params.0),
    {
        let len = raw.len();
        serialize_hw_state(&params.0, raw, 0)?;
        Ok(())
    }

    fn deserialize(params: &mut KliveHwState, raw: &[u8]) -> (r: Result<(), String>)
        ensures
            r.is_ok() <==> (hw_state_decodable(raw@, 0)),
            hw_state_decoded(raw@, 0, old(params).0, final(params).0),
    {
        let len = raw.len();
        deserialize_hw_state(&mut params.0, raw, 0)?;
        Ok(())
    }
}

/// The number of analog inputs in meter.
pub const KLIVE_METER_ANALOG_INPUT_COUNT: usize = 4;
/// The number of digital inputs in meter.
pub const KLIVE_METER_DIGITAL_INPUT_COUNT: usize = 8;

/// Meter of mixer.
#[derive(Debug, Clone, PartialEq, Eq)]
pub struct KliveMixerMeter(pub ShellMixerMeter);

impl Default for KliveMixerMeter {
    fn default() -> (r: Self)
        ensures
            r.0.stream_inputs@.len() == 2,
            r.0.analog_inputs@.len() == KLIVE_METER_ANALOG_INPUT_COUNT,
            r.0.digital_inputs@.len() == KLIVE_METER_DIGITAL_INPUT_COUNT,
            r.0.main_outputs@.len() == 2,
    {
        KliveMixerMeter(KliveProtocol::create_meter_state())
    }
}

impl ShellMixerMeterSpecification for KliveProtocol {
    const ANALOG_INPUT_COUNT: usize = KLIVE_METER_ANALOG_INPUT_COUNT;
    const DIGITAL_INPUT_COUNT: usize = KLIVE_METER_DIGITAL_INPUT_COUNT;
}

impl TcKonnektSegmentSerdes<KliveMixerMeter> for KliveProtocol {
    const NAME: &'static str = "mixer-meter";
    const OFFSET: usize = 0x1068;
    const SIZE: usize = SHELL_MIXER_METER_SIZE;

    open spec fn segment_fits(params: KliveMixerMeter) -> bool {
        mixer_meter_fits::<KliveProtocol>(params.0, SHELL_MIXER_METER_SIZE as int)
    }

    fn serialize(params: &KliveMixerMeter, raw: &mut [u8]) -> (r: Result<(), String>)
        ensures
            r.is_ok(),
            final(raw)@ == put_mixer_meter::<KliveProtocol>(old(raw)@, params.0),
    {
        serialize_mixer_meter::<KliveProtocol>(&params.0, raw)
    }

    fn deserialize(params: &mut KliveMixerMeter, raw: &[u8]) -> (r: Result<(), String>)
        ensures
            r.is_ok(),
            mixer_meter_decoded::<KliveProtocol>(raw@, old(params).0, final(params).0),
    {
        deserialize_mixer_meter::<KliveProtocol>(&mut params.0, raw)
    }
}

/// Meter of reverb effect.
#[derive(Default, Debug, Copy, Clone, PartialEq, Eq)]
pub struct KliveReverbMeter(pub ReverbMeter);

impl TcKonnektSegmentSerdes<KliveReverbMeter> for KliveProtocol {
    const NAME: &'static str = "reverb-meter";
    const OFFSET: usize = 0x10c4;
    const SIZE: usize = REVERB_METER_SIZE;

    open spec fn segment_fits(params: KliveReverbMeter) -> bool {
        true
    }

    fn serialize(params: &KliveReverbMeter, raw: &mut [u8]) -> (r: Result<(), String>)
        ensures
            r.is_ok() <==> (true),
            final(raw)@ == put_reverb_meter(old(raw)@, 0, params.0),
    {
        let len = raw.len();
        serialize_reverb_meter(&params.0, raw, 0)?;
        Ok(())
    }

    fn deserialize(params: &mut KliveReverbMeter, raw: &[u8]) -> (r: Result<(), String>)
        ensures
            r.is_ok() <==> (true),
            reverb_meter_decoded(raw@, 0, old(params).0, final(params).0),
    {
        let len = raw.len();
        let _ = deserialize_reverb_meter(&mut params.0, raw, 0);
        Ok(())
    }
}

/// Meters of channel strip effect.
#[derive(Debug, Copy, Clone, PartialEq, Eq)]
pub struct KliveChStripMeters(pub [ChStripMeter; SHELL_CH_STRIP_COUNT]);

impl Default for KliveChStripMeters {
    fn default() -> Self {
        KliveChStripMeters([ChStripMeter::default(), ChStripMeter::default()])
    }
}

impl TcKonnektSegmentSerdes<KliveChStripMeters> for KliveProtocol {
    const NAME: &'static str = "channel-strip-meter";
    const OFFSET: usize = 0x10dc;
    const SIZE: usize = CH_STRIP_METER_SIZE * SHELL_CH_STRIP_COUNT + 4;

    open spec fn segment_fits(params: KliveChStripMeters) -> bool {
        true
    }

    fn serialize(params: &KliveChStripMeters, raw: &mut [u8]) -> (r: Result<(), String>)
        ensures
            r.is_ok(),
            final(raw)@ == put_ch_strip_meters(old(raw)@, params.0@),
    {
        serialize_ch_strip_meters(params.0.as_slice(), raw)
    }

    fn deserialize(params: &mut KliveChStripMeters, raw: &[u8]) -> (r: Result<(), String>)
        ensures
            r.is_ok(),
            forall|i: int|
                0 <= i < 2 ==> ch_strip_meter_decoded(
                    raw@,
                    ch_strip_meter_pos(i),
                    old(params).0@[i],
                    #[trigger] final(params).0@[i],
                ),
    {
        let mut meters = [params.0[0], params.0[1]];
        let r = deserialize_ch_strip_meters(&mut meters, raw);
        params.0 = meters;
        r
    }
}

} // verus!

verus! {

impl AsRef<crate::tcelectronic::TcKonnektLoadedProgram> for KliveKnob {
    fn as_ref(&self) -> &crate::tcelectronic::TcKonnektLoadedProgram
        returns
            &self.prog,
    {
        &self.prog
    }
}

impl AsMut<crate::tcelectronic::TcKonnektLoadedProgram> for KliveKnob {
    fn as_mut(&mut self) -> (r: &mut crate::tcelectronic::TcKonnektLoadedProgram)
        ensures
            *r == old(self).prog,
            *final(self) == (KliveKnob { prog: *final(r), ..*old(self) }),
    {
        &mut self.prog
    }
}

impl AsRef<crate::tcelectronic::shell::ShellStandaloneClockSource> for KliveConfig {
    fn as_ref(&self) -> &crate::tcelectronic::shell::ShellStandaloneClockSource
        returns
            &self.standalone_src,
    {
        &self.standalone_src
    }
}

impl AsMut<crate::tcelectronic::shell::ShellStandaloneClockSource> for KliveConfig {
    fn as_mut(&mut self) -> (r: &mut crate::tcelectronic::shell::ShellStandaloneClockSource)
        ensures
            *r == old(self).standalone_src,
            *final(self) == (KliveConfig { standalone_src: *final(r), ..*old(self) }),
    {
        &mut self.standalone_src
    }
}

impl AsRef<crate::tcelectronic::TcKonnektStandaloneClockRate> for KliveConfig {
    fn as_ref(&self) -> &crate::tcelectronic::TcKonnektStandaloneClockRate
        returns
            &self.standalone_rate,
    {
        &self.standalone_rate
    }
}

impl AsMut<crate::tcelectronic::TcKonnektStandaloneClockRate> for KliveConfig {
    fn as_mut(&mut self) -> (r: &mut crate::tcelectronic::TcKonnektStandaloneClockRate)
        ensures
            *r == old(self).standalone_rate,
            *final(self) == (KliveConfig { standalone_rate: *final(r), ..*old(self) }),
    {
        &mut self.standalone_rate
    }
}

impl AsRef<crate::tcelectronic::shell::ShellMixerState> for KliveMixerState {
    fn as_ref(&self) -> &crate::tcelectronic::shell::ShellMixerState
        returns
            &self.mixer,
    {
        &self.mixer
    }
}

impl AsMut<crate::tcelectronic::shell::ShellMixerState> for KliveMixerState {
    fn as_mut(&mut self) -> (r: &mut crate::tcelectronic::shell::ShellMixerState)
        ensures
            *r == old(self).mixer,
            *final(self) == (KliveMixerState { mixer: *final(r), ..*old(self) }),
    {
        &mut self.mixer
    }
}

impl AsRef<crate::tcelectronic::shell::ShellReverbReturn> for KliveMixerState {
    fn as_ref(&self) -> &crate::tcelectronic::shell::ShellReverbReturn
        returns
            &self.reverb_return,
    {
        &self.reverb_return
    }
}

impl AsMut<crate::tcelectronic::shell::ShellReverbReturn> for KliveMixerState {
    fn as_mut(&mut self) -> (r: &mut crate::tcelectronic::shell::ShellReverbReturn)
        ensures
            *r == old(self).reverb_return,
            *final(self) == (KliveMixerState { reverb_return: *final(r), ..*old(self) }),
    {
        &mut self.reverb_return
    }
}

impl AsRef<crate::tcelectronic::reverb::ReverbState> for KliveReverbState {
    fn as_ref(&self) -> &crate::tcelectronic::reverb::ReverbState
        returns
            &self.0,
    {
        &self.0
    }
}

impl AsMut<crate::tcelectronic::reverb::ReverbState> for KliveReverbState {
    fn as_mut(&mut self) -> (r: &mut crate::tcelectronic::reverb::ReverbState)
        ensures
            *r == old(self).0,
            *final(self) == KliveReverbState(*final(r)),
    {
        &mut self.0
    }
}

impl AsRef<[crate::tcelectronic::ch_strip::ChStripState]> for KliveChStripStates {
    fn as_ref(&self) -> (r: &[crate::tcelectronic::ch_strip::ChStripState])
        ensures
            r@ == self.0@,
    {
        &self.0
    }
}

impl AsMut<[crate::tcelectronic::ch_strip::ChStripState]> for KliveChStripStates {
    fn as_mut(&mut self) -> (r: &mut [crate::tcelectronic::ch_strip::ChStripState])
        ensures
            r@ == old(self).0@,
            final(self).0@ == final(r)@,
    {
        &mut self.0
    }
}

impl AsRef<crate::tcelectronic::shell::ShellHwState> for KliveHwState {
    fn as_ref(&self) -> &crate::tcelectronic::shell::ShellHwState
        returns
            &self.0,
    {
        &self.0
    }
}

impl AsMut<crate::tcelectronic::shell::ShellHwState> for KliveHwState {
    fn as_mut(&mut self) -> (r: &mut crate::tcelectronic::shell::ShellHwState)
        ensures
            *r == old(self).0,
            *final(self) == KliveHwState(*final(r)),
    {
        &mut self.0
    }
}

impl AsRef<crate::tcelectronic::FireWireLedState> for KliveHwState {
    fn as_ref(&self) -> &crate::tcelectronic::FireWireLedState
        returns
            &self.0.firewire_led,
    {
        &self.0.firewire_led
    }
}

impl AsMut<crate::tcelectronic::FireWireLedState> for KliveHwState {
    fn as_mut(&mut self) -> (r: &mut crate::tcelectronic::FireWireLedState)
        ensures
            *r == old(self).0.firewire_led,
            *final(self) == KliveHwState(crate::tcelectronic::shell::ShellHwState { firewire_led: *final(r), ..old(self).0 }),
    {
        &mut self.0.firewire_led
    }
}

impl AsRef<crate::tcelectronic::shell::ShellMixerMeter> for KliveMixerMeter {
    fn as_ref(&self) -> &crate::tcelectronic::shell::ShellMixerMeter
        returns
            &self.0,
    {
        &self.0
    }
}

impl AsMut<crate::tcelectronic::shell::ShellMixerMeter> for KliveMixerMeter {
    fn as_mut(&mut self) -> (r: &mut crate::tcelectronic::shell::ShellMixerMeter)
        ensures
            *r == old(self).0,
            *final(self) == KliveMixerMeter(*final(r)),
    {
        &mut self.0
    }
}

impl AsRef<crate::tcelectronic::reverb::ReverbMeter> for KliveReverbMeter {
    fn as_ref(&self) -> &crate::tcelectronic::reverb::ReverbMeter
        returns
            &self.0,
    {
        &self.0
    }
}

impl AsMut<crate::tcelectronic::reverb::ReverbMeter> for KliveReverbMeter {
    fn as_mut(&mut self) -> (r: &mut crate::tcelectronic::reverb::ReverbMeter)
        ensures
            *r == old(self).0,
            *final(self) == KliveReverbMeter(*final(r)),
    {
        &mut self.0
    }
}

impl AsRef<[crate::tcelectronic::ch_strip::ChStripMeter]> for KliveChStripMeters {
    fn as_ref(&self) -> (r: &[crate::tcelectronic::ch_strip::ChStripMeter])
        ensures
            r@ == self.0@,
    {
        &self.0
    }
}

impl AsMut<[crate::tcelectronic::ch_strip::ChStripMeter]> for KliveChStripMeters {
    fn as_mut(&mut self) -> (r: &mut [crate::tcelectronic::ch_strip::ChStripMeter])
        ensures
            r@ == old(self).0@,
            final(self).0@ == final(r)@,
    {
        &mut self.0
    }
}

} // verus!
