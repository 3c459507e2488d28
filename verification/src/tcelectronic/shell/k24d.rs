//! Protocol specific to TC Electronic Konnekt 24d.


use crate::codec::{
    be_bool_at, be_i32_at, be_quad_at, deserialize_position, position_of, put_be_bool,
    put_be_i32, put_be_quad, read_be_bool, read_be_quad, serialize_position, write_be_bool,
    write_be_quad, TableEntry,
};
use crate::tcelectronic::ch_strip::{
    ch_strip_meter_decoded, ch_strip_meter_pos, ch_strip_state_decoded, ch_strip_state_pos,
    ch_strip_states_decodable, deserialize_ch_strip_meters, deserialize_ch_strip_states,
    put_ch_strip_meters, put_ch_strip_states, serialize_ch_strip_meters, serialize_ch_strip_states,
    ChStripMeter, ChStripState, CH_STRIP_METER_SIZE, CH_STRIP_STATE_SIZE,
};
use crate::tcelectronic::reverb::{
    deserialize_reverb_meter, deserialize_reverb_state, put_reverb_meter, put_reverb_state,
    reverb_meter_decoded, reverb_state_decodable, reverb_state_decoded, serialize_reverb_meter,
    serialize_reverb_state, ReverbMeter, ReverbState, REVERB_METER_SIZE, REVERB_STATE_SIZE,
};
use crate::tcelectronic::shell::{
    count_srcs, deserialize_coax_out_pair_source, deserialize_hw_state, deserialize_knob0_target,
    deserialize_knob1_target, deserialize_mixer_meter, deserialize_mixer_state,
    deserialize_mixer_stream_source_pair, deserialize_opt_iface_config, deserialize_phys_out_src,
    deserialize_reverb_return, deserialize_standalone_clock_source, hw_state_decodable,
    hw_state_decoded, is_analog_src, is_digital_src, mixer_meter_decoded, mixer_meter_fits,
    mixer_state_decoded, mixer_state_fits, opt_iface_config_decodable, opt_iface_config_decoded,
    phys_out_srcs, put_hw_state, put_mixer_meter, put_mixer_state, put_opt_iface_config,
    put_reverb_return, reverb_return_decoded, serialize_coax_out_pair_source, serialize_hw_state,
    serialize_knob0_target, serialize_knob1_target, serialize_mixer_meter, serialize_mixer_state,
    serialize_mixer_stream_source_pair, serialize_opt_iface_config, serialize_phys_out_src,
    serialize_reverb_return, serialize_standalone_clock_source, ShellCoaxOutPairSrc, ShellHwState,
    ShellKnob0Target, ShellKnob0TargetSpecification, ShellKnob1Target,
    ShellKnob1TargetSpecification, ShellMixerMeter, ShellMixerMeterSpecification,
    ShellMixerMonitorSrcType, ShellMixerState, ShellMixerStateSpecification,
    ShellMixerStreamSourcePair, ShellMixerStreamSourcePairSpecification, ShellOptIfaceConfig,
    ShellPhysOutSrc, ShellReverbReturn, ShellStandaloneClockSource,
    ShellStandaloneClockSpecification, SHELL_CH_STRIP_COUNT, SHELL_HW_STATE_SIZE,
    SHELL_KNOB_SEGMENT_SIZE, SHELL_MIXER_METER_SIZE, SHELL_MIXER_STATE_SIZE,
};
use crate::tcelectronic::{
    deserialize_loaded_program, deserialize_standalone_clock_rate, loaded_programs,
    serialize_loaded_program, serialize_standalone_clock_rate, standalone_clock_rates,
    TcKonnektLoadedProgram, TcKonnektSegmentSerdes, TcKonnektStandaloneClockRate,
};
use vstd::prelude::*;

verus! {

/// Protocol implementation specific to Konnekt 24d.
#[derive(Default, Debug)]
pub struct K24dProtocol;

/// State of knob.
#[derive(Debug, Copy, Clone, PartialEq, Eq, Structural)]
pub struct K24dKnob {
    pub knob0_target: ShellKnob0Target,
    pub knob1_target: ShellKnob1Target,
    pub prog: TcKonnektLoadedProgram,
}

impl Default for K24dKnob {
    fn default() -> (r: Self)
        ensures
            r == (K24dKnob { knob0_target: ShellKnob0Target::Analog0, knob1_target: ShellKnob1Target::Digital0_1, prog: TcKonnektLoadedProgram::P0 }),
    {
        K24dKnob { knob0_target: ShellKnob0Target::Analog0, knob1_target: ShellKnob1Target::Digital0_1, prog: TcKonnektLoadedProgram::P0 }
    }
}

impl ShellKnob0TargetSpecification for K24dProtocol {
    open spec fn knob0_target_list() -> Seq<ShellKnob0Target> {
        seq![
            ShellKnob0Target::Analog0,
            ShellKnob0Target::Analog1,
            ShellKnob0Target::Analog2_3,
            ShellKnob0Target::Configurable,
        ]
    }

    fn knob0_targets() -> (r: &'static [ShellKnob0Target]) {
        &[
            ShellKnob0Target::Analog0,
            ShellKnob0Target::Analog1,
            ShellKnob0Target::Analog2_3,
            ShellKnob0Target::Configurable,
        ]
    }
}

impl ShellKnob1TargetSpecification for K24dProtocol {
    open spec fn knob1_target_list() -> Seq<ShellKnob1Target> {
        seq![
            ShellKnob1Target::Digital0_1,
            ShellKnob1Target::Digital2_3,
            ShellKnob1Target::Digital4_5,
            ShellKnob1Target::Digital6_7,
            ShellKnob1Target::Stream,
            ShellKnob1Target::Reverb,
            ShellKnob1Target::Mixer,
            ShellKnob1Target::TunerPitchTone,
        ]
    }

    fn knob1_targets() -> (r: &'static [ShellKnob1Target]) {
        &[
            ShellKnob1Target::Digital0_1,
            ShellKnob1Target::Digital2_3,
            ShellKnob1Target::Digital4_5,
            ShellKnob1Target::Digital6_7,
            ShellKnob1Target::Stream,
            ShellKnob1Target::Reverb,
            ShellKnob1Target::Mixer,
            ShellKnob1Target::TunerPitchTone,
        ]
    }
}

impl TcKonnektSegmentSerdes<K24dKnob> for K24dProtocol {
    const NAME: &'static str = "knob";
    const OFFSET: usize = 0x0004;
    const SIZE: usize = SHELL_KNOB_SEGMENT_SIZE;

    open spec fn segment_fits(params: K24dKnob) -> bool {
        true
    }

    fn serialize(params: &K24dKnob, raw: &mut [u8]) -> (r: Result<(), String>)
        ensures
            r.is_ok() <==> (K24dProtocol::knob0_target_list().contains(params.knob0_target) && K24dProtocol::knob1_target_list().contains(params.knob1_target)),
            final(raw)@ == (if K24dProtocol::knob0_target_list().contains(params.knob0_target) { (if K24dProtocol::knob1_target_list().contains(params.knob1_target) { put_be_quad(put_be_quad(put_be_quad(old(raw)@, 0, position_of(K24dProtocol::knob0_target_list(), params.knob0_target) as u32), 4, position_of(K24dProtocol::knob1_target_list(), params.knob1_target) as u32), 8, position_of(loaded_programs(), params.prog) as u32) } else { put_be_quad(old(raw)@, 0, position_of(K24dProtocol::knob0_target_list(), params.knob0_target) as u32) }) } else { old(raw)@ }),
    {
        let len = raw.len();
        serialize_knob0_target::<K24dProtocol>(&params.knob0_target, raw, 0)?;
        serialize_knob1_target::<K24dProtocol>(&params.knob1_target, raw, 4)?;
        serialize_loaded_program(&params.prog, raw, 8)?;
        Ok(())
    }

    fn deserialize(params: &mut K24dKnob, raw: &[u8]) -> (r: Result<(), String>)
        ensures
            r.is_ok() <==> ((be_quad_at(raw@, 0) as int) < K24dProtocol::knob0_target_list().len() && (be_quad_at(raw@, 4) as int) < K24dProtocol::knob1_target_list().len() && (be_quad_at(raw@, 8) as int) < loaded_programs().len()),
            (true && (be_quad_at(raw@, 0) as int) < K24dProtocol::knob0_target_list().len()) ==> final(params).knob0_target == K24dProtocol::knob0_target_list()[be_quad_at(raw@, 0) as int],
            !(true && (be_quad_at(raw@, 0) as int) < K24dProtocol::knob0_target_list().len()) ==> final(params).knob0_target == old(params).knob0_target,
            ((be_quad_at(raw@, 0) as int) < K24dProtocol::knob0_target_list().len() && (be_quad_at(raw@, 4) as int) < K24dProtocol::knob1_target_list().len()) ==> final(params).knob1_target == K24dProtocol::knob1_target_list()[be_quad_at(raw@, 4) as int],
            !((be_quad_at(raw@, 0) as int) < K24dProtocol::knob0_target_list().len() && (be_quad_at(raw@, 4) as int) < K24dProtocol::knob1_target_list().len()) ==> final(params).knob1_target == old(params).knob1_target,
            ((be_quad_at(raw@, 0) as int) < K24dProtocol::knob0_target_list().len() && (be_quad_at(raw@, 4) as int) < K24dProtocol::knob1_target_list().len() && (be_quad_at(raw@, 8) as int) < loaded_programs().len()) ==> final(params).prog == loaded_programs()[be_quad_at(raw@, 8) as int],
            !((be_quad_at(raw@, 0) as int) < K24dProtocol::knob0_target_list().len() && (be_quad_at(raw@, 4) as int) < K24dProtocol::knob1_target_list().len() && (be_quad_at(raw@, 8) as int) < loaded_programs().len()) ==> final(params).prog == old(params).prog,
    {
        let len = raw.len();
        deserialize_knob0_target::<K24dProtocol>(&mut params.knob0_target, raw, 0)?;
        deserialize_knob1_target::<K24dProtocol>(&mut params.knob1_target, raw, 4)?;
        deserialize_loaded_program(&mut params.prog, raw, 8)?;
        Ok(())
    }
}

/// Configuration.
#[derive(Default, Debug, Copy, Clone, PartialEq, Eq, Structural)]
pub struct K24dConfig {
    pub opt: ShellOptIfaceConfig,
    pub coax_out_src: ShellCoaxOutPairSrc,
    pub out_23_src: ShellPhysOutSrc,
    pub standalone_src: ShellStandaloneClockSource,
    pub standalone_rate: TcKonnektStandaloneClockRate,
}

impl ShellStandaloneClockSpecification for K24dProtocol {
    open spec fn standalone_clock_source_list() -> Seq<ShellStandaloneClockSource> {
        seq![
            ShellStandaloneClockSource::Optical,
            ShellStandaloneClockSource::Coaxial,
            ShellStandaloneClockSource::Internal,
        ]
    }

    fn standalone_clock_sources() -> (r: &'static [ShellStandaloneClockSource]) {
        &[
            ShellStandaloneClockSource::Optical,
            ShellStandaloneClockSource::Coaxial,
            ShellStandaloneClockSource::Internal,
        ]
    }
}

impl TcKonnektSegmentSerdes<K24dConfig> for K24dProtocol {
    const NAME: &'static str = "configuration";
    const OFFSET: usize = 0x0028;
    const SIZE: usize = 76;

    open spec fn segment_fits(params: K24dConfig) -> bool {
        true
    }

    fn serialize(params: &K24dConfig, raw: &mut [u8]) -> (r: Result<(), String>)
        ensures
            r.is_ok() <==> (K24dProtocol::standalone_clock_source_list().contains(params.standalone_src)),
            final(raw)@ == (if K24dProtocol::standalone_clock_source_list().contains(params.standalone_src) { put_be_quad(put_be_quad(put_be_quad(put_be_quad(put_opt_iface_config(old(raw)@, 0, params.opt), 12, position_of(phys_out_srcs(), params.coax_out_src.0) as u32), 16, position_of(phys_out_srcs(), params.out_23_src) as u32), 20, position_of(K24dProtocol::standalone_clock_source_list(), params.standalone_src) as u32), 24, position_of(standalone_clock_rates(), params.standalone_rate) as u32) } else { put_be_quad(put_be_quad(put_opt_iface_config(old(raw)@, 0, params.opt), 12, position_of(phys_out_srcs(), params.coax_out_src.0) as u32), 16, position_of(phys_out_srcs(), params.out_23_src) as u32) }),
    {
        let len = raw.len();
        serialize_opt_iface_config(&params.opt, raw, 0)?;
        serialize_coax_out_pair_source(&params.coax_out_src, raw, 12)?;
        serialize_phys_out_src(&params.out_23_src, raw, 16)?;
        serialize_standalone_clock_source::<K24dProtocol>(&params.standalone_src, raw, 20)?;
        serialize_standalone_clock_rate(&params.standalone_rate, raw, 24)?;
        Ok(())
    }

    fn deserialize(params: &mut K24dConfig, raw: &[u8]) -> (r: Result<(), String>)
        ensures
            r.is_ok() <==> (opt_iface_config_decodable(raw@, 0) && (be_quad_at(raw@, 12) as int) < phys_out_srcs().len() && (be_quad_at(raw@, 16) as int) < phys_out_srcs().len() && (be_quad_at(raw@, 20) as int) < K24dProtocol::standalone_clock_source_list().len() && (be_quad_at(raw@, 24) as int) < standalone_clock_rates().len()),
            opt_iface_config_decoded(raw@, 0, old(params).opt, final(params).opt),
            (opt_iface_config_decodable(raw@, 0) && (be_quad_at(raw@, 12) as int) < phys_out_srcs().len()) ==> final(params).coax_out_src.0 == phys_out_srcs()[be_quad_at(raw@, 12) as int],
            !(opt_iface_config_decodable(raw@, 0) && (be_quad_at(raw@, 12) as int) < phys_out_srcs().len()) ==> final(params).coax_out_src == old(params).coax_out_src,
            (opt_iface_config_decodable(raw@, 0) && (be_quad_at(raw@, 12) as int) < phys_out_srcs().len() && (be_quad_at(raw@, 16) as int) < phys_out_srcs().len()) ==> final(params).out_23_src == phys_out_srcs()[be_quad_at(raw@, 16) as int],
            !(opt_iface_config_decodable(raw@, 0) && (be_quad_at(raw@, 12) as int) < phys_out_srcs().len() && (be_quad_at(raw@, 16) as int) < phys_out_srcs().len()) ==> final(params).out_23_src == old(params).out_23_src,
            (opt_iface_config_decodable(raw@, 0) && (be_quad_at(raw@, 12) as int) < phys_out_srcs().len() && (be_quad_at(raw@, 16) as int) < phys_out_srcs().len() && (be_quad_at(raw@, 20) as int) < K24dProtocol::standalone_clock_source_list().len()) ==> final(params).standalone_src == K24dProtocol::standalone_clock_source_list()[be_quad_at(raw@, 20) as int],
            !(opt_iface_config_decodable(raw@, 0) && (be_quad_at(raw@, 12) as int) < phys_out_srcs().len() && (be_quad_at(raw@, 16) as int) < phys_out_srcs().len() && (be_quad_at(raw@, 20) as int) < K24dProtocol::standalone_clock_source_list().len()) ==> final(params).standalone_src == old(params).standalone_src,
            (opt_iface_config_decodable(raw@, 0) && (be_quad_at(raw@, 12) as int) < phys_out_srcs().len() && (be_quad_at(raw@, 16) as int) < phys_out_srcs().len() && (be_quad_at(raw@, 20) as int) < K24dProtocol::standalone_clock_source_list().len() && (be_quad_at(raw@, 24) as int) < standalone_clock_rates().len()) ==> final(params).standalone_rate == standalone_clock_rates()[be_quad_at(raw@, 24) as int],
            !(opt_iface_config_decodable(raw@, 0) && (be_quad_at(raw@, 12) as int) < phys_out_srcs().len() && (be_quad_at(raw@, 16) as int) < phys_out_srcs().len() && (be_quad_at(raw@, 20) as int) < K24dProtocol::standalone_clock_source_list().len() && (be_quad_at(raw@, 24) as int) < standalone_clock_rates().len()) ==> final(params).standalone_rate == old(params).standalone_rate,
    {
        let len = raw.len();
        deserialize_opt_iface_config(&mut params.opt, raw, 0)?;
        deserialize_coax_out_pair_source(&mut params.coax_out_src, raw, 12)?;
        deserialize_phys_out_src(&mut params.out_23_src, raw, 16)?;
        deserialize_standalone_clock_source::<K24dProtocol>(&mut params.standalone_src, raw, 20)?;
        deserialize_standalone_clock_rate(&mut params.standalone_rate, raw, 24)?;
        Ok(())
    }
}

/// State of mixer.
#[derive(Debug, Clone, PartialEq, Eq)]
pub struct K24dMixerState {
    pub mixer: ShellMixerState,
    pub reverb_return: ShellReverbReturn,
    pub use_ch_strip_as_plugin: bool,
    pub use_reverb_at_mid_rate: bool,
    pub enabled: bool,
}

impl Default for K24dMixerState {
    fn default() -> (r: Self)
        ensures
            r.mixer.analog@.len() == count_srcs(K24dProtocol::spec_monitor_src_map(), |m| is_analog_src(m), 10),
            r.mixer.digital@.len() == count_srcs(K24dProtocol::spec_monitor_src_map(), |m| is_digital_src(m), 10),
            r.reverb_return == (ShellReverbReturn { plugin_mode: false, return_gain: 0, return_mute: false }),
            r.use_ch_strip_as_plugin == false,
            r.use_reverb_at_mid_rate == false,
            r.enabled == false,
    {
        K24dMixerState { mixer: K24dProtocol::create_mixer_state(), reverb_return: (ShellReverbReturn { plugin_mode: false, return_gain: 0, return_mute: false }), use_ch_strip_as_plugin: false, use_reverb_at_mid_rate: false, enabled: false }
    }
}

impl ShellMixerStateSpecification for K24dProtocol {
    open spec fn spec_monitor_src_map() -> Seq<Option<ShellMixerMonitorSrcType>> {
        seq![
            Some(ShellMixerMonitorSrcType::Stream),
            None,
            None,
            None,
            Some(ShellMixerMonitorSrcType::Analog),
            Some(ShellMixerMonitorSrcType::Analog),
            Some(ShellMixerMonitorSrcType::AdatSpdif),
            Some(ShellMixerMonitorSrcType::Adat),
            Some(ShellMixerMonitorSrcType::Adat),
            Some(ShellMixerMonitorSrcType::AdatSpdif),
        ]
    }

    fn monitor_src_map() -> (r: [Option<ShellMixerMonitorSrcType>; 10]) {
        let r = [
            Some(ShellMixerMonitorSrcType::Stream),
            None,
            None,
            None,
            Some(ShellMixerMonitorSrcType::Analog),
            Some(ShellMixerMonitorSrcType::Analog),
            Some(ShellMixerMonitorSrcType::AdatSpdif),
            Some(ShellMixerMonitorSrcType::Adat),
            Some(ShellMixerMonitorSrcType::Adat),
            Some(ShellMixerMonitorSrcType::AdatSpdif),
        ];
        proof {
            assert(r@ =~= Self::spec_monitor_src_map());
        }
        r
    }
}

impl TcKonnektSegmentSerdes<K24dMixerState> for K24dProtocol {
    const NAME: &'static str = "mixer-state";
    const OFFSET: usize = 0x0074;
    const SIZE: usize = SHELL_MIXER_STATE_SIZE + 32;

    open spec fn segment_fits(params: K24dMixerState) -> bool {
        mixer_state_fits(params.mixer, SHELL_MIXER_STATE_SIZE as int)
    }

    fn serialize(params: &K24dMixerState, raw: &mut [u8]) -> (r: Result<(), String>)
        ensures
            r.is_ok() <==> (true),
            final(raw)@ == put_be_bool(put_be_bool(put_be_bool(put_reverb_return(put_mixer_state::<K24dProtocol>(old(raw)@, params.mixer), 316, params.reverb_return), 328, params.use_ch_strip_as_plugin), 332, params.use_reverb_at_mid_rate), 340, params.enabled),
    {
        let len = raw.len();
        serialize_mixer_state::<K24dProtocol>(&params.mixer, raw)?;
        serialize_reverb_return(&params.reverb_return, raw, 316)?;
        write_be_bool(raw, 328, params.use_ch_strip_as_plugin);
        write_be_bool(raw, 332, params.use_reverb_at_mid_rate);
        write_be_bool(raw, 340, params.enabled);
        Ok(())
    }

    fn deserialize(params: &mut K24dMixerState, raw: &[u8]) -> (r: Result<(), String>)
        ensures
            r.is_ok() <==> (true),
            mixer_state_decoded::<K24dProtocol>(raw@, old(params).mixer, final(params).mixer),
            reverb_return_decoded(raw@, 316, old(params).reverb_return, final(params).reverb_return),
            final(params).use_ch_strip_as_plugin == be_bool_at(raw@, 328),
            final(params).use_reverb_at_mid_rate == be_bool_at(raw@, 332),
            final(params).enabled == be_bool_at(raw@, 340),
    {
        let len = raw.len();
        deserialize_mixer_state::<K24dProtocol>(&mut params.mixer, raw)?;
        let _ = deserialize_reverb_return(&mut params.reverb_return, raw, 316);
        params.use_ch_strip_as_plugin = read_be_bool(raw, 328);
        params.use_reverb_at_mid_rate = read_be_bool(raw, 332);
        params.enabled = read_be_bool(raw, 340);
        Ok(())
    }
}

/// State of reverb effect.
#[derive(Default, Debug, Copy, Clone, PartialEq, Eq)]
pub struct K24dReverbState(pub ReverbState);

impl TcKonnektSegmentSerdes<K24dReverbState> for K24dProtocol {
    const NAME: &'static str = "reverb-state";
    const OFFSET: usize = 0x01d0;
    const SIZE: usize = REVERB_STATE_SIZE;

    open spec fn segment_fits(params: K24dReverbState) -> bool {
        true
    }

    fn serialize(params: &K24dReverbState, raw: &mut [u8]) -> (r: Result<(), String>)
        ensures
            r.is_ok() <==> (true),
            final(raw)@ == put_reverb_state(old(raw)@, 0, params.0),
    {
        let len = raw.len();
        serialize_reverb_state(&params.0, raw, 0)?;
        Ok(())
    }

    fn deserialize(params: &mut K24dReverbState, raw: &[u8]) -> (r: Result<(), String>)
        ensures
            r.is_ok() <==> (reverb_state_decodable(raw@, 0)),
            reverb_state_decoded(raw@, 0, old(params).0, final(params).0),
    {
        let len = raw.len();
        deserialize_reverb_state(&mut params.0, raw, 0)?;
        Ok(())
    }
}

/// States of channel strip effect.
#[derive(Debug, Copy, Clone, PartialEq, Eq)]
pub struct K24dChStripStates(pub [ChStripState; SHELL_CH_STRIP_COUNT]);

impl Default for K24dChStripStates {
    fn default() -> Self {
        K24dChStripStates([ChStripState::default(), ChStripState::default()])
    }
}

impl TcKonnektSegmentSerdes<K24dChStripStates> for K24dProtocol {
    const NAME: &'static str = "channel-strip-state";
    const OFFSET: usize = 0x0218;
    const SIZE: usize = CH_STRIP_STATE_SIZE * SHELL_CH_STRIP_COUNT + 4;

    open spec fn segment_fits(params: K24dChStripStates) -> bool {
        true
    }

    fn serialize(params: &K24dChStripStates, raw: &mut [u8]) -> (r: Result<(), String>)
        ensures
            r.is_ok(),
            final(raw)@ == put_ch_strip_states(old(raw)@, params.0@),
    {
        serialize_ch_strip_states(params.0.as_slice(), raw)
    }

    fn deserialize(params: &mut K24dChStripStates, raw: &[u8]) -> (r: Result<(), String>)
        ensures
            r.is_ok() <==> ch_strip_states_decodable(raw@, 2),
            forall|i: int|
                0 <= i < 2 ==> if ch_strip_states_decodable(raw@, i) {
                    ch_strip_state_decoded(
                        raw@,
                        ch_strip_state_pos(i),
                        old(params).0@[i],
                        #[trigger] final(params).0@[i],
                    )
                } else {
                    final(params).0@[i] == old(params).0@[i]
                },
    {
        let mut states = [params.0[0], params.0[1]];
        let r = deserialize_ch_strip_states(&mut states, raw);
        params.0 = states;
        r
    }
}

/// Hardware state.
#[derive(Default, Debug, Copy, Clone, PartialEq, Eq)]
pub struct K24dHwState(pub ShellHwState);

impl TcKonnektSegmentSerdes<K24dHwState> for K24dProtocol {
    const NAME: &'static str = "hardware-state";
    const OFFSET: usize = 0x100c;
    const SIZE: usize = SHELL_HW_STATE_SIZE;

    open spec fn segment_fits(params: K24dHwState) -> bool {
        true
    }

    fn serialize(params: &K24dHwState, raw: &mut [u8]) -> (r: Result<(), String>)
        ensures
            r.is_ok() <==> (true),
            final(raw)@ == put_hw_state(old(raw)@, 0, params.0),
    {
        let len = raw.len();
        serialize_hw_state(&params.0, raw, 0)?;
        Ok(())
    }

    fn deserialize(params: &mut K24dHwState, raw: &[u8]) -> (r: Result<(), String>)
        ensures
            r.is_ok() <==> (hw_state_decodable(raw@, 0)),
            hw_state_decoded(raw@, 0, old(params).0, final(params).0),
    {
        let len = raw.len();
        deserialize_hw_state(&mut params.0, raw, 0)?;
        Ok(())
    }
}

/// The number of analog inputs in meter.
pub const K24D_METER_ANALOG_INPUT_COUNT: usize = 2;
/// The number of digital inputs in meter.
pub const K24D_METER_DIGITAL_INPUT_COUNT: usize = 2;

/// Meter of mixer.
#[derive(Debug, Clone, PartialEq, Eq)]
pub struct K24dMixerMeter(pub ShellMixerMeter);

impl Default for K24dMixerMeter {
    fn default() -> (r: Self)
        ensures
            r.0.stream_inputs@.len() == 2,
            r.0.analog_inputs@.len() == K24D_METER_ANALOG_INPUT_COUNT,
            r.0.digital_inputs@.len() == K24D_METER_DIGITAL_INPUT_COUNT,
            r.0.main_outputs@.len() == 2,
    {
        K24dMixerMeter(K24dProtocol::create_meter_state())
    }
}

impl ShellMixerMeterSpecification for K24dProtocol {
    const ANALOG_INPUT_COUNT: usize = K24D_METER_ANALOG_INPUT_COUNT;
    const DIGITAL_INPUT_COUNT: usize = K24D_METER_DIGITAL_INPUT_COUNT;
}

impl TcKonnektSegmentSerdes<K24dMixerMeter> for K24dProtocol {
    const NAME: &'static str = "mixer-meter";
    const OFFSET: usize = 0x105c;
    const SIZE: usize = SHELL_MIXER_METER_SIZE;

    open spec fn segment_fits(params: K24dMixerMeter) -> bool {
        mixer_meter_fits::<K24dProtocol>(params.0, SHELL_MIXER_METER_SIZE as int)
    }

    fn serialize(params: &K24dMixerMeter, raw: &mut [u8]) -> (r: Result<(), String>)
        ensures
            r.is_ok(),
            final(raw)@ == put_mixer_meter::<K24dProtocol>(old(raw)@, params.0),
    {
        serialize_mixer_meter::<K24dProtocol>(&params.0, raw)
    }

    fn deserialize(params: &mut K24dMixerMeter, raw: &[u8]) -> (r: Result<(), String>)
        ensures
            r.is_ok(),
            mixer_meter_decoded::<K24dProtocol>(raw@, old(params).0, final(params).0),
    {
        deserialize_mixer_meter::<K24dProtocol>(&mut params.0, raw)
    }
}

/// Meter of reverb effect.
#[derive(Default, Debug, Copy, Clone, PartialEq, Eq)]
pub struct K24dReverbMeter(pub ReverbMeter);

impl TcKonnektSegmentSerdes<K24dReverbMeter> for K24dProtocol {
    const NAME: &'static str = "reverb-meter";
    const OFFSET: usize = 0x10b8;
    const SIZE: usize = REVERB_METER_SIZE;

    open spec fn segment_fits(params: K24dReverbMeter) -> bool {
        true
    }

    fn serialize(params: &K24dReverbMeter, raw: &mut [u8]) -> (r: Result<(), String>)
        ensures
            r.is_ok() <==> (true),
            final(raw)@ == put_reverb_meter(old(raw)@, 0, params.0),
    {
        let len = raw.len();
        serialize_reverb_meter(&params.0, raw, 0)?;
        Ok(())
    }

    fn deserialize(params: &mut K24dReverbMeter, raw: &[u8]) -> (r: Result<(), String>)
        ensures
            r.is_ok() <==> (true),
            reverb_meter_decoded(raw@, 0, old(params).0, final(params).0),
    {
        let len = raw.len();
        let _ = deserialize_reverb_meter(&mut params.0, raw, 0);
        Ok(())
    }
}

/// Meters of channel strip effect.
#[derive(Debug, Copy, Clone, PartialEq, Eq)]
pub struct K24dChStripMeters(pub [ChStripMeter; SHELL_CH_STRIP_COUNT]);

impl Default for K24dChStripMeters {
    fn default() -> Self {
        K24dChStripMeters([ChStripMeter::default(), ChStripMeter::default()])
    }
}

impl TcKonnektSegmentSerdes<K24dChStripMeters> for K24dProtocol {
    const NAME: &'static str = "channel-strip-meter";
    const OFFSET: usize = 0x10d0;
    const SIZE: usize = CH_STRIP_METER_SIZE * SHELL_CH_STRIP_COUNT + 4;

    open spec fn segment_fits(params: K24dChStripMeters) -> bool {
        true
    }

    fn serialize(params: &K24dChStripMeters, raw: &mut [u8]) -> (r: Result<(), String>)
        ensures
            r.is_ok(),
            final(raw)@ == put_ch_strip_meters(old(raw)@, params.0@),
    {
        serialize_ch_strip_meters(params.0.as_slice(), raw)
    }

    fn deserialize(params: &mut K24dChStripMeters, raw: &[u8]) -> (r: Result<(), String>)
        ensures
            r.is_ok(),
            forall|i: int|
                0 <= i < 2 ==> ch_strip_meter_decoded(
                    raw@,
                    ch_strip_meter_pos(i),
                    old(params).0@[i],
                    #[trigger] final(params).0@[i],
                ),
    {
        let mut meters = [params.0[0], params.0[1]];
        let r = deserialize_ch_strip_meters(&mut meters, raw);
        params.0 = meters;
        r
    }
}

} // verus!

verus! {

impl AsRef<crate::tcelectronic::shell::ShellStandaloneClockSource> for K24dConfig {
    fn as_ref(&self) -> &crate::tcelectronic::shell::ShellStandaloneClockSource
        returns
            &self.standalone_src,
    {
        &self.standalone_src
    }
}

impl AsMut<crate::tcelectronic::shell::ShellStandaloneClockSource> for K24dConfig {
    fn as_mut(&mut self) -> (r: &mut crate::tcelectronic::shell::ShellStandaloneClockSource)
        ensures
            *r == old(self).standalone_src,
            *final(self) == (K24dConfig { standalone_src: *final(r), ..*old(self) }),
    {
        &mut self.standalone_src
    }
}

impl AsRef<crate::tcelectronic::TcKonnektStandaloneClockRate> for K24dConfig {
    fn as_ref(&self) -> &crate::tcelectronic::TcKonnektStandaloneClockRate
        returns
            &self.standalone_rate,
    {
        &self.standalone_rate
    }
}

impl AsMut<crate::tcelectronic::TcKonnektStandaloneClockRate> for K24dConfig {
    fn as_mut(&mut self) -> (r: &mut crate::tcelectronic::TcKonnektStandaloneClockRate)
        ensures
            *r == old(self).standalone_rate,
            *final(self) == (K24dConfig { standalone_rate: *final(r), ..*old(self) }),
    {
        &mut self.standalone_rate
    }
}

impl AsRef<crate::tcelectronic::shell::ShellMixerState> for K24dMixerState {
    fn as_ref(&self) -> &crate::tcelectronic::shell::ShellMixerState
        returns
            &self.mixer,
    {
        &self.mixer
    }
}

impl AsMut<crate::tcelectronic::shell::ShellMixerState> for K24dMixerState {
    fn as_mut(&mut self) -> (r: &mut crate::tcelectronic::shell::ShellMixerState)
        ensures
            *r == old(self).mixer,
            *final(self) == (K24dMixerState { mixer: *final(r), ..*old(self) }),
    {
        &mut self.mixer
    }
}

impl AsRef<crate::tcelectronic::reverb::ReverbState> for K24dReverbState {
    fn as_ref(&self) -> &crate::tcelectronic::reverb::ReverbState
        returns
            &self.0,
    {
        &self.0
    }
}

impl AsMut<crate::tcelectronic::reverb::ReverbState> for K24dReverbState {
    fn as_mut(&mut self) -> (r: &mut crate::tcelectronic::reverb::ReverbState)
        ensures
            *r == old(self).0,
            *final(self) == K24dReverbState(*final(r)),
    {
        &mut self.0
    }
}

impl AsRef<[crate::tcelectronic::ch_strip::ChStripState]> for K24dChStripStates {
    fn as_ref(&self) -> (r: &[crate::tcelectronic::ch_strip::ChStripState])
        ensures
            r@ == self.0@,
    {
        &self.0
    }
}

impl AsMut<[crate::tcelectronic::ch_strip::ChStripState]> for K24dChStripStates {
    fn as_mut(&mut self) -> (r: &mut [crate::tcelectronic::ch_strip::ChStripState])
        ensures
            r@ == old(self).0@,
            final(self).0@ == final(r)@,
    {
        &mut self.0
    }
}

impl AsRef<crate::tcelectronic::shell::ShellHwState> for K24dHwState {
    fn as_ref(&self) -> &crate::tcelectronic::shell::ShellHwState
        returns
            &self.0,
    {
        &self.0
    }
}

impl AsMut<crate::tcelectronic::shell::ShellHwState> for K24dHwState {
    fn as_mut(&mut self) -> (r: &mut crate::tcelectronic::shell::ShellHwState)
        ensures
            *r == old(self).0,
            *final(self) == K24dHwState(*final(r)),
    {
        &mut self.0
    }
}

impl AsRef<crate::tcelectronic::FireWireLedState> for K24dHwState {
    fn as_ref(&self) -> &crate::tcelectronic::FireWireLedState
        returns
            &self.0.firewire_led,
    {
        &self.0.firewire_led
    }
}

impl AsMut<crate::tcelectronic::FireWireLedState> for K24dHwState {
    fn as_mut(&mut self) -> (r: &mut crate::tcelectronic::FireWireLedState)
        ensures
            *r == old(self).0.firewire_led,
            *final(self) == K24dHwState(crate::tcelectronic::shell::ShellHwState { firewire_led: *final(r), ..old(self).0 }),
    {
        &mut self.0.firewire_led
    }
}

impl AsRef<crate::tcelectronic::shell::ShellMixerMeter> for K24dMixerMeter {
    fn as_ref(&self) -> &crate::tcelectronic::shell::ShellMixerMeter
        returns
            &self.0,
    {
        &self.0
    }
}

impl AsMut<crate::tcelectronic::shell::ShellMixerMeter> for K24dMixerMeter {
    fn as_mut(&mut self) -> (r: &mut crate::tcelectronic::shell::ShellMixerMeter)
        ensures
            *r == old(self).0,
            *final(self) == K24dMixerMeter(*final(r)),
    {
        &mut self.0
    }
}

impl AsRef<crate::tcelectronic::reverb::ReverbMeter> for K24dReverbMeter {
    fn as_ref(&self) -> &crate::tcelectronic::reverb::ReverbMeter
        returns
            &self.0,
    {
        &self.0
    }
}

impl AsMut<crate::tcelectronic::reverb::ReverbMeter> for K24dReverbMeter {
    fn as_mut(&mut self) -> (r: &mut crate::tcelectronic::reverb::ReverbMeter)
        ensures
            *r == old(self).0,
            *final(self) == K24dReverbMeter(*final(r)),
    {
        &mut self.0
    }
}

impl AsRef<[crate::tcelectronic::ch_strip::ChStripMeter]> for K24dChStripMeters {
    fn as_ref(&self) -> (r: &[crate::tcelectronic::ch_strip::ChStripMeter])
        ensures
            r@ == self.0@,
    {
        &self.0
    }
}

impl AsMut<[crate::tcelectronic::ch_strip::ChStripMeter]> for K24dChStripMeters {
    fn as_mut(&mut self) -> (r: &mut [crate::tcelectronic::ch_strip::ChStripMeter])
        ensures
            r@ == old(self).0@,
            final(self).0@ == final(r)@,
    {
        &mut self.0
    }
}

} // verus!
