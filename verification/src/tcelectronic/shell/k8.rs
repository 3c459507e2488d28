//! Protocol specific to TC Electronic Konnekt 8.
//!
//! The module includes structure, enumeration, and trait and its implementation for protocol
//! defined by TC Electronic for Konnekt 8.

use crate::codec::{
    be_bool_at, be_quad_at, position_of, put_be_bool, put_be_quad, read_be_bool, write_be_bool,
};
use crate::tcelectronic::shell::{
    deserialize_coax_out_pair_source, deserialize_hw_state, deserialize_knob0_target,
    deserialize_knob1_target, deserialize_mixer_meter, deserialize_mixer_state,
    deserialize_standalone_clock_source, hw_state_decodable, hw_state_decoded,
    is_analog_src, is_digital_src, count_srcs, mixer_meter_decoded, mixer_meter_fits,
    mixer_state_decoded, mixer_state_fits, phys_out_srcs, put_hw_state, put_mixer_meter,
    put_mixer_state, serialize_coax_out_pair_source, serialize_hw_state, serialize_knob0_target,
    serialize_knob1_target, serialize_mixer_meter, serialize_mixer_state,
    serialize_standalone_clock_source, ShellCoaxOutPairSrc, ShellHwState, ShellKnob0Target,
    ShellKnob0TargetSpecification, ShellKnob1Target, ShellKnob1TargetSpecification,
    ShellMixerMeter, ShellMixerMeterSpecification, ShellMixerMonitorSrcType, ShellMixerState,
    ShellMixerStateSpecification, ShellMonitorSrcPair, ShellPhysOutSrc, ShellStandaloneClockSource,
    ShellStandaloneClockSpecification, SHELL_CONFIG_NOTIFY_FLAG, SHELL_HW_STATE_NOTIFY_FLAG,
    SHELL_HW_STATE_SIZE, SHELL_KNOB_NOTIFY_FLAG, SHELL_KNOB_SEGMENT_SIZE, SHELL_MIXER_METER_SIZE,
    SHELL_MIXER_NOTIFY_FLAG, SHELL_MIXER_STATE_SIZE,
};
use crate::tcelectronic::{
    deserialize_standalone_clock_rate, serialize_standalone_clock_rate, standalone_clock_rates,
    TcKonnektSegmentSerdes, TcKonnektStandaloneClockRate,
};
use vstd::prelude::*;

verus! {

/// Protocol implementation specific to Konnekt 8.
#[derive(Default, Debug)]
pub struct K8Protocol;

/// State of knob.
#[derive(Debug, Copy, Clone, PartialEq, Eq, Structural)]
pub struct K8Knob {
    pub knob0_target: ShellKnob0Target,
    pub knob1_target: ShellKnob1Target,
}

impl Default for K8Knob {
    fn default() -> (r: Self)
        ensures
            r == (K8Knob {
                knob0_target: ShellKnob0Target::Analog0,
                knob1_target: ShellKnob1Target::Stream,
            }),
    {
        K8Knob { knob0_target: ShellKnob0Target::Analog0, knob1_target: ShellKnob1Target::Stream }
    }
}

impl ShellKnob0TargetSpecification for K8Protocol {
    open spec fn knob0_target_list() -> Seq<ShellKnob0Target> {
        seq![
            ShellKnob0Target::Analog0,
            ShellKnob0Target::Analog1,
            ShellKnob0Target::Spdif0_1,
            ShellKnob0Target::Configurable,
        ]
    }

    fn knob0_targets() -> (r: &'static [ShellKnob0Target]) {
        &[
            ShellKnob0Target::Analog0,
            ShellKnob0Target::Analog1,
            ShellKnob0Target::Spdif0_1,
            ShellKnob0Target::Configurable,
        ]
    }
}

impl ShellKnob1TargetSpecification for K8Protocol {
    open spec fn knob1_target_list() -> Seq<ShellKnob1Target> {
        seq![ShellKnob1Target::Stream, ShellKnob1Target::Mixer]
    }

    fn knob1_targets() -> (r: &'static [ShellKnob1Target]) {
        &[ShellKnob1Target::Stream, ShellKnob1Target::Mixer]
    }
}

impl TcKonnektSegmentSerdes<K8Knob> for K8Protocol {
    const NAME: &'static str = "knob";
    const OFFSET: usize = 0x0004;
    const SIZE: usize = SHELL_KNOB_SEGMENT_SIZE;

    open spec fn segment_fits(params: K8Knob) -> bool {
        true
    }

    fn serialize(params: &K8Knob, raw: &mut [u8]) -> (r: Result<(), String>)
        ensures
            r.is_ok() <==> Self::knob0_target_list().contains(params.knob0_target)
                && Self::knob1_target_list().contains(params.knob1_target),
            r.is_ok() ==> final(raw)@ == put_be_quad(
                put_be_quad(
                    old(raw)@,
                    0,
                    position_of(Self::knob0_target_list(), params.knob0_target) as u32,
                ),
                4,
                position_of(Self::knob1_target_list(), params.knob1_target) as u32,
            ),
    {
        serialize_knob0_target::<K8Protocol>(&params.knob0_target, raw, 0)?;
        serialize_knob1_target::<K8Protocol>(&params.knob1_target, raw, 4)?;
        Ok(())
    }

    fn deserialize(params: &mut K8Knob, raw: &[u8]) -> (r: Result<(), String>)
        ensures
            r.is_ok() <==> (be_quad_at(raw@, 0) as int) < Self::knob0_target_list().len()
                && (be_quad_at(raw@, 4) as int) < Self::knob1_target_list().len(),
            r.is_ok() ==> *final(params) == (K8Knob {
                knob0_target: Self::knob0_target_list()[be_quad_at(raw@, 0) as int],
                knob1_target: Self::knob1_target_list()[be_quad_at(raw@, 4) as int],
            }),
    {
        deserialize_knob0_target::<K8Protocol>(&mut params.knob0_target, raw, 0)?;
        deserialize_knob1_target::<K8Protocol>(&mut params.knob1_target, raw, 4)?;
        Ok(())
    }
}

/// The notification flag for knob.
pub const K8_KNOB_NOTIFY_FLAG: u32 = SHELL_KNOB_NOTIFY_FLAG;

/// Configuration.
#[derive(Debug, Copy, Clone, PartialEq, Eq, Structural)]
pub struct K8Config {
    pub coax_out_src: ShellCoaxOutPairSrc,
    pub standalone_src: ShellStandaloneClockSource,
    pub standalone_rate: TcKonnektStandaloneClockRate,
}

impl Default for K8Config {
    fn default() -> (r: Self)
        ensures
            r == (K8Config {
                coax_out_src: ShellCoaxOutPairSrc(ShellPhysOutSrc::Stream),
                standalone_src: ShellStandaloneClockSource::Internal,
                standalone_rate: TcKonnektStandaloneClockRate::R44100,
            }),
    {
        K8Config {
            coax_out_src: ShellCoaxOutPairSrc::default(),
            standalone_src: ShellStandaloneClockSource::default(),
            standalone_rate: TcKonnektStandaloneClockRate::default(),
        }
    }
}

impl ShellStandaloneClockSpecification for K8Protocol {
    open spec fn standalone_clock_source_list() -> Seq<ShellStandaloneClockSource> {
        seq![ShellStandaloneClockSource::Coaxial, ShellStandaloneClockSource::Internal]
    }

    fn standalone_clock_sources() -> (r: &'static [ShellStandaloneClockSource]) {
        &[ShellStandaloneClockSource::Coaxial, ShellStandaloneClockSource::Internal]
    }
}

impl TcKonnektSegmentSerdes<K8Config> for K8Protocol {
    const NAME: &'static str = "configuration";
    const OFFSET: usize = 0x0028;
    const SIZE: usize = 76;

    open spec fn segment_fits(params: K8Config) -> bool {
        true
    }

    fn serialize(params: &K8Config, raw: &mut [u8]) -> (r: Result<(), String>)
        ensures
            r.is_ok() <==> Self::standalone_clock_source_list().contains(params.standalone_src),
            r.is_ok() ==> final(raw)@ == put_be_quad(
                put_be_quad(
                    put_be_quad(
                        old(raw)@,
                        12,
                        position_of(phys_out_srcs(), params.coax_out_src.0) as u32,
                    ),
                    20,
                    position_of(Self::standalone_clock_source_list(), params.standalone_src) as u32,
                ),
                24,
                position_of(standalone_clock_rates(), params.standalone_rate) as u32,
            ),
    {
        serialize_coax_out_pair_source(&params.coax_out_src, raw, 12)?;
        serialize_standalone_clock_source::<K8Protocol>(&params.standalone_src, raw, 20)?;
        serialize_standalone_clock_rate(&params.standalone_rate, raw, 24)?;
        Ok(())
    }

    fn deserialize(params: &mut K8Config, raw: &[u8]) -> (r: Result<(), String>)
        ensures
            r.is_ok() <==> (be_quad_at(raw@, 12) as int) < phys_out_srcs().len()
                && (be_quad_at(raw@, 20) as int) < Self::standalone_clock_source_list().len()
                && (be_quad_at(raw@, 24) as int) < standalone_clock_rates().len(),
            r.is_ok() ==> *final(params) == (K8Config {
                coax_out_src: ShellCoaxOutPairSrc(phys_out_srcs()[be_quad_at(raw@, 12) as int]),
                standalone_src: Self::standalone_clock_source_list()[be_quad_at(raw@, 20) as int],
                standalone_rate: standalone_clock_rates()[be_quad_at(raw@, 24) as int],
            }),
    {
        deserialize_coax_out_pair_source(&mut params.coax_out_src, raw, 12)?;
        deserialize_standalone_clock_source::<K8Protocol>(&mut params.standalone_src, raw, 20)?;
        deserialize_standalone_clock_rate(&mut params.standalone_rate, raw, 24)?;
        Ok(())
    }
}

/// State of mixer.
#[derive(Debug, Clone, PartialEq, Eq)]
pub struct K8MixerState {
    pub mixer: ShellMixerState,
    pub enabled: bool,
}

impl Default for K8MixerState {
    fn default() -> (r: Self)
        ensures
            r.mixer.analog@.len() == count_srcs(K8Protocol::spec_monitor_src_map(), |m| is_analog_src(m), 10),
            r.mixer.digital@.len() == count_srcs(K8Protocol::spec_monitor_src_map(), |m| is_digital_src(m), 10),
            !r.enabled,
    {
        K8MixerState { mixer: K8Protocol::create_mixer_state(), enabled: false }
    }
}

impl ShellMixerStateSpecification for K8Protocol {
    open spec fn spec_monitor_src_map() -> Seq<Option<ShellMixerMonitorSrcType>> {
        seq![
            Some(ShellMixerMonitorSrcType::Stream),
            None,
            None,
            None,
            Some(ShellMixerMonitorSrcType::Analog),
            None,
            None,
            None,
            None,
            Some(ShellMixerMonitorSrcType::Spdif),
        ]
    }

    fn monitor_src_map() -> (r: [Option<ShellMixerMonitorSrcType>; 10]) {
        let r = [
            Some(ShellMixerMonitorSrcType::Stream),
            None,
            None,
            None,
            Some(ShellMixerMonitorSrcType::Analog),
            None,
            None,
            None,
            None,
            Some(ShellMixerMonitorSrcType::Spdif),
        ];
        proof {
            assert(r@ =~= Self::spec_monitor_src_map());
        }
        r
    }
}

impl TcKonnektSegmentSerdes<K8MixerState> for K8Protocol {
    const NAME: &'static str = "mixer-state";
    const OFFSET: usize = 0x0074;
    const SIZE: usize = SHELL_MIXER_STATE_SIZE + 32;

    open spec fn segment_fits(params: K8MixerState) -> bool {
        mixer_state_fits(params.mixer, SHELL_MIXER_STATE_SIZE as int)
    }

    fn serialize(params: &K8MixerState, raw: &mut [u8]) -> (r: Result<(), String>)
        ensures
            r.is_ok(),
            final(raw)@ == put_be_bool(
                put_mixer_state::<K8Protocol>(old(raw)@, params.mixer),
                340,
                params.enabled,
            ),
    {
        serialize_mixer_state::<K8Protocol>(&params.mixer, raw)?;
        write_be_bool(raw, 340, params.enabled);
        Ok(())
    }

    fn deserialize(params: &mut K8MixerState, raw: &[u8]) -> (r: Result<(), String>)
        ensures
            r.is_ok(),
            mixer_state_decoded::<K8Protocol>(raw@, old(params).mixer, final(params).mixer),
            final(params).enabled == be_bool_at(raw@, 340),
    {
        deserialize_mixer_state::<K8Protocol>(&mut params.mixer, raw)?;
        params.enabled = read_be_bool(raw, 340);
        Ok(())
    }
}

/// Hardware state.
#[derive(Debug, Copy, Clone, PartialEq, Eq)]
pub struct K8HwState {
    pub hw_state: ShellHwState,
    pub aux_input_enabled: bool,
}

impl Default for K8HwState {
    fn default() -> (r: Self)
        ensures
            r.hw_state == ShellHwState::spec_default(),
            !r.aux_input_enabled,
    {
        K8HwState { hw_state: ShellHwState::default(), aux_input_enabled: false }
    }
}

impl TcKonnektSegmentSerdes<K8HwState> for K8Protocol {
    const NAME: &'static str = "hardware-state";
    const OFFSET: usize = 0x100c;
    const SIZE: usize = SHELL_HW_STATE_SIZE;

    open spec fn segment_fits(params: K8HwState) -> bool {
        true
    }

    fn serialize(params: &K8HwState, raw: &mut [u8]) -> (r: Result<(), String>)
        ensures
            r.is_ok(),
            final(raw)@ == put_be_bool(
                put_hw_state(old(raw)@, 0, params.hw_state),
                8,
                params.aux_input_enabled,
            ),
    {
        serialize_hw_state(&params.hw_state, raw, 0)?;
        write_be_bool(raw, 8, params.aux_input_enabled);
        Ok(())
    }

    fn deserialize(params: &mut K8HwState, raw: &[u8]) -> (r: Result<(), String>)
        ensures
            r.is_ok() <==> hw_state_decodable(raw@, 0),
            hw_state_decoded(raw@, 0, old(params).hw_state, final(params).hw_state),
            r.is_ok() ==> final(params).aux_input_enabled == be_bool_at(raw@, 8),
            r.is_err() ==> final(params).aux_input_enabled == old(params).aux_input_enabled,
    {
        deserialize_hw_state(&mut params.hw_state, raw, 0)?;
        params.aux_input_enabled = read_be_bool(raw, 8);
        Ok(())
    }
}

/// The number of analog inputs in meter.
pub const K8_METER_ANALOG_INPUT_COUNT: usize = 2;
/// The number of digital inputs in meter.
pub const K8_METER_DIGITAL_INPUT_COUNT: usize = 2;

/// Meter of mixer.
#[derive(Debug, Clone, PartialEq, Eq)]
pub struct K8MixerMeter(pub ShellMixerMeter);

impl Default for K8MixerMeter {
    fn default() -> (r: Self)
        ensures
            r.0.stream_inputs@.len() == 2,
            r.0.analog_inputs@.len() == K8_METER_ANALOG_INPUT_COUNT,
            r.0.digital_inputs@.len() == K8_METER_DIGITAL_INPUT_COUNT,
            r.0.main_outputs@.len() == 2,
    {
        K8MixerMeter(K8Protocol::create_meter_state())
    }
}

impl ShellMixerMeterSpecification for K8Protocol {
    const ANALOG_INPUT_COUNT: usize = K8_METER_ANALOG_INPUT_COUNT;
    const DIGITAL_INPUT_COUNT: usize = K8_METER_DIGITAL_INPUT_COUNT;
}

impl TcKonnektSegmentSerdes<K8MixerMeter> for K8Protocol {
    const NAME: &'static str = "mixer-meter";
    const OFFSET: usize = 0x100c;
    const SIZE: usize = SHELL_MIXER_METER_SIZE;

    open spec fn segment_fits(params: K8MixerMeter) -> bool {
        mixer_meter_fits::<K8Protocol>(params.0, SHELL_MIXER_METER_SIZE as int)
    }

    fn serialize(params: &K8MixerMeter, raw: &mut [u8]) -> (r: Result<(), String>)
        ensures
            r.is_ok(),
            final(raw)@ == put_mixer_meter::<K8Protocol>(old(raw)@, params.0),
    {
        serialize_mixer_meter::<K8Protocol>(&params.0, raw)
    }

    fn deserialize(params: &mut K8MixerMeter, raw: &[u8]) -> (r: Result<(), String>)
        ensures
            r.is_ok(),
            mixer_meter_decoded::<K8Protocol>(raw@, old(params).0, final(params).0),
    {
        deserialize_mixer_meter::<K8Protocol>(&mut params.0, raw)
    }
}

} // verus!

verus! {

impl AsRef<crate::tcelectronic::TcKonnektStandaloneClockRate> for K8Config {
    fn as_ref(&self) -> &crate::tcelectronic::TcKonnektStandaloneClockRate
        returns
            &self.standalone_rate,
    {
        &self.standalone_rate
    }
}

impl AsMut<crate::tcelectronic::TcKonnektStandaloneClockRate> for K8Config {
    fn as_mut(&mut self) -> (r: &mut crate::tcelectronic::TcKonnektStandaloneClockRate)
        ensures
            *r == old(self).standalone_rate,
            *final(self) == (K8Config { standalone_rate: *final(r), ..*old(self) }),
    {
        &mut self.standalone_rate
    }
}

impl AsRef<crate::tcelectronic::shell::ShellMixerState> for K8MixerState {
    fn as_ref(&self) -> &crate::tcelectronic::shell::ShellMixerState
        returns
            &self.mixer,
    {
        &self.mixer
    }
}

impl AsMut<crate::tcelectronic::shell::ShellMixerState> for K8MixerState {
    fn as_mut(&mut self) -> (r: &mut crate::tcelectronic::shell::ShellMixerState)
        ensures
            *r == old(self).mixer,
            *final(self) == (K8MixerState { mixer: *final(r), ..*old(self) }),
    {
        &mut self.mixer
    }
}

impl AsRef<crate::tcelectronic::shell::ShellHwState> for K8HwState {
    fn as_ref(&self) -> &crate::tcelectronic::shell::ShellHwState
        returns
            &self.hw_state,
    {
        &self.hw_state
    }
}

impl AsMut<crate::tcelectronic::shell::ShellHwState> for K8HwState {
    fn as_mut(&mut self) -> (r: &mut crate::tcelectronic::shell::ShellHwState)
        ensures
            *r == old(self).hw_state,
            *final(self) == (K8HwState { hw_state: *final(r), ..*old(self) }),
    {
        &mut self.hw_state
    }
}

impl AsRef<crate::tcelectronic::FireWireLedState> for K8HwState {
    fn as_ref(&self) -> &crate::tcelectronic::FireWireLedState
        returns
            &self.hw_state.firewire_led,
    {
        &self.hw_state.firewire_led
    }
}

impl AsMut<crate::tcelectronic::FireWireLedState> for K8HwState {
    fn as_mut(&mut self) -> (r: &mut crate::tcelectronic::FireWireLedState)
        ensures
            *r == old(self).hw_state.firewire_led,
            *final(self) == (K8HwState { hw_state: crate::tcelectronic::shell::ShellHwState { firewire_led: *final(r), ..old(self).hw_state }, ..*old(self) }),
    {
        &mut self.hw_state.firewire_led
    }
}

impl AsRef<crate::tcelectronic::shell::ShellMixerMeter> for K8MixerMeter {
    fn as_ref(&self) -> &crate::tcelectronic::shell::ShellMixerMeter
        returns
            &self.0,
    {
        &self.0
    }
}

impl AsMut<crate::tcelectronic::shell::ShellMixerMeter> for K8MixerMeter {
    fn as_mut(&mut self) -> (r: &mut crate::tcelectronic::shell::ShellMixerMeter)
        ensures
            *r == old(self).0,
            *final(self) == K8MixerMeter(*final(r)),
    {
        &mut self.0
    }
}

} // verus!
