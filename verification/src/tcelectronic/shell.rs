//! Protocol defined by TC Electronic for Konnekt 24d, Konnekt 8, Konnekt Live, and Impact Twin.
//!
//! The module includes structure, enumeration, and trait and its implementation for protocol
//! defined by TC Electronic for Konnekt 24d, Konnekt 8, Konnekt Live, and Impact Twin.

pub mod itwin;
pub mod k24d;
pub mod k8;
pub mod klive;

use crate::bits::lemma_low_byte;
use crate::codec::{
    cleared_flags, lemma_put_be_i32s_len, lemma_put_be_i32s_read, put_be_i32s, read_be_i32s, write_be_i32s, zeroed_i32s,
};
use crate::codec::{
    be_bool_at, be_i32_at, be_quad_at, deserialize_position, group_quad_lemmas, quads_agree, lemma_quads_agree_chain,
    lemma_position_of_contained, position_of, put_be_bool, put_be_i32, put_be_quad, read_be_bool,
    read_be_i32, read_be_quad, serialize_position, write_be_bool, write_be_i32, write_be_quad,
    TableEntry,
};
use vstd::prelude::*;
use crate::tcelectronic::{
    deserialize_fw_led_state, fw_led_states, lemma_fire_wire_led_state_in_table,
    serialize_fw_led_state, FireWireLedState,
};

verus! {

/// The flag of notification for knob.
pub const SHELL_KNOB_NOTIFY_FLAG: u32 = 0x00010000;
/// The flag of notification for configuration.
pub const SHELL_CONFIG_NOTIFY_FLAG: u32 = 0x00020000;
/// The flag of notification for mixer.
pub const SHELL_MIXER_NOTIFY_FLAG: u32 = 0x00040000;
/// The flag of notification for reverb effect.
pub const SHELL_REVERB_NOTIFY_FLAG: u32 = 0x00080000;
/// The flag of notification for channel strip effect.
pub const SHELL_CH_STRIP_NOTIFY_FLAG: u32 = 0x00100000;
/// The flag of notification for hardware state.
pub const SHELL_HW_STATE_NOTIFY_FLAG: u32 = 0x01000000;

/// The number of channel strip effects.
pub const SHELL_CH_STRIP_COUNT: usize = 2;

/// State of jack sense for analog input.
#[derive(Debug, Copy, Clone, PartialEq, Eq, Structural)]
pub enum ShellAnalogJackState {
    /// Select front jack instead of rear.
    FrontSelected,
    /// Detect plug insertion in front jack.
    FrontInserted,
    /// Detect plug insertion in front jack with attenuation.
    FrontInsertedAttenuated,
    /// Select rear jack instead of front.
    RearSelected,
    /// Detect plug insertion in rear jack.
    RearInserted,
}

impl Default for ShellAnalogJackState {
    fn default() -> (r: Self)
        ensures
            r == ShellAnalogJackState::FrontSelected,
    {
        ShellAnalogJackState::FrontSelected
    }
}

impl ShellAnalogJackState {
    pub const FRONT_SELECTED: u32 = 0x00;
    pub const FRONT_INSERTED: u32 = 0x05;
    pub const FRONT_INSERTED_ATTENUATED: u32 = 0x06;
    pub const REAR_SELECTED: u32 = 0x07;
    pub const REAR_INSERTED: u32 = 0x08;
}

/// The value of the state of jack sense on the wire.
pub open spec fn analog_jack_value(state: ShellAnalogJackState) -> u32 {
    match state {
        ShellAnalogJackState::FrontSelected => ShellAnalogJackState::FRONT_SELECTED,
        ShellAnalogJackState::FrontInserted => ShellAnalogJackState::FRONT_INSERTED,
        ShellAnalogJackState::FrontInsertedAttenuated => ShellAnalogJackState::FRONT_INSERTED_ATTENUATED,
        ShellAnalogJackState::RearSelected => ShellAnalogJackState::REAR_SELECTED,
        ShellAnalogJackState::RearInserted => ShellAnalogJackState::REAR_INSERTED,
    }
}

/// Each value of `ShellAnalogJackState` has its own value in `analog_jack_value`, as the device knows it.
pub proof fn lemma_analog_jack_value_table()
    ensures
        analog_jack_value(ShellAnalogJackState::FrontSelected) == ShellAnalogJackState::FRONT_SELECTED,
        analog_jack_value(ShellAnalogJackState::FrontInserted) == ShellAnalogJackState::FRONT_INSERTED,
        analog_jack_value(ShellAnalogJackState::FrontInsertedAttenuated) == ShellAnalogJackState::FRONT_INSERTED_ATTENUATED,
        analog_jack_value(ShellAnalogJackState::RearSelected) == ShellAnalogJackState::REAR_SELECTED,
        analog_jack_value(ShellAnalogJackState::RearInserted) == ShellAnalogJackState::REAR_INSERTED,
{
}

/// The state of jack sense for the least significant byte of the value on the wire, if any.
pub open spec fn analog_jack_state_of(byte: u32) -> Option<ShellAnalogJackState> {
    if byte == ShellAnalogJackState::FRONT_INSERTED {
        Some(ShellAnalogJackState::FrontInserted)
    } else if byte == ShellAnalogJackState::FRONT_INSERTED_ATTENUATED {
        Some(ShellAnalogJackState::FrontInsertedAttenuated)
    } else if byte == ShellAnalogJackState::REAR_SELECTED {
        Some(ShellAnalogJackState::RearSelected)
    } else if byte == ShellAnalogJackState::REAR_INSERTED {
        Some(ShellAnalogJackState::RearInserted)
    } else if byte == ShellAnalogJackState::FRONT_SELECTED {
        Some(ShellAnalogJackState::FrontSelected)
    } else {
        None
    }
}

/// The message for a value which stands for no state of analog jack.
///
/// Formatted by `std::format!`; the contract claims nothing of the text.
#[verifier::external_body]
fn invalid_analog_jack_state_message(val: u32) -> String {
    format!("Invalid value of analog jack state: {}", val)
}

/// Serialize the state of jack sense at `pos`.
pub fn serialize_analog_jack_state(state: &ShellAnalogJackState, raw: &mut [u8], pos: usize) -> (r: Result<(), String>)
    requires
        pos + 4 <= old(raw)@.len(),
    ensures
        r.is_ok(),
        final(raw)@ == put_be_quad(old(raw)@, pos as int, analog_jack_value(*state)),
        final(raw)@.len() == old(raw)@.len(),
{
    let val = match state {
        ShellAnalogJackState::FrontSelected => ShellAnalogJackState::FRONT_SELECTED,
        ShellAnalogJackState::FrontInserted => ShellAnalogJackState::FRONT_INSERTED,
        ShellAnalogJackState::FrontInsertedAttenuated => ShellAnalogJackState::FRONT_INSERTED_ATTENUATED,
        ShellAnalogJackState::RearSelected => ShellAnalogJackState::REAR_SELECTED,
        ShellAnalogJackState::RearInserted => ShellAnalogJackState::REAR_INSERTED,
    };
    write_be_quad(raw, pos, val);
    Ok(())
}

/// Deserialize the state of jack sense at `pos`; the least significant byte of the quadlet
/// decides it.
pub fn deserialize_analog_jack_state(state: &mut ShellAnalogJackState, raw: &[u8], pos: usize) -> (r: Result<(), String>)
    requires
        pos + 4 <= raw@.len(),
    ensures
        r.is_ok() <==> analog_jack_state_of(be_quad_at(raw@, pos as int) % 256) is Some,
        r.is_ok() ==> *final(state) == analog_jack_state_of(be_quad_at(raw@, pos as int) % 256).unwrap(),
        r.is_err() ==> *final(state) == *old(state),
{
    let val = read_be_quad(raw, pos);
    proof {
        lemma_low_byte(val);
    }
    let byte = val & 0xff;
    if byte == ShellAnalogJackState::FRONT_INSERTED {
        *state = ShellAnalogJackState::FrontInserted;
    } else if byte == ShellAnalogJackState::FRONT_INSERTED_ATTENUATED {
        *state = ShellAnalogJackState::FrontInsertedAttenuated;
    } else if byte == ShellAnalogJackState::REAR_SELECTED {
        *state = ShellAnalogJackState::RearSelected;
    } else if byte == ShellAnalogJackState::REAR_INSERTED {
        *state = ShellAnalogJackState::RearInserted;
    } else if byte == ShellAnalogJackState::FRONT_SELECTED {
        *state = ShellAnalogJackState::FrontSelected;
    } else {
        return Err(invalid_analog_jack_state_message(val));
    }
    Ok(())
}

/// The state of jack sense is read back from the value written for it.
pub proof fn lemma_analog_jack_state_code(state: ShellAnalogJackState)
    ensures
        analog_jack_state_of(analog_jack_value(state) % 256) == Some(state),
{
}

/// The number of analog inputs which has jack sense.
pub const SHELL_ANALOG_JACK_STATE_COUNT: usize = 2;

/// Hardware state.
#[derive(Debug, Copy, Clone, PartialEq, Eq)]
pub struct ShellHwState {
    /// The state of analog jack with sense.
    pub analog_jack_states: [ShellAnalogJackState; 2],
    /// The state of FireWire LED.
    pub firewire_led: FireWireLedState,
}

impl Default for ShellHwState {
    fn default() -> (r: Self)
        ensures
            r == (ShellHwState {
                analog_jack_states: [
                    ShellAnalogJackState::FrontSelected,
                    ShellAnalogJackState::FrontSelected,
                ],
                firewire_led: FireWireLedState::Off,
            }),
    {
        ShellHwState {
            analog_jack_states: [ShellAnalogJackState::default(), ShellAnalogJackState::default()],
            firewire_led: FireWireLedState::default(),
        }
    }
}

impl ShellHwState {
    /// The default hardware state.
    pub open spec fn spec_default() -> ShellHwState {
        ShellHwState {
            analog_jack_states: [
                ShellAnalogJackState::FrontSelected,
                ShellAnalogJackState::FrontSelected,
            ],
            firewire_led: FireWireLedState::Off,
        }
    }
}

/// The size of serialized hardware state.
pub const SHELL_HW_STATE_SIZE: usize = 28;

/// The bytes after serializing the hardware state at `pos`.
pub open spec fn put_hw_state(s: Seq<u8>, pos: int, state: ShellHwState) -> Seq<u8> {
    let s = put_be_quad(s, pos, analog_jack_value(state.analog_jack_states[0]));
    let s = put_be_quad(s, pos + 4, analog_jack_value(state.analog_jack_states[1]));
    put_be_quad(s, pos + 20, position_of(fw_led_states(), state.firewire_led) as u32)
}

/// Each part of the hw state stands in the quadlet at its own place from `pos`, whatever the
/// parts stored after it.
pub proof fn lemma_put_hw_state_layout(s: Seq<u8>, pos: int, state: ShellHwState)
    requires
        0 <= pos,
        pos + 24 <= s.len(),
    ensures
        be_quad_at(put_hw_state(s, pos, state), pos) == analog_jack_value(state.analog_jack_states[0]),
        be_quad_at(put_hw_state(s, pos, state), pos + 4) == analog_jack_value(state.analog_jack_states[1]),
        be_quad_at(put_hw_state(s, pos, state), pos + 20) == position_of(fw_led_states(), state.firewire_led) as u32,
{
    broadcast use group_quad_lemmas;
}

/// Serialize the hardware state at `pos`.
pub fn serialize_hw_state(state: &ShellHwState, raw: &mut [u8], pos: usize) -> (r: Result<(), String>)
    requires
        pos + SHELL_HW_STATE_SIZE <= old(raw)@.len(),
    ensures
        r.is_ok(),
        final(raw)@ == put_hw_state(old(raw)@, pos as int, *state),
        final(raw)@.len() == old(raw)@.len(),
{
    let len = raw.len();
    serialize_analog_jack_state(&state.analog_jack_states[0], raw, pos)?;
    serialize_analog_jack_state(&state.analog_jack_states[1], raw, pos + 4)?;
    serialize_fw_led_state(&state.firewire_led, raw, pos + 20)?;
    Ok(())
}

/// Whether the hardware state at `pos` can be deserialized.
pub open spec fn hw_state_decodable(raw: Seq<u8>, pos: int) -> bool {
    &&& analog_jack_state_of(be_quad_at(raw, pos) % 256) is Some
    &&& analog_jack_state_of(be_quad_at(raw, pos + 4) % 256) is Some
    &&& (be_quad_at(raw, pos + 20) as int) < fw_led_states().len()
}

/// `new` is `old` after deserializing the hardware state at `pos`: the fields are read in their
/// order until one of them fails.
pub open spec fn hw_state_decoded(raw: Seq<u8>, pos: int, old: ShellHwState, new: ShellHwState) -> bool {
    let j0 = analog_jack_state_of(be_quad_at(raw, pos) % 256);
    let j1 = analog_jack_state_of(be_quad_at(raw, pos + 4) % 256);
    let led = be_quad_at(raw, pos + 20) as int;
    &&& new.analog_jack_states[0] == if j0 is Some { j0.unwrap() } else { old.analog_jack_states[0] }
    &&& new.analog_jack_states[1] == if j0 is Some && j1 is Some { j1.unwrap() } else { old.analog_jack_states[1] }
    &&& new.firewire_led == if j0 is Some && j1 is Some && led < fw_led_states().len() {
        fw_led_states()[led]
    } else {
        old.firewire_led
    }
}

/// Deserialize the hardware state at `pos`.
pub fn deserialize_hw_state(state: &mut ShellHwState, raw: &[u8], pos: usize) -> (r: Result<(), String>)
    requires
        pos + SHELL_HW_STATE_SIZE <= raw@.len(),
    ensures
        r.is_ok() <==> hw_state_decodable(raw@, pos as int),
        hw_state_decoded(raw@, pos as int, *old(state), *final(state)),
{
    let len = raw.len();
    deserialize_analog_jack_state(&mut state.analog_jack_states[0], raw, pos)?;
    deserialize_analog_jack_state(&mut state.analog_jack_states[1], raw, pos + 4)?;
    deserialize_fw_led_state(&mut state.firewire_led, raw, pos + 20)?;
    Ok(())
}

/// Deserializing what was serialized gives the hardware state back.
pub proof fn lemma_hw_state_roundtrip(state: ShellHwState, s: Seq<u8>, pos: int, old: ShellHwState, new: ShellHwState)
    requires
        0 <= pos,
        pos + SHELL_HW_STATE_SIZE <= s.len(),
    ensures
        put_hw_state(s, pos, state).len() == s.len(),
        hw_state_decodable(put_hw_state(s, pos, state), pos),
        hw_state_decoded(put_hw_state(s, pos, state), pos, old, new) ==> new == state,
{
    broadcast use group_quad_lemmas;
    lemma_analog_jack_state_code(state.analog_jack_states[0]);
    lemma_analog_jack_state_code(state.analog_jack_states[1]);
    lemma_fire_wire_led_state_in_table(state.firewire_led);
    lemma_position_of_contained(fw_led_states(), state.firewire_led);
    if hw_state_decoded(put_hw_state(s, pos, state), pos, old, new) {
        assert(new.analog_jack_states =~= state.analog_jack_states);
    }
}

/// Parameter of monitor source.
#[derive(Debug, Copy, Clone, PartialEq, Eq, Structural)]
pub struct MonitorSrcParam {
    ///  ch 1 gain to mixer ch 1/2 (0xfffffc18..0x00000000, -90.0..0.00 dB)
    pub gain_to_mixer: i32,
    ///  ch 1 pan to mixer ch 1/2 (0xffffffce..0x00000032, -50.0..+50.0 dB)
    pub pan_to_mixer: i32,
    ///  ch 1 gain to send ch 1/2 (0xfffffc18..0x00000000, -90.0..0.00 dB)
    pub gain_to_send: i32,
}

impl Default for MonitorSrcParam {
    fn default() -> (r: Self)
        ensures
            r == (MonitorSrcParam { gain_to_mixer: 0, pan_to_mixer: 0, gain_to_send: 0 }),
    {
        MonitorSrcParam { gain_to_mixer: 0, pan_to_mixer: 0, gain_to_send: 0 }
    }
}

/// The size of serialized parameter of monitor source.
pub const MONITOR_SRC_PARAM_SIZE: usize = 12;


/// The bytes after serializing the parameter of monitor source at `pos`.
pub open spec fn put_monitor_source_param(s: Seq<u8>, pos: int, param: MonitorSrcParam) -> Seq<u8> {
    let s = put_be_i32(s, pos, param.gain_to_mixer);
    let s = put_be_i32(s, pos + 4, param.pan_to_mixer);
    put_be_i32(s, pos + 8, param.gain_to_send)
}

/// Each part of the monitor source param stands in the quadlet at its own place from `pos`, whatever the
/// parts stored after it.
pub proof fn lemma_put_monitor_source_param_layout(s: Seq<u8>, pos: int, param: MonitorSrcParam)
    requires
        0 <= pos,
        pos + 12 <= s.len(),
    ensures
        be_i32_at(put_monitor_source_param(s, pos, param), pos) == param.gain_to_mixer,
        be_i32_at(put_monitor_source_param(s, pos, param), pos + 4) == param.pan_to_mixer,
        be_i32_at(put_monitor_source_param(s, pos, param), pos + 8) == param.gain_to_send,
{
    broadcast use group_quad_lemmas;
}

/// Serialize the parameter of monitor source at `pos`.
pub fn serialize_monitor_source_param(param: &MonitorSrcParam, raw: &mut [u8], pos: usize) -> (r: Result<(), String>)
    requires
        pos + MONITOR_SRC_PARAM_SIZE <= old(raw)@.len(),
    ensures
        r.is_ok(),
        final(raw)@ == put_monitor_source_param(old(raw)@, pos as int, *param),
        final(raw)@.len() == old(raw)@.len(),
{
    let len = raw.len();
    write_be_i32(raw, pos, param.gain_to_mixer);
    write_be_i32(raw, pos + 4, param.pan_to_mixer);
    write_be_i32(raw, pos + 8, param.gain_to_send);
    Ok(())
}

/// Whether the parameter of monitor source at `pos` can be deserialized.
pub open spec fn monitor_source_param_decodable(raw: Seq<u8>, pos: int) -> bool {
    true
}

/// `new` is `old` after deserializing the parameter of monitor source at `pos`.
pub open spec fn monitor_source_param_decoded(raw: Seq<u8>, pos: int, old: MonitorSrcParam, new: MonitorSrcParam) -> bool {
    &&& new.gain_to_mixer == be_i32_at(raw, pos)
    &&& new.pan_to_mixer == be_i32_at(raw, pos + 4)
    &&& new.gain_to_send == be_i32_at(raw, pos + 8)
}

/// Deserialize the parameter of monitor source at `pos`.
pub fn deserialize_monitor_source_param(param: &mut MonitorSrcParam, raw: &[u8], pos: usize) -> (r: Result<(), String>)
    requires
        pos + MONITOR_SRC_PARAM_SIZE <= raw@.len(),
    ensures
        r.is_ok() <==> monitor_source_param_decodable(raw@, pos as int),
        monitor_source_param_decoded(raw@, pos as int, *old(param), *final(param)),
{
    let len = raw.len();
    param.gain_to_mixer = read_be_i32(raw, pos);
    param.pan_to_mixer = read_be_i32(raw, pos + 4);
    param.gain_to_send = read_be_i32(raw, pos + 8);
    Ok(())
}

/// Deserializing what was serialized for the parameter of monitor source gives it back.
pub proof fn lemma_monitor_source_param_roundtrip(param: MonitorSrcParam, s: Seq<u8>, pos: int, old: MonitorSrcParam, new: MonitorSrcParam)
    requires
        0 <= pos,
        pos + MONITOR_SRC_PARAM_SIZE <= s.len(),
    ensures
        put_monitor_source_param(s, pos, param).len() == s.len(),
        monitor_source_param_decodable(put_monitor_source_param(s, pos, param), pos),
        monitor_source_param_decoded(put_monitor_source_param(s, pos, param), pos, old, new) ==> new == param,
{
    broadcast use group_quad_lemmas;
}

/// Monitor source.
#[derive(Debug, Copy, Clone, PartialEq, Eq)]
pub struct ShellMonitorSrcPair {
    ///  Stereo channel link for the pair.
    pub stereo_link: bool,
    /// Parameters of monitor source for left and right channels in its order.
    pub params: [MonitorSrcParam; 2],
}

impl Default for ShellMonitorSrcPair {
    fn default() -> (r: Self)
        ensures
            r == (ShellMonitorSrcPair {
                stereo_link: false,
                params: [
                    MonitorSrcParam { gain_to_mixer: 0, pan_to_mixer: 0, gain_to_send: 0 },
                    MonitorSrcParam { gain_to_mixer: 0, pan_to_mixer: 0, gain_to_send: 0 },
                ],
            }),
    {
        ShellMonitorSrcPair {
            stereo_link: false,
            params: [MonitorSrcParam::default(), MonitorSrcParam::default()],
        }
    }
}

/// The size of serialized monitor source.
pub const SHELL_MONITOR_SRC_PAIR_SIZE: usize = 28;


/// The bytes after serializing the monitor source at `pos`.
pub open spec fn put_monitor_source_pair(s: Seq<u8>, pos: int, pair: ShellMonitorSrcPair) -> Seq<u8> {
    let s = put_be_bool(s, pos, pair.stereo_link);
    let s = put_monitor_source_param(s, pos + 4, pair.params[0]);
    put_monitor_source_param(s, pos + 16, pair.params[1])
}

/// Serialize the monitor source at `pos`.
pub fn serialize_monitor_source_pair(pair: &ShellMonitorSrcPair, raw: &mut [u8], pos: usize) -> (r: Result<(), String>)
    requires
        pos + SHELL_MONITOR_SRC_PAIR_SIZE <= old(raw)@.len(),
    ensures
        r.is_ok(),
        final(raw)@ == put_monitor_source_pair(old(raw)@, pos as int, *pair),
        final(raw)@.len() == old(raw)@.len(),
{
    let len = raw.len();
    write_be_bool(raw, pos, pair.stereo_link);
    let _ = serialize_monitor_source_param(&pair.params[0], raw, pos + 4);
    let _ = serialize_monitor_source_param(&pair.params[1], raw, pos + 16);
    Ok(())
}

/// Whether the monitor source at `pos` can be deserialized.
pub open spec fn monitor_source_pair_decodable(raw: Seq<u8>, pos: int) -> bool {
    true
}

/// `new` is `old` after deserializing the monitor source at `pos`.
pub open spec fn monitor_source_pair_decoded(raw: Seq<u8>, pos: int, old: ShellMonitorSrcPair, new: ShellMonitorSrcPair) -> bool {
    &&& new.stereo_link == be_bool_at(raw, pos)
    &&& monitor_source_param_decoded(raw, pos + 4, old.params[0], new.params[0])
    &&& monitor_source_param_decoded(raw, pos + 16, old.params[1], new.params[1])
}

/// Deserialize the monitor source at `pos`.
pub fn deserialize_monitor_source_pair(pair: &mut ShellMonitorSrcPair, raw: &[u8], pos: usize) -> (r: Result<(), String>)
    requires
        pos + SHELL_MONITOR_SRC_PAIR_SIZE <= raw@.len(),
    ensures
        r.is_ok() <==> monitor_source_pair_decodable(raw@, pos as int),
        monitor_source_pair_decoded(raw@, pos as int, *old(pair), *final(pair)),
{
    let len = raw.len();
    pair.stereo_link = read_be_bool(raw, pos);
    deserialize_monitor_source_param(&mut pair.params[0], raw, pos + 4);
    deserialize_monitor_source_param(&mut pair.params[1], raw, pos + 16);
    Ok(())
}

/// Deserializing what was serialized for the monitor source gives it back.
pub proof fn lemma_monitor_source_pair_roundtrip(pair: ShellMonitorSrcPair, s: Seq<u8>, pos: int, old: ShellMonitorSrcPair, new: ShellMonitorSrcPair)
    requires
        0 <= pos,
        pos + SHELL_MONITOR_SRC_PAIR_SIZE <= s.len(),
    ensures
        put_monitor_source_pair(s, pos, pair).len() == s.len(),
        monitor_source_pair_decodable(put_monitor_source_pair(s, pos, pair), pos),
        monitor_source_pair_decoded(put_monitor_source_pair(s, pos, pair), pos, old, new) ==> new == pair,
{
    broadcast use group_quad_lemmas;
    lemma_monitor_source_param_roundtrip(pair.params[0], put_be_bool(s, pos, pair.stereo_link), pos + 4, old.params[0], new.params[0]);
    lemma_monitor_source_param_roundtrip(pair.params[1], put_monitor_source_param(put_be_bool(s, pos, pair.stereo_link), pos + 4, pair.params[0]), pos + 16, old.params[1], new.params[1]);
    if monitor_source_pair_decoded(put_monitor_source_pair(s, pos, pair), pos, old, new) {
        assert(new.params =~= pair.params);
    }
}

/// Storing a monitor source leaves the quadlets outside it as they are.
proof fn lemma_put_monitor_source_pair_frame(s: Seq<u8>, p: int, pair: ShellMonitorSrcPair, lo: int, hi: int)
    requires
        0 <= p,
        p + SHELL_MONITOR_SRC_PAIR_SIZE <= s.len(),
        0 <= lo,
        hi <= s.len(),
        hi <= p || p + SHELL_MONITOR_SRC_PAIR_SIZE <= lo,
    ensures
        put_monitor_source_pair(s, p, pair).len() == s.len(),
        quads_agree(put_monitor_source_pair(s, p, pair), s, lo, hi),
{
    broadcast use group_quad_lemmas;
}

/// A monitor source is read back from any bytes whose quadlets at its place are those after
/// storing it.
proof fn lemma_monitor_source_pair_read(t: Seq<u8>, s: Seq<u8>, pos: int, pair: ShellMonitorSrcPair, old: ShellMonitorSrcPair, new: ShellMonitorSrcPair)
    requires
        0 <= pos,
        pos + SHELL_MONITOR_SRC_PAIR_SIZE <= s.len(),
        quads_agree(t, put_monitor_source_pair(s, pos, pair), pos, pos + SHELL_MONITOR_SRC_PAIR_SIZE),
        monitor_source_pair_decoded(t, pos, old, new),
    ensures
        new == pair,
{
    let y = put_monitor_source_pair(s, pos, pair);
    lemma_monitor_source_pair_roundtrip(pair, s, pos, old, new);
    assert(be_quad_at(t, pos) == be_quad_at(y, pos));
    assert(be_quad_at(t, pos + 4) == be_quad_at(y, pos + 4));
    assert(be_quad_at(t, pos + 8) == be_quad_at(y, pos + 8));
    assert(be_quad_at(t, pos + 12) == be_quad_at(y, pos + 12));
    assert(be_quad_at(t, pos + 16) == be_quad_at(y, pos + 16));
    assert(be_quad_at(t, pos + 20) == be_quad_at(y, pos + 20));
    assert(be_quad_at(t, pos + 24) == be_quad_at(y, pos + 24));
    assert(monitor_source_pair_decoded(y, pos, old, new));
}

/// Return configuration of reverb effect.
#[derive(Debug, Copy, Clone, PartialEq, Eq, Structural)]
pub struct ShellReverbReturn {
    /// Whether to use reverb effect as plugin. When enabled, return of reverb effect is delivered
    /// by rx stream.
    pub plugin_mode: bool,
    /// The gain to return reverb effect to mixer output.
    pub return_gain: i32,
    /// Whether to mute return reverb effect to mixer output.
    pub return_mute: bool,
}

impl Default for ShellReverbReturn {
    fn default() -> (r: Self)
        ensures
            r == (ShellReverbReturn { plugin_mode: false, return_gain: 0, return_mute: false }),
    {
        ShellReverbReturn { plugin_mode: false, return_gain: 0, return_mute: false }
    }
}

/// The size of serialized return configuration of reverb effect.
pub const SHELL_REVERB_RETURN_SIZE: usize = 12;

/// The bytes after serializing the return configuration of reverb effect at `pos`.
pub open spec fn put_reverb_return(s: Seq<u8>, pos: int, state: ShellReverbReturn) -> Seq<u8> {
    let s = put_be_bool(s, pos, state.plugin_mode);
    let s = put_be_i32(s, pos + 4, state.return_gain);
    put_be_bool(s, pos + 8, state.return_mute)
}

/// Each part of the reverb return stands in the quadlet at its own place from `pos`, whatever the
/// parts stored after it.
pub proof fn lemma_put_reverb_return_layout(s: Seq<u8>, pos: int, state: ShellReverbReturn)
    requires
        0 <= pos,
        pos + 12 <= s.len(),
    ensures
        be_bool_at(put_reverb_return(s, pos, state), pos) == state.plugin_mode,
        be_i32_at(put_reverb_return(s, pos, state), pos + 4) == state.return_gain,
        be_bool_at(put_reverb_return(s, pos, state), pos + 8) == state.return_mute,
{
    broadcast use group_quad_lemmas;
}

/// Serialize the return configuration of reverb effect at `pos`.
pub fn serialize_reverb_return(state: &ShellReverbReturn, raw: &mut [u8], pos: usize) -> (r: Result<(), String>)
    requires
        pos + SHELL_REVERB_RETURN_SIZE <= old(raw)@.len(),
    ensures
        r.is_ok(),
        final(raw)@ == put_reverb_return(old(raw)@, pos as int, *state),
        final(raw)@.len() == old(raw)@.len(),
{
    let len = raw.len();
    write_be_bool(raw, pos, state.plugin_mode);
    write_be_i32(raw, pos + 4, state.return_gain);
    write_be_bool(raw, pos + 8, state.return_mute);
    Ok(())
}

/// Whether the return configuration of reverb effect at `pos` can be deserialized.
pub open spec fn reverb_return_decodable(raw: Seq<u8>, pos: int) -> bool {
    true
}

/// `new` is `old` after deserializing the return configuration of reverb effect at `pos`.
pub open spec fn reverb_return_decoded(raw: Seq<u8>, pos: int, old: ShellReverbReturn, new: ShellReverbReturn) -> bool {
    &&& new.plugin_mode == be_bool_at(raw, pos)
    &&& new.return_gain == be_i32_at(raw, pos + 4)
    &&& new.return_mute == be_bool_at(raw, pos + 8)
}

/// Deserialize the return configuration of reverb effect at `pos`.
pub fn deserialize_reverb_return(state: &mut ShellReverbReturn, raw: &[u8], pos: usize) -> (r: Result<(), String>)
    requires
        pos + SHELL_REVERB_RETURN_SIZE <= raw@.len(),
    ensures
        r.is_ok() <==> reverb_return_decodable(raw@, pos as int),
        reverb_return_decoded(raw@, pos as int, *old(state), *final(state)),
{
    let len = raw.len();
    state.plugin_mode = read_be_bool(raw, pos);
    state.return_gain = read_be_i32(raw, pos + 4);
    state.return_mute = read_be_bool(raw, pos + 8);
    Ok(())
}

/// Deserializing what was serialized for the return configuration of reverb effect gives it back.
pub proof fn lemma_reverb_return_roundtrip(state: ShellReverbReturn, s: Seq<u8>, pos: int, old: ShellReverbReturn, new: ShellReverbReturn)
    requires
        0 <= pos,
        pos + SHELL_REVERB_RETURN_SIZE <= s.len(),
    ensures
        put_reverb_return(s, pos, state).len() == s.len(),
        reverb_return_decodable(put_reverb_return(s, pos, state), pos),
        reverb_return_decoded(put_reverb_return(s, pos, state), pos, old, new) ==> new == state,
{
    broadcast use group_quad_lemmas;
}

/// Available source for physical output.
#[derive(Debug, Copy, Clone, PartialEq, Eq, Structural)]
pub enum ShellPhysOutSrc {
    /// Stream input.
    Stream,
    /// Analog input 1/2.
    Analog01,
    /// Mixer output 1/2.
    MixerOut01,
    /// Send 1/2.
    MixerSend01,
}

impl Default for ShellPhysOutSrc {
    fn default() -> (r: Self)
        ensures
            r == ShellPhysOutSrc::Stream,
    {
        ShellPhysOutSrc::Stream
    }
}

impl TableEntry for ShellPhysOutSrc {
    fn same(&self, other: &Self) -> (r: bool) {
        *self == *other
    }
}

/// The order of physical output source on the wire.
pub open spec fn phys_out_srcs() -> Seq<ShellPhysOutSrc> {
    seq![
        ShellPhysOutSrc::Stream,
        ShellPhysOutSrc::Analog01,
        ShellPhysOutSrc::MixerOut01,
        ShellPhysOutSrc::MixerSend01,
    ]
}

/// The entries of `phys_out_srcs` in their order; the place of an entry is the code which stands for it.
pub proof fn lemma_phys_out_srcs_order()
    ensures
        phys_out_srcs().len() == 4,
        phys_out_srcs()[0] == ShellPhysOutSrc::Stream,
        phys_out_srcs()[1] == ShellPhysOutSrc::Analog01,
        phys_out_srcs()[2] == ShellPhysOutSrc::MixerOut01,
        phys_out_srcs()[3] == ShellPhysOutSrc::MixerSend01,
{
}

fn phys_out_src_table() -> (r: &'static [ShellPhysOutSrc])
    ensures
        r@ == phys_out_srcs(),
{
    &[
        ShellPhysOutSrc::Stream,
        ShellPhysOutSrc::Analog01,
        ShellPhysOutSrc::MixerOut01,
        ShellPhysOutSrc::MixerSend01,
    ]
}

const PHYS_OUT_SRC_LABEL: &'static str = "physical output source";

/// Every physical output source has its place on the wire.
pub proof fn lemma_shell_phys_out_src_in_table(v: ShellPhysOutSrc)
    ensures
        phys_out_srcs().contains(v),
{
    match v {
        ShellPhysOutSrc::Stream => assert(phys_out_srcs()[0] == v),
        ShellPhysOutSrc::Analog01 => assert(phys_out_srcs()[1] == v),
        ShellPhysOutSrc::MixerOut01 => assert(phys_out_srcs()[2] == v),
        ShellPhysOutSrc::MixerSend01 => assert(phys_out_srcs()[3] == v),
    }
}

/// Serialize physical output source as its position at `pos`.
pub fn serialize_phys_out_src(src: &ShellPhysOutSrc, raw: &mut [u8], pos: usize) -> (r: Result<(), String>)
    requires
        pos + 4 <= old(raw)@.len(),
    ensures
        r.is_ok(),
        final(raw)@ == put_be_quad(old(raw)@, pos as int, position_of(phys_out_srcs(), *src) as u32),
        final(raw)@.len() == old(raw)@.len(),
{
    proof {
        lemma_shell_phys_out_src_in_table(*src);
    }
    serialize_position(phys_out_src_table(), src, raw, pos, PHYS_OUT_SRC_LABEL)
}

/// Deserialize physical output source from its position at `pos`.
pub fn deserialize_phys_out_src(src: &mut ShellPhysOutSrc, raw: &[u8], pos: usize) -> (r: Result<(), String>)
    requires
        pos + 4 <= raw@.len(),
    ensures
        r.is_ok() <==> (be_quad_at(raw@, pos as int) as int) < phys_out_srcs().len(),
        r.is_ok() ==> *final(src) == phys_out_srcs()[be_quad_at(raw@, pos as int) as int],
        r.is_err() ==> *final(src) == *old(src),
{
    deserialize_position(phys_out_src_table(), src, raw, pos, PHYS_OUT_SRC_LABEL)
}

/// Format of optical input interface.
#[derive(Debug, Copy, Clone, PartialEq, Eq, Structural)]
pub enum ShellOptInputIfaceFormat {
    /// ADAT 1/2/3/4/5/6/7/8.
    Adat0to7,
    /// ADAT 1/2/3/4/5/6 and S/PDIF 1/2.
    Adat0to5Spdif01,
    /// S/PDIF 1/2 in both coaxial and optical interfaces.
    Toslink01Spdif01,
}

impl Default for ShellOptInputIfaceFormat {
    fn default() -> (r: Self)
        ensures
            r == ShellOptInputIfaceFormat::Adat0to7,
    {
        ShellOptInputIfaceFormat::Adat0to7
    }
}

impl TableEntry for ShellOptInputIfaceFormat {
    fn same(&self, other: &Self) -> (r: bool) {
        *self == *other
    }
}

/// The order of optical input format on the wire.
pub open spec fn opt_input_iface_fmts() -> Seq<ShellOptInputIfaceFormat> {
    seq![
        ShellOptInputIfaceFormat::Adat0to7,
        ShellOptInputIfaceFormat::Adat0to5Spdif01,
        ShellOptInputIfaceFormat::Toslink01Spdif01,
    ]
}

/// The entries of `opt_input_iface_fmts` in their order; the place of an entry is the code which stands for it.
pub proof fn lemma_opt_input_iface_fmts_order()
    ensures
        opt_input_iface_fmts().len() == 3,
        opt_input_iface_fmts()[0] == ShellOptInputIfaceFormat::Adat0to7,
        opt_input_iface_fmts()[1] == ShellOptInputIfaceFormat::Adat0to5Spdif01,
        opt_input_iface_fmts()[2] == ShellOptInputIfaceFormat::Toslink01Spdif01,
{
}

fn opt_input_iface_fmt_table() -> (r: &'static [ShellOptInputIfaceFormat])
    ensures
        r@ == opt_input_iface_fmts(),
{
    &[
        ShellOptInputIfaceFormat::Adat0to7,
        ShellOptInputIfaceFormat::Adat0to5Spdif01,
        ShellOptInputIfaceFormat::Toslink01Spdif01,
    ]
}

const OPT_INPUT_IFACE_FMT_LABEL: &'static str = "optical input format";

/// Every optical input format has its place on the wire.
pub proof fn lemma_shell_opt_input_iface_format_in_table(v: ShellOptInputIfaceFormat)
    ensures
        opt_input_iface_fmts().contains(v),
{
    match v {
        ShellOptInputIfaceFormat::Adat0to7 => assert(opt_input_iface_fmts()[0] == v),
        ShellOptInputIfaceFormat::Adat0to5Spdif01 => assert(opt_input_iface_fmts()[1] == v),
        ShellOptInputIfaceFormat::Toslink01Spdif01 => assert(opt_input_iface_fmts()[2] == v),
    }
}

/// Serialize optical input format as its position at `pos`.
pub fn serialize_opt_input_iface_format(fmt: &ShellOptInputIfaceFormat, raw: &mut [u8], pos: usize) -> (r: Result<(), String>)
    requires
        pos + 4 <= old(raw)@.len(),
    ensures
        r.is_ok(),
        final(raw)@ == put_be_quad(old(raw)@, pos as int, position_of(opt_input_iface_fmts(), *fmt) as u32),
        final(raw)@.len() == old(raw)@.len(),
{
    proof {
        lemma_shell_opt_input_iface_format_in_table(*fmt);
    }
    serialize_position(opt_input_iface_fmt_table(), fmt, raw, pos, OPT_INPUT_IFACE_FMT_LABEL)
}

/// Deserialize optical input format from its position at `pos`.
pub fn deserialize_opt_input_iface_format(fmt: &mut ShellOptInputIfaceFormat, raw: &[u8], pos: usize) -> (r: Result<(), String>)
    requires
        pos + 4 <= raw@.len(),
    ensures
        r.is_ok() <==> (be_quad_at(raw@, pos as int) as int) < opt_input_iface_fmts().len(),
        r.is_ok() ==> *final(fmt) == opt_input_iface_fmts()[be_quad_at(raw@, pos as int) as int],
        r.is_err() ==> *final(fmt) == *old(fmt),
{
    deserialize_position(opt_input_iface_fmt_table(), fmt, raw, pos, OPT_INPUT_IFACE_FMT_LABEL)
}

/// Format of optical output interface.
#[derive(Debug, Copy, Clone, PartialEq, Eq, Structural)]
pub enum ShellOptOutputIfaceFormat {
    Adat,
    Spdif,
}

impl Default for ShellOptOutputIfaceFormat {
    fn default() -> (r: Self)
        ensures
            r == ShellOptOutputIfaceFormat::Adat,
    {
        ShellOptOutputIfaceFormat::Adat
    }
}

impl TableEntry for ShellOptOutputIfaceFormat {
    fn same(&self, other: &Self) -> (r: bool) {
        *self == *other
    }
}

/// The order of optical output format on the wire.
pub open spec fn opt_output_iface_fmts() -> Seq<ShellOptOutputIfaceFormat> {
    seq![
        ShellOptOutputIfaceFormat::Adat,
        ShellOptOutputIfaceFormat::Spdif,
    ]
}

/// The entries of `opt_output_iface_fmts` in their order; the place of an entry is the code which stands for it.
pub proof fn lemma_opt_output_iface_fmts_order()
    ensures
        opt_output_iface_fmts().len() == 2,
        opt_output_iface_fmts()[0] == ShellOptOutputIfaceFormat::Adat,
        opt_output_iface_fmts()[1] == ShellOptOutputIfaceFormat::Spdif,
{
}

fn opt_output_iface_fmt_table() -> (r: &'static [ShellOptOutputIfaceFormat])
    ensures
        r@ == opt_output_iface_fmts(),
{
    &[
        ShellOptOutputIfaceFormat::Adat,
        ShellOptOutputIfaceFormat::Spdif,
    ]
}

const OPT_OUTPUT_IFACE_FMT_LABEL: &'static str = "optical output format";

/// Every optical output format has its place on the wire.
pub proof fn lemma_shell_opt_output_iface_format_in_table(v: ShellOptOutputIfaceFormat)
    ensures
        opt_output_iface_fmts().contains(v),
{
    match v {
        ShellOptOutputIfaceFormat::Adat => assert(opt_output_iface_fmts()[0] == v),
        ShellOptOutputIfaceFormat::Spdif => assert(opt_output_iface_fmts()[1] == v),
    }
}

/// Serialize optical output format as its position at `pos`.
pub fn serialize_opt_output_iface_format(fmt: &ShellOptOutputIfaceFormat, raw: &mut [u8], pos: usize) -> (r: Result<(), String>)
    requires
        pos + 4 <= old(raw)@.len(),
    ensures
        r.is_ok(),
        final(raw)@ == put_be_quad(old(raw)@, pos as int, position_of(opt_output_iface_fmts(), *fmt) as u32),
        final(raw)@.len() == old(raw)@.len(),
{
    proof {
        lemma_shell_opt_output_iface_format_in_table(*fmt);
    }
    serialize_position(opt_output_iface_fmt_table(), fmt, raw, pos, OPT_OUTPUT_IFACE_FMT_LABEL)
}

/// Deserialize optical output format from its position at `pos`.
pub fn deserialize_opt_output_iface_format(fmt: &mut ShellOptOutputIfaceFormat, raw: &[u8], pos: usize) -> (r: Result<(), String>)
    requires
        pos + 4 <= raw@.len(),
    ensures
        r.is_ok() <==> (be_quad_at(raw@, pos as int) as int) < opt_output_iface_fmts().len(),
        r.is_ok() ==> *final(fmt) == opt_output_iface_fmts()[be_quad_at(raw@, pos as int) as int],
        r.is_err() ==> *final(fmt) == *old(fmt),
{
    deserialize_position(opt_output_iface_fmt_table(), fmt, raw, pos, OPT_OUTPUT_IFACE_FMT_LABEL)
}

/// Source for optical output interface.
#[derive(Debug, Copy, Clone, PartialEq, Eq, Structural)]
pub struct ShellOptOutputSrc(pub ShellPhysOutSrc);

impl Default for ShellOptOutputSrc {
    fn default() -> (r: Self)
        ensures
            r == ShellOptOutputSrc(ShellPhysOutSrc::Stream),
    {
        ShellOptOutputSrc(ShellPhysOutSrc::default())
    }
}

/// Configuration for optical interface.
#[derive(Debug, Copy, Clone, PartialEq, Eq, Structural)]
pub struct ShellOptIfaceConfig {
    pub input_format: ShellOptInputIfaceFormat,
    pub output_format: ShellOptOutputIfaceFormat,
    pub output_source: ShellOptOutputSrc,
}

impl Default for ShellOptIfaceConfig {
    fn default() -> (r: Self)
        ensures
            r == (ShellOptIfaceConfig {
                input_format: ShellOptInputIfaceFormat::Adat0to7,
                output_format: ShellOptOutputIfaceFormat::Adat,
                output_source: ShellOptOutputSrc(ShellPhysOutSrc::Stream),
            }),
    {
        ShellOptIfaceConfig {
            input_format: ShellOptInputIfaceFormat::default(),
            output_format: ShellOptOutputIfaceFormat::default(),
            output_source: ShellOptOutputSrc::default(),
        }
    }
}

/// The size of serialized configuration for optical interface.
pub const SHELL_OPT_IFACE_CONFIG_SIZE: usize = 12;

/// The bytes after serializing the configuration for optical interface at `pos`.
pub open spec fn put_opt_iface_config(s: Seq<u8>, pos: int, config: ShellOptIfaceConfig) -> Seq<u8> {
    let s = put_be_quad(s, pos, position_of(opt_input_iface_fmts(), config.input_format) as u32);
    let s = put_be_quad(s, pos + 4, position_of(opt_output_iface_fmts(), config.output_format) as u32);
    put_be_quad(s, pos + 8, position_of(phys_out_srcs(), config.output_source.0) as u32)
}

/// Each part of the opt iface config stands in the quadlet at its own place from `pos`, whatever the
/// parts stored after it.
pub proof fn lemma_put_opt_iface_config_layout(s: Seq<u8>, pos: int, config: ShellOptIfaceConfig)
    requires
        0 <= pos,
        pos + 12 <= s.len(),
    ensures
        be_quad_at(put_opt_iface_config(s, pos, config), pos) == position_of(opt_input_iface_fmts(), config.input_format) as u32,
        be_quad_at(put_opt_iface_config(s, pos, config), pos + 4) == position_of(opt_output_iface_fmts(), config.output_format) as u32,
        be_quad_at(put_opt_iface_config(s, pos, config), pos + 8) == position_of(phys_out_srcs(), config.output_source.0) as u32,
{
    broadcast use group_quad_lemmas;
}

/// Serialize the configuration for optical interface at `pos`.
pub fn serialize_opt_iface_config(config: &ShellOptIfaceConfig, raw: &mut [u8], pos: usize) -> (r: Result<(), String>)
    requires
        pos + SHELL_OPT_IFACE_CONFIG_SIZE <= old(raw)@.len(),
    ensures
        r.is_ok(),
        final(raw)@ == put_opt_iface_config(old(raw)@, pos as int, *config),
        final(raw)@.len() == old(raw)@.len(),
{
    let len = raw.len();
    let _ = serialize_opt_input_iface_format(&config.input_format, raw, pos);
    let _ = serialize_opt_output_iface_format(&config.output_format, raw, pos + 4);
    let _ = serialize_phys_out_src(&config.output_source.0, raw, pos + 8);
    Ok(())
}

/// Whether the configuration for optical interface at `pos` can be deserialized.
pub open spec fn opt_iface_config_decodable(raw: Seq<u8>, pos: int) -> bool {
    (be_quad_at(raw, pos) as int) < opt_input_iface_fmts().len() && (be_quad_at(raw, pos + 4) as int) < opt_output_iface_fmts().len() && (be_quad_at(raw, pos + 8) as int) < phys_out_srcs().len()
}

/// `new` is `old` after deserializing the configuration for optical interface at `pos`.
pub open spec fn opt_iface_config_decoded(raw: Seq<u8>, pos: int, old: ShellOptIfaceConfig, new: ShellOptIfaceConfig) -> bool {
    &&& new.input_format == if (be_quad_at(raw, pos) as int) < opt_input_iface_fmts().len() { opt_input_iface_fmts()[be_quad_at(raw, pos) as int] } else { old.input_format }
    &&& new.output_format == if (be_quad_at(raw, pos) as int) < opt_input_iface_fmts().len() && (be_quad_at(raw, pos + 4) as int) < opt_output_iface_fmts().len() { opt_output_iface_fmts()[be_quad_at(raw, pos + 4) as int] } else { old.output_format }
    &&& new.output_source.0 == if (be_quad_at(raw, pos) as int) < opt_input_iface_fmts().len() && (be_quad_at(raw, pos + 4) as int) < opt_output_iface_fmts().len() && (be_quad_at(raw, pos + 8) as int) < phys_out_srcs().len() { phys_out_srcs()[be_quad_at(raw, pos + 8) as int] } else { old.output_source.0 }
}

/// Deserialize the configuration for optical interface at `pos`.
pub fn deserialize_opt_iface_config(config: &mut ShellOptIfaceConfig, raw: &[u8], pos: usize) -> (r: Result<(), String>)
    requires
        pos + SHELL_OPT_IFACE_CONFIG_SIZE <= raw@.len(),
    ensures
        r.is_ok() <==> opt_iface_config_decodable(raw@, pos as int),
        opt_iface_config_decoded(raw@, pos as int, *old(config), *final(config)),
{
    let len = raw.len();
    deserialize_opt_input_iface_format(&mut config.input_format, raw, pos)?;
    deserialize_opt_output_iface_format(&mut config.output_format, raw, pos + 4)?;
    deserialize_phys_out_src(&mut config.output_source.0, raw, pos + 8)?;
    Ok(())
}

/// Deserializing what was serialized for the configuration for optical interface gives it back.
pub proof fn lemma_opt_iface_config_roundtrip(config: ShellOptIfaceConfig, s: Seq<u8>, pos: int, old: ShellOptIfaceConfig, new: ShellOptIfaceConfig)
    requires
        0 <= pos,
        pos + SHELL_OPT_IFACE_CONFIG_SIZE <= s.len(),
    ensures
        put_opt_iface_config(s, pos, config).len() == s.len(),
        opt_iface_config_decodable(put_opt_iface_config(s, pos, config), pos),
        opt_iface_config_decoded(put_opt_iface_config(s, pos, config), pos, old, new) ==> new == config,
{
    broadcast use group_quad_lemmas;
    lemma_shell_opt_input_iface_format_in_table(config.input_format);
    lemma_position_of_contained(opt_input_iface_fmts(), config.input_format);
    lemma_shell_opt_output_iface_format_in_table(config.output_format);
    lemma_position_of_contained(opt_output_iface_fmts(), config.output_format);
    lemma_shell_phys_out_src_in_table(config.output_source.0);
    lemma_position_of_contained(phys_out_srcs(), config.output_source.0);
}

/// Source of coaxial output interface.
#[derive(Debug, Copy, Clone, PartialEq, Eq, Structural)]
pub struct ShellCoaxOutPairSrc(pub ShellPhysOutSrc);

impl Default for ShellCoaxOutPairSrc {
    fn default() -> (r: Self)
        ensures
            r == ShellCoaxOutPairSrc(ShellPhysOutSrc::Stream),
    {
        ShellCoaxOutPairSrc(ShellPhysOutSrc::default())
    }
}

/// Serialize the source of coaxial output interface at `pos`.
pub fn serialize_coax_out_pair_source(src: &ShellCoaxOutPairSrc, raw: &mut [u8], pos: usize) -> (r: Result<(), String>)
    requires
        pos + 4 <= old(raw)@.len(),
    ensures
        r.is_ok(),
        final(raw)@ == put_be_quad(old(raw)@, pos as int, position_of(phys_out_srcs(), src.0) as u32),
        final(raw)@.len() == old(raw)@.len(),
{
    serialize_phys_out_src(&src.0, raw, pos)
}

/// Deserialize the source of coaxial output interface at `pos`.
pub fn deserialize_coax_out_pair_source(src: &mut ShellCoaxOutPairSrc, raw: &[u8], pos: usize) -> (r: Result<(), String>)
    requires
        pos + 4 <= raw@.len(),
    ensures
        r.is_ok() <==> (be_quad_at(raw@, pos as int) as int) < phys_out_srcs().len(),
        r.is_ok() ==> final(src).0 == phys_out_srcs()[be_quad_at(raw@, pos as int) as int],
        r.is_err() ==> *final(src) == *old(src),
{
    deserialize_phys_out_src(&mut src.0, raw, pos)
}

/// Available source for sampling clock.
#[derive(Debug, Copy, Clone, PartialEq, Eq, Structural)]
pub enum ShellStandaloneClockSource {
    /// Signal from optical input interface.
    Optical,
    /// Signal from coaxial input interface.
    Coaxial,
    /// Internal oscillator.
    Internal,
}

impl Default for ShellStandaloneClockSource {
    fn default() -> (r: Self)
        ensures
            r == ShellStandaloneClockSource::Internal,
    {
        ShellStandaloneClockSource::Internal
    }
}

impl TableEntry for ShellStandaloneClockSource {
    fn same(&self, other: &Self) -> (r: bool) {
        *self == *other
    }
}

/// Function specification for standalone clock source.
pub trait ShellStandaloneClockSpecification {
    /// The list of available sources.
    spec fn standalone_clock_source_list() -> Seq<ShellStandaloneClockSource>;

    /// The list of available sources.
    fn standalone_clock_sources() -> (r: &'static [ShellStandaloneClockSource])
        ensures
            r@ == Self::standalone_clock_source_list(),
    ;
}

const STANDALONE_CLOCK_SOURCE_LABEL: &'static str = "Standalone clock source";

/// Serialize Standalone clock source as its position in the table of the specification at `pos`.
pub fn serialize_standalone_clock_source<T: ShellStandaloneClockSpecification>(src: &ShellStandaloneClockSource, raw: &mut [u8], pos: usize) -> (r: Result<(), String>)
    requires
        pos + 4 <= old(raw)@.len(),
    ensures
        r.is_ok() <==> T::standalone_clock_source_list().contains(*src),
        r.is_ok() ==> final(raw)@ == put_be_quad(old(raw)@, pos as int, position_of(T::standalone_clock_source_list(), *src) as u32),
        r.is_err() ==> final(raw)@ == old(raw)@,
        final(raw)@.len() == old(raw)@.len(),
{
    serialize_position(T::standalone_clock_sources(), src, raw, pos, STANDALONE_CLOCK_SOURCE_LABEL)
}

/// Deserialize Standalone clock source from its position in the table of the specification at `pos`.
pub fn deserialize_standalone_clock_source<T: ShellStandaloneClockSpecification>(src: &mut ShellStandaloneClockSource, raw: &[u8], pos: usize) -> (r: Result<(), String>)
    requires
        pos + 4 <= raw@.len(),
    ensures
        r.is_ok() <==> (be_quad_at(raw@, pos as int) as int) < T::standalone_clock_source_list().len(),
        r.is_ok() ==> *final(src) == T::standalone_clock_source_list()[be_quad_at(raw@, pos as int) as int],
        r.is_err() ==> *final(src) == *old(src),
{
    deserialize_position(T::standalone_clock_sources(), src, raw, pos, STANDALONE_CLOCK_SOURCE_LABEL)
}

/// Stereo pair of audio data channels in isochronous packet stream available as single source of
/// mixer.
#[derive(Debug, Copy, Clone, PartialEq, Eq, Structural)]
pub enum ShellMixerStreamSourcePair {
    Stream0_1,
    Stream2_3,
    Stream4_5,
    Stream6_7,
    Stream8_9,
    Stream10_11,
    Stream12_13,
}

impl Default for ShellMixerStreamSourcePair {
    fn default() -> (r: Self)
        ensures
            r == ShellMixerStreamSourcePair::Stream0_1,
    {
        ShellMixerStreamSourcePair::Stream0_1
    }
}

impl TableEntry for ShellMixerStreamSourcePair {
    fn same(&self, other: &Self) -> (r: bool) {
        *self == *other
    }
}

/// Specification for source pair of stream to mixer.
pub trait ShellMixerStreamSourcePairSpecification {
    /// The list of available pairs.
    spec fn mixer_stream_source_pair_list() -> Seq<ShellMixerStreamSourcePair>;

    /// The list of available pairs.
    fn mixer_stream_source_pairs() -> (r: &'static [ShellMixerStreamSourcePair])
        ensures
            r@ == Self::mixer_stream_source_pair_list(),
    ;
}

const MIXER_STREAM_SOURCE_PAIR_LABEL: &'static str = "Mixer stream source pair";

/// Serialize Mixer stream source pair as its position in the table of the specification at `pos`.
pub fn serialize_mixer_stream_source_pair<T: ShellMixerStreamSourcePairSpecification>(pair: &ShellMixerStreamSourcePair, raw: &mut [u8], pos: usize) -> (r: Result<(), String>)
    requires
        pos + 4 <= old(raw)@.len(),
    ensures
        r.is_ok() <==> T::mixer_stream_source_pair_list().contains(*pair),
        r.is_ok() ==> final(raw)@ == put_be_quad(old(raw)@, pos as int, position_of(T::mixer_stream_source_pair_list(), *pair) as u32),
        r.is_err() ==> final(raw)@ == old(raw)@,
        final(raw)@.len() == old(raw)@.len(),
{
    serialize_position(T::mixer_stream_source_pairs(), pair, raw, pos, MIXER_STREAM_SOURCE_PAIR_LABEL)
}

/// Deserialize Mixer stream source pair from its position in the table of the specification at `pos`.
pub fn deserialize_mixer_stream_source_pair<T: ShellMixerStreamSourcePairSpecification>(pair: &mut ShellMixerStreamSourcePair, raw: &[u8], pos: usize) -> (r: Result<(), String>)
    requires
        pos + 4 <= raw@.len(),
    ensures
        r.is_ok() <==> (be_quad_at(raw@, pos as int) as int) < T::mixer_stream_source_pair_list().len(),
        r.is_ok() ==> *final(pair) == T::mixer_stream_source_pair_list()[be_quad_at(raw@, pos as int) as int],
        r.is_err() ==> *final(pair) == *old(pair),
{
    deserialize_position(T::mixer_stream_source_pairs(), pair, raw, pos, MIXER_STREAM_SOURCE_PAIR_LABEL)
}

/// Target of 1st knob.
#[derive(Debug, Copy, Clone, PartialEq, Eq, Structural)]
pub enum ShellKnob0Target {
    /// Analog input 1.
    Analog0,
    /// Analog input 2.
    Analog1,
    /// Analog input 3 and 4.
    Analog2_3,
    /// S/PDIF input 1 and 2.
    Spdif0_1,
    /// Compression ratio of channel strip effect to analog input 1.
    ChannelStrip0,
    /// Compression ratio of channel strip effect to analog input 2.
    ChannelStrip1,
    /// Reverb ratio or decay time of reverb effect.
    Reverb,
    /// Ratio to multiplex stream inputs in mixer.
    Mixer,
    /// Configured by mixer settings.
    Configurable,
}

impl Default for ShellKnob0Target {
    fn default() -> (r: Self)
        ensures
            r == ShellKnob0Target::Analog0,
    {
        ShellKnob0Target::Analog0
    }
}

impl TableEntry for ShellKnob0Target {
    fn same(&self, other: &Self) -> (r: bool) {
        *self == *other
    }
}

/// Function specification of 1st knob.
pub trait ShellKnob0TargetSpecification {
    /// The list of targets supported for 1st knob.
    spec fn knob0_target_list() -> Seq<ShellKnob0Target>;

    /// The list of targets supported for 1st knob.
    fn knob0_targets() -> (r: &'static [ShellKnob0Target])
        ensures
            r@ == Self::knob0_target_list(),
    ;
}

const KNOB0_TARGET_LABEL: &'static str = "Knob 0 target";

/// Serialize Knob 0 target as its position in the table of the specification at `pos`.
pub fn serialize_knob0_target<T: ShellKnob0TargetSpecification>(target: &ShellKnob0Target, raw: &mut [u8], pos: usize) -> (r: Result<(), String>)
    requires
        pos + 4 <= old(raw)@.len(),
    ensures
        r.is_ok() <==> T::knob0_target_list().contains(*target),
        r.is_ok() ==> final(raw)@ == put_be_quad(old(raw)@, pos as int, position_of(T::knob0_target_list(), *target) as u32),
        r.is_err() ==> final(raw)@ == old(raw)@,
        final(raw)@.len() == old(raw)@.len(),
{
    serialize_position(T::knob0_targets(), target, raw, pos, KNOB0_TARGET_LABEL)
}

/// Deserialize Knob 0 target from its position in the table of the specification at `pos`.
pub fn deserialize_knob0_target<T: ShellKnob0TargetSpecification>(target: &mut ShellKnob0Target, raw: &[u8], pos: usize) -> (r: Result<(), String>)
    requires
        pos + 4 <= raw@.len(),
    ensures
        r.is_ok() <==> (be_quad_at(raw@, pos as int) as int) < T::knob0_target_list().len(),
        r.is_ok() ==> *final(target) == T::knob0_target_list()[be_quad_at(raw@, pos as int) as int],
        r.is_err() ==> *final(target) == *old(target),
{
    deserialize_position(T::knob0_targets(), target, raw, pos, KNOB0_TARGET_LABEL)
}

/// Target of 2nd knob.
#[derive(Debug, Copy, Clone, PartialEq, Eq, Structural)]
pub enum ShellKnob1Target {
    /// ADAT input 1/2 or S/PDIF input 1/2 in optical interface.
    Digital0_1,
    /// ADAT input 3/4.
    Digital2_3,
    /// ADAT input 5/6.
    Digital4_5,
    /// ADAT input 7/8 or S/PDIF input 1/2 in coaxial interface.
    Digital6_7,
    /// Stream input to mixer.
    Stream,
    /// Reverb ratio or decay time of reverb return 1/2.
    Reverb,
    /// Normal/Dim Level of mixer output 1/2.
    Mixer,
    /// Pitch or tone of tuner.
    TunerPitchTone,
    /// Generate MIDI event.
    MidiSend,
}

impl Default for ShellKnob1Target {
    fn default() -> (r: Self)
        ensures
            r == ShellKnob1Target::Digital0_1,
    {
        ShellKnob1Target::Digital0_1
    }
}

impl TableEntry for ShellKnob1Target {
    fn same(&self, other: &Self) -> (r: bool) {
        *self == *other
    }
}

/// Function specification of 2nd knob.
pub trait ShellKnob1TargetSpecification {
    /// The list of targets supported for 2nd knob.
    spec fn knob1_target_list() -> Seq<ShellKnob1Target>;

    /// The list of targets supported for 2nd knob.
    fn knob1_targets() -> (r: &'static [ShellKnob1Target])
        ensures
            r@ == Self::knob1_target_list(),
    ;
}

const KNOB1_TARGET_LABEL: &'static str = "Knob 1 target";

/// Serialize Knob 1 target as its position in the table of the specification at `pos`.
pub fn serialize_knob1_target<T: ShellKnob1TargetSpecification>(target: &ShellKnob1Target, raw: &mut [u8], pos: usize) -> (r: Result<(), String>)
    requires
        pos + 4 <= old(raw)@.len(),
    ensures
        r.is_ok() <==> T::knob1_target_list().contains(*target),
        r.is_ok() ==> final(raw)@ == put_be_quad(old(raw)@, pos as int, position_of(T::knob1_target_list(), *target) as u32),
        r.is_err() ==> final(raw)@ == old(raw)@,
        final(raw)@.len() == old(raw)@.len(),
{
    serialize_position(T::knob1_targets(), target, raw, pos, KNOB1_TARGET_LABEL)
}

/// Deserialize Knob 1 target from its position in the table of the specification at `pos`.
pub fn deserialize_knob1_target<T: ShellKnob1TargetSpecification>(target: &mut ShellKnob1Target, raw: &[u8], pos: usize) -> (r: Result<(), String>)
    requires
        pos + 4 <= raw@.len(),
    ensures
        r.is_ok() <==> (be_quad_at(raw@, pos as int) as int) < T::knob1_target_list().len(),
        r.is_ok() ==> *final(target) == T::knob1_target_list()[be_quad_at(raw@, pos as int) as int],
        r.is_err() ==> *final(target) == *old(target),
{
    deserialize_position(T::knob1_targets(), target, raw, pos, KNOB1_TARGET_LABEL)
}

/// The size of segment for knob settings.
pub const SHELL_KNOB_SEGMENT_SIZE: usize = 36;

/// Meter information. -1000..0 (-94.0..0 dB).
#[derive(Debug, Clone, PartialEq, Eq)]
pub struct ShellMixerMeter {
    /// Detected signal level of stream inputs.
    pub stream_inputs: Vec<i32>,
    /// Detected signal level of analog inputs.
    pub analog_inputs: Vec<i32>,
    /// Detected signal level of digital inputs.
    pub digital_inputs: Vec<i32>,
    /// Detected signal level of main outputs.
    pub main_outputs: Vec<i32>,
}

impl Default for ShellMixerMeter {
    fn default() -> (r: Self)
        ensures
            r.stream_inputs@.len() == 0,
            r.analog_inputs@.len() == 0,
            r.digital_inputs@.len() == 0,
            r.main_outputs@.len() == 0,
    {
        ShellMixerMeter {
            stream_inputs: Vec::new(),
            analog_inputs: Vec::new(),
            digital_inputs: Vec::new(),
            main_outputs: Vec::new(),
        }
    }
}

/// The size of serialized meter of mixer.
pub const SHELL_MIXER_METER_SIZE: usize = 0x5c;

/// Specification for meter function of mixer.
pub trait ShellMixerMeterSpecification {
    const ANALOG_INPUT_COUNT: usize;
    const DIGITAL_INPUT_COUNT: usize;

    const STREAM_INPUT_COUNT: usize = 2;
    const MAIN_OUTPUT_COUNT: usize = 2;
    const MAX_STREAM_INPUT_COUNT: usize = 8;
    const MAX_ANALOG_INPUT_COUNT: usize = 4;
    const MAX_DIGITAL_INPUT_COUNT: usize = 8;

    /// Instantiate meter of mixer with the number of levels for each kind.
    fn create_meter_state() -> (r: ShellMixerMeter)
        ensures
            r.stream_inputs@ == Seq::new(Self::STREAM_INPUT_COUNT as nat, |i: int| 0i32),
            r.analog_inputs@ == Seq::new(Self::ANALOG_INPUT_COUNT as nat, |i: int| 0i32),
            r.digital_inputs@ == Seq::new(Self::DIGITAL_INPUT_COUNT as nat, |i: int| 0i32),
            r.main_outputs@ == Seq::new(Self::MAIN_OUTPUT_COUNT as nat, |i: int| 0i32),
    {
        ShellMixerMeter {
            stream_inputs: zeroed_i32s(Self::STREAM_INPUT_COUNT),
            analog_inputs: zeroed_i32s(Self::ANALOG_INPUT_COUNT),
            digital_inputs: zeroed_i32s(Self::DIGITAL_INPUT_COUNT),
            main_outputs: zeroed_i32s(Self::MAIN_OUTPUT_COUNT),
        }
    }
}

/// The smallest of three numbers.
pub open spec fn min3(a: int, b: int, c: int) -> int {
    if a <= b && a <= c {
        a
    } else if b <= c {
        b
    } else {
        c
    }
}

fn min3_exec(a: usize, b: usize, c: usize) -> (r: usize)
    ensures
        r == min3(a as int, b as int, c as int),
{
    if a <= b && a <= c {
        a
    } else if b <= c {
        b
    } else {
        c
    }
}

/// The offset of levels of analog inputs in the meter segment.
pub open spec fn meter_analog_offset<T: ShellMixerMeterSpecification>() -> int {
    T::MAX_STREAM_INPUT_COUNT * 4
}

/// The offset of levels of digital inputs in the meter segment.
pub open spec fn meter_digital_offset<T: ShellMixerMeterSpecification>() -> int {
    meter_analog_offset::<T>() + T::MAX_ANALOG_INPUT_COUNT * 4
}

/// The offset of levels of main outputs in the meter segment.
pub open spec fn meter_main_offset<T: ShellMixerMeterSpecification>() -> int {
    meter_digital_offset::<T>() + T::MAX_DIGITAL_INPUT_COUNT * 4
}

/// The number of levels of analog inputs which the meter segment carries.
pub open spec fn meter_analog_count<T: ShellMixerMeterSpecification>(len: int) -> int {
    min3(len, T::ANALOG_INPUT_COUNT as int, T::MAX_ANALOG_INPUT_COUNT as int)
}

/// The number of levels of digital inputs which the meter segment carries.
pub open spec fn meter_digital_count<T: ShellMixerMeterSpecification>(len: int) -> int {
    min3(len, T::DIGITAL_INPUT_COUNT as int, T::MAX_DIGITAL_INPUT_COUNT as int)
}

/// The meter fits in the bytes.
pub open spec fn mixer_meter_fits<T: ShellMixerMeterSpecification>(state: ShellMixerMeter, len: int) -> bool {
    &&& SHELL_MIXER_METER_SIZE <= len
    &&& 4 * state.stream_inputs@.len() <= len
    &&& meter_main_offset::<T>() + 4 * state.main_outputs@.len() <= len
    &&& meter_analog_offset::<T>() + 4 * meter_analog_count::<T>(state.analog_inputs@.len() as int) <= len
    &&& meter_digital_offset::<T>() + 4 * meter_digital_count::<T>(state.digital_inputs@.len() as int) <= len
}

/// The bytes after serializing the meter.
pub open spec fn put_mixer_meter<T: ShellMixerMeterSpecification>(s: Seq<u8>, state: ShellMixerMeter) -> Seq<u8> {
    let s = put_be_i32s(s, 0, state.stream_inputs@);
    let s = put_be_i32s(s, meter_analog_offset::<T>(), state.analog_inputs@.take(meter_analog_count::<T>(state.analog_inputs@.len() as int)));
    let s = put_be_i32s(s, meter_digital_offset::<T>(), state.digital_inputs@.take(meter_digital_count::<T>(state.digital_inputs@.len() as int)));
    put_be_i32s(s, meter_main_offset::<T>(), state.main_outputs@)
}

/// Serialize the meter of mixer.
pub fn serialize_mixer_meter<T: ShellMixerMeterSpecification>(state: &ShellMixerMeter, raw: &mut [u8]) -> (r: Result<(), String>)
    requires
        mixer_meter_fits::<T>(*state, old(raw)@.len() as int),
    ensures
        r.is_ok(),
        final(raw)@ == put_mixer_meter::<T>(old(raw)@, *state),
        final(raw)@.len() == old(raw)@.len(),
{
    let len = raw.len();
    write_be_i32s(raw, 0, state.stream_inputs.as_slice(), state.stream_inputs.len());
    proof {
        assert(state.stream_inputs@.take(state.stream_inputs@.len() as int) =~= state.stream_inputs@);
        lemma_put_be_i32s_len(old(raw)@, 0, state.stream_inputs@);
    }
    let offset = T::MAX_STREAM_INPUT_COUNT * 4;
    let count = min3_exec(state.analog_inputs.len(), T::ANALOG_INPUT_COUNT, T::MAX_ANALOG_INPUT_COUNT);
    write_be_i32s(raw, offset, state.analog_inputs.as_slice(), count);
    let offset = offset + T::MAX_ANALOG_INPUT_COUNT * 4;
    let count = min3_exec(state.digital_inputs.len(), T::DIGITAL_INPUT_COUNT, T::MAX_DIGITAL_INPUT_COUNT);
    write_be_i32s(raw, offset, state.digital_inputs.as_slice(), count);
    let offset = offset + T::MAX_DIGITAL_INPUT_COUNT * 4;
    let ghost before = raw@;
    write_be_i32s(raw, offset, state.main_outputs.as_slice(), state.main_outputs.len());
    proof {
        assert(state.main_outputs@.take(state.main_outputs@.len() as int) =~= state.main_outputs@);
    }
    Ok(())
}

/// `new` is `old` after deserializing the meter from the bytes.
pub open spec fn mixer_meter_decoded<T: ShellMixerMeterSpecification>(raw: Seq<u8>, old: ShellMixerMeter, new: ShellMixerMeter) -> bool {
    let na = meter_analog_count::<T>(old.analog_inputs@.len() as int);
    let nd = meter_digital_count::<T>(old.digital_inputs@.len() as int);
    &&& new.stream_inputs@.len() == old.stream_inputs@.len()
    &&& new.analog_inputs@.len() == old.analog_inputs@.len()
    &&& new.digital_inputs@.len() == old.digital_inputs@.len()
    &&& new.main_outputs@.len() == old.main_outputs@.len()
    &&& forall|i: int| 0 <= i < old.stream_inputs@.len() ==> #[trigger] new.stream_inputs@[i] == be_i32_at(raw, 4 * i)
    &&& forall|i: int| 0 <= i < na ==> #[trigger] new.analog_inputs@[i] == be_i32_at(raw, meter_analog_offset::<T>() + 4 * i)
    &&& forall|i: int| na <= i < old.analog_inputs@.len() ==> #[trigger] new.analog_inputs@[i] == old.analog_inputs@[i]
    &&& forall|i: int| 0 <= i < nd ==> #[trigger] new.digital_inputs@[i] == be_i32_at(raw, meter_digital_offset::<T>() + 4 * i)
    &&& forall|i: int| nd <= i < old.digital_inputs@.len() ==> #[trigger] new.digital_inputs@[i] == old.digital_inputs@[i]
    &&& forall|i: int| 0 <= i < old.main_outputs@.len() ==> #[trigger] new.main_outputs@[i] == be_i32_at(raw, meter_main_offset::<T>() + 4 * i)
}

/// Deserialize the meter of mixer.
pub fn deserialize_mixer_meter<T: ShellMixerMeterSpecification>(state: &mut ShellMixerMeter, raw: &[u8]) -> (r: Result<(), String>)
    requires
        mixer_meter_fits::<T>(*old(state), raw@.len() as int),
    ensures
        r.is_ok(),
        mixer_meter_decoded::<T>(raw@, *old(state), *final(state)),
{
    let len = raw.len();
    let n = state.stream_inputs.len();
    read_be_i32s(state.stream_inputs.as_mut_slice(), raw, 0, n);
    let offset = T::MAX_STREAM_INPUT_COUNT * 4;
    let count = min3_exec(state.analog_inputs.len(), T::ANALOG_INPUT_COUNT, T::MAX_ANALOG_INPUT_COUNT);
    read_be_i32s(state.analog_inputs.as_mut_slice(), raw, offset, count);
    let offset = offset + T::MAX_ANALOG_INPUT_COUNT * 4;
    let count = min3_exec(state.digital_inputs.len(), T::DIGITAL_INPUT_COUNT, T::MAX_DIGITAL_INPUT_COUNT);
    read_be_i32s(state.digital_inputs.as_mut_slice(), raw, offset, count);
    let offset = offset + T::MAX_DIGITAL_INPUT_COUNT * 4;
    let n = state.main_outputs.len();
    read_be_i32s(state.main_outputs.as_mut_slice(), raw, offset, n);
    Ok(())
}

/// Serializing the monitor sources leaves the quadlets outside the places of the picked sources
/// as they are.
proof fn lemma_put_src_pairs_frame(
    s: Seq<u8>,
    map: Seq<Option<ShellMixerMonitorSrcType>>,
    sel: spec_fn(Option<ShellMixerMonitorSrcType>) -> bool,
    pairs: Seq<ShellMonitorSrcPair>,
    n: int,
    lo: int,
    hi: int,
)
    requires
        n <= 10,
        SHELL_MONITOR_SRC_PAIR_SIZE * 10 <= s.len(),
        0 <= lo,
        hi <= s.len(),
        forall|j: int|
            0 <= j < n && sel(#[trigger] map[j]) ==> hi <= j * SHELL_MONITOR_SRC_PAIR_SIZE || (j + 1)
                * SHELL_MONITOR_SRC_PAIR_SIZE <= lo,
    ensures
        quads_agree(put_src_pairs(s, map, sel, pairs, n), s, lo, hi),
    decreases n,
{
    if n > 0 {
        lemma_put_src_pairs_frame(s, map, sel, pairs, n - 1, lo, hi);
        lemma_put_src_pairs_len(s, map, sel, pairs, n - 1);
        let prev = put_src_pairs(s, map, sel, pairs, n - 1);
        let rank = count_srcs(map, sel, n - 1);
        if sel(map[n - 1]) && rank < pairs.len() {
            lemma_put_monitor_source_pair_frame(prev, (n - 1) * SHELL_MONITOR_SRC_PAIR_SIZE, pairs[rank as int], lo, hi);
        }
    }
}

/// The quadlets at the place of a picked source are those after storing it over the sources
/// before it.
proof fn lemma_put_src_pairs_slot(
    s: Seq<u8>,
    map: Seq<Option<ShellMixerMonitorSrcType>>,
    sel: spec_fn(Option<ShellMixerMonitorSrcType>) -> bool,
    pairs: Seq<ShellMonitorSrcPair>,
    n: int,
    m: int,
)
    requires
        n <= 10,
        SHELL_MONITOR_SRC_PAIR_SIZE * 10 <= s.len(),
        0 <= m < n,
        sel(map[m]),
        count_srcs(map, sel, m) < pairs.len(),
    ensures
        quads_agree(
            put_src_pairs(s, map, sel, pairs, n),
            put_monitor_source_pair(
                put_src_pairs(s, map, sel, pairs, m),
                m * SHELL_MONITOR_SRC_PAIR_SIZE,
                pairs[count_srcs(map, sel, m) as int],
            ),
            m * SHELL_MONITOR_SRC_PAIR_SIZE,
            (m + 1) * SHELL_MONITOR_SRC_PAIR_SIZE,
        ),
    decreases n,
{
    lemma_put_src_pairs_len(s, map, sel, pairs, n - 1);
    lemma_put_src_pairs_len(s, map, sel, pairs, m);
    if m < n - 1 {
        lemma_put_src_pairs_slot(s, map, sel, pairs, n - 1, m);
        let prev = put_src_pairs(s, map, sel, pairs, n - 1);
        let rank = count_srcs(map, sel, n - 1);
        if sel(map[n - 1]) && rank < pairs.len() {
            lemma_put_monitor_source_pair_frame(
                prev,
                (n - 1) * SHELL_MONITOR_SRC_PAIR_SIZE,
                pairs[rank as int],
                m * SHELL_MONITOR_SRC_PAIR_SIZE,
                (m + 1) * SHELL_MONITOR_SRC_PAIR_SIZE,
            );
        }
    }
}

/// Each rank below the number of picked sources is the rank of some picked source.
proof fn lemma_count_srcs_hit(
    map: Seq<Option<ShellMixerMonitorSrcType>>,
    sel: spec_fn(Option<ShellMixerMonitorSrcType>) -> bool,
    n: int,
    k: int,
)
    requires
        0 <= k < count_srcs(map, sel, n),
    ensures
        exists|j: int| 0 <= j < n && sel(#[trigger] map[j]) && count_srcs(map, sel, j) == k,
    decreases n,
{
    if n > 0 {
        if k < count_srcs(map, sel, n - 1) {
            lemma_count_srcs_hit(map, sel, n - 1, k);
            let j = choose|j: int| 0 <= j < n - 1 && sel(#[trigger] map[j]) && count_srcs(map, sel, j) == k;
            assert(0 <= j < n && sel(map[j]) && count_srcs(map, sel, j) == k);
        } else {
            assert(sel(map[n - 1]) && count_srcs(map, sel, n - 1) == k);
        }
    }
}

/// The bits of mute are read back: the base in the lowest bit, the muted ones in their bits,
/// and the bits after them clear.
proof fn lemma_mute_bits(base: u32, muted: Seq<bool>, n: int)
    requires
        0 <= n <= muted.len(),
        n <= 24,
        base <= 1,
    ensures
        mute_bits(base, muted, n) & 1u32 == base,
        forall|i: int| 0 <= i < n ==> ((mute_bits(base, muted, n) & (1u32 << ((8 + i) as u32))) > 0) == #[trigger] muted[i],
        forall|i: int| n <= i < 24 ==> #[trigger] (mute_bits(base, muted, n) & (1u32 << ((8 + i) as u32))) == 0,
    decreases n,
{
    if n == 0 {
        assert forall|i: int| 0 <= i < 24 implies #[trigger] (base & (1u32 << ((8 + i) as u32))) == 0 by {
            let k = (8 + i) as u32;
            assert(base <= 1 && 8 <= k < 32 ==> base & (1u32 << k) == 0) by (bit_vector);
        }
        assert(base <= 1 ==> base & 1u32 == base) by (bit_vector);
    } else {
        lemma_mute_bits(base, muted, n - 1);
        let x = mute_bits(base, muted, n - 1);
        let k = (8 + n - 1) as u32;
        if muted[n - 1] {
            let y = x | (1u32 << k);
            assert(y & 1u32 == x & 1u32) by (bit_vector)
                requires
                    y == x | (1u32 << k),
                    8 <= k < 32,
            ;
            assert((y & (1u32 << k)) > 0) by (bit_vector)
                requires
                    y == x | (1u32 << k),
                    8 <= k < 32,
            ;
            assert forall|i: int| 0 <= i < 24 && i != n - 1 implies #[trigger] (y & (1u32 << ((8 + i) as u32)))
                == (x & (1u32 << ((8 + i) as u32))) by {
                let j = (8 + i) as u32;
                assert(y & (1u32 << j) == x & (1u32 << j)) by (bit_vector)
                    requires
                        y == x | (1u32 << k),
                        8 <= k < 32,
                        8 <= j < 32,
                        j != k,
                ;
            }
        }
    }
}

/// With the stream inputs at the first place and nowhere else, the places read for digital inputs
/// are that first place and then the places of digital inputs.
proof fn lemma_count_digital_read_srcs(map: Seq<Option<ShellMixerMonitorSrcType>>, n: int)
    requires
        map[0] == Some(ShellMixerMonitorSrcType::Stream),
        forall|j: int| 1 <= j < 10 ==> #[trigger] map[j] != Some(ShellMixerMonitorSrcType::Stream),
        1 <= n <= 10,
    ensures
        count_srcs(map, |m| is_digital_read_src(m), n) == count_srcs(map, |m| is_digital_src(m), n) + 1,
    decreases n,
{
    let rd: spec_fn(Option<ShellMixerMonitorSrcType>) -> bool = |m| is_digital_read_src(m);
    let dig: spec_fn(Option<ShellMixerMonitorSrcType>) -> bool = |m| is_digital_src(m);
    if n > 1 {
        lemma_count_digital_read_srcs(map, n - 1);
        assert(map[n - 1] != Some(ShellMixerMonitorSrcType::Stream));
        assert(rd(map[n - 1]) == dig(map[n - 1]));
    } else {
        assert(count_srcs(map, rd, 0) == 0);
        assert(count_srcs(map, dig, 0) == 0);
        assert(rd(map[0]) && !dig(map[0]));
    }
}

/// Deserializing what was serialized for the state of mixer gives back the stream inputs, the
/// analog inputs, the mutes and the output, when the state has as many pairs of analog and of
/// digital inputs as the model picks, and the stream inputs stand at the first place and nowhere
/// else. The digital inputs are read from the first place and then from the places of digital
/// inputs: the first comes back as the stream inputs, each other as the digital input before it.
pub proof fn lemma_mixer_state_roundtrip<T: ShellMixerStateSpecification>(
    state: ShellMixerState,
    s: Seq<u8>,
    old: ShellMixerState,
    new: ShellMixerState,
)
    requires
        mixer_state_fits(state, s.len() as int),
        T::spec_monitor_src_map()[0] == Some(ShellMixerMonitorSrcType::Stream),
        forall|j: int| 1 <= j < 10 ==> #[trigger] T::spec_monitor_src_map()[j] != Some(ShellMixerMonitorSrcType::Stream),
        state.analog@.len() == count_srcs(T::spec_monitor_src_map(), |m| is_analog_src(m), 10),
        state.digital@.len() == count_srcs(T::spec_monitor_src_map(), |m| is_digital_src(m), 10),
        old.analog@.len() == state.analog@.len(),
        old.digital@.len() == state.digital@.len(),
        old.mutes.analog@.len() == state.mutes.analog@.len(),
        old.mutes.digital@.len() == state.mutes.digital@.len(),
    ensures
        put_mixer_state::<T>(s, state).len() == s.len(),
        mixer_state_decoded::<T>(put_mixer_state::<T>(s, state), old, new) ==> {
            &&& new.stream == state.stream
            &&& new.analog@ == state.analog@
            &&& new.digital@.len() == state.digital@.len()
            &&& state.digital@.len() > 0 ==> new.digital@[0] == state.stream
            &&& forall|k: int| 1 <= k < state.digital@.len() ==> #[trigger] new.digital@[k] == state.digital@[k - 1]
            &&& new.mutes.stream == state.mutes.stream
            &&& new.mutes.analog@ == state.mutes.analog@
            &&& new.mutes.digital@ == state.mutes.digital@
            &&& new.output_volume == state.output_volume
            &&& new.output_dim_enable == state.output_dim_enable
            &&& new.output_dim_volume == state.output_dim_volume
        },
{
    broadcast use group_quad_lemmas;
    let map = T::spec_monitor_src_map();
    let ana: spec_fn(Option<ShellMixerMonitorSrcType>) -> bool = |m| is_analog_src(m);
    let dig: spec_fn(Option<ShellMixerMonitorSrcType>) -> bool = |m| is_digital_src(m);
    let s0 = put_monitor_source_pair(s, 0, state.stream);
    let a = put_src_pairs(s0, map, ana, state.analog@, 10);
    let d = put_src_pairs(a, map, dig, state.digital@, 10);
    let t = put_mixer_state::<T>(s, state);
    lemma_monitor_source_pair_roundtrip(state.stream, s, 0, old.stream, new.stream);
    lemma_put_src_pairs_len(s0, map, ana, state.analog@, 10);
    lemma_put_src_pairs_len(a, map, dig, state.digital@, 10);
    assert(t == put_be_quad(
        put_be_i32(put_be_i32(put_be_bool(d, 280, state.output_dim_enable), 284, state.output_volume), 296, state.output_dim_volume),
        308,
        mixer_mute_bits(state),
    ));
    assert(quads_agree(t, d, 0, 280));
    if mixer_state_decoded::<T>(t, old, new) {
        // The stream inputs at the first place.
        lemma_put_src_pairs_frame(a, map, dig, state.digital@, 10, 0, SHELL_MONITOR_SRC_PAIR_SIZE as int);
        lemma_put_src_pairs_frame(s0, map, ana, state.analog@, 10, 0, SHELL_MONITOR_SRC_PAIR_SIZE as int);
        lemma_quads_agree_chain(t, d, a, 0, 280, 0, SHELL_MONITOR_SRC_PAIR_SIZE as int, 0, SHELL_MONITOR_SRC_PAIR_SIZE as int);
        lemma_quads_agree_chain(t, a, s0, 0, SHELL_MONITOR_SRC_PAIR_SIZE as int, 0, SHELL_MONITOR_SRC_PAIR_SIZE as int, 0, SHELL_MONITOR_SRC_PAIR_SIZE as int);
        lemma_monitor_source_pair_read(t, s, 0, state.stream, old.stream, new.stream);
        // The analog inputs.
        assert forall|k: int| 0 <= k < state.analog@.len() implies #[trigger] new.analog@[k] == state.analog@[k] by {
            lemma_count_srcs_hit(map, ana, 10, k);
            let j = choose|j: int| 0 <= j < 10 && ana(#[trigger] map[j]) && count_srcs(map, ana, j) == k;
            let lo = j * SHELL_MONITOR_SRC_PAIR_SIZE;
            let hi = (j + 1) * SHELL_MONITOR_SRC_PAIR_SIZE;
            lemma_put_src_pairs_frame(a, map, dig, state.digital@, 10, lo, hi);
            lemma_put_src_pairs_slot(s0, map, ana, state.analog@, 10, j);
            lemma_put_src_pairs_len(s0, map, ana, state.analog@, j);
            let x = put_src_pairs(s0, map, ana, state.analog@, j);
            lemma_quads_agree_chain(t, d, a, 0, 280, lo, hi, lo, hi);
            lemma_quads_agree_chain(
                t,
                a,
                put_monitor_source_pair(x, lo, state.analog@[k]),
                lo,
                hi,
                lo,
                hi,
                lo,
                hi,
            );
            lemma_monitor_source_pair_read(t, x, lo, state.analog@[k], old.analog@[k], new.analog@[k]);
        }
        // The digital inputs: the first from the first place, the others from the places of
        // digital inputs.
        let rd: spec_fn(Option<ShellMixerMonitorSrcType>) -> bool = |m| is_digital_read_src(m);
        if state.digital@.len() > 0 {
            assert(rd(map[0]));
            assert(count_srcs(map, rd, 0) == 0);
            lemma_monitor_source_pair_read(t, s, 0, state.stream, old.digital@[0], new.digital@[0]);
        }
        assert forall|k: int| 1 <= k < state.digital@.len() implies #[trigger] new.digital@[k] == state.digital@[k - 1] by {
            lemma_count_srcs_hit(map, dig, 10, k - 1);
            let j = choose|j: int| 0 <= j < 10 && dig(#[trigger] map[j]) && count_srcs(map, dig, j) == k - 1;
            assert(j >= 1);
            lemma_count_digital_read_srcs(map, j);
            assert(rd(map[j]));
            let lo = j * SHELL_MONITOR_SRC_PAIR_SIZE;
            let hi = (j + 1) * SHELL_MONITOR_SRC_PAIR_SIZE;
            lemma_put_src_pairs_slot(a, map, dig, state.digital@, 10, j);
            lemma_put_src_pairs_len(a, map, dig, state.digital@, j);
            let x = put_src_pairs(a, map, dig, state.digital@, j);
            lemma_quads_agree_chain(
                t,
                d,
                put_monitor_source_pair(x, lo, state.digital@[k - 1]),
                lo,
                hi,
                lo,
                hi,
                lo,
                hi,
            );
            lemma_monitor_source_pair_read(t, x, lo, state.digital@[k - 1], old.digital@[k], new.digital@[k]);
        }
        // The switches of mute.
        let all = state.mutes.analog@ + state.mutes.digital@;
        let base: u32 = if state.mutes.stream { 1u32 } else { 0u32 };
        lemma_mute_bits(base, all, all.len() as int);
        assert(be_quad_at(t, 308) == mixer_mute_bits(state));
        let alen = state.mutes.analog@.len() as int;
        assert forall|i: int| 0 <= i < alen implies #[trigger] new.mutes.analog@[i] == state.mutes.analog@[i] by {
            assert(all[i] == state.mutes.analog@[i]);
        }
        assert forall|i: int| 0 <= i < state.mutes.digital@.len() implies #[trigger] new.mutes.digital@[i]
            == state.mutes.digital@[i] by {
            assert(all[alen + i] == state.mutes.digital@[i]);
        }
        assert(new.mutes.analog@ =~= state.mutes.analog@);
        assert(new.mutes.digital@ =~= state.mutes.digital@);
    }
}

/// Deserializing what was serialized for the meter of mixer gives it back, when the meter has
/// no more levels of each kind than the model and the segment carry.
pub proof fn lemma_mixer_meter_roundtrip<T: ShellMixerMeterSpecification>(
    state: ShellMixerMeter,
    s: Seq<u8>,
    old: ShellMixerMeter,
    new: ShellMixerMeter,
)
    requires
        mixer_meter_fits::<T>(state, s.len() as int),
        state.stream_inputs@.len() <= T::MAX_STREAM_INPUT_COUNT,
        state.analog_inputs@.len() <= T::ANALOG_INPUT_COUNT,
        state.analog_inputs@.len() <= T::MAX_ANALOG_INPUT_COUNT,
        state.digital_inputs@.len() <= T::DIGITAL_INPUT_COUNT,
        state.digital_inputs@.len() <= T::MAX_DIGITAL_INPUT_COUNT,
        old.stream_inputs@.len() == state.stream_inputs@.len(),
        old.analog_inputs@.len() == state.analog_inputs@.len(),
        old.digital_inputs@.len() == state.digital_inputs@.len(),
        old.main_outputs@.len() == state.main_outputs@.len(),
    ensures
        put_mixer_meter::<T>(s, state).len() == s.len(),
        mixer_meter_decoded::<T>(put_mixer_meter::<T>(s, state), old, new) ==> {
            &&& new.stream_inputs@ == state.stream_inputs@
            &&& new.analog_inputs@ == state.analog_inputs@
            &&& new.digital_inputs@ == state.digital_inputs@
            &&& new.main_outputs@ == state.main_outputs@
        },
{
    let na = state.analog_inputs@.len() as int;
    let nd = state.digital_inputs@.len() as int;
    let a = meter_analog_offset::<T>();
    let d = meter_digital_offset::<T>();
    let m = meter_main_offset::<T>();
    assert(meter_analog_count::<T>(na) == na);
    assert(meter_digital_count::<T>(nd) == nd);
    assert(state.analog_inputs@.take(na) =~= state.analog_inputs@);
    assert(state.digital_inputs@.take(nd) =~= state.digital_inputs@);
    let s1 = put_be_i32s(s, 0, state.stream_inputs@);
    let s2 = put_be_i32s(s1, a, state.analog_inputs@);
    let s3 = put_be_i32s(s2, d, state.digital_inputs@);
    let t = put_be_i32s(s3, m, state.main_outputs@);
    lemma_put_be_i32s_len(s, 0, state.stream_inputs@);
    lemma_put_be_i32s_len(s1, a, state.analog_inputs@);
    lemma_put_be_i32s_len(s2, d, state.digital_inputs@);
    lemma_put_be_i32s_len(s3, m, state.main_outputs@);
    assert(t == put_mixer_meter::<T>(s, state));
    if mixer_meter_decoded::<T>(t, old, new) {
        assert forall|i: int| 0 <= i < state.stream_inputs@.len() implies #[trigger] new.stream_inputs@[i]
            == state.stream_inputs@[i] by {
            let q = 4 * i;
            lemma_put_be_i32s_read(s3, m, state.main_outputs@, q);
            lemma_put_be_i32s_read(s2, d, state.digital_inputs@, q);
            lemma_put_be_i32s_read(s1, a, state.analog_inputs@, q);
            lemma_put_be_i32s_read(s, 0, state.stream_inputs@, q);
        }
        assert forall|i: int| 0 <= i < na implies #[trigger] new.analog_inputs@[i]
            == state.analog_inputs@[i] by {
            let q = a + 4 * i;
            lemma_put_be_i32s_read(s3, m, state.main_outputs@, q);
            lemma_put_be_i32s_read(s2, d, state.digital_inputs@, q);
            lemma_put_be_i32s_read(s1, a, state.analog_inputs@, q);
        }
        assert forall|i: int| 0 <= i < nd implies #[trigger] new.digital_inputs@[i]
            == state.digital_inputs@[i] by {
            let q = d + 4 * i;
            lemma_put_be_i32s_read(s3, m, state.main_outputs@, q);
            lemma_put_be_i32s_read(s2, d, state.digital_inputs@, q);
        }
        assert forall|i: int| 0 <= i < state.main_outputs@.len() implies #[trigger] new.main_outputs@[i]
            == state.main_outputs@[i] by {
            let q = m + 4 * i;
            lemma_put_be_i32s_read(s3, m, state.main_outputs@, q);
        }
        assert(new.stream_inputs@ =~= state.stream_inputs@);
        assert(new.analog_inputs@ =~= state.analog_inputs@);
        assert(new.digital_inputs@ =~= state.digital_inputs@);
        assert(new.main_outputs@ =~= state.main_outputs@);
    }
}

/// Mute state for monitor sources.
#[derive(Debug, Clone, PartialEq, Eq)]
pub struct ShellMonitorSrcMute {
    /// For stream inputs.
    pub stream: bool,
    /// For analog inputs.
    pub analog: Vec<bool>,
    /// For digital inputs.
    pub digital: Vec<bool>,
}

/// State of mixer.
#[derive(Debug, Clone, PartialEq, Eq)]
pub struct ShellMixerState {
    /// For stream inputs.
    pub stream: ShellMonitorSrcPair,
    /// For analog inputs.
    pub analog: Vec<ShellMonitorSrcPair>,
    /// For digital inputs.
    pub digital: Vec<ShellMonitorSrcPair>,
    pub mutes: ShellMonitorSrcMute,
    /// The level of output volume.
    pub output_volume: i32,
    /// Whether to dim level of output volume
    pub output_dim_enable: bool,
    /// The level of output volume at dimmed.
    pub output_dim_volume: i32,
}

/// The number of monitor sources in the segment of mixer.
pub const SHELL_MIXER_MONITOR_SRC_COUNT: usize = 10;

/// The size of serialized state of mixer.
pub const SHELL_MIXER_STATE_SIZE: usize = 316;

/// The type of monitor source.
#[derive(Debug, Copy, Clone, PartialEq, Eq, Structural)]
pub enum ShellMixerMonitorSrcType {
    /// Stream input.
    Stream,
    /// Analog input.
    Analog,
    /// S/PDIF input.
    Spdif,
    /// ADAT input.
    Adat,
    /// ADAT input and S/PDIF input.
    AdatSpdif,
}

/// Whether the monitor source is an analog input.
pub open spec fn is_analog_src(m: Option<ShellMixerMonitorSrcType>) -> bool {
    m == Some(ShellMixerMonitorSrcType::Analog)
}

/// Whether the monitor source is a digital input, neither analog nor stream.
pub open spec fn is_digital_src(m: Option<ShellMixerMonitorSrcType>) -> bool {
    m is Some && m != Some(ShellMixerMonitorSrcType::Analog) && m != Some(
        ShellMixerMonitorSrcType::Stream,
    )
}

/// Whether the place of the monitor source is read for a digital input: any source but analog
/// inputs, the stream inputs included.
pub open spec fn is_digital_read_src(m: Option<ShellMixerMonitorSrcType>) -> bool {
    m is Some && m != Some(ShellMixerMonitorSrcType::Analog)
}

fn is_digital_read_src_exec(m: Option<ShellMixerMonitorSrcType>) -> (r: bool)
    ensures
        r == is_digital_read_src(m),
{
    match m {
        Some(ShellMixerMonitorSrcType::Analog) => false,
        Some(_) => true,
        None => false,
    }
}

fn is_analog_src_exec(m: Option<ShellMixerMonitorSrcType>) -> (r: bool)
    ensures
        r == is_analog_src(m),
{
    match m {
        Some(ShellMixerMonitorSrcType::Analog) => true,
        _ => false,
    }
}

fn is_digital_src_exec(m: Option<ShellMixerMonitorSrcType>) -> (r: bool)
    ensures
        r == is_digital_src(m),
{
    match m {
        Some(ShellMixerMonitorSrcType::Analog) => false,
        Some(ShellMixerMonitorSrcType::Stream) => false,
        Some(_) => true,
        None => false,
    }
}

/// The number of monitor sources before `n` which the selector picks.
pub open spec fn count_srcs(
    map: Seq<Option<ShellMixerMonitorSrcType>>,
    sel: spec_fn(Option<ShellMixerMonitorSrcType>) -> bool,
    n: int,
) -> nat
    decreases n,
{
    if n <= 0 {
        0
    } else if sel(map[n - 1]) {
        count_srcs(map, sel, n - 1) + 1
    } else {
        count_srcs(map, sel, n - 1)
    }
}

/// The trait for specification of mixer.
pub trait ShellMixerStateSpecification {
    /// The sources of monitor.
    spec fn spec_monitor_src_map() -> Seq<Option<ShellMixerMonitorSrcType>>;

    /// The sources of monitor.
    fn monitor_src_map() -> (r: [Option<ShellMixerMonitorSrcType>; 10])
        ensures
            r@ == Self::spec_monitor_src_map(),
    ;

    /// The number of analog input pairs.
    fn analog_input_pair_count() -> (r: usize)
        ensures
            r == count_srcs(Self::spec_monitor_src_map(), |m| is_analog_src(m), 10),
            r <= 10,
    {
        let map = Self::monitor_src_map();
        let mut count: usize = 0;
        let mut i: usize = 0;
        while i < 10
            invariant
                i <= 10,
                map@ == Self::spec_monitor_src_map(),
                count == count_srcs(map@, |m| is_analog_src(m), i as int),
                count <= i,
            decreases 10 - i,
        {
            if is_analog_src_exec(map[i]) {
                count = count + 1;
            }
            i = i + 1;
        }
        count
    }

    /// The number of digital input pairs.
    fn digital_input_pair_count() -> (r: usize)
        ensures
            r == count_srcs(Self::spec_monitor_src_map(), |m| is_digital_src(m), 10),
            r <= 10,
    {
        let map = Self::monitor_src_map();
        let mut count: usize = 0;
        let mut i: usize = 0;
        while i < 10
            invariant
                i <= 10,
                map@ == Self::spec_monitor_src_map(),
                count == count_srcs(map@, |m| is_digital_src(m), i as int),
                count <= i,
            decreases 10 - i,
        {
            if is_digital_src_exec(map[i]) {
                count = count + 1;
            }
            i = i + 1;
        }
        count
    }

    /// Instantiate state of mixer.
    fn create_mixer_state() -> (r: ShellMixerState)
        ensures
            r.stream == ShellMonitorSrcPair::spec_default(),
            r.analog@ == Seq::new(
                count_srcs(Self::spec_monitor_src_map(), |m| is_analog_src(m), 10),
                |i: int| ShellMonitorSrcPair::spec_default(),
            ),
            r.digital@ == Seq::new(
                count_srcs(Self::spec_monitor_src_map(), |m| is_digital_src(m), 10),
                |i: int| ShellMonitorSrcPair::spec_default(),
            ),
            !r.mutes.stream,
            r.mutes.analog@ == Seq::new(2 * r.analog@.len(), |i: int| false),
            r.mutes.digital@ == Seq::new(2 * r.digital@.len(), |i: int| false),
            r.output_volume == 0,
            !r.output_dim_enable,
            r.output_dim_volume == 0,
    {
        let analog_input_pair_count = Self::analog_input_pair_count();
        let digital_input_pair_count = Self::digital_input_pair_count();
        ShellMixerState {
            stream: ShellMonitorSrcPair::default(),
            analog: default_pairs(analog_input_pair_count),
            digital: default_pairs(digital_input_pair_count),
            mutes: ShellMonitorSrcMute {
                stream: false,
                analog: cleared_flags(analog_input_pair_count * 2),
                digital: cleared_flags(digital_input_pair_count * 2),
            },
            output_volume: 0,
            output_dim_enable: false,
            output_dim_volume: 0,
        }
    }
}

impl ShellMonitorSrcPair {
    /// The default monitor source.
    pub open spec fn spec_default() -> ShellMonitorSrcPair {
        ShellMonitorSrcPair {
            stereo_link: false,
            params: [
                MonitorSrcParam { gain_to_mixer: 0, pan_to_mixer: 0, gain_to_send: 0 },
                MonitorSrcParam { gain_to_mixer: 0, pan_to_mixer: 0, gain_to_send: 0 },
            ],
        }
    }
}

fn default_pairs(n: usize) -> (r: Vec<ShellMonitorSrcPair>)
    ensures
        r@ == Seq::new(n as nat, |i: int| ShellMonitorSrcPair::spec_default()),
{
    let mut r: Vec<ShellMonitorSrcPair> = Vec::new();
    let mut i: usize = 0;
    while i < n
        invariant
            i <= n,
            r@ == Seq::new(i as nat, |k: int| ShellMonitorSrcPair::spec_default()),
        decreases n - i,
    {
        r.push(ShellMonitorSrcPair::default());
        i = i + 1;
        proof {
            assert(r@ =~= Seq::new(i as nat, |k: int| ShellMonitorSrcPair::spec_default()));
        }
    }
    r
}

/// The bytes after serializing the monitor sources which the selector picks among the first `n`
/// sources, each at its place in the segment; the sources beyond the pairs are left.
pub open spec fn put_src_pairs(
    s: Seq<u8>,
    map: Seq<Option<ShellMixerMonitorSrcType>>,
    sel: spec_fn(Option<ShellMixerMonitorSrcType>) -> bool,
    pairs: Seq<ShellMonitorSrcPair>,
    n: int,
) -> Seq<u8>
    decreases n,
{
    if n <= 0 {
        s
    } else {
        let prev = put_src_pairs(s, map, sel, pairs, n - 1);
        let rank = count_srcs(map, sel, n - 1);
        if sel(map[n - 1]) && rank < pairs.len() {
            put_monitor_source_pair(prev, (n - 1) * SHELL_MONITOR_SRC_PAIR_SIZE, pairs[rank as int])
        } else {
            prev
        }
    }
}

/// The mute bits after setting the bit of each muted source from `base`.
pub open spec fn mute_bits(base: u32, muted: Seq<bool>, n: int) -> u32
    decreases n,
{
    if n <= 0 {
        base
    } else if muted[n - 1] {
        mute_bits(base, muted, n - 1) | (1u32 << ((8 + n - 1) as u32))
    } else {
        mute_bits(base, muted, n - 1)
    }
}

/// The mute bits of the state of mixer.
pub open spec fn mixer_mute_bits(state: ShellMixerState) -> u32 {
    let all = state.mutes.analog@ + state.mutes.digital@;
    mute_bits(if state.mutes.stream { 1u32 } else { 0u32 }, all, all.len() as int)
}

/// The bytes after serializing the state of mixer.
pub open spec fn put_mixer_state<T: ShellMixerStateSpecification>(s: Seq<u8>, state: ShellMixerState) -> Seq<u8> {
    let map = T::spec_monitor_src_map();
    let s = put_monitor_source_pair(s, 0, state.stream);
    let s = put_src_pairs(s, map, |m| is_analog_src(m), state.analog@, 10);
    let s = put_src_pairs(s, map, |m| is_digital_src(m), state.digital@, 10);
    let s = put_be_bool(s, 280, state.output_dim_enable);
    let s = put_be_i32(s, 284, state.output_volume);
    let s = put_be_i32(s, 296, state.output_dim_volume);
    put_be_quad(s, 308, mixer_mute_bits(state))
}

/// Serializing the monitor sources keeps the length of bytes.
pub proof fn lemma_put_src_pairs_len(
    s: Seq<u8>,
    map: Seq<Option<ShellMixerMonitorSrcType>>,
    sel: spec_fn(Option<ShellMixerMonitorSrcType>) -> bool,
    pairs: Seq<ShellMonitorSrcPair>,
    n: int,
)
    requires
        n <= 10,
        SHELL_MONITOR_SRC_PAIR_SIZE * 10 <= s.len(),
    ensures
        put_src_pairs(s, map, sel, pairs, n).len() == s.len(),
    decreases n,
{
    if n > 0 {
        lemma_put_src_pairs_len(s, map, sel, pairs, n - 1);
        let prev = put_src_pairs(s, map, sel, pairs, n - 1);
        let rank = count_srcs(map, sel, n - 1);
        if sel(map[n - 1]) && rank < pairs.len() {
            lemma_monitor_source_pair_roundtrip(
                pairs[rank as int],
                prev,
                (n - 1) * SHELL_MONITOR_SRC_PAIR_SIZE,
                pairs[rank as int],
                pairs[rank as int],
            );
        }
    }
}

fn serialize_src_pairs(
    map: &[Option<ShellMixerMonitorSrcType>; 10],
    digital: bool,
    pairs: &Vec<ShellMonitorSrcPair>,
    raw: &mut [u8],
)
    requires
        SHELL_MONITOR_SRC_PAIR_SIZE * 10 <= old(raw)@.len(),
    ensures
        final(raw)@ == put_src_pairs(
            old(raw)@,
            map@,
            if digital { |m| is_digital_src(m) } else { |m| is_analog_src(m) },
            pairs@,
            10,
        ),
        final(raw)@.len() == old(raw)@.len(),
{
    let ghost sel: spec_fn(Option<ShellMixerMonitorSrcType>) -> bool = if digital {
        |m| is_digital_src(m)
    } else {
        |m| is_analog_src(m)
    };
    let len = raw.len();
    let mut rank: usize = 0;
    let mut i: usize = 0;
    while i < 10
        invariant
            i <= 10,
            rank <= i,
            len == raw@.len(),
            len == old(raw)@.len(),
            SHELL_MONITOR_SRC_PAIR_SIZE * 10 <= raw@.len(),
            sel == (if digital { |m| is_digital_src(m) } else { |m| is_analog_src(m) }),
            rank == count_srcs(map@, sel, i as int),
            raw@ == put_src_pairs(old(raw)@, map@, sel, pairs@, i as int),
        decreases 10 - i,
    {
        let picked = if digital {
            is_digital_src_exec(map[i])
        } else {
            is_analog_src_exec(map[i])
        };
        if picked {
            if rank < pairs.len() {
                let _ = serialize_monitor_source_pair(&pairs[rank], raw, i * SHELL_MONITOR_SRC_PAIR_SIZE);
            }
            rank = rank + 1;
        }
        proof {
            lemma_put_src_pairs_len(old(raw)@, map@, sel, pairs@, i as int);
        }
        i = i + 1;
    }
    proof {
        lemma_put_src_pairs_len(old(raw)@, map@, sel, pairs@, 10);
    }
}

/// The mixer fits in the bytes and its mute bits in a quadlet.
pub open spec fn mixer_state_fits(state: ShellMixerState, len: int) -> bool {
    &&& 312 <= len
    &&& state.mutes.analog@.len() + state.mutes.digital@.len() <= 24
}

/// Serialize the state of mixer.
pub fn serialize_mixer_state<T: ShellMixerStateSpecification>(state: &ShellMixerState, raw: &mut [u8]) -> (r: Result<(), String>)
    requires
        mixer_state_fits(*state, old(raw)@.len() as int),
    ensures
        r.is_ok(),
        final(raw)@ == put_mixer_state::<T>(old(raw)@, *state),
        final(raw)@.len() == old(raw)@.len(),
{
    let len = raw.len();
    let map = T::monitor_src_map();
    let _ = serialize_monitor_source_pair(&state.stream, raw, 0);
    serialize_src_pairs(&map, false, &state.analog, raw);
    serialize_src_pairs(&map, true, &state.digital, raw);
    proof {
        let s0 = put_monitor_source_pair(old(raw)@, 0, state.stream);
        lemma_monitor_source_pair_roundtrip(state.stream, old(raw)@, 0, state.stream, state.stream);
        lemma_put_src_pairs_len(s0, map@, |m| is_analog_src(m), state.analog@, 10);
        lemma_put_src_pairs_len(
            put_src_pairs(s0, map@, |m| is_analog_src(m), state.analog@, 10),
            map@,
            |m| is_digital_src(m),
            state.digital@,
            10,
        );
    }
    write_be_bool(raw, 280, state.output_dim_enable);
    write_be_i32(raw, 284, state.output_volume);
    write_be_i32(raw, 296, state.output_dim_volume);
    let mut mutes: u32 = if state.mutes.stream {
        1
    } else {
        0
    };
    let ghost all = state.mutes.analog@ + state.mutes.digital@;
    let ghost base = mutes;
    let total = state.mutes.analog.len() + state.mutes.digital.len();
    let mut i: usize = 0;
    while i < total
        invariant
            i <= total,
            total == all.len(),
            total <= 24,
            all == state.mutes.analog@ + state.mutes.digital@,
            mutes == mute_bits(base, all, i as int),
        decreases total - i,
    {
        let muted = if i < state.mutes.analog.len() {
            state.mutes.analog[i]
        } else {
            state.mutes.digital[i - state.mutes.analog.len()]
        };
        if muted {
            mutes = mutes | (1u32 << ((8 + i) as u32));
        }
        i = i + 1;
    }
    write_be_quad(raw, 308, mutes);
    Ok(())
}

/// A monitor source picked by the selector comes after all the picked sources before it.
pub proof fn lemma_count_srcs_monotone(
    map: Seq<Option<ShellMixerMonitorSrcType>>,
    sel: spec_fn(Option<ShellMixerMonitorSrcType>) -> bool,
    j: int,
    i: int,
)
    requires
        0 <= j < i,
    ensures
        count_srcs(map, sel, j) <= count_srcs(map, sel, i),
        sel(map[j]) ==> count_srcs(map, sel, j) < count_srcs(map, sel, i),
    decreases i - j,
{
    if j + 1 < i {
        lemma_count_srcs_monotone(map, sel, j + 1, i);
    }
}

/// `new` is `old` after deserializing the monitor sources which the selector picks, each from its
/// place in the segment.
pub open spec fn src_pairs_decoded(
    raw: Seq<u8>,
    map: Seq<Option<ShellMixerMonitorSrcType>>,
    sel: spec_fn(Option<ShellMixerMonitorSrcType>) -> bool,
    old: Seq<ShellMonitorSrcPair>,
    new: Seq<ShellMonitorSrcPair>,
) -> bool {
    &&& new.len() == old.len()
    &&& forall|j: int|
        #![trigger map[j]]
        0 <= j < 10 && sel(map[j]) && count_srcs(map, sel, j) < old.len()
            ==> monitor_source_pair_decoded(
            raw,
            j * SHELL_MONITOR_SRC_PAIR_SIZE,
            old[count_srcs(map, sel, j) as int],
            new[count_srcs(map, sel, j) as int],
        )
    &&& forall|k: int| count_srcs(map, sel, 10) <= k < old.len() ==> #[trigger] new[k] == old[k]
}

fn deserialize_src_pairs(
    map: &[Option<ShellMixerMonitorSrcType>; 10],
    digital: bool,
    pairs: &mut Vec<ShellMonitorSrcPair>,
    raw: &[u8],
)
    requires
        SHELL_MONITOR_SRC_PAIR_SIZE * 10 <= raw@.len(),
    ensures
        src_pairs_decoded(
            raw@,
            map@,
            if digital { |m| is_digital_read_src(m) } else { |m| is_analog_src(m) },
            old(pairs)@,
            final(pairs)@,
        ),
{
    let ghost sel: spec_fn(Option<ShellMixerMonitorSrcType>) -> bool = if digital {
        |m| is_digital_read_src(m)
    } else {
        |m| is_analog_src(m)
    };
    let len = raw.len();
    let mut rank: usize = 0;
    let mut i: usize = 0;
    while i < 10
        invariant
            i <= 10,
            rank <= i,
            len == raw@.len(),
            SHELL_MONITOR_SRC_PAIR_SIZE * 10 <= raw@.len(),
            sel == (if digital { |m| is_digital_read_src(m) } else { |m| is_analog_src(m) }),
            rank == count_srcs(map@, sel, i as int),
            pairs@.len() == old(pairs)@.len(),
            forall|j: int|
                #![trigger map@[j]]
                0 <= j < i && sel(map@[j]) && count_srcs(map@, sel, j) < old(pairs)@.len()
                    ==> monitor_source_pair_decoded(
                    raw@,
                    j * SHELL_MONITOR_SRC_PAIR_SIZE,
                    old(pairs)@[count_srcs(map@, sel, j) as int],
                    pairs@[count_srcs(map@, sel, j) as int],
                ),
            forall|k: int| rank <= k < old(pairs)@.len() ==> #[trigger] pairs@[k] == old(pairs)@[k],
        decreases 10 - i,
    {
        let picked = if digital {
            is_digital_read_src_exec(map[i])
        } else {
            is_analog_src_exec(map[i])
        };
        if picked {
            if rank < pairs.len() {
                let mut pair = pairs[rank];
                deserialize_monitor_source_pair(&mut pair, raw, i * SHELL_MONITOR_SRC_PAIR_SIZE);
                pairs.set(rank, pair);
                proof {
                    assert forall|j: int|
                        #![trigger map@[j]]
                        0 <= j < i && sel(map@[j]) && count_srcs(map@, sel, j) < old(pairs)@.len()
                            implies count_srcs(map@, sel, j) != rank by {
                        lemma_count_srcs_monotone(map@, sel, j, i as int);
                    }
                }
            }
            rank = rank + 1;
        }
        i = i + 1;
    }
}

/// `new` is `old` after deserializing the state of mixer.
pub open spec fn mixer_state_decoded<T: ShellMixerStateSpecification>(raw: Seq<u8>, old: ShellMixerState, new: ShellMixerState) -> bool {
    let map = T::spec_monitor_src_map();
    let mutes = be_quad_at(raw, 308);
    let alen = old.mutes.analog@.len();
    &&& monitor_source_pair_decoded(raw, 0, old.stream, new.stream)
    &&& src_pairs_decoded(raw, map, |m| is_analog_src(m), old.analog@, new.analog@)
    &&& src_pairs_decoded(raw, map, |m| is_digital_read_src(m), old.digital@, new.digital@)
    &&& new.output_dim_enable == be_bool_at(raw, 280)
    &&& new.output_volume == be_i32_at(raw, 284)
    &&& new.output_dim_volume == be_i32_at(raw, 296)
    &&& new.mutes.stream == (mutes & 1u32 > 0)
    &&& new.mutes.analog@.len() == alen
    &&& new.mutes.digital@.len() == old.mutes.digital@.len()
    &&& forall|i: int| 0 <= i < alen ==> #[trigger] new.mutes.analog@[i] == (mutes & (1u32 << ((8 + i) as u32)) > 0)
    &&& forall|i: int| 0 <= i < old.mutes.digital@.len() ==> #[trigger] new.mutes.digital@[i] == (mutes & (1u32 << ((8 + alen + i) as u32)) > 0)
}

/// Deserialize the state of mixer.
pub fn deserialize_mixer_state<T: ShellMixerStateSpecification>(state: &mut ShellMixerState, raw: &[u8]) -> (r: Result<(), String>)
    requires
        mixer_state_fits(*old(state), raw@.len() as int),
    ensures
        r.is_ok(),
        mixer_state_decoded::<T>(raw@, *old(state), *final(state)),
{
    let len = raw.len();
    let map = T::monitor_src_map();
    deserialize_monitor_source_pair(&mut state.stream, raw, 0);
    deserialize_src_pairs(&map, false, &mut state.analog, raw);
    deserialize_src_pairs(&map, true, &mut state.digital, raw);
    state.output_dim_enable = read_be_bool(raw, 280);
    state.output_volume = read_be_i32(raw, 284);
    state.output_dim_volume = read_be_i32(raw, 296);
    let mutes = read_be_quad(raw, 308);
    state.mutes.stream = mutes & 1u32 > 0;
    let alen = state.mutes.analog.len();
    let dlen = state.mutes.digital.len();
    let mut analog: Vec<bool> = Vec::new();
    let mut i: usize = 0;
    while i < alen
        invariant
            i <= alen,
            alen + dlen <= 24,
            analog@.len() == i,
            forall|j: int| 0 <= j < i ==> #[trigger] analog@[j] == (mutes & (1u32 << ((8 + j) as u32)) > 0),
        decreases alen - i,
    {
        analog.push(mutes & (1u32 << ((8 + i) as u32)) > 0);
        i = i + 1;
    }
    let mut digital: Vec<bool> = Vec::new();
    let mut k: usize = 0;
    while k < dlen
        invariant
            k <= dlen,
            alen + dlen <= 24,
            digital@.len() == k,
            forall|j: int| 0 <= j < k ==> #[trigger] digital@[j] == (mutes & (1u32 << ((8 + alen + j) as u32)) > 0),
        decreases dlen - k,
    {
        digital.push(mutes & (1u32 << ((8 + alen + k) as u32)) > 0);
        k = k + 1;
    }
    state.mutes.analog = analog;
    state.mutes.digital = digital;
    Ok(())
}

} // verus!
