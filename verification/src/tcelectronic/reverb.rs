//! Data of reverb effect in protocol defined by TC Electronic for Konnekt series.
//!
//! The module includes structure, enumeration and functions for data of reverb effect in
//! protocol defined by TC Electronic for Konnekt series. It's called as `Fabrik R`.

use crate::codec::{
    be_bool_at, be_i32_at, be_quad_at, deserialize_position, group_quad_lemmas,
    lemma_position_of_contained, position_of, put_be_bool, put_be_i32, put_be_quad, read_be_bool,
    read_be_i32, read_be_quad, serialize_position, write_be_bool, write_be_i32, write_be_quad,
    TableEntry,
};
use vstd::prelude::*;

verus! {


/// Algorithm of reverb effect.
#[derive(Debug, Copy, Clone, PartialEq, Eq, Structural)]
pub enum ReverbAlgorithm {
    Live1,
    Hall,
    Plate,
    Club,
    ConcertHall,
    Cathedral,
    Church,
    Room,
    SmallRoom,
    Box,
    Ambient,
    Live2,
    Live3,
    Spring,
}

impl Default for ReverbAlgorithm {
    fn default() -> (r: Self)
        ensures
            r == ReverbAlgorithm::Live1,
    {
        ReverbAlgorithm::Live1
    }
}

impl TableEntry for ReverbAlgorithm {
    fn same(&self, other: &Self) -> (r: bool) {
        *self == *other
    }
}

/// The order of reverb algorithm on the wire.
pub open spec fn reverb_algorithms() -> Seq<ReverbAlgorithm> {
    seq![
        ReverbAlgorithm::Live1,
        ReverbAlgorithm::Hall,
        ReverbAlgorithm::Plate,
        ReverbAlgorithm::Club,
        ReverbAlgorithm::ConcertHall,
        ReverbAlgorithm::Cathedral,
        ReverbAlgorithm::Church,
        ReverbAlgorithm::Room,
        ReverbAlgorithm::SmallRoom,
        ReverbAlgorithm::Box,
        ReverbAlgorithm::Ambient,
        ReverbAlgorithm::Live2,
        ReverbAlgorithm::Live3,
        ReverbAlgorithm::Spring,
    ]
}

/// The entries of `reverb_algorithms` in their order; the place of an entry is the code which stands for it.
pub proof fn lemma_reverb_algorithms_order()
    ensures
        reverb_algorithms().len() == 14,
        reverb_algorithms()[0] == ReverbAlgorithm::Live1,
        reverb_algorithms()[1] == ReverbAlgorithm::Hall,
        reverb_algorithms()[2] == ReverbAlgorithm::Plate,
        reverb_algorithms()[3] == ReverbAlgorithm::Club,
        reverb_algorithms()[4] == ReverbAlgorithm::ConcertHall,
        reverb_algorithms()[5] == ReverbAlgorithm::Cathedral,
        reverb_algorithms()[6] == ReverbAlgorithm::Church,
        reverb_algorithms()[7] == ReverbAlgorithm::Room,
        reverb_algorithms()[8] == ReverbAlgorithm::SmallRoom,
        reverb_algorithms()[9] == ReverbAlgorithm::Box,
        reverb_algorithms()[10] == ReverbAlgorithm::Ambient,
        reverb_algorithms()[11] == ReverbAlgorithm::Live2,
        reverb_algorithms()[12] == ReverbAlgorithm::Live3,
        reverb_algorithms()[13] == ReverbAlgorithm::Spring,
{
}

fn reverb_algorithm_table() -> (r: &'static [ReverbAlgorithm])
    ensures
        r@ == reverb_algorithms(),
{
    &[
        ReverbAlgorithm::Live1,
        ReverbAlgorithm::Hall,
        ReverbAlgorithm::Plate,
        ReverbAlgorithm::Club,
        ReverbAlgorithm::ConcertHall,
        ReverbAlgorithm::Cathedral,
        ReverbAlgorithm::Church,
        ReverbAlgorithm::Room,
        ReverbAlgorithm::SmallRoom,
        ReverbAlgorithm::Box,
        ReverbAlgorithm::Ambient,
        ReverbAlgorithm::Live2,
        ReverbAlgorithm::Live3,
        ReverbAlgorithm::Spring,
    ]
}

const REVERB_ALGORITHM_LABEL: &'static str = "reverb algorithm";

/// Every reverb algorithm has its place on the wire.
pub proof fn lemma_reverb_algorithm_in_table(v: ReverbAlgorithm)
    ensures
        reverb_algorithms().contains(v),
{
    match v {
        ReverbAlgorithm::Live1 => assert(reverb_algorithms()[0] == v),
        ReverbAlgorithm::Hall => assert(reverb_algorithms()[1] == v),
        ReverbAlgorithm::Plate => assert(reverb_algorithms()[2] == v),
        ReverbAlgorithm::Club => assert(reverb_algorithms()[3] == v),
        ReverbAlgorithm::ConcertHall => assert(reverb_algorithms()[4] == v),
        ReverbAlgorithm::Cathedral => assert(reverb_algorithms()[5] == v),
        ReverbAlgorithm::Church => assert(reverb_algorithms()[6] == v),
        ReverbAlgorithm::Room => assert(reverb_algorithms()[7] == v),
        ReverbAlgorithm::SmallRoom => assert(reverb_algorithms()[8] == v),
        ReverbAlgorithm::Box => assert(reverb_algorithms()[9] == v),
        ReverbAlgorithm::Ambient => assert(reverb_algorithms()[10] == v),
        ReverbAlgorithm::Live2 => assert(reverb_algorithms()[11] == v),
        ReverbAlgorithm::Live3 => assert(reverb_algorithms()[12] == v),
        ReverbAlgorithm::Spring => assert(reverb_algorithms()[13] == v),
    }
}

/// Serialize reverb algorithm as its position at `pos`.
pub fn serialize_algorithm(algo: &ReverbAlgorithm, raw: &mut [u8], pos: usize) -> (r: Result<(), String>)
    requires
        pos + 4 <= old(raw)@.len(),
    ensures
        r.is_ok(),
        final(raw)@ == put_be_quad(old(raw)@, pos as int, position_of(reverb_algorithms(), *algo) as u32),
        final(raw)@.len() == old(raw)@.len(),
{
    proof {
        lemma_reverb_algorithm_in_table(*algo);
    }
    serialize_position(reverb_algorithm_table(), algo, raw, pos, REVERB_ALGORITHM_LABEL)
}

/// Deserialize reverb algorithm from its position at `pos`.
pub fn deserialize_algorithm(algo: &mut ReverbAlgorithm, raw: &[u8], pos: usize) -> (r: Result<(), String>)
    requires
        pos + 4 <= raw@.len(),
    ensures
        r.is_ok() <==> (be_quad_at(raw@, pos as int) as int) < reverb_algorithms().len(),
        r.is_ok() ==> *final(algo) == reverb_algorithms()[be_quad_at(raw@, pos as int) as int],
        r.is_err() ==> *final(algo) == *old(algo),
{
    deserialize_position(reverb_algorithm_table(), algo, raw, pos, REVERB_ALGORITHM_LABEL)
}

/// State of reverb effect.
#[derive(Debug, Copy, Clone, PartialEq, Eq)]
pub struct ReverbState {
    /// The level of input. -24..0 (-24.0..0.0 dB).
    pub input_level: i32,
    pub bypass: bool,
    pub kill_wet: bool,
    pub kill_dry: bool,
    /// The level of output. -24..12 (-24.0..12.0 dB).
    pub output_level: i32,
    /// The decay of time. 1..290.
    pub time_decay: i32,
    /// The pre decay of time. 1..100.
    pub time_pre_decay: i32,
    // blank
    /// The color at low frequency. -50..50.
    pub color_low: i32,
    /// The color at high frequency. -50..50.
    pub color_high: i32,
    /// The factor of color at high frequency. -25..25.
    pub color_high_factor: i32,
    /// The rate of modulation. -25..25.
    pub mod_rate: i32,
    /// The depth of modulation. -25..25.
    pub mod_depth: i32,
    /// The level of early reflection. -48..0.
    pub level_early: i32,
    /// The level of reverb. -48..0.
    pub level_reverb: i32,
    /// The level of dry. -48..0.
    pub level_dry: i32,
    /// The algorithm of reverb.
    pub algorithm: ReverbAlgorithm,
}

impl Default for ReverbState {
    fn default() -> (r: Self)
        ensures
            r == (ReverbState {
                input_level: 0,
                bypass: false,
                kill_wet: false,
                kill_dry: false,
                output_level: 0,
                time_decay: 0,
                time_pre_decay: 0,
                color_low: 0,
                color_high: 0,
                color_high_factor: 0,
                mod_rate: 0,
                mod_depth: 0,
                level_early: 0,
                level_reverb: 0,
                level_dry: 0,
                algorithm: ReverbAlgorithm::Live1,
            }),
    {
        ReverbState {
            input_level: 0,
            bypass: false,
            kill_wet: false,
            kill_dry: false,
            output_level: 0,
            time_decay: 0,
            time_pre_decay: 0,
            color_low: 0,
            color_high: 0,
            color_high_factor: 0,
            mod_rate: 0,
            mod_depth: 0,
            level_early: 0,
            level_reverb: 0,
            level_dry: 0,
            algorithm: ReverbAlgorithm::default(),
        }
    }
}

/// The size of serialized reverb state.
pub const REVERB_STATE_SIZE: usize = 68;


/// The bytes after serializing the state of reverb effect at `pos`.
pub open spec fn put_reverb_state(s: Seq<u8>, pos: int, state: ReverbState) -> Seq<u8> {
    let s = put_be_i32(s, pos, state.input_level);
    let s = put_be_bool(s, pos + 4, state.bypass);
    let s = put_be_bool(s, pos + 8, state.kill_wet);
    let s = put_be_bool(s, pos + 12, state.kill_dry);
    let s = put_be_i32(s, pos + 16, state.output_level);
    let s = put_be_i32(s, pos + 20, state.time_decay);
    let s = put_be_i32(s, pos + 24, state.time_pre_decay);
    let s = put_be_i32(s, pos + 32, state.color_low);
    let s = put_be_i32(s, pos + 36, state.color_high);
    let s = put_be_i32(s, pos + 40, state.color_high_factor);
    let s = put_be_i32(s, pos + 44, state.mod_rate);
    let s = put_be_i32(s, pos + 48, state.mod_depth);
    let s = put_be_i32(s, pos + 52, state.level_early);
    let s = put_be_i32(s, pos + 56, state.level_reverb);
    let s = put_be_i32(s, pos + 60, state.level_dry);
    put_be_quad(s, pos + 64, position_of(reverb_algorithms(), state.algorithm) as u32)
}

/// Each part of the reverb state stands in the quadlet at its own place from `pos`, whatever the
/// parts stored after it.
pub proof fn lemma_put_reverb_state_layout(s: Seq<u8>, pos: int, state: ReverbState)
    requires
        0 <= pos,
        pos + 68 <= s.len(),
    ensures
        be_i32_at(put_reverb_state(s, pos, state), pos) == state.input_level,
        be_bool_at(put_reverb_state(s, pos, state), pos + 4) == state.bypass,
        be_bool_at(put_reverb_state(s, pos, state), pos + 8) == state.kill_wet,
        be_bool_at(put_reverb_state(s, pos, state), pos + 12) == state.kill_dry,
        be_i32_at(put_reverb_state(s, pos, state), pos + 16) == state.output_level,
        be_i32_at(put_reverb_state(s, pos, state), pos + 20) == state.time_decay,
        be_i32_at(put_reverb_state(s, pos, state), pos + 24) == state.time_pre_decay,
        be_i32_at(put_reverb_state(s, pos, state), pos + 32) == state.color_low,
        be_i32_at(put_reverb_state(s, pos, state), pos + 36) == state.color_high,
        be_i32_at(put_reverb_state(s, pos, state), pos + 40) == state.color_high_factor,
        be_i32_at(put_reverb_state(s, pos, state), pos + 44) == state.mod_rate,
        be_i32_at(put_reverb_state(s, pos, state), pos + 48) == state.mod_depth,
        be_i32_at(put_reverb_state(s, pos, state), pos + 52) == state.level_early,
        be_i32_at(put_reverb_state(s, pos, state), pos + 56) == state.level_reverb,
        be_i32_at(put_reverb_state(s, pos, state), pos + 60) == state.level_dry,
        be_quad_at(put_reverb_state(s, pos, state), pos + 64) == position_of(reverb_algorithms(), state.algorithm) as u32,
{
    broadcast use group_quad_lemmas;
}

/// Serialize the state of reverb effect at `pos`.
pub fn serialize_reverb_state(state: &ReverbState, raw: &mut [u8], pos: usize) -> (r: Result<(), String>)
    requires
        pos + REVERB_STATE_SIZE <= old(raw)@.len(),
    ensures
        r.is_ok(),
        final(raw)@ == put_reverb_state(old(raw)@, pos as int, *state),
        final(raw)@.len() == old(raw)@.len(),
{
    let len = raw.len();
    write_be_i32(raw, pos, state.input_level);
    write_be_bool(raw, pos + 4, state.bypass);
    write_be_bool(raw, pos + 8, state.kill_wet);
    write_be_bool(raw, pos + 12, state.kill_dry);
    write_be_i32(raw, pos + 16, state.output_level);
    write_be_i32(raw, pos + 20, state.time_decay);
    write_be_i32(raw, pos + 24, state.time_pre_decay);
    write_be_i32(raw, pos + 32, state.color_low);
    write_be_i32(raw, pos + 36, state.color_high);
    write_be_i32(raw, pos + 40, state.color_high_factor);
    write_be_i32(raw, pos + 44, state.mod_rate);
    write_be_i32(raw, pos + 48, state.mod_depth);
    write_be_i32(raw, pos + 52, state.level_early);
    write_be_i32(raw, pos + 56, state.level_reverb);
    write_be_i32(raw, pos + 60, state.level_dry);
    let _ = serialize_algorithm(&state.algorithm, raw, pos + 64);
    Ok(())
}

/// Whether the state of reverb effect at `pos` can be deserialized.
pub open spec fn reverb_state_decodable(raw: Seq<u8>, pos: int) -> bool {
    (be_quad_at(raw, pos + 64) as int) < reverb_algorithms().len()
}

/// `new` is `old` after deserializing the state of reverb effect at `pos`.
pub open spec fn reverb_state_decoded(raw: Seq<u8>, pos: int, old: ReverbState, new: ReverbState) -> bool {
    &&& new.input_level == be_i32_at(raw, pos)
    &&& new.bypass == be_bool_at(raw, pos + 4)
    &&& new.kill_wet == be_bool_at(raw, pos + 8)
    &&& new.kill_dry == be_bool_at(raw, pos + 12)
    &&& new.output_level == be_i32_at(raw, pos + 16)
    &&& new.time_decay == be_i32_at(raw, pos + 20)
    &&& new.time_pre_decay == be_i32_at(raw, pos + 24)
    &&& new.color_low == be_i32_at(raw, pos + 32)
    &&& new.color_high == be_i32_at(raw, pos + 36)
    &&& new.color_high_factor == be_i32_at(raw, pos + 40)
    &&& new.mod_rate == be_i32_at(raw, pos + 44)
    &&& new.mod_depth == be_i32_at(raw, pos + 48)
    &&& new.level_early == be_i32_at(raw, pos + 52)
    &&& new.level_dry == be_i32_at(raw, pos + 60)
    &&& new.algorithm == if (be_quad_at(raw, pos + 64) as int) < reverb_algorithms().len() { reverb_algorithms()[be_quad_at(raw, pos + 64) as int] } else { old.algorithm }
    &&& new.level_reverb == be_i32_at(raw, pos + 56)
}

/// Deserialize the state of reverb effect at `pos`.
pub fn deserialize_reverb_state(state: &mut ReverbState, raw: &[u8], pos: usize) -> (r: Result<(), String>)
    requires
        pos + REVERB_STATE_SIZE <= raw@.len(),
    ensures
        r.is_ok() <==> reverb_state_decodable(raw@, pos as int),
        reverb_state_decoded(raw@, pos as int, *old(state), *final(state)),
{
    let len = raw.len();
    state.input_level = read_be_i32(raw, pos);
    state.bypass = read_be_bool(raw, pos + 4);
    state.kill_wet = read_be_bool(raw, pos + 8);
    state.kill_dry = read_be_bool(raw, pos + 12);
    state.output_level = read_be_i32(raw, pos + 16);
    state.time_decay = read_be_i32(raw, pos + 20);
    state.time_pre_decay = read_be_i32(raw, pos + 24);
    state.color_low = read_be_i32(raw, pos + 32);
    state.color_high = read_be_i32(raw, pos + 36);
    state.color_high_factor = read_be_i32(raw, pos + 40);
    state.mod_rate = read_be_i32(raw, pos + 44);
    state.mod_depth = read_be_i32(raw, pos + 48);
    state.level_early = read_be_i32(raw, pos + 52);
    state.level_reverb = read_be_i32(raw, pos + 56);
    state.level_dry = read_be_i32(raw, pos + 60);
    deserialize_algorithm(&mut state.algorithm, raw, pos + 64)?;
    Ok(())
}

/// Deserializing what was serialized for the state of reverb effect gives it back.
pub proof fn lemma_reverb_state_roundtrip(state: ReverbState, s: Seq<u8>, pos: int, old: ReverbState, new: ReverbState)
    requires
        0 <= pos,
        pos + REVERB_STATE_SIZE <= s.len(),
    ensures
        put_reverb_state(s, pos, state).len() == s.len(),
        reverb_state_decodable(put_reverb_state(s, pos, state), pos),
        reverb_state_decoded(put_reverb_state(s, pos, state), pos, old, new) ==> new == state,
{
    broadcast use group_quad_lemmas;
    lemma_reverb_algorithm_in_table(state.algorithm);
    lemma_position_of_contained(reverb_algorithms(), state.algorithm);
}

/// Meter of reverb effect.
#[derive(Debug, Copy, Clone, PartialEq, Eq)]
pub struct ReverbMeter {
    /// The meter of left and right outputs. -1000..500 (-24.0..12.0 dB)
    pub outputs: [i32; 2],
    /// The meter of left and right inputs. -1000..0 (-24.0..0.0 dB)
    pub inputs: [i32; 2],
}

impl Default for ReverbMeter {
    fn default() -> (r: Self)
        ensures
            r == (ReverbMeter { outputs: [0, 0], inputs: [0, 0] }),
    {
        ReverbMeter { outputs: [0, 0], inputs: [0, 0] }
    }
}

/// The size of serialized reverb meter.
pub const REVERB_METER_SIZE: usize = 24;


/// The bytes after serializing the meter of reverb effect at `pos`.
pub open spec fn put_reverb_meter(s: Seq<u8>, pos: int, meter: ReverbMeter) -> Seq<u8> {
    let s = put_be_i32(s, pos, meter.outputs[0]);
    let s = put_be_i32(s, pos + 4, meter.outputs[1]);
    let s = put_be_i32(s, pos + 8, meter.inputs[0]);
    put_be_i32(s, pos + 12, meter.inputs[1])
}

/// Each part of the reverb meter stands in the quadlet at its own place from `pos`, whatever the
/// parts stored after it.
pub proof fn lemma_put_reverb_meter_layout(s: Seq<u8>, pos: int, meter: ReverbMeter)
    requires
        0 <= pos,
        pos + 16 <= s.len(),
    ensures
        be_i32_at(put_reverb_meter(s, pos, meter), pos) == meter.outputs[0],
        be_i32_at(put_reverb_meter(s, pos, meter), pos + 4) == meter.outputs[1],
        be_i32_at(put_reverb_meter(s, pos, meter), pos + 8) == meter.inputs[0],
        be_i32_at(put_reverb_meter(s, pos, meter), pos + 12) == meter.inputs[1],
{
    broadcast use group_quad_lemmas;
}

/// Serialize the meter of reverb effect at `pos`.
pub fn serialize_reverb_meter(meter: &ReverbMeter, raw: &mut [u8], pos: usize) -> (r: Result<(), String>)
    requires
        pos + REVERB_METER_SIZE <= old(raw)@.len(),
    ensures
        r.is_ok(),
        final(raw)@ == put_reverb_meter(old(raw)@, pos as int, *meter),
        final(raw)@.len() == old(raw)@.len(),
{
    let len = raw.len();
    write_be_i32(raw, pos, meter.outputs[0]);
    write_be_i32(raw, pos + 4, meter.outputs[1]);
    write_be_i32(raw, pos + 8, meter.inputs[0]);
    write_be_i32(raw, pos + 12, meter.inputs[1]);
    Ok(())
}

/// Whether the meter of reverb effect at `pos` can be deserialized.
pub open spec fn reverb_meter_decodable(raw: Seq<u8>, pos: int) -> bool {
    true
}

/// `new` is `old` after deserializing the meter of reverb effect at `pos`.
pub open spec fn reverb_meter_decoded(raw: Seq<u8>, pos: int, old: ReverbMeter, new: ReverbMeter) -> bool {
    &&& new.outputs[0] == be_i32_at(raw, pos)
    &&& new.outputs[1] == be_i32_at(raw, pos + 4)
    &&& new.inputs[0] == be_i32_at(raw, pos + 8)
    &&& new.inputs[1] == be_i32_at(raw, pos + 12)
}

/// Deserialize the meter of reverb effect at `pos`.
pub fn deserialize_reverb_meter(meter: &mut ReverbMeter, raw: &[u8], pos: usize) -> (r: Result<(), String>)
    requires
        pos + REVERB_METER_SIZE <= raw@.len(),
    ensures
        r.is_ok() <==> reverb_meter_decodable(raw@, pos as int),
        reverb_meter_decoded(raw@, pos as int, *old(meter), *final(meter)),
{
    let len = raw.len();
    meter.outputs[0] = read_be_i32(raw, pos);
    meter.outputs[1] = read_be_i32(raw, pos + 4);
    meter.inputs[0] = read_be_i32(raw, pos + 8);
    meter.inputs[1] = read_be_i32(raw, pos + 12);
    Ok(())
}

/// Deserializing what was serialized for the meter of reverb effect gives it back.
pub proof fn lemma_reverb_meter_roundtrip(meter: ReverbMeter, s: Seq<u8>, pos: int, old: ReverbMeter, new: ReverbMeter)
    requires
        0 <= pos,
        pos + REVERB_METER_SIZE <= s.len(),
    ensures
        put_reverb_meter(s, pos, meter).len() == s.len(),
        reverb_meter_decodable(put_reverb_meter(s, pos, meter), pos),
        reverb_meter_decoded(put_reverb_meter(s, pos, meter), pos, old, new) ==> new == meter,
{
    broadcast use group_quad_lemmas;
    if reverb_meter_decoded(put_reverb_meter(s, pos, meter), pos, old, new) {
        assert(new.outputs =~= meter.outputs);
        assert(new.inputs =~= meter.inputs);
    }
}

} // verus!
