//! Protocols defined by TC Electronic for Konnekt series and Impact Twin.
//!
//! The module includes enumerations and functions shared by the protocols of TC Electronic for
//! Konnekt series and Impact Twin.

pub mod ch_strip;
pub mod desktop;
pub mod reverb;
pub mod shell;
pub mod studio;


use crate::codec::{
    be_bool_at, be_i32_at, be_quad_at, deserialize_position, group_quad_lemmas,
    lemma_position_of_contained, position_of, put_be_bool, put_be_i32, put_be_quad, read_be_bool,
    read_be_i32, read_be_quad, serialize_position, write_be_bool, write_be_i32, write_be_quad,
    TableEntry,
};
use vstd::prelude::*;

verus! {

/// State of FireWire LED.
#[derive(Debug, Copy, Clone, PartialEq, Eq, Structural)]
pub enum FireWireLedState {
    /// Off.
    Off,
    /// On.
    On,
    /// Blinking slowly.
    BlinkSlow,
    /// Blinking fastly.
    BlinkFast,
}

impl Default for FireWireLedState {
    fn default() -> (r: Self)
        ensures
            r == FireWireLedState::Off,
    {
        FireWireLedState::Off
    }
}

impl TableEntry for FireWireLedState {
    fn same(&self, other: &Self) -> (r: bool) {
        *self == *other
    }
}

/// The order of FireWire LED state on the wire.
pub open spec fn fw_led_states() -> Seq<FireWireLedState> {
    seq![
        FireWireLedState::Off,
        FireWireLedState::On,
        FireWireLedState::BlinkSlow,
        FireWireLedState::BlinkFast,
    ]
}

/// The entries of `fw_led_states` in their order; the place of an entry is the code which stands for it.
pub proof fn lemma_fw_led_states_order()
    ensures
        fw_led_states().len() == 4,
        fw_led_states()[0] == FireWireLedState::Off,
        fw_led_states()[1] == FireWireLedState::On,
        fw_led_states()[2] == FireWireLedState::BlinkSlow,
        fw_led_states()[3] == FireWireLedState::BlinkFast,
{
}

fn fw_led_state_table() -> (r: &'static [FireWireLedState])
    ensures
        r@ == fw_led_states(),
{
    &[
        FireWireLedState::Off,
        FireWireLedState::On,
        FireWireLedState::BlinkSlow,
        FireWireLedState::BlinkFast,
    ]
}

const FW_LED_STATE_LABEL: &'static str = "FireWire LED state";

/// Every FireWire LED state has its place on the wire.
pub proof fn lemma_fire_wire_led_state_in_table(v: FireWireLedState)
    ensures
        fw_led_states().contains(v),
{
    match v {
        FireWireLedState::Off => assert(fw_led_states()[0] == v),
        FireWireLedState::On => assert(fw_led_states()[1] == v),
        FireWireLedState::BlinkSlow => assert(fw_led_states()[2] == v),
        FireWireLedState::BlinkFast => assert(fw_led_states()[3] == v),
    }
}

/// Serialize FireWire LED state as its position at `pos`.
pub fn serialize_fw_led_state(state: &FireWireLedState, raw: &mut [u8], pos: usize) -> (r: Result<(), String>)
    requires
        pos + 4 <= old(raw)@.len(),
    ensures
        r.is_ok(),
        final(raw)@ == put_be_quad(old(raw)@, pos as int, position_of(fw_led_states(), *state) as u32),
        final(raw)@.len() == old(raw)@.len(),
{
    proof {
        lemma_fire_wire_led_state_in_table(*state);
    }
    serialize_position(fw_led_state_table(), state, raw, pos, FW_LED_STATE_LABEL)
}

/// Deserialize FireWire LED state from its position at `pos`.
pub fn deserialize_fw_led_state(state: &mut FireWireLedState, raw: &[u8], pos: usize) -> (r: Result<(), String>)
    requires
        pos + 4 <= raw@.len(),
    ensures
        r.is_ok() <==> (be_quad_at(raw@, pos as int) as int) < fw_led_states().len(),
        r.is_ok() ==> *final(state) == fw_led_states()[be_quad_at(raw@, pos as int) as int],
        r.is_err() ==> *final(state) == *old(state),
{
    deserialize_position(fw_led_state_table(), state, raw, pos, FW_LED_STATE_LABEL)
}

/// Nominal frequency of media clock at standalone mode.
#[derive(Debug, Copy, Clone, PartialEq, Eq, Structural)]
pub enum TcKonnektStandaloneClockRate {
    /// At 44.1 kHz.
    R44100,
    /// At 48.0 kHz.
    R48000,
    /// At 88.2 kHz.
    R88200,
    /// At 96.0 kHz.
    R96000,
}

impl Default for TcKonnektStandaloneClockRate {
    fn default() -> (r: Self)
        ensures
            r == TcKonnektStandaloneClockRate::R44100,
    {
        TcKonnektStandaloneClockRate::R44100
    }
}

impl TableEntry for TcKonnektStandaloneClockRate {
    fn same(&self, other: &Self) -> (r: bool) {
        *self == *other
    }
}

/// The order of standalone clock rate on the wire.
pub open spec fn standalone_clock_rates() -> Seq<TcKonnektStandaloneClockRate> {
    seq![
        TcKonnektStandaloneClockRate::R44100,
        TcKonnektStandaloneClockRate::R48000,
        TcKonnektStandaloneClockRate::R88200,
        TcKonnektStandaloneClockRate::R96000,
    ]
}

/// The entries of `standalone_clock_rates` in their order; the place of an entry is the code which stands for it.
pub proof fn lemma_standalone_clock_rates_order()
    ensures
        standalone_clock_rates().len() == 4,
        standalone_clock_rates()[0] == TcKonnektStandaloneClockRate::R44100,
        standalone_clock_rates()[1] == TcKonnektStandaloneClockRate::R48000,
        standalone_clock_rates()[2] == TcKonnektStandaloneClockRate::R88200,
        standalone_clock_rates()[3] == TcKonnektStandaloneClockRate::R96000,
{
}

fn standalone_clock_rate_table() -> (r: &'static [TcKonnektStandaloneClockRate])
    ensures
        r@ == standalone_clock_rates(),
{
    &[
        TcKonnektStandaloneClockRate::R44100,
        TcKonnektStandaloneClockRate::R48000,
        TcKonnektStandaloneClockRate::R88200,
        TcKonnektStandaloneClockRate::R96000,
    ]
}

const STANDALONE_CLOCK_RATE_LABEL: &'static str = "standalone clock rate";

/// Every standalone clock rate has its place on the wire.
pub proof fn lemma_tc_konnekt_standalone_clock_rate_in_table(v: TcKonnektStandaloneClockRate)
    ensures
        standalone_clock_rates().contains(v),
{
    match v {
        TcKonnektStandaloneClockRate::R44100 => assert(standalone_clock_rates()[0] == v),
        TcKonnektStandaloneClockRate::R48000 => assert(standalone_clock_rates()[1] == v),
        TcKonnektStandaloneClockRate::R88200 => assert(standalone_clock_rates()[2] == v),
        TcKonnektStandaloneClockRate::R96000 => assert(standalone_clock_rates()[3] == v),
    }
}

/// Serialize standalone clock rate as its position at `pos`.
pub fn serialize_standalone_clock_rate(rate: &TcKonnektStandaloneClockRate, raw: &mut [u8], pos: usize) -> (r: Result<(), String>)
    requires
        pos + 4 <= old(raw)@.len(),
    ensures
        r.is_ok(),
        final(raw)@ == put_be_quad(old(raw)@, pos as int, position_of(standalone_clock_rates(), *rate) as u32),
        final(raw)@.len() == old(raw)@.len(),
{
    proof {
        lemma_tc_konnekt_standalone_clock_rate_in_table(*rate);
    }
    serialize_position(standalone_clock_rate_table(), rate, raw, pos, STANDALONE_CLOCK_RATE_LABEL)
}

/// Deserialize standalone clock rate from its position at `pos`.
pub fn deserialize_standalone_clock_rate(rate: &mut TcKonnektStandaloneClockRate, raw: &[u8], pos: usize) -> (r: Result<(), String>)
    requires
        pos + 4 <= raw@.len(),
    ensures
        r.is_ok() <==> (be_quad_at(raw@, pos as int) as int) < standalone_clock_rates().len(),
        r.is_ok() ==> *final(rate) == standalone_clock_rates()[be_quad_at(raw@, pos as int) as int],
        r.is_err() ==> *final(rate) == *old(rate),
{
    deserialize_position(standalone_clock_rate_table(), rate, raw, pos, STANDALONE_CLOCK_RATE_LABEL)
}

/// Program loaded in the unit.
#[derive(Debug, Copy, Clone, PartialEq, Eq, Structural)]
pub enum TcKonnektLoadedProgram {
    P0,
    P1,
    P2,
}

impl Default for TcKonnektLoadedProgram {
    fn default() -> (r: Self)
        ensures
            r == TcKonnektLoadedProgram::P0,
    {
        TcKonnektLoadedProgram::P0
    }
}

impl TableEntry for TcKonnektLoadedProgram {
    fn same(&self, other: &Self) -> (r: bool) {
        *self == *other
    }
}

/// The order of loaded program on the wire.
pub open spec fn loaded_programs() -> Seq<TcKonnektLoadedProgram> {
    seq![
        TcKonnektLoadedProgram::P0,
        TcKonnektLoadedProgram::P1,
        TcKonnektLoadedProgram::P2,
    ]
}

/// The entries of `loaded_programs` in their order; the place of an entry is the code which stands for it.
pub proof fn lemma_loaded_programs_order()
    ensures
        loaded_programs().len() == 3,
        loaded_programs()[0] == TcKonnektLoadedProgram::P0,
        loaded_programs()[1] == TcKonnektLoadedProgram::P1,
        loaded_programs()[2] == TcKonnektLoadedProgram::P2,
{
}

fn loaded_program_table() -> (r: &'static [TcKonnektLoadedProgram])
    ensures
        r@ == loaded_programs(),
{
    &[
        TcKonnektLoadedProgram::P0,
        TcKonnektLoadedProgram::P1,
        TcKonnektLoadedProgram::P2,
    ]
}

const LOADED_PROGRAM_LABEL: &'static str = "loaded program";

/// Every loaded program has its place on the wire.
pub proof fn lemma_tc_konnekt_loaded_program_in_table(v: TcKonnektLoadedProgram)
    ensures
        loaded_programs().contains(v),
{
    match v {
        TcKonnektLoadedProgram::P0 => assert(loaded_programs()[0] == v),
        TcKonnektLoadedProgram::P1 => assert(loaded_programs()[1] == v),
        TcKonnektLoadedProgram::P2 => assert(loaded_programs()[2] == v),
    }
}

/// Serialize loaded program as its position at `pos`.
pub fn serialize_loaded_program(prog: &TcKonnektLoadedProgram, raw: &mut [u8], pos: usize) -> (r: Result<(), String>)
    requires
        pos + 4 <= old(raw)@.len(),
    ensures
        r.is_ok(),
        final(raw)@ == put_be_quad(old(raw)@, pos as int, position_of(loaded_programs(), *prog) as u32),
        final(raw)@.len() == old(raw)@.len(),
{
    proof {
        lemma_tc_konnekt_loaded_program_in_table(*prog);
    }
    serialize_position(loaded_program_table(), prog, raw, pos, LOADED_PROGRAM_LABEL)
}

/// Deserialize loaded program from its position at `pos`.
pub fn deserialize_loaded_program(prog: &mut TcKonnektLoadedProgram, raw: &[u8], pos: usize) -> (r: Result<(), String>)
    requires
        pos + 4 <= raw@.len(),
    ensures
        r.is_ok() <==> (be_quad_at(raw@, pos as int) as int) < loaded_programs().len(),
        r.is_ok() ==> *final(prog) == loaded_programs()[be_quad_at(raw@, pos as int) as int],
        r.is_err() ==> *final(prog) == *old(prog),
{
    deserialize_position(loaded_program_table(), prog, raw, pos, LOADED_PROGRAM_LABEL)
}

/// Serialization and deserialization of a segment in the protocol of TC Electronic for Konnekt
/// series.
pub trait TcKonnektSegmentSerdes<T> {
    /// The name of segment.
    const NAME: &'static str;
    /// The offset of segment.
    const OFFSET: usize;
    /// The size of segment.
    const SIZE: usize;

    /// Whether the parameters fit in the segment.
    spec fn segment_fits(params: T) -> bool;

    /// Serialize parameters into the raw data of segment.
    fn serialize(params: &T, raw: &mut [u8]) -> Result<(), String>
        requires
            old(raw)@.len() >= Self::SIZE,
            Self::segment_fits(*params),
    ;

    /// Deserialize parameters from the raw data of segment.
    fn deserialize(params: &mut T, raw: &[u8]) -> Result<(), String>
        requires
            raw@.len() >= Self::SIZE,
            Self::segment_fits(*old(params)),
    ;
}

} // verus!
