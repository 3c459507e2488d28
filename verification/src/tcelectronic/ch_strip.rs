//! Data of channel strip effect in protocol defined by TC Electronic for Konnekt series.
//!
//! The module includes structure, enumeration and functions for data of channel strip effect in
//! protocol defined by TC Electronic for Konnekt series. It's called as `Fabrik C`.

use crate::codec::{
    be_bool_at, be_i32_at, be_quad_at, deserialize_position, group_quad_lemmas, quads_agree,
    lemma_position_of_contained, position_of, put_be_bool, put_be_i32, put_be_quad, read_be_bool,
    read_be_i32, read_be_quad, serialize_position, write_be_bool, write_be_i32, write_be_quad,
    TableEntry,
};
use vstd::prelude::*;

verus! {

/// Type of source.
#[derive(Debug, Copy, Clone, PartialEq, Eq, Structural)]
pub enum ChStripSrcType {
    FemaleVocal,
    MaleVocal,
    Guitar,
    Piano,
    Speak,
    Choir,
    Horns,
    Bass,
    Kick,
    Snare,
    MixRock,
    MixSoft,
    Percussion,
    Kit,
    MixAcoustic,
    MixPurist,
    House,
    Trance,
    Chill,
    HipHop,
    DrumAndBass,
    ElectroTechno,
}

impl Default for ChStripSrcType {
    fn default() -> (r: Self)
        ensures
            r == ChStripSrcType::FemaleVocal,
    {
        ChStripSrcType::FemaleVocal
    }
}

impl TableEntry for ChStripSrcType {
    fn same(&self, other: &Self) -> (r: bool) {
        *self == *other
    }
}

/// The order of channel strip source type on the wire.
pub open spec fn ch_strip_src_types() -> Seq<ChStripSrcType> {
    seq![
        ChStripSrcType::FemaleVocal,
        ChStripSrcType::MaleVocal,
        ChStripSrcType::Guitar,
        ChStripSrcType::Piano,
        ChStripSrcType::Speak,
        ChStripSrcType::Choir,
        ChStripSrcType::Horns,
        ChStripSrcType::Bass,
        ChStripSrcType::Kick,
        ChStripSrcType::Snare,
        ChStripSrcType::MixRock,
        ChStripSrcType::MixSoft,
        ChStripSrcType::Percussion,
        ChStripSrcType::Kit,
        ChStripSrcType::MixAcoustic,
        ChStripSrcType::MixPurist,
        ChStripSrcType::House,
        ChStripSrcType::Trance,
        ChStripSrcType::Chill,
        ChStripSrcType::HipHop,
        ChStripSrcType::DrumAndBass,
        ChStripSrcType::ElectroTechno,
    ]
}

/// The entries of `ch_strip_src_types` in their order; the place of an entry is the code which stands for it.
pub proof fn lemma_ch_strip_src_types_order()
    ensures
        ch_strip_src_types().len() == 22,
        ch_strip_src_types()[0] == ChStripSrcType::FemaleVocal,
        ch_strip_src_types()[1] == ChStripSrcType::MaleVocal,
        ch_strip_src_types()[2] == ChStripSrcType::Guitar,
        ch_strip_src_types()[3] == ChStripSrcType::Piano,
        ch_strip_src_types()[4] == ChStripSrcType::Speak,
        ch_strip_src_types()[5] == ChStripSrcType::Choir,
        ch_strip_src_types()[6] == ChStripSrcType::Horns,
        ch_strip_src_types()[7] == ChStripSrcType::Bass,
        ch_strip_src_types()[8] == ChStripSrcType::Kick,
        ch_strip_src_types()[9] == ChStripSrcType::Snare,
        ch_strip_src_types()[10] == ChStripSrcType::MixRock,
        ch_strip_src_types()[11] == ChStripSrcType::MixSoft,
        ch_strip_src_types()[12] == ChStripSrcType::Percussion,
        ch_strip_src_types()[13] == ChStripSrcType::Kit,
        ch_strip_src_types()[14] == ChStripSrcType::MixAcoustic,
        ch_strip_src_types()[15] == ChStripSrcType::MixPurist,
        ch_strip_src_types()[16] == ChStripSrcType::House,
        ch_strip_src_types()[17] == ChStripSrcType::Trance,
        ch_strip_src_types()[18] == ChStripSrcType::Chill,
        ch_strip_src_types()[19] == ChStripSrcType::HipHop,
        ch_strip_src_types()[20] == ChStripSrcType::DrumAndBass,
        ch_strip_src_types()[21] == ChStripSrcType::ElectroTechno,
{
}

fn ch_strip_src_type_table() -> (r: &'static [ChStripSrcType])
    ensures
        r@ == ch_strip_src_types(),
{
    &[
        ChStripSrcType::FemaleVocal,
        ChStripSrcType::MaleVocal,
        ChStripSrcType::Guitar,
        ChStripSrcType::Piano,
        ChStripSrcType::Speak,
        ChStripSrcType::Choir,
        ChStripSrcType::Horns,
        ChStripSrcType::Bass,
        ChStripSrcType::Kick,
        ChStripSrcType::Snare,
        ChStripSrcType::MixRock,
        ChStripSrcType::MixSoft,
        ChStripSrcType::Percussion,
        ChStripSrcType::Kit,
        ChStripSrcType::MixAcoustic,
        ChStripSrcType::MixPurist,
        ChStripSrcType::House,
        ChStripSrcType::Trance,
        ChStripSrcType::Chill,
        ChStripSrcType::HipHop,
        ChStripSrcType::DrumAndBass,
        ChStripSrcType::ElectroTechno,
    ]
}

const CH_STRIP_SRC_TYPE_LABEL: &'static str = "channel strip source type";

/// Every channel strip source type has its place on the wire.
pub proof fn lemma_ch_strip_src_type_in_table(v: ChStripSrcType)
    ensures
        ch_strip_src_types().contains(v),
{
    match v {
        ChStripSrcType::FemaleVocal => assert(ch_strip_src_types()[0] == v),
        ChStripSrcType::MaleVocal => assert(ch_strip_src_types()[1] == v),
        ChStripSrcType::Guitar => assert(ch_strip_src_types()[2] == v),
        ChStripSrcType::Piano => assert(ch_strip_src_types()[3] == v),
        ChStripSrcType::Speak => assert(ch_strip_src_types()[4] == v),
        ChStripSrcType::Choir => assert(ch_strip_src_types()[5] == v),
        ChStripSrcType::Horns => assert(ch_strip_src_types()[6] == v),
        ChStripSrcType::Bass => assert(ch_strip_src_types()[7] == v),
        ChStripSrcType::Kick => assert(ch_strip_src_types()[8] == v),
        ChStripSrcType::Snare => assert(ch_strip_src_types()[9] == v),
        ChStripSrcType::MixRock => assert(ch_strip_src_types()[10] == v),
        ChStripSrcType::MixSoft => assert(ch_strip_src_types()[11] == v),
        ChStripSrcType::Percussion => assert(ch_strip_src_types()[12] == v),
        ChStripSrcType::Kit => assert(ch_strip_src_types()[13] == v),
        ChStripSrcType::MixAcoustic => assert(ch_strip_src_types()[14] == v),
        ChStripSrcType::MixPurist => assert(ch_strip_src_types()[15] == v),
        ChStripSrcType::House => assert(ch_strip_src_types()[16] == v),
        ChStripSrcType::Trance => assert(ch_strip_src_types()[17] == v),
        ChStripSrcType::Chill => assert(ch_strip_src_types()[18] == v),
        ChStripSrcType::HipHop => assert(ch_strip_src_types()[19] == v),
        ChStripSrcType::DrumAndBass => assert(ch_strip_src_types()[20] == v),
        ChStripSrcType::ElectroTechno => assert(ch_strip_src_types()[21] == v),
    }
}

/// Serialize channel strip source type as its position at `pos`.
pub fn serialize_src_type(src_type: &ChStripSrcType, raw: &mut [u8], pos: usize) -> (r: Result<(), String>)
    requires
        pos + 4 <= old(raw)@.len(),
    ensures
        r.is_ok(),
        final(raw)@ == put_be_quad(old(raw)@, pos as int, position_of(ch_strip_src_types(), *src_type) as u32),
        final(raw)@.len() == old(raw)@.len(),
{
    proof {
        lemma_ch_strip_src_type_in_table(*src_type);
    }
    serialize_position(ch_strip_src_type_table(), src_type, raw, pos, CH_STRIP_SRC_TYPE_LABEL)
}

/// Deserialize channel strip source type from its position at `pos`.
pub fn deserialize_src_type(src_type: &mut ChStripSrcType, raw: &[u8], pos: usize) -> (r: Result<(), String>)
    requires
        pos + 4 <= raw@.len(),
    ensures
        r.is_ok() <==> (be_quad_at(raw@, pos as int) as int) < ch_strip_src_types().len(),
        r.is_ok() ==> *final(src_type) == ch_strip_src_types()[be_quad_at(raw@, pos as int) as int],
        r.is_err() ==> *final(src_type) == *old(src_type),
{
    deserialize_position(ch_strip_src_type_table(), src_type, raw, pos, CH_STRIP_SRC_TYPE_LABEL)
}

/// State of compressor part.
#[derive(Debug, Copy, Clone, PartialEq, Eq)]
pub struct CompState {
    /// The gain of input. 0..360 (-18.0..18.0 dB).
    pub input_gain: u32,
    /// The gain of output. 0..360 (-18.0..18.0 dB).
    pub make_up_gain: u32,
    /// Whether three bands are available or not.
    pub full_band_enabled: bool,
    /// The amount to control for low/mid/high frequencies. 0..200 (-100.0..+100.0 %)
    pub ctl: [u32; 3],
    /// The level of low/mid/high frequencies. 0..48 (-18.0..+6.0 dB)
    pub level: [u32; 3],
}

impl Default for CompState {
    fn default() -> (r: Self)
        ensures
            r == (CompState {
                input_gain: 0,
                make_up_gain: 0,
                full_band_enabled: false,
                ctl: [0, 0, 0],
                level: [0, 0, 0],
            }),
    {
        CompState {
            input_gain: 0,
            make_up_gain: 0,
            full_band_enabled: false,
            ctl: [0, 0, 0],
            level: [0, 0, 0],
        }
    }
}

/// State of deesser part.
#[derive(Debug, Copy, Clone, PartialEq, Eq)]
pub struct DeesserState {
    /// The ratio to deesser. 0..10 (0..100 %)
    pub ratio: u32,
    /// Whether to bypass deesser effect.
    pub bypass: bool,
}

impl Default for DeesserState {
    fn default() -> (r: Self)
        ensures
            r == (DeesserState { ratio: 0, bypass: false }),
    {
        DeesserState { ratio: 0, bypass: false }
    }
}

/// State of equalizer part.
#[derive(Debug, Copy, Clone, PartialEq, Eq)]
pub struct EqState {
    /// Whether to enable equalizer.
    pub enabled: bool,
    /// The bandwidth. 0..39
    pub bandwidth: u32,
    /// The gain. 0..240 (-12.0..+12.0 dB)
    pub gain: u32,
    // blank
    /// The frequency. 0..240 (20.0..40.0 Hz)
    pub freq: u32,
}

impl Default for EqState {
    fn default() -> (r: Self)
        ensures
            r == (EqState { enabled: false, bandwidth: 0, gain: 0, freq: 0 }),
    {
        EqState { enabled: false, bandwidth: 0, gain: 0, freq: 0 }
    }
}

/// State of limitter part.
#[derive(Debug, Copy, Clone, PartialEq, Eq)]
pub struct LimitterState {
    /// The threshold to limit. 0..72 (-18.0..+18.0)
    pub threshold: u32,
}

impl Default for LimitterState {
    fn default() -> (r: Self)
        ensures
            r == (LimitterState { threshold: 0 }),
    {
        LimitterState { threshold: 0 }
    }
}

/// State entry of channel strip effect.
#[derive(Debug, Copy, Clone, PartialEq, Eq)]
pub struct ChStripState {
    pub src_type: ChStripSrcType,
    /// Compressor for low/mid/high frequencies.
    pub comp: CompState,
    /// Deesser.
    pub deesser: DeesserState,
    /// Equalizers for low/mid-low/mid-high/high frequencies.
    pub eq: [EqState; 4],
    /// Whether to bypass equalizer or not.
    pub eq_bypass: bool,
    /// Limitter.
    pub limitter: LimitterState,
    /// Whether to bypass limitter or not.
    pub limitter_bypass: bool,
    /// Whether to bypass whole parts or not.
    pub bypass: bool,
}

impl Default for ChStripState {
    fn default() -> (r: Self)
        ensures
            r == (ChStripState {
                src_type: ChStripSrcType::FemaleVocal,
                comp: CompState {
                    input_gain: 0,
                    make_up_gain: 0,
                    full_band_enabled: false,
                    ctl: [0, 0, 0],
                    level: [0, 0, 0],
                },
                deesser: DeesserState { ratio: 0, bypass: false },
                eq: [
                    EqState { enabled: false, bandwidth: 0, gain: 0, freq: 0 },
                    EqState { enabled: false, bandwidth: 0, gain: 0, freq: 0 },
                    EqState { enabled: false, bandwidth: 0, gain: 0, freq: 0 },
                    EqState { enabled: false, bandwidth: 0, gain: 0, freq: 0 },
                ],
                eq_bypass: false,
                limitter: LimitterState { threshold: 0 },
                limitter_bypass: false,
                bypass: false,
            }),
    {
        ChStripState {
            src_type: ChStripSrcType::default(),
            comp: CompState::default(),
            deesser: DeesserState::default(),
            eq: [EqState::default(), EqState::default(), EqState::default(), EqState::default()],
            eq_bypass: false,
            limitter: LimitterState::default(),
            limitter_bypass: false,
            bypass: false,
        }
    }
}

/// The size of serialized state entry of channel strip effect.
pub const CH_STRIP_STATE_SIZE: usize = 144;


/// The bytes after serializing a state entry of channel strip effect at `pos`.
pub open spec fn put_ch_strip_state(s: Seq<u8>, pos: int, state: ChStripState) -> Seq<u8> {
    let s = put_be_quad(s, pos, state.comp.input_gain);
    let s = put_be_quad(s, pos + 4, position_of(ch_strip_src_types(), state.src_type) as u32);
    let s = put_be_bool(s, pos + 8, state.comp.full_band_enabled);
    let s = put_be_quad(s, pos + 12, state.deesser.ratio);
    let s = put_be_bool(s, pos + 16, state.deesser.bypass);
    let s = put_be_bool(s, pos + 20, state.eq[0].enabled);
    let s = put_be_quad(s, pos + 24, state.eq[0].bandwidth);
    let s = put_be_quad(s, pos + 28, state.eq[0].gain);
    let s = put_be_quad(s, pos + 36, state.eq[0].freq);
    let s = put_be_bool(s, pos + 40, state.eq[1].enabled);
    let s = put_be_quad(s, pos + 44, state.eq[1].bandwidth);
    let s = put_be_quad(s, pos + 48, state.eq[1].gain);
    let s = put_be_quad(s, pos + 56, state.eq[1].freq);
    let s = put_be_bool(s, pos + 60, state.eq[2].enabled);
    let s = put_be_quad(s, pos + 64, state.eq[2].bandwidth);
    let s = put_be_quad(s, pos + 68, state.eq[2].gain);
    let s = put_be_quad(s, pos + 76, state.eq[2].freq);
    let s = put_be_bool(s, pos + 80, state.eq[3].enabled);
    let s = put_be_quad(s, pos + 84, state.eq[3].bandwidth);
    let s = put_be_quad(s, pos + 88, state.eq[3].gain);
    let s = put_be_quad(s, pos + 96, state.eq[3].freq);
    let s = put_be_bool(s, pos + 100, state.eq_bypass);
    let s = put_be_quad(s, pos + 104, state.comp.ctl[0]);
    let s = put_be_quad(s, pos + 108, state.comp.level[0]);
    let s = put_be_quad(s, pos + 112, state.comp.ctl[1]);
    let s = put_be_quad(s, pos + 116, state.comp.level[1]);
    let s = put_be_quad(s, pos + 120, state.comp.ctl[2]);
    let s = put_be_quad(s, pos + 124, state.comp.level[2]);
    let s = put_be_bool(s, pos + 128, state.limitter_bypass);
    let s = put_be_quad(s, pos + 132, state.comp.make_up_gain);
    let s = put_be_quad(s, pos + 136, state.limitter.threshold);
    put_be_bool(s, pos + 140, state.bypass)
}

/// Each part of the ch strip state stands in the quadlet at its own place from `pos`, whatever the
/// parts stored after it.
#[verifier::rlimit(100)]
#[verifier::spinoff_prover]
pub proof fn lemma_put_ch_strip_state_layout(s: Seq<u8>, pos: int, state: ChStripState)
    requires
        0 <= pos,
        pos + 144 <= s.len(),
    ensures
        be_quad_at(put_ch_strip_state(s, pos, state), pos) == state.comp.input_gain,
        be_quad_at(put_ch_strip_state(s, pos, state), pos + 4) == position_of(ch_strip_src_types(), state.src_type) as u32,
        be_bool_at(put_ch_strip_state(s, pos, state), pos + 8) == state.comp.full_band_enabled,
        be_quad_at(put_ch_strip_state(s, pos, state), pos + 12) == state.deesser.ratio,
        be_bool_at(put_ch_strip_state(s, pos, state), pos + 16) == state.deesser.bypass,
        be_bool_at(put_ch_strip_state(s, pos, state), pos + 20) == state.eq[0].enabled,
        be_quad_at(put_ch_strip_state(s, pos, state), pos + 24) == state.eq[0].bandwidth,
        be_quad_at(put_ch_strip_state(s, pos, state), pos + 28) == state.eq[0].gain,
        be_quad_at(put_ch_strip_state(s, pos, state), pos + 36) == state.eq[0].freq,
        be_bool_at(put_ch_strip_state(s, pos, state), pos + 40) == state.eq[1].enabled,
        be_quad_at(put_ch_strip_state(s, pos, state), pos + 44) == state.eq[1].bandwidth,
        be_quad_at(put_ch_strip_state(s, pos, state), pos + 48) == state.eq[1].gain,
        be_quad_at(put_ch_strip_state(s, pos, state), pos + 56) == state.eq[1].freq,
        be_bool_at(put_ch_strip_state(s, pos, state), pos + 60) == state.eq[2].enabled,
        be_quad_at(put_ch_strip_state(s, pos, state), pos + 64) == state.eq[2].bandwidth,
        be_quad_at(put_ch_strip_state(s, pos, state), pos + 68) == state.eq[2].gain,
        be_quad_at(put_ch_strip_state(s, pos, state), pos + 76) == state.eq[2].freq,
        be_bool_at(put_ch_strip_state(s, pos, state), pos + 80) == state.eq[3].enabled,
        be_quad_at(put_ch_strip_state(s, pos, state), pos + 84) == state.eq[3].bandwidth,
        be_quad_at(put_ch_strip_state(s, pos, state), pos + 88) == state.eq[3].gain,
        be_quad_at(put_ch_strip_state(s, pos, state), pos + 96) == state.eq[3].freq,
        be_bool_at(put_ch_strip_state(s, pos, state), pos + 100) == state.eq_bypass,
        be_quad_at(put_ch_strip_state(s, pos, state), pos + 104) == state.comp.ctl[0],
        be_quad_at(put_ch_strip_state(s, pos, state), pos + 108) == state.comp.level[0],
        be_quad_at(put_ch_strip_state(s, pos, state), pos + 112) == state.comp.ctl[1],
        be_quad_at(put_ch_strip_state(s, pos, state), pos + 116) == state.comp.level[1],
        be_quad_at(put_ch_strip_state(s, pos, state), pos + 120) == state.comp.ctl[2],
        be_quad_at(put_ch_strip_state(s, pos, state), pos + 124) == state.comp.level[2],
        be_bool_at(put_ch_strip_state(s, pos, state), pos + 128) == state.limitter_bypass,
        be_quad_at(put_ch_strip_state(s, pos, state), pos + 132) == state.comp.make_up_gain,
        be_quad_at(put_ch_strip_state(s, pos, state), pos + 136) == state.limitter.threshold,
        be_bool_at(put_ch_strip_state(s, pos, state), pos + 140) == state.bypass,
{
    broadcast use group_quad_lemmas;
}

/// Serialize a state entry of channel strip effect at `pos`.
pub fn serialize_ch_strip_state(state: &ChStripState, raw: &mut [u8], pos: usize) -> (r: Result<(), String>)
    requires
        pos + CH_STRIP_STATE_SIZE <= old(raw)@.len(),
    ensures
        r.is_ok(),
        final(raw)@ == put_ch_strip_state(old(raw)@, pos as int, *state),
        final(raw)@.len() == old(raw)@.len(),
{
    let len = raw.len();
    write_be_quad(raw, pos, state.comp.input_gain);
    let _ = serialize_src_type(&state.src_type, raw, pos + 4);
    write_be_bool(raw, pos + 8, state.comp.full_band_enabled);
    write_be_quad(raw, pos + 12, state.deesser.ratio);
    write_be_bool(raw, pos + 16, state.deesser.bypass);
    write_be_bool(raw, pos + 20, state.eq[0].enabled);
    write_be_quad(raw, pos + 24, state.eq[0].bandwidth);
    write_be_quad(raw, pos + 28, state.eq[0].gain);
    write_be_quad(raw, pos + 36, state.eq[0].freq);
    write_be_bool(raw, pos + 40, state.eq[1].enabled);
    write_be_quad(raw, pos + 44, state.eq[1].bandwidth);
    write_be_quad(raw, pos + 48, state.eq[1].gain);
    write_be_quad(raw, pos + 56, state.eq[1].freq);
    write_be_bool(raw, pos + 60, state.eq[2].enabled);
    write_be_quad(raw, pos + 64, state.eq[2].bandwidth);
    write_be_quad(raw, pos + 68, state.eq[2].gain);
    write_be_quad(raw, pos + 76, state.eq[2].freq);
    write_be_bool(raw, pos + 80, state.eq[3].enabled);
    write_be_quad(raw, pos + 84, state.eq[3].bandwidth);
    write_be_quad(raw, pos + 88, state.eq[3].gain);
    write_be_quad(raw, pos + 96, state.eq[3].freq);
    write_be_bool(raw, pos + 100, state.eq_bypass);
    write_be_quad(raw, pos + 104, state.comp.ctl[0]);
    write_be_quad(raw, pos + 108, state.comp.level[0]);
    write_be_quad(raw, pos + 112, state.comp.ctl[1]);
    write_be_quad(raw, pos + 116, state.comp.level[1]);
    write_be_quad(raw, pos + 120, state.comp.ctl[2]);
    write_be_quad(raw, pos + 124, state.comp.level[2]);
    write_be_bool(raw, pos + 128, state.limitter_bypass);
    write_be_quad(raw, pos + 132, state.comp.make_up_gain);
    write_be_quad(raw, pos + 136, state.limitter.threshold);
    write_be_bool(raw, pos + 140, state.bypass);
    Ok(())
}

/// Whether a state entry of channel strip effect at `pos` can be deserialized.
pub open spec fn ch_strip_state_decodable(raw: Seq<u8>, pos: int) -> bool {
    (be_quad_at(raw, pos + 4) as int) < ch_strip_src_types().len()
}

/// `new` is `old` after deserializing a state entry of channel strip effect at `pos`.
pub open spec fn ch_strip_state_decoded(raw: Seq<u8>, pos: int, old: ChStripState, new: ChStripState) -> bool {
    &&& new.comp.input_gain == be_quad_at(raw, pos)
    &&& new.src_type == if (be_quad_at(raw, pos + 4) as int) < ch_strip_src_types().len() { ch_strip_src_types()[be_quad_at(raw, pos + 4) as int] } else { old.src_type }
    &&& new.comp.full_band_enabled == if (be_quad_at(raw, pos + 4) as int) < ch_strip_src_types().len() { be_bool_at(raw, pos + 8) } else { old.comp.full_band_enabled }
    &&& new.deesser.ratio == if (be_quad_at(raw, pos + 4) as int) < ch_strip_src_types().len() { be_quad_at(raw, pos + 12) } else { old.deesser.ratio }
    &&& new.deesser.bypass == if (be_quad_at(raw, pos + 4) as int) < ch_strip_src_types().len() { be_bool_at(raw, pos + 16) } else { old.deesser.bypass }
    &&& new.eq[0].enabled == if (be_quad_at(raw, pos + 4) as int) < ch_strip_src_types().len() { be_bool_at(raw, pos + 20) } else { old.eq[0].enabled }
    &&& new.eq[0].bandwidth == if (be_quad_at(raw, pos + 4) as int) < ch_strip_src_types().len() { be_quad_at(raw, pos + 24) } else { old.eq[0].bandwidth }
    &&& new.eq[0].gain == if (be_quad_at(raw, pos + 4) as int) < ch_strip_src_types().len() { be_quad_at(raw, pos + 28) } else { old.eq[0].gain }
    &&& new.eq[0].freq == if (be_quad_at(raw, pos + 4) as int) < ch_strip_src_types().len() { be_quad_at(raw, pos + 36) } else { old.eq[0].freq }
    &&& new.eq[1].enabled == if (be_quad_at(raw, pos + 4) as int) < ch_strip_src_types().len() { be_bool_at(raw, pos + 40) } else { old.eq[1].enabled }
    &&& new.eq[1].bandwidth == if (be_quad_at(raw, pos + 4) as int) < ch_strip_src_types().len() { be_quad_at(raw, pos + 44) } else { old.eq[1].bandwidth }
    &&& new.eq[1].gain == if (be_quad_at(raw, pos + 4) as int) < ch_strip_src_types().len() { be_quad_at(raw, pos + 48) } else { old.eq[1].gain }
    &&& new.eq[1].freq == if (be_quad_at(raw, pos + 4) as int) < ch_strip_src_types().len() { be_quad_at(raw, pos + 56) } else { old.eq[1].freq }
    &&& new.eq[2].enabled == if (be_quad_at(raw, pos + 4) as int) < ch_strip_src_types().len() { be_bool_at(raw, pos + 60) } else { old.eq[2].enabled }
    &&& new.eq[2].bandwidth == if (be_quad_at(raw, pos + 4) as int) < ch_strip_src_types().len() { be_quad_at(raw, pos + 64) } else { old.eq[2].bandwidth }
    &&& new.eq[2].gain == if (be_quad_at(raw, pos + 4) as int) < ch_strip_src_types().len() { be_quad_at(raw, pos + 68) } else { old.eq[2].gain }
    &&& new.eq[2].freq == if (be_quad_at(raw, pos + 4) as int) < ch_strip_src_types().len() { be_quad_at(raw, pos + 76) } else { old.eq[2].freq }
    &&& new.eq[3].enabled == if (be_quad_at(raw, pos + 4) as int) < ch_strip_src_types().len() { be_bool_at(raw, pos + 80) } else { old.eq[3].enabled }
    &&& new.eq[3].bandwidth == if (be_quad_at(raw, pos + 4) as int) < ch_strip_src_types().len() { be_quad_at(raw, pos + 84) } else { old.eq[3].bandwidth }
    &&& new.eq[3].gain == if (be_quad_at(raw, pos + 4) as int) < ch_strip_src_types().len() { be_quad_at(raw, pos + 88) } else { old.eq[3].gain }
    &&& new.eq[3].freq == if (be_quad_at(raw, pos + 4) as int) < ch_strip_src_types().len() { be_quad_at(raw, pos + 96) } else { old.eq[3].freq }
    &&& new.eq_bypass == if (be_quad_at(raw, pos + 4) as int) < ch_strip_src_types().len() { be_bool_at(raw, pos + 100) } else { old.eq_bypass }
    &&& new.comp.ctl[0] == if (be_quad_at(raw, pos + 4) as int) < ch_strip_src_types().len() { be_quad_at(raw, pos + 104) } else { old.comp.ctl[0] }
    &&& new.comp.level[0] == if (be_quad_at(raw, pos + 4) as int) < ch_strip_src_types().len() { be_quad_at(raw, pos + 108) } else { old.comp.level[0] }
    &&& new.comp.ctl[1] == if (be_quad_at(raw, pos + 4) as int) < ch_strip_src_types().len() { be_quad_at(raw, pos + 112) } else { old.comp.ctl[1] }
    &&& new.comp.level[1] == if (be_quad_at(raw, pos + 4) as int) < ch_strip_src_types().len() { be_quad_at(raw, pos + 116) } else { old.comp.level[1] }
    &&& new.comp.ctl[2] == if (be_quad_at(raw, pos + 4) as int) < ch_strip_src_types().len() { be_quad_at(raw, pos + 120) } else { old.comp.ctl[2] }
    &&& new.comp.level[2] == if (be_quad_at(raw, pos + 4) as int) < ch_strip_src_types().len() { be_quad_at(raw, pos + 124) } else { old.comp.level[2] }
    &&& new.limitter_bypass == if (be_quad_at(raw, pos + 4) as int) < ch_strip_src_types().len() { be_bool_at(raw, pos + 128) } else { old.limitter_bypass }
    &&& new.comp.make_up_gain == if (be_quad_at(raw, pos + 4) as int) < ch_strip_src_types().len() { be_quad_at(raw, pos + 132) } else { old.comp.make_up_gain }
    &&& new.limitter.threshold == if (be_quad_at(raw, pos + 4) as int) < ch_strip_src_types().len() { be_quad_at(raw, pos + 136) } else { old.limitter.threshold }
    &&& new.bypass == if (be_quad_at(raw, pos + 4) as int) < ch_strip_src_types().len() { be_bool_at(raw, pos + 140) } else { old.bypass }
}

/// Deserialize a state entry of channel strip effect at `pos`.
pub fn deserialize_ch_strip_state(state: &mut ChStripState, raw: &[u8], pos: usize) -> (r: Result<(), String>)
    requires
        pos + CH_STRIP_STATE_SIZE <= raw@.len(),
    ensures
        r.is_ok() <==> ch_strip_state_decodable(raw@, pos as int),
        ch_strip_state_decoded(raw@, pos as int, *old(state), *final(state)),
{
    let len = raw.len();
    state.comp.input_gain = read_be_quad(raw, pos);
    deserialize_src_type(&mut state.src_type, raw, pos + 4)?;
    state.comp.full_band_enabled = read_be_bool(raw, pos + 8);
    state.deesser.ratio = read_be_quad(raw, pos + 12);
    state.deesser.bypass = read_be_bool(raw, pos + 16);
    state.eq[0].enabled = read_be_bool(raw, pos + 20);
    state.eq[0].bandwidth = read_be_quad(raw, pos + 24);
    state.eq[0].gain = read_be_quad(raw, pos + 28);
    state.eq[0].freq = read_be_quad(raw, pos + 36);
    state.eq[1].enabled = read_be_bool(raw, pos + 40);
    state.eq[1].bandwidth = read_be_quad(raw, pos + 44);
    state.eq[1].gain = read_be_quad(raw, pos + 48);
    state.eq[1].freq = read_be_quad(raw, pos + 56);
    state.eq[2].enabled = read_be_bool(raw, pos + 60);
    state.eq[2].bandwidth = read_be_quad(raw, pos + 64);
    state.eq[2].gain = read_be_quad(raw, pos + 68);
    state.eq[2].freq = read_be_quad(raw, pos + 76);
    state.eq[3].enabled = read_be_bool(raw, pos + 80);
    state.eq[3].bandwidth = read_be_quad(raw, pos + 84);
    state.eq[3].gain = read_be_quad(raw, pos + 88);
    state.eq[3].freq = read_be_quad(raw, pos + 96);
    state.eq_bypass = read_be_bool(raw, pos + 100);
    state.comp.ctl[0] = read_be_quad(raw, pos + 104);
    state.comp.level[0] = read_be_quad(raw, pos + 108);
    state.comp.ctl[1] = read_be_quad(raw, pos + 112);
    state.comp.level[1] = read_be_quad(raw, pos + 116);
    state.comp.ctl[2] = read_be_quad(raw, pos + 120);
    state.comp.level[2] = read_be_quad(raw, pos + 124);
    state.limitter_bypass = read_be_bool(raw, pos + 128);
    state.comp.make_up_gain = read_be_quad(raw, pos + 132);
    state.limitter.threshold = read_be_quad(raw, pos + 136);
    state.bypass = read_be_bool(raw, pos + 140);
    Ok(())
}

/// Deserializing what was serialized for a state entry of channel strip effect gives it back.
#[verifier::rlimit(60)]
pub proof fn lemma_ch_strip_state_roundtrip(state: ChStripState, s: Seq<u8>, pos: int, old: ChStripState, new: ChStripState)
    requires
        0 <= pos,
        pos + CH_STRIP_STATE_SIZE <= s.len(),
    ensures
        put_ch_strip_state(s, pos, state).len() == s.len(),
        ch_strip_state_decodable(put_ch_strip_state(s, pos, state), pos),
        ch_strip_state_decoded(put_ch_strip_state(s, pos, state), pos, old, new) ==> new == state,
{
    broadcast use group_quad_lemmas;
    lemma_ch_strip_src_type_in_table(state.src_type);
    lemma_position_of_contained(ch_strip_src_types(), state.src_type);
    if ch_strip_state_decoded(put_ch_strip_state(s, pos, state), pos, old, new) {
        assert(new.eq =~= state.eq);
        assert(new.comp.ctl =~= state.comp.ctl);
        assert(new.comp.level =~= state.comp.level);
    }
}

/// Meter entry of channel strip effect.
#[derive(Debug, Copy, Clone, PartialEq, Eq)]
pub struct ChStripMeter {
    /// Input meter. -72..0 (-72.0..0.0 dB)
    pub input: i32,
    /// Limit meter. -12..0 (-12.0..0.0 dB)
    pub limit: i32,
    /// Output meter. -72..0 (-72.0..0.0 dB)
    pub output: i32,
    /// Gain meter at low/middle/high frequency. -24..18 (-24.0..18.0 dB)
    pub gains: [i32; 3],
}

impl Default for ChStripMeter {
    fn default() -> (r: Self)
        ensures
            r == (ChStripMeter { input: 0, limit: 0, output: 0, gains: [0, 0, 0] }),
    {
        ChStripMeter { input: 0, limit: 0, output: 0, gains: [0, 0, 0] }
    }
}

/// The size of serialized meter entry of channel strip effect.
pub const CH_STRIP_METER_SIZE: usize = 28;


/// The bytes after serializing a meter entry of channel strip effect at `pos`.
pub open spec fn put_ch_strip_meter(s: Seq<u8>, pos: int, meter: ChStripMeter) -> Seq<u8> {
    let s = put_be_i32(s, pos, meter.input);
    let s = put_be_i32(s, pos + 4, meter.limit);
    let s = put_be_i32(s, pos + 8, meter.output);
    let s = put_be_i32(s, pos + 20, meter.gains[0]);
    let s = put_be_i32(s, pos + 16, meter.gains[1]);
    put_be_i32(s, pos + 12, meter.gains[2])
}

/// Each part of the ch strip meter stands in the quadlet at its own place from `pos`, whatever the
/// parts stored after it.
pub proof fn lemma_put_ch_strip_meter_layout(s: Seq<u8>, pos: int, meter: ChStripMeter)
    requires
        0 <= pos,
        pos + 24 <= s.len(),
    ensures
        be_i32_at(put_ch_strip_meter(s, pos, meter), pos) == meter.input,
        be_i32_at(put_ch_strip_meter(s, pos, meter), pos + 4) == meter.limit,
        be_i32_at(put_ch_strip_meter(s, pos, meter), pos + 8) == meter.output,
        be_i32_at(put_ch_strip_meter(s, pos, meter), pos + 20) == meter.gains[0],
        be_i32_at(put_ch_strip_meter(s, pos, meter), pos + 16) == meter.gains[1],
        be_i32_at(put_ch_strip_meter(s, pos, meter), pos + 12) == meter.gains[2],
{
    broadcast use group_quad_lemmas;
}

/// Serialize a meter entry of channel strip effect at `pos`.
pub fn serialize_ch_strip_meter(meter: &ChStripMeter, raw: &mut [u8], pos: usize)
    requires
        pos + CH_STRIP_METER_SIZE <= old(raw)@.len(),
    ensures
        final(raw)@ == put_ch_strip_meter(old(raw)@, pos as int, *meter),
        final(raw)@.len() == old(raw)@.len(),
{
    let len = raw.len();
    write_be_i32(raw, pos, meter.input);
    write_be_i32(raw, pos + 4, meter.limit);
    write_be_i32(raw, pos + 8, meter.output);
    write_be_i32(raw, pos + 20, meter.gains[0]);
    write_be_i32(raw, pos + 16, meter.gains[1]);
    write_be_i32(raw, pos + 12, meter.gains[2]);
}

/// Whether a meter entry of channel strip effect at `pos` can be deserialized.
pub open spec fn ch_strip_meter_decodable(raw: Seq<u8>, pos: int) -> bool {
    true
}

/// `new` is `old` after deserializing a meter entry of channel strip effect at `pos`.
pub open spec fn ch_strip_meter_decoded(raw: Seq<u8>, pos: int, old: ChStripMeter, new: ChStripMeter) -> bool {
    &&& new.input == be_i32_at(raw, pos)
    &&& new.limit == be_i32_at(raw, pos + 4)
    &&& new.output == be_i32_at(raw, pos + 8)
    &&& new.gains[0] == be_i32_at(raw, pos + 20)
    &&& new.gains[1] == be_i32_at(raw, pos + 16)
    &&& new.gains[2] == be_i32_at(raw, pos + 12)
}

/// Deserialize a meter entry of channel strip effect at `pos`.
pub fn deserialize_ch_strip_meter(meter: &mut ChStripMeter, raw: &[u8], pos: usize)
    requires
        pos + CH_STRIP_METER_SIZE <= raw@.len(),
    ensures
        ch_strip_meter_decoded(raw@, pos as int, *old(meter), *final(meter)),
{
    let len = raw.len();
    meter.input = read_be_i32(raw, pos);
    meter.limit = read_be_i32(raw, pos + 4);
    meter.output = read_be_i32(raw, pos + 8);
    meter.gains[0] = read_be_i32(raw, pos + 20);
    meter.gains[1] = read_be_i32(raw, pos + 16);
    meter.gains[2] = read_be_i32(raw, pos + 12);
}

/// Deserializing what was serialized for a meter entry of channel strip effect gives it back.
pub proof fn lemma_ch_strip_meter_roundtrip(meter: ChStripMeter, s: Seq<u8>, pos: int, old: ChStripMeter, new: ChStripMeter)
    requires
        0 <= pos,
        pos + CH_STRIP_METER_SIZE <= s.len(),
    ensures
        put_ch_strip_meter(s, pos, meter).len() == s.len(),
        ch_strip_meter_decodable(put_ch_strip_meter(s, pos, meter), pos),
        ch_strip_meter_decoded(put_ch_strip_meter(s, pos, meter), pos, old, new) ==> new == meter,
{
    broadcast use group_quad_lemmas;
    if ch_strip_meter_decoded(put_ch_strip_meter(s, pos, meter), pos, old, new) {
        assert(new.gains =~= meter.gains);
    }
}

/// The size of segment for the given number of state entries of channel strip effect.
pub open spec fn ch_strip_state_segment_size(count: int) -> int {
    ((count + 1) / 2) * 4 + count + CH_STRIP_STATE_SIZE
}

/// The position of state entry of channel strip effect in segment.
pub open spec fn ch_strip_state_pos(idx: int) -> int {
    ((idx + 1) / 2) * 4 + idx * CH_STRIP_STATE_SIZE
}

/// Calculate the size of segment for the given number of state entries of channel strip effect.
pub fn calculate_ch_strip_state_segment_size(count: usize) -> (size: usize)
    requires
        ch_strip_state_segment_size(count as int) <= usize::MAX,
    ensures
        size == ch_strip_state_segment_size(count as int),
{
    ((count + 1) / 2) * 4 + count + CH_STRIP_STATE_SIZE
}

/// Calculate the position of state entry of channel strip effect in segment.
pub fn calculate_ch_strip_state_segment_pos(idx: usize) -> (pos: usize)
    requires
        ch_strip_state_pos(idx as int) <= usize::MAX,
    ensures
        pos == ch_strip_state_pos(idx as int),
{
    ((idx + 1) / 2) * 4 + idx * CH_STRIP_STATE_SIZE
}

/// The bytes after serializing the state entries of channel strip effect.
pub open spec fn put_ch_strip_states(s: Seq<u8>, states: Seq<ChStripState>) -> Seq<u8>
    decreases states.len(),
{
    if states.len() == 0 {
        s
    } else {
        put_ch_strip_state(
            put_ch_strip_states(s, states.drop_last()),
            ch_strip_state_pos(states.len() - 1),
            states.last(),
        )
    }
}

/// The segment has room for the given number of state entries of channel strip effect.
pub open spec fn ch_strip_states_fit(count: int, len: int) -> bool {
    &&& ch_strip_state_segment_size(count) <= len
    &&& count > 0 ==> ch_strip_state_pos(count - 1) + CH_STRIP_STATE_SIZE <= len
}

proof fn lemma_ch_strip_state_pos_fit(idx: int, count: int, len: int)
    requires
        0 <= idx < count,
        ch_strip_states_fit(count, len),
    ensures
        ch_strip_state_pos(idx) + CH_STRIP_STATE_SIZE <= len,
        0 <= ch_strip_state_pos(idx),
{
}

/// Serialize the state entries of channel strip effect.
pub fn serialize_ch_strip_states(states: &[ChStripState], raw: &mut [u8]) -> (r: Result<
    (),
    String,
>)
    requires
        ch_strip_states_fit(states@.len() as int, old(raw)@.len() as int),
    ensures
        r.is_ok(),
        final(raw)@ == put_ch_strip_states(old(raw)@, states@),
{
    let len = raw.len();
    let mut i: usize = 0;
    while i < states.len()
        invariant
            i <= states@.len(),
            len == raw@.len(),
            ch_strip_states_fit(states@.len() as int, old(raw)@.len() as int),
            raw@.len() == old(raw)@.len(),
            raw@ == put_ch_strip_states(old(raw)@, states@.take(i as int)),
        decreases states@.len() - i,
    {
        proof {
            lemma_ch_strip_state_pos_fit(i as int, states@.len() as int, raw@.len() as int);
        }
        let pos = calculate_ch_strip_state_segment_pos(i);
        let _ = serialize_ch_strip_state(&states[i], raw, pos);
        proof {
            assert(states@.take(i + 1).drop_last() =~= states@.take(i as int));
        }
        i = i + 1;
    }
    proof {
        assert(states@.take(states@.len() as int) =~= states@);
    }
    Ok(())
}

/// Storing a state entry leaves the quadlets outside the entry as they are.
proof fn lemma_put_ch_strip_state_frame(s: Seq<u8>, p: int, st: ChStripState, lo: int, hi: int)
    requires
        0 <= p,
        p + CH_STRIP_STATE_SIZE <= s.len(),
        0 <= lo,
        hi <= s.len(),
        hi <= p || p + CH_STRIP_STATE_SIZE <= lo,
    ensures
        put_ch_strip_state(s, p, st).len() == s.len(),
        quads_agree(put_ch_strip_state(s, p, st), s, lo, hi),
{
    broadcast use group_quad_lemmas;
}

/// The entries which follow one lie after its end.
proof fn lemma_ch_strip_state_pos_order(i: int, j: int)
    requires
        0 <= i < j,
    ensures
        ch_strip_state_pos(i) + CH_STRIP_STATE_SIZE <= ch_strip_state_pos(j),
        0 <= ch_strip_state_pos(i),
{
}

/// Room for some entries is room for fewer.
proof fn lemma_ch_strip_states_fit_fewer(m: int, n: int, len: int)
    requires
        0 <= m <= n,
        ch_strip_states_fit(n, len),
    ensures
        ch_strip_states_fit(m, len),
{
    if m > 0 && m < n {
        lemma_ch_strip_state_pos_order(m - 1, n - 1);
    }
}

/// Serializing the entries keeps the length of bytes, and the quadlets of each entry are those
/// which storing it over the entries before it gives.
proof fn lemma_put_ch_strip_states_entry(s: Seq<u8>, states: Seq<ChStripState>, i: int)
    requires
        ch_strip_states_fit(states.len() as int, s.len() as int),
        0 <= i < states.len(),
    ensures
        put_ch_strip_states(s, states).len() == s.len(),
        put_ch_strip_states(s, states.take(i)).len() == s.len(),
        quads_agree(
            put_ch_strip_states(s, states),
            put_ch_strip_state(
                put_ch_strip_states(s, states.take(i)),
                ch_strip_state_pos(i),
                states[i],
            ),
            ch_strip_state_pos(i),
            ch_strip_state_pos(i) + CH_STRIP_STATE_SIZE,
        ),
    decreases states.len(),
{
    let n = states.len() as int;
    let prev = states.drop_last();
    lemma_ch_strip_states_fit_fewer(n - 1, n, s.len() as int);
    lemma_ch_strip_states_fit_fewer(i, n, s.len() as int);
    lemma_ch_strip_state_pos_fit(n - 1, n, s.len() as int);
    lemma_put_ch_strip_states_len(s, states);
    assert(states.take(i).len() == i);
    lemma_put_ch_strip_states_len(s, states.take(i));
    if i == n - 1 {
        assert(prev =~= states.take(i));
    } else {
        lemma_put_ch_strip_states_entry(s, prev, i);
        assert(prev.take(i) =~= states.take(i));
        assert(prev[i] == states[i]);
        lemma_ch_strip_state_pos_order(i, n - 1);
        lemma_ch_strip_state_pos_fit(i, n, s.len() as int);
        lemma_put_ch_strip_state_frame(
            put_ch_strip_states(s, prev),
            ch_strip_state_pos(n - 1),
            states.last(),
            ch_strip_state_pos(i),
            ch_strip_state_pos(i) + CH_STRIP_STATE_SIZE,
        );
    }
}

/// Serializing the entries keeps the length of bytes.
proof fn lemma_put_ch_strip_states_len(s: Seq<u8>, states: Seq<ChStripState>)
    requires
        ch_strip_states_fit(states.len() as int, s.len() as int),
    ensures
        put_ch_strip_states(s, states).len() == s.len(),
    decreases states.len(),
{
    let n = states.len() as int;
    if n > 0 {
        lemma_ch_strip_states_fit_fewer(n - 1, n, s.len() as int);
        lemma_ch_strip_state_pos_fit(n - 1, n, s.len() as int);
        lemma_put_ch_strip_states_len(s, states.drop_last());
        lemma_put_ch_strip_state_frame(
            put_ch_strip_states(s, states.drop_last()),
            ch_strip_state_pos(n - 1),
            states.last(),
            0,
            0,
        );
    }
}

/// Deserializing what was serialized for the state entries of channel strip effect gives them
/// all back.
pub proof fn lemma_ch_strip_states_roundtrip(
    states: Seq<ChStripState>,
    s: Seq<u8>,
    old: Seq<ChStripState>,
    new: Seq<ChStripState>,
)
    requires
        ch_strip_states_fit(states.len() as int, s.len() as int),
        old.len() == states.len(),
        new.len() == states.len(),
    ensures
        put_ch_strip_states(s, states).len() == s.len(),
        ch_strip_states_decodable(put_ch_strip_states(s, states), states.len() as int),
        (forall|i: int|
            0 <= i < states.len() ==> ch_strip_state_decoded(
                put_ch_strip_states(s, states),
                ch_strip_state_pos(i),
                old[i],
                #[trigger] new[i],
            )) ==> new == states,
{
    let t = put_ch_strip_states(s, states);
    lemma_put_ch_strip_states_len(s, states);
    assert forall|i: int| 0 <= i < states.len() implies ch_strip_state_decodable(
        t,
        #[trigger] ch_strip_state_pos(i),
    ) && (ch_strip_state_decoded(t, ch_strip_state_pos(i), old[i], new[i]) ==> new[i] == states[i]) by {
        lemma_put_ch_strip_states_entry(s, states, i);
        lemma_ch_strip_state_pos_fit(i, states.len() as int, s.len() as int);
        let x = put_ch_strip_states(s, states.take(i));
        let y = put_ch_strip_state(x, ch_strip_state_pos(i), states[i]);
        lemma_ch_strip_state_roundtrip(states[i], x, ch_strip_state_pos(i), old[i], new[i]);
        let p = ch_strip_state_pos(i);
        assert(be_quad_at(t, p + 4) == be_quad_at(y, p + 4));
        if ch_strip_state_decoded(t, p, old[i], new[i]) {
            assert(ch_strip_state_decoded(y, p, old[i], new[i]));
        }
    }
    if forall|i: int|
        0 <= i < states.len() ==> ch_strip_state_decoded(t, ch_strip_state_pos(i), old[i], #[trigger] new[i]) {
        assert(new =~= states);
    }
}

/// Whether the state entries of channel strip effect before `count` can be deserialized.
pub open spec fn ch_strip_states_decodable(raw: Seq<u8>, count: int) -> bool {
    forall|j: int| 0 <= j < count ==> ch_strip_state_decodable(raw, #[trigger] ch_strip_state_pos(j))
}

/// Deserialize the state entries of channel strip effect. The entries after the one which fails
/// are left as they are.
pub fn deserialize_ch_strip_states(states: &mut [ChStripState], raw: &[u8]) -> (r: Result<
    (),
    String,
>)
    requires
        ch_strip_states_fit(old(states)@.len() as int, raw@.len() as int),
    ensures
        final(states)@.len() == old(states)@.len(),
        r.is_ok() <==> ch_strip_states_decodable(raw@, old(states)@.len() as int),
        forall|i: int|
            0 <= i < old(states)@.len() ==> if ch_strip_states_decodable(raw@, i) {
                ch_strip_state_decoded(
                    raw@,
                    ch_strip_state_pos(i),
                    old(states)@[i],
                    #[trigger] final(states)@[i],
                )
            } else {
                final(states)@[i] == old(states)@[i]
            },
{
    let len = raw.len();
    let mut i: usize = 0;
    while i < states.len()
        invariant
            i <= states@.len(),
            states@.len() == old(states)@.len(),
            len == raw@.len(),
            ch_strip_states_fit(states@.len() as int, raw@.len() as int),
            ch_strip_states_decodable(raw@, i as int),
            forall|j: int|
                0 <= j < i ==> ch_strip_state_decoded(
                    raw@,
                    ch_strip_state_pos(j),
                    old(states)@[j],
                    #[trigger] states@[j],
                ),
            forall|j: int| i <= j < states@.len() ==> #[trigger] states@[j] == old(states)@[j],
        decreases states@.len() - i,
    {
        proof {
            lemma_ch_strip_state_pos_fit(i as int, states@.len() as int, raw@.len() as int);
        }
        let pos = calculate_ch_strip_state_segment_pos(i);
        let mut s = states[i];
        let res = deserialize_ch_strip_state(&mut s, raw, pos);
        states[i] = s;
        if res.is_err() {
            proof {
                assert forall|j: int| i < j <= old(states)@.len() implies !ch_strip_states_decodable(
                    raw@,
                    j,
                ) by {
                    assert(!ch_strip_state_decodable(raw@, ch_strip_state_pos(i as int)));
                }
            }
            return res;
        }
        i = i + 1;
    }
    Ok(())
}

/// The size of segment for the given number of meter entries of channel strip effect.
pub open spec fn ch_strip_meter_segment_size(count: int) -> int {
    ((count + 1) / 2) * 4 + count * CH_STRIP_METER_SIZE
}

/// The position of meter entry of channel strip effect in segment.
pub open spec fn ch_strip_meter_pos(idx: int) -> int {
    ((idx + 1) / 2) * 4 + idx * CH_STRIP_METER_SIZE
}

/// Calculate the size of segment for the given number of meter entries of channel strip effect.
pub fn calculate_ch_strip_meter_segment_size(count: usize) -> (size: usize)
    requires
        ch_strip_meter_segment_size(count as int) <= usize::MAX,
    ensures
        size == ch_strip_meter_segment_size(count as int),
{
    ((count + 1) / 2) * 4 + count * CH_STRIP_METER_SIZE
}

/// Calculate the position of meter entry of channel strip effect in segment.
pub fn calculate_ch_strip_meter_segment_pos(idx: usize) -> (pos: usize)
    requires
        ch_strip_meter_pos(idx as int) <= usize::MAX,
    ensures
        pos == ch_strip_meter_pos(idx as int),
{
    ((idx + 1) / 2) * 4 + idx * CH_STRIP_METER_SIZE
}

/// The bytes after serializing the meter entries of channel strip effect.
pub open spec fn put_ch_strip_meters(s: Seq<u8>, meters: Seq<ChStripMeter>) -> Seq<u8>
    decreases meters.len(),
{
    if meters.len() == 0 {
        s
    } else {
        put_ch_strip_meter(
            put_ch_strip_meters(s, meters.drop_last()),
            ch_strip_meter_pos(meters.len() - 1),
            meters.last(),
        )
    }
}

/// The segment has room for the given number of meter entries of channel strip effect.
pub open spec fn ch_strip_meters_fit(count: int, len: int) -> bool {
    &&& ch_strip_meter_segment_size(count) <= len
    &&& count > 0 ==> ch_strip_meter_pos(count - 1) + CH_STRIP_METER_SIZE <= len
}

proof fn lemma_ch_strip_meter_pos_fit(idx: int, count: int, len: int)
    requires
        0 <= idx < count,
        ch_strip_meters_fit(count, len),
    ensures
        ch_strip_meter_pos(idx) + CH_STRIP_METER_SIZE <= len,
        0 <= ch_strip_meter_pos(idx),
{
}

/// Serialize the meter entries of channel strip effect.
pub fn serialize_ch_strip_meters(meters: &[ChStripMeter], raw: &mut [u8]) -> (r: Result<
    (),
    String,
>)
    requires
        ch_strip_meters_fit(meters@.len() as int, old(raw)@.len() as int),
    ensures
        r.is_ok(),
        final(raw)@ == put_ch_strip_meters(old(raw)@, meters@),
{
    let len = raw.len();
    let mut i: usize = 0;
    while i < meters.len()
        invariant
            i <= meters@.len(),
            len == raw@.len(),
            ch_strip_meters_fit(meters@.len() as int, old(raw)@.len() as int),
            raw@.len() == old(raw)@.len(),
            raw@ == put_ch_strip_meters(old(raw)@, meters@.take(i as int)),
        decreases meters@.len() - i,
    {
        proof {
            lemma_ch_strip_meter_pos_fit(i as int, meters@.len() as int, raw@.len() as int);
        }
        let pos = calculate_ch_strip_meter_segment_pos(i);
        serialize_ch_strip_meter(&meters[i], raw, pos);
        proof {
            assert(meters@.take(i + 1).drop_last() =~= meters@.take(i as int));
        }
        i = i + 1;
    }
    proof {
        assert(meters@.take(meters@.len() as int) =~= meters@);
    }
    Ok(())
}

/// Storing a meter entry leaves the quadlets outside the entry as they are.
proof fn lemma_put_ch_strip_meter_frame(s: Seq<u8>, p: int, st: ChStripMeter, lo: int, hi: int)
    requires
        0 <= p,
        p + CH_STRIP_METER_SIZE <= s.len(),
        0 <= lo,
        hi <= s.len(),
        hi <= p || p + CH_STRIP_METER_SIZE <= lo,
    ensures
        put_ch_strip_meter(s, p, st).len() == s.len(),
        quads_agree(put_ch_strip_meter(s, p, st), s, lo, hi),
{
    broadcast use group_quad_lemmas;
}

/// The entries which follow one lie after its end.
proof fn lemma_ch_strip_meter_pos_order(i: int, j: int)
    requires
        0 <= i < j,
    ensures
        ch_strip_meter_pos(i) + CH_STRIP_METER_SIZE <= ch_strip_meter_pos(j),
        0 <= ch_strip_meter_pos(i),
{
}

/// Room for some entries is room for fewer.
proof fn lemma_ch_strip_meters_fit_fewer(m: int, n: int, len: int)
    requires
        0 <= m <= n,
        ch_strip_meters_fit(n, len),
    ensures
        ch_strip_meters_fit(m, len),
{
    if m > 0 && m < n {
        lemma_ch_strip_meter_pos_order(m - 1, n - 1);
    }
}

/// Serializing the entries keeps the length of bytes, and the quadlets of each entry are those
/// which storing it over the entries before it gives.
proof fn lemma_put_ch_strip_meters_entry(s: Seq<u8>, meters: Seq<ChStripMeter>, i: int)
    requires
        ch_strip_meters_fit(meters.len() as int, s.len() as int),
        0 <= i < meters.len(),
    ensures
        put_ch_strip_meters(s, meters).len() == s.len(),
        put_ch_strip_meters(s, meters.take(i)).len() == s.len(),
        quads_agree(
            put_ch_strip_meters(s, meters),
            put_ch_strip_meter(
                put_ch_strip_meters(s, meters.take(i)),
                ch_strip_meter_pos(i),
                meters[i],
            ),
            ch_strip_meter_pos(i),
            ch_strip_meter_pos(i) + CH_STRIP_METER_SIZE,
        ),
    decreases meters.len(),
{
    let n = meters.len() as int;
    let prev = meters.drop_last();
    lemma_ch_strip_meters_fit_fewer(n - 1, n, s.len() as int);
    lemma_ch_strip_meters_fit_fewer(i, n, s.len() as int);
    lemma_ch_strip_meter_pos_fit(n - 1, n, s.len() as int);
    lemma_put_ch_strip_meters_len(s, meters);
    assert(meters.take(i).len() == i);
    lemma_put_ch_strip_meters_len(s, meters.take(i));
    if i == n - 1 {
        assert(prev =~= meters.take(i));
    } else {
        lemma_put_ch_strip_meters_entry(s, prev, i);
        assert(prev.take(i) =~= meters.take(i));
        assert(prev[i] == meters[i]);
        lemma_ch_strip_meter_pos_order(i, n - 1);
        lemma_ch_strip_meter_pos_fit(i, n, s.len() as int);
        lemma_put_ch_strip_meter_frame(
            put_ch_strip_meters(s, prev),
            ch_strip_meter_pos(n - 1),
            meters.last(),
            ch_strip_meter_pos(i),
            ch_strip_meter_pos(i) + CH_STRIP_METER_SIZE,
        );
    }
}

/// Serializing the entries keeps the length of bytes.
proof fn lemma_put_ch_strip_meters_len(s: Seq<u8>, meters: Seq<ChStripMeter>)
    requires
        ch_strip_meters_fit(meters.len() as int, s.len() as int),
    ensures
        put_ch_strip_meters(s, meters).len() == s.len(),
    decreases meters.len(),
{
    let n = meters.len() as int;
    if n > 0 {
        lemma_ch_strip_meters_fit_fewer(n - 1, n, s.len() as int);
        lemma_ch_strip_meter_pos_fit(n - 1, n, s.len() as int);
        lemma_put_ch_strip_meters_len(s, meters.drop_last());
        lemma_put_ch_strip_meter_frame(
            put_ch_strip_meters(s, meters.drop_last()),
            ch_strip_meter_pos(n - 1),
            meters.last(),
            0,
            0,
        );
    }
}

/// Deserializing what was serialized for the meter entries of channel strip effect gives them
/// all back.
pub proof fn lemma_ch_strip_meters_roundtrip(
    meters: Seq<ChStripMeter>,
    s: Seq<u8>,
    old: Seq<ChStripMeter>,
    new: Seq<ChStripMeter>,
)
    requires
        ch_strip_meters_fit(meters.len() as int, s.len() as int),
        old.len() == meters.len(),
        new.len() == meters.len(),
    ensures
        put_ch_strip_meters(s, meters).len() == s.len(),
        (forall|i: int|
            0 <= i < meters.len() ==> ch_strip_meter_decoded(
                put_ch_strip_meters(s, meters),
                ch_strip_meter_pos(i),
                old[i],
                #[trigger] new[i],
            )) ==> new == meters,
{
    let t = put_ch_strip_meters(s, meters);
    lemma_put_ch_strip_meters_len(s, meters);
    assert forall|i: int| 0 <= i < meters.len() implies (ch_strip_meter_decoded(
        t,
        #[trigger] ch_strip_meter_pos(i),
        old[i],
        new[i],
    ) ==> new[i] == meters[i]) by {
        lemma_put_ch_strip_meters_entry(s, meters, i);
        lemma_ch_strip_meter_pos_fit(i, meters.len() as int, s.len() as int);
        let x = put_ch_strip_meters(s, meters.take(i));
        let y = put_ch_strip_meter(x, ch_strip_meter_pos(i), meters[i]);
        lemma_ch_strip_meter_roundtrip(meters[i], x, ch_strip_meter_pos(i), old[i], new[i]);
        let p = ch_strip_meter_pos(i);
        if ch_strip_meter_decoded(t, p, old[i], new[i]) {
            assert(ch_strip_meter_decoded(y, p, old[i], new[i]));
        }
    }
    if forall|i: int|
        0 <= i < meters.len() ==> ch_strip_meter_decoded(t, ch_strip_meter_pos(i), old[i], #[trigger] new[i]) {
        assert(new =~= meters);
    }
}

/// Deserialize the meter entries of channel strip effect.
pub fn deserialize_ch_strip_meters(meters: &mut [ChStripMeter], raw: &[u8]) -> (r: Result<
    (),
    String,
>)
    requires
        ch_strip_meters_fit(old(meters)@.len() as int, raw@.len() as int),
    ensures
        r.is_ok(),
        final(meters)@.len() == old(meters)@.len(),
        forall|i: int|
            0 <= i < old(meters)@.len() ==> ch_strip_meter_decoded(
                raw@,
                ch_strip_meter_pos(i),
                old(meters)@[i],
                #[trigger] final(meters)@[i],
            ),
{
    let len = raw.len();
    let mut i: usize = 0;
    while i < meters.len()
        invariant
            i <= meters@.len(),
            meters@.len() == old(meters)@.len(),
            len == raw@.len(),
            ch_strip_meters_fit(meters@.len() as int, raw@.len() as int),
            forall|j: int|
                0 <= j < i ==> ch_strip_meter_decoded(
                    raw@,
                    ch_strip_meter_pos(j),
                    old(meters)@[j],
                    #[trigger] meters@[j],
                ),
            forall|j: int| i <= j < meters@.len() ==> #[trigger] meters@[j] == old(meters)@[j],
        decreases meters@.len() - i,
    {
        proof {
            lemma_ch_strip_meter_pos_fit(i as int, meters@.len() as int, raw@.len() as int);
        }
        let pos = calculate_ch_strip_meter_segment_pos(i);
        let mut m = meters[i];
        deserialize_ch_strip_meter(&mut m, raw, pos);
        meters[i] = m;
        i = i + 1;
    }
    Ok(())
}

} // verus!
