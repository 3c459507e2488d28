//! Protocol defined by RME GmbH for Fireface 802.

use crate::bits::{
    check_flag, flag_bits, has_flag, lemma_flag_bits, or_bits, or_flag, put_field, put_flag,
    set_field, set_flag,
};
use crate::codec::{le_quad_at, le_quads_bytes, quads_to_le_bytes, read_le_quad};
use crate::fireface::latter::{
    clock_rate_code, clock_rate_code_valid, clock_rate_of_code, deserialize_clock_rate,
    deserialize_clock_rate_optional, deserialize_midi_tx_low_offset, lemma_clock_rate_code,
    lemma_midi_tx_low_offset_roundtrip, lemma_opt_clock_rate_code, midi_tx_low_offset_flag,
    midi_tx_low_offset_of, midi_tx_low_offset_valid, opt_clock_rate_code, opt_clock_rate_of_code,
    rate_field, serialize_clock_rate, serialize_clock_rate_optional, serialize_midi_tx_low_offset,
    FfLatterMidiTxLowOffset, RmeFfLatterSpecification, CFG_MIDI_TX_LOW_OFFSET_MASK,
    LATTER_CONFIG_SIZE, LATTER_STATUS_SIZE, STATUS_CLK_RATE_NONE,
};
use crate::fireface::{
    ClkNominalRate, OpticalOutputSignal, RmeFfOffsetParamsDeserialize, RmeFfOffsetParamsSerialize,
    SpdifFormat,
};
use vstd::prelude::*;

verus! {

/// Unique protocol for 802.
#[derive(Default, Debug)]
pub struct Ff802Protocol;

// For configuration register (0x'ffff'0000'0014).
pub const CFG_CLK_SRC_MASK: u32 = 0x00001c00;
pub const CFG_CLK_SRC_ADAT_B_FLAG: u32 = 0x00001000;
pub const CFG_CLK_SRC_ADAT_A_FLAG: u32 = 0x00000c00;
pub const CFG_CLK_SRC_AESEBU_FLAG: u32 = 0x00000800;
pub const CFG_CLK_SRC_WORD_CLK_FLAG: u32 = 0x00000400;
pub const CFG_CLK_SRC_INTERNAL_FLAG: u32 = 0x00000000;
pub const CFG_AESEBU_INPUT_FROM_OPT_IFACE_MASK: u32 = 0x00000200;
pub const CFG_AESEBU_OUTPUT_TO_OPT_IFACE_MASK: u32 = 0x00000100;
pub const CFG_DSP_EFFECT_ON_INPUT_MASK: u32 = 0x00000040;
pub const CFG_AESEBU_OUT_PRO_MASK: u32 = 0x00000020;
pub const CFG_WORD_OUT_SINGLE_MASK: u32 = 0x00000010;

/// Signal source of sampling clock.
#[derive(Debug, Clone, Copy, PartialEq, Eq, Structural)]
pub enum Ff802ClkSrc {
    Internal,
    AdatA,
    AdatB,
    AesEbu,
    WordClk,
}

impl Default for Ff802ClkSrc {
    fn default() -> (r: Self)
        ensures
            r == Ff802ClkSrc::Internal,
    {
        Ff802ClkSrc::Internal
    }
}

/// The flag of source of sampling clock in configuration register.
pub open spec fn clk_src_flag(src: Ff802ClkSrc) -> u32 {
    match src {
        Ff802ClkSrc::AdatB => CFG_CLK_SRC_ADAT_B_FLAG,
        Ff802ClkSrc::AdatA => CFG_CLK_SRC_ADAT_A_FLAG,
        Ff802ClkSrc::AesEbu => CFG_CLK_SRC_AESEBU_FLAG,
        Ff802ClkSrc::WordClk => CFG_CLK_SRC_WORD_CLK_FLAG,
        Ff802ClkSrc::Internal => CFG_CLK_SRC_INTERNAL_FLAG,
    }
}

/// Each value of `Ff802ClkSrc` has its own value in `clk_src_flag`, as the device knows it.
pub proof fn lemma_clk_src_flag_table()
    ensures
        clk_src_flag(Ff802ClkSrc::AdatB) == CFG_CLK_SRC_ADAT_B_FLAG,
        clk_src_flag(Ff802ClkSrc::AdatA) == CFG_CLK_SRC_ADAT_A_FLAG,
        clk_src_flag(Ff802ClkSrc::AesEbu) == CFG_CLK_SRC_AESEBU_FLAG,
        clk_src_flag(Ff802ClkSrc::WordClk) == CFG_CLK_SRC_WORD_CLK_FLAG,
        clk_src_flag(Ff802ClkSrc::Internal) == CFG_CLK_SRC_INTERNAL_FLAG,
{
}

/// Whether the bits of source of sampling clock stand for one of the sources.
pub open spec fn clk_src_valid(quad: u32) -> bool {
    let v = quad & CFG_CLK_SRC_MASK;
    v == CFG_CLK_SRC_ADAT_B_FLAG || v == CFG_CLK_SRC_ADAT_A_FLAG || v == CFG_CLK_SRC_AESEBU_FLAG
        || v == CFG_CLK_SRC_WORD_CLK_FLAG || v == CFG_CLK_SRC_INTERNAL_FLAG
}

/// The source of sampling clock which the bits stand for.
pub open spec fn clk_src_of(quad: u32) -> Ff802ClkSrc {
    let v = quad & CFG_CLK_SRC_MASK;
    if v == CFG_CLK_SRC_ADAT_B_FLAG {
        Ff802ClkSrc::AdatB
    } else if v == CFG_CLK_SRC_ADAT_A_FLAG {
        Ff802ClkSrc::AdatA
    } else if v == CFG_CLK_SRC_AESEBU_FLAG {
        Ff802ClkSrc::AesEbu
    } else if v == CFG_CLK_SRC_WORD_CLK_FLAG {
        Ff802ClkSrc::WordClk
    } else {
        Ff802ClkSrc::Internal
    }
}

/// Write the bits of source of sampling clock into the configuration quadlet.
pub fn serialize_clock_source(src: &Ff802ClkSrc, quad: &mut u32)
    ensures
        *final(quad) == put_field(*old(quad), CFG_CLK_SRC_MASK, clk_src_flag(*src)),
{
    let flag = match src {
        Ff802ClkSrc::AdatB => CFG_CLK_SRC_ADAT_B_FLAG,
        Ff802ClkSrc::AdatA => CFG_CLK_SRC_ADAT_A_FLAG,
        Ff802ClkSrc::AesEbu => CFG_CLK_SRC_AESEBU_FLAG,
        Ff802ClkSrc::WordClk => CFG_CLK_SRC_WORD_CLK_FLAG,
        Ff802ClkSrc::Internal => CFG_CLK_SRC_INTERNAL_FLAG,
    };
    *quad = set_field(*quad, CFG_CLK_SRC_MASK, flag);
}

/// Read the source of sampling clock from the configuration quadlet.
pub fn deserialize_clock_source(src: &mut Ff802ClkSrc, quad: &u32)
    requires
        clk_src_valid(*quad),
    ensures
        *final(src) == clk_src_of(*quad),
{
    let v = *quad & CFG_CLK_SRC_MASK;
    *src = if v == CFG_CLK_SRC_ADAT_B_FLAG {
        Ff802ClkSrc::AdatB
    } else if v == CFG_CLK_SRC_ADAT_A_FLAG {
        Ff802ClkSrc::AdatA
    } else if v == CFG_CLK_SRC_AESEBU_FLAG {
        Ff802ClkSrc::AesEbu
    } else if v == CFG_CLK_SRC_WORD_CLK_FLAG {
        Ff802ClkSrc::WordClk
    } else {
        Ff802ClkSrc::Internal
    };
}

/// Digital interface of S/PDIF signal for 802.
#[derive(Debug, Copy, Clone, PartialEq, Eq, Structural)]
pub enum Ff802SpdifIface {
    Xlr,
    Optical,
}

impl Default for Ff802SpdifIface {
    fn default() -> (r: Self)
        ensures
            r == Ff802SpdifIface::Xlr,
    {
        Ff802SpdifIface::Xlr
    }
}

/// Configuration of 802.
#[derive(Debug, Clone, Copy, PartialEq, Eq, Structural)]
pub struct Ff802Config {
    /// The low offset of destination address for MIDI messages.
    pub midi_tx_low_offset: FfLatterMidiTxLowOffset,
    /// The source of sampling clock.
    pub clk_src: Ff802ClkSrc,
    /// The input interface of S/PDIF signal.
    pub spdif_in_iface: Ff802SpdifIface,
    /// The type of signal to optical output interface.
    pub opt_out_signal: OpticalOutputSignal,
    /// Whether to enable DSP effect on inputs.
    pub effect_on_inputs: bool,
    /// For signal format of S/PDIF output.
    pub spdif_out_format: SpdifFormat,
    /// Whether to fix speed to single even if at double/quadruple rate.
    pub word_out_single: bool,
}

impl Default for Ff802Config {
    fn default() -> (r: Self)
        ensures
            r == (Ff802Config {
                midi_tx_low_offset: FfLatterMidiTxLowOffset::A0000,
                clk_src: Ff802ClkSrc::Internal,
                spdif_in_iface: Ff802SpdifIface::Xlr,
                opt_out_signal: OpticalOutputSignal::Adat,
                effect_on_inputs: false,
                spdif_out_format: SpdifFormat::Consumer,
                word_out_single: false,
            }),
    {
        Ff802Config {
            midi_tx_low_offset: FfLatterMidiTxLowOffset::default(),
            clk_src: Ff802ClkSrc::default(),
            spdif_in_iface: Ff802SpdifIface::default(),
            opt_out_signal: OpticalOutputSignal::default(),
            effect_on_inputs: false,
            spdif_out_format: SpdifFormat::default(),
            word_out_single: false,
        }
    }
}

/// The configuration quadlet.
pub open spec fn config_quad(c: Ff802Config) -> u32 {
    let q = put_field(0, CFG_MIDI_TX_LOW_OFFSET_MASK, midi_tx_low_offset_flag(c.midi_tx_low_offset));
    let q = put_field(q, CFG_CLK_SRC_MASK, clk_src_flag(c.clk_src));
    let q = put_flag(q, CFG_AESEBU_INPUT_FROM_OPT_IFACE_MASK, c.spdif_in_iface == Ff802SpdifIface::Optical);
    let q = put_flag(q, CFG_AESEBU_OUTPUT_TO_OPT_IFACE_MASK, c.opt_out_signal == OpticalOutputSignal::Spdif);
    let q = put_flag(q, CFG_DSP_EFFECT_ON_INPUT_MASK, c.effect_on_inputs);
    let q = put_flag(q, CFG_AESEBU_OUT_PRO_MASK, c.spdif_out_format == SpdifFormat::Professional);
    put_flag(q, CFG_WORD_OUT_SINGLE_MASK, c.word_out_single)
}

/// Whether the configuration quadlet can be read.
pub open spec fn config_valid(quad: u32) -> bool {
    midi_tx_low_offset_valid(quad) && clk_src_valid(quad)
}

/// The configuration read from the quadlet.
pub open spec fn config_of(quad: u32) -> Ff802Config {
    Ff802Config {
        midi_tx_low_offset: midi_tx_low_offset_of(quad),
        clk_src: clk_src_of(quad),
        spdif_in_iface: if has_flag(quad, CFG_AESEBU_INPUT_FROM_OPT_IFACE_MASK) {
            Ff802SpdifIface::Optical
        } else {
            Ff802SpdifIface::Xlr
        },
        opt_out_signal: if has_flag(quad, CFG_AESEBU_OUTPUT_TO_OPT_IFACE_MASK) {
            OpticalOutputSignal::Spdif
        } else {
            OpticalOutputSignal::Adat
        },
        effect_on_inputs: has_flag(quad, CFG_DSP_EFFECT_ON_INPUT_MASK),
        spdif_out_format: if has_flag(quad, CFG_AESEBU_OUT_PRO_MASK) {
            SpdifFormat::Professional
        } else {
            SpdifFormat::Consumer
        },
        word_out_single: has_flag(quad, CFG_WORD_OUT_SINGLE_MASK),
    }
}

impl RmeFfOffsetParamsSerialize<Ff802Config> for Ff802Protocol {
    open spec fn offsets_of(params: Ff802Config) -> Seq<u8> {
        le_quads_bytes(seq![config_quad(params)])
    }

    fn serialize_offsets(state: &Ff802Config) -> (raw: Vec<u8>) {
        let mut quad: u32 = 0;
        serialize_midi_tx_low_offset(&state.midi_tx_low_offset, &mut quad);
        serialize_clock_source(&state.clk_src, &mut quad);
        quad = set_flag(
            quad,
            CFG_AESEBU_INPUT_FROM_OPT_IFACE_MASK,
            state.spdif_in_iface == Ff802SpdifIface::Optical,
        );
        quad = set_flag(
            quad,
            CFG_AESEBU_OUTPUT_TO_OPT_IFACE_MASK,
            state.opt_out_signal == OpticalOutputSignal::Spdif,
        );
        quad = set_flag(quad, CFG_DSP_EFFECT_ON_INPUT_MASK, state.effect_on_inputs);
        quad = set_flag(
            quad,
            CFG_AESEBU_OUT_PRO_MASK,
            state.spdif_out_format == SpdifFormat::Professional,
        );
        quad = set_flag(quad, CFG_WORD_OUT_SINGLE_MASK, state.word_out_single);
        let quads = [quad];
        proof {
            assert(quads@ =~= seq![config_quad(*state)]);
        }
        quads_to_le_bytes(&quads)
    }
}

impl RmeFfOffsetParamsDeserialize<Ff802Config> for Ff802Protocol {
    open spec fn offsets_acceptable(params: Ff802Config, raw: Seq<u8>) -> bool {
        raw.len() >= LATTER_CONFIG_SIZE && config_valid(le_quad_at(raw, 0))
    }

    open spec fn deserialized(params: Ff802Config, raw: Seq<u8>, after: Ff802Config) -> bool {
        after == config_of(le_quad_at(raw, 0))
    }

    fn deserialize_offsets(state: &mut Ff802Config, raw: &[u8]) {
        let quad = read_le_quad(raw, 0);
        deserialize_midi_tx_low_offset(&mut state.midi_tx_low_offset, &quad);
        deserialize_clock_source(&mut state.clk_src, &quad);
        state.spdif_in_iface = if check_flag(quad, CFG_AESEBU_INPUT_FROM_OPT_IFACE_MASK) {
            Ff802SpdifIface::Optical
        } else {
            Ff802SpdifIface::Xlr
        };
        state.opt_out_signal = if check_flag(quad, CFG_AESEBU_OUTPUT_TO_OPT_IFACE_MASK) {
            OpticalOutputSignal::Spdif
        } else {
            OpticalOutputSignal::Adat
        };
        state.effect_on_inputs = check_flag(quad, CFG_DSP_EFFECT_ON_INPUT_MASK);
        state.spdif_out_format = if check_flag(quad, CFG_AESEBU_OUT_PRO_MASK) {
            SpdifFormat::Professional
        } else {
            SpdifFormat::Consumer
        };
        state.word_out_single = check_flag(quad, CFG_WORD_OUT_SINGLE_MASK);
    }
}

// For status register (0x'ffff'0000'001c).
pub const STATUS_ACTIVE_CLK_RATE_MASK: u32 = 0xf0000000;
pub const STATUS_ADAT_B_RATE_MASK: u32 = 0x0f000000;
pub const STATUS_ADAT_A_RATE_MASK: u32 = 0x00f00000;
pub const STATUS_SPDIF_RATE_MASK: u32 = 0x000f0000;
pub const STATUS_WORD_CLK_RATE_MASK: u32 = 0x0000f000;
pub const STATUS_ACTIVE_CLK_SRC_MASK: u32 = 0x00000e00;
pub const STATUS_ACTIVE_CLK_SRC_INTERNAL_FLAG: u32 = 0x00000e00;
pub const STATUS_ACTIVE_CLK_SRC_ADAT_A_FLAG: u32 = 0x00000800;
pub const STATUS_ACTIVE_CLK_SRC_ADAT_B_FLAG: u32 = 0x00000600;
pub const STATUS_ACTIVE_CLK_SRC_AESEBU_FLAG: u32 = 0x00000400;
pub const STATUS_ACTIVE_CLK_SRC_WORD_CLK_FLAG: u32 = 0x00000200;
pub const STATUS_SYNC_MASK: u32 = 0x000000f0;
pub const STATUS_SYNC_ADAT_B_MASK: u32 = 0x00000080;
pub const STATUS_SYNC_ADAT_A_MASK: u32 = 0x00000040;
pub const STATUS_SYNC_SPDIF_MASK: u32 = 0x00000020;
pub const STATUS_SYNC_WORD_CLK_MASK: u32 = 0x00000010;
pub const STATUS_LOCK_MASK: u32 = 0x0000000f;
pub const STATUS_LOCK_ADAT_B_MASK: u32 = 0x00000008;
pub const STATUS_LOCK_ADAT_A_MASK: u32 = 0x00000004;
pub const STATUS_LOCK_SPDIF_MASK: u32 = 0x00000002;
pub const STATUS_LOCK_WORD_CLK_MASK: u32 = 0x00000001;

/// Lock status of 802.
#[derive(Debug, Clone, Copy, PartialEq, Eq, Structural)]
pub struct Ff802ExtLockStatus {
    pub word_clk: bool,
    pub spdif: bool,
    pub adat_b: bool,
    pub adat_a: bool,
}

impl Default for Ff802ExtLockStatus {
    fn default() -> (r: Self)
        ensures
            r == (Ff802ExtLockStatus { word_clk: false, spdif: false, adat_b: false, adat_a: false }),
    {
        Ff802ExtLockStatus { word_clk: false, spdif: false, adat_b: false, adat_a: false }
    }
}

/// The status quadlet after writing the lock status into it.
pub open spec fn lock_status_quad(quad: u32, s: Ff802ExtLockStatus) -> u32 {
    let q = put_flag(quad, STATUS_LOCK_WORD_CLK_MASK, s.word_clk);
    let q = put_flag(q, STATUS_LOCK_SPDIF_MASK, s.spdif);
    let q = put_flag(q, STATUS_LOCK_ADAT_B_MASK, s.adat_b);
    put_flag(q, STATUS_LOCK_ADAT_A_MASK, s.adat_a)
}

/// The lock status read from the status quadlet.
pub open spec fn lock_status_of(quad: u32) -> Ff802ExtLockStatus {
    Ff802ExtLockStatus {
        word_clk: has_flag(quad, STATUS_LOCK_WORD_CLK_MASK),
        spdif: has_flag(quad, STATUS_LOCK_SPDIF_MASK),
        adat_b: has_flag(quad, STATUS_LOCK_ADAT_B_MASK),
        adat_a: has_flag(quad, STATUS_LOCK_ADAT_A_MASK),
    }
}

/// Write the lock status into the status quadlet.
pub fn serialize_external_lock_status(status: &Ff802ExtLockStatus, quad: &mut u32)
    ensures
        *final(quad) == lock_status_quad(*old(quad), *status),
{
    *quad = set_flag(*quad, STATUS_LOCK_WORD_CLK_MASK, status.word_clk);
    *quad = set_flag(*quad, STATUS_LOCK_SPDIF_MASK, status.spdif);
    *quad = set_flag(*quad, STATUS_LOCK_ADAT_B_MASK, status.adat_b);
    *quad = set_flag(*quad, STATUS_LOCK_ADAT_A_MASK, status.adat_a);
}

/// Read the lock status from the status quadlet.
pub fn deserialize_external_lock_status(status: &mut Ff802ExtLockStatus, quad: &u32)
    ensures
        *final(status) == lock_status_of(*quad),
{
    status.word_clk = check_flag(*quad, STATUS_LOCK_WORD_CLK_MASK);
    status.spdif = check_flag(*quad, STATUS_LOCK_SPDIF_MASK);
    status.adat_b = check_flag(*quad, STATUS_LOCK_ADAT_B_MASK);
    status.adat_a = check_flag(*quad, STATUS_LOCK_ADAT_A_MASK);
}

/// Sync status of 802.
#[derive(Debug, Clone, Copy, PartialEq, Eq, Structural)]
pub struct Ff802ExtSyncStatus {
    pub word_clk: bool,
    pub spdif: bool,
    pub adat_b: bool,
    pub adat_a: bool,
}

impl Default for Ff802ExtSyncStatus {
    fn default() -> (r: Self)
        ensures
            r == (Ff802ExtSyncStatus { word_clk: false, spdif: false, adat_b: false, adat_a: false }),
    {
        Ff802ExtSyncStatus { word_clk: false, spdif: false, adat_b: false, adat_a: false }
    }
}

/// The status quadlet after writing the sync status into it.
pub open spec fn sync_status_quad(quad: u32, s: Ff802ExtSyncStatus) -> u32 {
    let q = put_flag(quad, STATUS_SYNC_WORD_CLK_MASK, s.word_clk);
    let q = put_flag(q, STATUS_SYNC_SPDIF_MASK, s.spdif);
    let q = put_flag(q, STATUS_SYNC_ADAT_B_MASK, s.adat_b);
    put_flag(q, STATUS_SYNC_ADAT_A_MASK, s.adat_a)
}

/// The sync status read from the status quadlet.
pub open spec fn sync_status_of(quad: u32) -> Ff802ExtSyncStatus {
    Ff802ExtSyncStatus {
        word_clk: has_flag(quad, STATUS_SYNC_WORD_CLK_MASK),
        spdif: has_flag(quad, STATUS_SYNC_SPDIF_MASK),
        adat_b: has_flag(quad, STATUS_SYNC_ADAT_B_MASK),
        adat_a: has_flag(quad, STATUS_SYNC_ADAT_A_MASK),
    }
}

/// Write the sync status into the status quadlet.
pub fn serialize_external_sync_status(status: &Ff802ExtSyncStatus, quad: &mut u32)
    ensures
        *final(quad) == sync_status_quad(*old(quad), *status),
{
    *quad = set_flag(*quad, STATUS_SYNC_WORD_CLK_MASK, status.word_clk);
    *quad = set_flag(*quad, STATUS_SYNC_SPDIF_MASK, status.spdif);
    *quad = set_flag(*quad, STATUS_SYNC_ADAT_B_MASK, status.adat_b);
    *quad = set_flag(*quad, STATUS_SYNC_ADAT_A_MASK, status.adat_a);
}

/// Read the sync status from the status quadlet.
pub fn deserialize_external_sync_status(status: &mut Ff802ExtSyncStatus, quad: &u32)
    ensures
        *final(status) == sync_status_of(*quad),
{
    status.word_clk = check_flag(*quad, STATUS_SYNC_WORD_CLK_MASK);
    status.spdif = check_flag(*quad, STATUS_SYNC_SPDIF_MASK);
    status.adat_b = check_flag(*quad, STATUS_SYNC_ADAT_B_MASK);
    status.adat_a = check_flag(*quad, STATUS_SYNC_ADAT_A_MASK);
}

/// Rate status of 802.
#[derive(Debug, Clone, Copy, PartialEq, Eq, Structural)]
pub struct Ff802ExtRateStatus {
    pub word_clk: Option<ClkNominalRate>,
    pub spdif: Option<ClkNominalRate>,
    pub adat_b: Option<ClkNominalRate>,
    pub adat_a: Option<ClkNominalRate>,
}

impl Default for Ff802ExtRateStatus {
    fn default() -> (r: Self)
        ensures
            r == (Ff802ExtRateStatus { word_clk: None, spdif: None, adat_b: None, adat_a: None }),
    {
        Ff802ExtRateStatus { word_clk: None, spdif: None, adat_b: None, adat_a: None }
    }
}

/// The status quadlet after adding the code of an optional rate at the shift, and the lock flag
/// when a rate is detected.
pub open spec fn external_rate_quad(
    quad: u32,
    rate: Option<ClkNominalRate>,
    shift: u32,
    lock_flag: u32,
) -> u32 {
    or_flag(quad | (opt_clock_rate_code(rate) << shift), lock_flag, rate is Some)
}

fn serialize_external_rate(
    rate: &Option<ClkNominalRate>,
    quad: &mut u32,
    shift: usize,
    lock_flag: u32,
)
    requires
        shift <= 28,
    ensures
        *final(quad) == external_rate_quad(*old(quad), *rate, shift as u32, lock_flag),
{
    serialize_clock_rate_optional(rate, quad, shift);
    // NOTE: The lock flag should stand.
    *quad = crate::bits::add_flag(*quad, lock_flag, rate.is_some());
}

/// The masks of the rates of external clocks.
pub open spec fn rate_masks() -> u32 {
    STATUS_WORD_CLK_RATE_MASK | STATUS_SPDIF_RATE_MASK | STATUS_ADAT_A_RATE_MASK
        | STATUS_ADAT_B_RATE_MASK
}

/// The status quadlet after writing the rates of external clocks into it. The lock flag of each
/// detected rate stands as well.
pub open spec fn rate_status_quad(quad: u32, s: Ff802ExtRateStatus) -> u32 {
    let q = put_field(quad, rate_masks(), 0);
    let q = external_rate_quad(q, s.word_clk, 12, STATUS_LOCK_WORD_CLK_MASK);
    let q = external_rate_quad(q, s.spdif, 16, STATUS_LOCK_SPDIF_MASK);
    let q = external_rate_quad(q, s.adat_a, 20, STATUS_LOCK_ADAT_A_MASK);
    external_rate_quad(q, s.adat_b, 24, STATUS_LOCK_ADAT_B_MASK)
}

// NOTE: The call of function touches lock flags in the quad argument when detecting corresponding rate.
/// Write the rates of external clocks into the status quadlet.
pub fn serialize_external_rate_status(status: &Ff802ExtRateStatus, quad: &mut u32)
    ensures
        *final(quad) == rate_status_quad(*old(quad), *status),
{
    *quad = set_field(
        *quad,
        STATUS_WORD_CLK_RATE_MASK | STATUS_SPDIF_RATE_MASK | STATUS_ADAT_A_RATE_MASK
            | STATUS_ADAT_B_RATE_MASK,
        0,
    );
    serialize_external_rate(&status.word_clk, quad, 12, STATUS_LOCK_WORD_CLK_MASK);
    serialize_external_rate(&status.spdif, quad, 16, STATUS_LOCK_SPDIF_MASK);
    serialize_external_rate(&status.adat_a, quad, 20, STATUS_LOCK_ADAT_A_MASK);
    serialize_external_rate(&status.adat_b, quad, 24, STATUS_LOCK_ADAT_B_MASK);
}

/// Whether the source is synchronized or locked according to the flags.
pub open spec fn detected(quad: u32, sync_flag: u32, lock_flag: u32) -> bool {
    quad & (sync_flag | lock_flag) > 0
}

/// The optional rate at the shift, if the source is synchronized or locked.
pub open spec fn detected_rate(quad: u32, sync_flag: u32, lock_flag: u32, shift: u32) -> Option<
    ClkNominalRate,
> {
    if detected(quad, sync_flag, lock_flag) {
        opt_clock_rate_of_code(rate_field(quad, shift))
    } else {
        None
    }
}

/// Whether the code of rate at the shift can be read when the source is detected.
pub open spec fn detected_rate_valid(quad: u32, sync_flag: u32, lock_flag: u32, shift: u32) -> bool {
    detected(quad, sync_flag, lock_flag) ==> (rate_field(quad, shift) == STATUS_CLK_RATE_NONE
        || clock_rate_code_valid(rate_field(quad, shift)))
}

/// Whether the rates in the status quadlet can be read.
pub open spec fn rate_status_valid(quad: u32) -> bool {
    detected(quad, STATUS_SYNC_WORD_CLK_MASK, STATUS_LOCK_WORD_CLK_MASK) ==> {
        &&& detected_rate_valid(quad, STATUS_SYNC_WORD_CLK_MASK, STATUS_LOCK_WORD_CLK_MASK, 12)
        &&& detected_rate_valid(quad, STATUS_SYNC_SPDIF_MASK, STATUS_LOCK_SPDIF_MASK, 16)
        &&& detected_rate_valid(quad, STATUS_SYNC_ADAT_B_MASK, STATUS_LOCK_ADAT_B_MASK, 24)
        &&& detected_rate_valid(quad, STATUS_SYNC_ADAT_A_MASK, STATUS_LOCK_ADAT_A_MASK, 20)
    }
}

/// The rates read from the status quadlet. Unless the word clock is synchronized or locked,
/// nothing is read and the rates stay as they are.
pub open spec fn rate_status_of(quad: u32, s: Ff802ExtRateStatus) -> Ff802ExtRateStatus {
    if detected(quad, STATUS_SYNC_WORD_CLK_MASK, STATUS_LOCK_WORD_CLK_MASK) {
        Ff802ExtRateStatus {
            word_clk: detected_rate(quad, STATUS_SYNC_WORD_CLK_MASK, STATUS_LOCK_WORD_CLK_MASK, 12),
            spdif: detected_rate(quad, STATUS_SYNC_SPDIF_MASK, STATUS_LOCK_SPDIF_MASK, 16),
            adat_b: detected_rate(quad, STATUS_SYNC_ADAT_B_MASK, STATUS_LOCK_ADAT_B_MASK, 24),
            adat_a: detected_rate(quad, STATUS_SYNC_ADAT_A_MASK, STATUS_LOCK_ADAT_A_MASK, 20),
        }
    } else {
        s
    }
}

fn deserialize_detected_rate(
    rate: &mut Option<ClkNominalRate>,
    quad: &u32,
    sync_flag: u32,
    lock_flag: u32,
    shift: usize,
)
    requires
        shift <= 28,
        detected_rate_valid(*quad, sync_flag, lock_flag, shift as u32),
    ensures
        *final(rate) == detected_rate(*quad, sync_flag, lock_flag, shift as u32),
{
    if *quad & (sync_flag | lock_flag) > 0 {
        deserialize_clock_rate_optional(rate, quad, shift);
    } else {
        *rate = None;
    }
}

/// Read the rates from the status quadlet.
pub fn deserialize_external_rate_status(status: &mut Ff802ExtRateStatus, quad: &u32)
    requires
        rate_status_valid(*quad),
    ensures
        *final(status) == rate_status_of(*quad, *old(status)),
{
    if *quad & (STATUS_SYNC_WORD_CLK_MASK | STATUS_LOCK_WORD_CLK_MASK) > 0 {
        deserialize_detected_rate(
            &mut status.word_clk,
            quad,
            STATUS_SYNC_WORD_CLK_MASK,
            STATUS_LOCK_WORD_CLK_MASK,
            12,
        );
        deserialize_detected_rate(
            &mut status.spdif,
            quad,
            STATUS_SYNC_SPDIF_MASK,
            STATUS_LOCK_SPDIF_MASK,
            16,
        );
        deserialize_detected_rate(
            &mut status.adat_b,
            quad,
            STATUS_SYNC_ADAT_B_MASK,
            STATUS_LOCK_ADAT_B_MASK,
            24,
        );
        deserialize_detected_rate(
            &mut status.adat_a,
            quad,
            STATUS_SYNC_ADAT_A_MASK,
            STATUS_LOCK_ADAT_A_MASK,
            20,
        );
    }
}

/// Status of 802.
#[derive(Debug, Clone, Copy, PartialEq, Eq, Structural)]
pub struct Ff802Status {
    pub ext_lock: Ff802ExtLockStatus,
    pub ext_sync: Ff802ExtSyncStatus,
    pub ext_rate: Ff802ExtRateStatus,
    pub active_clk_src: Ff802ClkSrc,
    pub active_clk_rate: ClkNominalRate,
}

impl Default for Ff802Status {
    fn default() -> (r: Self)
        ensures
            r == (Ff802Status {
                ext_lock: Ff802ExtLockStatus {
                    word_clk: false,
                    spdif: false,
                    adat_b: false,
                    adat_a: false,
                },
                ext_sync: Ff802ExtSyncStatus {
                    word_clk: false,
                    spdif: false,
                    adat_b: false,
                    adat_a: false,
                },
                ext_rate: Ff802ExtRateStatus {
                    word_clk: None,
                    spdif: None,
                    adat_b: None,
                    adat_a: None,
                },
                active_clk_src: Ff802ClkSrc::Internal,
                active_clk_rate: ClkNominalRate::R44100,
            }),
    {
        Ff802Status {
            ext_lock: Ff802ExtLockStatus::default(),
            ext_sync: Ff802ExtSyncStatus::default(),
            ext_rate: Ff802ExtRateStatus::default(),
            active_clk_src: Ff802ClkSrc::default(),
            active_clk_rate: ClkNominalRate::default(),
        }
    }
}

/// The flag of active source of sampling clock in status register.
pub open spec fn active_clk_src_flag(src: Ff802ClkSrc) -> u32 {
    match src {
        Ff802ClkSrc::Internal => STATUS_ACTIVE_CLK_SRC_INTERNAL_FLAG,
        Ff802ClkSrc::AdatA => STATUS_ACTIVE_CLK_SRC_ADAT_A_FLAG,
        Ff802ClkSrc::AdatB => STATUS_ACTIVE_CLK_SRC_ADAT_B_FLAG,
        Ff802ClkSrc::AesEbu => STATUS_ACTIVE_CLK_SRC_AESEBU_FLAG,
        Ff802ClkSrc::WordClk => STATUS_ACTIVE_CLK_SRC_WORD_CLK_FLAG,
    }
}

/// Each value of `Ff802ClkSrc` has its own value in `active_clk_src_flag`, as the device knows it.
pub proof fn lemma_active_clk_src_flag_table()
    ensures
        active_clk_src_flag(Ff802ClkSrc::Internal) == STATUS_ACTIVE_CLK_SRC_INTERNAL_FLAG,
        active_clk_src_flag(Ff802ClkSrc::AdatA) == STATUS_ACTIVE_CLK_SRC_ADAT_A_FLAG,
        active_clk_src_flag(Ff802ClkSrc::AdatB) == STATUS_ACTIVE_CLK_SRC_ADAT_B_FLAG,
        active_clk_src_flag(Ff802ClkSrc::AesEbu) == STATUS_ACTIVE_CLK_SRC_AESEBU_FLAG,
        active_clk_src_flag(Ff802ClkSrc::WordClk) == STATUS_ACTIVE_CLK_SRC_WORD_CLK_FLAG,
{
}

/// Whether the bits of active source of sampling clock stand for one of the sources.
pub open spec fn active_clk_src_valid(quad: u32) -> bool {
    let v = quad & STATUS_ACTIVE_CLK_SRC_MASK;
    v == STATUS_ACTIVE_CLK_SRC_INTERNAL_FLAG || v == STATUS_ACTIVE_CLK_SRC_ADAT_A_FLAG || v
        == STATUS_ACTIVE_CLK_SRC_ADAT_B_FLAG || v == STATUS_ACTIVE_CLK_SRC_AESEBU_FLAG || v
        == STATUS_ACTIVE_CLK_SRC_WORD_CLK_FLAG
}

/// The active source of sampling clock which the bits stand for.
pub open spec fn active_clk_src_of(quad: u32) -> Ff802ClkSrc {
    let v = quad & STATUS_ACTIVE_CLK_SRC_MASK;
    if v == STATUS_ACTIVE_CLK_SRC_INTERNAL_FLAG {
        Ff802ClkSrc::Internal
    } else if v == STATUS_ACTIVE_CLK_SRC_ADAT_A_FLAG {
        Ff802ClkSrc::AdatA
    } else if v == STATUS_ACTIVE_CLK_SRC_ADAT_B_FLAG {
        Ff802ClkSrc::AdatB
    } else if v == STATUS_ACTIVE_CLK_SRC_AESEBU_FLAG {
        Ff802ClkSrc::AesEbu
    } else {
        Ff802ClkSrc::WordClk
    }
}

/// The status quadlet.
pub open spec fn status_quad(s: Ff802Status) -> u32 {
    let q = lock_status_quad(0, s.ext_lock);
    let q = sync_status_quad(q, s.ext_sync);
    let q = rate_status_quad(q, s.ext_rate);
    let q = put_field(q, STATUS_ACTIVE_CLK_RATE_MASK, 0) | (clock_rate_code(s.active_clk_rate)
        << 28u32);
    put_field(q, STATUS_ACTIVE_CLK_SRC_MASK, active_clk_src_flag(s.active_clk_src))
}

/// Whether the status quadlet can be read.
pub open spec fn status_valid(quad: u32) -> bool {
    &&& rate_status_valid(quad)
    &&& clock_rate_code_valid(rate_field(quad, 28))
    &&& active_clk_src_valid(quad)
}

/// The status read from the quadlet; the rates of external clocks may stay as they are.
pub open spec fn status_of(quad: u32, s: Ff802Status) -> Ff802Status {
    Ff802Status {
        ext_lock: lock_status_of(quad),
        ext_sync: sync_status_of(quad),
        ext_rate: rate_status_of(quad, s.ext_rate),
        active_clk_src: active_clk_src_of(quad),
        active_clk_rate: clock_rate_of_code(rate_field(quad, 28)),
    }
}

impl RmeFfOffsetParamsSerialize<Ff802Status> for Ff802Protocol {
    open spec fn offsets_of(params: Ff802Status) -> Seq<u8> {
        le_quads_bytes(seq![status_quad(params)])
    }

    fn serialize_offsets(status: &Ff802Status) -> (raw: Vec<u8>) {
        let mut quad: u32 = 0;
        serialize_external_lock_status(&status.ext_lock, &mut quad);
        serialize_external_sync_status(&status.ext_sync, &mut quad);
        serialize_external_rate_status(&status.ext_rate, &mut quad);
        quad = set_field(quad, STATUS_ACTIVE_CLK_RATE_MASK, 0);
        serialize_clock_rate(&status.active_clk_rate, &mut quad, 28);
        let val = match status.active_clk_src {
            Ff802ClkSrc::Internal => STATUS_ACTIVE_CLK_SRC_INTERNAL_FLAG,
            Ff802ClkSrc::AdatA => STATUS_ACTIVE_CLK_SRC_ADAT_A_FLAG,
            Ff802ClkSrc::AdatB => STATUS_ACTIVE_CLK_SRC_ADAT_B_FLAG,
            Ff802ClkSrc::AesEbu => STATUS_ACTIVE_CLK_SRC_AESEBU_FLAG,
            Ff802ClkSrc::WordClk => STATUS_ACTIVE_CLK_SRC_WORD_CLK_FLAG,
        };
        quad = set_field(quad, STATUS_ACTIVE_CLK_SRC_MASK, val);
        let quads = [quad];
        proof {
            assert(quads@ =~= seq![status_quad(*status)]);
        }
        quads_to_le_bytes(&quads)
    }
}

impl RmeFfOffsetParamsDeserialize<Ff802Status> for Ff802Protocol {
    open spec fn offsets_acceptable(params: Ff802Status, raw: Seq<u8>) -> bool {
        raw.len() >= LATTER_STATUS_SIZE && status_valid(le_quad_at(raw, 0))
    }

    open spec fn deserialized(params: Ff802Status, raw: Seq<u8>, after: Ff802Status) -> bool {
        after == status_of(le_quad_at(raw, 0), params)
    }

    fn deserialize_offsets(status: &mut Ff802Status, raw: &[u8]) {
        let quad = read_le_quad(raw, 0);
        deserialize_external_lock_status(&mut status.ext_lock, &quad);
        deserialize_external_sync_status(&mut status.ext_sync, &quad);
        deserialize_external_rate_status(&mut status.ext_rate, &quad);
        deserialize_clock_rate(&mut status.active_clk_rate, &quad, 28);
        let v = quad & STATUS_ACTIVE_CLK_SRC_MASK;
        status.active_clk_src = if v == STATUS_ACTIVE_CLK_SRC_INTERNAL_FLAG {
            Ff802ClkSrc::Internal
        } else if v == STATUS_ACTIVE_CLK_SRC_ADAT_A_FLAG {
            Ff802ClkSrc::AdatA
        } else if v == STATUS_ACTIVE_CLK_SRC_ADAT_B_FLAG {
            Ff802ClkSrc::AdatB
        } else if v == STATUS_ACTIVE_CLK_SRC_AESEBU_FLAG {
            Ff802ClkSrc::AesEbu
        } else {
            Ff802ClkSrc::WordClk
        };
    }
}

impl RmeFfLatterSpecification for Ff802Protocol {
    const LINE_INPUT_COUNT: usize = 8;
    const MIC_INPUT_COUNT: usize = 4;
    const SPDIF_INPUT_COUNT: usize = 2;
    const ADAT_INPUT_COUNT: usize = 16;
    const STREAM_INPUT_COUNT: usize = 30;
    const FX_RETURN_COUNT: usize = 2;

    const LINE_OUTPUT_COUNT: usize = 8;
    const HP_OUTPUT_COUNT: usize = 4;
    const SPDIF_OUTPUT_COUNT: usize = 2;
    const ADAT_OUTPUT_COUNT: usize = 16;

    proof fn lemma_port_counts() {
    }
}

/// The flags of the fields lie within their masks.
proof fn lemma_ff802_flags() by (bit_vector)
    ensures
        CFG_CLK_SRC_ADAT_B_FLAG & !CFG_CLK_SRC_MASK == 0,
        CFG_CLK_SRC_ADAT_A_FLAG & !CFG_CLK_SRC_MASK == 0,
        CFG_CLK_SRC_AESEBU_FLAG & !CFG_CLK_SRC_MASK == 0,
        CFG_CLK_SRC_WORD_CLK_FLAG & !CFG_CLK_SRC_MASK == 0,
        CFG_CLK_SRC_INTERNAL_FLAG & !CFG_CLK_SRC_MASK == 0,
        STATUS_ACTIVE_CLK_SRC_INTERNAL_FLAG & !STATUS_ACTIVE_CLK_SRC_MASK == 0,
        STATUS_ACTIVE_CLK_SRC_ADAT_A_FLAG & !STATUS_ACTIVE_CLK_SRC_MASK == 0,
        STATUS_ACTIVE_CLK_SRC_ADAT_B_FLAG & !STATUS_ACTIVE_CLK_SRC_MASK == 0,
        STATUS_ACTIVE_CLK_SRC_AESEBU_FLAG & !STATUS_ACTIVE_CLK_SRC_MASK == 0,
        STATUS_ACTIVE_CLK_SRC_WORD_CLK_FLAG & !STATUS_ACTIVE_CLK_SRC_MASK == 0,
        STATUS_LOCK_WORD_CLK_MASK & STATUS_LOCK_SPDIF_MASK == 0,
        STATUS_LOCK_WORD_CLK_MASK & STATUS_LOCK_ADAT_B_MASK == 0,
        STATUS_LOCK_WORD_CLK_MASK & STATUS_LOCK_ADAT_A_MASK == 0,
        STATUS_LOCK_SPDIF_MASK & STATUS_LOCK_ADAT_B_MASK == 0,
        STATUS_LOCK_SPDIF_MASK & STATUS_LOCK_ADAT_A_MASK == 0,
        STATUS_LOCK_ADAT_B_MASK & STATUS_LOCK_ADAT_A_MASK == 0,
        STATUS_SYNC_WORD_CLK_MASK & STATUS_SYNC_SPDIF_MASK == 0,
        STATUS_SYNC_WORD_CLK_MASK & STATUS_SYNC_ADAT_B_MASK == 0,
        STATUS_SYNC_WORD_CLK_MASK & STATUS_SYNC_ADAT_A_MASK == 0,
        STATUS_SYNC_SPDIF_MASK & STATUS_SYNC_ADAT_B_MASK == 0,
        STATUS_SYNC_SPDIF_MASK & STATUS_SYNC_ADAT_A_MASK == 0,
        STATUS_SYNC_ADAT_B_MASK & STATUS_SYNC_ADAT_A_MASK == 0,
{
}

/// The source of sampling clock is read back from any quadlet it was written into.
pub proof fn lemma_clock_source_roundtrip(quad: u32, src: Ff802ClkSrc)
    ensures
        clk_src_valid(put_field(quad, CFG_CLK_SRC_MASK, clk_src_flag(src))),
        clk_src_of(put_field(quad, CFG_CLK_SRC_MASK, clk_src_flag(src))) == src,
{
    lemma_ff802_flags();
    crate::bits::lemma_put_field_bits(quad, CFG_CLK_SRC_MASK, clk_src_flag(src));
}

/// The bits of the fields of configuration are read back.
proof fn lemma_config_bits(m: u32, k: u32, f0: u32, f1: u32, f2: u32, f3: u32, f4: u32) by (bit_vector)
    requires
        m & !CFG_MIDI_TX_LOW_OFFSET_MASK == 0,
        k & !CFG_CLK_SRC_MASK == 0,
        f0 & !CFG_AESEBU_INPUT_FROM_OPT_IFACE_MASK == 0,
        f1 & !CFG_AESEBU_OUTPUT_TO_OPT_IFACE_MASK == 0,
        f2 & !CFG_DSP_EFFECT_ON_INPUT_MASK == 0,
        f3 & !CFG_AESEBU_OUT_PRO_MASK == 0,
        f4 & !CFG_WORD_OUT_SINGLE_MASK == 0,
    ensures
        ({
            let q = put_field(0, CFG_MIDI_TX_LOW_OFFSET_MASK, m);
            let q = put_field(q, CFG_CLK_SRC_MASK, k);
            let q = put_field(q, CFG_AESEBU_INPUT_FROM_OPT_IFACE_MASK, f0);
            let q = put_field(q, CFG_AESEBU_OUTPUT_TO_OPT_IFACE_MASK, f1);
            let q = put_field(q, CFG_DSP_EFFECT_ON_INPUT_MASK, f2);
            let q = put_field(q, CFG_AESEBU_OUT_PRO_MASK, f3);
            let q = put_field(q, CFG_WORD_OUT_SINGLE_MASK, f4);
            &&& q & CFG_MIDI_TX_LOW_OFFSET_MASK == m
            &&& q & CFG_CLK_SRC_MASK == k
            &&& q & CFG_AESEBU_INPUT_FROM_OPT_IFACE_MASK == f0
            &&& q & CFG_AESEBU_OUTPUT_TO_OPT_IFACE_MASK == f1
            &&& q & CFG_DSP_EFFECT_ON_INPUT_MASK == f2
            &&& q & CFG_AESEBU_OUT_PRO_MASK == f3
            &&& q & CFG_WORD_OUT_SINGLE_MASK == f4
        }),
{
}

/// The configuration is read back from its quadlet.
pub proof fn lemma_config_roundtrip(c: Ff802Config)
    ensures
        config_valid(config_quad(c)),
        config_of(config_quad(c)) == c,
{
    crate::fireface::latter::lemma_latter_cfg_flags();
    lemma_ff802_flags();
    let b0 = c.spdif_in_iface == Ff802SpdifIface::Optical;
    let b1 = c.opt_out_signal == OpticalOutputSignal::Spdif;
    let b3 = c.spdif_out_format == SpdifFormat::Professional;
    lemma_flag_bits(b0, CFG_AESEBU_INPUT_FROM_OPT_IFACE_MASK);
    lemma_flag_bits(b1, CFG_AESEBU_OUTPUT_TO_OPT_IFACE_MASK);
    lemma_flag_bits(c.effect_on_inputs, CFG_DSP_EFFECT_ON_INPUT_MASK);
    lemma_flag_bits(b3, CFG_AESEBU_OUT_PRO_MASK);
    lemma_flag_bits(c.word_out_single, CFG_WORD_OUT_SINGLE_MASK);
    lemma_config_bits(
        midi_tx_low_offset_flag(c.midi_tx_low_offset),
        clk_src_flag(c.clk_src),
        flag_bits(b0, CFG_AESEBU_INPUT_FROM_OPT_IFACE_MASK),
        flag_bits(b1, CFG_AESEBU_OUTPUT_TO_OPT_IFACE_MASK),
        flag_bits(c.effect_on_inputs, CFG_DSP_EFFECT_ON_INPUT_MASK),
        flag_bits(b3, CFG_AESEBU_OUT_PRO_MASK),
        flag_bits(c.word_out_single, CFG_WORD_OUT_SINGLE_MASK),
    );
}

/// The bits of the fields of status are read back.
proof fn lemma_status_bits(
    quad: u32,
    lw: u32,
    ls: u32,
    lb: u32,
    la: u32,
    sw: u32,
    ss: u32,
    sb: u32,
    sa: u32,
    cw: u32,
    cs: u32,
    ca: u32,
    cb: u32,
    fw: u32,
    fs: u32,
    fa: u32,
    fb: u32,
    ar: u32,
    src: u32,
) by (bit_vector)
    requires
        lw & !STATUS_LOCK_WORD_CLK_MASK == 0,
        ls & !STATUS_LOCK_SPDIF_MASK == 0,
        lb & !STATUS_LOCK_ADAT_B_MASK == 0,
        la & !STATUS_LOCK_ADAT_A_MASK == 0,
        sw & !STATUS_SYNC_WORD_CLK_MASK == 0,
        ss & !STATUS_SYNC_SPDIF_MASK == 0,
        sb & !STATUS_SYNC_ADAT_B_MASK == 0,
        sa & !STATUS_SYNC_ADAT_A_MASK == 0,
        cw < 16,
        cs < 16,
        ca < 16,
        cb < 16,
        fw & !STATUS_LOCK_WORD_CLK_MASK == 0,
        fs & !STATUS_LOCK_SPDIF_MASK == 0,
        fa & !STATUS_LOCK_ADAT_A_MASK == 0,
        fb & !STATUS_LOCK_ADAT_B_MASK == 0,
        ar < 16,
        src & !STATUS_ACTIVE_CLK_SRC_MASK == 0,
        quad == ({
            let q = put_field(0, STATUS_LOCK_WORD_CLK_MASK, lw);
            let q = put_field(q, STATUS_LOCK_SPDIF_MASK, ls);
            let q = put_field(q, STATUS_LOCK_ADAT_B_MASK, lb);
            let q = put_field(q, STATUS_LOCK_ADAT_A_MASK, la);
            let q = put_field(q, STATUS_SYNC_WORD_CLK_MASK, sw);
            let q = put_field(q, STATUS_SYNC_SPDIF_MASK, ss);
            let q = put_field(q, STATUS_SYNC_ADAT_B_MASK, sb);
            let q = put_field(q, STATUS_SYNC_ADAT_A_MASK, sa);
            let q = put_field(q, rate_masks(), 0);
            let q = or_bits(q | (cw << 12u32), fw);
            let q = or_bits(q | (cs << 16u32), fs);
            let q = or_bits(q | (ca << 20u32), fa);
            let q = or_bits(q | (cb << 24u32), fb);
            let q = put_field(q, STATUS_ACTIVE_CLK_RATE_MASK, 0) | (ar << 28u32);
            let q = put_field(q, STATUS_ACTIVE_CLK_SRC_MASK, src);
            q
        }),
    ensures
        (quad & STATUS_LOCK_WORD_CLK_MASK > 0) == (lw > 0 || fw > 0),
        (quad & STATUS_LOCK_SPDIF_MASK > 0) == (ls > 0 || fs > 0),
        (quad & STATUS_LOCK_ADAT_B_MASK > 0) == (lb > 0 || fb > 0),
        (quad & STATUS_LOCK_ADAT_A_MASK > 0) == (la > 0 || fa > 0),
        (quad & STATUS_SYNC_WORD_CLK_MASK > 0) == (sw > 0),
        (quad & STATUS_SYNC_SPDIF_MASK > 0) == (ss > 0),
        (quad & STATUS_SYNC_ADAT_B_MASK > 0) == (sb > 0),
        (quad & STATUS_SYNC_ADAT_A_MASK > 0) == (sa > 0),
        (quad & (STATUS_SYNC_WORD_CLK_MASK | STATUS_LOCK_WORD_CLK_MASK) > 0) == (sw > 0 || lw > 0 || fw > 0),
        (quad & (STATUS_SYNC_SPDIF_MASK | STATUS_LOCK_SPDIF_MASK) > 0) == (ss > 0 || ls > 0 || fs > 0),
        (quad & (STATUS_SYNC_ADAT_B_MASK | STATUS_LOCK_ADAT_B_MASK) > 0) == (sb > 0 || lb > 0 || fb > 0),
        (quad & (STATUS_SYNC_ADAT_A_MASK | STATUS_LOCK_ADAT_A_MASK) > 0) == (sa > 0 || la > 0 || fa > 0),
        (quad >> 12u32) & 0xfu32 == cw,
        (quad >> 16u32) & 0xfu32 == cs,
        (quad >> 20u32) & 0xfu32 == ca,
        (quad >> 24u32) & 0xfu32 == cb,
        (quad >> 28u32) & 0xfu32 == ar,
        quad & STATUS_ACTIVE_CLK_SRC_MASK == src,
{
}

/// Whether a rate is detected only for a locked source, as the hardware reports.
pub open spec fn rates_locked(s: Ff802Status) -> bool {
    &&& s.ext_rate.word_clk is Some ==> s.ext_lock.word_clk
    &&& s.ext_rate.spdif is Some ==> s.ext_lock.spdif
    &&& s.ext_rate.adat_b is Some ==> s.ext_lock.adat_b
    &&& s.ext_rate.adat_a is Some ==> s.ext_lock.adat_a
}

/// The fields of status are read back from the bits of its quadlet.
#[verifier::rlimit(50)]
pub proof fn lemma_status_facts(s: Ff802Status)
    ensures
        has_flag(status_quad(s), STATUS_LOCK_WORD_CLK_MASK) == (s.ext_lock.word_clk || s.ext_rate.word_clk is Some),
        has_flag(status_quad(s), STATUS_LOCK_SPDIF_MASK) == (s.ext_lock.spdif || s.ext_rate.spdif is Some),
        has_flag(status_quad(s), STATUS_LOCK_ADAT_B_MASK) == (s.ext_lock.adat_b || s.ext_rate.adat_b is Some),
        has_flag(status_quad(s), STATUS_LOCK_ADAT_A_MASK) == (s.ext_lock.adat_a || s.ext_rate.adat_a is Some),
        has_flag(status_quad(s), STATUS_SYNC_WORD_CLK_MASK) == s.ext_sync.word_clk,
        has_flag(status_quad(s), STATUS_SYNC_SPDIF_MASK) == s.ext_sync.spdif,
        has_flag(status_quad(s), STATUS_SYNC_ADAT_B_MASK) == s.ext_sync.adat_b,
        has_flag(status_quad(s), STATUS_SYNC_ADAT_A_MASK) == s.ext_sync.adat_a,
        detected(status_quad(s), STATUS_SYNC_WORD_CLK_MASK, STATUS_LOCK_WORD_CLK_MASK) == (s.ext_sync.word_clk || s.ext_lock.word_clk || s.ext_rate.word_clk is Some),
        detected(status_quad(s), STATUS_SYNC_SPDIF_MASK, STATUS_LOCK_SPDIF_MASK) == (s.ext_sync.spdif || s.ext_lock.spdif || s.ext_rate.spdif is Some),
        detected(status_quad(s), STATUS_SYNC_ADAT_B_MASK, STATUS_LOCK_ADAT_B_MASK) == (s.ext_sync.adat_b || s.ext_lock.adat_b || s.ext_rate.adat_b is Some),
        detected(status_quad(s), STATUS_SYNC_ADAT_A_MASK, STATUS_LOCK_ADAT_A_MASK) == (s.ext_sync.adat_a || s.ext_lock.adat_a || s.ext_rate.adat_a is Some),
        rate_field(status_quad(s), 12) == opt_clock_rate_code(s.ext_rate.word_clk),
        rate_field(status_quad(s), 16) == opt_clock_rate_code(s.ext_rate.spdif),
        rate_field(status_quad(s), 20) == opt_clock_rate_code(s.ext_rate.adat_a),
        rate_field(status_quad(s), 24) == opt_clock_rate_code(s.ext_rate.adat_b),
        rate_field(status_quad(s), 28) == clock_rate_code(s.active_clk_rate),
        status_quad(s) & STATUS_ACTIVE_CLK_SRC_MASK == active_clk_src_flag(s.active_clk_src),
{
    lemma_ff802_flags();
    lemma_flag_bits(s.ext_lock.word_clk, STATUS_LOCK_WORD_CLK_MASK);
    lemma_flag_bits(s.ext_lock.spdif, STATUS_LOCK_SPDIF_MASK);
    lemma_flag_bits(s.ext_lock.adat_b, STATUS_LOCK_ADAT_B_MASK);
    lemma_flag_bits(s.ext_lock.adat_a, STATUS_LOCK_ADAT_A_MASK);
    lemma_flag_bits(s.ext_sync.word_clk, STATUS_SYNC_WORD_CLK_MASK);
    lemma_flag_bits(s.ext_sync.spdif, STATUS_SYNC_SPDIF_MASK);
    lemma_flag_bits(s.ext_sync.adat_b, STATUS_SYNC_ADAT_B_MASK);
    lemma_flag_bits(s.ext_sync.adat_a, STATUS_SYNC_ADAT_A_MASK);
    lemma_flag_bits(s.ext_rate.word_clk is Some, STATUS_LOCK_WORD_CLK_MASK);
    lemma_flag_bits(s.ext_rate.spdif is Some, STATUS_LOCK_SPDIF_MASK);
    lemma_flag_bits(s.ext_rate.adat_a is Some, STATUS_LOCK_ADAT_A_MASK);
    lemma_flag_bits(s.ext_rate.adat_b is Some, STATUS_LOCK_ADAT_B_MASK);
    lemma_opt_clock_rate_code(s.ext_rate.word_clk);
    lemma_opt_clock_rate_code(s.ext_rate.spdif);
    lemma_opt_clock_rate_code(s.ext_rate.adat_a);
    lemma_opt_clock_rate_code(s.ext_rate.adat_b);
    lemma_clock_rate_code(s.active_clk_rate);
    lemma_status_bits(
        status_quad(s),
        flag_bits(s.ext_lock.word_clk, STATUS_LOCK_WORD_CLK_MASK),
        flag_bits(s.ext_lock.spdif, STATUS_LOCK_SPDIF_MASK),
        flag_bits(s.ext_lock.adat_b, STATUS_LOCK_ADAT_B_MASK),
        flag_bits(s.ext_lock.adat_a, STATUS_LOCK_ADAT_A_MASK),
        flag_bits(s.ext_sync.word_clk, STATUS_SYNC_WORD_CLK_MASK),
        flag_bits(s.ext_sync.spdif, STATUS_SYNC_SPDIF_MASK),
        flag_bits(s.ext_sync.adat_b, STATUS_SYNC_ADAT_B_MASK),
        flag_bits(s.ext_sync.adat_a, STATUS_SYNC_ADAT_A_MASK),
        opt_clock_rate_code(s.ext_rate.word_clk),
        opt_clock_rate_code(s.ext_rate.spdif),
        opt_clock_rate_code(s.ext_rate.adat_a),
        opt_clock_rate_code(s.ext_rate.adat_b),
        flag_bits(s.ext_rate.word_clk is Some, STATUS_LOCK_WORD_CLK_MASK),
        flag_bits(s.ext_rate.spdif is Some, STATUS_LOCK_SPDIF_MASK),
        flag_bits(s.ext_rate.adat_a is Some, STATUS_LOCK_ADAT_A_MASK),
        flag_bits(s.ext_rate.adat_b is Some, STATUS_LOCK_ADAT_B_MASK),
        clock_rate_code(s.active_clk_rate),
        active_clk_src_flag(s.active_clk_src),
    );
}

/// The status is read back from its quadlet, when each detected rate comes with its lock, and
/// the word clock is synchronized or locked; otherwise the rates are not read and stay as they
/// were.
pub proof fn lemma_status_roundtrip(s: Ff802Status, prev: Ff802Status)
    requires
        rates_locked(s),
    ensures
        status_valid(status_quad(s)),
        (s.ext_lock.word_clk || s.ext_sync.word_clk) ==> status_of(status_quad(s), prev) == s,
        !(s.ext_lock.word_clk || s.ext_sync.word_clk) ==> status_of(status_quad(s), prev) == (
        Ff802Status { ext_rate: prev.ext_rate, ..s }),
{
    lemma_status_facts(s);
    lemma_ff802_flags();
    lemma_opt_clock_rate_code(s.ext_rate.word_clk);
    lemma_opt_clock_rate_code(s.ext_rate.spdif);
    lemma_opt_clock_rate_code(s.ext_rate.adat_a);
    lemma_opt_clock_rate_code(s.ext_rate.adat_b);
    lemma_clock_rate_code(s.active_clk_rate);
}

/// The lock status is read back from any quadlet it was written into.
pub proof fn lemma_lock_status_roundtrip(quad: u32, s: Ff802ExtLockStatus)
    ensures
        lock_status_of(lock_status_quad(quad, s)) == s,
{
    lemma_ff802_flags();
    lemma_flag_bits(s.word_clk, STATUS_LOCK_WORD_CLK_MASK);
    lemma_flag_bits(s.spdif, STATUS_LOCK_SPDIF_MASK);
    lemma_flag_bits(s.adat_b, STATUS_LOCK_ADAT_B_MASK);
    lemma_flag_bits(s.adat_a, STATUS_LOCK_ADAT_A_MASK);
    crate::bits::lemma_four_fields(
        quad,
        STATUS_LOCK_WORD_CLK_MASK,
        flag_bits(s.word_clk, STATUS_LOCK_WORD_CLK_MASK),
        STATUS_LOCK_SPDIF_MASK,
        flag_bits(s.spdif, STATUS_LOCK_SPDIF_MASK),
        STATUS_LOCK_ADAT_B_MASK,
        flag_bits(s.adat_b, STATUS_LOCK_ADAT_B_MASK),
        STATUS_LOCK_ADAT_A_MASK,
        flag_bits(s.adat_a, STATUS_LOCK_ADAT_A_MASK),
    );
}

/// The sync status is read back from any quadlet it was written into.
pub proof fn lemma_sync_status_roundtrip(quad: u32, s: Ff802ExtSyncStatus)
    ensures
        sync_status_of(sync_status_quad(quad, s)) == s,
{
    lemma_ff802_flags();
    lemma_flag_bits(s.word_clk, STATUS_SYNC_WORD_CLK_MASK);
    lemma_flag_bits(s.spdif, STATUS_SYNC_SPDIF_MASK);
    lemma_flag_bits(s.adat_b, STATUS_SYNC_ADAT_B_MASK);
    lemma_flag_bits(s.adat_a, STATUS_SYNC_ADAT_A_MASK);
    crate::bits::lemma_four_fields(
        quad,
        STATUS_SYNC_WORD_CLK_MASK,
        flag_bits(s.word_clk, STATUS_SYNC_WORD_CLK_MASK),
        STATUS_SYNC_SPDIF_MASK,
        flag_bits(s.spdif, STATUS_SYNC_SPDIF_MASK),
        STATUS_SYNC_ADAT_B_MASK,
        flag_bits(s.adat_b, STATUS_SYNC_ADAT_B_MASK),
        STATUS_SYNC_ADAT_A_MASK,
        flag_bits(s.adat_a, STATUS_SYNC_ADAT_A_MASK),
    );
}

} // verus!
