//! Protocol defined by RME GmbH for Fireface UCX.

use crate::bits::{
    add_flag, check_flag, flag_bits, has_flag, lemma_flag_bits, or_bits, or_flag, put_field, put_flag,
    set_field, set_flag,
};
use crate::codec::{le_quad_at, le_quads_bytes, quads_to_le_bytes, read_le_quad};
use crate::fireface::latter::{
    clock_rate_code, clock_rate_code_valid, clock_rate_of_code, deserialize_clock_rate,
    deserialize_clock_rate_optional, deserialize_midi_tx_low_offset, lemma_clock_rate_code,
    lemma_midi_tx_low_offset_roundtrip, lemma_opt_clock_rate_code, midi_tx_low_offset_flag,
    midi_tx_low_offset_of, midi_tx_low_offset_valid, opt_clock_rate_code, opt_clock_rate_of_code,
    rate_field, serialize_clock_rate, serialize_clock_rate_optional, serialize_midi_tx_low_offset,
    FfLatterMidiTxLowOffset, RmeFfLatterSpecification, CFG_MIDI_TX_LOW_OFFSET_MASK,
    LATTER_CONFIG_SIZE, LATTER_STATUS_SIZE, STATUS_CLK_RATE_NONE,
};
use crate::fireface::{
    ClkNominalRate, OpticalOutputSignal, RmeFfOffsetParamsDeserialize, RmeFfOffsetParamsSerialize,
    SpdifFormat,
};
use vstd::prelude::*;

verus! {

/// Unique protocol for UCX.
#[derive(Default, Debug)]
pub struct FfUcxProtocol;

// For configuration register (0x'ffff'0000'0014).
pub const CFG_CLK_SRC_MASK: u32 = 0x00000c00;
pub const CFG_CLK_SRC_WORD_CLK_FLAG: u32 = 0x00000c00;
pub const CFG_CLK_SRC_OPT_IFACE_FLAG: u32 = 0x00000800;
pub const CFG_CLK_SRC_COAX_IFACE_FLAG: u32 = 0x00000400;
pub const CFG_CLK_SRC_INTERNAL_FLAG: u32 = 0x00000000;
pub const CFG_SPDIF_OUT_TO_OPT_IFACE_MASK: u32 = 0x00000100;
pub const CFG_WORD_OUT_SINGLE_MASK: u32 = 0x00000010;
pub const CFG_DSP_EFFECT_ON_INPUT_MASK: u32 = 0x00000040;
pub const CFG_WORD_INPUT_TERMINATE_MASK: u32 = 0x00000008;
pub const CFG_SPDIF_OUT_PRO_MASK: u32 = 0x00000020;

/// Signal source of sampling clock.
#[derive(Debug, Clone, Copy, PartialEq, Eq, Structural)]
pub enum FfUcxClkSrc {
    Internal,
    Coax,
    Opt,
    WordClk,
}

impl Default for FfUcxClkSrc {
    fn default() -> (r: Self)
        ensures
            r == FfUcxClkSrc::Internal,
    {
        FfUcxClkSrc::Internal
    }
}

/// The flag of source of sampling clock in configuration register.
pub open spec fn clk_src_flag(src: FfUcxClkSrc) -> u32 {
    match src {
        FfUcxClkSrc::WordClk => CFG_CLK_SRC_WORD_CLK_FLAG,
        FfUcxClkSrc::Opt => CFG_CLK_SRC_OPT_IFACE_FLAG,
        FfUcxClkSrc::Coax => CFG_CLK_SRC_COAX_IFACE_FLAG,
        FfUcxClkSrc::Internal => CFG_CLK_SRC_INTERNAL_FLAG,
    }
}

/// Each value of `FfUcxClkSrc` has its own value in `clk_src_flag`, as the device knows it.
pub proof fn lemma_clk_src_flag_table()
    ensures
        clk_src_flag(FfUcxClkSrc::WordClk) == CFG_CLK_SRC_WORD_CLK_FLAG,
        clk_src_flag(FfUcxClkSrc::Opt) == CFG_CLK_SRC_OPT_IFACE_FLAG,
        clk_src_flag(FfUcxClkSrc::Coax) == CFG_CLK_SRC_COAX_IFACE_FLAG,
        clk_src_flag(FfUcxClkSrc::Internal) == CFG_CLK_SRC_INTERNAL_FLAG,
{
}

/// The source of sampling clock which the bits stand for; the two bits stand for one of the
/// sources whatever they are.
pub open spec fn clk_src_of(quad: u32) -> FfUcxClkSrc {
    let v = quad & CFG_CLK_SRC_MASK;
    if v == CFG_CLK_SRC_WORD_CLK_FLAG {
        FfUcxClkSrc::WordClk
    } else if v == CFG_CLK_SRC_OPT_IFACE_FLAG {
        FfUcxClkSrc::Opt
    } else if v == CFG_CLK_SRC_COAX_IFACE_FLAG {
        FfUcxClkSrc::Coax
    } else {
        FfUcxClkSrc::Internal
    }
}

/// Add the bits of source of sampling clock into the configuration quadlet; the bits there are
/// expected to be clear.
pub fn serialize_clock_source(src: &FfUcxClkSrc, quad: &mut u32)
    ensures
        *final(quad) == *old(quad) | clk_src_flag(*src),
{
    let flag = match src {
        FfUcxClkSrc::WordClk => CFG_CLK_SRC_WORD_CLK_FLAG,
        FfUcxClkSrc::Opt => CFG_CLK_SRC_OPT_IFACE_FLAG,
        FfUcxClkSrc::Coax => CFG_CLK_SRC_COAX_IFACE_FLAG,
        FfUcxClkSrc::Internal => CFG_CLK_SRC_INTERNAL_FLAG,
    };
    *quad = *quad | flag;
}

/// Read the source of sampling clock from the configuration quadlet.
pub fn deserialize_clock_source(src: &mut FfUcxClkSrc, quad: &u32)
    ensures
        *final(src) == clk_src_of(*quad),
{
    let v = *quad & CFG_CLK_SRC_MASK;
    *src = if v == CFG_CLK_SRC_WORD_CLK_FLAG {
        FfUcxClkSrc::WordClk
    } else if v == CFG_CLK_SRC_OPT_IFACE_FLAG {
        FfUcxClkSrc::Opt
    } else if v == CFG_CLK_SRC_COAX_IFACE_FLAG {
        FfUcxClkSrc::Coax
    } else {
        FfUcxClkSrc::Internal
    };
}

/// Configuration of UCX.
#[derive(Debug, Clone, Copy, PartialEq, Eq, Structural)]
pub struct FfUcxConfig {
    /// The low offset of destination address for MIDI messages.
    pub midi_tx_low_offset: FfLatterMidiTxLowOffset,
    /// The source of sampling clock.
    pub clk_src: FfUcxClkSrc,
    /// The type of signal to optical output interface.
    pub opt_out_signal: OpticalOutputSignal,
    /// Whether to fix speed to single even if at double/quadruple rate.
    pub word_out_single: bool,
    /// Whether to enable DSP effect on inputs.
    pub effect_on_inputs: bool,
    /// Whether to terminate word clock input.
    pub word_in_terminate: bool,
    /// For signal format of S/PDIF output.
    pub spdif_out_format: SpdifFormat,
}

impl Default for FfUcxConfig {
    fn default() -> (r: Self)
        ensures
            r == (FfUcxConfig {
                midi_tx_low_offset: FfLatterMidiTxLowOffset::A0000,
                clk_src: FfUcxClkSrc::Internal,
                opt_out_signal: OpticalOutputSignal::Adat,
                word_out_single: false,
                effect_on_inputs: false,
                word_in_terminate: false,
                spdif_out_format: SpdifFormat::Consumer,
            }),
    {
        FfUcxConfig {
            midi_tx_low_offset: FfLatterMidiTxLowOffset::default(),
            clk_src: FfUcxClkSrc::default(),
            opt_out_signal: OpticalOutputSignal::default(),
            word_out_single: false,
            effect_on_inputs: false,
            word_in_terminate: false,
            spdif_out_format: SpdifFormat::default(),
        }
    }
}

/// The configuration quadlet.
pub open spec fn config_quad(c: FfUcxConfig) -> u32 {
    let q = put_field(0, CFG_MIDI_TX_LOW_OFFSET_MASK, midi_tx_low_offset_flag(c.midi_tx_low_offset));
    let q = q | clk_src_flag(c.clk_src);
    let q = or_flag(q, CFG_SPDIF_OUT_TO_OPT_IFACE_MASK, c.opt_out_signal == OpticalOutputSignal::Spdif);
    let q = or_flag(q, CFG_WORD_OUT_SINGLE_MASK, c.word_out_single);
    let q = or_flag(q, CFG_DSP_EFFECT_ON_INPUT_MASK, c.effect_on_inputs);
    let q = or_flag(q, CFG_WORD_INPUT_TERMINATE_MASK, c.word_in_terminate);
    or_flag(q, CFG_SPDIF_OUT_PRO_MASK, c.spdif_out_format == SpdifFormat::Professional)
}

/// Whether the configuration quadlet can be read.
pub open spec fn config_valid(quad: u32) -> bool {
    midi_tx_low_offset_valid(quad)
}

/// The configuration read from the quadlet.
pub open spec fn config_of(quad: u32) -> FfUcxConfig {
    FfUcxConfig {
        midi_tx_low_offset: midi_tx_low_offset_of(quad),
        clk_src: clk_src_of(quad),
        opt_out_signal: if has_flag(quad, CFG_SPDIF_OUT_TO_OPT_IFACE_MASK) {
            OpticalOutputSignal::Spdif
        } else {
            OpticalOutputSignal::Adat
        },
        word_out_single: has_flag(quad, CFG_WORD_OUT_SINGLE_MASK),
        effect_on_inputs: has_flag(quad, CFG_DSP_EFFECT_ON_INPUT_MASK),
        word_in_terminate: has_flag(quad, CFG_WORD_INPUT_TERMINATE_MASK),
        spdif_out_format: if has_flag(quad, CFG_SPDIF_OUT_PRO_MASK) {
            SpdifFormat::Professional
        } else {
            SpdifFormat::Consumer
        },
    }
}

impl RmeFfOffsetParamsSerialize<FfUcxConfig> for FfUcxProtocol {
    open spec fn offsets_of(params: FfUcxConfig) -> Seq<u8> {
        le_quads_bytes(seq![config_quad(params)])
    }

    fn serialize_offsets(state: &FfUcxConfig) -> (raw: Vec<u8>) {
        let mut quad: u32 = 0;
        serialize_midi_tx_low_offset(&state.midi_tx_low_offset, &mut quad);
        serialize_clock_source(&state.clk_src, &mut quad);
        quad = add_flag(
            quad,
            CFG_SPDIF_OUT_TO_OPT_IFACE_MASK,
            state.opt_out_signal == OpticalOutputSignal::Spdif,
        );
        quad = add_flag(quad, CFG_WORD_OUT_SINGLE_MASK, state.word_out_single);
        quad = add_flag(quad, CFG_DSP_EFFECT_ON_INPUT_MASK, state.effect_on_inputs);
        quad = add_flag(quad, CFG_WORD_INPUT_TERMINATE_MASK, state.word_in_terminate);
        quad = add_flag(
            quad,
            CFG_SPDIF_OUT_PRO_MASK,
            state.spdif_out_format == SpdifFormat::Professional,
        );
        let quads = [quad];
        proof {
            assert(quads@ =~= seq![config_quad(*state)]);
        }
        quads_to_le_bytes(&quads)
    }
}

impl RmeFfOffsetParamsDeserialize<FfUcxConfig> for FfUcxProtocol {
    open spec fn offsets_acceptable(params: FfUcxConfig, raw: Seq<u8>) -> bool {
        raw.len() >= LATTER_CONFIG_SIZE && config_valid(le_quad_at(raw, 0))
    }

    open spec fn deserialized(params: FfUcxConfig, raw: Seq<u8>, after: FfUcxConfig) -> bool {
        after == config_of(le_quad_at(raw, 0))
    }

    fn deserialize_offsets(state: &mut FfUcxConfig, raw: &[u8]) {
        let quad = read_le_quad(raw, 0);
        deserialize_midi_tx_low_offset(&mut state.midi_tx_low_offset, &quad);
        deserialize_clock_source(&mut state.clk_src, &quad);
        state.opt_out_signal = if check_flag(quad, CFG_SPDIF_OUT_TO_OPT_IFACE_MASK) {
            OpticalOutputSignal::Spdif
        } else {
            OpticalOutputSignal::Adat
        };
        state.word_out_single = check_flag(quad, CFG_WORD_OUT_SINGLE_MASK);
        state.effect_on_inputs = check_flag(quad, CFG_DSP_EFFECT_ON_INPUT_MASK);
        state.word_in_terminate = check_flag(quad, CFG_WORD_INPUT_TERMINATE_MASK);
        state.spdif_out_format = if check_flag(quad, CFG_SPDIF_OUT_PRO_MASK) {
            SpdifFormat::Professional
        } else {
            SpdifFormat::Consumer
        };
    }
}

// For status register (0x'ffff'0000'001c).
pub const STATUS_ACTIVE_CLK_RATE_MASK: u32 = 0x0f000000;
pub const STATUS_WORD_CLK_RATE_MASK: u32 = 0x00f00000;
pub const STATUS_OPT_IFACE_RATE_MASK: u32 = 0x000f0000;
pub const STATUS_COAX_IFACE_RATE_MASK: u32 = 0x0000f000;
pub const STATUS_ACTIVE_CLK_SRC_MASK: u32 = 0x00000e00;
pub const STATUS_ACTIVE_CLK_SRC_INTERNAL_FLAG: u32 = 0x00000e00;
pub const STATUS_ACTIVE_CLK_SRC_WORD_CLK_FLAG: u32 = 0x00000600;
pub const STATUS_ACTIVE_CLK_SRC_OPT_IFACE_FLAG: u32 = 0x00000400;
pub const STATUS_ACTIVE_CLK_SRC_COAX_IFACE_FLAG: u32 = 0x00000200;
pub const STATUS_OPT_OUT_IFACE_FOR_ADAT: u32 = 0x00000100;
pub const STATUS_SYNC_MASK: u32 = 0x00000070;
pub const STATUS_SYNC_WORD_CLK_MASK: u32 = 0x00000040;
pub const STATUS_SYNC_OPT_IFACE_MASK: u32 = 0x00000020;
pub const STATUS_SYNC_COAX_IFACE_MASK: u32 = 0x00000010;
pub const STATUS_LOCK_MASK: u32 = 0x00000007;
pub const STATUS_LOCK_WORD_CLK_MASK: u32 = 0x00000004;
pub const STATUS_LOCK_OPT_IFACE_MASK: u32 = 0x00000002;
pub const STATUS_LOCK_COAX_IFACE_MASK: u32 = 0x00000001;
/// Lock status of UCX.
#[derive(Debug, Clone, Copy, PartialEq, Eq, Structural)]
pub struct FfUcxExtLockStatus {
    pub word_clk: bool,
    pub opt_iface: bool,
    pub coax_iface: bool,
}

impl Default for FfUcxExtLockStatus {
    fn default() -> (r: Self)
        ensures
            r == (FfUcxExtLockStatus { word_clk: false, opt_iface: false, coax_iface: false }),
    {
        FfUcxExtLockStatus { word_clk: false, opt_iface: false, coax_iface: false }
    }
}

/// The status quadlet after writing the lock status into it.
pub open spec fn lock_status_quad(quad: u32, s: FfUcxExtLockStatus) -> u32 {
    let q = put_flag(quad, STATUS_LOCK_WORD_CLK_MASK, s.word_clk);
    let q = put_flag(q, STATUS_LOCK_OPT_IFACE_MASK, s.opt_iface);
    put_flag(q, STATUS_LOCK_COAX_IFACE_MASK, s.coax_iface)
}

/// The lock status read from the status quadlet.
pub open spec fn lock_status_of(quad: u32) -> FfUcxExtLockStatus {
    FfUcxExtLockStatus {
        word_clk: has_flag(quad, STATUS_LOCK_WORD_CLK_MASK),
        opt_iface: has_flag(quad, STATUS_LOCK_OPT_IFACE_MASK),
        coax_iface: has_flag(quad, STATUS_LOCK_COAX_IFACE_MASK),
    }
}

/// Write the lock status into the status quadlet.
pub fn serialize_external_lock_status(status: &FfUcxExtLockStatus, quad: &mut u32)
    ensures
        *final(quad) == lock_status_quad(*old(quad), *status),
{
    *quad = set_flag(*quad, STATUS_LOCK_WORD_CLK_MASK, status.word_clk);
    *quad = set_flag(*quad, STATUS_LOCK_OPT_IFACE_MASK, status.opt_iface);
    *quad = set_flag(*quad, STATUS_LOCK_COAX_IFACE_MASK, status.coax_iface);
}

/// Read the lock status from the status quadlet.
pub fn deserialize_external_lock_status(status: &mut FfUcxExtLockStatus, quad: &u32)
    ensures
        *final(status) == lock_status_of(*quad),
{
    status.word_clk = check_flag(*quad, STATUS_LOCK_WORD_CLK_MASK);
    status.opt_iface = check_flag(*quad, STATUS_LOCK_OPT_IFACE_MASK);
    status.coax_iface = check_flag(*quad, STATUS_LOCK_COAX_IFACE_MASK);
}

/// The lock status is read back from any quadlet it was written into.
pub proof fn lemma_lock_status_roundtrip(quad: u32, s: FfUcxExtLockStatus)
    ensures
        lock_status_of(lock_status_quad(quad, s)) == s,
{
    lemma_ucx_flags();
    lemma_flag_bits(s.word_clk, STATUS_LOCK_WORD_CLK_MASK);
    lemma_flag_bits(s.opt_iface, STATUS_LOCK_OPT_IFACE_MASK);
    lemma_flag_bits(s.coax_iface, STATUS_LOCK_COAX_IFACE_MASK);
    crate::bits::lemma_three_fields(
        quad,
        STATUS_LOCK_WORD_CLK_MASK,
        flag_bits(s.word_clk, STATUS_LOCK_WORD_CLK_MASK),
        STATUS_LOCK_OPT_IFACE_MASK,
        flag_bits(s.opt_iface, STATUS_LOCK_OPT_IFACE_MASK),
        STATUS_LOCK_COAX_IFACE_MASK,
        flag_bits(s.coax_iface, STATUS_LOCK_COAX_IFACE_MASK),
    );
}

/// Sync status of UCX.
#[derive(Debug, Clone, Copy, PartialEq, Eq, Structural)]
pub struct FfUcxExtSyncStatus {
    pub word_clk: bool,
    pub opt_iface: bool,
    pub coax_iface: bool,
}

impl Default for FfUcxExtSyncStatus {
    fn default() -> (r: Self)
        ensures
            r == (FfUcxExtSyncStatus { word_clk: false, opt_iface: false, coax_iface: false }),
    {
        FfUcxExtSyncStatus { word_clk: false, opt_iface: false, coax_iface: false }
    }
}

/// The status quadlet after writing the sync status into it.
pub open spec fn sync_status_quad(quad: u32, s: FfUcxExtSyncStatus) -> u32 {
    let q = put_flag(quad, STATUS_SYNC_WORD_CLK_MASK, s.word_clk);
    let q = put_flag(q, STATUS_SYNC_OPT_IFACE_MASK, s.opt_iface);
    put_flag(q, STATUS_SYNC_COAX_IFACE_MASK, s.coax_iface)
}

/// The sync status read from the status quadlet.
pub open spec fn sync_status_of(quad: u32) -> FfUcxExtSyncStatus {
    FfUcxExtSyncStatus {
        word_clk: has_flag(quad, STATUS_SYNC_WORD_CLK_MASK),
        opt_iface: has_flag(quad, STATUS_SYNC_OPT_IFACE_MASK),
        coax_iface: has_flag(quad, STATUS_SYNC_COAX_IFACE_MASK),
    }
}

/// Write the sync status into the status quadlet.
pub fn serialize_external_sync_status(status: &FfUcxExtSyncStatus, quad: &mut u32)
    ensures
        *final(quad) == sync_status_quad(*old(quad), *status),
{
    *quad = set_flag(*quad, STATUS_SYNC_WORD_CLK_MASK, status.word_clk);
    *quad = set_flag(*quad, STATUS_SYNC_OPT_IFACE_MASK, status.opt_iface);
    *quad = set_flag(*quad, STATUS_SYNC_COAX_IFACE_MASK, status.coax_iface);
}

/// Read the sync status from the status quadlet.
pub fn deserialize_external_sync_status(status: &mut FfUcxExtSyncStatus, quad: &u32)
    ensures
        *final(status) == sync_status_of(*quad),
{
    status.word_clk = check_flag(*quad, STATUS_SYNC_WORD_CLK_MASK);
    status.opt_iface = check_flag(*quad, STATUS_SYNC_OPT_IFACE_MASK);
    status.coax_iface = check_flag(*quad, STATUS_SYNC_COAX_IFACE_MASK);
}

/// The sync status is read back from any quadlet it was written into.
pub proof fn lemma_sync_status_roundtrip(quad: u32, s: FfUcxExtSyncStatus)
    ensures
        sync_status_of(sync_status_quad(quad, s)) == s,
{
    lemma_ucx_flags();
    lemma_flag_bits(s.word_clk, STATUS_SYNC_WORD_CLK_MASK);
    lemma_flag_bits(s.opt_iface, STATUS_SYNC_OPT_IFACE_MASK);
    lemma_flag_bits(s.coax_iface, STATUS_SYNC_COAX_IFACE_MASK);
    crate::bits::lemma_three_fields(
        quad,
        STATUS_SYNC_WORD_CLK_MASK,
        flag_bits(s.word_clk, STATUS_SYNC_WORD_CLK_MASK),
        STATUS_SYNC_OPT_IFACE_MASK,
        flag_bits(s.opt_iface, STATUS_SYNC_OPT_IFACE_MASK),
        STATUS_SYNC_COAX_IFACE_MASK,
        flag_bits(s.coax_iface, STATUS_SYNC_COAX_IFACE_MASK),
    );
}

/// Rate status of UCX.
#[derive(Debug, Clone, Copy, PartialEq, Eq, Structural)]
pub struct FfUcxExtRateStatus {
    pub word_clk: Option<ClkNominalRate>,
    pub opt_iface: Option<ClkNominalRate>,
    pub coax_iface: Option<ClkNominalRate>,
}

impl Default for FfUcxExtRateStatus {
    fn default() -> (r: Self)
        ensures
            r == (FfUcxExtRateStatus { word_clk: None, opt_iface: None, coax_iface: None }),
    {
        FfUcxExtRateStatus { word_clk: None, opt_iface: None, coax_iface: None }
    }
}

/// The status quadlet after adding the code of an optional rate at the shift, and the lock flag
/// when a rate is detected.
pub open spec fn external_rate_quad(
    quad: u32,
    rate: Option<ClkNominalRate>,
    shift: u32,
    lock_flag: u32,
) -> u32 {
    or_flag(quad | (opt_clock_rate_code(rate) << shift), lock_flag, rate is Some)
}

fn serialize_external_rate(
    rate: &Option<ClkNominalRate>,
    quad: &mut u32,
    shift: usize,
    lock_flag: u32,
)
    requires
        shift <= 28,
    ensures
        *final(quad) == external_rate_quad(*old(quad), *rate, shift as u32, lock_flag),
{
    serialize_clock_rate_optional(rate, quad, shift);
    // NOTE: The lock flag should stand.
    *quad = add_flag(*quad, lock_flag, rate.is_some());
}

/// The masks of the rates of external clocks.
pub open spec fn rate_masks() -> u32 {
    STATUS_WORD_CLK_RATE_MASK | STATUS_OPT_IFACE_RATE_MASK | STATUS_COAX_IFACE_RATE_MASK
}

/// The status quadlet after writing the rates of external clocks into it. The lock flag of each
/// detected rate stands as well.
pub open spec fn rate_status_quad(quad: u32, s: FfUcxExtRateStatus) -> u32 {
    let q = put_field(quad, rate_masks(), 0);
    let q = external_rate_quad(q, s.word_clk, 20, STATUS_LOCK_WORD_CLK_MASK);
    let q = external_rate_quad(q, s.opt_iface, 16, STATUS_LOCK_OPT_IFACE_MASK);
    external_rate_quad(q, s.coax_iface, 12, STATUS_LOCK_COAX_IFACE_MASK)
}

// NOTE: The call of function touches lock flags in the quad argument when detecting corresponding rate.
/// Write the rates of external clocks into the status quadlet.
pub fn serialize_external_rate_status(status: &FfUcxExtRateStatus, quad: &mut u32)
    ensures
        *final(quad) == rate_status_quad(*old(quad), *status),
{
    *quad = set_field(
        *quad,
        STATUS_WORD_CLK_RATE_MASK | STATUS_OPT_IFACE_RATE_MASK | STATUS_COAX_IFACE_RATE_MASK,
        0,
    );
    serialize_external_rate(&status.word_clk, quad, 20, STATUS_LOCK_WORD_CLK_MASK);
    serialize_external_rate(&status.opt_iface, quad, 16, STATUS_LOCK_OPT_IFACE_MASK);
    serialize_external_rate(&status.coax_iface, quad, 12, STATUS_LOCK_COAX_IFACE_MASK);
}

/// Whether the source is synchronized or locked according to the flags.
pub open spec fn detected(quad: u32, sync_flag: u32, lock_flag: u32) -> bool {
    quad & (sync_flag | lock_flag) > 0
}

/// The optional rate at the shift, if the source is synchronized or locked.
pub open spec fn detected_rate(quad: u32, sync_flag: u32, lock_flag: u32, shift: u32) -> Option<
    ClkNominalRate,
> {
    if detected(quad, sync_flag, lock_flag) {
        opt_clock_rate_of_code(rate_field(quad, shift))
    } else {
        None
    }
}

/// Whether the code of rate at the shift can be read when the source is detected.
pub open spec fn detected_rate_valid(quad: u32, sync_flag: u32, lock_flag: u32, shift: u32) -> bool {
    detected(quad, sync_flag, lock_flag) ==> (rate_field(quad, shift) == STATUS_CLK_RATE_NONE
        || clock_rate_code_valid(rate_field(quad, shift)))
}

/// Whether the rates in the status quadlet can be read.
pub open spec fn rate_status_valid(quad: u32) -> bool {
    &&& detected_rate_valid(quad, STATUS_SYNC_WORD_CLK_MASK, STATUS_LOCK_WORD_CLK_MASK, 20)
    &&& detected_rate_valid(quad, STATUS_SYNC_OPT_IFACE_MASK, STATUS_LOCK_OPT_IFACE_MASK, 16)
    &&& detected_rate_valid(quad, STATUS_SYNC_COAX_IFACE_MASK, STATUS_LOCK_COAX_IFACE_MASK, 12)
}

/// The rates read from the status quadlet.
pub open spec fn rate_status_of(quad: u32) -> FfUcxExtRateStatus {
    FfUcxExtRateStatus {
        word_clk: detected_rate(quad, STATUS_SYNC_WORD_CLK_MASK, STATUS_LOCK_WORD_CLK_MASK, 20),
        opt_iface: detected_rate(quad, STATUS_SYNC_OPT_IFACE_MASK, STATUS_LOCK_OPT_IFACE_MASK, 16),
        coax_iface: detected_rate(quad, STATUS_SYNC_COAX_IFACE_MASK, STATUS_LOCK_COAX_IFACE_MASK, 12),
    }
}

fn deserialize_detected_rate(
    rate: &mut Option<ClkNominalRate>,
    quad: &u32,
    sync_flag: u32,
    lock_flag: u32,
    shift: usize,
)
    requires
        shift <= 28,
        detected_rate_valid(*quad, sync_flag, lock_flag, shift as u32),
    ensures
        *final(rate) == detected_rate(*quad, sync_flag, lock_flag, shift as u32),
{
    if *quad & (sync_flag | lock_flag) > 0 {
        deserialize_clock_rate_optional(rate, quad, shift);
    } else {
        *rate = None;
    }
}

/// Read the rates from the status quadlet.
pub fn deserialize_external_rate_status(status: &mut FfUcxExtRateStatus, quad: &u32)
    requires
        rate_status_valid(*quad),
    ensures
        *final(status) == rate_status_of(*quad),
{
    deserialize_detected_rate(
        &mut status.word_clk,
        quad,
        STATUS_SYNC_WORD_CLK_MASK,
        STATUS_LOCK_WORD_CLK_MASK,
        20,
    );
    deserialize_detected_rate(
        &mut status.opt_iface,
        quad,
        STATUS_SYNC_OPT_IFACE_MASK,
        STATUS_LOCK_OPT_IFACE_MASK,
        16,
    );
    deserialize_detected_rate(
        &mut status.coax_iface,
        quad,
        STATUS_SYNC_COAX_IFACE_MASK,
        STATUS_LOCK_COAX_IFACE_MASK,
        12,
    );
}

/// Status of UCX.
#[derive(Debug, Clone, Copy, PartialEq, Eq, Structural)]
pub struct FfUcxStatus {
    pub ext_lock: FfUcxExtLockStatus,
    pub ext_sync: FfUcxExtSyncStatus,
    pub ext_rate: FfUcxExtRateStatus,
    pub opt_out_signal: OpticalOutputSignal,
    pub active_clk_src: FfUcxClkSrc,
    pub active_clk_rate: ClkNominalRate,
}

impl Default for FfUcxStatus {
    fn default() -> (r: Self)
        ensures
            r == (FfUcxStatus {
                ext_lock: FfUcxExtLockStatus { word_clk: false, opt_iface: false, coax_iface: false },
                ext_sync: FfUcxExtSyncStatus { word_clk: false, opt_iface: false, coax_iface: false },
                ext_rate: FfUcxExtRateStatus { word_clk: None, opt_iface: None, coax_iface: None },
                opt_out_signal: OpticalOutputSignal::Adat,
                active_clk_src: FfUcxClkSrc::Internal,
                active_clk_rate: ClkNominalRate::R44100,
            }),
    {
        FfUcxStatus {
            ext_lock: FfUcxExtLockStatus::default(),
            ext_sync: FfUcxExtSyncStatus::default(),
            ext_rate: FfUcxExtRateStatus::default(),
            opt_out_signal: OpticalOutputSignal::default(),
            active_clk_src: FfUcxClkSrc::default(),
            active_clk_rate: ClkNominalRate::default(),
        }
    }
}

/// The flag of active source of sampling clock in status register.
pub open spec fn active_clk_src_flag(src: FfUcxClkSrc) -> u32 {
    match src {
        FfUcxClkSrc::Internal => STATUS_ACTIVE_CLK_SRC_INTERNAL_FLAG,
        FfUcxClkSrc::Coax => STATUS_ACTIVE_CLK_SRC_COAX_IFACE_FLAG,
        FfUcxClkSrc::Opt => STATUS_ACTIVE_CLK_SRC_OPT_IFACE_FLAG,
        FfUcxClkSrc::WordClk => STATUS_ACTIVE_CLK_SRC_WORD_CLK_FLAG,
    }
}

/// Each value of `FfUcxClkSrc` has its own value in `active_clk_src_flag`, as the device knows it.
pub proof fn lemma_active_clk_src_flag_table()
    ensures
        active_clk_src_flag(FfUcxClkSrc::Internal) == STATUS_ACTIVE_CLK_SRC_INTERNAL_FLAG,
        active_clk_src_flag(FfUcxClkSrc::Coax) == STATUS_ACTIVE_CLK_SRC_COAX_IFACE_FLAG,
        active_clk_src_flag(FfUcxClkSrc::Opt) == STATUS_ACTIVE_CLK_SRC_OPT_IFACE_FLAG,
        active_clk_src_flag(FfUcxClkSrc::WordClk) == STATUS_ACTIVE_CLK_SRC_WORD_CLK_FLAG,
{
}

/// Whether the bits of active source of sampling clock stand for one of the sources.
pub open spec fn active_clk_src_valid(quad: u32) -> bool {
    let v = quad & STATUS_ACTIVE_CLK_SRC_MASK;
    v == STATUS_ACTIVE_CLK_SRC_INTERNAL_FLAG || v == STATUS_ACTIVE_CLK_SRC_COAX_IFACE_FLAG || v
        == STATUS_ACTIVE_CLK_SRC_OPT_IFACE_FLAG || v == STATUS_ACTIVE_CLK_SRC_WORD_CLK_FLAG
}

/// The active source of sampling clock which the bits stand for.
pub open spec fn active_clk_src_of(quad: u32) -> FfUcxClkSrc {
    let v = quad & STATUS_ACTIVE_CLK_SRC_MASK;
    if v == STATUS_ACTIVE_CLK_SRC_INTERNAL_FLAG {
        FfUcxClkSrc::Internal
    } else if v == STATUS_ACTIVE_CLK_SRC_COAX_IFACE_FLAG {
        FfUcxClkSrc::Coax
    } else if v == STATUS_ACTIVE_CLK_SRC_OPT_IFACE_FLAG {
        FfUcxClkSrc::Opt
    } else {
        FfUcxClkSrc::WordClk
    }
}

/// The status quadlet.
pub open spec fn status_quad(s: FfUcxStatus) -> u32 {
    let q = lock_status_quad(0, s.ext_lock);
    let q = sync_status_quad(q, s.ext_sync);
    let q = rate_status_quad(q, s.ext_rate);
    let q = put_flag(q, STATUS_OPT_OUT_IFACE_FOR_ADAT, s.opt_out_signal == OpticalOutputSignal::Adat);
    let q = q | (clock_rate_code(s.active_clk_rate) << 24u32);
    put_field(q, STATUS_ACTIVE_CLK_SRC_MASK, active_clk_src_flag(s.active_clk_src))
}

/// Whether the status quadlet can be read.
pub open spec fn status_valid(quad: u32) -> bool {
    &&& rate_status_valid(quad)
    &&& clock_rate_code_valid(rate_field(quad, 24))
    &&& active_clk_src_valid(quad)
}

/// The status read from the quadlet.
pub open spec fn status_of(quad: u32) -> FfUcxStatus {
    FfUcxStatus {
        ext_lock: lock_status_of(quad),
        ext_sync: sync_status_of(quad),
        ext_rate: rate_status_of(quad),
        opt_out_signal: if has_flag(quad, STATUS_OPT_OUT_IFACE_FOR_ADAT) {
            OpticalOutputSignal::Adat
        } else {
            OpticalOutputSignal::Spdif
        },
        active_clk_src: active_clk_src_of(quad),
        active_clk_rate: clock_rate_of_code(rate_field(quad, 24)),
    }
}

impl RmeFfOffsetParamsSerialize<FfUcxStatus> for FfUcxProtocol {
    open spec fn offsets_of(params: FfUcxStatus) -> Seq<u8> {
        le_quads_bytes(seq![status_quad(params)])
    }

    fn serialize_offsets(state: &FfUcxStatus) -> (raw: Vec<u8>) {
        let mut quad: u32 = 0;
        serialize_external_lock_status(&state.ext_lock, &mut quad);
        serialize_external_sync_status(&state.ext_sync, &mut quad);
        serialize_external_rate_status(&state.ext_rate, &mut quad);
        quad = set_flag(
            quad,
            STATUS_OPT_OUT_IFACE_FOR_ADAT,
            state.opt_out_signal == OpticalOutputSignal::Adat,
        );
        serialize_clock_rate(&state.active_clk_rate, &mut quad, 24);
        let val = match state.active_clk_src {
            FfUcxClkSrc::Internal => STATUS_ACTIVE_CLK_SRC_INTERNAL_FLAG,
            FfUcxClkSrc::Coax => STATUS_ACTIVE_CLK_SRC_COAX_IFACE_FLAG,
            FfUcxClkSrc::Opt => STATUS_ACTIVE_CLK_SRC_OPT_IFACE_FLAG,
            FfUcxClkSrc::WordClk => STATUS_ACTIVE_CLK_SRC_WORD_CLK_FLAG,
        };
        quad = set_field(quad, STATUS_ACTIVE_CLK_SRC_MASK, val);
        let quads = [quad];
        proof {
            assert(quads@ =~= seq![status_quad(*state)]);
        }
        quads_to_le_bytes(&quads)
    }
}

impl RmeFfOffsetParamsDeserialize<FfUcxStatus> for FfUcxProtocol {
    open spec fn offsets_acceptable(params: FfUcxStatus, raw: Seq<u8>) -> bool {
        raw.len() >= LATTER_STATUS_SIZE && status_valid(le_quad_at(raw, 0))
    }

    open spec fn deserialized(params: FfUcxStatus, raw: Seq<u8>, after: FfUcxStatus) -> bool {
        after == status_of(le_quad_at(raw, 0))
    }

    fn deserialize_offsets(state: &mut FfUcxStatus, raw: &[u8]) {
        let quad = read_le_quad(raw, 0);
        deserialize_external_lock_status(&mut state.ext_lock, &quad);
        deserialize_external_sync_status(&mut state.ext_sync, &quad);
        deserialize_external_rate_status(&mut state.ext_rate, &quad);
        state.opt_out_signal = if check_flag(quad, STATUS_OPT_OUT_IFACE_FOR_ADAT) {
            OpticalOutputSignal::Adat
        } else {
            OpticalOutputSignal::Spdif
        };
        deserialize_clock_rate(&mut state.active_clk_rate, &quad, 24);
        let v = quad & STATUS_ACTIVE_CLK_SRC_MASK;
        state.active_clk_src = if v == STATUS_ACTIVE_CLK_SRC_INTERNAL_FLAG {
            FfUcxClkSrc::Internal
        } else if v == STATUS_ACTIVE_CLK_SRC_COAX_IFACE_FLAG {
            FfUcxClkSrc::Coax
        } else if v == STATUS_ACTIVE_CLK_SRC_OPT_IFACE_FLAG {
            FfUcxClkSrc::Opt
        } else {
            FfUcxClkSrc::WordClk
        };
    }
}

impl RmeFfLatterSpecification for FfUcxProtocol {
    const LINE_INPUT_COUNT: usize = 6;
    const MIC_INPUT_COUNT: usize = 2;
    const SPDIF_INPUT_COUNT: usize = 2;
    const ADAT_INPUT_COUNT: usize = 8;
    const STREAM_INPUT_COUNT: usize = 18;
    const FX_RETURN_COUNT: usize = 2;

    const LINE_OUTPUT_COUNT: usize = 6;
    const HP_OUTPUT_COUNT: usize = 2;
    const SPDIF_OUTPUT_COUNT: usize = 2;
    const ADAT_OUTPUT_COUNT: usize = 8;

    proof fn lemma_port_counts() {
    }
}

/// The flags of the fields lie within their masks, and the masks of the flags of each kind of
/// status are disjoint.
proof fn lemma_ucx_flags() by (bit_vector)
    ensures
        CFG_CLK_SRC_WORD_CLK_FLAG & !CFG_CLK_SRC_MASK == 0,
        CFG_CLK_SRC_OPT_IFACE_FLAG & !CFG_CLK_SRC_MASK == 0,
        CFG_CLK_SRC_COAX_IFACE_FLAG & !CFG_CLK_SRC_MASK == 0,
        CFG_CLK_SRC_INTERNAL_FLAG & !CFG_CLK_SRC_MASK == 0,
        STATUS_ACTIVE_CLK_SRC_INTERNAL_FLAG & !STATUS_ACTIVE_CLK_SRC_MASK == 0,
        STATUS_ACTIVE_CLK_SRC_COAX_IFACE_FLAG & !STATUS_ACTIVE_CLK_SRC_MASK == 0,
        STATUS_ACTIVE_CLK_SRC_OPT_IFACE_FLAG & !STATUS_ACTIVE_CLK_SRC_MASK == 0,
        STATUS_ACTIVE_CLK_SRC_WORD_CLK_FLAG & !STATUS_ACTIVE_CLK_SRC_MASK == 0,
        STATUS_LOCK_WORD_CLK_MASK & STATUS_LOCK_OPT_IFACE_MASK == 0,
        STATUS_LOCK_WORD_CLK_MASK & STATUS_LOCK_COAX_IFACE_MASK == 0,
        STATUS_LOCK_OPT_IFACE_MASK & STATUS_LOCK_COAX_IFACE_MASK == 0,
        STATUS_SYNC_WORD_CLK_MASK & STATUS_SYNC_OPT_IFACE_MASK == 0,
        STATUS_SYNC_WORD_CLK_MASK & STATUS_SYNC_COAX_IFACE_MASK == 0,
        STATUS_SYNC_OPT_IFACE_MASK & STATUS_SYNC_COAX_IFACE_MASK == 0,
{
}

/// The bits of the fields of configuration are read back.
proof fn lemma_config_bits(quad: u32, m: u32, k: u32, f0: u32, f1: u32, f2: u32, f3: u32, f4: u32) by (bit_vector)
    requires
        m & !CFG_MIDI_TX_LOW_OFFSET_MASK == 0,
        k & !CFG_CLK_SRC_MASK == 0,
        f0 & !CFG_SPDIF_OUT_TO_OPT_IFACE_MASK == 0,
        f1 & !CFG_WORD_OUT_SINGLE_MASK == 0,
        f2 & !CFG_DSP_EFFECT_ON_INPUT_MASK == 0,
        f3 & !CFG_WORD_INPUT_TERMINATE_MASK == 0,
        f4 & !CFG_SPDIF_OUT_PRO_MASK == 0,
        quad == ((((((put_field(0, CFG_MIDI_TX_LOW_OFFSET_MASK, m) | k) | f0) | f1) | f2) | f3) | f4),
    ensures
        quad & CFG_MIDI_TX_LOW_OFFSET_MASK == m,
        quad & CFG_CLK_SRC_MASK == k,
        quad & CFG_SPDIF_OUT_TO_OPT_IFACE_MASK == f0,
        quad & CFG_WORD_OUT_SINGLE_MASK == f1,
        quad & CFG_DSP_EFFECT_ON_INPUT_MASK == f2,
        quad & CFG_WORD_INPUT_TERMINATE_MASK == f3,
        quad & CFG_SPDIF_OUT_PRO_MASK == f4,
{
}

/// The source of sampling clock is read back from the configuration quadlet it was added into,
/// when its bits were clear.
pub proof fn lemma_clock_source_roundtrip(quad: u32, src: FfUcxClkSrc)
    requires
        quad & CFG_CLK_SRC_MASK == 0,
    ensures
        clk_src_of(quad | clk_src_flag(src)) == src,
{
    lemma_ucx_flags();
    crate::bits::lemma_or_reads(quad, clk_src_flag(src), CFG_CLK_SRC_MASK);
}

/// The configuration is read back from its quadlet.
pub proof fn lemma_config_roundtrip(c: FfUcxConfig)
    ensures
        config_valid(config_quad(c)),
        config_of(config_quad(c)) == c,
{
    crate::fireface::latter::lemma_latter_cfg_flags();
    lemma_ucx_flags();
    let b0 = c.opt_out_signal == OpticalOutputSignal::Spdif;
    let b4 = c.spdif_out_format == SpdifFormat::Professional;
    lemma_flag_bits(b0, CFG_SPDIF_OUT_TO_OPT_IFACE_MASK);
    lemma_flag_bits(c.word_out_single, CFG_WORD_OUT_SINGLE_MASK);
    lemma_flag_bits(c.effect_on_inputs, CFG_DSP_EFFECT_ON_INPUT_MASK);
    lemma_flag_bits(c.word_in_terminate, CFG_WORD_INPUT_TERMINATE_MASK);
    lemma_flag_bits(b4, CFG_SPDIF_OUT_PRO_MASK);
    lemma_config_bits(
        config_quad(c),
        midi_tx_low_offset_flag(c.midi_tx_low_offset),
        clk_src_flag(c.clk_src),
        flag_bits(b0, CFG_SPDIF_OUT_TO_OPT_IFACE_MASK),
        flag_bits(c.word_out_single, CFG_WORD_OUT_SINGLE_MASK),
        flag_bits(c.effect_on_inputs, CFG_DSP_EFFECT_ON_INPUT_MASK),
        flag_bits(c.word_in_terminate, CFG_WORD_INPUT_TERMINATE_MASK),
        flag_bits(b4, CFG_SPDIF_OUT_PRO_MASK),
    );
}

/// The bits of the fields of status are read back.
proof fn lemma_status_bits(
    quad: u32,
    lw: u32,
    lo: u32,
    lc: u32,
    sw: u32,
    so: u32,
    sc: u32,
    cw: u32,
    co: u32,
    cc: u32,
    fw: u32,
    fo: u32,
    fc: u32,
    adat: u32,
    ar: u32,
    src: u32,
) by (bit_vector)
    requires
        lw & !STATUS_LOCK_WORD_CLK_MASK == 0,
        lo & !STATUS_LOCK_OPT_IFACE_MASK == 0,
        lc & !STATUS_LOCK_COAX_IFACE_MASK == 0,
        sw & !STATUS_SYNC_WORD_CLK_MASK == 0,
        so & !STATUS_SYNC_OPT_IFACE_MASK == 0,
        sc & !STATUS_SYNC_COAX_IFACE_MASK == 0,
        cw < 16,
        co < 16,
        cc < 16,
        fw & !STATUS_LOCK_WORD_CLK_MASK == 0,
        fo & !STATUS_LOCK_OPT_IFACE_MASK == 0,
        fc & !STATUS_LOCK_COAX_IFACE_MASK == 0,
        adat & !STATUS_OPT_OUT_IFACE_FOR_ADAT == 0,
        ar < 16,
        src & !STATUS_ACTIVE_CLK_SRC_MASK == 0,
        quad == ({
            let q = put_field(0, STATUS_LOCK_WORD_CLK_MASK, lw);
            let q = put_field(q, STATUS_LOCK_OPT_IFACE_MASK, lo);
            let q = put_field(q, STATUS_LOCK_COAX_IFACE_MASK, lc);
            let q = put_field(q, STATUS_SYNC_WORD_CLK_MASK, sw);
            let q = put_field(q, STATUS_SYNC_OPT_IFACE_MASK, so);
            let q = put_field(q, STATUS_SYNC_COAX_IFACE_MASK, sc);
            let q = put_field(q, rate_masks(), 0);
            let q = or_bits(q | (cw << 20u32), fw);
            let q = or_bits(q | (co << 16u32), fo);
            let q = or_bits(q | (cc << 12u32), fc);
            let q = put_field(q, STATUS_OPT_OUT_IFACE_FOR_ADAT, adat);
            let q = q | (ar << 24u32);
            put_field(q, STATUS_ACTIVE_CLK_SRC_MASK, src)
        }),
    ensures
        (quad & STATUS_LOCK_WORD_CLK_MASK > 0) == (lw > 0 || fw > 0),
        (quad & STATUS_LOCK_OPT_IFACE_MASK > 0) == (lo > 0 || fo > 0),
        (quad & STATUS_LOCK_COAX_IFACE_MASK > 0) == (lc > 0 || fc > 0),
        (quad & STATUS_SYNC_WORD_CLK_MASK > 0) == (sw > 0),
        (quad & STATUS_SYNC_OPT_IFACE_MASK > 0) == (so > 0),
        (quad & STATUS_SYNC_COAX_IFACE_MASK > 0) == (sc > 0),
        (quad & (STATUS_SYNC_WORD_CLK_MASK | STATUS_LOCK_WORD_CLK_MASK) > 0) == (sw > 0 || lw > 0 || fw > 0),
        (quad & (STATUS_SYNC_OPT_IFACE_MASK | STATUS_LOCK_OPT_IFACE_MASK) > 0) == (so > 0 || lo > 0 || fo > 0),
        (quad & (STATUS_SYNC_COAX_IFACE_MASK | STATUS_LOCK_COAX_IFACE_MASK) > 0) == (sc > 0 || lc > 0 || fc > 0),
        (quad >> 20u32) & 0xfu32 == cw,
        (quad >> 16u32) & 0xfu32 == co,
        (quad >> 12u32) & 0xfu32 == cc,
        (quad & STATUS_OPT_OUT_IFACE_FOR_ADAT > 0) == (adat > 0),
        (quad >> 24u32) & 0xfu32 == ar,
        quad & STATUS_ACTIVE_CLK_SRC_MASK == src,
{
}

/// Whether a rate is detected only for a locked source, as the hardware reports.
pub open spec fn rates_locked(s: FfUcxStatus) -> bool {
    &&& s.ext_rate.word_clk is Some ==> s.ext_lock.word_clk
    &&& s.ext_rate.opt_iface is Some ==> s.ext_lock.opt_iface
    &&& s.ext_rate.coax_iface is Some ==> s.ext_lock.coax_iface
}

/// The fields of status are read back from the bits of its quadlet.
#[verifier::rlimit(50)]
pub proof fn lemma_status_facts(s: FfUcxStatus)
    ensures
        has_flag(status_quad(s), STATUS_LOCK_WORD_CLK_MASK) == (s.ext_lock.word_clk || s.ext_rate.word_clk is Some),
        has_flag(status_quad(s), STATUS_LOCK_OPT_IFACE_MASK) == (s.ext_lock.opt_iface || s.ext_rate.opt_iface is Some),
        has_flag(status_quad(s), STATUS_LOCK_COAX_IFACE_MASK) == (s.ext_lock.coax_iface || s.ext_rate.coax_iface is Some),
        has_flag(status_quad(s), STATUS_SYNC_WORD_CLK_MASK) == s.ext_sync.word_clk,
        has_flag(status_quad(s), STATUS_SYNC_OPT_IFACE_MASK) == s.ext_sync.opt_iface,
        has_flag(status_quad(s), STATUS_SYNC_COAX_IFACE_MASK) == s.ext_sync.coax_iface,
        detected(status_quad(s), STATUS_SYNC_WORD_CLK_MASK, STATUS_LOCK_WORD_CLK_MASK) == (s.ext_sync.word_clk || s.ext_lock.word_clk || s.ext_rate.word_clk is Some),
        detected(status_quad(s), STATUS_SYNC_OPT_IFACE_MASK, STATUS_LOCK_OPT_IFACE_MASK) == (s.ext_sync.opt_iface || s.ext_lock.opt_iface || s.ext_rate.opt_iface is Some),
        detected(status_quad(s), STATUS_SYNC_COAX_IFACE_MASK, STATUS_LOCK_COAX_IFACE_MASK) == (s.ext_sync.coax_iface || s.ext_lock.coax_iface || s.ext_rate.coax_iface is Some),
        rate_field(status_quad(s), 20) == opt_clock_rate_code(s.ext_rate.word_clk),
        rate_field(status_quad(s), 16) == opt_clock_rate_code(s.ext_rate.opt_iface),
        rate_field(status_quad(s), 12) == opt_clock_rate_code(s.ext_rate.coax_iface),
        has_flag(status_quad(s), STATUS_OPT_OUT_IFACE_FOR_ADAT) == (s.opt_out_signal == OpticalOutputSignal::Adat),
        rate_field(status_quad(s), 24) == clock_rate_code(s.active_clk_rate),
        status_quad(s) & STATUS_ACTIVE_CLK_SRC_MASK == active_clk_src_flag(s.active_clk_src),
{
    lemma_ucx_flags();
    let adat = s.opt_out_signal == OpticalOutputSignal::Adat;
    lemma_flag_bits(s.ext_lock.word_clk, STATUS_LOCK_WORD_CLK_MASK);
    lemma_flag_bits(s.ext_lock.opt_iface, STATUS_LOCK_OPT_IFACE_MASK);
    lemma_flag_bits(s.ext_lock.coax_iface, STATUS_LOCK_COAX_IFACE_MASK);
    lemma_flag_bits(s.ext_sync.word_clk, STATUS_SYNC_WORD_CLK_MASK);
    lemma_flag_bits(s.ext_sync.opt_iface, STATUS_SYNC_OPT_IFACE_MASK);
    lemma_flag_bits(s.ext_sync.coax_iface, STATUS_SYNC_COAX_IFACE_MASK);
    lemma_flag_bits(s.ext_rate.word_clk is Some, STATUS_LOCK_WORD_CLK_MASK);
    lemma_flag_bits(s.ext_rate.opt_iface is Some, STATUS_LOCK_OPT_IFACE_MASK);
    lemma_flag_bits(s.ext_rate.coax_iface is Some, STATUS_LOCK_COAX_IFACE_MASK);
    lemma_flag_bits(adat, STATUS_OPT_OUT_IFACE_FOR_ADAT);
    lemma_opt_clock_rate_code(s.ext_rate.word_clk);
    lemma_opt_clock_rate_code(s.ext_rate.opt_iface);
    lemma_opt_clock_rate_code(s.ext_rate.coax_iface);
    lemma_clock_rate_code(s.active_clk_rate);
    lemma_status_bits(
        status_quad(s),
        flag_bits(s.ext_lock.word_clk, STATUS_LOCK_WORD_CLK_MASK),
        flag_bits(s.ext_lock.opt_iface, STATUS_LOCK_OPT_IFACE_MASK),
        flag_bits(s.ext_lock.coax_iface, STATUS_LOCK_COAX_IFACE_MASK),
        flag_bits(s.ext_sync.word_clk, STATUS_SYNC_WORD_CLK_MASK),
        flag_bits(s.ext_sync.opt_iface, STATUS_SYNC_OPT_IFACE_MASK),
        flag_bits(s.ext_sync.coax_iface, STATUS_SYNC_COAX_IFACE_MASK),
        opt_clock_rate_code(s.ext_rate.word_clk),
        opt_clock_rate_code(s.ext_rate.opt_iface),
        opt_clock_rate_code(s.ext_rate.coax_iface),
        flag_bits(s.ext_rate.word_clk is Some, STATUS_LOCK_WORD_CLK_MASK),
        flag_bits(s.ext_rate.opt_iface is Some, STATUS_LOCK_OPT_IFACE_MASK),
        flag_bits(s.ext_rate.coax_iface is Some, STATUS_LOCK_COAX_IFACE_MASK),
        flag_bits(adat, STATUS_OPT_OUT_IFACE_FOR_ADAT),
        clock_rate_code(s.active_clk_rate),
        active_clk_src_flag(s.active_clk_src),
    );
}

/// The status is read back from its quadlet, when each detected rate comes with its lock.
pub proof fn lemma_status_roundtrip(s: FfUcxStatus)
    requires
        rates_locked(s),
    ensures
        status_valid(status_quad(s)),
        status_of(status_quad(s)) == s,
{
    lemma_status_facts(s);
    lemma_ucx_flags();
    lemma_opt_clock_rate_code(s.ext_rate.word_clk);
    lemma_opt_clock_rate_code(s.ext_rate.opt_iface);
    lemma_opt_clock_rate_code(s.ext_rate.coax_iface);
    lemma_clock_rate_code(s.active_clk_rate);
}

} // verus!
