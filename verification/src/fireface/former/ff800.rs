//! Protocol defined by RME GmbH for Fireface 800.

use crate::bits::{
    add_flag, check_flag, flag_bits, has_flag, lemma_flag_bits, or_bits, or_flag, put_field,
    put_flag, set_field, set_flag,
};
use crate::codec::{le_quad_at, le_quads_bytes, lemma_le_quads_bytes, quads_to_le_bytes, read_le_quad};
use crate::fireface::former::{
    FormerLineInNominalLevel, FormerSpdifOutput, FORMER_CONFIG_SIZE, FORMER_STATUS_SIZE,
};
use crate::fireface::{
    ClkNominalRate, LineOutNominalLevel, OpticalOutputSignal, RmeFfOffsetParamsDeserialize,
    RmeFfOffsetParamsSerialize, SpdifFormat, SpdifIface, SpdifInput,
};
use vstd::prelude::*;

verus! {

/// The protocol implementation for Fireface 800.
#[derive(Default, Debug)]
pub struct Ff800Protocol;

/// The offset of mixer registers.
pub const MIXER_OFFSET: u64 = 0x000080080000;
/// The offset of output registers.
pub const OUTPUT_OFFSET: u64 = 0x000080081f80;
/// The offset of meter registers.
pub const METER_OFFSET: u64 = 0x000080100000;
/// The offset of status registers.
pub const STATUS_OFFSET: u64 = 0x0000801c0000;
/// The offset of configuration registers.
pub const CFG_OFFSET: u64 = 0x0000fc88f014;

/// Signal source of sampling clock.
#[derive(Debug, Copy, Clone, PartialEq, Eq, Structural)]
pub enum Ff800ClkSrc {
    Internal,
    WordClock,
    AdatA,
    AdatB,
    Spdif,
    Tco,
}

impl Default for Ff800ClkSrc {
    fn default() -> (r: Self)
        ensures
            r == Ff800ClkSrc::AdatA,
    {
        Ff800ClkSrc::AdatA
    }
}

// NOTE: for first quadlet of status quadlets.
pub const Q0_SYNC_WORD_CLOCK_MASK: u32 = 0x40000000;
pub const Q0_LOCK_WORD_CLOCK_MASK: u32 = 0x20000000;
pub const Q0_EXT_CLK_RATE_MASK: u32 = 0x1e000000;
pub const Q0_EXT_CLK_RATE_192000_FLAGS: u32 = 0x12000000;
pub const Q0_EXT_CLK_RATE_176400_FLAGS: u32 = 0x10000000;
pub const Q0_EXT_CLK_RATE_128000_FLAGS: u32 = 0x0c000000;
pub const Q0_EXT_CLK_RATE_96000_FLAGS: u32 = 0x0e000000;
pub const Q0_EXT_CLK_RATE_88200_FLAGS: u32 = 0x0a000000;
pub const Q0_EXT_CLK_RATE_64000_FLAGS: u32 = 0x08000000;
pub const Q0_EXT_CLK_RATE_48000_FLAGS: u32 = 0x06000000;
pub const Q0_EXT_CLK_RATE_44100_FLAGS: u32 = 0x04000000;
pub const Q0_EXT_CLK_RATE_32000_FLAGS: u32 = 0x02000000;
pub const Q0_ACTIVE_CLK_SRC_MASK: u32 = 0x01c00000;
pub const Q0_ACTIVE_CLK_SRC_INTERNAL_FLAGS: u32 = 0x01c00000;
pub const Q0_ACTIVE_CLK_SRC_TCO_FLAGS: u32 = 0x01800000;
pub const Q0_ACTIVE_CLK_SRC_WORD_CLK_FLAGS: u32 = 0x01000000;
pub const Q0_ACTIVE_CLK_SRC_SPDIF_FLAGS: u32 = 0x00c00000;
pub const Q0_ACTIVE_CLK_SRC_ADAT_B_FLAGS: u32 = 0x00400000;
pub const Q0_ACTIVE_CLK_SRC_ADAT_A_FLAGS: u32 = 0x00000000;
pub const Q0_SYNC_SPDIF_MASK: u32 = 0x00100000;
pub const Q0_LOCK_SPDIF_MASK: u32 = 0x00040000;
pub const Q0_SPDIF_RATE_MASK: u32 = 0x0003c000;
pub const Q0_SPDIF_RATE_192000_FLAGS: u32 = 0x00024000;
pub const Q0_SPDIF_RATE_176400_FLAGS: u32 = 0x00020000;
pub const Q0_SPDIF_RATE_128000_FLAGS: u32 = 0x0001c000;
pub const Q0_SPDIF_RATE_96000_FLAGS: u32 = 0x00018000;
pub const Q0_SPDIF_RATE_88200_FLAGS: u32 = 0x00014000;
pub const Q0_SPDIF_RATE_64000_FLAGS: u32 = 0x00010000;
pub const Q0_SPDIF_RATE_48000_FLAGS: u32 = 0x0000c000;
pub const Q0_SPDIF_RATE_44100_FLAGS: u32 = 0x00008000;
pub const Q0_SPDIF_RATE_32000_FLAGS: u32 = 0x00004000;
pub const Q0_LOCK_ADAT_B_MASK: u32 = 0x00002000;
pub const Q0_LOCK_ADAT_A_MASK: u32 = 0x00001000;
pub const Q0_SYNC_ADAT_B_MASK: u32 = 0x00000800;
pub const Q0_SYNC_ADAT_A_MASK: u32 = 0x00000400;

// NOTE: for second quadlet of status quadlets.
pub const Q1_SYNC_TCO_MASK: u32 = 0x00800000;
pub const Q1_LOCK_TCO_MASK: u32 = 0x00400000;
pub const Q1_WORD_OUT_SINGLE_MASK: u32 = 0x00002000;
pub const Q1_CONF_CLK_SRC_MASK: u32 = 0x00001c01;
pub const Q1_CONF_CLK_SRC_TCO_FLAGS: u32 = 0x00001800;
pub const Q1_CONF_CLK_SRC_WORD_CLK_FLAGS: u32 = 0x00001000;
pub const Q1_CONF_CLK_SRC_SPDIF_FLAGS: u32 = 0x00000c00;
pub const Q1_CONF_CLK_SRC_ADAT_B_FLAGS: u32 = 0x00000400;
pub const Q1_CONF_CLK_SRC_INTERNAL_FLAGS: u32 = 0x00000001;
pub const Q1_CONF_CLK_SRC_ADAT_A_FLAGS: u32 = 0x00000000;
pub const Q1_SPDIF_IN_IFACE_MASK: u32 = 0x00000200;
pub const Q1_OPT_OUT_SIGNAL_MASK: u32 = 0x00000100;
pub const Q1_SPDIF_OUT_EMPHASIS_MASK: u32 = 0x00000040;
pub const Q1_SPDIF_OUT_FMT_MASK: u32 = 0x00000020;
pub const Q1_CONF_CLK_RATE_MASK: u32 = 0x0000001e;
pub const Q1_CONF_CLK_RATE_192000_FLAGS: u32 = 0x00000016;
pub const Q1_CONF_CLK_RATE_176400_FLAGS: u32 = 0x00000010;
pub const Q1_CONF_CLK_RATE_128000_FLAGS: u32 = 0x00000012;
pub const Q1_CONF_CLK_RATE_96000_FLAGS: u32 = 0x0000000e;
pub const Q1_CONF_CLK_RATE_88200_FLAGS: u32 = 0x00000008;
pub const Q1_CONF_CLK_RATE_64000_FLAGS: u32 = 0x0000000a;
pub const Q1_CONF_CLK_RATE_48000_FLAGS: u32 = 0x00000006;
pub const Q1_CONF_CLK_RATE_44100_FLAGS: u32 = 0x00000000;
pub const Q1_CONF_CLK_RATE_32000_FLAGS: u32 = 0x00000002;

/// The flag of rate of S/PDIF input in status.
#[verifier::opaque]
pub open spec fn spdif_rate_flag(rate: ClkNominalRate) -> u32 {
    match rate {
        ClkNominalRate::R32000 => Q0_SPDIF_RATE_32000_FLAGS,
        ClkNominalRate::R44100 => Q0_SPDIF_RATE_44100_FLAGS,
        ClkNominalRate::R48000 => Q0_SPDIF_RATE_48000_FLAGS,
        ClkNominalRate::R64000 => Q0_SPDIF_RATE_64000_FLAGS,
        ClkNominalRate::R88200 => Q0_SPDIF_RATE_88200_FLAGS,
        ClkNominalRate::R96000 => Q0_SPDIF_RATE_96000_FLAGS,
        ClkNominalRate::R128000 => Q0_SPDIF_RATE_128000_FLAGS,
        ClkNominalRate::R176400 => Q0_SPDIF_RATE_176400_FLAGS,
        ClkNominalRate::R192000 => Q0_SPDIF_RATE_192000_FLAGS,
    }
}

/// Each value of `ClkNominalRate` has its own value in `spdif_rate_flag`, as the device knows it.
pub proof fn lemma_spdif_rate_flag_table()
    ensures
        spdif_rate_flag(ClkNominalRate::R32000) == Q0_SPDIF_RATE_32000_FLAGS,
        spdif_rate_flag(ClkNominalRate::R44100) == Q0_SPDIF_RATE_44100_FLAGS,
        spdif_rate_flag(ClkNominalRate::R48000) == Q0_SPDIF_RATE_48000_FLAGS,
        spdif_rate_flag(ClkNominalRate::R64000) == Q0_SPDIF_RATE_64000_FLAGS,
        spdif_rate_flag(ClkNominalRate::R88200) == Q0_SPDIF_RATE_88200_FLAGS,
        spdif_rate_flag(ClkNominalRate::R96000) == Q0_SPDIF_RATE_96000_FLAGS,
        spdif_rate_flag(ClkNominalRate::R128000) == Q0_SPDIF_RATE_128000_FLAGS,
        spdif_rate_flag(ClkNominalRate::R176400) == Q0_SPDIF_RATE_176400_FLAGS,
        spdif_rate_flag(ClkNominalRate::R192000) == Q0_SPDIF_RATE_192000_FLAGS,
{
    reveal(spdif_rate_flag);
}

fn spdif_rate_flag_exec(rate: ClkNominalRate) -> (r: u32)
    ensures
        r == spdif_rate_flag(rate),
{
    proof {
        reveal(spdif_rate_flag);
    }
    match rate {
        ClkNominalRate::R32000 => Q0_SPDIF_RATE_32000_FLAGS,
        ClkNominalRate::R44100 => Q0_SPDIF_RATE_44100_FLAGS,
        ClkNominalRate::R48000 => Q0_SPDIF_RATE_48000_FLAGS,
        ClkNominalRate::R64000 => Q0_SPDIF_RATE_64000_FLAGS,
        ClkNominalRate::R88200 => Q0_SPDIF_RATE_88200_FLAGS,
        ClkNominalRate::R96000 => Q0_SPDIF_RATE_96000_FLAGS,
        ClkNominalRate::R128000 => Q0_SPDIF_RATE_128000_FLAGS,
        ClkNominalRate::R176400 => Q0_SPDIF_RATE_176400_FLAGS,
        ClkNominalRate::R192000 => Q0_SPDIF_RATE_192000_FLAGS,
    }
}

/// The rate of S/PDIF input in status, if detected.
#[verifier::opaque]
pub open spec fn spdif_rate_of(val: u32) -> Option<ClkNominalRate> {
    if val == Q0_SPDIF_RATE_32000_FLAGS {
        Some(ClkNominalRate::R32000)
    } else if val == Q0_SPDIF_RATE_44100_FLAGS {
        Some(ClkNominalRate::R44100)
    } else if val == Q0_SPDIF_RATE_48000_FLAGS {
        Some(ClkNominalRate::R48000)
    } else if val == Q0_SPDIF_RATE_64000_FLAGS {
        Some(ClkNominalRate::R64000)
    } else if val == Q0_SPDIF_RATE_88200_FLAGS {
        Some(ClkNominalRate::R88200)
    } else if val == Q0_SPDIF_RATE_96000_FLAGS {
        Some(ClkNominalRate::R96000)
    } else if val == Q0_SPDIF_RATE_128000_FLAGS {
        Some(ClkNominalRate::R128000)
    } else if val == Q0_SPDIF_RATE_176400_FLAGS {
        Some(ClkNominalRate::R176400)
    } else if val == Q0_SPDIF_RATE_192000_FLAGS {
        Some(ClkNominalRate::R192000)
    } else {
        None
    }
}

/// Each value which the device uses is read by `spdif_rate_of` as its own `ClkNominalRate`.
pub proof fn lemma_spdif_rate_of_table()
    ensures
        spdif_rate_of(Q0_SPDIF_RATE_32000_FLAGS) == Some(ClkNominalRate::R32000),
        spdif_rate_of(Q0_SPDIF_RATE_44100_FLAGS) == Some(ClkNominalRate::R44100),
        spdif_rate_of(Q0_SPDIF_RATE_48000_FLAGS) == Some(ClkNominalRate::R48000),
        spdif_rate_of(Q0_SPDIF_RATE_64000_FLAGS) == Some(ClkNominalRate::R64000),
        spdif_rate_of(Q0_SPDIF_RATE_88200_FLAGS) == Some(ClkNominalRate::R88200),
        spdif_rate_of(Q0_SPDIF_RATE_96000_FLAGS) == Some(ClkNominalRate::R96000),
        spdif_rate_of(Q0_SPDIF_RATE_128000_FLAGS) == Some(ClkNominalRate::R128000),
        spdif_rate_of(Q0_SPDIF_RATE_176400_FLAGS) == Some(ClkNominalRate::R176400),
        spdif_rate_of(Q0_SPDIF_RATE_192000_FLAGS) == Some(ClkNominalRate::R192000),
{
    reveal(spdif_rate_of);
}

fn spdif_rate_of_exec(val: u32) -> (r: Option<ClkNominalRate>)
    ensures
        r == spdif_rate_of(val),
{
    proof {
        reveal(spdif_rate_of);
    }
    if val == Q0_SPDIF_RATE_32000_FLAGS {
        Some(ClkNominalRate::R32000)
    } else if val == Q0_SPDIF_RATE_44100_FLAGS {
        Some(ClkNominalRate::R44100)
    } else if val == Q0_SPDIF_RATE_48000_FLAGS {
        Some(ClkNominalRate::R48000)
    } else if val == Q0_SPDIF_RATE_64000_FLAGS {
        Some(ClkNominalRate::R64000)
    } else if val == Q0_SPDIF_RATE_88200_FLAGS {
        Some(ClkNominalRate::R88200)
    } else if val == Q0_SPDIF_RATE_96000_FLAGS {
        Some(ClkNominalRate::R96000)
    } else if val == Q0_SPDIF_RATE_128000_FLAGS {
        Some(ClkNominalRate::R128000)
    } else if val == Q0_SPDIF_RATE_176400_FLAGS {
        Some(ClkNominalRate::R176400)
    } else if val == Q0_SPDIF_RATE_192000_FLAGS {
        Some(ClkNominalRate::R192000)
    } else {
        None
    }
}

/// Whether the bits stand for a rate of S/PDIF input or none.
pub open spec fn spdif_rate_flag_valid(val: u32) -> bool {
    val == 0 || val == Q0_SPDIF_RATE_32000_FLAGS || val == Q0_SPDIF_RATE_44100_FLAGS || val == Q0_SPDIF_RATE_48000_FLAGS || val == Q0_SPDIF_RATE_64000_FLAGS || val == Q0_SPDIF_RATE_88200_FLAGS || val == Q0_SPDIF_RATE_96000_FLAGS || val == Q0_SPDIF_RATE_128000_FLAGS || val == Q0_SPDIF_RATE_176400_FLAGS || val == Q0_SPDIF_RATE_192000_FLAGS
}

/// The flag of rate of external clock in status.
#[verifier::opaque]
pub open spec fn ext_clk_rate_flag(rate: ClkNominalRate) -> u32 {
    match rate {
        ClkNominalRate::R32000 => Q0_EXT_CLK_RATE_32000_FLAGS,
        ClkNominalRate::R44100 => Q0_EXT_CLK_RATE_44100_FLAGS,
        ClkNominalRate::R48000 => Q0_EXT_CLK_RATE_48000_FLAGS,
        ClkNominalRate::R64000 => Q0_EXT_CLK_RATE_64000_FLAGS,
        ClkNominalRate::R88200 => Q0_EXT_CLK_RATE_88200_FLAGS,
        ClkNominalRate::R96000 => Q0_EXT_CLK_RATE_96000_FLAGS,
        ClkNominalRate::R128000 => Q0_EXT_CLK_RATE_128000_FLAGS,
        ClkNominalRate::R176400 => Q0_EXT_CLK_RATE_176400_FLAGS,
        ClkNominalRate::R192000 => Q0_EXT_CLK_RATE_192000_FLAGS,
    }
}

/// Each value of `ClkNominalRate` has its own value in `ext_clk_rate_flag`, as the device knows it.
pub proof fn lemma_ext_clk_rate_flag_table()
    ensures
        ext_clk_rate_flag(ClkNominalRate::R32000) == Q0_EXT_CLK_RATE_32000_FLAGS,
        ext_clk_rate_flag(ClkNominalRate::R44100) == Q0_EXT_CLK_RATE_44100_FLAGS,
        ext_clk_rate_flag(ClkNominalRate::R48000) == Q0_EXT_CLK_RATE_48000_FLAGS,
        ext_clk_rate_flag(ClkNominalRate::R64000) == Q0_EXT_CLK_RATE_64000_FLAGS,
        ext_clk_rate_flag(ClkNominalRate::R88200) == Q0_EXT_CLK_RATE_88200_FLAGS,
        ext_clk_rate_flag(ClkNominalRate::R96000) == Q0_EXT_CLK_RATE_96000_FLAGS,
        ext_clk_rate_flag(ClkNominalRate::R128000) == Q0_EXT_CLK_RATE_128000_FLAGS,
        ext_clk_rate_flag(ClkNominalRate::R176400) == Q0_EXT_CLK_RATE_176400_FLAGS,
        ext_clk_rate_flag(ClkNominalRate::R192000) == Q0_EXT_CLK_RATE_192000_FLAGS,
{
    reveal(ext_clk_rate_flag);
}

fn ext_clk_rate_flag_exec(rate: ClkNominalRate) -> (r: u32)
    ensures
        r == ext_clk_rate_flag(rate),
{
    proof {
        reveal(ext_clk_rate_flag);
    }
    match rate {
        ClkNominalRate::R32000 => Q0_EXT_CLK_RATE_32000_FLAGS,
        ClkNominalRate::R44100 => Q0_EXT_CLK_RATE_44100_FLAGS,
        ClkNominalRate::R48000 => Q0_EXT_CLK_RATE_48000_FLAGS,
        ClkNominalRate::R64000 => Q0_EXT_CLK_RATE_64000_FLAGS,
        ClkNominalRate::R88200 => Q0_EXT_CLK_RATE_88200_FLAGS,
        ClkNominalRate::R96000 => Q0_EXT_CLK_RATE_96000_FLAGS,
        ClkNominalRate::R128000 => Q0_EXT_CLK_RATE_128000_FLAGS,
        ClkNominalRate::R176400 => Q0_EXT_CLK_RATE_176400_FLAGS,
        ClkNominalRate::R192000 => Q0_EXT_CLK_RATE_192000_FLAGS,
    }
}

/// The rate of external clock in status, if detected.
#[verifier::opaque]
pub open spec fn ext_clk_rate_of(val: u32) -> Option<ClkNominalRate> {
    if val == Q0_EXT_CLK_RATE_32000_FLAGS {
        Some(ClkNominalRate::R32000)
    } else if val == Q0_EXT_CLK_RATE_44100_FLAGS {
        Some(ClkNominalRate::R44100)
    } else if val == Q0_EXT_CLK_RATE_48000_FLAGS {
        Some(ClkNominalRate::R48000)
    } else if val == Q0_EXT_CLK_RATE_64000_FLAGS {
        Some(ClkNominalRate::R64000)
    } else if val == Q0_EXT_CLK_RATE_88200_FLAGS {
        Some(ClkNominalRate::R88200)
    } else if val == Q0_EXT_CLK_RATE_96000_FLAGS {
        Some(ClkNominalRate::R96000)
    } else if val == Q0_EXT_CLK_RATE_128000_FLAGS {
        Some(ClkNominalRate::R128000)
    } else if val == Q0_EXT_CLK_RATE_176400_FLAGS {
        Some(ClkNominalRate::R176400)
    } else if val == Q0_EXT_CLK_RATE_192000_FLAGS {
        Some(ClkNominalRate::R192000)
    } else {
        None
    }
}

/// Each value which the device uses is read by `ext_clk_rate_of` as its own `ClkNominalRate`.
pub proof fn lemma_ext_clk_rate_of_table()
    ensures
        ext_clk_rate_of(Q0_EXT_CLK_RATE_32000_FLAGS) == Some(ClkNominalRate::R32000),
        ext_clk_rate_of(Q0_EXT_CLK_RATE_44100_FLAGS) == Some(ClkNominalRate::R44100),
        ext_clk_rate_of(Q0_EXT_CLK_RATE_48000_FLAGS) == Some(ClkNominalRate::R48000),
        ext_clk_rate_of(Q0_EXT_CLK_RATE_64000_FLAGS) == Some(ClkNominalRate::R64000),
        ext_clk_rate_of(Q0_EXT_CLK_RATE_88200_FLAGS) == Some(ClkNominalRate::R88200),
        ext_clk_rate_of(Q0_EXT_CLK_RATE_96000_FLAGS) == Some(ClkNominalRate::R96000),
        ext_clk_rate_of(Q0_EXT_CLK_RATE_128000_FLAGS) == Some(ClkNominalRate::R128000),
        ext_clk_rate_of(Q0_EXT_CLK_RATE_176400_FLAGS) == Some(ClkNominalRate::R176400),
        ext_clk_rate_of(Q0_EXT_CLK_RATE_192000_FLAGS) == Some(ClkNominalRate::R192000),
{
    reveal(ext_clk_rate_of);
}

fn ext_clk_rate_of_exec(val: u32) -> (r: Option<ClkNominalRate>)
    ensures
        r == ext_clk_rate_of(val),
{
    proof {
        reveal(ext_clk_rate_of);
    }
    if val == Q0_EXT_CLK_RATE_32000_FLAGS {
        Some(ClkNominalRate::R32000)
    } else if val == Q0_EXT_CLK_RATE_44100_FLAGS {
        Some(ClkNominalRate::R44100)
    } else if val == Q0_EXT_CLK_RATE_48000_FLAGS {
        Some(ClkNominalRate::R48000)
    } else if val == Q0_EXT_CLK_RATE_64000_FLAGS {
        Some(ClkNominalRate::R64000)
    } else if val == Q0_EXT_CLK_RATE_88200_FLAGS {
        Some(ClkNominalRate::R88200)
    } else if val == Q0_EXT_CLK_RATE_96000_FLAGS {
        Some(ClkNominalRate::R96000)
    } else if val == Q0_EXT_CLK_RATE_128000_FLAGS {
        Some(ClkNominalRate::R128000)
    } else if val == Q0_EXT_CLK_RATE_176400_FLAGS {
        Some(ClkNominalRate::R176400)
    } else if val == Q0_EXT_CLK_RATE_192000_FLAGS {
        Some(ClkNominalRate::R192000)
    } else {
        None
    }
}

/// Whether the bits stand for a rate of external clock or none.
pub open spec fn ext_clk_rate_flag_valid(val: u32) -> bool {
    val == 0 || val == Q0_EXT_CLK_RATE_32000_FLAGS || val == Q0_EXT_CLK_RATE_44100_FLAGS || val == Q0_EXT_CLK_RATE_48000_FLAGS || val == Q0_EXT_CLK_RATE_64000_FLAGS || val == Q0_EXT_CLK_RATE_88200_FLAGS || val == Q0_EXT_CLK_RATE_96000_FLAGS || val == Q0_EXT_CLK_RATE_128000_FLAGS || val == Q0_EXT_CLK_RATE_176400_FLAGS || val == Q0_EXT_CLK_RATE_192000_FLAGS
}

/// The flag of active source of sampling clock in status.
#[verifier::opaque]
pub open spec fn active_clk_src_flag(src: Ff800ClkSrc) -> u32 {
    match src {
        Ff800ClkSrc::AdatA => Q0_ACTIVE_CLK_SRC_ADAT_A_FLAGS,
        Ff800ClkSrc::AdatB => Q0_ACTIVE_CLK_SRC_ADAT_B_FLAGS,
        Ff800ClkSrc::Spdif => Q0_ACTIVE_CLK_SRC_SPDIF_FLAGS,
        Ff800ClkSrc::WordClock => Q0_ACTIVE_CLK_SRC_WORD_CLK_FLAGS,
        Ff800ClkSrc::Tco => Q0_ACTIVE_CLK_SRC_TCO_FLAGS,
        Ff800ClkSrc::Internal => Q0_ACTIVE_CLK_SRC_INTERNAL_FLAGS,
    }
}

/// Each value of `Ff800ClkSrc` has its own value in `active_clk_src_flag`, as the device knows it.
pub proof fn lemma_active_clk_src_flag_table()
    ensures
        active_clk_src_flag(Ff800ClkSrc::AdatA) == Q0_ACTIVE_CLK_SRC_ADAT_A_FLAGS,
        active_clk_src_flag(Ff800ClkSrc::AdatB) == Q0_ACTIVE_CLK_SRC_ADAT_B_FLAGS,
        active_clk_src_flag(Ff800ClkSrc::Spdif) == Q0_ACTIVE_CLK_SRC_SPDIF_FLAGS,
        active_clk_src_flag(Ff800ClkSrc::WordClock) == Q0_ACTIVE_CLK_SRC_WORD_CLK_FLAGS,
        active_clk_src_flag(Ff800ClkSrc::Tco) == Q0_ACTIVE_CLK_SRC_TCO_FLAGS,
        active_clk_src_flag(Ff800ClkSrc::Internal) == Q0_ACTIVE_CLK_SRC_INTERNAL_FLAGS,
{
    reveal(active_clk_src_flag);
}

fn active_clk_src_flag_exec(src: Ff800ClkSrc) -> (r: u32)
    ensures
        r == active_clk_src_flag(src),
{
    proof {
        reveal(active_clk_src_flag);
    }
    match src {
        Ff800ClkSrc::AdatA => Q0_ACTIVE_CLK_SRC_ADAT_A_FLAGS,
        Ff800ClkSrc::AdatB => Q0_ACTIVE_CLK_SRC_ADAT_B_FLAGS,
        Ff800ClkSrc::Spdif => Q0_ACTIVE_CLK_SRC_SPDIF_FLAGS,
        Ff800ClkSrc::WordClock => Q0_ACTIVE_CLK_SRC_WORD_CLK_FLAGS,
        Ff800ClkSrc::Tco => Q0_ACTIVE_CLK_SRC_TCO_FLAGS,
        Ff800ClkSrc::Internal => Q0_ACTIVE_CLK_SRC_INTERNAL_FLAGS,
    }
}

/// The active source of sampling clock in status.
#[verifier::opaque]
pub open spec fn active_clk_src_of(val: u32) -> Ff800ClkSrc {
    if val == Q0_ACTIVE_CLK_SRC_ADAT_A_FLAGS {
        Ff800ClkSrc::AdatA
    } else if val == Q0_ACTIVE_CLK_SRC_ADAT_B_FLAGS {
        Ff800ClkSrc::AdatB
    } else if val == Q0_ACTIVE_CLK_SRC_SPDIF_FLAGS {
        Ff800ClkSrc::Spdif
    } else if val == Q0_ACTIVE_CLK_SRC_WORD_CLK_FLAGS {
        Ff800ClkSrc::WordClock
    } else if val == Q0_ACTIVE_CLK_SRC_TCO_FLAGS {
        Ff800ClkSrc::Tco
    } else if val == Q0_ACTIVE_CLK_SRC_INTERNAL_FLAGS {
        Ff800ClkSrc::Internal
    } else {
        Ff800ClkSrc::Internal
    }
}

/// Each value which the device uses is read by `active_clk_src_of` as its own `Ff800ClkSrc`.
pub proof fn lemma_active_clk_src_of_table()
    ensures
        active_clk_src_of(Q0_ACTIVE_CLK_SRC_ADAT_A_FLAGS) == Ff800ClkSrc::AdatA,
        active_clk_src_of(Q0_ACTIVE_CLK_SRC_ADAT_B_FLAGS) == Ff800ClkSrc::AdatB,
        active_clk_src_of(Q0_ACTIVE_CLK_SRC_SPDIF_FLAGS) == Ff800ClkSrc::Spdif,
        active_clk_src_of(Q0_ACTIVE_CLK_SRC_WORD_CLK_FLAGS) == Ff800ClkSrc::WordClock,
        active_clk_src_of(Q0_ACTIVE_CLK_SRC_TCO_FLAGS) == Ff800ClkSrc::Tco,
        active_clk_src_of(Q0_ACTIVE_CLK_SRC_INTERNAL_FLAGS) == Ff800ClkSrc::Internal,
{
    reveal(active_clk_src_of);
}

fn active_clk_src_of_exec(val: u32) -> (r: Ff800ClkSrc)
    ensures
        r == active_clk_src_of(val),
{
    proof {
        reveal(active_clk_src_of);
    }
    if val == Q0_ACTIVE_CLK_SRC_ADAT_A_FLAGS {
        Ff800ClkSrc::AdatA
    } else if val == Q0_ACTIVE_CLK_SRC_ADAT_B_FLAGS {
        Ff800ClkSrc::AdatB
    } else if val == Q0_ACTIVE_CLK_SRC_SPDIF_FLAGS {
        Ff800ClkSrc::Spdif
    } else if val == Q0_ACTIVE_CLK_SRC_WORD_CLK_FLAGS {
        Ff800ClkSrc::WordClock
    } else if val == Q0_ACTIVE_CLK_SRC_TCO_FLAGS {
        Ff800ClkSrc::Tco
    } else if val == Q0_ACTIVE_CLK_SRC_INTERNAL_FLAGS {
        Ff800ClkSrc::Internal
    } else {
        Ff800ClkSrc::Internal
    }
}

/// Whether the bits stand for an active source of sampling clock.
pub open spec fn active_clk_src_valid(val: u32) -> bool {
    val == Q0_ACTIVE_CLK_SRC_ADAT_A_FLAGS || val == Q0_ACTIVE_CLK_SRC_ADAT_B_FLAGS || val == Q0_ACTIVE_CLK_SRC_SPDIF_FLAGS || val == Q0_ACTIVE_CLK_SRC_WORD_CLK_FLAGS || val == Q0_ACTIVE_CLK_SRC_TCO_FLAGS || val == Q0_ACTIVE_CLK_SRC_INTERNAL_FLAGS
}

/// Each value is read back from its flag.
pub proof fn lemma_active_clk_src_code(v: Ff800ClkSrc)
    ensures
        active_clk_src_valid(active_clk_src_flag(v)),
        active_clk_src_of(active_clk_src_flag(v)) == v,
{
    reveal(active_clk_src_flag);
    reveal(active_clk_src_of);
}

/// The flag of configured source of sampling clock in status.
#[verifier::opaque]
pub open spec fn conf_clk_src_flag(src: Ff800ClkSrc) -> u32 {
    match src {
        Ff800ClkSrc::Internal => Q1_CONF_CLK_SRC_INTERNAL_FLAGS,
        Ff800ClkSrc::AdatB => Q1_CONF_CLK_SRC_ADAT_B_FLAGS,
        Ff800ClkSrc::Spdif => Q1_CONF_CLK_SRC_SPDIF_FLAGS,
        Ff800ClkSrc::WordClock => Q1_CONF_CLK_SRC_WORD_CLK_FLAGS,
        Ff800ClkSrc::Tco => Q1_CONF_CLK_SRC_TCO_FLAGS,
        Ff800ClkSrc::AdatA => Q1_CONF_CLK_SRC_ADAT_A_FLAGS,
    }
}

/// Each value of `Ff800ClkSrc` has its own value in `conf_clk_src_flag`, as the device knows it.
pub proof fn lemma_conf_clk_src_flag_table()
    ensures
        conf_clk_src_flag(Ff800ClkSrc::Internal) == Q1_CONF_CLK_SRC_INTERNAL_FLAGS,
        conf_clk_src_flag(Ff800ClkSrc::AdatB) == Q1_CONF_CLK_SRC_ADAT_B_FLAGS,
        conf_clk_src_flag(Ff800ClkSrc::Spdif) == Q1_CONF_CLK_SRC_SPDIF_FLAGS,
        conf_clk_src_flag(Ff800ClkSrc::WordClock) == Q1_CONF_CLK_SRC_WORD_CLK_FLAGS,
        conf_clk_src_flag(Ff800ClkSrc::Tco) == Q1_CONF_CLK_SRC_TCO_FLAGS,
        conf_clk_src_flag(Ff800ClkSrc::AdatA) == Q1_CONF_CLK_SRC_ADAT_A_FLAGS,
{
    reveal(conf_clk_src_flag);
}

fn conf_clk_src_flag_exec(src: Ff800ClkSrc) -> (r: u32)
    ensures
        r == conf_clk_src_flag(src),
{
    proof {
        reveal(conf_clk_src_flag);
    }
    match src {
        Ff800ClkSrc::Internal => Q1_CONF_CLK_SRC_INTERNAL_FLAGS,
        Ff800ClkSrc::AdatB => Q1_CONF_CLK_SRC_ADAT_B_FLAGS,
        Ff800ClkSrc::Spdif => Q1_CONF_CLK_SRC_SPDIF_FLAGS,
        Ff800ClkSrc::WordClock => Q1_CONF_CLK_SRC_WORD_CLK_FLAGS,
        Ff800ClkSrc::Tco => Q1_CONF_CLK_SRC_TCO_FLAGS,
        Ff800ClkSrc::AdatA => Q1_CONF_CLK_SRC_ADAT_A_FLAGS,
    }
}

/// The configured source of sampling clock in status; unknown bits stand for ADAT A.
#[verifier::opaque]
pub open spec fn conf_clk_src_of(val: u32) -> Ff800ClkSrc {
    if val == Q1_CONF_CLK_SRC_INTERNAL_FLAGS {
        Ff800ClkSrc::Internal
    } else if val == Q1_CONF_CLK_SRC_ADAT_B_FLAGS {
        Ff800ClkSrc::AdatB
    } else if val == Q1_CONF_CLK_SRC_SPDIF_FLAGS {
        Ff800ClkSrc::Spdif
    } else if val == Q1_CONF_CLK_SRC_WORD_CLK_FLAGS {
        Ff800ClkSrc::WordClock
    } else if val == Q1_CONF_CLK_SRC_TCO_FLAGS {
        Ff800ClkSrc::Tco
    } else {
        Ff800ClkSrc::AdatA
    }
}

/// Each value which the device uses is read by `conf_clk_src_of` as its own `Ff800ClkSrc`.
pub proof fn lemma_conf_clk_src_of_table()
    ensures
        conf_clk_src_of(Q1_CONF_CLK_SRC_INTERNAL_FLAGS) == Ff800ClkSrc::Internal,
        conf_clk_src_of(Q1_CONF_CLK_SRC_ADAT_B_FLAGS) == Ff800ClkSrc::AdatB,
        conf_clk_src_of(Q1_CONF_CLK_SRC_SPDIF_FLAGS) == Ff800ClkSrc::Spdif,
        conf_clk_src_of(Q1_CONF_CLK_SRC_WORD_CLK_FLAGS) == Ff800ClkSrc::WordClock,
        conf_clk_src_of(Q1_CONF_CLK_SRC_TCO_FLAGS) == Ff800ClkSrc::Tco,
{
    reveal(conf_clk_src_of);
}

fn conf_clk_src_of_exec(val: u32) -> (r: Ff800ClkSrc)
    ensures
        r == conf_clk_src_of(val),
{
    proof {
        reveal(conf_clk_src_of);
    }
    if val == Q1_CONF_CLK_SRC_INTERNAL_FLAGS {
        Ff800ClkSrc::Internal
    } else if val == Q1_CONF_CLK_SRC_ADAT_B_FLAGS {
        Ff800ClkSrc::AdatB
    } else if val == Q1_CONF_CLK_SRC_SPDIF_FLAGS {
        Ff800ClkSrc::Spdif
    } else if val == Q1_CONF_CLK_SRC_WORD_CLK_FLAGS {
        Ff800ClkSrc::WordClock
    } else if val == Q1_CONF_CLK_SRC_TCO_FLAGS {
        Ff800ClkSrc::Tco
    } else {
        Ff800ClkSrc::AdatA
    }
}

/// Whether the bits stand for a configured source of sampling clock.
pub open spec fn conf_clk_src_flag_valid(val: u32) -> bool {
    val == Q1_CONF_CLK_SRC_INTERNAL_FLAGS || val == Q1_CONF_CLK_SRC_ADAT_B_FLAGS || val == Q1_CONF_CLK_SRC_SPDIF_FLAGS || val == Q1_CONF_CLK_SRC_WORD_CLK_FLAGS || val == Q1_CONF_CLK_SRC_TCO_FLAGS || val == Q1_CONF_CLK_SRC_ADAT_A_FLAGS
}

/// Each value is read back from its flag.
pub proof fn lemma_conf_clk_src_code(v: Ff800ClkSrc)
    ensures
        conf_clk_src_flag_valid(conf_clk_src_flag(v)),
        conf_clk_src_of(conf_clk_src_flag(v)) == v,
{
    reveal(conf_clk_src_flag);
    reveal(conf_clk_src_of);
}

/// The flag of configured rate of sampling clock in status.
#[verifier::opaque]
pub open spec fn conf_clk_rate_flag(rate: ClkNominalRate) -> u32 {
    match rate {
        ClkNominalRate::R32000 => Q1_CONF_CLK_RATE_32000_FLAGS,
        ClkNominalRate::R48000 => Q1_CONF_CLK_RATE_48000_FLAGS,
        ClkNominalRate::R64000 => Q1_CONF_CLK_RATE_64000_FLAGS,
        ClkNominalRate::R88200 => Q1_CONF_CLK_RATE_88200_FLAGS,
        ClkNominalRate::R96000 => Q1_CONF_CLK_RATE_96000_FLAGS,
        ClkNominalRate::R128000 => Q1_CONF_CLK_RATE_128000_FLAGS,
        ClkNominalRate::R176400 => Q1_CONF_CLK_RATE_176400_FLAGS,
        ClkNominalRate::R192000 => Q1_CONF_CLK_RATE_192000_FLAGS,
        ClkNominalRate::R44100 => Q1_CONF_CLK_RATE_44100_FLAGS,
    }
}

/// Each value of `ClkNominalRate` has its own value in `conf_clk_rate_flag`, as the device knows it.
pub proof fn lemma_conf_clk_rate_flag_table()
    ensures
        conf_clk_rate_flag(ClkNominalRate::R32000) == Q1_CONF_CLK_RATE_32000_FLAGS,
        conf_clk_rate_flag(ClkNominalRate::R48000) == Q1_CONF_CLK_RATE_48000_FLAGS,
        conf_clk_rate_flag(ClkNominalRate::R64000) == Q1_CONF_CLK_RATE_64000_FLAGS,
        conf_clk_rate_flag(ClkNominalRate::R88200) == Q1_CONF_CLK_RATE_88200_FLAGS,
        conf_clk_rate_flag(ClkNominalRate::R96000) == Q1_CONF_CLK_RATE_96000_FLAGS,
        conf_clk_rate_flag(ClkNominalRate::R128000) == Q1_CONF_CLK_RATE_128000_FLAGS,
        conf_clk_rate_flag(ClkNominalRate::R176400) == Q1_CONF_CLK_RATE_176400_FLAGS,
        conf_clk_rate_flag(ClkNominalRate::R192000) == Q1_CONF_CLK_RATE_192000_FLAGS,
        conf_clk_rate_flag(ClkNominalRate::R44100) == Q1_CONF_CLK_RATE_44100_FLAGS,
{
    reveal(conf_clk_rate_flag);
}

fn conf_clk_rate_flag_exec(rate: ClkNominalRate) -> (r: u32)
    ensures
        r == conf_clk_rate_flag(rate),
{
    proof {
        reveal(conf_clk_rate_flag);
    }
    match rate {
        ClkNominalRate::R32000 => Q1_CONF_CLK_RATE_32000_FLAGS,
        ClkNominalRate::R48000 => Q1_CONF_CLK_RATE_48000_FLAGS,
        ClkNominalRate::R64000 => Q1_CONF_CLK_RATE_64000_FLAGS,
        ClkNominalRate::R88200 => Q1_CONF_CLK_RATE_88200_FLAGS,
        ClkNominalRate::R96000 => Q1_CONF_CLK_RATE_96000_FLAGS,
        ClkNominalRate::R128000 => Q1_CONF_CLK_RATE_128000_FLAGS,
        ClkNominalRate::R176400 => Q1_CONF_CLK_RATE_176400_FLAGS,
        ClkNominalRate::R192000 => Q1_CONF_CLK_RATE_192000_FLAGS,
        ClkNominalRate::R44100 => Q1_CONF_CLK_RATE_44100_FLAGS,
    }
}

/// The configured rate of sampling clock in status; unknown bits stand for 44.1 kHz.
#[verifier::opaque]
pub open spec fn conf_clk_rate_of(val: u32) -> ClkNominalRate {
    if val == Q1_CONF_CLK_RATE_32000_FLAGS {
        ClkNominalRate::R32000
    } else if val == Q1_CONF_CLK_RATE_48000_FLAGS {
        ClkNominalRate::R48000
    } else if val == Q1_CONF_CLK_RATE_64000_FLAGS {
        ClkNominalRate::R64000
    } else if val == Q1_CONF_CLK_RATE_88200_FLAGS {
        ClkNominalRate::R88200
    } else if val == Q1_CONF_CLK_RATE_96000_FLAGS {
        ClkNominalRate::R96000
    } else if val == Q1_CONF_CLK_RATE_128000_FLAGS {
        ClkNominalRate::R128000
    } else if val == Q1_CONF_CLK_RATE_176400_FLAGS {
        ClkNominalRate::R176400
    } else if val == Q1_CONF_CLK_RATE_192000_FLAGS {
        ClkNominalRate::R192000
    } else {
        ClkNominalRate::R44100
    }
}

/// Each value which the device uses is read by `conf_clk_rate_of` as its own `ClkNominalRate`.
pub proof fn lemma_conf_clk_rate_of_table()
    ensures
        conf_clk_rate_of(Q1_CONF_CLK_RATE_32000_FLAGS) == ClkNominalRate::R32000,
        conf_clk_rate_of(Q1_CONF_CLK_RATE_48000_FLAGS) == ClkNominalRate::R48000,
        conf_clk_rate_of(Q1_CONF_CLK_RATE_64000_FLAGS) == ClkNominalRate::R64000,
        conf_clk_rate_of(Q1_CONF_CLK_RATE_88200_FLAGS) == ClkNominalRate::R88200,
        conf_clk_rate_of(Q1_CONF_CLK_RATE_96000_FLAGS) == ClkNominalRate::R96000,
        conf_clk_rate_of(Q1_CONF_CLK_RATE_128000_FLAGS) == ClkNominalRate::R128000,
        conf_clk_rate_of(Q1_CONF_CLK_RATE_176400_FLAGS) == ClkNominalRate::R176400,
        conf_clk_rate_of(Q1_CONF_CLK_RATE_192000_FLAGS) == ClkNominalRate::R192000,
{
    reveal(conf_clk_rate_of);
}

fn conf_clk_rate_of_exec(val: u32) -> (r: ClkNominalRate)
    ensures
        r == conf_clk_rate_of(val),
{
    proof {
        reveal(conf_clk_rate_of);
    }
    if val == Q1_CONF_CLK_RATE_32000_FLAGS {
        ClkNominalRate::R32000
    } else if val == Q1_CONF_CLK_RATE_48000_FLAGS {
        ClkNominalRate::R48000
    } else if val == Q1_CONF_CLK_RATE_64000_FLAGS {
        ClkNominalRate::R64000
    } else if val == Q1_CONF_CLK_RATE_88200_FLAGS {
        ClkNominalRate::R88200
    } else if val == Q1_CONF_CLK_RATE_96000_FLAGS {
        ClkNominalRate::R96000
    } else if val == Q1_CONF_CLK_RATE_128000_FLAGS {
        ClkNominalRate::R128000
    } else if val == Q1_CONF_CLK_RATE_176400_FLAGS {
        ClkNominalRate::R176400
    } else if val == Q1_CONF_CLK_RATE_192000_FLAGS {
        ClkNominalRate::R192000
    } else {
        ClkNominalRate::R44100
    }
}

/// Whether the bits stand for a configured rate of sampling clock.
pub open spec fn conf_clk_rate_flag_valid(val: u32) -> bool {
    val == Q1_CONF_CLK_RATE_32000_FLAGS || val == Q1_CONF_CLK_RATE_48000_FLAGS || val == Q1_CONF_CLK_RATE_64000_FLAGS || val == Q1_CONF_CLK_RATE_88200_FLAGS || val == Q1_CONF_CLK_RATE_96000_FLAGS || val == Q1_CONF_CLK_RATE_128000_FLAGS || val == Q1_CONF_CLK_RATE_176400_FLAGS || val == Q1_CONF_CLK_RATE_192000_FLAGS || val == Q1_CONF_CLK_RATE_44100_FLAGS
}

/// Each value is read back from its flag.
pub proof fn lemma_conf_clk_rate_code(v: ClkNominalRate)
    ensures
        conf_clk_rate_flag_valid(conf_clk_rate_flag(v)),
        conf_clk_rate_of(conf_clk_rate_flag(v)) == v,
{
    reveal(conf_clk_rate_flag);
    reveal(conf_clk_rate_of);
}

/// An optional rate of S/PDIF input is read back from its flag.
pub proof fn lemma_opt_spdif_rate_code(rate: Option<ClkNominalRate>)
    ensures
        spdif_rate_flag_valid(opt_spdif_rate_flag(rate)),
        spdif_rate_of(opt_spdif_rate_flag(rate)) == rate,
{
    reveal(spdif_rate_flag);
    reveal(spdif_rate_of);
}

/// An optional rate of external clock is read back from its flag.
pub proof fn lemma_opt_ext_clk_rate_code(rate: Option<ClkNominalRate>)
    ensures
        ext_clk_rate_flag_valid(opt_ext_clk_rate_flag(rate)),
        ext_clk_rate_of(opt_ext_clk_rate_flag(rate)) == rate,
{
    reveal(ext_clk_rate_flag);
    reveal(ext_clk_rate_of);
}

/// The flag of an optional rate of S/PDIF input.
pub open spec fn opt_spdif_rate_flag(rate: Option<ClkNominalRate>) -> u32 {
    match rate {
        Some(r) => spdif_rate_flag(r),
        None => 0,
    }
}

/// The flag of an optional rate of external clock.
pub open spec fn opt_ext_clk_rate_flag(rate: Option<ClkNominalRate>) -> u32 {
    match rate {
        Some(r) => ext_clk_rate_flag(r),
        None => 0,
    }
}

/// Status of clock locking.
#[derive(Debug, Copy, Clone, PartialEq, Eq, Structural)]
pub struct Ff800ClkLockStatus {
    pub adat_a: bool,
    pub adat_b: bool,
    pub spdif: bool,
    pub word_clock: bool,
    pub tco: bool,
}

impl Default for Ff800ClkLockStatus {
    fn default() -> (r: Self)
        ensures
            r == (Ff800ClkLockStatus { adat_a: false, adat_b: false, spdif: false, word_clock: false, tco: false }),
    {
        Ff800ClkLockStatus { adat_a: false, adat_b: false, spdif: false, word_clock: false, tco: false }
    }
}

impl Ff800ClkLockStatus {
    /// The number of quadlets which the status takes.
    pub const QUADLET_COUNT: usize = 2;
}

/// The quadlet 0 after serializing the status into it.
pub open spec fn lock_status_quad0(q: u32, s: Ff800ClkLockStatus) -> u32 {
    let q = put_flag(q, Q0_LOCK_ADAT_A_MASK, s.adat_a);
    let q = put_flag(q, Q0_LOCK_ADAT_B_MASK, s.adat_b);
    let q = put_flag(q, Q0_LOCK_SPDIF_MASK, s.spdif);
    put_flag(q, Q0_LOCK_WORD_CLOCK_MASK, s.word_clock)
}

/// The fields are read back from the bits of the quadlet.
pub proof fn lemma_lock_status_roundtrip_quad0_facts(q: u32, s: Ff800ClkLockStatus)
    ensures
        has_flag(lock_status_quad0(q, s), Q0_LOCK_ADAT_A_MASK) == (s.adat_a),
        has_flag(lock_status_quad0(q, s), Q0_LOCK_ADAT_B_MASK) == (s.adat_b),
        has_flag(lock_status_quad0(q, s), Q0_LOCK_SPDIF_MASK) == (s.spdif),
        has_flag(lock_status_quad0(q, s), Q0_LOCK_WORD_CLOCK_MASK) == (s.word_clock),
{
    lemma_flag_bits(s.adat_a, Q0_LOCK_ADAT_A_MASK);
    lemma_flag_bits(s.adat_b, Q0_LOCK_ADAT_B_MASK);
    lemma_flag_bits(s.spdif, Q0_LOCK_SPDIF_MASK);
    lemma_flag_bits(s.word_clock, Q0_LOCK_WORD_CLOCK_MASK);
    lemma_ff800_bits(q, flag_bits(s.adat_a, Q0_LOCK_ADAT_A_MASK), flag_bits(s.adat_b, Q0_LOCK_ADAT_B_MASK), flag_bits(s.spdif, Q0_LOCK_SPDIF_MASK), flag_bits(s.word_clock, Q0_LOCK_WORD_CLOCK_MASK), 0, 0, 0, 0, 0, 0, 0, 0, 0, 0, 0, 0, 0, 0, 0, 0, 0, 0, 0, 0, 0, 0, 0, 0, 0, 0, 0, 0, 0, 0, 0, 0, 0, 0, 0, 0, 0, 0, 0, 0, 0, 0, 0, 0, 0, 0, 0, 0, 0, 0, 0, 0, 0, 0, 0, 0, 0, 0, 0, 0, 0, 0, 0, 0, 0, 0, 0, 0, 0, 0, 0, 0, 0, 0, 0, 0, 0, 0, 0, 0, 0, 0, 0, 0, 0, 0, 0, 0, 0, 0, 0, 0, 0, 0, 0, 0, 0, 0, 0, 0, 0, 0, 0);
}

/// The quadlet 1 after serializing the status into it.
pub open spec fn lock_status_quad1(q: u32, s: Ff800ClkLockStatus) -> u32 {
    put_flag(q, Q1_LOCK_TCO_MASK, s.tco)
}

/// The fields are read back from the bits of the quadlet.
pub proof fn lemma_lock_status_roundtrip_quad1_facts(q: u32, s: Ff800ClkLockStatus)
    ensures
        has_flag(lock_status_quad1(q, s), Q1_LOCK_TCO_MASK) == (s.tco),
{
    lemma_flag_bits(s.tco, Q1_LOCK_TCO_MASK);
    lemma_ff800_bits(0, 0, 0, 0, 0, q, flag_bits(s.tco, Q1_LOCK_TCO_MASK), 0, 0, 0, 0, 0, 0, 0, 0, 0, 0, 0, 0, 0, 0, 0, 0, 0, 0, 0, 0, 0, 0, 0, 0, 0, 0, 0, 0, 0, 0, 0, 0, 0, 0, 0, 0, 0, 0, 0, 0, 0, 0, 0, 0, 0, 0, 0, 0, 0, 0, 0, 0, 0, 0, 0, 0, 0, 0, 0, 0, 0, 0, 0, 0, 0, 0, 0, 0, 0, 0, 0, 0, 0, 0, 0, 0, 0, 0, 0, 0, 0, 0, 0, 0, 0, 0, 0, 0, 0, 0, 0, 0, 0, 0, 0, 0, 0, 0, 0, 0, 0);
}

/// The status read from the quadlets.
pub open spec fn lock_status_of(q0: u32, q1: u32) -> Ff800ClkLockStatus {
    Ff800ClkLockStatus { adat_a: has_flag(q0, Q0_LOCK_ADAT_A_MASK), adat_b: has_flag(q0, Q0_LOCK_ADAT_B_MASK), spdif: has_flag(q0, Q0_LOCK_SPDIF_MASK), word_clock: has_flag(q0, Q0_LOCK_WORD_CLOCK_MASK), tco: has_flag(q1, Q1_LOCK_TCO_MASK) }
}

/// Serialize the status into the quadlets.
pub fn serialize_lock_status(status: &Ff800ClkLockStatus, quads: &mut [u32])
    requires
        old(quads)@.len() >= Ff800ClkLockStatus::QUADLET_COUNT,
    ensures
        final(quads)@ == old(quads)@.update(0, lock_status_quad0(old(quads)@[0], *status)).update(
            1,
            lock_status_quad1(old(quads)@[1], *status),
        ),
{
    quads[0] = set_flag(quads[0], Q0_LOCK_ADAT_A_MASK, status.adat_a);
    quads[0] = set_flag(quads[0], Q0_LOCK_ADAT_B_MASK, status.adat_b);
    quads[0] = set_flag(quads[0], Q0_LOCK_SPDIF_MASK, status.spdif);
    quads[0] = set_flag(quads[0], Q0_LOCK_WORD_CLOCK_MASK, status.word_clock);
    quads[1] = set_flag(quads[1], Q1_LOCK_TCO_MASK, status.tco);
}

/// Deserialize the status from the quadlets.
pub fn deserialize_lock_status(status: &mut Ff800ClkLockStatus, quads: &[u32])
    requires
        quads@.len() >= Ff800ClkLockStatus::QUADLET_COUNT,
    ensures
        *final(status) == lock_status_of(quads@[0], quads@[1]),
{
    status.adat_a = check_flag(quads[0], Q0_LOCK_ADAT_A_MASK);
    status.adat_b = check_flag(quads[0], Q0_LOCK_ADAT_B_MASK);
    status.spdif = check_flag(quads[0], Q0_LOCK_SPDIF_MASK);
    status.word_clock = check_flag(quads[0], Q0_LOCK_WORD_CLOCK_MASK);
    status.tco = check_flag(quads[1], Q1_LOCK_TCO_MASK);
}

/// Deserializing what was serialized gives the status back.
pub proof fn lemma_lock_status_roundtrip(q0: u32, q1: u32, s: Ff800ClkLockStatus)
    ensures
        lock_status_of(lock_status_quad0(q0, s), lock_status_quad1(q1, s)) == s,
{
    lemma_lock_status_roundtrip_quad0_facts(q0, s);
    lemma_lock_status_roundtrip_quad1_facts(q1, s);
}

/// Status of clock synchronization.
#[derive(Debug, Copy, Clone, PartialEq, Eq, Structural)]
pub struct Ff800ClkSyncStatus {
    pub adat_a: bool,
    pub adat_b: bool,
    pub spdif: bool,
    pub word_clock: bool,
    pub tco: bool,
}

impl Default for Ff800ClkSyncStatus {
    fn default() -> (r: Self)
        ensures
            r == (Ff800ClkSyncStatus { adat_a: false, adat_b: false, spdif: false, word_clock: false, tco: false }),
    {
        Ff800ClkSyncStatus { adat_a: false, adat_b: false, spdif: false, word_clock: false, tco: false }
    }
}

impl Ff800ClkSyncStatus {
    /// The number of quadlets which the status takes.
    pub const QUADLET_COUNT: usize = 2;
}

/// The quadlet 0 after serializing the status into it.
pub open spec fn sync_status_quad0(q: u32, s: Ff800ClkSyncStatus) -> u32 {
    let q = put_flag(q, Q0_SYNC_ADAT_A_MASK, s.adat_a);
    let q = put_flag(q, Q0_SYNC_ADAT_B_MASK, s.adat_b);
    let q = put_flag(q, Q0_SYNC_SPDIF_MASK, s.spdif);
    put_flag(q, Q0_SYNC_WORD_CLOCK_MASK, s.word_clock)
}

/// The fields are read back from the bits of the quadlet.
pub proof fn lemma_sync_status_roundtrip_quad0_facts(q: u32, s: Ff800ClkSyncStatus)
    ensures
        has_flag(sync_status_quad0(q, s), Q0_SYNC_ADAT_A_MASK) == (s.adat_a),
        has_flag(sync_status_quad0(q, s), Q0_SYNC_ADAT_B_MASK) == (s.adat_b),
        has_flag(sync_status_quad0(q, s), Q0_SYNC_SPDIF_MASK) == (s.spdif),
        has_flag(sync_status_quad0(q, s), Q0_SYNC_WORD_CLOCK_MASK) == (s.word_clock),
{
    lemma_flag_bits(s.adat_a, Q0_SYNC_ADAT_A_MASK);
    lemma_flag_bits(s.adat_b, Q0_SYNC_ADAT_B_MASK);
    lemma_flag_bits(s.spdif, Q0_SYNC_SPDIF_MASK);
    lemma_flag_bits(s.word_clock, Q0_SYNC_WORD_CLOCK_MASK);
    lemma_ff800_bits(0, 0, 0, 0, 0, 0, 0, q, flag_bits(s.adat_a, Q0_SYNC_ADAT_A_MASK), flag_bits(s.adat_b, Q0_SYNC_ADAT_B_MASK), flag_bits(s.spdif, Q0_SYNC_SPDIF_MASK), flag_bits(s.word_clock, Q0_SYNC_WORD_CLOCK_MASK), 0, 0, 0, 0, 0, 0, 0, 0, 0, 0, 0, 0, 0, 0, 0, 0, 0, 0, 0, 0, 0, 0, 0, 0, 0, 0, 0, 0, 0, 0, 0, 0, 0, 0, 0, 0, 0, 0, 0, 0, 0, 0, 0, 0, 0, 0, 0, 0, 0, 0, 0, 0, 0, 0, 0, 0, 0, 0, 0, 0, 0, 0, 0, 0, 0, 0, 0, 0, 0, 0, 0, 0, 0, 0, 0, 0, 0, 0, 0, 0, 0, 0, 0, 0, 0, 0, 0, 0, 0, 0, 0, 0, 0, 0, 0, 0);
}

/// The quadlet 1 after serializing the status into it.
pub open spec fn sync_status_quad1(q: u32, s: Ff800ClkSyncStatus) -> u32 {
    put_flag(q, Q1_SYNC_TCO_MASK, s.tco)
}

/// The fields are read back from the bits of the quadlet.
pub proof fn lemma_sync_status_roundtrip_quad1_facts(q: u32, s: Ff800ClkSyncStatus)
    ensures
        has_flag(sync_status_quad1(q, s), Q1_SYNC_TCO_MASK) == (s.tco),
{
    lemma_flag_bits(s.tco, Q1_SYNC_TCO_MASK);
    lemma_ff800_bits(0, 0, 0, 0, 0, 0, 0, 0, 0, 0, 0, 0, q, flag_bits(s.tco, Q1_SYNC_TCO_MASK), 0, 0, 0, 0, 0, 0, 0, 0, 0, 0, 0, 0, 0, 0, 0, 0, 0, 0, 0, 0, 0, 0, 0, 0, 0, 0, 0, 0, 0, 0, 0, 0, 0, 0, 0, 0, 0, 0, 0, 0, 0, 0, 0, 0, 0, 0, 0, 0, 0, 0, 0, 0, 0, 0, 0, 0, 0, 0, 0, 0, 0, 0, 0, 0, 0, 0, 0, 0, 0, 0, 0, 0, 0, 0, 0, 0, 0, 0, 0, 0, 0, 0, 0, 0, 0, 0, 0, 0, 0, 0, 0, 0, 0, 0);
}

/// The status read from the quadlets.
pub open spec fn sync_status_of(q0: u32, q1: u32) -> Ff800ClkSyncStatus {
    Ff800ClkSyncStatus { adat_a: has_flag(q0, Q0_SYNC_ADAT_A_MASK), adat_b: has_flag(q0, Q0_SYNC_ADAT_B_MASK), spdif: has_flag(q0, Q0_SYNC_SPDIF_MASK), word_clock: has_flag(q0, Q0_SYNC_WORD_CLOCK_MASK), tco: has_flag(q1, Q1_SYNC_TCO_MASK) }
}

/// Serialize the status into the quadlets.
pub fn serialize_sync_status(status: &Ff800ClkSyncStatus, quads: &mut [u32])
    requires
        old(quads)@.len() >= Ff800ClkSyncStatus::QUADLET_COUNT,
    ensures
        final(quads)@ == old(quads)@.update(0, sync_status_quad0(old(quads)@[0], *status)).update(
            1,
            sync_status_quad1(old(quads)@[1], *status),
        ),
{
    quads[0] = set_flag(quads[0], Q0_SYNC_ADAT_A_MASK, status.adat_a);
    quads[0] = set_flag(quads[0], Q0_SYNC_ADAT_B_MASK, status.adat_b);
    quads[0] = set_flag(quads[0], Q0_SYNC_SPDIF_MASK, status.spdif);
    quads[0] = set_flag(quads[0], Q0_SYNC_WORD_CLOCK_MASK, status.word_clock);
    quads[1] = set_flag(quads[1], Q1_SYNC_TCO_MASK, status.tco);
}

/// Deserialize the status from the quadlets.
pub fn deserialize_sync_status(status: &mut Ff800ClkSyncStatus, quads: &[u32])
    requires
        quads@.len() >= Ff800ClkSyncStatus::QUADLET_COUNT,
    ensures
        *final(status) == sync_status_of(quads@[0], quads@[1]),
{
    status.adat_a = check_flag(quads[0], Q0_SYNC_ADAT_A_MASK);
    status.adat_b = check_flag(quads[0], Q0_SYNC_ADAT_B_MASK);
    status.spdif = check_flag(quads[0], Q0_SYNC_SPDIF_MASK);
    status.word_clock = check_flag(quads[0], Q0_SYNC_WORD_CLOCK_MASK);
    status.tco = check_flag(quads[1], Q1_SYNC_TCO_MASK);
}

/// Deserializing what was serialized gives the status back.
pub proof fn lemma_sync_status_roundtrip(q0: u32, q1: u32, s: Ff800ClkSyncStatus)
    ensures
        sync_status_of(sync_status_quad0(q0, s), sync_status_quad1(q1, s)) == s,
{
    lemma_sync_status_roundtrip_quad0_facts(q0, s);
    lemma_sync_status_roundtrip_quad1_facts(q1, s);
}

/// Status of clock synchronization.
#[derive(Debug, Copy, Clone, PartialEq, Eq, Structural)]
pub struct Ff800Status {
    /// For S/PDIF input.
    pub spdif_in: SpdifInput,
    /// For S/PDIF output.
    pub spdif_out: FormerSpdifOutput,
    /// The type of signal to optical output interface.
    pub opt_out_signal: OpticalOutputSignal,
    /// Whether to fix speed to single even if at double/quadruple rate.
    pub word_out_single: bool,
    /// For status of synchronization to external clocks.
    pub sync: Ff800ClkSyncStatus,
    /// For status of locking to external clocks.
    pub lock: Ff800ClkLockStatus,
    pub spdif_rate: Option<ClkNominalRate>,
    pub active_clk_src: Ff800ClkSrc,
    pub external_clk_rate: Option<ClkNominalRate>,
    pub configured_clk_src: Ff800ClkSrc,
    pub configured_clk_rate: ClkNominalRate,
}

impl Default for Ff800Status {
    fn default() -> (r: Self)
        ensures
            r == (Ff800Status {
                spdif_in: SpdifInput { iface: SpdifIface::Coaxial, use_preemble: false },
                spdif_out: FormerSpdifOutput {
                    format: SpdifFormat::Consumer,
                    emphasis: false,
                    non_audio: false,
                },
                opt_out_signal: OpticalOutputSignal::Adat,
                word_out_single: false,
                sync: Ff800ClkSyncStatus {
                    adat_a: false,
                    adat_b: false,
                    spdif: false,
                    word_clock: false,
                    tco: false,
                },
                lock: Ff800ClkLockStatus {
                    adat_a: false,
                    adat_b: false,
                    spdif: false,
                    word_clock: false,
                    tco: false,
                },
                spdif_rate: None,
                active_clk_src: Ff800ClkSrc::AdatA,
                external_clk_rate: None,
                configured_clk_src: Ff800ClkSrc::AdatA,
                configured_clk_rate: ClkNominalRate::R44100,
            }),
    {
        Ff800Status {
            spdif_in: SpdifInput::default(),
            spdif_out: FormerSpdifOutput::default(),
            opt_out_signal: OpticalOutputSignal::default(),
            word_out_single: false,
            sync: Ff800ClkSyncStatus::default(),
            lock: Ff800ClkLockStatus::default(),
            spdif_rate: None,
            active_clk_src: Ff800ClkSrc::default(),
            external_clk_rate: None,
            configured_clk_src: Ff800ClkSrc::default(),
            configured_clk_rate: ClkNominalRate::default(),
        }
    }
}

impl Ff800Status {
    /// The number of quadlets which the status takes.
    pub const QUADLET_COUNT: usize = 2;
}

/// The bits of the first fields of the first quadlet of serialized status.
pub open spec fn status_quad0_part0(s: Ff800Status) -> u32 {
    let q = put_flag(0, Q0_LOCK_ADAT_A_MASK, s.lock.adat_a);
    let q = put_flag(q, Q0_LOCK_ADAT_B_MASK, s.lock.adat_b);
    let q = put_flag(q, Q0_LOCK_SPDIF_MASK, s.lock.spdif);
    let q = put_flag(q, Q0_LOCK_WORD_CLOCK_MASK, s.lock.word_clock);
    let q = put_flag(q, Q0_SYNC_ADAT_A_MASK, s.sync.adat_a);
    put_flag(q, Q0_SYNC_ADAT_B_MASK, s.sync.adat_b)
}

/// The fields are read back from the bits of the quadlet.
proof fn status_quad0_part0_facts(s: Ff800Status)
    ensures
        has_flag(status_quad0_part0(s), Q0_LOCK_ADAT_A_MASK) == (s.lock.adat_a),
        has_flag(status_quad0_part0(s), Q0_LOCK_ADAT_B_MASK) == (s.lock.adat_b),
        has_flag(status_quad0_part0(s), Q0_LOCK_SPDIF_MASK) == (s.lock.spdif),
        has_flag(status_quad0_part0(s), Q0_LOCK_WORD_CLOCK_MASK) == (s.lock.word_clock),
        has_flag(status_quad0_part0(s), Q0_SYNC_ADAT_A_MASK) == (s.sync.adat_a),
        has_flag(status_quad0_part0(s), Q0_SYNC_ADAT_B_MASK) == (s.sync.adat_b),
{
    lemma_flag_bits(s.lock.adat_a, Q0_LOCK_ADAT_A_MASK);
    lemma_flag_bits(s.lock.adat_b, Q0_LOCK_ADAT_B_MASK);
    lemma_flag_bits(s.lock.spdif, Q0_LOCK_SPDIF_MASK);
    lemma_flag_bits(s.lock.word_clock, Q0_LOCK_WORD_CLOCK_MASK);
    lemma_flag_bits(s.sync.adat_a, Q0_SYNC_ADAT_A_MASK);
    lemma_flag_bits(s.sync.adat_b, Q0_SYNC_ADAT_B_MASK);
    lemma_opt_spdif_rate_code(s.spdif_rate);
    lemma_active_clk_src_code(s.active_clk_src);
    lemma_opt_ext_clk_rate_code(s.external_clk_rate);
    lemma_ff800_bits(0, 0, 0, 0, 0, 0, 0, 0, 0, 0, 0, 0, 0, 0, 0, flag_bits(s.lock.adat_a, Q0_LOCK_ADAT_A_MASK), flag_bits(s.lock.adat_b, Q0_LOCK_ADAT_B_MASK), flag_bits(s.lock.spdif, Q0_LOCK_SPDIF_MASK), flag_bits(s.lock.word_clock, Q0_LOCK_WORD_CLOCK_MASK), flag_bits(s.sync.adat_a, Q0_SYNC_ADAT_A_MASK), flag_bits(s.sync.adat_b, Q0_SYNC_ADAT_B_MASK), 0, 0, 0, 0, 0, 0, 0, 0, 0, 0, 0, 0, 0, 0, 0, 0, 0, 0, 0, 0, 0, 0, 0, 0, 0, 0, 0, 0, 0, 0, 0, 0, 0, 0, 0, 0, 0, 0, 0, 0, 0, 0, 0, 0, 0, 0, 0, 0, 0, 0, 0, 0, 0, 0, 0, 0, 0, 0, 0, 0, 0, 0, 0, 0, 0, 0, 0, 0, 0, 0, 0, 0, 0, 0, 0, 0, 0, 0, 0, 0, 0, 0, 0, 0, 0, 0, 0);
}

/// The first quadlet of serialized status.
pub open spec fn status_quad0(s: Ff800Status) -> u32 {
    let q = put_flag(status_quad0_part0(s), Q0_SYNC_SPDIF_MASK, s.sync.spdif);
    let q = put_flag(q, Q0_SYNC_WORD_CLOCK_MASK, s.sync.word_clock);
    let q = put_field(q, Q0_SPDIF_RATE_MASK, opt_spdif_rate_flag(s.spdif_rate));
    let q = put_field(q, Q0_ACTIVE_CLK_SRC_MASK, active_clk_src_flag(s.active_clk_src));
    put_field(q, Q0_EXT_CLK_RATE_MASK, opt_ext_clk_rate_flag(s.external_clk_rate))
}

/// The fields are read back from the bits of the quadlet.
proof fn status_quad0_facts(s: Ff800Status)
    ensures
        has_flag(status_quad0(s), Q0_LOCK_ADAT_A_MASK) == (s.lock.adat_a),
        has_flag(status_quad0(s), Q0_LOCK_ADAT_B_MASK) == (s.lock.adat_b),
        has_flag(status_quad0(s), Q0_LOCK_SPDIF_MASK) == (s.lock.spdif),
        has_flag(status_quad0(s), Q0_LOCK_WORD_CLOCK_MASK) == (s.lock.word_clock),
        has_flag(status_quad0(s), Q0_SYNC_ADAT_A_MASK) == (s.sync.adat_a),
        has_flag(status_quad0(s), Q0_SYNC_ADAT_B_MASK) == (s.sync.adat_b),
        has_flag(status_quad0(s), Q0_SYNC_SPDIF_MASK) == (s.sync.spdif),
        has_flag(status_quad0(s), Q0_SYNC_WORD_CLOCK_MASK) == (s.sync.word_clock),
        status_quad0(s) & Q0_SPDIF_RATE_MASK == opt_spdif_rate_flag(s.spdif_rate),
        status_quad0(s) & Q0_ACTIVE_CLK_SRC_MASK == active_clk_src_flag(s.active_clk_src),
        status_quad0(s) & Q0_EXT_CLK_RATE_MASK == opt_ext_clk_rate_flag(s.external_clk_rate),
{
    status_quad0_part0_facts(s);
    lemma_flag_bits(s.sync.spdif, Q0_SYNC_SPDIF_MASK);
    lemma_flag_bits(s.sync.word_clock, Q0_SYNC_WORD_CLOCK_MASK);
    lemma_opt_spdif_rate_code(s.spdif_rate);
    lemma_active_clk_src_code(s.active_clk_src);
    lemma_opt_ext_clk_rate_code(s.external_clk_rate);
    lemma_ff800_bits(0, 0, 0, 0, 0, 0, 0, 0, 0, 0, 0, 0, 0, 0, 0, 0, 0, 0, 0, 0, 0, status_quad0_part0(s), flag_bits(s.sync.spdif, Q0_SYNC_SPDIF_MASK), flag_bits(s.sync.word_clock, Q0_SYNC_WORD_CLOCK_MASK), opt_spdif_rate_flag(s.spdif_rate), active_clk_src_flag(s.active_clk_src), opt_ext_clk_rate_flag(s.external_clk_rate), 0, 0, 0, 0, 0, 0, 0, 0, 0, 0, 0, 0, 0, 0, 0, 0, 0, 0, 0, 0, 0, 0, 0, 0, 0, 0, 0, 0, 0, 0, 0, 0, 0, 0, 0, 0, 0, 0, 0, 0, 0, 0, 0, 0, 0, 0, 0, 0, 0, 0, 0, 0, 0, 0, 0, 0, 0, 0, 0, 0, 0, 0, 0, 0, 0, 0, 0, 0, 0, 0, 0, 0, 0, 0, 0, 0, 0, 0, 0, 0, 0);
}

/// The bits of the first fields of the second quadlet of serialized status.
pub open spec fn status_quad1_part0(s: Ff800Status) -> u32 {
    let q = put_flag(0, Q1_LOCK_TCO_MASK, s.lock.tco);
    let q = put_flag(q, Q1_SYNC_TCO_MASK, s.sync.tco);
    let q = put_flag(q, Q1_SPDIF_IN_IFACE_MASK, s.spdif_in.iface == SpdifIface::Optical);
    let q = put_flag(q, Q1_SPDIF_OUT_FMT_MASK, s.spdif_out.format == SpdifFormat::Professional);
    put_flag(q, Q1_SPDIF_OUT_EMPHASIS_MASK, s.spdif_out.emphasis)
}

/// The fields are read back from the bits of the quadlet.
proof fn status_quad1_part0_facts(s: Ff800Status)
    ensures
        has_flag(status_quad1_part0(s), Q1_LOCK_TCO_MASK) == (s.lock.tco),
        has_flag(status_quad1_part0(s), Q1_SYNC_TCO_MASK) == (s.sync.tco),
        has_flag(status_quad1_part0(s), Q1_SPDIF_IN_IFACE_MASK) == (s.spdif_in.iface == SpdifIface::Optical),
        has_flag(status_quad1_part0(s), Q1_SPDIF_OUT_FMT_MASK) == (s.spdif_out.format == SpdifFormat::Professional),
        has_flag(status_quad1_part0(s), Q1_SPDIF_OUT_EMPHASIS_MASK) == (s.spdif_out.emphasis),
{
    lemma_flag_bits(s.lock.tco, Q1_LOCK_TCO_MASK);
    lemma_flag_bits(s.sync.tco, Q1_SYNC_TCO_MASK);
    lemma_flag_bits(s.spdif_in.iface == SpdifIface::Optical, Q1_SPDIF_IN_IFACE_MASK);
    lemma_flag_bits(s.spdif_out.format == SpdifFormat::Professional, Q1_SPDIF_OUT_FMT_MASK);
    lemma_flag_bits(s.spdif_out.emphasis, Q1_SPDIF_OUT_EMPHASIS_MASK);
    lemma_conf_clk_src_code(s.configured_clk_src);
    lemma_conf_clk_rate_code(s.configured_clk_rate);
    lemma_ff800_bits(0, 0, 0, 0, 0, 0, 0, 0, 0, 0, 0, 0, 0, 0, 0, 0, 0, 0, 0, 0, 0, 0, 0, 0, 0, 0, 0, 0, flag_bits(s.lock.tco, Q1_LOCK_TCO_MASK), flag_bits(s.sync.tco, Q1_SYNC_TCO_MASK), flag_bits(s.spdif_in.iface == SpdifIface::Optical, Q1_SPDIF_IN_IFACE_MASK), flag_bits(s.spdif_out.format == SpdifFormat::Professional, Q1_SPDIF_OUT_FMT_MASK), flag_bits(s.spdif_out.emphasis, Q1_SPDIF_OUT_EMPHASIS_MASK), 0, 0, 0, 0, 0, 0, 0, 0, 0, 0, 0, 0, 0, 0, 0, 0, 0, 0, 0, 0, 0, 0, 0, 0, 0, 0, 0, 0, 0, 0, 0, 0, 0, 0, 0, 0, 0, 0, 0, 0, 0, 0, 0, 0, 0, 0, 0, 0, 0, 0, 0, 0, 0, 0, 0, 0, 0, 0, 0, 0, 0, 0, 0, 0, 0, 0, 0, 0, 0, 0, 0, 0, 0, 0, 0);
}

/// The second quadlet of serialized status.
pub open spec fn status_quad1(s: Ff800Status) -> u32 {
    let q = put_flag(status_quad1_part0(s), Q1_OPT_OUT_SIGNAL_MASK, s.opt_out_signal == OpticalOutputSignal::Spdif);
    let q = put_flag(q, Q1_WORD_OUT_SINGLE_MASK, s.word_out_single);
    let q = put_field(q, Q1_CONF_CLK_SRC_MASK, conf_clk_src_flag(s.configured_clk_src));
    put_field(q, Q1_CONF_CLK_RATE_MASK, conf_clk_rate_flag(s.configured_clk_rate))
}

/// The fields are read back from the bits of the quadlet.
proof fn status_quad1_facts(s: Ff800Status)
    ensures
        has_flag(status_quad1(s), Q1_LOCK_TCO_MASK) == (s.lock.tco),
        has_flag(status_quad1(s), Q1_SYNC_TCO_MASK) == (s.sync.tco),
        has_flag(status_quad1(s), Q1_SPDIF_IN_IFACE_MASK) == (s.spdif_in.iface == SpdifIface::Optical),
        has_flag(status_quad1(s), Q1_SPDIF_OUT_FMT_MASK) == (s.spdif_out.format == SpdifFormat::Professional),
        has_flag(status_quad1(s), Q1_SPDIF_OUT_EMPHASIS_MASK) == (s.spdif_out.emphasis),
        has_flag(status_quad1(s), Q1_OPT_OUT_SIGNAL_MASK) == (s.opt_out_signal == OpticalOutputSignal::Spdif),
        has_flag(status_quad1(s), Q1_WORD_OUT_SINGLE_MASK) == (s.word_out_single),
        status_quad1(s) & Q1_CONF_CLK_SRC_MASK == conf_clk_src_flag(s.configured_clk_src),
        status_quad1(s) & Q1_CONF_CLK_RATE_MASK == conf_clk_rate_flag(s.configured_clk_rate),
{
    status_quad1_part0_facts(s);
    lemma_flag_bits(s.opt_out_signal == OpticalOutputSignal::Spdif, Q1_OPT_OUT_SIGNAL_MASK);
    lemma_flag_bits(s.word_out_single, Q1_WORD_OUT_SINGLE_MASK);
    lemma_conf_clk_src_code(s.configured_clk_src);
    lemma_conf_clk_rate_code(s.configured_clk_rate);
    lemma_ff800_bits(0, 0, 0, 0, 0, 0, 0, 0, 0, 0, 0, 0, 0, 0, 0, 0, 0, 0, 0, 0, 0, 0, 0, 0, 0, 0, 0, 0, 0, 0, 0, 0, 0, status_quad1_part0(s), flag_bits(s.opt_out_signal == OpticalOutputSignal::Spdif, Q1_OPT_OUT_SIGNAL_MASK), flag_bits(s.word_out_single, Q1_WORD_OUT_SINGLE_MASK), conf_clk_src_flag(s.configured_clk_src), conf_clk_rate_flag(s.configured_clk_rate), 0, 0, 0, 0, 0, 0, 0, 0, 0, 0, 0, 0, 0, 0, 0, 0, 0, 0, 0, 0, 0, 0, 0, 0, 0, 0, 0, 0, 0, 0, 0, 0, 0, 0, 0, 0, 0, 0, 0, 0, 0, 0, 0, 0, 0, 0, 0, 0, 0, 0, 0, 0, 0, 0, 0, 0, 0, 0, 0, 0, 0, 0, 0, 0, 0, 0, 0, 0, 0, 0);
}

/// The status read from the quadlets; the fields which the registers do not carry are kept.
pub open spec fn status_from_quads(q0: u32, q1: u32, old: Ff800Status) -> Ff800Status {
    Ff800Status {
        spdif_in: SpdifInput {
            iface: if has_flag(q1, Q1_SPDIF_IN_IFACE_MASK) {
                SpdifIface::Optical
            } else {
                SpdifIface::Coaxial
            },
            ..old.spdif_in
        },
        spdif_out: FormerSpdifOutput {
            format: if has_flag(q1, Q1_SPDIF_OUT_FMT_MASK) {
                SpdifFormat::Professional
            } else {
                SpdifFormat::Consumer
            },
            emphasis: has_flag(q1, Q1_SPDIF_OUT_EMPHASIS_MASK),
            ..old.spdif_out
        },
        opt_out_signal: if has_flag(q1, Q1_OPT_OUT_SIGNAL_MASK) {
            OpticalOutputSignal::Spdif
        } else {
            OpticalOutputSignal::Adat
        },
        word_out_single: has_flag(q1, Q1_WORD_OUT_SINGLE_MASK),
        sync: sync_status_of(q0, q1),
        lock: lock_status_of(q0, q1),
        spdif_rate: spdif_rate_of(q0 & Q0_SPDIF_RATE_MASK),
        active_clk_src: active_clk_src_of(q0 & Q0_ACTIVE_CLK_SRC_MASK),
        external_clk_rate: ext_clk_rate_of(q0 & Q0_EXT_CLK_RATE_MASK),
        configured_clk_src: conf_clk_src_of(q1 & Q1_CONF_CLK_SRC_MASK),
        configured_clk_rate: conf_clk_rate_of(q1 & Q1_CONF_CLK_RATE_MASK),
    }
}

/// Whether the raw data can be deserialized into status.
pub open spec fn status_acceptable(raw: Seq<u8>) -> bool {
    &&& raw.len() >= FORMER_STATUS_SIZE
    &&& active_clk_src_valid(le_quad_at(raw, 0) & Q0_ACTIVE_CLK_SRC_MASK)
}

impl RmeFfOffsetParamsSerialize<Ff800Status> for Ff800Protocol {
    open spec fn offsets_of(params: Ff800Status) -> Seq<u8> {
        le_quads_bytes(seq![status_quad0(params), status_quad1(params)])
    }

    #[verifier::rlimit(40)]
    fn serialize_offsets(params: &Ff800Status) -> (r: Vec<u8>)
        ensures
            r@ == le_quads_bytes(seq![status_quad0(*params), status_quad1(*params)]),
    {
        let mut quads = [0u32, 0u32];
        serialize_lock_status(&params.lock, &mut quads);
        serialize_sync_status(&params.sync, &mut quads);
        let flag = match params.spdif_rate {
            Some(rate) => spdif_rate_flag_exec(rate),
            None => 0,
        };
        quads[0] = set_field(quads[0], Q0_SPDIF_RATE_MASK, flag);
        let flag = active_clk_src_flag_exec(params.active_clk_src);
        quads[0] = set_field(quads[0], Q0_ACTIVE_CLK_SRC_MASK, flag);
        let flag = match params.external_clk_rate {
            Some(rate) => ext_clk_rate_flag_exec(rate),
            None => 0,
        };
        quads[0] = set_field(quads[0], Q0_EXT_CLK_RATE_MASK, flag);
        quads[1] = set_flag(
            quads[1],
            Q1_SPDIF_IN_IFACE_MASK,
            params.spdif_in.iface == SpdifIface::Optical,
        );
        quads[1] = set_flag(
            quads[1],
            Q1_SPDIF_OUT_FMT_MASK,
            params.spdif_out.format == SpdifFormat::Professional,
        );
        quads[1] = set_flag(quads[1], Q1_SPDIF_OUT_EMPHASIS_MASK, params.spdif_out.emphasis);
        quads[1] = set_flag(
            quads[1],
            Q1_OPT_OUT_SIGNAL_MASK,
            params.opt_out_signal == OpticalOutputSignal::Spdif,
        );
        quads[1] = set_flag(quads[1], Q1_WORD_OUT_SINGLE_MASK, params.word_out_single);
        let flag = conf_clk_src_flag_exec(params.configured_clk_src);
        quads[1] = set_field(quads[1], Q1_CONF_CLK_SRC_MASK, flag);
        let flag = conf_clk_rate_flag_exec(params.configured_clk_rate);
        quads[1] = set_field(quads[1], Q1_CONF_CLK_RATE_MASK, flag);
        proof {
            assert(quads@ =~= seq![status_quad0(*params), status_quad1(*params)]);
        }
        quads_to_le_bytes(&quads)
    }
}

impl RmeFfOffsetParamsDeserialize<Ff800Status> for Ff800Protocol {
    open spec fn deserialized(params: Ff800Status, raw: Seq<u8>, after: Ff800Status) -> bool {
        after == status_from_quads(
                le_quad_at(raw, 0),
                le_quad_at(raw, 4),
                params,
            )
    }

    open spec fn offsets_acceptable(params: Ff800Status, raw: Seq<u8>) -> bool {
        status_acceptable(raw)
    }

    fn deserialize_offsets(params: &mut Ff800Status, raw: &[u8])
        ensures
            *final(params) == status_from_quads(
                le_quad_at(raw@, 0),
                le_quad_at(raw@, 4),
                *old(params),
            ),
    {
        let quads = [read_le_quad(raw, 0), read_le_quad(raw, 4)];
        deserialize_lock_status(&mut params.lock, &quads);
        deserialize_sync_status(&mut params.sync, &quads);
        params.spdif_rate = spdif_rate_of_exec(quads[0] & Q0_SPDIF_RATE_MASK);
        params.active_clk_src = active_clk_src_of_exec(quads[0] & Q0_ACTIVE_CLK_SRC_MASK);
        params.external_clk_rate = ext_clk_rate_of_exec(quads[0] & Q0_EXT_CLK_RATE_MASK);
        params.spdif_in.iface = if check_flag(quads[1], Q1_SPDIF_IN_IFACE_MASK) {
            SpdifIface::Optical
        } else {
            SpdifIface::Coaxial
        };
        params.spdif_out.format = if check_flag(quads[1], Q1_SPDIF_OUT_FMT_MASK) {
            SpdifFormat::Professional
        } else {
            SpdifFormat::Consumer
        };
        params.spdif_out.emphasis = check_flag(quads[1], Q1_SPDIF_OUT_EMPHASIS_MASK);
        params.opt_out_signal = if check_flag(quads[1], Q1_OPT_OUT_SIGNAL_MASK) {
            OpticalOutputSignal::Spdif
        } else {
            OpticalOutputSignal::Adat
        };
        params.word_out_single = check_flag(quads[1], Q1_WORD_OUT_SINGLE_MASK);
        params.configured_clk_src = conf_clk_src_of_exec(quads[1] & Q1_CONF_CLK_SRC_MASK);
        params.configured_clk_rate = conf_clk_rate_of_exec(quads[1] & Q1_CONF_CLK_RATE_MASK);
    }
}


/// The status is read back from quadlets which carry the bits of its fields.
#[verifier::rlimit(50)]
pub proof fn lemma_status_from_facts(s: Ff800Status, old: Ff800Status, q0: u32, q1: u32)
    requires
        has_flag(q0, Q0_LOCK_ADAT_A_MASK) == (s.lock.adat_a),
        has_flag(q0, Q0_LOCK_ADAT_B_MASK) == (s.lock.adat_b),
        has_flag(q0, Q0_LOCK_SPDIF_MASK) == (s.lock.spdif),
        has_flag(q0, Q0_LOCK_WORD_CLOCK_MASK) == (s.lock.word_clock),
        has_flag(q0, Q0_SYNC_ADAT_A_MASK) == (s.sync.adat_a),
        has_flag(q0, Q0_SYNC_ADAT_B_MASK) == (s.sync.adat_b),
        has_flag(q0, Q0_SYNC_SPDIF_MASK) == (s.sync.spdif),
        has_flag(q0, Q0_SYNC_WORD_CLOCK_MASK) == (s.sync.word_clock),
        q0 & Q0_SPDIF_RATE_MASK == opt_spdif_rate_flag(s.spdif_rate),
        q0 & Q0_ACTIVE_CLK_SRC_MASK == active_clk_src_flag(s.active_clk_src),
        q0 & Q0_EXT_CLK_RATE_MASK == opt_ext_clk_rate_flag(s.external_clk_rate),
        has_flag(q1, Q1_LOCK_TCO_MASK) == (s.lock.tco),
        has_flag(q1, Q1_SYNC_TCO_MASK) == (s.sync.tco),
        has_flag(q1, Q1_SPDIF_IN_IFACE_MASK) == (s.spdif_in.iface == SpdifIface::Optical),
        has_flag(q1, Q1_SPDIF_OUT_FMT_MASK) == (s.spdif_out.format == SpdifFormat::Professional),
        has_flag(q1, Q1_SPDIF_OUT_EMPHASIS_MASK) == (s.spdif_out.emphasis),
        has_flag(q1, Q1_OPT_OUT_SIGNAL_MASK) == (s.opt_out_signal == OpticalOutputSignal::Spdif),
        has_flag(q1, Q1_WORD_OUT_SINGLE_MASK) == (s.word_out_single),
        q1 & Q1_CONF_CLK_SRC_MASK == conf_clk_src_flag(s.configured_clk_src),
        q1 & Q1_CONF_CLK_RATE_MASK == conf_clk_rate_flag(s.configured_clk_rate),
        old.spdif_in.use_preemble == s.spdif_in.use_preemble,
        old.spdif_out.non_audio == s.spdif_out.non_audio,
    ensures
        active_clk_src_valid(q0 & Q0_ACTIVE_CLK_SRC_MASK),
        status_from_quads(q0, q1, old) == s,
{
    lemma_opt_spdif_rate_code(s.spdif_rate);
    lemma_active_clk_src_code(s.active_clk_src);
    lemma_opt_ext_clk_rate_code(s.external_clk_rate);
    lemma_conf_clk_src_code(s.configured_clk_src);
    lemma_conf_clk_rate_code(s.configured_clk_rate);
    let d = status_from_quads(q0, q1, old);
    assert(d.lock == s.lock);
    assert(d.sync == s.sync);
    assert(d.spdif_in == s.spdif_in);
    assert(d.spdif_out == s.spdif_out);
}

/// Deserializing what was serialized gives the status back, except for the fields which the
/// status registers do not carry (whether to use preemble for S/PDIF input, and whether to transfer
/// non-audio bit for S/PDIF output): those keep their former values.
pub proof fn lemma_status_roundtrip(s: Ff800Status, old: Ff800Status)
    requires
        old.spdif_in.use_preemble == s.spdif_in.use_preemble,
        old.spdif_out.non_audio == s.spdif_out.non_audio,
    ensures
        status_acceptable(le_quads_bytes(seq![status_quad0(s), status_quad1(s)])),
        status_from_quads(
            le_quad_at(le_quads_bytes(seq![status_quad0(s), status_quad1(s)]), 0),
            le_quad_at(le_quads_bytes(seq![status_quad0(s), status_quad1(s)]), 4),
            old,
        ) == s,
{
    let qs = seq![status_quad0(s), status_quad1(s)];
    lemma_le_quads_bytes(qs, 0);
    lemma_le_quads_bytes(qs, 1);
    status_quad0_facts(s);
    status_quad1_facts(s);
    lemma_status_from_facts(s, old, status_quad0(s), status_quad1(s));
}


// NOTE: for first quadlet of configuration quadlets.
pub const Q0_LINE_OUT_LEVEL_MASK: u32 = 0x00001c00;
pub const Q0_LINE_OUT_LEVEL_CON_FLAG: u32 = 0x00001000;
pub const Q0_LINE_OUT_LEVEL_PRO_FLAG: u32 = 0x00000800;
pub const Q0_LINE_OUT_LEVEL_HIGH_FLAG: u32 = 0x00000400;
pub const Q0_INPUT_0_INST_DRIVE_MASK: u32 = 0x00000200;
pub const Q0_INPUT_9_POWERING_MASK: u32 = 0x00000100;
pub const Q0_INPUT_7_POWERING_MASK: u32 = 0x00000080;
pub const Q0_LINE_IN_LEVEL_MASK: u32 = 0x00000038;
pub const Q0_LINE_IN_LEVEL_PRO_FLAG: u32 = 0x00000010;
pub const Q0_LINE_IN_LEVEL_CON_FLAG: u32 = 0x00000020;
pub const Q0_LINE_IN_LEVEL_LOW_FLAG: u32 = 0x00000008;
pub const Q0_INPUT_0_INST_SPKR_EMU_MASK: u32 = 0x00000004;
pub const Q0_INPUT_8_POWERING_MASK: u32 = 0x00000002;
pub const Q0_INPUT_6_POWERING_MASK: u32 = 0x00000001;

// NOTE: for second quadlet of configuration quadlets.
pub const Q1_INPUT_0_FRONT_JACK_MASK: u32 = 0x00000800;
pub const Q1_INPUT_0_INST_DRIVE_MASK: u32 = 0x00000200;
pub const Q1_INPUT_7_REAR_JACK_MASK: u32 = 0x00000100;
pub const Q1_INPUT_7_FRONT_JACK_MASK: u32 = 0x00000080;
pub const Q1_INPUT_6_REAR_JACK_MASK: u32 = 0x00000040;
pub const Q1_INPUT_6_FRONT_JACK_MASK: u32 = 0x00000020;
pub const Q1_LINE_OUT_LEVEL_MASK: u32 = 0x00000018;
pub const Q1_LINE_OUT_LEVEL_PRO_FLAG: u32 = 0x00000018;
pub const Q1_LINE_OUT_LEVEL_HIGH_FLAG: u32 = 0x00000010;
pub const Q1_LINE_OUT_LEVEL_CON_FLAG: u32 = 0x00000008;
pub const Q1_INPUT_0_REAR_JACK_MASK: u32 = 0x00000004;
pub const Q1_LINE_IN_LEVEL_MASK: u32 = 0x00000003;
pub const Q1_LINE_IN_LEVEL_CON_FLAG: u32 = 0x00000003;
pub const Q1_LINE_IN_LEVEL_PRO_FLAG: u32 = 0x00000002;
pub const Q1_LINE_IN_LEVEL_LOW_FLAG: u32 = 0x00000000;

// NOTE: for third quadlet of configuration quadlets.
pub const Q2_SPDIF_IN_USE_PREEMBLE: u32 = 0x40000000;
pub const Q2_INPUT_0_INST_LIMITTER_MASK: u32 = 0x00010000;
pub const Q2_WORD_OUT_SINGLE_SPEED_MASK: u32 = 0x00002000;
pub const Q2_CLK_SRC_MASK: u32 = 0x00001c01;
pub const Q2_CLK_SRC_TCO_FLAG: u32 = 0x00001c00;
pub const Q2_CLK_SRC_WORD_CLK_FLAG: u32 = 0x00001400;
pub const Q2_CLK_SRC_SPDIF_FLAG: u32 = 0x00000c00;
pub const Q2_CLK_SRC_ADAT_B_FLAG: u32 = 0x00000400;
pub const Q2_CLK_SRC_INTERNAL_FLAG: u32 = 0x00000001;
pub const Q2_CLK_SRC_ADAT_A_FLAG: u32 = 0x00000000;
pub const Q2_SPDIF_IN_IFACE_OPT_MASK: u32 = 0x00000200;
pub const Q2_OPT_OUT_SIGNAL_MASK: u32 = 0x00000100;
pub const Q2_SPDIF_OUT_NON_AUDIO_MASK: u32 = 0x00000080;
pub const Q2_SPDIF_OUT_EMPHASIS_MASK: u32 = 0x00000040;
pub const Q2_SPDIF_OUT_FMT_PRO_MASK: u32 = 0x00000020;
pub const Q2_CLK_AVAIL_RATE_QUADRUPLE_MASK: u32 = 0x00000010;
pub const Q2_CLK_AVAIL_RATE_DOUBLE_MASK: u32 = 0x00000008;
pub const Q2_CLK_AVAIL_RATE_BASE_48000_MASK: u32 = 0x00000004;
pub const Q2_CLK_AVAIL_RATE_BASE_44100_MASK: u32 = 0x00000002;
pub const Q2_CONTINUE_AT_ERRORS: u32 = 0x80000000;

/// The flag of primary source of sampling clock in configuration.
#[verifier::opaque]
pub open spec fn clk_src_flag(src: Ff800ClkSrc) -> u32 {
    match src {
        Ff800ClkSrc::Internal => Q2_CLK_SRC_INTERNAL_FLAG,
        Ff800ClkSrc::WordClock => Q2_CLK_SRC_WORD_CLK_FLAG,
        Ff800ClkSrc::AdatA => Q2_CLK_SRC_ADAT_A_FLAG,
        Ff800ClkSrc::AdatB => Q2_CLK_SRC_ADAT_B_FLAG,
        Ff800ClkSrc::Spdif => Q2_CLK_SRC_SPDIF_FLAG,
        Ff800ClkSrc::Tco => Q2_CLK_SRC_TCO_FLAG,
    }
}

/// Each value of `Ff800ClkSrc` has its own value in `clk_src_flag`, as the device knows it.
pub proof fn lemma_clk_src_flag_table()
    ensures
        clk_src_flag(Ff800ClkSrc::Internal) == Q2_CLK_SRC_INTERNAL_FLAG,
        clk_src_flag(Ff800ClkSrc::WordClock) == Q2_CLK_SRC_WORD_CLK_FLAG,
        clk_src_flag(Ff800ClkSrc::AdatA) == Q2_CLK_SRC_ADAT_A_FLAG,
        clk_src_flag(Ff800ClkSrc::AdatB) == Q2_CLK_SRC_ADAT_B_FLAG,
        clk_src_flag(Ff800ClkSrc::Spdif) == Q2_CLK_SRC_SPDIF_FLAG,
        clk_src_flag(Ff800ClkSrc::Tco) == Q2_CLK_SRC_TCO_FLAG,
{
    reveal(clk_src_flag);
}

fn clk_src_flag_exec(src: Ff800ClkSrc) -> (r: u32)
    ensures
        r == clk_src_flag(src),
{
    proof {
        reveal(clk_src_flag);
    }
    match src {
        Ff800ClkSrc::Internal => Q2_CLK_SRC_INTERNAL_FLAG,
        Ff800ClkSrc::WordClock => Q2_CLK_SRC_WORD_CLK_FLAG,
        Ff800ClkSrc::AdatA => Q2_CLK_SRC_ADAT_A_FLAG,
        Ff800ClkSrc::AdatB => Q2_CLK_SRC_ADAT_B_FLAG,
        Ff800ClkSrc::Spdif => Q2_CLK_SRC_SPDIF_FLAG,
        Ff800ClkSrc::Tco => Q2_CLK_SRC_TCO_FLAG,
    }
}

/// The primary source of sampling clock in configuration; unknown bits stand for ADAT A.
#[verifier::opaque]
pub open spec fn clk_src_of(val: u32) -> Ff800ClkSrc {
    if val == Q2_CLK_SRC_INTERNAL_FLAG {
        Ff800ClkSrc::Internal
    } else if val == Q2_CLK_SRC_WORD_CLK_FLAG {
        Ff800ClkSrc::WordClock
    } else if val == Q2_CLK_SRC_ADAT_B_FLAG {
        Ff800ClkSrc::AdatB
    } else if val == Q2_CLK_SRC_SPDIF_FLAG {
        Ff800ClkSrc::Spdif
    } else if val == Q2_CLK_SRC_TCO_FLAG {
        Ff800ClkSrc::Tco
    } else {
        Ff800ClkSrc::AdatA
    }
}

/// Each value which the device uses is read by `clk_src_of` as its own `Ff800ClkSrc`.
pub proof fn lemma_clk_src_of_table()
    ensures
        clk_src_of(Q2_CLK_SRC_INTERNAL_FLAG) == Ff800ClkSrc::Internal,
        clk_src_of(Q2_CLK_SRC_WORD_CLK_FLAG) == Ff800ClkSrc::WordClock,
        clk_src_of(Q2_CLK_SRC_ADAT_B_FLAG) == Ff800ClkSrc::AdatB,
        clk_src_of(Q2_CLK_SRC_SPDIF_FLAG) == Ff800ClkSrc::Spdif,
        clk_src_of(Q2_CLK_SRC_TCO_FLAG) == Ff800ClkSrc::Tco,
{
    reveal(clk_src_of);
}

fn clk_src_of_exec(val: u32) -> (r: Ff800ClkSrc)
    ensures
        r == clk_src_of(val),
{
    proof {
        reveal(clk_src_of);
    }
    if val == Q2_CLK_SRC_INTERNAL_FLAG {
        Ff800ClkSrc::Internal
    } else if val == Q2_CLK_SRC_WORD_CLK_FLAG {
        Ff800ClkSrc::WordClock
    } else if val == Q2_CLK_SRC_ADAT_B_FLAG {
        Ff800ClkSrc::AdatB
    } else if val == Q2_CLK_SRC_SPDIF_FLAG {
        Ff800ClkSrc::Spdif
    } else if val == Q2_CLK_SRC_TCO_FLAG {
        Ff800ClkSrc::Tco
    } else {
        Ff800ClkSrc::AdatA
    }
}

/// Whether the bits stand for a primary source of sampling clock.
pub open spec fn clk_src_flag_valid(val: u32) -> bool {
    val == Q2_CLK_SRC_INTERNAL_FLAG || val == Q2_CLK_SRC_WORD_CLK_FLAG || val == Q2_CLK_SRC_ADAT_A_FLAG || val == Q2_CLK_SRC_ADAT_B_FLAG || val == Q2_CLK_SRC_SPDIF_FLAG || val == Q2_CLK_SRC_TCO_FLAG
}

/// Each value is read back from its flag.
pub proof fn lemma_clk_src_code(v: Ff800ClkSrc)
    ensures
        clk_src_flag_valid(clk_src_flag(v)),
        clk_src_of(clk_src_flag(v)) == v,
{
    reveal(clk_src_flag);
    reveal(clk_src_of);
}

/// The flag of nominal level of line inputs in the first quadlet.
#[verifier::opaque]
pub open spec fn line_in_level_flag0(level: FormerLineInNominalLevel) -> u32 {
    match level {
        FormerLineInNominalLevel::Low => Q0_LINE_IN_LEVEL_LOW_FLAG,
        FormerLineInNominalLevel::Consumer => Q0_LINE_IN_LEVEL_CON_FLAG,
        FormerLineInNominalLevel::Professional => Q0_LINE_IN_LEVEL_PRO_FLAG,
    }
}

/// Each value of `FormerLineInNominalLevel` has its own value in `line_in_level_flag0`, as the device knows it.
pub proof fn lemma_line_in_level_flag0_table()
    ensures
        line_in_level_flag0(FormerLineInNominalLevel::Low) == Q0_LINE_IN_LEVEL_LOW_FLAG,
        line_in_level_flag0(FormerLineInNominalLevel::Consumer) == Q0_LINE_IN_LEVEL_CON_FLAG,
        line_in_level_flag0(FormerLineInNominalLevel::Professional) == Q0_LINE_IN_LEVEL_PRO_FLAG,
{
    reveal(line_in_level_flag0);
}

fn line_in_level_flag0_exec(level: FormerLineInNominalLevel) -> (r: u32)
    ensures
        r == line_in_level_flag0(level),
{
    proof {
        reveal(line_in_level_flag0);
    }
    match level {
        FormerLineInNominalLevel::Low => Q0_LINE_IN_LEVEL_LOW_FLAG,
        FormerLineInNominalLevel::Consumer => Q0_LINE_IN_LEVEL_CON_FLAG,
        FormerLineInNominalLevel::Professional => Q0_LINE_IN_LEVEL_PRO_FLAG,
    }
}

/// The flag of nominal level of line inputs in the second quadlet.
#[verifier::opaque]
pub open spec fn line_in_level_flag1(level: FormerLineInNominalLevel) -> u32 {
    match level {
        FormerLineInNominalLevel::Low => Q1_LINE_IN_LEVEL_LOW_FLAG,
        FormerLineInNominalLevel::Consumer => Q1_LINE_IN_LEVEL_CON_FLAG,
        FormerLineInNominalLevel::Professional => Q1_LINE_IN_LEVEL_PRO_FLAG,
    }
}

/// Each value of `FormerLineInNominalLevel` has its own value in `line_in_level_flag1`, as the device knows it.
pub proof fn lemma_line_in_level_flag1_table()
    ensures
        line_in_level_flag1(FormerLineInNominalLevel::Low) == Q1_LINE_IN_LEVEL_LOW_FLAG,
        line_in_level_flag1(FormerLineInNominalLevel::Consumer) == Q1_LINE_IN_LEVEL_CON_FLAG,
        line_in_level_flag1(FormerLineInNominalLevel::Professional) == Q1_LINE_IN_LEVEL_PRO_FLAG,
{
    reveal(line_in_level_flag1);
}

fn line_in_level_flag1_exec(level: FormerLineInNominalLevel) -> (r: u32)
    ensures
        r == line_in_level_flag1(level),
{
    proof {
        reveal(line_in_level_flag1);
    }
    match level {
        FormerLineInNominalLevel::Low => Q1_LINE_IN_LEVEL_LOW_FLAG,
        FormerLineInNominalLevel::Consumer => Q1_LINE_IN_LEVEL_CON_FLAG,
        FormerLineInNominalLevel::Professional => Q1_LINE_IN_LEVEL_PRO_FLAG,
    }
}

/// Whether the bits in the first quadlet stand for a nominal level of line inputs.
pub open spec fn line_in_level_flag0_valid(val: u32) -> bool {
    val == Q0_LINE_IN_LEVEL_LOW_FLAG || val == Q0_LINE_IN_LEVEL_CON_FLAG || val == Q0_LINE_IN_LEVEL_PRO_FLAG
}

/// Whether the bits in the second quadlet stand for a nominal level of line inputs.
pub open spec fn line_in_level_flag1_valid(val: u32) -> bool {
    val == Q1_LINE_IN_LEVEL_LOW_FLAG || val == Q1_LINE_IN_LEVEL_CON_FLAG || val == Q1_LINE_IN_LEVEL_PRO_FLAG
}

/// The flag of nominal level of line outputs in the first quadlet.
#[verifier::opaque]
pub open spec fn line_out_level_flag0(level: LineOutNominalLevel) -> u32 {
    match level {
        LineOutNominalLevel::High => Q0_LINE_OUT_LEVEL_HIGH_FLAG,
        LineOutNominalLevel::Consumer => Q0_LINE_OUT_LEVEL_CON_FLAG,
        LineOutNominalLevel::Professional => Q0_LINE_OUT_LEVEL_PRO_FLAG,
    }
}

/// Each value of `LineOutNominalLevel` has its own value in `line_out_level_flag0`, as the device knows it.
pub proof fn lemma_line_out_level_flag0_table()
    ensures
        line_out_level_flag0(LineOutNominalLevel::High) == Q0_LINE_OUT_LEVEL_HIGH_FLAG,
        line_out_level_flag0(LineOutNominalLevel::Consumer) == Q0_LINE_OUT_LEVEL_CON_FLAG,
        line_out_level_flag0(LineOutNominalLevel::Professional) == Q0_LINE_OUT_LEVEL_PRO_FLAG,
{
    reveal(line_out_level_flag0);
}

fn line_out_level_flag0_exec(level: LineOutNominalLevel) -> (r: u32)
    ensures
        r == line_out_level_flag0(level),
{
    proof {
        reveal(line_out_level_flag0);
    }
    match level {
        LineOutNominalLevel::High => Q0_LINE_OUT_LEVEL_HIGH_FLAG,
        LineOutNominalLevel::Consumer => Q0_LINE_OUT_LEVEL_CON_FLAG,
        LineOutNominalLevel::Professional => Q0_LINE_OUT_LEVEL_PRO_FLAG,
    }
}

/// The flag of nominal level of line outputs in the second quadlet.
#[verifier::opaque]
pub open spec fn line_out_level_flag1(level: LineOutNominalLevel) -> u32 {
    match level {
        LineOutNominalLevel::High => Q1_LINE_OUT_LEVEL_HIGH_FLAG,
        LineOutNominalLevel::Consumer => Q1_LINE_OUT_LEVEL_CON_FLAG,
        LineOutNominalLevel::Professional => Q1_LINE_OUT_LEVEL_PRO_FLAG,
    }
}

/// Each value of `LineOutNominalLevel` has its own value in `line_out_level_flag1`, as the device knows it.
pub proof fn lemma_line_out_level_flag1_table()
    ensures
        line_out_level_flag1(LineOutNominalLevel::High) == Q1_LINE_OUT_LEVEL_HIGH_FLAG,
        line_out_level_flag1(LineOutNominalLevel::Consumer) == Q1_LINE_OUT_LEVEL_CON_FLAG,
        line_out_level_flag1(LineOutNominalLevel::Professional) == Q1_LINE_OUT_LEVEL_PRO_FLAG,
{
    reveal(line_out_level_flag1);
}

fn line_out_level_flag1_exec(level: LineOutNominalLevel) -> (r: u32)
    ensures
        r == line_out_level_flag1(level),
{
    proof {
        reveal(line_out_level_flag1);
    }
    match level {
        LineOutNominalLevel::High => Q1_LINE_OUT_LEVEL_HIGH_FLAG,
        LineOutNominalLevel::Consumer => Q1_LINE_OUT_LEVEL_CON_FLAG,
        LineOutNominalLevel::Professional => Q1_LINE_OUT_LEVEL_PRO_FLAG,
    }
}

/// Whether the bits in the first quadlet stand for a nominal level of line outputs.
pub open spec fn line_out_level_flag0_valid(val: u32) -> bool {
    val == Q0_LINE_OUT_LEVEL_HIGH_FLAG || val == Q0_LINE_OUT_LEVEL_CON_FLAG || val == Q0_LINE_OUT_LEVEL_PRO_FLAG
}

/// Whether the bits in the second quadlet stand for a nominal level of line outputs.
pub open spec fn line_out_level_flag1_valid(val: u32) -> bool {
    val == Q1_LINE_OUT_LEVEL_HIGH_FLAG || val == Q1_LINE_OUT_LEVEL_CON_FLAG || val == Q1_LINE_OUT_LEVEL_PRO_FLAG
}

/// Configurations of sampling clock.
#[derive(Debug, Copy, Clone, PartialEq, Eq, Structural)]
pub struct Ff800ClkConfig {
    pub primary_src: Ff800ClkSrc,
    pub avail_rate_44100: bool,
    pub avail_rate_48000: bool,
    pub avail_rate_double: bool,
    pub avail_rate_quadruple: bool,
}

impl Default for Ff800ClkConfig {
    fn default() -> (r: Self)
        ensures
            r == (Ff800ClkConfig {
                primary_src: Ff800ClkSrc::AdatA,
                avail_rate_44100: true,
                avail_rate_48000: true,
                avail_rate_double: true,
                avail_rate_quadruple: true,
            }),
    {
        Ff800ClkConfig {
            primary_src: Ff800ClkSrc::default(),
            avail_rate_44100: true,
            avail_rate_48000: true,
            avail_rate_double: true,
            avail_rate_quadruple: true,
        }
    }
}

impl Ff800ClkConfig {
    /// The number of quadlets which the configuration takes.
    pub const QUADLET_COUNT: usize = 3;
}

/// The third quadlet after serializing the configuration of sampling clock into it.
pub open spec fn clock_config_quad(q: u32, c: Ff800ClkConfig) -> u32 {
    let q = put_field(q, Q2_CLK_SRC_MASK, clk_src_flag(c.primary_src));
    let q = put_flag(q, Q2_CLK_AVAIL_RATE_BASE_44100_MASK, c.avail_rate_44100);
    let q = put_flag(q, Q2_CLK_AVAIL_RATE_BASE_48000_MASK, c.avail_rate_48000);
    let q = put_flag(q, Q2_CLK_AVAIL_RATE_DOUBLE_MASK, c.avail_rate_double);
    put_flag(q, Q2_CLK_AVAIL_RATE_QUADRUPLE_MASK, c.avail_rate_quadruple)
}

/// The fields are read back from the bits of the quadlet.
pub proof fn lemma_clock_config_facts(q: u32, c: Ff800ClkConfig)
    ensures
        clock_config_quad(q, c) & Q2_CLK_SRC_MASK == clk_src_flag(c.primary_src),
        has_flag(clock_config_quad(q, c), Q2_CLK_AVAIL_RATE_BASE_44100_MASK) == (c.avail_rate_44100),
        has_flag(clock_config_quad(q, c), Q2_CLK_AVAIL_RATE_BASE_48000_MASK) == (c.avail_rate_48000),
        has_flag(clock_config_quad(q, c), Q2_CLK_AVAIL_RATE_DOUBLE_MASK) == (c.avail_rate_double),
        has_flag(clock_config_quad(q, c), Q2_CLK_AVAIL_RATE_QUADRUPLE_MASK) == (c.avail_rate_quadruple),
{
    lemma_flag_bits(c.avail_rate_44100, Q2_CLK_AVAIL_RATE_BASE_44100_MASK);
    lemma_flag_bits(c.avail_rate_48000, Q2_CLK_AVAIL_RATE_BASE_48000_MASK);
    lemma_flag_bits(c.avail_rate_double, Q2_CLK_AVAIL_RATE_DOUBLE_MASK);
    lemma_flag_bits(c.avail_rate_quadruple, Q2_CLK_AVAIL_RATE_QUADRUPLE_MASK);
    lemma_clk_src_code(c.primary_src);
    lemma_ff800_bits(0, 0, 0, 0, 0, 0, 0, 0, 0, 0, 0, 0, 0, 0, 0, 0, 0, 0, 0, 0, 0, 0, 0, 0, 0, 0, 0, 0, 0, 0, 0, 0, 0, 0, 0, 0, 0, 0, q, clk_src_flag(c.primary_src), flag_bits(c.avail_rate_44100, Q2_CLK_AVAIL_RATE_BASE_44100_MASK), flag_bits(c.avail_rate_48000, Q2_CLK_AVAIL_RATE_BASE_48000_MASK), flag_bits(c.avail_rate_double, Q2_CLK_AVAIL_RATE_DOUBLE_MASK), flag_bits(c.avail_rate_quadruple, Q2_CLK_AVAIL_RATE_QUADRUPLE_MASK), 0, 0, 0, 0, 0, 0, 0, 0, 0, 0, 0, 0, 0, 0, 0, 0, 0, 0, 0, 0, 0, 0, 0, 0, 0, 0, 0, 0, 0, 0, 0, 0, 0, 0, 0, 0, 0, 0, 0, 0, 0, 0, 0, 0, 0, 0, 0, 0, 0, 0, 0, 0, 0, 0, 0, 0, 0, 0, 0, 0, 0, 0, 0, 0);
}

/// The configuration of sampling clock read from the third quadlet.
pub open spec fn clock_config_of(q: u32) -> Ff800ClkConfig {
    Ff800ClkConfig {
        primary_src: clk_src_of(q & Q2_CLK_SRC_MASK),
        avail_rate_44100: has_flag(q, Q2_CLK_AVAIL_RATE_BASE_44100_MASK),
        avail_rate_48000: has_flag(q, Q2_CLK_AVAIL_RATE_BASE_48000_MASK),
        avail_rate_double: has_flag(q, Q2_CLK_AVAIL_RATE_DOUBLE_MASK),
        avail_rate_quadruple: has_flag(q, Q2_CLK_AVAIL_RATE_QUADRUPLE_MASK),
    }
}

/// Serialize the configuration of sampling clock into the quadlets.
pub fn serialize_clock_config(config: &Ff800ClkConfig, quads: &mut [u32])
    requires
        old(quads)@.len() >= Ff800ClkConfig::QUADLET_COUNT,
    ensures
        final(quads)@ == old(quads)@.update(2, clock_config_quad(old(quads)@[2], *config)),
{
    let flag = clk_src_flag_exec(config.primary_src);
    quads[2] = set_field(quads[2], Q2_CLK_SRC_MASK, flag);
    quads[2] = set_flag(quads[2], Q2_CLK_AVAIL_RATE_BASE_44100_MASK, config.avail_rate_44100);
    quads[2] = set_flag(quads[2], Q2_CLK_AVAIL_RATE_BASE_48000_MASK, config.avail_rate_48000);
    quads[2] = set_flag(quads[2], Q2_CLK_AVAIL_RATE_DOUBLE_MASK, config.avail_rate_double);
    quads[2] = set_flag(quads[2], Q2_CLK_AVAIL_RATE_QUADRUPLE_MASK, config.avail_rate_quadruple);
}

/// Deserialize the configuration of sampling clock from the quadlets.
pub fn deserialize_clock_config(config: &mut Ff800ClkConfig, quads: &[u32])
    requires
        quads@.len() >= Ff800ClkConfig::QUADLET_COUNT,
    ensures
        *final(config) == clock_config_of(quads@[2]),
{
    config.primary_src = clk_src_of_exec(quads[2] & Q2_CLK_SRC_MASK);
    config.avail_rate_44100 = check_flag(quads[2], Q2_CLK_AVAIL_RATE_BASE_44100_MASK);
    config.avail_rate_48000 = check_flag(quads[2], Q2_CLK_AVAIL_RATE_BASE_48000_MASK);
    config.avail_rate_double = check_flag(quads[2], Q2_CLK_AVAIL_RATE_DOUBLE_MASK);
    config.avail_rate_quadruple = check_flag(quads[2], Q2_CLK_AVAIL_RATE_QUADRUPLE_MASK);
}

/// Deserializing what was serialized gives the configuration of sampling clock back.
pub proof fn lemma_clock_config_roundtrip(q: u32, c: Ff800ClkConfig)
    ensures
        clock_config_of(clock_config_quad(q, c)) == c,
{
    lemma_clock_config_facts(q, c);
    lemma_clk_src_code(c.primary_src);
}

/// Configurations for instrument.
#[derive(Debug, Copy, Clone, PartialEq, Eq, Structural)]
pub struct Ff800InstConfig {
    /// Whether to add extra gain by 25 dB.
    pub drive: bool,
    /// Whether to soft limitter to reduce by -10 dB.
    pub limitter: bool,
    /// Whether to enable low pass and high pass filter.
    pub speaker_emulation: bool,
}

impl Default for Ff800InstConfig {
    fn default() -> (r: Self)
        ensures
            r == (Ff800InstConfig { drive: false, limitter: false, speaker_emulation: false }),
    {
        Ff800InstConfig { drive: false, limitter: false, speaker_emulation: false }
    }
}

impl Ff800InstConfig {
    /// The number of quadlets which the configuration takes.
    pub const QUADLET_COUNT: usize = 3;
}

/// The first quadlet after serializing the configuration for instrument into it.
pub open spec fn inst_config_quad0(q: u32, c: Ff800InstConfig) -> u32 {
    let q = put_flag(q, Q0_INPUT_0_INST_DRIVE_MASK, c.drive);
    put_flag(q, Q0_INPUT_0_INST_SPKR_EMU_MASK, c.speaker_emulation)
}

/// The fields are read back from the bits of the quadlet.
pub proof fn lemma_inst_config_quad0_facts(q: u32, c: Ff800InstConfig)
    ensures
        has_flag(inst_config_quad0(q, c), Q0_INPUT_0_INST_DRIVE_MASK) == (c.drive),
        has_flag(inst_config_quad0(q, c), Q0_INPUT_0_INST_SPKR_EMU_MASK) == (c.speaker_emulation),
{
    lemma_flag_bits(c.drive, Q0_INPUT_0_INST_DRIVE_MASK);
    lemma_flag_bits(c.speaker_emulation, Q0_INPUT_0_INST_SPKR_EMU_MASK);
    lemma_ff800_bits(0, 0, 0, 0, 0, 0, 0, 0, 0, 0, 0, 0, 0, 0, 0, 0, 0, 0, 0, 0, 0, 0, 0, 0, 0, 0, 0, 0, 0, 0, 0, 0, 0, 0, 0, 0, 0, 0, 0, 0, 0, 0, 0, 0, q, flag_bits(c.drive, Q0_INPUT_0_INST_DRIVE_MASK), flag_bits(c.speaker_emulation, Q0_INPUT_0_INST_SPKR_EMU_MASK), 0, 0, 0, 0, 0, 0, 0, 0, 0, 0, 0, 0, 0, 0, 0, 0, 0, 0, 0, 0, 0, 0, 0, 0, 0, 0, 0, 0, 0, 0, 0, 0, 0, 0, 0, 0, 0, 0, 0, 0, 0, 0, 0, 0, 0, 0, 0, 0, 0, 0, 0, 0, 0, 0, 0, 0, 0, 0, 0, 0, 0);
}

/// The second quadlet after serializing the configuration for instrument into it.
pub open spec fn inst_config_quad1(q: u32, c: Ff800InstConfig) -> u32 {
    put_flag(q, Q1_INPUT_0_INST_DRIVE_MASK, c.drive)
}

/// The third quadlet after serializing the configuration for instrument into it.
pub open spec fn inst_config_quad2(q: u32, c: Ff800InstConfig) -> u32 {
    put_flag(q, Q2_INPUT_0_INST_LIMITTER_MASK, c.limitter)
}

/// The fields are read back from the bits of the quadlet.
pub proof fn lemma_inst_config_quad2_facts(q: u32, c: Ff800InstConfig)
    ensures
        has_flag(inst_config_quad2(q, c), Q2_INPUT_0_INST_LIMITTER_MASK) == (c.limitter),
{
    lemma_flag_bits(c.limitter, Q2_INPUT_0_INST_LIMITTER_MASK);
    lemma_ff800_bits(0, 0, 0, 0, 0, 0, 0, 0, 0, 0, 0, 0, 0, 0, 0, 0, 0, 0, 0, 0, 0, 0, 0, 0, 0, 0, 0, 0, 0, 0, 0, 0, 0, 0, 0, 0, 0, 0, 0, 0, 0, 0, 0, 0, 0, 0, 0, 0, 0, q, flag_bits(c.limitter, Q2_INPUT_0_INST_LIMITTER_MASK), 0, 0, 0, 0, 0, 0, 0, 0, 0, 0, 0, 0, 0, 0, 0, 0, 0, 0, 0, 0, 0, 0, 0, 0, 0, 0, 0, 0, 0, 0, 0, 0, 0, 0, 0, 0, 0, 0, 0, 0, 0, 0, 0, 0, 0, 0, 0, 0, 0, 0, 0, 0, 0, 0, 0, 0, 0);
}

/// The configuration for instrument read from the quadlets. The switch to drive is read twice
/// from the first quadlet, at the position of each quadlet.
pub open spec fn inst_config_of(q0: u32, q2: u32) -> Ff800InstConfig {
    Ff800InstConfig {
        drive: has_flag(q0, Q0_INPUT_0_INST_DRIVE_MASK) && has_flag(q0, Q1_INPUT_0_INST_DRIVE_MASK),
        limitter: has_flag(q2, Q2_INPUT_0_INST_LIMITTER_MASK),
        speaker_emulation: has_flag(q0, Q0_INPUT_0_INST_SPKR_EMU_MASK),
    }
}

/// Serialize the configuration for instrument into the quadlets.
pub fn serialize_instrument_config(config: &Ff800InstConfig, quads: &mut [u32])
    requires
        old(quads)@.len() >= Ff800InstConfig::QUADLET_COUNT,
    ensures
        final(quads)@ == old(quads)@.update(0, inst_config_quad0(old(quads)@[0], *config)).update(
            1,
            inst_config_quad1(old(quads)@[1], *config),
        ).update(2, inst_config_quad2(old(quads)@[2], *config)),
{
    quads[0] = set_flag(quads[0], Q0_INPUT_0_INST_DRIVE_MASK, config.drive);
    quads[1] = set_flag(quads[1], Q1_INPUT_0_INST_DRIVE_MASK, config.drive);
    quads[2] = set_flag(quads[2], Q2_INPUT_0_INST_LIMITTER_MASK, config.limitter);
    quads[0] = set_flag(quads[0], Q0_INPUT_0_INST_SPKR_EMU_MASK, config.speaker_emulation);
}

/// Deserialize the configuration for instrument from the quadlets.
pub fn deserialize_instrument_config(config: &mut Ff800InstConfig, quads: &[u32])
    requires
        quads@.len() >= Ff800InstConfig::QUADLET_COUNT,
    ensures
        *final(config) == inst_config_of(quads@[0], quads@[2]),
{
    config.drive = check_flag(quads[0], Q0_INPUT_0_INST_DRIVE_MASK) && check_flag(
        quads[0],
        Q1_INPUT_0_INST_DRIVE_MASK,
    );
    config.limitter = check_flag(quads[2], Q2_INPUT_0_INST_LIMITTER_MASK);
    config.speaker_emulation = check_flag(quads[0], Q0_INPUT_0_INST_SPKR_EMU_MASK);
}

/// Deserializing what was serialized gives the configuration for instrument back.
pub proof fn lemma_instrument_config_roundtrip(q0: u32, q2: u32, c: Ff800InstConfig)
    ensures
        inst_config_of(inst_config_quad0(q0, c), inst_config_quad2(q2, c)) == c,
{
    lemma_inst_config_quad0_facts(q0, c);
    lemma_inst_config_quad2_facts(q2, c);
}

/// Jack of analog inputs.
#[derive(Debug, Copy, Clone, PartialEq, Eq, Structural)]
pub enum Ff800AnalogInputJack {
    Front,
    Rear,
    FrontRear,
}

impl Default for Ff800AnalogInputJack {
    fn default() -> (r: Self)
        ensures
            r == Ff800AnalogInputJack::Front,
    {
        Ff800AnalogInputJack::Front
    }
}

/// Configuration for analog inputs.
#[derive(Debug, Copy, Clone, PartialEq, Eq)]
pub struct Ff800AnalogInConfig {
    /// Whether to use rear jack instead of front jack for input 1, 7, and 8.
    pub jacks: [Ff800AnalogInputJack; 3],
    /// The nominal level of audio signal for line input.
    pub line_level: FormerLineInNominalLevel,
    /// Whether to deliver +48 V powering for mic 7, 8, 9, 10.
    pub phantom_powering: [bool; 4],
    /// The configurations for instrument input.
    pub inst: Ff800InstConfig,
}

impl Default for Ff800AnalogInConfig {
    fn default() -> (r: Self)
        ensures
            r == (Ff800AnalogInConfig {
                jacks: [
                    Ff800AnalogInputJack::Front,
                    Ff800AnalogInputJack::Front,
                    Ff800AnalogInputJack::Front,
                ],
                line_level: FormerLineInNominalLevel::Low,
                phantom_powering: [false, false, false, false],
                inst: Ff800InstConfig { drive: false, limitter: false, speaker_emulation: false },
            }),
    {
        Ff800AnalogInConfig {
            jacks: [
                Ff800AnalogInputJack::default(),
                Ff800AnalogInputJack::default(),
                Ff800AnalogInputJack::default(),
            ],
            line_level: FormerLineInNominalLevel::default(),
            phantom_powering: [false, false, false, false],
            inst: Ff800InstConfig::default(),
        }
    }
}

impl Ff800AnalogInConfig {
    /// The number of quadlets which the configuration takes.
    pub const QUADLET_COUNT: usize = 2;
}

/// The bits of the first quadlet which the configuration for analog inputs sets without clearing.
pub open spec fn analog_in_or_bits0() -> u32 {
    Q0_INPUT_6_POWERING_MASK | Q0_INPUT_7_POWERING_MASK | Q0_INPUT_8_POWERING_MASK
        | Q0_INPUT_9_POWERING_MASK
}

/// The bits of the second quadlet which the configuration for analog inputs sets without clearing.
pub open spec fn analog_in_or_bits1() -> u32 {
    Q1_INPUT_0_REAR_JACK_MASK | Q1_INPUT_0_FRONT_JACK_MASK | Q1_INPUT_6_REAR_JACK_MASK
        | Q1_INPUT_6_FRONT_JACK_MASK | Q1_INPUT_7_REAR_JACK_MASK | Q1_INPUT_7_FRONT_JACK_MASK
}

/// The first quadlet after serializing the configuration for analog inputs into it.
pub open spec fn analog_in_quad0(q: u32, c: Ff800AnalogInConfig) -> u32 {
    let q = put_field(q, Q0_LINE_IN_LEVEL_MASK, line_in_level_flag0(c.line_level));
    let q = or_flag(q, Q0_INPUT_6_POWERING_MASK, c.phantom_powering[0]);
    let q = or_flag(q, Q0_INPUT_7_POWERING_MASK, c.phantom_powering[1]);
    let q = or_flag(q, Q0_INPUT_8_POWERING_MASK, c.phantom_powering[2]);
    let q = or_flag(q, Q0_INPUT_9_POWERING_MASK, c.phantom_powering[3]);
    let q = put_flag(q, Q0_INPUT_0_INST_DRIVE_MASK, c.inst.drive);
    put_flag(q, Q0_INPUT_0_INST_SPKR_EMU_MASK, c.inst.speaker_emulation)
}

/// The fields are read back from the bits of the quadlet.
pub proof fn lemma_analog_in_quad0_facts(q: u32, c: Ff800AnalogInConfig)
    requires
        q & analog_in_or_bits0() == 0,
    ensures
        analog_in_quad0(q, c) & Q0_LINE_IN_LEVEL_MASK == line_in_level_flag0(c.line_level),
        has_flag(analog_in_quad0(q, c), Q0_INPUT_6_POWERING_MASK) == (c.phantom_powering[0]),
        has_flag(analog_in_quad0(q, c), Q0_INPUT_7_POWERING_MASK) == (c.phantom_powering[1]),
        has_flag(analog_in_quad0(q, c), Q0_INPUT_8_POWERING_MASK) == (c.phantom_powering[2]),
        has_flag(analog_in_quad0(q, c), Q0_INPUT_9_POWERING_MASK) == (c.phantom_powering[3]),
        has_flag(analog_in_quad0(q, c), Q0_INPUT_0_INST_DRIVE_MASK) == (c.inst.drive),
        has_flag(analog_in_quad0(q, c), Q0_INPUT_0_INST_SPKR_EMU_MASK) == (c.inst.speaker_emulation),
{
    lemma_flag_bits(c.phantom_powering[0], Q0_INPUT_6_POWERING_MASK);
    lemma_flag_bits(c.phantom_powering[1], Q0_INPUT_7_POWERING_MASK);
    lemma_flag_bits(c.phantom_powering[2], Q0_INPUT_8_POWERING_MASK);
    lemma_flag_bits(c.phantom_powering[3], Q0_INPUT_9_POWERING_MASK);
    lemma_flag_bits(c.inst.drive, Q0_INPUT_0_INST_DRIVE_MASK);
    lemma_flag_bits(c.inst.speaker_emulation, Q0_INPUT_0_INST_SPKR_EMU_MASK);
    reveal(line_in_level_flag0);
    lemma_ff800_bits(0, 0, 0, 0, 0, 0, 0, 0, 0, 0, 0, 0, 0, 0, 0, 0, 0, 0, 0, 0, 0, 0, 0, 0, 0, 0, 0, 0, 0, 0, 0, 0, 0, 0, 0, 0, 0, 0, 0, 0, 0, 0, 0, 0, 0, 0, 0, 0, 0, 0, 0, q, line_in_level_flag0(c.line_level), flag_bits(c.phantom_powering[0], Q0_INPUT_6_POWERING_MASK), flag_bits(c.phantom_powering[1], Q0_INPUT_7_POWERING_MASK), flag_bits(c.phantom_powering[2], Q0_INPUT_8_POWERING_MASK), flag_bits(c.phantom_powering[3], Q0_INPUT_9_POWERING_MASK), flag_bits(c.inst.drive, Q0_INPUT_0_INST_DRIVE_MASK), flag_bits(c.inst.speaker_emulation, Q0_INPUT_0_INST_SPKR_EMU_MASK), 0, 0, 0, 0, 0, 0, 0, 0, 0, 0, 0, 0, 0, 0, 0, 0, 0, 0, 0, 0, 0, 0, 0, 0, 0, 0, 0, 0, 0, 0, 0, 0, 0, 0, 0, 0, 0, 0, 0, 0, 0, 0, 0, 0, 0, 0, 0, 0, 0);
}

/// The second quadlet after serializing the configuration for analog inputs into it.
pub open spec fn analog_in_quad1(q: u32, c: Ff800AnalogInConfig) -> u32 {
    let q = or_flag(q, Q1_INPUT_0_REAR_JACK_MASK, c.jacks[0] != Ff800AnalogInputJack::Front);
    let q = or_flag(q, Q1_INPUT_0_FRONT_JACK_MASK, c.jacks[0] != Ff800AnalogInputJack::Rear);
    let q = or_flag(q, Q1_INPUT_6_REAR_JACK_MASK, c.jacks[1] != Ff800AnalogInputJack::Front);
    let q = or_flag(q, Q1_INPUT_6_FRONT_JACK_MASK, c.jacks[1] != Ff800AnalogInputJack::Rear);
    let q = or_flag(q, Q1_INPUT_7_REAR_JACK_MASK, c.jacks[2] != Ff800AnalogInputJack::Front);
    let q = or_flag(q, Q1_INPUT_7_FRONT_JACK_MASK, c.jacks[2] != Ff800AnalogInputJack::Rear);
    let q = put_field(q, Q1_LINE_IN_LEVEL_MASK, line_in_level_flag1(c.line_level));
    put_flag(q, Q1_INPUT_0_INST_DRIVE_MASK, c.inst.drive)
}

/// The fields are read back from the bits of the quadlet.
pub proof fn lemma_analog_in_quad1_facts(q: u32, c: Ff800AnalogInConfig)
    requires
        q & analog_in_or_bits1() == 0,
    ensures
        has_flag(analog_in_quad1(q, c), Q1_INPUT_0_REAR_JACK_MASK) == (c.jacks[0] != Ff800AnalogInputJack::Front),
        has_flag(analog_in_quad1(q, c), Q1_INPUT_0_FRONT_JACK_MASK) == (c.jacks[0] != Ff800AnalogInputJack::Rear),
        has_flag(analog_in_quad1(q, c), Q1_INPUT_6_REAR_JACK_MASK) == (c.jacks[1] != Ff800AnalogInputJack::Front),
        has_flag(analog_in_quad1(q, c), Q1_INPUT_6_FRONT_JACK_MASK) == (c.jacks[1] != Ff800AnalogInputJack::Rear),
        has_flag(analog_in_quad1(q, c), Q1_INPUT_7_REAR_JACK_MASK) == (c.jacks[2] != Ff800AnalogInputJack::Front),
        has_flag(analog_in_quad1(q, c), Q1_INPUT_7_FRONT_JACK_MASK) == (c.jacks[2] != Ff800AnalogInputJack::Rear),
        analog_in_quad1(q, c) & Q1_LINE_IN_LEVEL_MASK == line_in_level_flag1(c.line_level),
        has_flag(analog_in_quad1(q, c), Q1_INPUT_0_INST_DRIVE_MASK) == (c.inst.drive),
{
    lemma_flag_bits(c.jacks[0] != Ff800AnalogInputJack::Front, Q1_INPUT_0_REAR_JACK_MASK);
    lemma_flag_bits(c.jacks[0] != Ff800AnalogInputJack::Rear, Q1_INPUT_0_FRONT_JACK_MASK);
    lemma_flag_bits(c.jacks[1] != Ff800AnalogInputJack::Front, Q1_INPUT_6_REAR_JACK_MASK);
    lemma_flag_bits(c.jacks[1] != Ff800AnalogInputJack::Rear, Q1_INPUT_6_FRONT_JACK_MASK);
    lemma_flag_bits(c.jacks[2] != Ff800AnalogInputJack::Front, Q1_INPUT_7_REAR_JACK_MASK);
    lemma_flag_bits(c.jacks[2] != Ff800AnalogInputJack::Rear, Q1_INPUT_7_FRONT_JACK_MASK);
    lemma_flag_bits(c.inst.drive, Q1_INPUT_0_INST_DRIVE_MASK);
    reveal(line_in_level_flag1);
    lemma_ff800_bits(0, 0, 0, 0, 0, 0, 0, 0, 0, 0, 0, 0, 0, 0, 0, 0, 0, 0, 0, 0, 0, 0, 0, 0, 0, 0, 0, 0, 0, 0, 0, 0, 0, 0, 0, 0, 0, 0, 0, 0, 0, 0, 0, 0, 0, 0, 0, 0, 0, 0, 0, 0, 0, 0, 0, 0, 0, 0, 0, q, flag_bits(c.jacks[0] != Ff800AnalogInputJack::Front, Q1_INPUT_0_REAR_JACK_MASK), flag_bits(c.jacks[0] != Ff800AnalogInputJack::Rear, Q1_INPUT_0_FRONT_JACK_MASK), flag_bits(c.jacks[1] != Ff800AnalogInputJack::Front, Q1_INPUT_6_REAR_JACK_MASK), flag_bits(c.jacks[1] != Ff800AnalogInputJack::Rear, Q1_INPUT_6_FRONT_JACK_MASK), flag_bits(c.jacks[2] != Ff800AnalogInputJack::Front, Q1_INPUT_7_REAR_JACK_MASK), flag_bits(c.jacks[2] != Ff800AnalogInputJack::Rear, Q1_INPUT_7_FRONT_JACK_MASK), line_in_level_flag1(c.line_level), flag_bits(c.inst.drive, Q1_INPUT_0_INST_DRIVE_MASK), 0, 0, 0, 0, 0, 0, 0, 0, 0, 0, 0, 0, 0, 0, 0, 0, 0, 0, 0, 0, 0, 0, 0, 0, 0, 0, 0, 0, 0, 0, 0, 0, 0, 0, 0, 0, 0, 0, 0, 0);
}

/// The third quadlet after serializing the configuration for analog inputs into it.
pub open spec fn analog_in_quad2(q: u32, c: Ff800AnalogInConfig) -> u32 {
    put_flag(q, Q2_INPUT_0_INST_LIMITTER_MASK, c.inst.limitter)
}

/// The fields are read back from the bits of the quadlet.
pub proof fn lemma_analog_in_quad2_facts(q: u32, c: Ff800AnalogInConfig)
    ensures
        has_flag(analog_in_quad2(q, c), Q2_INPUT_0_INST_LIMITTER_MASK) == (c.inst.limitter),
{
    lemma_flag_bits(c.inst.limitter, Q2_INPUT_0_INST_LIMITTER_MASK);
    lemma_ff800_bits(0, 0, 0, 0, 0, 0, 0, 0, 0, 0, 0, 0, 0, 0, 0, 0, 0, 0, 0, 0, 0, 0, 0, 0, 0, 0, 0, 0, 0, 0, 0, 0, 0, 0, 0, 0, 0, 0, 0, 0, 0, 0, 0, 0, 0, 0, 0, 0, 0, 0, 0, 0, 0, 0, 0, 0, 0, 0, 0, 0, 0, 0, 0, 0, 0, 0, 0, 0, q, flag_bits(c.inst.limitter, Q2_INPUT_0_INST_LIMITTER_MASK), 0, 0, 0, 0, 0, 0, 0, 0, 0, 0, 0, 0, 0, 0, 0, 0, 0, 0, 0, 0, 0, 0, 0, 0, 0, 0, 0, 0, 0, 0, 0, 0, 0, 0, 0, 0, 0, 0);
}

/// The jack read from the switches of rear and front, if any of them is on.
pub open spec fn jack_of(rear: bool, front: bool) -> Option<Ff800AnalogInputJack> {
    if rear && front {
        Some(Ff800AnalogInputJack::FrontRear)
    } else if rear {
        Some(Ff800AnalogInputJack::Rear)
    } else if front {
        Some(Ff800AnalogInputJack::Front)
    } else {
        None
    }
}

fn jack_of_exec(rear: bool, front: bool) -> (r: Option<Ff800AnalogInputJack>)
    ensures
        r == jack_of(rear, front),
{
    if rear && front {
        Some(Ff800AnalogInputJack::FrontRear)
    } else if rear {
        Some(Ff800AnalogInputJack::Rear)
    } else if front {
        Some(Ff800AnalogInputJack::Front)
    } else {
        None
    }
}

/// The nominal level of line inputs read from the quadlets, if the bits stand for one.
pub open spec fn line_in_level_of(q0: u32, q1: u32) -> Option<FormerLineInNominalLevel> {
    let pair = (q0 & Q0_LINE_IN_LEVEL_MASK, q1 & Q1_LINE_IN_LEVEL_MASK);
    if pair == (Q0_LINE_IN_LEVEL_LOW_FLAG, Q1_LINE_IN_LEVEL_LOW_FLAG) {
        Some(FormerLineInNominalLevel::Low)
    } else if pair == (Q0_LINE_IN_LEVEL_CON_FLAG, Q1_LINE_IN_LEVEL_CON_FLAG) {
        Some(FormerLineInNominalLevel::Consumer)
    } else if pair == (Q0_LINE_IN_LEVEL_PRO_FLAG, Q1_LINE_IN_LEVEL_PRO_FLAG) {
        Some(FormerLineInNominalLevel::Professional)
    } else {
        None
    }
}

fn line_in_level_of_exec(q0: u32, q1: u32) -> (r: Option<FormerLineInNominalLevel>)
    ensures
        r == line_in_level_of(q0, q1),
{
    let pair = (q0 & Q0_LINE_IN_LEVEL_MASK, q1 & Q1_LINE_IN_LEVEL_MASK);
    if pair.0 == Q0_LINE_IN_LEVEL_LOW_FLAG && pair.1 == Q1_LINE_IN_LEVEL_LOW_FLAG {
        Some(FormerLineInNominalLevel::Low)
    } else if pair.0 == Q0_LINE_IN_LEVEL_CON_FLAG && pair.1 == Q1_LINE_IN_LEVEL_CON_FLAG {
        Some(FormerLineInNominalLevel::Consumer)
    } else if pair.0 == Q0_LINE_IN_LEVEL_PRO_FLAG && pair.1 == Q1_LINE_IN_LEVEL_PRO_FLAG {
        Some(FormerLineInNominalLevel::Professional)
    } else {
        None
    }
}

/// The nominal level of line inputs is read back from its flags.
pub proof fn lemma_line_in_level_code(level: FormerLineInNominalLevel, q0: u32, q1: u32)
    requires
        q0 & Q0_LINE_IN_LEVEL_MASK == line_in_level_flag0(level),
        q1 & Q1_LINE_IN_LEVEL_MASK == line_in_level_flag1(level),
    ensures
        line_in_level_of(q0, q1) == Some(level),
{
    reveal(line_in_level_flag0);
    reveal(line_in_level_flag1);
}

/// Whether the quadlets carry a jack for each analog input and a nominal level of line inputs.
pub open spec fn analog_in_acceptable(q0: u32, q1: u32) -> bool {
    &&& jack_of(has_flag(q1, Q1_INPUT_0_REAR_JACK_MASK), has_flag(q1, Q1_INPUT_0_FRONT_JACK_MASK)) is Some
    &&& jack_of(has_flag(q1, Q1_INPUT_6_REAR_JACK_MASK), has_flag(q1, Q1_INPUT_6_FRONT_JACK_MASK)) is Some
    &&& jack_of(has_flag(q1, Q1_INPUT_7_REAR_JACK_MASK), has_flag(q1, Q1_INPUT_7_FRONT_JACK_MASK)) is Some
    &&& line_in_level_of(q0, q1) is Some
}

/// The configuration for analog inputs read from the quadlets.
#[verifier::opaque]
pub open spec fn analog_in_config_of(q0: u32, q1: u32, q2: u32) -> Ff800AnalogInConfig {
    Ff800AnalogInConfig {
        jacks: [
            jack_of(has_flag(q1, Q1_INPUT_0_REAR_JACK_MASK), has_flag(q1, Q1_INPUT_0_FRONT_JACK_MASK)).unwrap(),
            jack_of(has_flag(q1, Q1_INPUT_6_REAR_JACK_MASK), has_flag(q1, Q1_INPUT_6_FRONT_JACK_MASK)).unwrap(),
            jack_of(has_flag(q1, Q1_INPUT_7_REAR_JACK_MASK), has_flag(q1, Q1_INPUT_7_FRONT_JACK_MASK)).unwrap(),
        ],
        line_level: line_in_level_of(q0, q1).unwrap(),
        phantom_powering: [
            has_flag(q0, Q0_INPUT_6_POWERING_MASK),
            has_flag(q0, Q0_INPUT_7_POWERING_MASK),
            has_flag(q0, Q0_INPUT_8_POWERING_MASK),
            has_flag(q0, Q0_INPUT_9_POWERING_MASK),
        ],
        inst: inst_config_of(q0, q2),
    }
}

/// The masks of rear and front jacks for each analog input.
pub open spec fn jack_masks() -> [(u32, u32); 3] {
    [
        (Q1_INPUT_0_REAR_JACK_MASK, Q1_INPUT_0_FRONT_JACK_MASK),
        (Q1_INPUT_6_REAR_JACK_MASK, Q1_INPUT_6_FRONT_JACK_MASK),
        (Q1_INPUT_7_REAR_JACK_MASK, Q1_INPUT_7_FRONT_JACK_MASK),
    ]
}

fn jack_mask_table() -> (r: [(u32, u32); 3])
    ensures
        r == jack_masks(),
        r == [
            (Q1_INPUT_0_REAR_JACK_MASK, Q1_INPUT_0_FRONT_JACK_MASK),
            (Q1_INPUT_6_REAR_JACK_MASK, Q1_INPUT_6_FRONT_JACK_MASK),
            (Q1_INPUT_7_REAR_JACK_MASK, Q1_INPUT_7_FRONT_JACK_MASK),
        ],
{
    [
        (Q1_INPUT_0_REAR_JACK_MASK, Q1_INPUT_0_FRONT_JACK_MASK),
        (Q1_INPUT_6_REAR_JACK_MASK, Q1_INPUT_6_FRONT_JACK_MASK),
        (Q1_INPUT_7_REAR_JACK_MASK, Q1_INPUT_7_FRONT_JACK_MASK),
    ]
}

/// Serialize the configuration for analog inputs into the quadlets.
pub fn serialize_analog_input_config(config: &Ff800AnalogInConfig, quads: &mut [u32])
    requires
        old(quads)@.len() >= Ff800InstConfig::QUADLET_COUNT,
    ensures
        final(quads)@ == old(quads)@.update(0, analog_in_quad0(old(quads)@[0], *config)).update(
            1,
            analog_in_quad1(old(quads)@[1], *config),
        ).update(2, analog_in_quad2(old(quads)@[2], *config)),
{
    let masks = jack_mask_table();
    let ghost q1 = quads@[1];
    let mut i: usize = 0;
    while i < 3
        invariant
            0 <= i <= 3,
            masks == jack_masks(),
            old(quads)@.len() >= 3,
            quads@.len() == old(quads)@.len(),
            quads@[0] == old(quads)@[0],
            quads@[2] == old(quads)@[2],
            forall|j: int| 3 <= j < quads@.len() ==> quads@[j] == old(quads)@[j],
            i == 0 ==> quads@[1] == old(quads)@[1],
            i == 1 ==> quads@[1] == or_flag(
                or_flag(old(quads)@[1], Q1_INPUT_0_REAR_JACK_MASK, config.jacks[0] != Ff800AnalogInputJack::Front),
                Q1_INPUT_0_FRONT_JACK_MASK,
                config.jacks[0] != Ff800AnalogInputJack::Rear,
            ),
            i == 2 ==> quads@[1] == or_flag(
                or_flag(
                    or_flag(
                        or_flag(old(quads)@[1], Q1_INPUT_0_REAR_JACK_MASK, config.jacks[0] != Ff800AnalogInputJack::Front),
                        Q1_INPUT_0_FRONT_JACK_MASK,
                        config.jacks[0] != Ff800AnalogInputJack::Rear,
                    ),
                    Q1_INPUT_6_REAR_JACK_MASK,
                    config.jacks[1] != Ff800AnalogInputJack::Front,
                ),
                Q1_INPUT_6_FRONT_JACK_MASK,
                config.jacks[1] != Ff800AnalogInputJack::Rear,
            ),
            i == 3 ==> quads@[1] == or_flag(
                or_flag(
                    or_flag(
                        or_flag(
                            or_flag(
                                or_flag(old(quads)@[1], Q1_INPUT_0_REAR_JACK_MASK, config.jacks[0] != Ff800AnalogInputJack::Front),
                                Q1_INPUT_0_FRONT_JACK_MASK,
                                config.jacks[0] != Ff800AnalogInputJack::Rear,
                            ),
                            Q1_INPUT_6_REAR_JACK_MASK,
                            config.jacks[1] != Ff800AnalogInputJack::Front,
                        ),
                        Q1_INPUT_6_FRONT_JACK_MASK,
                        config.jacks[1] != Ff800AnalogInputJack::Rear,
                    ),
                    Q1_INPUT_7_REAR_JACK_MASK,
                    config.jacks[2] != Ff800AnalogInputJack::Front,
                ),
                Q1_INPUT_7_FRONT_JACK_MASK,
                config.jacks[2] != Ff800AnalogInputJack::Rear,
            ),
        decreases 3 - i,
    {
        let (rear_mask, front_mask) = masks[i];
        let jack = config.jacks[i];
        quads[1] = add_flag(quads[1], rear_mask, jack != Ff800AnalogInputJack::Front);
        quads[1] = add_flag(quads[1], front_mask, jack != Ff800AnalogInputJack::Rear);
        i = i + 1;
    }
    let flag0 = line_in_level_flag0_exec(config.line_level);
    let flag1 = line_in_level_flag1_exec(config.line_level);
    quads[0] = set_field(quads[0], Q0_LINE_IN_LEVEL_MASK, flag0);
    quads[1] = set_field(quads[1], Q1_LINE_IN_LEVEL_MASK, flag1);
    quads[0] = add_flag(quads[0], Q0_INPUT_6_POWERING_MASK, config.phantom_powering[0]);
    quads[0] = add_flag(quads[0], Q0_INPUT_7_POWERING_MASK, config.phantom_powering[1]);
    quads[0] = add_flag(quads[0], Q0_INPUT_8_POWERING_MASK, config.phantom_powering[2]);
    quads[0] = add_flag(quads[0], Q0_INPUT_9_POWERING_MASK, config.phantom_powering[3]);
    serialize_instrument_config(&config.inst, quads);
    proof {
        assert(quads@ =~= old(quads)@.update(0, analog_in_quad0(old(quads)@[0], *config)).update(
            1,
            analog_in_quad1(old(quads)@[1], *config),
        ).update(2, analog_in_quad2(old(quads)@[2], *config)));
    }
}

/// Deserialize the configuration for analog inputs from the quadlets.
pub fn deserialize_analog_input_config(config: &mut Ff800AnalogInConfig, quads: &[u32])
    requires
        quads@.len() >= Ff800InstConfig::QUADLET_COUNT,
        analog_in_acceptable(quads@[0], quads@[1]),
    ensures
        *final(config) == analog_in_config_of(quads@[0], quads@[1], quads@[2]),
{
    let masks = jack_mask_table();
    let mut i: usize = 0;
    while i < 3
        invariant
            0 <= i <= 3,
            masks == jack_masks(),
            quads@.len() >= 3,
            analog_in_acceptable(quads@[0], quads@[1]),
            forall|j: int| 0 <= j < i ==> config.jacks[j] == analog_in_config_of(quads@[0], quads@[1], quads@[2]).jacks[j],
        decreases 3 - i,
    {
        proof {
            reveal(analog_in_config_of);
        }
        let (rear_mask, front_mask) = masks[i];
        let jack = jack_of_exec(check_flag(quads[1], rear_mask), check_flag(quads[1], front_mask));
        match jack {
            Some(j) => {
                config.jacks[i] = j;
            },
            None => {},
        }
        i = i + 1;
    }
    config.line_level = match line_in_level_of_exec(quads[0], quads[1]) {
        Some(level) => level,
        None => config.line_level,
    };
    config.phantom_powering[0] = check_flag(quads[0], Q0_INPUT_6_POWERING_MASK);
    config.phantom_powering[1] = check_flag(quads[0], Q0_INPUT_7_POWERING_MASK);
    config.phantom_powering[2] = check_flag(quads[0], Q0_INPUT_8_POWERING_MASK);
    config.phantom_powering[3] = check_flag(quads[0], Q0_INPUT_9_POWERING_MASK);
    deserialize_instrument_config(&mut config.inst, quads);
    proof {
        reveal(analog_in_config_of);
        let d = analog_in_config_of(quads@[0], quads@[1], quads@[2]);
        assert(config.jacks =~= d.jacks);
        assert(config.phantom_powering =~= d.phantom_powering);
    }
}

/// Each jack is read back from the switches of rear and front which serialization sets.
pub proof fn lemma_jack_code(jack: Ff800AnalogInputJack)
    ensures
        jack_of(jack != Ff800AnalogInputJack::Front, jack != Ff800AnalogInputJack::Rear) == Some(jack),
{
}

/// Deserializing what was serialized gives the configuration for analog inputs back, as long as
/// the bits which the serialization sets without clearing were cleared.
pub proof fn lemma_analog_input_config_roundtrip(q0: u32, q1: u32, q2: u32, c: Ff800AnalogInConfig)
    requires
        q0 & analog_in_or_bits0() == 0,
        q1 & analog_in_or_bits1() == 0,
    ensures
        analog_in_acceptable(analog_in_quad0(q0, c), analog_in_quad1(q1, c)),
        analog_in_config_of(analog_in_quad0(q0, c), analog_in_quad1(q1, c), analog_in_quad2(q2, c))
            == c,
{
    lemma_analog_in_quad0_facts(q0, c);
    lemma_analog_in_quad1_facts(q1, c);
    lemma_analog_in_quad2_facts(q2, c);
    lemma_line_in_level_code(c.line_level, analog_in_quad0(q0, c), analog_in_quad1(q1, c));
    lemma_jack_code(c.jacks[0]);
    lemma_jack_code(c.jacks[1]);
    lemma_jack_code(c.jacks[2]);
    reveal(analog_in_config_of);
    let d = analog_in_config_of(analog_in_quad0(q0, c), analog_in_quad1(q1, c), analog_in_quad2(q2, c));
    assert(d.jacks =~= c.jacks);
    assert(d.phantom_powering =~= c.phantom_powering);
}

/// Configurations for Fireface 800.
#[derive(Debug, Copy, Clone, PartialEq, Eq)]
pub struct Ff800Config {
    /// For sampling clock.
    pub clk: Ff800ClkConfig,
    /// For analog inputs.
    pub analog_in: Ff800AnalogInConfig,
    /// The nominal level of audio signal for line output.
    pub line_out_level: LineOutNominalLevel,
    /// For S/PDIF input.
    pub spdif_in: SpdifInput,
    /// For S/PDIF output.
    pub spdif_out: FormerSpdifOutput,
    /// The type of signal to optical output interface.
    pub opt_out_signal: OpticalOutputSignal,
    /// Whether to fix speed to single even if at double/quadruple rate.
    pub word_out_single: bool,
    /// Whether to continue audio processing against any synchronization corruption.
    pub continue_at_errors: bool,
}

impl Default for Ff800Config {
    fn default() -> (r: Self)
        ensures
            r == (Ff800Config {
                clk: Ff800ClkConfig {
                    primary_src: Ff800ClkSrc::AdatA,
                    avail_rate_44100: true,
                    avail_rate_48000: true,
                    avail_rate_double: true,
                    avail_rate_quadruple: true,
                },
                analog_in: Ff800AnalogInConfig {
                    jacks: [
                        Ff800AnalogInputJack::Front,
                        Ff800AnalogInputJack::Front,
                        Ff800AnalogInputJack::Front,
                    ],
                    line_level: FormerLineInNominalLevel::Low,
                    phantom_powering: [false, false, false, false],
                    inst: Ff800InstConfig { drive: false, limitter: false, speaker_emulation: false },
                },
                line_out_level: LineOutNominalLevel::High,
                spdif_in: SpdifInput { iface: SpdifIface::Coaxial, use_preemble: false },
                spdif_out: FormerSpdifOutput {
                    format: SpdifFormat::Consumer,
                    emphasis: false,
                    non_audio: false,
                },
                opt_out_signal: OpticalOutputSignal::Adat,
                word_out_single: false,
                continue_at_errors: true,
            }),
    {
        Ff800Config {
            clk: Ff800ClkConfig::default(),
            analog_in: Ff800AnalogInConfig::default(),
            line_out_level: LineOutNominalLevel::default(),
            spdif_in: SpdifInput::default(),
            spdif_out: FormerSpdifOutput::default(),
            opt_out_signal: OpticalOutputSignal::default(),
            word_out_single: false,
            continue_at_errors: true,
        }
    }
}

impl Ff800Config {
    /// The number of quadlets which the configuration takes.
    pub const QUADLET_COUNT: usize = 3;

    /// Although the configuration registers are write-only, some of them are available in status
    /// registers.
    pub fn init(&mut self, status: &Ff800Status)
        ensures
            *final(self) == (Ff800Config {
                clk: Ff800ClkConfig { primary_src: status.configured_clk_src, ..old(self).clk },
                spdif_in: status.spdif_in,
                spdif_out: status.spdif_out,
                opt_out_signal: status.opt_out_signal,
                word_out_single: status.word_out_single,
                ..*old(self)
            }),
    {
        self.clk.primary_src = status.configured_clk_src;
        self.spdif_in = status.spdif_in;
        self.spdif_out = status.spdif_out;
        self.opt_out_signal = status.opt_out_signal;
        self.word_out_single = status.word_out_single;
    }
}

/// The bits of the first fields of the first quadlet of serialized configuration.
pub open spec fn config_quad0_part0(c: Ff800Config) -> u32 {
    let q = put_field(0, Q0_LINE_IN_LEVEL_MASK, line_in_level_flag0(c.analog_in.line_level));
    let q = or_flag(q, Q0_INPUT_6_POWERING_MASK, c.analog_in.phantom_powering[0]);
    let q = or_flag(q, Q0_INPUT_7_POWERING_MASK, c.analog_in.phantom_powering[1]);
    let q = or_flag(q, Q0_INPUT_8_POWERING_MASK, c.analog_in.phantom_powering[2]);
    or_flag(q, Q0_INPUT_9_POWERING_MASK, c.analog_in.phantom_powering[3])
}

/// The fields are read back from the bits of the quadlet.
proof fn config_quad0_part0_facts(c: Ff800Config)
    ensures
        config_quad0_part0(c) & Q0_LINE_IN_LEVEL_MASK == line_in_level_flag0(c.analog_in.line_level),
        has_flag(config_quad0_part0(c), Q0_INPUT_6_POWERING_MASK) == (c.analog_in.phantom_powering[0]),
        has_flag(config_quad0_part0(c), Q0_INPUT_7_POWERING_MASK) == (c.analog_in.phantom_powering[1]),
        has_flag(config_quad0_part0(c), Q0_INPUT_8_POWERING_MASK) == (c.analog_in.phantom_powering[2]),
        has_flag(config_quad0_part0(c), Q0_INPUT_9_POWERING_MASK) == (c.analog_in.phantom_powering[3]),
{
    lemma_flag_bits(c.analog_in.phantom_powering[0], Q0_INPUT_6_POWERING_MASK);
    lemma_flag_bits(c.analog_in.phantom_powering[1], Q0_INPUT_7_POWERING_MASK);
    lemma_flag_bits(c.analog_in.phantom_powering[2], Q0_INPUT_8_POWERING_MASK);
    lemma_flag_bits(c.analog_in.phantom_powering[3], Q0_INPUT_9_POWERING_MASK);
    reveal(line_in_level_flag0);
    reveal(line_out_level_flag0);
    lemma_ff800_bits(0, 0, 0, 0, 0, 0, 0, 0, 0, 0, 0, 0, 0, 0, 0, 0, 0, 0, 0, 0, 0, 0, 0, 0, 0, 0, 0, 0, 0, 0, 0, 0, 0, 0, 0, 0, 0, 0, 0, 0, 0, 0, 0, 0, 0, 0, 0, 0, 0, 0, 0, 0, 0, 0, 0, 0, 0, 0, 0, 0, 0, 0, 0, 0, 0, 0, 0, 0, 0, 0, 0, line_in_level_flag0(c.analog_in.line_level), flag_bits(c.analog_in.phantom_powering[0], Q0_INPUT_6_POWERING_MASK), flag_bits(c.analog_in.phantom_powering[1], Q0_INPUT_7_POWERING_MASK), flag_bits(c.analog_in.phantom_powering[2], Q0_INPUT_8_POWERING_MASK), flag_bits(c.analog_in.phantom_powering[3], Q0_INPUT_9_POWERING_MASK), 0, 0, 0, 0, 0, 0, 0, 0, 0, 0, 0, 0, 0, 0, 0, 0, 0, 0, 0, 0, 0, 0, 0, 0, 0, 0, 0, 0, 0, 0, 0, 0);
}

/// The first quadlet of serialized configuration.
pub open spec fn config_quad0(c: Ff800Config) -> u32 {
    let q = put_flag(config_quad0_part0(c), Q0_INPUT_0_INST_DRIVE_MASK, c.analog_in.inst.drive);
    let q = put_flag(q, Q0_INPUT_0_INST_SPKR_EMU_MASK, c.analog_in.inst.speaker_emulation);
    put_field(q, Q0_LINE_OUT_LEVEL_MASK, line_out_level_flag0(c.line_out_level))
}

/// The fields are read back from the bits of the quadlet.
proof fn config_quad0_facts(c: Ff800Config)
    ensures
        config_quad0(c) & Q0_LINE_IN_LEVEL_MASK == line_in_level_flag0(c.analog_in.line_level),
        has_flag(config_quad0(c), Q0_INPUT_6_POWERING_MASK) == (c.analog_in.phantom_powering[0]),
        has_flag(config_quad0(c), Q0_INPUT_7_POWERING_MASK) == (c.analog_in.phantom_powering[1]),
        has_flag(config_quad0(c), Q0_INPUT_8_POWERING_MASK) == (c.analog_in.phantom_powering[2]),
        has_flag(config_quad0(c), Q0_INPUT_9_POWERING_MASK) == (c.analog_in.phantom_powering[3]),
        has_flag(config_quad0(c), Q0_INPUT_0_INST_DRIVE_MASK) == (c.analog_in.inst.drive),
        has_flag(config_quad0(c), Q0_INPUT_0_INST_SPKR_EMU_MASK) == (c.analog_in.inst.speaker_emulation),
        config_quad0(c) & Q0_LINE_OUT_LEVEL_MASK == line_out_level_flag0(c.line_out_level),
{
    config_quad0_part0_facts(c);
    lemma_flag_bits(c.analog_in.inst.drive, Q0_INPUT_0_INST_DRIVE_MASK);
    lemma_flag_bits(c.analog_in.inst.speaker_emulation, Q0_INPUT_0_INST_SPKR_EMU_MASK);
    reveal(line_in_level_flag0);
    reveal(line_out_level_flag0);
    lemma_ff800_bits(0, 0, 0, 0, 0, 0, 0, 0, 0, 0, 0, 0, 0, 0, 0, 0, 0, 0, 0, 0, 0, 0, 0, 0, 0, 0, 0, 0, 0, 0, 0, 0, 0, 0, 0, 0, 0, 0, 0, 0, 0, 0, 0, 0, 0, 0, 0, 0, 0, 0, 0, 0, 0, 0, 0, 0, 0, 0, 0, 0, 0, 0, 0, 0, 0, 0, 0, 0, 0, 0, 0, 0, 0, 0, 0, 0, config_quad0_part0(c), flag_bits(c.analog_in.inst.drive, Q0_INPUT_0_INST_DRIVE_MASK), flag_bits(c.analog_in.inst.speaker_emulation, Q0_INPUT_0_INST_SPKR_EMU_MASK), line_out_level_flag0(c.line_out_level), 0, 0, 0, 0, 0, 0, 0, 0, 0, 0, 0, 0, 0, 0, 0, 0, 0, 0, 0, 0, 0, 0, 0, 0, 0, 0, 0, 0);
}

/// The bits of the first fields of the second quadlet of serialized configuration.
pub open spec fn config_quad1_part0(c: Ff800Config) -> u32 {
    let q = or_flag(0, Q1_INPUT_0_REAR_JACK_MASK, c.analog_in.jacks[0] != Ff800AnalogInputJack::Front);
    let q = or_flag(q, Q1_INPUT_0_FRONT_JACK_MASK, c.analog_in.jacks[0] != Ff800AnalogInputJack::Rear);
    let q = or_flag(q, Q1_INPUT_6_REAR_JACK_MASK, c.analog_in.jacks[1] != Ff800AnalogInputJack::Front);
    let q = or_flag(q, Q1_INPUT_6_FRONT_JACK_MASK, c.analog_in.jacks[1] != Ff800AnalogInputJack::Rear);
    or_flag(q, Q1_INPUT_7_REAR_JACK_MASK, c.analog_in.jacks[2] != Ff800AnalogInputJack::Front)
}

/// The fields are read back from the bits of the quadlet.
proof fn config_quad1_part0_facts(c: Ff800Config)
    ensures
        has_flag(config_quad1_part0(c), Q1_INPUT_0_REAR_JACK_MASK) == (c.analog_in.jacks[0] != Ff800AnalogInputJack::Front),
        has_flag(config_quad1_part0(c), Q1_INPUT_0_FRONT_JACK_MASK) == (c.analog_in.jacks[0] != Ff800AnalogInputJack::Rear),
        has_flag(config_quad1_part0(c), Q1_INPUT_6_REAR_JACK_MASK) == (c.analog_in.jacks[1] != Ff800AnalogInputJack::Front),
        has_flag(config_quad1_part0(c), Q1_INPUT_6_FRONT_JACK_MASK) == (c.analog_in.jacks[1] != Ff800AnalogInputJack::Rear),
        has_flag(config_quad1_part0(c), Q1_INPUT_7_REAR_JACK_MASK) == (c.analog_in.jacks[2] != Ff800AnalogInputJack::Front),
        config_quad1_part0(c) & (Q1_INPUT_7_FRONT_JACK_MASK) == 0,
{
    lemma_flag_bits(c.analog_in.jacks[0] != Ff800AnalogInputJack::Front, Q1_INPUT_0_REAR_JACK_MASK);
    lemma_flag_bits(c.analog_in.jacks[0] != Ff800AnalogInputJack::Rear, Q1_INPUT_0_FRONT_JACK_MASK);
    lemma_flag_bits(c.analog_in.jacks[1] != Ff800AnalogInputJack::Front, Q1_INPUT_6_REAR_JACK_MASK);
    lemma_flag_bits(c.analog_in.jacks[1] != Ff800AnalogInputJack::Rear, Q1_INPUT_6_FRONT_JACK_MASK);
    lemma_flag_bits(c.analog_in.jacks[2] != Ff800AnalogInputJack::Front, Q1_INPUT_7_REAR_JACK_MASK);
    reveal(line_in_level_flag1);
    reveal(line_out_level_flag1);
    lemma_ff800_bits(0, 0, 0, 0, 0, 0, 0, 0, 0, 0, 0, 0, 0, 0, 0, 0, 0, 0, 0, 0, 0, 0, 0, 0, 0, 0, 0, 0, 0, 0, 0, 0, 0, 0, 0, 0, 0, 0, 0, 0, 0, 0, 0, 0, 0, 0, 0, 0, 0, 0, 0, 0, 0, 0, 0, 0, 0, 0, 0, 0, 0, 0, 0, 0, 0, 0, 0, 0, 0, 0, 0, 0, 0, 0, 0, 0, 0, 0, 0, 0, 0, flag_bits(c.analog_in.jacks[0] != Ff800AnalogInputJack::Front, Q1_INPUT_0_REAR_JACK_MASK), flag_bits(c.analog_in.jacks[0] != Ff800AnalogInputJack::Rear, Q1_INPUT_0_FRONT_JACK_MASK), flag_bits(c.analog_in.jacks[1] != Ff800AnalogInputJack::Front, Q1_INPUT_6_REAR_JACK_MASK), flag_bits(c.analog_in.jacks[1] != Ff800AnalogInputJack::Rear, Q1_INPUT_6_FRONT_JACK_MASK), flag_bits(c.analog_in.jacks[2] != Ff800AnalogInputJack::Front, Q1_INPUT_7_REAR_JACK_MASK), 0, 0, 0, 0, 0, 0, 0, 0, 0, 0, 0, 0, 0, 0, 0, 0, 0, 0, 0, 0, 0, 0);
}

/// The second quadlet of serialized configuration.
pub open spec fn config_quad1(c: Ff800Config) -> u32 {
    let q = or_flag(config_quad1_part0(c), Q1_INPUT_7_FRONT_JACK_MASK, c.analog_in.jacks[2] != Ff800AnalogInputJack::Rear);
    let q = put_field(q, Q1_LINE_IN_LEVEL_MASK, line_in_level_flag1(c.analog_in.line_level));
    let q = put_flag(q, Q1_INPUT_0_INST_DRIVE_MASK, c.analog_in.inst.drive);
    put_field(q, Q1_LINE_OUT_LEVEL_MASK, line_out_level_flag1(c.line_out_level))
}

/// The fields are read back from the bits of the quadlet.
proof fn config_quad1_facts(c: Ff800Config)
    ensures
        has_flag(config_quad1(c), Q1_INPUT_0_REAR_JACK_MASK) == (c.analog_in.jacks[0] != Ff800AnalogInputJack::Front),
        has_flag(config_quad1(c), Q1_INPUT_0_FRONT_JACK_MASK) == (c.analog_in.jacks[0] != Ff800AnalogInputJack::Rear),
        has_flag(config_quad1(c), Q1_INPUT_6_REAR_JACK_MASK) == (c.analog_in.jacks[1] != Ff800AnalogInputJack::Front),
        has_flag(config_quad1(c), Q1_INPUT_6_FRONT_JACK_MASK) == (c.analog_in.jacks[1] != Ff800AnalogInputJack::Rear),
        has_flag(config_quad1(c), Q1_INPUT_7_REAR_JACK_MASK) == (c.analog_in.jacks[2] != Ff800AnalogInputJack::Front),
        has_flag(config_quad1(c), Q1_INPUT_7_FRONT_JACK_MASK) == (c.analog_in.jacks[2] != Ff800AnalogInputJack::Rear),
        config_quad1(c) & Q1_LINE_IN_LEVEL_MASK == line_in_level_flag1(c.analog_in.line_level),
        has_flag(config_quad1(c), Q1_INPUT_0_INST_DRIVE_MASK) == (c.analog_in.inst.drive),
        config_quad1(c) & Q1_LINE_OUT_LEVEL_MASK == line_out_level_flag1(c.line_out_level),
{
    config_quad1_part0_facts(c);
    lemma_flag_bits(c.analog_in.jacks[2] != Ff800AnalogInputJack::Rear, Q1_INPUT_7_FRONT_JACK_MASK);
    lemma_flag_bits(c.analog_in.inst.drive, Q1_INPUT_0_INST_DRIVE_MASK);
    reveal(line_in_level_flag1);
    reveal(line_out_level_flag1);
    lemma_ff800_bits(0, 0, 0, 0, 0, 0, 0, 0, 0, 0, 0, 0, 0, 0, 0, 0, 0, 0, 0, 0, 0, 0, 0, 0, 0, 0, 0, 0, 0, 0, 0, 0, 0, 0, 0, 0, 0, 0, 0, 0, 0, 0, 0, 0, 0, 0, 0, 0, 0, 0, 0, 0, 0, 0, 0, 0, 0, 0, 0, 0, 0, 0, 0, 0, 0, 0, 0, 0, 0, 0, 0, 0, 0, 0, 0, 0, 0, 0, 0, 0, 0, 0, 0, 0, 0, 0, config_quad1_part0(c), flag_bits(c.analog_in.jacks[2] != Ff800AnalogInputJack::Rear, Q1_INPUT_7_FRONT_JACK_MASK), line_in_level_flag1(c.analog_in.line_level), flag_bits(c.analog_in.inst.drive, Q1_INPUT_0_INST_DRIVE_MASK), line_out_level_flag1(c.line_out_level), 0, 0, 0, 0, 0, 0, 0, 0, 0, 0, 0, 0, 0, 0, 0, 0, 0);
}

/// The bits of the first fields of the third quadlet of serialized configuration.
pub open spec fn config_quad2_part0(c: Ff800Config) -> u32 {
    let q = put_field(0, Q2_CLK_SRC_MASK, clk_src_flag(c.clk.primary_src));
    let q = put_flag(q, Q2_CLK_AVAIL_RATE_BASE_44100_MASK, c.clk.avail_rate_44100);
    let q = put_flag(q, Q2_CLK_AVAIL_RATE_BASE_48000_MASK, c.clk.avail_rate_48000);
    let q = put_flag(q, Q2_CLK_AVAIL_RATE_DOUBLE_MASK, c.clk.avail_rate_double);
    put_flag(q, Q2_CLK_AVAIL_RATE_QUADRUPLE_MASK, c.clk.avail_rate_quadruple)
}

/// The fields are read back from the bits of the quadlet.
proof fn config_quad2_part0_facts(c: Ff800Config)
    ensures
        config_quad2_part0(c) & Q2_CLK_SRC_MASK == clk_src_flag(c.clk.primary_src),
        has_flag(config_quad2_part0(c), Q2_CLK_AVAIL_RATE_BASE_44100_MASK) == (c.clk.avail_rate_44100),
        has_flag(config_quad2_part0(c), Q2_CLK_AVAIL_RATE_BASE_48000_MASK) == (c.clk.avail_rate_48000),
        has_flag(config_quad2_part0(c), Q2_CLK_AVAIL_RATE_DOUBLE_MASK) == (c.clk.avail_rate_double),
        has_flag(config_quad2_part0(c), Q2_CLK_AVAIL_RATE_QUADRUPLE_MASK) == (c.clk.avail_rate_quadruple),
{
    lemma_flag_bits(c.clk.avail_rate_44100, Q2_CLK_AVAIL_RATE_BASE_44100_MASK);
    lemma_flag_bits(c.clk.avail_rate_48000, Q2_CLK_AVAIL_RATE_BASE_48000_MASK);
    lemma_flag_bits(c.clk.avail_rate_double, Q2_CLK_AVAIL_RATE_DOUBLE_MASK);
    lemma_flag_bits(c.clk.avail_rate_quadruple, Q2_CLK_AVAIL_RATE_QUADRUPLE_MASK);
    lemma_clk_src_code(c.clk.primary_src);
    lemma_ff800_bits(0, 0, 0, 0, 0, 0, 0, 0, 0, 0, 0, 0, 0, 0, 0, 0, 0, 0, 0, 0, 0, 0, 0, 0, 0, 0, 0, 0, 0, 0, 0, 0, 0, 0, 0, 0, 0, 0, 0, 0, 0, 0, 0, 0, 0, 0, 0, 0, 0, 0, 0, 0, 0, 0, 0, 0, 0, 0, 0, 0, 0, 0, 0, 0, 0, 0, 0, 0, 0, 0, 0, 0, 0, 0, 0, 0, 0, 0, 0, 0, 0, 0, 0, 0, 0, 0, 0, 0, 0, 0, 0, 0, clk_src_flag(c.clk.primary_src), flag_bits(c.clk.avail_rate_44100, Q2_CLK_AVAIL_RATE_BASE_44100_MASK), flag_bits(c.clk.avail_rate_48000, Q2_CLK_AVAIL_RATE_BASE_48000_MASK), flag_bits(c.clk.avail_rate_double, Q2_CLK_AVAIL_RATE_DOUBLE_MASK), flag_bits(c.clk.avail_rate_quadruple, Q2_CLK_AVAIL_RATE_QUADRUPLE_MASK), 0, 0, 0, 0, 0, 0, 0, 0, 0, 0, 0);
}

/// The bits of the first fields of the third quadlet of serialized configuration.
pub open spec fn config_quad2_part1(c: Ff800Config) -> u32 {
    let q = put_flag(config_quad2_part0(c), Q2_INPUT_0_INST_LIMITTER_MASK, c.analog_in.inst.limitter);
    let q = put_flag(q, Q2_SPDIF_IN_IFACE_OPT_MASK, c.spdif_in.iface == SpdifIface::Optical);
    let q = put_flag(q, Q2_SPDIF_IN_USE_PREEMBLE, c.spdif_in.use_preemble);
    let q = put_flag(q, Q2_OPT_OUT_SIGNAL_MASK, c.opt_out_signal == OpticalOutputSignal::Spdif);
    put_flag(q, Q2_SPDIF_OUT_FMT_PRO_MASK, c.spdif_out.format == SpdifFormat::Professional)
}

/// The fields are read back from the bits of the quadlet.
proof fn config_quad2_part1_facts(c: Ff800Config)
    ensures
        config_quad2_part1(c) & Q2_CLK_SRC_MASK == clk_src_flag(c.clk.primary_src),
        has_flag(config_quad2_part1(c), Q2_CLK_AVAIL_RATE_BASE_44100_MASK) == (c.clk.avail_rate_44100),
        has_flag(config_quad2_part1(c), Q2_CLK_AVAIL_RATE_BASE_48000_MASK) == (c.clk.avail_rate_48000),
        has_flag(config_quad2_part1(c), Q2_CLK_AVAIL_RATE_DOUBLE_MASK) == (c.clk.avail_rate_double),
        has_flag(config_quad2_part1(c), Q2_CLK_AVAIL_RATE_QUADRUPLE_MASK) == (c.clk.avail_rate_quadruple),
        has_flag(config_quad2_part1(c), Q2_INPUT_0_INST_LIMITTER_MASK) == (c.analog_in.inst.limitter),
        has_flag(config_quad2_part1(c), Q2_SPDIF_IN_IFACE_OPT_MASK) == (c.spdif_in.iface == SpdifIface::Optical),
        has_flag(config_quad2_part1(c), Q2_SPDIF_IN_USE_PREEMBLE) == (c.spdif_in.use_preemble),
        has_flag(config_quad2_part1(c), Q2_OPT_OUT_SIGNAL_MASK) == (c.opt_out_signal == OpticalOutputSignal::Spdif),
        has_flag(config_quad2_part1(c), Q2_SPDIF_OUT_FMT_PRO_MASK) == (c.spdif_out.format == SpdifFormat::Professional),
{
    config_quad2_part0_facts(c);
    lemma_flag_bits(c.analog_in.inst.limitter, Q2_INPUT_0_INST_LIMITTER_MASK);
    lemma_flag_bits(c.spdif_in.iface == SpdifIface::Optical, Q2_SPDIF_IN_IFACE_OPT_MASK);
    lemma_flag_bits(c.spdif_in.use_preemble, Q2_SPDIF_IN_USE_PREEMBLE);
    lemma_flag_bits(c.opt_out_signal == OpticalOutputSignal::Spdif, Q2_OPT_OUT_SIGNAL_MASK);
    lemma_flag_bits(c.spdif_out.format == SpdifFormat::Professional, Q2_SPDIF_OUT_FMT_PRO_MASK);
    lemma_clk_src_code(c.clk.primary_src);
    lemma_ff800_bits(0, 0, 0, 0, 0, 0, 0, 0, 0, 0, 0, 0, 0, 0, 0, 0, 0, 0, 0, 0, 0, 0, 0, 0, 0, 0, 0, 0, 0, 0, 0, 0, 0, 0, 0, 0, 0, 0, 0, 0, 0, 0, 0, 0, 0, 0, 0, 0, 0, 0, 0, 0, 0, 0, 0, 0, 0, 0, 0, 0, 0, 0, 0, 0, 0, 0, 0, 0, 0, 0, 0, 0, 0, 0, 0, 0, 0, 0, 0, 0, 0, 0, 0, 0, 0, 0, 0, 0, 0, 0, 0, 0, 0, 0, 0, 0, 0, config_quad2_part0(c), flag_bits(c.analog_in.inst.limitter, Q2_INPUT_0_INST_LIMITTER_MASK), flag_bits(c.spdif_in.iface == SpdifIface::Optical, Q2_SPDIF_IN_IFACE_OPT_MASK), flag_bits(c.spdif_in.use_preemble, Q2_SPDIF_IN_USE_PREEMBLE), flag_bits(c.opt_out_signal == OpticalOutputSignal::Spdif, Q2_OPT_OUT_SIGNAL_MASK), flag_bits(c.spdif_out.format == SpdifFormat::Professional, Q2_SPDIF_OUT_FMT_PRO_MASK), 0, 0, 0, 0, 0);
}

/// The third quadlet of serialized configuration.
pub open spec fn config_quad2(c: Ff800Config) -> u32 {
    let q = put_flag(config_quad2_part1(c), Q2_SPDIF_OUT_EMPHASIS_MASK, c.spdif_out.emphasis);
    let q = put_flag(q, Q2_SPDIF_OUT_NON_AUDIO_MASK, c.spdif_out.non_audio);
    let q = put_flag(q, Q2_WORD_OUT_SINGLE_SPEED_MASK, c.word_out_single);
    put_flag(q, Q2_CONTINUE_AT_ERRORS, c.continue_at_errors)
}

/// The fields are read back from the bits of the quadlet.
proof fn config_quad2_facts(c: Ff800Config)
    ensures
        config_quad2(c) & Q2_CLK_SRC_MASK == clk_src_flag(c.clk.primary_src),
        has_flag(config_quad2(c), Q2_CLK_AVAIL_RATE_BASE_44100_MASK) == (c.clk.avail_rate_44100),
        has_flag(config_quad2(c), Q2_CLK_AVAIL_RATE_BASE_48000_MASK) == (c.clk.avail_rate_48000),
        has_flag(config_quad2(c), Q2_CLK_AVAIL_RATE_DOUBLE_MASK) == (c.clk.avail_rate_double),
        has_flag(config_quad2(c), Q2_CLK_AVAIL_RATE_QUADRUPLE_MASK) == (c.clk.avail_rate_quadruple),
        has_flag(config_quad2(c), Q2_INPUT_0_INST_LIMITTER_MASK) == (c.analog_in.inst.limitter),
        has_flag(config_quad2(c), Q2_SPDIF_IN_IFACE_OPT_MASK) == (c.spdif_in.iface == SpdifIface::Optical),
        has_flag(config_quad2(c), Q2_SPDIF_IN_USE_PREEMBLE) == (c.spdif_in.use_preemble),
        has_flag(config_quad2(c), Q2_OPT_OUT_SIGNAL_MASK) == (c.opt_out_signal == OpticalOutputSignal::Spdif),
        has_flag(config_quad2(c), Q2_SPDIF_OUT_FMT_PRO_MASK) == (c.spdif_out.format == SpdifFormat::Professional),
        has_flag(config_quad2(c), Q2_SPDIF_OUT_EMPHASIS_MASK) == (c.spdif_out.emphasis),
        has_flag(config_quad2(c), Q2_SPDIF_OUT_NON_AUDIO_MASK) == (c.spdif_out.non_audio),
        has_flag(config_quad2(c), Q2_WORD_OUT_SINGLE_SPEED_MASK) == (c.word_out_single),
        has_flag(config_quad2(c), Q2_CONTINUE_AT_ERRORS) == (c.continue_at_errors),
{
    config_quad2_part1_facts(c);
    lemma_flag_bits(c.spdif_out.emphasis, Q2_SPDIF_OUT_EMPHASIS_MASK);
    lemma_flag_bits(c.spdif_out.non_audio, Q2_SPDIF_OUT_NON_AUDIO_MASK);
    lemma_flag_bits(c.word_out_single, Q2_WORD_OUT_SINGLE_SPEED_MASK);
    lemma_flag_bits(c.continue_at_errors, Q2_CONTINUE_AT_ERRORS);
    lemma_clk_src_code(c.clk.primary_src);
    lemma_ff800_bits(0, 0, 0, 0, 0, 0, 0, 0, 0, 0, 0, 0, 0, 0, 0, 0, 0, 0, 0, 0, 0, 0, 0, 0, 0, 0, 0, 0, 0, 0, 0, 0, 0, 0, 0, 0, 0, 0, 0, 0, 0, 0, 0, 0, 0, 0, 0, 0, 0, 0, 0, 0, 0, 0, 0, 0, 0, 0, 0, 0, 0, 0, 0, 0, 0, 0, 0, 0, 0, 0, 0, 0, 0, 0, 0, 0, 0, 0, 0, 0, 0, 0, 0, 0, 0, 0, 0, 0, 0, 0, 0, 0, 0, 0, 0, 0, 0, 0, 0, 0, 0, 0, 0, config_quad2_part1(c), flag_bits(c.spdif_out.emphasis, Q2_SPDIF_OUT_EMPHASIS_MASK), flag_bits(c.spdif_out.non_audio, Q2_SPDIF_OUT_NON_AUDIO_MASK), flag_bits(c.word_out_single, Q2_WORD_OUT_SINGLE_SPEED_MASK), flag_bits(c.continue_at_errors, Q2_CONTINUE_AT_ERRORS));
}

/// The nominal level of line outputs read from the quadlets, if the bits stand for one.
pub open spec fn line_out_level_of(q0: u32, q1: u32) -> Option<LineOutNominalLevel> {
    let pair = (q0 & Q0_LINE_OUT_LEVEL_MASK, q1 & Q1_LINE_OUT_LEVEL_MASK);
    if pair == (Q0_LINE_OUT_LEVEL_HIGH_FLAG, Q1_LINE_OUT_LEVEL_HIGH_FLAG) {
        Some(LineOutNominalLevel::High)
    } else if pair == (Q0_LINE_OUT_LEVEL_CON_FLAG, Q1_LINE_OUT_LEVEL_CON_FLAG) {
        Some(LineOutNominalLevel::Consumer)
    } else if pair == (Q0_LINE_OUT_LEVEL_PRO_FLAG, Q1_LINE_OUT_LEVEL_PRO_FLAG) {
        Some(LineOutNominalLevel::Professional)
    } else {
        None
    }
}

fn line_out_level_of_exec(q0: u32, q1: u32) -> (r: Option<LineOutNominalLevel>)
    ensures
        r == line_out_level_of(q0, q1),
{
    let pair = (q0 & Q0_LINE_OUT_LEVEL_MASK, q1 & Q1_LINE_OUT_LEVEL_MASK);
    if pair.0 == Q0_LINE_OUT_LEVEL_HIGH_FLAG && pair.1 == Q1_LINE_OUT_LEVEL_HIGH_FLAG {
        Some(LineOutNominalLevel::High)
    } else if pair.0 == Q0_LINE_OUT_LEVEL_CON_FLAG && pair.1 == Q1_LINE_OUT_LEVEL_CON_FLAG {
        Some(LineOutNominalLevel::Consumer)
    } else if pair.0 == Q0_LINE_OUT_LEVEL_PRO_FLAG && pair.1 == Q1_LINE_OUT_LEVEL_PRO_FLAG {
        Some(LineOutNominalLevel::Professional)
    } else {
        None
    }
}

/// The nominal level of line outputs is read back from its flags.
pub proof fn lemma_line_out_level_code(level: LineOutNominalLevel, q0: u32, q1: u32)
    requires
        q0 & Q0_LINE_OUT_LEVEL_MASK == line_out_level_flag0(level),
        q1 & Q1_LINE_OUT_LEVEL_MASK == line_out_level_flag1(level),
    ensures
        line_out_level_of(q0, q1) == Some(level),
{
    reveal(line_out_level_flag0);
    reveal(line_out_level_flag1);
}

/// The configuration read from the quadlets.
pub open spec fn config_from_quads(q0: u32, q1: u32, q2: u32) -> Ff800Config {
    Ff800Config {
        clk: clock_config_of(q2),
        analog_in: analog_in_config_of(q0, q1, q2),
        line_out_level: line_out_level_of(q0, q1).unwrap(),
        spdif_in: SpdifInput {
            iface: if has_flag(q2, Q2_SPDIF_IN_IFACE_OPT_MASK) {
                SpdifIface::Optical
            } else {
                SpdifIface::Coaxial
            },
            use_preemble: has_flag(q2, Q2_SPDIF_IN_USE_PREEMBLE),
        },
        spdif_out: FormerSpdifOutput {
            format: if has_flag(q2, Q2_SPDIF_OUT_FMT_PRO_MASK) {
                SpdifFormat::Professional
            } else {
                SpdifFormat::Consumer
            },
            emphasis: has_flag(q2, Q2_SPDIF_OUT_EMPHASIS_MASK),
            non_audio: has_flag(q2, Q2_SPDIF_OUT_NON_AUDIO_MASK),
        },
        opt_out_signal: if has_flag(q2, Q2_OPT_OUT_SIGNAL_MASK) {
            OpticalOutputSignal::Spdif
        } else {
            OpticalOutputSignal::Adat
        },
        word_out_single: has_flag(q2, Q2_WORD_OUT_SINGLE_SPEED_MASK),
        continue_at_errors: has_flag(q2, Q2_CONTINUE_AT_ERRORS),
    }
}

/// Whether the raw data can be deserialized into configuration.
pub open spec fn config_acceptable(raw: Seq<u8>) -> bool {
    &&& raw.len() >= FORMER_CONFIG_SIZE
    &&& analog_in_acceptable(le_quad_at(raw, 0), le_quad_at(raw, 4))
    &&& line_out_level_of(le_quad_at(raw, 0), le_quad_at(raw, 4)) is Some
}

impl RmeFfOffsetParamsSerialize<Ff800Config> for Ff800Protocol {
    open spec fn offsets_of(params: Ff800Config) -> Seq<u8> {
        le_quads_bytes(
                seq![config_quad0(params), config_quad1(params), config_quad2(params)],
            )
    }

    #[verifier::rlimit(40)]
    fn serialize_offsets(params: &Ff800Config) -> (r: Vec<u8>)
        ensures
            r@ == le_quads_bytes(
                seq![config_quad0(*params), config_quad1(*params), config_quad2(*params)],
            ),
    {
        let mut quads = [0u32, 0u32, 0u32];
        serialize_clock_config(&params.clk, &mut quads);
        serialize_analog_input_config(&params.analog_in, &mut quads);
        let flag = line_out_level_flag0_exec(params.line_out_level);
        quads[0] = set_field(quads[0], Q0_LINE_OUT_LEVEL_MASK, flag);
        let flag = line_out_level_flag1_exec(params.line_out_level);
        quads[1] = set_field(quads[1], Q1_LINE_OUT_LEVEL_MASK, flag);
        quads[2] = set_flag(
            quads[2],
            Q2_SPDIF_IN_IFACE_OPT_MASK,
            params.spdif_in.iface == SpdifIface::Optical,
        );
        quads[2] = set_flag(quads[2], Q2_SPDIF_IN_USE_PREEMBLE, params.spdif_in.use_preemble);
        quads[2] = set_flag(
            quads[2],
            Q2_OPT_OUT_SIGNAL_MASK,
            params.opt_out_signal == OpticalOutputSignal::Spdif,
        );
        quads[2] = set_flag(
            quads[2],
            Q2_SPDIF_OUT_FMT_PRO_MASK,
            params.spdif_out.format == SpdifFormat::Professional,
        );
        quads[2] = set_flag(quads[2], Q2_SPDIF_OUT_EMPHASIS_MASK, params.spdif_out.emphasis);
        quads[2] = set_flag(quads[2], Q2_SPDIF_OUT_NON_AUDIO_MASK, params.spdif_out.non_audio);
        quads[2] = set_flag(quads[2], Q2_WORD_OUT_SINGLE_SPEED_MASK, params.word_out_single);
        quads[2] = set_flag(quads[2], Q2_CONTINUE_AT_ERRORS, params.continue_at_errors);
        proof {
            assert(quads@ =~= seq![
                config_quad0(*params),
                config_quad1(*params),
                config_quad2(*params),
            ]);
        }
        quads_to_le_bytes(&quads)
    }
}

impl RmeFfOffsetParamsDeserialize<Ff800Config> for Ff800Protocol {
    open spec fn deserialized(params: Ff800Config, raw: Seq<u8>, after: Ff800Config) -> bool {
        after == config_from_quads(
                le_quad_at(raw, 0),
                le_quad_at(raw, 4),
                le_quad_at(raw, 8),
            )
    }

    open spec fn offsets_acceptable(params: Ff800Config, raw: Seq<u8>) -> bool {
        config_acceptable(raw)
    }

    fn deserialize_offsets(params: &mut Ff800Config, raw: &[u8])
        ensures
            *final(params) == config_from_quads(
                le_quad_at(raw@, 0),
                le_quad_at(raw@, 4),
                le_quad_at(raw@, 8),
            ),
    {
        let quads = [read_le_quad(raw, 0), read_le_quad(raw, 4), read_le_quad(raw, 8)];
        let mut clk = params.clk;
        deserialize_clock_config(&mut clk, &quads);
        let mut analog_in = params.analog_in;
        deserialize_analog_input_config(&mut analog_in, &quads);
        let line_out_level = match line_out_level_of_exec(quads[0], quads[1]) {
            Some(level) => level,
            None => params.line_out_level,
        };
        let iface = if check_flag(quads[2], Q2_SPDIF_IN_IFACE_OPT_MASK) {
            SpdifIface::Optical
        } else {
            SpdifIface::Coaxial
        };
        let format = if check_flag(quads[2], Q2_SPDIF_OUT_FMT_PRO_MASK) {
            SpdifFormat::Professional
        } else {
            SpdifFormat::Consumer
        };
        let opt_out_signal = if check_flag(quads[2], Q2_OPT_OUT_SIGNAL_MASK) {
            OpticalOutputSignal::Spdif
        } else {
            OpticalOutputSignal::Adat
        };
        *params = Ff800Config {
            clk,
            analog_in,
            line_out_level,
            spdif_in: SpdifInput {
                iface,
                use_preemble: check_flag(quads[2], Q2_SPDIF_IN_USE_PREEMBLE),
            },
            spdif_out: FormerSpdifOutput {
                format,
                emphasis: check_flag(quads[2], Q2_SPDIF_OUT_EMPHASIS_MASK),
                non_audio: check_flag(quads[2], Q2_SPDIF_OUT_NON_AUDIO_MASK),
            },
            opt_out_signal,
            word_out_single: check_flag(quads[2], Q2_WORD_OUT_SINGLE_SPEED_MASK),
            continue_at_errors: check_flag(quads[2], Q2_CONTINUE_AT_ERRORS),
        };
    }
}

/// The configuration for analog inputs is read back from quadlets which carry its bits.
pub proof fn lemma_analog_in_from_facts(a: Ff800AnalogInConfig, q0: u32, q1: u32, q2: u32)
    requires
        q0 & Q0_LINE_IN_LEVEL_MASK == line_in_level_flag0(a.line_level),
        has_flag(q0, Q0_INPUT_6_POWERING_MASK) == (a.phantom_powering[0]),
        has_flag(q0, Q0_INPUT_7_POWERING_MASK) == (a.phantom_powering[1]),
        has_flag(q0, Q0_INPUT_8_POWERING_MASK) == (a.phantom_powering[2]),
        has_flag(q0, Q0_INPUT_9_POWERING_MASK) == (a.phantom_powering[3]),
        has_flag(q0, Q0_INPUT_0_INST_DRIVE_MASK) == (a.inst.drive),
        has_flag(q0, Q0_INPUT_0_INST_SPKR_EMU_MASK) == (a.inst.speaker_emulation),
        has_flag(q1, Q1_INPUT_0_REAR_JACK_MASK) == (a.jacks[0] != Ff800AnalogInputJack::Front),
        has_flag(q1, Q1_INPUT_0_FRONT_JACK_MASK) == (a.jacks[0] != Ff800AnalogInputJack::Rear),
        has_flag(q1, Q1_INPUT_6_REAR_JACK_MASK) == (a.jacks[1] != Ff800AnalogInputJack::Front),
        has_flag(q1, Q1_INPUT_6_FRONT_JACK_MASK) == (a.jacks[1] != Ff800AnalogInputJack::Rear),
        has_flag(q1, Q1_INPUT_7_REAR_JACK_MASK) == (a.jacks[2] != Ff800AnalogInputJack::Front),
        has_flag(q1, Q1_INPUT_7_FRONT_JACK_MASK) == (a.jacks[2] != Ff800AnalogInputJack::Rear),
        q1 & Q1_LINE_IN_LEVEL_MASK == line_in_level_flag1(a.line_level),
        has_flag(q1, Q1_INPUT_0_INST_DRIVE_MASK) == (a.inst.drive),
        has_flag(q2, Q2_INPUT_0_INST_LIMITTER_MASK) == (a.inst.limitter),
    ensures
        analog_in_acceptable(q0, q1),
        analog_in_config_of(q0, q1, q2) == a,
{
    lemma_line_in_level_code(a.line_level, q0, q1);
    lemma_jack_code(a.jacks[0]);
    lemma_jack_code(a.jacks[1]);
    lemma_jack_code(a.jacks[2]);
    reveal(analog_in_config_of);
    let d = analog_in_config_of(q0, q1, q2);
    assert(d.jacks =~= a.jacks);
    assert(d.phantom_powering =~= a.phantom_powering);
    assert(d.inst == a.inst);
}

/// The configuration is read back from quadlets which carry the bits of its fields.
pub proof fn lemma_config_from_facts(c: Ff800Config, q0: u32, q1: u32, q2: u32)
    requires
        q0 & Q0_LINE_IN_LEVEL_MASK == line_in_level_flag0(c.analog_in.line_level),
        has_flag(q0, Q0_INPUT_6_POWERING_MASK) == (c.analog_in.phantom_powering[0]),
        has_flag(q0, Q0_INPUT_7_POWERING_MASK) == (c.analog_in.phantom_powering[1]),
        has_flag(q0, Q0_INPUT_8_POWERING_MASK) == (c.analog_in.phantom_powering[2]),
        has_flag(q0, Q0_INPUT_9_POWERING_MASK) == (c.analog_in.phantom_powering[3]),
        has_flag(q0, Q0_INPUT_0_INST_DRIVE_MASK) == (c.analog_in.inst.drive),
        has_flag(q0, Q0_INPUT_0_INST_SPKR_EMU_MASK) == (c.analog_in.inst.speaker_emulation),
        q0 & Q0_LINE_OUT_LEVEL_MASK == line_out_level_flag0(c.line_out_level),
        has_flag(q1, Q1_INPUT_0_REAR_JACK_MASK) == (c.analog_in.jacks[0] != Ff800AnalogInputJack::Front),
        has_flag(q1, Q1_INPUT_0_FRONT_JACK_MASK) == (c.analog_in.jacks[0] != Ff800AnalogInputJack::Rear),
        has_flag(q1, Q1_INPUT_6_REAR_JACK_MASK) == (c.analog_in.jacks[1] != Ff800AnalogInputJack::Front),
        has_flag(q1, Q1_INPUT_6_FRONT_JACK_MASK) == (c.analog_in.jacks[1] != Ff800AnalogInputJack::Rear),
        has_flag(q1, Q1_INPUT_7_REAR_JACK_MASK) == (c.analog_in.jacks[2] != Ff800AnalogInputJack::Front),
        has_flag(q1, Q1_INPUT_7_FRONT_JACK_MASK) == (c.analog_in.jacks[2] != Ff800AnalogInputJack::Rear),
        q1 & Q1_LINE_IN_LEVEL_MASK == line_in_level_flag1(c.analog_in.line_level),
        has_flag(q1, Q1_INPUT_0_INST_DRIVE_MASK) == (c.analog_in.inst.drive),
        q1 & Q1_LINE_OUT_LEVEL_MASK == line_out_level_flag1(c.line_out_level),
        q2 & Q2_CLK_SRC_MASK == clk_src_flag(c.clk.primary_src),
        has_flag(q2, Q2_CLK_AVAIL_RATE_BASE_44100_MASK) == (c.clk.avail_rate_44100),
        has_flag(q2, Q2_CLK_AVAIL_RATE_BASE_48000_MASK) == (c.clk.avail_rate_48000),
        has_flag(q2, Q2_CLK_AVAIL_RATE_DOUBLE_MASK) == (c.clk.avail_rate_double),
        has_flag(q2, Q2_CLK_AVAIL_RATE_QUADRUPLE_MASK) == (c.clk.avail_rate_quadruple),
        has_flag(q2, Q2_INPUT_0_INST_LIMITTER_MASK) == (c.analog_in.inst.limitter),
        has_flag(q2, Q2_SPDIF_IN_IFACE_OPT_MASK) == (c.spdif_in.iface == SpdifIface::Optical),
        has_flag(q2, Q2_SPDIF_IN_USE_PREEMBLE) == (c.spdif_in.use_preemble),
        has_flag(q2, Q2_OPT_OUT_SIGNAL_MASK) == (c.opt_out_signal == OpticalOutputSignal::Spdif),
        has_flag(q2, Q2_SPDIF_OUT_FMT_PRO_MASK) == (c.spdif_out.format == SpdifFormat::Professional),
        has_flag(q2, Q2_SPDIF_OUT_EMPHASIS_MASK) == (c.spdif_out.emphasis),
        has_flag(q2, Q2_SPDIF_OUT_NON_AUDIO_MASK) == (c.spdif_out.non_audio),
        has_flag(q2, Q2_WORD_OUT_SINGLE_SPEED_MASK) == (c.word_out_single),
        has_flag(q2, Q2_CONTINUE_AT_ERRORS) == (c.continue_at_errors),
    ensures
        analog_in_acceptable(q0, q1),
        line_out_level_of(q0, q1) is Some,
        config_from_quads(q0, q1, q2) == c,
{
    lemma_analog_in_from_facts(c.analog_in, q0, q1, q2);
    lemma_line_out_level_code(c.line_out_level, q0, q1);
    lemma_clk_src_code(c.clk.primary_src);
    let d = config_from_quads(q0, q1, q2);
    assert(d.clk == c.clk);
    assert(d.spdif_in == c.spdif_in);
    assert(d.spdif_out == c.spdif_out);
}

/// Deserializing what was serialized gives the configuration back.
pub proof fn lemma_config_roundtrip(c: Ff800Config)
    ensures
        config_acceptable(
            le_quads_bytes(seq![config_quad0(c), config_quad1(c), config_quad2(c)]),
        ),
        ({
            let raw = le_quads_bytes(seq![config_quad0(c), config_quad1(c), config_quad2(c)]);
            config_from_quads(le_quad_at(raw, 0), le_quad_at(raw, 4), le_quad_at(raw, 8)) == c
        }),
{
    let qs = seq![config_quad0(c), config_quad1(c), config_quad2(c)];
    lemma_le_quads_bytes(qs, 0);
    lemma_le_quads_bytes(qs, 1);
    lemma_le_quads_bytes(qs, 2);
    config_quad0_facts(c);
    config_quad1_facts(c);
    config_quad2_facts(c);
    lemma_config_from_facts(c, config_quad0(c), config_quad1(c), config_quad2(c));
}

/// The bits of each field are read back after the serialization of the quadlets.
proof fn lemma_ff800_bits(g0_q: u32, g0_v0: u32, g0_v1: u32, g0_v2: u32, g0_v3: u32, g1_q: u32, g1_v0: u32, g2_q: u32, g2_v0: u32, g2_v1: u32, g2_v2: u32, g2_v3: u32, g3_q: u32, g3_v0: u32, g4_q: u32, g4_v0: u32, g4_v1: u32, g4_v2: u32, g4_v3: u32, g4_v4: u32, g4_v5: u32, g5_q: u32, g5_v0: u32, g5_v1: u32, g5_v2: u32, g5_v3: u32, g5_v4: u32, g6_q: u32, g6_v0: u32, g6_v1: u32, g6_v2: u32, g6_v3: u32, g6_v4: u32, g7_q: u32, g7_v0: u32, g7_v1: u32, g7_v2: u32, g7_v3: u32, g8_q: u32, g8_v0: u32, g8_v1: u32, g8_v2: u32, g8_v3: u32, g8_v4: u32, g9_q: u32, g9_v0: u32, g9_v1: u32, g10_q: u32, g10_v0: u32, g11_q: u32, g11_v0: u32, g12_q: u32, g12_v0: u32, g12_v1: u32, g12_v2: u32, g12_v3: u32, g12_v4: u32, g12_v5: u32, g12_v6: u32, g13_q: u32, g13_v0: u32, g13_v1: u32, g13_v2: u32, g13_v3: u32, g13_v4: u32, g13_v5: u32, g13_v6: u32, g13_v7: u32, g14_q: u32, g14_v0: u32, g15_q: u32, g15_v0: u32, g15_v1: u32, g15_v2: u32, g15_v3: u32, g15_v4: u32, g16_q: u32, g16_v0: u32, g16_v1: u32, g16_v2: u32, g17_q: u32, g17_v0: u32, g17_v1: u32, g17_v2: u32, g17_v3: u32, g17_v4: u32, g18_q: u32, g18_v0: u32, g18_v1: u32, g18_v2: u32, g18_v3: u32, g19_q: u32, g19_v0: u32, g19_v1: u32, g19_v2: u32, g19_v3: u32, g19_v4: u32, g20_q: u32, g20_v0: u32, g20_v1: u32, g20_v2: u32, g20_v3: u32, g20_v4: u32, g21_q: u32, g21_v0: u32, g21_v1: u32, g21_v2: u32, g21_v3: u32) by (bit_vector)
    ensures
        ((g0_v0 & !Q0_LOCK_ADAT_A_MASK == 0) && (g0_v1 & !Q0_LOCK_ADAT_B_MASK == 0) && (g0_v2 & !Q0_LOCK_SPDIF_MASK == 0) && (g0_v3 & !Q0_LOCK_WORD_CLOCK_MASK == 0)) ==> ({
            let r = put_field(g0_q, Q0_LOCK_ADAT_A_MASK, g0_v0);
            let r = put_field(r, Q0_LOCK_ADAT_B_MASK, g0_v1);
            let r = put_field(r, Q0_LOCK_SPDIF_MASK, g0_v2);
            let r = put_field(r, Q0_LOCK_WORD_CLOCK_MASK, g0_v3);
            &&& r & Q0_LOCK_ADAT_A_MASK == g0_v0
            &&& r & Q0_LOCK_ADAT_B_MASK == g0_v1
            &&& r & Q0_LOCK_SPDIF_MASK == g0_v2
            &&& r & Q0_LOCK_WORD_CLOCK_MASK == g0_v3
        }),
        ((g1_v0 & !Q1_LOCK_TCO_MASK == 0)) ==> ({
            let r = put_field(g1_q, Q1_LOCK_TCO_MASK, g1_v0);
            &&& r & Q1_LOCK_TCO_MASK == g1_v0
        }),
        ((g2_v0 & !Q0_SYNC_ADAT_A_MASK == 0) && (g2_v1 & !Q0_SYNC_ADAT_B_MASK == 0) && (g2_v2 & !Q0_SYNC_SPDIF_MASK == 0) && (g2_v3 & !Q0_SYNC_WORD_CLOCK_MASK == 0)) ==> ({
            let r = put_field(g2_q, Q0_SYNC_ADAT_A_MASK, g2_v0);
            let r = put_field(r, Q0_SYNC_ADAT_B_MASK, g2_v1);
            let r = put_field(r, Q0_SYNC_SPDIF_MASK, g2_v2);
            let r = put_field(r, Q0_SYNC_WORD_CLOCK_MASK, g2_v3);
            &&& r & Q0_SYNC_ADAT_A_MASK == g2_v0
            &&& r & Q0_SYNC_ADAT_B_MASK == g2_v1
            &&& r & Q0_SYNC_SPDIF_MASK == g2_v2
            &&& r & Q0_SYNC_WORD_CLOCK_MASK == g2_v3
        }),
        ((g3_v0 & !Q1_SYNC_TCO_MASK == 0)) ==> ({
            let r = put_field(g3_q, Q1_SYNC_TCO_MASK, g3_v0);
            &&& r & Q1_SYNC_TCO_MASK == g3_v0
        }),
        ((g4_q == 0) && (g4_v0 & !Q0_LOCK_ADAT_A_MASK == 0) && (g4_v1 & !Q0_LOCK_ADAT_B_MASK == 0) && (g4_v2 & !Q0_LOCK_SPDIF_MASK == 0) && (g4_v3 & !Q0_LOCK_WORD_CLOCK_MASK == 0) && (g4_v4 & !Q0_SYNC_ADAT_A_MASK == 0) && (g4_v5 & !Q0_SYNC_ADAT_B_MASK == 0)) ==> ({
            let r = put_field(g4_q, Q0_LOCK_ADAT_A_MASK, g4_v0);
            let r = put_field(r, Q0_LOCK_ADAT_B_MASK, g4_v1);
            let r = put_field(r, Q0_LOCK_SPDIF_MASK, g4_v2);
            let r = put_field(r, Q0_LOCK_WORD_CLOCK_MASK, g4_v3);
            let r = put_field(r, Q0_SYNC_ADAT_A_MASK, g4_v4);
            let r = put_field(r, Q0_SYNC_ADAT_B_MASK, g4_v5);
            &&& r & Q0_LOCK_ADAT_A_MASK == g4_v0
            &&& r & Q0_LOCK_ADAT_B_MASK == g4_v1
            &&& r & Q0_LOCK_SPDIF_MASK == g4_v2
            &&& r & Q0_LOCK_WORD_CLOCK_MASK == g4_v3
            &&& r & Q0_SYNC_ADAT_A_MASK == g4_v4
            &&& r & Q0_SYNC_ADAT_B_MASK == g4_v5
        }),
        ((g5_v0 & !Q0_SYNC_SPDIF_MASK == 0) && (g5_v1 & !Q0_SYNC_WORD_CLOCK_MASK == 0) && (spdif_rate_flag_valid(g5_v2)) && (active_clk_src_valid(g5_v3)) && (ext_clk_rate_flag_valid(g5_v4))) ==> ({
            let r = put_field(g5_q, Q0_SYNC_SPDIF_MASK, g5_v0);
            let r = put_field(r, Q0_SYNC_WORD_CLOCK_MASK, g5_v1);
            let r = put_field(r, Q0_SPDIF_RATE_MASK, g5_v2);
            let r = put_field(r, Q0_ACTIVE_CLK_SRC_MASK, g5_v3);
            let r = put_field(r, Q0_EXT_CLK_RATE_MASK, g5_v4);
            &&& r & Q0_SYNC_SPDIF_MASK == g5_v0
            &&& r & Q0_SYNC_WORD_CLOCK_MASK == g5_v1
            &&& r & Q0_SPDIF_RATE_MASK == g5_v2
            &&& r & Q0_ACTIVE_CLK_SRC_MASK == g5_v3
            &&& r & Q0_EXT_CLK_RATE_MASK == g5_v4
            &&& r & Q0_LOCK_ADAT_A_MASK == g5_q & Q0_LOCK_ADAT_A_MASK
            &&& r & Q0_LOCK_ADAT_B_MASK == g5_q & Q0_LOCK_ADAT_B_MASK
            &&& r & Q0_LOCK_SPDIF_MASK == g5_q & Q0_LOCK_SPDIF_MASK
            &&& r & Q0_LOCK_WORD_CLOCK_MASK == g5_q & Q0_LOCK_WORD_CLOCK_MASK
            &&& r & Q0_SYNC_ADAT_A_MASK == g5_q & Q0_SYNC_ADAT_A_MASK
            &&& r & Q0_SYNC_ADAT_B_MASK == g5_q & Q0_SYNC_ADAT_B_MASK
        }),
        ((g6_q == 0) && (g6_v0 & !Q1_LOCK_TCO_MASK == 0) && (g6_v1 & !Q1_SYNC_TCO_MASK == 0) && (g6_v2 & !Q1_SPDIF_IN_IFACE_MASK == 0) && (g6_v3 & !Q1_SPDIF_OUT_FMT_MASK == 0) && (g6_v4 & !Q1_SPDIF_OUT_EMPHASIS_MASK == 0)) ==> ({
            let r = put_field(g6_q, Q1_LOCK_TCO_MASK, g6_v0);
            let r = put_field(r, Q1_SYNC_TCO_MASK, g6_v1);
            let r = put_field(r, Q1_SPDIF_IN_IFACE_MASK, g6_v2);
            let r = put_field(r, Q1_SPDIF_OUT_FMT_MASK, g6_v3);
            let r = put_field(r, Q1_SPDIF_OUT_EMPHASIS_MASK, g6_v4);
            &&& r & Q1_LOCK_TCO_MASK == g6_v0
            &&& r & Q1_SYNC_TCO_MASK == g6_v1
            &&& r & Q1_SPDIF_IN_IFACE_MASK == g6_v2
            &&& r & Q1_SPDIF_OUT_FMT_MASK == g6_v3
            &&& r & Q1_SPDIF_OUT_EMPHASIS_MASK == g6_v4
        }),
        ((g7_v0 & !Q1_OPT_OUT_SIGNAL_MASK == 0) && (g7_v1 & !Q1_WORD_OUT_SINGLE_MASK == 0) && (conf_clk_src_flag_valid(g7_v2)) && (conf_clk_rate_flag_valid(g7_v3))) ==> ({
            let r = put_field(g7_q, Q1_OPT_OUT_SIGNAL_MASK, g7_v0);
            let r = put_field(r, Q1_WORD_OUT_SINGLE_MASK, g7_v1);
            let r = put_field(r, Q1_CONF_CLK_SRC_MASK, g7_v2);
            let r = put_field(r, Q1_CONF_CLK_RATE_MASK, g7_v3);
            &&& r & Q1_OPT_OUT_SIGNAL_MASK == g7_v0
            &&& r & Q1_WORD_OUT_SINGLE_MASK == g7_v1
            &&& r & Q1_CONF_CLK_SRC_MASK == g7_v2
            &&& r & Q1_CONF_CLK_RATE_MASK == g7_v3
            &&& r & Q1_LOCK_TCO_MASK == g7_q & Q1_LOCK_TCO_MASK
            &&& r & Q1_SYNC_TCO_MASK == g7_q & Q1_SYNC_TCO_MASK
            &&& r & Q1_SPDIF_IN_IFACE_MASK == g7_q & Q1_SPDIF_IN_IFACE_MASK
            &&& r & Q1_SPDIF_OUT_FMT_MASK == g7_q & Q1_SPDIF_OUT_FMT_MASK
            &&& r & Q1_SPDIF_OUT_EMPHASIS_MASK == g7_q & Q1_SPDIF_OUT_EMPHASIS_MASK
        }),
        ((clk_src_flag_valid(g8_v0)) && (g8_v1 & !Q2_CLK_AVAIL_RATE_BASE_44100_MASK == 0) && (g8_v2 & !Q2_CLK_AVAIL_RATE_BASE_48000_MASK == 0) && (g8_v3 & !Q2_CLK_AVAIL_RATE_DOUBLE_MASK == 0) && (g8_v4 & !Q2_CLK_AVAIL_RATE_QUADRUPLE_MASK == 0)) ==> ({
            let r = put_field(g8_q, Q2_CLK_SRC_MASK, g8_v0);
            let r = put_field(r, Q2_CLK_AVAIL_RATE_BASE_44100_MASK, g8_v1);
            let r = put_field(r, Q2_CLK_AVAIL_RATE_BASE_48000_MASK, g8_v2);
            let r = put_field(r, Q2_CLK_AVAIL_RATE_DOUBLE_MASK, g8_v3);
            let r = put_field(r, Q2_CLK_AVAIL_RATE_QUADRUPLE_MASK, g8_v4);
            &&& r & Q2_CLK_SRC_MASK == g8_v0
            &&& r & Q2_CLK_AVAIL_RATE_BASE_44100_MASK == g8_v1
            &&& r & Q2_CLK_AVAIL_RATE_BASE_48000_MASK == g8_v2
            &&& r & Q2_CLK_AVAIL_RATE_DOUBLE_MASK == g8_v3
            &&& r & Q2_CLK_AVAIL_RATE_QUADRUPLE_MASK == g8_v4
        }),
        ((g9_v0 & !Q0_INPUT_0_INST_DRIVE_MASK == 0) && (g9_v1 & !Q0_INPUT_0_INST_SPKR_EMU_MASK == 0)) ==> ({
            let r = put_field(g9_q, Q0_INPUT_0_INST_DRIVE_MASK, g9_v0);
            let r = put_field(r, Q0_INPUT_0_INST_SPKR_EMU_MASK, g9_v1);
            &&& r & Q0_INPUT_0_INST_DRIVE_MASK == g9_v0
            &&& r & Q0_INPUT_0_INST_SPKR_EMU_MASK == g9_v1
        }),
        ((g10_v0 & !Q1_INPUT_0_INST_DRIVE_MASK == 0)) ==> ({
            let r = put_field(g10_q, Q1_INPUT_0_INST_DRIVE_MASK, g10_v0);
            &&& r & Q1_INPUT_0_INST_DRIVE_MASK == g10_v0
        }),
        ((g11_v0 & !Q2_INPUT_0_INST_LIMITTER_MASK == 0)) ==> ({
            let r = put_field(g11_q, Q2_INPUT_0_INST_LIMITTER_MASK, g11_v0);
            &&& r & Q2_INPUT_0_INST_LIMITTER_MASK == g11_v0
        }),
        ((g12_q & analog_in_or_bits0() == 0) && (line_in_level_flag0_valid(g12_v0)) && (g12_v1 & !Q0_INPUT_6_POWERING_MASK == 0) && (g12_v2 & !Q0_INPUT_7_POWERING_MASK == 0) && (g12_v3 & !Q0_INPUT_8_POWERING_MASK == 0) && (g12_v4 & !Q0_INPUT_9_POWERING_MASK == 0) && (g12_v5 & !Q0_INPUT_0_INST_DRIVE_MASK == 0) && (g12_v6 & !Q0_INPUT_0_INST_SPKR_EMU_MASK == 0)) ==> ({
            let r = put_field(g12_q, Q0_LINE_IN_LEVEL_MASK, g12_v0);
            let r = or_bits(r, g12_v1);
            let r = or_bits(r, g12_v2);
            let r = or_bits(r, g12_v3);
            let r = or_bits(r, g12_v4);
            let r = put_field(r, Q0_INPUT_0_INST_DRIVE_MASK, g12_v5);
            let r = put_field(r, Q0_INPUT_0_INST_SPKR_EMU_MASK, g12_v6);
            &&& r & Q0_LINE_IN_LEVEL_MASK == g12_v0
            &&& r & Q0_INPUT_6_POWERING_MASK == g12_v1
            &&& r & Q0_INPUT_7_POWERING_MASK == g12_v2
            &&& r & Q0_INPUT_8_POWERING_MASK == g12_v3
            &&& r & Q0_INPUT_9_POWERING_MASK == g12_v4
            &&& r & Q0_INPUT_0_INST_DRIVE_MASK == g12_v5
            &&& r & Q0_INPUT_0_INST_SPKR_EMU_MASK == g12_v6
        }),
        ((g13_q & analog_in_or_bits1() == 0) && (g13_v0 & !Q1_INPUT_0_REAR_JACK_MASK == 0) && (g13_v1 & !Q1_INPUT_0_FRONT_JACK_MASK == 0) && (g13_v2 & !Q1_INPUT_6_REAR_JACK_MASK == 0) && (g13_v3 & !Q1_INPUT_6_FRONT_JACK_MASK == 0) && (g13_v4 & !Q1_INPUT_7_REAR_JACK_MASK == 0) && (g13_v5 & !Q1_INPUT_7_FRONT_JACK_MASK == 0) && (line_in_level_flag1_valid(g13_v6)) && (g13_v7 & !Q1_INPUT_0_INST_DRIVE_MASK == 0)) ==> ({
            let r = or_bits(g13_q, g13_v0);
            let r = or_bits(r, g13_v1);
            let r = or_bits(r, g13_v2);
            let r = or_bits(r, g13_v3);
            let r = or_bits(r, g13_v4);
            let r = or_bits(r, g13_v5);
            let r = put_field(r, Q1_LINE_IN_LEVEL_MASK, g13_v6);
            let r = put_field(r, Q1_INPUT_0_INST_DRIVE_MASK, g13_v7);
            &&& r & Q1_INPUT_0_REAR_JACK_MASK == g13_v0
            &&& r & Q1_INPUT_0_FRONT_JACK_MASK == g13_v1
            &&& r & Q1_INPUT_6_REAR_JACK_MASK == g13_v2
            &&& r & Q1_INPUT_6_FRONT_JACK_MASK == g13_v3
            &&& r & Q1_INPUT_7_REAR_JACK_MASK == g13_v4
            &&& r & Q1_INPUT_7_FRONT_JACK_MASK == g13_v5
            &&& r & Q1_LINE_IN_LEVEL_MASK == g13_v6
            &&& r & Q1_INPUT_0_INST_DRIVE_MASK == g13_v7
        }),
        ((g14_v0 & !Q2_INPUT_0_INST_LIMITTER_MASK == 0)) ==> ({
            let r = put_field(g14_q, Q2_INPUT_0_INST_LIMITTER_MASK, g14_v0);
            &&& r & Q2_INPUT_0_INST_LIMITTER_MASK == g14_v0
        }),
        ((g15_q == 0) && (line_in_level_flag0_valid(g15_v0)) && (g15_v1 & !Q0_INPUT_6_POWERING_MASK == 0) && (g15_v2 & !Q0_INPUT_7_POWERING_MASK == 0) && (g15_v3 & !Q0_INPUT_8_POWERING_MASK == 0) && (g15_v4 & !Q0_INPUT_9_POWERING_MASK == 0)) ==> ({
            let r = put_field(g15_q, Q0_LINE_IN_LEVEL_MASK, g15_v0);
            let r = or_bits(r, g15_v1);
            let r = or_bits(r, g15_v2);
            let r = or_bits(r, g15_v3);
            let r = or_bits(r, g15_v4);
            &&& r & Q0_LINE_IN_LEVEL_MASK == g15_v0
            &&& r & Q0_INPUT_6_POWERING_MASK == g15_v1
            &&& r & Q0_INPUT_7_POWERING_MASK == g15_v2
            &&& r & Q0_INPUT_8_POWERING_MASK == g15_v3
            &&& r & Q0_INPUT_9_POWERING_MASK == g15_v4
        }),
        ((g16_v0 & !Q0_INPUT_0_INST_DRIVE_MASK == 0) && (g16_v1 & !Q0_INPUT_0_INST_SPKR_EMU_MASK == 0) && (line_out_level_flag0_valid(g16_v2))) ==> ({
            let r = put_field(g16_q, Q0_INPUT_0_INST_DRIVE_MASK, g16_v0);
            let r = put_field(r, Q0_INPUT_0_INST_SPKR_EMU_MASK, g16_v1);
            let r = put_field(r, Q0_LINE_OUT_LEVEL_MASK, g16_v2);
            &&& r & Q0_INPUT_0_INST_DRIVE_MASK == g16_v0
            &&& r & Q0_INPUT_0_INST_SPKR_EMU_MASK == g16_v1
            &&& r & Q0_LINE_OUT_LEVEL_MASK == g16_v2
            &&& r & Q0_LINE_IN_LEVEL_MASK == g16_q & Q0_LINE_IN_LEVEL_MASK
            &&& r & Q0_INPUT_6_POWERING_MASK == g16_q & Q0_INPUT_6_POWERING_MASK
            &&& r & Q0_INPUT_7_POWERING_MASK == g16_q & Q0_INPUT_7_POWERING_MASK
            &&& r & Q0_INPUT_8_POWERING_MASK == g16_q & Q0_INPUT_8_POWERING_MASK
            &&& r & Q0_INPUT_9_POWERING_MASK == g16_q & Q0_INPUT_9_POWERING_MASK
        }),
        ((g17_q == 0) && (g17_v0 & !Q1_INPUT_0_REAR_JACK_MASK == 0) && (g17_v1 & !Q1_INPUT_0_FRONT_JACK_MASK == 0) && (g17_v2 & !Q1_INPUT_6_REAR_JACK_MASK == 0) && (g17_v3 & !Q1_INPUT_6_FRONT_JACK_MASK == 0) && (g17_v4 & !Q1_INPUT_7_REAR_JACK_MASK == 0)) ==> ({
            let r = or_bits(g17_q, g17_v0);
            let r = or_bits(r, g17_v1);
            let r = or_bits(r, g17_v2);
            let r = or_bits(r, g17_v3);
            let r = or_bits(r, g17_v4);
            &&& r & Q1_INPUT_0_REAR_JACK_MASK == g17_v0
            &&& r & Q1_INPUT_0_FRONT_JACK_MASK == g17_v1
            &&& r & Q1_INPUT_6_REAR_JACK_MASK == g17_v2
            &&& r & Q1_INPUT_6_FRONT_JACK_MASK == g17_v3
            &&& r & Q1_INPUT_7_REAR_JACK_MASK == g17_v4
            &&& r & (Q1_INPUT_7_FRONT_JACK_MASK) == 0
        }),
        ((g18_q & (Q1_INPUT_7_FRONT_JACK_MASK) == 0) && (g18_v0 & !Q1_INPUT_7_FRONT_JACK_MASK == 0) && (line_in_level_flag1_valid(g18_v1)) && (g18_v2 & !Q1_INPUT_0_INST_DRIVE_MASK == 0) && (line_out_level_flag1_valid(g18_v3))) ==> ({
            let r = or_bits(g18_q, g18_v0);
            let r = put_field(r, Q1_LINE_IN_LEVEL_MASK, g18_v1);
            let r = put_field(r, Q1_INPUT_0_INST_DRIVE_MASK, g18_v2);
            let r = put_field(r, Q1_LINE_OUT_LEVEL_MASK, g18_v3);
            &&& r & Q1_INPUT_7_FRONT_JACK_MASK == g18_v0
            &&& r & Q1_LINE_IN_LEVEL_MASK == g18_v1
            &&& r & Q1_INPUT_0_INST_DRIVE_MASK == g18_v2
            &&& r & Q1_LINE_OUT_LEVEL_MASK == g18_v3
            &&& r & Q1_INPUT_0_REAR_JACK_MASK == g18_q & Q1_INPUT_0_REAR_JACK_MASK
            &&& r & Q1_INPUT_0_FRONT_JACK_MASK == g18_q & Q1_INPUT_0_FRONT_JACK_MASK
            &&& r & Q1_INPUT_6_REAR_JACK_MASK == g18_q & Q1_INPUT_6_REAR_JACK_MASK
            &&& r & Q1_INPUT_6_FRONT_JACK_MASK == g18_q & Q1_INPUT_6_FRONT_JACK_MASK
            &&& r & Q1_INPUT_7_REAR_JACK_MASK == g18_q & Q1_INPUT_7_REAR_JACK_MASK
        }),
        ((g19_q == 0) && (clk_src_flag_valid(g19_v0)) && (g19_v1 & !Q2_CLK_AVAIL_RATE_BASE_44100_MASK == 0) && (g19_v2 & !Q2_CLK_AVAIL_RATE_BASE_48000_MASK == 0) && (g19_v3 & !Q2_CLK_AVAIL_RATE_DOUBLE_MASK == 0) && (g19_v4 & !Q2_CLK_AVAIL_RATE_QUADRUPLE_MASK == 0)) ==> ({
            let r = put_field(g19_q, Q2_CLK_SRC_MASK, g19_v0);
            let r = put_field(r, Q2_CLK_AVAIL_RATE_BASE_44100_MASK, g19_v1);
            let r = put_field(r, Q2_CLK_AVAIL_RATE_BASE_48000_MASK, g19_v2);
            let r = put_field(r, Q2_CLK_AVAIL_RATE_DOUBLE_MASK, g19_v3);
            let r = put_field(r, Q2_CLK_AVAIL_RATE_QUADRUPLE_MASK, g19_v4);
            &&& r & Q2_CLK_SRC_MASK == g19_v0
            &&& r & Q2_CLK_AVAIL_RATE_BASE_44100_MASK == g19_v1
            &&& r & Q2_CLK_AVAIL_RATE_BASE_48000_MASK == g19_v2
            &&& r & Q2_CLK_AVAIL_RATE_DOUBLE_MASK == g19_v3
            &&& r & Q2_CLK_AVAIL_RATE_QUADRUPLE_MASK == g19_v4
        }),
        ((g20_v0 & !Q2_INPUT_0_INST_LIMITTER_MASK == 0) && (g20_v1 & !Q2_SPDIF_IN_IFACE_OPT_MASK == 0) && (g20_v2 & !Q2_SPDIF_IN_USE_PREEMBLE == 0) && (g20_v3 & !Q2_OPT_OUT_SIGNAL_MASK == 0) && (g20_v4 & !Q2_SPDIF_OUT_FMT_PRO_MASK == 0)) ==> ({
            let r = put_field(g20_q, Q2_INPUT_0_INST_LIMITTER_MASK, g20_v0);
            let r = put_field(r, Q2_SPDIF_IN_IFACE_OPT_MASK, g20_v1);
            let r = put_field(r, Q2_SPDIF_IN_USE_PREEMBLE, g20_v2);
            let r = put_field(r, Q2_OPT_OUT_SIGNAL_MASK, g20_v3);
            let r = put_field(r, Q2_SPDIF_OUT_FMT_PRO_MASK, g20_v4);
            &&& r & Q2_INPUT_0_INST_LIMITTER_MASK == g20_v0
            &&& r & Q2_SPDIF_IN_IFACE_OPT_MASK == g20_v1
            &&& r & Q2_SPDIF_IN_USE_PREEMBLE == g20_v2
            &&& r & Q2_OPT_OUT_SIGNAL_MASK == g20_v3
            &&& r & Q2_SPDIF_OUT_FMT_PRO_MASK == g20_v4
            &&& r & Q2_CLK_SRC_MASK == g20_q & Q2_CLK_SRC_MASK
            &&& r & Q2_CLK_AVAIL_RATE_BASE_44100_MASK == g20_q & Q2_CLK_AVAIL_RATE_BASE_44100_MASK
            &&& r & Q2_CLK_AVAIL_RATE_BASE_48000_MASK == g20_q & Q2_CLK_AVAIL_RATE_BASE_48000_MASK
            &&& r & Q2_CLK_AVAIL_RATE_DOUBLE_MASK == g20_q & Q2_CLK_AVAIL_RATE_DOUBLE_MASK
            &&& r & Q2_CLK_AVAIL_RATE_QUADRUPLE_MASK == g20_q & Q2_CLK_AVAIL_RATE_QUADRUPLE_MASK
        }),
        ((g21_v0 & !Q2_SPDIF_OUT_EMPHASIS_MASK == 0) && (g21_v1 & !Q2_SPDIF_OUT_NON_AUDIO_MASK == 0) && (g21_v2 & !Q2_WORD_OUT_SINGLE_SPEED_MASK == 0) && (g21_v3 & !Q2_CONTINUE_AT_ERRORS == 0)) ==> ({
            let r = put_field(g21_q, Q2_SPDIF_OUT_EMPHASIS_MASK, g21_v0);
            let r = put_field(r, Q2_SPDIF_OUT_NON_AUDIO_MASK, g21_v1);
            let r = put_field(r, Q2_WORD_OUT_SINGLE_SPEED_MASK, g21_v2);
            let r = put_field(r, Q2_CONTINUE_AT_ERRORS, g21_v3);
            &&& r & Q2_SPDIF_OUT_EMPHASIS_MASK == g21_v0
            &&& r & Q2_SPDIF_OUT_NON_AUDIO_MASK == g21_v1
            &&& r & Q2_WORD_OUT_SINGLE_SPEED_MASK == g21_v2
            &&& r & Q2_CONTINUE_AT_ERRORS == g21_v3
            &&& r & Q2_CLK_SRC_MASK == g21_q & Q2_CLK_SRC_MASK
            &&& r & Q2_CLK_AVAIL_RATE_BASE_44100_MASK == g21_q & Q2_CLK_AVAIL_RATE_BASE_44100_MASK
            &&& r & Q2_CLK_AVAIL_RATE_BASE_48000_MASK == g21_q & Q2_CLK_AVAIL_RATE_BASE_48000_MASK
            &&& r & Q2_CLK_AVAIL_RATE_DOUBLE_MASK == g21_q & Q2_CLK_AVAIL_RATE_DOUBLE_MASK
            &&& r & Q2_CLK_AVAIL_RATE_QUADRUPLE_MASK == g21_q & Q2_CLK_AVAIL_RATE_QUADRUPLE_MASK
            &&& r & Q2_INPUT_0_INST_LIMITTER_MASK == g21_q & Q2_INPUT_0_INST_LIMITTER_MASK
            &&& r & Q2_SPDIF_IN_IFACE_OPT_MASK == g21_q & Q2_SPDIF_IN_IFACE_OPT_MASK
            &&& r & Q2_SPDIF_IN_USE_PREEMBLE == g21_q & Q2_SPDIF_IN_USE_PREEMBLE
            &&& r & Q2_OPT_OUT_SIGNAL_MASK == g21_q & Q2_OPT_OUT_SIGNAL_MASK
            &&& r & Q2_SPDIF_OUT_FMT_PRO_MASK == g21_q & Q2_SPDIF_OUT_FMT_PRO_MASK
        }),
{
}

} // verus!
