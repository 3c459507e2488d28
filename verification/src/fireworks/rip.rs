//! Protocol implementations for Robot Interface Pack.
//!
//! The module includes protocol about port configuration defined by Echo Audio Digital Corporation
//! for Gibson Robot Interface Pack.

use crate::fireworks::robot_guitar::EfwRobotGuitarSpecification;
use crate::fireworks::{ClkSrc, EfwHardwareSpecification, HwCap, PhysGroupType};
use vstd::prelude::*;

verus! {


/// Protocol implementation for former model of Robot Interface Pack (RIP).
#[derive(Default, Debug)]
pub struct RipProtocol;

impl EfwHardwareSpecification for RipProtocol {
    fn supported_sampling_rates() -> &'static [u32] {
        &[44100, 48000, 88200, 96000, 176400, 192000]
    }

    fn supported_sampling_clocks() -> &'static [ClkSrc] {
        &[ClkSrc::Internal, ClkSrc::WordClock, ClkSrc::Spdif]
    }

    open spec fn spec_capabilities() -> Seq<HwCap> {
        seq![HwCap::ChangeableRespAddr, HwCap::Fpga, HwCap::RobotGuitar, HwCap::GuitarCharging]
    }

    fn capabilities() -> (r: &'static [HwCap]) {
        let r: &'static [HwCap] = &[HwCap::ChangeableRespAddr, HwCap::Fpga, HwCap::RobotGuitar, HwCap::GuitarCharging];
        proof {
            assert(r@ =~= Self::spec_capabilities());
        }
        r
    }

    const TX_CHANNEL_COUNTS: [usize; 3] = [8, 8, 8];

    const RX_CHANNEL_COUNTS: [usize; 3] = [2, 2, 2];

    const MONITOR_SOURCE_COUNT: usize = 8;

    const MONITOR_DESTINATION_COUNT: usize = 2;

    const MIDI_INPUT_COUNT: usize = 0;

    const MIDI_OUTPUT_COUNT: usize = 0;

    open spec fn spec_phys_input_groups() -> Seq<(PhysGroupType, usize)> {
        seq![(PhysGroupType::Guitar, 1), (PhysGroupType::PiezoGuitar, 1), (PhysGroupType::GuitarString, 6)]
    }

    fn phys_input_groups() -> (r: &'static [(PhysGroupType, usize)]) {
        let r: &'static [(PhysGroupType, usize)] = &[(PhysGroupType::Guitar, 1), (PhysGroupType::PiezoGuitar, 1), (PhysGroupType::GuitarString, 6)];
        proof {
            assert(r@ =~= Self::spec_phys_input_groups());
        }
        r
    }

    open spec fn spec_phys_output_groups() -> Seq<(PhysGroupType, usize)> {
        seq![(PhysGroupType::Analog, 2)]
    }

    fn phys_output_groups() -> (r: &'static [(PhysGroupType, usize)]) {
        let r: &'static [(PhysGroupType, usize)] = &[(PhysGroupType::Analog, 2)];
        proof {
            assert(r@ =~= Self::spec_phys_output_groups());
        }
        r
    }
}

} // verus!
