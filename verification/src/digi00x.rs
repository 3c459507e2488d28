//! Protocol of Digi 002 and Digi 003 family.
//!
//! The module includes the logic of the protocol: the registers of the unit, and the values of
//! parameters in them. Reading and writing the registers is left to the caller.

use crate::codec::{lemma_first_position_unique, position_of};
use vstd::prelude::*;

verus! {

/// The protocol implementation for Digi 002.
#[derive(Default, Debug)]
pub struct Digi002Protocol;

impl Dg00xHardwareSpecification for Digi002Protocol {
    open spec fn spec_sampling_clock_sources() -> Seq<ClockSource> {
        seq![ClockSource::Internal, ClockSource::Spdif, ClockSource::Adat]
    }

    fn sampling_clock_sources() -> (r: &'static [ClockSource]) {
        let r: &'static [ClockSource] = &[ClockSource::Internal, ClockSource::Spdif, ClockSource::Adat];
        proof {
            assert(r@ =~= Self::spec_sampling_clock_sources());
        }
        r
    }
}

impl Dg00xCommonOperation for Digi002Protocol {

}

impl Dg00xMonitorOperation for Digi002Protocol {

}

/// The protocol implementation for Digi 003.
#[derive(Default, Debug)]
pub struct Digi003Protocol;

impl Dg00xHardwareSpecification for Digi003Protocol {
    open spec fn spec_sampling_clock_sources() -> Seq<ClockSource> {
        seq![ClockSource::Internal, ClockSource::Spdif, ClockSource::Adat, ClockSource::WordClock]
    }

    fn sampling_clock_sources() -> (r: &'static [ClockSource]) {
        let r: &'static [ClockSource] = &[
            ClockSource::Internal,
            ClockSource::Spdif,
            ClockSource::Adat,
            ClockSource::WordClock,
        ];
        proof {
            assert(r@ =~= Self::spec_sampling_clock_sources());
        }
        r
    }
}

impl Dg00xCommonOperation for Digi003Protocol {

}

impl Dg00xMonitorOperation for Digi003Protocol {

}

/// The base offset of registers.
pub const BASE_OFFSET: u64 = 0xffffe0000000;

/// An error about the value of a parameter.
#[derive(Debug, Clone, PartialEq, Eq)]
pub enum Dg00xError {
    /// The register holds a value which stands for nothing.
    Io(String),
    /// The argument is out of what the unit takes.
    Inval(String),
}

/// The specification of hardware.
pub trait Dg00xHardwareSpecification {
    /// The available sources of sampling clock.
    spec fn spec_sampling_clock_sources() -> Seq<ClockSource>;

    /// The available sources of sampling clock.
    fn sampling_clock_sources() -> (r: &'static [ClockSource])
        ensures
            r@ == Self::spec_sampling_clock_sources(),
    ;

    /// The available rates of sampling clock.
    fn sampling_clock_rates() -> (r: &'static [u32])
        ensures
            r@ == seq![44100u32, 48000, 88200, 96000],
    {
        let r: &'static [u32] = &[44100, 48000, 88200, 96000];
        proof {
            assert(r@ =~= seq![44100u32, 48000, 88200, 96000]);
        }
        r
    }

    /// The minimum gain of monitor source.
    const MONITOR_SOURCE_GAIN_MIN: u8 = 0;
    /// The maximum gain of monitor source.
    const MONITOR_SOURCE_GAIN_MAX: u8 = 0x80;
    /// The step of gain of monitor source.
    const MONITOR_SOURCE_GAIN_STEP: u8 = 1;
}

/// Nominal frequency of media clock.
#[derive(Debug, Copy, Clone, Eq, PartialEq, Structural)]
pub enum ClockRate {
    R44100,
    R48000,
    R88200,
    R96000,
}

impl Default for ClockRate {
    fn default() -> (r: Self)
        ensures
            r == ClockRate::R44100,
    {
        ClockRate::R44100
    }
}

/// Signal source of sampling clock.
#[derive(Debug, Copy, Clone, Eq, PartialEq, Structural)]
pub enum ClockSource {
    Internal,
    Spdif,
    Adat,
    WordClock,
}

impl Default for ClockSource {
    fn default() -> (r: Self)
        ensures
            r == ClockSource::Internal,
    {
        ClockSource::Internal
    }
}

/// The offset of register for the source of sampling clock.
pub const SAMPLING_CLOCK_SOURCE_OFFSET: u64 = 0x0118;
/// The offset of register for the rate of media clock.
pub const MEDIA_CLOCK_RATE_OFFSET: u64 = 0x0110;
/// The offset of register for the rate of external clock.
pub const EXTERNAL_CLOCK_RATE_OFFSET: u64 = 0x0114;
/// The offset of register for the mode of optical interface.
pub const OPTICAL_INTERFACE_MODE_OFFSET: u64 = 0x011c;
/// The offset of register for the detection of external clock.
pub const EXTERNAL_CLOCK_SOURCE_DETECTION_OFFSET: u64 = 0x012c;

/// The rate of clock which the value of its register stands for; unknown values stand for
/// 44.1 kHz.
pub open spec fn clock_rate_of_register(val: u32) -> ClockRate {
    if val == 3 {
        ClockRate::R96000
    } else if val == 2 {
        ClockRate::R88200
    } else if val == 1 {
        ClockRate::R48000
    } else {
        ClockRate::R44100
    }
}

/// The rate of clock in the value of its register.
pub fn read_clock_rate(val: u32) -> (r: ClockRate)
    ensures
        r == clock_rate_of_register(val),
{
    if val == 3 {
        ClockRate::R96000
    } else if val == 2 {
        ClockRate::R88200
    } else if val == 1 {
        ClockRate::R48000
    } else {
        ClockRate::R44100
    }
}

/// The parameters for sampling clock.
#[derive(Default, Debug, Clone, Copy, PartialEq, Eq, Structural)]
pub struct Dg00xSamplingClockParameters {
    /// The source.
    pub source: ClockSource,
}

/// The message for a value of register which stands for no source of sampling clock.
///
/// Formatted by `std::format!`; the contract claims nothing of the text.
#[verifier::external_body]
fn unexpected_clock_source(val: usize) -> String {
    format!("Unexpected clock source: {}", val)
}

/// The message for a source of sampling clock which the unit does not take.
///
/// Formatted by `std::format!`; the contract claims nothing of the text.
#[verifier::external_body]
fn invalid_clock_source(src: &ClockSource) -> String {
    format!("Invalid argument for clock source: {:?}", src)
}

/// Take the source of sampling clock from the value of its register: the index among the
/// available sources.
pub fn parse_sampling_clock_parameters<O: Dg00xHardwareSpecification>(
    states: &mut Dg00xSamplingClockParameters,
    val: u32,
) -> (r: Result<(), Dg00xError>)
    ensures
        (val as int) < O::spec_sampling_clock_sources().len() ==> r.is_ok() && final(states).source
            == O::spec_sampling_clock_sources()[val as int],
        (val as int) >= O::spec_sampling_clock_sources().len() ==> (r matches Err(Dg00xError::Io(_))
            && *final(states) == *old(states)),
{
    let sources = O::sampling_clock_sources();
    let pos = val as usize;
    if pos < sources.len() {
        states.source = sources[pos];
        Ok(())
    } else {
        Err(Dg00xError::Io(unexpected_clock_source(pos)))
    }
}

/// The value of register for the source of sampling clock: the index among the available
/// sources.
pub fn sampling_clock_parameters_value<O: Dg00xHardwareSpecification>(
    params: &Dg00xSamplingClockParameters,
) -> (r: Result<u32, Dg00xError>)
    ensures
        O::spec_sampling_clock_sources().contains(params.source) ==> r == Ok::<u32, Dg00xError>(
            position_of(O::spec_sampling_clock_sources(), params.source) as u32,
        ),
        !O::spec_sampling_clock_sources().contains(params.source) ==> r matches Err(
            Dg00xError::Inval(_),
        ),
{
    let sources = O::sampling_clock_sources();
    let mut i: usize = 0;
    while i < sources.len()
        invariant
            i <= sources@.len(),
            sources@ == O::spec_sampling_clock_sources(),
            forall|j: int| 0 <= j < i ==> sources@[j] != params.source,
        decreases sources@.len() - i,
    {
        if sources[i] == params.source {
            proof {
                lemma_first_position_unique(sources@, params.source, i as int);
            }
            return Ok(i as u32);
        }
        i = i + 1;
    }
    Err(Dg00xError::Inval(invalid_clock_source(&params.source)))
}

/// The parameters for media clock.
#[derive(Default, Debug, Clone, Copy, PartialEq, Eq, Structural)]
pub struct Dg00xMediaClockParameters {
    /// The rate.
    pub rate: ClockRate,
}

/// The value of register for the rate of clock.
pub open spec fn clock_rate_value(rate: ClockRate) -> u32 {
    match rate {
        ClockRate::R44100 => 0,
        ClockRate::R48000 => 1,
        ClockRate::R88200 => 2,
        ClockRate::R96000 => 3,
    }
}

/// The values of register for the rates of clock follow the order of their frequencies, from 0
/// for 44.1 kHz up to 3 for 96 kHz, and each of these values reads back as its rate; any other
/// value reads as 44.1 kHz.
pub proof fn lemma_clock_rate_register_values()
    ensures
        clock_rate_value(ClockRate::R44100) == 0,
        clock_rate_value(ClockRate::R48000) == 1,
        clock_rate_value(ClockRate::R88200) == 2,
        clock_rate_value(ClockRate::R96000) == 3,
        clock_rate_of_register(0) == ClockRate::R44100,
        clock_rate_of_register(1) == ClockRate::R48000,
        clock_rate_of_register(2) == ClockRate::R88200,
        clock_rate_of_register(3) == ClockRate::R96000,
        forall|val: u32| val > 3 ==> #[trigger] clock_rate_of_register(val) == ClockRate::R44100,
{
}

/// Serialize the rate of clock as the value of its register.
pub fn serialize_clock_rate(rate: &ClockRate) -> (r: u32)
    ensures
        r == clock_rate_value(*rate),
{
    match rate {
        ClockRate::R44100 => 0,
        ClockRate::R48000 => 1,
        ClockRate::R88200 => 2,
        ClockRate::R96000 => 3,
    }
}

/// The message for a value of register which stands for no rate of clock.
///
/// Formatted by `std::format!`; the contract claims nothing of the text.
#[verifier::external_body]
fn unexpected_clock_rate(val: u32) -> String {
    format!("Unexpected value for clock rate: {}", val)
}

/// Deserialize the rate of clock from the value of its register; a value which stands for no
/// rate is an error.
pub fn deserialize_clock_rate(rate: &mut ClockRate, val: u32) -> (r: Result<(), Dg00xError>)
    ensures
        val <= 3 ==> r.is_ok() && *final(rate) == clock_rate_of_register(val),
        val > 3 ==> (r matches Err(Dg00xError::Inval(_)) && *final(rate) == *old(rate)),
{
    if val <= 3 {
        *rate = read_clock_rate(val);
        Ok(())
    } else {
        Err(Dg00xError::Inval(unexpected_clock_rate(val)))
    }
}

/// A rate of clock is read back from the value of its register.
pub proof fn lemma_clock_rate_roundtrip(rate: ClockRate)
    ensures
        clock_rate_value(rate) <= 3,
        clock_rate_of_register(clock_rate_value(rate)) == rate,
{
}

/// Mode of optical interface.
#[derive(Debug, Copy, Clone, PartialEq, Eq, Structural)]
pub enum OpticalInterfaceMode {
    Adat,
    Spdif,
}

impl Default for OpticalInterfaceMode {
    fn default() -> (r: Self)
        ensures
            r == OpticalInterfaceMode::Adat,
    {
        OpticalInterfaceMode::Adat
    }
}

/// The mode of optical interface in the value of its register: S/PDIF for any non-zero value.
pub fn optical_interface_mode_of(val: u32) -> (r: OpticalInterfaceMode)
    ensures
        r == if val > 0 {
            OpticalInterfaceMode::Spdif
        } else {
            OpticalInterfaceMode::Adat
        },
{
    if val > 0 {
        OpticalInterfaceMode::Spdif
    } else {
        OpticalInterfaceMode::Adat
    }
}

/// The value of register for the mode of optical interface.
pub fn optical_interface_mode_value(mode: &OpticalInterfaceMode) -> (r: u32)
    ensures
        r == match *mode {
            OpticalInterfaceMode::Adat => 0u32,
            OpticalInterfaceMode::Spdif => 1u32,
        },
{
    match mode {
        OpticalInterfaceMode::Adat => 0,
        OpticalInterfaceMode::Spdif => 1,
    }
}

/// The parameters for media clock.
#[derive(Default, Debug, Clone, Copy, PartialEq, Eq, Structural)]
pub struct Dg00xExternalClockParameters {
    /// The rate detected in input of external source. Once the source of sampling clock is
    /// configured to any external source, the function can return detected frequency. Once losing
    /// the input, it returns None.
    pub rate: Option<ClockRate>,
}

/// The source of sampling clock which the value of its register stands for; unknown values stand
/// for the internal one.
pub open spec fn clock_source_of_register(val: u32) -> ClockSource {
    if val == 3 {
        ClockSource::WordClock
    } else if val == 2 {
        ClockSource::Adat
    } else if val == 1 {
        ClockSource::Spdif
    } else {
        ClockSource::Internal
    }
}

/// Each value which the device uses is read by `clock_source_of_register` as its own `ClockSource`.
pub proof fn lemma_clock_source_of_register_table()
    ensures
        clock_source_of_register(3) == ClockSource::WordClock,
        clock_source_of_register(2) == ClockSource::Adat,
        clock_source_of_register(1) == ClockSource::Spdif,
{
}

/// The value of register for the source of sampling clock.
pub open spec fn clock_source_value(src: ClockSource) -> u32 {
    match src {
        ClockSource::Internal => 0,
        ClockSource::Spdif => 1,
        ClockSource::Adat => 2,
        ClockSource::WordClock => 3,
    }
}

/// Each value of `ClockSource` has its own value in `clock_source_value`, as the device knows it.
pub proof fn lemma_clock_source_value_table()
    ensures
        clock_source_value(ClockSource::Internal) == 0,
        clock_source_value(ClockSource::Spdif) == 1,
        clock_source_value(ClockSource::Adat) == 2,
        clock_source_value(ClockSource::WordClock) == 3,
{
}

/// A source of sampling clock is read back from the value of its register.
pub proof fn lemma_clock_source_register_roundtrip(src: ClockSource)
    ensures
        clock_source_of_register(clock_source_value(src)) == src,
{
}

/// Whether the source is in the list.
fn contains_source(sources: &[ClockSource], src: ClockSource) -> (r: bool)
    ensures
        r == sources@.contains(src),
{
    let mut i: usize = 0;
    while i < sources.len()
        invariant
            i <= sources@.len(),
            forall|j: int| 0 <= j < i ==> sources@[j] != src,
        decreases sources@.len() - i,
    {
        if sources[i] == src {
            assert(sources@[i as int] == src);
            return true;
        }
        i = i + 1;
    }
    false
}

/// The message for a value of register whose source of sampling clock is not available.
///
/// Formatted by `std::format!`; the contract claims nothing of the text.
#[verifier::external_body]
fn unexpected_clock_source_value(val: u32) -> String {
    format!("Unexpected clock source: {}", val)
}

/// The message for a value of register whose source of sampling clock is not available.
///
/// Formatted by `std::format!`; the contract claims nothing of the text.
#[verifier::external_body]
fn invalid_clock_source_value(val: u32) -> String {
    format!("Invalid argument for clock source: {}", val)
}

/// The trait for common operation.
pub trait Dg00xCommonOperation: Dg00xHardwareSpecification {
    /// The source of sampling clock in the value of its register, if it is available.
    fn parse_sampling_clock_source(val: u32) -> (r: Result<ClockSource, Dg00xError>)
        ensures
            Self::spec_sampling_clock_sources().contains(clock_source_of_register(val)) ==> r
                == Ok::<ClockSource, Dg00xError>(clock_source_of_register(val)),
            !Self::spec_sampling_clock_sources().contains(clock_source_of_register(val)) ==> r matches Err(
                Dg00xError::Io(_),
            ),
    {
        let src = if val == 3 {
            ClockSource::WordClock
        } else if val == 2 {
            ClockSource::Adat
        } else if val == 1 {
            ClockSource::Spdif
        } else {
            ClockSource::Internal
        };
        if contains_source(Self::sampling_clock_sources(), src) {
            Ok(src)
        } else {
            Err(Dg00xError::Io(unexpected_clock_source_value(val)))
        }
    }

    /// The value of register for the source of sampling clock, if it is available. The change has
    /// effect to stop processing audio data during packet streaming.
    fn sampling_clock_source_value(src: ClockSource) -> (r: Result<u32, Dg00xError>)
        ensures
            Self::spec_sampling_clock_sources().contains(src) ==> r == Ok::<u32, Dg00xError>(
                clock_source_value(src),
            ),
            !Self::spec_sampling_clock_sources().contains(src) ==> r matches Err(Dg00xError::Inval(_)),
    {
        let val: u32 = match src {
            ClockSource::Internal => 0,
            ClockSource::Spdif => 1,
            ClockSource::Adat => 2,
            ClockSource::WordClock => 3,
        };
        if !contains_source(Self::sampling_clock_sources(), src) {
            return Err(Dg00xError::Inval(invalid_clock_source_value(val)));
        }
        Ok(val)
    }

    /// The value of register for the rate of media clock. The change has effect to stop
    /// processing audio data during packet streaming.
    fn media_clock_rate_value(rate: ClockRate) -> (r: u32)
        ensures
            r == clock_rate_value(rate),
    {
        serialize_clock_rate(&rate)
    }

    /// The rate of external clock, after its detection: none unless the value of register for
    /// detection is non-zero, else the rate in the value of its register.
    fn external_clock_source_rate(detected: u32, rate: u32) -> (r: Option<ClockRate>)
        ensures
            r == if detected > 0 {
                Some(clock_rate_of_register(rate))
            } else {
                None::<ClockRate>
            },
    {
        if detected > 0 {
            Some(read_clock_rate(rate))
        } else {
            None
        }
    }
}

/// The number of destinations of monitor.
pub const MONITOR_DST_COUNT: usize = 2;
/// The number of sources of monitor.
pub const MONITOR_SRC_COUNT: usize = 18;

/// State of monitor. At offline mode (no packet streaming runs), the monitor function is disabled
/// and is not configurable. When packet streaming starts, the monitor function becomes
/// configurable with reset state.
#[derive(Default, Debug, Copy, Clone, PartialEq, Eq)]
pub struct Dg00xMonitorState {
    /// Whether to enable monitor mixer or not.
    pub enabled: bool,
    /// The gain of monitor inputs. The value is between 0x00 and 0x80 for -48.0 and 0.0 dB.
    pub src_gains: [[u8; MONITOR_SRC_COUNT]; MONITOR_DST_COUNT],
}

/// The offset of register to enable monitor.
pub const ENABLE_OFFSET: u64 = 0x0124;
/// The offset of the first register for gain of monitor source.
pub const MONITOR_SRC_GAIN_OFFSET: u64 = 0x0300;

/// The distance between registers of destinations.
pub const DST_STEP: usize = 4;
/// The distance between registers of sources.
pub const SRC_STEP: usize = 8;

/// The message for a destination of monitor out of range.
///
/// Formatted by `std::format!`; the contract claims nothing of the text.
#[verifier::external_body]
fn invalid_monitor_destination(dst: usize) -> String {
    format!("Invalid argument for monitor destination: {}", dst)
}

/// The message for a source of monitor out of range.
///
/// Formatted by `std::format!`; the contract claims nothing of the text.
#[verifier::external_body]
fn invalid_monitor_source(src: usize) -> String {
    format!("Invalid argument for monitor source: {}", src)
}

/// The offset of register for the gain of the source to the destination.
pub open spec fn monitor_gain_offset(dst: int, src: int) -> int {
    MONITOR_SRC_GAIN_OFFSET + dst * DST_STEP + src * SRC_STEP
}

/// The trait for monitor operation. At offline mode (no packet streaming runs), the monitor
/// function is disabled and is not configurable. When packet streaming starts, the monitor
/// function becomes configurable with reset state.
pub trait Dg00xMonitorOperation {
    /// The number of destinations: 'monitor-output-0', 'monitor-output-1'.
    const MONITOR_DST_COUNT: usize = 2;

    /// The number of sources: 'analog-input-0' .. 'analog-input-7', 'spdif-input-0',
    /// 'spdif-input-1', 'adat-input-0' .. 'adat-input-7'.
    const MONITOR_SRC_COUNT: usize = 18;

    /// The minimum of gain.
    const GAIN_MIN: u8 = 0;
    /// The maximum of gain.
    const GAIN_MAX: u8 = 0x80;
    /// The step of gain.
    const GAIN_STEP: u8 = 1;

    /// The offset of register and its value for the gain of the source to the destination, if
    /// both are in range.
    fn monitor_source_gain_request(dst: usize, src: usize, gain: u8) -> (r: Result<
        (u64, u32),
        Dg00xError,
    >)
        ensures
            dst >= Self::MONITOR_DST_COUNT ==> r matches Err(Dg00xError::Inval(_)),
            dst < Self::MONITOR_DST_COUNT && src >= Self::MONITOR_SRC_COUNT ==> r matches Err(
                Dg00xError::Inval(_),
            ),
            dst < Self::MONITOR_DST_COUNT && src < Self::MONITOR_SRC_COUNT && monitor_gain_offset(
                dst as int,
                src as int,
            ) <= u64::MAX ==> r == Ok::<(u64, u32), Dg00xError>(
                (monitor_gain_offset(dst as int, src as int) as u64, (gain as u32) << 24u32),
            ),
    {
        if dst >= Self::MONITOR_DST_COUNT {
            return Err(Dg00xError::Inval(invalid_monitor_destination(dst)));
        }
        if src >= Self::MONITOR_SRC_COUNT {
            return Err(Dg00xError::Inval(invalid_monitor_source(src)));
        }
        let total = (MONITOR_SRC_GAIN_OFFSET as u128) + (dst as u128) * (DST_STEP as u128) + (src as u128)
            * (SRC_STEP as u128);
        if total > u64::MAX as u128 {
            return Err(Dg00xError::Inval(invalid_monitor_source(src)));
        }
        Ok((total as u64, (gain as u32) << 24u32))
    }

    /// The gain in the value of its register: the most significant byte.
    fn monitor_source_gain_of(val: u32) -> (r: u8)
        ensures
            r == (val >> 24u32) as u8,
    {
        (val >> 24u32) as u8
    }
}

} // verus!
