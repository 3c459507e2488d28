//! Protocol about hardware control.
//!
//! The module includes protocol about hardware control defined by Echo Audio Digital Corporation
//! for Fireworks board module.

use crate::bits::has_flag;
use crate::fireworks::{
    answered_request, clock_source_code, clock_source_of, deserialize_clock_source, param_at, serialize_clock_source,
    transact, ClkSrc, EfwError, EfwHardwareSpecification, EfwPartiallyUpdatableParamsOperation,
    EfwProtocolExtManual, EfwRequest, EfwWhollyCachableParamsOperation,
    EfwWhollyUpdatableParamsOperation,
};
use vstd::prelude::*;

verus! {

/// The category of commands for hardware control.
pub const CATEGORY_HWCTL: u32 = 3;

/// The command to set sampling clock.
pub const CMD_SET_CLOCK: u32 = 0;
/// The command to get sampling clock.
pub const CMD_GET_CLOCK: u32 = 1;
/// The command to set flags.
pub const CMD_SET_FLAGS: u32 = 3;
/// The command to get flags.
pub const CMD_GET_FLAGS: u32 = 4;
/// The command to blink LED.
pub const CMD_BLINK_LED: u32 = 5;
/// The command to reconnect.
pub const CMD_RECONNECT: u32 = 6;

/// The parameters of sampling clock configuration.
#[derive(Default, Debug, Copy, Clone, PartialEq, Eq, Structural)]
pub struct EfwSamplingClockParameters {
    /// The frequency.
    pub rate: u32,
    /// The source.
    pub source: ClkSrc,
}

/// The request to get the configuration of sampling clock.
pub fn get_clock_request() -> (r: EfwRequest)
    ensures
        r.category == CATEGORY_HWCTL,
        r.command == CMD_GET_CLOCK,
        r.args@ == Seq::<u32>::empty(),
        r.params_len == 3,
{
    EfwRequest { category: CATEGORY_HWCTL, command: CMD_GET_CLOCK, args: Vec::new(), params_len: 3 }
}

/// Take the source and the frequency of sampling clock from the parameters of response.
pub fn parse_clock_response(states: &mut EfwSamplingClockParameters, params: &[u32]) -> (r: Result<
    (),
    EfwError,
>)
    ensures
        r.is_ok() <==> params@.len() >= 2,
        r.is_ok() ==> final(states).source == clock_source_of(params@[0]) && final(states).rate
            == params@[1],
        r.is_err() ==> *final(states) == *old(states),
{
    let src = param_at(params, 0)?;
    let rate = param_at(params, 1)?;
    deserialize_clock_source(&mut states.source, src);
    states.rate = rate;
    Ok(())
}

impl<O: EfwHardwareSpecification, P: EfwProtocolExtManual> EfwWhollyCachableParamsOperation<
    P,
    EfwSamplingClockParameters,
> for O {
    open spec fn cache_acceptable(states: EfwSamplingClockParameters) -> bool {
        true
    }

    fn cache_wholly(proto: &mut P, states: &mut EfwSamplingClockParameters, timeout_ms: u32) -> (r: Result<
        (),
        EfwError,
    >)
        ensures
            r.is_ok() ==> exists|p: Seq<u32>|
                #[trigger] old(proto).answered(CATEGORY_HWCTL, CMD_GET_CLOCK, Seq::<u32>::empty(), p) && p.len()
                    >= 2 && final(states).source == clock_source_of(p[0]) && final(states).rate == p[1],
            r.is_err() ==> *final(states) == *old(states),
    {
        let req = get_clock_request();
        let params = transact(proto, &req, timeout_ms)?;
        let r = parse_clock_response(states, params.as_slice());
        proof {
            if r.is_ok() {
                assert(old(proto).answered(CATEGORY_HWCTL, CMD_GET_CLOCK, Seq::<u32>::empty(), params@));
            }
        }
        r
    }
}

/// The arguments to set the source and the frequency of sampling clock.
pub open spec fn clock_args(src: ClkSrc, rate: u32) -> Seq<u32> {
    seq![clock_source_code(src), rate, 0u32]
}

/// The request to set the source and the frequency of sampling clock.
pub fn set_clock_request(src: &ClkSrc, rate: u32) -> (r: EfwRequest)
    ensures
        r.category == CATEGORY_HWCTL,
        r.command == CMD_SET_CLOCK,
        r.args@ == seq![clock_source_code(*src), rate, 0u32],
        r.params_len == 3,
{
    let args = vec![serialize_clock_source(src), rate, 0];
    EfwRequest { category: CATEGORY_HWCTL, command: CMD_SET_CLOCK, args, params_len: 3 }
}

impl<O: EfwHardwareSpecification, P: EfwProtocolExtManual> EfwWhollyUpdatableParamsOperation<
    P,
    EfwSamplingClockParameters,
> for O {
    open spec fn update_acceptable(states: EfwSamplingClockParameters) -> bool {
        true
    }

    fn update_wholly(proto: &mut P, states: &EfwSamplingClockParameters, timeout_ms: u32) -> (r: Result<
        (),
        EfwError,
    >)
        ensures
            r.is_ok() ==> answered_request(
                &*old(proto),
                CATEGORY_HWCTL,
                CMD_SET_CLOCK,
                seq![clock_source_code(states.source), states.rate, 0u32],
            ),
    {
        let req = set_clock_request(&states.source, states.rate);
        let reply = transact(proto, &req, timeout_ms)?;
        proof {
            assert(old(proto).answered(CATEGORY_HWCTL, CMD_SET_CLOCK, req.args@, reply@));
        }
        Ok(())
    }
}

/// The type of hardware control.
#[derive(Debug, Copy, Clone, PartialEq, Eq, Structural)]
pub enum HwCtlFlag {
    /// Whether multiplexer is enabled or not for audio signal.
    MixerEnabled,
    /// Whether channel status block of IEC 60958-1 is for professional use or not.
    SpdifPro,
    /// Whether main data field of IEC 60958-1 is not for linear PCM samples.
    SpdifNoneAudio,
    /// Whether control room B is selected or not.
    CtlRoomSelect,
    /// Whether physical knob is bypass to adjust any output.
    OutputLevelBypass,
    /// The mode of metering for input in surface.
    MeterInMode,
    /// The mode of metering for output in surface.
    MeterOutMode,
    /// Whether to enable soft clip.
    SoftClip,
    /// The hex mode of robot guitar.
    GuitarHexInput,
    /// Whether to enable automatic charging or not.
    GuitarAutoCharging,
    /// Whether to enable phantom powering or not.
    PhantomPowering,
    Reserved(usize),
}

impl Default for HwCtlFlag {
    fn default() -> (r: Self)
        ensures
            r == HwCtlFlag::Reserved(usize::MAX),
    {
        HwCtlFlag::Reserved(usize::MAX)
    }
}

/// The position of bit for the flag.
pub open spec fn hw_ctl_flag_pos(flag: HwCtlFlag) -> usize {
    match flag {
        HwCtlFlag::MixerEnabled => 0,
        HwCtlFlag::SpdifPro => 1,
        HwCtlFlag::SpdifNoneAudio => 2,
        HwCtlFlag::CtlRoomSelect => 8,
        HwCtlFlag::OutputLevelBypass => 9,
        HwCtlFlag::MeterInMode => 12,
        HwCtlFlag::MeterOutMode => 13,
        HwCtlFlag::SoftClip => 18,
        HwCtlFlag::GuitarHexInput => 29,
        HwCtlFlag::GuitarAutoCharging => 30,
        HwCtlFlag::PhantomPowering => 31,
        HwCtlFlag::Reserved(pos) => pos,
    }
}

/// Each value of `HwCtlFlag` has its own value in `hw_ctl_flag_pos`, as the device knows it.
pub proof fn lemma_hw_ctl_flag_pos_table()
    ensures
        hw_ctl_flag_pos(HwCtlFlag::MixerEnabled) == 0,
        hw_ctl_flag_pos(HwCtlFlag::SpdifPro) == 1,
        hw_ctl_flag_pos(HwCtlFlag::SpdifNoneAudio) == 2,
        hw_ctl_flag_pos(HwCtlFlag::CtlRoomSelect) == 8,
        hw_ctl_flag_pos(HwCtlFlag::OutputLevelBypass) == 9,
        hw_ctl_flag_pos(HwCtlFlag::MeterInMode) == 12,
        hw_ctl_flag_pos(HwCtlFlag::MeterOutMode) == 13,
        hw_ctl_flag_pos(HwCtlFlag::SoftClip) == 18,
        hw_ctl_flag_pos(HwCtlFlag::GuitarHexInput) == 29,
        hw_ctl_flag_pos(HwCtlFlag::GuitarAutoCharging) == 30,
        hw_ctl_flag_pos(HwCtlFlag::PhantomPowering) == 31,
{
}

/// The flag which the position of bit stands for.
pub open spec fn hw_ctl_flag_of(pos: usize) -> HwCtlFlag {
    if pos == 0 {
        HwCtlFlag::MixerEnabled
    } else if pos == 1 {
        HwCtlFlag::SpdifPro
    } else if pos == 2 {
        HwCtlFlag::SpdifNoneAudio
    } else if pos == 8 {
        HwCtlFlag::CtlRoomSelect
    } else if pos == 9 {
        HwCtlFlag::OutputLevelBypass
    } else if pos == 12 {
        HwCtlFlag::MeterInMode
    } else if pos == 13 {
        HwCtlFlag::MeterOutMode
    } else if pos == 18 {
        HwCtlFlag::SoftClip
    } else if pos == 29 {
        HwCtlFlag::GuitarHexInput
    } else if pos == 30 {
        HwCtlFlag::GuitarAutoCharging
    } else if pos == 31 {
        HwCtlFlag::PhantomPowering
    } else {
        HwCtlFlag::Reserved(pos)
    }
}

/// Each value which the device uses is read by `hw_ctl_flag_of` as its own `HwCtlFlag`.
pub proof fn lemma_hw_ctl_flag_of_table()
    ensures
        hw_ctl_flag_of(0) == HwCtlFlag::MixerEnabled,
        hw_ctl_flag_of(1) == HwCtlFlag::SpdifPro,
        hw_ctl_flag_of(2) == HwCtlFlag::SpdifNoneAudio,
        hw_ctl_flag_of(8) == HwCtlFlag::CtlRoomSelect,
        hw_ctl_flag_of(9) == HwCtlFlag::OutputLevelBypass,
        hw_ctl_flag_of(12) == HwCtlFlag::MeterInMode,
        hw_ctl_flag_of(13) == HwCtlFlag::MeterOutMode,
        hw_ctl_flag_of(18) == HwCtlFlag::SoftClip,
        hw_ctl_flag_of(29) == HwCtlFlag::GuitarHexInput,
        hw_ctl_flag_of(30) == HwCtlFlag::GuitarAutoCharging,
        hw_ctl_flag_of(31) == HwCtlFlag::PhantomPowering,
{
}

/// Serialize the flag as the position of its bit.
pub fn serialize_hw_ctl_flag(flag: &HwCtlFlag) -> (r: usize)
    ensures
        r == hw_ctl_flag_pos(*flag),
{
    match flag {
        HwCtlFlag::MixerEnabled => 0,
        HwCtlFlag::SpdifPro => 1,
        HwCtlFlag::SpdifNoneAudio => 2,
        HwCtlFlag::CtlRoomSelect => 8,
        HwCtlFlag::OutputLevelBypass => 9,
        HwCtlFlag::MeterInMode => 12,
        HwCtlFlag::MeterOutMode => 13,
        HwCtlFlag::SoftClip => 18,
        HwCtlFlag::GuitarHexInput => 29,
        HwCtlFlag::GuitarAutoCharging => 30,
        HwCtlFlag::PhantomPowering => 31,
        HwCtlFlag::Reserved(pos) => *pos,
    }
}

/// Deserialize the flag from the position of its bit.
pub fn deserialize_hw_ctl_flag(flag: &mut HwCtlFlag, pos: usize)
    ensures
        *final(flag) == hw_ctl_flag_of(pos),
{
    *flag = if pos == 0 {
        HwCtlFlag::MixerEnabled
    } else if pos == 1 {
        HwCtlFlag::SpdifPro
    } else if pos == 2 {
        HwCtlFlag::SpdifNoneAudio
    } else if pos == 8 {
        HwCtlFlag::CtlRoomSelect
    } else if pos == 9 {
        HwCtlFlag::OutputLevelBypass
    } else if pos == 12 {
        HwCtlFlag::MeterInMode
    } else if pos == 13 {
        HwCtlFlag::MeterOutMode
    } else if pos == 18 {
        HwCtlFlag::SoftClip
    } else if pos == 29 {
        HwCtlFlag::GuitarHexInput
    } else if pos == 30 {
        HwCtlFlag::GuitarAutoCharging
    } else if pos == 31 {
        HwCtlFlag::PhantomPowering
    } else {
        HwCtlFlag::Reserved(pos)
    };
}

/// Whether the position is the one of a named flag.
pub open spec fn is_named_flag_pos(pos: usize) -> bool {
    pos == 0 || pos == 1 || pos == 2 || pos == 8 || pos == 9 || pos == 12 || pos == 13 || pos == 18
        || pos == 29 || pos == 30 || pos == 31
}

/// A flag is read back from the position of its bit, unless it is a reserved one at the position
/// of a named flag.
pub proof fn lemma_hw_ctl_flag_roundtrip(flag: HwCtlFlag)
    requires
        flag matches HwCtlFlag::Reserved(pos) ==> !is_named_flag_pos(pos),
    ensures
        hw_ctl_flag_of(hw_ctl_flag_pos(flag)) == flag,
{
}

/// The parameter of flags for hardware control;
#[derive(Default, Debug, Clone, PartialEq, Eq)]
pub struct EfwHwCtlFlags(pub Vec<HwCtlFlag>);

/// The request to get the flags.
pub fn get_flags_request() -> (r: EfwRequest)
    ensures
        r.category == CATEGORY_HWCTL,
        r.command == CMD_GET_FLAGS,
        r.args@ == Seq::<u32>::empty(),
        r.params_len == 1,
{
    EfwRequest { category: CATEGORY_HWCTL, command: CMD_GET_FLAGS, args: Vec::new(), params_len: 1 }
}

/// The flags after adding, in the order of their bits among the first `n`, each flag whose bit
/// is set and which is not in the flags yet.
pub open spec fn merged_flags(flags: Seq<HwCtlFlag>, val: u32, n: nat) -> Seq<HwCtlFlag>
    decreases n,
{
    if n == 0 {
        flags
    } else {
        let prev = merged_flags(flags, val, (n - 1) as nat);
        let flag = hw_ctl_flag_of((n - 1) as usize);
        if has_flag(val, 1u32 << ((n - 1) as u32)) && !prev.contains(flag) {
            prev.push(flag)
        } else {
            prev
        }
    }
}

/// Whether the flag is in the list.
pub fn contains_flag(flags: &[HwCtlFlag], flag: &HwCtlFlag) -> (r: bool)
    ensures
        r == flags@.contains(*flag),
{
    let mut i: usize = 0;
    while i < flags.len()
        invariant
            i <= flags@.len(),
            forall|k: int| 0 <= k < i ==> flags@[k] != *flag,
        decreases flags@.len() - i,
    {
        if flags[i] == *flag {
            assert(flags@[i as int] == *flag);
            return true;
        }
        i = i + 1;
    }
    false
}

/// Add the flags whose bits are set in the quadlet and which are not cached yet.
pub fn parse_flags_response(states: &mut EfwHwCtlFlags, params: &[u32]) -> (r: Result<(), EfwError>)
    ensures
        r.is_ok() <==> params@.len() >= 1,
        r.is_ok() ==> final(states).0@ == merged_flags(old(states).0@, params@[0], 32),
        r.is_err() ==> final(states).0@ == old(states).0@,
{
    let val = param_at(params, 0)?;
    let mut i: usize = 0;
    while i < 32
        invariant
            i <= 32,
            val == params@[0],
            states.0@ == merged_flags(old(states).0@, val, i as nat),
        decreases 32 - i,
    {
        if val & (1u32 << (i as u32)) > 0 {
            let mut flag = HwCtlFlag::default();
            deserialize_hw_ctl_flag(&mut flag, i);
            if !contains_flag(states.0.as_slice(), &flag) {
                states.0.push(flag);
            }
        }
        i = i + 1;
    }
    Ok(())
}

impl<O: EfwHardwareSpecification, P: EfwProtocolExtManual> EfwWhollyCachableParamsOperation<
    P,
    EfwHwCtlFlags,
> for O {
    open spec fn cache_acceptable(states: EfwHwCtlFlags) -> bool {
        true
    }

    fn cache_wholly(proto: &mut P, states: &mut EfwHwCtlFlags, timeout_ms: u32) -> (r: Result<
        (),
        EfwError,
    >)
        ensures
            r.is_ok() ==> exists|p: Seq<u32>|
                #[trigger] old(proto).answered(CATEGORY_HWCTL, CMD_GET_FLAGS, Seq::<u32>::empty(), p) && p.len()
                    >= 1 && final(states).0@ == merged_flags(old(states).0@, p[0], 32),
            r.is_err() ==> final(states).0@ == old(states).0@,
    {
        let req = get_flags_request();
        let params = transact(proto, &req, timeout_ms)?;
        let r = parse_flags_response(states, params.as_slice());
        proof {
            if r.is_ok() {
                assert(old(proto).answered(CATEGORY_HWCTL, CMD_GET_FLAGS, Seq::<u32>::empty(), params@));
            }
        }
        r
    }
}

/// The bits of positions of the flags fit in a quadlet.
pub open spec fn flags_fit(flags: Seq<HwCtlFlag>) -> bool {
    forall|i: int| 0 <= i < flags.len() ==> hw_ctl_flag_pos(#[trigger] flags[i]) < 32
}

/// The bits of the flags.
pub open spec fn flags_bits(flags: Seq<HwCtlFlag>) -> u32
    decreases flags.len(),
{
    if flags.len() == 0 {
        0
    } else {
        flags_bits(flags.drop_last()) | (1u32 << (hw_ctl_flag_pos(flags.last()) as u32))
    }
}

/// The bit of the last cached flag which is not in the updates, if any.
pub open spec fn disabled_bit(states: Seq<HwCtlFlag>, updates: Seq<HwCtlFlag>) -> u32
    decreases states.len(),
{
    if states.len() == 0 {
        0
    } else if !updates.contains(states.last()) {
        1u32 << (hw_ctl_flag_pos(states.last()) as u32)
    } else {
        disabled_bit(states.drop_last(), updates)
    }
}

/// The bits of the flags.
pub fn compute_flags_bits(flags: &[HwCtlFlag]) -> (r: u32)
    requires
        flags_fit(flags@),
    ensures
        r == flags_bits(flags@),
{
    let mut val: u32 = 0;
    let mut i: usize = 0;
    while i < flags.len()
        invariant
            i <= flags@.len(),
            flags_fit(flags@),
            val == flags_bits(flags@.take(i as int)),
        decreases flags@.len() - i,
    {
        proof {
            assert(flags@.take(i + 1).drop_last() =~= flags@.take(i as int));
        }
        let pos = serialize_hw_ctl_flag(&flags[i]);
        val = val | (1u32 << (pos as u32));
        i = i + 1;
    }
    proof {
        assert(flags@.take(flags@.len() as int) =~= flags@);
    }
    val
}

/// The request to set the flags: the bits of flags to enable, and the bit of the last cached
/// flag which is not in the updates to disable.
pub fn set_flags_request(states: &EfwHwCtlFlags, updates: &EfwHwCtlFlags) -> (r: EfwRequest)
    requires
        flags_fit(states.0@),
        flags_fit(updates.0@),
    ensures
        r.category == CATEGORY_HWCTL,
        r.command == CMD_SET_FLAGS,
        r.args@ == seq![flags_bits(updates.0@), disabled_bit(states.0@, updates.0@)],
        r.params_len == 0,
{
    let enables = compute_flags_bits(updates.0.as_slice());
    let mut disables: u32 = 0;
    let mut i: usize = 0;
    while i < states.0.len()
        invariant
            i <= states.0@.len(),
            flags_fit(states.0@),
            disabled_bit(states.0@.take(i as int), updates.0@) != 0 ==> disables == disabled_bit(
                states.0@.take(i as int),
                updates.0@,
            ),
            disabled_bit(states.0@.take(i as int), updates.0@) == 0 ==> disables == 0,
        decreases states.0@.len() - i,
    {
        proof {
            assert(states.0@.take(i + 1).drop_last() =~= states.0@.take(i as int));
        }
        if !contains_flag(updates.0.as_slice(), &states.0[i]) {
            let pos = serialize_hw_ctl_flag(&states.0[i]);
            disables = 1u32 << (pos as u32);
        }
        i = i + 1;
    }
    proof {
        assert(states.0@.take(states.0@.len() as int) =~= states.0@);
    }
    EfwRequest {
        category: CATEGORY_HWCTL,
        command: CMD_SET_FLAGS,
        args: vec![enables, disables],
        params_len: 0,
    }
}

impl<O: EfwHardwareSpecification, P: EfwProtocolExtManual> EfwPartiallyUpdatableParamsOperation<
    P,
    EfwHwCtlFlags,
> for O {
    open spec fn partial_update_acceptable(states: EfwHwCtlFlags, updates: EfwHwCtlFlags) -> bool {
        flags_fit(states.0@) && flags_fit(updates.0@)
    }

    fn update_partially(
        proto: &mut P,
        states: &mut EfwHwCtlFlags,
        updates: EfwHwCtlFlags,
        timeout_ms: u32,
    ) -> (r: Result<(), EfwError>)
        ensures
            final(states).0@ == old(states).0@,
            r.is_ok() ==> answered_request(
                &*old(proto),
                CATEGORY_HWCTL,
                CMD_SET_FLAGS,
                seq![flags_bits(updates.0@), disabled_bit(old(states).0@, updates.0@)],
            ),
    {
        let req = set_flags_request(states, &updates);
        let reply = transact(proto, &req, timeout_ms)?;
        proof {
            assert(old(proto).answered(CATEGORY_HWCTL, CMD_SET_FLAGS, req.args@, reply@));
        }
        Ok(())
    }
}

/// The parameter to blink LED.
#[derive(Default, Debug, Copy, Clone, PartialEq, Eq, Structural)]
pub struct EfwLedBlink;

/// The request to blink LEDs.
pub fn blink_led_request() -> (r: EfwRequest)
    ensures
        r.category == CATEGORY_HWCTL,
        r.command == CMD_BLINK_LED,
        r.args@ == Seq::<u32>::empty(),
        r.params_len == 0,
{
    EfwRequest { category: CATEGORY_HWCTL, command: CMD_BLINK_LED, args: Vec::new(), params_len: 0 }
}

impl<O: EfwHardwareSpecification, P: EfwProtocolExtManual> EfwWhollyUpdatableParamsOperation<
    P,
    EfwLedBlink,
> for O {
    open spec fn update_acceptable(states: EfwLedBlink) -> bool {
        true
    }

    fn update_wholly(proto: &mut P, states: &EfwLedBlink, timeout_ms: u32) -> (r: Result<(), EfwError>)
        ensures
            r.is_ok() ==> answered_request(&*old(proto), CATEGORY_HWCTL, CMD_BLINK_LED, Seq::<u32>::empty()),
    {
        let req = blink_led_request();
        let reply = transact(proto, &req, timeout_ms)?;
        proof {
            assert(old(proto).answered(CATEGORY_HWCTL, CMD_BLINK_LED, req.args@, reply@));
        }
        Ok(())
    }
}

/// The request to take the device to disappear from IEEE 1394 bus, then to appear again.
pub fn reconnect_request() -> (r: EfwRequest)
    ensures
        r.category == CATEGORY_HWCTL,
        r.command == CMD_RECONNECT,
        r.args@ == Seq::<u32>::empty(),
        r.params_len == 0,
{
    EfwRequest { category: CATEGORY_HWCTL, command: CMD_RECONNECT, args: Vec::new(), params_len: 0 }
}

/// The flags whose bits are set among the first `n`, in the order of their bits.
pub open spec fn flags_of_bits(val: u32, n: nat) -> Seq<HwCtlFlag>
    decreases n,
{
    if n == 0 {
        Seq::empty()
    } else {
        let prev = flags_of_bits(val, (n - 1) as nat);
        if has_flag(val, 1u32 << ((n - 1) as u32)) {
            prev.push(hw_ctl_flag_of((n - 1) as usize))
        } else {
            prev
        }
    }
}

/// The flags whose bits are set in the quadlet.
pub fn flags_from_bits(val: u32) -> (r: Vec<HwCtlFlag>)
    ensures
        r@ == flags_of_bits(val, 32),
{
    let mut flags = Vec::new();
    let mut i: usize = 0;
    while i < 32
        invariant
            i <= 32,
            flags@ == flags_of_bits(val, i as nat),
        decreases 32 - i,
    {
        if val & (1u32 << (i as u32)) > 0 {
            let mut flag = HwCtlFlag::default();
            deserialize_hw_ctl_flag(&mut flag, i);
            flags.push(flag);
        }
        i = i + 1;
    }
    flags
}

/// The bits of the flags, if any are given; none else.
pub open spec fn flags_arg(flags: Option<&[HwCtlFlag]>) -> u32 {
    match flags {
        Some(f) => flags_bits(f@),
        None => 0u32,
    }
}

/// Protocol about hardware control for Fireworks board module.
pub trait HwCtlProtocol: EfwProtocolExtManual + Sized {
    /// Set the source and the frequency of sampling clock; the current ones stand for those not
    /// given.
    fn set_clock(&mut self, src: Option<ClkSrc>, rate: Option<u32>, timeout_ms: u32) -> (r: Result<
        (),
        EfwError,
    >)
        ensures
            r.is_ok() ==> exists|s: ClkSrc, v: u32|
                #[trigger] answered_request(&*old(self), CATEGORY_HWCTL, CMD_SET_CLOCK, clock_args(s, v)) && (src matches Some(x) ==> s == x) && (rate matches Some(y) ==> v == y),
    {
        let (current_src, current_rate) = self.get_clock(timeout_ms)?;
        let s = match src {
            Some(s) => s,
            None => current_src,
        };
        let r = match rate {
            Some(r) => r,
            None => current_rate,
        };
        let req = set_clock_request(&s, r);
        let reply = transact(self, &req, timeout_ms)?;
        proof {
            assert(old(self).answered(CATEGORY_HWCTL, CMD_SET_CLOCK, req.args@, reply@));
            assert(req.args@ == clock_args(s, r));
            assert(answered_request(&*old(self), CATEGORY_HWCTL, CMD_SET_CLOCK, clock_args(s, r)));
        }
        Ok(())
    }

    /// Get the source and the frequency of sampling clock.
    fn get_clock(&mut self, timeout_ms: u32) -> (r: Result<(ClkSrc, u32), EfwError>)
        ensures
            *final(self) == *old(self),
            r matches Ok((src, rate)) ==> exists|p: Seq<u32>|
                #[trigger] old(self).answered(CATEGORY_HWCTL, CMD_GET_CLOCK, Seq::<u32>::empty(), p) && p.len()
                    >= 2 && src == clock_source_of(p[0]) && rate == p[1],
    {
        let req = get_clock_request();
        let params = transact(self, &req, timeout_ms)?;
        let mut states = EfwSamplingClockParameters { rate: 0, source: ClkSrc::Internal };
        parse_clock_response(&mut states, params.as_slice())?;
        assert(old(self).answered(CATEGORY_HWCTL, CMD_GET_CLOCK, Seq::<u32>::empty(), params@));
        Ok((states.source, states.rate))
    }

    /// Enable and disable the flags.
    fn set_flags(
        &mut self,
        enables: Option<&[HwCtlFlag]>,
        disables: Option<&[HwCtlFlag]>,
        timeout_ms: u32,
    ) -> (r: Result<(), EfwError>)
        requires
            enables matches Some(flags) ==> flags_fit(flags@),
            disables matches Some(flags) ==> flags_fit(flags@),
        ensures
            r.is_ok() ==> answered_request(
                &*old(self),
                CATEGORY_HWCTL,
                CMD_SET_FLAGS,
                seq![flags_arg(enables), flags_arg(disables)],
            ),
    {
        let on = match enables {
            Some(flags) => compute_flags_bits(flags),
            None => 0,
        };
        let off = match disables {
            Some(flags) => compute_flags_bits(flags),
            None => 0,
        };
        let req = EfwRequest {
            category: CATEGORY_HWCTL,
            command: CMD_SET_FLAGS,
            args: vec![on, off],
            params_len: 0,
        };
        let reply = transact(self, &req, timeout_ms)?;
        proof {
            assert(on == flags_arg(enables));
            assert(off == flags_arg(disables));
            assert(req.args@ =~= seq![flags_arg(enables), flags_arg(disables)]);
            assert(old(self).answered(CATEGORY_HWCTL, CMD_SET_FLAGS, req.args@, reply@));
        }
        Ok(())
    }

    /// Get the flags which are set.
    fn get_flags(&mut self, timeout_ms: u32) -> (r: Result<Vec<HwCtlFlag>, EfwError>)
        ensures
            r matches Ok(flags) ==> exists|p: Seq<u32>|
                #[trigger] old(self).answered(CATEGORY_HWCTL, CMD_GET_FLAGS, Seq::<u32>::empty(), p) && p.len()
                    >= 1 && flags@ == flags_of_bits(p[0], 32),
    {
        let req = get_flags_request();
        let params = transact(self, &req, timeout_ms)?;
        let val = param_at(params.as_slice(), 0)?;
        let flags = flags_from_bits(val);
        assert(old(self).answered(CATEGORY_HWCTL, CMD_GET_FLAGS, Seq::<u32>::empty(), params@));
        Ok(flags)
    }

    /// Blink LEDs on device.
    fn blink_led(&mut self, timeout_ms: u32) -> (r: Result<(), EfwError>)
        ensures
            r.is_ok() ==> answered_request(&*old(self), CATEGORY_HWCTL, CMD_BLINK_LED, Seq::<u32>::empty()),
    {
        let req = blink_led_request();
        let reply = transact(self, &req, timeout_ms)?;
        proof {
            assert(old(self).answered(CATEGORY_HWCTL, CMD_BLINK_LED, req.args@, reply@));
        }
        Ok(())
    }

    /// Take the device to disappear from IEEE 1394 bus, then to appear again.
    fn reconnect(&mut self, timeout_ms: u32) -> (r: Result<(), EfwError>)
        ensures
            r.is_ok() ==> answered_request(&*old(self), CATEGORY_HWCTL, CMD_RECONNECT, Seq::<u32>::empty()),
    {
        let req = reconnect_request();
        let reply = transact(self, &req, timeout_ms)?;
        proof {
            assert(old(self).answered(CATEGORY_HWCTL, CMD_RECONNECT, req.args@, reply@));
        }
        Ok(())
    }
}

impl<O: EfwProtocolExtManual> HwCtlProtocol for O {

}

} // verus!
