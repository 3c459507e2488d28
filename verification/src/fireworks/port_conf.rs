//! Protocol about port configuration.
//!
//! The module includes protocol about port configuration defined by Echo Audio Digital Corporation
//! for Fireworks board module.

use crate::codec::{is_first_position, position_of};
use crate::fireworks::phys_output::saturated;
use crate::fireworks::{
    answered_request, group_total, param_at, transact, EfwError, EfwHardwareSpecification,
    EfwPartiallyUpdatableParamsOperation, EfwProtocolExtManual, EfwRequest,
    EfwWhollyCachableParamsOperation, EfwWhollyUpdatableParamsOperation, FileError, HwCap,
    PhysGroupType,
};
use vstd::prelude::*;

verus! {

/// The category of commands for port configuration.
pub const CATEGORY_PORT_CONF: u32 = 9;

/// The command to set the source of control room.
pub const CMD_SET_MIRROR: u32 = 0;
/// The command to get the source of control room.
pub const CMD_GET_MIRROR: u32 = 1;
/// The command to set the mode of digital interface.
pub const CMD_SET_DIG_MODE: u32 = 2;
/// The command to get the mode of digital interface.
pub const CMD_GET_DIG_MODE: u32 = 3;
/// The command to set phantom powering.
pub const CMD_SET_PHANTOM: u32 = 4;
/// The command to get phantom powering.
pub const CMD_GET_PHANTOM: u32 = 5;
/// The command to set the mapping of stream.
pub const CMD_SET_STREAM_MAP: u32 = 6;
/// The command to get the mapping of stream.
pub const CMD_GET_STREAM_MAP: u32 = 7;

/// The parameters for source of control room.
#[derive(Default, Debug, Copy, Clone, PartialEq, Eq, Structural)]
pub struct EfwControlRoomSource(pub usize);

/// Whether the type of group can be the source of control room.
pub open spec fn is_control_room_source(ty: PhysGroupType) -> bool {
    ty == PhysGroupType::Analog || ty == PhysGroupType::Headphones || ty == PhysGroupType::Spdif
}

/// The pairs of channels in the group: the type and the position of the first channel of each.
pub open spec fn pairs_of_group(group: (PhysGroupType, usize)) -> Seq<(PhysGroupType, usize)> {
    Seq::new(((group.1 as int + 1) / 2) as nat, |i: int| (group.0, (2 * i) as usize))
}

/// The pairs of channels in the groups, of any type or only of the types for control room.
pub open spec fn group_pairs(groups: Seq<(PhysGroupType, usize)>, room_only: bool) -> Seq<(PhysGroupType, usize)>
    decreases groups.len(),
{
    if groups.len() == 0 {
        Seq::empty()
    } else {
        let prev = group_pairs(groups.drop_last(), room_only);
        if !room_only || is_control_room_source(groups.last().0) {
            prev + pairs_of_group(groups.last())
        } else {
            prev
        }
    }
}

/// The pairs of channels in the groups, of any type or only of the types for control room.
fn collect_group_pairs(groups: &[(PhysGroupType, usize)], room_only: bool) -> (r: Vec<(PhysGroupType, usize)>)
    ensures
        r@ == group_pairs(groups@, room_only),
{
    let mut pairs: Vec<(PhysGroupType, usize)> = Vec::new();
    let mut i: usize = 0;
    while i < groups.len()
        invariant
            i <= groups@.len(),
            pairs@ == group_pairs(groups@.take(i as int), room_only),
        decreases groups@.len() - i,
    {
        proof {
            assert(groups@.take(i + 1).drop_last() =~= groups@.take(i as int));
        }
        let (group_type, count) = groups[i];
        let room = match group_type {
            PhysGroupType::Analog => true,
            PhysGroupType::Headphones => true,
            PhysGroupType::Spdif => true,
            _ => false,
        };
        if !room_only || room {
            let ghost base = pairs@;
            let n = count / 2 + count % 2;
            let mut k: usize = 0;
            while k < n
                invariant
                    k <= n,
                    n == (count as int + 1) / 2,
                    pairs@ == base + Seq::new(k as nat, |j: int| (group_type, (2 * j) as usize)),
                decreases n - k,
            {
                pairs.push((group_type, 2 * k));
                k = k + 1;
                proof {
                    assert(pairs@ =~= base + Seq::new(k as nat, |j: int| (group_type, (2 * j) as usize)));
                }
            }
            proof {
                assert(pairs@ =~= base + pairs_of_group((group_type, count)));
            }
        }
        i = i + 1;
    }
    proof {
        assert(groups@.take(groups@.len() as int) =~= groups@);
    }
    pairs
}

/// The pairs of channels in the groups.
pub fn phys_group_pairs(groups: &[(PhysGroupType, usize)]) -> (r: Vec<(PhysGroupType, usize)>)
    ensures
        r@ == group_pairs(groups@, false),
{
    collect_group_pairs(groups, false)
}

/// Find the first position of the pair among the pairs.
pub fn find_pair(pairs: &[(PhysGroupType, usize)], entry: &(PhysGroupType, usize)) -> (r: Option<usize>)
    ensures
        match r {
            Some(i) => is_first_position(pairs@, *entry, i as int),
            None => !pairs@.contains(*entry),
        },
{
    let mut i: usize = 0;
    while i < pairs.len()
        invariant
            i <= pairs@.len(),
            forall|j: int| 0 <= j < i ==> pairs@[j] != *entry,
        decreases pairs@.len() - i,
    {
        let (t, c) = pairs[i];
        if t == entry.0 && c == entry.1 {
            return Some(i);
        }
        i = i + 1;
    }
    None
}

/// The specification of control room operation.
pub trait EfwControlRoomSpecification: EfwHardwareSpecification {
    /// The pairs of physical outputs which can be the source of control room.
    fn control_room_source_pairs() -> (r: Vec<(PhysGroupType, usize)>)
        ensures
            r@ == group_pairs(Self::spec_phys_output_groups(), true),
    {
        collect_group_pairs(Self::phys_output_groups(), true)
    }
}

/// The message for a value which stands for no pair of physical outputs.
///
/// Formatted by `std::format!`; the contract claims nothing of the text.
#[verifier::external_body]
fn unexpected_control_room_value(pos: usize) -> String {
    format!("Unexpected value {} for source of control room", pos)
}

/// The message for a pair of physical outputs which can not be the source of control room.
///
/// Formatted by `std::format!`; the contract claims nothing of the text.
#[verifier::external_body]
fn unexpected_control_room_entry(entry: &(PhysGroupType, usize)) -> String {
    format!("Unexpected entry for source of control room: {:?},{}", entry.0, entry.1)
}

/// The message for an index out of the sources of control room.
///
/// Formatted by `std::format!`; the contract claims nothing of the text.
#[verifier::external_body]
fn invalid_control_room_value(idx: usize) -> String {
    format!("Invalid value for source of control room: {}", idx)
}

/// The message for a source of control room which is not a pair of physical outputs.
///
/// Formatted by `std::format!`; the contract claims nothing of the text.
#[verifier::external_body]
fn invalid_control_room_entry(entry: &(PhysGroupType, usize)) -> String {
    format!("Invalid entry for source of control room: {:?},{}", entry.0, entry.1)
}

/// The request to get the source of control room.
pub fn get_mirror_request() -> (r: EfwRequest)
    ensures
        r.category == CATEGORY_PORT_CONF,
        r.command == CMD_GET_MIRROR,
        r.args@ == Seq::<u32>::empty(),
        r.params_len == 1,
{
    EfwRequest { category: CATEGORY_PORT_CONF, command: CMD_GET_MIRROR, args: Vec::new(), params_len: 1 }
}

/// The source of control room from the value of response: the value is twice the index among
/// the pairs of physical outputs, and the source is the index of that pair among the pairs which
/// can be the source.
pub fn parse_control_room_source(
    states: &mut EfwControlRoomSource,
    val: u32,
    outputs: &[(PhysGroupType, usize)],
    rooms: &[(PhysGroupType, usize)],
) -> (r: Result<(), EfwError>)
    ensures
        ({
            let pos = (val / 2) as int;
            if pos >= outputs@.len() {
                r matches Err(EfwError::File(FileError::Nxio, _))
            } else if !rooms@.contains(outputs@[pos]) {
                r matches Err(EfwError::File(FileError::Nxio, _))
            } else {
                r.is_ok() && final(states).0 == position_of(rooms@, outputs@[pos])
            }
        }),
        r.is_err() ==> *final(states) == *old(states),
{
    let pos = (val / 2) as usize;
    if pos >= outputs.len() {
        return Err(EfwError::File(FileError::Nxio, unexpected_control_room_value(pos)));
    }
    let entry = outputs[pos];
    match find_pair(rooms, &entry) {
        Some(idx) => {
            proof {
                crate::codec::lemma_first_position_unique(rooms@, entry, idx as int);
            }
            states.0 = idx;
            Ok(())
        },
        None => Err(EfwError::File(FileError::Nxio, unexpected_control_room_entry(&entry))),
    }
}

impl<O: EfwControlRoomSpecification, P: EfwProtocolExtManual> EfwWhollyCachableParamsOperation<
    P,
    EfwControlRoomSource,
> for O {
    open spec fn cache_acceptable(states: EfwControlRoomSource) -> bool {
        true
    }

    fn cache_wholly(proto: &mut P, states: &mut EfwControlRoomSource, timeout_ms: u32) -> (r: Result<
        (),
        EfwError,
    >)
        ensures
            r.is_ok() ==> final(states).0 < group_pairs(O::spec_phys_output_groups(), true).len(),
            r.is_ok() ==> exists|p: Seq<u32>|
                #[trigger] old(proto).answered(CATEGORY_PORT_CONF, CMD_GET_MIRROR, Seq::<u32>::empty(), p)
                    && p.len() >= 1 && p[0] / 2 < group_pairs(O::spec_phys_output_groups(), false).len()
                    && final(states).0 == position_of(
                    group_pairs(O::spec_phys_output_groups(), true),
                    group_pairs(O::spec_phys_output_groups(), false)[(p[0] / 2) as int],
                ),
            r.is_err() ==> *final(states) == *old(states),
    {
        let req = get_mirror_request();
        let params = transact(proto, &req, timeout_ms)?;
        let val = param_at(params.as_slice(), 0)?;
        let outputs = phys_group_pairs(O::phys_output_groups());
        let rooms = O::control_room_source_pairs();
        let r = parse_control_room_source(states, val, outputs.as_slice(), rooms.as_slice());
        proof {
            if r.is_ok() {
                let pos = (val / 2) as int;
                crate::codec::lemma_position_of_contained(rooms@, outputs@[pos]);
                assert(old(proto).answered(CATEGORY_PORT_CONF, CMD_GET_MIRROR, Seq::<u32>::empty(), params@));
            }
        }
        r
    }
}

/// The request to set the source of control room: twice the index of the source among the pairs
/// of physical outputs, if the source is one of them.
pub fn set_mirror_request(
    states: &EfwControlRoomSource,
    outputs: &[(PhysGroupType, usize)],
    rooms: &[(PhysGroupType, usize)],
) -> (r: Result<EfwRequest, EfwError>)
    ensures
        states.0 >= rooms@.len() ==> r matches Err(EfwError::File(FileError::Inval, _)),
        states.0 < rooms@.len() && !outputs@.contains(rooms@[states.0 as int]) ==> r matches Err(
            EfwError::File(FileError::Inval, _),
        ),
        states.0 < rooms@.len() && outputs@.contains(rooms@[states.0 as int]) ==> (r matches Ok(req)
            && req.category == CATEGORY_PORT_CONF && req.command == CMD_SET_MIRROR && req.args@
            == seq![(2 * position_of(outputs@, rooms@[states.0 as int])) as u32] && req.params_len
            == 0),
{
    if states.0 >= rooms.len() {
        return Err(EfwError::File(FileError::Inval, invalid_control_room_value(states.0)));
    }
    let entry = rooms[states.0];
    match find_pair(outputs, &entry) {
        Some(idx) => {
            proof {
                crate::codec::lemma_first_position_unique(outputs@, entry, idx as int);
            }
            let val = (idx as u32) << 1u32;
            assert(((idx as u32) << 1u32) == ((2 * idx) as u32)) by (bit_vector);
            Ok(
                EfwRequest {
                    category: CATEGORY_PORT_CONF,
                    command: CMD_SET_MIRROR,
                    args: vec![val],
                    params_len: 0,
                },
            )
        },
        None => Err(EfwError::File(FileError::Inval, invalid_control_room_entry(&entry))),
    }
}

impl<O: EfwControlRoomSpecification, P: EfwProtocolExtManual> EfwWhollyUpdatableParamsOperation<
    P,
    EfwControlRoomSource,
> for O {
    open spec fn update_acceptable(states: EfwControlRoomSource) -> bool {
        true
    }

    fn update_wholly(proto: &mut P, states: &EfwControlRoomSource, timeout_ms: u32) -> (r: Result<
        (),
        EfwError,
    >)
        ensures
            !(states.0 < group_pairs(O::spec_phys_output_groups(), true).len() && group_pairs(
                O::spec_phys_output_groups(),
                false,
            ).contains(group_pairs(O::spec_phys_output_groups(), true)[states.0 as int]))
                ==> r matches Err(EfwError::File(FileError::Inval, _)),
            r.is_ok() ==> answered_request(
                &*old(proto),
                CATEGORY_PORT_CONF,
                CMD_SET_MIRROR,
                seq![
                    (2 * position_of(
                        group_pairs(O::spec_phys_output_groups(), false),
                        group_pairs(O::spec_phys_output_groups(), true)[states.0 as int],
                    )) as u32,
                ],
            ),
    {
        let outputs = phys_group_pairs(O::phys_output_groups());
        let rooms = O::control_room_source_pairs();
        let req = set_mirror_request(states, outputs.as_slice(), rooms.as_slice())?;
        let reply = transact(proto, &req, timeout_ms)?;
        proof {
            assert(old(proto).answered(CATEGORY_PORT_CONF, CMD_SET_MIRROR, req.args@, reply@));
        }
        Ok(())
    }
}

/// Type of audio signal for dignal input and output.
#[derive(Debug, Copy, Clone, PartialEq, Eq, Structural)]
pub enum EfwDigitalMode {
    /// Coaxial interface for S/PDIF signal.
    SpdifCoax,
    /// XLR interface for AES/EBU signal.
    AesebuXlr,
    /// Optical interface for S/PDIF signal.
    SpdifOpt,
    /// Optical interface for ADAT signal.
    AdatOpt,
    Unknown(u32),
}

impl Default for EfwDigitalMode {
    fn default() -> (r: Self)
        ensures
            r == EfwDigitalMode::Unknown(u32::MAX),
    {
        EfwDigitalMode::Unknown(u32::MAX)
    }
}

/// The code of mode of digital interface.
pub open spec fn digital_mode_code(mode: EfwDigitalMode) -> u32 {
    match mode {
        EfwDigitalMode::SpdifCoax => 0,
        EfwDigitalMode::AesebuXlr => 1,
        EfwDigitalMode::SpdifOpt => 2,
        EfwDigitalMode::AdatOpt => 3,
        EfwDigitalMode::Unknown(val) => val,
    }
}

/// Each value of `EfwDigitalMode` has its own value in `digital_mode_code`, as the device knows it.
pub proof fn lemma_digital_mode_code_table()
    ensures
        digital_mode_code(EfwDigitalMode::SpdifCoax) == 0,
        digital_mode_code(EfwDigitalMode::AesebuXlr) == 1,
        digital_mode_code(EfwDigitalMode::SpdifOpt) == 2,
        digital_mode_code(EfwDigitalMode::AdatOpt) == 3,
{
}

/// The mode of digital interface which the code stands for.
pub open spec fn digital_mode_of(val: u32) -> EfwDigitalMode {
    if val == 0 {
        EfwDigitalMode::SpdifCoax
    } else if val == 1 {
        EfwDigitalMode::AesebuXlr
    } else if val == 2 {
        EfwDigitalMode::SpdifOpt
    } else if val == 3 {
        EfwDigitalMode::AdatOpt
    } else {
        EfwDigitalMode::Unknown(val)
    }
}

/// Each value which the device uses is read by `digital_mode_of` as its own `EfwDigitalMode`.
pub proof fn lemma_digital_mode_of_table()
    ensures
        digital_mode_of(0) == EfwDigitalMode::SpdifCoax,
        digital_mode_of(1) == EfwDigitalMode::AesebuXlr,
        digital_mode_of(2) == EfwDigitalMode::SpdifOpt,
        digital_mode_of(3) == EfwDigitalMode::AdatOpt,
{
}

/// Serialize the mode of digital interface.
pub fn serialize_digital_mode(mode: &EfwDigitalMode, val: &mut u32)
    ensures
        *final(val) == digital_mode_code(*mode),
{
    *val = match *mode {
        EfwDigitalMode::SpdifCoax => 0,
        EfwDigitalMode::AesebuXlr => 1,
        EfwDigitalMode::SpdifOpt => 2,
        EfwDigitalMode::AdatOpt => 3,
        EfwDigitalMode::Unknown(v) => v,
    };
}

/// Deserialize the mode of digital interface.
pub fn deserialize_digital_mode(val: u32) -> (r: EfwDigitalMode)
    ensures
        r == digital_mode_of(val),
{
    if val == 0 {
        EfwDigitalMode::SpdifCoax
    } else if val == 1 {
        EfwDigitalMode::AesebuXlr
    } else if val == 2 {
        EfwDigitalMode::SpdifOpt
    } else if val == 3 {
        EfwDigitalMode::AdatOpt
    } else {
        EfwDigitalMode::Unknown(val)
    }
}

/// A mode of digital interface is read back from its code, unless it is an unknown one whose
/// code is that of a named mode.
pub proof fn lemma_digital_mode_roundtrip(mode: EfwDigitalMode)
    requires
        mode matches EfwDigitalMode::Unknown(val) ==> val > 3,
    ensures
        digital_mode_of(digital_mode_code(mode)) == mode,
{
}

/// The capabilities for the modes of digital interface.
pub open spec fn digital_mode_caps() -> Seq<(HwCap, EfwDigitalMode)> {
    seq![
        (HwCap::OptionalSpdifCoax, EfwDigitalMode::SpdifCoax),
        (HwCap::OptionalAesebuXlr, EfwDigitalMode::AesebuXlr),
        (HwCap::OptionalSpdifOpt, EfwDigitalMode::SpdifOpt),
        (HwCap::OptionalAdatOpt, EfwDigitalMode::AdatOpt),
    ]
}

/// The entries of `digital_mode_caps`, in their order.
pub proof fn lemma_digital_mode_caps_order()
    ensures
        digital_mode_caps().len() == 4,
        digital_mode_caps()[0] == (HwCap::OptionalSpdifCoax, EfwDigitalMode::SpdifCoax),
        digital_mode_caps()[1] == (HwCap::OptionalAesebuXlr, EfwDigitalMode::AesebuXlr),
        digital_mode_caps()[2] == (HwCap::OptionalSpdifOpt, EfwDigitalMode::SpdifOpt),
        digital_mode_caps()[3] == (HwCap::OptionalAdatOpt, EfwDigitalMode::AdatOpt),
{
}

/// The modes of digital interface whose capabilities are among the first `n`, in the order.
pub open spec fn supported_digital_modes(caps: Seq<HwCap>, n: nat) -> Seq<EfwDigitalMode>
    decreases n,
{
    if n == 0 {
        Seq::empty()
    } else {
        let prev = supported_digital_modes(caps, (n - 1) as nat);
        let entry = digital_mode_caps()[n - 1];
        if caps.contains(entry.0) {
            prev.push(entry.1)
        } else {
            prev
        }
    }
}

/// Whether the capability is in the list.
pub fn contains_cap(caps: &[HwCap], cap: HwCap) -> (r: bool)
    ensures
        r == caps@.contains(cap),
{
    let mut i: usize = 0;
    while i < caps.len()
        invariant
            i <= caps@.len(),
            forall|k: int| 0 <= k < i ==> caps@[k] != cap,
        decreases caps@.len() - i,
    {
        if caps[i] == cap {
            assert(caps@[i as int] == cap);
            return true;
        }
        i = i + 1;
    }
    false
}

/// The modes of digital interface whose capabilities are in the list, in the order of
/// S/PDIF on coaxial, AES/EBU on XLR, S/PDIF on optical, and ADAT on optical.
pub fn collect_digital_modes(caps: &[HwCap]) -> (r: Vec<EfwDigitalMode>)
    ensures
        r@ == supported_digital_modes(caps@, 4),
{
    let table = [
        (HwCap::OptionalSpdifCoax, EfwDigitalMode::SpdifCoax),
        (HwCap::OptionalAesebuXlr, EfwDigitalMode::AesebuXlr),
        (HwCap::OptionalSpdifOpt, EfwDigitalMode::SpdifOpt),
        (HwCap::OptionalAdatOpt, EfwDigitalMode::AdatOpt),
    ];
    proof {
        assert(table@ =~= digital_mode_caps());
    }
    let mut modes = Vec::new();
    let mut i: usize = 0;
    while i < 4
        invariant
            i <= 4,
            table@ == digital_mode_caps(),
            modes@ == supported_digital_modes(caps@, i as nat),
        decreases 4 - i,
    {
        let (cap, mode) = table[i];
        if contains_cap(caps, cap) {
            modes.push(mode);
        }
        i = i + 1;
    }
    modes
}

/// The specification for mode of digital input and output.
pub trait EfwDigitalModeSpecification: EfwHardwareSpecification {
    /// The first mode of digital interface which the hardware supports.
    fn create_digital_mode() -> (r: EfwDigitalMode)
        requires
            supported_digital_modes(Self::spec_capabilities(), 4).len() > 0,
        ensures
            r == supported_digital_modes(Self::spec_capabilities(), 4)[0],
    {
        let modes = collect_digital_modes(Self::capabilities());
        modes[0]
    }

    /// The modes of digital interface which the hardware supports.
    fn create_digital_modes() -> (r: Vec<EfwDigitalMode>)
        ensures
            r@ == supported_digital_modes(Self::spec_capabilities(), 4),
    {
        collect_digital_modes(Self::capabilities())
    }
}

/// The request to get the mode of digital interface.
pub fn get_digital_mode_request() -> (r: EfwRequest)
    ensures
        r.category == CATEGORY_PORT_CONF,
        r.command == CMD_GET_DIG_MODE,
        r.args@ == Seq::<u32>::empty(),
        r.params_len == 1,
{
    EfwRequest { category: CATEGORY_PORT_CONF, command: CMD_GET_DIG_MODE, args: Vec::new(), params_len: 1 }
}

impl<O: EfwDigitalModeSpecification, P: EfwProtocolExtManual> EfwWhollyCachableParamsOperation<
    P,
    EfwDigitalMode,
> for O {
    open spec fn cache_acceptable(states: EfwDigitalMode) -> bool {
        supported_digital_modes(O::spec_capabilities(), 4).len() > 0
    }

    fn cache_wholly(proto: &mut P, states: &mut EfwDigitalMode, timeout_ms: u32) -> (r: Result<
        (),
        EfwError,
    >)
        ensures
            r.is_ok() ==> exists|p: Seq<u32>|
                #[trigger] old(proto).answered(CATEGORY_PORT_CONF, CMD_GET_DIG_MODE, Seq::<u32>::empty(), p)
                    && p.len() >= 1 && *final(states) == digital_mode_of(p[0]),
            r.is_err() ==> *final(states) == *old(states),
    {
        let req = get_digital_mode_request();
        let params = transact(proto, &req, timeout_ms)?;
        let val = param_at(params.as_slice(), 0)?;
        *states = deserialize_digital_mode(val);
        assert(old(proto).answered(CATEGORY_PORT_CONF, CMD_GET_DIG_MODE, Seq::<u32>::empty(), params@));
        Ok(())
    }
}

/// The request to set the mode of digital interface.
pub fn set_digital_mode_request(mode: &EfwDigitalMode) -> (r: EfwRequest)
    ensures
        r.category == CATEGORY_PORT_CONF,
        r.command == CMD_SET_DIG_MODE,
        r.args@ == seq![digital_mode_code(*mode)],
        r.params_len == 0,
{
    let mut val: u32 = 0;
    serialize_digital_mode(mode, &mut val);
    EfwRequest { category: CATEGORY_PORT_CONF, command: CMD_SET_DIG_MODE, args: vec![val], params_len: 0 }
}

impl<O: EfwDigitalModeSpecification, P: EfwProtocolExtManual> EfwWhollyUpdatableParamsOperation<
    P,
    EfwDigitalMode,
> for O {
    open spec fn update_acceptable(states: EfwDigitalMode) -> bool {
        supported_digital_modes(O::spec_capabilities(), 4).len() > 0
    }

    fn update_wholly(proto: &mut P, states: &EfwDigitalMode, timeout_ms: u32) -> (r: Result<(), EfwError>)
        ensures
            r.is_ok() ==> answered_request(
                &*old(proto),
                CATEGORY_PORT_CONF,
                CMD_SET_DIG_MODE,
                seq![digital_mode_code(*states)],
            ),
    {
        let req = set_digital_mode_request(states);
        let reply = transact(proto, &req, timeout_ms)?;
        proof {
            assert(old(proto).answered(CATEGORY_PORT_CONF, CMD_SET_DIG_MODE, req.args@, reply@));
        }
        Ok(())
    }
}

/// The parameters for phantom powering.
#[derive(Default, Debug, Copy, Clone, PartialEq, Eq, Structural)]
pub struct EfwPhantomPowering(pub bool);

/// The specification for phantom powering.
pub trait EfwPhantomPoweringSpecification: EfwHardwareSpecification {

}

/// The request to get phantom powering.
pub fn get_phantom_request() -> (r: EfwRequest)
    ensures
        r.category == CATEGORY_PORT_CONF,
        r.command == CMD_GET_PHANTOM,
        r.args@ == Seq::<u32>::empty(),
        r.params_len == 1,
{
    EfwRequest { category: CATEGORY_PORT_CONF, command: CMD_GET_PHANTOM, args: Vec::new(), params_len: 1 }
}

impl<O: EfwPhantomPoweringSpecification, P: EfwProtocolExtManual> EfwWhollyCachableParamsOperation<
    P,
    EfwPhantomPowering,
> for O {
    open spec fn cache_acceptable(states: EfwPhantomPowering) -> bool {
        true
    }

    fn cache_wholly(proto: &mut P, states: &mut EfwPhantomPowering, timeout_ms: u32) -> (r: Result<
        (),
        EfwError,
    >)
        ensures
            r.is_ok() ==> exists|p: Seq<u32>|
                #[trigger] old(proto).answered(CATEGORY_PORT_CONF, CMD_GET_PHANTOM, Seq::<u32>::empty(), p)
                    && p.len() >= 1 && final(states).0 == (p[0] > 0),
            r.is_err() ==> *final(states) == *old(states),
    {
        let req = get_phantom_request();
        let params = transact(proto, &req, timeout_ms)?;
        let val = param_at(params.as_slice(), 0)?;
        states.0 = val > 0;
        assert(old(proto).answered(CATEGORY_PORT_CONF, CMD_GET_PHANTOM, Seq::<u32>::empty(), params@));
        Ok(())
    }
}

/// The request to set phantom powering.
pub fn set_phantom_request(states: &EfwPhantomPowering) -> (r: EfwRequest)
    ensures
        r.category == CATEGORY_PORT_CONF,
        r.command == CMD_SET_PHANTOM,
        r.args@ == seq![if states.0 { 1u32 } else { 0u32 }],
        r.params_len == 0,
{
    let val: u32 = if states.0 { 1 } else { 0 };
    EfwRequest { category: CATEGORY_PORT_CONF, command: CMD_SET_PHANTOM, args: vec![val], params_len: 0 }
}

impl<O: EfwPhantomPoweringSpecification, P: EfwProtocolExtManual> EfwWhollyUpdatableParamsOperation<
    P,
    EfwPhantomPowering,
> for O {
    open spec fn update_acceptable(states: EfwPhantomPowering) -> bool {
        true
    }

    fn update_wholly(proto: &mut P, states: &EfwPhantomPowering, timeout_ms: u32) -> (r: Result<
        (),
        EfwError,
    >)
        ensures
            r.is_ok() ==> answered_request(
                &*old(proto),
                CATEGORY_PORT_CONF,
                CMD_SET_PHANTOM,
                seq![if states.0 { 1u32 } else { 0u32 }],
            ),
    {
        let req = set_phantom_request(states);
        let reply = transact(proto, &req, timeout_ms)?;
        proof {
            assert(old(proto).answered(CATEGORY_PORT_CONF, CMD_SET_PHANTOM, req.args@, reply@));
        }
        Ok(())
    }
}

/// Mapping between rx stream channel pairs and physical output channel pairs per mode of sampling
/// transfer frequency.
#[derive(Debug, Clone, PartialEq, Eq)]
pub struct EfwRxStreamMaps(pub Vec<Vec<usize>>);

/// The number of quadlets in the mapping of stream.
pub const MAP_SIZE: usize = 70;
/// The entry of mapping for no channel.
pub const MAP_ENTRY_UNABAILABLE: u32 = 0xffffffff;

/// The sampling rates of each mode of sampling transfer frequency.
pub open spec fn stream_mapping_rates(mode: int) -> Seq<u32> {
    if mode == 0 {
        seq![44100u32, 48000, 32000]
    } else if mode == 1 {
        seq![88200u32, 96000]
    } else {
        seq![176400u32, 192000]
    }
}

/// The specification of rx stream mapping.
pub trait EfwRxStreamMapsSpecification: EfwHardwareSpecification {
    /// The mappings with an entry for each channel of rx stream at each mode.
    fn create_rx_stream_maps() -> (r: EfwRxStreamMaps)
        ensures
            r.0@.len() == 3,
            forall|i: int| 0 <= i < 3 ==> #[trigger] r.0@[i]@ == Seq::new(Self::RX_CHANNEL_COUNTS[i] as nat, |j: int| 0usize),
    {
        let mut maps: Vec<Vec<usize>> = Vec::new();
        let mut i: usize = 0;
        while i < 3
            invariant
                i <= 3,
                maps@.len() == i,
                forall|k: int| 0 <= k < i ==> #[trigger] maps@[k]@ == Seq::new(Self::RX_CHANNEL_COUNTS[k] as nat, |j: int| 0usize),
            decreases 3 - i,
        {
            let map = vec![0usize; Self::RX_CHANNEL_COUNTS[i]];
            proof {
                assert(map@ =~= Seq::new(Self::RX_CHANNEL_COUNTS[i as int] as nat, |j: int| 0usize));
            }
            maps.push(map);
            i = i + 1;
        }
        EfwRxStreamMaps(maps)
    }
}

/// The first sampling rate of the mode.
fn first_stream_mapping_rate(mode: usize) -> (r: u32)
    requires
        mode < 3,
    ensures
        r == stream_mapping_rates(mode as int)[0],
{
    if mode == 0 {
        44100
    } else if mode == 1 {
        88200
    } else {
        176400
    }
}

/// The request to get the mapping of stream at the rate.
pub fn get_stream_map_request(rate: u32) -> (r: EfwRequest)
    ensures
        r.category == CATEGORY_PORT_CONF,
        r.command == CMD_GET_STREAM_MAP,
        r.args@ == seq![rate],
        r.params_len == MAP_SIZE,
{
    EfwRequest { category: CATEGORY_PORT_CONF, command: CMD_GET_STREAM_MAP, args: vec![rate], params_len: MAP_SIZE }
}

/// The mapping after taking it from the parameters of response: each entry within the parameters
/// is half of its quadlet after the header of four; the others are those before.
pub open spec fn stream_map_taken(before: Seq<usize>, params: Seq<u32>) -> Seq<usize> {
    Seq::new(
        before.len(),
        |j: int|
            if 4 + j < params.len() {
                (params[4 + j] / 2) as usize
            } else {
                before[j]
            },
    )
}

/// Whether the unit answered the request to get the mapping at the rate by parameters which give
/// the mapping after from the one before.
pub open spec fn stream_map_answered<P: EfwProtocolExtManual>(
    proto: &P,
    rate: u32,
    before: Seq<usize>,
    after: Seq<usize>,
) -> bool {
    exists|p: Seq<u32>|
        #[trigger] proto.answered(CATEGORY_PORT_CONF, CMD_GET_STREAM_MAP, seq![rate], p) && p.len() >= 4
            && after == stream_map_taken(before, p)
}

/// Take the mapping from the parameters of response after the header of four quadlets: each entry
/// is half of its quadlet; the entries beyond the parameters are left as they are.
pub fn parse_stream_map(map: &mut Vec<usize>, params: &[u32]) -> (r: Result<(), EfwError>)
    ensures
        r.is_ok() <==> params@.len() >= 4,
        final(map)@.len() == old(map)@.len(),
        forall|j: int|
            0 <= j < old(map)@.len() ==> #[trigger] final(map)@[j] == if r.is_ok() && 4 + j < params@.len() {
                (params@[4 + j] / 2) as usize
            } else {
                old(map)@[j]
            },
{
    if params.len() < 4 {
        return Err(EfwError::Protocol(
            crate::fireworks::EfwProtocolError::Incomplete,
            "Parameter is shorter than expected".to_owned(),
        ));
    }
    let count = if params.len() - 4 < map.len() {
        params.len() - 4
    } else {
        map.len()
    };
    let mut j: usize = 0;
    while j < count
        invariant
            j <= count,
            count <= map@.len(),
            count + 4 <= params@.len(),
            params@.len() == params.len(),
            count == if params@.len() - 4 < old(map)@.len() { (params@.len() - 4) as nat } else { old(map)@.len() },
            map@.len() == old(map)@.len(),
            forall|k: int| 0 <= k < j ==> #[trigger] map@[k] == (params@[4 + k] / 2) as usize,
            forall|k: int| j <= k < old(map)@.len() ==> #[trigger] map@[k] == old(map)@[k],
        decreases count - j,
    {
        map.set(j, (params[4 + j] / 2) as usize);
        j = j + 1;
    }
    Ok(())
}

impl<O: EfwRxStreamMapsSpecification, P: EfwProtocolExtManual> EfwWhollyCachableParamsOperation<
    P,
    EfwRxStreamMaps,
> for O {
    open spec fn cache_acceptable(states: EfwRxStreamMaps) -> bool {
        true
    }

    fn cache_wholly(proto: &mut P, states: &mut EfwRxStreamMaps, timeout_ms: u32) -> (r: Result<
        (),
        EfwError,
    >)
        ensures
            final(states).0@.len() == old(states).0@.len(),
            old(states).0@.len() == 0 ==> r.is_ok(),
            r.is_ok() ==> forall|m: int|
                0 <= m < 3 && m < old(states).0@.len() ==> stream_map_answered(
                    &*old(proto),
                    stream_mapping_rates(m)[0],
                    old(states).0@[m]@,
                    #[trigger] final(states).0@[m]@,
                ),
    {
        let count = if states.0.len() < 3 {
            states.0.len()
        } else {
            3
        };
        let mut i: usize = 0;
        while i < count
            invariant
                i <= count,
                count <= 3,
                count <= states.0@.len(),
                states.0@.len() == old(states).0@.len(),
                count == if old(states).0@.len() < 3 { old(states).0@.len() } else { 3 },
                *proto == *old(proto),
                forall|m: int| i <= m < states.0@.len() ==> #[trigger] states.0@[m] == old(states).0@[m],
                forall|m: int|
                    0 <= m < i ==> stream_map_answered(
                        &*old(proto),
                        stream_mapping_rates(m)[0],
                        old(states).0@[m]@,
                        #[trigger] states.0@[m]@,
                    ),
            decreases count - i,
        {
            let req = get_stream_map_request(first_stream_mapping_rate(i));
            let params = transact(proto, &req, timeout_ms)?;
            let ghost prev = states.0@;
            let mut map = states.0.remove(i);
            let ghost before = map@;
            let r = parse_stream_map(&mut map, params.as_slice());
            states.0.insert(i, map);
            proof {
                assert(states.0@ =~= prev.update(i as int, map));
                assert forall|m: int| i < m < states.0@.len() implies #[trigger] states.0@[m] == old(states).0@[m] by {
                    assert(states.0@[m] == prev[m]);
                }
                assert forall|m: int|
                    0 <= m < i implies stream_map_answered(
                        &*old(proto),
                        stream_mapping_rates(m)[0],
                        old(states).0@[m]@,
                        #[trigger] states.0@[m]@,
                    ) by {
                    assert(states.0@[m] == prev[m]);
                }
                if r.is_ok() {
                    assert(before == old(states).0@[i as int]@);
                    assert(map@ =~= stream_map_taken(before, params@));
                    assert(old(proto).answered(CATEGORY_PORT_CONF, CMD_GET_STREAM_MAP, seq![stream_mapping_rates(i as int)[0]], params@));
                    assert(stream_map_answered(&*old(proto), stream_mapping_rates(i as int)[0], before, map@));
                }
            }
            r?;
            i = i + 1;
        }
        Ok(())
    }
}

/// The arguments to set the mapping at the rate: the rate, zero in place of clock source, the
/// halves of the numbers of channels in rx stream and physical outputs, the entries for rx stream,
/// the halves of the numbers of channels in tx stream and physical inputs, and the entries for tx
/// stream; each entry is unavailable, but the first ones which are twice the entries of the
/// mapping, in the order.
pub open spec fn stream_map_args(rate: u32, rx: usize, outs: usize, tx: usize, ins: usize, map: Seq<usize>) -> Seq<u32> {
    Seq::new(
        MAP_SIZE as nat,
        |k: int|
            if 4 <= k < 4 + map.len() {
                (map[k - 4] * 2) as u32
            } else if k == 0 {
                rate
            } else if k == 1 {
                0u32
            } else if k == 2 {
                (rx / 2) as u32
            } else if k == 3 {
                (outs / 2) as u32
            } else if k == 36 {
                (tx / 2) as u32
            } else if k == 37 {
                (ins / 2) as u32
            } else {
                MAP_ENTRY_UNABAILABLE
            },
    )
}

/// Whether twice each entry of the mapping which goes in the arguments is computed without
/// overflow.
pub open spec fn stream_map_fits(map: Seq<usize>) -> bool {
    forall|j: int| 0 <= j < map.len() && j < MAP_SIZE - 4 ==> #[trigger] map[j] * 2 <= usize::MAX
}

/// Whether the unit answered the request to set the mapping at the first rate of the mode, with
/// the numbers of channels of the streams and of the physical outputs and inputs.
pub open spec fn stream_map_sent<P: EfwProtocolExtManual>(
    proto: &P,
    outputs: Seq<(PhysGroupType, usize)>,
    inputs: Seq<(PhysGroupType, usize)>,
    mode: int,
    rx: usize,
    tx: usize,
    map: Seq<usize>,
) -> bool {
    answered_request(
        proto,
        CATEGORY_PORT_CONF,
        CMD_SET_STREAM_MAP,
        stream_map_args(
            stream_mapping_rates(mode)[0],
            rx,
            saturated(group_total(outputs, None)) as usize,
            tx,
            saturated(group_total(inputs, None)) as usize,
            map.take(if map.len() < MAP_SIZE - 4 { map.len() as int } else { MAP_SIZE - 4 }),
        ),
    )
}

/// The request to set the mapping at the rate.
pub fn set_stream_map_request(rate: u32, rx: usize, outs: usize, tx: usize, ins: usize, map: &[usize]) -> (r: EfwRequest)
    requires
        stream_map_fits(map@),
    ensures
        r.category == CATEGORY_PORT_CONF,
        r.command == CMD_SET_STREAM_MAP,
        r.args@ == stream_map_args(rate, rx, outs, tx, ins, map@.take(if map@.len() < MAP_SIZE - 4 { map@.len() as int } else { MAP_SIZE - 4 })),
        r.params_len == 0,
{
    let mut args = vec![MAP_ENTRY_UNABAILABLE; MAP_SIZE];
    args.set(0, rate);
    args.set(1, 0);
    args.set(2, (rx / 2) as u32);
    args.set(3, (outs / 2) as u32);
    args.set(36, (tx / 2) as u32);
    args.set(37, (ins / 2) as u32);
    let count = if map.len() < MAP_SIZE - 4 {
        map.len()
    } else {
        MAP_SIZE - 4
    };
    let ghost header = args@;
    let mut j: usize = 0;
    while j < count
        invariant
            j <= count,
            count <= map@.len(),
            count <= MAP_SIZE - 4,
            stream_map_fits(map@),
            args@.len() == MAP_SIZE,
            header.len() == MAP_SIZE,
            forall|k: int| 0 <= k < MAP_SIZE && !(4 <= k < 4 + j) ==> #[trigger] args@[k] == header[k],
            forall|k: int| 4 <= k < 4 + j ==> #[trigger] args@[k] == (map@[k - 4] * 2) as u32,
        decreases count - j,
    {
        args.set(4 + j, (map[j] * 2) as u32);
        j = j + 1;
    }
    proof {
        let m = map@.take(count as int);
        assert(args@ =~= stream_map_args(rate, rx, outs, tx, ins, m));
    }
    EfwRequest { category: CATEGORY_PORT_CONF, command: CMD_SET_STREAM_MAP, args, params_len: 0 }
}

/// Each mapping to update has as many entries as the cached one, and its entries fit in the
/// arguments.
pub open spec fn stream_maps_acceptable(states: Seq<Vec<usize>>, updates: Seq<Vec<usize>>) -> bool {
    forall|i: int|
        0 <= i < 3 && i < states.len() && i < updates.len() ==> #[trigger] stream_map_acceptable(
            states[i],
            updates[i],
        )
}

/// The mapping to update has as many entries as the cached one, and its entries fit in the
/// arguments.
pub open spec fn stream_map_acceptable(state: Vec<usize>, update: Vec<usize>) -> bool {
    state@.len() == update@.len() && stream_map_fits(update@)
}

/// Replacing a cached mapping by a copy of its update keeps the mappings acceptable.
proof fn lemma_stream_maps_update(states: Seq<Vec<usize>>, updates: Seq<Vec<usize>>, i: int, v: Vec<usize>)
    requires
        stream_maps_acceptable(states, updates),
        0 <= i < states.len(),
        i < updates.len(),
        v@ == updates[i]@,
    ensures
        stream_maps_acceptable(states.update(i, v), updates),
{
    let t = states.update(i, v);
    assert forall|k: int| 0 <= k < 3 && k < t.len() && k < updates.len() implies #[trigger] stream_map_acceptable(
        t[k],
        updates[k],
    ) by {
        assert(stream_map_acceptable(states[k], updates[k]));
    }
}

/// A copy of the mapping.
pub fn copy_map(map: &[usize]) -> (r: Vec<usize>)
    ensures
        r@ == map@,
{
    let mut r: Vec<usize> = Vec::new();
    let mut i: usize = 0;
    while i < map.len()
        invariant
            i <= map@.len(),
            r@ == map@.take(i as int),
        decreases map@.len() - i,
    {
        r.push(map[i]);
        i = i + 1;
        proof {
            assert(r@ =~= map@.take(i as int));
        }
    }
    proof {
        assert(map@.take(map@.len() as int) =~= map@);
    }
    r
}

/// Whether the mappings have the same entries.
pub fn same_map(a: &[usize], b: &[usize]) -> (r: bool)
    ensures
        r == (a@ == b@),
{
    if a.len() != b.len() {
        return false;
    }
    let mut i: usize = 0;
    while i < a.len()
        invariant
            i <= a@.len(),
            a@.len() == b@.len(),
            forall|k: int| 0 <= k < i ==> a@[k] == b@[k],
        decreases a@.len() - i,
    {
        if a[i] != b[i] {
            return false;
        }
        i = i + 1;
    }
    proof {
        assert(a@ =~= b@);
    }
    true
}

impl<O: EfwRxStreamMapsSpecification, P: EfwProtocolExtManual> EfwPartiallyUpdatableParamsOperation<
    P,
    EfwRxStreamMaps,
> for O {
    open spec fn partial_update_acceptable(states: EfwRxStreamMaps, updates: EfwRxStreamMaps) -> bool {
        stream_maps_acceptable(states.0@, updates.0@)
    }

    fn update_partially(
        proto: &mut P,
        states: &mut EfwRxStreamMaps,
        updates: EfwRxStreamMaps,
        timeout_ms: u32,
    ) -> (r: Result<(), EfwError>)
        ensures
            final(states).0@.len() == old(states).0@.len(),
            r.is_ok() ==> forall|i: int|
                0 <= i < 3 && i < old(states).0@.len() && i < updates.0@.len() ==> (#[trigger] final(states).0@[i])@
                    == updates.0@[i]@,
            (forall|i: int|
                0 <= i < 3 && i < old(states).0@.len() && i < updates.0@.len() ==> (#[trigger] old(states).0@[i])@
                    == updates.0@[i]@) ==> r.is_ok() && final(states).0@ == old(states).0@,
            r.is_ok() ==> forall|i: int|
                0 <= i < 3 && i < old(states).0@.len() && i < updates.0@.len() && (#[trigger] old(states).0@[i])@
                    != updates.0@[i]@ ==> stream_map_sent(&*old(proto), O::spec_phys_output_groups(), O::spec_phys_input_groups(), i, O::RX_CHANNEL_COUNTS[i], O::TX_CHANNEL_COUNTS[i], updates.0@[i]@),
    {
        let ghost all_same = forall|i: int|
            0 <= i < 3 && i < old(states).0@.len() && i < updates.0@.len() ==> (#[trigger] old(states).0@[i])@
                == updates.0@[i]@;
        let mut count = if states.0.len() < updates.0.len() {
            states.0.len()
        } else {
            updates.0.len()
        };
        if count > 3 {
            count = 3;
        }
        assert(stream_maps_acceptable(old(states).0@, updates.0@));
        let outs = O::phys_output_count();
        let ins = O::phys_input_count();
        let mut i: usize = 0;
        while i < count
            invariant
                i <= count,
                count <= 3,
                count <= states.0@.len(),
                count <= updates.0@.len(),
                count == if old(states).0@.len() < updates.0@.len() {
                    if old(states).0@.len() < 3 { old(states).0@.len() } else { 3 }
                } else {
                    if updates.0@.len() < 3 { updates.0@.len() as nat } else { 3 }
                },
                states.0@.len() == old(states).0@.len(),
                stream_maps_acceptable(states.0@, updates.0@),
                forall|k: int| 0 <= k < i ==> (#[trigger] states.0@[k])@ == updates.0@[k]@,
                all_same == forall|k: int|
                    0 <= k < 3 && k < old(states).0@.len() && k < updates.0@.len() ==> (#[trigger] old(states).0@[k])@
                        == updates.0@[k]@,
                all_same ==> states.0@ == old(states).0@,
                *proto == *old(proto),
                outs == saturated(group_total(O::spec_phys_output_groups(), None)),
                ins == saturated(group_total(O::spec_phys_input_groups(), None)),
                forall|k: int| i <= k < states.0@.len() ==> #[trigger] states.0@[k] == old(states).0@[k],
                forall|k: int|
                    0 <= k < i && (#[trigger] old(states).0@[k])@ != updates.0@[k]@ ==> stream_map_sent(
                        &*old(proto),
                        O::spec_phys_output_groups(),
                        O::spec_phys_input_groups(),
                        k,
                        O::RX_CHANNEL_COUNTS[k],
                        O::TX_CHANNEL_COUNTS[k],
                        updates.0@[k]@,
                    ),
            decreases count - i,
        {
            assert(stream_map_acceptable(states.0@[i as int], updates.0@[i as int]));
            if !same_map(states.0[i].as_slice(), updates.0[i].as_slice()) {
                proof {
                    if all_same {
                        assert(old(states).0@[i as int]@ == updates.0@[i as int]@);
                    }
                }
                let req = set_stream_map_request(
                    first_stream_mapping_rate(i),
                    O::RX_CHANNEL_COUNTS[i],
                    outs,
                    O::TX_CHANNEL_COUNTS[i],
                    ins,
                    updates.0[i].as_slice(),
                );
                let reply = transact(proto, &req, timeout_ms)?;
                let ghost prev = states.0@;
                assert(stream_maps_acceptable(prev, updates.0@));
                let _ = states.0.remove(i);
                states.0.insert(i, copy_map(updates.0[i].as_slice()));
                proof {
                    assert(states.0@ =~= prev.update(i as int, states.0@[i as int]));
                    lemma_stream_maps_update(prev, updates.0@, i as int, states.0@[i as int]);
                    assert(old(proto).answered(CATEGORY_PORT_CONF, CMD_SET_STREAM_MAP, req.args@, reply@));
                    assert(stream_map_sent(
                        &*old(proto),
                        O::spec_phys_output_groups(),
                        O::spec_phys_input_groups(),
                        i as int,
                        O::RX_CHANNEL_COUNTS[i as int],
                        O::TX_CHANNEL_COUNTS[i as int],
                        updates.0@[i as int]@,
                    ));
                    assert forall|k: int| i < k < states.0@.len() implies #[trigger] states.0@[k] == old(states).0@[k] by {
                        assert(states.0@[k] == prev[k]);
                    }
                }
            } else {
                proof {
                    assert(states.0@[i as int]@ == updates.0@[i as int]@);
                }
            }
            i = i + 1;
        }
        Ok(())
    }
}

} // verus!
