//! Protocol about physical input.
//!
//! The module includes protocol about physical input defined by Echo Audio Digital Corporation for
//! Fireworks board module.

use crate::fireworks::phys_output::saturated;
use crate::fireworks::{
    store_reply, no_update_needed, channel_request_is, answered_request, answered_nominal, channel_read_requests, channel_write_requests, write_requests_are, nominal_codes, nominal_signal_level_code, lemma_nominal_signal_level_roundtrip,
    count_group_channels, deserialize_nominal_signal_level, group_total,
    nominal_signal_level_of, param_at, serialize_nominal_signal_level, transact, EfwError,
    EfwHardwareSpecification, EfwPartiallyUpdatableParamsOperation, EfwProtocolExtManual,
    EfwRequest, EfwWhollyCachableParamsOperation, NominalSignalLevel, PhysGroupType,
};
use vstd::prelude::*;

verus! {

/// The category of commands for physical input.
pub const CATEGORY_PHYS_INPUT: u32 = 5;

/// The command to set nominal level.
pub const CMD_SET_NOMINAL: u32 = 8;
/// The command to get nominal level.
pub const CMD_GET_NOMINAL: u32 = 9;

/// The parameters of physical inputs.
#[derive(Default, Debug, Clone, PartialEq, Eq)]
pub struct EfwPhysInputParameters {
    /// The nominal signal level of physical input.
    pub nominals: Vec<NominalSignalLevel>,
}

/// The request of the command for the physical input, with the value.
pub fn phys_input_request(command: u32, ch: usize, value: u32) -> (r: EfwRequest)
    ensures
        r.category == CATEGORY_PHYS_INPUT,
        r.command == command,
        r.args@ == seq![ch as u32, value],
        r.params_len == 2,
{
    EfwRequest { category: CATEGORY_PHYS_INPUT, command, args: vec![ch as u32, value], params_len: 2 }
}

/// The nominal level in the parameters of response.
pub fn parse_phys_input_nominal(params: &[u32]) -> (r: Result<NominalSignalLevel, EfwError>)
    ensures
        r.is_ok() <==> params@.len() > 1,
        r.is_ok() ==> r == Ok::<NominalSignalLevel, EfwError>(nominal_signal_level_of(params@[1])),
{
    let val = param_at(params, 1)?;
    let mut level = NominalSignalLevel::Professional;
    deserialize_nominal_signal_level(&mut level, val);
    Ok(level)
}

/// Cache the nominal level of each channel in order, up to the first failure.
pub fn cache_phys_input_nominals<P: EfwProtocolExtManual>(proto: &P, vals: &mut Vec<NominalSignalLevel>, timeout_ms: u32) -> (r: Result<
    (),
    EfwError,
>)
    ensures
        final(vals)@.len() == old(vals)@.len(),
        old(vals)@.len() == 0 ==> r.is_ok() && final(vals)@ == old(vals)@,
        forall|c: int|
            0 <= c < old(vals)@.len() ==> #[trigger] final(vals)@[c] == old(vals)@[c] || answered_nominal(
                proto,
                CATEGORY_PHYS_INPUT,
                CMD_GET_NOMINAL,
                seq![c as u32, 0u32],
                1,
                final(vals)@[c],
            ),
        r.is_ok() ==> forall|c: int|
            0 <= c < old(vals)@.len() ==> answered_nominal(proto, CATEGORY_PHYS_INPUT, CMD_GET_NOMINAL, seq![c as u32, 0u32], 1, #[trigger] final(vals)@[c]),
{
    let mut others: Vec<u32> = Vec::new();
    others.push(0);
    proof {
        assert(others@ =~= seq![0u32]);
    }
    let reqs = channel_read_requests(CATEGORY_PHYS_INPUT, CMD_GET_NOMINAL, others.as_slice(), vals.len(), 2);
    let mut ch: usize = 0;
    while ch < vals.len()
        invariant
            ch <= vals@.len(),
            vals@.len() == old(vals)@.len(),
            reqs@.len() == vals@.len(),
            ch == 0 ==> vals@ == old(vals)@,
            forall|c: int| 0 <= c < reqs@.len() ==> channel_request_is(#[trigger] reqs@[c], CATEGORY_PHYS_INPUT, CMD_GET_NOMINAL, c, seq![0u32], 2),
            forall|c: int|
                0 <= c < vals@.len() ==> #[trigger] vals@[c] == old(vals)@[c] || answered_nominal(
                    proto,
                    CATEGORY_PHYS_INPUT,
                    CMD_GET_NOMINAL,
                    seq![c as u32, 0u32],
                    1,
                    vals@[c],
                ),
            forall|c: int| 0 <= c < ch ==> answered_nominal(proto, CATEGORY_PHYS_INPUT, CMD_GET_NOMINAL, seq![c as u32, 0u32], 1, #[trigger] vals@[c]),
        decreases vals@.len() - ch,
    {
        let params = transact(proto, &reqs[ch], timeout_ms)?;
        let ghost prev = vals@;
        store_reply(vals, ch, parse_phys_input_nominal(params.as_slice()))?;
        proof {
            assert(reqs@[ch as int].args@ =~= seq![ch as u32, 0u32]);
            assert(proto.answered(CATEGORY_PHYS_INPUT, CMD_GET_NOMINAL, seq![ch as u32, 0u32], params@));
            assert(answered_nominal(proto, CATEGORY_PHYS_INPUT, CMD_GET_NOMINAL, seq![ch as u32, 0u32], 1, vals@[ch as int]));
            assert forall|c: int| 0 <= c < vals@.len() && c != ch implies #[trigger] vals@[c] == prev[c] by {}
        }
        ch = ch + 1;
    }
    Ok(())
}

/// Update the nominal level of each channel which differs from the update, in order, up to the first
/// failure; the channels beyond the shorter of both are left as they are.
pub fn update_phys_input_nominals<P: EfwProtocolExtManual>(proto: &P, vals: &mut Vec<NominalSignalLevel>, updates: &[NominalSignalLevel], timeout_ms: u32) -> (r: Result<
    (),
    EfwError,
>)
    ensures
        final(vals)@.len() == old(vals)@.len(),
        forall|i: int|
            0 <= i < old(vals)@.len() ==> #[trigger] final(vals)@[i] == old(vals)@[i] || (i
                < updates@.len() && final(vals)@[i] == updates@[i] && answered_request(proto, CATEGORY_PHYS_INPUT, CMD_SET_NOMINAL, seq![i as u32, nominal_signal_level_code(updates@[i])])),
        r.is_ok() ==> forall|i: int|
            0 <= i < old(vals)@.len() && i < updates@.len() ==> #[trigger] final(vals)@[i]
                == updates@[i],
        no_update_needed(old(vals)@, updates@) ==> r.is_ok() && final(vals)@ == old(vals)@,
        r.is_ok() ==> forall|i: int|
            0 <= i < old(vals)@.len() && i < updates@.len() && old(vals)@[i] != #[trigger] updates@[i] ==> answered_request(proto, CATEGORY_PHYS_INPUT, CMD_SET_NOMINAL, seq![i as u32, nominal_signal_level_code(updates@[i])]),
{
    let olds = nominal_codes(vals.as_slice());
    let news = nominal_codes(updates);
    let others: Vec<u32> = Vec::new();
    proof {
        assert(others@ =~= Seq::<u32>::empty());
    }
    let reqs = channel_write_requests(CATEGORY_PHYS_INPUT, CMD_SET_NOMINAL, others.as_slice(), olds.as_slice(), news.as_slice(), 2);
    proof {
        if no_update_needed(old(vals)@, updates@) && reqs@.len() > 0 {
            let c = reqs@[0].0 as int;
            assert(olds@[c] != news@[c]);
            assert(old(vals)@[c] == updates@[c]);
        }
    }
    let mut k: usize = 0;
    while k < reqs.len()
        invariant
            k <= reqs@.len(),
            write_requests_are(reqs@, CATEGORY_PHYS_INPUT, CMD_SET_NOMINAL, Seq::<u32>::empty(), olds@, news@, 2),
            olds@.len() == old(vals)@.len(),
            news@.len() == updates@.len(),
            forall|i: int| 0 <= i < olds@.len() ==> #[trigger] olds@[i] == nominal_signal_level_code(old(vals)@[i]),
            forall|i: int| 0 <= i < news@.len() ==> #[trigger] news@[i] == nominal_signal_level_code(updates@[i]),
            reqs@.len() > 0 ==> !no_update_needed(old(vals)@, updates@),
            vals@.len() == old(vals)@.len(),
            k == 0 ==> vals@ == old(vals)@,
            forall|i: int|
                0 <= i < old(vals)@.len() ==> #[trigger] vals@[i] == old(vals)@[i] || (i
                    < updates@.len() && vals@[i] == updates@[i] && answered_request(proto, CATEGORY_PHYS_INPUT, CMD_SET_NOMINAL, seq![i as u32, nominal_signal_level_code(updates@[i])])),
            forall|j: int|
                0 <= j < k ==> vals@[(#[trigger] reqs@[j]).0 as int] == updates@[reqs@[j].0 as int] && answered_request(proto, CATEGORY_PHYS_INPUT, CMD_SET_NOMINAL, seq![reqs@[j].0 as int as u32, nominal_signal_level_code(updates@[reqs@[j].0 as int])]),
        decreases reqs@.len() - k,
    {
        let ch = reqs[k].0;
        let reply = transact(proto, &reqs[k].1, timeout_ms)?;
        let ghost prev = vals@;
        vals.set(ch, updates[ch]);
        proof {
            assert(reqs@[k as int].1.args@ =~= seq![ch as int as u32, nominal_signal_level_code(updates@[ch as int])]);
            assert(proto.answered(CATEGORY_PHYS_INPUT, CMD_SET_NOMINAL, seq![ch as int as u32, nominal_signal_level_code(updates@[ch as int])], reply@));
            assert(answered_request(proto, CATEGORY_PHYS_INPUT, CMD_SET_NOMINAL, seq![ch as int as u32, nominal_signal_level_code(updates@[ch as int])]));
            assert forall|j: int| 0 <= j < k + 1 implies vals@[(#[trigger] reqs@[j]).0 as int]
                == updates@[reqs@[j].0 as int] && answered_request(proto, CATEGORY_PHYS_INPUT, CMD_SET_NOMINAL, seq![reqs@[j].0 as int as u32, nominal_signal_level_code(updates@[reqs@[j].0 as int])]) by {
                if j < k {
                    assert(prev[reqs@[j].0 as int] == updates@[reqs@[j].0 as int]);
                }
            }
        }
        k = k + 1;
    }
    proof {
        assert forall|i: int|
            0 <= i < old(vals)@.len() && i < updates@.len() implies #[trigger] vals@[i]
                == updates@[i] by {
            if old(vals)@[i] != updates@[i] {
                lemma_nominal_signal_level_roundtrip(old(vals)@[i]);
                    lemma_nominal_signal_level_roundtrip(updates@[i]);
                assert(olds@[i] != news@[i]);
                let j = choose|j: int| 0 <= j < reqs@.len() && #[trigger] reqs@[j].0 == i;
                assert(vals@[reqs@[j].0 as int] == updates@[reqs@[j].0 as int]);
            }
        }
        assert forall|i: int|
            0 <= i < old(vals)@.len() && i < updates@.len() && old(vals)@[i] != #[trigger] updates@[i] implies answered_request(proto, CATEGORY_PHYS_INPUT, CMD_SET_NOMINAL, seq![i as u32, nominal_signal_level_code(updates@[i])]) by {
            lemma_nominal_signal_level_roundtrip(old(vals)@[i]);
                lemma_nominal_signal_level_roundtrip(updates@[i]);
            assert(olds@[i] != news@[i]);
            let j = choose|j: int| 0 <= j < reqs@.len() && #[trigger] reqs@[j].0 == i;
            assert(answered_request(proto, CATEGORY_PHYS_INPUT, CMD_SET_NOMINAL, seq![reqs@[j].0 as int as u32, nominal_signal_level_code(updates@[reqs@[j].0 as int])]));
        }
    }
    Ok(())
}

/// The specification of physical input.
pub trait EfwPhysInputSpecification: EfwHardwareSpecification {
    /// The number of analog channels of physical input.
    fn phys_analog_input_count() -> (r: usize)
        ensures
            r == saturated(group_total(Self::spec_phys_input_groups(), Some(PhysGroupType::Analog))),
    {
        count_group_channels(Self::phys_input_groups(), Some(PhysGroupType::Analog))
    }

    /// The parameters with the nominal level for each analog channel.
    fn create_phys_input_parameters() -> (r: EfwPhysInputParameters)
        ensures
            r.nominals@ == Seq::new(
                saturated(group_total(Self::spec_phys_input_groups(), Some(PhysGroupType::Analog))),
                |i: int| NominalSignalLevel::Professional,
            ),
    {
        let nominals = vec![NominalSignalLevel::Professional; Self::phys_analog_input_count()];
        proof {
            assert(nominals@ =~= Seq::new(
                saturated(group_total(Self::spec_phys_input_groups(), Some(PhysGroupType::Analog))),
                |i: int| NominalSignalLevel::Professional,
            ));
        }
        EfwPhysInputParameters { nominals }
    }
}

impl<O: EfwPhysInputSpecification, P: EfwProtocolExtManual> EfwWhollyCachableParamsOperation<
    P,
    EfwPhysInputParameters,
> for O {
    open spec fn cache_acceptable(states: EfwPhysInputParameters) -> bool {
        states.nominals@.len() == saturated(group_total(O::spec_phys_input_groups(), Some(PhysGroupType::Analog)))
    }

    fn cache_wholly(proto: &mut P, states: &mut EfwPhysInputParameters, timeout_ms: u32) -> (r: Result<
        (),
        EfwError,
    >)
        ensures
            final(states).nominals@.len() == old(states).nominals@.len(),
            old(states).nominals@.len() == 0 ==> r.is_ok(),
            r.is_ok() ==> forall|c: int|
                0 <= c < final(states).nominals@.len() ==> answered_nominal(&*old(proto), CATEGORY_PHYS_INPUT, CMD_GET_NOMINAL, seq![c as u32, 0u32], 1, #[trigger] final(states).nominals@[c]),
    {
        cache_phys_input_nominals(proto, &mut states.nominals, timeout_ms)
    }
}

impl<O: EfwPhysInputSpecification, P: EfwProtocolExtManual> EfwPartiallyUpdatableParamsOperation<
    P,
    EfwPhysInputParameters,
> for O {
    open spec fn partial_update_acceptable(states: EfwPhysInputParameters, updates: EfwPhysInputParameters) -> bool {
        &&& states.nominals@.len() == saturated(group_total(O::spec_phys_input_groups(), Some(PhysGroupType::Analog)))
        &&& updates.nominals@.len() == saturated(group_total(O::spec_phys_input_groups(), Some(PhysGroupType::Analog)))
    }

    fn update_partially(
        proto: &mut P,
        states: &mut EfwPhysInputParameters,
        updates: EfwPhysInputParameters,
        timeout_ms: u32,
    ) -> (r: Result<(), EfwError>)
        ensures
            r.is_ok() ==> final(states).nominals@ == updates.nominals@,
            no_update_needed(old(states).nominals@, updates.nominals@) ==> r.is_ok()
                && final(states).nominals@ == old(states).nominals@,
            r.is_ok() ==> forall|i: int|
                0 <= i < old(states).nominals@.len() && i < updates.nominals@.len() && old(states).nominals@[i] != #[trigger] updates.nominals@[i]
                    ==> answered_request(&*old(proto), CATEGORY_PHYS_INPUT, CMD_SET_NOMINAL, seq![i as u32, nominal_signal_level_code(updates.nominals@[i])]),
    {
        update_phys_input_nominals(proto, &mut states.nominals, updates.nominals.as_slice(), timeout_ms)?;
        proof {
            assert(states.nominals@ =~= updates.nominals@);
        }
        Ok(())
    }
}

} // verus!
