//! Protocol about physical output.
//!
//! The module includes protocol about physical output defined by Echo Audio Digital Corporation for
//! Fireworks board module.

use crate::fireworks::{
    store_reply, no_update_needed, channel_request_is, answered_request, answered_i32, answered_switch, answered_nominal, channel_read_requests, channel_write_requests, write_requests_are, i32_codes, bool_codes, nominal_codes, lemma_i32_code_injective, nominal_signal_level_code, lemma_nominal_signal_level_roundtrip,
    count_group_channels, deserialize_nominal_signal_level, group_total,
    nominal_signal_level_of, param_at, serialize_nominal_signal_level, transact, EfwError,
    EfwHardwareSpecification, EfwPartiallyUpdatableParamsOperation, EfwProtocolExtManual,
    EfwRequest, EfwWhollyCachableParamsOperation, NominalSignalLevel, PhysGroupType,
};
use vstd::prelude::*;

verus! {

/// The category of commands for physical output.
pub const CATEGORY_PHYS_OUTPUT: u32 = 4;

/// The command to set volume.
pub const CMD_SET_VOL: u32 = 0;
/// The command to get volume.
pub const CMD_GET_VOL: u32 = 1;
/// The command to set mute.
pub const CMD_SET_MUTE: u32 = 2;
/// The command to get mute.
pub const CMD_GET_MUTE: u32 = 3;
/// The command to set nominal level.
pub const CMD_SET_NOMINAL: u32 = 8;
/// The command to get nominal level.
pub const CMD_GET_NOMINAL: u32 = 9;

/// The parameters of all outputs.
#[derive(Debug, Clone, PartialEq, Eq)]
pub struct EfwOutputParameters {
    /// The volume of physical output. The value is unsigned fixed-point number of 8.24 format;
    /// i.e. Q24. It is 0x00000000..0x02000000 for -144.0..+6.0 dB.
    pub volumes: Vec<i32>,
    /// Whether to mute the physical output.
    pub mutes: Vec<bool>,
}

/// The number up to the maximum of `usize`.
pub open spec fn saturated(n: nat) -> nat {
    if n <= usize::MAX {
        n
    } else {
        usize::MAX as nat
    }
}

/// The request of the command for the physical output, with the value.
pub fn phys_output_request(command: u32, ch: usize, value: u32) -> (r: EfwRequest)
    ensures
        r.category == CATEGORY_PHYS_OUTPUT,
        r.command == command,
        r.args@ == seq![ch as u32, value],
        r.params_len == 2,
{
    EfwRequest { category: CATEGORY_PHYS_OUTPUT, command, args: vec![ch as u32, value], params_len: 2 }
}

/// The volume in the parameters of response.
pub fn parse_phys_output_volume(params: &[u32]) -> (r: Result<i32, EfwError>)
    ensures
        r.is_ok() <==> params@.len() > 1,
        r.is_ok() ==> r == Ok::<i32, EfwError>(params@[1] as i32),
{
    let val = param_at(params, 1)?;
    Ok(val as i32)
}

/// The mute in the parameters of response.
pub fn parse_phys_output_mute(params: &[u32]) -> (r: Result<bool, EfwError>)
    ensures
        r.is_ok() <==> params@.len() > 1,
        r.is_ok() ==> r == Ok::<bool, EfwError>(params@[1] > 0),
{
    let val = param_at(params, 1)?;
    Ok(val > 0)
}

/// The nominal level in the parameters of response.
pub fn parse_phys_output_nominal(params: &[u32]) -> (r: Result<NominalSignalLevel, EfwError>)
    ensures
        r.is_ok() <==> params@.len() > 1,
        r.is_ok() ==> r == Ok::<NominalSignalLevel, EfwError>(nominal_signal_level_of(params@[1])),
{
    let val = param_at(params, 1)?;
    let mut level = NominalSignalLevel::Professional;
    deserialize_nominal_signal_level(&mut level, val);
    Ok(level)
}

/// Cache the volume of each channel in order, up to the first failure.
pub fn cache_phys_output_volumes<P: EfwProtocolExtManual>(proto: &P, vals: &mut Vec<i32>, timeout_ms: u32) -> (r: Result<
    (),
    EfwError,
>)
    ensures
        final(vals)@.len() == old(vals)@.len(),
        old(vals)@.len() == 0 ==> r.is_ok() && final(vals)@ == old(vals)@,
        forall|c: int|
            0 <= c < old(vals)@.len() ==> #[trigger] final(vals)@[c] == old(vals)@[c] || answered_i32(
                proto,
                CATEGORY_PHYS_OUTPUT,
                CMD_GET_VOL,
                seq![c as u32, 0u32],
                1,
                final(vals)@[c],
            ),
        r.is_ok() ==> forall|c: int|
            0 <= c < old(vals)@.len() ==> answered_i32(proto, CATEGORY_PHYS_OUTPUT, CMD_GET_VOL, seq![c as u32, 0u32], 1, #[trigger] final(vals)@[c]),
{
    let mut others: Vec<u32> = Vec::new();
    others.push(0);
    proof {
        assert(others@ =~= seq![0u32]);
    }
    let reqs = channel_read_requests(CATEGORY_PHYS_OUTPUT, CMD_GET_VOL, others.as_slice(), vals.len(), 2);
    let mut ch: usize = 0;
    while ch < vals.len()
        invariant
            ch <= vals@.len(),
            vals@.len() == old(vals)@.len(),
            reqs@.len() == vals@.len(),
            ch == 0 ==> vals@ == old(vals)@,
            forall|c: int| 0 <= c < reqs@.len() ==> channel_request_is(#[trigger] reqs@[c], CATEGORY_PHYS_OUTPUT, CMD_GET_VOL, c, seq![0u32], 2),
            forall|c: int|
                0 <= c < vals@.len() ==> #[trigger] vals@[c] == old(vals)@[c] || answered_i32(
                    proto,
                    CATEGORY_PHYS_OUTPUT,
                    CMD_GET_VOL,
                    seq![c as u32, 0u32],
                    1,
                    vals@[c],
                ),
            forall|c: int| 0 <= c < ch ==> answered_i32(proto, CATEGORY_PHYS_OUTPUT, CMD_GET_VOL, seq![c as u32, 0u32], 1, #[trigger] vals@[c]),
        decreases vals@.len() - ch,
    {
        let params = transact(proto, &reqs[ch], timeout_ms)?;
        let ghost prev = vals@;
        store_reply(vals, ch, parse_phys_output_volume(params.as_slice()))?;
        proof {
            assert(reqs@[ch as int].args@ =~= seq![ch as u32, 0u32]);
            assert(proto.answered(CATEGORY_PHYS_OUTPUT, CMD_GET_VOL, seq![ch as u32, 0u32], params@));
            assert(answered_i32(proto, CATEGORY_PHYS_OUTPUT, CMD_GET_VOL, seq![ch as u32, 0u32], 1, vals@[ch as int]));
            assert forall|c: int| 0 <= c < vals@.len() && c != ch implies #[trigger] vals@[c] == prev[c] by {}
        }
        ch = ch + 1;
    }
    Ok(())
}

/// Cache the mute of each channel in order, up to the first failure.
pub fn cache_phys_output_mutes<P: EfwProtocolExtManual>(proto: &P, vals: &mut Vec<bool>, timeout_ms: u32) -> (r: Result<
    (),
    EfwError,
>)
    ensures
        final(vals)@.len() == old(vals)@.len(),
        old(vals)@.len() == 0 ==> r.is_ok() && final(vals)@ == old(vals)@,
        forall|c: int|
            0 <= c < old(vals)@.len() ==> #[trigger] final(vals)@[c] == old(vals)@[c] || answered_switch(
                proto,
                CATEGORY_PHYS_OUTPUT,
                CMD_GET_MUTE,
                seq![c as u32, 0u32],
                1,
                final(vals)@[c],
            ),
        r.is_ok() ==> forall|c: int|
            0 <= c < old(vals)@.len() ==> answered_switch(proto, CATEGORY_PHYS_OUTPUT, CMD_GET_MUTE, seq![c as u32, 0u32], 1, #[trigger] final(vals)@[c]),
{
    let mut others: Vec<u32> = Vec::new();
    others.push(0);
    proof {
        assert(others@ =~= seq![0u32]);
    }
    let reqs = channel_read_requests(CATEGORY_PHYS_OUTPUT, CMD_GET_MUTE, others.as_slice(), vals.len(), 2);
    let mut ch: usize = 0;
    while ch < vals.len()
        invariant
            ch <= vals@.len(),
            vals@.len() == old(vals)@.len(),
            reqs@.len() == vals@.len(),
            ch == 0 ==> vals@ == old(vals)@,
            forall|c: int| 0 <= c < reqs@.len() ==> channel_request_is(#[trigger] reqs@[c], CATEGORY_PHYS_OUTPUT, CMD_GET_MUTE, c, seq![0u32], 2),
            forall|c: int|
                0 <= c < vals@.len() ==> #[trigger] vals@[c] == old(vals)@[c] || answered_switch(
                    proto,
                    CATEGORY_PHYS_OUTPUT,
                    CMD_GET_MUTE,
                    seq![c as u32, 0u32],
                    1,
                    vals@[c],
                ),
            forall|c: int| 0 <= c < ch ==> answered_switch(proto, CATEGORY_PHYS_OUTPUT, CMD_GET_MUTE, seq![c as u32, 0u32], 1, #[trigger] vals@[c]),
        decreases vals@.len() - ch,
    {
        let params = transact(proto, &reqs[ch], timeout_ms)?;
        let ghost prev = vals@;
        store_reply(vals, ch, parse_phys_output_mute(params.as_slice()))?;
        proof {
            assert(reqs@[ch as int].args@ =~= seq![ch as u32, 0u32]);
            assert(proto.answered(CATEGORY_PHYS_OUTPUT, CMD_GET_MUTE, seq![ch as u32, 0u32], params@));
            assert(answered_switch(proto, CATEGORY_PHYS_OUTPUT, CMD_GET_MUTE, seq![ch as u32, 0u32], 1, vals@[ch as int]));
            assert forall|c: int| 0 <= c < vals@.len() && c != ch implies #[trigger] vals@[c] == prev[c] by {}
        }
        ch = ch + 1;
    }
    Ok(())
}

/// Cache the nominal level of each channel in order, up to the first failure.
pub fn cache_phys_output_nominals<P: EfwProtocolExtManual>(proto: &P, vals: &mut Vec<NominalSignalLevel>, timeout_ms: u32) -> (r: Result<
    (),
    EfwError,
>)
    ensures
        final(vals)@.len() == old(vals)@.len(),
        old(vals)@.len() == 0 ==> r.is_ok() && final(vals)@ == old(vals)@,
        forall|c: int|
            0 <= c < old(vals)@.len() ==> #[trigger] final(vals)@[c] == old(vals)@[c] || answered_nominal(
                proto,
                CATEGORY_PHYS_OUTPUT,
                CMD_GET_NOMINAL,
                seq![c as u32, 0u32],
                1,
                final(vals)@[c],
            ),
        r.is_ok() ==> forall|c: int|
            0 <= c < old(vals)@.len() ==> answered_nominal(proto, CATEGORY_PHYS_OUTPUT, CMD_GET_NOMINAL, seq![c as u32, 0u32], 1, #[trigger] final(vals)@[c]),
{
    let mut others: Vec<u32> = Vec::new();
    others.push(0);
    proof {
        assert(others@ =~= seq![0u32]);
    }
    let reqs = channel_read_requests(CATEGORY_PHYS_OUTPUT, CMD_GET_NOMINAL, others.as_slice(), vals.len(), 2);
    let mut ch: usize = 0;
    while ch < vals.len()
        invariant
            ch <= vals@.len(),
            vals@.len() == old(vals)@.len(),
            reqs@.len() == vals@.len(),
            ch == 0 ==> vals@ == old(vals)@,
            forall|c: int| 0 <= c < reqs@.len() ==> channel_request_is(#[trigger] reqs@[c], CATEGORY_PHYS_OUTPUT, CMD_GET_NOMINAL, c, seq![0u32], 2),
            forall|c: int|
                0 <= c < vals@.len() ==> #[trigger] vals@[c] == old(vals)@[c] || answered_nominal(
                    proto,
                    CATEGORY_PHYS_OUTPUT,
                    CMD_GET_NOMINAL,
                    seq![c as u32, 0u32],
                    1,
                    vals@[c],
                ),
            forall|c: int| 0 <= c < ch ==> answered_nominal(proto, CATEGORY_PHYS_OUTPUT, CMD_GET_NOMINAL, seq![c as u32, 0u32], 1, #[trigger] vals@[c]),
        decreases vals@.len() - ch,
    {
        let params = transact(proto, &reqs[ch], timeout_ms)?;
        let ghost prev = vals@;
        store_reply(vals, ch, parse_phys_output_nominal(params.as_slice()))?;
        proof {
            assert(reqs@[ch as int].args@ =~= seq![ch as u32, 0u32]);
            assert(proto.answered(CATEGORY_PHYS_OUTPUT, CMD_GET_NOMINAL, seq![ch as u32, 0u32], params@));
            assert(answered_nominal(proto, CATEGORY_PHYS_OUTPUT, CMD_GET_NOMINAL, seq![ch as u32, 0u32], 1, vals@[ch as int]));
            assert forall|c: int| 0 <= c < vals@.len() && c != ch implies #[trigger] vals@[c] == prev[c] by {}
        }
        ch = ch + 1;
    }
    Ok(())
}

/// Update the volume of each channel which differs from the update, in order, up to the first
/// failure; the channels beyond the shorter of both are left as they are.
pub fn update_phys_output_volumes<P: EfwProtocolExtManual>(proto: &P, vals: &mut Vec<i32>, updates: &[i32], timeout_ms: u32) -> (r: Result<
    (),
    EfwError,
>)
    ensures
        final(vals)@.len() == old(vals)@.len(),
        forall|i: int|
            0 <= i < old(vals)@.len() ==> #[trigger] final(vals)@[i] == old(vals)@[i] || (i
                < updates@.len() && final(vals)@[i] == updates@[i] && answered_request(proto, CATEGORY_PHYS_OUTPUT, CMD_SET_VOL, seq![i as u32, updates@[i] as u32])),
        r.is_ok() ==> forall|i: int|
            0 <= i < old(vals)@.len() && i < updates@.len() ==> #[trigger] final(vals)@[i]
                == updates@[i],
        no_update_needed(old(vals)@, updates@) ==> r.is_ok() && final(vals)@ == old(vals)@,
        r.is_ok() ==> forall|i: int|
            0 <= i < old(vals)@.len() && i < updates@.len() && old(vals)@[i] != #[trigger] updates@[i] ==> answered_request(proto, CATEGORY_PHYS_OUTPUT, CMD_SET_VOL, seq![i as u32, updates@[i] as u32]),
{
    let olds = i32_codes(vals.as_slice());
    let news = i32_codes(updates);
    let others: Vec<u32> = Vec::new();
    proof {
        assert(others@ =~= Seq::<u32>::empty());
    }
    let reqs = channel_write_requests(CATEGORY_PHYS_OUTPUT, CMD_SET_VOL, others.as_slice(), olds.as_slice(), news.as_slice(), 2);
    proof {
        if no_update_needed(old(vals)@, updates@) && reqs@.len() > 0 {
            let c = reqs@[0].0 as int;
            assert(olds@[c] != news@[c]);
            assert(old(vals)@[c] == updates@[c]);
        }
    }
    let mut k: usize = 0;
    while k < reqs.len()
        invariant
            k <= reqs@.len(),
            write_requests_are(reqs@, CATEGORY_PHYS_OUTPUT, CMD_SET_VOL, Seq::<u32>::empty(), olds@, news@, 2),
            olds@.len() == old(vals)@.len(),
            news@.len() == updates@.len(),
            forall|i: int| 0 <= i < olds@.len() ==> #[trigger] olds@[i] == old(vals)@[i] as u32,
            forall|i: int| 0 <= i < news@.len() ==> #[trigger] news@[i] == updates@[i] as u32,
            reqs@.len() > 0 ==> !no_update_needed(old(vals)@, updates@),
            vals@.len() == old(vals)@.len(),
            k == 0 ==> vals@ == old(vals)@,
            forall|i: int|
                0 <= i < old(vals)@.len() ==> #[trigger] vals@[i] == old(vals)@[i] || (i
                    < updates@.len() && vals@[i] == updates@[i] && answered_request(proto, CATEGORY_PHYS_OUTPUT, CMD_SET_VOL, seq![i as u32, updates@[i] as u32])),
            forall|j: int|
                0 <= j < k ==> vals@[(#[trigger] reqs@[j]).0 as int] == updates@[reqs@[j].0 as int] && answered_request(proto, CATEGORY_PHYS_OUTPUT, CMD_SET_VOL, seq![reqs@[j].0 as int as u32, updates@[reqs@[j].0 as int] as u32]),
        decreases reqs@.len() - k,
    {
        let ch = reqs[k].0;
        let reply = transact(proto, &reqs[k].1, timeout_ms)?;
        let ghost prev = vals@;
        vals.set(ch, updates[ch]);
        proof {
            assert(reqs@[k as int].1.args@ =~= seq![ch as int as u32, updates@[ch as int] as u32]);
            assert(proto.answered(CATEGORY_PHYS_OUTPUT, CMD_SET_VOL, seq![ch as int as u32, updates@[ch as int] as u32], reply@));
            assert(answered_request(proto, CATEGORY_PHYS_OUTPUT, CMD_SET_VOL, seq![ch as int as u32, updates@[ch as int] as u32]));
            assert forall|j: int| 0 <= j < k + 1 implies vals@[(#[trigger] reqs@[j]).0 as int]
                == updates@[reqs@[j].0 as int] && answered_request(proto, CATEGORY_PHYS_OUTPUT, CMD_SET_VOL, seq![reqs@[j].0 as int as u32, updates@[reqs@[j].0 as int] as u32]) by {
                if j < k {
                    assert(prev[reqs@[j].0 as int] == updates@[reqs@[j].0 as int]);
                }
            }
        }
        k = k + 1;
    }
    proof {
        assert forall|i: int|
            0 <= i < old(vals)@.len() && i < updates@.len() implies #[trigger] vals@[i]
                == updates@[i] by {
            if old(vals)@[i] != updates@[i] {
                lemma_i32_code_injective(old(vals)@[i], updates@[i]);
                assert(olds@[i] != news@[i]);
                let j = choose|j: int| 0 <= j < reqs@.len() && #[trigger] reqs@[j].0 == i;
                assert(vals@[reqs@[j].0 as int] == updates@[reqs@[j].0 as int]);
            }
        }
        assert forall|i: int|
            0 <= i < old(vals)@.len() && i < updates@.len() && old(vals)@[i] != #[trigger] updates@[i] implies answered_request(proto, CATEGORY_PHYS_OUTPUT, CMD_SET_VOL, seq![i as u32, updates@[i] as u32]) by {
            lemma_i32_code_injective(old(vals)@[i], updates@[i]);
            assert(olds@[i] != news@[i]);
            let j = choose|j: int| 0 <= j < reqs@.len() && #[trigger] reqs@[j].0 == i;
            assert(answered_request(proto, CATEGORY_PHYS_OUTPUT, CMD_SET_VOL, seq![reqs@[j].0 as int as u32, updates@[reqs@[j].0 as int] as u32]));
        }
    }
    Ok(())
}

/// Update the mute of each channel which differs from the update, in order, up to the first
/// failure; the channels beyond the shorter of both are left as they are.
pub fn update_phys_output_mutes<P: EfwProtocolExtManual>(proto: &P, vals: &mut Vec<bool>, updates: &[bool], timeout_ms: u32) -> (r: Result<
    (),
    EfwError,
>)
    ensures
        final(vals)@.len() == old(vals)@.len(),
        forall|i: int|
            0 <= i < old(vals)@.len() ==> #[trigger] final(vals)@[i] == old(vals)@[i] || (i
                < updates@.len() && final(vals)@[i] == updates@[i] && answered_request(proto, CATEGORY_PHYS_OUTPUT, CMD_SET_MUTE, seq![i as u32, (if updates@[i] { 1u32 } else { 0u32 })])),
        r.is_ok() ==> forall|i: int|
            0 <= i < old(vals)@.len() && i < updates@.len() ==> #[trigger] final(vals)@[i]
                == updates@[i],
        no_update_needed(old(vals)@, updates@) ==> r.is_ok() && final(vals)@ == old(vals)@,
        r.is_ok() ==> forall|i: int|
            0 <= i < old(vals)@.len() && i < updates@.len() && old(vals)@[i] != #[trigger] updates@[i] ==> answered_request(proto, CATEGORY_PHYS_OUTPUT, CMD_SET_MUTE, seq![i as u32, (if updates@[i] { 1u32 } else { 0u32 })]),
{
    let olds = bool_codes(vals.as_slice());
    let news = bool_codes(updates);
    let others: Vec<u32> = Vec::new();
    proof {
        assert(others@ =~= Seq::<u32>::empty());
    }
    let reqs = channel_write_requests(CATEGORY_PHYS_OUTPUT, CMD_SET_MUTE, others.as_slice(), olds.as_slice(), news.as_slice(), 2);
    proof {
        if no_update_needed(old(vals)@, updates@) && reqs@.len() > 0 {
            let c = reqs@[0].0 as int;
            assert(olds@[c] != news@[c]);
            assert(old(vals)@[c] == updates@[c]);
        }
    }
    let mut k: usize = 0;
    while k < reqs.len()
        invariant
            k <= reqs@.len(),
            write_requests_are(reqs@, CATEGORY_PHYS_OUTPUT, CMD_SET_MUTE, Seq::<u32>::empty(), olds@, news@, 2),
            olds@.len() == old(vals)@.len(),
            news@.len() == updates@.len(),
            forall|i: int| 0 <= i < olds@.len() ==> #[trigger] olds@[i] == (if old(vals)@[i] { 1u32 } else { 0u32 }),
            forall|i: int| 0 <= i < news@.len() ==> #[trigger] news@[i] == (if updates@[i] { 1u32 } else { 0u32 }),
            reqs@.len() > 0 ==> !no_update_needed(old(vals)@, updates@),
            vals@.len() == old(vals)@.len(),
            k == 0 ==> vals@ == old(vals)@,
            forall|i: int|
                0 <= i < old(vals)@.len() ==> #[trigger] vals@[i] == old(vals)@[i] || (i
                    < updates@.len() && vals@[i] == updates@[i] && answered_request(proto, CATEGORY_PHYS_OUTPUT, CMD_SET_MUTE, seq![i as u32, (if updates@[i] { 1u32 } else { 0u32 })])),
            forall|j: int|
                0 <= j < k ==> vals@[(#[trigger] reqs@[j]).0 as int] == updates@[reqs@[j].0 as int] && answered_request(proto, CATEGORY_PHYS_OUTPUT, CMD_SET_MUTE, seq![reqs@[j].0 as int as u32, (if updates@[reqs@[j].0 as int] { 1u32 } else { 0u32 })]),
        decreases reqs@.len() - k,
    {
        let ch = reqs[k].0;
        let reply = transact(proto, &reqs[k].1, timeout_ms)?;
        let ghost prev = vals@;
        vals.set(ch, updates[ch]);
        proof {
            assert(reqs@[k as int].1.args@ =~= seq![ch as int as u32, (if updates@[ch as int] { 1u32 } else { 0u32 })]);
            assert(proto.answered(CATEGORY_PHYS_OUTPUT, CMD_SET_MUTE, seq![ch as int as u32, (if updates@[ch as int] { 1u32 } else { 0u32 })], reply@));
            assert(answered_request(proto, CATEGORY_PHYS_OUTPUT, CMD_SET_MUTE, seq![ch as int as u32, (if updates@[ch as int] { 1u32 } else { 0u32 })]));
            assert forall|j: int| 0 <= j < k + 1 implies vals@[(#[trigger] reqs@[j]).0 as int]
                == updates@[reqs@[j].0 as int] && answered_request(proto, CATEGORY_PHYS_OUTPUT, CMD_SET_MUTE, seq![reqs@[j].0 as int as u32, (if updates@[reqs@[j].0 as int] { 1u32 } else { 0u32 })]) by {
                if j < k {
                    assert(prev[reqs@[j].0 as int] == updates@[reqs@[j].0 as int]);
                }
            }
        }
        k = k + 1;
    }
    proof {
        assert forall|i: int|
            0 <= i < old(vals)@.len() && i < updates@.len() implies #[trigger] vals@[i]
                == updates@[i] by {
            if old(vals)@[i] != updates@[i] {
                assert(olds@[i] != news@[i]);
                let j = choose|j: int| 0 <= j < reqs@.len() && #[trigger] reqs@[j].0 == i;
                assert(vals@[reqs@[j].0 as int] == updates@[reqs@[j].0 as int]);
            }
        }
        assert forall|i: int|
            0 <= i < old(vals)@.len() && i < updates@.len() && old(vals)@[i] != #[trigger] updates@[i] implies answered_request(proto, CATEGORY_PHYS_OUTPUT, CMD_SET_MUTE, seq![i as u32, (if updates@[i] { 1u32 } else { 0u32 })]) by {
            assert(olds@[i] != news@[i]);
            let j = choose|j: int| 0 <= j < reqs@.len() && #[trigger] reqs@[j].0 == i;
            assert(answered_request(proto, CATEGORY_PHYS_OUTPUT, CMD_SET_MUTE, seq![reqs@[j].0 as int as u32, (if updates@[reqs@[j].0 as int] { 1u32 } else { 0u32 })]));
        }
    }
    Ok(())
}

/// Update the nominal level of each channel which differs from the update, in order, up to the first
/// failure; the channels beyond the shorter of both are left as they are.
pub fn update_phys_output_nominals<P: EfwProtocolExtManual>(proto: &P, vals: &mut Vec<NominalSignalLevel>, updates: &[NominalSignalLevel], timeout_ms: u32) -> (r: Result<
    (),
    EfwError,
>)
    ensures
        final(vals)@.len() == old(vals)@.len(),
        forall|i: int|
            0 <= i < old(vals)@.len() ==> #[trigger] final(vals)@[i] == old(vals)@[i] || (i
                < updates@.len() && final(vals)@[i] == updates@[i] && answered_request(proto, CATEGORY_PHYS_OUTPUT, CMD_SET_NOMINAL, seq![i as u32, nominal_signal_level_code(updates@[i])])),
        r.is_ok() ==> forall|i: int|
            0 <= i < old(vals)@.len() && i < updates@.len() ==> #[trigger] final(vals)@[i]
                == updates@[i],
        no_update_needed(old(vals)@, updates@) ==> r.is_ok() && final(vals)@ == old(vals)@,
        r.is_ok() ==> forall|i: int|
            0 <= i < old(vals)@.len() && i < updates@.len() && old(vals)@[i] != #[trigger] updates@[i] ==> answered_request(proto, CATEGORY_PHYS_OUTPUT, CMD_SET_NOMINAL, seq![i as u32, nominal_signal_level_code(updates@[i])]),
{
    let olds = nominal_codes(vals.as_slice());
    let news = nominal_codes(updates);
    let others: Vec<u32> = Vec::new();
    proof {
        assert(others@ =~= Seq::<u32>::empty());
    }
    let reqs = channel_write_requests(CATEGORY_PHYS_OUTPUT, CMD_SET_NOMINAL, others.as_slice(), olds.as_slice(), news.as_slice(), 2);
    proof {
        if no_update_needed(old(vals)@, updates@) && reqs@.len() > 0 {
            let c = reqs@[0].0 as int;
            assert(olds@[c] != news@[c]);
            assert(old(vals)@[c] == updates@[c]);
        }
    }
    let mut k: usize = 0;
    while k < reqs.len()
        invariant
            k <= reqs@.len(),
            write_requests_are(reqs@, CATEGORY_PHYS_OUTPUT, CMD_SET_NOMINAL, Seq::<u32>::empty(), olds@, news@, 2),
            olds@.len() == old(vals)@.len(),
            news@.len() == updates@.len(),
            forall|i: int| 0 <= i < olds@.len() ==> #[trigger] olds@[i] == nominal_signal_level_code(old(vals)@[i]),
            forall|i: int| 0 <= i < news@.len() ==> #[trigger] news@[i] == nominal_signal_level_code(updates@[i]),
            reqs@.len() > 0 ==> !no_update_needed(old(vals)@, updates@),
            vals@.len() == old(vals)@.len(),
            k == 0 ==> vals@ == old(vals)@,
            forall|i: int|
                0 <= i < old(vals)@.len() ==> #[trigger] vals@[i] == old(vals)@[i] || (i
                    < updates@.len() && vals@[i] == updates@[i] && answered_request(proto, CATEGORY_PHYS_OUTPUT, CMD_SET_NOMINAL, seq![i as u32, nominal_signal_level_code(updates@[i])])),
            forall|j: int|
                0 <= j < k ==> vals@[(#[trigger] reqs@[j]).0 as int] == updates@[reqs@[j].0 as int] && answered_request(proto, CATEGORY_PHYS_OUTPUT, CMD_SET_NOMINAL, seq![reqs@[j].0 as int as u32, nominal_signal_level_code(updates@[reqs@[j].0 as int])]),
        decreases reqs@.len() - k,
    {
        let ch = reqs[k].0;
        let reply = transact(proto, &reqs[k].1, timeout_ms)?;
        let ghost prev = vals@;
        vals.set(ch, updates[ch]);
        proof {
            assert(reqs@[k as int].1.args@ =~= seq![ch as int as u32, nominal_signal_level_code(updates@[ch as int])]);
            assert(proto.answered(CATEGORY_PHYS_OUTPUT, CMD_SET_NOMINAL, seq![ch as int as u32, nominal_signal_level_code(updates@[ch as int])], reply@));
            assert(answered_request(proto, CATEGORY_PHYS_OUTPUT, CMD_SET_NOMINAL, seq![ch as int as u32, nominal_signal_level_code(updates@[ch as int])]));
            assert forall|j: int| 0 <= j < k + 1 implies vals@[(#[trigger] reqs@[j]).0 as int]
                == updates@[reqs@[j].0 as int] && answered_request(proto, CATEGORY_PHYS_OUTPUT, CMD_SET_NOMINAL, seq![reqs@[j].0 as int as u32, nominal_signal_level_code(updates@[reqs@[j].0 as int])]) by {
                if j < k {
                    assert(prev[reqs@[j].0 as int] == updates@[reqs@[j].0 as int]);
                }
            }
        }
        k = k + 1;
    }
    proof {
        assert forall|i: int|
            0 <= i < old(vals)@.len() && i < updates@.len() implies #[trigger] vals@[i]
                == updates@[i] by {
            if old(vals)@[i] != updates@[i] {
                lemma_nominal_signal_level_roundtrip(old(vals)@[i]);
                    lemma_nominal_signal_level_roundtrip(updates@[i]);
                assert(olds@[i] != news@[i]);
                let j = choose|j: int| 0 <= j < reqs@.len() && #[trigger] reqs@[j].0 == i;
                assert(vals@[reqs@[j].0 as int] == updates@[reqs@[j].0 as int]);
            }
        }
        assert forall|i: int|
            0 <= i < old(vals)@.len() && i < updates@.len() && old(vals)@[i] != #[trigger] updates@[i] implies answered_request(proto, CATEGORY_PHYS_OUTPUT, CMD_SET_NOMINAL, seq![i as u32, nominal_signal_level_code(updates@[i])]) by {
            lemma_nominal_signal_level_roundtrip(old(vals)@[i]);
                lemma_nominal_signal_level_roundtrip(updates@[i]);
            assert(olds@[i] != news@[i]);
            let j = choose|j: int| 0 <= j < reqs@.len() && #[trigger] reqs@[j].0 == i;
            assert(answered_request(proto, CATEGORY_PHYS_OUTPUT, CMD_SET_NOMINAL, seq![reqs@[j].0 as int as u32, nominal_signal_level_code(updates@[reqs@[j].0 as int])]));
        }
    }
    Ok(())
}

impl<O: EfwHardwareSpecification, P: EfwProtocolExtManual> EfwWhollyCachableParamsOperation<
    P,
    EfwOutputParameters,
> for O {
    open spec fn cache_acceptable(states: EfwOutputParameters) -> bool {
        &&& states.volumes@.len() == saturated(group_total(O::spec_phys_output_groups(), None))
        &&& states.mutes@.len() == saturated(group_total(O::spec_phys_output_groups(), None))
    }

    fn cache_wholly(proto: &mut P, states: &mut EfwOutputParameters, timeout_ms: u32) -> (r: Result<
        (),
        EfwError,
    >)
        ensures
            final(states).volumes@.len() == old(states).volumes@.len(),
            final(states).mutes@.len() == old(states).mutes@.len(),
            old(states).volumes@.len() == 0 && old(states).mutes@.len() == 0 ==> r.is_ok(),
            r.is_ok() ==> forall|c: int|
                0 <= c < final(states).volumes@.len() ==> answered_i32(&*old(proto), CATEGORY_PHYS_OUTPUT, CMD_GET_VOL, seq![c as u32, 0u32], 1, #[trigger] final(states).volumes@[c]),
            r.is_ok() ==> forall|c: int|
                0 <= c < final(states).mutes@.len() ==> answered_switch(&*old(proto), CATEGORY_PHYS_OUTPUT, CMD_GET_MUTE, seq![c as u32, 0u32], 1, #[trigger] final(states).mutes@[c]),
    {
        cache_phys_output_volumes(proto, &mut states.volumes, timeout_ms)?;
        cache_phys_output_mutes(proto, &mut states.mutes, timeout_ms)?;
        Ok(())
    }
}

impl<O: EfwHardwareSpecification, P: EfwProtocolExtManual> EfwPartiallyUpdatableParamsOperation<
    P,
    EfwOutputParameters,
> for O {
    open spec fn partial_update_acceptable(states: EfwOutputParameters, updates: EfwOutputParameters) -> bool {
        &&& states.volumes@.len() == saturated(group_total(O::spec_phys_output_groups(), None))
        &&& states.mutes@.len() == saturated(group_total(O::spec_phys_output_groups(), None))
    }

    fn update_partially(
        proto: &mut P,
        states: &mut EfwOutputParameters,
        updates: EfwOutputParameters,
        timeout_ms: u32,
    ) -> (r: Result<(), EfwError>)
        ensures
            final(states).volumes@.len() == old(states).volumes@.len(),
            final(states).mutes@.len() == old(states).mutes@.len(),
            r.is_ok() ==> forall|i: int|
                0 <= i < old(states).volumes@.len() && i < updates.volumes@.len()
                    ==> #[trigger] final(states).volumes@[i] == updates.volumes@[i],
            r.is_ok() ==> forall|i: int|
                0 <= i < old(states).mutes@.len() && i < updates.mutes@.len()
                    ==> #[trigger] final(states).mutes@[i] == updates.mutes@[i],
            no_update_needed(old(states).volumes@, updates.volumes@) && no_update_needed(
                old(states).mutes@,
                updates.mutes@,
            ) ==> r.is_ok() && final(states).volumes@ == old(states).volumes@ && final(states).mutes@
                == old(states).mutes@,
            r.is_ok() ==> forall|i: int|
                0 <= i < old(states).volumes@.len() && i < updates.volumes@.len() && old(states).volumes@[i] != #[trigger] updates.volumes@[i]
                    ==> answered_request(&*old(proto), CATEGORY_PHYS_OUTPUT, CMD_SET_VOL, seq![i as u32, updates.volumes@[i] as u32]),
            r.is_ok() ==> forall|i: int|
                0 <= i < old(states).mutes@.len() && i < updates.mutes@.len() && old(states).mutes@[i] != #[trigger] updates.mutes@[i]
                    ==> answered_request(&*old(proto), CATEGORY_PHYS_OUTPUT, CMD_SET_MUTE, seq![i as u32, (if updates.mutes@[i] { 1u32 } else { 0u32 })]),
    {
        update_phys_output_volumes(proto, &mut states.volumes, updates.volumes.as_slice(), timeout_ms)?;
        update_phys_output_mutes(proto, &mut states.mutes, updates.mutes.as_slice(), timeout_ms)?;
        Ok(())
    }
}

/// The parameters of physical outputs.
#[derive(Debug, Clone, PartialEq, Eq)]
pub struct EfwPhysOutputParameters {
    /// The nominal signal level of physical output.
    pub nominals: Vec<NominalSignalLevel>,
}

/// The specification of physical output.
pub trait EfwPhysOutputSpecification: EfwHardwareSpecification {
    /// The number of analog channels, as counted in the groups of physical inputs.
    fn phys_analog_output_count() -> (r: usize)
        ensures
            r == saturated(group_total(Self::spec_phys_input_groups(), Some(PhysGroupType::Analog))),
    {
        count_group_channels(Self::phys_input_groups(), Some(PhysGroupType::Analog))
    }

    /// The parameters with the nominal level for each analog channel.
    fn create_phys_output_parameters() -> (r: EfwPhysOutputParameters)
        ensures
            r.nominals@ == Seq::new(
                saturated(group_total(Self::spec_phys_input_groups(), Some(PhysGroupType::Analog))),
                |i: int| NominalSignalLevel::Professional,
            ),
    {
        let nominals = vec![NominalSignalLevel::Professional; Self::phys_analog_output_count()];
        proof {
            assert(nominals@ =~= Seq::new(
                saturated(group_total(Self::spec_phys_input_groups(), Some(PhysGroupType::Analog))),
                |i: int| NominalSignalLevel::Professional,
            ));
        }
        EfwPhysOutputParameters { nominals }
    }
}

impl<O: EfwPhysOutputSpecification, P: EfwProtocolExtManual> EfwWhollyCachableParamsOperation<
    P,
    EfwPhysOutputParameters,
> for O {
    open spec fn cache_acceptable(states: EfwPhysOutputParameters) -> bool {
        states.nominals@.len() == saturated(group_total(O::spec_phys_input_groups(), Some(PhysGroupType::Analog)))
    }

    fn cache_wholly(proto: &mut P, states: &mut EfwPhysOutputParameters, timeout_ms: u32) -> (r: Result<
        (),
        EfwError,
    >)
        ensures
            final(states).nominals@.len() == old(states).nominals@.len(),
            old(states).nominals@.len() == 0 ==> r.is_ok(),
            r.is_ok() ==> forall|c: int|
                0 <= c < final(states).nominals@.len() ==> answered_nominal(&*old(proto), CATEGORY_PHYS_OUTPUT, CMD_GET_NOMINAL, seq![c as u32, 0u32], 1, #[trigger] final(states).nominals@[c]),
    {
        cache_phys_output_nominals(proto, &mut states.nominals, timeout_ms)
    }
}

impl<O: EfwPhysOutputSpecification, P: EfwProtocolExtManual> EfwPartiallyUpdatableParamsOperation<
    P,
    EfwPhysOutputParameters,
> for O {
    open spec fn partial_update_acceptable(states: EfwPhysOutputParameters, updates: EfwPhysOutputParameters) -> bool {
        &&& states.nominals@.len() == saturated(group_total(O::spec_phys_input_groups(), Some(PhysGroupType::Analog)))
        &&& updates.nominals@.len() == saturated(group_total(O::spec_phys_input_groups(), Some(PhysGroupType::Analog)))
    }

    fn update_partially(
        proto: &mut P,
        states: &mut EfwPhysOutputParameters,
        updates: EfwPhysOutputParameters,
        timeout_ms: u32,
    ) -> (r: Result<(), EfwError>)
        ensures
            r.is_ok() ==> final(states).nominals@ == updates.nominals@,
            no_update_needed(old(states).nominals@, updates.nominals@) ==> r.is_ok()
                && final(states).nominals@ == old(states).nominals@,
            r.is_ok() ==> forall|i: int|
                0 <= i < old(states).nominals@.len() && i < updates.nominals@.len() && old(states).nominals@[i] != #[trigger] updates.nominals@[i]
                    ==> answered_request(&*old(proto), CATEGORY_PHYS_OUTPUT, CMD_SET_NOMINAL, seq![i as u32, nominal_signal_level_code(updates.nominals@[i])]),
    {
        update_phys_output_nominals(proto, &mut states.nominals, updates.nominals.as_slice(), timeout_ms)?;
        proof {
            assert(states.nominals@ =~= updates.nominals@);
        }
        Ok(())
    }
}

} // verus!
