//! Protocol about input monitor.
//!
//! The module includes protocol about input monitor defined by Echo Audio Digital Corporation for
//! Fireworks board module.

use crate::fireworks::{
    store_reply, no_update_needed, channel_request_is, answered_request, answered_i32, answered_switch, answered_u8, channel_read_requests, channel_write_requests, write_requests_are, i32_codes, bool_codes, u8_codes, lemma_i32_code_injective,
    param_at, transact, EfwError, EfwHardwareSpecification, EfwPartiallyUpdatableParamsOperation,
    EfwProtocolExtManual, EfwRequest, EfwWhollyCachableParamsOperation,
};
use vstd::prelude::*;

verus! {

/// The category of commands for input monitor.
pub const CATEGORY_MONITOR: u32 = 8;

/// The command to set volume.
pub const CMD_SET_VOL: u32 = 0;
/// The command to get volume.
pub const CMD_GET_VOL: u32 = 1;
/// The command to set mute.
pub const CMD_SET_MUTE: u32 = 2;
/// The command to get mute.
pub const CMD_GET_MUTE: u32 = 3;
/// The command to set solo.
pub const CMD_SET_SOLO: u32 = 4;
/// The command to get solo.
pub const CMD_GET_SOLO: u32 = 5;
/// The command to set pan.
pub const CMD_SET_PAN: u32 = 6;
/// The command to get pan.
pub const CMD_GET_PAN: u32 = 7;

/// The parameters of input monitor.
#[derive(Default, Debug, Clone, PartialEq, Eq)]
pub struct EfwMonitorSourceParameters {
    /// The gain of monitor input. The value is unsigned fixed-point number of 8.24 format; i.e.
    /// Q24. It is 0x00000000..0x02000000 for -144.0..+6.0 dB.
    pub gains: Vec<i32>,
    /// Whether to mute the monitor input.
    pub mutes: Vec<bool>,
    /// Whether to mute the other monitor sources.
    pub solos: Vec<bool>,
    /// L/R balance of monitor input. It is 0..255 from left to right.
    pub pans: Vec<u8>,
}

/// The parameters of input monitor.
#[derive(Default, Debug, Clone, PartialEq, Eq)]
pub struct EfwMonitorParameters(pub Vec<EfwMonitorSourceParameters>);

/// Each of the parameters holds the number of sources.
pub open spec fn monitor_sources_sized(params: EfwMonitorSourceParameters, count: nat) -> bool {
    &&& params.gains@.len() == count
    &&& params.mutes@.len() == count
    &&& params.solos@.len() == count
    &&& params.pans@.len() == count
}

/// Both parameters have the same gains, mutes, solos and pans.
pub open spec fn same_sources(a: EfwMonitorSourceParameters, b: EfwMonitorSourceParameters) -> bool {
    &&& a.gains@ == b.gains@
    &&& a.mutes@ == b.mutes@
    &&& a.solos@ == b.solos@
    &&& a.pans@ == b.pans@
}

/// The parameters hold the number of destinations, each of the number of sources.
pub open spec fn monitor_sized(params: EfwMonitorParameters, dsts: nat, srcs: nat) -> bool {
    &&& params.0@.len() == dsts
    &&& forall|i: int| 0 <= i < params.0@.len() ==> monitor_sources_sized(#[trigger] params.0@[i], srcs)
}

/// The request of the command for the monitor source to the destination, with the value.
pub fn monitor_request(command: u32, src: usize, dst: usize, value: u32) -> (r: EfwRequest)
    ensures
        r.category == CATEGORY_MONITOR,
        r.command == command,
        r.args@ == seq![src as u32, dst as u32, value],
        r.params_len == 3,
{
    EfwRequest { category: CATEGORY_MONITOR, command, args: vec![src as u32, dst as u32, value], params_len: 3 }
}

/// The gain in the parameters of response.
pub fn parse_monitor_gain(params: &[u32]) -> (r: Result<i32, EfwError>)
    ensures
        r.is_ok() <==> params@.len() > 2,
        r.is_ok() ==> r == Ok::<i32, EfwError>(params@[2] as i32),
{
    let val = param_at(params, 2)?;
    Ok(val as i32)
}

/// The switch of mute or solo in the parameters of response.
pub fn parse_monitor_switch(params: &[u32]) -> (r: Result<bool, EfwError>)
    ensures
        r.is_ok() <==> params@.len() > 2,
        r.is_ok() ==> r == Ok::<bool, EfwError>(params@[2] > 0),
{
    let val = param_at(params, 2)?;
    Ok(val > 0)
}

/// The pan in the parameters of response.
pub fn parse_monitor_pan(params: &[u32]) -> (r: Result<u8, EfwError>)
    ensures
        r.is_ok() <==> params@.len() > 2,
        r.is_ok() ==> r == Ok::<u8, EfwError>(params@[2] as u8),
{
    let val = param_at(params, 2)?;
    Ok(val as u8)
}

/// Cache the gain of each channel in order, up to the first failure.
pub fn cache_monitor_gains<P: EfwProtocolExtManual>(proto: &P, dst: usize, vals: &mut Vec<i32>, timeout_ms: u32) -> (r: Result<
    (),
    EfwError,
>)
    ensures
        final(vals)@.len() == old(vals)@.len(),
        old(vals)@.len() == 0 ==> r.is_ok() && final(vals)@ == old(vals)@,
        forall|c: int|
            0 <= c < old(vals)@.len() ==> #[trigger] final(vals)@[c] == old(vals)@[c] || answered_i32(
                proto,
                CATEGORY_MONITOR,
                CMD_GET_VOL,
                seq![c as u32, dst as u32, 0u32],
                2,
                final(vals)@[c],
            ),
        r.is_ok() ==> forall|c: int|
            0 <= c < old(vals)@.len() ==> answered_i32(proto, CATEGORY_MONITOR, CMD_GET_VOL, seq![c as u32, dst as u32, 0u32], 2, #[trigger] final(vals)@[c]),
{
    let mut others: Vec<u32> = Vec::new();
    others.push(dst as u32);
    others.push(0);
    proof {
        assert(others@ =~= seq![dst as u32, 0u32]);
    }
    let reqs = channel_read_requests(CATEGORY_MONITOR, CMD_GET_VOL, others.as_slice(), vals.len(), 3);
    let mut ch: usize = 0;
    while ch < vals.len()
        invariant
            ch <= vals@.len(),
            vals@.len() == old(vals)@.len(),
            reqs@.len() == vals@.len(),
            ch == 0 ==> vals@ == old(vals)@,
            forall|c: int| 0 <= c < reqs@.len() ==> channel_request_is(#[trigger] reqs@[c], CATEGORY_MONITOR, CMD_GET_VOL, c, seq![dst as u32, 0u32], 3),
            forall|c: int|
                0 <= c < vals@.len() ==> #[trigger] vals@[c] == old(vals)@[c] || answered_i32(
                    proto,
                    CATEGORY_MONITOR,
                    CMD_GET_VOL,
                    seq![c as u32, dst as u32, 0u32],
                    2,
                    vals@[c],
                ),
            forall|c: int| 0 <= c < ch ==> answered_i32(proto, CATEGORY_MONITOR, CMD_GET_VOL, seq![c as u32, dst as u32, 0u32], 2, #[trigger] vals@[c]),
        decreases vals@.len() - ch,
    {
        let params = transact(proto, &reqs[ch], timeout_ms)?;
        let ghost prev = vals@;
        store_reply(vals, ch, parse_monitor_gain(params.as_slice()))?;
        proof {
            assert(reqs@[ch as int].args@ =~= seq![ch as u32, dst as u32, 0u32]);
            assert(proto.answered(CATEGORY_MONITOR, CMD_GET_VOL, seq![ch as u32, dst as u32, 0u32], params@));
            assert(answered_i32(proto, CATEGORY_MONITOR, CMD_GET_VOL, seq![ch as u32, dst as u32, 0u32], 2, vals@[ch as int]));
            assert forall|c: int| 0 <= c < vals@.len() && c != ch implies #[trigger] vals@[c] == prev[c] by {}
        }
        ch = ch + 1;
    }
    Ok(())
}

/// Cache the mute of each channel in order, up to the first failure.
pub fn cache_monitor_mutes<P: EfwProtocolExtManual>(proto: &P, dst: usize, vals: &mut Vec<bool>, timeout_ms: u32) -> (r: Result<
    (),
    EfwError,
>)
    ensures
        final(vals)@.len() == old(vals)@.len(),
        old(vals)@.len() == 0 ==> r.is_ok() && final(vals)@ == old(vals)@,
        forall|c: int|
            0 <= c < old(vals)@.len() ==> #[trigger] final(vals)@[c] == old(vals)@[c] || answered_switch(
                proto,
                CATEGORY_MONITOR,
                CMD_GET_MUTE,
                seq![c as u32, dst as u32, 0u32],
                2,
                final(vals)@[c],
            ),
        r.is_ok() ==> forall|c: int|
            0 <= c < old(vals)@.len() ==> answered_switch(proto, CATEGORY_MONITOR, CMD_GET_MUTE, seq![c as u32, dst as u32, 0u32], 2, #[trigger] final(vals)@[c]),
{
    let mut others: Vec<u32> = Vec::new();
    others.push(dst as u32);
    others.push(0);
    proof {
        assert(others@ =~= seq![dst as u32, 0u32]);
    }
    let reqs = channel_read_requests(CATEGORY_MONITOR, CMD_GET_MUTE, others.as_slice(), vals.len(), 3);
    let mut ch: usize = 0;
    while ch < vals.len()
        invariant
            ch <= vals@.len(),
            vals@.len() == old(vals)@.len(),
            reqs@.len() == vals@.len(),
            ch == 0 ==> vals@ == old(vals)@,
            forall|c: int| 0 <= c < reqs@.len() ==> channel_request_is(#[trigger] reqs@[c], CATEGORY_MONITOR, CMD_GET_MUTE, c, seq![dst as u32, 0u32], 3),
            forall|c: int|
                0 <= c < vals@.len() ==> #[trigger] vals@[c] == old(vals)@[c] || answered_switch(
                    proto,
                    CATEGORY_MONITOR,
                    CMD_GET_MUTE,
                    seq![c as u32, dst as u32, 0u32],
                    2,
                    vals@[c],
                ),
            forall|c: int| 0 <= c < ch ==> answered_switch(proto, CATEGORY_MONITOR, CMD_GET_MUTE, seq![c as u32, dst as u32, 0u32], 2, #[trigger] vals@[c]),
        decreases vals@.len() - ch,
    {
        let params = transact(proto, &reqs[ch], timeout_ms)?;
        let ghost prev = vals@;
        store_reply(vals, ch, parse_monitor_switch(params.as_slice()))?;
        proof {
            assert(reqs@[ch as int].args@ =~= seq![ch as u32, dst as u32, 0u32]);
            assert(proto.answered(CATEGORY_MONITOR, CMD_GET_MUTE, seq![ch as u32, dst as u32, 0u32], params@));
            assert(answered_switch(proto, CATEGORY_MONITOR, CMD_GET_MUTE, seq![ch as u32, dst as u32, 0u32], 2, vals@[ch as int]));
            assert forall|c: int| 0 <= c < vals@.len() && c != ch implies #[trigger] vals@[c] == prev[c] by {}
        }
        ch = ch + 1;
    }
    Ok(())
}

/// Cache the solo of each channel in order, up to the first failure.
pub fn cache_monitor_solos<P: EfwProtocolExtManual>(proto: &P, dst: usize, vals: &mut Vec<bool>, timeout_ms: u32) -> (r: Result<
    (),
    EfwError,
>)
    ensures
        final(vals)@.len() == old(vals)@.len(),
        old(vals)@.len() == 0 ==> r.is_ok() && final(vals)@ == old(vals)@,
        forall|c: int|
            0 <= c < old(vals)@.len() ==> #[trigger] final(vals)@[c] == old(vals)@[c] || answered_switch(
                proto,
                CATEGORY_MONITOR,
                CMD_GET_SOLO,
                seq![c as u32, dst as u32, 0u32],
                2,
                final(vals)@[c],
            ),
        r.is_ok() ==> forall|c: int|
            0 <= c < old(vals)@.len() ==> answered_switch(proto, CATEGORY_MONITOR, CMD_GET_SOLO, seq![c as u32, dst as u32, 0u32], 2, #[trigger] final(vals)@[c]),
{
    let mut others: Vec<u32> = Vec::new();
    others.push(dst as u32);
    others.push(0);
    proof {
        assert(others@ =~= seq![dst as u32, 0u32]);
    }
    let reqs = channel_read_requests(CATEGORY_MONITOR, CMD_GET_SOLO, others.as_slice(), vals.len(), 3);
    let mut ch: usize = 0;
    while ch < vals.len()
        invariant
            ch <= vals@.len(),
            vals@.len() == old(vals)@.len(),
            reqs@.len() == vals@.len(),
            ch == 0 ==> vals@ == old(vals)@,
            forall|c: int| 0 <= c < reqs@.len() ==> channel_request_is(#[trigger] reqs@[c], CATEGORY_MONITOR, CMD_GET_SOLO, c, seq![dst as u32, 0u32], 3),
            forall|c: int|
                0 <= c < vals@.len() ==> #[trigger] vals@[c] == old(vals)@[c] || answered_switch(
                    proto,
                    CATEGORY_MONITOR,
                    CMD_GET_SOLO,
                    seq![c as u32, dst as u32, 0u32],
                    2,
                    vals@[c],
                ),
            forall|c: int| 0 <= c < ch ==> answered_switch(proto, CATEGORY_MONITOR, CMD_GET_SOLO, seq![c as u32, dst as u32, 0u32], 2, #[trigger] vals@[c]),
        decreases vals@.len() - ch,
    {
        let params = transact(proto, &reqs[ch], timeout_ms)?;
        let ghost prev = vals@;
        store_reply(vals, ch, parse_monitor_switch(params.as_slice()))?;
        proof {
            assert(reqs@[ch as int].args@ =~= seq![ch as u32, dst as u32, 0u32]);
            assert(proto.answered(CATEGORY_MONITOR, CMD_GET_SOLO, seq![ch as u32, dst as u32, 0u32], params@));
            assert(answered_switch(proto, CATEGORY_MONITOR, CMD_GET_SOLO, seq![ch as u32, dst as u32, 0u32], 2, vals@[ch as int]));
            assert forall|c: int| 0 <= c < vals@.len() && c != ch implies #[trigger] vals@[c] == prev[c] by {}
        }
        ch = ch + 1;
    }
    Ok(())
}

/// Cache the pan of each channel in order, up to the first failure.
pub fn cache_monitor_pans<P: EfwProtocolExtManual>(proto: &P, dst: usize, vals: &mut Vec<u8>, timeout_ms: u32) -> (r: Result<
    (),
    EfwError,
>)
    ensures
        final(vals)@.len() == old(vals)@.len(),
        old(vals)@.len() == 0 ==> r.is_ok() && final(vals)@ == old(vals)@,
        forall|c: int|
            0 <= c < old(vals)@.len() ==> #[trigger] final(vals)@[c] == old(vals)@[c] || answered_u8(
                proto,
                CATEGORY_MONITOR,
                CMD_GET_PAN,
                seq![c as u32, dst as u32, 0u32],
                2,
                final(vals)@[c],
            ),
        r.is_ok() ==> forall|c: int|
            0 <= c < old(vals)@.len() ==> answered_u8(proto, CATEGORY_MONITOR, CMD_GET_PAN, seq![c as u32, dst as u32, 0u32], 2, #[trigger] final(vals)@[c]),
{
    let mut others: Vec<u32> = Vec::new();
    others.push(dst as u32);
    others.push(0);
    proof {
        assert(others@ =~= seq![dst as u32, 0u32]);
    }
    let reqs = channel_read_requests(CATEGORY_MONITOR, CMD_GET_PAN, others.as_slice(), vals.len(), 3);
    let mut ch: usize = 0;
    while ch < vals.len()
        invariant
            ch <= vals@.len(),
            vals@.len() == old(vals)@.len(),
            reqs@.len() == vals@.len(),
            ch == 0 ==> vals@ == old(vals)@,
            forall|c: int| 0 <= c < reqs@.len() ==> channel_request_is(#[trigger] reqs@[c], CATEGORY_MONITOR, CMD_GET_PAN, c, seq![dst as u32, 0u32], 3),
            forall|c: int|
                0 <= c < vals@.len() ==> #[trigger] vals@[c] == old(vals)@[c] || answered_u8(
                    proto,
                    CATEGORY_MONITOR,
                    CMD_GET_PAN,
                    seq![c as u32, dst as u32, 0u32],
                    2,
                    vals@[c],
                ),
            forall|c: int| 0 <= c < ch ==> answered_u8(proto, CATEGORY_MONITOR, CMD_GET_PAN, seq![c as u32, dst as u32, 0u32], 2, #[trigger] vals@[c]),
        decreases vals@.len() - ch,
    {
        let params = transact(proto, &reqs[ch], timeout_ms)?;
        let ghost prev = vals@;
        store_reply(vals, ch, parse_monitor_pan(params.as_slice()))?;
        proof {
            assert(reqs@[ch as int].args@ =~= seq![ch as u32, dst as u32, 0u32]);
            assert(proto.answered(CATEGORY_MONITOR, CMD_GET_PAN, seq![ch as u32, dst as u32, 0u32], params@));
            assert(answered_u8(proto, CATEGORY_MONITOR, CMD_GET_PAN, seq![ch as u32, dst as u32, 0u32], 2, vals@[ch as int]));
            assert forall|c: int| 0 <= c < vals@.len() && c != ch implies #[trigger] vals@[c] == prev[c] by {}
        }
        ch = ch + 1;
    }
    Ok(())
}

/// Update the gain of each channel which differs from the update, in order, up to the first
/// failure; the channels beyond the shorter of both are left as they are.
pub fn update_monitor_gains<P: EfwProtocolExtManual>(proto: &P, dst: usize, vals: &mut Vec<i32>, updates: &[i32], timeout_ms: u32) -> (r: Result<
    (),
    EfwError,
>)
    ensures
        final(vals)@.len() == old(vals)@.len(),
        forall|i: int|
            0 <= i < old(vals)@.len() ==> #[trigger] final(vals)@[i] == old(vals)@[i] || (i
                < updates@.len() && final(vals)@[i] == updates@[i] && answered_request(proto, CATEGORY_MONITOR, CMD_SET_VOL, seq![i as u32, dst as u32, updates@[i] as u32])),
        r.is_ok() ==> forall|i: int|
            0 <= i < old(vals)@.len() && i < updates@.len() ==> #[trigger] final(vals)@[i]
                == updates@[i],
        no_update_needed(old(vals)@, updates@) ==> r.is_ok() && final(vals)@ == old(vals)@,
        r.is_ok() ==> forall|i: int|
            0 <= i < old(vals)@.len() && i < updates@.len() && old(vals)@[i] != #[trigger] updates@[i] ==> answered_request(proto, CATEGORY_MONITOR, CMD_SET_VOL, seq![i as u32, dst as u32, updates@[i] as u32]),
{
    let olds = i32_codes(vals.as_slice());
    let news = i32_codes(updates);
    let mut others: Vec<u32> = Vec::new();
    others.push(dst as u32);
    proof {
        assert(others@ =~= seq![dst as u32]);
    }
    let reqs = channel_write_requests(CATEGORY_MONITOR, CMD_SET_VOL, others.as_slice(), olds.as_slice(), news.as_slice(), 3);
    proof {
        if no_update_needed(old(vals)@, updates@) && reqs@.len() > 0 {
            let c = reqs@[0].0 as int;
            assert(olds@[c] != news@[c]);
            assert(old(vals)@[c] == updates@[c]);
        }
    }
    let mut k: usize = 0;
    while k < reqs.len()
        invariant
            k <= reqs@.len(),
            write_requests_are(reqs@, CATEGORY_MONITOR, CMD_SET_VOL, seq![dst as u32], olds@, news@, 3),
            olds@.len() == old(vals)@.len(),
            news@.len() == updates@.len(),
            forall|i: int| 0 <= i < olds@.len() ==> #[trigger] olds@[i] == old(vals)@[i] as u32,
            forall|i: int| 0 <= i < news@.len() ==> #[trigger] news@[i] == updates@[i] as u32,
            reqs@.len() > 0 ==> !no_update_needed(old(vals)@, updates@),
            vals@.len() == old(vals)@.len(),
            k == 0 ==> vals@ == old(vals)@,
            forall|i: int|
                0 <= i < old(vals)@.len() ==> #[trigger] vals@[i] == old(vals)@[i] || (i
                    < updates@.len() && vals@[i] == updates@[i] && answered_request(proto, CATEGORY_MONITOR, CMD_SET_VOL, seq![i as u32, dst as u32, updates@[i] as u32])),
            forall|j: int|
                0 <= j < k ==> vals@[(#[trigger] reqs@[j]).0 as int] == updates@[reqs@[j].0 as int] && answered_request(proto, CATEGORY_MONITOR, CMD_SET_VOL, seq![reqs@[j].0 as int as u32, dst as u32, updates@[reqs@[j].0 as int] as u32]),
        decreases reqs@.len() - k,
    {
        let ch = reqs[k].0;
        let reply = transact(proto, &reqs[k].1, timeout_ms)?;
        let ghost prev = vals@;
        vals.set(ch, updates[ch]);
        proof {
            assert(reqs@[k as int].1.args@ =~= seq![ch as int as u32, dst as u32, updates@[ch as int] as u32]);
            assert(proto.answered(CATEGORY_MONITOR, CMD_SET_VOL, seq![ch as int as u32, dst as u32, updates@[ch as int] as u32], reply@));
            assert(answered_request(proto, CATEGORY_MONITOR, CMD_SET_VOL, seq![ch as int as u32, dst as u32, updates@[ch as int] as u32]));
            assert forall|j: int| 0 <= j < k + 1 implies vals@[(#[trigger] reqs@[j]).0 as int]
                == updates@[reqs@[j].0 as int] && answered_request(proto, CATEGORY_MONITOR, CMD_SET_VOL, seq![reqs@[j].0 as int as u32, dst as u32, updates@[reqs@[j].0 as int] as u32]) by {
                if j < k {
                    assert(prev[reqs@[j].0 as int] == updates@[reqs@[j].0 as int]);
                }
            }
        }
        k = k + 1;
    }
    proof {
        assert forall|i: int|
            0 <= i < old(vals)@.len() && i < updates@.len() implies #[trigger] vals@[i]
                == updates@[i] by {
            if old(vals)@[i] != updates@[i] {
                lemma_i32_code_injective(old(vals)@[i], updates@[i]);
                assert(olds@[i] != news@[i]);
                let j = choose|j: int| 0 <= j < reqs@.len() && #[trigger] reqs@[j].0 == i;
                assert(vals@[reqs@[j].0 as int] == updates@[reqs@[j].0 as int]);
            }
        }
        assert forall|i: int|
            0 <= i < old(vals)@.len() && i < updates@.len() && old(vals)@[i] != #[trigger] updates@[i] implies answered_request(proto, CATEGORY_MONITOR, CMD_SET_VOL, seq![i as u32, dst as u32, updates@[i] as u32]) by {
            lemma_i32_code_injective(old(vals)@[i], updates@[i]);
            assert(olds@[i] != news@[i]);
            let j = choose|j: int| 0 <= j < reqs@.len() && #[trigger] reqs@[j].0 == i;
            assert(answered_request(proto, CATEGORY_MONITOR, CMD_SET_VOL, seq![reqs@[j].0 as int as u32, dst as u32, updates@[reqs@[j].0 as int] as u32]));
        }
    }
    Ok(())
}

/// Update the mute of each channel which differs from the update, in order, up to the first
/// failure; the channels beyond the shorter of both are left as they are.
pub fn update_monitor_mutes<P: EfwProtocolExtManual>(proto: &P, dst: usize, vals: &mut Vec<bool>, updates: &[bool], timeout_ms: u32) -> (r: Result<
    (),
    EfwError,
>)
    ensures
        final(vals)@.len() == old(vals)@.len(),
        forall|i: int|
            0 <= i < old(vals)@.len() ==> #[trigger] final(vals)@[i] == old(vals)@[i] || (i
                < updates@.len() && final(vals)@[i] == updates@[i] && answered_request(proto, CATEGORY_MONITOR, CMD_SET_MUTE, seq![i as u32, dst as u32, (if updates@[i] { 1u32 } else { 0u32 })])),
        r.is_ok() ==> forall|i: int|
            0 <= i < old(vals)@.len() && i < updates@.len() ==> #[trigger] final(vals)@[i]
                == updates@[i],
        no_update_needed(old(vals)@, updates@) ==> r.is_ok() && final(vals)@ == old(vals)@,
        r.is_ok() ==> forall|i: int|
            0 <= i < old(vals)@.len() && i < updates@.len() && old(vals)@[i] != #[trigger] updates@[i] ==> answered_request(proto, CATEGORY_MONITOR, CMD_SET_MUTE, seq![i as u32, dst as u32, (if updates@[i] { 1u32 } else { 0u32 })]),
{
    let olds = bool_codes(vals.as_slice());
    let news = bool_codes(updates);
    let mut others: Vec<u32> = Vec::new();
    others.push(dst as u32);
    proof {
        assert(others@ =~= seq![dst as u32]);
    }
    let reqs = channel_write_requests(CATEGORY_MONITOR, CMD_SET_MUTE, others.as_slice(), olds.as_slice(), news.as_slice(), 3);
    proof {
        if no_update_needed(old(vals)@, updates@) && reqs@.len() > 0 {
            let c = reqs@[0].0 as int;
            assert(olds@[c] != news@[c]);
            assert(old(vals)@[c] == updates@[c]);
        }
    }
    let mut k: usize = 0;
    while k < reqs.len()
        invariant
            k <= reqs@.len(),
            write_requests_are(reqs@, CATEGORY_MONITOR, CMD_SET_MUTE, seq![dst as u32], olds@, news@, 3),
            olds@.len() == old(vals)@.len(),
            news@.len() == updates@.len(),
            forall|i: int| 0 <= i < olds@.len() ==> #[trigger] olds@[i] == (if old(vals)@[i] { 1u32 } else { 0u32 }),
            forall|i: int| 0 <= i < news@.len() ==> #[trigger] news@[i] == (if updates@[i] { 1u32 } else { 0u32 }),
            reqs@.len() > 0 ==> !no_update_needed(old(vals)@, updates@),
            vals@.len() == old(vals)@.len(),
            k == 0 ==> vals@ == old(vals)@,
            forall|i: int|
                0 <= i < old(vals)@.len() ==> #[trigger] vals@[i] == old(vals)@[i] || (i
                    < updates@.len() && vals@[i] == updates@[i] && answered_request(proto, CATEGORY_MONITOR, CMD_SET_MUTE, seq![i as u32, dst as u32, (if updates@[i] { 1u32 } else { 0u32 })])),
            forall|j: int|
                0 <= j < k ==> vals@[(#[trigger] reqs@[j]).0 as int] == updates@[reqs@[j].0 as int] && answered_request(proto, CATEGORY_MONITOR, CMD_SET_MUTE, seq![reqs@[j].0 as int as u32, dst as u32, (if updates@[reqs@[j].0 as int] { 1u32 } else { 0u32 })]),
        decreases reqs@.len() - k,
    {
        let ch = reqs[k].0;
        let reply = transact(proto, &reqs[k].1, timeout_ms)?;
        let ghost prev = vals@;
        vals.set(ch, updates[ch]);
        proof {
            assert(reqs@[k as int].1.args@ =~= seq![ch as int as u32, dst as u32, (if updates@[ch as int] { 1u32 } else { 0u32 })]);
            assert(proto.answered(CATEGORY_MONITOR, CMD_SET_MUTE, seq![ch as int as u32, dst as u32, (if updates@[ch as int] { 1u32 } else { 0u32 })], reply@));
            assert(answered_request(proto, CATEGORY_MONITOR, CMD_SET_MUTE, seq![ch as int as u32, dst as u32, (if updates@[ch as int] { 1u32 } else { 0u32 })]));
            assert forall|j: int| 0 <= j < k + 1 implies vals@[(#[trigger] reqs@[j]).0 as int]
                == updates@[reqs@[j].0 as int] && answered_request(proto, CATEGORY_MONITOR, CMD_SET_MUTE, seq![reqs@[j].0 as int as u32, dst as u32, (if updates@[reqs@[j].0 as int] { 1u32 } else { 0u32 })]) by {
                if j < k {
                    assert(prev[reqs@[j].0 as int] == updates@[reqs@[j].0 as int]);
                }
            }
        }
        k = k + 1;
    }
    proof {
        assert forall|i: int|
            0 <= i < old(vals)@.len() && i < updates@.len() implies #[trigger] vals@[i]
                == updates@[i] by {
            if old(vals)@[i] != updates@[i] {
                assert(olds@[i] != news@[i]);
                let j = choose|j: int| 0 <= j < reqs@.len() && #[trigger] reqs@[j].0 == i;
                assert(vals@[reqs@[j].0 as int] == updates@[reqs@[j].0 as int]);
            }
        }
        assert forall|i: int|
            0 <= i < old(vals)@.len() && i < updates@.len() && old(vals)@[i] != #[trigger] updates@[i] implies answered_request(proto, CATEGORY_MONITOR, CMD_SET_MUTE, seq![i as u32, dst as u32, (if updates@[i] { 1u32 } else { 0u32 })]) by {
            assert(olds@[i] != news@[i]);
            let j = choose|j: int| 0 <= j < reqs@.len() && #[trigger] reqs@[j].0 == i;
            assert(answered_request(proto, CATEGORY_MONITOR, CMD_SET_MUTE, seq![reqs@[j].0 as int as u32, dst as u32, (if updates@[reqs@[j].0 as int] { 1u32 } else { 0u32 })]));
        }
    }
    Ok(())
}

/// Update the solo of each channel which differs from the update, in order, up to the first
/// failure; the channels beyond the shorter of both are left as they are.
pub fn update_monitor_solos<P: EfwProtocolExtManual>(proto: &P, dst: usize, vals: &mut Vec<bool>, updates: &[bool], timeout_ms: u32) -> (r: Result<
    (),
    EfwError,
>)
    ensures
        final(vals)@.len() == old(vals)@.len(),
        forall|i: int|
            0 <= i < old(vals)@.len() ==> #[trigger] final(vals)@[i] == old(vals)@[i] || (i
                < updates@.len() && final(vals)@[i] == updates@[i] && answered_request(proto, CATEGORY_MONITOR, CMD_SET_SOLO, seq![i as u32, dst as u32, (if updates@[i] { 1u32 } else { 0u32 })])),
        r.is_ok() ==> forall|i: int|
            0 <= i < old(vals)@.len() && i < updates@.len() ==> #[trigger] final(vals)@[i]
                == updates@[i],
        no_update_needed(old(vals)@, updates@) ==> r.is_ok() && final(vals)@ == old(vals)@,
        r.is_ok() ==> forall|i: int|
            0 <= i < old(vals)@.len() && i < updates@.len() && old(vals)@[i] != #[trigger] updates@[i] ==> answered_request(proto, CATEGORY_MONITOR, CMD_SET_SOLO, seq![i as u32, dst as u32, (if updates@[i] { 1u32 } else { 0u32 })]),
{
    let olds = bool_codes(vals.as_slice());
    let news = bool_codes(updates);
    let mut others: Vec<u32> = Vec::new();
    others.push(dst as u32);
    proof {
        assert(others@ =~= seq![dst as u32]);
    }
    let reqs = channel_write_requests(CATEGORY_MONITOR, CMD_SET_SOLO, others.as_slice(), olds.as_slice(), news.as_slice(), 3);
    proof {
        if no_update_needed(old(vals)@, updates@) && reqs@.len() > 0 {
            let c = reqs@[0].0 as int;
            assert(olds@[c] != news@[c]);
            assert(old(vals)@[c] == updates@[c]);
        }
    }
    let mut k: usize = 0;
    while k < reqs.len()
        invariant
            k <= reqs@.len(),
            write_requests_are(reqs@, CATEGORY_MONITOR, CMD_SET_SOLO, seq![dst as u32], olds@, news@, 3),
            olds@.len() == old(vals)@.len(),
            news@.len() == updates@.len(),
            forall|i: int| 0 <= i < olds@.len() ==> #[trigger] olds@[i] == (if old(vals)@[i] { 1u32 } else { 0u32 }),
            forall|i: int| 0 <= i < news@.len() ==> #[trigger] news@[i] == (if updates@[i] { 1u32 } else { 0u32 }),
            reqs@.len() > 0 ==> !no_update_needed(old(vals)@, updates@),
            vals@.len() == old(vals)@.len(),
            k == 0 ==> vals@ == old(vals)@,
            forall|i: int|
                0 <= i < old(vals)@.len() ==> #[trigger] vals@[i] == old(vals)@[i] || (i
                    < updates@.len() && vals@[i] == updates@[i] && answered_request(proto, CATEGORY_MONITOR, CMD_SET_SOLO, seq![i as u32, dst as u32, (if updates@[i] { 1u32 } else { 0u32 })])),
            forall|j: int|
                0 <= j < k ==> vals@[(#[trigger] reqs@[j]).0 as int] == updates@[reqs@[j].0 as int] && answered_request(proto, CATEGORY_MONITOR, CMD_SET_SOLO, seq![reqs@[j].0 as int as u32, dst as u32, (if updates@[reqs@[j].0 as int] { 1u32 } else { 0u32 })]),
        decreases reqs@.len() - k,
    {
        let ch = reqs[k].0;
        let reply = transact(proto, &reqs[k].1, timeout_ms)?;
        let ghost prev = vals@;
        vals.set(ch, updates[ch]);
        proof {
            assert(reqs@[k as int].1.args@ =~= seq![ch as int as u32, dst as u32, (if updates@[ch as int] { 1u32 } else { 0u32 })]);
            assert(proto.answered(CATEGORY_MONITOR, CMD_SET_SOLO, seq![ch as int as u32, dst as u32, (if updates@[ch as int] { 1u32 } else { 0u32 })], reply@));
            assert(answered_request(proto, CATEGORY_MONITOR, CMD_SET_SOLO, seq![ch as int as u32, dst as u32, (if updates@[ch as int] { 1u32 } else { 0u32 })]));
            assert forall|j: int| 0 <= j < k + 1 implies vals@[(#[trigger] reqs@[j]).0 as int]
                == updates@[reqs@[j].0 as int] && answered_request(proto, CATEGORY_MONITOR, CMD_SET_SOLO, seq![reqs@[j].0 as int as u32, dst as u32, (if updates@[reqs@[j].0 as int] { 1u32 } else { 0u32 })]) by {
                if j < k {
                    assert(prev[reqs@[j].0 as int] == updates@[reqs@[j].0 as int]);
                }
            }
        }
        k = k + 1;
    }
    proof {
        assert forall|i: int|
            0 <= i < old(vals)@.len() && i < updates@.len() implies #[trigger] vals@[i]
                == updates@[i] by {
            if old(vals)@[i] != updates@[i] {
                assert(olds@[i] != news@[i]);
                let j = choose|j: int| 0 <= j < reqs@.len() && #[trigger] reqs@[j].0 == i;
                assert(vals@[reqs@[j].0 as int] == updates@[reqs@[j].0 as int]);
            }
        }
        assert forall|i: int|
            0 <= i < old(vals)@.len() && i < updates@.len() && old(vals)@[i] != #[trigger] updates@[i] implies answered_request(proto, CATEGORY_MONITOR, CMD_SET_SOLO, seq![i as u32, dst as u32, (if updates@[i] { 1u32 } else { 0u32 })]) by {
            assert(olds@[i] != news@[i]);
            let j = choose|j: int| 0 <= j < reqs@.len() && #[trigger] reqs@[j].0 == i;
            assert(answered_request(proto, CATEGORY_MONITOR, CMD_SET_SOLO, seq![reqs@[j].0 as int as u32, dst as u32, (if updates@[reqs@[j].0 as int] { 1u32 } else { 0u32 })]));
        }
    }
    Ok(())
}

/// Update the pan of each channel which differs from the update, in order, up to the first
/// failure; the channels beyond the shorter of both are left as they are.
pub fn update_monitor_pans<P: EfwProtocolExtManual>(proto: &P, dst: usize, vals: &mut Vec<u8>, updates: &[u8], timeout_ms: u32) -> (r: Result<
    (),
    EfwError,
>)
    ensures
        final(vals)@.len() == old(vals)@.len(),
        forall|i: int|
            0 <= i < old(vals)@.len() ==> #[trigger] final(vals)@[i] == old(vals)@[i] || (i
                < updates@.len() && final(vals)@[i] == updates@[i] && answered_request(proto, CATEGORY_MONITOR, CMD_SET_PAN, seq![i as u32, dst as u32, updates@[i] as u32])),
        r.is_ok() ==> forall|i: int|
            0 <= i < old(vals)@.len() && i < updates@.len() ==> #[trigger] final(vals)@[i]
                == updates@[i],
        no_update_needed(old(vals)@, updates@) ==> r.is_ok() && final(vals)@ == old(vals)@,
        r.is_ok() ==> forall|i: int|
            0 <= i < old(vals)@.len() && i < updates@.len() && old(vals)@[i] != #[trigger] updates@[i] ==> answered_request(proto, CATEGORY_MONITOR, CMD_SET_PAN, seq![i as u32, dst as u32, updates@[i] as u32]),
{
    let olds = u8_codes(vals.as_slice());
    let news = u8_codes(updates);
    let mut others: Vec<u32> = Vec::new();
    others.push(dst as u32);
    proof {
        assert(others@ =~= seq![dst as u32]);
    }
    let reqs = channel_write_requests(CATEGORY_MONITOR, CMD_SET_PAN, others.as_slice(), olds.as_slice(), news.as_slice(), 3);
    proof {
        if no_update_needed(old(vals)@, updates@) && reqs@.len() > 0 {
            let c = reqs@[0].0 as int;
            assert(olds@[c] != news@[c]);
            assert(old(vals)@[c] == updates@[c]);
        }
    }
    let mut k: usize = 0;
    while k < reqs.len()
        invariant
            k <= reqs@.len(),
            write_requests_are(reqs@, CATEGORY_MONITOR, CMD_SET_PAN, seq![dst as u32], olds@, news@, 3),
            olds@.len() == old(vals)@.len(),
            news@.len() == updates@.len(),
            forall|i: int| 0 <= i < olds@.len() ==> #[trigger] olds@[i] == old(vals)@[i] as u32,
            forall|i: int| 0 <= i < news@.len() ==> #[trigger] news@[i] == updates@[i] as u32,
            reqs@.len() > 0 ==> !no_update_needed(old(vals)@, updates@),
            vals@.len() == old(vals)@.len(),
            k == 0 ==> vals@ == old(vals)@,
            forall|i: int|
                0 <= i < old(vals)@.len() ==> #[trigger] vals@[i] == old(vals)@[i] || (i
                    < updates@.len() && vals@[i] == updates@[i] && answered_request(proto, CATEGORY_MONITOR, CMD_SET_PAN, seq![i as u32, dst as u32, updates@[i] as u32])),
            forall|j: int|
                0 <= j < k ==> vals@[(#[trigger] reqs@[j]).0 as int] == updates@[reqs@[j].0 as int] && answered_request(proto, CATEGORY_MONITOR, CMD_SET_PAN, seq![reqs@[j].0 as int as u32, dst as u32, updates@[reqs@[j].0 as int] as u32]),
        decreases reqs@.len() - k,
    {
        let ch = reqs[k].0;
        let reply = transact(proto, &reqs[k].1, timeout_ms)?;
        let ghost prev = vals@;
        vals.set(ch, updates[ch]);
        proof {
            assert(reqs@[k as int].1.args@ =~= seq![ch as int as u32, dst as u32, updates@[ch as int] as u32]);
            assert(proto.answered(CATEGORY_MONITOR, CMD_SET_PAN, seq![ch as int as u32, dst as u32, updates@[ch as int] as u32], reply@));
            assert(answered_request(proto, CATEGORY_MONITOR, CMD_SET_PAN, seq![ch as int as u32, dst as u32, updates@[ch as int] as u32]));
            assert forall|j: int| 0 <= j < k + 1 implies vals@[(#[trigger] reqs@[j]).0 as int]
                == updates@[reqs@[j].0 as int] && answered_request(proto, CATEGORY_MONITOR, CMD_SET_PAN, seq![reqs@[j].0 as int as u32, dst as u32, updates@[reqs@[j].0 as int] as u32]) by {
                if j < k {
                    assert(prev[reqs@[j].0 as int] == updates@[reqs@[j].0 as int]);
                }
            }
        }
        k = k + 1;
    }
    proof {
        assert forall|i: int|
            0 <= i < old(vals)@.len() && i < updates@.len() implies #[trigger] vals@[i]
                == updates@[i] by {
            if old(vals)@[i] != updates@[i] {
                assert(olds@[i] != news@[i]);
                let j = choose|j: int| 0 <= j < reqs@.len() && #[trigger] reqs@[j].0 == i;
                assert(vals@[reqs@[j].0 as int] == updates@[reqs@[j].0 as int]);
            }
        }
        assert forall|i: int|
            0 <= i < old(vals)@.len() && i < updates@.len() && old(vals)@[i] != #[trigger] updates@[i] implies answered_request(proto, CATEGORY_MONITOR, CMD_SET_PAN, seq![i as u32, dst as u32, updates@[i] as u32]) by {
            assert(olds@[i] != news@[i]);
            let j = choose|j: int| 0 <= j < reqs@.len() && #[trigger] reqs@[j].0 == i;
            assert(answered_request(proto, CATEGORY_MONITOR, CMD_SET_PAN, seq![reqs@[j].0 as int as u32, dst as u32, updates@[reqs@[j].0 as int] as u32]));
        }
    }
    Ok(())
}

/// Each parameter of the monitor sources to the destination is what the unit answered to the
/// request to get it.
pub open spec fn monitor_sources_answered<P: EfwProtocolExtManual>(
    proto: &P,
    dst: usize,
    sources: EfwMonitorSourceParameters,
) -> bool {
    &&& forall|c: int|
        0 <= c < sources.gains@.len() ==> answered_i32(
            proto,
            CATEGORY_MONITOR,
            CMD_GET_VOL,
            seq![c as u32, dst as u32, 0u32],
            2,
            #[trigger] sources.gains@[c],
        )
    &&& forall|c: int|
        0 <= c < sources.mutes@.len() ==> answered_switch(
            proto,
            CATEGORY_MONITOR,
            CMD_GET_MUTE,
            seq![c as u32, dst as u32, 0u32],
            2,
            #[trigger] sources.mutes@[c],
        )
    &&& forall|c: int|
        0 <= c < sources.solos@.len() ==> answered_switch(
            proto,
            CATEGORY_MONITOR,
            CMD_GET_SOLO,
            seq![c as u32, dst as u32, 0u32],
            2,
            #[trigger] sources.solos@[c],
        )
    &&& forall|c: int|
        0 <= c < sources.pans@.len() ==> answered_u8(
            proto,
            CATEGORY_MONITOR,
            CMD_GET_PAN,
            seq![c as u32, dst as u32, 0u32],
            2,
            #[trigger] sources.pans@[c],
        )
}

/// Cache the gains, mutes, solos and pans of the sources to the destination, in the order.
pub fn cache_monitor_sources<P: EfwProtocolExtManual>(
    proto: &P,
    dst: usize,
    sources: &mut EfwMonitorSourceParameters,
    timeout_ms: u32,
) -> (r: Result<(), EfwError>)
    ensures
        final(sources).gains@.len() == old(sources).gains@.len(),
        final(sources).mutes@.len() == old(sources).mutes@.len(),
        final(sources).solos@.len() == old(sources).solos@.len(),
        final(sources).pans@.len() == old(sources).pans@.len(),
        old(sources).gains@.len() == 0 && old(sources).mutes@.len() == 0 && old(sources).solos@.len()
            == 0 && old(sources).pans@.len() == 0 ==> r.is_ok() && same_sources(
            *final(sources),
            *old(sources),
        ),
        r.is_ok() ==> monitor_sources_answered(proto, dst, *final(sources)),
{
    cache_monitor_gains(proto, dst, &mut sources.gains, timeout_ms)?;
    cache_monitor_mutes(proto, dst, &mut sources.mutes, timeout_ms)?;
    cache_monitor_solos(proto, dst, &mut sources.solos, timeout_ms)?;
    cache_monitor_pans(proto, dst, &mut sources.pans, timeout_ms)
}

/// The unit answered the request to set each parameter of the monitor sources to the destination
/// which differs from its update, with the update.
pub open spec fn monitor_updates_sent<P: EfwProtocolExtManual>(
    proto: &P,
    dst: usize,
    olds: EfwMonitorSourceParameters,
    updates: EfwMonitorSourceParameters,
) -> bool {
    &&& forall|c: int|
        0 <= c < olds.gains@.len() && c < updates.gains@.len() && olds.gains@[c] != #[trigger] updates.gains@[c]
            ==> answered_request(proto, CATEGORY_MONITOR, CMD_SET_VOL, seq![c as u32, dst as u32, updates.gains@[c] as u32])
    &&& forall|c: int|
        0 <= c < olds.mutes@.len() && c < updates.mutes@.len() && olds.mutes@[c] != #[trigger] updates.mutes@[c]
            ==> answered_request(proto, CATEGORY_MONITOR, CMD_SET_MUTE, seq![c as u32, dst as u32, (if updates.mutes@[c] { 1u32 } else { 0u32 })])
    &&& forall|c: int|
        0 <= c < olds.solos@.len() && c < updates.solos@.len() && olds.solos@[c] != #[trigger] updates.solos@[c]
            ==> answered_request(proto, CATEGORY_MONITOR, CMD_SET_SOLO, seq![c as u32, dst as u32, (if updates.solos@[c] { 1u32 } else { 0u32 })])
    &&& forall|c: int|
        0 <= c < olds.pans@.len() && c < updates.pans@.len() && olds.pans@[c] != #[trigger] updates.pans@[c]
            ==> answered_request(proto, CATEGORY_MONITOR, CMD_SET_PAN, seq![c as u32, dst as u32, updates.pans@[c] as u32])
}

/// Update the gains, mutes, solos and pans of the sources to the destination which differ from
/// the updates, in the order.
pub fn update_monitor_sources<P: EfwProtocolExtManual>(
    proto: &P,
    dst: usize,
    sources: &mut EfwMonitorSourceParameters,
    updates: &EfwMonitorSourceParameters,
    timeout_ms: u32,
) -> (r: Result<(), EfwError>)
    requires
        monitor_sources_sized(*old(sources), old(sources).gains@.len()),
        monitor_sources_sized(*updates, old(sources).gains@.len()),
    ensures
        monitor_sources_sized(*final(sources), old(sources).gains@.len()),
        r.is_ok() ==> same_sources(*final(sources), *updates),
        same_sources(*old(sources), *updates) ==> r.is_ok() && same_sources(
            *final(sources),
            *old(sources),
        ),
        r.is_ok() ==> monitor_updates_sent(proto, dst, *old(sources), *updates),
{
    update_monitor_gains(proto, dst, &mut sources.gains, updates.gains.as_slice(), timeout_ms)?;
    update_monitor_mutes(proto, dst, &mut sources.mutes, updates.mutes.as_slice(), timeout_ms)?;
    update_monitor_solos(proto, dst, &mut sources.solos, updates.solos.as_slice(), timeout_ms)?;
    update_monitor_pans(proto, dst, &mut sources.pans, updates.pans.as_slice(), timeout_ms)?;
    proof {
        assert(sources.gains@ =~= updates.gains@);
        assert(sources.mutes@ =~= updates.mutes@);
        assert(sources.solos@ =~= updates.solos@);
        assert(sources.pans@ =~= updates.pans@);
    }
    Ok(())
}

impl<O: EfwHardwareSpecification, P: EfwProtocolExtManual> EfwWhollyCachableParamsOperation<
    P,
    EfwMonitorParameters,
> for O {
    open spec fn cache_acceptable(states: EfwMonitorParameters) -> bool {
        monitor_sized(states, O::MONITOR_DESTINATION_COUNT as nat, O::MONITOR_SOURCE_COUNT as nat)
    }

    fn cache_wholly(proto: &mut P, states: &mut EfwMonitorParameters, timeout_ms: u32) -> (r: Result<
        (),
        EfwError,
    >)
        ensures
            monitor_sized(*final(states), O::MONITOR_DESTINATION_COUNT as nat, O::MONITOR_SOURCE_COUNT as nat),
            O::MONITOR_DESTINATION_COUNT == 0 || O::MONITOR_SOURCE_COUNT == 0 ==> r.is_ok(),
            r.is_ok() ==> forall|d: int|
                0 <= d < final(states).0@.len() ==> monitor_sources_answered(
                    &*old(proto),
                    d as usize,
                    #[trigger] final(states).0@[d],
                ),
    {
        let count = states.0.len();
        let mut dst: usize = 0;
        while dst < count
            invariant
                dst <= count,
                count == states.0@.len(),
                monitor_sized(*states, O::MONITOR_DESTINATION_COUNT as nat, O::MONITOR_SOURCE_COUNT as nat),
                *proto == *old(proto),
                forall|d: int| 0 <= d < dst ==> monitor_sources_answered(&*old(proto), d as usize, #[trigger] states.0@[d]),
            decreases count - dst,
        {
            let ghost prev = states.0@;
            let mut sources = states.0.remove(dst);
            assert(monitor_sources_sized(prev[dst as int], O::MONITOR_SOURCE_COUNT as nat));
            let r = cache_monitor_sources(proto, dst, &mut sources, timeout_ms);
            states.0.insert(dst, sources);
            proof {
                assert(states.0@ =~= prev.update(dst as int, sources));
                assert forall|i: int| 0 <= i < states.0@.len() implies monitor_sources_sized(
                    #[trigger] states.0@[i],
                    O::MONITOR_SOURCE_COUNT as nat,
                ) by {
                    if i != dst {
                        assert(monitor_sources_sized(prev[i], O::MONITOR_SOURCE_COUNT as nat));
                    }
                }
                assert forall|d: int| 0 <= d < dst implies monitor_sources_answered(
                    &*old(proto),
                    d as usize,
                    #[trigger] states.0@[d],
                ) by {
                    assert(states.0@[d] == prev[d]);
                }
            }
            r?;
            proof {
                assert(states.0@[dst as int] == sources);
            }
            dst = dst + 1;
        }
        Ok(())
    }
}

impl<O: EfwHardwareSpecification, P: EfwProtocolExtManual> EfwPartiallyUpdatableParamsOperation<
    P,
    EfwMonitorParameters,
> for O {
    open spec fn partial_update_acceptable(states: EfwMonitorParameters, updates: EfwMonitorParameters) -> bool {
        &&& monitor_sized(states, O::MONITOR_DESTINATION_COUNT as nat, O::MONITOR_SOURCE_COUNT as nat)
        &&& forall|i: int| 0 <= i < updates.0@.len() ==> monitor_sources_sized(#[trigger] updates.0@[i], O::MONITOR_SOURCE_COUNT as nat)
    }

    fn update_partially(
        proto: &mut P,
        states: &mut EfwMonitorParameters,
        updates: EfwMonitorParameters,
        timeout_ms: u32,
    ) -> (r: Result<(), EfwError>)
        ensures
            monitor_sized(*final(states), O::MONITOR_DESTINATION_COUNT as nat, O::MONITOR_SOURCE_COUNT as nat),
            r.is_ok() ==> forall|i: int|
                0 <= i < old(states).0@.len() && i < updates.0@.len() ==> same_sources(
                    #[trigger] final(states).0@[i],
                    updates.0@[i],
                ),
            (forall|i: int|
                0 <= i < old(states).0@.len() && i < updates.0@.len() ==> same_sources(
                    #[trigger] old(states).0@[i],
                    updates.0@[i],
                )) ==> r.is_ok() && forall|i: int|
                0 <= i < old(states).0@.len() ==> same_sources(
                    #[trigger] final(states).0@[i],
                    old(states).0@[i],
                ),
            r.is_ok() ==> forall|d: int|
                0 <= d < old(states).0@.len() && d < updates.0@.len() ==> monitor_updates_sent(
                    &*old(proto),
                    d as usize,
                    #[trigger] old(states).0@[d],
                    updates.0@[d],
                ),
    {
        let ghost all_same = forall|i: int|
            0 <= i < old(states).0@.len() && i < updates.0@.len() ==> same_sources(
                #[trigger] old(states).0@[i],
                updates.0@[i],
            );
        let count = if states.0.len() < updates.0.len() {
            states.0.len()
        } else {
            updates.0.len()
        };
        let mut dst: usize = 0;
        while dst < count
            invariant
                dst <= count,
                count <= states.0@.len(),
                count <= updates.0@.len(),
                count == if old(states).0@.len() < updates.0@.len() { old(states).0@.len() } else { updates.0@.len() as nat },
                states.0@.len() == old(states).0@.len(),
                monitor_sized(*states, O::MONITOR_DESTINATION_COUNT as nat, O::MONITOR_SOURCE_COUNT as nat),
                forall|i: int| 0 <= i < updates.0@.len() ==> monitor_sources_sized(#[trigger] updates.0@[i], O::MONITOR_SOURCE_COUNT as nat),
                forall|i: int| 0 <= i < dst ==> same_sources(#[trigger] states.0@[i], updates.0@[i]),
                all_same == forall|i: int|
                    0 <= i < old(states).0@.len() && i < updates.0@.len() ==> same_sources(
                        #[trigger] old(states).0@[i],
                        updates.0@[i],
                    ),
                all_same ==> forall|i: int|
                    0 <= i < states.0@.len() ==> same_sources(#[trigger] states.0@[i], old(states).0@[i]),
                *proto == *old(proto),
                forall|i: int| dst <= i < states.0@.len() ==> #[trigger] states.0@[i] == old(states).0@[i],
                forall|d: int|
                    0 <= d < dst ==> monitor_updates_sent(
                        &*old(proto),
                        d as usize,
                        #[trigger] old(states).0@[d],
                        updates.0@[d],
                    ),
            decreases count - dst,
        {
            let ghost prev = states.0@;
            proof {
                if all_same {
                    assert(same_sources(prev[dst as int], old(states).0@[dst as int]));
                    assert(same_sources(old(states).0@[dst as int], updates.0@[dst as int]));
                }
            }
            let mut sources = states.0.remove(dst);
            assert(monitor_sources_sized(prev[dst as int], O::MONITOR_SOURCE_COUNT as nat));
            assert(monitor_sources_sized(updates.0@[dst as int], O::MONITOR_SOURCE_COUNT as nat));
            let r = update_monitor_sources(proto, dst, &mut sources, &updates.0[dst], timeout_ms);
            states.0.insert(dst, sources);
            proof {
                assert(states.0@ =~= prev.update(dst as int, sources));
                assert forall|i: int| 0 <= i < states.0@.len() implies monitor_sources_sized(
                    #[trigger] states.0@[i],
                    O::MONITOR_SOURCE_COUNT as nat,
                ) by {
                    if i != dst {
                        assert(monitor_sources_sized(prev[i], O::MONITOR_SOURCE_COUNT as nat));
                    }
                }
                assert forall|i: int| 0 <= i < dst implies same_sources(#[trigger] states.0@[i], updates.0@[i]) by {
                    assert(same_sources(prev[i], updates.0@[i]));
                }
                if all_same {
                    assert forall|i: int| 0 <= i < states.0@.len() implies same_sources(
                        #[trigger] states.0@[i],
                        old(states).0@[i],
                    ) by {
                        assert(same_sources(prev[i], old(states).0@[i]));
                    }
                }
                assert forall|i: int| dst < i < states.0@.len() implies #[trigger] states.0@[i] == old(states).0@[i] by {
                    assert(states.0@[i] == prev[i]);
                }
                assert(prev[dst as int] == old(states).0@[dst as int]);
            }
            r?;
            dst = dst + 1;
        }
        Ok(())
    }
}

/// Protocol about input monitor for Fireworks board module.
pub trait MonitorProtocol: EfwProtocolExtManual + Sized {
    /// Set volume of monitor. The value of vol is unsigned fixed-point number of 8.24 format; i.e. Q24.
    /// (0x00000000..0x02000000, -144.0..+6.0 dB)
    fn set_monitor_vol(&mut self, dst: usize, src: usize, vol: i32, timeout_ms: u32) -> Result<(), EfwError> {
        let req = monitor_request(CMD_SET_VOL, src, dst, vol as u32);
        transact(self, &req, timeout_ms)?;
        Ok(())
    }

    /// Get volume of monitor. The value of vol is unsigned fixed-point number of 8.24 format; i.e. Q24.
    /// (0x00000000..0x02000000, -144.0..+6.0 dB)
    fn get_monitor_vol(&mut self, dst: usize, src: usize, timeout_ms: u32) -> Result<i32, EfwError> {
        let req = monitor_request(CMD_GET_VOL, src, dst, 0);
        let params = transact(self, &req, timeout_ms)?;
        parse_monitor_gain(params.as_slice())
    }

    /// Set mute of monitor.
    fn set_monitor_mute(&mut self, dst: usize, src: usize, mute: bool, timeout_ms: u32) -> Result<(), EfwError> {
        let req = monitor_request(CMD_SET_MUTE, src, dst, if mute { 1 } else { 0 });
        transact(self, &req, timeout_ms)?;
        Ok(())
    }

    /// Get mute of monitor.
    fn get_monitor_mute(&mut self, dst: usize, src: usize, timeout_ms: u32) -> Result<bool, EfwError> {
        let req = monitor_request(CMD_GET_MUTE, src, dst, 0);
        let params = transact(self, &req, timeout_ms)?;
        parse_monitor_switch(params.as_slice())
    }

    /// Set solo of monitor.
    fn set_monitor_solo(&mut self, dst: usize, src: usize, solo: bool, timeout_ms: u32) -> Result<(), EfwError> {
        let req = monitor_request(CMD_SET_SOLO, src, dst, if solo { 1 } else { 0 });
        transact(self, &req, timeout_ms)?;
        Ok(())
    }

    /// Get solo of monitor.
    fn get_monitor_solo(&mut self, dst: usize, src: usize, timeout_ms: u32) -> Result<bool, EfwError> {
        let req = monitor_request(CMD_GET_SOLO, src, dst, 0);
        let params = transact(self, &req, timeout_ms)?;
        parse_monitor_switch(params.as_slice())
    }

    /// Set L/R balance of monitor. (0..255, left to right)
    fn set_monitor_pan(&mut self, dst: usize, src: usize, pan: u8, timeout_ms: u32) -> Result<(), EfwError> {
        let req = monitor_request(CMD_SET_PAN, src, dst, pan as u32);
        transact(self, &req, timeout_ms)?;
        Ok(())
    }

    /// Get L/R balance of monitor. (0..255, left to right)
    fn get_monitor_pan(&mut self, dst: usize, src: usize, timeout_ms: u32) -> Result<u8, EfwError> {
        let req = monitor_request(CMD_GET_PAN, src, dst, 0);
        let params = transact(self, &req, timeout_ms)?;
        parse_monitor_pan(params.as_slice())
    }
}

impl<O: EfwProtocolExtManual> MonitorProtocol for O {

}

} // verus!
