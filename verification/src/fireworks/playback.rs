//! Protocol about stream playback.
//!
//! The module includes protocol about stream playback defined by Echo Audio Digital Corporation for
//! Fireworks board module.

use crate::fireworks::{
    store_reply, no_update_needed, channel_request_is, answered_request, answered_i32, answered_switch, channel_read_requests, channel_write_requests, write_requests_are, i32_codes, bool_codes, lemma_i32_code_injective,
    param_at, transact, EfwError, EfwHardwareSpecification, EfwPartiallyUpdatableParamsOperation,
    EfwProtocolExtManual, EfwRequest, EfwWhollyCachableParamsOperation,
};
use vstd::prelude::*;

verus! {

/// The category of commands for playback.
pub const CATEGORY_PLAYBACK: u32 = 6;

/// The command to set volume.
pub const CMD_SET_VOL: u32 = 0;
/// The command to get volume.
pub const CMD_GET_VOL: u32 = 1;
/// The command to set mute.
pub const CMD_SET_MUTE: u32 = 2;
/// The command to get mute.
pub const CMD_GET_MUTE: u32 = 3;
/// The command to set solo.
pub const CMD_SET_SOLO: u32 = 4;
/// The command to get solo.
pub const CMD_GET_SOLO: u32 = 5;

/// The parameters of playback.
#[derive(Default, Debug, Clone, PartialEq, Eq)]
pub struct EfwPlaybackParameters {
    /// The volume of playback. The value is unsigned fixed-point number of 8.24 format; i.e. Q24.
    /// It is between 0x00000000..0x02000000 for -144.0..+6.0 dB.
    pub volumes: Vec<i32>,
    /// Whether to mute the playback.
    pub mutes: Vec<bool>,
}

/// The request of the command for the playback channel, with the value.
pub fn playback_request(command: u32, ch: usize, value: u32) -> (r: EfwRequest)
    ensures
        r.category == CATEGORY_PLAYBACK,
        r.command == command,
        r.args@ == seq![ch as u32, value],
        r.params_len == 2,
{
    EfwRequest { category: CATEGORY_PLAYBACK, command, args: vec![ch as u32, value], params_len: 2 }
}

/// The volume in the parameters of response.
pub fn parse_playback_volume(params: &[u32]) -> (r: Result<i32, EfwError>)
    ensures
        r.is_ok() <==> params@.len() > 1,
        r.is_ok() ==> r == Ok::<i32, EfwError>(params@[1] as i32),
{
    let val = param_at(params, 1)?;
    Ok(val as i32)
}

/// The switch of mute or solo in the parameters of response.
pub fn parse_playback_switch(params: &[u32]) -> (r: Result<bool, EfwError>)
    ensures
        r.is_ok() <==> params@.len() > 1,
        r.is_ok() ==> r == Ok::<bool, EfwError>(params@[1] > 0),
{
    let val = param_at(params, 1)?;
    Ok(val > 0)
}

/// Cache the volume of each channel in order, up to the first failure.
pub fn cache_playback_volumes<P: EfwProtocolExtManual>(proto: &P, vals: &mut Vec<i32>, timeout_ms: u32) -> (r: Result<
    (),
    EfwError,
>)
    ensures
        final(vals)@.len() == old(vals)@.len(),
        old(vals)@.len() == 0 ==> r.is_ok() && final(vals)@ == old(vals)@,
        forall|c: int|
            0 <= c < old(vals)@.len() ==> #[trigger] final(vals)@[c] == old(vals)@[c] || answered_i32(
                proto,
                CATEGORY_PLAYBACK,
                CMD_GET_VOL,
                seq![c as u32, 0u32],
                1,
                final(vals)@[c],
            ),
        r.is_ok() ==> forall|c: int|
            0 <= c < old(vals)@.len() ==> answered_i32(proto, CATEGORY_PLAYBACK, CMD_GET_VOL, seq![c as u32, 0u32], 1, #[trigger] final(vals)@[c]),
{
    let mut others: Vec<u32> = Vec::new();
    others.push(0);
    proof {
        assert(others@ =~= seq![0u32]);
    }
    let reqs = channel_read_requests(CATEGORY_PLAYBACK, CMD_GET_VOL, others.as_slice(), vals.len(), 2);
    let mut ch: usize = 0;
    while ch < vals.len()
        invariant
            ch <= vals@.len(),
            vals@.len() == old(vals)@.len(),
            reqs@.len() == vals@.len(),
            ch == 0 ==> vals@ == old(vals)@,
            forall|c: int| 0 <= c < reqs@.len() ==> channel_request_is(#[trigger] reqs@[c], CATEGORY_PLAYBACK, CMD_GET_VOL, c, seq![0u32], 2),
            forall|c: int|
                0 <= c < vals@.len() ==> #[trigger] vals@[c] == old(vals)@[c] || answered_i32(
                    proto,
                    CATEGORY_PLAYBACK,
                    CMD_GET_VOL,
                    seq![c as u32, 0u32],
                    1,
                    vals@[c],
                ),
            forall|c: int| 0 <= c < ch ==> answered_i32(proto, CATEGORY_PLAYBACK, CMD_GET_VOL, seq![c as u32, 0u32], 1, #[trigger] vals@[c]),
        decreases vals@.len() - ch,
    {
        let params = transact(proto, &reqs[ch], timeout_ms)?;
        let ghost prev = vals@;
        store_reply(vals, ch, parse_playback_volume(params.as_slice()))?;
        proof {
            assert(reqs@[ch as int].args@ =~= seq![ch as u32, 0u32]);
            assert(proto.answered(CATEGORY_PLAYBACK, CMD_GET_VOL, seq![ch as u32, 0u32], params@));
            assert(answered_i32(proto, CATEGORY_PLAYBACK, CMD_GET_VOL, seq![ch as u32, 0u32], 1, vals@[ch as int]));
            assert forall|c: int| 0 <= c < vals@.len() && c != ch implies #[trigger] vals@[c] == prev[c] by {}
        }
        ch = ch + 1;
    }
    Ok(())
}

/// Cache the mute of each channel in order, up to the first failure.
pub fn cache_playback_mutes<P: EfwProtocolExtManual>(proto: &P, vals: &mut Vec<bool>, timeout_ms: u32) -> (r: Result<
    (),
    EfwError,
>)
    ensures
        final(vals)@.len() == old(vals)@.len(),
        old(vals)@.len() == 0 ==> r.is_ok() && final(vals)@ == old(vals)@,
        forall|c: int|
            0 <= c < old(vals)@.len() ==> #[trigger] final(vals)@[c] == old(vals)@[c] || answered_switch(
                proto,
                CATEGORY_PLAYBACK,
                CMD_GET_MUTE,
                seq![c as u32, 0u32],
                1,
                final(vals)@[c],
            ),
        r.is_ok() ==> forall|c: int|
            0 <= c < old(vals)@.len() ==> answered_switch(proto, CATEGORY_PLAYBACK, CMD_GET_MUTE, seq![c as u32, 0u32], 1, #[trigger] final(vals)@[c]),
{
    let mut others: Vec<u32> = Vec::new();
    others.push(0);
    proof {
        assert(others@ =~= seq![0u32]);
    }
    let reqs = channel_read_requests(CATEGORY_PLAYBACK, CMD_GET_MUTE, others.as_slice(), vals.len(), 2);
    let mut ch: usize = 0;
    while ch < vals.len()
        invariant
            ch <= vals@.len(),
            vals@.len() == old(vals)@.len(),
            reqs@.len() == vals@.len(),
            ch == 0 ==> vals@ == old(vals)@,
            forall|c: int| 0 <= c < reqs@.len() ==> channel_request_is(#[trigger] reqs@[c], CATEGORY_PLAYBACK, CMD_GET_MUTE, c, seq![0u32], 2),
            forall|c: int|
                0 <= c < vals@.len() ==> #[trigger] vals@[c] == old(vals)@[c] || answered_switch(
                    proto,
                    CATEGORY_PLAYBACK,
                    CMD_GET_MUTE,
                    seq![c as u32, 0u32],
                    1,
                    vals@[c],
                ),
            forall|c: int| 0 <= c < ch ==> answered_switch(proto, CATEGORY_PLAYBACK, CMD_GET_MUTE, seq![c as u32, 0u32], 1, #[trigger] vals@[c]),
        decreases vals@.len() - ch,
    {
        let params = transact(proto, &reqs[ch], timeout_ms)?;
        let ghost prev = vals@;
        store_reply(vals, ch, parse_playback_switch(params.as_slice()))?;
        proof {
            assert(reqs@[ch as int].args@ =~= seq![ch as u32, 0u32]);
            assert(proto.answered(CATEGORY_PLAYBACK, CMD_GET_MUTE, seq![ch as u32, 0u32], params@));
            assert(answered_switch(proto, CATEGORY_PLAYBACK, CMD_GET_MUTE, seq![ch as u32, 0u32], 1, vals@[ch as int]));
            assert forall|c: int| 0 <= c < vals@.len() && c != ch implies #[trigger] vals@[c] == prev[c] by {}
        }
        ch = ch + 1;
    }
    Ok(())
}

/// Cache the solo of each channel in order, up to the first failure.
pub fn cache_playback_solos<P: EfwProtocolExtManual>(proto: &P, vals: &mut Vec<bool>, timeout_ms: u32) -> (r: Result<
    (),
    EfwError,
>)
    ensures
        final(vals)@.len() == old(vals)@.len(),
        old(vals)@.len() == 0 ==> r.is_ok() && final(vals)@ == old(vals)@,
        forall|c: int|
            0 <= c < old(vals)@.len() ==> #[trigger] final(vals)@[c] == old(vals)@[c] || answered_switch(
                proto,
                CATEGORY_PLAYBACK,
                CMD_GET_SOLO,
                seq![c as u32, 0u32],
                1,
                final(vals)@[c],
            ),
        r.is_ok() ==> forall|c: int|
            0 <= c < old(vals)@.len() ==> answered_switch(proto, CATEGORY_PLAYBACK, CMD_GET_SOLO, seq![c as u32, 0u32], 1, #[trigger] final(vals)@[c]),
{
    let mut others: Vec<u32> = Vec::new();
    others.push(0);
    proof {
        assert(others@ =~= seq![0u32]);
    }
    let reqs = channel_read_requests(CATEGORY_PLAYBACK, CMD_GET_SOLO, others.as_slice(), vals.len(), 2);
    let mut ch: usize = 0;
    while ch < vals.len()
        invariant
            ch <= vals@.len(),
            vals@.len() == old(vals)@.len(),
            reqs@.len() == vals@.len(),
            ch == 0 ==> vals@ == old(vals)@,
            forall|c: int| 0 <= c < reqs@.len() ==> channel_request_is(#[trigger] reqs@[c], CATEGORY_PLAYBACK, CMD_GET_SOLO, c, seq![0u32], 2),
            forall|c: int|
                0 <= c < vals@.len() ==> #[trigger] vals@[c] == old(vals)@[c] || answered_switch(
                    proto,
                    CATEGORY_PLAYBACK,
                    CMD_GET_SOLO,
                    seq![c as u32, 0u32],
                    1,
                    vals@[c],
                ),
            forall|c: int| 0 <= c < ch ==> answered_switch(proto, CATEGORY_PLAYBACK, CMD_GET_SOLO, seq![c as u32, 0u32], 1, #[trigger] vals@[c]),
        decreases vals@.len() - ch,
    {
        let params = transact(proto, &reqs[ch], timeout_ms)?;
        let ghost prev = vals@;
        store_reply(vals, ch, parse_playback_switch(params.as_slice()))?;
        proof {
            assert(reqs@[ch as int].args@ =~= seq![ch as u32, 0u32]);
            assert(proto.answered(CATEGORY_PLAYBACK, CMD_GET_SOLO, seq![ch as u32, 0u32], params@));
            assert(answered_switch(proto, CATEGORY_PLAYBACK, CMD_GET_SOLO, seq![ch as u32, 0u32], 1, vals@[ch as int]));
            assert forall|c: int| 0 <= c < vals@.len() && c != ch implies #[trigger] vals@[c] == prev[c] by {}
        }
        ch = ch + 1;
    }
    Ok(())
}

/// Update the volume of each channel which differs from the update, in order, up to the first
/// failure; the channels beyond the shorter of both are left as they are.
pub fn update_playback_volumes<P: EfwProtocolExtManual>(proto: &P, vals: &mut Vec<i32>, updates: &[i32], timeout_ms: u32) -> (r: Result<
    (),
    EfwError,
>)
    ensures
        final(vals)@.len() == old(vals)@.len(),
        forall|i: int|
            0 <= i < old(vals)@.len() ==> #[trigger] final(vals)@[i] == old(vals)@[i] || (i
                < updates@.len() && final(vals)@[i] == updates@[i] && answered_request(proto, CATEGORY_PLAYBACK, CMD_SET_VOL, seq![i as u32, updates@[i] as u32])),
        r.is_ok() ==> forall|i: int|
            0 <= i < old(vals)@.len() && i < updates@.len() ==> #[trigger] final(vals)@[i]
                == updates@[i],
        no_update_needed(old(vals)@, updates@) ==> r.is_ok() && final(vals)@ == old(vals)@,
        r.is_ok() ==> forall|i: int|
            0 <= i < old(vals)@.len() && i < updates@.len() && old(vals)@[i] != #[trigger] updates@[i] ==> answered_request(proto, CATEGORY_PLAYBACK, CMD_SET_VOL, seq![i as u32, updates@[i] as u32]),
{
    let olds = i32_codes(vals.as_slice());
    let news = i32_codes(updates);
    let others: Vec<u32> = Vec::new();
    proof {
        assert(others@ =~= Seq::<u32>::empty());
    }
    let reqs = channel_write_requests(CATEGORY_PLAYBACK, CMD_SET_VOL, others.as_slice(), olds.as_slice(), news.as_slice(), 2);
    proof {
        if no_update_needed(old(vals)@, updates@) && reqs@.len() > 0 {
            let c = reqs@[0].0 as int;
            assert(olds@[c] != news@[c]);
            assert(old(vals)@[c] == updates@[c]);
        }
    }
    let mut k: usize = 0;
    while k < reqs.len()
        invariant
            k <= reqs@.len(),
            write_requests_are(reqs@, CATEGORY_PLAYBACK, CMD_SET_VOL, Seq::<u32>::empty(), olds@, news@, 2),
            olds@.len() == old(vals)@.len(),
            news@.len() == updates@.len(),
            forall|i: int| 0 <= i < olds@.len() ==> #[trigger] olds@[i] == old(vals)@[i] as u32,
            forall|i: int| 0 <= i < news@.len() ==> #[trigger] news@[i] == updates@[i] as u32,
            reqs@.len() > 0 ==> !no_update_needed(old(vals)@, updates@),
            vals@.len() == old(vals)@.len(),
            k == 0 ==> vals@ == old(vals)@,
            forall|i: int|
                0 <= i < old(vals)@.len() ==> #[trigger] vals@[i] == old(vals)@[i] || (i
                    < updates@.len() && vals@[i] == updates@[i] && answered_request(proto, CATEGORY_PLAYBACK, CMD_SET_VOL, seq![i as u32, updates@[i] as u32])),
            forall|j: int|
                0 <= j < k ==> vals@[(#[trigger] reqs@[j]).0 as int] == updates@[reqs@[j].0 as int] && answered_request(proto, CATEGORY_PLAYBACK, CMD_SET_VOL, seq![reqs@[j].0 as int as u32, updates@[reqs@[j].0 as int] as u32]),
        decreases reqs@.len() - k,
    {
        let ch = reqs[k].0;
        let reply = transact(proto, &reqs[k].1, timeout_ms)?;
        let ghost prev = vals@;
        vals.set(ch, updates[ch]);
        proof {
            assert(reqs@[k as int].1.args@ =~= seq![ch as int as u32, updates@[ch as int] as u32]);
            assert(proto.answered(CATEGORY_PLAYBACK, CMD_SET_VOL, seq![ch as int as u32, updates@[ch as int] as u32], reply@));
            assert(answered_request(proto, CATEGORY_PLAYBACK, CMD_SET_VOL, seq![ch as int as u32, updates@[ch as int] as u32]));
            assert forall|j: int| 0 <= j < k + 1 implies vals@[(#[trigger] reqs@[j]).0 as int]
                == updates@[reqs@[j].0 as int] && answered_request(proto, CATEGORY_PLAYBACK, CMD_SET_VOL, seq![reqs@[j].0 as int as u32, updates@[reqs@[j].0 as int] as u32]) by {
                if j < k {
                    assert(prev[reqs@[j].0 as int] == updates@[reqs@[j].0 as int]);
                }
            }
        }
        k = k + 1;
    }
    proof {
        assert forall|i: int|
            0 <= i < old(vals)@.len() && i < updates@.len() implies #[trigger] vals@[i]
                == updates@[i] by {
            if old(vals)@[i] != updates@[i] {
                lemma_i32_code_injective(old(vals)@[i], updates@[i]);
                assert(olds@[i] != news@[i]);
                let j = choose|j: int| 0 <= j < reqs@.len() && #[trigger] reqs@[j].0 == i;
                assert(vals@[reqs@[j].0 as int] == updates@[reqs@[j].0 as int]);
            }
        }
        assert forall|i: int|
            0 <= i < old(vals)@.len() && i < updates@.len() && old(vals)@[i] != #[trigger] updates@[i] implies answered_request(proto, CATEGORY_PLAYBACK, CMD_SET_VOL, seq![i as u32, updates@[i] as u32]) by {
            lemma_i32_code_injective(old(vals)@[i], updates@[i]);
            assert(olds@[i] != news@[i]);
            let j = choose|j: int| 0 <= j < reqs@.len() && #[trigger] reqs@[j].0 == i;
            assert(answered_request(proto, CATEGORY_PLAYBACK, CMD_SET_VOL, seq![reqs@[j].0 as int as u32, updates@[reqs@[j].0 as int] as u32]));
        }
    }
    Ok(())
}

/// Update the mute of each channel which differs from the update, in order, up to the first
/// failure; the channels beyond the shorter of both are left as they are.
pub fn update_playback_mutes<P: EfwProtocolExtManual>(proto: &P, vals: &mut Vec<bool>, updates: &[bool], timeout_ms: u32) -> (r: Result<
    (),
    EfwError,
>)
    ensures
        final(vals)@.len() == old(vals)@.len(),
        forall|i: int|
            0 <= i < old(vals)@.len() ==> #[trigger] final(vals)@[i] == old(vals)@[i] || (i
                < updates@.len() && final(vals)@[i] == updates@[i] && answered_request(proto, CATEGORY_PLAYBACK, CMD_SET_MUTE, seq![i as u32, (if updates@[i] { 1u32 } else { 0u32 })])),
        r.is_ok() ==> forall|i: int|
            0 <= i < old(vals)@.len() && i < updates@.len() ==> #[trigger] final(vals)@[i]
                == updates@[i],
        no_update_needed(old(vals)@, updates@) ==> r.is_ok() && final(vals)@ == old(vals)@,
        r.is_ok() ==> forall|i: int|
            0 <= i < old(vals)@.len() && i < updates@.len() && old(vals)@[i] != #[trigger] updates@[i] ==> answered_request(proto, CATEGORY_PLAYBACK, CMD_SET_MUTE, seq![i as u32, (if updates@[i] { 1u32 } else { 0u32 })]),
{
    let olds = bool_codes(vals.as_slice());
    let news = bool_codes(updates);
    let others: Vec<u32> = Vec::new();
    proof {
        assert(others@ =~= Seq::<u32>::empty());
    }
    let reqs = channel_write_requests(CATEGORY_PLAYBACK, CMD_SET_MUTE, others.as_slice(), olds.as_slice(), news.as_slice(), 2);
    proof {
        if no_update_needed(old(vals)@, updates@) && reqs@.len() > 0 {
            let c = reqs@[0].0 as int;
            assert(olds@[c] != news@[c]);
            assert(old(vals)@[c] == updates@[c]);
        }
    }
    let mut k: usize = 0;
    while k < reqs.len()
        invariant
            k <= reqs@.len(),
            write_requests_are(reqs@, CATEGORY_PLAYBACK, CMD_SET_MUTE, Seq::<u32>::empty(), olds@, news@, 2),
            olds@.len() == old(vals)@.len(),
            news@.len() == updates@.len(),
            forall|i: int| 0 <= i < olds@.len() ==> #[trigger] olds@[i] == (if old(vals)@[i] { 1u32 } else { 0u32 }),
            forall|i: int| 0 <= i < news@.len() ==> #[trigger] news@[i] == (if updates@[i] { 1u32 } else { 0u32 }),
            reqs@.len() > 0 ==> !no_update_needed(old(vals)@, updates@),
            vals@.len() == old(vals)@.len(),
            k == 0 ==> vals@ == old(vals)@,
            forall|i: int|
                0 <= i < old(vals)@.len() ==> #[trigger] vals@[i] == old(vals)@[i] || (i
                    < updates@.len() && vals@[i] == updates@[i] && answered_request(proto, CATEGORY_PLAYBACK, CMD_SET_MUTE, seq![i as u32, (if updates@[i] { 1u32 } else { 0u32 })])),
            forall|j: int|
                0 <= j < k ==> vals@[(#[trigger] reqs@[j]).0 as int] == updates@[reqs@[j].0 as int] && answered_request(proto, CATEGORY_PLAYBACK, CMD_SET_MUTE, seq![reqs@[j].0 as int as u32, (if updates@[reqs@[j].0 as int] { 1u32 } else { 0u32 })]),
        decreases reqs@.len() - k,
    {
        let ch = reqs[k].0;
        let reply = transact(proto, &reqs[k].1, timeout_ms)?;
        let ghost prev = vals@;
        vals.set(ch, updates[ch]);
        proof {
            assert(reqs@[k as int].1.args@ =~= seq![ch as int as u32, (if updates@[ch as int] { 1u32 } else { 0u32 })]);
            assert(proto.answered(CATEGORY_PLAYBACK, CMD_SET_MUTE, seq![ch as int as u32, (if updates@[ch as int] { 1u32 } else { 0u32 })], reply@));
            assert(answered_request(proto, CATEGORY_PLAYBACK, CMD_SET_MUTE, seq![ch as int as u32, (if updates@[ch as int] { 1u32 } else { 0u32 })]));
            assert forall|j: int| 0 <= j < k + 1 implies vals@[(#[trigger] reqs@[j]).0 as int]
                == updates@[reqs@[j].0 as int] && answered_request(proto, CATEGORY_PLAYBACK, CMD_SET_MUTE, seq![reqs@[j].0 as int as u32, (if updates@[reqs@[j].0 as int] { 1u32 } else { 0u32 })]) by {
                if j < k {
                    assert(prev[reqs@[j].0 as int] == updates@[reqs@[j].0 as int]);
                }
            }
        }
        k = k + 1;
    }
    proof {
        assert forall|i: int|
            0 <= i < old(vals)@.len() && i < updates@.len() implies #[trigger] vals@[i]
                == updates@[i] by {
            if old(vals)@[i] != updates@[i] {
                assert(olds@[i] != news@[i]);
                let j = choose|j: int| 0 <= j < reqs@.len() && #[trigger] reqs@[j].0 == i;
                assert(vals@[reqs@[j].0 as int] == updates@[reqs@[j].0 as int]);
            }
        }
        assert forall|i: int|
            0 <= i < old(vals)@.len() && i < updates@.len() && old(vals)@[i] != #[trigger] updates@[i] implies answered_request(proto, CATEGORY_PLAYBACK, CMD_SET_MUTE, seq![i as u32, (if updates@[i] { 1u32 } else { 0u32 })]) by {
            assert(olds@[i] != news@[i]);
            let j = choose|j: int| 0 <= j < reqs@.len() && #[trigger] reqs@[j].0 == i;
            assert(answered_request(proto, CATEGORY_PLAYBACK, CMD_SET_MUTE, seq![reqs@[j].0 as int as u32, (if updates@[reqs@[j].0 as int] { 1u32 } else { 0u32 })]));
        }
    }
    Ok(())
}

/// Update the solo of each channel which differs from the update, in order, up to the first
/// failure; the channels beyond the shorter of both are left as they are.
pub fn update_playback_solos<P: EfwProtocolExtManual>(proto: &P, vals: &mut Vec<bool>, updates: &[bool], timeout_ms: u32) -> (r: Result<
    (),
    EfwError,
>)
    ensures
        final(vals)@.len() == old(vals)@.len(),
        forall|i: int|
            0 <= i < old(vals)@.len() ==> #[trigger] final(vals)@[i] == old(vals)@[i] || (i
                < updates@.len() && final(vals)@[i] == updates@[i] && answered_request(proto, CATEGORY_PLAYBACK, CMD_SET_SOLO, seq![i as u32, (if updates@[i] { 1u32 } else { 0u32 })])),
        r.is_ok() ==> forall|i: int|
            0 <= i < old(vals)@.len() && i < updates@.len() ==> #[trigger] final(vals)@[i]
                == updates@[i],
        no_update_needed(old(vals)@, updates@) ==> r.is_ok() && final(vals)@ == old(vals)@,
        r.is_ok() ==> forall|i: int|
            0 <= i < old(vals)@.len() && i < updates@.len() && old(vals)@[i] != #[trigger] updates@[i] ==> answered_request(proto, CATEGORY_PLAYBACK, CMD_SET_SOLO, seq![i as u32, (if updates@[i] { 1u32 } else { 0u32 })]),
{
    let olds = bool_codes(vals.as_slice());
    let news = bool_codes(updates);
    let others: Vec<u32> = Vec::new();
    proof {
        assert(others@ =~= Seq::<u32>::empty());
    }
    let reqs = channel_write_requests(CATEGORY_PLAYBACK, CMD_SET_SOLO, others.as_slice(), olds.as_slice(), news.as_slice(), 2);
    proof {
        if no_update_needed(old(vals)@, updates@) && reqs@.len() > 0 {
            let c = reqs@[0].0 as int;
            assert(olds@[c] != news@[c]);
            assert(old(vals)@[c] == updates@[c]);
        }
    }
    let mut k: usize = 0;
    while k < reqs.len()
        invariant
            k <= reqs@.len(),
            write_requests_are(reqs@, CATEGORY_PLAYBACK, CMD_SET_SOLO, Seq::<u32>::empty(), olds@, news@, 2),
            olds@.len() == old(vals)@.len(),
            news@.len() == updates@.len(),
            forall|i: int| 0 <= i < olds@.len() ==> #[trigger] olds@[i] == (if old(vals)@[i] { 1u32 } else { 0u32 }),
            forall|i: int| 0 <= i < news@.len() ==> #[trigger] news@[i] == (if updates@[i] { 1u32 } else { 0u32 }),
            reqs@.len() > 0 ==> !no_update_needed(old(vals)@, updates@),
            vals@.len() == old(vals)@.len(),
            k == 0 ==> vals@ == old(vals)@,
            forall|i: int|
                0 <= i < old(vals)@.len() ==> #[trigger] vals@[i] == old(vals)@[i] || (i
                    < updates@.len() && vals@[i] == updates@[i] && answered_request(proto, CATEGORY_PLAYBACK, CMD_SET_SOLO, seq![i as u32, (if updates@[i] { 1u32 } else { 0u32 })])),
            forall|j: int|
                0 <= j < k ==> vals@[(#[trigger] reqs@[j]).0 as int] == updates@[reqs@[j].0 as int] && answered_request(proto, CATEGORY_PLAYBACK, CMD_SET_SOLO, seq![reqs@[j].0 as int as u32, (if updates@[reqs@[j].0 as int] { 1u32 } else { 0u32 })]),
        decreases reqs@.len() - k,
    {
        let ch = reqs[k].0;
        let reply = transact(proto, &reqs[k].1, timeout_ms)?;
        let ghost prev = vals@;
        vals.set(ch, updates[ch]);
        proof {
            assert(reqs@[k as int].1.args@ =~= seq![ch as int as u32, (if updates@[ch as int] { 1u32 } else { 0u32 })]);
            assert(proto.answered(CATEGORY_PLAYBACK, CMD_SET_SOLO, seq![ch as int as u32, (if updates@[ch as int] { 1u32 } else { 0u32 })], reply@));
            assert(answered_request(proto, CATEGORY_PLAYBACK, CMD_SET_SOLO, seq![ch as int as u32, (if updates@[ch as int] { 1u32 } else { 0u32 })]));
            assert forall|j: int| 0 <= j < k + 1 implies vals@[(#[trigger] reqs@[j]).0 as int]
                == updates@[reqs@[j].0 as int] && answered_request(proto, CATEGORY_PLAYBACK, CMD_SET_SOLO, seq![reqs@[j].0 as int as u32, (if updates@[reqs@[j].0 as int] { 1u32 } else { 0u32 })]) by {
                if j < k {
                    assert(prev[reqs@[j].0 as int] == updates@[reqs@[j].0 as int]);
                }
            }
        }
        k = k + 1;
    }
    proof {
        assert forall|i: int|
            0 <= i < old(vals)@.len() && i < updates@.len() implies #[trigger] vals@[i]
                == updates@[i] by {
            if old(vals)@[i] != updates@[i] {
                assert(olds@[i] != news@[i]);
                let j = choose|j: int| 0 <= j < reqs@.len() && #[trigger] reqs@[j].0 == i;
                assert(vals@[reqs@[j].0 as int] == updates@[reqs@[j].0 as int]);
            }
        }
        assert forall|i: int|
            0 <= i < old(vals)@.len() && i < updates@.len() && old(vals)@[i] != #[trigger] updates@[i] implies answered_request(proto, CATEGORY_PLAYBACK, CMD_SET_SOLO, seq![i as u32, (if updates@[i] { 1u32 } else { 0u32 })]) by {
            assert(olds@[i] != news@[i]);
            let j = choose|j: int| 0 <= j < reqs@.len() && #[trigger] reqs@[j].0 == i;
            assert(answered_request(proto, CATEGORY_PLAYBACK, CMD_SET_SOLO, seq![reqs@[j].0 as int as u32, (if updates@[reqs@[j].0 as int] { 1u32 } else { 0u32 })]));
        }
    }
    Ok(())
}

impl<O: EfwHardwareSpecification, P: EfwProtocolExtManual> EfwWhollyCachableParamsOperation<
    P,
    EfwPlaybackParameters,
> for O {
    open spec fn cache_acceptable(states: EfwPlaybackParameters) -> bool {
        states.volumes@.len() == O::RX_CHANNEL_COUNTS[0] && states.mutes@.len() == O::RX_CHANNEL_COUNTS[0]
    }

    fn cache_wholly(proto: &mut P, states: &mut EfwPlaybackParameters, timeout_ms: u32) -> (r: Result<
        (),
        EfwError,
    >)
        ensures
            final(states).volumes@.len() == old(states).volumes@.len(),
            final(states).mutes@.len() == old(states).mutes@.len(),
            old(states).volumes@.len() == 0 && old(states).mutes@.len() == 0 ==> r.is_ok(),
            r.is_ok() ==> forall|c: int|
                0 <= c < final(states).volumes@.len() ==> answered_i32(&*old(proto), CATEGORY_PLAYBACK, CMD_GET_VOL, seq![c as u32, 0u32], 1, #[trigger] final(states).volumes@[c]),
            r.is_ok() ==> forall|c: int|
                0 <= c < final(states).mutes@.len() ==> answered_switch(&*old(proto), CATEGORY_PLAYBACK, CMD_GET_MUTE, seq![c as u32, 0u32], 1, #[trigger] final(states).mutes@[c]),
    {
        cache_playback_volumes(proto, &mut states.volumes, timeout_ms)?;
        cache_playback_mutes(proto, &mut states.mutes, timeout_ms)?;
        Ok(())
    }
}

impl<O: EfwHardwareSpecification, P: EfwProtocolExtManual> EfwPartiallyUpdatableParamsOperation<
    P,
    EfwPlaybackParameters,
> for O {
    open spec fn partial_update_acceptable(states: EfwPlaybackParameters, updates: EfwPlaybackParameters) -> bool {
        &&& states.volumes@.len() == O::RX_CHANNEL_COUNTS[0]
        &&& states.mutes@.len() == O::RX_CHANNEL_COUNTS[0]
        &&& updates.volumes@.len() == O::RX_CHANNEL_COUNTS[0]
        &&& updates.mutes@.len() == O::RX_CHANNEL_COUNTS[0]
    }

    fn update_partially(
        proto: &mut P,
        states: &mut EfwPlaybackParameters,
        updates: EfwPlaybackParameters,
        timeout_ms: u32,
    ) -> (r: Result<(), EfwError>)
        ensures
            r.is_ok() ==> final(states).volumes@ == updates.volumes@ && final(states).mutes@
                == updates.mutes@,
            no_update_needed(old(states).volumes@, updates.volumes@) && no_update_needed(
                old(states).mutes@,
                updates.mutes@,
            ) ==> r.is_ok() && final(states).volumes@ == old(states).volumes@ && final(states).mutes@
                == old(states).mutes@,
            r.is_ok() ==> forall|i: int|
                0 <= i < old(states).volumes@.len() && i < updates.volumes@.len() && old(states).volumes@[i] != #[trigger] updates.volumes@[i]
                    ==> answered_request(&*old(proto), CATEGORY_PLAYBACK, CMD_SET_VOL, seq![i as u32, updates.volumes@[i] as u32]),
            r.is_ok() ==> forall|i: int|
                0 <= i < old(states).mutes@.len() && i < updates.mutes@.len() && old(states).mutes@[i] != #[trigger] updates.mutes@[i]
                    ==> answered_request(&*old(proto), CATEGORY_PLAYBACK, CMD_SET_MUTE, seq![i as u32, (if updates.mutes@[i] { 1u32 } else { 0u32 })]),
    {
        update_playback_volumes(proto, &mut states.volumes, updates.volumes.as_slice(), timeout_ms)?;
        update_playback_mutes(proto, &mut states.mutes, updates.mutes.as_slice(), timeout_ms)?;
        proof {
            assert(states.volumes@ =~= updates.volumes@);
            assert(states.mutes@ =~= updates.mutes@);
        }
        Ok(())
    }
}

/// The parameters of playback.
#[derive(Default, Debug, Clone, PartialEq, Eq)]
pub struct EfwPlaybackSoloParameters {
    /// Whether to mute the other channels.
    pub solos: Vec<bool>,
}

/// The specification for solo of playback.
pub trait EfwPlaybackSoloSpecification: EfwHardwareSpecification {
    /// The parameters with a switch for each channel of playback.
    fn create_playback_solo_parameters() -> (r: EfwPlaybackSoloParameters)
        ensures
            r.solos@ == Seq::new(Self::RX_CHANNEL_COUNTS[0] as nat, |i: int| false),
    {
        let solos = vec![false; Self::RX_CHANNEL_COUNTS[0]];
        proof {
            assert(solos@ =~= Seq::new(Self::RX_CHANNEL_COUNTS[0] as nat, |i: int| false));
        }
        EfwPlaybackSoloParameters { solos }
    }
}

impl<O: EfwPlaybackSoloSpecification, P: EfwProtocolExtManual> EfwWhollyCachableParamsOperation<
    P,
    EfwPlaybackSoloParameters,
> for O {
    open spec fn cache_acceptable(states: EfwPlaybackSoloParameters) -> bool {
        states.solos@.len() == O::RX_CHANNEL_COUNTS[0]
    }

    fn cache_wholly(proto: &mut P, states: &mut EfwPlaybackSoloParameters, timeout_ms: u32) -> (r: Result<
        (),
        EfwError,
    >)
        ensures
            final(states).solos@.len() == old(states).solos@.len(),
            old(states).solos@.len() == 0 ==> r.is_ok(),
            r.is_ok() ==> forall|c: int|
                0 <= c < final(states).solos@.len() ==> answered_switch(&*old(proto), CATEGORY_PLAYBACK, CMD_GET_SOLO, seq![c as u32, 0u32], 1, #[trigger] final(states).solos@[c]),
    {
        cache_playback_solos(proto, &mut states.solos, timeout_ms)
    }
}

impl<O: EfwPlaybackSoloSpecification, P: EfwProtocolExtManual> EfwPartiallyUpdatableParamsOperation<
    P,
    EfwPlaybackSoloParameters,
> for O {
    open spec fn partial_update_acceptable(states: EfwPlaybackSoloParameters, updates: EfwPlaybackSoloParameters) -> bool {
        states.solos@.len() == O::RX_CHANNEL_COUNTS[0] && updates.solos@.len() == O::RX_CHANNEL_COUNTS[0]
    }

    fn update_partially(
        proto: &mut P,
        states: &mut EfwPlaybackSoloParameters,
        updates: EfwPlaybackSoloParameters,
        timeout_ms: u32,
    ) -> (r: Result<(), EfwError>)
        ensures
            r.is_ok() ==> final(states).solos@ == updates.solos@,
            no_update_needed(old(states).solos@, updates.solos@) ==> r.is_ok() && final(states).solos@
                == old(states).solos@,
            r.is_ok() ==> forall|i: int|
                0 <= i < old(states).solos@.len() && i < updates.solos@.len() && old(states).solos@[i] != #[trigger] updates.solos@[i]
                    ==> answered_request(&*old(proto), CATEGORY_PLAYBACK, CMD_SET_SOLO, seq![i as u32, (if updates.solos@[i] { 1u32 } else { 0u32 })]),
    {
        update_playback_solos(proto, &mut states.solos, updates.solos.as_slice(), timeout_ms)?;
        proof {
            assert(states.solos@ =~= updates.solos@);
        }
        Ok(())
    }
}

/// Protocol about stream playback for Fireworks board module.
pub trait PlaybackProtocol: EfwProtocolExtManual + Sized {
    /// Set volume of stream playback. The value of vol is unsigned fixed-point number of 8.24
    /// format; i.e. Q24. (0x00000000..0x02000000, -144.0..+6.0 dB)
    fn set_playback_vol(&mut self, ch: usize, vol: i32, timeout_ms: u32) -> Result<(), EfwError> {
        let req = playback_request(CMD_SET_VOL, ch, vol as u32);
        transact(self, &req, timeout_ms)?;
        Ok(())
    }

    /// Get volume of stream playback. The value of vol is unsigned fixed-point number of 8.24
    /// format; i.e. Q24. (0x00000000..0x02000000, -144.0..+6.0 dB)
    fn get_playback_vol(&mut self, ch: usize, timeout_ms: u32) -> Result<i32, EfwError> {
        let req = playback_request(CMD_GET_VOL, ch, 0);
        let params = transact(self, &req, timeout_ms)?;
        parse_playback_volume(params.as_slice())
    }

    /// Set mute of stream playback.
    fn set_playback_mute(&mut self, ch: usize, mute: bool, timeout_ms: u32) -> Result<(), EfwError> {
        let req = playback_request(CMD_SET_MUTE, ch, if mute { 1 } else { 0 });
        transact(self, &req, timeout_ms)?;
        Ok(())
    }

    /// Get mute of stream playback.
    fn get_playback_mute(&mut self, ch: usize, timeout_ms: u32) -> Result<bool, EfwError> {
        let req = playback_request(CMD_GET_MUTE, ch, 0);
        let params = transact(self, &req, timeout_ms)?;
        parse_playback_switch(params.as_slice())
    }

    /// Set solo of stream playback.
    fn set_playback_solo(&mut self, ch: usize, solo: bool, timeout_ms: u32) -> Result<(), EfwError> {
        let req = playback_request(CMD_SET_SOLO, ch, if solo { 1 } else { 0 });
        transact(self, &req, timeout_ms)?;
        Ok(())
    }

    /// Get solo of stream playback.
    fn get_playback_solo(&mut self, ch: usize, timeout_ms: u32) -> Result<bool, EfwError> {
        let req = playback_request(CMD_GET_SOLO, ch, 0);
        let params = transact(self, &req, timeout_ms)?;
        parse_playback_switch(params.as_slice())
    }
}

impl<O: EfwProtocolExtManual> PlaybackProtocol for O {

}

} // verus!
