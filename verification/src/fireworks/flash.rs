//! Protocol about operations for on-board flash memory.
//!
//! The module includes protocol about operations for on-board flash memory defined by Echo Audio
//! Digital Corporation for Fireworks board module.

use crate::fireworks::{
    answered_request, param_at, transact, EfwError, EfwHardwareSpecification, EfwProtocolError,
    EfwProtocolExtManual, EfwRequest, EfwWhollyCachableParamsOperation,
    EfwWhollyUpdatableParamsOperation,
};
use vstd::prelude::*;

verus! {

/// The category of commands for flash memory.
pub const CATEGORY_FLASH: u32 = 1;

/// The command to erase a block.
pub const CMD_ERASE: u32 = 0;
/// The command to read content.
pub const CMD_READ: u32 = 1;
/// The command to write content.
pub const CMD_WRITE: u32 = 2;
/// The command to get status.
pub const CMD_STATUS: u32 = 3;
/// The command to get session base.
pub const CMD_SESSION_BASE: u32 = 4;
/// The command to lock.
pub const CMD_LOCK: u32 = 5;

/// The size of block in on-board flash memory in quadlet unit.
pub const BLOCK_QUADLET_COUNT: usize = 64;

/// The parameter to erase content of flash for a block.
#[derive(Default, Debug, Clone, PartialEq, Eq)]
pub struct EfwFlashErase {
    /// The offset in flash memory. It should be aligned by quadlet.
    pub offset: u32,
}

/// The request to erase the block at the offset.
pub fn flash_erase_request(states: &EfwFlashErase) -> (r: EfwRequest)
    ensures
        r.category == CATEGORY_FLASH,
        r.command == CMD_ERASE,
        r.args@ == seq![states.offset],
        r.params_len == 0,
{
    EfwRequest { category: CATEGORY_FLASH, command: CMD_ERASE, args: vec![states.offset], params_len: 0 }
}

impl<O: EfwHardwareSpecification, P: EfwProtocolExtManual> EfwWhollyUpdatableParamsOperation<
    P,
    EfwFlashErase,
> for O {
    open spec fn update_acceptable(states: EfwFlashErase) -> bool {
        states.offset % 4 == 0
    }

    fn update_wholly(proto: &mut P, states: &EfwFlashErase, timeout_ms: u32) -> (r: Result<(), EfwError>)
        ensures
            r.is_ok() ==> answered_request(&*old(proto), CATEGORY_FLASH, CMD_ERASE, seq![states.offset]),
    {
        let req = flash_erase_request(states);
        let reply = transact(proto, &req, timeout_ms)?;
        proof {
            assert(old(proto).answered(CATEGORY_FLASH, CMD_ERASE, req.args@, reply@));
        }
        Ok(())
    }
}

/// The parameter to read content of flash.
#[derive(Default, Debug, Clone, PartialEq, Eq)]
pub struct EfwFlashRead {
    /// The offset in flash memory. It should be aligned by quadlet.
    pub offset: u32,
    /// The content. The length should be less than 64.
    pub data: Vec<u32>,
}

/// The arguments to read as many quadlets as the data holds at the offset.
pub open spec fn flash_read_args(states: EfwFlashRead) -> Seq<u32> {
    seq![states.offset, states.data@.len() as u32]
}

/// The request to read as many quadlets as the data holds at the offset.
pub fn flash_read_request(states: &EfwFlashRead) -> (r: EfwRequest)
    requires
        states.data@.len() <= BLOCK_QUADLET_COUNT,
    ensures
        r.category == CATEGORY_FLASH,
        r.command == CMD_READ,
        r.args@ == seq![states.offset, states.data@.len() as u32],
        r.params_len == 2 + BLOCK_QUADLET_COUNT,
{
    let count = states.data.len() as u32;
    EfwRequest {
        category: CATEGORY_FLASH,
        command: CMD_READ,
        args: vec![states.offset, count],
        params_len: 2 + BLOCK_QUADLET_COUNT,
    }
}

/// Take the content from the parameters of response, after the offset and the count; an error
/// for a response shorter than that.
pub fn parse_flash_read_response(states: &mut EfwFlashRead, params: &[u32]) -> (r: Result<(), EfwError>)
    ensures
        r.is_ok() <==> 2 + old(states).data@.len() <= params@.len(),
        r.is_ok() ==> final(states).data@ == params@.subrange(2, 2 + old(states).data@.len() as int),
        r.is_err() ==> final(states).data@ == old(states).data@,
        final(states).offset == old(states).offset,
{
    let count = states.data.len();
    if params.len() < 2 || params.len() - 2 < count {
        return Err(
            EfwError::Protocol(EfwProtocolError::Incomplete, "Parameter is shorter than expected".to_owned()),
        );
    }
    let mut i: usize = 0;
    while i < count
        invariant
            count == old(states).data@.len(),
            2 + count <= params@.len(),
            params@.len() == params.len(),
            i <= count,
            states.data@.len() == count,
            states.offset == old(states).offset,
            forall|k: int| 0 <= k < i ==> #[trigger] states.data@[k] == params@[2 + k],
        decreases count - i,
    {
        states.data.set(i, params[2 + i]);
        i = i + 1;
    }
    proof {
        assert(states.data@ =~= params@.subrange(2, 2 + count as int));
    }
    Ok(())
}

impl<O: EfwHardwareSpecification, P: EfwProtocolExtManual> EfwWhollyCachableParamsOperation<
    P,
    EfwFlashRead,
> for O {
    open spec fn cache_acceptable(states: EfwFlashRead) -> bool {
        states.offset % 4 == 0 && states.data@.len() <= BLOCK_QUADLET_COUNT
    }

    fn cache_wholly(proto: &mut P, states: &mut EfwFlashRead, timeout_ms: u32) -> (r: Result<
        (),
        EfwError,
    >)
        ensures
            final(states).data@.len() == old(states).data@.len(),
            final(states).offset == old(states).offset,
            r.is_ok() ==> exists|p: Seq<u32>|
                #[trigger] old(proto).answered(CATEGORY_FLASH, CMD_READ, flash_read_args(*old(states)), p) && 2 + old(states).data@.len() <= p.len() && final(states).data@ == p.subrange(
                    2,
                    2 + old(states).data@.len() as int,
                ),
    {
        let req = flash_read_request(states);
        let params = transact(proto, &req, timeout_ms)?;
        let r = parse_flash_read_response(states, params.as_slice());
        proof {
            assert(req.args@ == flash_read_args(*old(states)));
            assert(old(proto).answered(CATEGORY_FLASH, CMD_READ, req.args@, params@));
        }
        r
    }
}

/// The parameter to write content of flash.
#[derive(Default, Debug, Clone, PartialEq, Eq)]
pub struct EfwFlashWrite {
    /// The offset in flash memory. It should be aligned by quadlet.
    pub offset: u32,
    /// The content. The length should be less than 64.
    pub data: Vec<u32>,
}

/// The arguments to write the data at the offset: the offset, the count, then the data padded
/// with zero up to the size of block.
pub open spec fn flash_write_args(states: EfwFlashWrite) -> Seq<u32> {
    seq![states.offset, states.data@.len() as u32] + states.data@ + Seq::new(
        (BLOCK_QUADLET_COUNT - states.data@.len()) as nat,
        |i: int| 0u32,
    )
}

/// The request to write the data at the offset: the offset, the count, then the data padded with
/// zero up to the size of block.
pub fn flash_write_request(states: &EfwFlashWrite) -> (r: EfwRequest)
    requires
        states.data@.len() <= BLOCK_QUADLET_COUNT,
    ensures
        r.category == CATEGORY_FLASH,
        r.command == CMD_WRITE,
        r.args@.len() == 2 + BLOCK_QUADLET_COUNT,
        r.args@[0] == states.offset,
        r.args@[1] == states.data@.len() as u32,
        forall|i: int| 0 <= i < states.data@.len() ==> #[trigger] r.args@[2 + i] == states.data@[i],
        forall|i: int| 2 + states.data@.len() <= i < 2 + BLOCK_QUADLET_COUNT ==> #[trigger] r.args@[i] == 0,
        r.params_len == 0,
{
    let mut args = vec![0u32; 2 + BLOCK_QUADLET_COUNT];
    args.set(0, states.offset);
    args.set(1, states.data.len() as u32);
    let count = states.data.len();
    let mut i: usize = 0;
    while i < count
        invariant
            count == states.data@.len(),
            count <= BLOCK_QUADLET_COUNT,
            i <= count,
            args@.len() == 2 + BLOCK_QUADLET_COUNT,
            args@[0] == states.offset,
            args@[1] == count as u32,
            forall|k: int| 0 <= k < i ==> #[trigger] args@[2 + k] == states.data@[k],
            forall|k: int| 2 + i <= k < 2 + BLOCK_QUADLET_COUNT ==> #[trigger] args@[k] == 0,
        decreases count - i,
    {
        args.set(2 + i, states.data[i]);
        i = i + 1;
    }
    EfwRequest { category: CATEGORY_FLASH, command: CMD_WRITE, args, params_len: 0 }
}

impl<O: EfwHardwareSpecification, P: EfwProtocolExtManual> EfwWhollyUpdatableParamsOperation<
    P,
    EfwFlashWrite,
> for O {
    open spec fn update_acceptable(states: EfwFlashWrite) -> bool {
        states.offset % 4 == 0 && states.data@.len() <= BLOCK_QUADLET_COUNT
    }

    fn update_wholly(proto: &mut P, states: &EfwFlashWrite, timeout_ms: u32) -> (r: Result<(), EfwError>)
        ensures
            r.is_ok() ==> answered_request(&*old(proto), CATEGORY_FLASH, CMD_WRITE, flash_write_args(*states)),
    {
        let req = flash_write_request(states);
        let reply = transact(proto, &req, timeout_ms)?;
        proof {
            let w = flash_write_args(*states);
            let n = states.data@.len() as int;
            assert(w.len() == req.args@.len());
            assert forall|i: int| 0 <= i < w.len() implies #[trigger] req.args@[i] == w[i] by {
                if i >= 2 && i < 2 + n {
                    assert(req.args@[2 + (i - 2)] == states.data@[i - 2]);
                } else if i >= 2 + n {
                    assert(req.args@[i] == 0);
                }
            }
            assert(req.args@ =~= w);
            assert(old(proto).answered(CATEGORY_FLASH, CMD_WRITE, req.args@, reply@));
        }
        Ok(())
    }
}

/// The parameter to check whether the flash memory is locked or not.
#[derive(Debug, Copy, Clone, PartialEq, Eq, Structural)]
pub enum EfwFlashState {
    /// Is unlocked.
    Unlocked,
    /// Is locked.
    Locked,
}

impl Default for EfwFlashState {
    fn default() -> (r: Self)
        ensures
            r == EfwFlashState::Unlocked,
    {
        EfwFlashState::Unlocked
    }
}

/// The request to get the status of flash memory.
pub fn flash_status_request() -> (r: EfwRequest)
    ensures
        r.category == CATEGORY_FLASH,
        r.command == CMD_STATUS,
        r.args@ == Seq::<u32>::empty(),
        r.params_len == 0,
{
    EfwRequest { category: CATEGORY_FLASH, command: CMD_STATUS, args: Vec::new(), params_len: 0 }
}

/// The state of flash memory from the result of the transaction for its status: unlocked at
/// success, locked when the unit answers that the flash is busy; any other failure is passed.
pub fn parse_flash_status(states: &mut EfwFlashState, result: Result<(), EfwError>) -> (r: Result<
    (),
    EfwError,
>)
    ensures
        match result {
            Ok(()) => r.is_ok() && *final(states) == EfwFlashState::Unlocked,
            Err(EfwError::Protocol(EfwProtocolError::FlashBusy, _)) => r.is_ok() && *final(states)
                == EfwFlashState::Locked,
            Err(e) => r == Err::<(), EfwError>(e) && *final(states) == *old(states),
        },
{
    match result {
        Ok(()) => {
            *states = EfwFlashState::Unlocked;
            Ok(())
        },
        Err(EfwError::Protocol(EfwProtocolError::FlashBusy, _)) => {
            *states = EfwFlashState::Locked;
            Ok(())
        },
        Err(e) => Err(e),
    }
}

impl<O: EfwHardwareSpecification, P: EfwProtocolExtManual> EfwWhollyCachableParamsOperation<
    P,
    EfwFlashState,
> for O {
    open spec fn cache_acceptable(states: EfwFlashState) -> bool {
        true
    }

    fn cache_wholly(proto: &mut P, states: &mut EfwFlashState, timeout_ms: u32) -> (r: Result<
        (),
        EfwError,
    >)
        ensures
            r.is_err() ==> *final(states) == *old(states),
            !(r matches Err(EfwError::Protocol(EfwProtocolError::FlashBusy, _))),
    {
        let req = flash_status_request();
        let result = match transact(proto, &req, timeout_ms) {
            Ok(_) => Ok(()),
            Err(e) => Err(e),
        };
        parse_flash_status(states, result)
    }
}

/// The request to lock or unlock the flash memory.
pub fn flash_lock_request(states: &EfwFlashState) -> (r: EfwRequest)
    ensures
        r.category == CATEGORY_FLASH,
        r.command == CMD_LOCK,
        r.args@ == seq![if *states == EfwFlashState::Locked { 1u32 } else { 0u32 }],
        r.params_len == 0,
{
    let locked: u32 = match states {
        EfwFlashState::Locked => 1,
        EfwFlashState::Unlocked => 0,
    };
    EfwRequest { category: CATEGORY_FLASH, command: CMD_LOCK, args: vec![locked], params_len: 0 }
}

impl<O: EfwHardwareSpecification, P: EfwProtocolExtManual> EfwWhollyUpdatableParamsOperation<
    P,
    EfwFlashState,
> for O {
    open spec fn update_acceptable(states: EfwFlashState) -> bool {
        true
    }

    fn update_wholly(proto: &mut P, states: &EfwFlashState, timeout_ms: u32) -> (r: Result<(), EfwError>)
        ensures
            r.is_ok() ==> answered_request(&*old(proto), CATEGORY_FLASH, CMD_LOCK, seq![if *states == EfwFlashState::Locked { 1u32 } else { 0u32 }]),
    {
        let req = flash_lock_request(states);
        let reply = transact(proto, &req, timeout_ms)?;
        proof {
            assert(old(proto).answered(CATEGORY_FLASH, CMD_LOCK, req.args@, reply@));
        }
        Ok(())
    }
}

/// The parameter for session base in flash memory.
#[derive(Default, Debug, Copy, Clone, PartialEq, Eq, Structural)]
pub struct EfwFlashSessionBase(pub u32);

/// The request to get the session base.
pub fn flash_session_base_request() -> (r: EfwRequest)
    ensures
        r.category == CATEGORY_FLASH,
        r.command == CMD_SESSION_BASE,
        r.args@ == Seq::<u32>::empty(),
        r.params_len == 1,
{
    EfwRequest { category: CATEGORY_FLASH, command: CMD_SESSION_BASE, args: Vec::new(), params_len: 1 }
}

/// Take the session base from the first parameter of response.
pub fn parse_flash_session_base(states: &mut EfwFlashSessionBase, params: &[u32]) -> (r: Result<
    (),
    EfwError,
>)
    ensures
        r.is_ok() <==> params@.len() >= 1,
        r.is_ok() ==> final(states).0 == params@[0],
        r.is_err() ==> *final(states) == *old(states),
{
    let val = param_at(params, 0)?;
    states.0 = val;
    Ok(())
}

impl<O: EfwHardwareSpecification, P: EfwProtocolExtManual> EfwWhollyCachableParamsOperation<
    P,
    EfwFlashSessionBase,
> for O {
    open spec fn cache_acceptable(states: EfwFlashSessionBase) -> bool {
        true
    }

    fn cache_wholly(proto: &mut P, states: &mut EfwFlashSessionBase, timeout_ms: u32) -> (r: Result<
        (),
        EfwError,
    >)
        ensures
            r.is_ok() ==> exists|p: Seq<u32>|
                #[trigger] old(proto).answered(CATEGORY_FLASH, CMD_SESSION_BASE, Seq::<u32>::empty(), p)
                    && p.len() >= 1 && final(states).0 == p[0],
            r.is_err() ==> *final(states) == *old(states),
    {
        let req = flash_session_base_request();
        let params = transact(proto, &req, timeout_ms)?;
        let r = parse_flash_session_base(states, params.as_slice());
        proof {
            assert(old(proto).answered(CATEGORY_FLASH, CMD_SESSION_BASE, Seq::<u32>::empty(), params@));
        }
        r
    }
}

} // verus!
