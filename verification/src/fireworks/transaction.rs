//! Transaction protocol defined by Echo Audio Digital Corporation for Fireworks board module.
//!
//! The request is written to a register of the unit, and the response arrives as a write
//! transaction from the unit to a region of the host. The module includes the decisions of the
//! protocol: the code to answer the transaction which carries the response, and the sequence
//! number of the next request. Reserving the region, sending and receiving are left to the
//! caller.

use vstd::prelude::*;

verus! {

/// The address of the register to which the request is written.
pub const COMMAND_OFFSET: u64 = 0xecc000000000;

/// The address of the region to which the unit writes the response.
pub const RESPONSE_OFFSET: u64 = 0xecc080000000;

/// The maximum size of frame for request and response.
pub const MAX_FRAME_SIZE: usize = 0x200;

/// The minimum size of frame for response: the header of six quadlets.
pub const MIN_RESPONSE_FRAME_SIZE: usize = 24;

/// The bound of sequence number: the number wraps to zero before it reaches this.
pub const SEQNUM_LIMIT: u32 = 65534;

/// The code to answer a transaction to the region of response.
#[derive(Debug, Copy, Clone, PartialEq, Eq, Structural)]
pub enum EfwResponseCode {
    /// The response is accepted.
    Complete,
    /// The transaction is not a write of a block.
    TypeError,
    /// The transaction comes from another node, or to another address.
    AddressError,
    /// No unit is bound, the region is not reserved, or the frame is too short.
    DataError,
}

/// The code to answer a transaction to the region of response.
pub open spec fn response_code(
    bound_node_id: Option<u32>,
    is_write_block: bool,
    offset: u64,
    src: u32,
    is_reserved: bool,
    frame_len: usize,
) -> EfwResponseCode {
    match bound_node_id {
        None => EfwResponseCode::DataError,
        Some(node_id) => if !is_write_block {
            EfwResponseCode::TypeError
        } else if src != node_id || offset != RESPONSE_OFFSET {
            EfwResponseCode::AddressError
        } else if !is_reserved || frame_len < MIN_RESPONSE_FRAME_SIZE {
            EfwResponseCode::DataError
        } else {
            EfwResponseCode::Complete
        },
    }
}

/// Decide the code to answer a transaction to the region of response: `bound_node_id` is the
/// identifier of the bound unit if any, `is_write_block` whether the transaction writes a block,
/// `offset` its address, `src` the identifier of its source node, `is_reserved` whether the
/// region is reserved, and `frame_len` the length of its frame. The frame is taken as a response
/// only when the code is `Complete`.
pub fn requested_response_code(
    bound_node_id: Option<u32>,
    is_write_block: bool,
    offset: u64,
    src: u32,
    is_reserved: bool,
    frame_len: usize,
) -> (r: EfwResponseCode)
    ensures
        r == response_code(bound_node_id, is_write_block, offset, src, is_reserved, frame_len),
{
    match bound_node_id {
        None => EfwResponseCode::DataError,
        Some(node_id) => {
            if !is_write_block {
                EfwResponseCode::TypeError
            } else if src != node_id || offset != RESPONSE_OFFSET {
                EfwResponseCode::AddressError
            } else if !is_reserved || frame_len < MIN_RESPONSE_FRAME_SIZE {
                EfwResponseCode::DataError
            } else {
                EfwResponseCode::Complete
            }
        },
    }
}

/// The sequence number which follows the given one: two after it, or zero when that would not
/// stay below the bound.
pub open spec fn following_seqnum(seqnum: u32) -> u32 {
    if seqnum + 2 < SEQNUM_LIMIT {
        (seqnum + 2) as u32
    } else {
        0
    }
}

/// The sequence number for the next request after the given one. The result is always below the
/// bound, so the numbers from zero on never come near the limit of the type.
pub fn next_seqnum(seqnum: u32) -> (r: u32)
    requires
        seqnum <= u32::MAX - 2,
    ensures
        r == following_seqnum(seqnum),
        r < SEQNUM_LIMIT,
        r % 2 == seqnum % 2 || r == 0,
{
    let next = seqnum + 2;
    if next < SEQNUM_LIMIT {
        next
    } else {
        0
    }
}

/// Sequence numbers taken one after another from zero are even, below the bound, and each one
/// can be followed by another.
pub proof fn lemma_seqnum_from_zero(seqnum: u32)
    requires
        seqnum % 2 == 0,
        seqnum < SEQNUM_LIMIT,
    ensures
        following_seqnum(seqnum) % 2 == 0,
        following_seqnum(seqnum) < SEQNUM_LIMIT,
        seqnum <= u32::MAX - 2,
{
}

} // verus!
