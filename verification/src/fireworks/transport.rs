//! Protocol about transmission.
//!
//! The module includes protocol about transmission defined by Echo Audio Digital Corporation for
//! Fireworks board module.

use crate::fireworks::{
    answered_request, transact, EfwError, EfwHardwareSpecification, EfwProtocolExtManual, EfwRequest,
    EfwWhollyUpdatableParamsOperation, HwCap,
};
use vstd::prelude::*;

verus! {

/// The category of commands for transmission.
pub const CATEGORY_TRANSPORT: u32 = 2;

/// The command to set the mode of transmission.
pub const CMD_SET_TRANSMIT_MODE: u32 = 0;

/// The format of packet in transmission.
#[derive(Debug, Copy, Clone, PartialEq, Eq, Structural)]
pub enum TxPacketFormat {
    /// Unique.
    Unique,
    /// Compliant to IEC 61883-1/6, actually with some quirks.
    Iec61883,
}

impl Default for TxPacketFormat {
    fn default() -> (r: Self)
        ensures
            r == TxPacketFormat::Iec61883,
    {
        TxPacketFormat::Iec61883
    }
}

/// The code of format of packet.
pub open spec fn tx_packet_format_code(fmt: TxPacketFormat) -> u32 {
    match fmt {
        TxPacketFormat::Unique => 0,
        TxPacketFormat::Iec61883 => 1,
    }
}

/// Each value of `TxPacketFormat` has its own value in `tx_packet_format_code`, as the device knows it.
pub proof fn lemma_tx_packet_format_code_table()
    ensures
        tx_packet_format_code(TxPacketFormat::Unique) == 0,
        tx_packet_format_code(TxPacketFormat::Iec61883) == 1,
{
}

/// The format of packet which the code stands for; any code but the one of IEC 61883 stands for
/// the unique one.
pub open spec fn tx_packet_format_of(val: u32) -> TxPacketFormat {
    if val == 1 {
        TxPacketFormat::Iec61883
    } else {
        TxPacketFormat::Unique
    }
}

/// Each value which the device uses is read by `tx_packet_format_of` as its own `TxPacketFormat`.
pub proof fn lemma_tx_packet_format_of_table()
    ensures
        tx_packet_format_of(1) == TxPacketFormat::Iec61883,
{
}

/// Serialize the format of packet.
pub fn serialize_tx_packet_format(fmt: &TxPacketFormat) -> (r: u32)
    ensures
        r == tx_packet_format_code(*fmt),
{
    match fmt {
        TxPacketFormat::Unique => 0,
        TxPacketFormat::Iec61883 => 1,
    }
}

/// Deserialize the format of packet.
pub fn deserialize_tx_packet_format(fmt: &mut TxPacketFormat, val: u32)
    ensures
        *final(fmt) == tx_packet_format_of(val),
{
    *fmt = if val == 1 {
        TxPacketFormat::Iec61883
    } else {
        TxPacketFormat::Unique
    };
}

/// A format of packet is read back from its code.
pub proof fn lemma_tx_packet_format_roundtrip(fmt: TxPacketFormat)
    ensures
        tx_packet_format_of(tx_packet_format_code(fmt)) == fmt,
{
}

/// The request to set the format of packet in transmission.
pub fn set_packet_format_request(fmt: &TxPacketFormat) -> (r: EfwRequest)
    ensures
        r.category == CATEGORY_TRANSPORT,
        r.command == CMD_SET_TRANSMIT_MODE,
        r.args@ == seq![tx_packet_format_code(*fmt)],
        r.params_len == 0,
{
    let args = vec![serialize_tx_packet_format(fmt)];
    EfwRequest { category: CATEGORY_TRANSPORT, command: CMD_SET_TRANSMIT_MODE, args, params_len: 0 }
}

impl<O: EfwHardwareSpecification, P: EfwProtocolExtManual> EfwWhollyUpdatableParamsOperation<
    P,
    TxPacketFormat,
> for O {
    open spec fn update_acceptable(states: TxPacketFormat) -> bool {
        O::spec_capabilities().contains(HwCap::ChangeableRespAddr)
    }

    fn update_wholly(proto: &mut P, states: &TxPacketFormat, timeout_ms: u32) -> (r: Result<(), EfwError>)
        ensures
            r.is_ok() ==> answered_request(
                &*old(proto),
                CATEGORY_TRANSPORT,
                CMD_SET_TRANSMIT_MODE,
                seq![tx_packet_format_code(*states)],
            ),
    {
        let req = set_packet_format_request(states);
        let reply = transact(proto, &req, timeout_ms)?;
        proof {
            assert(old(proto).answered(CATEGORY_TRANSPORT, CMD_SET_TRANSMIT_MODE, req.args@, reply@));
        }
        Ok(())
    }
}

/// Protocol about transmission for Fireworks board module.
pub trait TransportProtocol: EfwProtocolExtManual + Sized {
    /// Set the format of packet in transmission.
    fn get_packet_format(&mut self, fmt: TxPacketFormat, timeout_ms: u32) -> (r: Result<(), EfwError>)
        ensures
            r.is_ok() ==> answered_request(
                &*old(self),
                CATEGORY_TRANSPORT,
                CMD_SET_TRANSMIT_MODE,
                seq![tx_packet_format_code(fmt)],
            ),
    {
        let req = set_packet_format_request(&fmt);
        let reply = transact(self, &req, timeout_ms)?;
        proof {
            assert(old(self).answered(CATEGORY_TRANSPORT, CMD_SET_TRANSMIT_MODE, req.args@, reply@));
        }
        Ok(())
    }
}

impl<O: EfwProtocolExtManual> TransportProtocol for O {

}

} // verus!
