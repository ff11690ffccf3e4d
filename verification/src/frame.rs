//! The wire encoder: a Security Manager PDU inside an L2CAP frame inside an
//! HCI ACL data packet.
//!
//! ```text
//! 02 | handle and flags (2) | length (2) || length (2) | 06 00 | PDU
//! ```
//!
//! The first octet marks an ACL data packet. The next two hold the connection
//! handle in bits 0 to 11, the packet boundary flag in bits 12 and 13 and the
//! broadcast flag in bits 14 and 15. The first length counts everything after
//! it, the second counts the PDU, and `06 00` is the Security Manager channel.
//! Lengths and the handle travel least significant octet first.

use crate::bytes::push_all;
use vstd::prelude::*;

verus! {

/// The HCI packet indicator of ACL data.
pub const ACL_DATA_PACKET: u8 = 0x02;

/// The L2CAP channel of the Security Manager protocol.
pub const SM_CHANNEL: u16 = 0x0006;

/// The largest payload whose length an L2CAP frame inside one ACL packet can
/// state.
pub const MAX_PDU_LEN: usize = 0xfffb;

/// How a packet relates to the L2CAP frame it carries.
#[derive(Debug, Clone, Copy, PartialEq, Eq)]
pub enum BoundaryFlag {
    FirstNonAutoFlushable,
    Continuing,
    FirstAutoFlushable,
    Complete,
}

/// Whether a packet is broadcast.
#[derive(Debug, Clone, Copy, PartialEq, Eq)]
pub enum HostBroadcastFlag {
    NoBroadcast,
    ActiveSlaveBroadcast,
    ParkedSlaveBroadcast,
    Reserved,
}

impl BoundaryFlag {
    /// The flag in bits 12 and 13.
    pub open spec fn bits_value(self) -> u16 {
        match self {
            BoundaryFlag::FirstNonAutoFlushable => 0x0000,
            BoundaryFlag::Continuing => 0x1000,
            BoundaryFlag::FirstAutoFlushable => 0x2000,
            BoundaryFlag::Complete => 0x3000,
        }
    }

    pub fn bits(self) -> (b: u16)
        ensures
            b == self.bits_value(),
    {
        match self {
            BoundaryFlag::FirstNonAutoFlushable => 0x0000,
            BoundaryFlag::Continuing => 0x1000,
            BoundaryFlag::FirstAutoFlushable => 0x2000,
            BoundaryFlag::Complete => 0x3000,
        }
    }
}

impl HostBroadcastFlag {
    /// The flag in bits 14 and 15.
    pub open spec fn bits_value(self) -> u16 {
        match self {
            HostBroadcastFlag::NoBroadcast => 0x0000,
            HostBroadcastFlag::ActiveSlaveBroadcast => 0x4000,
            HostBroadcastFlag::ParkedSlaveBroadcast => 0x8000,
            HostBroadcastFlag::Reserved => 0xc000,
        }
    }

    pub fn bits(self) -> (b: u16)
        ensures
            b == self.bits_value(),
    {
        match self {
            HostBroadcastFlag::NoBroadcast => 0x0000,
            HostBroadcastFlag::ActiveSlaveBroadcast => 0x4000,
            HostBroadcastFlag::ParkedSlaveBroadcast => 0x8000,
            HostBroadcastFlag::Reserved => 0xc000,
        }
    }
}

/// A 16-bit field on the wire.
pub open spec fn u16_field(value: int) -> Seq<u8> {
    seq![(value % 256) as u8, ((value / 256) % 256) as u8]
}

/// A Security Manager PDU inside its L2CAP frame.
pub open spec fn l2cap_sm_frame(pdu: Seq<u8>) -> Seq<u8> {
    u16_field(pdu.len() as int) + u16_field(SM_CHANNEL as int) + pdu
}

/// A payload inside an ACL data packet.
pub open spec fn acl_packet(
    handle: u16,
    boundary: BoundaryFlag,
    broadcast: HostBroadcastFlag,
    payload: Seq<u8>,
) -> Seq<u8> {
    seq![ACL_DATA_PACKET] + u16_field((handle | boundary.bits_value() | broadcast.bits_value()) as int)
        + u16_field(payload.len() as int) + payload
}

/// What is handed to the transport for one PDU: the start of an
/// automatically flushable frame, not broadcast.
pub open spec fn sm_packet(handle: u16, pdu: Seq<u8>) -> Seq<u8> {
    acl_packet(
        handle,
        BoundaryFlag::FirstAutoFlushable,
        HostBroadcastFlag::NoBroadcast,
        l2cap_sm_frame(pdu),
    )
}

fn push_u16(out: &mut Vec<u8>, value: u16)
    ensures
        final(out)@ == old(out)@ + u16_field(value as int),
{
    out.push((value % 256) as u8);
    out.push((value / 256) as u8);
    assert(out@ =~= old(out)@ + u16_field(value as int));
}

/// Wraps a Security Manager PDU into its L2CAP frame.
pub fn encode_sm(pdu: &[u8]) -> (frame: Vec<u8>)
    requires
        pdu@.len() <= MAX_PDU_LEN,
    ensures
        frame@ == l2cap_sm_frame(pdu@),
        frame@.len() == pdu@.len() + 4,
{
    let mut frame: Vec<u8> = Vec::new();
    push_u16(&mut frame, pdu.len() as u16);
    push_u16(&mut frame, SM_CHANNEL);
    push_all(&mut frame, pdu);
    frame
}

/// Wraps a payload into an ACL data packet for `handle`.
pub fn encode_acl(
    handle: u16,
    boundary: BoundaryFlag,
    broadcast: HostBroadcastFlag,
    payload: &[u8],
) -> (packet: Vec<u8>)
    requires
        payload@.len() <= 0xffff,
    ensures
        packet@ == acl_packet(handle, boundary, broadcast, payload@),
        packet@.len() == payload@.len() + 5,
{
    let mut packet: Vec<u8> = Vec::new();
    packet.push(ACL_DATA_PACKET);
    push_u16(&mut packet, handle | boundary.bits() | broadcast.bits());
    push_u16(&mut packet, payload.len() as u16);
    push_all(&mut packet, payload);
    packet
}

/// Encodes one Security Manager PDU as it is handed to the transport.
pub fn encode_sm_packet(handle: u16, pdu: &[u8]) -> (packet: Vec<u8>)
    requires
        pdu@.len() <= MAX_PDU_LEN,
    ensures
        packet@ == sm_packet(handle, pdu@),
        packet@.len() == pdu@.len() + 9,
{
    let frame = encode_sm(pdu);
    encode_acl(
        handle,
        BoundaryFlag::FirstAutoFlushable,
        HostBroadcastFlag::NoBroadcast,
        frame.as_slice(),
    )
}

} // verus!
