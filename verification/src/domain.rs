use vstd::prelude::*;

use crate::bytes::{push_bytes, push_u64_be, spec_u64_be};
use crate::commitment::CommitmentPrefix;
use crate::identifier::{ChannelId, ClientId, ConnectionId, PortId};

verus! {

/// The position of a packet in the ordered stream of a channel.
#[derive(Clone, Copy, Debug, PartialEq, Eq, Structural)]
pub struct Sequence {
    pub value: u64,
}

impl Sequence {
    pub fn new(value: u64) -> (r: Sequence)
        ensures
            r.value == value,
    {
        Sequence { value }
    }
}

/// The big-endian encoding of a sequence counter, as committed on chain.
pub open spec fn spec_encode_sequence(s: Sequence) -> Seq<u8> {
    spec_u64_be(s.value)
}

pub fn encode_sequence(s: &Sequence) -> (r: Vec<u8>)
    ensures
        r@ == spec_encode_sequence(*s),
{
    let mut v: Vec<u8> = Vec::new();
    push_u64_be(&mut v, s.value);
    proof {
        assert(v@ =~= spec_encode_sequence(*s));
    }
    v
}

/// An opaque commitment to a sent packet, as stored by the sending chain.
#[derive(Debug, PartialEq, Eq)]
pub struct PacketCommitment {
    pub bytes: Vec<u8>,
}

impl View for PacketCommitment {
    type V = Seq<u8>;

    open spec fn view(&self) -> Seq<u8> {
        self.bytes@
    }
}

impl PacketCommitment {
    pub fn new(bytes: Vec<u8>) -> (r: PacketCommitment)
        ensures
            r@ == bytes@,
    {
        PacketCommitment { bytes }
    }
}

/// An opaque commitment to a written acknowledgement.
#[derive(Debug, PartialEq, Eq)]
pub struct AcknowledgementCommitment {
    pub bytes: Vec<u8>,
}

impl View for AcknowledgementCommitment {
    type V = Seq<u8>;

    open spec fn view(&self) -> Seq<u8> {
        self.bytes@
    }
}

impl AcknowledgementCommitment {
    pub fn new(bytes: Vec<u8>) -> (r: AcknowledgementCommitment)
        ensures
            r@ == bytes@,
    {
        AcknowledgementCommitment { bytes }
    }
}

/// The record of one end of a connection: the client it runs over, the
/// counterparty's commitment prefix, and the delay period a proof must wait
/// out before it is accepted.
#[derive(Debug, PartialEq, Eq)]
pub struct ConnectionEnd {
    pub client_id: ClientId,
    pub counterparty_prefix: CommitmentPrefix,
    /// Minimum time that must elapse after a height is reached before a
    /// proof at that height is accepted.
    pub delay_period_time: u64,
    /// Minimum number of blocks that must elapse likewise.
    pub delay_period_blocks: u64,
}

/// The deterministic serialization of a connection end: each byte field
/// length-prefixed, then the two delay parameters, all big-endian.
pub open spec fn spec_encode_connection_end(c: ConnectionEnd) -> Seq<u8> {
    spec_u64_be(c.client_id@.len() as u64) + c.client_id@ + spec_u64_be(
        c.counterparty_prefix@.len() as u64,
    ) + c.counterparty_prefix@ + spec_u64_be(c.delay_period_time) + spec_u64_be(
        c.delay_period_blocks,
    )
}

pub fn encode_connection_end(c: &ConnectionEnd) -> (r: Vec<u8>)
    ensures
        r@ == spec_encode_connection_end(*c),
{
    let mut v: Vec<u8> = Vec::new();
    push_u64_be(&mut v, c.client_id.bytes.len() as u64);
    push_bytes(&mut v, &c.client_id.bytes);
    push_u64_be(&mut v, c.counterparty_prefix.bytes.len() as u64);
    push_bytes(&mut v, &c.counterparty_prefix.bytes);
    push_u64_be(&mut v, c.delay_period_time);
    push_u64_be(&mut v, c.delay_period_blocks);
    proof {
        assert(v@ =~= spec_encode_connection_end(*c));
    }
    v
}

/// The record of one end of a channel: the connection it runs over and the
/// counterparty's port and channel.
#[derive(Debug, PartialEq, Eq)]
pub struct ChannelEnd {
    pub connection_id: ConnectionId,
    pub counterparty_port_id: PortId,
    pub counterparty_channel_id: ChannelId,
}

/// The deterministic serialization of a channel end: each identifier
/// length-prefixed, big-endian.
pub open spec fn spec_encode_channel_end(c: ChannelEnd) -> Seq<u8> {
    spec_u64_be(c.connection_id@.len() as u64) + c.connection_id@ + spec_u64_be(
        c.counterparty_port_id@.len() as u64,
    ) + c.counterparty_port_id@ + spec_u64_be(c.counterparty_channel_id@.len() as u64)
        + c.counterparty_channel_id@
}

pub fn encode_channel_end(c: &ChannelEnd) -> (r: Vec<u8>)
    ensures
        r@ == spec_encode_channel_end(*c),
{
    let mut v: Vec<u8> = Vec::new();
    push_u64_be(&mut v, c.connection_id.bytes.len() as u64);
    push_bytes(&mut v, &c.connection_id.bytes);
    push_u64_be(&mut v, c.counterparty_port_id.bytes.len() as u64);
    push_bytes(&mut v, &c.counterparty_port_id.bytes);
    push_u64_be(&mut v, c.counterparty_channel_id.bytes.len() as u64);
    push_bytes(&mut v, &c.counterparty_channel_id.bytes);
    proof {
        assert(v@ =~= spec_encode_channel_end(*c));
    }
    v
}

} // verus!
