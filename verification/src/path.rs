use vstd::prelude::*;

use crate::bytes::{
    count_byte, lemma_count_byte_concat, lemma_count_byte_occurrence, lemma_count_byte_of_digits,
    lemma_decimal_digits, lemma_decimal_injective, push_bytes, push_decimal, spec_decimal,
};
use crate::commitment::{lemma_apply_prefix_deterministic, spec_apply_prefix};
use crate::height::Height;
use crate::identifier::{ChannelId, ClientId, ConnectionId, PortId};

verus! {

/// The bytes of "clients/".
pub open spec fn lit_clients() -> Seq<u8> {
    seq![99u8, 108u8, 105u8, 101u8, 110u8, 116u8, 115u8, 47u8]
}

fn push_lit_clients(v: &mut Vec<u8>)
    ensures
        final(v)@ == old(v)@ + lit_clients(),
{
    v.push(99u8);
    v.push(108u8);
    v.push(105u8);
    v.push(101u8);
    v.push(110u8);
    v.push(116u8);
    v.push(115u8);
    v.push(47u8);
    proof {
        assert(v@ =~= old(v)@ + lit_clients());
    }
}

/// The bytes of "/consensusStates/".
pub open spec fn lit_consensus_states() -> Seq<u8> {
    seq![47u8, 99u8, 111u8, 110u8, 115u8, 101u8, 110u8, 115u8, 117u8, 115u8, 83u8, 116u8, 97u8, 116u8, 101u8, 115u8, 47u8]
}

fn push_lit_consensus_states(v: &mut Vec<u8>)
    ensures
        final(v)@ == old(v)@ + lit_consensus_states(),
{
    v.push(47u8);
    v.push(99u8);
    v.push(111u8);
    v.push(110u8);
    v.push(115u8);
    v.push(101u8);
    v.push(110u8);
    v.push(115u8);
    v.push(117u8);
    v.push(115u8);
    v.push(83u8);
    v.push(116u8);
    v.push(97u8);
    v.push(116u8);
    v.push(101u8);
    v.push(115u8);
    v.push(47u8);
    proof {
        assert(v@ =~= old(v)@ + lit_consensus_states());
    }
}

/// The bytes of "-".
pub open spec fn lit_dash() -> Seq<u8> {
    seq![45u8]
}

fn push_lit_dash(v: &mut Vec<u8>)
    ensures
        final(v)@ == old(v)@ + lit_dash(),
{
    v.push(45u8);
    proof {
        assert(v@ =~= old(v)@ + lit_dash());
    }
}

/// The bytes of "/clientState".
pub open spec fn lit_client_state() -> Seq<u8> {
    seq![47u8, 99u8, 108u8, 105u8, 101u8, 110u8, 116u8, 83u8, 116u8, 97u8, 116u8, 101u8]
}

fn push_lit_client_state(v: &mut Vec<u8>)
    ensures
        final(v)@ == old(v)@ + lit_client_state(),
{
    v.push(47u8);
    v.push(99u8);
    v.push(108u8);
    v.push(105u8);
    v.push(101u8);
    v.push(110u8);
    v.push(116u8);
    v.push(83u8);
    v.push(116u8);
    v.push(97u8);
    v.push(116u8);
    v.push(101u8);
    proof {
        assert(v@ =~= old(v)@ + lit_client_state());
    }
}

/// The bytes of "connections/".
pub open spec fn lit_connections() -> Seq<u8> {
    seq![99u8, 111u8, 110u8, 110u8, 101u8, 99u8, 116u8, 105u8, 111u8, 110u8, 115u8, 47u8]
}

fn push_lit_connections(v: &mut Vec<u8>)
    ensures
        final(v)@ == old(v)@ + lit_connections(),
{
    v.push(99u8);
    v.push(111u8);
    v.push(110u8);
    v.push(110u8);
    v.push(101u8);
    v.push(99u8);
    v.push(116u8);
    v.push(105u8);
    v.push(111u8);
    v.push(110u8);
    v.push(115u8);
    v.push(47u8);
    proof {
        assert(v@ =~= old(v)@ + lit_connections());
    }
}

/// The bytes of "channelEnds/ports/".
pub open spec fn lit_channel_ends_ports() -> Seq<u8> {
    seq![99u8, 104u8, 97u8, 110u8, 110u8, 101u8, 108u8, 69u8, 110u8, 100u8, 115u8, 47u8, 112u8, 111u8, 114u8, 116u8, 115u8, 47u8]
}

fn push_lit_channel_ends_ports(v: &mut Vec<u8>)
    ensures
        final(v)@ == old(v)@ + lit_channel_ends_ports(),
{
    v.push(99u8);
    v.push(104u8);
    v.push(97u8);
    v.push(110u8);
    v.push(110u8);
    v.push(101u8);
    v.push(108u8);
    v.push(69u8);
    v.push(110u8);
    v.push(100u8);
    v.push(115u8);
    v.push(47u8);
    v.push(112u8);
    v.push(111u8);
    v.push(114u8);
    v.push(116u8);
    v.push(115u8);
    v.push(47u8);
    proof {
        assert(v@ =~= old(v)@ + lit_channel_ends_ports());
    }
}

/// The bytes of "/channels/".
pub open spec fn lit_channels() -> Seq<u8> {
    seq![47u8, 99u8, 104u8, 97u8, 110u8, 110u8, 101u8, 108u8, 115u8, 47u8]
}

fn push_lit_channels(v: &mut Vec<u8>)
    ensures
        final(v)@ == old(v)@ + lit_channels(),
{
    v.push(47u8);
    v.push(99u8);
    v.push(104u8);
    v.push(97u8);
    v.push(110u8);
    v.push(110u8);
    v.push(101u8);
    v.push(108u8);
    v.push(115u8);
    v.push(47u8);
    proof {
        assert(v@ =~= old(v)@ + lit_channels());
    }
}

/// The bytes of "commitments/ports/".
pub open spec fn lit_commitments_ports() -> Seq<u8> {
    seq![99u8, 111u8, 109u8, 109u8, 105u8, 116u8, 109u8, 101u8, 110u8, 116u8, 115u8, 47u8, 112u8, 111u8, 114u8, 116u8, 115u8, 47u8]
}

fn push_lit_commitments_ports(v: &mut Vec<u8>)
    ensures
        final(v)@ == old(v)@ + lit_commitments_ports(),
{
    v.push(99u8);
    v.push(111u8);
    v.push(109u8);
    v.push(109u8);
    v.push(105u8);
    v.push(116u8);
    v.push(109u8);
    v.push(101u8);
    v.push(110u8);
    v.push(116u8);
    v.push(115u8);
    v.push(47u8);
    v.push(112u8);
    v.push(111u8);
    v.push(114u8);
    v.push(116u8);
    v.push(115u8);
    v.push(47u8);
    proof {
        assert(v@ =~= old(v)@ + lit_commitments_ports());
    }
}

/// The bytes of "/sequences/".
pub open spec fn lit_sequences() -> Seq<u8> {
    seq![47u8, 115u8, 101u8, 113u8, 117u8, 101u8, 110u8, 99u8, 101u8, 115u8, 47u8]
}

fn push_lit_sequences(v: &mut Vec<u8>)
    ensures
        final(v)@ == old(v)@ + lit_sequences(),
{
    v.push(47u8);
    v.push(115u8);
    v.push(101u8);
    v.push(113u8);
    v.push(117u8);
    v.push(101u8);
    v.push(110u8);
    v.push(99u8);
    v.push(101u8);
    v.push(115u8);
    v.push(47u8);
    proof {
        assert(v@ =~= old(v)@ + lit_sequences());
    }
}

/// The bytes of "acks/ports/".
pub open spec fn lit_acks_ports() -> Seq<u8> {
    seq![97u8, 99u8, 107u8, 115u8, 47u8, 112u8, 111u8, 114u8, 116u8, 115u8, 47u8]
}

fn push_lit_acks_ports(v: &mut Vec<u8>)
    ensures
        final(v)@ == old(v)@ + lit_acks_ports(),
{
    v.push(97u8);
    v.push(99u8);
    v.push(107u8);
    v.push(115u8);
    v.push(47u8);
    v.push(112u8);
    v.push(111u8);
    v.push(114u8);
    v.push(116u8);
    v.push(115u8);
    v.push(47u8);
    proof {
        assert(v@ =~= old(v)@ + lit_acks_ports());
    }
}

/// The bytes of "nextSequenceRecv/ports/".
pub open spec fn lit_next_sequence_recv_ports() -> Seq<u8> {
    seq![110u8, 101u8, 120u8, 116u8, 83u8, 101u8, 113u8, 117u8, 101u8, 110u8, 99u8, 101u8, 82u8, 101u8, 99u8, 118u8, 47u8, 112u8, 111u8, 114u8, 116u8, 115u8, 47u8]
}

fn push_lit_next_sequence_recv_ports(v: &mut Vec<u8>)
    ensures
        final(v)@ == old(v)@ + lit_next_sequence_recv_ports(),
{
    v.push(110u8);
    v.push(101u8);
    v.push(120u8);
    v.push(116u8);
    v.push(83u8);
    v.push(101u8);
    v.push(113u8);
    v.push(117u8);
    v.push(101u8);
    v.push(110u8);
    v.push(99u8);
    v.push(101u8);
    v.push(82u8);
    v.push(101u8);
    v.push(99u8);
    v.push(118u8);
    v.push(47u8);
    v.push(112u8);
    v.push(111u8);
    v.push(114u8);
    v.push(116u8);
    v.push(115u8);
    v.push(47u8);
    proof {
        assert(v@ =~= old(v)@ + lit_next_sequence_recv_ports());
    }
}

/// The bytes of "receipts/ports/".
pub open spec fn lit_receipts_ports() -> Seq<u8> {
    seq![114u8, 101u8, 99u8, 101u8, 105u8, 112u8, 116u8, 115u8, 47u8, 112u8, 111u8, 114u8, 116u8, 115u8, 47u8]
}

fn push_lit_receipts_ports(v: &mut Vec<u8>)
    ensures
        final(v)@ == old(v)@ + lit_receipts_ports(),
{
    v.push(114u8);
    v.push(101u8);
    v.push(99u8);
    v.push(101u8);
    v.push(105u8);
    v.push(112u8);
    v.push(116u8);
    v.push(115u8);
    v.push(47u8);
    v.push(112u8);
    v.push(111u8);
    v.push(114u8);
    v.push(116u8);
    v.push(115u8);
    v.push(47u8);
    proof {
        assert(v@ =~= old(v)@ + lit_receipts_ports());
    }
}

/// The bytes of "upgradedClient".
pub open spec fn lit_upgraded_client() -> Seq<u8> {
    seq![117u8, 112u8, 103u8, 114u8, 97u8, 100u8, 101u8, 100u8, 67u8, 108u8, 105u8, 101u8, 110u8, 116u8]
}

fn push_lit_upgraded_client(v: &mut Vec<u8>)
    ensures
        final(v)@ == old(v)@ + lit_upgraded_client(),
{
    v.push(117u8);
    v.push(112u8);
    v.push(103u8);
    v.push(114u8);
    v.push(97u8);
    v.push(100u8);
    v.push(101u8);
    v.push(100u8);
    v.push(67u8);
    v.push(108u8);
    v.push(105u8);
    v.push(101u8);
    v.push(110u8);
    v.push(116u8);
    proof {
        assert(v@ =~= old(v)@ + lit_upgraded_client());
    }
}

/// The bytes of "upgradedConsState".
pub open spec fn lit_upgraded_cons_state() -> Seq<u8> {
    seq![117u8, 112u8, 103u8, 114u8, 97u8, 100u8, 101u8, 100u8, 67u8, 111u8, 110u8, 115u8, 83u8, 116u8, 97u8, 116u8, 101u8]
}

fn push_lit_upgraded_cons_state(v: &mut Vec<u8>)
    ensures
        final(v)@ == old(v)@ + lit_upgraded_cons_state(),
{
    v.push(117u8);
    v.push(112u8);
    v.push(103u8);
    v.push(114u8);
    v.push(97u8);
    v.push(100u8);
    v.push(101u8);
    v.push(100u8);
    v.push(67u8);
    v.push(111u8);
    v.push(110u8);
    v.push(115u8);
    v.push(83u8);
    v.push(116u8);
    v.push(97u8);
    v.push(116u8);
    v.push(101u8);
    proof {
        assert(v@ =~= old(v)@ + lit_upgraded_cons_state());
    }
}

/// Canonical key of the recorded consensus state of `client_id` at
/// `consensus_height`: "clients/{id}/consensusStates/{epoch}-{height}".
pub open spec fn spec_consensus_state_path(client_id: Seq<u8>, consensus_height: Height) -> Seq<
    u8,
> {
    lit_clients() + client_id + lit_consensus_states() + spec_decimal(
        consensus_height.revision_number,
    ) + lit_dash() + spec_decimal(consensus_height.revision_height)
}

pub fn consensus_state_path(client_id: &ClientId, consensus_height: &Height) -> (r: Vec<u8>)
    ensures
        r@ == spec_consensus_state_path(client_id@, *consensus_height),
        r@.len() > 0,
{
    let mut v: Vec<u8> = Vec::new();
    push_lit_clients(&mut v);
    push_bytes(&mut v, &client_id.bytes);
    push_lit_consensus_states(&mut v);
    push_decimal(&mut v, consensus_height.revision_number);
    push_lit_dash(&mut v);
    push_decimal(&mut v, consensus_height.revision_height);
    proof {
        assert(v@ =~= spec_consensus_state_path(client_id@, *consensus_height));
    }
    v
}

/// Canonical key of the counterparty's own client state for `client_id`:
/// "clients/{id}/clientState".
pub open spec fn spec_client_state_path(client_id: Seq<u8>) -> Seq<u8> {
    lit_clients() + client_id + lit_client_state()
}

pub fn client_state_path(client_id: &ClientId) -> (r: Vec<u8>)
    ensures
        r@ == spec_client_state_path(client_id@),
        r@.len() > 0,
{
    let mut v: Vec<u8> = Vec::new();
    push_lit_clients(&mut v);
    push_bytes(&mut v, &client_id.bytes);
    push_lit_client_state(&mut v);
    proof {
        assert(v@ =~= spec_client_state_path(client_id@));
    }
    v
}

/// Canonical key of a connection end: "connections/{id}".
pub open spec fn spec_connection_path(connection_id: Seq<u8>) -> Seq<u8> {
    lit_connections() + connection_id
}

pub fn connection_path(connection_id: &ConnectionId) -> (r: Vec<u8>)
    ensures
        r@ == spec_connection_path(connection_id@),
        r@.len() > 0,
{
    let mut v: Vec<u8> = Vec::new();
    push_lit_connections(&mut v);
    push_bytes(&mut v, &connection_id.bytes);
    proof {
        assert(v@ =~= spec_connection_path(connection_id@));
    }
    v
}

/// Canonical key of a channel end: "channelEnds/ports/{port}/channels/{channel}".
pub open spec fn spec_channel_path(port_id: Seq<u8>, channel_id: Seq<u8>) -> Seq<u8> {
    lit_channel_ends_ports() + port_id + lit_channels() + channel_id
}

pub fn channel_path(port_id: &PortId, channel_id: &ChannelId) -> (r: Vec<u8>)
    ensures
        r@ == spec_channel_path(port_id@, channel_id@),
        r@.len() > 0,
{
    let mut v: Vec<u8> = Vec::new();
    push_lit_channel_ends_ports(&mut v);
    push_bytes(&mut v, &port_id.bytes);
    push_lit_channels(&mut v);
    push_bytes(&mut v, &channel_id.bytes);
    proof {
        assert(v@ =~= spec_channel_path(port_id@, channel_id@));
    }
    v
}

/// Canonical key of a packet commitment:
/// "commitments/ports/{port}/channels/{channel}/sequences/{sequence}".
pub open spec fn spec_packet_commitment_path(
    port_id: Seq<u8>,
    channel_id: Seq<u8>,
    sequence: u64,
) -> Seq<u8> {
    lit_commitments_ports() + port_id + lit_channels() + channel_id + lit_sequences()
        + spec_decimal(sequence)
}

pub fn packet_commitment_path(port_id: &PortId, channel_id: &ChannelId, sequence: u64) -> (r: Vec<
    u8,
>)
    ensures
        r@ == spec_packet_commitment_path(port_id@, channel_id@, sequence),
        r@.len() > 0,
{
    let mut v: Vec<u8> = Vec::new();
    push_lit_commitments_ports(&mut v);
    push_bytes(&mut v, &port_id.bytes);
    push_lit_channels(&mut v);
    push_bytes(&mut v, &channel_id.bytes);
    push_lit_sequences(&mut v);
    push_decimal(&mut v, sequence);
    proof {
        assert(v@ =~= spec_packet_commitment_path(port_id@, channel_id@, sequence));
    }
    v
}

/// Canonical key of an acknowledgement commitment:
/// "acks/ports/{port}/channels/{channel}/sequences/{sequence}".
pub open spec fn spec_ack_path(port_id: Seq<u8>, channel_id: Seq<u8>, sequence: u64) -> Seq<u8> {
    lit_acks_ports() + port_id + lit_channels() + channel_id + lit_sequences() + spec_decimal(
        sequence,
    )
}

pub fn ack_path(port_id: &PortId, channel_id: &ChannelId, sequence: u64) -> (r: Vec<u8>)
    ensures
        r@ == spec_ack_path(port_id@, channel_id@, sequence),
        r@.len() > 0,
{
    let mut v: Vec<u8> = Vec::new();
    push_lit_acks_ports(&mut v);
    push_bytes(&mut v, &port_id.bytes);
    push_lit_channels(&mut v);
    push_bytes(&mut v, &channel_id.bytes);
    push_lit_sequences(&mut v);
    push_decimal(&mut v, sequence);
    proof {
        assert(v@ =~= spec_ack_path(port_id@, channel_id@, sequence));
    }
    v
}

/// Canonical key of the next-sequence-receive counter:
/// "nextSequenceRecv/ports/{port}/channels/{channel}".
pub open spec fn spec_next_sequence_recv_path(port_id: Seq<u8>, channel_id: Seq<u8>) -> Seq<u8> {
    lit_next_sequence_recv_ports() + port_id + lit_channels() + channel_id
}

pub fn next_sequence_recv_path(port_id: &PortId, channel_id: &ChannelId) -> (r: Vec<u8>)
    ensures
        r@ == spec_next_sequence_recv_path(port_id@, channel_id@),
        r@.len() > 0,
{
    let mut v: Vec<u8> = Vec::new();
    push_lit_next_sequence_recv_ports(&mut v);
    push_bytes(&mut v, &port_id.bytes);
    push_lit_channels(&mut v);
    push_bytes(&mut v, &channel_id.bytes);
    proof {
        assert(v@ =~= spec_next_sequence_recv_path(port_id@, channel_id@));
    }
    v
}

/// Canonical key of a packet receipt:
/// "receipts/ports/{port}/channels/{channel}/sequences/{sequence}".
pub open spec fn spec_receipt_path(port_id: Seq<u8>, channel_id: Seq<u8>, sequence: u64) -> Seq<
    u8,
> {
    lit_receipts_ports() + port_id + lit_channels() + channel_id + lit_sequences() + spec_decimal(
        sequence,
    )
}

pub fn receipt_path(port_id: &PortId, channel_id: &ChannelId, sequence: u64) -> (r: Vec<u8>)
    ensures
        r@ == spec_receipt_path(port_id@, channel_id@, sequence),
        r@.len() > 0,
{
    let mut v: Vec<u8> = Vec::new();
    push_lit_receipts_ports(&mut v);
    push_bytes(&mut v, &port_id.bytes);
    push_lit_channels(&mut v);
    push_bytes(&mut v, &channel_id.bytes);
    push_lit_sequences(&mut v);
    push_decimal(&mut v, sequence);
    proof {
        assert(v@ =~= spec_receipt_path(port_id@, channel_id@, sequence));
    }
    v
}

/// Fixed key under which an upgraded client state is committed.
pub open spec fn spec_upgrade_client_path() -> Seq<u8> {
    lit_upgraded_client()
}

pub fn upgrade_client_path() -> (r: Vec<u8>)
    ensures
        r@ == spec_upgrade_client_path(),
        r@.len() > 0,
{
    let mut v: Vec<u8> = Vec::new();
    push_lit_upgraded_client(&mut v);
    proof {
        assert(v@ =~= spec_upgrade_client_path());
    }
    v
}

/// Fixed key under which an upgraded consensus state is committed.
pub open spec fn spec_upgrade_consensus_path() -> Seq<u8> {
    lit_upgraded_cons_state()
}

pub fn upgrade_consensus_path() -> (r: Vec<u8>)
    ensures
        r@ == spec_upgrade_consensus_path(),
        r@.len() > 0,
{
    let mut v: Vec<u8> = Vec::new();
    push_lit_upgraded_cons_state(&mut v);
    proof {
        assert(v@ =~= spec_upgrade_consensus_path());
    }
    v
}


/// A height's rendering "{revision_number}-{revision_height}" is injective:
/// a dash cannot occur inside a decimal rendering, so it splits the string
/// unambiguously.
proof fn lemma_decimal_pair_injective(a1: u64, b1: u64, a2: u64, b2: u64)
    requires
        spec_decimal(a1) + lit_dash() + spec_decimal(b1) == spec_decimal(a2) + lit_dash()
            + spec_decimal(b2),
    ensures
        a1 == a2,
        b1 == b2,
{
    lemma_decimal_digits(a1);
    lemma_decimal_digits(a2);
    lemma_decimal_digits(b1);
    lemma_decimal_digits(b2);
    let s1 = spec_decimal(a1) + lit_dash() + spec_decimal(b1);
    let s2 = spec_decimal(a2) + lit_dash() + spec_decimal(b2);
    let la1 = spec_decimal(a1).len() as int;
    let la2 = spec_decimal(a2).len() as int;
    assert(lit_dash().len() == 1);
    assert(lit_dash()[0] == 45);
    assert(s1[la1] == 45);
    assert(s2[la2] == 45);
    if la1 < la2 {
        assert(s2[la1] == spec_decimal(a2)[la1]);
        assert(false);
    }
    if la2 < la1 {
        assert(s1[la2] == spec_decimal(a1)[la2]);
        assert(false);
    }
    assert forall|i: int| 0 <= i < la1 implies spec_decimal(a1)[i] == spec_decimal(a2)[i] by {
        assert(s1[i] == spec_decimal(a1)[i]);
        assert(s2[i] == spec_decimal(a2)[i]);
    }
    assert(spec_decimal(a1) =~= spec_decimal(a2));
    lemma_decimal_injective(a1, a2);
    assert(s1.len() == la1 + 1 + spec_decimal(b1).len());
    assert(s2.len() == la2 + 1 + spec_decimal(b2).len());
    assert(s1.len() == s2.len());
    assert(spec_decimal(b1).len() == spec_decimal(b2).len());
    assert forall|i: int|
        0 <= i < spec_decimal(b1).len() implies spec_decimal(b1)[i] == spec_decimal(b2)[i] by {
        assert(s1[la1 + 1 + i] == spec_decimal(b1)[i]);
        assert(s2[la2 + 1 + i] == spec_decimal(b2)[i]);
    }
    assert(spec_decimal(b1) =~= spec_decimal(b2));
    lemma_decimal_injective(b1, b2);
}

/// The slash count of a consensus-state key: the slashes of the two literals
/// plus those of the client id — the decimal renderings and the dash
/// contribute none.
proof fn lemma_consensus_path_slash_count(id: Seq<u8>, h: Height)
    ensures
        count_byte(spec_consensus_state_path(id, h), 47) == count_byte(lit_clients(), 47)
            + count_byte(id, 47) + count_byte(lit_consensus_states(), 47),
{
    lemma_decimal_digits(h.revision_number);
    lemma_decimal_digits(h.revision_height);
    lemma_count_byte_of_digits(spec_decimal(h.revision_number), 47);
    lemma_count_byte_of_digits(spec_decimal(h.revision_height), 47);
    assert(lit_dash().drop_last() =~= Seq::<u8>::empty());
    assert(count_byte(Seq::<u8>::empty(), 47) == 0);
    assert(count_byte(lit_dash(), 47) == 0);
    lemma_count_byte_concat(lit_clients(), id, 47);
    lemma_count_byte_concat(lit_clients() + id, lit_consensus_states(), 47);
    lemma_count_byte_concat(
        lit_clients() + id + lit_consensus_states(),
        spec_decimal(h.revision_number),
        47,
    );
    lemma_count_byte_concat(
        lit_clients() + id + lit_consensus_states() + spec_decimal(h.revision_number),
        lit_dash(),
        47,
    );
    lemma_count_byte_concat(
        lit_clients() + id + lit_consensus_states() + spec_decimal(h.revision_number)
            + lit_dash(),
        spec_decimal(h.revision_height),
        47,
    );
}

/// The consensus-state key determines its components: equal keys can only
/// come from the same client id and the same consensus height, so changing
/// any component changes the key.
pub proof fn lemma_consensus_state_path_injective(
    ida: Seq<u8>,
    ha: Height,
    idb: Seq<u8>,
    hb: Height,
)
    requires
        spec_consensus_state_path(ida, ha) == spec_consensus_state_path(idb, hb),
    ensures
        ida == idb,
        ha == hb,
{
    let full = spec_consensus_state_path(ida, ha);
    assert(lit_clients().len() == 8);
    assert(lit_consensus_states().len() == 17);
    if ida.len() < idb.len() {
        assert forall|i: int| 0 <= i < ida.len() implies idb[i] == ida[i] by {
            assert(full[8 + i] == ida[i]);
            assert(spec_consensus_state_path(idb, hb)[8 + i] == idb[i]);
        }
        let x = idb.subrange(ida.len() as int, idb.len() as int);
        assert(idb =~= ida + x);
        let p = 8 + ida.len() as int;
        assert(full[p] == lit_consensus_states()[0]);
        assert(lit_consensus_states()[0] == 47);
        assert(spec_consensus_state_path(idb, hb)[p] == idb[ida.len() as int]);
        assert(x[0] == 47);
        lemma_count_byte_occurrence(x, 47, 0);
        lemma_consensus_path_slash_count(ida, ha);
        lemma_consensus_path_slash_count(idb, hb);
        lemma_count_byte_concat(ida, x, 47);
        assert(false);
    }
    if idb.len() < ida.len() {
        assert forall|i: int| 0 <= i < idb.len() implies ida[i] == idb[i] by {
            assert(spec_consensus_state_path(idb, hb)[8 + i] == idb[i]);
            assert(full[8 + i] == ida[i]);
        }
        let x = ida.subrange(idb.len() as int, ida.len() as int);
        assert(ida =~= idb + x);
        let p = 8 + idb.len() as int;
        assert(spec_consensus_state_path(idb, hb)[p] == lit_consensus_states()[0]);
        assert(lit_consensus_states()[0] == 47);
        assert(full[p] == ida[idb.len() as int]);
        assert(x[0] == 47);
        lemma_count_byte_occurrence(x, 47, 0);
        lemma_consensus_path_slash_count(idb, hb);
        lemma_consensus_path_slash_count(ida, ha);
        lemma_count_byte_concat(idb, x, 47);
        assert(false);
    }
    assert forall|i: int| 0 <= i < ida.len() implies ida[i] == idb[i] by {
        assert(full[8 + i] == ida[i]);
        assert(spec_consensus_state_path(idb, hb)[8 + i] == idb[i]);
    }
    assert(ida =~= idb);
    let off = 8 + ida.len() as int + 17;
    let ta = spec_decimal(ha.revision_number) + lit_dash() + spec_decimal(ha.revision_height);
    let tb = spec_decimal(hb.revision_number) + lit_dash() + spec_decimal(hb.revision_height);
    assert(full.len() == off + ta.len());
    assert(spec_consensus_state_path(idb, hb).len() == off + tb.len());
    assert(ta.len() == tb.len());
    assert forall|i: int| 0 <= i < ta.len() implies ta[i] == tb[i] by {
        assert(full[off + i] == ta[i]);
        assert(spec_consensus_state_path(idb, hb)[off + i] == tb[i]);
    }
    assert(ta =~= tb);
    lemma_decimal_pair_injective(
        ha.revision_number,
        ha.revision_height,
        hb.revision_number,
        hb.revision_height,
    );
}


/// End-to-end injectivity of the canonical consensus-state key: two calls
/// that agree on the prefixed key computed via `apply_prefix` agree on every
/// component, so changing the prefix, the client id or either height field
/// changes the key.
pub proof fn lemma_consensus_state_key_injective(
    prefix_a: Seq<u8>,
    ida: Seq<u8>,
    ha: Height,
    prefix_b: Seq<u8>,
    idb: Seq<u8>,
    hb: Height,
)
    requires
        spec_apply_prefix(prefix_a, seq![spec_consensus_state_path(ida, ha)])
            == spec_apply_prefix(prefix_b, seq![spec_consensus_state_path(idb, hb)]),
    ensures
        prefix_a == prefix_b,
        ida == idb,
        ha == hb,
{
    lemma_apply_prefix_deterministic(
        prefix_a,
        seq![spec_consensus_state_path(ida, ha)],
        prefix_b,
        seq![spec_consensus_state_path(idb, hb)],
    );
    assert(seq![spec_consensus_state_path(ida, ha)][0] == spec_consensus_state_path(ida, ha));
    assert(seq![spec_consensus_state_path(idb, hb)][0] == spec_consensus_state_path(idb, hb));
    assert(spec_consensus_state_path(ida, ha) == spec_consensus_state_path(idb, hb));
    lemma_consensus_state_path_injective(ida, ha, idb, hb);
}

} // verus!
