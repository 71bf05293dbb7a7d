use vstd::prelude::*;

use crate::bytes::{push_bytes, push_u64_be, spec_u64_be};
use crate::commitment::CommitmentRoot;
use crate::height::Height;

verus! {

/// The closed set of supported consensus kinds. A client is configured with
/// one of them at creation, and every header carries the tag of the kind it
/// claims to be; the two must agree.
#[derive(Clone, Copy, Debug, PartialEq, Eq, Structural)]
pub enum ClientType {
    Mock,
    Tendermint,
}

/// A consensus-specific claim that the counterparty chain reached `height`
/// with the given commitment root and timestamp. Consumed exactly once by
/// the update operation; never stored.
#[derive(Debug, PartialEq, Eq)]
pub struct Header {
    pub client_type: ClientType,
    pub height: Height,
    pub timestamp: u64,
    pub root: CommitmentRoot,
}

/// The hosting chain's trust record for one counterparty chain: its
/// configured consensus kind, the latest verified height, and the frozen
/// flag set on detected misbehaviour. Mutated only by a successful header
/// update.
#[derive(Clone, Copy, Debug, PartialEq, Eq, Structural)]
pub struct MockClientState {
    pub client_type: ClientType,
    pub latest_height: Height,
    pub frozen: bool,
}

/// An immutable snapshot of the counterparty chain at one height: the
/// commitment root its state tree had there, and its timestamp.
#[derive(Debug, PartialEq, Eq)]
pub struct MockConsensusState {
    pub root: CommitmentRoot,
    pub timestamp: u64,
}

/// A one-byte tag telling the consensus kinds apart in serialized form.
pub open spec fn spec_client_type_tag(t: ClientType) -> u8 {
    match t {
        ClientType::Mock => 0u8,
        ClientType::Tendermint => 1u8,
    }
}

pub fn client_type_tag(t: &ClientType) -> (r: u8)
    ensures
        r == spec_client_type_tag(*t),
{
    match t {
        ClientType::Mock => 0u8,
        ClientType::Tendermint => 1u8,
    }
}

/// The deterministic serialization of a client state: kind tag, the two
/// height components big-endian, then the frozen flag.
pub open spec fn spec_encode_client_state(c: MockClientState) -> Seq<u8> {
    seq![spec_client_type_tag(c.client_type)] + spec_u64_be(c.latest_height.revision_number)
        + spec_u64_be(c.latest_height.revision_height) + seq![
        if c.frozen {
            1u8
        } else {
            0u8
        },
    ]
}

pub fn encode_client_state(c: &MockClientState) -> (r: Vec<u8>)
    ensures
        r@ == spec_encode_client_state(*c),
{
    let mut v: Vec<u8> = Vec::new();
    v.push(client_type_tag(&c.client_type));
    push_u64_be(&mut v, c.latest_height.revision_number);
    push_u64_be(&mut v, c.latest_height.revision_height);
    if c.frozen {
        v.push(1u8);
    } else {
        v.push(0u8);
    }
    proof {
        assert(v@ =~= spec_encode_client_state(*c));
    }
    v
}

/// The deterministic serialization of a consensus state: the root
/// length-prefixed, then the timestamp big-endian.
pub open spec fn spec_encode_consensus_state(c: MockConsensusState) -> Seq<u8> {
    spec_u64_be(c.root@.len() as u64) + c.root@ + spec_u64_be(c.timestamp)
}

pub fn encode_consensus_state(c: &MockConsensusState) -> (r: Vec<u8>)
    ensures
        r@ == spec_encode_consensus_state(*c),
{
    let mut v: Vec<u8> = Vec::new();
    push_u64_be(&mut v, c.root.bytes.len() as u64);
    push_bytes(&mut v, &c.root.bytes);
    push_u64_be(&mut v, c.timestamp);
    proof {
        assert(v@ =~= spec_encode_consensus_state(*c));
    }
    v
}

} // verus!
