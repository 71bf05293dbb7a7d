use ibc_light_client::client::{
    encode_client_state, encode_consensus_state, ClientType, MockClientState, MockConsensusState,
};
use ibc_light_client::commitment::{apply_prefix, CommitmentPrefix, CommitmentProof, CommitmentRoot};
use ibc_light_client::domain::{encode_channel_end, ChannelEnd};
use ibc_light_client::engine::MockClient;
use ibc_light_client::errors::Error;
use ibc_light_client::height::Height;
use ibc_light_client::identifier::{ChannelId, ClientId, ConnectionId, PortId};
use ibc_light_client::path::{channel_path, client_state_path, consensus_state_path};

fn active_state() -> MockClientState {
    MockClientState {
        client_type: ClientType::Mock,
        latest_height: Height::new(0, 30),
        frozen: false,
    }
}

fn membership(root: &[u8], prefix: &CommitmentPrefix, segment: Vec<u8>, value: Vec<u8>) -> CommitmentProof {
    CommitmentProof::Membership {
        root: CommitmentRoot::new(root.to_vec()),
        path: apply_prefix(prefix, &vec![segment]).unwrap(),
        value,
    }
}

#[test]
fn client_consensus_state_proof_roundtrip() {
    let engine = MockClient;
    let prefix = CommitmentPrefix::new(b"ibc".to_vec());
    let client_id = ClientId::new(b"client-3".to_vec());
    let consensus_height = Height::new(2, 13);
    let expected = MockConsensusState { root: CommitmentRoot::new(vec![1, 2]), timestamp: 44 };
    let root = CommitmentRoot::new(vec![6, 6]);

    let good = membership(
        &[6, 6],
        &prefix,
        consensus_state_path(&client_id, &consensus_height),
        encode_consensus_state(&expected),
    );
    let r = engine.verify_client_consensus_state(
        &active_state(),
        Height::new(0, 30),
        &prefix,
        &good,
        &root,
        &client_id,
        consensus_height,
        &expected,
    );
    assert_eq!(r, Ok(()));

    // The same proof pinned to a different consensus height fails.
    let r = engine.verify_client_consensus_state(
        &active_state(),
        Height::new(0, 30),
        &prefix,
        &good,
        &root,
        &client_id,
        Height::new(2, 14),
        &expected,
    );
    assert_eq!(r, Err(Error::ProofVerificationFailed));
}

#[test]
fn channel_state_proof_roundtrip() {
    let engine = MockClient;
    let prefix = CommitmentPrefix::new(b"ibc".to_vec());
    let port = PortId::new(b"transfer".to_vec());
    let channel = ChannelId::new(b"channel-2".to_vec());
    let expected = ChannelEnd {
        connection_id: ConnectionId::new(b"connection-0".to_vec()),
        counterparty_port_id: PortId::new(b"transfer".to_vec()),
        counterparty_channel_id: ChannelId::new(b"channel-5".to_vec()),
    };
    let root = CommitmentRoot::new(vec![2]);

    let good = membership(
        &[2],
        &prefix,
        channel_path(&port, &channel),
        encode_channel_end(&expected),
    );
    let r = engine.verify_channel_state(
        &active_state(),
        Height::new(0, 29),
        &prefix,
        &good,
        &root,
        &port,
        &channel,
        &expected,
    );
    assert_eq!(r, Ok(()));

    // A proof committing to a different root fails against this root.
    let stale = membership(
        &[3],
        &prefix,
        channel_path(&port, &channel),
        encode_channel_end(&expected),
    );
    let r = engine.verify_channel_state(
        &active_state(),
        Height::new(0, 29),
        &prefix,
        &stale,
        &root,
        &port,
        &channel,
        &expected,
    );
    assert_eq!(r, Err(Error::ProofVerificationFailed));
}

#[test]
fn client_full_state_proof_roundtrip() {
    let engine = MockClient;
    let prefix = CommitmentPrefix::new(b"ibc".to_vec());
    let client_id = ClientId::new(b"client-3".to_vec());
    let expected = MockClientState {
        client_type: ClientType::Mock,
        latest_height: Height::new(1, 9),
        frozen: false,
    };
    let root = CommitmentRoot::new(vec![4]);

    let good = membership(
        &[4],
        &prefix,
        client_state_path(&client_id),
        encode_client_state(&expected),
    );
    let r = engine.verify_client_full_state(
        &active_state(),
        Height::new(0, 30),
        &prefix,
        &good,
        &root,
        &client_id,
        &expected,
    );
    assert_eq!(r, Ok(()));

    // A proof of a different client state does not validate this one.
    let mut other = expected;
    other.latest_height = Height::new(1, 10);
    let r = engine.verify_client_full_state(
        &active_state(),
        Height::new(0, 30),
        &prefix,
        &good,
        &root,
        &client_id,
        &other,
    );
    assert_eq!(r, Err(Error::ProofVerificationFailed));
}
