use ibc_light_client::client::{ClientType, Header, MockClientState, MockConsensusState};
use ibc_light_client::commitment::{
    apply_prefix, CommitmentPath, CommitmentPrefix, CommitmentProof, CommitmentRoot,
};
use ibc_light_client::domain::ConnectionEnd;
use ibc_light_client::engine::MockClient;
use ibc_light_client::errors::Error;
use ibc_light_client::height::Height;
use ibc_light_client::identifier::{ClientId, ConnectionId};
use ibc_light_client::path::{connection_path, upgrade_client_path, upgrade_consensus_path};
use ibc_light_client::record::ClientRecord;

fn mock_state(revision_number: u64, revision_height: u64) -> MockClientState {
    MockClientState {
        client_type: ClientType::Mock,
        latest_height: Height::new(revision_number, revision_height),
        frozen: false,
    }
}

fn mock_header(revision_number: u64, revision_height: u64, timestamp: u64) -> Header {
    Header {
        client_type: ClientType::Mock,
        height: Height::new(revision_number, revision_height),
        timestamp,
        root: CommitmentRoot::new(vec![0xaa, 0xbb]),
    }
}

#[test]
fn header_order_forward() {
    let mut record = ClientRecord::new(mock_state(0, 1));
    let h1 = mock_header(0, 4, 40);
    let h2 = mock_header(0, 9, 90);
    assert!(record.update(&h1).is_ok());
    assert!(record.update(&h2).is_ok());
    assert_eq!(record.client_state.latest_height, Height::new(0, 9));
    assert_eq!(record.consensus_entries.len(), 2);
}

#[test]
fn header_order_reverse_rejects_lower_and_keeps_state() {
    let mut record = ClientRecord::new(mock_state(0, 1));
    let h1 = mock_header(0, 4, 40);
    let h2 = mock_header(0, 9, 90);
    assert!(record.update(&h2).is_ok());
    let state_after_h2 = record.client_state;
    let entries_after_h2 = record.consensus_entries.len();
    let r = record.update(&h1);
    assert_eq!(
        r,
        Err(Error::HeaderHeightTooLow {
            header_height: Height::new(0, 4),
            latest_height: Height::new(0, 9),
        })
    );
    assert_eq!(record.client_state, state_after_h2);
    assert_eq!(record.consensus_entries.len(), entries_after_h2);
}

#[test]
fn rejected_update_has_no_partial_effects() {
    let mut record = ClientRecord::new(mock_state(0, 5));
    let wrong_kind = Header {
        client_type: ClientType::Tendermint,
        height: Height::new(0, 9),
        timestamp: 1,
        root: CommitmentRoot::new(vec![1]),
    };
    let r = record.update(&wrong_kind);
    assert_eq!(r, Err(Error::ClientTypeMismatch));
    assert_eq!(record.client_state, mock_state(0, 5));
    assert_eq!(record.consensus_entries.len(), 0);
}

#[test]
fn frozen_client_rejects_update() {
    let mut frozen = mock_state(0, 5);
    frozen.frozen = true;
    let mut record = ClientRecord::new(frozen);
    let r = record.update(&mock_header(0, 9, 1));
    assert_eq!(r, Err(Error::ClientFrozen));
    assert_eq!(record.consensus_entries.len(), 0);
}

#[test]
fn freeze_is_terminal() {
    let mut record = ClientRecord::new(mock_state(0, 5));
    record.update(&mock_header(0, 6, 1)).unwrap();
    record.freeze();
    let r = record.update(&mock_header(0, 9, 2));
    assert_eq!(r, Err(Error::ClientFrozen));
    assert_eq!(record.consensus_entries.len(), 1);

    let engine = MockClient;
    let prefix = CommitmentPrefix::new(b"ibc".to_vec());
    let pf = CommitmentProof::NonMembership {
        root: CommitmentRoot::new(vec![1]),
        path: CommitmentPath::new(vec![b"x".to_vec()]),
    };
    let r = engine.verify_connection_state(
        &record.client_state,
        Height::new(0, 1),
        &prefix,
        &pf,
        &CommitmentRoot::new(vec![1]),
        &ConnectionId::new(b"connection-0".to_vec()),
        &sample_connection_end(),
    );
    assert_eq!(r, Err(Error::ClientFrozen));
}

#[test]
fn update_scenario_low_then_high() {
    let engine = MockClient;
    let cs = mock_state(0, 5);
    let low = mock_header(0, 3, 30);
    let r1 = engine.check_header_and_update_state(&cs, &low);
    assert_eq!(
        r1,
        Err(Error::HeaderHeightTooLow {
            header_height: Height::new(0, 3),
            latest_height: Height::new(0, 5),
        })
    );
    let high = mock_header(0, 8, 80);
    let (new_cs, new_cons) = engine.check_header_and_update_state(&cs, &high).unwrap();
    assert_eq!(new_cs.latest_height, Height::new(0, 8));
    assert_eq!(new_cons.timestamp, 80);
    assert_eq!(new_cons.root.bytes, vec![0xaa, 0xbb]);

    let mut record = ClientRecord::new(cs);
    let r_low = record.update(&low);
    assert!(r_low.is_err());
    assert!(record.consensus_state_at(&Height::new(0, 3)).is_none());
    record.update(&high).unwrap();
    let recorded = record.consensus_state_at(&Height::new(0, 8)).unwrap();
    assert_eq!(recorded.timestamp, 80);
    assert_eq!(record.client_state.latest_height, Height::new(0, 8));
}

fn sample_connection_end() -> ConnectionEnd {
    ConnectionEnd {
        client_id: ClientId::new(b"client-7".to_vec()),
        counterparty_prefix: CommitmentPrefix::new(b"ibc".to_vec()),
        delay_period_time: 0,
        delay_period_blocks: 0,
    }
}

#[test]
fn connection_proof_verifies_and_flipped_byte_fails() {
    let engine = MockClient;
    let cs = mock_state(0, 10);
    let prefix = CommitmentPrefix::new(b"ibc".to_vec());
    let connection_id = ConnectionId::new(b"connection-0".to_vec());
    let expected = sample_connection_end();
    let root = CommitmentRoot::new(vec![9, 9, 9]);

    let segment = connection_path(&connection_id);
    assert_eq!(segment, b"connections/connection-0".to_vec());
    let path = apply_prefix(&prefix, &vec![segment.clone()]).unwrap();
    let value = ibc_light_client::domain::encode_connection_end(&expected);

    let good = CommitmentProof::Membership {
        root: CommitmentRoot::new(vec![9, 9, 9]),
        path,
        value: value.clone(),
    };
    let r = engine.verify_connection_state(
        &cs,
        Height::new(0, 10),
        &prefix,
        &good,
        &root,
        &connection_id,
        &expected,
    );
    assert_eq!(r, Ok(()));

    let mut tampered_value = value.clone();
    tampered_value[0] ^= 0x01;
    let tampered = CommitmentProof::Membership {
        root: CommitmentRoot::new(vec![9, 9, 9]),
        path: apply_prefix(&prefix, &vec![segment.clone()]).unwrap(),
        value: tampered_value,
    };
    let r = engine.verify_connection_state(
        &cs,
        Height::new(0, 10),
        &prefix,
        &tampered,
        &root,
        &connection_id,
        &expected,
    );
    assert_eq!(r, Err(Error::ProofVerificationFailed));
}

#[test]
fn verify_rejects_frozen_and_future_heights_and_empty_prefix() {
    let engine = MockClient;
    let prefix = CommitmentPrefix::new(b"ibc".to_vec());
    let connection_id = ConnectionId::new(b"connection-0".to_vec());
    let expected = sample_connection_end();
    let root = CommitmentRoot::new(vec![9]);
    let pf = CommitmentProof::NonMembership {
        root: CommitmentRoot::new(vec![9]),
        path: CommitmentPath::new(vec![b"x".to_vec()]),
    };

    let mut frozen = mock_state(0, 10);
    frozen.frozen = true;
    let r = engine.verify_connection_state(
        &frozen,
        Height::new(0, 5),
        &prefix,
        &pf,
        &root,
        &connection_id,
        &expected,
    );
    assert_eq!(r, Err(Error::ClientFrozen));

    let cs = mock_state(0, 10);
    let r = engine.verify_connection_state(
        &cs,
        Height::new(0, 11),
        &prefix,
        &pf,
        &root,
        &connection_id,
        &expected,
    );
    assert_eq!(r, Err(Error::ProofVerificationFailed));

    let empty_prefix = CommitmentPrefix::new(Vec::new());
    let r = engine.verify_connection_state(
        &cs,
        Height::new(0, 5),
        &empty_prefix,
        &pf,
        &root,
        &connection_id,
        &expected,
    );
    assert_eq!(r, Err(Error::PathConstructionFailed));
}

fn upgrade_proofs(
    consensus_root: &[u8],
    upgraded_cs: &MockClientState,
    upgraded_cons: &MockConsensusState,
) -> (CommitmentProof, CommitmentProof) {
    let client_proof = CommitmentProof::Membership {
        root: CommitmentRoot::new(consensus_root.to_vec()),
        path: CommitmentPath::new(vec![upgrade_client_path()]),
        value: ibc_light_client::client::encode_client_state(upgraded_cs),
    };
    let consensus_proof = CommitmentProof::Membership {
        root: CommitmentRoot::new(consensus_root.to_vec()),
        path: CommitmentPath::new(vec![upgrade_consensus_path()]),
        value: ibc_light_client::client::encode_consensus_state(upgraded_cons),
    };
    (client_proof, consensus_proof)
}

#[test]
fn upgrade_succeeds_only_when_both_proofs_verify() {
    let engine = MockClient;
    let cs = mock_state(0, 10);
    let current_cons = MockConsensusState { root: CommitmentRoot::new(vec![4, 4]), timestamp: 5 };
    let upgraded_cs = mock_state(1, 1);
    let upgraded_cons = MockConsensusState { root: CommitmentRoot::new(vec![5, 5]), timestamp: 6 };

    let (good_client, good_cons) = upgrade_proofs(&[4, 4], &upgraded_cs, &upgraded_cons);
    let (new_cs, new_cons) = engine
        .verify_upgrade_and_update_state(
            &cs,
            &current_cons,
            &good_client,
            &good_cons,
            &upgraded_cs,
            &upgraded_cons,
        )
        .unwrap();
    assert_eq!(new_cs, upgraded_cs);
    assert_eq!(new_cons.root.bytes, vec![5, 5]);
    assert_eq!(new_cons.timestamp, 6);

    // Same proofs, but the client proof is pinned to a different root: the
    // pair must be rejected as a whole.
    let (stale_client, good_cons) = upgrade_proofs(&[4, 4], &upgraded_cs, &upgraded_cons);
    let stale_client = match stale_client {
        CommitmentProof::Membership { path, value, .. } => CommitmentProof::Membership {
            root: CommitmentRoot::new(vec![0]),
            path,
            value,
        },
        other => other,
    };
    let r = engine.verify_upgrade_and_update_state(
        &cs,
        &current_cons,
        &stale_client,
        &good_cons,
        &upgraded_cs,
        &upgraded_cons,
    );
    assert_eq!(r, Err(Error::UpgradeProofMismatch));

    let (good_client, stale_cons) = upgrade_proofs(&[4, 4], &upgraded_cs, &upgraded_cons);
    let stale_cons = match stale_cons {
        CommitmentProof::Membership { path, value, .. } => CommitmentProof::Membership {
            root: CommitmentRoot::new(vec![0]),
            path,
            value,
        },
        other => other,
    };
    let r = engine.verify_upgrade_and_update_state(
        &cs,
        &current_cons,
        &good_client,
        &stale_cons,
        &upgraded_cs,
        &upgraded_cons,
    );
    assert_eq!(r, Err(Error::UpgradeProofMismatch));
}
