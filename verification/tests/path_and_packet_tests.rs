use ibc_light_client::client::{ClientType, MockClientState};
use ibc_light_client::commitment::{
    apply_prefix, CommitmentPrefix, CommitmentProof, CommitmentRoot,
};
use ibc_light_client::context::{AuxContext, ProcessedEntry};
use ibc_light_client::domain::{
    encode_sequence, AcknowledgementCommitment, ConnectionEnd, PacketCommitment, Sequence,
};
use ibc_light_client::engine::MockClient;
use ibc_light_client::errors::Error;
use ibc_light_client::height::Height;
use ibc_light_client::identifier::{ChannelId, ClientId, PortId};
use ibc_light_client::path::{
    ack_path, channel_path, client_state_path, consensus_state_path, next_sequence_recv_path,
    packet_commitment_path, receipt_path,
};

#[test]
fn apply_prefix_is_deterministic_and_input_sensitive() {
    let prefix = CommitmentPrefix::new(b"ibc".to_vec());
    let segments = vec![b"connections/connection-0".to_vec()];
    let a = apply_prefix(&prefix, &segments).unwrap();
    let b = apply_prefix(&prefix, &segments).unwrap();
    assert_eq!(a, b);
    assert_eq!(
        a.segments,
        vec![b"ibc".to_vec(), b"connections/connection-0".to_vec()]
    );

    let other_prefix = CommitmentPrefix::new(b"ibd".to_vec());
    let c = apply_prefix(&other_prefix, &segments).unwrap();
    assert_ne!(a, c);

    let other_segments = vec![b"connections/connection-1".to_vec()];
    let d = apply_prefix(&prefix, &other_segments).unwrap();
    assert_ne!(a, d);
}

#[test]
fn apply_prefix_rejects_empty_components() {
    let empty_prefix = CommitmentPrefix::new(Vec::new());
    let r = apply_prefix(&empty_prefix, &vec![b"x".to_vec()]);
    assert_eq!(r, Err(Error::PathConstructionFailed));

    let prefix = CommitmentPrefix::new(b"ibc".to_vec());
    let r = apply_prefix(&prefix, &vec![Vec::new()]);
    assert_eq!(r, Err(Error::PathConstructionFailed));
}

#[test]
fn domain_paths_render_canonically() {
    let client_id = ClientId::new(b"client-3".to_vec());
    let port = PortId::new(b"transfer".to_vec());
    let channel = ChannelId::new(b"channel-2".to_vec());

    assert_eq!(
        consensus_state_path(&client_id, &Height::new(2, 13)),
        b"clients/client-3/consensusStates/2-13".to_vec()
    );
    assert_eq!(
        client_state_path(&client_id),
        b"clients/client-3/clientState".to_vec()
    );
    assert_eq!(
        channel_path(&port, &channel),
        b"channelEnds/ports/transfer/channels/channel-2".to_vec()
    );
    assert_eq!(
        packet_commitment_path(&port, &channel, 15),
        b"commitments/ports/transfer/channels/channel-2/sequences/15".to_vec()
    );
    assert_eq!(
        ack_path(&port, &channel, 7),
        b"acks/ports/transfer/channels/channel-2/sequences/7".to_vec()
    );
    assert_eq!(
        next_sequence_recv_path(&port, &channel),
        b"nextSequenceRecv/ports/transfer/channels/channel-2".to_vec()
    );
    assert_eq!(
        receipt_path(&port, &channel, 0),
        b"receipts/ports/transfer/channels/channel-2/sequences/0".to_vec()
    );
    assert_eq!(
        receipt_path(&port, &channel, 1234567890),
        b"receipts/ports/transfer/channels/channel-2/sequences/1234567890".to_vec()
    );

    // Changing any component of the consensus-state key changes the key.
    let base = consensus_state_path(&client_id, &Height::new(2, 13));
    assert_ne!(base, consensus_state_path(&client_id, &Height::new(2, 14)));
    assert_ne!(base, consensus_state_path(&client_id, &Height::new(3, 13)));
    assert_ne!(
        base,
        consensus_state_path(&ClientId::new(b"client-4".to_vec()), &Height::new(2, 13))
    );
}

#[test]
fn sequence_encoding_is_big_endian() {
    assert_eq!(
        encode_sequence(&Sequence::new(258)),
        vec![0, 0, 0, 0, 0, 0, 1, 2]
    );
}

fn active_state() -> MockClientState {
    MockClientState {
        client_type: ClientType::Mock,
        latest_height: Height::new(0, 20),
        frozen: false,
    }
}

fn delayed_connection(time: u64, blocks: u64) -> ConnectionEnd {
    ConnectionEnd {
        client_id: ClientId::new(b"client-9".to_vec()),
        counterparty_prefix: CommitmentPrefix::new(b"ibc".to_vec()),
        delay_period_time: time,
        delay_period_blocks: blocks,
    }
}

fn packet_membership_proof(root: &[u8], segment: Vec<u8>, value: Vec<u8>) -> CommitmentProof {
    let prefix = CommitmentPrefix::new(b"ibc".to_vec());
    CommitmentProof::Membership {
        root: CommitmentRoot::new(root.to_vec()),
        path: apply_prefix(&prefix, &vec![segment]).unwrap(),
        value,
    }
}

#[test]
fn packet_data_verifies_with_zero_delay() {
    let engine = MockClient;
    let ctx = AuxContext {
        host_timestamp: 0,
        host_height: Height::new(0, 0),
        processed: Vec::new(),
    };
    let conn = delayed_connection(0, 0);
    let port = PortId::new(b"transfer".to_vec());
    let channel = ChannelId::new(b"channel-2".to_vec());
    let commitment = PacketCommitment::new(vec![1, 2, 3]);
    let proof = packet_membership_proof(
        &[8, 8],
        packet_commitment_path(&port, &channel, 5),
        vec![1, 2, 3],
    );
    let r = engine.verify_packet_data(
        &ctx,
        &active_state(),
        Height::new(0, 15),
        &conn,
        &proof,
        &CommitmentRoot::new(vec![8, 8]),
        &port,
        &channel,
        Sequence::new(5),
        commitment,
    );
    assert_eq!(r, Ok(()));
}

#[test]
fn packet_data_delay_period_not_found_then_waits_then_passes() {
    let engine = MockClient;
    let conn = delayed_connection(100, 4);
    let port = PortId::new(b"transfer".to_vec());
    let channel = ChannelId::new(b"channel-2".to_vec());
    let proof_height = Height::new(0, 15);
    let root = CommitmentRoot::new(vec![8, 8]);
    let make_proof = || {
        packet_membership_proof(
            &[8, 8],
            packet_commitment_path(&port, &channel, 5),
            vec![1, 2, 3],
        )
    };

    // No processed record for the proof height: the auxiliary lookup misses.
    let ctx = AuxContext {
        host_timestamp: 1_000,
        host_height: Height::new(0, 100),
        processed: Vec::new(),
    };
    let r = engine.verify_packet_data(
        &ctx,
        &active_state(),
        proof_height,
        &conn,
        &make_proof(),
        &root,
        &port,
        &channel,
        Sequence::new(5),
        PacketCommitment::new(vec![1, 2, 3]),
    );
    assert_eq!(r, Err(Error::NotFound));

    // Processed, but neither enough time nor enough blocks have passed.
    let entry = ProcessedEntry {
        height: proof_height,
        processed_time: 950,
        processed_height: Height::new(0, 98),
    };
    let ctx = AuxContext {
        host_timestamp: 1_000,
        host_height: Height::new(0, 100),
        processed: vec![entry],
    };
    let r = engine.verify_packet_data(
        &ctx,
        &active_state(),
        proof_height,
        &conn,
        &make_proof(),
        &root,
        &port,
        &channel,
        Sequence::new(5),
        PacketCommitment::new(vec![1, 2, 3]),
    );
    assert_eq!(r, Err(Error::ProofVerificationFailed));

    // Enough time and enough blocks: the same proof now verifies.
    let ctx = AuxContext {
        host_timestamp: 1_050,
        host_height: Height::new(0, 102),
        processed: vec![entry],
    };
    let r = engine.verify_packet_data(
        &ctx,
        &active_state(),
        proof_height,
        &conn,
        &make_proof(),
        &root,
        &port,
        &channel,
        Sequence::new(5),
        PacketCommitment::new(vec![1, 2, 3]),
    );
    assert_eq!(r, Ok(()));
}

#[test]
fn acknowledgement_and_next_sequence_verify() {
    let engine = MockClient;
    let ctx = AuxContext {
        host_timestamp: 0,
        host_height: Height::new(0, 0),
        processed: Vec::new(),
    };
    let conn = delayed_connection(0, 0);
    let port = PortId::new(b"transfer".to_vec());
    let channel = ChannelId::new(b"channel-2".to_vec());
    let root = CommitmentRoot::new(vec![3]);

    let ack_proof = packet_membership_proof(&[3], ack_path(&port, &channel, 9), vec![7, 7]);
    let r = engine.verify_packet_acknowledgement(
        &ctx,
        &active_state(),
        Height::new(0, 15),
        &conn,
        &ack_proof,
        &root,
        &port,
        &channel,
        Sequence::new(9),
        AcknowledgementCommitment::new(vec![7, 7]),
    );
    assert_eq!(r, Ok(()));

    let seq_proof = packet_membership_proof(
        &[3],
        next_sequence_recv_path(&port, &channel),
        encode_sequence(&Sequence::new(11)),
    );
    let r = engine.verify_next_sequence_recv(
        &ctx,
        &active_state(),
        Height::new(0, 15),
        &conn,
        &seq_proof,
        &root,
        &port,
        &channel,
        Sequence::new(11),
    );
    assert_eq!(r, Ok(()));
}

#[test]
fn membership_and_absence_proofs_never_interchange() {
    let engine = MockClient;
    let ctx = AuxContext {
        host_timestamp: 0,
        host_height: Height::new(0, 0),
        processed: Vec::new(),
    };
    let conn = delayed_connection(0, 0);
    let port = PortId::new(b"transfer".to_vec());
    let channel = ChannelId::new(b"channel-2".to_vec());
    let root = CommitmentRoot::new(vec![8, 8]);
    let prefix = CommitmentPrefix::new(b"ibc".to_vec());
    let receipt_key = receipt_path(&port, &channel, 5);

    // A membership proof for the receipt key, offered as evidence of
    // absence: rejected.
    let membership = CommitmentProof::Membership {
        root: CommitmentRoot::new(vec![8, 8]),
        path: apply_prefix(&prefix, &vec![receipt_key.clone()]).unwrap(),
        value: vec![1],
    };
    let r = engine.verify_packet_receipt_absence(
        &ctx,
        &active_state(),
        Height::new(0, 15),
        &conn,
        &membership,
        &root,
        &port,
        &channel,
        Sequence::new(5),
    );
    assert_eq!(r, Err(Error::ProofVerificationFailed));

    // A non-membership proof for the same key is exactly what absence
    // verification accepts.
    let absence = CommitmentProof::NonMembership {
        root: CommitmentRoot::new(vec![8, 8]),
        path: apply_prefix(&prefix, &vec![receipt_key.clone()]).unwrap(),
    };
    let r = engine.verify_packet_receipt_absence(
        &ctx,
        &active_state(),
        Height::new(0, 15),
        &conn,
        &absence,
        &root,
        &port,
        &channel,
        Sequence::new(5),
    );
    assert_eq!(r, Ok(()));

    // The same non-membership proof offered to a membership-style check:
    // rejected, even with a matching path and root.
    let commitment_key = packet_commitment_path(&port, &channel, 5);
    let absence_for_commitment = CommitmentProof::NonMembership {
        root: CommitmentRoot::new(vec![8, 8]),
        path: apply_prefix(&prefix, &vec![commitment_key]).unwrap(),
    };
    let r = engine.verify_packet_data(
        &ctx,
        &active_state(),
        Height::new(0, 15),
        &conn,
        &absence_for_commitment,
        &root,
        &port,
        &channel,
        Sequence::new(5),
        PacketCommitment::new(vec![1]),
    );
    assert_eq!(r, Err(Error::ProofVerificationFailed));
}
