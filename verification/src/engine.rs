use vstd::prelude::*;

use crate::bytes::copy_bytes;
use crate::client::{
    encode_client_state, encode_consensus_state, spec_encode_client_state,
    spec_encode_consensus_state, Header, MockClientState, MockConsensusState,
};
use crate::commitment::{
    apply_prefix, membership_verifies, non_membership_verifies, seqs_of, spec_apply_prefix,
    verify_membership, verify_non_membership, CommitmentPath, CommitmentPrefix, CommitmentProof,
    CommitmentRoot,
};
use crate::context::{check_delay, delay_check_passes, zero_delay, AuxContext};
use crate::domain::{
    encode_channel_end, encode_connection_end, encode_sequence, spec_encode_channel_end,
    spec_encode_connection_end, spec_encode_sequence, AcknowledgementCommitment, ChannelEnd,
    ConnectionEnd, PacketCommitment, Sequence,
};
use crate::errors::Error;
use crate::height::{height_le, height_lt, Height};
use crate::identifier::{ChannelId, ClientId, ConnectionId, PortId};
use crate::path::{
    ack_path, channel_path, client_state_path, connection_path, consensus_state_path,
    next_sequence_recv_path, packet_commitment_path, receipt_path, spec_ack_path,
    spec_channel_path, spec_client_state_path, spec_connection_path, spec_consensus_state_path,
    spec_next_sequence_recv_path, spec_packet_commitment_path, spec_receipt_path,
    spec_upgrade_client_path, spec_upgrade_consensus_path, upgrade_client_path,
    upgrade_consensus_path,
};

verus! {

/// When a header advances a client: the client is active, the header carries
/// the client's configured consensus kind, and its height strictly exceeds
/// the latest verified height.
pub open spec fn update_accepted(cs: MockClientState, h: Header) -> bool {
    &&& !cs.frozen
    &&& h.client_type == cs.client_type
    &&& height_lt(cs.latest_height, h.height)
}

/// The error a rejected header is reported with: freezing dominates, then a
/// kind mismatch, then an insufficient height.
pub open spec fn update_error(cs: MockClientState, h: Header) -> Error {
    if cs.frozen {
        Error::ClientFrozen
    } else if h.client_type != cs.client_type {
        Error::ClientTypeMismatch
    } else {
        Error::HeaderHeightTooLow { header_height: h.height, latest_height: cs.latest_height }
    }
}

/// The client state after an accepted header: only the latest height moves.
pub open spec fn updated_client_state(cs: MockClientState, h: Header) -> MockClientState {
    MockClientState { client_type: cs.client_type, latest_height: h.height, frozen: cs.frozen }
}

/// The light client verification engine for the mock consensus kind.
#[derive(Clone, Copy, Debug, PartialEq, Eq)]
pub struct MockClient;

/// Builds the prefixed single-segment path for `segment` and checks that
/// `pf` proves `value` present there under `root`.
fn check_membership_at(
    prefix: &CommitmentPrefix,
    segment: Vec<u8>,
    pf: &CommitmentProof,
    root: &CommitmentRoot,
    value: &Vec<u8>,
) -> (r: Result<(), Error>)
    requires
        segment@.len() > 0,
    ensures
        r is Ok <==> (prefix@.len() > 0 && membership_verifies(
            *pf,
            root@,
            spec_apply_prefix(prefix@, seq![segment@]),
            value@,
        )),
        prefix@.len() == 0 ==> r == Err::<(), Error>(Error::PathConstructionFailed),
        prefix@.len() > 0 && !membership_verifies(
            *pf,
            root@,
            spec_apply_prefix(prefix@, seq![segment@]),
            value@,
        ) ==> r == Err::<(), Error>(Error::ProofVerificationFailed),
{
    let ghost seg_view = segment@;
    let mut segs: Vec<Vec<u8>> = Vec::new();
    segs.push(segment);
    proof {
        assert(seqs_of(segs) =~= seq![seg_view]);
    }
    match apply_prefix(prefix, &segs) {
        Err(e) => Err(e),
        Ok(p) => {
            if verify_membership(pf, root, &p, value) {
                Ok(())
            } else {
                Err(Error::ProofVerificationFailed)
            }
        },
    }
}

/// Builds the prefixed single-segment path for `segment` and checks that
/// `pf` proves the key absent there under `root`.
fn check_non_membership_at(
    prefix: &CommitmentPrefix,
    segment: Vec<u8>,
    pf: &CommitmentProof,
    root: &CommitmentRoot,
) -> (r: Result<(), Error>)
    requires
        segment@.len() > 0,
    ensures
        r is Ok <==> (prefix@.len() > 0 && non_membership_verifies(
            *pf,
            root@,
            spec_apply_prefix(prefix@, seq![segment@]),
        )),
        prefix@.len() == 0 ==> r == Err::<(), Error>(Error::PathConstructionFailed),
        prefix@.len() > 0 && !non_membership_verifies(
            *pf,
            root@,
            spec_apply_prefix(prefix@, seq![segment@]),
        ) ==> r == Err::<(), Error>(Error::ProofVerificationFailed),
{
    let ghost seg_view = segment@;
    let mut segs: Vec<Vec<u8>> = Vec::new();
    segs.push(segment);
    proof {
        assert(seqs_of(segs) =~= seq![seg_view]);
    }
    match apply_prefix(prefix, &segs) {
        Err(e) => Err(e),
        Ok(p) => {
            if verify_non_membership(pf, root, &p) {
                Ok(())
            } else {
                Err(Error::ProofVerificationFailed)
            }
        },
    }
}

impl MockClient {
    /// Consumes a header and, when it is acceptable, returns the advanced
    /// client state together with the consensus state snapshot the header
    /// attests. A rejection produces no outputs at all: the caller's stored
    /// state is untouched.
    pub fn check_header_and_update_state(
        &self,
        client_state: &MockClientState,
        header: &Header,
    ) -> (r: Result<(MockClientState, MockConsensusState), Error>)
        ensures
            r is Ok <==> update_accepted(*client_state, *header),
            r matches Ok(pair) ==> {
                &&& pair.0 == updated_client_state(*client_state, *header)
                &&& pair.1.root@ == header.root@
                &&& pair.1.timestamp == header.timestamp
            },
            r is Err ==> r == Err::<(MockClientState, MockConsensusState), Error>(
                update_error(*client_state, *header),
            ),
    {
        if client_state.frozen {
            return Err(Error::ClientFrozen);
        }
        if !(header.client_type == client_state.client_type) {
            return Err(Error::ClientTypeMismatch);
        }
        if !client_state.latest_height.lt(&header.height) {
            return Err(
                Error::HeaderHeightTooLow {
                    header_height: header.height,
                    latest_height: client_state.latest_height,
                },
            );
        }
        Ok(
            (
                MockClientState {
                    client_type: client_state.client_type,
                    latest_height: header.height,
                    frozen: client_state.frozen,
                },
                MockConsensusState {
                    root: CommitmentRoot { bytes: copy_bytes(&header.root.bytes) },
                    timestamp: header.timestamp,
                },
            ),
        )
    }

    /// Checks that `pf` proves the counterparty recorded
    /// `expected_consensus_state` for `client_id` at `consensus_height`,
    /// under `root` and the counterparty's `prefix`.
    pub fn verify_client_consensus_state(
        &self,
        client_state: &MockClientState,
        height: Height,
        prefix: &CommitmentPrefix,
        pf: &CommitmentProof,
        root: &CommitmentRoot,
        client_id: &ClientId,
        consensus_height: Height,
        expected_consensus_state: &MockConsensusState,
    ) -> (r: Result<(), Error>)
        ensures
            r is Ok <==> (!client_state.frozen && height_le(height, client_state.latest_height)
                && prefix@.len() > 0 && membership_verifies(
                *pf,
                root@,
                spec_apply_prefix(
                    prefix@,
                    seq![spec_consensus_state_path(client_id@, consensus_height)],
                ),
                spec_encode_consensus_state(*expected_consensus_state),
            )),
            client_state.frozen ==> r == Err::<(), Error>(Error::ClientFrozen),
            !client_state.frozen && !height_le(height, client_state.latest_height) ==> r == Err::<
                (),
                Error,
            >(Error::ProofVerificationFailed),
            !client_state.frozen && height_le(height, client_state.latest_height) && prefix@.len()
                == 0 ==> r == Err::<(), Error>(Error::PathConstructionFailed),
            !client_state.frozen && height_le(height, client_state.latest_height)
                && prefix@.len() > 0 && !membership_verifies(
                *pf,
                root@,
                spec_apply_prefix(
                    prefix@,
                    seq![spec_consensus_state_path(client_id@, consensus_height)],
                ),
                spec_encode_consensus_state(*expected_consensus_state),
            ) ==> r == Err::<(), Error>(Error::ProofVerificationFailed),
    {
        if client_state.frozen {
            return Err(Error::ClientFrozen);
        }
        if !height.le(&client_state.latest_height) {
            return Err(Error::ProofVerificationFailed);
        }
        let segment = consensus_state_path(client_id, &consensus_height);
        let value = encode_consensus_state(expected_consensus_state);
        check_membership_at(prefix, segment, pf, root, &value)
    }

    /// Checks that `pf` proves the counterparty recorded
    /// `expected_connection_end` under `connection_id`.
    pub fn verify_connection_state(
        &self,
        client_state: &MockClientState,
        height: Height,
        prefix: &CommitmentPrefix,
        pf: &CommitmentProof,
        root: &CommitmentRoot,
        connection_id: &ConnectionId,
        expected_connection_end: &ConnectionEnd,
    ) -> (r: Result<(), Error>)
        ensures
            r is Ok <==> (!client_state.frozen && height_le(height, client_state.latest_height)
                && prefix@.len() > 0 && membership_verifies(
                *pf,
                root@,
                spec_apply_prefix(prefix@, seq![spec_connection_path(connection_id@)]),
                spec_encode_connection_end(*expected_connection_end),
            )),
            client_state.frozen ==> r == Err::<(), Error>(Error::ClientFrozen),
            !client_state.frozen && !height_le(height, client_state.latest_height) ==> r == Err::<
                (),
                Error,
            >(Error::ProofVerificationFailed),
            !client_state.frozen && height_le(height, client_state.latest_height) && prefix@.len()
                == 0 ==> r == Err::<(), Error>(Error::PathConstructionFailed),
            !client_state.frozen && height_le(height, client_state.latest_height)
                && prefix@.len() > 0 && !membership_verifies(
                *pf,
                root@,
                spec_apply_prefix(prefix@, seq![spec_connection_path(connection_id@)]),
                spec_encode_connection_end(*expected_connection_end),
            ) ==> r == Err::<(), Error>(Error::ProofVerificationFailed),
    {
        if client_state.frozen {
            return Err(Error::ClientFrozen);
        }
        if !height.le(&client_state.latest_height) {
            return Err(Error::ProofVerificationFailed);
        }
        let segment = connection_path(connection_id);
        let value = encode_connection_end(expected_connection_end);
        check_membership_at(prefix, segment, pf, root, &value)
    }

    /// Checks that `pf` proves the counterparty recorded
    /// `expected_channel_end` under (`port_id`, `channel_id`).
    pub fn verify_channel_state(
        &self,
        client_state: &MockClientState,
        height: Height,
        prefix: &CommitmentPrefix,
        pf: &CommitmentProof,
        root: &CommitmentRoot,
        port_id: &PortId,
        channel_id: &ChannelId,
        expected_channel_end: &ChannelEnd,
    ) -> (r: Result<(), Error>)
        ensures
            r is Ok <==> (!client_state.frozen && height_le(height, client_state.latest_height)
                && prefix@.len() > 0 && membership_verifies(
                *pf,
                root@,
                spec_apply_prefix(prefix@, seq![spec_channel_path(port_id@, channel_id@)]),
                spec_encode_channel_end(*expected_channel_end),
            )),
            client_state.frozen ==> r == Err::<(), Error>(Error::ClientFrozen),
            !client_state.frozen && !height_le(height, client_state.latest_height) ==> r == Err::<
                (),
                Error,
            >(Error::ProofVerificationFailed),
            !client_state.frozen && height_le(height, client_state.latest_height) && prefix@.len()
                == 0 ==> r == Err::<(), Error>(Error::PathConstructionFailed),
            !client_state.frozen && height_le(height, client_state.latest_height)
                && prefix@.len() > 0 && !membership_verifies(
                *pf,
                root@,
                spec_apply_prefix(prefix@, seq![spec_channel_path(port_id@, channel_id@)]),
                spec_encode_channel_end(*expected_channel_end),
            ) ==> r == Err::<(), Error>(Error::ProofVerificationFailed),
    {
        if client_state.frozen {
            return Err(Error::ClientFrozen);
        }
        if !height.le(&client_state.latest_height) {
            return Err(Error::ProofVerificationFailed);
        }
        let segment = channel_path(port_id, channel_id);
        let value = encode_channel_end(expected_channel_end);
        check_membership_at(prefix, segment, pf, root, &value)
    }

    /// Checks that `pf` proves the counterparty recorded
    /// `expected_client_state` as its own client state for `client_id`.
    pub fn verify_client_full_state(
        &self,
        client_state: &MockClientState,
        height: Height,
        prefix: &CommitmentPrefix,
        pf: &CommitmentProof,
        root: &CommitmentRoot,
        client_id: &ClientId,
        expected_client_state: &MockClientState,
    ) -> (r: Result<(), Error>)
        ensures
            r is Ok <==> (!client_state.frozen && height_le(height, client_state.latest_height)
                && prefix@.len() > 0 && membership_verifies(
                *pf,
                root@,
                spec_apply_prefix(prefix@, seq![spec_client_state_path(client_id@)]),
                spec_encode_client_state(*expected_client_state),
            )),
            client_state.frozen ==> r == Err::<(), Error>(Error::ClientFrozen),
            !client_state.frozen && !height_le(height, client_state.latest_height) ==> r == Err::<
                (),
                Error,
            >(Error::ProofVerificationFailed),
            !client_state.frozen && height_le(height, client_state.latest_height) && prefix@.len()
                == 0 ==> r == Err::<(), Error>(Error::PathConstructionFailed),
            !client_state.frozen && height_le(height, client_state.latest_height)
                && prefix@.len() > 0 && !membership_verifies(
                *pf,
                root@,
                spec_apply_prefix(prefix@, seq![spec_client_state_path(client_id@)]),
                spec_encode_client_state(*expected_client_state),
            ) ==> r == Err::<(), Error>(Error::ProofVerificationFailed),
    {
        if client_state.frozen {
            return Err(Error::ClientFrozen);
        }
        if !height.le(&client_state.latest_height) {
            return Err(Error::ProofVerificationFailed);
        }
        let segment = client_state_path(client_id);
        let value = encode_client_state(expected_client_state);
        check_membership_at(prefix, segment, pf, root, &value)
    }

    /// Checks that `pf` proves `commitment` present for the packet at
    /// (`port_id`, `channel_id`, `sequence`), after the delay period
    /// configured on `connection_end` has elapsed for a proof captured at
    /// `height`.
    pub fn verify_packet_data(
        &self,
        ctx: &AuxContext,
        client_state: &MockClientState,
        height: Height,
        connection_end: &ConnectionEnd,
        pf: &CommitmentProof,
        root: &CommitmentRoot,
        port_id: &PortId,
        channel_id: &ChannelId,
        sequence: Sequence,
        commitment: PacketCommitment,
    ) -> (r: Result<(), Error>)
        requires
            ctx.wf(),
        ensures
            r is Ok <==> (!client_state.frozen && height_le(height, client_state.latest_height)
                && delay_check_passes(*ctx, *connection_end, height)
                && connection_end.counterparty_prefix@.len() > 0 && membership_verifies(
                *pf,
                root@,
                spec_apply_prefix(
                    connection_end.counterparty_prefix@,
                    seq![spec_packet_commitment_path(port_id@, channel_id@, sequence.value)],
                ),
                commitment@,
            )),
            client_state.frozen ==> r == Err::<(), Error>(Error::ClientFrozen),
            !client_state.frozen && !height_le(height, client_state.latest_height) ==> r == Err::<
                (),
                Error,
            >(Error::ProofVerificationFailed),
            !client_state.frozen && height_le(height, client_state.latest_height) && !zero_delay(
                *connection_end,
            ) && !ctx.has_processed(height) ==> r == Err::<(), Error>(Error::NotFound),
            !client_state.frozen && height_le(height, client_state.latest_height) && (zero_delay(
                *connection_end,
            ) || ctx.has_processed(height)) && !delay_check_passes(*ctx, *connection_end, height)
                ==> r == Err::<(), Error>(Error::ProofVerificationFailed),
            !client_state.frozen && height_le(height, client_state.latest_height)
                && delay_check_passes(*ctx, *connection_end, height)
                && connection_end.counterparty_prefix@.len() == 0 ==> r == Err::<(), Error>(
                Error::PathConstructionFailed,
            ),
            !client_state.frozen && height_le(height, client_state.latest_height)
                && delay_check_passes(*ctx, *connection_end, height)
                && connection_end.counterparty_prefix@.len() > 0 && !membership_verifies(
                *pf,
                root@,
                spec_apply_prefix(
                    connection_end.counterparty_prefix@,
                    seq![spec_packet_commitment_path(port_id@, channel_id@, sequence.value)],
                ),
                commitment@,
            ) ==> r == Err::<(), Error>(Error::ProofVerificationFailed),
    {
        if client_state.frozen {
            return Err(Error::ClientFrozen);
        }
        if !height.le(&client_state.latest_height) {
            return Err(Error::ProofVerificationFailed);
        }
        match check_delay(ctx, connection_end, &height) {
            None => {
                return Err(Error::NotFound);
            },
            Some(false) => {
                return Err(Error::ProofVerificationFailed);
            },
            Some(true) => {},
        }
        let segment = packet_commitment_path(port_id, channel_id, sequence.value);
        check_membership_at(&connection_end.counterparty_prefix, segment, pf, root, &commitment.bytes)
    }

    /// Checks that `pf` proves `ack` present as the acknowledgement of the
    /// packet at (`port_id`, `channel_id`, `sequence`), under the same
    /// delay-period rule.
    pub fn verify_packet_acknowledgement(
        &self,
        ctx: &AuxContext,
        client_state: &MockClientState,
        height: Height,
        connection_end: &ConnectionEnd,
        pf: &CommitmentProof,
        root: &CommitmentRoot,
        port_id: &PortId,
        channel_id: &ChannelId,
        sequence: Sequence,
        ack: AcknowledgementCommitment,
    ) -> (r: Result<(), Error>)
        requires
            ctx.wf(),
        ensures
            r is Ok <==> (!client_state.frozen && height_le(height, client_state.latest_height)
                && delay_check_passes(*ctx, *connection_end, height)
                && connection_end.counterparty_prefix@.len() > 0 && membership_verifies(
                *pf,
                root@,
                spec_apply_prefix(
                    connection_end.counterparty_prefix@,
                    seq![spec_ack_path(port_id@, channel_id@, sequence.value)],
                ),
                ack@,
            )),
            client_state.frozen ==> r == Err::<(), Error>(Error::ClientFrozen),
            !client_state.frozen && !height_le(height, client_state.latest_height) ==> r == Err::<
                (),
                Error,
            >(Error::ProofVerificationFailed),
            !client_state.frozen && height_le(height, client_state.latest_height) && !zero_delay(
                *connection_end,
            ) && !ctx.has_processed(height) ==> r == Err::<(), Error>(Error::NotFound),
            !client_state.frozen && height_le(height, client_state.latest_height) && (zero_delay(
                *connection_end,
            ) || ctx.has_processed(height)) && !delay_check_passes(*ctx, *connection_end, height)
                ==> r == Err::<(), Error>(Error::ProofVerificationFailed),
            !client_state.frozen && height_le(height, client_state.latest_height)
                && delay_check_passes(*ctx, *connection_end, height)
                && connection_end.counterparty_prefix@.len() == 0 ==> r == Err::<(), Error>(
                Error::PathConstructionFailed,
            ),
            !client_state.frozen && height_le(height, client_state.latest_height)
                && delay_check_passes(*ctx, *connection_end, height)
                && connection_end.counterparty_prefix@.len() > 0 && !membership_verifies(
                *pf,
                root@,
                spec_apply_prefix(
                    connection_end.counterparty_prefix@,
                    seq![spec_ack_path(port_id@, channel_id@, sequence.value)],
                ),
                ack@,
            ) ==> r == Err::<(), Error>(Error::ProofVerificationFailed),
    {
        if client_state.frozen {
            return Err(Error::ClientFrozen);
        }
        if !height.le(&client_state.latest_height) {
            return Err(Error::ProofVerificationFailed);
        }
        match check_delay(ctx, connection_end, &height) {
            None => {
                return Err(Error::NotFound);
            },
            Some(false) => {
                return Err(Error::ProofVerificationFailed);
            },
            Some(true) => {},
        }
        let segment = ack_path(port_id, channel_id, sequence.value);
        check_membership_at(&connection_end.counterparty_prefix, segment, pf, root, &ack.bytes)
    }

    /// Checks that `pf` proves `sequence` present as the next expected
    /// receive sequence on (`port_id`, `channel_id`), under the same
    /// delay-period rule.
    pub fn verify_next_sequence_recv(
        &self,
        ctx: &AuxContext,
        client_state: &MockClientState,
        height: Height,
        connection_end: &ConnectionEnd,
        pf: &CommitmentProof,
        root: &CommitmentRoot,
        port_id: &PortId,
        channel_id: &ChannelId,
        sequence: Sequence,
    ) -> (r: Result<(), Error>)
        requires
            ctx.wf(),
        ensures
            r is Ok <==> (!client_state.frozen && height_le(height, client_state.latest_height)
                && delay_check_passes(*ctx, *connection_end, height)
                && connection_end.counterparty_prefix@.len() > 0 && membership_verifies(
                *pf,
                root@,
                spec_apply_prefix(
                    connection_end.counterparty_prefix@,
                    seq![spec_next_sequence_recv_path(port_id@, channel_id@)],
                ),
                spec_encode_sequence(sequence),
            )),
            client_state.frozen ==> r == Err::<(), Error>(Error::ClientFrozen),
            !client_state.frozen && !height_le(height, client_state.latest_height) ==> r == Err::<
                (),
                Error,
            >(Error::ProofVerificationFailed),
            !client_state.frozen && height_le(height, client_state.latest_height) && !zero_delay(
                *connection_end,
            ) && !ctx.has_processed(height) ==> r == Err::<(), Error>(Error::NotFound),
            !client_state.frozen && height_le(height, client_state.latest_height) && (zero_delay(
                *connection_end,
            ) || ctx.has_processed(height)) && !delay_check_passes(*ctx, *connection_end, height)
                ==> r == Err::<(), Error>(Error::ProofVerificationFailed),
            !client_state.frozen && height_le(height, client_state.latest_height)
                && delay_check_passes(*ctx, *connection_end, height)
                && connection_end.counterparty_prefix@.len() == 0 ==> r == Err::<(), Error>(
                Error::PathConstructionFailed,
            ),
            !client_state.frozen && height_le(height, client_state.latest_height)
                && delay_check_passes(*ctx, *connection_end, height)
                && connection_end.counterparty_prefix@.len() > 0 && !membership_verifies(
                *pf,
                root@,
                spec_apply_prefix(
                    connection_end.counterparty_prefix@,
                    seq![spec_next_sequence_recv_path(port_id@, channel_id@)],
                ),
                spec_encode_sequence(sequence),
            ) ==> r == Err::<(), Error>(Error::ProofVerificationFailed),
    {
        if client_state.frozen {
            return Err(Error::ClientFrozen);
        }
        if !height.le(&client_state.latest_height) {
            return Err(Error::ProofVerificationFailed);
        }
        match check_delay(ctx, connection_end, &height) {
            None => {
                return Err(Error::NotFound);
            },
            Some(false) => {
                return Err(Error::ProofVerificationFailed);
            },
            Some(true) => {},
        }
        let segment = next_sequence_recv_path(port_id, channel_id);
        let value = encode_sequence(&sequence);
        check_membership_at(&connection_end.counterparty_prefix, segment, pf, root, &value)
    }

    /// Checks that `pf` proves the receipt of the packet at (`port_id`,
    /// `channel_id`, `sequence`) *absent*: a non-membership proof, a
    /// structurally different predicate from the membership checks, under
    /// the same delay-period rule.
    pub fn verify_packet_receipt_absence(
        &self,
        ctx: &AuxContext,
        client_state: &MockClientState,
        height: Height,
        connection_end: &ConnectionEnd,
        pf: &CommitmentProof,
        root: &CommitmentRoot,
        port_id: &PortId,
        channel_id: &ChannelId,
        sequence: Sequence,
    ) -> (r: Result<(), Error>)
        requires
            ctx.wf(),
        ensures
            r is Ok <==> (!client_state.frozen && height_le(height, client_state.latest_height)
                && delay_check_passes(*ctx, *connection_end, height)
                && connection_end.counterparty_prefix@.len() > 0 && non_membership_verifies(
                *pf,
                root@,
                spec_apply_prefix(
                    connection_end.counterparty_prefix@,
                    seq![spec_receipt_path(port_id@, channel_id@, sequence.value)],
                ),
            )),
            client_state.frozen ==> r == Err::<(), Error>(Error::ClientFrozen),
            !client_state.frozen && !height_le(height, client_state.latest_height) ==> r == Err::<
                (),
                Error,
            >(Error::ProofVerificationFailed),
            !client_state.frozen && height_le(height, client_state.latest_height) && !zero_delay(
                *connection_end,
            ) && !ctx.has_processed(height) ==> r == Err::<(), Error>(Error::NotFound),
            !client_state.frozen && height_le(height, client_state.latest_height) && (zero_delay(
                *connection_end,
            ) || ctx.has_processed(height)) && !delay_check_passes(*ctx, *connection_end, height)
                ==> r == Err::<(), Error>(Error::ProofVerificationFailed),
            !client_state.frozen && height_le(height, client_state.latest_height)
                && delay_check_passes(*ctx, *connection_end, height)
                && connection_end.counterparty_prefix@.len() == 0 ==> r == Err::<(), Error>(
                Error::PathConstructionFailed,
            ),
            !client_state.frozen && height_le(height, client_state.latest_height)
                && delay_check_passes(*ctx, *connection_end, height)
                && connection_end.counterparty_prefix@.len() > 0 && !non_membership_verifies(
                *pf,
                root@,
                spec_apply_prefix(
                    connection_end.counterparty_prefix@,
                    seq![spec_receipt_path(port_id@, channel_id@, sequence.value)],
                ),
            ) ==> r == Err::<(), Error>(Error::ProofVerificationFailed),
    {
        if client_state.frozen {
            return Err(Error::ClientFrozen);
        }
        if !height.le(&client_state.latest_height) {
            return Err(Error::ProofVerificationFailed);
        }
        match check_delay(ctx, connection_end, &height) {
            None => {
                return Err(Error::NotFound);
            },
            Some(false) => {
                return Err(Error::ProofVerificationFailed);
            },
            Some(true) => {},
        }
        let segment = receipt_path(port_id, channel_id, sequence.value);
        check_non_membership_at(&connection_end.counterparty_prefix, segment, pf, root)
    }

    /// Migrates the client across a counterparty upgrade: both the upgraded
    /// client state and the upgraded consensus state must be proven under
    /// the *current* consensus root, or the call fails with
    /// `UpgradeProofMismatch` and nothing changes. On success the supplied
    /// upgraded pair becomes the client's current pair.
    pub fn verify_upgrade_and_update_state(
        &self,
        client_state: &MockClientState,
        consensus_state: &MockConsensusState,
        proof_upgrade_client: &CommitmentProof,
        proof_upgrade_consensus_state: &CommitmentProof,
        upgraded_client_state: &MockClientState,
        upgraded_consensus_state: &MockConsensusState,
    ) -> (r: Result<(MockClientState, MockConsensusState), Error>)
        ensures
            r is Ok <==> (!client_state.frozen && membership_verifies(
                *proof_upgrade_client,
                consensus_state.root@,
                seq![spec_upgrade_client_path()],
                spec_encode_client_state(*upgraded_client_state),
            ) && membership_verifies(
                *proof_upgrade_consensus_state,
                consensus_state.root@,
                seq![spec_upgrade_consensus_path()],
                spec_encode_consensus_state(*upgraded_consensus_state),
            )),
            client_state.frozen ==> r == Err::<(MockClientState, MockConsensusState), Error>(
                Error::ClientFrozen,
            ),
            !client_state.frozen && !(membership_verifies(
                *proof_upgrade_client,
                consensus_state.root@,
                seq![spec_upgrade_client_path()],
                spec_encode_client_state(*upgraded_client_state),
            ) && membership_verifies(
                *proof_upgrade_consensus_state,
                consensus_state.root@,
                seq![spec_upgrade_consensus_path()],
                spec_encode_consensus_state(*upgraded_consensus_state),
            )) ==> r == Err::<(MockClientState, MockConsensusState), Error>(
                Error::UpgradeProofMismatch,
            ),
            r matches Ok(pair) ==> {
                &&& pair.0 == *upgraded_client_state
                &&& pair.1.root@ == upgraded_consensus_state.root@
                &&& pair.1.timestamp == upgraded_consensus_state.timestamp
            },
    {
        if client_state.frozen {
            return Err(Error::ClientFrozen);
        }
        let client_segment = upgrade_client_path();
        let consensus_segment = upgrade_consensus_path();
        let ghost client_seg_view = client_segment@;
        let ghost consensus_seg_view = consensus_segment@;
        let mut client_segs: Vec<Vec<u8>> = Vec::new();
        client_segs.push(client_segment);
        let client_path = CommitmentPath::new(client_segs);
        let mut consensus_segs: Vec<Vec<u8>> = Vec::new();
        consensus_segs.push(consensus_segment);
        let consensus_path = CommitmentPath::new(consensus_segs);
        proof {
            assert(client_path@ =~= seq![spec_upgrade_client_path()]);
            assert(consensus_path@ =~= seq![spec_upgrade_consensus_path()]);
        }
        let client_value = encode_client_state(upgraded_client_state);
        let consensus_value = encode_consensus_state(upgraded_consensus_state);
        let client_ok = verify_membership(
            proof_upgrade_client,
            &consensus_state.root,
            &client_path,
            &client_value,
        );
        let consensus_ok = verify_membership(
            proof_upgrade_consensus_state,
            &consensus_state.root,
            &consensus_path,
            &consensus_value,
        );
        if client_ok && consensus_ok {
            Ok(
                (
                    MockClientState {
                        client_type: upgraded_client_state.client_type,
                        latest_height: upgraded_client_state.latest_height,
                        frozen: upgraded_client_state.frozen,
                    },
                    MockConsensusState {
                        root: CommitmentRoot {
                            bytes: copy_bytes(&upgraded_consensus_state.root.bytes),
                        },
                        timestamp: upgraded_consensus_state.timestamp,
                    },
                ),
            )
        } else {
            Err(Error::UpgradeProofMismatch)
        }
    }
}

} // verus!
