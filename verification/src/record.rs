use vstd::prelude::*;

use crate::client::{Header, MockClientState, MockConsensusState};
use crate::engine::{update_accepted, update_error, updated_client_state, MockClient};
use crate::errors::Error;
use crate::height::{
    height_le, height_lt, lemma_height_le_lt_transitive, lemma_height_lt_asymmetric,
    lemma_height_lt_transitive, Height,
};

verus! {

/// The mathematical shadow of a stored client: its client state and, per
/// reached height, the root bytes and timestamp of the consensus state
/// recorded there.
pub ghost struct RecordModel {
    pub client_state: MockClientState,
    pub entries: Seq<(Height, Seq<u8>, u64)>,
}

/// What a stored client becomes when `h` is submitted: on acceptance the
/// client state advances and exactly one consensus entry is appended; a
/// rejection changes nothing.
pub open spec fn model_update(m: RecordModel, h: Header) -> RecordModel {
    if update_accepted(m.client_state, h) {
        RecordModel {
            client_state: updated_client_state(m.client_state, h),
            entries: m.entries.push((h.height, h.root@, h.timestamp)),
        }
    } else {
        m
    }
}

/// A hosting chain's stored record for one client: the current client state
/// and every consensus state snapshot created by a successful update, in the
/// order the heights were reached.
#[derive(Debug, PartialEq, Eq)]
pub struct ClientRecord {
    pub client_state: MockClientState,
    pub consensus_entries: Vec<(Height, MockConsensusState)>,
}

impl View for ClientRecord {
    type V = RecordModel;

    open spec fn view(&self) -> RecordModel {
        RecordModel {
            client_state: self.client_state,
            entries: Seq::new(
                self.consensus_entries@.len(),
                |i: int|
                    (
                        self.consensus_entries@[i].0,
                        self.consensus_entries@[i].1.root@,
                        self.consensus_entries@[i].1.timestamp,
                    ),
            ),
        }
    }
}

impl ClientRecord {
    /// The record's invariant: consensus entry heights strictly increase,
    /// so exactly one entry exists per reached height, and none exceeds the
    /// latest verified height.
    pub open spec fn wf(self) -> bool {
        &&& forall|i: int, j: int|
            0 <= i < j < self.consensus_entries@.len() ==> height_lt(
                (#[trigger] self.consensus_entries@[i]).0,
                (#[trigger] self.consensus_entries@[j]).0,
            )
        &&& forall|i: int|
            0 <= i < self.consensus_entries@.len() ==> height_le(
                (#[trigger] self.consensus_entries@[i]).0,
                self.client_state.latest_height,
            )
    }

    /// A fresh record holding `client_state` and no consensus entries yet.
    pub fn new(client_state: MockClientState) -> (r: ClientRecord)
        ensures
            r@.client_state == client_state,
            r@.entries.len() == 0,
            r.wf(),
    {
        ClientRecord { client_state, consensus_entries: Vec::new() }
    }

    /// Submits a header. On acceptance the client state and a fresh
    /// consensus entry change together, atomically; on rejection the error
    /// of the engine is returned and the record is left exactly as it was —
    /// no entry is created and the client state is unchanged.
    pub fn update(&mut self, header: &Header) -> (r: Result<(), Error>)
        requires
            old(self).wf(),
        ensures
            final(self).wf(),
            final(self)@ == model_update(old(self)@, *header),
            r is Ok <==> update_accepted(old(self)@.client_state, *header),
            r is Ok ==> height_lt(
                old(self).client_state.latest_height,
                final(self).client_state.latest_height,
            ),
            r is Err ==> r == Err::<(), Error>(update_error(old(self)@.client_state, *header))
                && *final(self) == *old(self),
    {
        let engine = MockClient;
        match engine.check_header_and_update_state(&self.client_state, header) {
            Err(e) => {
                proof {
                    assert(final(self)@ == model_update(old(self)@, *header));
                }
                Err(e)
            },
            Ok((new_client_state, new_consensus_state)) => {
                proof {
                    assert forall|i: int|
                        0 <= i < self.consensus_entries@.len() implies height_lt(
                        (#[trigger] self.consensus_entries@[i]).0,
                        header.height,
                    ) by {
                        lemma_height_le_lt_transitive(
                            self.consensus_entries@[i].0,
                            self.client_state.latest_height,
                            header.height,
                        );
                    }
                }
                self.client_state = new_client_state;
                self.consensus_entries.push((header.height, new_consensus_state));
                proof {
                    assert(final(self)@.entries =~= model_update(old(self)@, *header).entries);
                }
                Ok(())
            },
        }
    }

    /// The transition taken on an externally detected misbehaviour: the
    /// client becomes frozen, after which every update and verify operation
    /// is rejected. Nothing in this library leaves the frozen state.
    pub fn freeze(&mut self)
        requires
            old(self).wf(),
        ensures
            final(self).wf(),
            final(self).client_state.frozen,
            final(self).client_state.client_type == old(self).client_state.client_type,
            final(self).client_state.latest_height == old(self).client_state.latest_height,
            final(self)@.entries == old(self)@.entries,
    {
        self.client_state = MockClientState {
            client_type: self.client_state.client_type,
            latest_height: self.client_state.latest_height,
            frozen: true,
        };
        proof {
            assert(final(self)@.entries =~= old(self)@.entries);
        }
    }

    /// The consensus state recorded at `h`, when one exists.
    pub fn consensus_state_at(&self, h: &Height) -> (r: Option<&MockConsensusState>)
        ensures
            r is Some <==> exists|i: int|
                0 <= i < self@.entries.len() && (#[trigger] self@.entries[i]).0 == *h,
            r matches Some(c) ==> exists|i: int|
                0 <= i < self@.entries.len() && #[trigger] self@.entries[i] == (
                *h,
                c.root@,
                c.timestamp,
            ),
    {
        let mut i: usize = 0;
        while i < self.consensus_entries.len()
            invariant
                0 <= i <= self.consensus_entries.len(),
                forall|j: int| 0 <= j < i ==> (#[trigger] self@.entries[j]).0 != *h,
            decreases self.consensus_entries.len() - i,
        {
            let entry_height = self.consensus_entries[i].0;
            if entry_height.revision_number == h.revision_number && entry_height.revision_height
                == h.revision_height {
                proof {
                    assert(self@.entries[i as int] == (
                        *h,
                        self.consensus_entries@[i as int].1.root@,
                        self.consensus_entries@[i as int].1.timestamp,
                    ));
                }
                return Some(&self.consensus_entries[i].1);
            }
            i += 1;
        }
        None
    }
}

/// In a well-formed record exactly one consensus entry exists per reached
/// height: two distinct entries never share a height.
pub proof fn lemma_one_entry_per_height(rec: ClientRecord, i: int, j: int)
    requires
        rec.wf(),
        0 <= i < rec@.entries.len(),
        0 <= j < rec@.entries.len(),
        i != j,
    ensures
        rec@.entries[i].0 != rec@.entries[j].0,
{
    if i < j {
        lemma_height_lt_asymmetric(rec.consensus_entries@[i].0, rec.consensus_entries@[j].0);
    } else {
        lemma_height_lt_asymmetric(rec.consensus_entries@[j].0, rec.consensus_entries@[i].0);
    }
}

/// Header ordering. Submitting two headers of the client's kind in height
/// order succeeds twice and lands on the second height; submitting them in
/// the reverse order has the higher header succeed and the lower one
/// rejected with `HeaderHeightTooLow`, leaving the record exactly as it was
/// after the higher header.
pub proof fn lemma_update_order(m: RecordModel, h1: Header, h2: Header)
    requires
        update_accepted(m.client_state, h1),
        h2.client_type == h1.client_type,
        height_lt(h1.height, h2.height),
    ensures
        update_accepted(model_update(m, h1).client_state, h2),
        model_update(model_update(m, h1), h2).client_state.latest_height == h2.height,
        model_update(model_update(m, h1), h2).entries.len() == m.entries.len() + 2,
        update_accepted(m.client_state, h2),
        !update_accepted(model_update(m, h2).client_state, h1),
        update_error(model_update(m, h2).client_state, h1) == (Error::HeaderHeightTooLow {
            header_height: h1.height,
            latest_height: h2.height,
        }),
        model_update(model_update(m, h2), h1) == model_update(m, h2),
{
    lemma_height_lt_transitive(m.client_state.latest_height, h1.height, h2.height);
    lemma_height_lt_asymmetric(h1.height, h2.height);
}

} // verus!
