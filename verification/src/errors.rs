use vstd::prelude::*;

use crate::height::Height;

verus! {

/// Every failure of the engine, returned synchronously to the caller.
/// A failure means "this specific header or proof is rejected"; the engine
/// itself never panics and never retries.
#[derive(Clone, Copy, Debug, PartialEq, Eq, Structural)]
pub enum Error {
    /// A submitted header does not advance the client's latest height.
    HeaderHeightTooLow { header_height: Height, latest_height: Height },
    /// A submitted header carries a chain-type tag other than the client's
    /// configured type.
    ClientTypeMismatch,
    /// The client is frozen: every update and verify operation is rejected.
    ClientFrozen,
    /// A membership or non-membership check against the supplied root failed,
    /// or a proof was offered for a height the client has not yet reached,
    /// or the connection's delay period has not yet elapsed.
    ProofVerificationFailed,
    /// A commitment path could not be built: empty prefix or empty segment.
    PathConstructionFailed,
    /// An auxiliary lookup missed: the read-only context holds no record for
    /// the requested height.
    NotFound,
    /// One of the two upgrade proofs failed to verify against the current
    /// consensus root.
    UpgradeProofMismatch,
}

} // verus!
