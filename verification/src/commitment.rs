use vstd::prelude::*;

use crate::bytes::{bytes_eq, copy_bytes};
use crate::errors::Error;

verus! {

/// The chain-configured byte prefix under which a counterparty stores all of
/// its commitments.
#[derive(Debug, PartialEq, Eq)]
pub struct CommitmentPrefix {
    pub bytes: Vec<u8>,
}

impl View for CommitmentPrefix {
    type V = Seq<u8>;

    open spec fn view(&self) -> Seq<u8> {
        self.bytes@
    }
}

impl CommitmentPrefix {
    pub fn new(bytes: Vec<u8>) -> (r: CommitmentPrefix)
        ensures
            r@ == bytes@,
    {
        CommitmentPrefix { bytes }
    }
}

/// A cryptographic digest summarizing a chain's state tree at one height.
#[derive(Debug, PartialEq, Eq)]
pub struct CommitmentRoot {
    pub bytes: Vec<u8>,
}

impl View for CommitmentRoot {
    type V = Seq<u8>;

    open spec fn view(&self) -> Seq<u8> {
        self.bytes@
    }
}

impl CommitmentRoot {
    pub fn new(bytes: Vec<u8>) -> (r: CommitmentRoot)
        ensures
            r@ == bytes@,
    {
        CommitmentRoot { bytes }
    }
}

/// A canonical key in the counterparty's state tree: an ordered sequence of
/// byte segments, the chain's commitment prefix first.
#[derive(Debug, PartialEq, Eq)]
pub struct CommitmentPath {
    pub segments: Vec<Vec<u8>>,
}

impl View for CommitmentPath {
    type V = Seq<Seq<u8>>;

    open spec fn view(&self) -> Seq<Seq<u8>> {
        Seq::new(self.segments@.len(), |i: int| self.segments@[i]@)
    }
}

impl CommitmentPath {
    pub fn new(segments: Vec<Vec<u8>>) -> (r: CommitmentPath)
        ensures
            r@ == seqs_of(segments),
    {
        CommitmentPath { segments }
    }
}

/// The sequence of byte sequences a vector of byte vectors stands for.
pub open spec fn seqs_of(v: Vec<Vec<u8>>) -> Seq<Seq<u8>> {
    Seq::new(v@.len(), |i: int| v@[i]@)
}

/// Segment-for-segment equality of two commitment paths.
pub fn path_eq(a: &CommitmentPath, b: &CommitmentPath) -> (r: bool)
    ensures
        r == (a@ == b@),
{
    if a.segments.len() != b.segments.len() {
        proof {
            assert(a@.len() != b@.len());
        }
        return false;
    }
    let mut i: usize = 0;
    while i < a.segments.len()
        invariant
            0 <= i <= a.segments.len(),
            a.segments.len() == b.segments.len(),
            forall|j: int| 0 <= j < i ==> a@[j] == b@[j],
        decreases a.segments.len() - i,
    {
        if !bytes_eq(&a.segments[i], &b.segments[i]) {
            proof {
                assert(a@[i as int] != b@[i as int]);
            }
            return false;
        }
        i += 1;
    }
    proof {
        assert(a@ =~= b@);
    }
    true
}

/// Cryptographic evidence about one key of the counterparty's state tree
/// under one root: either that the key holds a given value (membership) or
/// that the key is absent (non-membership). The two are structurally
/// different predicates and never interchangeable.
#[derive(Debug, PartialEq, Eq)]
pub enum CommitmentProof {
    Membership { root: CommitmentRoot, path: CommitmentPath, value: Vec<u8> },
    NonMembership { root: CommitmentRoot, path: CommitmentPath },
}

/// What it means for `proof` to demonstrate that `path` holds exactly
/// `value` under `root`: the proof is a membership proof committing to that
/// very root, path and value.
pub open spec fn membership_verifies(
    pf: CommitmentProof,
    root: Seq<u8>,
    path: Seq<Seq<u8>>,
    value: Seq<u8>,
) -> bool {
    match pf {
        CommitmentProof::Membership { root: r, path: p, value: v } => {
            r@ == root && p@ == path && v@ == value
        },
        CommitmentProof::NonMembership { .. } => false,
    }
}

/// What it means for `proof` to demonstrate that `path` is absent under
/// `root`: the proof is a non-membership proof committing to that very root
/// and path.
pub open spec fn non_membership_verifies(
    pf: CommitmentProof,
    root: Seq<u8>,
    path: Seq<Seq<u8>>,
) -> bool {
    match pf {
        CommitmentProof::Membership { .. } => false,
        CommitmentProof::NonMembership { root: r, path: p } => r@ == root && p@ == path,
    }
}

/// Checks a membership proof against a root, a path and an expected value.
pub fn verify_membership(
    pf: &CommitmentProof,
    root: &CommitmentRoot,
    path: &CommitmentPath,
    value: &Vec<u8>,
) -> (r: bool)
    ensures
        r == membership_verifies(*pf, root@, path@, value@),
{
    match pf {
        CommitmentProof::Membership { root: proof_root, path: proof_path, value: proof_value } => {
            let root_ok = bytes_eq(&proof_root.bytes, &root.bytes);
            let path_ok = path_eq(proof_path, path);
            let value_ok = bytes_eq(proof_value, value);
            root_ok && path_ok && value_ok
        },
        CommitmentProof::NonMembership { .. } => false,
    }
}

/// Checks a non-membership proof against a root and a path.
pub fn verify_non_membership(
    pf: &CommitmentProof,
    root: &CommitmentRoot,
    path: &CommitmentPath,
) -> (r: bool)
    ensures
        r == non_membership_verifies(*pf, root@, path@),
{
    match pf {
        CommitmentProof::Membership { .. } => false,
        CommitmentProof::NonMembership { root: proof_root, path: proof_path } => {
            let root_ok = bytes_eq(&proof_root.bytes, &root.bytes);
            let path_ok = path_eq(proof_path, path);
            root_ok && path_ok
        },
    }
}

/// The canonical key for `paths` under `prefix`: the prefix first, then the
/// path segments in order.
pub open spec fn spec_apply_prefix(prefix: Seq<u8>, paths: Seq<Seq<u8>>) -> Seq<Seq<u8>> {
    seq![prefix] + paths
}

/// When prefixing is well-formed: the prefix and every segment are nonempty.
pub open spec fn apply_prefix_ok(prefix: Seq<u8>, paths: Seq<Seq<u8>>) -> bool {
    prefix.len() > 0 && (forall|i: int| 0 <= i < paths.len() ==> #[trigger] paths[i].len() > 0)
}

/// Builds the canonical commitment path for `paths` under `prefix`.
/// Fails with `PathConstructionFailed` exactly when the prefix or a path
/// segment is empty.
pub fn apply_prefix(prefix: &CommitmentPrefix, paths: &Vec<Vec<u8>>) -> (r: Result<
    CommitmentPath,
    Error,
>)
    ensures
        r is Ok <==> apply_prefix_ok(prefix@, seqs_of(*paths)),
        r matches Ok(p) ==> p@ == spec_apply_prefix(prefix@, seqs_of(*paths)),
        r is Err ==> r == Err::<CommitmentPath, Error>(Error::PathConstructionFailed),
{
    if prefix.bytes.len() == 0 {
        return Err(Error::PathConstructionFailed);
    }
    let mut segments: Vec<Vec<u8>> = Vec::new();
    segments.push(copy_bytes(&prefix.bytes));
    let mut i: usize = 0;
    while i < paths.len()
        invariant
            0 <= i <= paths.len(),
            prefix@.len() > 0,
            seqs_of(segments) == spec_apply_prefix(prefix@, seqs_of(*paths).subrange(0, i as int)),
            forall|j: int| 0 <= j < i ==> #[trigger] seqs_of(*paths)[j].len() > 0,
        decreases paths.len() - i,
    {
        if paths[i].len() == 0 {
            assert(seqs_of(*paths)[i as int].len() == 0);
            return Err(Error::PathConstructionFailed);
        }
        let ghost segs_before = seqs_of(segments);
        segments.push(copy_bytes(&paths[i]));
        proof {
            assert(seqs_of(segments).len() == segs_before.len() + 1);
            assert(forall|j: int|
                0 <= j < segs_before.len() ==> seqs_of(segments)[j] == segs_before[j]);
            assert(seqs_of(segments)[segs_before.len() as int] == seqs_of(*paths)[i as int]);
            let lhs = seqs_of(segments);
            let rhs = spec_apply_prefix(prefix@, seqs_of(*paths).subrange(0, i as int + 1));
            assert(segs_before.len() == 1 + i);
            assert(lhs.len() == rhs.len());
            assert forall|j: int| 0 <= j < lhs.len() implies lhs[j] == rhs[j] by {
                if j == 0 {
                    assert(lhs[0] == segs_before[0]);
                    assert(segs_before[0] == prefix@);
                    assert(rhs[0] == prefix@);
                } else if j < segs_before.len() {
                    assert(lhs[j] == segs_before[j]);
                    assert(segs_before[j] == seqs_of(*paths).subrange(0, i as int)[j - 1]);
                    assert(seqs_of(*paths).subrange(0, i as int)[j - 1] == seqs_of(*paths)[j - 1]);
                    assert(rhs[j] == seqs_of(*paths).subrange(0, i as int + 1)[j - 1]);
                    assert(seqs_of(*paths).subrange(0, i as int + 1)[j - 1] == seqs_of(
                        *paths,
                    )[j - 1]);
                } else {
                    assert(j == segs_before.len());
                    assert(lhs[j] == seqs_of(*paths)[i as int]);
                    assert(rhs[j] == seqs_of(*paths).subrange(0, i as int + 1)[j - 1]);
                }
            }
            assert(lhs =~= rhs);
        }
        i += 1;
    }
    proof {
        assert(seqs_of(*paths).subrange(0, paths@.len() as int) =~= seqs_of(*paths));
    }
    Ok(CommitmentPath { segments })
}

/// Prefixing is a pure function of its inputs, and an injective one: equal
/// inputs give identical keys, and any change to the prefix or to a path
/// segment changes the key.
pub proof fn lemma_apply_prefix_deterministic(
    prefix_a: Seq<u8>,
    paths_a: Seq<Seq<u8>>,
    prefix_b: Seq<u8>,
    paths_b: Seq<Seq<u8>>,
)
    ensures
        (prefix_a == prefix_b && paths_a == paths_b) ==> spec_apply_prefix(prefix_a, paths_a) == spec_apply_prefix(prefix_b, paths_b),
        spec_apply_prefix(prefix_a, paths_a) == spec_apply_prefix(prefix_b, paths_b) ==> (prefix_a == prefix_b && paths_a == paths_b),
{
    if spec_apply_prefix(prefix_a, paths_a) == spec_apply_prefix(prefix_b, paths_b) {
        assert(spec_apply_prefix(prefix_a, paths_a)[0] == prefix_a);
        assert(spec_apply_prefix(prefix_b, paths_b)[0] == prefix_b);
        assert(spec_apply_prefix(prefix_a, paths_a).len() == 1 + paths_a.len());
        assert(spec_apply_prefix(prefix_b, paths_b).len() == 1 + paths_b.len());
        assert(paths_a.len() == paths_b.len());
        assert forall|i: int| 0 <= i < paths_a.len() implies paths_a[i] == paths_b[i] by {
            assert(spec_apply_prefix(prefix_a, paths_a)[i + 1] == paths_a[i]);
            assert(spec_apply_prefix(prefix_b, paths_b)[i + 1] == paths_b[i]);
        }
        assert(paths_a =~= paths_b);
    }
}

/// No proof object can witness both membership of a value and absence of the
/// same key: the two predicates are mutually exclusive on every input.
pub proof fn lemma_membership_non_membership_exclusive(
    pf: CommitmentProof,
    root: Seq<u8>,
    path: Seq<Seq<u8>>,
    value: Seq<u8>,
)
    ensures
        !(membership_verifies(pf, root, path, value) && non_membership_verifies(
            pf,
            root,
            path,
        )),
{
}

} // verus!
