//! The nullifier accumulator: a sparse Merkle tree with one leaf slot per
//! possible nullifier, routed by the nullifier's 256 bits, of which only
//! the 32-byte root is kept. Callers supply a sibling path (a witness)
//! computed off-ledger; the accumulator recomputes the root from the leaf
//! upward and compares.
//!
//! An all-zero root denotes the empty tree: a fresh state stores 32 zero
//! bytes, and a witness over the canonical empty subtrees is accepted
//! against it. A vacant slot holds the all-zero leaf; an occupied slot
//! holds a tagged digest of the nullifier. Distinct nullifiers differ in
//! some bit, so their paths diverge and each owns its slot.

use vstd::prelude::*;

use crate::errors::ShroudError;
use crate::hashing::{blake3_digest, bytes32_eq, bytes32_is_zero, hash_bytes, push_bytes32,
    zero_bytes32};

verus! {

/// Number of levels in the tree, and so the length of every witness.
pub const MERKLE_DEPTH: usize = 256;

/// Domain tag prefixed to a leaf digest.
pub const LEAF_TAG: u8 = 0;

/// Domain tag prefixed to an inner-node digest.
pub const NODE_TAG: u8 = 1;

/// The sibling path for one leaf slot: one sibling digest per level, from
/// the leaf's level up to just below the root.
pub struct MerkleWitness {
    pub siblings: Vec<[u8; 32]>,
}

impl MerkleWitness {
    /// The sibling digests as byte sequences, leaf level first.
    pub open spec fn view(&self) -> Seq<Seq<u8>> {
        Seq::new(self.siblings@.len(), |i: int| self.siblings@[i]@)
    }

    /// A witness is well formed when it carries one sibling per level.
    pub open spec fn wf(&self) -> bool {
        self.siblings@.len() == MERKLE_DEPTH
    }
}

/// Bit `level` of the nullifier: which side of its parent the
/// node on the path occupies at that level.
pub open spec fn path_bit(n: Seq<u8>, level: int) -> bool {
    (n[level / 8] >> ((level % 8) as u8)) & 1 == 1
}

/// Digest of an occupied leaf slot holding nullifier `n`.
pub open spec fn spec_leaf_digest(n: Seq<u8>) -> Seq<u8> {
    blake3_digest(seq![LEAF_TAG] + n)
}

/// Digest of an inner node over children `l` and `r`.
pub open spec fn spec_node_digest(l: Seq<u8>, r: Seq<u8>) -> Seq<u8> {
    blake3_digest(seq![NODE_TAG] + l + r)
}

/// The root reached from `leaf` along the path of `n`, combining with the
/// witness siblings from `level` upward.
pub open spec fn spec_path_root(leaf: Seq<u8>, n: Seq<u8>, siblings: Seq<Seq<u8>>, level: int) -> Seq<u8>
    decreases siblings.len() - level,
{
    if 0 <= level < siblings.len() {
        let parent = if path_bit(n, level) {
            spec_node_digest(siblings[level], leaf)
        } else {
            spec_node_digest(leaf, siblings[level])
        };
        spec_path_root(parent, n, siblings, level + 1)
    } else {
        leaf
    }
}

/// The root of an entirely vacant subtree of the given height.
pub open spec fn spec_empty_root(height: int) -> Seq<u8>
    decreases height,
{
    if height <= 0 {
        zero_bytes32()
    } else {
        spec_node_digest(spec_empty_root(height - 1), spec_empty_root(height - 1))
    }
}

/// Whether a recomputed root is accepted against the stored one. The
/// all-zero root stands for the empty tree, so it also accepts the
/// canonical empty-tree root.
pub open spec fn root_accepts(computed: Seq<u8>, root: Seq<u8>) -> bool {
    computed == root || (root == zero_bytes32() && computed == spec_empty_root(
        MERKLE_DEPTH as int,
    ))
}

/// The witness proves, under `root`, that the slot of `n` is vacant.
pub open spec fn spec_proves_absent(root: Seq<u8>, n: Seq<u8>, w: MerkleWitness) -> bool {
    w.wf() && root_accepts(spec_path_root(zero_bytes32(), n, w@, 0), root)
}

/// The witness proves, under `root`, that the slot of `n` holds `n`.
pub open spec fn spec_proves_present(root: Seq<u8>, n: Seq<u8>, w: MerkleWitness) -> bool {
    w.wf() && root_accepts(spec_path_root(spec_leaf_digest(n), n, w@, 0), root)
}

/// The root after recording `n` over a witness that proved its absence.
pub open spec fn spec_inserted_root(n: Seq<u8>, w: MerkleWitness) -> Seq<u8> {
    spec_path_root(spec_leaf_digest(n), n, w@, 0)
}

/// Digest of an occupied leaf slot.
fn leaf_digest(n: &[u8; 32]) -> (r: [u8; 32])
    ensures
        r@ == spec_leaf_digest(n@),
{
    let mut data: Vec<u8> = Vec::new();
    data.push(LEAF_TAG);
    push_bytes32(&mut data, n);
    proof {
        assert(data@ =~= seq![LEAF_TAG] + n@);
    }
    hash_bytes(&data)
}

/// Digest of an inner node.
fn node_digest(l: &[u8; 32], r: &[u8; 32]) -> (d: [u8; 32])
    ensures
        d@ == spec_node_digest(l@, r@),
{
    let mut data: Vec<u8> = Vec::new();
    data.push(NODE_TAG);
    push_bytes32(&mut data, l);
    push_bytes32(&mut data, r);
    proof {
        assert(data@ =~= seq![NODE_TAG] + l@ + r@);
    }
    hash_bytes(&data)
}

/// Recomputes the root reached from `leaf` along the path of `nullifier`,
/// combining with the witness siblings level by level.
fn compute_path_root(leaf: [u8; 32], nullifier: &[u8; 32], witness: &MerkleWitness) -> (r: [u8; 32])
    requires
        witness.wf(),
    ensures
        r@ == spec_path_root(leaf@, nullifier@, witness@, 0),
{
    let mut cur: [u8; 32] = leaf;
    let mut level: usize = 0;
    while level < MERKLE_DEPTH
        invariant
            witness.wf(),
            0 <= level <= MERKLE_DEPTH,
            spec_path_root(cur@, nullifier@, witness@, level as int) == spec_path_root(
                leaf@,
                nullifier@,
                witness@,
                0,
            ),
        decreases MERKLE_DEPTH - level,
    {
        let byte = nullifier[level / 8];
        let bit = (byte >> ((level % 8) as u8)) & 1 == 1;
        proof {
            assert(bit == path_bit(nullifier@, level as int));
        }
        let sibling = &witness.siblings[level];
        cur = if bit {
            node_digest(sibling, &cur)
        } else {
            node_digest(&cur, sibling)
        };
        level = level + 1;
    }
    cur
}

/// The canonical empty-subtree roots, vacant leaf first: the witness of the
/// first insertion into an empty tree, computed off-path by a prover.
pub fn empty_subtree_witness() -> (w: MerkleWitness)
    ensures
        w.wf(),
        forall|i: int| 0 <= i < MERKLE_DEPTH ==> w@[i] == spec_empty_root(i),
{
    let mut siblings: Vec<[u8; 32]> = Vec::new();
    let mut cur: [u8; 32] = [0u8; 32];
    proof {
        assert(cur@ =~= zero_bytes32());
    }
    let mut level: usize = 0;
    while level < MERKLE_DEPTH
        invariant
            0 <= level <= MERKLE_DEPTH,
            siblings@.len() == level,
            cur@ == spec_empty_root(level as int),
            forall|i: int| 0 <= i < level ==> siblings@[i]@ == spec_empty_root(i),
        decreases MERKLE_DEPTH - level,
    {
        siblings.push(cur);
        cur = node_digest(&cur, &cur);
        level = level + 1;
    }
    MerkleWitness { siblings }
}

/// The root of the entirely vacant tree, which the all-zero root stands for.
pub fn empty_tree_root() -> (r: [u8; 32])
    ensures
        r@ == spec_empty_root(MERKLE_DEPTH as int),
{
    let w = empty_subtree_witness();
    let last = &w.siblings[MERKLE_DEPTH - 1];
    proof {
        assert(last@ == w@[MERKLE_DEPTH - 1]);
        assert(w@[MERKLE_DEPTH - 1] == spec_empty_root(MERKLE_DEPTH - 1));
        assert(spec_empty_root(MERKLE_DEPTH as int) == spec_node_digest(
            spec_empty_root(MERKLE_DEPTH - 1),
            spec_empty_root(MERKLE_DEPTH - 1),
        ));
    }
    node_digest(last, last)
}

/// Whether a recomputed root is accepted against the stored one.
fn check_root_accepts(computed: &[u8; 32], root: &[u8; 32]) -> (r: bool)
    ensures
        r == root_accepts(computed@, root@),
{
    if bytes32_eq(computed, root) {
        return true;
    }
    if !bytes32_is_zero(root) {
        return false;
    }
    let empty = empty_tree_root();
    bytes32_eq(computed, &empty)
}

/// Verifies a membership witness: true exactly when the witness is well
/// formed and shows the nullifier's slot occupied under `root`. A malformed
/// or mismatched witness is reported as not-a-member, never as a proof of
/// absence; absence has its own check.
pub fn nullifier_is_member(root: &[u8; 32], nullifier: &[u8; 32], witness: &MerkleWitness) -> (r:
    bool)
    ensures
        r == spec_proves_present(root@, nullifier@, *witness),
{
    if witness.siblings.len() != MERKLE_DEPTH {
        return false;
    }
    let leaf = leaf_digest(nullifier);
    let computed = compute_path_root(leaf, nullifier, witness);
    check_root_accepts(&computed, root)
}

/// Verifies a non-membership witness: true exactly when the witness is well
/// formed and shows the nullifier's slot vacant under `root`.
pub fn nullifier_is_absent(root: &[u8; 32], nullifier: &[u8; 32], witness: &MerkleWitness) -> (r:
    bool)
    ensures
        r == spec_proves_absent(root@, nullifier@, *witness),
{
    if witness.siblings.len() != MERKLE_DEPTH {
        return false;
    }
    let vacant: [u8; 32] = [0u8; 32];
    proof {
        assert(vacant@ =~= zero_bytes32());
    }
    let computed = compute_path_root(vacant, nullifier, witness);
    check_root_accepts(&computed, root)
}

/// Records a nullifier and returns the new root. The witness must prove the
/// nullifier absent under `root`; a witness that instead proves it present
/// is rejected as a double spend, and any other witness as an invalid
/// Merkle proof — never as absence.
pub fn insert_nullifier(root: &[u8; 32], nullifier: &[u8; 32], witness: &MerkleWitness) -> (r:
    Result<[u8; 32], ShroudError>)
    ensures
        spec_proves_absent(root@, nullifier@, *witness) ==> r is Ok && r->Ok_0@
            == spec_inserted_root(nullifier@, *witness),
        !spec_proves_absent(root@, nullifier@, *witness) && spec_proves_present(
            root@,
            nullifier@,
            *witness,
        ) ==> r is Err && r->Err_0 == ShroudError::NullifierAlreadySpent,
        !spec_proves_absent(root@, nullifier@, *witness) && !spec_proves_present(
            root@,
            nullifier@,
            *witness,
        ) ==> r is Err && r->Err_0 == ShroudError::InvalidMerkleProof,
        r is Ok ==> spec_proves_present(r->Ok_0@, nullifier@, *witness),
{
    if nullifier_is_absent(root, nullifier, witness) {
        let leaf = leaf_digest(nullifier);
        let new_root = compute_path_root(leaf, nullifier, witness);
        Ok(new_root)
    } else if nullifier_is_member(root, nullifier, witness) {
        Err(ShroudError::NullifierAlreadySpent)
    } else {
        Err(ShroudError::InvalidMerkleProof)
    }
}

/// After a successful insertion, the very witness that proved the nullifier
/// absent proves it present under the new root: once recorded, a nullifier
/// can never again be shown vacant by that path.
pub proof fn lemma_insert_then_member(root: Seq<u8>, n: Seq<u8>, w: MerkleWitness)
    requires
        spec_proves_absent(root, n, w),
    ensures
        spec_proves_present(spec_inserted_root(n, w), n, w),
{
}

/// The subtree root at `height` on the path of `n`: `leaf` folded upward
/// through the first `height` witness siblings. Folding through all
/// `MERKLE_DEPTH` of them yields the same root as `spec_path_root`.
pub open spec fn spec_path_node(leaf: Seq<u8>, n: Seq<u8>, siblings: Seq<Seq<u8>>, height: int) -> Seq<u8>
    decreases height,
{
    if height <= 0 {
        leaf
    } else {
        let child = spec_path_node(leaf, n, siblings, height - 1);
        if path_bit(n, height - 1) {
            spec_node_digest(siblings[height - 1], child)
        } else {
            spec_node_digest(child, siblings[height - 1])
        }
    }
}

/// The fold from the leaf can be cut at any height: the full root is the
/// subtree root at `t` folded through the remaining levels.
proof fn lemma_path_root_from_node(leaf: Seq<u8>, n: Seq<u8>, s: Seq<Seq<u8>>, t: int)
    requires
        0 <= t <= s.len(),
    ensures
        spec_path_root(leaf, n, s, 0) == spec_path_root(spec_path_node(leaf, n, s, t), n, s, t),
    decreases t,
{
    if t > 0 {
        lemma_path_root_from_node(leaf, n, s, t - 1);
        assert(spec_path_root(spec_path_node(leaf, n, s, t - 1), n, s, t - 1)
            == spec_path_root(spec_path_node(leaf, n, s, t), n, s, t));
    }
}

/// A subtree root at `height` reads only the siblings below `height`.
proof fn lemma_path_node_ignores_above(
    leaf: Seq<u8>,
    n: Seq<u8>,
    s1: Seq<Seq<u8>>,
    s2: Seq<Seq<u8>>,
    t: int,
)
    requires
        forall|k: int| 0 <= k < t ==> s1[k] == s2[k],
    ensures
        spec_path_node(leaf, n, s1, t) == spec_path_node(leaf, n, s2, t),
    decreases t,
{
    if t > 0 {
        lemma_path_node_ignores_above(leaf, n, s1, s2, t - 1);
    }
}

/// Two paths that diverge at level `d` and whose witnesses agree above it
/// — each seeing the other's subtree as its sibling at `d` — carry the
/// same subtree root from level `d + 1` all the way up.
proof fn lemma_paths_merge(
    leafa: Seq<u8>,
    na: Seq<u8>,
    sa: Seq<Seq<u8>>,
    leafb: Seq<u8>,
    nb: Seq<u8>,
    sb: Seq<Seq<u8>>,
    d: int,
    t: int,
)
    requires
        0 <= d < t <= MERKLE_DEPTH,
        path_bit(na, d) != path_bit(nb, d),
        forall|k: int| d < k < MERKLE_DEPTH ==> path_bit(na, k) == path_bit(nb, k),
        forall|k: int| d < k < MERKLE_DEPTH ==> sa[k] == sb[k],
        sb[d] == spec_path_node(leafa, na, sa, d),
        sa[d] == spec_path_node(leafb, nb, sb, d),
    ensures
        spec_path_node(leafa, na, sa, t) == spec_path_node(leafb, nb, sb, t),
    decreases t,
{
    let childa = spec_path_node(leafa, na, sa, d);
    let childb = spec_path_node(leafb, nb, sb, d);
    if t == d + 1 {
        if path_bit(na, d) {
            assert(spec_path_node(leafa, na, sa, t) == spec_node_digest(sa[d], childa));
            assert(spec_path_node(leafb, nb, sb, t) == spec_node_digest(childb, sb[d]));
        } else {
            assert(spec_path_node(leafa, na, sa, t) == spec_node_digest(childa, sa[d]));
            assert(spec_path_node(leafb, nb, sb, t) == spec_node_digest(sb[d], childb));
        }
    } else {
        lemma_paths_merge(leafa, na, sa, leafb, nb, sb, d, t - 1);
    }
}

/// The root is monotone for every slot, not only the inserted one.
/// Recording `n1` over its absence witness rewrites nothing but `n1`'s
/// path: any fact proven of another nullifier `n2` whose path diverges at
/// level `d` — with `leaf2 == spec_leaf_digest(n2)` its presence, with
/// `leaf2 == zero_bytes32()` its absence — was provable under the old
/// root exactly when the two witnesses agree above `d` and each sees the
/// other's subtree at `d`, and stays provable under the new root by the
/// same witness updated at `d` with `n1`'s freshly recorded subtree.
pub proof fn lemma_insertion_preserves_divergent_slots(
    leaf2: Seq<u8>,
    n1: Seq<u8>,
    n2: Seq<u8>,
    s1: Seq<Seq<u8>>,
    s2: Seq<Seq<u8>>,
    d: int,
)
    requires
        s1.len() == MERKLE_DEPTH,
        s2.len() == MERKLE_DEPTH,
        0 <= d < MERKLE_DEPTH,
        path_bit(n1, d) != path_bit(n2, d),
        forall|k: int| d < k < MERKLE_DEPTH ==> path_bit(n1, k) == path_bit(n2, k),
        forall|k: int| d < k < MERKLE_DEPTH ==> s1[k] == s2[k],
        s2[d] == spec_path_node(zero_bytes32(), n1, s1, d),
        s1[d] == spec_path_node(leaf2, n2, s2, d),
    ensures
        spec_path_root(leaf2, n2, s2, 0) == spec_path_root(zero_bytes32(), n1, s1, 0),
        spec_path_root(
            leaf2,
            n2,
            s2.update(d, spec_path_node(spec_leaf_digest(n1), n1, s1, d)),
            0,
        ) == spec_path_root(spec_leaf_digest(n1), n1, s1, 0),
{
    let depth = MERKLE_DEPTH as int;
    lemma_paths_merge(zero_bytes32(), n1, s1, leaf2, n2, s2, d, depth);
    lemma_path_root_from_node(zero_bytes32(), n1, s1, depth);
    lemma_path_root_from_node(leaf2, n2, s2, depth);
    let s2u = s2.update(d, spec_path_node(spec_leaf_digest(n1), n1, s1, d));
    lemma_path_node_ignores_above(leaf2, n2, s2, s2u, d);
    lemma_paths_merge(spec_leaf_digest(n1), n1, s1, leaf2, n2, s2u, d, depth);
    lemma_path_root_from_node(spec_leaf_digest(n1), n1, s1, depth);
    lemma_path_root_from_node(leaf2, n2, s2u, depth);
}

/// Carries the preservation over to the membership checks: under the root
/// that recording `n1` yields, the witness updated at the divergence level
/// still proves of `n2` whatever the old witness proved — an occupied slot
/// stays provably occupied, a vacant one provably vacant.
pub proof fn lemma_membership_survives_insertion(
    n1: Seq<u8>,
    n2: Seq<u8>,
    w1: MerkleWitness,
    w2: MerkleWitness,
    w2u: MerkleWitness,
    d: int,
)
    requires
        w1.wf(),
        w2.wf(),
        0 <= d < MERKLE_DEPTH,
        path_bit(n1, d) != path_bit(n2, d),
        forall|k: int| d < k < MERKLE_DEPTH ==> path_bit(n1, k) == path_bit(n2, k),
        forall|k: int| d < k < MERKLE_DEPTH ==> w1@[k] == w2@[k],
        w2@[d] == spec_path_node(zero_bytes32(), n1, w1@, d),
        w2u@ == w2@.update(d, spec_path_node(spec_leaf_digest(n1), n1, w1@, d)),
    ensures
        w1@[d] == spec_path_node(spec_leaf_digest(n2), n2, w2@, d) ==> spec_proves_present(
            spec_inserted_root(n1, w1),
            n2,
            w2u,
        ),
        w1@[d] == spec_path_node(zero_bytes32(), n2, w2@, d) ==> spec_proves_absent(
            spec_inserted_root(n1, w1),
            n2,
            w2u,
        ),
{
    assert(w2u@.len() == w2@.len());
    if w1@[d] == spec_path_node(spec_leaf_digest(n2), n2, w2@, d) {
        lemma_insertion_preserves_divergent_slots(spec_leaf_digest(n2), n1, n2, w1@, w2@, d);
    }
    if w1@[d] == spec_path_node(zero_bytes32(), n2, w2@, d) {
        lemma_insertion_preserves_divergent_slots(zero_bytes32(), n1, n2, w1@, w2@, d);
    }
}

} // verus!
