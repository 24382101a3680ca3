//! Authenticated-accumulator membership: a Merkle tree over the digests of
//! fixed-size leaf records, together with the native recombination that
//! checks an authentication path against a public root.
//!
//! Each level of an authentication path is a tagged variant naming the side
//! the sibling digest sits on, because the two-to-one compression function
//! is non-commutative and the argument order must be preserved exactly.

use vstd::prelude::*;
use vstd::arithmetic::div_mod::lemma_fundamental_div_mod;
use crate::hashes::bytes_clone;
use crate::hashes::bytes_eq;
use crate::hashes::compress;
use crate::hashes::compress_of;
use crate::hashes::leaf_hash;
use crate::hashes::leaf_hash_of;

verus! {

/// One level of an authentication path: the digest of the sibling subtree,
/// tagged with the side it occupies in the two-to-one compression.
#[derive(Debug)]
pub enum Sibling {
    /// The sibling digest is the left argument of the compression.
    Left(Vec<u8>),
    /// The sibling digest is the right argument of the compression.
    Right(Vec<u8>),
}

/// An ordered authentication path, one sibling per tree level, leaf end
/// first.
pub type AuthenticationPath = Vec<Sibling>;

/// Combine a running digest with one sibling, respecting the recorded side.
pub open spec fn step_root(acc: Seq<u8>, s: Sibling) -> Seq<u8> {
    match s {
        Sibling::Left(d) => compress_of(d@, acc),
        Sibling::Right(d) => compress_of(acc, d@),
    }
}

/// The root obtained by recombining a leaf digest with every sibling of a
/// path, leaf end first.
pub open spec fn path_root(leaf_digest: Seq<u8>, path: Seq<Sibling>) -> Seq<u8>
    decreases path.len(),
{
    if path.len() == 0 {
        leaf_digest
    } else {
        path_root(step_root(leaf_digest, path[0]), path.drop_first())
    }
}

/// Appending one sibling to a path recombines the old root with that
/// sibling.
proof fn lemma_path_root_snoc(d: Seq<u8>, path: Seq<Sibling>, s: Sibling)
    ensures
        path_root(d, path.push(s)) == step_root(path_root(d, path), s),
    decreases path.len(),
{
    let p = path.push(s);
    if path.len() == 0 {
        assert(p[0] == s);
        assert(p.drop_first() =~= Seq::<Sibling>::empty());
        assert(path_root(d, p) == path_root(step_root(d, s), p.drop_first()));
        assert(path_root(step_root(d, s), p.drop_first()) == step_root(d, s));
        assert(path_root(d, path) == d);
    } else {
        lemma_path_root_snoc(step_root(d, path[0]), path.drop_first(), s);
        assert(p[0] == path[0]);
        assert(p.drop_first() =~= path.drop_first().push(s));
        assert(path_root(d, p) == path_root(step_root(d, path[0]), p.drop_first()));
        assert(path_root(d, path) == path_root(step_root(d, path[0]), path.drop_first()));
    }
}

/// Check an authentication path: hash the leaf record, fold in every
/// sibling in order, and compare the outcome with the claimed root.
///
/// A caller that uses the result to gate anything must branch on it
/// explicitly; an ignored `false` is a silent acceptance.
pub fn verify_path(root: &Vec<u8>, leaf: &Vec<u8>, path: &AuthenticationPath) -> (r: bool)
    ensures
        r == (root@ == path_root(leaf_hash_of(leaf@), path@)),
{
    let mut acc = leaf_hash(leaf);
    let n = path.len();
    let mut i: usize = 0;
    while i < n
        invariant
            n == path@.len(),
            i <= n,
            acc@ == path_root(leaf_hash_of(leaf@), path@.take(i as int)),
        decreases n - i,
    {
        let step = &path[i];
        let next = match step {
            Sibling::Left(d) => compress(d, &acc),
            Sibling::Right(d) => compress(&acc, d),
        };
        proof {
            lemma_path_root_snoc(leaf_hash_of(leaf@), path@.take(i as int), path@[i as int]);
            assert(path@.take(i as int).push(path@[i as int]) =~= path@.take(i + 1));
        }
        acc = next;
        i = i + 1;
    }
    proof {
        assert(path@.take(n as int) =~= path@);
    }
    bytes_eq(root, &acc)
}

/// The digests of a sequence of stored digests, as mathematical sequences.
pub open spec fn digests_view(v: Seq<Vec<u8>>) -> Seq<Seq<u8>> {
    v.map_values(|d: Vec<u8>| d@)
}

/// One reduction step of tree construction: compress adjacent pairs of a
/// level into the level above.
pub open spec fn combine_level(l: Seq<Seq<u8>>) -> Seq<Seq<u8>> {
    Seq::new(l.len() / 2, |i: int| compress_of(l[2 * i], l[2 * i + 1]))
}

/// The root determined by a level of digests: reduce pairwise until one
/// digest is left.
pub open spec fn root_spec(l: Seq<Seq<u8>>) -> Seq<u8>
    decreases l.len(),
{
    if l.len() == 0 {
        Seq::empty()
    } else if l.len() == 1 {
        l[0]
    } else {
        root_spec(combine_level(l))
    }
}

/// The leaf digests of a collection of leaf records.
pub open spec fn leaf_digests_of(leaves: Seq<Vec<u8>>) -> Seq<Seq<u8>> {
    Seq::new(leaves.len(), |i: int| leaf_hash_of(leaves[i]@))
}

/// Whether `n` is a power of two (zero is not).
pub open spec fn is_pow2(n: nat) -> bool
    decreases n,
{
    if n == 0 {
        false
    } else if n == 1 {
        true
    } else {
        n % 2 == 0 && is_pow2(n / 2)
    }
}

/// Runtime check for a power of two.
fn check_pow2(n: usize) -> (r: bool)
    ensures
        r == is_pow2(n as nat),
{
    if n == 0 {
        return false;
    }
    let mut m = n;
    while m > 1
        invariant
            m >= 1,
            is_pow2(n as nat) == is_pow2(m as nat),
        decreases m,
    {
        if m % 2 == 1 {
            return false;
        }
        m = m / 2;
    }
    true
}

/// A Merkle tree: every level of digests, from the leaf digests up to the
/// single root digest. Built once over a power-of-two number of leaves and
/// then only read.
pub struct MerkleTree {
    levels: Vec<Vec<Vec<u8>>>,
}

impl MerkleTree {
    /// The digests of the leaves the tree was built over, in order.
    pub closed spec fn spec_leaf_digests(self) -> Seq<Seq<u8>> {
        digests_view(self.levels@[0]@)
    }

    /// The number of leaves.
    pub closed spec fn spec_leaf_count(self) -> nat {
        self.levels@[0]@.len()
    }

    /// The number of levels above the leaf level.
    pub closed spec fn spec_depth(self) -> nat {
        (self.levels@.len() - 1) as nat
    }

    /// The root digest.
    pub closed spec fn spec_root(self) -> Seq<u8> {
        digests_view(self.levels@[self.levels@.len() - 1]@)[0]
    }

    #[verifier::type_invariant]
    spec fn wf(self) -> bool {
        &&& self.levels@.len() >= 1
        &&& self.levels@[self.levels@.len() - 1]@.len() == 1
        &&& forall|k: int|
            0 <= k < self.levels@.len() - 1 ==> digests_view(self.levels@[k + 1]@)
                == combine_level(digests_view(#[trigger] self.levels@[k]@))
        &&& forall|k: int|
            0 <= k < self.levels@.len() - 1 ==> (#[trigger] self.levels@[k]@.len()) % 2 == 0
    }

    /// Every level reduces to the same root as the level below it.
    proof fn lemma_root_chain(self, k: int)
        requires
            self.wf(),
            0 <= k < self.levels@.len(),
        ensures
            root_spec(digests_view(self.levels@[k]@)) == self.spec_root(),
            digests_view(self.levels@[k]@).len() >= 1,
        decreases self.levels@.len() - k,
    {
        let n = self.levels@.len() as int;
        if k == n - 1 {
        } else {
            self.lemma_root_chain(k + 1);
            assert(digests_view(self.levels@[k + 1]@) == combine_level(
                digests_view(self.levels@[k]@),
            ));
            assert(digests_view(self.levels@[k]@).len() >= 2);
        }
    }

    /// Build a tree from leaf records. Succeeds exactly when the number of
    /// leaves is a power of two; the resulting tree stores the hash of each
    /// record at its leaf level and the pairwise reduction of those digests
    /// determines the root.
    pub fn new(leaves: &Vec<Vec<u8>>) -> (r: Option<MerkleTree>)
        ensures
            r is Some <==> is_pow2(leaves@.len()),
            r matches Some(t) ==> t.spec_leaf_digests() == leaf_digests_of(leaves@),
            r matches Some(t) ==> t.spec_leaf_count() == leaves@.len(),
            r matches Some(t) ==> t.spec_root() == root_spec(leaf_digests_of(leaves@)),
    {
        if !check_pow2(leaves.len()) {
            return None;
        }
        let n = leaves.len();
        let mut level0: Vec<Vec<u8>> = Vec::new();
        let mut i: usize = 0;
        while i < n
            invariant
                n == leaves@.len(),
                i <= n,
                level0@.len() == i,
                forall|m: int| 0 <= m < i ==> digests_view(level0@)[m] == leaf_digests_of(
                    leaves@,
                )[m],
            decreases n - i,
        {
            level0.push(leaf_hash(&leaves[i]));
            i = i + 1;
        }
        proof {
            assert(digests_view(level0@) =~= leaf_digests_of(leaves@));
        }
        let mut levels: Vec<Vec<Vec<u8>>> = Vec::new();
        levels.push(level0);
        while levels[levels.len() - 1].len() > 1
            invariant
                levels@.len() >= 1,
                digests_view(levels@[0]@) == leaf_digests_of(leaves@),
                is_pow2(levels@[levels@.len() - 1]@.len()),
                forall|k: int|
                    0 <= k < levels@.len() - 1 ==> digests_view(levels@[k + 1]@) == combine_level(
                        digests_view(#[trigger] levels@[k]@),
                    ),
                forall|k: int|
                    0 <= k < levels@.len() - 1 ==> (#[trigger] levels@[k]@.len()) % 2 == 0,
            decreases levels@[levels@.len() - 1]@.len(),
        {
            let cur = &levels[levels.len() - 1];
            let curlen = cur.len();
            let half = curlen / 2;
            proof {
                lemma_fundamental_div_mod(curlen as int, 2);
            }
            proof {
                assert(curlen % 2 == 0);
            }
            let mut next: Vec<Vec<u8>> = Vec::new();
            let mut j: usize = 0;
            while j < half
                invariant
                    curlen == cur@.len(),
                    curlen == 2 * half,
                    j <= half,
                    next@.len() == j,
                    forall|m: int| 0 <= m < j ==> digests_view(next@)[m] == combine_level(
                        digests_view(cur@),
                    )[m],
                decreases half - j,
            {
                let ghost old_next = next@;
                next.push(compress(&cur[2 * j], &cur[2 * j + 1]));
                proof {
                    assert forall|m: int| 0 <= m < j + 1 implies digests_view(next@)[m]
                        == combine_level(digests_view(cur@))[m] by {
                        if m < j {
                            assert(next@[m] == old_next[m]);
                            assert(digests_view(old_next)[m] == combine_level(
                                digests_view(cur@),
                            )[m]);
                        } else {
                            assert(digests_view(next@)[m] == compress_of(
                                digests_view(cur@)[2 * j],
                                digests_view(cur@)[2 * j + 1],
                            ));
                        }
                    }
                }
                j = j + 1;
            }
            proof {
                assert(combine_level(digests_view(cur@)).len() == half);
                assert(digests_view(next@) =~= combine_level(digests_view(cur@)));
            }
            levels.push(next);
        }
        let tree = MerkleTree { levels };
        proof {
            tree.lemma_root_chain(0);
        }
        Some(tree)
    }

    /// The root digest, the single public commitment to the ordered leaf
    /// set.
    pub fn root(&self) -> (r: Vec<u8>)
        ensures
            r@ == self.spec_root(),
            r@ == root_spec(self.spec_leaf_digests()),
    {
        proof {
            use_type_invariant(&*self);
            self.lemma_root_chain(0);
        }
        let last = self.levels.len() - 1;
        bytes_clone(&self.levels[last][0])
    }

    /// The number of leaves the tree was built over.
    pub fn leaf_count(&self) -> (r: usize)
        ensures
            r == self.spec_leaf_count(),
    {
        proof {
            use_type_invariant(&*self);
        }
        self.levels[0].len()
    }

    /// Hand out the authentication path of the leaf at `index`. Succeeds
    /// exactly when the index is in range, and the returned path recombines
    /// the leaf's digest back to the tree's root: membership verification
    /// over this path is guaranteed to accept.
    pub fn generate_path(&self, index: usize) -> (r: Option<AuthenticationPath>)
        ensures
            r is Some <==> (index as nat) < self.spec_leaf_count(),
            r matches Some(p) ==> path_root(self.spec_leaf_digests()[index as int], p@)
                == self.spec_root(),
            r matches Some(p) ==> p@.len() == self.spec_depth(),
    {
        proof {
            use_type_invariant(&*self);
        }
        if index >= self.levels[0].len() {
            return None;
        }
        let depth = self.levels.len() - 1;
        let mut path: Vec<Sibling> = Vec::new();
        let mut idx = index;
        let mut k: usize = 0;
        while k < depth
            invariant
                self.wf(),
                depth == self.levels@.len() - 1,
                k <= depth,
                path@.len() == k,
                (idx as nat) < self.levels@[k as int]@.len(),
                path_root(self.spec_leaf_digests()[index as int], path@) == digests_view(
                    self.levels@[k as int]@,
                )[idx as int],
            decreases depth - k,
        {
            let cur = &self.levels[k];
            let curlen = cur.len();
            proof {
                assert(curlen % 2 == 0);
                lemma_fundamental_div_mod(idx as int, 2);
                lemma_fundamental_div_mod(curlen as int, 2);
            }
            let ghost prev_path = path@;
            let ghost leaf_d = self.spec_leaf_digests()[index as int];
            let ghost lvl = digests_view(self.levels@[k as int]@);
            let ghost up = digests_view(self.levels@[k + 1]@);
            proof {
                assert(up == combine_level(lvl));
                assert(up.len() == curlen / 2);
                assert(up[idx as int / 2] == compress_of(
                    lvl[2 * (idx as int / 2)],
                    lvl[2 * (idx as int / 2) + 1],
                ));
            }
            if idx % 2 == 0 {
                let sib = bytes_clone(&cur[idx + 1]);
                proof {
                    assert(sib@ == lvl[idx + 1]);
                    assert(2 * (idx as int / 2) == idx as int);
                }
                path.push(Sibling::Right(sib));
                proof {
                    lemma_path_root_snoc(leaf_d, prev_path, path@[k as int]);
                    assert(step_root(lvl[idx as int], path@[k as int]) == compress_of(
                        lvl[idx as int],
                        sib@,
                    ));
                    assert(path_root(leaf_d, path@) == up[idx as int / 2]);
                }
            } else {
                let sib = bytes_clone(&cur[idx - 1]);
                proof {
                    assert(sib@ == lvl[idx - 1]);
                    assert(2 * (idx as int / 2) == idx - 1);
                }
                path.push(Sibling::Left(sib));
                proof {
                    lemma_path_root_snoc(leaf_d, prev_path, path@[k as int]);
                    assert(step_root(lvl[idx as int], path@[k as int]) == compress_of(
                        sib@,
                        lvl[idx as int],
                    ));
                    assert(path_root(leaf_d, path@) == up[idx as int / 2]);
                }
            }
            idx = idx / 2;
            k = k + 1;
        }
        Some(path)
    }
}

/// The number of bytes of a leaf record of the membership circuit: the
/// one-byte account fact, byte-repeated to the record width.
pub const LEAF_RECORD_LEN: usize = 30;

/// The native analogue of the membership circuit: a public root, a one-byte
/// private leaf witness, and a private authentication path. The circuit is
/// satisfiable exactly when the expanded leaf record recombines to the
/// root.
pub struct MerkleTreeCircuit {
    /// The public input: the accumulator root.
    pub root: Vec<u8>,
    /// The private leaf witness; the leaf record is this byte repeated.
    pub leaf: u8,
    /// The private authentication path.
    pub authentication_path: AuthenticationPath,
}

impl MerkleTreeCircuit {
    /// The fixed-width leaf record of a one-byte witness.
    pub open spec fn leaf_record(leaf: u8) -> Seq<u8> {
        Seq::new(LEAF_RECORD_LEN as nat, |i: int| leaf)
    }

    /// Whether the witness establishes membership under the claimed root.
    pub open spec fn membership_spec(self) -> bool {
        path_root(leaf_hash_of(Self::leaf_record(self.leaf)), self.authentication_path@)
            == self.root@
    }

    /// Recompute the root from the witnesses and compare with the public
    /// input: exactly the predicate the circuit enforces. The circuit
    /// asserts the outcome true instead of returning it, so an instance
    /// with a non-member witness is unsatisfiable rather than quietly
    /// accepted.
    pub fn is_satisfied(&self) -> (r: bool)
        ensures
            r == self.membership_spec(),
    {
        let mut record: Vec<u8> = Vec::new();
        let mut i: usize = 0;
        while i < LEAF_RECORD_LEN
            invariant
                i <= LEAF_RECORD_LEN,
                record@ =~= Self::leaf_record(self.leaf).take(i as int),
            decreases LEAF_RECORD_LEN - i,
        {
            record.push(self.leaf);
            proof {
                assert(record@ =~= Self::leaf_record(self.leaf).take(i + 1));
            }
            i = i + 1;
        }
        proof {
            assert(Self::leaf_record(self.leaf).take(LEAF_RECORD_LEN as int) =~= Self::leaf_record(
                self.leaf,
            ));
        }
        verify_path(&self.root, &record, &self.authentication_path)
    }
}

} // verus!
