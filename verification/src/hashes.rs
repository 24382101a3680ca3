//! The collision-resistant compression function behind both the
//! authenticated accumulator and the signature transcript, abstracted as a
//! commitment capability so that an alternative hash family can be
//! substituted without touching the accumulator or signature logic.

use vstd::prelude::*;
use blake2::Blake2s256;
use blake2::Digest;

verus! {

/// The digest that blake2s-256 assigns to a byte string. The function is
/// deterministic and depends on its input alone; its value is fixed only by
/// the outside implementation, so nothing further is assumed about it here.
pub uninterp spec fn blake2s_of(input: Seq<u8>) -> Seq<u8>;

/// Relies on blake2::Blake2s256 (through digest::Digest::digest): a
/// deterministic 32-byte digest of the input bytes.
#[verifier::external_body]
fn blake2s_hash(input: &Vec<u8>) -> (r: Vec<u8>)
    ensures
        r@ == blake2s_of(input@),
        r@.len() == 32,
{
    Blake2s256::digest(input.as_slice()).to_vec()
}

/// A commitment scheme: a deterministic, collision-resistant map from byte
/// strings to fixed-size digests. The accumulator and the signature
/// transcript only depend on this capability, never on the hash family
/// itself.
pub trait CommitmentScheme {
    /// The digest the scheme assigns to `input`.
    spec fn commit_spec(input: Seq<u8>) -> Seq<u8>;

    fn commit(input: &Vec<u8>) -> (r: Vec<u8>)
        ensures
            r@ == Self::commit_spec(input@);
}

/// The blake2s-256 instantiation of the commitment capability.
pub struct Blake2sCommitment;

impl CommitmentScheme for Blake2sCommitment {
    open spec fn commit_spec(input: Seq<u8>) -> Seq<u8> {
        blake2s_of(input)
    }

    fn commit(input: &Vec<u8>) -> (r: Vec<u8>) {
        blake2s_hash(input)
    }
}

/// The digest of a leaf record: the hash family applied to the raw record
/// bytes.
pub open spec fn leaf_hash_of(leaf: Seq<u8>) -> Seq<u8> {
    blake2s_of(leaf)
}

/// The two-to-one compression of two digests. The left argument is hashed
/// first, so the combination is order-sensitive (non-commutative).
pub open spec fn compress_of(left: Seq<u8>, right: Seq<u8>) -> Seq<u8> {
    blake2s_of(left + right)
}

/// Hash a raw leaf record into its digest.
pub fn leaf_hash(leaf: &Vec<u8>) -> (r: Vec<u8>)
    ensures
        r@ == leaf_hash_of(leaf@),
{
    Blake2sCommitment::commit(leaf)
}

/// Combine two digests, left before right.
pub fn compress(left: &Vec<u8>, right: &Vec<u8>) -> (r: Vec<u8>)
    ensures
        r@ == compress_of(left@, right@),
{
    let mut input: Vec<u8> = Vec::new();
    push_all(&mut input, left);
    push_all(&mut input, right);
    Blake2sCommitment::commit(&input)
}

/// Append every byte of `src` to `dst`, in order.
pub fn push_all(dst: &mut Vec<u8>, src: &Vec<u8>)
    ensures
        final(dst)@ == old(dst)@ + src@,
{
    let n = src.len();
    let mut i: usize = 0;
    while i < n
        invariant
            n == src@.len(),
            i <= n,
            dst@ == old(dst)@ + src@.take(i as int),
        decreases n - i,
    {
        dst.push(src[i]);
        i = i + 1;
        proof {
            assert(dst@ =~= old(dst)@ + src@.take(i as int));
        }
    }
    proof {
        assert(dst@ =~= old(dst)@ + src@);
    }
}

/// Compare two byte strings for equality.
pub fn bytes_eq(a: &Vec<u8>, b: &Vec<u8>) -> (r: bool)
    ensures
        r == (a@ == b@),
{
    if a.len() != b.len() {
        return false;
    }
    let n = a.len();
    let mut i: usize = 0;
    while i < n
        invariant
            n == a@.len(),
            n == b@.len(),
            i <= n,
            forall|j: int| 0 <= j < i ==> a@[j] == b@[j],
        decreases n - i,
    {
        if a[i] != b[i] {
            return false;
        }
        i = i + 1;
    }
    proof {
        assert(a@ =~= b@);
    }
    true
}

/// Copy a byte string.
pub fn bytes_clone(a: &Vec<u8>) -> (r: Vec<u8>)
    ensures
        r@ == a@,
{
    let mut out: Vec<u8> = Vec::new();
    push_all(&mut out, a);
    out
}

} // verus!
