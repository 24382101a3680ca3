//! Schnorr signatures over the Jubjub curve, with the verifier challenge
//! derived from a transcript commitment (Fiat–Shamir over the hash family
//! of this crate).
//!
//! Scalars and curve points live in the library as their canonical
//! fixed-width encodings: a scalar is its 32-byte little-endian encoding
//! (valid exactly when the value lies below the group order), a point is
//! its 64-byte uncompressed affine encoding. The group and field operations
//! themselves are carried out by the outside curve arithmetic behind
//! trusted wrappers from plain bytes to plain bytes; everything the scheme
//! decides — the transcript layout, the rejection-sampling loop, the final
//! equality — is verified here.

use vstd::prelude::*;
use ark_ec::AffineRepr;
use ark_ec::CurveGroup;
use ark_ed_on_bls12_381::EdwardsAffine;
use ark_ed_on_bls12_381::EdwardsProjective;
use ark_ed_on_bls12_381::Fr;
use ark_ff::UniformRand;
use ark_serialize::CanonicalDeserialize;
use ark_serialize::CanonicalSerialize;
use crate::hashes::Blake2sCommitment;
use crate::hashes::CommitmentScheme;
use crate::hashes::blake2s_of;
use crate::hashes::bytes_clone;
use crate::hashes::bytes_eq;
use crate::hashes::push_all;

verus! {

/// Whether a byte string is the canonical 32-byte little-endian encoding of
/// a Jubjub scalar, that is, of a value below the prime order of the group.
pub uninterp spec fn fr_bytes_ok(b: Seq<u8>) -> bool;

/// Whether a byte string is the canonical 64-byte uncompressed encoding of
/// a point of the prime-order Jubjub group.
pub uninterp spec fn point_bytes_ok(b: Seq<u8>) -> bool;

/// The canonical encoding of the product of the two scalars encoded by the
/// arguments.
pub uninterp spec fn fr_mul_bytes(a: Seq<u8>, b: Seq<u8>) -> Seq<u8>;

/// The canonical encoding of the difference of the two scalars encoded by
/// the arguments.
pub uninterp spec fn fr_sub_bytes(a: Seq<u8>, b: Seq<u8>) -> Seq<u8>;

/// The canonical encoding of the scalar multiple of the point encoded by
/// `p` by the scalar encoded by `k`.
pub uninterp spec fn point_mul_bytes(p: Seq<u8>, k: Seq<u8>) -> Seq<u8>;

/// The canonical encoding of the sum of the two points encoded by the
/// arguments.
pub uninterp spec fn point_add_bytes(p: Seq<u8>, q: Seq<u8>) -> Seq<u8>;

/// Relies on ark_serialize::CanonicalDeserialize::deserialize_uncompressed
/// for the Jubjub scalar field: it succeeds exactly on 32-byte buffers
/// whose little-endian value lies below the group order, which are exactly
/// the canonical scalar encodings.
#[verifier::external_body]
fn fr_check(b: &Vec<u8>) -> (r: bool)
    ensures
        r == fr_bytes_ok(b@),
{
    b.len() == 32 && Fr::deserialize_uncompressed(b.as_slice()).is_ok()
}

/// Relies on ark_serialize::CanonicalDeserialize::deserialize_uncompressed
/// for Jubjub affine points: on a 64-byte buffer it succeeds exactly when
/// the two coordinates are canonical field encodings of a point on the
/// curve and in the prime-order subgroup.
#[verifier::external_body]
fn point_check(b: &Vec<u8>) -> (r: bool)
    ensures
        r == point_bytes_ok(b@),
{
    b.len() == 64 && EdwardsAffine::deserialize_uncompressed(b.as_slice()).is_ok()
}

/// Relies on ark_ff::UniformRand for the Jubjub scalar field: a uniformly
/// random scalar, serialized canonically. Nothing is assumed about which
/// scalar comes back, only that the encoding is canonical.
#[verifier::external_body]
fn fr_random() -> (r: Vec<u8>)
    ensures
        fr_bytes_ok(r@),
        r@.len() == 32,
{
    let k = Fr::rand(&mut rand::thread_rng());
    let mut out = Vec::new();
    k.serialize_uncompressed(&mut out).unwrap();
    out
}

/// Relies on ark_ff::UniformRand for the Jubjub group: a random group
/// element, serialized canonically. Nothing is assumed about which point
/// comes back.
#[verifier::external_body]
fn point_random() -> (r: Vec<u8>)
    ensures
        point_bytes_ok(r@),
        r@.len() == 64,
{
    let p = EdwardsProjective::rand(&mut rand::thread_rng()).into_affine();
    let mut out = Vec::new();
    p.serialize_uncompressed(&mut out).unwrap();
    out
}

/// Relies on the field multiplication of the Jubjub scalar field
/// (core::ops::Mul for ark_ff::Fp): deterministic on the encoded values,
/// with a canonical re-encoding of the product.
#[verifier::external_body]
fn fr_mul(a: &Vec<u8>, b: &Vec<u8>) -> (r: Vec<u8>)
    requires
        fr_bytes_ok(a@),
        fr_bytes_ok(b@),
    ensures
        r@ == fr_mul_bytes(a@, b@),
        fr_bytes_ok(r@),
        r@.len() == 32,
{
    let x = Fr::deserialize_uncompressed(a.as_slice()).unwrap();
    let y = Fr::deserialize_uncompressed(b.as_slice()).unwrap();
    let mut out = Vec::new();
    (x * y).serialize_uncompressed(&mut out).unwrap();
    out
}

/// Relies on the field subtraction of the Jubjub scalar field
/// (core::ops::Sub for ark_ff::Fp): deterministic on the encoded values,
/// with a canonical re-encoding of the difference.
#[verifier::external_body]
fn fr_sub(a: &Vec<u8>, b: &Vec<u8>) -> (r: Vec<u8>)
    requires
        fr_bytes_ok(a@),
        fr_bytes_ok(b@),
    ensures
        r@ == fr_sub_bytes(a@, b@),
        fr_bytes_ok(r@),
        r@.len() == 32,
{
    let x = Fr::deserialize_uncompressed(a.as_slice()).unwrap();
    let y = Fr::deserialize_uncompressed(b.as_slice()).unwrap();
    let mut out = Vec::new();
    (x - y).serialize_uncompressed(&mut out).unwrap();
    out
}

/// Relies on the scalar multiplication of the Jubjub group (core::ops::Mul
/// of an affine point by a scalar): deterministic on the encoded values,
/// with a canonical re-encoding of the product.
///
/// The quantified clause records that scalar multiplication by a fixed base
/// is a homomorphism from the scalar field into the group: for any scalars
/// `e` and `x`, `(k - e·x)·P + e·(x·P) == k·P`. This is the algebraic
/// identity Schnorr verification rests on, and it holds of the outside
/// arithmetic because scalar multiplication distributes over scalar
/// addition and composes multiplicatively.
#[verifier::external_body]
fn point_mul(p: &Vec<u8>, k: &Vec<u8>) -> (r: Vec<u8>)
    requires
        point_bytes_ok(p@),
        fr_bytes_ok(k@),
    ensures
        r@ == point_mul_bytes(p@, k@),
        point_bytes_ok(r@),
        r@.len() == 64,
        forall|e: Seq<u8>, x: Seq<u8>|
            fr_bytes_ok(e) && fr_bytes_ok(x) ==> point_add_bytes(
                point_mul_bytes(p@, fr_sub_bytes(k@, #[trigger] fr_mul_bytes(e, x))),
                point_mul_bytes(point_mul_bytes(p@, x), e),
            ) == r@,
{
    let pt = EdwardsAffine::deserialize_uncompressed(p.as_slice()).unwrap();
    let s = Fr::deserialize_uncompressed(k.as_slice()).unwrap();
    let mut out = Vec::new();
    (pt * s).into_affine().serialize_uncompressed(&mut out).unwrap();
    out
}

/// Relies on the group addition of the Jubjub curve (core::ops::Add of
/// projective points): deterministic on the encoded values, with a
/// canonical re-encoding of the sum.
#[verifier::external_body]
fn point_add(p: &Vec<u8>, q: &Vec<u8>) -> (r: Vec<u8>)
    requires
        point_bytes_ok(p@),
        point_bytes_ok(q@),
    ensures
        r@ == point_add_bytes(p@, q@),
        point_bytes_ok(r@),
        r@.len() == 64,
{
    let x = EdwardsAffine::deserialize_uncompressed(p.as_slice()).unwrap();
    let y = EdwardsAffine::deserialize_uncompressed(q.as_slice()).unwrap();
    let mut out = Vec::new();
    (x.into_group() + y).into_affine().serialize_uncompressed(&mut out).unwrap();
    out
}

/// Mapping a transcript digest into the scalar field: the digest bytes are
/// accepted unchanged exactly when they already form a canonical scalar
/// encoding, and rejected otherwise (the signer then resamples).
pub trait DigestToScalarField where Self: View<V = Seq<u8>> {
    fn digest_to_scalar_field(&self) -> (r: Option<Vec<u8>>)
        ensures
            r is Some <==> fr_bytes_ok(self@),
            r matches Some(v) ==> v@ == self@;
}

impl DigestToScalarField for Vec<u8> {
    fn digest_to_scalar_field(&self) -> (r: Option<Vec<u8>>) {
        if fr_check(self) {
            Some(bytes_clone(self))
        } else {
            None
        }
    }
}

/// The shared, immutable setup of the deployment: the generator point of
/// the signature scheme, in canonical encoding. The hash family behind
/// the accumulator and the transcript is unparameterized, so its leaf and
/// two-to-one components of the setup are empty and the parameters reduce
/// to the generator.
pub struct Parameters {
    generator: Vec<u8>,
}

impl Parameters {
    /// The canonical encoding of the generator.
    pub closed spec fn spec_generator(self) -> Seq<u8> {
        self.generator@
    }

    #[verifier::type_invariant]
    spec fn wf(self) -> bool {
        point_bytes_ok(self.generator@)
    }

    /// Rebuild parameters from a stored generator encoding; rejects
    /// anything that is not the canonical encoding of a group point.
    pub fn from_generator_bytes(bytes: Vec<u8>) -> (r: Option<Parameters>)
        ensures
            r is Some <==> point_bytes_ok(bytes@),
            r matches Some(p) ==> p.spec_generator() == bytes@,
    {
        if point_check(&bytes) {
            Some(Parameters { generator: bytes })
        } else {
            None
        }
    }

    /// The canonical encoding of the generator.
    pub fn generator_bytes(&self) -> (r: Vec<u8>)
        ensures
            r@ == self.spec_generator(),
    {
        bytes_clone(&self.generator)
    }
}

/// A public key: a curve point in canonical encoding, the secret scalar
/// times the generator.
pub struct PublicKey {
    bytes: Vec<u8>,
}

impl PublicKey {
    /// The canonical encoding of the key point.
    pub closed spec fn spec_bytes(self) -> Seq<u8> {
        self.bytes@
    }

    #[verifier::type_invariant]
    spec fn wf(self) -> bool {
        point_bytes_ok(self.bytes@)
    }

    /// Rebuild a public key from its stored encoding; rejects anything that
    /// is not the canonical encoding of a group point.
    pub fn from_bytes(bytes: Vec<u8>) -> (r: Option<PublicKey>)
        ensures
            r is Some <==> point_bytes_ok(bytes@),
            r matches Some(p) ==> p.spec_bytes() == bytes@,
    {
        if point_check(&bytes) {
            Some(PublicKey { bytes })
        } else {
            None
        }
    }

    /// The canonical encoding of the key point.
    pub fn to_bytes(&self) -> (r: Vec<u8>)
        ensures
            r@ == self.spec_bytes(),
    {
        bytes_clone(&self.bytes)
    }
}

/// A secret key: a scalar in canonical encoding, exclusively owned by one
/// account holder and never transmitted.
pub struct SecretKey {
    bytes: Vec<u8>,
}

impl SecretKey {
    /// The canonical encoding of the secret scalar.
    pub closed spec fn spec_bytes(self) -> Seq<u8> {
        self.bytes@
    }

    #[verifier::type_invariant]
    spec fn wf(self) -> bool {
        fr_bytes_ok(self.bytes@)
    }

    /// Rebuild a secret key from its stored encoding; rejects anything that
    /// is not a canonical scalar encoding.
    pub fn from_bytes(bytes: Vec<u8>) -> (r: Option<SecretKey>)
        ensures
            r is Some <==> fr_bytes_ok(bytes@),
            r matches Some(k) ==> k.spec_bytes() == bytes@,
    {
        if fr_check(&bytes) {
            Some(SecretKey { bytes })
        } else {
            None
        }
    }

    /// The canonical encoding of the secret scalar.
    pub fn to_bytes(&self) -> (r: Vec<u8>)
        ensures
            r@ == self.spec_bytes(),
    {
        bytes_clone(&self.bytes)
    }
}

/// A signature: the prover's response scalar and the verifier challenge
/// scalar, both in canonical encoding, together with the prover's
/// commitment point the challenge was derived from.
pub struct Signature {
    prover_response: Vec<u8>,
    verifier_challenge: Vec<u8>,
    prover_com: Vec<u8>,
}

impl Signature {
    /// The canonical encoding of the response scalar.
    pub closed spec fn spec_response(self) -> Seq<u8> {
        self.prover_response@
    }

    /// The canonical encoding of the challenge scalar.
    pub closed spec fn spec_challenge(self) -> Seq<u8> {
        self.verifier_challenge@
    }

    /// The canonical encoding of the commitment point.
    pub closed spec fn spec_commitment(self) -> Seq<u8> {
        self.prover_com@
    }

    #[verifier::type_invariant]
    spec fn wf(self) -> bool {
        &&& fr_bytes_ok(self.prover_response@)
        &&& fr_bytes_ok(self.verifier_challenge@)
        &&& point_bytes_ok(self.prover_com@)
    }

    /// Rebuild a signature from its stored encodings; rejects anything that
    /// is not a pair of canonical scalar encodings with a canonical point
    /// encoding. This is the only way malformed wire data can be turned
    /// away before verification.
    pub fn from_bytes(response: Vec<u8>, challenge: Vec<u8>, commitment: Vec<u8>) -> (r: Option<
        Signature,
    >)
        ensures
            r is Some <==> (fr_bytes_ok(response@) && fr_bytes_ok(challenge@) && point_bytes_ok(
                commitment@,
            )),
            r matches Some(s) ==> s.spec_response() == response@ && s.spec_challenge()
                == challenge@ && s.spec_commitment() == commitment@,
    {
        if fr_check(&response) && fr_check(&challenge) && point_check(&commitment) {
            Some(
                Signature {
                    prover_response: response,
                    verifier_challenge: challenge,
                    prover_com: commitment,
                },
            )
        } else {
            None
        }
    }

    /// The canonical encoding of the response scalar.
    pub fn response_bytes(&self) -> (r: Vec<u8>)
        ensures
            r@ == self.spec_response(),
    {
        bytes_clone(&self.prover_response)
    }

    /// The canonical encoding of the challenge scalar.
    pub fn challenge_bytes(&self) -> (r: Vec<u8>)
        ensures
            r@ == self.spec_challenge(),
    {
        bytes_clone(&self.verifier_challenge)
    }

    /// The canonical encoding of the commitment point.
    pub fn commitment_bytes(&self) -> (r: Vec<u8>)
        ensures
            r@ == self.spec_commitment(),
    {
        bytes_clone(&self.prover_com)
    }
}

/// What Schnorr verification computes, over the named outside operations:
/// recombine the claimed commitment as `response·G + challenge·PK`, rehash
/// the transcript `PK ‖ R' ‖ message`, and accept exactly when the digest
/// maps into the scalar field and equals the challenge.
pub open spec fn schnorr_verify_spec(
    generator: Seq<u8>,
    pk: Seq<u8>,
    message: Seq<u8>,
    response: Seq<u8>,
    challenge: Seq<u8>,
) -> bool {
    let recombined = point_add_bytes(
        point_mul_bytes(generator, response),
        point_mul_bytes(pk, challenge),
    );
    let digest = blake2s_of(pk + recombined + message);
    fr_bytes_ok(digest) && digest == challenge
}

/// How many fresh nonces the signer tries before giving up. An attempt
/// succeeds when the 256-bit transcript digest happens to fall below the
/// roughly 252-bit group order, which a uniform digest does about once in
/// eighteen tries; exhausting this bound therefore has probability around
/// ten to the minus twenty-sixth. The bound keeps termination explicit
/// instead of relying on an unbounded loop.
pub const SIGN_RETRY_LIMIT: u64 = 1024;

/// The Schnorr signature scheme over the Jubjub curve.
pub struct Schnorr;

impl Schnorr {
    /// Draw the shared parameters: a random generator of the group.
    /// Whatever point the draw yields, its stored encoding is canonical,
    /// so serializing the parameters and reading them back succeeds.
    pub fn setup() -> (r: Parameters)
        ensures
            point_bytes_ok(r.spec_generator()),
    {
        Parameters { generator: point_random() }
    }

    /// Draw a key pair: a random secret scalar and its public key, the
    /// secret scalar times the generator.
    pub fn keygen(parameters: &Parameters) -> (r: (PublicKey, SecretKey))
        ensures
            r.0.spec_bytes() == point_mul_bytes(parameters.spec_generator(), r.1.spec_bytes()),
    {
        proof {
            use_type_invariant(&*parameters);
        }
        let sk = fr_random();
        let pk = point_mul(&parameters.generator, &sk);
        (PublicKey { bytes: pk }, SecretKey { bytes: sk })
    }

    /// Sign a message: sample a nonce `k`, commit to it as `R = k·G`,
    /// derive the challenge `e` by hashing `PK ‖ R ‖ message` and mapping
    /// the digest into the scalar field (resampling `k` when the digest
    /// falls outside the field), and respond with `s = k - e·sk`.
    ///
    /// On success the returned signature carries exactly that structure,
    /// and — whenever the public key matches the secret key — the
    /// Sigma-protocol identity `response·G + challenge·PK == commitment`
    /// holds of it, so it is guaranteed to pass verification against the
    /// same parameters, key and message. Failure means every retry drew a
    /// digest outside the scalar field, an event of negligible
    /// probability.
    pub fn sign(
        parameters: &Parameters,
        sk: &SecretKey,
        pk: &PublicKey,
        message: &Vec<u8>,
    ) -> (r: Option<Signature>)
        ensures
            r matches Some(sig) ==> {
                &&& sig.spec_challenge() == blake2s_of(
                    pk.spec_bytes() + sig.spec_commitment() + message@,
                )
                &&& fr_bytes_ok(sig.spec_challenge())
                &&& exists|k: Seq<u8>|
                    fr_bytes_ok(k) && sig.spec_commitment() == point_mul_bytes(
                        parameters.spec_generator(),
                        k,
                    ) && sig.spec_response() == fr_sub_bytes(
                        k,
                        fr_mul_bytes(sig.spec_challenge(), sk.spec_bytes()),
                    )
                &&& (pk.spec_bytes() == point_mul_bytes(
                    parameters.spec_generator(),
                    sk.spec_bytes(),
                ) ==> point_add_bytes(
                    point_mul_bytes(parameters.spec_generator(), sig.spec_response()),
                    point_mul_bytes(pk.spec_bytes(), sig.spec_challenge()),
                ) == sig.spec_commitment())
                &&& (pk.spec_bytes() == point_mul_bytes(
                    parameters.spec_generator(),
                    sk.spec_bytes(),
                ) ==> schnorr_verify_spec(
                    parameters.spec_generator(),
                    pk.spec_bytes(),
                    message@,
                    sig.spec_response(),
                    sig.spec_challenge(),
                ))
            },
    {
        proof {
            use_type_invariant(&*parameters);
            use_type_invariant(&*sk);
            use_type_invariant(&*pk);
        }
        let mut attempt: u64 = 0;
        while attempt < SIGN_RETRY_LIMIT
            invariant
                point_bytes_ok(parameters.spec_generator()),
                fr_bytes_ok(sk.spec_bytes()),
                point_bytes_ok(pk.spec_bytes()),
            decreases SIGN_RETRY_LIMIT - attempt,
        {
            let k = fr_random();
            let commitment = point_mul(&parameters.generator, &k);
            let mut transcript: Vec<u8> = Vec::new();
            push_all(&mut transcript, &pk.bytes);
            push_all(&mut transcript, &commitment);
            push_all(&mut transcript, message);
            let digest = Blake2sCommitment::commit(&transcript);
            match digest.digest_to_scalar_field() {
                Some(challenge) => {
                    let scaled = fr_mul(&challenge, &sk.bytes);
                    let response = fr_sub(&k, &scaled);
                    proof {
                        let g = parameters.spec_generator();
                        if pk.spec_bytes() == point_mul_bytes(g, sk.spec_bytes()) {
                            assert(point_add_bytes(
                                point_mul_bytes(g, response@),
                                point_mul_bytes(pk.spec_bytes(), challenge@),
                            ) == commitment@);
                        }
                    }
                    return Some(
                        Signature {
                            prover_response: response,
                            verifier_challenge: challenge,
                            prover_com: commitment,
                        },
                    );
                },
                None => {},
            }
            attempt = attempt + 1;
        }
        None
    }

    /// Verify a signature: recombine the commitment as
    /// `response·G + challenge·PK`, rehash the transcript, and accept
    /// exactly when the digest maps into the scalar field and equals the
    /// challenge. The caller must branch on the result; an ignored `false`
    /// is a silent forgery acceptance.
    pub fn verify(
        parameters: &Parameters,
        pk: &PublicKey,
        message: &Vec<u8>,
        signature: &Signature,
    ) -> (r: bool)
        ensures
            r == schnorr_verify_spec(
                parameters.spec_generator(),
                pk.spec_bytes(),
                message@,
                signature.spec_response(),
                signature.spec_challenge(),
            ),
    {
        proof {
            use_type_invariant(&*parameters);
            use_type_invariant(&*pk);
            use_type_invariant(&*signature);
        }
        let lhs = point_mul(&parameters.generator, &signature.prover_response);
        let rhs = point_mul(&pk.bytes, &signature.verifier_challenge);
        let recombined = point_add(&lhs, &rhs);
        let mut transcript: Vec<u8> = Vec::new();
        push_all(&mut transcript, &pk.bytes);
        push_all(&mut transcript, &recombined);
        push_all(&mut transcript, message);
        let digest = Blake2sCommitment::commit(&transcript);
        if !fr_check(&digest) {
            return false;
        }
        bytes_eq(&digest, &signature.verifier_challenge)
    }
}

/// The bit at position `j` (most significant first) of a byte.
pub open spec fn bit_of_byte(byte: u8, j: int) -> bool {
    (byte >> ((7 - j) as u8)) & 1 == 1
}

/// Unpack bytes into bits, most significant bit of each byte first: the
/// bit order the in-circuit scalar-multiplication gadget consumes.
pub fn bytes_to_bits(bytes: &Vec<u8>) -> (r: Vec<bool>)
    ensures
        r@.len() == bytes@.len() * 8,
        forall|i: int, j: int|
            0 <= i < bytes@.len() && 0 <= j < 8 ==> r@[i * 8 + j] == bit_of_byte(bytes@[i], j),
{
    let n = bytes.len();
    let mut bits: Vec<bool> = Vec::new();
    let mut i: usize = 0;
    while i < n
        invariant
            n == bytes@.len(),
            i <= n,
            bits@.len() == i * 8,
            forall|a: int, b: int|
                0 <= a < i && 0 <= b < 8 ==> bits@[a * 8 + b] == bit_of_byte(bytes@[a], b),
        decreases n - i,
    {
        let byte = bytes[i];
        let mut j: usize = 0;
        while j < 8
            invariant
                j <= 8,
                byte == bytes@[i as int],
                i < n,
                n == bytes@.len(),
                bits@.len() == i * 8 + j,
                forall|a: int, b: int|
                    0 <= a < i && 0 <= b < 8 ==> bits@[a * 8 + b] == bit_of_byte(bytes@[a], b),
                forall|b: int| 0 <= b < j ==> bits@[i * 8 + b] == bit_of_byte(bytes@[i as int], b),
            decreases 8 - j,
        {
            let shift = (7 - j) as u8;
            let bit = (byte >> shift) & 1;
            bits.push(bit == 1);
            j = j + 1;
        }
        i = i + 1;
    }
    bits
}

} // verus!
