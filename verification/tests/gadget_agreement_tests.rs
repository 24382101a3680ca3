// Native and in-circuit signature verification must agree exactly on both
// valid and invalid signatures for identical inputs. The circuit below is
// assembled from the same ark-r1cs-std pieces the gadget layer uses:
// recombine the commitment from the response and challenge byte wires,
// serialize the points, rehash the transcript with the blake2s gadget, and
// compare against the challenge wires.

use ark_crypto_primitives::prf::blake2s::constraints::evaluate_blake2s;
use ark_ed_on_bls12_381::constraints::EdwardsVar;
use ark_ed_on_bls12_381::EdwardsAffine;
use ark_ed_on_bls12_381::Fq;
use ark_r1cs_std::alloc::AllocVar;
use ark_r1cs_std::bits::uint8::UInt8;
use ark_r1cs_std::bits::ToBitsGadget;
use ark_r1cs_std::eq::EqGadget;
use ark_r1cs_std::groups::CurveVar;
use ark_r1cs_std::R1CSVar;
use ark_r1cs_std::ToBytesGadget;
use ark_relations::r1cs::ConstraintSystem;
use ark_serialize::CanonicalDeserialize;
use simple_payments_scp::schnorr::Parameters;
use simple_payments_scp::schnorr::PublicKey;
use simple_payments_scp::schnorr::Schnorr;
use simple_payments_scp::schnorr::Signature;

fn circuit_verify(
    parameters: &Parameters,
    pk: &PublicKey,
    message: &[u8],
    signature: &Signature,
) -> bool {
    let cs = ConstraintSystem::<Fq>::new_ref();

    let generator_point =
        EdwardsAffine::deserialize_uncompressed(parameters.generator_bytes().as_slice()).unwrap();
    let generator = EdwardsVar::new_constant(cs.clone(), generator_point).unwrap();

    let pk_point = EdwardsAffine::deserialize_uncompressed(pk.to_bytes().as_slice()).unwrap();
    let pk_var = EdwardsVar::new_witness(cs.clone(), || Ok(pk_point)).unwrap();

    let response_vars: Vec<UInt8<Fq>> = signature
        .response_bytes()
        .iter()
        .map(|b| UInt8::new_witness(cs.clone(), || Ok(*b)).unwrap())
        .collect();
    let challenge_vars: Vec<UInt8<Fq>> = signature
        .challenge_bytes()
        .iter()
        .map(|b| UInt8::new_witness(cs.clone(), || Ok(*b)).unwrap())
        .collect();
    let message_vars: Vec<UInt8<Fq>> = message
        .iter()
        .map(|b| UInt8::new_witness(cs.clone(), || Ok(*b)).unwrap())
        .collect();

    let mut claimed_commitment = generator
        .scalar_mul_le(response_vars.to_bits_le().unwrap().iter())
        .unwrap();
    let pk_times_challenge = pk_var
        .scalar_mul_le(challenge_vars.to_bits_le().unwrap().iter())
        .unwrap();
    claimed_commitment += &pk_times_challenge;

    let mut hash_input: Vec<UInt8<Fq>> = Vec::new();
    hash_input.extend_from_slice(&pk_var.to_bytes().unwrap());
    hash_input.extend_from_slice(&claimed_commitment.to_bytes().unwrap());
    hash_input.extend_from_slice(&message_vars);

    let hash_bits = hash_input.to_bits_le().unwrap();
    let digest_vars: Vec<UInt8<Fq>> = evaluate_blake2s(&hash_bits)
        .unwrap()
        .into_iter()
        .flat_map(|word| word.to_bytes().unwrap())
        .collect();

    let outcome = digest_vars.is_eq(&challenge_vars).unwrap();
    assert!(cs.is_satisfied().unwrap());
    outcome.value().unwrap()
}

#[test]
fn native_and_circuit_verification_agree_on_valid_signature() {
    let parameters = Schnorr::setup();
    let (pk, sk) = Schnorr::keygen(&parameters);
    let message = b"identical inputs".to_vec();
    let sig = Schnorr::sign(&parameters, &sk, &pk, &message).unwrap();

    let native = Schnorr::verify(&parameters, &pk, &message, &sig);
    let circuit = circuit_verify(&parameters, &pk, &message, &sig);
    assert!(native);
    assert_eq!(native, circuit);
}

#[test]
fn native_and_circuit_verification_agree_on_invalid_signature() {
    let parameters = Schnorr::setup();
    let (pk, sk) = Schnorr::keygen(&parameters);
    let message = b"identical inputs".to_vec();
    let other_message = b"different inputs".to_vec();
    let sig = Schnorr::sign(&parameters, &sk, &pk, &message).unwrap();

    let native = Schnorr::verify(&parameters, &pk, &other_message, &sig);
    let circuit = circuit_verify(&parameters, &pk, &other_message, &sig);
    assert!(!native);
    assert_eq!(native, circuit);

    let mut challenge = sig.challenge_bytes();
    challenge[1] ^= 0x10;
    if let Some(tampered) =
        Signature::from_bytes(sig.response_bytes(), challenge, sig.commitment_bytes())
    {
        let native_tampered = Schnorr::verify(&parameters, &pk, &message, &tampered);
        let circuit_tampered = circuit_verify(&parameters, &pk, &message, &tampered);
        assert!(!native_tampered);
        assert_eq!(native_tampered, circuit_tampered);
    }
}
