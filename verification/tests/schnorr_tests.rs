use simple_payments_scp::schnorr::DigestToScalarField;
use simple_payments_scp::schnorr::Parameters;
use simple_payments_scp::schnorr::PublicKey;
use simple_payments_scp::schnorr::Schnorr;
use simple_payments_scp::schnorr::SecretKey;
use simple_payments_scp::schnorr::Signature;
use simple_payments_scp::schnorr::bytes_to_bits;

#[test]
fn mod_schnorr_signature_test() {
    let message = "Hi, I am a Schnorr signature!";
    let parameters = Schnorr::setup();
    let (pk, sk) = Schnorr::keygen(&parameters);
    let sig = Schnorr::sign(&parameters, &sk, &pk, &message.as_bytes().to_vec()).unwrap();
    assert!(Schnorr::verify(&parameters, &pk, &message.as_bytes().to_vec(), &sig));
    let bad_message = "Bad message";
    assert!(!Schnorr::verify(&parameters, &pk, &bad_message.as_bytes().to_vec(), &sig));
}

#[test]
fn verification_under_mismatched_key_fails() {
    let parameters = Schnorr::setup();
    let (pk, sk) = Schnorr::keygen(&parameters);
    let (other_pk, _) = Schnorr::keygen(&parameters);
    let message = b"pay the bearer".to_vec();
    let sig = Schnorr::sign(&parameters, &sk, &pk, &message).unwrap();
    assert!(Schnorr::verify(&parameters, &pk, &message, &sig));
    assert!(!Schnorr::verify(&parameters, &other_pk, &message, &sig));
}

#[test]
fn public_key_differs_from_generator() {
    let parameters = Schnorr::setup();
    let (pk, _) = Schnorr::keygen(&parameters);
    assert_ne!(pk.to_bytes(), parameters.generator_bytes());
}

#[test]
fn key_and_signature_encodings_round_trip() {
    let parameters = Schnorr::setup();
    let (pk, sk) = Schnorr::keygen(&parameters);
    let message = b"round trip".to_vec();
    let sig = Schnorr::sign(&parameters, &sk, &pk, &message).unwrap();

    let pk2 = PublicKey::from_bytes(pk.to_bytes()).unwrap();
    let sk2 = SecretKey::from_bytes(sk.to_bytes()).unwrap();
    assert_eq!(sk2.to_bytes(), sk.to_bytes());
    let sig2 = Signature::from_bytes(
        sig.response_bytes(),
        sig.challenge_bytes(),
        sig.commitment_bytes(),
    )
    .unwrap();
    let params2 = Parameters::from_generator_bytes(parameters.generator_bytes()).unwrap();
    assert!(Schnorr::verify(&params2, &pk2, &message, &sig2));
}

#[test]
fn malformed_encodings_are_rejected() {
    assert!(SecretKey::from_bytes(vec![0xffu8; 32]).is_none());
    assert!(SecretKey::from_bytes(vec![0u8; 31]).is_none());
    assert!(PublicKey::from_bytes(vec![0u8; 64]).is_none());
    assert!(PublicKey::from_bytes(vec![]).is_none());
    assert!(Signature::from_bytes(vec![0xffu8; 32], vec![0u8; 32], vec![0u8; 64]).is_none());
}

#[test]
fn digest_mapping_accepts_exactly_canonical_scalars() {
    let too_large = vec![0xffu8; 32];
    assert!(too_large.digest_to_scalar_field().is_none());

    let mut small = vec![0u8; 32];
    small[0] = 1;
    let mapped = small.digest_to_scalar_field().unwrap();
    assert_eq!(mapped, small);
}

#[test]
fn bytes_to_bits_most_significant_first() {
    let bits = bytes_to_bits(&vec![0b1000_0001u8]);
    assert_eq!(
        bits,
        vec![true, false, false, false, false, false, false, true]
    );
    let bits2 = bytes_to_bits(&vec![0x0fu8, 0xf0]);
    assert_eq!(bits2.len(), 16);
    assert_eq!(&bits2[0..8], &[false, false, false, false, true, true, true, true]);
    assert_eq!(&bits2[8..16], &[true, true, true, true, false, false, false, false]);
}

#[test]
fn tampered_signature_fails_verification() {
    let parameters = Schnorr::setup();
    let (pk, sk) = Schnorr::keygen(&parameters);
    let message = b"original".to_vec();
    let sig = Schnorr::sign(&parameters, &sk, &pk, &message).unwrap();
    let response = sig.response_bytes();
    let mut challenge = sig.challenge_bytes();
    challenge[0] ^= 1;
    if let Some(forged) = Signature::from_bytes(response, challenge, sig.commitment_bytes()) {
        assert!(!Schnorr::verify(&parameters, &pk, &message, &forged));
    }
}
