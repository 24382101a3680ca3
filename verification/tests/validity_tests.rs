use simple_payments_scp::accumulator::MerkleTree;
use simple_payments_scp::amount::Amount;
use simple_payments_scp::schnorr::Schnorr;
use simple_payments_scp::validity::ValidityCircuit;

fn build_instance() -> (ValidityCircuit, simple_payments_scp::schnorr::Parameters) {
    let leaves: Vec<Vec<u8>> =
        [1u8, 2, 3, 10, 9, 17, 70, 45].iter().map(|b| vec![*b; 30]).collect();
    let tree = MerkleTree::new(&leaves).unwrap();
    let root = tree.root();
    let path = tree.generate_path(4).unwrap();

    let parameters = Schnorr::setup();
    let (pk, sk) = Schnorr::keygen(&parameters);
    let message = b"debit 3, credit 5".to_vec();
    let signature = Schnorr::sign(&parameters, &sk, &pk, &message).unwrap();

    let circuit = ValidityCircuit {
        root,
        leaf: leaves[4].clone(),
        authentication_path: path,
        public_key: pk,
        message,
        signature,
        balance: Amount(100),
        credit: Amount(5),
        debit: Amount(3),
    };
    (circuit, parameters)
}

#[test]
fn complete_instance_is_satisfiable() {
    let (circuit, parameters) = build_instance();
    assert!(circuit.is_satisfiable(&parameters));
}

#[test]
fn foreign_root_makes_the_instance_unsatisfiable() {
    let (mut circuit, parameters) = build_instance();
    circuit.root[0] ^= 1;
    assert!(!circuit.is_satisfiable(&parameters));
}

#[test]
fn altered_message_makes_the_instance_unsatisfiable() {
    let (mut circuit, parameters) = build_instance();
    circuit.message = b"debit 300, credit 5".to_vec();
    assert!(!circuit.is_satisfiable(&parameters));
}

#[test]
fn overflowing_credit_makes_the_instance_unsatisfiable() {
    let (mut circuit, parameters) = build_instance();
    circuit.balance = Amount(u64::MAX);
    circuit.credit = Amount(1);
    assert!(!circuit.is_satisfiable(&parameters));
}

#[test]
fn excessive_debit_makes_the_instance_unsatisfiable() {
    let (mut circuit, parameters) = build_instance();
    circuit.debit = Amount(1000);
    assert!(!circuit.is_satisfiable(&parameters));
}
