// Native and in-circuit accumulator membership must agree on the same
// witnesses: the circuit below recombines a leaf digest with each sibling
// through the blake2s gadget exactly as the library's verify_path does,
// and enforces equality with the public root, so a non-member witness
// makes the constraint system unsatisfiable.

use ark_crypto_primitives::prf::blake2s::constraints::evaluate_blake2s;
use ark_ed_on_bls12_381::Fq;
use ark_r1cs_std::alloc::AllocVar;
use ark_r1cs_std::bits::boolean::Boolean;
use ark_r1cs_std::bits::uint8::UInt8;
use ark_r1cs_std::bits::ToBitsGadget;
use ark_r1cs_std::eq::EqGadget;
use ark_r1cs_std::select::CondSelectGadget;
use ark_r1cs_std::ToBytesGadget;
use ark_relations::r1cs::ConstraintSystem;
use simple_payments_scp::accumulator::MerkleTree;
use simple_payments_scp::accumulator::Sibling;
use simple_payments_scp::accumulator::verify_path;

fn blake2s_var(input: &[UInt8<Fq>]) -> Vec<UInt8<Fq>> {
    let bits = input.to_bits_le().unwrap();
    evaluate_blake2s(&bits)
        .unwrap()
        .into_iter()
        .flat_map(|word| word.to_bytes().unwrap())
        .collect()
}

fn circuit_membership(root: &[u8], leaf: &[u8], path: &[Sibling]) -> bool {
    let cs = ConstraintSystem::<Fq>::new_ref();

    let root_var = UInt8::new_input_vec(cs.clone(), root).unwrap();
    let leaf_var = UInt8::new_witness_vec(cs.clone(), leaf).unwrap();

    let mut acc = blake2s_var(&leaf_var);
    for level in path {
        let (on_left, sibling_bytes) = match level {
            Sibling::Left(d) => (true, d.clone()),
            Sibling::Right(d) => (false, d.clone()),
        };
        let side = Boolean::new_witness(cs.clone(), || Ok(on_left)).unwrap();
        let sibling = UInt8::new_witness_vec(cs.clone(), &sibling_bytes).unwrap();
        assert_eq!(sibling.len(), acc.len());

        let mut combined = Vec::with_capacity(2 * acc.len());
        for i in 0..acc.len() {
            combined.push(UInt8::conditionally_select(&side, &sibling[i], &acc[i]).unwrap());
        }
        for i in 0..acc.len() {
            combined.push(UInt8::conditionally_select(&side, &acc[i], &sibling[i]).unwrap());
        }
        acc = blake2s_var(&combined);
    }

    acc.enforce_equal(&root_var).unwrap();
    cs.is_satisfied().unwrap()
}

fn standard_tree() -> (Vec<Vec<u8>>, MerkleTree) {
    let leaves: Vec<Vec<u8>> =
        [1u8, 2, 3, 10, 9, 17, 70, 45].iter().map(|b| vec![*b; 30]).collect();
    let tree = MerkleTree::new(&leaves).unwrap();
    (leaves, tree)
}

#[test]
fn native_and_circuit_membership_agree_on_member() {
    let (leaves, tree) = standard_tree();
    let root = tree.root();
    let path = tree.generate_path(4).unwrap();

    let native = verify_path(&root, &leaves[4], &path);
    let circuit = circuit_membership(&root, &leaves[4], &path);
    assert!(native);
    assert_eq!(native, circuit);
}

#[test]
fn corrupted_sibling_makes_the_circuit_unsatisfiable() {
    let (leaves, tree) = standard_tree();
    let root = tree.root();
    let mut path = tree.generate_path(4).unwrap();
    match &mut path[1] {
        Sibling::Left(d) => d[0] ^= 1,
        Sibling::Right(d) => d[0] ^= 1,
    }

    let native = verify_path(&root, &leaves[4], &path);
    let circuit = circuit_membership(&root, &leaves[4], &path);
    assert!(!native);
    assert_eq!(native, circuit);
}
