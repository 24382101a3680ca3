//! The transaction-validity predicate: the composition of accumulator
//! membership, signature verification and checked balance arithmetic into
//! one instance per transaction.
//!
//! The in-circuit form of this predicate asserts every component outcome
//! true, so a transaction that fails any component makes the constraint
//! system unsatisfiable rather than returning an inspectable flag; this
//! native form computes the same conjunction over the same witnesses and
//! is what a prover checks before spending proving time.

use vstd::prelude::*;
use crate::accumulator::AuthenticationPath;
use crate::accumulator::path_root;
use crate::accumulator::verify_path;
use crate::amount::Amount;
use crate::amount::add_guard;
use crate::amount::sub_guard;
use crate::hashes::leaf_hash_of;
use crate::schnorr::Parameters;
use crate::schnorr::PublicKey;
use crate::schnorr::Schnorr;
use crate::schnorr::Signature;
use crate::schnorr::schnorr_verify_spec;

verus! {

/// One transaction-validity instance. The root is the public input;
/// everything else is a private witness. The shape of the instance does
/// not depend on the witness values, only on the deployment's static
/// parameters, so one proving key covers every transaction.
pub struct ValidityCircuit {
    /// Public input: the accumulator root of the ledger snapshot.
    pub root: Vec<u8>,
    /// Private witness: the account leaf record claimed to be a member.
    pub leaf: Vec<u8>,
    /// Private witness: the authentication path of the leaf.
    pub authentication_path: AuthenticationPath,
    /// Private witness: the account holder's public key.
    pub public_key: PublicKey,
    /// The signed transaction content.
    pub message: Vec<u8>,
    /// Private witness: the signature authorizing the operation.
    pub signature: Signature,
    /// Private witness: the account balance before the operation.
    pub balance: Amount,
    /// Private witness: the amount credited to the account.
    pub credit: Amount,
    /// Private witness: the amount debited from the account.
    pub debit: Amount,
}

impl ValidityCircuit {
    /// Whether the instance is satisfiable: the leaf recombines to the
    /// root, the signature verifies under the account's key, crediting the
    /// balance passes the overflow guard, and debiting the credited
    /// balance passes the underflow guard. The debit applies to the
    /// wrapped output wire of the addition, which equals the true sum
    /// whenever the overflow guard holds.
    pub open spec fn satisfiable_spec(self, generator: Seq<u8>) -> bool {
        &&& path_root(leaf_hash_of(self.leaf@), self.authentication_path@) == self.root@
        &&& schnorr_verify_spec(
            generator,
            self.public_key.spec_bytes(),
            self.message@,
            self.signature.spec_response(),
            self.signature.spec_challenge(),
        )
        &&& add_guard(self.balance.0, self.credit.0)
        &&& sub_guard((self.balance.0 + self.credit.0) as u64, self.debit.0)
    }

    /// Evaluate the predicate over the witnesses, exactly as the circuit
    /// enforces it.
    pub fn is_satisfiable(&self, parameters: &Parameters) -> (r: bool)
        ensures
            r == self.satisfiable_spec(parameters.spec_generator()),
    {
        let member = verify_path(&self.root, &self.leaf, &self.authentication_path);
        if !member {
            return false;
        }
        let authorized = Schnorr::verify(parameters, &self.public_key, &self.message, &self.signature);
        if !authorized {
            return false;
        }
        match self.balance.checked_add(&self.credit) {
            Some(updated) => {
                match updated.checked_sub(&self.debit) {
                    Some(_) => true,
                    None => false,
                }
            },
            None => false,
        }
    }
}

} // verus!
