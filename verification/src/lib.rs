//! Arithmetization core for a privacy-preserving payment ledger: native
//! (out-of-circuit) reference computation for authenticated-accumulator
//! membership, overflow-checked fixed-width arithmetic, and a Schnorr
//! signature scheme over the Jubjub curve, together with their composition
//! into one transaction-validity predicate.

pub mod hashes;
pub mod amount;
pub mod accumulator;
pub mod schnorr;
pub mod validity;
