//! Overflow-checked fixed-width arithmetic over field-encoded integers.
//!
//! A transaction amount is an unsigned 64-bit integer. Inside a circuit the
//! two operands of an addition or subtraction are re-interpreted as elements
//! of the constraint field (an embedding that is injective because the field
//! modulus far exceeds 2^64), the operation is carried out at field level,
//! the result is decomposed into its little-endian byte representation, and
//! one byte of that representation is required to be zero: byte 8 (the bit
//! directly above the 64-bit range) guards an addition against overflow,
//! while byte 31 (the top byte of the 32-byte encoding) guards a subtraction
//! against underflow. The two guards sit at different bit positions on
//! purpose; the lemmas below prove that each one is exact for its operation.

use vstd::prelude::*;
use vstd::arithmetic::div_mod::lemma_basic_div;
use vstd::arithmetic::div_mod::lemma_div_is_ordered;
use vstd::arithmetic::div_mod::lemma_fundamental_div_mod_converse;
use vstd::arithmetic::div_mod::lemma_small_mod;

verus! {

/// Two to the 64th power, the weight of the second 64-bit limb of a field
/// element.
pub open spec fn limb_weight() -> nat {
    0x1_0000_0000_0000_0000
}

/// The modulus of the constraint field: the prime order of the scalar field
/// of BLS12-381, which is the base field of the Jubjub curve that every
/// gadget of this crate works over, written out in four 64-bit limbs (least
/// significant first):
/// `0x73eda753299d7d483339d80809a1d80553bda402fffe5bfeffffffff00000001`.
pub open spec fn constraint_field_modulus() -> nat {
    0xffffffff00000001
        + 0x53bda402fffe5bfe * limb_weight()
        + 0x3339d80809a1d805 * limb_weight() * limb_weight()
        + 0x73eda753299d7d48 * limb_weight() * limb_weight() * limb_weight()
}

/// Two to the 64th power: one past the largest representable amount.
pub open spec fn amount_bound() -> nat {
    0x1_0000_0000_0000_0000
}

/// Byte 8 of the little-endian byte decomposition of `n`: the byte directly
/// above a 64-bit value, whose lowest bit is the carry bit of a 64-bit
/// addition.
pub open spec fn overflow_byte(n: nat) -> nat {
    (n / 0x1_0000_0000_0000_0000) % 256
}

/// Byte 31 of the little-endian byte decomposition of `n`: the top byte of
/// the 32-byte encoding of a constraint-field element.
pub open spec fn top_byte(n: nat) -> nat {
    (n / (limb_weight() * limb_weight() * limb_weight() * 0x100_0000_0000_0000)) % 256
}

/// The field element obtained by adding the embeddings of `a` and `b`.
pub open spec fn field_sum(a: u64, b: u64) -> nat {
    ((a + b) as nat) % constraint_field_modulus()
}

/// The field element obtained by subtracting the embedding of `b` from the
/// embedding of `a`; equal to `modulus - (b - a)` whenever `b > a`.
pub open spec fn field_diff(a: u64, b: u64) -> nat {
    ((a - b) % (constraint_field_modulus() as int)) as nat
}

/// The in-circuit overflow guard of an addition: byte 8 of the field-level
/// sum must be zero.
pub open spec fn add_guard(a: u64, b: u64) -> bool {
    overflow_byte(field_sum(a, b)) == 0
}

/// The in-circuit underflow guard of a subtraction: the top byte of the
/// field-level difference must be zero.
pub open spec fn sub_guard(a: u64, b: u64) -> bool {
    top_byte(field_diff(a, b)) == 0
}

/// The addition guard is exact: byte 8 of the field-level sum is zero if and
/// only if the integer sum fits in 64 bits. The sum of two 64-bit values is
/// below the field modulus, so the field never wraps and the only possible
/// carry is the single bit at position 64.
pub proof fn lemma_add_guard_exact(a: u64, b: u64)
    ensures
        add_guard(a, b) <==> a + b < amount_bound(),
{
    let q = constraint_field_modulus() as int;
    let s = a + b;
    let d = 0x1_0000_0000_0000_0000int;
    lemma_small_mod(s as nat, q as nat);
    assert(field_sum(a, b) == s);
    if s < d {
        lemma_basic_div(s, d);
        assert(s / d == 0);
    } else {
        lemma_fundamental_div_mod_converse(s, d, 1, s - d);
        assert(s / d == 1);
    }
}

/// The subtraction guard is exact: the top byte of the field-level
/// difference is zero if and only if `a >= b`. When `a >= b` the difference
/// is below 2^64, far below bit 248; when `a < b` the difference wraps to
/// `modulus - (b - a)`, which lies strictly between 2^248 and 2^255, so its
/// top byte is a nonzero value below 128.
pub proof fn lemma_sub_guard_exact(a: u64, b: u64)
    ensures
        sub_guard(a, b) <==> a >= b,
        a >= b ==> field_diff(a, b) == a - b,
{
    let q = constraint_field_modulus() as int;
    let d = (limb_weight() * limb_weight() * limb_weight() * 0x100_0000_0000_0000) as int;
    if a >= b {
        lemma_small_mod((a - b) as nat, q as nat);
        assert(field_diff(a, b) == a - b);
        lemma_basic_div(a - b, d);
    } else {
        lemma_fundamental_div_mod_converse(a - b, q, -1, a - b + q);
        assert((a - b) % q == a - b + q);
        let w = a - b + q;
        assert(d <= w) by {
            assert(a - b >= - 0x1_0000_0000_0000_0000int + 1);
        }
        lemma_div_is_ordered(d, w, d);
        assert(1 <= w / d);
        assert(w <= 128 * d - 1);
        lemma_div_is_ordered(w, 128 * d - 1, d);
        lemma_fundamental_div_mod_converse(128 * d - 1, d, 127, d - 1);
        assert(w / d <= 127);
        lemma_small_mod((w / d) as nat, 256);
        assert(top_byte(field_diff(a, b)) == w / d);
    }
}

/// A transaction amount or account balance: an unsigned 64-bit integer.
/// Every accepted result of a checked operation lies in `[0, 2^64)`.
#[derive(Clone, Copy, Debug, PartialEq, Eq, Structural)]
pub struct Amount(pub u64);

impl Amount {
    /// Checked addition. The result is the plain 64-bit sum exactly when the
    /// in-circuit overflow guard holds of the field-level sum, which the
    /// lemma above shows is exactly when `a + b < 2^64`; otherwise the
    /// operation reports overflow by returning nothing, the native analogue
    /// of an unsatisfiable constraint system.
    pub fn checked_add(&self, other: &Amount) -> (r: Option<Amount>)
        ensures
            r is Some <==> add_guard(self.0, other.0),
            r == (if self.0 + other.0 < amount_bound() {
                Some(Amount((self.0 + other.0) as u64))
            } else {
                None::<Amount>
            }),
    {
        proof {
            lemma_add_guard_exact(self.0, other.0);
        }
        if self.0 <= u64::MAX - other.0 {
            Some(Amount(self.0 + other.0))
        } else {
            None
        }
    }

    /// Checked subtraction. The result is the plain 64-bit difference
    /// exactly when the in-circuit underflow guard holds of the field-level
    /// difference, which the lemma above shows is exactly when `a >= b`;
    /// otherwise the operation reports underflow by returning nothing.
    pub fn checked_sub(&self, other: &Amount) -> (r: Option<Amount>)
        ensures
            r is Some <==> sub_guard(self.0, other.0),
            r == (if self.0 >= other.0 {
                Some(Amount((self.0 - other.0) as u64))
            } else {
                None::<Amount>
            }),
            r matches Some(v) ==> v.0 == field_diff(self.0, other.0),
    {
        proof {
            lemma_sub_guard_exact(self.0, other.0);
        }
        if self.0 >= other.0 {
            Some(Amount(self.0 - other.0))
        } else {
            None
        }
    }

    /// The little-endian byte encoding of the amount, 8 bytes, least
    /// significant first.
    pub fn to_bytes_le(&self) -> (r: Vec<u8>)
        ensures
            r@.len() == 8,
            forall|i: int| 0 <= i < 8 ==> r@[i] == ((self.0 >> (8 * i)) & 0xff) as u8,
    {
        let mut out: Vec<u8> = Vec::new();
        let mut i: usize = 0;
        while i < 8
            invariant
                i <= 8,
                out@.len() == i,
                forall|j: int| 0 <= j < i ==> out@[j] == ((self.0 >> (8 * j)) & 0xff) as u8,
            decreases 8 - i,
        {
            let byte = ((self.0 >> ((8 * i) as u64)) & 0xff) as u8;
            out.push(byte);
            i = i + 1;
        }
        out
    }
}

} // verus!
