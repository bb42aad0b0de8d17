//! Field elements as plain values.

use vstd::prelude::*;

verus! {

/// The characteristic of the Pallas base field.
pub open spec fn pallas_modulus() -> nat {
    0x40000000_00000000_00000000_00000000_224698fc_094cf91b_992d30ed_00000001nat
}

/// The fifth power of `x` in the Pallas base field, as the least residue.
pub open spec fn pow5_mod(x: nat) -> nat {
    (x * x * x * x * x) % pallas_modulus()
}

/// An element of the circuit's prime field, held as the four 64-bit limbs of
/// an integer in little-endian order.
///
/// The limbs name the residue class of that integer; the proving backend
/// reduces them modulo the field's characteristic when a value is handed over.
#[derive(Clone, Copy, Debug, PartialEq, Eq)]
pub struct Felt {
    pub limbs: [u64; 4],
}

impl Felt {
    /// The integer that the limbs spell out.
    pub open spec fn value(self) -> nat {
        (self.limbs[0] as nat) + (self.limbs[1] as nat) * 0x1_0000_0000_0000_0000nat
            + (self.limbs[2] as nat) * 0x1_0000_0000_0000_0000_0000_0000_0000_0000nat
            + (self.limbs[3] as nat)
            * 0x1_0000_0000_0000_0000_0000_0000_0000_0000_0000_0000_0000_0000nat
    }

    /// The element with the given limbs.
    pub fn from_raw(limbs: [u64; 4]) -> (r: Felt)
        ensures
            r.limbs == limbs,
    {
        Felt { limbs }
    }

    /// The additive identity.
    pub fn zero() -> (r: Felt)
        ensures
            r.limbs@ == seq![0u64, 0u64, 0u64, 0u64],
            r.value() == 0,
    {
        Felt { limbs: [0u64, 0u64, 0u64, 0u64] }
    }

    /// The multiplicative identity.
    pub fn one() -> (r: Felt)
        ensures
            r.limbs@ == seq![1u64, 0u64, 0u64, 0u64],
            r.value() == 1,
    {
        Felt { limbs: [1u64, 0u64, 0u64, 0u64] }
    }
}

} // verus!
