//! The 256-bit wei amount and its decimal rendering.
use vstd::prelude::*;
use crate::decimal::decimal_digits;
use alloy_primitives::U256;

verus! {

/// 2^64, the weight of one limb.
pub open spec fn limb_base() -> nat {
    0x1_0000_0000_0000_0000nat
}

/// 2^256, one past the largest amount.
pub open spec fn amount_bound() -> nat {
    limb_base() * limb_base() * limb_base() * limb_base()
}

/// A non-negative amount of wei below 2^256, as four little-endian 64-bit limbs.
#[derive(Clone, Copy, Debug, PartialEq, Eq)]
pub struct Amount {
    pub limbs: [u64; 4],
}

/// The number that four little-endian limbs stand for.
pub open spec fn limbs_value(l: [u64; 4]) -> nat {
    l[0] as nat + limb_base() * (l[1] as nat + limb_base() * (l[2] as nat + limb_base() * (
    l[3] as nat)))
}

impl View for Amount {
    type V = nat;

    open spec fn view(&self) -> nat {
        limbs_value(self.limbs)
    }
}

/// Every amount lies below 2^256.
pub proof fn lemma_amount_bound(l: [u64; 4])
    ensures
        limbs_value(l) < amount_bound(),
{
    let b = limb_base();
    let (a0, a1, a2, a3) = (l[0] as nat, l[1] as nat, l[2] as nat, l[3] as nat);
    assert(a0 + b * (a1 + b * (a2 + b * a3)) < b * b * b * b) by (nonlinear_arith)
        requires
            a0 < b,
            a1 < b,
            a2 < b,
            a3 < b,
    ;
}

/// Relies on the `Display` of alloy_primitives::U256 (ruint's `Uint`): the
/// number in decimal, with no sign, separator or leading zero.
#[verifier::external_body]
fn decimal_string(limbs: [u64; 4]) -> (r: String)
    ensures
        r@ == decimal_digits(limbs_value(limbs)),
{
    U256::from_limbs(limbs).to_string()
}

impl Amount {
    /// The canonical form: the amount in wei, in decimal, with no unit.
    pub fn to_decimal_string(&self) -> (r: String)
        ensures
            r@ == decimal_digits(self@),
    {
        decimal_string(self.limbs)
    }

    /// The amount that `n` wei make.
    pub fn from_u64(n: u64) -> (r: Amount)
        ensures
            r@ == n as nat,
    {
        Amount { limbs: [n, 0, 0, 0] }
    }

    /// The amount that `n` wei make.
    pub fn from_u128(n: u128) -> (r: Amount)
        ensures
            r@ == n as nat,
    {
        let lo = (n % 0x1_0000_0000_0000_0000u128) as u64;
        let hi = (n / 0x1_0000_0000_0000_0000u128) as u64;
        Amount { limbs: [lo, hi, 0, 0] }
    }
}

} // verus!
