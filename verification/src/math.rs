//! Permille arithmetic: every rate is an integer out of 1000 and every
//! division truncates toward zero.

use vstd::prelude::*;
use crate::errors::CustomError;

verus! {

/// `floor(amount * rate / 1000)` over the mathematical integers.
pub open spec fn permille_of(amount: nat, rate: nat) -> nat {
    (amount * rate) / 1000
}

/// Why a share of `amount` at `rate` is not computed with a 64-bit
/// product, if it is not: the product `amount * rate` leaves 64 bits.
pub open spec fn product_refusal(amount: u64, rate: u64) -> Option<CustomError> {
    if amount * rate > u64::MAX {
        Some(CustomError::MathError)
    } else {
        None
    }
}

/// A share is no larger than the whole while the rate is at most 1000.
pub proof fn lemma_permille_bounded(amount: nat, rate: nat)
    requires
        rate <= 1000,
    ensures
        permille_of(amount, rate) <= amount,
{
    assert(amount * rate <= amount * 1000) by (nonlinear_arith)
        requires
            rate <= 1000,
    ;
}

/// The shares of one amount at two rates never sum to more than the share
/// at the sum of the rates.
pub proof fn lemma_permille_split(amount: nat, r1: nat, r2: nat)
    ensures
        permille_of(amount, r1) + permille_of(amount, r2) <= permille_of(amount, r1 + r2),
{
    let x = amount * r1;
    let y = amount * r2;
    assert(amount * (r1 + r2) == x + y) by (nonlinear_arith)
        requires
            x == amount * r1,
            y == amount * r2,
    ;
    assert(x / 1000 + y / 1000 <= (x + y) / 1000);
}

/// Share of `amount` at `rate` permille with a 128-bit product, so that the
/// multiplication itself cannot overflow; `None` when the share does not
/// fit in 64 bits.
pub fn wide_share(amount: u64, rate: u16) -> (r: Option<u64>)
    ensures
        r == (if permille_of(amount as nat, rate as nat) <= u64::MAX {
            Some(permille_of(amount as nat, rate as nat) as u64)
        } else {
            None
        }),
{
    assert(amount as nat * rate as nat <= 0xffff_ffff_ffff_ffff * 0xffff) by (nonlinear_arith)
        requires
            amount <= 0xffff_ffff_ffff_ffff,
            rate <= 0xffff,
    ;
    let wide: u128 = (amount as u128) * (rate as u128) / 1000;
    if wide <= u64::MAX as u128 {
        Some(wide as u64)
    } else {
        None
    }
}

/// Share of `amount` at `rate` permille with a 64-bit product; `None` when
/// the product `amount * rate` does not fit in 64 bits.
pub fn checked_share(amount: u64, rate: u64) -> (r: Option<u64>)
    ensures
        r == (if amount * rate <= u64::MAX {
            Some(permille_of(amount as nat, rate as nat) as u64)
        } else {
            None
        }),
{
    match amount.checked_mul(rate) {
        Some(product) => Some(product / 1000),
        None => None,
    }
}

} // verus!
