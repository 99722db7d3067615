//! Constant-product pricing of one swap, zero fee.
//!
//! The balances handed to these functions are the ones the ledgers report
//! after the inbound deposit settled: the balance of the received asset
//! already includes the deposit. Pricing first recovers the pre-deposit
//! balance, takes the product of that pre-deposit balance and the other
//! asset's balance as the invariant target, and pays out whatever of the
//! other asset exceeds the target divided by the pre-deposit balance. All
//! arithmetic is unsigned 128-bit and never wraps: underflow, overflow, a
//! zero divisor and a zero balance of the asset to pay out each abort with
//! [`PoolError::Arithmetic`].

use crate::errors::PoolError;
use vstd::arithmetic::div_mod::lemma_div_multiples_vanish;
use vstd::prelude::*;

verus! {

/// The pool's balance of the received asset before the deposit settled.
pub open spec fn pre_deposit_balance(balance_received: int, amount_received: int) -> int {
    balance_received - amount_received
}

/// The invariant target: the product of both balances with the deposit
/// itself left out.
pub open spec fn invariant_target(
    balance_received: int,
    balance_other: int,
    amount_received: int,
) -> int {
    pre_deposit_balance(balance_received, amount_received) * balance_other
}

/// Whether the pricing arithmetic is defined on these values: the deposit
/// does not exceed the queried balance, the pre-deposit balance (the
/// divisor) is positive, the pool holds some of the asset to pay out, and
/// the invariant target fits in 128 bits. A pool that holds nothing of
/// either asset has no price, so a zero balance on either side is refused
/// rather than priced as a zero payout.
pub open spec fn pricing_defined(
    balance_received: int,
    balance_other: int,
    amount_received: int,
) -> bool {
    &&& amount_received <= balance_received
    &&& pre_deposit_balance(balance_received, amount_received) > 0
    &&& balance_other > 0
    &&& invariant_target(balance_received, balance_other, amount_received) <= u128::MAX
}

/// The amount of the other asset the swap pays out: what the other asset's
/// balance exceeds the invariant target divided by the pre-deposit balance.
pub open spec fn swap_output(
    balance_received: int,
    balance_other: int,
    amount_received: int,
) -> int {
    balance_other - invariant_target(balance_received, balance_other, amount_received)
        / pre_deposit_balance(balance_received, amount_received)
}

/// Prices one swap. `balance_received` is the queried (post-deposit)
/// balance of the asset that came in, `balance_other` the queried balance
/// of the asset to pay out, `amount_received` the deposit. Returns the
/// amount of the other asset to send, or [`PoolError::Arithmetic`] exactly
/// when the arithmetic is undefined on these values.
pub fn compute_swap_output(
    balance_received: u128,
    balance_other: u128,
    amount_received: u128,
) -> (r: Result<u128, PoolError>)
    ensures
        r is Ok <==> pricing_defined(
            balance_received as int,
            balance_other as int,
            amount_received as int,
        ),
        r is Ok ==> r->Ok_0 == swap_output(
            balance_received as int,
            balance_other as int,
            amount_received as int,
        ),
        r is Err ==> r->Err_0 == PoolError::Arithmetic,
{
    let pre_balance = match balance_received.checked_sub(amount_received) {
        Some(p) => p,
        None => {
            return Err(PoolError::Arithmetic);
        },
    };
    if pre_balance == 0 {
        return Err(PoolError::Arithmetic);
    }
    if balance_other == 0 {
        return Err(PoolError::Arithmetic);
    }
    let target = match pre_balance.checked_mul(balance_other) {
        Some(t) => t,
        None => {
            return Err(PoolError::Arithmetic);
        },
    };
    let quotient = target / pre_balance;
    proof {
        lemma_div_multiples_vanish(balance_other as int, pre_balance as int);
    }
    Ok(balance_other - quotient)
}

/// The zero-balance guard: a zero balance on either side leaves the
/// pricing undefined, so the swap aborts with the arithmetic error — never
/// a division by zero, and never a silent zero payout. That holds both
/// when the deposit is the whole queried balance (a zero pre-deposit
/// balance of the received asset) and when the pool holds none of the
/// asset it would pay out.
pub proof fn lemma_zero_balance_guard(
    balance_received: int,
    balance_other: int,
    amount_received: int,
)
    requires
        amount_received == balance_received || balance_other == 0,
    ensures
        !pricing_defined(balance_received, balance_other, amount_received),
{
}

/// The constant-product law: the queried balance of the received asset
/// times what remains of the other asset equals the invariant target. With
/// the pre-deposit balance as the divisor the quotient is exact, so the
/// law holds precisely on a zero deposit.
pub proof fn lemma_constant_product(
    balance_received: int,
    balance_other: int,
    amount_received: int,
)
    requires
        pricing_defined(balance_received, balance_other, amount_received),
        amount_received == 0,
    ensures
        balance_received * (balance_other - swap_output(
            balance_received,
            balance_other,
            amount_received,
        )) == invariant_target(balance_received, balance_other, amount_received),
{
    let pre_balance = pre_deposit_balance(balance_received, amount_received);
    lemma_div_multiples_vanish(balance_other, pre_balance);
    assert(swap_output(balance_received, balance_other, amount_received) == 0);
    assert(balance_received == pre_balance);
}

} // verus!
