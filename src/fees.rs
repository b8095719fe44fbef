use vstd::prelude::*;
use crate::PLATFORM_FEE_BPS;

verus! {

/// The pot of a wager: both players' stakes.
pub open spec fn pot_of(amount: nat) -> nat {
    2 * amount
}

/// The platform fee on a pot, rounded down.
pub open spec fn fee_of(amount: nat) -> nat {
    pot_of(amount) * (PLATFORM_FEE_BPS as nat) / 10000
}

/// What the winner receives: the pot less the fee.
pub open spec fn payout_of(amount: nat) -> nat {
    (pot_of(amount) - fee_of(amount)) as nat
}

proof fn lemma_fee_bounded(amount: nat)
    ensures
        fee_of(amount) <= pot_of(amount),
{
    let t = pot_of(amount);
    assert(t * 500 / 10000 <= t) by (nonlinear_arith);
}

/// Splits the pot of a wager with the given stake into the winner's payout and
/// the platform fee. The pot must fit in a `u64`, as it does in an active
/// escrow account.
pub fn split_pot(amount: u64) -> (r: (u64, u64))
    requires
        2 * amount <= u64::MAX,
    ensures
        r.0 == payout_of(amount as nat),
        r.1 == fee_of(amount as nat),
        r.0 + r.1 == pot_of(amount as nat),
{
    proof {
        lemma_fee_bounded(amount as nat);
    }
    let total: u64 = amount * 2;
    let scaled: u128 = (total as u128) * (PLATFORM_FEE_BPS as u128);
    let fee: u64 = (scaled / 10000) as u64;
    let payout: u64 = total - fee;
    (payout, fee)
}

} // verus!
