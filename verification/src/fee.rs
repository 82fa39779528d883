//! The split of an amount into what the payee gets and what the protocol
//! keeps.
use vstd::prelude::*;

verus! {

/// The fee that is taken: the fee that was set, else nothing.
pub open spec fn fee_or_zero(total_fee: Option<u64>) -> u64 {
    match total_fee {
        Some(fee) => fee,
        None => 0,
    }
}

/// Splits `amount` into the part for the payee and the fee. Nothing is lost
/// and nothing is made: the two parts add up to the amount.
pub fn split_fee(amount: u64, total_fee: Option<u64>) -> (parts: (u64, u64))
    requires
        fee_or_zero(total_fee) <= amount,
    ensures
        parts.1 == fee_or_zero(total_fee),
        parts.0 == amount - fee_or_zero(total_fee),
        parts.0 + parts.1 == amount,
{
    let fee = match total_fee {
        Some(fee) => fee,
        None => 0,
    };
    (amount - fee, fee)
}

} // verus!
