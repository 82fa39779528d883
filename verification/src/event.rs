//! The events that the operations append to the ledger's log.
use vstd::prelude::*;

use crate::pubkey::Pubkey;

verus! {

/// A user deposited into a trade's vault.
#[derive(Clone, Copy, Debug, PartialEq, Eq)]
pub struct Deposited {
    pub trade_id: [u8; 32],
    /// The depositor.
    pub from_pubkey: Pubkey,
    /// The asset; `None` is the native currency.
    pub token: Option<Pubkey>,
    pub amount: u64,
    pub vault: Pubkey,
}

/// The settlement authority settled a trade.
#[derive(Clone, Copy, Debug, PartialEq, Eq)]
pub struct Settled {
    pub trade_id: [u8; 32],
    /// The settlement authority that signed.
    pub operator: Pubkey,
    /// The market maker that was paid.
    pub to_pubkey: Pubkey,
    /// The asset; `None` is the native currency.
    pub token: Option<Pubkey>,
    /// What the market maker got: the amount less the fee.
    pub settlement_amount: u64,
    pub total_fee: u64,
    pub vault: Pubkey,
    /// The protocol's fee pool.
    pub protocol: Pubkey,
}

/// A deposit went back to its refund address after the deadline.
#[derive(Clone, Copy, Debug, PartialEq, Eq)]
pub struct Claimed {
    pub trade_id: [u8; 32],
    /// The asset; `None` is the native currency.
    pub token: Option<Pubkey>,
    /// The refund address.
    pub to_pubkey: Pubkey,
    /// Who called for the claim.
    pub operator: Pubkey,
    pub amount: u64,
}

/// A market maker paid a user directly.
#[derive(Clone, Copy, Debug, PartialEq, Eq)]
pub struct PaymentTransferred {
    pub trade_id: [u8; 32],
    pub from_pubkey: Pubkey,
    pub to_pubkey: Pubkey,
    /// The asset; `None` is the native currency.
    pub token: Option<Pubkey>,
    /// What the user got: the amount less the fee.
    pub payment_amount: u64,
    pub total_fee: u64,
    /// The protocol's fee pool.
    pub protocol: Pubkey,
}

} // verus!
