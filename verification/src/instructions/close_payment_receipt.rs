//! Close receipt: the payer destroys the receipt of a payment.
use vstd::prelude::*;

use crate::error::CustomError;
use crate::pubkey::{assert_keys_equal, keys_equal_or, Pubkey};
use crate::state::config::Config;
use crate::state::payment_receipt::PaymentReceipt;

verus! {

/// The accounts of closing a receipt.
#[derive(Clone, Debug, PartialEq, Eq)]
pub struct ClosePaymentReceiptAccounts {
    /// The caller, who signed and who gets what the receipt reserved.
    pub signer: Pubkey,
    /// The receipt, which the close destroys.
    pub payment_receipt: PaymentReceipt,
    /// The protocol's configuration.
    pub config: Config,
}

impl ClosePaymentReceiptAccounts {
    /// What `validate` returns: only the payer may close a receipt.
    pub open spec fn constraints(&self) -> Result<(), CustomError> {
        keys_equal_or(
            self.signer,
            self.payment_receipt.from_pubkey,
            CustomError::InvalidUserAccount,
        )
    }

    /// Checks the accounts against each other, before anything else is
    /// looked at.
    pub fn validate(&self) -> (r: Result<(), CustomError>)
        ensures
            r == self.constraints(),
    {
        assert_keys_equal(
            &self.signer,
            &self.payment_receipt.from_pubkey,
            CustomError::InvalidUserAccount,
        )
    }
}

/// What `handler_close_payment_receipt` returns: the caller is held against
/// the payer first, and only then the wait is looked at.
pub open spec fn close_payment_receipt_result(
    accounts: ClosePaymentReceiptAccounts,
    current_timestamp: u64,
) -> Result<(), CustomError> {
    match accounts.constraints() {
        Err(e) => Err(e),
        Ok(_) => accounts.payment_receipt.close_check(
            current_timestamp,
            accounts.config.close_payment_duration,
        ),
    }
}

/// Closes a receipt. Only the payer may call (`InvalidUserAccount`). Until
/// more than the configured wait has passed since the payment, the call is
/// rejected with `CloseNotAvailable`.
pub fn handler_close_payment_receipt(
    accounts: &ClosePaymentReceiptAccounts,
    current_timestamp: u64,
) -> (r: Result<(), CustomError>)
    ensures
        r == close_payment_receipt_result(*accounts, current_timestamp),
{
    accounts.validate()?;
    accounts.payment_receipt.assert_close(current_timestamp, accounts.config.close_payment_duration)
}

} // verus!
