//! Remove fee receiver: the admin takes an address off the registry.
use vstd::prelude::*;

use crate::error::CustomError;
use crate::pubkey::{assert_keys_equal, keys_equal_or, Pubkey};
use crate::state::config::Config;
use crate::state::fee_receiver::FeeReceiver;

verus! {

/// The accounts of taking a fee receiver off the registry.
#[derive(Clone, Debug, PartialEq, Eq)]
pub struct RemoveFeeReceiverAccounts {
    /// The caller, who signed and who gets what the entry reserved.
    pub signer: Pubkey,
    /// The protocol's configuration.
    pub config: Config,
    /// The registry entry, which the ledger destroys after the call.
    pub fee_receiver_account: FeeReceiver,
}

impl RemoveFeeReceiverAccounts {
    /// What `validate` returns: only the admin may remove a receiver.
    pub open spec fn constraints(&self) -> Result<(), CustomError> {
        keys_equal_or(self.signer, self.config.admin, CustomError::Unauthorized)
    }

    /// Checks the accounts against each other, before anything else is
    /// looked at.
    pub fn validate(&self) -> (r: Result<(), CustomError>)
        ensures
            r == self.constraints(),
    {
        assert_keys_equal(&self.signer, &self.config.admin, CustomError::Unauthorized)
    }
}

/// Takes a fee receiver off the registry. Only the admin may call
/// (`Unauthorized`); the entry that the admin names is removed.
pub fn handler_remove_fee_receiver(
    accounts: &RemoveFeeReceiverAccounts,
    _receiver_pubkey: Pubkey,
) -> (r: Result<(), CustomError>)
    ensures
        r == accounts.constraints(),
{
    accounts.validate()
}

} // verus!
