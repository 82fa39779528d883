//! Add fee receiver: the admin registers an address that may receive fees.
use vstd::prelude::*;

use crate::error::CustomError;
use crate::pubkey::{assert_keys_equal, keys_equal_or, Pubkey};
use crate::state::config::Config;
use crate::state::fee_receiver::FeeReceiver;

verus! {

/// The accounts of registering a fee receiver.
#[derive(Clone, Debug, PartialEq, Eq)]
pub struct AddFeeReceiverAccounts {
    /// The caller, who signed.
    pub signer: Pubkey,
    /// The protocol's configuration.
    pub config: Config,
    /// The new registry entry, which the call fills.
    pub fee_receiver: FeeReceiver,
}

impl AddFeeReceiverAccounts {
    /// What `validate` returns: only the admin may register a receiver.
    pub open spec fn constraints(&self) -> Result<(), CustomError> {
        keys_equal_or(self.signer, self.config.admin, CustomError::Unauthorized)
    }

    /// Checks the accounts against each other, before anything else is
    /// looked at.
    pub fn validate(&self) -> (r: Result<(), CustomError>)
        ensures
            r == self.constraints(),
    {
        assert_keys_equal(&self.signer, &self.config.admin, CustomError::Unauthorized)
    }
}

/// Registers a fee receiver: writes the receiver into the registry entry.
/// Only the admin may call (`Unauthorized`). A rejected call changes
/// nothing.
pub fn handler_add_fee_receiver(accounts: &mut AddFeeReceiverAccounts, receiver_pubkey: Pubkey) -> (r:
    Result<(), CustomError>)
    ensures
        r == old(accounts).constraints(),
        r is Ok ==> final(accounts).fee_receiver == (FeeReceiver {
            receiver: receiver_pubkey,
            _reserve: old(accounts).fee_receiver._reserve,
        }),
        r is Err ==> final(accounts).fee_receiver == old(accounts).fee_receiver,
        final(accounts).signer == old(accounts).signer,
        final(accounts).config == old(accounts).config,
{
    accounts.validate()?;
    accounts.fee_receiver.receiver = receiver_pubkey;
    Ok(())
}

} // verus!
