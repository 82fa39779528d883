//! Remove whitelist: an operator takes an asset off the list.
use vstd::prelude::*;

use crate::error::CustomError;
use crate::pubkey::Pubkey;
use crate::state::config::Config;
use crate::state::whitelist_token::WhitelistToken;

verus! {

/// The accounts of taking an asset off the list.
#[derive(Clone, Debug, PartialEq, Eq)]
pub struct RemoveWhitelist {
    /// The caller, who signed and who gets what the entry reserved.
    pub operator: Pubkey,
    /// The protocol's configuration.
    pub config: Config,
    /// The whitelist entry, which the ledger destroys after the call.
    pub whitelist_token: WhitelistToken,
    /// The mint of the asset.
    pub token: Pubkey,
}

impl RemoveWhitelist {
    /// What `validate` returns: only an operator may take an asset off the
    /// list.
    pub open spec fn constraints(&self) -> Result<(), CustomError> {
        if self.config.has_operator(self.operator) {
            Ok(())
        } else {
            Err(CustomError::Unauthorized)
        }
    }

    /// Checks the accounts against each other, before anything else is
    /// looked at.
    pub fn validate(&self) -> (r: Result<(), CustomError>)
        ensures
            r == self.constraints(),
    {
        if self.config.is_operator(&self.operator) {
            Ok(())
        } else {
            Err(CustomError::Unauthorized)
        }
    }
}

/// Takes an asset off the whitelist. Only an operator may call
/// (`Unauthorized`); the entry that an operator names is removed.
pub fn handler_remove_whitelist(accounts: &RemoveWhitelist) -> (r: Result<(), CustomError>)
    ensures
        r == accounts.constraints(),
{
    accounts.validate()
}

} // verus!
