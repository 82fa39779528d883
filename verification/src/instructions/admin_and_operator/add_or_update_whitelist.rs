//! Add or update whitelist: an operator lists an asset with its minimum.
use vstd::prelude::*;

use crate::error::CustomError;
use crate::pubkey::Pubkey;
use crate::state::config::Config;
use crate::state::whitelist_token::WhitelistToken;

verus! {

/// The accounts of listing an asset.
#[derive(Clone, Debug, PartialEq, Eq)]
pub struct AddOrUpdateWhitelist {
    /// The caller, who signed.
    pub operator: Pubkey,
    /// The protocol's configuration.
    pub config: Config,
    /// The whitelist entry of the asset, new or to be updated.
    pub whitelist_token: WhitelistToken,
    /// The mint of the asset.
    pub token: Pubkey,
}

impl AddOrUpdateWhitelist {
    /// What `validate` returns: only an operator may list an asset.
    pub open spec fn constraints(&self) -> Result<(), CustomError> {
        if self.config.has_operator(self.operator) {
            Ok(())
        } else {
            Err(CustomError::Unauthorized)
        }
    }

    /// Checks the accounts against each other, before anything else is
    /// looked at.
    pub fn validate(&self) -> (r: Result<(), CustomError>)
        ensures
            r == self.constraints(),
    {
        if self.config.is_operator(&self.operator) {
            Ok(())
        } else {
            Err(CustomError::Unauthorized)
        }
    }
}

/// Lists an asset: writes the asset and its minimum `amount` into the
/// whitelist entry. Only an operator may call (`Unauthorized`). A rejected
/// call changes nothing.
pub fn handler_add_or_update_whitelist(accounts: &mut AddOrUpdateWhitelist, amount: u64) -> (r:
    Result<(), CustomError>)
    ensures
        r == old(accounts).constraints(),
        r is Ok ==> final(accounts).whitelist_token == (WhitelistToken {
            token: old(accounts).token,
            amount,
            _reserve: old(accounts).whitelist_token._reserve,
        }),
        r is Err ==> final(accounts).whitelist_token == old(accounts).whitelist_token,
        final(accounts).operator == old(accounts).operator,
        final(accounts).config == old(accounts).config,
        final(accounts).token == old(accounts).token,
{
    accounts.validate()?;
    let token = accounts.token;
    accounts.whitelist_token.initialize(token, amount)
}

} // verus!
