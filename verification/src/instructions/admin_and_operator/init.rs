//! Init: the program's upgrade authority sets up the protocol.
use vstd::prelude::*;

use crate::error::CustomError;
use crate::pubkey::{assert_keys_equal, Pubkey};
use crate::state::config::Config;

verus! {

/// What init is called with.
#[derive(Clone, Copy, Debug)]
pub struct InitArgs {
    /// The admin to set; `None` leaves the admin as it is.
    pub admin: Option<Pubkey>,
}

/// The accounts of init.
#[derive(Clone, Debug, PartialEq, Eq)]
pub struct Init {
    /// The caller, who signed.
    pub signer: Pubkey,
    /// The protocol's configuration.
    pub config: Config,
    /// The address at which the program says its data lies, where it says
    /// so.
    pub programdata_address: Option<Pubkey>,
    /// The address of the program-data account handed in.
    pub program_data: Pubkey,
    /// The upgrade authority that the program-data account names, where it
    /// names one.
    pub upgrade_authority_address: Option<Pubkey>,
}

impl Init {
    /// What `validate` returns: the program-data account must be the
    /// program's own, and the caller must be the upgrade authority that it
    /// names.
    pub open spec fn constraints(&self) -> Result<(), CustomError> {
        if self.programdata_address != Some(self.program_data) {
            Err(CustomError::Unauthorized)
        } else if self.upgrade_authority_address != Some(self.signer) {
            Err(CustomError::Unauthorized)
        } else {
            Ok(())
        }
    }

    /// Checks the accounts against each other, before anything else is
    /// looked at.
    pub fn validate(&self) -> (r: Result<(), CustomError>)
        ensures
            r == self.constraints(),
    {
        match self.programdata_address {
            Some(address) => assert_keys_equal(
                &address,
                &self.program_data,
                CustomError::Unauthorized,
            )?,
            None => {
                return Err(CustomError::Unauthorized);
            },
        }
        match self.upgrade_authority_address {
            Some(authority) => assert_keys_equal(
                &authority,
                &self.signer,
                CustomError::Unauthorized,
            ),
            None => Err(CustomError::Unauthorized),
        }
    }
}

/// Sets up the protocol: sets the admin where one is given, and leaves
/// everything else. Only the program's upgrade authority may call; anyone
/// else is rejected with `Unauthorized`, and nothing changes.
pub fn handler_init(accounts: &mut Init, init_args: &InitArgs) -> (r: Result<(), CustomError>)
    ensures
        r == old(accounts).constraints(),
        r is Err ==> *final(accounts) == *old(accounts),
        r is Ok ==> final(accounts).config.admin == (match init_args.admin {
            Some(admin) => admin,
            None => old(accounts).config.admin,
        }),
        final(accounts).config._reserve == old(accounts).config._reserve,
        final(accounts).config.close_trade_duration == old(accounts).config.close_trade_duration,
        final(accounts).config.close_payment_duration
            == old(accounts).config.close_payment_duration,
        final(accounts).config.operators == old(accounts).config.operators,
        final(accounts).signer == old(accounts).signer,
        final(accounts).programdata_address == old(accounts).programdata_address,
        final(accounts).program_data == old(accounts).program_data,
        final(accounts).upgrade_authority_address == old(accounts).upgrade_authority_address,
{
    accounts.validate()?;
    if let Some(admin) = init_args.admin {
        accounts.config.admin = admin;
    }
    Ok(())
}

} // verus!
