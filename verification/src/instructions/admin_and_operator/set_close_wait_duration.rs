//! Set close wait: an operator sets the waits before finished records may
//! be closed.
use vstd::prelude::*;

use crate::error::CustomError;
use crate::pubkey::Pubkey;
use crate::state::config::Config;

verus! {

/// What setting the waits is called with.
#[derive(Clone, Copy, Debug)]
pub struct SetCloseWaitDurationArgs {
    /// The wait before anyone may close a settled trade; `None` leaves it.
    pub close_trade_duration: Option<u64>,
    /// The wait before a receipt may be closed; `None` leaves it.
    pub close_payment_duration: Option<u64>,
}

/// The accounts of setting the waits.
#[derive(Clone, Debug, PartialEq, Eq)]
pub struct SetCloseWaitDuration {
    /// The caller, who signed.
    pub operator: Pubkey,
    /// The protocol's configuration.
    pub config: Config,
}

impl SetCloseWaitDuration {
    /// What `validate` returns: only an operator may set the waits.
    pub open spec fn constraints(&self) -> Result<(), CustomError> {
        if self.config.has_operator(self.operator) {
            Ok(())
        } else {
            Err(CustomError::Unauthorized)
        }
    }

    /// Checks the accounts against each other, before anything else is
    /// looked at.
    pub fn validate(&self) -> (r: Result<(), CustomError>)
        ensures
            r == self.constraints(),
    {
        if self.config.is_operator(&self.operator) {
            Ok(())
        } else {
            Err(CustomError::Unauthorized)
        }
    }
}

/// Sets each wait that is given, and leaves the other. Only an operator may
/// call (`Unauthorized`). A rejected call changes nothing.
pub fn handler_set_close_wait_duration(
    accounts: &mut SetCloseWaitDuration,
    set_close_wait_duration_args: &SetCloseWaitDurationArgs,
) -> (r: Result<(), CustomError>)
    ensures
        r == old(accounts).constraints(),
        final(accounts).config.close_trade_duration == (
        match (r, set_close_wait_duration_args.close_trade_duration) {
            (Ok(_), Some(seconds)) => seconds,
            _ => old(accounts).config.close_trade_duration,
        }),
        final(accounts).config.close_payment_duration == (
        match (r, set_close_wait_duration_args.close_payment_duration) {
            (Ok(_), Some(seconds)) => seconds,
            _ => old(accounts).config.close_payment_duration,
        }),
        final(accounts).config._reserve == old(accounts).config._reserve,
        final(accounts).config.admin == old(accounts).config.admin,
        final(accounts).config.operators == old(accounts).config.operators,
        final(accounts).operator == old(accounts).operator,
{
    accounts.validate()?;
    accounts.config.set_close_trade_duration(set_close_wait_duration_args.close_trade_duration)?;
    accounts.config.set_close_payment_duration(
        set_close_wait_duration_args.close_payment_duration,
    )?;
    Ok(())
}

} // verus!
