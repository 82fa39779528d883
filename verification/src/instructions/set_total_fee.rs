//! Set fee: the settlement authority names the fee of a trade.
use vstd::prelude::*;

use crate::error::CustomError;
use crate::outcome::carried_out;
use crate::pubkey::{assert_keys_equal, keys_equal_or, Pubkey};
use crate::state::vault::TradeDetail;

verus! {

/// What setting a fee is called with.
#[derive(Clone, Copy, Debug)]
pub struct SetTotalFeeArgs {
    /// The id of the trade.
    pub trade_id: [u8; 32],
    /// The fee to take from the trade's amount at settlement.
    pub amount: u64,
}

/// The accounts of setting a fee.
#[derive(Clone, Copy, Debug, PartialEq, Eq)]
pub struct SetTotalFee {
    /// The caller, who signed.
    pub signer: Pubkey,
    /// The trade's record.
    pub user_trade_detail: TradeDetail,
}

impl SetTotalFee {
    /// What `validate` returns: only the trade's settlement authority may
    /// set its fee.
    pub open spec fn constraints(&self) -> Result<(), CustomError> {
        keys_equal_or(self.signer, self.user_trade_detail.mpc_pubkey, CustomError::Unauthorized)
    }

    /// Checks the accounts against each other.
    pub fn validate(&self) -> (r: Result<(), CustomError>)
        ensures
            r == self.constraints(),
    {
        assert_keys_equal(
            &self.signer,
            &self.user_trade_detail.mpc_pubkey,
            CustomError::Unauthorized,
        )
    }
}

/// What setting a fee does on accounts that were held against each other:
/// the accounts after it, or the error. The deadline is looked at first.
pub open spec fn set_total_fee_validated(
    accounts: SetTotalFee,
    set_total_fee_args: SetTotalFeeArgs,
    current_timestamp: i64,
) -> Result<(SetTotalFee, ()), CustomError> {
    let trade = accounts.user_trade_detail;
    if current_timestamp > trade.timeout {
        Err(CustomError::TimeOut)
    } else if trade.amount < set_total_fee_args.amount {
        Err(CustomError::InvalidTotalFee)
    } else {
        Ok(
            (
                SetTotalFee {
                    user_trade_detail: TradeDetail {
                        total_fee: Some(set_total_fee_args.amount),
                        ..trade
                    },
                    ..accounts
                },
                (),
            ),
        )
    }
}

/// What `handler_set_total_fee` does: the caller is held against the trade's
/// settlement authority first, and only then the fee is set.
pub open spec fn set_total_fee_result(
    accounts: SetTotalFee,
    set_total_fee_args: SetTotalFeeArgs,
    current_timestamp: i64,
) -> Result<(SetTotalFee, ()), CustomError> {
    match accounts.constraints() {
        Err(e) => Err(e),
        Ok(_) => set_total_fee_validated(accounts, set_total_fee_args, current_timestamp),
    }
}

/// Sets the fee of a trade. Only the trade's settlement authority may call
/// (`Unauthorized`). After the deadline the call is rejected with
/// `TimeOut`, a fee above the trade's amount with `InvalidTotalFee`. A later
/// call overwrites an earlier one. A rejected call changes nothing.
pub fn handler_set_total_fee(
    accounts: &mut SetTotalFee,
    set_total_fee_args: &SetTotalFeeArgs,
    current_timestamp: i64,
) -> (r: Result<(), CustomError>)
    ensures
        carried_out(
            set_total_fee_result(*old(accounts), *set_total_fee_args, current_timestamp),
            *old(accounts),
            *final(accounts),
            r,
        ),
        r is Ok ==> final(accounts).user_trade_detail.wf(),
{
    accounts.validate()?;
    if current_timestamp > accounts.user_trade_detail.timeout {
        return Err(CustomError::TimeOut);
    }
    if accounts.user_trade_detail.amount < set_total_fee_args.amount {
        return Err(CustomError::InvalidTotalFee);
    }
    accounts.user_trade_detail.total_fee = Some(set_total_fee_args.amount);
    Ok(())
}

} // verus!
