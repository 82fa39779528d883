//! Fee withdrawal: the protocol's fee pool pays out to a registered
//! receiver.
use vstd::prelude::*;

use crate::error::CustomError;
use crate::pubkey::{assert_keys_equal, keys_equal_or, Pubkey};
use crate::state::fee_receiver::FeeReceiver;
use crate::transfer::{token_payout, transfer_sol, transfer_spl_token, TokenAccounts, Transfer};

verus! {

/// What a fee withdrawal is called with.
#[derive(Clone, Copy, Debug)]
pub struct WithdrawTotalFeeArgs {
    /// The asset; `None` is the native currency.
    pub token: Option<Pubkey>,
    /// The amount to pay out.
    pub amount: u64,
}

/// The accounts of a fee withdrawal.
#[derive(Clone, Copy, Debug, PartialEq, Eq)]
pub struct WithdrawTotalFeeAccounts {
    /// The caller, who signed. Anyone may call.
    pub signer: Pubkey,
    /// The account to pay.
    pub to_user: Pubkey,
    /// The registry entry named for the account to pay.
    pub fee_receiver: FeeReceiver,
    /// The protocol's fee pool.
    pub protocol: Pubkey,
    /// The native currency that the fee pool holds.
    pub protocol_lamports: u64,
    /// The token accounts of a token withdrawal.
    pub remaining_accounts: Option<TokenAccounts>,
}

impl WithdrawTotalFeeAccounts {
    /// What `validate` returns: the account to pay must be the receiver of
    /// the registry entry.
    pub open spec fn constraints(&self) -> Result<(), CustomError> {
        keys_equal_or(self.to_user, self.fee_receiver.receiver, CustomError::InvalidRefundPubkey)
    }

    /// Checks the accounts against each other, before anything else is
    /// looked at.
    pub fn validate(&self) -> (r: Result<(), CustomError>)
        ensures
            r == self.constraints(),
    {
        assert_keys_equal(
            &self.to_user,
            &self.fee_receiver.receiver,
            CustomError::InvalidRefundPubkey,
        )
    }
}

/// What a withdrawal returns on accounts that were held against each
/// other: the move out of the fee pool. Of native currency the pool must
/// keep at least `minimum_rent`.
pub open spec fn withdraw_total_fee_validated(
    accounts: WithdrawTotalFeeAccounts,
    withdraw_total_fee_args: WithdrawTotalFeeArgs,
    minimum_rent: u64,
    program_id: Pubkey,
) -> Result<Transfer, CustomError> {
    match withdraw_total_fee_args.token {
        Some(token_pubkey) => match accounts.remaining_accounts {
            None => Err(CustomError::InvalidTokenAccount),
            Some(token_accounts) => match token_payout(
                token_accounts,
                token_pubkey,
                accounts.protocol,
                accounts.to_user,
                accounts.protocol,
                withdraw_total_fee_args.amount,
                None,
                program_id,
            ) {
                Ok(payout) => Ok(payout.principal),
                Err(e) => Err(e),
            },
        },
        None => if accounts.protocol_lamports - withdraw_total_fee_args.amount < minimum_rent {
            Err(CustomError::InvalidAmount)
        } else {
            Ok(
                Transfer::Sol {
                    source: accounts.protocol,
                    destination: accounts.to_user,
                    amount: withdraw_total_fee_args.amount,
                },
            )
        },
    }
}

/// What `handler_withdraw_total_fee` returns: the account to pay is held
/// against the registry entry first, and only then the move is planned.
pub open spec fn withdraw_total_fee_result(
    accounts: WithdrawTotalFeeAccounts,
    withdraw_total_fee_args: WithdrawTotalFeeArgs,
    minimum_rent: u64,
    program_id: Pubkey,
) -> Result<Transfer, CustomError> {
    match accounts.constraints() {
        Err(e) => Err(e),
        Ok(_) => withdraw_total_fee_validated(
            accounts,
            withdraw_total_fee_args,
            minimum_rent,
            program_id,
        ),
    }
}

/// Pays out of the protocol's fee pool. Anyone may call, but the account to
/// pay must be the receiver of the registry entry (`InvalidRefundPubkey`).
/// A withdrawal of native currency
/// that would leave the pool with less than `minimum_rent`, the least that
/// an account must hold to stay on the ledger, is rejected with
/// `InvalidAmount`; the token accounts of a token withdrawal must have been
/// handed in (`InvalidTokenAccount`) and be the right ones.
pub fn handler_withdraw_total_fee(
    accounts: &WithdrawTotalFeeAccounts,
    withdraw_total_fee_args: &WithdrawTotalFeeArgs,
    minimum_rent: u64,
    program_id: &Pubkey,
) -> (r: Result<Transfer, CustomError>)
    ensures
        r == withdraw_total_fee_result(
            *accounts,
            *withdraw_total_fee_args,
            minimum_rent,
            *program_id,
        ),
        r is Ok ==> r->Ok_0.amount() == withdraw_total_fee_args.amount,
{
    accounts.validate()?;
    let total_fee_amount = withdraw_total_fee_args.amount;
    match withdraw_total_fee_args.token {
        Some(token_pubkey) => {
            let token_accounts = match accounts.remaining_accounts {
                Some(token_accounts) => token_accounts,
                None => {
                    return Err(CustomError::InvalidTokenAccount);
                },
            };
            let payout = transfer_spl_token(
                &token_accounts,
                &token_pubkey,
                &accounts.protocol,
                &accounts.to_user,
                &accounts.protocol,
                total_fee_amount,
                None,
                program_id,
            )?;
            Ok(payout.principal)
        },
        None => {
            if accounts.protocol_lamports < total_fee_amount || accounts.protocol_lamports
                - total_fee_amount < minimum_rent {
                return Err(CustomError::InvalidAmount);
            }
            Ok(transfer_sol(&accounts.protocol, &accounts.to_user, total_fee_amount))
        },
    }
}

} // verus!
