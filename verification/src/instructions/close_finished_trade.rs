//! Close: the record and the vault of a finished trade are destroyed, and
//! what is left in them goes to the depositor.
use vstd::prelude::*;

use crate::address::{associated_token_address, get_associated_token_address_with_program_id};
use crate::error::CustomError;
use crate::pubkey::{assert_keys_equal, cmp_pubkeys, keys_equal_or, Pubkey};
use crate::state::config::Config;
use crate::state::vault::TradeDetail;
use crate::transfer::{assert_derived_key, derived_key_or};

verus! {

/// What a close is called with.
#[derive(Clone, Copy, Debug)]
pub struct CloseFinishedTradeArgs {
    /// The id of the trade.
    pub trade_id: [u8; 32],
}

/// What the close reads of a token account.
#[derive(Clone, Copy, Debug, PartialEq, Eq)]
pub struct TokenAccount {
    /// The address of the token account.
    pub key: Pubkey,
    /// The tokens that it holds.
    pub amount: u64,
}

/// The accounts of a close.
#[derive(Clone, Debug, PartialEq, Eq)]
pub struct CloseFinishedTradeAccounts {
    /// The caller, who signed.
    pub signer: Pubkey,
    /// The account named as the depositor, which gets what is left.
    pub user_account: Pubkey,
    /// The trade's record, which the close destroys.
    pub user_trade_detail: TradeDetail,
    /// The trade's vault, which the close destroys.
    pub vault: Pubkey,
    /// The protocol's configuration.
    pub config: Config,
    /// The vault's token account, where the caller handed one in.
    pub vault_token_account: Option<TokenAccount>,
    /// The depositor's token account, where the caller handed one in.
    pub user_token_account: Option<TokenAccount>,
    /// The token program.
    pub token_program: Pubkey,
}

/// A sweep of tokens that are left in a vault.
#[derive(Clone, Copy, Debug, PartialEq, Eq)]
pub struct TokenSweep {
    /// The token program that is to move the tokens.
    pub token_program: Pubkey,
    /// The vault's token account.
    pub from: Pubkey,
    /// The depositor's token account.
    pub to: Pubkey,
    /// The vault, which signs for its token account.
    pub authority: Pubkey,
    /// All that the vault's token account holds.
    pub amount: u64,
}

/// What a close asks of the ledger, in this order: sweep the tokens, close
/// the vault's token account, then destroy vault and record. What the
/// destroyed accounts reserved, and with it any native currency left in the
/// vault, goes to `recipient`.
#[derive(Clone, Copy, Debug, PartialEq, Eq)]
pub struct CloseOutcome {
    /// The sweep of the tokens left, where there are any.
    pub sweep: Option<TokenSweep>,
    /// The vault's token account to close, for a token trade.
    pub closed_token_account: Option<Pubkey>,
    /// The depositor.
    pub recipient: Pubkey,
}

impl CloseFinishedTradeAccounts {
    /// What `validate` returns: the depositor named must be the trade's
    /// own.
    pub open spec fn constraints(&self) -> Result<(), CustomError> {
        keys_equal_or(
            self.user_account,
            self.user_trade_detail.user_pubkey,
            CustomError::InvalidUserAccount,
        )
    }

    /// Checks the accounts against each other, before anything else is
    /// looked at.
    pub fn validate(&self) -> (r: Result<(), CustomError>)
        ensures
            r == self.constraints(),
    {
        assert_keys_equal(
            &self.user_account,
            &self.user_trade_detail.user_pubkey,
            CustomError::InvalidUserAccount,
        )
    }

    /// Whether the caller is the trade's settlement authority.
    pub open spec fn is_mpc(&self) -> bool {
        self.signer == self.user_trade_detail.mpc_pubkey
    }
}

/// What a close does with the token accounts of a token trade. Both must
/// have been handed in, and be the token accounts of the vault and of the
/// depositor for the trade's asset, else the close is rejected with
/// `InvalidTokenAccount`. Tokens left in the vault's account are swept.
pub open spec fn close_token_accounts(
    accounts: CloseFinishedTradeAccounts,
    token: Pubkey,
) -> Result<CloseOutcome, CustomError> {
    match (accounts.vault_token_account, accounts.user_token_account) {
        (Some(vault_token_account), Some(user_token_account)) => {
            if derived_key_or(
                vault_token_account.key,
                associated_token_address(accounts.vault, token, accounts.token_program),
                CustomError::InvalidTokenAccount,
            ) is Err {
                Err(CustomError::InvalidTokenAccount)
            } else if derived_key_or(
                user_token_account.key,
                associated_token_address(accounts.user_account, token, accounts.token_program),
                CustomError::InvalidTokenAccount,
            ) is Err {
                Err(CustomError::InvalidTokenAccount)
            } else {
                Ok(
                    CloseOutcome {
                        sweep: if vault_token_account.amount > 0 {
                            Some(
                                TokenSweep {
                                    token_program: accounts.token_program,
                                    from: vault_token_account.key,
                                    to: user_token_account.key,
                                    authority: accounts.vault,
                                    amount: vault_token_account.amount,
                                },
                            )
                        } else {
                            None
                        },
                        closed_token_account: Some(vault_token_account.key),
                        recipient: accounts.user_account,
                    },
                )
            }
        },
        _ => Err(CustomError::InvalidTokenAccount),
    }
}

/// What a close returns on accounts that were held against each other.
pub open spec fn close_finished_trade_validated(
    accounts: CloseFinishedTradeAccounts,
    current_timestamp: u64,
) -> Result<CloseOutcome, CustomError> {
    let trade = accounts.user_trade_detail;
    match trade.close_check(
        current_timestamp,
        accounts.config.close_trade_duration,
        accounts.is_mpc(),
    ) {
        Err(e) => Err(e),
        Ok(_) => match trade.token {
            Some(token) => close_token_accounts(accounts, token),
            None => Ok(
                CloseOutcome {
                    sweep: None,
                    closed_token_account: None,
                    recipient: accounts.user_account,
                },
            ),
        },
    }
}

/// What `handler_close_finished_trade` returns: the depositor named is held
/// against the trade's own first, and only then the close is looked at.
pub open spec fn close_finished_trade_result(
    accounts: CloseFinishedTradeAccounts,
    current_timestamp: u64,
) -> Result<CloseOutcome, CustomError> {
    match accounts.constraints() {
        Err(e) => Err(e),
        Ok(_) => close_finished_trade_validated(accounts, current_timestamp),
    }
}

/// Closes a finished trade. The depositor named must be the trade's own
/// (`InvalidUserAccount`). An open trade is rejected with
/// `InvalidTradeStatus`. A claimed trade may be closed by anyone at any
/// time; a settled trade by its settlement authority at any time, by anyone
/// else only once the configured wait has passed since the deadline, before
/// that the call is rejected with `CloseNotAvailable`. For a token trade
/// the token accounts are checked, and the tokens left in the vault are
/// swept to the depositor.
pub fn handler_close_finished_trade(
    accounts: &CloseFinishedTradeAccounts,
    _close_finished_trade_args: &CloseFinishedTradeArgs,
    current_timestamp: u64,
) -> (r: Result<CloseOutcome, CustomError>)
    ensures
        r == close_finished_trade_result(*accounts, current_timestamp),
        r is Ok ==> r->Ok_0.recipient == accounts.user_trade_detail.user_pubkey,
{
    accounts.validate()?;
    let trade = &accounts.user_trade_detail;
    let is_mpc = cmp_pubkeys(&accounts.signer, &trade.mpc_pubkey);
    trade.assert_close_finished_trade(
        current_timestamp,
        accounts.config.close_trade_duration,
        is_mpc,
    )?;

    match trade.token {
        Some(token) => {
            let (vault_token_account, user_token_account) = match (
                accounts.vault_token_account,
                accounts.user_token_account,
            ) {
                (Some(vault_token_account), Some(user_token_account)) => (
                    vault_token_account,
                    user_token_account,
                ),
                _ => {
                    return Err(CustomError::InvalidTokenAccount);
                },
            };
            let calculated_vault_ta = get_associated_token_address_with_program_id(
                &accounts.vault,
                &token,
                &accounts.token_program,
            );
            assert_derived_key(
                &vault_token_account.key,
                calculated_vault_ta,
                CustomError::InvalidTokenAccount,
            )?;
            let calculated_user_ta = get_associated_token_address_with_program_id(
                &accounts.user_account,
                &token,
                &accounts.token_program,
            );
            assert_derived_key(
                &user_token_account.key,
                calculated_user_ta,
                CustomError::InvalidTokenAccount,
            )?;
            let remaining_amount = vault_token_account.amount;
            let sweep = if remaining_amount > 0 {
                Some(
                    TokenSweep {
                        token_program: accounts.token_program,
                        from: vault_token_account.key,
                        to: user_token_account.key,
                        authority: accounts.vault,
                        amount: remaining_amount,
                    },
                )
            } else {
                None
            };
            Ok(
                CloseOutcome {
                    sweep,
                    closed_token_account: Some(vault_token_account.key),
                    recipient: accounts.user_account,
                },
            )
        },
        None => Ok(
            CloseOutcome { sweep: None, closed_token_account: None, recipient: accounts.user_account },
        ),
    }
}

} // verus!
