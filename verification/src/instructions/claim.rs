//! Claim: after the deadline, a trade's funds go back to its refund
//! address.
use vstd::prelude::*;

use crate::error::CustomError;
use crate::event::Claimed;
use crate::outcome::carried_out;
use crate::pubkey::{assert_keys_equal, Pubkey};
use crate::state::nonce_check_account::NonceCheckAccount;
use crate::state::vault::{TradeDetail, TradeStatus};
use crate::transfer::{token_payout, transfer_sol, transfer_spl_token, TokenAccounts, Transfer};

verus! {

/// What a claim is called with.
#[derive(Clone, Copy, Debug)]
pub struct ClaimArgs {
    /// The id of the trade.
    pub trade_id: [u8; 32],
}

/// The accounts of a claim, as the ledger holds them before it.
#[derive(Clone, Copy, Debug, PartialEq, Eq)]
pub struct Claim {
    /// The caller, who signed. Anyone may call.
    pub signer: Pubkey,
    /// The account named as the depositor, which gets back what the guard
    /// reserved.
    pub user_account: Pubkey,
    /// The guard of the trade's one-time key. The claim destroys it.
    pub nonce_check_account: Option<NonceCheckAccount>,
    /// The trade's record.
    pub user_trade_detail: TradeDetail,
    /// The trade's vault.
    pub vault: Pubkey,
    /// The account named as the refund address.
    pub refund_account: Pubkey,
    /// The token accounts of a token claim.
    pub remaining_accounts: Option<TokenAccounts>,
}

/// What a claim asks of the ledger.
#[derive(Clone, Copy, Debug, PartialEq, Eq)]
pub struct ClaimOutcome {
    /// The move of the whole amount out of the vault.
    pub transfer: Transfer,
    /// The event to log.
    pub event: Claimed,
}

impl Claim {
    /// What `validate` returns: the depositor and the refund address named
    /// must be the trade's own.
    pub open spec fn constraints(&self) -> Result<(), CustomError> {
        let trade = self.user_trade_detail;
        if self.user_account != trade.user_pubkey {
            Err(CustomError::InvalidUserAccount)
        } else if self.refund_account != trade.refund_pubkey {
            Err(CustomError::InvalidRefundPubkey)
        } else {
            Ok(())
        }
    }

    /// Checks the accounts against each other, before anything else is
    /// looked at.
    pub fn validate(&self) -> (r: Result<(), CustomError>)
        ensures
            r == self.constraints(),
    {
        let trade = &self.user_trade_detail;
        assert_keys_equal(&self.user_account, &trade.user_pubkey, CustomError::InvalidUserAccount)?;
        assert_keys_equal(
            &self.refund_account,
            &trade.refund_pubkey,
            CustomError::InvalidRefundPubkey,
        )
    }
}

/// The move of a claim: the trade's whole amount, from the vault to the
/// refund address that the record holds.
pub open spec fn claim_transfer(accounts: Claim, program_id: Pubkey) -> Result<
    Transfer,
    CustomError,
> {
    let trade = accounts.user_trade_detail;
    match trade.token {
        Some(token_pubkey) => match accounts.remaining_accounts {
            None => Err(CustomError::InvalidTokenAccount),
            Some(token_accounts) => match token_payout(
                token_accounts,
                token_pubkey,
                accounts.vault,
                trade.refund_pubkey,
                accounts.vault,
                trade.amount,
                None,
                program_id,
            ) {
                Ok(payout) => Ok(payout.principal),
                Err(e) => Err(e),
            },
        },
        None => Ok(
            Transfer::Sol {
                source: accounts.vault,
                destination: accounts.refund_account,
                amount: trade.amount,
            },
        ),
    }
}

/// The accounts after a claim: the trade is claimed and the guard of its
/// one-time key is gone.
pub open spec fn claim_accounts_after(accounts: Claim) -> Claim {
    Claim {
        user_trade_detail: TradeDetail {
            status: TradeStatus::Claimed,
            ..accounts.user_trade_detail
        },
        nonce_check_account: None,
        ..accounts
    }
}

/// What a claim does on accounts that were held against each other: on
/// success the accounts after it and what it asks of the ledger, otherwise
/// the error.
pub open spec fn claim_validated(
    accounts: Claim,
    claim_args: ClaimArgs,
    current_timestamp: i64,
    program_id: Pubkey,
) -> Result<(Claim, ClaimOutcome), CustomError> {
    let trade = accounts.user_trade_detail;
    match trade.claim_check(current_timestamp) {
        Err(e) => Err(e),
        Ok(_) => match claim_transfer(accounts, program_id) {
            Err(e) => Err(e),
            Ok(transfer) => Ok(
                (
                    claim_accounts_after(accounts),
                    ClaimOutcome {
                        transfer,
                        event: Claimed {
                            trade_id: claim_args.trade_id,
                            token: trade.token,
                            to_pubkey: trade.refund_pubkey,
                            operator: accounts.signer,
                            amount: trade.amount,
                        },
                    },
                ),
            ),
        },
    }
}

/// What `handler_claim` does: the accounts are held against each other
/// first, and only then the trade is claimed.
pub open spec fn claim_result(
    accounts: Claim,
    claim_args: ClaimArgs,
    current_timestamp: i64,
    program_id: Pubkey,
) -> Result<(Claim, ClaimOutcome), CustomError> {
    match accounts.constraints() {
        Err(e) => Err(e),
        Ok(_) => claim_validated(accounts, claim_args, current_timestamp, program_id),
    }
}

/// Claims a trade back. Anyone may call, but the depositor and the refund
/// address named must be the trade's own (`InvalidUserAccount`,
/// `InvalidRefundPubkey`). Up to the deadline the call is rejected with
/// `ClaimNotAvailable`, on a trade that is not open with
/// `InvalidTradeStatus`; the token accounts of a token claim must have been
/// handed in and be readable (`InvalidTokenAccount`) and be the right ones.
/// Then the trade is marked claimed, the guard of its one-time key is
/// destroyed, and the move of the whole amount to the refund address and
/// the event are handed back. A rejected call changes nothing.
pub fn handler_claim(
    accounts: &mut Claim,
    claim_args: &ClaimArgs,
    current_timestamp: i64,
    program_id: &Pubkey,
) -> (r: Result<ClaimOutcome, CustomError>)
    ensures
        carried_out(
            claim_result(*old(accounts), *claim_args, current_timestamp, *program_id),
            *old(accounts),
            *final(accounts),
            r,
        ),
        r is Ok ==> r->Ok_0.transfer.amount() == old(accounts).user_trade_detail.amount,
        old(accounts).user_trade_detail.wf() ==> final(accounts).user_trade_detail.wf(),
{
    accounts.validate()?;
    accounts.user_trade_detail.assert_claim(current_timestamp)?;

    let transfer = match accounts.user_trade_detail.token {
        Some(token_pubkey) => {
            let token_accounts = match accounts.remaining_accounts {
                Some(token_accounts) => token_accounts,
                None => {
                    return Err(CustomError::InvalidTokenAccount);
                },
            };
            transfer_spl_token(
                &token_accounts,
                &token_pubkey,
                &accounts.vault,
                &accounts.user_trade_detail.refund_pubkey,
                &accounts.vault,
                accounts.user_trade_detail.amount,
                None,
                program_id,
            )?.principal
        },
        None => transfer_sol(
            &accounts.vault,
            &accounts.refund_account,
            accounts.user_trade_detail.amount,
        ),
    };
    accounts.user_trade_detail.status = TradeStatus::Claimed;
    accounts.nonce_check_account = None;
    Ok(
        ClaimOutcome {
            transfer,
            event: Claimed {
                trade_id: claim_args.trade_id,
                token: accounts.user_trade_detail.token,
                to_pubkey: accounts.user_trade_detail.refund_pubkey,
                operator: accounts.signer,
                amount: accounts.user_trade_detail.amount,
            },
        },
    )
}

} // verus!
