//! Settlement: the settlement authority releases a trade's funds to the
//! market maker, less the fee.
use vstd::prelude::*;

use crate::error::CustomError;
use crate::event::Settled;
use crate::fee::split_fee;
use crate::outcome::carried_out;
use crate::pubkey::{assert_keys_equal, Pubkey};
use crate::state::nonce_check_account::NonceCheckAccount;
use crate::state::vault::{TradeDetail, TradeStatus};
use crate::transfer::{
    native_payout, sol_payout, token_payout, transfer_spl_token, Payout, TokenAccounts,
};

verus! {

/// What a settlement is called with.
#[derive(Clone, Copy, Debug)]
pub struct SettlementArgs {
    /// The id of the trade.
    pub trade_id: [u8; 32],
}

/// The accounts of a settlement, as the ledger holds them before it.
#[derive(Clone, Copy, Debug, PartialEq, Eq)]
pub struct SettlementAccounts {
    /// The caller, who signed.
    pub signer: Pubkey,
    /// The account named as the depositor, which gets back what the guard
    /// reserved.
    pub user_account: Pubkey,
    /// The one-time key, which signed too.
    pub user_ephemeral_account: Pubkey,
    /// The trade's record.
    pub user_trade_detail: TradeDetail,
    /// The guard of the one-time key. The settlement destroys it.
    pub nonce_check_account: Option<NonceCheckAccount>,
    /// The trade's vault.
    pub vault: Pubkey,
    /// The account named as the refund address.
    pub refund_account: Pubkey,
    /// The protocol's fee pool.
    pub protocol: Pubkey,
    /// The market maker to pay.
    pub pmm: Pubkey,
    /// The token accounts of a token settlement.
    pub remaining_accounts: Option<TokenAccounts>,
}

/// What a settlement asks of the ledger.
#[derive(Clone, Copy, Debug, PartialEq, Eq)]
pub struct SettlementOutcome {
    /// The moves out of the vault.
    pub payout: Payout,
    /// The event to log.
    pub event: Settled,
}

impl SettlementAccounts {
    /// What `validate` returns. Two keys must have signed, the trade's
    /// settlement authority and its one-time key (`Unauthorized`); the
    /// depositor and the refund address named must be the trade's own
    /// (`InvalidUserAccount`, `InvalidRefundPubkey`). The checks come in the
    /// order: authority, depositor, one-time key, refund address.
    pub open spec fn constraints(&self) -> Result<(), CustomError> {
        let trade = self.user_trade_detail;
        if self.signer != trade.mpc_pubkey {
            Err(CustomError::Unauthorized)
        } else if self.user_account != trade.user_pubkey {
            Err(CustomError::InvalidUserAccount)
        } else if self.user_ephemeral_account != trade.user_ephemeral_pubkey {
            Err(CustomError::Unauthorized)
        } else if self.refund_account != trade.refund_pubkey {
            Err(CustomError::InvalidRefundPubkey)
        } else {
            Ok(())
        }
    }

    /// Checks the accounts against each other, before anything else is
    /// looked at.
    pub fn validate(&self) -> (r: Result<(), CustomError>)
        ensures
            r == self.constraints(),
    {
        let trade = &self.user_trade_detail;
        assert_keys_equal(&self.signer, &trade.mpc_pubkey, CustomError::Unauthorized)?;
        assert_keys_equal(&self.user_account, &trade.user_pubkey, CustomError::InvalidUserAccount)?;
        assert_keys_equal(
            &self.user_ephemeral_account,
            &trade.user_ephemeral_pubkey,
            CustomError::Unauthorized,
        )?;
        assert_keys_equal(
            &self.refund_account,
            &trade.refund_pubkey,
            CustomError::InvalidRefundPubkey,
        )
    }
}

/// The moves of a settlement out of the vault: the amount less the fee to
/// the market maker, the fee to the protocol. A fee of zero is not moved.
pub open spec fn settlement_payout(accounts: SettlementAccounts, program_id: Pubkey) -> Result<
    Payout,
    CustomError,
> {
    let trade = accounts.user_trade_detail;
    let settlement_amount = (trade.amount - trade.fee()) as u64;
    match trade.token {
        Some(token_pubkey) => match accounts.remaining_accounts {
            None => Err(CustomError::InvalidTokenAccount),
            Some(token_accounts) => token_payout(
                token_accounts,
                token_pubkey,
                accounts.vault,
                accounts.pmm,
                accounts.vault,
                settlement_amount,
                trade.total_fee,
                program_id,
            ),
        },
        None => Ok(
            native_payout(
                accounts.vault,
                accounts.pmm,
                accounts.protocol,
                settlement_amount,
                trade.fee(),
            ),
        ),
    }
}

/// The accounts after a settlement: the trade is settled, the market maker
/// is recorded, and the guard of the one-time key is gone.
pub open spec fn settlement_accounts_after(accounts: SettlementAccounts) -> SettlementAccounts {
    SettlementAccounts {
        user_trade_detail: TradeDetail {
            status: TradeStatus::Settled,
            settled_pmm: Some(accounts.pmm),
            ..accounts.user_trade_detail
        },
        nonce_check_account: None,
        ..accounts
    }
}

/// What a settlement does on accounts that were held against each other:
/// on success the accounts after it and what it asks of the ledger,
/// otherwise the error.
pub open spec fn settlement_validated(
    accounts: SettlementAccounts,
    settlement_args: SettlementArgs,
    current_timestamp: i64,
    program_id: Pubkey,
) -> Result<(SettlementAccounts, SettlementOutcome), CustomError> {
    let trade = accounts.user_trade_detail;
    match trade.settlement_check(current_timestamp) {
        Err(e) => Err(e),
        Ok(_) => match settlement_payout(accounts, program_id) {
            Err(e) => Err(e),
            Ok(payout) => Ok(
                (
                    settlement_accounts_after(accounts),
                    SettlementOutcome {
                        payout,
                        event: Settled {
                            trade_id: settlement_args.trade_id,
                            operator: accounts.signer,
                            to_pubkey: accounts.pmm,
                            token: trade.token,
                            settlement_amount: (trade.amount - trade.fee()) as u64,
                            total_fee: trade.fee(),
                            vault: accounts.vault,
                            protocol: accounts.protocol,
                        },
                    },
                ),
            ),
        },
    }
}

/// What `handler_settlement` does: the accounts are held against each other
/// first, and only then the trade is settled.
pub open spec fn settlement_result(
    accounts: SettlementAccounts,
    settlement_args: SettlementArgs,
    current_timestamp: i64,
    program_id: Pubkey,
) -> Result<(SettlementAccounts, SettlementOutcome), CustomError> {
    match accounts.constraints() {
        Err(e) => Err(e),
        Ok(_) => settlement_validated(accounts, settlement_args, current_timestamp, program_id),
    }
}

/// Settles a trade. Both the trade's settlement authority and its one-time
/// key must have signed (`Unauthorized`), and the depositor and the refund
/// address named must be the trade's own (`InvalidUserAccount`,
/// `InvalidRefundPubkey`). After the deadline the call is rejected with
/// `TimeOut`, on a trade that is not open with `InvalidTradeStatus`; the
/// token accounts of a token settlement must have been handed in and be
/// readable (`InvalidTokenAccount`) and be the right ones. Then the trade is
/// marked settled with its market maker, the guard of the one-time key is
/// destroyed, and the moves out of the vault and the event are handed back.
/// What the moves carry adds up to the trade's amount. A rejected call
/// changes nothing.
pub fn handler_settlement(
    accounts: &mut SettlementAccounts,
    settlement_args: &SettlementArgs,
    current_timestamp: i64,
    program_id: &Pubkey,
) -> (r: Result<SettlementOutcome, CustomError>)
    requires
        old(accounts).user_trade_detail.wf(),
    ensures
        carried_out(
            settlement_result(*old(accounts), *settlement_args, current_timestamp, *program_id),
            *old(accounts),
            *final(accounts),
            r,
        ),
        r is Ok ==> r->Ok_0.payout.total() == old(accounts).user_trade_detail.amount,
        r is Ok ==> r->Ok_0.event.settlement_amount + r->Ok_0.event.total_fee
            == old(accounts).user_trade_detail.amount,
        final(accounts).user_trade_detail.wf(),
{
    accounts.validate()?;
    accounts.user_trade_detail.assert_settlement(current_timestamp)?;

    let (settlement_amount, total_fee) = split_fee(
        accounts.user_trade_detail.amount,
        accounts.user_trade_detail.total_fee,
    );
    let payout = match accounts.user_trade_detail.token {
        Some(token_pubkey) => {
            let token_accounts = match accounts.remaining_accounts {
                Some(token_accounts) => token_accounts,
                None => {
                    return Err(CustomError::InvalidTokenAccount);
                },
            };
            transfer_spl_token(
                &token_accounts,
                &token_pubkey,
                &accounts.vault,
                &accounts.pmm,
                &accounts.vault,
                settlement_amount,
                accounts.user_trade_detail.total_fee,
                program_id,
            )?
        },
        None => sol_payout(
            &accounts.vault,
            &accounts.pmm,
            &accounts.protocol,
            settlement_amount,
            total_fee,
        ),
    };
    accounts.user_trade_detail.status = TradeStatus::Settled;
    accounts.user_trade_detail.settled_pmm = Some(accounts.pmm);
    accounts.nonce_check_account = None;
    Ok(
        SettlementOutcome {
            payout,
            event: Settled {
                trade_id: settlement_args.trade_id,
                operator: accounts.signer,
                to_pubkey: accounts.pmm,
                token: accounts.user_trade_detail.token,
                settlement_amount,
                total_fee,
                vault: accounts.vault,
                protocol: accounts.protocol,
            },
        },
    )
}

} // verus!
