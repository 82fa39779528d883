//! Deposit: a user places funds in a trade's vault.
use vstd::prelude::*;

use crate::address::wsol_mint;
use crate::amount::{amount_of, bytes32_equal, bytes_to_u64_number};
use crate::error::CustomError;
use crate::event::Deposited;
use crate::outcome::carried_out;
use crate::pubkey::{
    address_of_text, assert_keys_equal, publickey_of_text, vec_u8_to_address, vec_u8_to_publickey,
    Pubkey,
};
use crate::state::nonce_check_account::NonceCheckAccount;
use crate::state::vault::{TradeDetail, TradeInput};
use crate::state::whitelist_token::WhitelistToken;
use crate::transfer::{token_payout, transfer_sol, transfer_spl_token, TokenAccounts, Transfer};

verus! {

/// What a deposit is called with.
#[derive(Clone, Debug)]
pub struct DepositArgs {
    /// The parameters that name the trade.
    pub input: TradeInput,
    /// The terms of the trade.
    pub data: TradeDetailInput,
    /// The id that the caller claims for the trade.
    pub trade_id: [u8; 32],
}

/// The terms of a trade that its id does not cover.
#[derive(Clone, Copy, Debug)]
pub struct TradeDetailInput {
    /// The settlement deadline, in unix seconds.
    pub timeout: i64,
    /// The key that may settle the trade.
    pub mpc_pubkey: Pubkey,
    /// The address that a claim pays.
    pub refund_pubkey: Pubkey,
}

/// The accounts of a deposit, as the ledger holds them before it.
#[derive(Clone, Copy, Debug, PartialEq, Eq)]
pub struct DepositAccounts {
    /// The depositor, who signed.
    pub signer: Pubkey,
    /// The trade's record, which the deposit fills.
    pub user_trade_detail: TradeDetail,
    /// The one-time key of the trade, which signed too.
    pub ephemeral_account: Pubkey,
    /// The guard of the one-time key, where one is live. The deposit creates
    /// it.
    pub nonce_check_account: Option<NonceCheckAccount>,
    /// The trade's vault.
    pub vault: Pubkey,
    /// The whitelist entry that the caller names for the asset.
    pub whitelist_token: WhitelistToken,
    /// The program that owns the whitelist entry.
    pub whitelist_token_owner: Pubkey,
    /// The token accounts of a token deposit.
    pub remaining_accounts: Option<TokenAccounts>,
}

/// What a deposit asks of the ledger.
#[derive(Clone, Copy, Debug, PartialEq, Eq)]
pub struct DepositOutcome {
    /// The move of the deposit into the vault.
    pub transfer: Transfer,
    /// The event to log.
    pub event: Deposited,
}

impl DepositArgs {
    /// The amount that the deposit names.
    pub open spec fn amount(&self) -> u64 {
        amount_of(self.input.trade_info.amount_in@) as u64
    }
}

impl DepositAccounts {
    /// What `validate` returns: the whitelist entry must be the protocol's
    /// own.
    pub open spec fn constraints(&self, program_id: Pubkey) -> Result<(), CustomError> {
        if self.whitelist_token_owner != program_id {
            Err(CustomError::NotWhitelistedToken)
        } else {
            Ok(())
        }
    }

    /// Checks the accounts against each other, before anything else is
    /// looked at.
    pub fn validate(&self, program_id: &Pubkey) -> (r: Result<(), CustomError>)
        ensures
            r == self.constraints(*program_id),
    {
        assert_keys_equal(
            &self.whitelist_token_owner,
            program_id,
            CustomError::NotWhitelistedToken,
        )
    }
}

/// The checks of a deposit that come before its id is looked at, in their
/// order; they give the asset of the deposit.
pub open spec fn deposit_checks_before_id(
    accounts: DepositAccounts,
    deposit_args: DepositArgs,
    current_timestamp: i64,
) -> Result<Option<Pubkey>, CustomError> {
    let info = deposit_args.input.trade_info;
    if accounts.nonce_check_account is Some {
        Err(CustomError::NonceAccountBeingUsed)
    } else {
        match publickey_of_text(info.from_chain[0]@) {
            Err(e) => Err(e),
            Ok(user) => if user != accounts.signer {
                Err(CustomError::Unauthorized)
            } else {
                match address_of_text(info.from_chain[2]@) {
                    Err(e) => Err(e),
                    Ok(token) => if current_timestamp > deposit_args.data.timeout {
                        Err(CustomError::InvalidTimeout)
                    } else if deposit_args.amount() == 0 {
                        Err(CustomError::DepositZeroAmount)
                    } else if accounts.whitelist_token.amount > deposit_args.amount() {
                        Err(CustomError::InvalidAmount)
                    } else {
                        Ok(token)
                    },
                }
            },
        }
    }
}

/// The checks of a deposit that come before any move, in their order; they
/// give the asset of the deposit. The last of them holds the id that the
/// parameters spell against the id claimed.
pub open spec fn deposit_checks(
    accounts: DepositAccounts,
    deposit_args: DepositArgs,
    current_timestamp: i64,
) -> Result<Option<Pubkey>, CustomError> {
    match deposit_checks_before_id(accounts, deposit_args, current_timestamp) {
        Err(e) => Err(e),
        Ok(token) => if deposit_args.input.trade_id() != deposit_args.trade_id@ {
            Err(CustomError::InvalidTradeId)
        } else {
            Ok(token)
        },
    }
}

/// The move of a deposit into the vault, once the asset is known. The asset
/// must be the one of the whitelist entry, the native currency standing
/// under the wrapped native mint; a token deposit needs its token accounts.
pub open spec fn deposit_transfer(
    accounts: DepositAccounts,
    deposit_args: DepositArgs,
    token: Option<Pubkey>,
    program_id: Pubkey,
) -> Result<Transfer, CustomError> {
    match token {
        Some(token_pubkey) => if token_pubkey != accounts.whitelist_token.token {
            Err(CustomError::NotWhitelistedToken)
        } else {
            match accounts.remaining_accounts {
                None => Err(CustomError::InvalidTokenAccount),
                Some(token_accounts) => match token_payout(
                    token_accounts,
                    token_pubkey,
                    accounts.signer,
                    accounts.vault,
                    accounts.signer,
                    deposit_args.amount(),
                    None,
                    program_id,
                ) {
                    Ok(payout) => Ok(payout.principal),
                    Err(e) => Err(e),
                },
            }
        },
        None => if wsol_mint() != accounts.whitelist_token.token {
            Err(CustomError::NotWhitelistedToken)
        } else {
            Ok(
                Transfer::Sol {
                    source: accounts.signer,
                    destination: accounts.vault,
                    amount: deposit_args.amount(),
                },
            )
        },
    }
}

/// The accounts after a deposit of `token`: the record is filled and the
/// guard of the one-time key is live.
pub open spec fn deposit_accounts_after(
    accounts: DepositAccounts,
    deposit_args: DepositArgs,
    token: Option<Pubkey>,
) -> DepositAccounts {
    DepositAccounts {
        user_trade_detail: accounts.user_trade_detail.deposited(
            deposit_args,
            deposit_args.amount(),
            token,
            accounts.signer,
            accounts.ephemeral_account,
        ),
        nonce_check_account: Some(NonceCheckAccount {  }),
        ..accounts
    }
}

/// What a deposit does on accounts that were held against each other: on
/// success the accounts after it and what it asks of the ledger, otherwise
/// the error.
pub open spec fn deposit_validated(
    accounts: DepositAccounts,
    deposit_args: DepositArgs,
    current_timestamp: i64,
    program_id: Pubkey,
) -> Result<(DepositAccounts, DepositOutcome), CustomError> {
    match deposit_checks(accounts, deposit_args, current_timestamp) {
        Err(e) => Err(e),
        Ok(token) => match deposit_transfer(accounts, deposit_args, token, program_id) {
            Err(e) => Err(e),
            Ok(transfer) => Ok(
                (
                    deposit_accounts_after(accounts, deposit_args, token),
                    DepositOutcome {
                        transfer,
                        event: Deposited {
                            trade_id: deposit_args.trade_id,
                            from_pubkey: accounts.signer,
                            token,
                            amount: deposit_args.amount(),
                            vault: accounts.vault,
                        },
                    },
                ),
            ),
        },
    }
}

/// What `handler_deposit` does: the accounts are held against each other
/// first, and only then the deposit is taken.
pub open spec fn deposit_result(
    accounts: DepositAccounts,
    deposit_args: DepositArgs,
    current_timestamp: i64,
    program_id: Pubkey,
) -> Result<(DepositAccounts, DepositOutcome), CustomError> {
    match accounts.constraints(program_id) {
        Err(e) => Err(e),
        Ok(_) => deposit_validated(accounts, deposit_args, current_timestamp, program_id),
    }
}

/// What `assert_deposit` returns: the accounts are held against each other
/// first, then come the checks of a deposit before its id is looked at.
pub open spec fn deposit_admission(
    accounts: DepositAccounts,
    deposit_args: DepositArgs,
    current_timestamp: i64,
    program_id: Pubkey,
) -> Result<Option<Pubkey>, CustomError> {
    match accounts.constraints(program_id) {
        Err(e) => Err(e),
        Ok(_) => deposit_checks_before_id(accounts, deposit_args, current_timestamp),
    }
}

/// Checks everything of a deposit that comes before its id is computed, in
/// this order: the whitelist entry, the guard of the one-time key, the
/// depositor, the asset, the deadline, the amount. It gives the asset of the
/// deposit.
pub fn assert_deposit(
    accounts: &DepositAccounts,
    deposit_args: &DepositArgs,
    current_timestamp: i64,
    program_id: &Pubkey,
) -> (r: Result<Option<Pubkey>, CustomError>)
    ensures
        r == deposit_admission(*accounts, *deposit_args, current_timestamp, *program_id),
{
    accounts.validate(program_id)?;
    if accounts.nonce_check_account.is_some() {
        return Err(CustomError::NonceAccountBeingUsed);
    }
    let user_key_input = vec_u8_to_publickey(&deposit_args.input.trade_info.from_chain[0])?;
    assert_keys_equal(&user_key_input, &accounts.signer, CustomError::Unauthorized)?;

    let from_token_pubkey = vec_u8_to_address(&deposit_args.input.trade_info.from_chain[2])?;

    if current_timestamp > deposit_args.data.timeout {
        return Err(CustomError::InvalidTimeout);
    }
    let number_from_bytes = bytes_to_u64_number(
        deposit_args.input.trade_info.amount_in.as_slice(),
    );
    if number_from_bytes == 0 {
        return Err(CustomError::DepositZeroAmount);
    }
    if accounts.whitelist_token.amount > number_from_bytes {
        return Err(CustomError::InvalidAmount);
    }
    Ok(from_token_pubkey)
}

/// Takes a deposit of native currency or of tokens into the trade's vault.
/// A deposit creates its trade: the record that it is handed must be blank,
/// as the ledger hands it out for a new trade, and the parameters must be
/// encodable.
///
/// Before anything moves, in this order: the whitelist entry must be the
/// protocol's own (`NotWhitelistedToken`); the one-time key must have no live
/// guard (`NonceAccountBeingUsed`); the depositor named in the parameters
/// must be the signer (`InvalidPublicKey`, `Unauthorized`); the asset must
/// read as `native` or as a key (`InvalidPublicKey`); the deadline must not
/// have passed (`InvalidTimeout`); the amount must not be zero
/// (`DepositZeroAmount`) nor below the whitelist minimum (`InvalidAmount`);
/// the id computed from the parameters must be the id claimed
/// (`InvalidTradeId`); the asset must be the whitelisted one
/// (`NotWhitelistedToken`), and the token accounts of a token deposit must
/// have been handed in (`InvalidTokenAccount`) and be the right ones. Then
/// the record is filled, the guard is created, and
/// the move into the vault and the event are handed back. A rejected deposit
/// changes nothing.
pub fn handler_deposit(
    accounts: &mut DepositAccounts,
    deposit_args: &DepositArgs,
    current_timestamp: i64,
    program_id: &Pubkey,
) -> (r: Result<DepositOutcome, CustomError>)
    requires
        deposit_args.input.encodable(),
        old(accounts).user_trade_detail.is_blank(),
    ensures
        carried_out(
            deposit_result(*old(accounts), *deposit_args, current_timestamp, *program_id),
            *old(accounts),
            *final(accounts),
            r,
        ),
{
    let from_token_pubkey = assert_deposit(accounts, deposit_args, current_timestamp, program_id)?;
    let number_from_bytes = bytes_to_u64_number(
        deposit_args.input.trade_info.amount_in.as_slice(),
    );
    let trade_id = deposit_args.input.calculate_trade_id();
    if !bytes32_equal(&trade_id, &deposit_args.trade_id) {
        return Err(CustomError::InvalidTradeId);
    }
    let transfer = match from_token_pubkey {
        Some(token_pubkey) => {
            assert_keys_equal(
                &token_pubkey,
                &accounts.whitelist_token.token,
                CustomError::NotWhitelistedToken,
            )?;
            let token_accounts = match accounts.remaining_accounts {
                Some(token_accounts) => token_accounts,
                None => {
                    return Err(CustomError::InvalidTokenAccount);
                },
            };
            transfer_spl_token(
                &token_accounts,
                &token_pubkey,
                &accounts.signer,
                &accounts.vault,
                &accounts.signer,
                number_from_bytes,
                None,
                program_id,
            )?.principal
        },
        None => {
            assert_keys_equal(
                &wsol_mint(),
                &accounts.whitelist_token.token,
                CustomError::NotWhitelistedToken,
            )?;
            transfer_sol(&accounts.signer, &accounts.vault, number_from_bytes)
        },
    };
    let signer = accounts.signer;
    let ephemeral_account = accounts.ephemeral_account;
    let _ = accounts.user_trade_detail.assign_value(
        deposit_args,
        number_from_bytes,
        from_token_pubkey,
        signer,
        ephemeral_account,
    );
    accounts.nonce_check_account = Some(NonceCheckAccount {  });
    Ok(
        DepositOutcome {
            transfer,
            event: Deposited {
                trade_id: deposit_args.trade_id,
                from_pubkey: signer,
                token: from_token_pubkey,
                amount: number_from_bytes,
                vault: accounts.vault,
            },
        },
    )
}

} // verus!
