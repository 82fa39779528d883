//! Payment: a market maker pays a user directly, and a receipt records it.
use vstd::prelude::*;

use crate::address::wsol_mint;
use crate::error::CustomError;
use crate::event::PaymentTransferred;
use crate::fee::split_fee;
use crate::outcome::carried_out;
use crate::pubkey::{assert_keys_equal, Pubkey};
use crate::state::payment_receipt::PaymentReceipt;
use crate::state::whitelist_token::WhitelistToken;
use crate::transfer::{
    native_payout, sol_payout, token_payout, transfer_spl_token, Payout, TokenAccounts,
};

verus! {

/// What a payment is called with.
#[derive(Clone, Copy, Debug)]
pub struct PaymentArgs {
    /// The id of the trade that is paid for.
    pub trade_id: [u8; 32],
    /// The asset; `None` is the native currency.
    pub token: Option<Pubkey>,
    /// The amount that leaves the payer, fee included.
    pub amount: u64,
    /// The part of the amount that goes to the protocol.
    pub total_fee: u64,
    /// The last moment at which the payment may be made, in unix seconds.
    pub deadline: i64,
}

/// The accounts of a payment, as the ledger holds them before it.
#[derive(Clone, Copy, Debug, PartialEq, Eq)]
pub struct PaymentAccounts {
    /// The payer, who signed.
    pub signer: Pubkey,
    /// The user to pay.
    pub to_user: Pubkey,
    /// The protocol's fee pool.
    pub protocol: Pubkey,
    /// The whitelist entry that the caller names for the asset.
    pub whitelist_token: WhitelistToken,
    /// The program that owns the whitelist entry.
    pub whitelist_token_owner: Pubkey,
    /// The receipt, which the payment fills.
    pub payment_receipt: PaymentReceipt,
    /// The token accounts of a token payment.
    pub remaining_accounts: Option<TokenAccounts>,
}

/// What a payment asks of the ledger.
#[derive(Clone, Copy, Debug, PartialEq, Eq)]
pub struct PaymentOutcome {
    /// The moves out of the payer's account.
    pub payout: Payout,
    /// The event to log.
    pub event: PaymentTransferred,
}

/// The clock's reading as the unsigned seconds that a receipt records.
pub open spec fn unsigned_seconds(timestamp: i64) -> u64 {
    timestamp as u64
}

/// Reads the clock's seconds as unsigned.
pub fn timestamp_to_u64(timestamp: i64) -> (seconds: u64)
    ensures
        seconds == unsigned_seconds(timestamp),
        timestamp >= 0 ==> seconds == timestamp,
{
    #[verifier::truncate]
    (timestamp as u64)
}

impl PaymentAccounts {
    /// What `validate` returns: the whitelist entry must be the protocol's
    /// own.
    pub open spec fn constraints(&self, program_id: Pubkey) -> Result<(), CustomError> {
        if self.whitelist_token_owner != program_id {
            Err(CustomError::NotWhitelistedToken)
        } else {
            Ok(())
        }
    }

    /// Checks the accounts against each other, before anything else is
    /// looked at.
    pub fn validate(&self, program_id: &Pubkey) -> (r: Result<(), CustomError>)
        ensures
            r == self.constraints(*program_id),
    {
        assert_keys_equal(
            &self.whitelist_token_owner,
            program_id,
            CustomError::NotWhitelistedToken,
        )
    }
}

/// The moves of a payment out of the payer's account: the amount less the
/// fee to the user, the fee to the protocol. A fee of zero is not moved.
/// The asset must be the one of the whitelist entry, the
/// native currency standing under the wrapped native mint.
pub open spec fn payment_payout(
    accounts: PaymentAccounts,
    payment_args: PaymentArgs,
    program_id: Pubkey,
) -> Result<Payout, CustomError> {
    let payment_amount = (payment_args.amount - payment_args.total_fee) as u64;
    match payment_args.token {
        Some(token_pubkey) => if token_pubkey != accounts.whitelist_token.token {
            Err(CustomError::NotWhitelistedToken)
        } else {
            match accounts.remaining_accounts {
                None => Err(CustomError::InvalidTokenAccount),
                Some(token_accounts) => token_payout(
                    token_accounts,
                    token_pubkey,
                    accounts.signer,
                    accounts.to_user,
                    accounts.signer,
                    payment_amount,
                    Some(payment_args.total_fee),
                    program_id,
                ),
            }
        },
        None => if wsol_mint() != accounts.whitelist_token.token {
            Err(CustomError::NotWhitelistedToken)
        } else {
            Ok(
                native_payout(
                    accounts.signer,
                    accounts.to_user,
                    accounts.protocol,
                    payment_amount,
                    payment_args.total_fee,
                ),
            )
        },
    }
}

/// What a payment does on accounts that were held against each other: on
/// success the accounts after it and what it asks of the ledger, otherwise
/// the error. The deadline is looked at first, then the amount.
pub open spec fn payment_validated(
    accounts: PaymentAccounts,
    payment_args: PaymentArgs,
    current_timestamp: i64,
    program_id: Pubkey,
) -> Result<(PaymentAccounts, PaymentOutcome), CustomError> {
    if current_timestamp > payment_args.deadline {
        Err(CustomError::DeadlineExceeded)
    } else if payment_args.amount <= payment_args.total_fee {
        Err(CustomError::InvalidAmount)
    } else {
        match payment_payout(accounts, payment_args, program_id) {
            Err(e) => Err(e),
            Ok(payout) => Ok(
                (
                    PaymentAccounts {
                        payment_receipt: accounts.payment_receipt.paid(
                            payment_args.trade_id,
                            accounts.signer,
                            accounts.to_user,
                            payment_args.token,
                            payment_args.amount,
                            payment_args.total_fee,
                            unsigned_seconds(current_timestamp),
                        ),
                        ..accounts
                    },
                    PaymentOutcome {
                        payout,
                        event: PaymentTransferred {
                            trade_id: payment_args.trade_id,
                            from_pubkey: accounts.signer,
                            to_pubkey: accounts.to_user,
                            token: payment_args.token,
                            payment_amount: (payment_args.amount - payment_args.total_fee) as u64,
                            total_fee: payment_args.total_fee,
                            protocol: accounts.protocol,
                        },
                    },
                ),
            ),
        }
    }
}

/// What `handler_payment` does: the accounts are held against each other
/// first, and only then the payment is made.
pub open spec fn payment_result(
    accounts: PaymentAccounts,
    payment_args: PaymentArgs,
    current_timestamp: i64,
    program_id: Pubkey,
) -> Result<(PaymentAccounts, PaymentOutcome), CustomError> {
    match accounts.constraints(program_id) {
        Err(e) => Err(e),
        Ok(_) => payment_validated(accounts, payment_args, current_timestamp, program_id),
    }
}

/// Makes a payment. A whitelist entry that is not the protocol's own is
/// rejected with `NotWhitelistedToken`. After the deadline the call is
/// rejected with `DeadlineExceeded`, an amount that is not above its fee
/// with `InvalidAmount`, an asset that is not the whitelisted one with
/// `NotWhitelistedToken`; the token accounts of a token payment must have
/// been handed in and be readable (`InvalidTokenAccount`) and be the right
/// ones. Then the receipt is filled with the payment and its time, and the
/// moves out of the payer's account and the event are handed back.
/// What the moves carry adds up to the amount. A rejected call changes
/// nothing.
pub fn handler_payment(
    accounts: &mut PaymentAccounts,
    payment_args: &PaymentArgs,
    current_timestamp: i64,
    program_id: &Pubkey,
) -> (r: Result<PaymentOutcome, CustomError>)
    ensures
        carried_out(
            payment_result(*old(accounts), *payment_args, current_timestamp, *program_id),
            *old(accounts),
            *final(accounts),
            r,
        ),
        r is Ok ==> r->Ok_0.payout.total() == payment_args.amount,
        r is Ok ==> final(accounts).payment_receipt.wf(),
{
    accounts.validate(program_id)?;
    if current_timestamp > payment_args.deadline {
        return Err(CustomError::DeadlineExceeded);
    }
    if payment_args.amount <= payment_args.total_fee {
        return Err(CustomError::InvalidAmount);
    }
    let (payment_amount, total_fee) = split_fee(payment_args.amount, Some(payment_args.total_fee));

    let payout = match payment_args.token {
        Some(token_pubkey) => {
            assert_keys_equal(
                &token_pubkey,
                &accounts.whitelist_token.token,
                CustomError::NotWhitelistedToken,
            )?;
            let token_accounts = match accounts.remaining_accounts {
                Some(token_accounts) => token_accounts,
                None => {
                    return Err(CustomError::InvalidTokenAccount);
                },
            };
            transfer_spl_token(
                &token_accounts,
                &token_pubkey,
                &accounts.signer,
                &accounts.to_user,
                &accounts.signer,
                payment_amount,
                Some(total_fee),
                program_id,
            )?
        },
        None => {
            assert_keys_equal(
                &wsol_mint(),
                &accounts.whitelist_token.token,
                CustomError::NotWhitelistedToken,
            )?;
            sol_payout(
                &accounts.signer,
                &accounts.to_user,
                &accounts.protocol,
                payment_amount,
                total_fee,
            )
        },
    };
    let signer = accounts.signer;
    let to_user = accounts.to_user;
    let _ = accounts.payment_receipt.assign_value(
        payment_args.trade_id,
        signer,
        to_user,
        payment_args.token,
        payment_args.amount,
        payment_args.total_fee,
        timestamp_to_u64(current_timestamp),
    );
    Ok(
        PaymentOutcome {
            payout,
            event: PaymentTransferred {
                trade_id: payment_args.trade_id,
                from_pubkey: signer,
                to_pubkey: to_user,
                token: payment_args.token,
                payment_amount,
                total_fee,
                protocol: accounts.protocol,
            },
        },
    )
}

} // verus!
