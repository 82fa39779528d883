//! Escrow and settlement rules for cross-chain trades.
//!
//! A user deposits funds into a vault that is bound to a trade id; a market
//! maker pays the user on another chain; the trade's settlement authority
//! then releases the vault to the market maker, less a fee, before a
//! deadline. After the deadline the deposit can only go back to its refund
//! address. A market maker can also pay a user directly and keep a receipt.
//!
//! Each operation is a function from the accounts that the ledger holds, the
//! arguments and the clock to the accounts after it and to what the ledger
//! is asked to do: moves of funds and an event. Every operation first holds
//! the accounts that it was called with against each other, and an operation
//! that is rejected changes nothing.
use vstd::prelude::*;

pub mod address;
pub mod amount;
pub mod error;
pub mod event;
pub mod fee;
pub mod instructions;
pub mod lifecycle;
pub mod outcome;
pub mod pubkey;
pub mod state;
pub mod transfer;

use crate::error::CustomError;
use crate::instructions::admin_and_operator::add_fee_receiver::{
    handler_add_fee_receiver, AddFeeReceiverAccounts,
};
use crate::instructions::admin_and_operator::add_or_remove_operator::{
    add_or_remove_operator_result, handler_add_or_remove_operator, operators_after,
    AddOrRemoveOperator,
};
use crate::instructions::admin_and_operator::add_or_update_whitelist::{
    handler_add_or_update_whitelist, AddOrUpdateWhitelist,
};
use crate::instructions::admin_and_operator::init::{handler_init, Init, InitArgs};
use crate::instructions::admin_and_operator::remove_fee_receiver::{
    handler_remove_fee_receiver, RemoveFeeReceiverAccounts,
};
use crate::instructions::admin_and_operator::remove_whitelist::{
    handler_remove_whitelist, RemoveWhitelist,
};
use crate::instructions::admin_and_operator::set_close_wait_duration::{
    handler_set_close_wait_duration, SetCloseWaitDuration, SetCloseWaitDurationArgs,
};
use crate::instructions::claim::{claim_result, handler_claim, Claim, ClaimArgs, ClaimOutcome};
use crate::instructions::close_finished_trade::{
    close_finished_trade_result, handler_close_finished_trade, CloseFinishedTradeAccounts,
    CloseFinishedTradeArgs, CloseOutcome,
};
use crate::instructions::close_payment_receipt::{
    close_payment_receipt_result, handler_close_payment_receipt, ClosePaymentReceiptAccounts,
};
use crate::instructions::deposit::{
    deposit_result, handler_deposit, DepositAccounts, DepositArgs, DepositOutcome,
};
use crate::instructions::payment::{
    handler_payment, payment_result, PaymentAccounts, PaymentArgs, PaymentOutcome,
};
use crate::instructions::set_total_fee::{
    handler_set_total_fee, set_total_fee_result, SetTotalFee, SetTotalFeeArgs,
};
use crate::instructions::settlement::{
    handler_settlement, settlement_result, SettlementAccounts, SettlementArgs, SettlementOutcome,
};
use crate::instructions::withdraw_total_fee::{
    handler_withdraw_total_fee, withdraw_total_fee_result, WithdrawTotalFeeAccounts,
    WithdrawTotalFeeArgs,
};
use crate::outcome::carried_out;
use crate::pubkey::Pubkey;
use crate::state::fee_receiver::FeeReceiver;
use crate::state::whitelist_token::WhitelistToken;
use crate::transfer::Transfer;

verus! {

/// Sets up the protocol, and sets its admin where one is given. Only the
/// program's upgrade authority may call; anyone else is rejected with
/// `Unauthorized`, and nothing changes.
pub fn init(accounts: &mut Init, init_args: &InitArgs) -> (r: Result<(), CustomError>)
    ensures
        r == old(accounts).constraints(),
        r is Err ==> *final(accounts) == *old(accounts),
        r is Ok ==> final(accounts).config.admin == (match init_args.admin {
            Some(admin) => admin,
            None => old(accounts).config.admin,
        }),
        final(accounts).config._reserve == old(accounts).config._reserve,
        final(accounts).config.close_trade_duration == old(accounts).config.close_trade_duration,
        final(accounts).config.close_payment_duration
            == old(accounts).config.close_payment_duration,
        final(accounts).config.operators == old(accounts).config.operators,
        final(accounts).signer == old(accounts).signer,
        final(accounts).programdata_address == old(accounts).programdata_address,
        final(accounts).program_data == old(accounts).program_data,
        final(accounts).upgrade_authority_address == old(accounts).upgrade_authority_address,
{
    handler_init(accounts, init_args)
}

/// Adds an operator, or removes one. Only the admin may call
/// (`Unauthorized`). A rejected call changes nothing.
pub fn add_or_remove_operator(accounts: &mut AddOrRemoveOperator, operator: Pubkey, is_add: bool) -> (r:
    Result<(), CustomError>)
    ensures
        r == add_or_remove_operator_result(*old(accounts), operator, is_add),
        r is Ok ==> final(accounts).config.operators@ == operators_after(
            old(accounts).config,
            operator,
            is_add,
        ),
        r is Err ==> final(accounts).config.operators@ == old(accounts).config.operators@,
        final(accounts).config.same_settings(&old(accounts).config),
        final(accounts).signer == old(accounts).signer,
        old(accounts).config.wf() ==> final(accounts).config.wf(),
{
    handler_add_or_remove_operator(accounts, operator, is_add)
}

/// Lists an asset with the smallest amount accepted, or updates its entry.
/// Only an operator may call (`Unauthorized`). A rejected call changes
/// nothing.
pub fn add_or_update_whitelist(accounts: &mut AddOrUpdateWhitelist, amount: u64) -> (r: Result<
    (),
    CustomError,
>)
    ensures
        r == old(accounts).constraints(),
        r is Ok ==> final(accounts).whitelist_token == (WhitelistToken {
            token: old(accounts).token,
            amount,
            _reserve: old(accounts).whitelist_token._reserve,
        }),
        r is Err ==> final(accounts).whitelist_token == old(accounts).whitelist_token,
        final(accounts).operator == old(accounts).operator,
        final(accounts).config == old(accounts).config,
        final(accounts).token == old(accounts).token,
{
    handler_add_or_update_whitelist(accounts, amount)
}

/// Pays out of the protocol's fee pool to a registered receiver. Anyone may
/// call, but the account to pay must be the receiver of the registry entry
/// (`InvalidRefundPubkey`).
pub fn withdraw_total_fee(
    accounts: &WithdrawTotalFeeAccounts,
    withdraw_total_fee_args: &WithdrawTotalFeeArgs,
    minimum_rent: u64,
    program_id: &Pubkey,
) -> (r: Result<Transfer, CustomError>)
    ensures
        r == withdraw_total_fee_result(
            *accounts,
            *withdraw_total_fee_args,
            minimum_rent,
            *program_id,
        ),
{
    handler_withdraw_total_fee(accounts, withdraw_total_fee_args, minimum_rent, program_id)
}

/// Takes an asset off the whitelist. Only an operator may call
/// (`Unauthorized`).
pub fn remove_whitelist(accounts: &RemoveWhitelist) -> (r: Result<(), CustomError>)
    ensures
        r == accounts.constraints(),
{
    handler_remove_whitelist(accounts)
}

/// Takes a deposit into a trade's vault, as `handler_deposit` does. The
/// record must be blank and the parameters encodable.
pub fn deposit(
    accounts: &mut DepositAccounts,
    deposit_args: &DepositArgs,
    current_timestamp: i64,
    program_id: &Pubkey,
) -> (r: Result<DepositOutcome, CustomError>)
    requires
        deposit_args.input.encodable(),
        old(accounts).user_trade_detail.is_blank(),
    ensures
        carried_out(
            deposit_result(*old(accounts), *deposit_args, current_timestamp, *program_id),
            *old(accounts),
            *final(accounts),
            r,
        ),
{
    handler_deposit(accounts, deposit_args, current_timestamp, program_id)
}

/// Makes a direct payment, as `handler_payment` does.
pub fn payment(
    accounts: &mut PaymentAccounts,
    payment_args: &PaymentArgs,
    current_timestamp: i64,
    program_id: &Pubkey,
) -> (r: Result<PaymentOutcome, CustomError>)
    ensures
        carried_out(
            payment_result(*old(accounts), *payment_args, current_timestamp, *program_id),
            *old(accounts),
            *final(accounts),
            r,
        ),
{
    handler_payment(accounts, payment_args, current_timestamp, program_id)
}

/// Sets the fee of a trade, as `handler_set_total_fee` does. Only the
/// trade's settlement authority may call (`Unauthorized`).
pub fn set_total_fee(
    accounts: &mut SetTotalFee,
    set_total_fee_args: &SetTotalFeeArgs,
    current_timestamp: i64,
) -> (r: Result<(), CustomError>)
    ensures
        carried_out(
            set_total_fee_result(*old(accounts), *set_total_fee_args, current_timestamp),
            *old(accounts),
            *final(accounts),
            r,
        ),
        r is Ok ==> final(accounts).user_trade_detail.wf(),
{
    handler_set_total_fee(accounts, set_total_fee_args, current_timestamp)
}

/// Settles a trade, as `handler_settlement` does. Both the trade's
/// settlement authority and its one-time key must have signed.
pub fn settlement(
    accounts: &mut SettlementAccounts,
    payment_args: &SettlementArgs,
    current_timestamp: i64,
    program_id: &Pubkey,
) -> (r: Result<SettlementOutcome, CustomError>)
    requires
        old(accounts).user_trade_detail.wf(),
    ensures
        carried_out(
            settlement_result(*old(accounts), *payment_args, current_timestamp, *program_id),
            *old(accounts),
            *final(accounts),
            r,
        ),
        r is Ok ==> r->Ok_0.payout.total() == old(accounts).user_trade_detail.amount,
        final(accounts).user_trade_detail.wf(),
{
    handler_settlement(accounts, payment_args, current_timestamp, program_id)
}

/// Claims a trade back after its deadline, as `handler_claim` does. Anyone
/// may call.
pub fn claim(
    accounts: &mut Claim,
    claim_args: &ClaimArgs,
    current_timestamp: i64,
    program_id: &Pubkey,
) -> (r: Result<ClaimOutcome, CustomError>)
    ensures
        carried_out(
            claim_result(*old(accounts), *claim_args, current_timestamp, *program_id),
            *old(accounts),
            *final(accounts),
            r,
        ),
{
    handler_claim(accounts, claim_args, current_timestamp, program_id)
}

/// Closes a finished trade, as `handler_close_finished_trade` does.
pub fn close_finished_trade(
    accounts: &CloseFinishedTradeAccounts,
    _close_finished_trade_args: &CloseFinishedTradeArgs,
    current_timestamp: u64,
) -> (r: Result<CloseOutcome, CustomError>)
    ensures
        r == close_finished_trade_result(*accounts, current_timestamp),
{
    handler_close_finished_trade(accounts, _close_finished_trade_args, current_timestamp)
}

/// Closes the receipt of a payment. Only the payer may call
/// (`InvalidUserAccount`), and only once more than the configured wait has
/// passed since the payment (`CloseNotAvailable`).
pub fn close_payment_receipt(accounts: &ClosePaymentReceiptAccounts, current_timestamp: u64) -> (r:
    Result<(), CustomError>)
    ensures
        r == close_payment_receipt_result(*accounts, current_timestamp),
{
    handler_close_payment_receipt(accounts, current_timestamp)
}

/// Sets the waits before finished records may be closed. Only an operator
/// may call (`Unauthorized`). A rejected call changes nothing.
pub fn set_close_wait_duration(
    accounts: &mut SetCloseWaitDuration,
    set_close_wait_duration_args: &SetCloseWaitDurationArgs,
) -> (r: Result<(), CustomError>)
    ensures
        r == old(accounts).constraints(),
        final(accounts).config.close_trade_duration == (
        match (r, set_close_wait_duration_args.close_trade_duration) {
            (Ok(_), Some(seconds)) => seconds,
            _ => old(accounts).config.close_trade_duration,
        }),
        final(accounts).config.close_payment_duration == (
        match (r, set_close_wait_duration_args.close_payment_duration) {
            (Ok(_), Some(seconds)) => seconds,
            _ => old(accounts).config.close_payment_duration,
        }),
        final(accounts).config._reserve == old(accounts).config._reserve,
        final(accounts).config.admin == old(accounts).config.admin,
        final(accounts).config.operators == old(accounts).config.operators,
        final(accounts).operator == old(accounts).operator,
{
    handler_set_close_wait_duration(accounts, set_close_wait_duration_args)
}

/// Registers an address that may receive fees. Only the admin may call
/// (`Unauthorized`). A rejected call changes nothing.
pub fn add_fee_receiver(accounts: &mut AddFeeReceiverAccounts, receiver_pubkey: Pubkey) -> (r:
    Result<(), CustomError>)
    ensures
        r == old(accounts).constraints(),
        r is Ok ==> final(accounts).fee_receiver == (FeeReceiver {
            receiver: receiver_pubkey,
            _reserve: old(accounts).fee_receiver._reserve,
        }),
        r is Err ==> final(accounts).fee_receiver == old(accounts).fee_receiver,
        final(accounts).signer == old(accounts).signer,
        final(accounts).config == old(accounts).config,
{
    handler_add_fee_receiver(accounts, receiver_pubkey)
}

/// Takes an address off the registry of fee receivers. Only the admin may
/// call (`Unauthorized`).
pub fn remove_fee_receiver(accounts: &RemoveFeeReceiverAccounts, receiver_pubkey: Pubkey) -> (r:
    Result<(), CustomError>)
    ensures
        r == accounts.constraints(),
{
    handler_remove_fee_receiver(accounts, receiver_pubkey)
}

} // verus!
