//! What holds of a trade over its whole life, and of the operations taken
//! together.
use vstd::prelude::*;

use crate::error::CustomError;
use crate::fee::fee_or_zero;
use crate::instructions::claim::{claim_accounts_after, claim_result, Claim, ClaimArgs};
use crate::instructions::close_finished_trade::{
    close_finished_trade_result, CloseFinishedTradeAccounts,
};
use crate::instructions::close_payment_receipt::{
    close_payment_receipt_result, ClosePaymentReceiptAccounts,
};
use crate::instructions::deposit::{
    deposit_checks_before_id, deposit_result, DepositAccounts, DepositArgs,
};
use crate::instructions::payment::{payment_result, PaymentAccounts, PaymentArgs};
use crate::instructions::set_total_fee::{set_total_fee_result, SetTotalFee, SetTotalFeeArgs};
use crate::instructions::settlement::{settlement_result, SettlementAccounts, SettlementArgs};
use crate::instructions::withdraw_total_fee::{
    withdraw_total_fee_result, WithdrawTotalFeeAccounts, WithdrawTotalFeeArgs,
};
use crate::pubkey::Pubkey;
use crate::state::payment_receipt::PaymentReceipt;
use crate::state::vault::{TradeDetail, TradeStatus};

verus! {

/// Whether a trade that stood at `before` may stand at `after`: it stays
/// where it is, or it leaves `Deposited`.
pub open spec fn moves_forward(before: TradeStatus, after: TradeStatus) -> bool {
    after == before || before == TradeStatus::Deposited
}

/// One call on a trade that exists: of the operations, these are the ones
/// that can write to its record.
#[allow(inconsistent_fields)]
pub enum TradeCall {
    SetTotalFee { accounts: SetTotalFee, args: SetTotalFeeArgs, current_timestamp: i64 },
    Settlement {
        accounts: SettlementAccounts,
        args: SettlementArgs,
        current_timestamp: i64,
        program_id: Pubkey,
    },
    Claim { accounts: Claim, args: ClaimArgs, current_timestamp: i64, program_id: Pubkey },
}

impl TradeCall {
    /// The trade's record as the call finds it.
    pub open spec fn record_before(&self) -> TradeDetail {
        match *self {
            TradeCall::SetTotalFee { accounts, .. } => accounts.user_trade_detail,
            TradeCall::Settlement { accounts, .. } => accounts.user_trade_detail,
            TradeCall::Claim { accounts, .. } => accounts.user_trade_detail,
        }
    }

    /// The trade's record as the call leaves it; a rejected call leaves it
    /// as it found it.
    pub open spec fn record_after(&self) -> TradeDetail {
        match *self {
            TradeCall::SetTotalFee { accounts, args, current_timestamp } => {
                match set_total_fee_result(accounts, args, current_timestamp) {
                    Ok((after, _)) => after.user_trade_detail,
                    Err(_) => accounts.user_trade_detail,
                }
            },
            TradeCall::Settlement { accounts, args, current_timestamp, program_id } => {
                match settlement_result(accounts, args, current_timestamp, program_id) {
                    Ok((after, _)) => after.user_trade_detail,
                    Err(_) => accounts.user_trade_detail,
                }
            },
            TradeCall::Claim { accounts, args, current_timestamp, program_id } => {
                match claim_result(accounts, args, current_timestamp, program_id) {
                    Ok((after, _)) => after.user_trade_detail,
                    Err(_) => accounts.user_trade_detail,
                }
            },
        }
    }
}

/// Whether the calls are calls on one trade, one after the other: each
/// finds the record as the call before it left it.
pub open spec fn is_history(calls: Seq<TradeCall>) -> bool {
    forall|i: int|
        0 <= i < calls.len() - 1 ==> calls[i + 1].record_before()
            == #[trigger] calls[i].record_after()
}

/// Whether two records are records of one trade: what the deposit fixed is
/// the same in both.
pub open spec fn same_trade(before: TradeDetail, after: TradeDetail) -> bool {
    &&& after.trade_id == before.trade_id
    &&& after.user_pubkey == before.user_pubkey
    &&& after.token == before.token
    &&& after.amount == before.amount
    &&& after.timeout == before.timeout
    &&& after.mpc_pubkey == before.mpc_pubkey
    &&& after.user_ephemeral_pubkey == before.user_ephemeral_pubkey
    &&& after.refund_pubkey == before.refund_pubkey
}

/// A deposit goes through only under the id that its parameters spell: the
/// record then carries that id. Parameters that spell another id than the
/// one claimed are always rejected.
pub proof fn lemma_deposit_binds_trade_id(
    accounts: DepositAccounts,
    deposit_args: DepositArgs,
    current_timestamp: i64,
    program_id: Pubkey,
)
    ensures
        deposit_result(accounts, deposit_args, current_timestamp, program_id) matches Ok(done)
            ==> deposit_args.input.trade_id() == deposit_args.trade_id@
            && done.0.user_trade_detail.trade_id@ == deposit_args.input.trade_id(),
        deposit_args.input.trade_id() != deposit_args.trade_id@ ==> deposit_result(
            accounts,
            deposit_args,
            current_timestamp,
            program_id,
        ) is Err,
{
}

/// Where a deposit passes every check that comes before its id, a change to
/// its parameters or to the id claimed that makes the two differ is
/// rejected with `InvalidTradeId`.
pub proof fn lemma_deposit_rejects_other_id(
    accounts: DepositAccounts,
    deposit_args: DepositArgs,
    current_timestamp: i64,
    program_id: Pubkey,
)
    requires
        accounts.constraints(program_id) is Ok,
        deposit_checks_before_id(accounts, deposit_args, current_timestamp) is Ok,
        deposit_args.input.trade_id() != deposit_args.trade_id@,
    ensures
        deposit_result(accounts, deposit_args, current_timestamp, program_id) is Err,
        deposit_result(accounts, deposit_args, current_timestamp, program_id)->Err_0
            == CustomError::InvalidTradeId,
{
}

/// The session id and the solver reach nothing but the id. So where a
/// deposit goes through, the same deposit with another session id or solver
/// is rejected with `InvalidTradeId` as soon as its parameters spell another
/// id.
pub proof fn lemma_session_and_solver_only_reach_the_id(
    accounts: DepositAccounts,
    deposit_args: DepositArgs,
    changed: DepositArgs,
    current_timestamp: i64,
    program_id: Pubkey,
)
    requires
        deposit_result(accounts, deposit_args, current_timestamp, program_id) is Ok,
        changed.input.trade_info == deposit_args.input.trade_info,
        changed.data == deposit_args.data,
        changed.trade_id == deposit_args.trade_id,
        changed.input.trade_id() != deposit_args.input.trade_id(),
    ensures
        deposit_result(accounts, changed, current_timestamp, program_id) is Err,
        deposit_result(accounts, changed, current_timestamp, program_id)->Err_0
            == CustomError::InvalidTradeId,
{
}

/// Only the trade's settlement authority sets its fee, only up to the
/// deadline, and only a fee within the amount. The fee that is set is the
/// one asked for, whatever was set before, and nothing else of the record
/// changes.
pub proof fn lemma_set_total_fee_needs_the_authority(
    accounts: SetTotalFee,
    set_total_fee_args: SetTotalFeeArgs,
    current_timestamp: i64,
)
    ensures
        ({
            let trade = accounts.user_trade_detail;
            let result = set_total_fee_result(accounts, set_total_fee_args, current_timestamp);
            &&& result is Ok <==> accounts.signer == trade.mpc_pubkey && current_timestamp
                <= trade.timeout && set_total_fee_args.amount <= trade.amount
            &&& accounts.signer != trade.mpc_pubkey ==> result is Err && result->Err_0
                == CustomError::Unauthorized
            &&& result matches Ok(done) ==> done.0.user_trade_detail == (TradeDetail {
                total_fee: Some(set_total_fee_args.amount),
                ..trade
            }) && done.0.signer == accounts.signer
        }),
{
}

/// A settlement needs both signatures and the trade's own accounts: a
/// signer that is not the settlement authority, or a one-time key that is
/// not the trade's, is rejected with `Unauthorized`; an account named as
/// depositor or as refund address that is not the trade's is rejected too.
/// The checks come in the order: authority, depositor, one-time key, refund
/// address.
pub proof fn lemma_settlement_needs_both_keys(
    accounts: SettlementAccounts,
    settlement_args: SettlementArgs,
    current_timestamp: i64,
    program_id: Pubkey,
)
    ensures
        ({
            let trade = accounts.user_trade_detail;
            let result = settlement_result(
                accounts,
                settlement_args,
                current_timestamp,
                program_id,
            );
            &&& result is Ok ==> accounts.signer == trade.mpc_pubkey
                && accounts.user_ephemeral_account == trade.user_ephemeral_pubkey
                && accounts.user_account == trade.user_pubkey && accounts.refund_account
                == trade.refund_pubkey
            &&& accounts.signer != trade.mpc_pubkey ==> result is Err && result->Err_0
                == CustomError::Unauthorized
            &&& accounts.signer == trade.mpc_pubkey && accounts.user_account != trade.user_pubkey
                ==> result is Err && result->Err_0 == CustomError::InvalidUserAccount
            &&& accounts.signer == trade.mpc_pubkey && accounts.user_account == trade.user_pubkey
                && accounts.user_ephemeral_account != trade.user_ephemeral_pubkey ==> result is Err
                && result->Err_0 == CustomError::Unauthorized
            &&& accounts.constraints() is Err && accounts.signer == trade.mpc_pubkey
                && accounts.user_account == trade.user_pubkey && accounts.user_ephemeral_account
                == trade.user_ephemeral_pubkey ==> result is Err && result->Err_0
                == CustomError::InvalidRefundPubkey
        }),
{
}

/// Nothing is lost and nothing is made at settlement: what the market maker
/// gets and the fee add up to the amount deposited, in the event and in the
/// moves out of the vault.
pub proof fn lemma_settlement_conserves_amount(
    accounts: SettlementAccounts,
    settlement_args: SettlementArgs,
    current_timestamp: i64,
    program_id: Pubkey,
)
    requires
        accounts.user_trade_detail.wf(),
        settlement_result(accounts, settlement_args, current_timestamp, program_id) is Ok,
    ensures
        ({
            let trade = accounts.user_trade_detail;
            let outcome = settlement_result(
                accounts,
                settlement_args,
                current_timestamp,
                program_id,
            )->Ok_0.1;
            &&& outcome.event.settlement_amount + fee_or_zero(trade.total_fee) == trade.amount
            &&& outcome.event.total_fee == fee_or_zero(trade.total_fee)
            &&& outcome.payout.principal.amount() == outcome.event.settlement_amount
            &&& outcome.payout.total() == trade.amount
        }),
{
}

/// Every call on a trade leaves what the deposit fixed, keeps the fee
/// within the amount, and moves the status forward or not at all.
pub proof fn lemma_call_moves_forward(call: TradeCall)
    ensures
        moves_forward(call.record_before().status, call.record_after().status),
        same_trade(call.record_before(), call.record_after()),
        call.record_before().wf() ==> call.record_after().wf(),
{
}

/// Over any history of a trade the status only moves forward: from
/// `Deposited` to `Settled` or to `Claimed`, and never back.
pub proof fn lemma_history_moves_forward(calls: Seq<TradeCall>, i: int, j: int)
    requires
        is_history(calls),
        0 <= i <= j < calls.len(),
    ensures
        moves_forward(calls[i].record_before().status, calls[j].record_after().status),
        moves_forward(calls[i].record_after().status, calls[j].record_after().status),
        same_trade(calls[i].record_before(), calls[j].record_after()),
    decreases j - i,
{
    lemma_call_moves_forward(calls[i]);
    lemma_call_moves_forward(calls[j]);
    if i < j {
        lemma_history_moves_forward(calls, i, j - 1);
        assert(calls[j - 1 + 1].record_before() == calls[j - 1].record_after());
    }
}

/// No history of a trade holds both a settlement and a claim that went
/// through: a trade that is ever settled is never claimed, and a trade that
/// is ever claimed is never settled.
pub proof fn lemma_settled_and_claimed_exclude(calls: Seq<TradeCall>, i: int, j: int)
    requires
        is_history(calls),
        0 <= i < calls.len(),
        0 <= j < calls.len(),
    ensures
        !(calls[i].record_after().status == TradeStatus::Settled && calls[j].record_after().status
            == TradeStatus::Claimed),
{
    if i <= j {
        lemma_history_moves_forward(calls, i, j);
    } else {
        lemma_history_moves_forward(calls, j, i);
    }
}

/// At no moment can a trade be both settled and claimed: the one needs the
/// clock at or before the deadline, the other after it.
pub proof fn lemma_settlement_and_claim_exclude(trade: TradeDetail, current_timestamp: i64)
    ensures
        !(trade.settlement_check(current_timestamp) is Ok && trade.claim_check(current_timestamp)
            is Ok),
{
}

/// A claim at or before the deadline is always rejected: with
/// `ClaimNotAvailable`, whatever the trade's status, where the accounts
/// named are the trade's own.
pub proof fn lemma_claim_before_timeout_fails(
    accounts: Claim,
    claim_args: ClaimArgs,
    current_timestamp: i64,
    program_id: Pubkey,
)
    requires
        current_timestamp <= accounts.user_trade_detail.timeout,
    ensures
        accounts.user_trade_detail.claim_check(current_timestamp) == Err::<(), CustomError>(
            CustomError::ClaimNotAvailable,
        ),
        claim_result(accounts, claim_args, current_timestamp, program_id) is Err,
        accounts.constraints() is Ok ==> claim_result(
            accounts,
            claim_args,
            current_timestamp,
            program_id,
        )->Err_0 == CustomError::ClaimNotAvailable,
{
}

/// A claim after the deadline on an open trade in native currency goes
/// through where the accounts named are the trade's own: the whole amount
/// moves to the trade's refund address and the trade is claimed.
pub proof fn lemma_claim_after_timeout_succeeds(
    accounts: Claim,
    claim_args: ClaimArgs,
    current_timestamp: i64,
    program_id: Pubkey,
)
    requires
        accounts.constraints() is Ok,
        current_timestamp > accounts.user_trade_detail.timeout,
        accounts.user_trade_detail.status == TradeStatus::Deposited,
        accounts.user_trade_detail.token is None,
    ensures
        claim_result(accounts, claim_args, current_timestamp, program_id) matches Ok(done)
            && done.0 == claim_accounts_after(accounts) && done.0.user_trade_detail.status
            == TradeStatus::Claimed && done.1.transfer.amount()
            == accounts.user_trade_detail.amount && done.1.event.to_pubkey
            == accounts.user_trade_detail.refund_pubkey,
{
}

/// A claim pays nobody but the trade's refund address: where it goes
/// through, the refund account named is the one that the record holds.
pub proof fn lemma_claim_pays_the_refund_address(
    accounts: Claim,
    claim_args: ClaimArgs,
    current_timestamp: i64,
    program_id: Pubkey,
)
    ensures
        claim_result(accounts, claim_args, current_timestamp, program_id) is Ok
            ==> accounts.refund_account == accounts.user_trade_detail.refund_pubkey
            && accounts.user_account == accounts.user_trade_detail.user_pubkey,
{
}

/// A trade is claimed at most once: after a claim that went through, every
/// further claim is rejected, after the deadline and with the trade's own
/// accounts with `InvalidTradeStatus`.
pub proof fn lemma_claim_succeeds_once(
    first: Claim,
    first_args: ClaimArgs,
    first_timestamp: i64,
    second: Claim,
    second_args: ClaimArgs,
    second_timestamp: i64,
    program_id: Pubkey,
)
    requires
        claim_result(first, first_args, first_timestamp, program_id) is Ok,
        second.user_trade_detail == claim_result(
            first,
            first_args,
            first_timestamp,
            program_id,
        )->Ok_0.0.user_trade_detail,
    ensures
        claim_result(second, second_args, second_timestamp, program_id) is Err,
        second.constraints() is Ok && second_timestamp > second.user_trade_detail.timeout
            ==> claim_result(second, second_args, second_timestamp, program_id)->Err_0
            == CustomError::InvalidTradeStatus,
{
}

/// A settlement of a trade that is not open, or after the deadline, is
/// always rejected. With both signatures and the trade's own accounts it is
/// rejected after the deadline with `TimeOut`, and up to the deadline on a
/// trade that is not open with `InvalidTradeStatus`.
pub proof fn lemma_settlement_rejections(
    accounts: SettlementAccounts,
    settlement_args: SettlementArgs,
    current_timestamp: i64,
    program_id: Pubkey,
)
    ensures
        ({
            let trade = accounts.user_trade_detail;
            let result = settlement_result(
                accounts,
                settlement_args,
                current_timestamp,
                program_id,
            );
            &&& current_timestamp > trade.timeout || trade.status != TradeStatus::Deposited
                ==> result is Err
            &&& accounts.constraints() is Ok && current_timestamp > trade.timeout ==> result->Err_0
                == CustomError::TimeOut
            &&& accounts.constraints() is Ok && current_timestamp <= trade.timeout && trade.status
                != TradeStatus::Deposited ==> result->Err_0 == CustomError::InvalidTradeStatus
        }),
{
}

/// An open trade cannot be closed: whoever calls, and whenever, the close is
/// rejected with `InvalidTradeStatus`.
pub proof fn lemma_close_deposited_fails(
    trade: TradeDetail,
    current_timestamp: u64,
    close_wait_duration: u64,
    is_mpc: bool,
)
    requires
        trade.status == TradeStatus::Deposited,
    ensures
        trade.close_check(current_timestamp, close_wait_duration, is_mpc) == Err::<
            (),
            CustomError,
        >(CustomError::InvalidTradeStatus),
{
}

/// The close of an open trade is rejected whatever accounts it is called
/// with, and with `InvalidTradeStatus` where the depositor named is the
/// trade's own.
pub proof fn lemma_close_deposited_fails_for_any_accounts(
    accounts: CloseFinishedTradeAccounts,
    current_timestamp: u64,
)
    requires
        accounts.user_trade_detail.status == TradeStatus::Deposited,
    ensures
        close_finished_trade_result(accounts, current_timestamp) is Err,
        accounts.constraints() is Ok ==> close_finished_trade_result(
            accounts,
            current_timestamp,
        )->Err_0 == CustomError::InvalidTradeStatus,
{
}

/// A close that goes through is the close of a settled or claimed trade,
/// and what is left goes to the trade's depositor, never to anyone else.
pub proof fn lemma_close_pays_the_depositor(
    accounts: CloseFinishedTradeAccounts,
    current_timestamp: u64,
)
    ensures
        close_finished_trade_result(accounts, current_timestamp) matches Ok(outcome)
            ==> accounts.user_trade_detail.status != TradeStatus::Deposited
            && accounts.user_account == accounts.user_trade_detail.user_pubkey
            && outcome.recipient == accounts.user_trade_detail.user_pubkey,
        accounts.user_account != accounts.user_trade_detail.user_pubkey
            ==> close_finished_trade_result(accounts, current_timestamp) is Err
            && close_finished_trade_result(accounts, current_timestamp)->Err_0
            == CustomError::InvalidUserAccount,
{
}

/// A claimed trade can be closed by anyone at any time.
pub proof fn lemma_close_claimed_succeeds(
    trade: TradeDetail,
    current_timestamp: u64,
    close_wait_duration: u64,
    is_mpc: bool,
)
    requires
        trade.status == TradeStatus::Claimed,
    ensures
        trade.close_check(current_timestamp, close_wait_duration, is_mpc) == Ok::<
            (),
            CustomError,
        >(()),
{
}

/// A settled trade can be closed by its settlement authority at any time;
/// by anyone else exactly when the clock is past the deadline plus the
/// wait, and until then the close is rejected with `CloseNotAvailable`.
pub proof fn lemma_close_settled(
    trade: TradeDetail,
    current_timestamp: u64,
    close_wait_duration: u64,
)
    requires
        trade.status == TradeStatus::Settled,
    ensures
        trade.close_check(current_timestamp, close_wait_duration, true) == Ok::<(), CustomError>(
            (),
        ),
        current_timestamp <= trade.timeout + close_wait_duration ==> trade.close_check(
            current_timestamp,
            close_wait_duration,
            false,
        ) == Err::<(), CustomError>(CustomError::CloseNotAvailable),
        current_timestamp > trade.timeout + close_wait_duration ==> trade.close_check(
            current_timestamp,
            close_wait_duration,
            false,
        ) == Ok::<(), CustomError>(()),
{
}

/// A payment whose amount is not above its fee is always rejected: up to
/// the deadline, and with a whitelist entry that is the protocol's own, with
/// `InvalidAmount`.
pub proof fn lemma_payment_not_above_fee_fails(
    accounts: PaymentAccounts,
    payment_args: PaymentArgs,
    current_timestamp: i64,
    program_id: Pubkey,
)
    requires
        payment_args.amount <= payment_args.total_fee,
    ensures
        payment_result(accounts, payment_args, current_timestamp, program_id) is Err,
        accounts.constraints(program_id) is Ok && current_timestamp <= payment_args.deadline
            ==> payment_result(accounts, payment_args, current_timestamp, program_id)->Err_0
            == CustomError::InvalidAmount,
{
}

/// A payment that goes through leaves a receipt whose amount is above its
/// fee, and moves exactly the amount.
pub proof fn lemma_payment_receipt_is_above_fee(
    accounts: PaymentAccounts,
    payment_args: PaymentArgs,
    current_timestamp: i64,
    program_id: Pubkey,
)
    requires
        payment_result(accounts, payment_args, current_timestamp, program_id) is Ok,
    ensures
        ({
            let done = payment_result(accounts, payment_args, current_timestamp, program_id)->Ok_0;
            &&& done.0.payment_receipt.wf()
            &&& done.0.payment_receipt.payment_amount == payment_args.amount
            &&& done.0.payment_receipt.total_fee == payment_args.total_fee
            &&& done.0.payment_receipt.from_pubkey == accounts.signer
            &&& done.1.payout.total() == payment_args.amount
        }),
{
}

/// A receipt can be closed exactly when the clock is past the payment plus
/// the wait; until then the close is rejected with `CloseNotAvailable`.
pub proof fn lemma_receipt_closes_only_after_wait(
    receipt: PaymentReceipt,
    current_timestamp: u64,
    close_wait_duration: u64,
)
    ensures
        receipt.close_check(current_timestamp, close_wait_duration) is Ok <==> current_timestamp
            > receipt.payment_time + close_wait_duration,
        receipt.close_check(current_timestamp, close_wait_duration) is Err
            ==> receipt.close_check(current_timestamp, close_wait_duration)->Err_0
            == CustomError::CloseNotAvailable,
{
}

/// A receipt is closed by its payer and by nobody else, and only after the
/// wait: anyone else is rejected with `InvalidUserAccount`, the payer until
/// the wait is over with `CloseNotAvailable`.
pub proof fn lemma_receipt_is_closed_by_its_payer(
    accounts: ClosePaymentReceiptAccounts,
    current_timestamp: u64,
)
    ensures
        ({
            let receipt = accounts.payment_receipt;
            let result = close_payment_receipt_result(accounts, current_timestamp);
            &&& result is Ok <==> accounts.signer == receipt.from_pubkey && current_timestamp
                > receipt.payment_time + accounts.config.close_payment_duration
            &&& accounts.signer != receipt.from_pubkey ==> result is Err && result->Err_0
                == CustomError::InvalidUserAccount
            &&& accounts.signer == receipt.from_pubkey && current_timestamp <= receipt.payment_time
                + accounts.config.close_payment_duration ==> result is Err && result->Err_0
                == CustomError::CloseNotAvailable
        }),
{
}

/// The fee pool pays nobody but the receiver of the registry entry. Of
/// native currency it pays exactly where the pool keeps its reserve after
/// the withdrawal; a withdrawal above that, or above the pool, is rejected
/// with `InvalidAmount`.
pub proof fn lemma_fee_pool_pays_registered_receiver(
    accounts: WithdrawTotalFeeAccounts,
    withdraw_total_fee_args: WithdrawTotalFeeArgs,
    minimum_rent: u64,
    program_id: Pubkey,
)
    ensures
        ({
            let result = withdraw_total_fee_result(
                accounts,
                withdraw_total_fee_args,
                minimum_rent,
                program_id,
            );
            let registered = accounts.to_user == accounts.fee_receiver.receiver;
            let keeps_reserve = accounts.protocol_lamports - withdraw_total_fee_args.amount
                >= minimum_rent;
            &&& result is Ok ==> registered
            &&& !registered ==> result is Err && result->Err_0 == CustomError::InvalidRefundPubkey
            &&& withdraw_total_fee_args.token is None ==> (result is Ok <==> registered
                && keeps_reserve)
            &&& withdraw_total_fee_args.token is None && registered && !keeps_reserve
                ==> result->Err_0 == CustomError::InvalidAmount
            &&& result matches Ok(transfer) ==> transfer.amount() == withdraw_total_fee_args.amount
        }),
{
}

/// What a deposit moves into the vault is the amount that the record
/// holds, and what a settlement or a claim moves out of the vault is that
/// amount again: after either, nothing of the deposit is left in the vault.
pub proof fn lemma_vault_holds_the_amount(
    deposit_accounts: DepositAccounts,
    deposit_args: DepositArgs,
    settlement_accounts: SettlementAccounts,
    settlement_args: SettlementArgs,
    claim_accounts: Claim,
    claim_args: ClaimArgs,
    current_timestamp: i64,
    program_id: Pubkey,
)
    requires
        settlement_accounts.user_trade_detail.wf(),
    ensures
        deposit_result(deposit_accounts, deposit_args, current_timestamp, program_id) matches Ok(
            done,
        ) ==> done.1.transfer.amount() == done.0.user_trade_detail.amount
            && done.1.event.amount == done.0.user_trade_detail.amount,
        settlement_result(
            settlement_accounts,
            settlement_args,
            current_timestamp,
            program_id,
        ) matches Ok(done) ==> done.1.payout.total() == settlement_accounts.user_trade_detail.amount,
        claim_result(claim_accounts, claim_args, current_timestamp, program_id) matches Ok(done)
            ==> done.1.transfer.amount() == claim_accounts.user_trade_detail.amount
            && done.1.event.amount == claim_accounts.user_trade_detail.amount,
{
}

/// A one-time key guards one open trade at a time. A deposit goes through
/// only where the key has no live guard, and leaves a live guard behind; so
/// a second deposit under the key is rejected until a settlement or a claim
/// has destroyed the guard, with `NonceAccountBeingUsed` where its whitelist
/// entry is the protocol's own.
pub proof fn lemma_one_time_key_guards_one_trade(
    first: DepositAccounts,
    first_args: DepositArgs,
    first_timestamp: i64,
    second: DepositAccounts,
    second_args: DepositArgs,
    second_timestamp: i64,
    program_id: Pubkey,
)
    requires
        deposit_result(first, first_args, first_timestamp, program_id) is Ok,
        second.nonce_check_account == deposit_result(
            first,
            first_args,
            first_timestamp,
            program_id,
        )->Ok_0.0.nonce_check_account,
    ensures
        first.nonce_check_account is None,
        second.nonce_check_account is Some,
        deposit_result(second, second_args, second_timestamp, program_id) is Err,
        second.constraints(program_id) is Ok ==> deposit_result(
            second,
            second_args,
            second_timestamp,
            program_id,
        )->Err_0 == CustomError::NonceAccountBeingUsed,
{
}

/// A settlement or a claim that goes through destroys the guard of the
/// trade's one-time key; one that is rejected leaves it as it is.
pub proof fn lemma_finished_trade_frees_its_one_time_key(
    settlement_accounts: SettlementAccounts,
    settlement_args: SettlementArgs,
    claim_accounts: Claim,
    claim_args: ClaimArgs,
    current_timestamp: i64,
    program_id: Pubkey,
)
    ensures
        settlement_result(
            settlement_accounts,
            settlement_args,
            current_timestamp,
            program_id,
        ) matches Ok(done) ==> done.0.nonce_check_account is None,
        claim_result(claim_accounts, claim_args, current_timestamp, program_id) matches Ok(done)
            ==> done.0.nonce_check_account is None,
{
}

/// A deposit opens a new trade and never sets a trade back: the record that
/// it is taken on is blank, and the record that it leaves is open, with no
/// fee set and no market maker recorded.
pub proof fn lemma_deposit_opens_a_new_trade(
    accounts: DepositAccounts,
    deposit_args: DepositArgs,
    current_timestamp: i64,
    program_id: Pubkey,
)
    requires
        accounts.user_trade_detail.is_blank(),
    ensures
        accounts.user_trade_detail.status == TradeStatus::Deposited,
        deposit_result(accounts, deposit_args, current_timestamp, program_id) matches Ok(done)
            ==> done.0.user_trade_detail.status == TradeStatus::Deposited
            && done.0.user_trade_detail.total_fee is None
            && done.0.user_trade_detail.settled_pmm is None && done.0.user_trade_detail.wf()
            && moves_forward(
            accounts.user_trade_detail.status,
            done.0.user_trade_detail.status,
        ),
{
}

/// Over any history of a trade whose fee was within its amount at the
/// start, the fee stays within the amount.
pub proof fn lemma_history_keeps_fee_within_amount(calls: Seq<TradeCall>, j: int)
    requires
        is_history(calls),
        0 <= j < calls.len(),
        calls[0].record_before().wf(),
    ensures
        calls[j].record_before().wf(),
        calls[j].record_after().wf(),
    decreases j,
{
    if j > 0 {
        lemma_history_keeps_fee_within_amount(calls, j - 1);
        assert(calls[j - 1 + 1].record_before() == calls[j - 1].record_after());
    }
    lemma_call_moves_forward(calls[j]);
}

/// Over the whole life of a trade, from the deposit on a blank record
/// through every call that follows, the status only moves forward, the
/// trade stays the trade that was deposited, and its fee stays within its
/// amount.
pub proof fn lemma_life_moves_forward(
    accounts: DepositAccounts,
    deposit_args: DepositArgs,
    current_timestamp: i64,
    program_id: Pubkey,
    calls: Seq<TradeCall>,
    i: int,
    j: int,
)
    requires
        accounts.user_trade_detail.is_blank(),
        deposit_result(accounts, deposit_args, current_timestamp, program_id) is Ok,
        is_history(calls),
        0 <= i <= j < calls.len(),
        calls[0].record_before() == deposit_result(
            accounts,
            deposit_args,
            current_timestamp,
            program_id,
        )->Ok_0.0.user_trade_detail,
    ensures
        moves_forward(accounts.user_trade_detail.status, calls[j].record_after().status),
        moves_forward(calls[0].record_before().status, calls[j].record_after().status),
        moves_forward(calls[i].record_after().status, calls[j].record_after().status),
        same_trade(calls[0].record_before(), calls[j].record_after()),
        calls[j].record_after().wf(),
{
    lemma_deposit_opens_a_new_trade(accounts, deposit_args, current_timestamp, program_id);
    lemma_history_moves_forward(calls, 0, j);
    lemma_history_moves_forward(calls, i, j);
    lemma_history_keeps_fee_within_amount(calls, j);
}

} // verus!
