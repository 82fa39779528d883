use trade_escrow::address::wsol_mint;
use trade_escrow::error::CustomError;
use trade_escrow::instructions::admin_and_operator::add_fee_receiver::{
    handler_add_fee_receiver, AddFeeReceiverAccounts,
};
use trade_escrow::instructions::admin_and_operator::add_or_remove_operator::{
    handler_add_or_remove_operator, AddOrRemoveOperator,
};
use trade_escrow::instructions::admin_and_operator::add_or_update_whitelist::{
    handler_add_or_update_whitelist, AddOrUpdateWhitelist,
};
use trade_escrow::instructions::admin_and_operator::remove_fee_receiver::{
    handler_remove_fee_receiver, RemoveFeeReceiverAccounts,
};
use trade_escrow::instructions::admin_and_operator::remove_whitelist::{
    handler_remove_whitelist, RemoveWhitelist,
};
use trade_escrow::instructions::admin_and_operator::set_close_wait_duration::{
    handler_set_close_wait_duration, SetCloseWaitDuration, SetCloseWaitDurationArgs,
};
use trade_escrow::instructions::claim::{handler_claim, Claim, ClaimArgs};
use trade_escrow::instructions::close_finished_trade::{
    handler_close_finished_trade, CloseFinishedTradeAccounts, CloseFinishedTradeArgs,
};
use trade_escrow::instructions::close_payment_receipt::{
    handler_close_payment_receipt, ClosePaymentReceiptAccounts,
};
use trade_escrow::instructions::deposit::{
    handler_deposit, DepositAccounts, DepositArgs, TradeDetailInput,
};
use trade_escrow::instructions::payment::{handler_payment, PaymentAccounts, PaymentArgs};
use trade_escrow::instructions::set_total_fee::{
    handler_set_total_fee, SetTotalFee, SetTotalFeeArgs,
};
use trade_escrow::instructions::settlement::{
    handler_settlement, SettlementAccounts, SettlementArgs,
};
use trade_escrow::instructions::withdraw_total_fee::{
    handler_withdraw_total_fee, WithdrawTotalFeeAccounts, WithdrawTotalFeeArgs,
};
use trade_escrow::pubkey::Pubkey;
use trade_escrow::state::config::Config;
use trade_escrow::state::fee_receiver::FeeReceiver;
use trade_escrow::state::nonce_check_account::NonceCheckAccount;
use trade_escrow::state::payment_receipt::PaymentReceipt;
use trade_escrow::state::vault::{TradeDetail, TradeInfo, TradeInput, TradeStatus};
use trade_escrow::state::whitelist_token::WhitelistToken;

const TIMEOUT: i64 = 1_000;

fn key(fill: u8) -> Pubkey {
    Pubkey { bytes: [fill; 32] }
}

fn program_id() -> Pubkey {
    key(200)
}

fn trade(status: TradeStatus) -> TradeDetail {
    TradeDetail {
        trade_id: [9; 32],
        user_pubkey: key(1),
        token: None,
        amount: 1_000,
        timeout: TIMEOUT,
        mpc_pubkey: key(7),
        user_ephemeral_pubkey: key(2),
        refund_pubkey: key(8),
        total_fee: Some(30),
        status,
        settled_pmm: None,
        _reserve: [0; 8],
    }
}

fn config() -> Config {
    Config {
        _reserve: [0; 7],
        admin: key(100),
        close_trade_duration: 60,
        close_payment_duration: 120,
        operators: vec![key(101)],
    }
}

fn settlement_accounts() -> SettlementAccounts {
    SettlementAccounts {
        signer: key(7),
        user_account: key(1),
        user_ephemeral_account: key(2),
        user_trade_detail: trade(TradeStatus::Deposited),
        nonce_check_account: Some(NonceCheckAccount {}),
        vault: key(13),
        refund_account: key(8),
        protocol: key(15),
        pmm: key(16),
        remaining_accounts: None,
    }
}

fn settle(accounts: SettlementAccounts, now: i64) -> Result<SettlementAccounts, CustomError> {
    let mut after = accounts;
    match handler_settlement(&mut after, &SettlementArgs { trade_id: [9; 32] }, now, &program_id()) {
        Ok(_) => Ok(after),
        Err(error) => {
            assert_eq!(after, accounts);
            Err(error)
        }
    }
}

#[test]
fn settlement_by_the_authority_alone_is_rejected() {
    let accounts = SettlementAccounts { user_ephemeral_account: key(99), ..settlement_accounts() };
    assert_eq!(settle(accounts, 5), Err(CustomError::Unauthorized));
}

#[test]
fn settlement_by_the_one_time_key_alone_is_rejected() {
    let accounts = SettlementAccounts { signer: key(2), ..settlement_accounts() };
    assert_eq!(settle(accounts, 5), Err(CustomError::Unauthorized));
    let accounts = SettlementAccounts { signer: key(99), ..settlement_accounts() };
    assert_eq!(settle(accounts, 5), Err(CustomError::Unauthorized));
}

#[test]
fn settlement_with_another_depositor_or_refund_address_is_rejected() {
    let accounts = SettlementAccounts { user_account: key(99), ..settlement_accounts() };
    assert_eq!(settle(accounts, 5), Err(CustomError::InvalidUserAccount));
    let accounts = SettlementAccounts { refund_account: key(99), ..settlement_accounts() };
    assert_eq!(settle(accounts, 5), Err(CustomError::InvalidRefundPubkey));
}

#[test]
fn settlement_looks_at_the_accounts_before_the_clock_and_the_status() {
    let accounts = SettlementAccounts { signer: key(99), ..settlement_accounts() };
    assert_eq!(settle(accounts, TIMEOUT + 1), Err(CustomError::Unauthorized));
    let accounts = SettlementAccounts {
        user_account: key(99),
        user_trade_detail: trade(TradeStatus::Claimed),
        ..settlement_accounts()
    };
    assert_eq!(settle(accounts, 5), Err(CustomError::InvalidUserAccount));
    let accounts = SettlementAccounts {
        signer: key(99),
        user_account: key(98),
        user_ephemeral_account: key(97),
        refund_account: key(96),
        ..settlement_accounts()
    };
    assert_eq!(settle(accounts, 5), Err(CustomError::Unauthorized));
}

#[test]
fn settlement_with_both_keys_and_the_trade_s_accounts_goes_through() {
    let after = settle(settlement_accounts(), TIMEOUT).unwrap();
    assert_eq!(after.user_trade_detail.status, TradeStatus::Settled);
    assert_eq!(after.user_trade_detail.settled_pmm, Some(key(16)));
    assert_eq!(after.nonce_check_account, None);
}

#[test]
fn fee_is_set_by_the_settlement_authority_only() {
    let fee = SetTotalFeeArgs { trade_id: [9; 32], amount: 40 };
    let mut accounts =
        SetTotalFee { signer: key(2), user_trade_detail: trade(TradeStatus::Deposited) };
    let before = accounts;
    assert_eq!(handler_set_total_fee(&mut accounts, &fee, 5), Err(CustomError::Unauthorized));
    assert_eq!(handler_set_total_fee(&mut accounts, &fee, TIMEOUT + 1), Err(CustomError::Unauthorized));
    assert_eq!(accounts, before);
    accounts.signer = key(7);
    assert_eq!(handler_set_total_fee(&mut accounts, &fee, 5), Ok(()));
    assert_eq!(accounts.user_trade_detail.total_fee, Some(40));
    assert_eq!(accounts.user_trade_detail.status, TradeStatus::Deposited);
}

fn claim_accounts() -> Claim {
    Claim {
        signer: key(30),
        user_account: key(1),
        nonce_check_account: Some(NonceCheckAccount {}),
        user_trade_detail: trade(TradeStatus::Deposited),
        vault: key(13),
        refund_account: key(8),
        remaining_accounts: None,
    }
}

#[test]
fn claim_pays_no_other_account_than_the_refund_address() {
    let claim_args = ClaimArgs { trade_id: [9; 32] };
    let mut accounts = Claim { refund_account: key(30), ..claim_accounts() };
    let before = accounts;
    assert_eq!(
        handler_claim(&mut accounts, &claim_args, TIMEOUT + 1, &program_id()),
        Err(CustomError::InvalidRefundPubkey)
    );
    assert_eq!(accounts, before);
    let mut accounts = Claim { user_account: key(30), ..claim_accounts() };
    assert_eq!(
        handler_claim(&mut accounts, &claim_args, TIMEOUT + 1, &program_id()),
        Err(CustomError::InvalidUserAccount)
    );
    assert_eq!(
        handler_claim(&mut accounts, &claim_args, TIMEOUT, &program_id()),
        Err(CustomError::InvalidUserAccount)
    );
    let mut accounts = claim_accounts();
    assert!(handler_claim(&mut accounts, &claim_args, TIMEOUT + 1, &program_id()).is_ok());
}

fn close_accounts(status: TradeStatus) -> CloseFinishedTradeAccounts {
    CloseFinishedTradeAccounts {
        signer: key(30),
        user_account: key(1),
        user_trade_detail: trade(status),
        vault: key(13),
        config: config(),
        vault_token_account: None,
        user_token_account: None,
        token_program: key(60),
    }
}

#[test]
fn close_sends_what_is_left_to_the_depositor_only() {
    let args = CloseFinishedTradeArgs { trade_id: [9; 32] };
    let mut accounts = close_accounts(TradeStatus::Claimed);
    accounts.user_account = key(30);
    assert_eq!(
        handler_close_finished_trade(&accounts, &args, 5),
        Err(CustomError::InvalidUserAccount)
    );
    let mut accounts = close_accounts(TradeStatus::Deposited);
    accounts.user_account = key(30);
    assert_eq!(
        handler_close_finished_trade(&accounts, &args, 5),
        Err(CustomError::InvalidUserAccount)
    );
    let outcome = handler_close_finished_trade(&close_accounts(TradeStatus::Claimed), &args, 5);
    assert_eq!(outcome.map(|outcome| outcome.recipient), Ok(key(1)));
}

fn receipt() -> PaymentReceipt {
    PaymentReceipt {
        trade_id: [9; 32],
        from_pubkey: key(16),
        to_pubkey: key(1),
        token: None,
        payment_amount: 500,
        total_fee: 5,
        payment_time: 10_000,
        _reserve: [0; 8],
    }
}

#[test]
fn receipt_is_not_closed_by_anyone_but_its_payer() {
    let other =
        ClosePaymentReceiptAccounts { signer: key(1), payment_receipt: receipt(), config: config() };
    assert_eq!(handler_close_payment_receipt(&other, 10_121), Err(CustomError::InvalidUserAccount));
    assert_eq!(handler_close_payment_receipt(&other, 0), Err(CustomError::InvalidUserAccount));
    let payer =
        ClosePaymentReceiptAccounts { signer: key(16), payment_receipt: receipt(), config: config() };
    assert_eq!(handler_close_payment_receipt(&payer, 10_120), Err(CustomError::CloseNotAvailable));
    assert_eq!(handler_close_payment_receipt(&payer, 10_121), Ok(()));
}

#[test]
fn fee_pool_pays_no_other_account_than_the_registered_receiver() {
    let accounts = WithdrawTotalFeeAccounts {
        signer: key(30),
        to_user: key(30),
        fee_receiver: FeeReceiver { receiver: key(40), _reserve: [0; 4] },
        protocol: key(15),
        protocol_lamports: 1_000_000,
        remaining_accounts: None,
    };
    let withdrawal = WithdrawTotalFeeArgs { token: None, amount: 10 };
    assert_eq!(
        handler_withdraw_total_fee(&accounts, &withdrawal, 890_880, &program_id()),
        Err(CustomError::InvalidRefundPubkey)
    );
    let accounts = WithdrawTotalFeeAccounts { to_user: key(40), ..accounts };
    assert!(handler_withdraw_total_fee(&accounts, &withdrawal, 890_880, &program_id()).is_ok());
}

#[test]
fn deposit_and_payment_need_the_protocol_s_own_whitelist_entry() {
    let signer = key(1);
    let input = TradeInput {
        session_id: [3; 32],
        solver: [4; 20],
        trade_info: TradeInfo {
            amount_in: {
                let mut bytes = [0u8; 32];
                bytes[31] = 200;
                bytes
            },
            from_chain: [
                anchor_lang::prelude::Pubkey::new_from_array(signer.bytes).to_string().into_bytes(),
                b"solana".to_vec(),
                b"native".to_vec(),
            ],
            to_chain: [b"a".to_vec(), b"b".to_vec(), b"c".to_vec()],
        },
    };
    let trade_id = input.calculate_trade_id();
    let deposit_args = DepositArgs {
        input,
        data: TradeDetailInput { timeout: TIMEOUT, mpc_pubkey: key(7), refund_pubkey: key(8) },
        trade_id,
    };
    let whitelist_token = WhitelistToken { token: wsol_mint(), amount: 100, _reserve: [0; 4] };
    let mut accounts = DepositAccounts {
        signer,
        user_trade_detail: TradeDetail::default(),
        ephemeral_account: key(2),
        nonce_check_account: None,
        vault: key(13),
        whitelist_token,
        whitelist_token_owner: key(201),
        remaining_accounts: None,
    };
    let before = accounts;
    assert_eq!(
        handler_deposit(&mut accounts, &deposit_args, 5, &program_id()),
        Err(CustomError::NotWhitelistedToken)
    );
    assert_eq!(accounts, before);
    accounts.whitelist_token_owner = program_id();
    assert!(handler_deposit(&mut accounts, &deposit_args, 5, &program_id()).is_ok());

    let payment_args =
        PaymentArgs { trade_id: [9; 32], token: None, amount: 500, total_fee: 5, deadline: 10 };
    let mut accounts = PaymentAccounts {
        signer: key(16),
        to_user: key(1),
        protocol: key(15),
        whitelist_token,
        whitelist_token_owner: key(201),
        payment_receipt: receipt(),
        remaining_accounts: None,
    };
    let before = accounts;
    assert_eq!(
        handler_payment(&mut accounts, &payment_args, 5, &program_id()),
        Err(CustomError::NotWhitelistedToken)
    );
    assert_eq!(
        handler_payment(&mut accounts, &payment_args, 11, &program_id()),
        Err(CustomError::NotWhitelistedToken)
    );
    assert_eq!(accounts, before);
    accounts.whitelist_token_owner = program_id();
    assert!(handler_payment(&mut accounts, &payment_args, 5, &program_id()).is_ok());
}

#[test]
fn admin_handlers_reject_everyone_but_the_admin() {
    let mut accounts = AddOrRemoveOperator { signer: key(101), config: config() };
    assert_eq!(
        handler_add_or_remove_operator(&mut accounts, key(102), true),
        Err(CustomError::Unauthorized)
    );
    assert_eq!(
        handler_add_or_remove_operator(&mut accounts, key(101), false),
        Err(CustomError::Unauthorized)
    );
    assert_eq!(accounts.config, config());

    let mut accounts = AddFeeReceiverAccounts {
        signer: key(101),
        config: config(),
        fee_receiver: FeeReceiver { receiver: key(0), _reserve: [0; 4] },
    };
    assert_eq!(handler_add_fee_receiver(&mut accounts, key(40)), Err(CustomError::Unauthorized));
    assert_eq!(accounts.fee_receiver.receiver, key(0));
    accounts.signer = key(100);
    assert_eq!(handler_add_fee_receiver(&mut accounts, key(40)), Ok(()));

    let remove = RemoveFeeReceiverAccounts {
        signer: key(101),
        config: config(),
        fee_receiver_account: accounts.fee_receiver,
    };
    assert_eq!(handler_remove_fee_receiver(&remove, key(40)), Err(CustomError::Unauthorized));
    let remove = RemoveFeeReceiverAccounts { signer: key(100), ..remove };
    assert_eq!(handler_remove_fee_receiver(&remove, key(40)), Ok(()));
}

#[test]
fn operator_handlers_reject_everyone_but_an_operator() {
    let mut accounts = AddOrUpdateWhitelist {
        operator: key(100),
        config: config(),
        whitelist_token: WhitelistToken { token: key(0), amount: 0, _reserve: [0; 4] },
        token: key(50),
    };
    assert_eq!(handler_add_or_update_whitelist(&mut accounts, 7), Err(CustomError::Unauthorized));
    assert_eq!(accounts.whitelist_token.amount, 0);
    accounts.operator = key(101);
    assert_eq!(handler_add_or_update_whitelist(&mut accounts, 7), Ok(()));
    assert_eq!(accounts.whitelist_token.amount, 7);

    let remove = RemoveWhitelist {
        operator: key(100),
        config: config(),
        whitelist_token: accounts.whitelist_token,
        token: key(50),
    };
    assert_eq!(handler_remove_whitelist(&remove), Err(CustomError::Unauthorized));
    let remove = RemoveWhitelist { operator: key(101), ..remove };
    assert_eq!(handler_remove_whitelist(&remove), Ok(()));

    let mut accounts = SetCloseWaitDuration { operator: key(100), config: config() };
    let waits =
        SetCloseWaitDurationArgs { close_trade_duration: Some(1), close_payment_duration: Some(2) };
    assert_eq!(
        handler_set_close_wait_duration(&mut accounts, &waits),
        Err(CustomError::Unauthorized)
    );
    assert_eq!(accounts.config, config());
    accounts.operator = key(101);
    assert_eq!(handler_set_close_wait_duration(&mut accounts, &waits), Ok(()));
    assert_eq!(accounts.config.close_trade_duration, 1);
    assert_eq!(accounts.config.close_payment_duration, 2);
}
