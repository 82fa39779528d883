use trade_escrow::address::{get_associated_token_address_with_program_id, wsol_mint};
use trade_escrow::deposit;
use trade_escrow::error::CustomError;
use trade_escrow::event::Deposited;
use trade_escrow::instructions::deposit::{
    assert_deposit, handler_deposit, DepositAccounts, DepositArgs, DepositOutcome, TradeDetailInput,
};
use trade_escrow::pubkey::Pubkey;
use trade_escrow::state::nonce_check_account::NonceCheckAccount;
use trade_escrow::state::vault::{TradeDetail, TradeInfo, TradeInput, TradeStatus};
use trade_escrow::state::whitelist_token::WhitelistToken;
use trade_escrow::transfer::{TokenAccounts, Transfer};

const NOW: i64 = 1_700_000_000;

fn key(fill: u8) -> Pubkey {
    Pubkey { bytes: [fill; 32] }
}

fn text_of(key: &Pubkey) -> Vec<u8> {
    anchor_lang::prelude::Pubkey::new_from_array(key.bytes).to_string().into_bytes()
}

fn program_id() -> Pubkey {
    key(200)
}

fn signer() -> Pubkey {
    key(1)
}

fn mint() -> Pubkey {
    key(50)
}

fn token_program() -> Pubkey {
    Pubkey { bytes: anchor_spl::token::ID.to_bytes() }
}

fn amount_bytes(amount: u64) -> [u8; 32] {
    let mut bytes = [0u8; 32];
    bytes[24..].copy_from_slice(&amount.to_be_bytes());
    bytes
}

fn args_for(asset: Vec<u8>, amount: u64) -> DepositArgs {
    let input = TradeInput {
        session_id: [3u8; 32],
        solver: [4u8; 20],
        trade_info: TradeInfo {
            amount_in: amount_bytes(amount),
            from_chain: [text_of(&signer()), b"solana".to_vec(), asset],
            to_chain: [b"0xuser".to_vec(), b"ethereum".to_vec(), b"0xtoken".to_vec()],
        },
    };
    let trade_id = input.calculate_trade_id();
    DepositArgs {
        input,
        data: TradeDetailInput { timeout: NOW + 600, mpc_pubkey: key(7), refund_pubkey: key(8) },
        trade_id,
    }
}

fn native_args(amount: u64) -> DepositArgs {
    args_for(b"native".to_vec(), amount)
}

fn token_args(amount: u64) -> DepositArgs {
    args_for(text_of(&mint()), amount)
}

fn native_accounts() -> DepositAccounts {
    DepositAccounts {
        signer: signer(),
        user_trade_detail: TradeDetail::default(),
        ephemeral_account: key(2),
        nonce_check_account: None,
        vault: key(3),
        whitelist_token: WhitelistToken { token: wsol_mint(), amount: 100, _reserve: [0; 4] },
        whitelist_token_owner: program_id(),
        remaining_accounts: None,
    }
}

fn token_accounts() -> DepositAccounts {
    let tp = token_program();
    DepositAccounts {
        whitelist_token: WhitelistToken { token: mint(), amount: 100, _reserve: [0; 4] },
        remaining_accounts: Some(TokenAccounts {
            token_program: tp,
            mint: mint(),
            decimals: Some(6),
            source: get_associated_token_address_with_program_id(&signer(), &mint(), &tp).unwrap(),
            destination: get_associated_token_address_with_program_id(&key(3), &mint(), &tp)
                .unwrap(),
            protocol_ata: None,
        }),
        ..native_accounts()
    }
}

fn rejected(accounts: DepositAccounts, args: &DepositArgs, now: i64) -> CustomError {
    let mut after = accounts;
    let error = handler_deposit(&mut after, args, now, &program_id()).unwrap_err();
    assert_eq!(after, accounts);
    error
}

#[test]
fn native_deposit_fills_the_record_and_moves_the_amount() {
    let mut accounts = native_accounts();
    let args = native_args(1_000_000);
    let outcome = handler_deposit(&mut accounts, &args, NOW, &program_id()).unwrap();
    assert_eq!(
        outcome,
        DepositOutcome {
            transfer: Transfer::Sol { source: signer(), destination: key(3), amount: 1_000_000 },
            event: Deposited {
                trade_id: args.trade_id,
                from_pubkey: signer(),
                token: None,
                amount: 1_000_000,
                vault: key(3),
            },
        }
    );
    assert_eq!(
        accounts.user_trade_detail,
        TradeDetail {
            trade_id: args.trade_id,
            user_pubkey: signer(),
            token: None,
            amount: 1_000_000,
            timeout: NOW + 600,
            mpc_pubkey: key(7),
            user_ephemeral_pubkey: key(2),
            refund_pubkey: key(8),
            total_fee: None,
            status: TradeStatus::Deposited,
            settled_pmm: None,
            _reserve: [0; 8],
        }
    );
    assert_eq!(accounts.nonce_check_account, Some(NonceCheckAccount {}));
}

#[test]
fn token_deposit_moves_tokens_between_the_associated_accounts() {
    let mut accounts = token_accounts();
    let token_accounts = accounts.remaining_accounts.unwrap();
    let args = token_args(5_000);
    let outcome = handler_deposit(&mut accounts, &args, NOW, &program_id()).unwrap();
    assert_eq!(
        outcome.transfer,
        Transfer::Token {
            token_program: token_program(),
            source: token_accounts.source,
            mint: mint(),
            destination: token_accounts.destination,
            authority: signer(),
            amount: 5_000,
            decimals: 6,
        }
    );
    assert_eq!(outcome.event.token, Some(mint()));
    assert_eq!(accounts.user_trade_detail.token, Some(mint()));
    assert_eq!(accounts.user_trade_detail.amount, 5_000);
}

#[test]
fn deposit_at_the_deadline_is_taken() {
    let mut accounts = native_accounts();
    assert!(handler_deposit(&mut accounts, &native_args(100), NOW + 600, &program_id()).is_ok());
}

#[test]
fn deposit_with_a_live_guard_is_rejected() {
    let mut accounts = native_accounts();
    accounts.nonce_check_account = Some(NonceCheckAccount {});
    assert_eq!(rejected(accounts, &native_args(1000), NOW), CustomError::NonceAccountBeingUsed);
}

#[test]
fn second_deposit_with_the_same_one_time_key_is_rejected() {
    let mut accounts = native_accounts();
    handler_deposit(&mut accounts, &native_args(1000), NOW, &program_id()).unwrap();
    let mut second = native_accounts();
    second.nonce_check_account = accounts.nonce_check_account;
    let before = second;
    assert_eq!(
        handler_deposit(&mut second, &native_args(2000), NOW, &program_id()),
        Err(CustomError::NonceAccountBeingUsed)
    );
    assert_eq!(second, before);
}

#[test]
fn deposit_by_another_signer_is_rejected() {
    let mut accounts = native_accounts();
    accounts.signer = key(9);
    assert_eq!(rejected(accounts, &native_args(1000), NOW), CustomError::Unauthorized);
}

#[test]
fn deposit_with_an_unreadable_depositor_is_rejected() {
    let mut args = native_args(1000);
    args.input.trade_info.from_chain[0] = b"not a key".to_vec();
    assert_eq!(rejected(native_accounts(), &args, NOW), CustomError::InvalidPublicKey);
}

#[test]
fn deposit_with_an_unreadable_asset_is_rejected() {
    let mut args = native_args(1000);
    args.input.trade_info.from_chain[2] = vec![0xff];
    assert_eq!(rejected(native_accounts(), &args, NOW), CustomError::InvalidPublicKey);
}

#[test]
fn deposit_after_the_deadline_is_rejected() {
    assert_eq!(
        rejected(native_accounts(), &native_args(1000), NOW + 601),
        CustomError::InvalidTimeout
    );
}

#[test]
fn deposit_of_nothing_is_rejected() {
    assert_eq!(rejected(native_accounts(), &native_args(0), NOW), CustomError::DepositZeroAmount);
}

#[test]
fn deposit_below_the_minimum_is_rejected() {
    assert_eq!(rejected(native_accounts(), &native_args(99), NOW), CustomError::InvalidAmount);
    let mut accounts = native_accounts();
    assert!(handler_deposit(&mut accounts, &native_args(100), NOW, &program_id()).is_ok());
}

#[test]
fn deposit_under_another_id_is_rejected() {
    let mut args = native_args(1000);
    args.trade_id[5] ^= 0x10;
    assert_eq!(rejected(native_accounts(), &args, NOW), CustomError::InvalidTradeId);
}

#[test]
fn deposit_with_changed_parameters_is_rejected() {
    let mut args = native_args(1000);
    args.input.session_id[0] ^= 1;
    assert_eq!(rejected(native_accounts(), &args, NOW), CustomError::InvalidTradeId);

    let mut args = native_args(1000);
    args.input.solver[19] ^= 0x80;
    assert_eq!(rejected(native_accounts(), &args, NOW), CustomError::InvalidTradeId);

    let mut args = native_args(1000);
    args.input.trade_info.amount_in[31] ^= 1;
    assert_eq!(rejected(native_accounts(), &args, NOW), CustomError::InvalidTradeId);

    let mut args = native_args(1000);
    args.input.trade_info.from_chain[1][0] ^= 1;
    assert_eq!(rejected(native_accounts(), &args, NOW), CustomError::InvalidTradeId);

    for part in 0..3 {
        let mut args = native_args(1000);
        args.input.trade_info.to_chain[part][0] ^= 1;
        assert_eq!(rejected(native_accounts(), &args, NOW), CustomError::InvalidTradeId);
    }
}

#[test]
fn deposit_of_an_asset_that_is_not_listed_is_rejected() {
    let mut accounts = native_accounts();
    accounts.whitelist_token.token = mint();
    assert_eq!(rejected(accounts, &native_args(1000), NOW), CustomError::NotWhitelistedToken);

    let mut accounts = token_accounts();
    accounts.whitelist_token.token = key(51);
    assert_eq!(rejected(accounts, &token_args(1000), NOW), CustomError::NotWhitelistedToken);
}

#[test]
fn token_deposit_without_token_accounts_is_rejected() {
    let mut accounts = token_accounts();
    accounts.remaining_accounts = None;
    assert_eq!(rejected(accounts, &token_args(1000), NOW), CustomError::InvalidTokenAccount);
}

#[test]
fn token_deposit_with_wrong_token_accounts_is_rejected() {
    let good = token_accounts();
    let token_accounts = good.remaining_accounts.unwrap();

    let mut accounts = good;
    accounts.remaining_accounts = Some(TokenAccounts { mint: key(51), ..token_accounts });
    assert_eq!(rejected(accounts, &token_args(1000), NOW), CustomError::InvalidMintKey);

    let mut accounts = good;
    accounts.remaining_accounts = Some(TokenAccounts { source: key(60), ..token_accounts });
    assert_eq!(rejected(accounts, &token_args(1000), NOW), CustomError::InvalidSourceAta);

    let mut accounts = good;
    accounts.remaining_accounts =
        Some(TokenAccounts { destination: token_accounts.source, ..token_accounts });
    assert_eq!(rejected(accounts, &token_args(1000), NOW), CustomError::InvalidDestinationAta);
}

#[test]
fn deposit_checks_the_owner_of_the_whitelist_entry_first() {
    let mut accounts = native_accounts();
    accounts.whitelist_token_owner = key(201);
    accounts.nonce_check_account = Some(NonceCheckAccount {});
    let before = accounts;
    assert_eq!(
        deposit(&mut accounts, &native_args(1000), NOW, &program_id()),
        Err(CustomError::NotWhitelistedToken)
    );
    assert_eq!(accounts, before);

    let mut accounts = native_accounts();
    assert!(deposit(&mut accounts, &native_args(1000), NOW, &program_id()).is_ok());
    assert_eq!(accounts.user_trade_detail.amount, 1000);
}

#[test]
fn deposit_of_a_wide_amount_keeps_its_low_eight_bytes() {
    let mut args = native_args(0);
    args.input.trade_info.amount_in[0] = 1;
    args.input.trade_info.amount_in[30] = 2;
    args.trade_id = args.input.calculate_trade_id();
    let mut accounts = native_accounts();
    let outcome = handler_deposit(&mut accounts, &args, NOW, &program_id()).unwrap();
    assert_eq!(outcome.event.amount, 512);
    assert_eq!(accounts.user_trade_detail.amount, 512);
}

#[test]
fn deposit_s_early_checks_answer_in_their_order() {
    let accounts = native_accounts();
    assert_eq!(assert_deposit(&accounts, &native_args(1000), NOW, &program_id()), Ok(None));
    assert_eq!(
        assert_deposit(&token_accounts(), &token_args(1000), NOW, &program_id()),
        Ok(Some(mint()))
    );
    let mut wrong_id = native_args(1000);
    wrong_id.trade_id[0] ^= 1;
    assert_eq!(assert_deposit(&accounts, &wrong_id, NOW, &program_id()), Ok(None));

    let mut everything_wrong = native_accounts();
    everything_wrong.whitelist_token_owner = key(201);
    everything_wrong.nonce_check_account = Some(NonceCheckAccount {});
    everything_wrong.signer = key(9);
    assert_eq!(
        assert_deposit(&everything_wrong, &native_args(0), NOW + 601, &program_id()),
        Err(CustomError::NotWhitelistedToken)
    );
    everything_wrong.whitelist_token_owner = program_id();
    assert_eq!(
        assert_deposit(&everything_wrong, &native_args(0), NOW + 601, &program_id()),
        Err(CustomError::NonceAccountBeingUsed)
    );
    everything_wrong.nonce_check_account = None;
    assert_eq!(
        assert_deposit(&everything_wrong, &native_args(0), NOW + 601, &program_id()),
        Err(CustomError::Unauthorized)
    );
    everything_wrong.signer = signer();
    assert_eq!(
        assert_deposit(&everything_wrong, &native_args(0), NOW + 601, &program_id()),
        Err(CustomError::InvalidTimeout)
    );
    assert_eq!(
        assert_deposit(&everything_wrong, &native_args(0), NOW, &program_id()),
        Err(CustomError::DepositZeroAmount)
    );
    assert_eq!(
        assert_deposit(&everything_wrong, &native_args(99), NOW, &program_id()),
        Err(CustomError::InvalidAmount)
    );
}

#[test]
fn deposit_leaves_an_open_record_with_nothing_else_set() {
    let mut accounts = native_accounts();
    assert!(accounts.user_trade_detail.is_new());
    handler_deposit(&mut accounts, &native_args(1000), NOW, &program_id()).unwrap();
    assert!(!accounts.user_trade_detail.is_new());
    assert_eq!(accounts.user_trade_detail.status, TradeStatus::Deposited);
    assert_eq!(accounts.user_trade_detail.total_fee, None);
    assert_eq!(accounts.user_trade_detail.settled_pmm, None);
}
