use trade_escrow::error::CustomError;
use trade_escrow::instructions::deposit::{DepositArgs, TradeDetailInput};
use trade_escrow::pubkey::Pubkey;
use trade_escrow::state::vault::{TradeDetail, TradeInfo, TradeInput, TradeStatus, TradeVault};

fn key(fill: u8) -> Pubkey {
    Pubkey { bytes: [fill; 32] }
}

#[test]
pub fn test_assert_close_depsited_trade() {
    let mut trade_detail = TradeDetail::default();
    trade_detail.status = TradeStatus::Deposited;
    let result = trade_detail.assert_close_finished_trade(0, 0, true);
    assert_eq!(result.unwrap_err(), CustomError::InvalidTradeStatus);

    let result = trade_detail.assert_close_finished_trade(0, 0, false);
    assert_eq!(result.unwrap_err(), CustomError::InvalidTradeStatus);
}

#[test]
pub fn test_assert_close_settled_trade() {
    let mut trade_detail = TradeDetail::default();
    trade_detail.status = TradeStatus::Settled;
    trade_detail.timeout = 5;
    let result = trade_detail.assert_close_finished_trade(0, 0, true);
    assert!(result.is_ok());

    let result = trade_detail.assert_close_finished_trade(10, 0, true);
    assert!(result.is_ok());

    let result = trade_detail.assert_close_finished_trade(0, 0, false);
    assert_eq!(result.unwrap_err(), CustomError::CloseNotAvailable);

    let result = trade_detail.assert_close_finished_trade(5, 3, false);
    assert_eq!(result.unwrap_err(), CustomError::CloseNotAvailable);
}

#[test]
pub fn test_assert_close_claimed_trade() {
    let mut trade_detail = TradeDetail::default();
    trade_detail.status = TradeStatus::Claimed;
    let result = trade_detail.assert_close_finished_trade(0, 0, true);
    assert!(result.is_ok());

    let result = trade_detail.assert_close_finished_trade(3, 100, false);
    assert!(result.is_ok());
}

#[test]
fn settled_trade_closes_for_anyone_once_the_wait_is_over() {
    let mut trade_detail = TradeDetail::default();
    trade_detail.status = TradeStatus::Settled;
    trade_detail.timeout = 5;
    assert_eq!(
        trade_detail.assert_close_finished_trade(8, 3, false),
        Err(CustomError::CloseNotAvailable)
    );
    assert_eq!(trade_detail.assert_close_finished_trade(9, 3, false), Ok(()));
    assert_eq!(trade_detail.assert_close_finished_trade(6, 0, false), Ok(()));
}

#[test]
fn close_wait_near_the_largest_number_does_not_wrap() {
    let mut trade_detail = TradeDetail::default();
    trade_detail.status = TradeStatus::Settled;
    trade_detail.timeout = i64::MAX;
    assert_eq!(
        trade_detail.assert_close_finished_trade(u64::MAX, u64::MAX, false),
        Err(CustomError::CloseNotAvailable)
    );
    trade_detail.timeout = 1;
    assert_eq!(
        trade_detail.assert_close_finished_trade(u64::MAX, u64::MAX, false),
        Err(CustomError::CloseNotAvailable)
    );
    trade_detail.timeout = -1;
    assert_eq!(trade_detail.assert_close_finished_trade(u64::MAX, u64::MAX, false), Ok(()));
}

#[test]
fn blank_trade_is_open_and_empty() {
    let trade = TradeDetail::default();
    assert_eq!(trade.status, TradeStatus::Deposited);
    assert_eq!(trade.amount, 0);
    assert_eq!(trade.timeout, 0);
    assert_eq!(trade.total_fee, None);
    assert_eq!(trade.token, None);
    assert_eq!(trade.settled_pmm, None);
    assert_eq!(trade.trade_id, [0u8; 32]);
    assert_eq!(trade.user_pubkey, key(0));
    assert_eq!(trade._reserve, [0u128; 8]);
    assert_eq!(TradeStatus::default(), TradeStatus::Deposited);
}

#[test]
fn claim_is_open_only_after_the_deadline() {
    let mut trade = TradeDetail::default();
    trade.timeout = 100;
    assert_eq!(trade.assert_claim(99), Err(CustomError::ClaimNotAvailable));
    assert_eq!(trade.assert_claim(100), Err(CustomError::ClaimNotAvailable));
    assert_eq!(trade.assert_claim(101), Ok(()));
}

#[test]
fn claim_check_of_a_finished_trade_is_rejected() {
    let mut trade = TradeDetail::default();
    trade.timeout = 100;
    trade.status = TradeStatus::Claimed;
    assert_eq!(trade.assert_claim(101), Err(CustomError::InvalidTradeStatus));
    assert_eq!(trade.assert_claim(100), Err(CustomError::ClaimNotAvailable));
    trade.status = TradeStatus::Settled;
    assert_eq!(trade.assert_claim(101), Err(CustomError::InvalidTradeStatus));
}

#[test]
fn settlement_is_open_only_up_to_the_deadline() {
    let mut trade = TradeDetail::default();
    trade.timeout = 100;
    assert_eq!(trade.assert_settlement(99), Ok(()));
    assert_eq!(trade.assert_settlement(100), Ok(()));
    assert_eq!(trade.assert_settlement(101), Err(CustomError::TimeOut));
}

#[test]
fn settlement_check_of_a_finished_trade_is_rejected() {
    let mut trade = TradeDetail::default();
    trade.timeout = 100;
    trade.status = TradeStatus::Settled;
    assert_eq!(trade.assert_settlement(100), Err(CustomError::InvalidTradeStatus));
    assert_eq!(trade.assert_settlement(101), Err(CustomError::TimeOut));
    trade.status = TradeStatus::Claimed;
    assert_eq!(trade.assert_settlement(1), Err(CustomError::InvalidTradeStatus));
}

#[test]
fn assign_value_fills_the_record() {
    let args = DepositArgs {
        input: TradeInput {
            session_id: [1u8; 32],
            solver: [2u8; 20],
            trade_info: TradeInfo {
                amount_in: [0u8; 32],
                from_chain: [Vec::new(), Vec::new(), Vec::new()],
                to_chain: [Vec::new(), Vec::new(), Vec::new()],
            },
        },
        data: TradeDetailInput { timeout: 77, mpc_pubkey: key(3), refund_pubkey: key(4) },
        trade_id: [9u8; 32],
    };
    let mut trade = TradeDetail::default();
    trade.total_fee = Some(5);
    trade.status = TradeStatus::Claimed;
    trade._reserve = [6u128; 8];
    assert_eq!(trade.assign_value(&args, 1000, Some(key(5)), key(6), key(7)), Ok(()));
    assert_eq!(
        trade,
        TradeDetail {
            trade_id: [9u8; 32],
            user_pubkey: key(6),
            token: Some(key(5)),
            amount: 1000,
            timeout: 77,
            mpc_pubkey: key(3),
            user_ephemeral_pubkey: key(7),
            refund_pubkey: key(4),
            total_fee: None,
            status: TradeStatus::Deposited,
            settled_pmm: None,
            _reserve: [6u128; 8],
        }
    );
}

#[test]
fn vault_seed_spells_vault() {
    assert_eq!(&TradeVault::SEED, b"vault");
}

#[test]
fn only_the_blank_record_is_new() {
    assert!(TradeDetail::default().is_new());
    let blank = TradeDetail::default();
    let mut id = [0u8; 32];
    id[31] = 1;
    let mut reserve = [0u128; 8];
    reserve[7] = 1;
    for changed in [
        TradeDetail { trade_id: id, ..blank },
        TradeDetail { user_pubkey: Pubkey { bytes: id }, ..blank },
        TradeDetail { token: Some(key(0)), ..blank },
        TradeDetail { amount: 1, ..blank },
        TradeDetail { timeout: -1, ..blank },
        TradeDetail { mpc_pubkey: key(1), ..blank },
        TradeDetail { user_ephemeral_pubkey: key(1), ..blank },
        TradeDetail { refund_pubkey: key(1), ..blank },
        TradeDetail { total_fee: Some(0), ..blank },
        TradeDetail { status: TradeStatus::Settled, ..blank },
        TradeDetail { status: TradeStatus::Claimed, ..blank },
        TradeDetail { settled_pmm: Some(key(0)), ..blank },
        TradeDetail { _reserve: reserve, ..blank },
    ] {
        assert!(!changed.is_new());
    }
}

#[test]
fn parameters_are_encodable_up_to_the_encoder_s_count() {
    let input = |from: usize, to: usize| TradeInput {
        session_id: [1u8; 32],
        solver: [2u8; 20],
        trade_info: TradeInfo {
            amount_in: [0u8; 32],
            from_chain: [vec![7u8; from], Vec::new(), vec![8u8; 3]],
            to_chain: [Vec::new(), vec![9u8; to], Vec::new()],
        },
    };
    assert_eq!(TradeInput::MAX_CHAIN_BYTES, 0x7fff_ffff);
    assert!(input(0, 0).is_encodable());
    assert!(input(1_000, 64).is_encodable());
    assert!(input(70_000, 0).is_encodable());
    assert_eq!(input(70_000, 3).calculate_trade_id(), input(70_000, 3).calculate_trade_id());
    assert_ne!(input(70_000, 3).calculate_trade_id(), input(70_000, 4).calculate_trade_id());
}
