use trade_escrow::state::vault::{TradeInfo, TradeInput};

fn sample_input() -> TradeInput {
    let mut session_id = [0u8; 32];
    for i in 0..32 {
        session_id[i] = (i + 1) as u8;
    }
    let mut solver = [0u8; 20];
    for i in 0..20 {
        solver[i] = (100 + i) as u8;
    }
    let mut amount_in = [0u8; 32];
    amount_in[29] = 0x0f;
    amount_in[30] = 0x42;
    amount_in[31] = 0x40;
    TradeInput {
        session_id,
        solver,
        trade_info: TradeInfo {
            amount_in,
            from_chain: [
                b"3DYbLvuRV6tZN7iEBxAgHbpgv3AvWmAJGtWmrkp24Vew".to_vec(),
                b"solana".to_vec(),
                b"native".to_vec(),
            ],
            to_chain: [b"0x1234".to_vec(), b"ethereum".to_vec(), b"0xabcdef".to_vec()],
        },
    }
}

#[test]
fn trade_id_of_sample_parameters() {
    let expected: [u8; 32] = [
        216, 249, 16, 120, 33, 177, 73, 89, 227, 193, 114, 249, 211, 73, 30, 39, 204, 191, 218,
        251, 143, 182, 231, 79, 241, 214, 155, 201, 63, 89, 140, 175,
    ];
    assert_eq!(sample_input().calculate_trade_id(), expected);
}

#[test]
fn trade_id_of_empty_parameters() {
    let input = TradeInput {
        session_id: [0u8; 32],
        solver: [0u8; 20],
        trade_info: TradeInfo {
            amount_in: [0u8; 32],
            from_chain: [Vec::new(), Vec::new(), Vec::new()],
            to_chain: [Vec::new(), Vec::new(), Vec::new()],
        },
    };
    let expected: [u8; 32] = [
        64, 165, 90, 247, 220, 66, 232, 20, 84, 167, 133, 238, 92, 99, 210, 250, 39, 251, 16, 250,
        211, 140, 2, 180, 137, 40, 88, 40, 207, 60, 250, 249,
    ];
    assert_eq!(input.calculate_trade_id(), expected);
}

#[test]
fn trade_id_is_the_same_for_the_same_parameters() {
    assert_eq!(sample_input().calculate_trade_id(), sample_input().calculate_trade_id());
}

#[test]
fn trade_id_changes_with_a_bit_of_the_session_id() {
    let id = sample_input().calculate_trade_id();
    let mut input = sample_input();
    input.session_id[0] ^= 1;
    assert_ne!(input.calculate_trade_id(), id);
    let mut input = sample_input();
    input.session_id[31] ^= 0x80;
    assert_ne!(input.calculate_trade_id(), id);
}

#[test]
fn trade_id_changes_with_a_bit_of_the_solver() {
    let id = sample_input().calculate_trade_id();
    let mut input = sample_input();
    input.solver[19] ^= 1;
    assert_ne!(input.calculate_trade_id(), id);
}

#[test]
fn trade_id_changes_with_a_bit_of_the_amount() {
    let id = sample_input().calculate_trade_id();
    let mut input = sample_input();
    input.trade_info.amount_in[0] ^= 1;
    assert_ne!(input.calculate_trade_id(), id);
    let mut input = sample_input();
    input.trade_info.amount_in[31] ^= 1;
    assert_ne!(input.calculate_trade_id(), id);
}

#[test]
fn trade_id_changes_with_a_bit_of_either_chain() {
    let id = sample_input().calculate_trade_id();
    for part in 0..3 {
        let mut input = sample_input();
        input.trade_info.from_chain[part][0] ^= 1;
        assert_ne!(input.calculate_trade_id(), id);
        let mut input = sample_input();
        input.trade_info.to_chain[part][0] ^= 1;
        assert_ne!(input.calculate_trade_id(), id);
    }
}

#[test]
fn trade_id_tells_the_two_chains_apart() {
    let id = sample_input().calculate_trade_id();
    let mut input = sample_input();
    let from = input.trade_info.from_chain.clone();
    input.trade_info.from_chain = input.trade_info.to_chain.clone();
    input.trade_info.to_chain = from;
    assert_ne!(input.calculate_trade_id(), id);
}
