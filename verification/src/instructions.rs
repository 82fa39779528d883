//! The operations of the protocol.
pub mod admin_and_operator;
pub mod claim;
pub mod close_finished_trade;
pub mod close_payment_receipt;
pub mod deposit;
pub mod payment;
pub mod set_total_fee;
pub mod settlement;
pub mod withdraw_total_fee;
