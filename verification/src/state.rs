//! The records that the ledger keeps for the protocol.
pub mod config;
pub mod fee_receiver;
pub mod nonce_check_account;
pub mod payment_receipt;
pub mod vault;
pub mod whitelist_token;
