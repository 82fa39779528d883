//! The operations that only the admin or an operator may call.
pub mod add_fee_receiver;
pub mod add_or_remove_operator;
pub mod add_or_update_whitelist;
pub mod init;
pub mod remove_fee_receiver;
pub mod remove_whitelist;
pub mod set_close_wait_duration;
