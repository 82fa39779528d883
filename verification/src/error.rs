//! The error kinds that the protocol's operations reject a call with.
use vstd::prelude::*;

verus! {

/// Why an operation was rejected. A rejected operation changes nothing.
#[derive(Clone, Copy, Debug, PartialEq, Eq, Structural)]
pub enum CustomError {
    InvalidTradeId,
    InvalidTimeout,
    Unauthorized,
    InvalidPublicKey,
    DepositZeroAmount,
    InvalidAmount,
    InvalidMintKey,
    InvalidSourceAta,
    InvalidDestinationAta,
    TimeOut,
    InvalidRefundPubkey,
    ClaimNotAvailable,
    DeadlineExceeded,
    InvalidUserAccount,
    NonceAccountBeingUsed,
    OperatorAlreadyExists,
    OperatorNotFound,
    OperatorLimitReached,
    NotWhitelistedToken,
    InvalidTradeStatus,
    CloseNotAvailable,
    InvalidTokenAccount,
    InvalidTotalFee,
    InvalidFeeReceiver,
}

} // verus!
