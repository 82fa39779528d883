//! The receipt of a direct payment.
use vstd::prelude::*;

use crate::error::CustomError;
use crate::pubkey::Pubkey;

verus! {

/// The receipt of one payment: created by the payment, destroyed when the
/// payer closes it.
#[derive(Clone, Copy, Debug, PartialEq, Eq)]
pub struct PaymentReceipt {
    /// The id of the trade that was paid for.
    pub trade_id: [u8; 32],
    /// Who paid.
    pub from_pubkey: Pubkey,
    /// Who was paid.
    pub to_pubkey: Pubkey,
    /// The asset of the payment; `None` is the native currency.
    pub token: Option<Pubkey>,
    /// The amount that left the payer, fee included.
    pub payment_amount: u64,
    /// The part of the amount that went to the protocol.
    pub total_fee: u64,
    /// When the payment was made, in unix seconds.
    pub payment_time: u64,
    /// Room kept for later fields.
    pub _reserve: [u128; 8],
}

impl PaymentReceipt {
    /// The seed of a receipt's address: the text `payment_receipt`, followed
    /// by what the receipt records.
    pub const SEED: [u8; 15] = [
        112, 97, 121, 109, 101, 110, 116, 95, 114, 101, 99, 101, 105, 112, 116,
    ];

    /// A payment is larger than its fee.
    pub open spec fn wf(&self) -> bool {
        self.payment_amount > self.total_fee
    }

    /// The receipt that a payment writes over `self`; the reserved room
    /// stays.
    pub open spec fn paid(
        &self,
        trade_id: [u8; 32],
        from_pubkey: Pubkey,
        to_pubkey: Pubkey,
        token: Option<Pubkey>,
        payment_amount: u64,
        total_fee: u64,
        payment_time: u64,
    ) -> PaymentReceipt {
        PaymentReceipt {
            trade_id,
            from_pubkey,
            to_pubkey,
            token,
            payment_amount,
            total_fee,
            payment_time,
            _reserve: self._reserve,
        }
    }

    /// Whether the receipt can be closed at `current_timestamp`: only once
    /// more than `close_wait_duration` has passed since the payment.
    pub open spec fn close_check(
        &self,
        current_timestamp: u64,
        close_wait_duration: u64,
    ) -> Result<(), CustomError> {
        if current_timestamp <= self.payment_time + close_wait_duration {
            Err(CustomError::CloseNotAvailable)
        } else {
            Ok(())
        }
    }

    /// Fills the receipt at payment.
    pub fn assign_value(
        &mut self,
        trade_id: [u8; 32],
        from_pubkey: Pubkey,
        to_pubkey: Pubkey,
        token: Option<Pubkey>,
        payment_amount: u64,
        total_fee: u64,
        payment_time: u64,
    ) -> (r: Result<(), CustomError>)
        ensures
            r == Ok::<(), CustomError>(()),
            *final(self) == old(self).paid(
                trade_id,
                from_pubkey,
                to_pubkey,
                token,
                payment_amount,
                total_fee,
                payment_time,
            ),
    {
        self.trade_id = trade_id;
        self.from_pubkey = from_pubkey;
        self.to_pubkey = to_pubkey;
        self.token = token;
        self.payment_amount = payment_amount;
        self.total_fee = total_fee;
        self.payment_time = payment_time;
        Ok(())
    }

    /// Checks that the receipt can be closed at `current_timestamp`.
    pub fn assert_close(&self, current_timestamp: u64, close_wait_duration: u64) -> (r: Result<
        (),
        CustomError,
    >)
        ensures
            r == self.close_check(current_timestamp, close_wait_duration),
    {
        let earliest: u128 = self.payment_time as u128 + close_wait_duration as u128;
        if current_timestamp as u128 <= earliest {
            return Err(CustomError::CloseNotAvailable);
        }
        Ok(())
    }
}

} // verus!
