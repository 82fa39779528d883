//! The registry entry of an address that may receive the protocol's fees.
use vstd::prelude::*;

use crate::pubkey::Pubkey;

verus! {

/// One address to which the fee pool may be paid out.
#[derive(Clone, Copy, Debug, PartialEq, Eq)]
pub struct FeeReceiver {
    /// The address that may receive fees.
    pub receiver: Pubkey,
    /// Room kept for later fields.
    pub _reserve: [u128; 4],
}

impl FeeReceiver {
    /// The seed of an entry's address: the text `fee_receiver`, followed by
    /// the receiver's key.
    pub const SEED: [u8; 12] = [102, 101, 101, 95, 114, 101, 99, 101, 105, 118, 101, 114];
}

} // verus!
