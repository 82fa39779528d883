//! The whitelist entry of an asset, with the smallest amount accepted.
use vstd::prelude::*;

use crate::error::CustomError;
use crate::pubkey::Pubkey;

verus! {

/// One whitelisted asset. The native currency is listed under the wrapped
/// native mint.
#[derive(Clone, Copy, Debug, PartialEq, Eq)]
pub struct WhitelistToken {
    /// The mint of the asset.
    pub token: Pubkey,
    /// The smallest amount of the asset that a deposit may hold.
    pub amount: u64,
    /// Room kept for later fields.
    pub _reserve: [u128; 4],
}

impl WhitelistToken {
    /// The seed of an entry's address: the text `whitelist`, followed by the
    /// mint's key.
    pub const SEED: [u8; 9] = [119, 104, 105, 116, 101, 108, 105, 115, 116];

    /// Sets the asset and its smallest amount, and keeps the reserved room.
    pub fn initialize(&mut self, token: Pubkey, amount: u64) -> (r: Result<(), CustomError>)
        ensures
            r == Ok::<(), CustomError>(()),
            *final(self) == (WhitelistToken { token, amount, _reserve: old(self)._reserve }),
    {
        self.token = token;
        self.amount = amount;
        Ok(())
    }
}

} // verus!
