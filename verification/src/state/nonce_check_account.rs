//! The guard that marks an ephemeral key as in use.
use vstd::prelude::*;

verus! {

/// The guard of one ephemeral key. It holds nothing: that it exists says
/// that the key is bound to an open trade. A deposit creates it, and the
/// settlement or the claim of that trade destroys it.
#[derive(Clone, Copy, Debug, PartialEq, Eq)]
pub struct NonceCheckAccount {
}

impl NonceCheckAccount {
    /// The seed of a guard's address: the text `nonce`, followed by the
    /// ephemeral key.
    pub const SEED: [u8; 5] = [110, 111, 110, 99, 101];
}

} // verus!
