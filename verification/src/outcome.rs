//! How an operation's contract ties what it did to what it was to do.
use vstd::prelude::*;

use crate::error::CustomError;

verus! {

/// Whether a call did what it was to do. Where it was to go through, it
/// returned the outcome and left the accounts as they were to be; where it
/// was to be rejected, it returned the error and left the accounts as it
/// found them.
pub open spec fn carried_out<A, T>(
    expected: Result<(A, T), CustomError>,
    before: A,
    after: A,
    returned: Result<T, CustomError>,
) -> bool {
    match expected {
        Ok((accounts, outcome)) => returned == Ok::<T, CustomError>(outcome) && after == accounts,
        Err(e) => returned == Err::<T, CustomError>(e) && after == before,
    }
}

} // verus!
