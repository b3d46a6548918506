//! Failure kinds reported by the ledger and the claim authorizer.

use vstd::prelude::*;

verus! {

/// Why an operation was refused. A refused operation leaves all state as it was.
#[derive(Clone, Copy, Debug, PartialEq, Eq, Structural)]
pub enum Error {
    /// The caller's free balance is below the amount to be deposited.
    InsufficientBalance,
    /// The key or the signature is malformed, or the signature does not verify.
    SignatureNotValid,
    /// An amount computation left the range of the balance type.
    ArithmeticOverflow,
}

} // verus!
