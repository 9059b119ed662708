use vstd::prelude::*;

verus! {

/// How long a token is valid, in seconds.
pub const JWT_TOKEN_TIME_IN_SECS: u64 = 86400;

/// The length of a transfer identifier.
pub const TRANSACTION_ID_LENGTH: usize = 10;

} // verus!
