//! The ways in which an estimate can fail.

use vstd::prelude::*;

verus! {

/// Why a gas limit given on the command line was turned down.
#[derive(Clone, Copy, Debug, PartialEq, Eq)]
pub enum ArgumentError {
    /// Nothing was left once the digit separators were taken out.
    Empty,
    /// A character that is no decimal digit, or a sign with no digit behind it.
    InvalidDigit,
    /// The number is above `u64::MAX`.
    TooLarge,
}

/// Why a run produced no estimates.
#[derive(Clone, Copy, Debug, PartialEq, Eq)]
pub enum GasError {
    /// The chain with this id could not be reached, answered with something
    /// that is no result, or has no endpoint configured.
    EndpointUnavailable { chain_id: u64 },
    /// The pool reported a square-root price of zero, which has no inverse.
    OracleDecodeFailure,
}

} // verus!
