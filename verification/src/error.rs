//! The ways in which an invocation fails.

use vstd::prelude::*;

verus! {

/// Why an invocation was refused. Each one ends the invocation with every
/// account left as it was.
#[derive(Clone, Copy, Debug, PartialEq, Eq, Structural)]
pub enum CounterError {
    /// The account list was empty.
    MissingAccount,
    /// The instruction bytes are not one tag byte, `0` or `1`, followed by
    /// four bytes of amount.
    MalformedInstruction,
    /// The account's data is not exactly four bytes of count.
    MalformedState,
}

} // verus!
