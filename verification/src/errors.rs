//! The fatal errors of the pool.
//!
//! None of them is recoverable: each one aborts the top-level invocation
//! that raised it. An error inside the swap-completion step cannot undo the
//! inbound deposit, which settled on the ledger before that step runs; it
//! only withholds the outbound leg.

use vstd::prelude::*;

verus! {

/// Why an operation of the pool was aborted.
#[derive(Clone, Copy, Debug, PartialEq, Eq, Structural)]
pub enum PoolError {
    /// An inbound-transfer notification came from an identity that is
    /// neither of the two configured ledgers.
    Unauthorized,
    /// A metadata fetch failed or returned an undecodable payload during
    /// initialization; the pool stays uninitialized for good.
    ConstructionFailed,
    /// The pricing arithmetic underflowed, overflowed, or met a zero
    /// balance: a zero pre-deposit balance of the received asset (the
    /// divisor) or a zero balance of the asset to pay out.
    Arithmetic,
    /// At pricing time the received token matched neither configured
    /// ledger. Unreachable through the authorized entry path; kept as
    /// defense in depth.
    UnknownAsset,
    /// A balance-query result was missing or could not be read as an
    /// unsigned 128-bit integer.
    MalformedResult,
}

} // verus!
