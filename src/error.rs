use vstd::prelude::*;

verus! {

/// What was wrong with a trade's configuration; found before any network call.
#[derive(Debug, Clone, Copy, PartialEq, Eq, Structural)]
pub enum ConfigIssue {
    /// A slippage that is negative, or above 100% where a minimum is bounded.
    SlippageOutOfRange,
    /// A slippage that is not a finite number.
    SlippageNotFinite,
    /// An amount, or a bound computed from one, that does not fit in 128 bits.
    AmountOutOfRange,
    /// An address that does not parse.
    InvalidAddress,
    /// A signing key that does not parse.
    InvalidKey,
}

/// Every way a trade can fail, by the stage at which it failed.
#[derive(Debug, Clone, PartialEq, Eq)]
pub enum TradeError {
    /// Invalid input, rejected before any I/O.
    Configuration(ConfigIssue),
    /// A read call reverted or the transport failed while quoting.
    Query(String),
    /// Fee estimation or broadcast failed.
    Submission(String),
    /// The chain reported the transaction reverted, or polling for inclusion failed.
    Confirmation(String),
    /// The transport reported neither a receipt nor a failure.
    Unconfirmed,
}

} // verus!
