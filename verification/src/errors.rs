use vstd::prelude::*;

verus! {

/// The rejection kinds of the tokenomics core.  Every operation either fully
/// succeeds or is rejected synchronously with exactly one of these; no error
/// is silently swallowed and no partial effect is retained.
#[derive(Clone, Copy, Debug, PartialEq, Eq, Structural)]
pub enum HotwingsError {
    /// A lock request for a zero amount.
    InvalidLockAmount,
    /// The receiver's holding would exceed the per-wallet concentration cap.
    ExceedsWalletCap,
    /// The liquidation gate is not open yet.
    AutoSellNotAllowed,
    /// A computation would exceed the fixed-width numeric range.
    ArithmeticOverflow,
}

} // verus!
