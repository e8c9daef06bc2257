use vstd::prelude::*;

verus! {

/// Why an operation on a pool was refused.
#[derive(Debug, Clone, Copy, PartialEq, Eq, Structural)]
pub enum SwapError {
    /// The computed swap output is below the trader's floor.
    SlippageExceeded,
    /// A zero deposit or trade amount, or a deposit worth zero shares.
    InvalidAmount,
    /// A fee rate above 10000 basis points.
    InvalidFeeRate,
    /// An intermediate value overflowed, or a division by zero.
    CalculationError,
}

} // verus!
