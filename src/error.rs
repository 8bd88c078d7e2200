use vstd::prelude::*;

verus! {

/// The failures that the computations report.
#[derive(Clone, Copy, Debug, PartialEq, Eq, Structural)]
pub enum CompError {
    /// A checked operation left the range of its type or divided by zero.
    MathOverflow,
    /// Two decimal prices of different exponents were subtracted.
    ExponentMismatch,
    /// An oracle reading is stale, or diverges and is too uncertain.
    InvalidOraclePrice,
    /// A supplied record does not match the reference that the pool holds.
    AccountMismatch,
    /// Fewer records were supplied than the pool references.
    MissingAccount,
}

impl CompError {
    /// A human-readable description of the error.
    pub fn message(&self) -> (r: &'static str) {
        match self {
            CompError::MathOverflow => "Overflow in arithmetic operation",
            CompError::ExponentMismatch => "Exponent mismatch in arithmetic operation",
            CompError::InvalidOraclePrice => "Invalid oracle price",
            CompError::AccountMismatch => "Account does not match the expected key",
            CompError::MissingAccount => "Not enough accounts supplied",
        }
    }
}

} // verus!
