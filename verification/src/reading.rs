//! One sensor sample and the rule that decides whether it counts as data.
//!
//! Measured values are carried as IEEE-754 binary64 bit patterns, so that a
//! value passes through the library unchanged, bit for bit.
use vstd::prelude::*;

verus! {

/// The bit pattern of positive infinity, the largest positive binary64 value.
pub const POSITIVE_INFINITY_BITS: u64 = 0x7FF0_0000_0000_0000;

/// Whether `bits` is the pattern of a value strictly greater than zero.
///
/// Patterns with the sign bit clear grow with the value they stand for: zero
/// is pattern 0, and everything above positive infinity is not a number.
pub open spec fn strictly_positive(bits: u64) -> bool {
    0 < bits <= POSITIVE_INFINITY_BITS
}

/// A normalized sample as the sensor reports it.
#[derive(Clone, Copy, Debug, PartialEq, Eq)]
pub struct SensorData {
    /// Energy drawn from the grid, as a binary64 bit pattern.
    pub total_in: u64,
    /// Energy fed into the grid, where the meter reports it.
    pub total_out: Option<u64>,
    /// Instantaneous power, where the meter reports it.
    pub power_curr: Option<u64>,
}

/// Why a sample was refused.
#[derive(Clone, Copy, Debug, PartialEq, Eq)]
pub enum ValidationError {
    /// The primary value is zero, negative or not a number.
    NotPositive,
}

/// Whether `bits` is the pattern of a value strictly greater than zero.
pub fn is_strictly_positive(bits: u64) -> (b: bool)
    ensures
        b == strictly_positive(bits),
{
    0 < bits && bits <= POSITIVE_INFINITY_BITS
}

impl SensorData {
    /// Accepts the sample exactly when its primary value is strictly positive.
    pub fn validate(&self) -> (r: Result<(), ValidationError>)
        ensures
            r is Ok <==> strictly_positive(self.total_in),
            r is Err ==> r == Err::<(), ValidationError>(ValidationError::NotPositive),
    {
        if is_strictly_positive(self.total_in) {
            Ok(())
        } else {
            Err(ValidationError::NotPositive)
        }
    }
}

} // verus!
