//! Error values shared across the crate.

use vstd::prelude::*;

verus! {

/// Failures of the small numeric helpers and of the ADC protocol checks.
#[derive(Clone, Copy, PartialEq, Eq, Structural, Debug)]
pub enum GpmError {
    /// An average of an empty sample list was requested.
    EmptyList,
    /// An ADC channel outside 0..=7 was requested.
    InvalidChannel,
    /// An EMG classification was asked of other than two channel values.
    WrongSampleCount,
}

impl GpmError {
    /// A human-readable description of the error.
    pub fn message(&self) -> (r: String)
        ensures
            *self == GpmError::EmptyList ==> r@ == "Cannot calculate average of an empty list"@,
            *self == GpmError::InvalidChannel ==> r@ == "Invalid channel. Must be between 0 and 7."@,
            *self == GpmError::WrongSampleCount ==> r@ == "Expected 2 EMG values"@,
    {
        match self {
            GpmError::EmptyList => "Cannot calculate average of an empty list".to_owned(),
            GpmError::InvalidChannel => "Invalid channel. Must be between 0 and 7.".to_owned(),
            GpmError::WrongSampleCount => "Expected 2 EMG values".to_owned(),
        }
    }
}

} // verus!
