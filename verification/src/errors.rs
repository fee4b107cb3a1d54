//! Errors for user-supplied light control values.

use vstd::prelude::*;

verus! {

/// Rejection of a caller-supplied control value.
#[derive(Debug)]
pub enum LightControlError {
    /// The supplied value is not within the appropriate range.
    InvalidRange(String),
    /// The supplied value is not valid.
    InvalidValue,
}

} // verus!
