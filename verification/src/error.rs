//! Errors a prompt can end with.

use vstd::prelude::*;

verus! {

/// Error returned by prompt construction and by the interaction loop.
///
/// `InvalidConfiguration` is detected synchronously at construction, before
/// any interaction: the option catalog is empty, or the starting cursor is
/// out of range. `OperationCanceled` is raised the instant the cancel key is
/// observed during the interaction loop.
#[derive(Debug)]
pub enum InquireError {
    InvalidConfiguration(String),
    OperationCanceled,
}

impl InquireError {
    /// A short human-readable description of the error.
    pub fn description(&self) -> (r: String)
        ensures
            self is InvalidConfiguration ==> r@ == "invalid configuration"@,
            self is OperationCanceled ==> r@ == "operation canceled"@,
    {
        match self {
            InquireError::InvalidConfiguration(_) => "invalid configuration".to_owned(),
            InquireError::OperationCanceled => "operation canceled".to_owned(),
        }
    }
}

} // verus!
