//! The one way in which a channel fails.
use vstd::prelude::*;

verus! {

/// The consumer no longer exists, so the value cannot be delivered.
#[derive(Debug, Clone, Copy, PartialEq, Eq, Structural)]
pub struct SendError;

impl SendError {
    /// The error as text: its own name.
    pub fn message(&self) -> (text: String)
        ensures
            text@ == "SendError"@,
    {
        "SendError".to_owned()
    }
}

} // verus!
