//! The failures that the host interface can report.

use vstd::prelude::*;

verus! {

/// The sensors or the host's state could not be read.
#[derive(Clone, Debug, PartialEq, Eq)]
pub struct ReadError {
    /// What the host said of the failure.
    pub detail: String,
}

/// The host refused a mode or fan-boost request, or the request failed.
#[derive(Clone, Debug, PartialEq, Eq)]
pub struct GatewayError {
    /// What the host said of the failure.
    pub detail: String,
}

/// A corrective action of the automatic controller failed at the host.
#[derive(Clone, Debug, PartialEq, Eq)]
pub struct ControlError {
    /// The failure of the request that the controller had made.
    pub source: GatewayError,
}

/// The text shown for a failure with the given detail.
pub open spec fn error_text(detail: Seq<char>) -> Seq<char> {
    "Error: "@ + detail
}

impl ReadError {
    /// The text shown for this failure.
    pub fn message(&self) -> (text: String)
        ensures
            text@ == error_text(self.detail@),
    {
        String::from_str("Error: ").concat(self.detail.as_str())
    }
}

impl GatewayError {
    /// The text shown for this failure.
    pub fn message(&self) -> (text: String)
        ensures
            text@ == error_text(self.detail@),
    {
        String::from_str("Error: ").concat(self.detail.as_str())
    }
}

impl ControlError {
    /// The text shown for this failure: that of the request that failed.
    pub fn message(&self) -> (text: String)
        ensures
            text@ == error_text(self.source.detail@),
    {
        self.source.message()
    }
}

} // verus!
