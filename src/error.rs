use vstd::prelude::*;

verus! {

/// The failures that the browser front end reports.
#[derive(Debug, Clone, PartialEq, Eq)]
pub enum Error {
    /// The fetch boundary could not retrieve a response.
    Network(String),
    /// Malformed input was handed to the browser.
    UnexpectedInput(String),
    /// A drawing or window primitive of the host failed.
    InvalidUI(String),
    /// Anything not covered above.
    Other(String),
}

} // verus!
