//! The failures that every operation reports.

use vstd::prelude::*;

verus! {

/// One entry of the panel's `errors` array.
#[derive(Debug)]
pub struct PanelError {
    pub code: String,
    pub status: String,
    pub detail: String,
}

#[derive(Debug)]
pub enum Error {
    /// No response was obtained: connection, name resolution or timeout.
    Network(String),
    /// A response body did not have the expected shape.
    Decode,
    /// A failure status with the panel's structured error body.
    Panel(Vec<PanelError>),
    /// A failure status whose body was not a structured panel error.
    Http(u16),
}

} // verus!
