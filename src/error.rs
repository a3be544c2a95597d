use vstd::prelude::*;

verus! {

/// Why a pull failed.
#[derive(Debug, PartialEq, Eq)]
pub enum PullError {
    /// The request could not be sent or its response could not be read.
    Transport,
    /// The service answered with a status other than 200.
    Status { code: u16, body: String },
    /// The response body is not a scroll response.
    Malformed,
    /// A slice annotation was asked for on a query that is not a JSON object.
    QueryNotObject,
    /// The output could not be created or written.
    Sink,
}

} // verus!
