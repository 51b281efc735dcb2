//! The framework's failure kinds, and the result type its handlers return.

use vstd::prelude::*;
use crate::response::Response;

verus! {

/// A diagnostic record for a failure caused by the request or its data,
/// as opposed to an internal fault of the framework. It is immutable once
/// built and owns its message.
#[derive(Debug)]
pub struct UserError {
    /// The human-readable description of what went wrong.
    pub desc: String,
}

impl UserError {
    /// Builds a user error carrying exactly the given description.
    pub fn new(desc: String) -> (r: UserError)
        ensures
            r.desc@ == desc@,
    {
        UserError { desc }
    }
}

/// The closed set of failure kinds the framework can render. A renderer
/// matches on the variant to pick the reply: a user-caused failure is
/// conventionally answered with a client-error status, a framework-raised
/// one with the status it carries.
#[derive(Debug)]
pub enum PencilError {
    /// A failure raised by the framework itself, carrying the HTTP status
    /// code it should be rendered with.
    PenHTTPError(u16),
    /// A failure caused by the request or its data.
    PenUserError(UserError),
}

/// The outcome of a handler: a response to send, or an error for the
/// framework's error-rendering path. Exactly one of the two is produced
/// per call.
pub type PencilResult = Result<Response, PencilError>;

} // verus!
