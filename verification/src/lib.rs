//! A JSON response adapter for a request-handling framework: given a
//! serializable value, produce a response carrying the value's JSON
//! encoding under an `application/json` content type, or a structured,
//! user-facing error when the encoder rejects the value.

pub mod error;
pub mod json;
pub mod response;

pub use error::PencilError;
pub use error::PencilResult;
pub use error::UserError;
pub use json::jsonify;
pub use response::Response;
