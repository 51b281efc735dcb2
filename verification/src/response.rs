//! The framework's outgoing-reply representation: a body together with the
//! two metadata fields this adapter touches, the status code and the
//! content type.

use vstd::prelude::*;

verus! {

/// The content type a freshly constructed response carries before any
/// handler adjusts it.
pub open spec fn default_content_type() -> Seq<char> {
    "text/html; charset=utf-8"@
}

/// The status code a freshly constructed response carries.
pub open spec fn default_status_code() -> u16 {
    200
}

/// An outgoing reply. It owns its body and its metadata; each call that
/// builds one produces a fresh instance, shared with nobody.
pub struct Response {
    /// The HTTP status code of the reply.
    pub status_code: u16,
    /// The value of the content-type metadata field.
    pub content_type: String,
    /// The text carried as the reply's body.
    pub body: String,
}

impl Response {
    /// Builds a response whose body is exactly the given text. The status
    /// code and the content type keep the constructor's defaults; nothing
    /// else about the reply is decided here.
    pub fn from_body(body: String) -> (r: Response)
        ensures
            r.body@ == body@,
            r.status_code == default_status_code(),
            r.content_type@ == default_content_type(),
    {
        Response {
            status_code: 200,
            content_type: "text/html; charset=utf-8".to_owned(),
            body,
        }
    }

    /// Replaces the content-type metadata field with the given value; the
    /// body and the status code are left exactly as they were.
    pub fn set_content_type(&mut self, content_type: &str)
        ensures
            final(self).content_type@ == content_type@,
            final(self).body@ == old(self).body@,
            final(self).status_code == old(self).status_code,
    {
        self.content_type = content_type.to_owned();
    }
}

} // verus!
