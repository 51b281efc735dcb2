//! The JSON responder: serialize a value and wrap the encoded text in a
//! response with an `application/json` content type, or surface the
//! encoder's failure as a user-facing error.

use vstd::prelude::*;
use vstd::string::StringExecFns;
use serde::Serialize;
use crate::error::{PencilError, PencilResult, UserError};
use crate::response::{default_status_code, Response};

verus! {

/// The content type every successful JSON response carries.
pub open spec fn json_content_type() -> Seq<char> {
    "application/json"@
}

/// The fixed prefix of the message of every encoder-failure error.
pub open spec fn encoder_error_prefix() -> Seq<char> {
    "Json encoder error: "@
}

/// `serde_json`'s error type. It is opaque to this library: only its
/// rendered description is ever read, through [`describe`].
#[verifier::external_type_specification]
#[verifier::external_body]
pub struct ExSerdeJsonError(serde_json::Error);

/// Relies on `serde_json::to_string`: the compact JSON encoding of
/// `value`, or the encoder's error where the value cannot be represented
/// (for instance, a map keyed by something other than a string). Nothing
/// is assumed about which of the two comes back.
#[verifier::external_body]
fn encode<T: Serialize>(value: &T) -> Result<String, serde_json::Error> {
    serde_json::to_string(value)
}

/// Relies on the `Display` rendering of `serde_json::Error`: the
/// encoder's own description of what went wrong, as text. Nothing is
/// assumed about its content.
#[verifier::external_body]
fn describe(err: &serde_json::Error) -> String {
    format!("{}", err)
}

/// Says that `r` is the JSON response built from the encoded text `body`:
/// the body is exactly that text, the content type is `application/json`,
/// and the status code keeps the constructor's default.
pub open spec fn is_json_response(body: Seq<char>, r: Response) -> bool {
    &&& r.body@ == body
    &&& r.content_type@ == json_content_type()
    &&& r.status_code == default_status_code()
}

/// Says that `e` is the user-facing error built for an encoder failure
/// whose rendered description is `cause`: a user-caused failure whose
/// message is the fixed prefix followed, verbatim, by that description.
pub open spec fn is_encoder_error(cause: Seq<char>, e: PencilError) -> bool {
    e matches PencilError::PenUserError(ue) && ue.desc@ == encoder_error_prefix() + cause
}

/// Wraps already-encoded JSON text in a fresh response: the body is the
/// given text, byte for byte, and the content type is `application/json`.
/// No other field of the response is touched.
pub fn json_response(encoded: String) -> (r: Response)
    ensures
        is_json_response(encoded@, r),
{
    let mut response = Response::from_body(encoded);
    response.set_content_type("application/json");
    response
}

/// Builds the user-facing error for an encoder failure whose rendered
/// description is `cause`: its message is `"Json encoder error: "`
/// followed by `cause`, verbatim.
pub fn encoder_error(cause: &str) -> (e: PencilError)
    ensures
        is_encoder_error(cause@, e),
{
    let mut desc: String = "Json encoder error: ".to_owned();
    desc.append(cause);
    PencilError::PenUserError(UserError::new(desc))
}

/// Serializes `object` and wraps the outcome. On success the response's
/// body is exactly the encoder's output and its content type is
/// `application/json`; on failure the error is user-caused and its
/// message is the encoder's own description behind the fixed prefix.
pub fn jsonify<T: Serialize>(object: &T) -> (r: PencilResult)
    ensures
        r matches Ok(resp) ==> is_json_response(resp.body@, resp),
        r matches Err(e) ==> exists|cause: Seq<char>| is_encoder_error(cause, e),
{
    match encode(object) {
        Ok(encoded) => Ok(json_response(encoded)),
        Err(err) => {
            let cause = describe(&err);
            Err(encoder_error(cause.as_str()))
        },
    }
}

/// Building a JSON response from the same encoded text twice yields
/// responses that agree in every field: the construction is deterministic.
pub proof fn lemma_json_response_deterministic(body: Seq<char>, r1: Response, r2: Response)
    requires
        is_json_response(body, r1),
        is_json_response(body, r2),
    ensures
        r1.body@ == r2.body@,
        r1.content_type@ == r2.content_type@,
        r1.status_code == r2.status_code,
{
}

/// Two JSON responses, however their bodies differ, agree on every other
/// field: only the body depends on the value that was encoded.
pub proof fn lemma_json_response_metadata_fixed(
    b1: Seq<char>,
    b2: Seq<char>,
    r1: Response,
    r2: Response,
)
    requires
        is_json_response(b1, r1),
        is_json_response(b2, r2),
    ensures
        r1.content_type@ == r2.content_type@,
        r1.status_code == r2.status_code,
{
}

/// The message of an encoder error carries the encoder's description
/// verbatim behind the fixed prefix: the prefix opens the message, and
/// what follows it is exactly the description.
pub proof fn lemma_encoder_error_message(cause: Seq<char>, e: PencilError)
    requires
        is_encoder_error(cause, e),
    ensures
        e matches PencilError::PenUserError(ue) && encoder_error_prefix().is_prefix_of(ue.desc@)
            && ue.desc@.skip(encoder_error_prefix().len() as int) == cause,
{
    match e {
        PencilError::PenUserError(ue) => {
            assert(encoder_error_prefix() =~= ue.desc@.subrange(
                0,
                encoder_error_prefix().len() as int,
            ));
            assert(ue.desc@.skip(encoder_error_prefix().len() as int) =~= cause);
        },
        PencilError::PenHTTPError(_) => {
        },
    }
}

} // verus!
