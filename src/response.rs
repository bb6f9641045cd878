//! Decoding the body of a response whose status is not a success.

use vstd::prelude::*;

verus! {

/// A structured error sent by the server: an error code and a human-readable message.
pub struct MatrixError {
    /// The HTTP status of the response.
    pub status: u16,
    /// The error code, such as `M_FORBIDDEN`.
    pub errcode: String,
    /// The human-readable message.
    pub error: String,
}

/// Why a response could not be decoded.
pub enum DecodeError {
    /// A required field is absent or has the wrong shape; holds the field's name.
    Malformed(String),
    /// A non-success response whose body has no recognizable error shape; holds the raw status
    /// and body.
    UnknownErrorShape(u16, Vec<u8>),
}

/// The string held by the top-level field `key` of the JSON object that `body` encodes; `None`
/// where `body` is not JSON, not an object, or has no such string field.
pub uninterp spec fn json_str_field_of(body: Seq<u8>, key: Seq<char>) -> Option<Seq<char>>;

/// Relies on serde_json::from_slice, Value::get and Value::as_str: the string held by the field
/// `key` of the top-level JSON object in `body`, which depends on the bytes and key alone.
#[verifier::external_body]
fn json_str_field(body: &[u8], key: &str) -> (r: Option<String>)
    ensures
        r is Some ==> json_str_field_of(body@, key@) == Some(r->0@),
        r is None ==> json_str_field_of(body@, key@) is None,
{
    let v: serde_json::Value = serde_json::from_slice(body).ok()?;
    let s = v.get(key)?.as_str()?;
    Some(s.to_owned())
}

/// The result of decoding an error response from its status, its body, and the `errcode` and
/// `error` strings read from the body (if any): a `MatrixError` where both were read, else
/// `UnknownErrorShape` with the status and body unchanged.
pub fn error_from_fields(
    status: u16,
    body: Vec<u8>,
    errcode: Option<String>,
    error: Option<String>,
) -> (r: Result<MatrixError, DecodeError>)
    ensures
        errcode is Some && error is Some ==> (r matches Ok(m) && m.status == status && m.errcode@
            == errcode->0@ && m.error@ == error->0@),
        !(errcode is Some && error is Some) ==> (r matches Err(DecodeError::UnknownErrorShape(s, b))
            && s == status && b@ == body@),
{
    match (errcode, error) {
        (Some(c), Some(e)) => Ok(MatrixError { status, errcode: c, error: e }),
        _ => Err(DecodeError::UnknownErrorShape(status, body)),
    }
}

/// Decodes the body of a non-success response. Where the body is a JSON object with string
/// fields `errcode` and `error`, the result is a `MatrixError` holding them; otherwise, as for a
/// body that is not JSON at all, it is `UnknownErrorShape` with the raw status and bytes.
pub fn decode_error_response(status: u16, body: Vec<u8>) -> (r: Result<MatrixError, DecodeError>)
    ensures
        ({
            let c = json_str_field_of(body@, "errcode"@);
            let e = json_str_field_of(body@, "error"@);
            &&& c is Some && e is Some ==> (r matches Ok(m) && m.status == status && m.errcode@
                == c->0 && m.error@ == e->0)
            &&& !(c is Some && e is Some) ==> (r matches Err(
                DecodeError::UnknownErrorShape(s, b),
            ) && s == status && b@ == body@)
        }),
{
    let errcode = json_str_field(body.as_slice(), "errcode");
    let error = json_str_field(body.as_slice(), "error");
    error_from_fields(status, body, errcode, error)
}

} // verus!
