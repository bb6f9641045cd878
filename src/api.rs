//! Static descriptions of protocol operations and the checks that encoding a request makes
//! against them before anything is sent.

use vstd::prelude::*;

verus! {

/// The HTTP verb of an operation.
#[derive(Clone, Copy, Debug, PartialEq, Eq, Structural)]
pub enum Method {
    /// GET
    Get,
    /// POST
    Post,
    /// PUT
    Put,
    /// DELETE
    Delete,
}

/// How the body-placed fields of a request become the request entity.
#[derive(Clone, Copy, Debug, PartialEq, Eq, Structural)]
pub enum BodyMode {
    /// The single body field is the whole entity.
    RawBody,
    /// The body fields form one JSON object keyed by their names.
    NamedFields,
}

/// Static metadata of one operation.
pub struct Metadata {
    /// A short description of the operation.
    pub description: &'static str,
    /// The name of the operation.
    pub name: &'static str,
    /// The HTTP verb.
    pub method: Method,
    /// The path template, with `{name}` placeholders.
    pub path: &'static str,
    /// Whether the operation is rate-limited.
    pub rate_limited: bool,
    /// Whether a credential must be attached.
    pub requires_authentication: bool,
    /// How the request entity is formed.
    pub body_mode: BodyMode,
}

/// Why a request could not be encoded.
#[derive(Clone, Copy, Debug, PartialEq, Eq, Structural)]
pub enum EncodeError {
    /// A placeholder of the path template has no value.
    MissingPathField,
    /// The operation needs a credential and none was given.
    Unauthenticated,
    /// A key appears both in an event's content and in its extra fields.
    ConflictingKeys,
}

/// The credential to attach to a request for the operation `meta`: `None` where the operation
/// needs none, the given one where it does, and `Unauthenticated` where it does and none was
/// given, so that no request is formed.
pub fn credential_for(meta: &Metadata, token: Option<&str>) -> (r: Result<Option<String>, EncodeError>)
    ensures
        !meta.requires_authentication ==> r == Ok::<Option<String>, EncodeError>(None),
        meta.requires_authentication && token is None ==> r == Err::<Option<String>, EncodeError>(
            EncodeError::Unauthenticated,
        ),
        meta.requires_authentication && token is Some ==> (r matches Ok(Some(c)) && c@
            == token->0@),
{
    if !meta.requires_authentication {
        Ok(None)
    } else {
        match token {
            None => Err(EncodeError::Unauthenticated),
            Some(t) => Ok(Some(t.to_owned())),
        }
    }
}

/// Whether the key lists `a` and `b` share a key.
pub open spec fn keys_overlap(a: Seq<String>, b: Seq<String>) -> bool {
    exists|i: int, j: int| 0 <= i < a.len() && 0 <= j < b.len() && #[trigger] a[i]@ == #[trigger] b[j]@
}

/// Checks that the top-level keys of an event's content and those of its extra fields can be
/// flattened into one JSON object: `ConflictingKeys` exactly where a key occurs in both.
pub fn check_flattenable(content_keys: &Vec<String>, extra_keys: &Vec<String>) -> (r: Result<(), EncodeError>)
    ensures
        r is Ok <==> !keys_overlap(content_keys@, extra_keys@),
        r is Err ==> r == Err::<(), EncodeError>(EncodeError::ConflictingKeys),
{
    let mut i: usize = 0;
    while i < content_keys.len()
        invariant
            i <= content_keys@.len(),
            forall|x: int, y: int| 0 <= x < i && 0 <= y < extra_keys@.len() ==> content_keys@[x]@ != extra_keys@[y]@,
        decreases content_keys@.len() - i,
    {
        let mut j: usize = 0;
        while j < extra_keys.len()
            invariant
                i < content_keys@.len(),
                j <= extra_keys@.len(),
                forall|y: int| 0 <= y < j ==> content_keys@[i as int]@ != extra_keys@[y]@,
            decreases extra_keys@.len() - j,
        {
            if content_keys[i].eq(&extra_keys[j]) {
                return Err(EncodeError::ConflictingKeys);
            }
            j = j + 1;
        }
        i = i + 1;
    }
    Ok(())
}

/// The description of the operation that gets information on all of a user's devices.
pub fn get_devices_metadata() -> (r: Metadata)
    ensures
        r.method == Method::Get,
        r.path@ == "/_matrix/federation/v1/user/devices"@,
        r.name@ == "get_devices"@,
        !r.rate_limited,
        r.requires_authentication,
        r.body_mode == BodyMode::NamedFields,
{
    Metadata {
        description: "Gets information on all of the user's devices.",
        name: "get_devices",
        method: Method::Get,
        path: "/_matrix/federation/v1/user/devices",
        rate_limited: false,
        requires_authentication: true,
        body_mode: BodyMode::NamedFields,
    }
}

/// The description of the operation that publishes cross-signing signatures for the user.
pub fn upload_signatures_metadata() -> (r: Metadata)
    ensures
        r.method == Method::Post,
        r.path@ == "/_matrix/client/r0/keys/signatures/upload"@,
        r.name@ == "upload_signatures"@,
        !r.rate_limited,
        r.requires_authentication,
        r.body_mode == BodyMode::RawBody,
{
    Metadata {
        description: "Publishes cross-signing signatures for the user.",
        name: "upload_signatures",
        method: Method::Post,
        path: "/_matrix/client/r0/keys/signatures/upload",
        rate_limited: false,
        requires_authentication: true,
        body_mode: BodyMode::RawBody,
    }
}

} // verus!
