use ruma_events::api::{
    check_flattenable, credential_for, get_devices_metadata, upload_signatures_metadata,
    BodyMode, EncodeError, Method,
};
use ruma_events::get_devices::{Request, Response};
use ruma_events::path::{percent_encode, render_path, PathField, Segment};
use ruma_events::response::{decode_error_response, error_from_fields, DecodeError};

#[test]
fn get_devices_metadata_fields() {
    let m = get_devices_metadata();
    assert_eq!(m.method, Method::Get);
    assert_eq!(m.path, "/_matrix/federation/v1/user/devices");
    assert_eq!(m.name, "get_devices");
    assert!(!m.rate_limited);
    assert!(m.requires_authentication);
    assert_eq!(m.body_mode, BodyMode::NamedFields);
}

#[test]
fn upload_signatures_metadata_fields() {
    let m = upload_signatures_metadata();
    assert_eq!(m.method, Method::Post);
    assert_eq!(m.path, "/_matrix/client/r0/keys/signatures/upload");
    assert!(m.requires_authentication);
    assert_eq!(m.body_mode, BodyMode::RawBody);
}

#[test]
fn missing_credential_is_unauthenticated() {
    let m = get_devices_metadata();
    assert_eq!(credential_for(&m, None), Err(EncodeError::Unauthenticated));
}

#[test]
fn given_credential_is_attached() {
    let m = get_devices_metadata();
    assert_eq!(credential_for(&m, Some("secret")), Ok(Some("secret".to_string())));
}

#[test]
fn no_credential_needed() {
    let mut m = get_devices_metadata();
    m.requires_authentication = false;
    assert_eq!(credential_for(&m, None), Ok(None));
    assert_eq!(credential_for(&m, Some("secret")), Ok(None));
}

fn keys(k: &[&str]) -> Vec<String> {
    k.iter().map(|s| s.to_string()).collect()
}

#[test]
fn disjoint_keys_flatten() {
    assert_eq!(check_flattenable(&keys(&["body"]), &keys(&["foo"])), Ok(()));
    assert_eq!(check_flattenable(&keys(&[]), &keys(&[])), Ok(()));
}

#[test]
fn shared_key_conflicts() {
    assert_eq!(
        check_flattenable(&keys(&["body", "msgtype"]), &keys(&["foo", "msgtype"])),
        Err(EncodeError::ConflictingKeys)
    );
}

#[test]
fn invalid_json_error_body_is_unknown_shape() {
    let body = b"<html>gateway</html>".to_vec();
    match decode_error_response(502, body.clone()) {
        Err(DecodeError::UnknownErrorShape(s, b)) => {
            assert_eq!(s, 502);
            assert_eq!(b, body);
        }
        _ => panic!("expected UnknownErrorShape"),
    }
}

#[test]
fn structured_error_body_decodes() {
    let body = br#"{"errcode":"M_FORBIDDEN","error":"no","extra":1}"#.to_vec();
    match decode_error_response(403, body) {
        Ok(m) => {
            assert_eq!(m.status, 403);
            assert_eq!(m.errcode, "M_FORBIDDEN");
            assert_eq!(m.error, "no");
        }
        _ => panic!("expected a MatrixError"),
    }
}

#[test]
fn error_body_without_message_is_unknown_shape() {
    let body = br#"{"errcode":"M_FORBIDDEN"}"#.to_vec();
    assert!(matches!(
        decode_error_response(403, body),
        Err(DecodeError::UnknownErrorShape(403, _))
    ));
}

#[test]
fn error_from_fields_keeps_both() {
    let r = error_from_fields(400, vec![], Some("M_X".to_string()), Some("bad".to_string()));
    assert!(matches!(r, Ok(m) if m.errcode == "M_X" && m.error == "bad" && m.status == 400));
    let r = error_from_fields(400, vec![1, 2], None, Some("bad".to_string()));
    assert!(matches!(r, Err(DecodeError::UnknownErrorShape(400, b)) if b == vec![1, 2]));
}

#[test]
fn percent_encodes_user_id() {
    assert_eq!(percent_encode(b"@alice:example.org"), b"%40alice%3Aexample.org".to_vec());
    assert_eq!(percent_encode(b"a-b_c.d~e09"), b"a-b_c.d~e09".to_vec());
    assert_eq!(percent_encode(b"a b/\xff"), b"a%20b%2F%FF".to_vec());
    assert_eq!(percent_encode(b""), Vec::<u8>::new());
}

fn user_devices_template() -> Vec<Segment> {
    vec![
        Segment::Literal(b"/_matrix/federation/v1/user/devices/".to_vec()),
        Segment::Placeholder(b"user_id".to_vec()),
    ]
}

#[test]
fn renders_path_with_encoded_field() {
    let fields = vec![PathField { name: b"user_id".to_vec(), value: b"@alice:example.org".to_vec() }];
    assert_eq!(
        render_path(&user_devices_template(), &fields),
        Ok(b"/_matrix/federation/v1/user/devices/%40alice%3Aexample.org".to_vec())
    );
}

#[test]
fn missing_path_field_is_reported() {
    let fields = vec![PathField { name: b"room_id".to_vec(), value: b"!r:x".to_vec() }];
    assert_eq!(render_path(&user_devices_template(), &fields), Err(EncodeError::MissingPathField));
}

#[test]
fn empty_path_field_is_reported() {
    let fields = vec![PathField { name: b"user_id".to_vec(), value: vec![] }];
    assert_eq!(render_path(&user_devices_template(), &fields), Err(EncodeError::MissingPathField));
}

#[test]
fn request_and_response_hold_their_fields() {
    let user = ruma_identifiers::UserId::parse("@alice:example.org").unwrap();
    let req = Request::new(&user);
    assert_eq!(req.user_id.as_str(), "@alice:example.org");
    let resp = Response::new(user.clone(), js_int::UInt::from(7u32), vec![]);
    assert_eq!(resp.user_id.as_str(), "@alice:example.org");
    assert_eq!(resp.stream_id, js_int::UInt::from(7u32));
    assert!(resp.devices.is_empty());
}
