use echo_server::auth::{authenticate_request, release_body, SignatureCheck};
use echo_server::error::Error;
use echo_server::payload::{MessagePayload, PushMessageBody, ENCRYPTED_FLAG};
use echo_server::response::{Response, ResponseStatus};
use echo_server::strutil::strip_did_prefix;

#[test]
fn authentication_requires_valid_signature() {
    assert!(authenticate_request(true, &SignatureCheck::Valid).is_ok());
    assert_eq!(authenticate_request(true, &SignatureCheck::Missing), Err(Error::Unauthorized));
    assert_eq!(authenticate_request(true, &SignatureCheck::Malformed), Err(Error::Unauthorized));
    assert_eq!(authenticate_request(true, &SignatureCheck::Invalid), Err(Error::Unauthorized));
}

#[test]
fn authentication_disabled_accepts_everything() {
    assert!(authenticate_request(false, &SignatureCheck::Missing).is_ok());
    assert!(authenticate_request(false, &SignatureCheck::Invalid).is_ok());
}

#[test]
fn body_release_order() {
    let body = PushMessageBody {
        id: "n1".to_string(),
        payload: MessagePayload { topic: None, flags: 0, blob: "hello".to_string() },
    };
    // Authentication is decided before the parse outcome.
    assert_eq!(release_body(true, &SignatureCheck::Missing, None), Err(Error::Unauthorized));
    assert_eq!(
        release_body(true, &SignatureCheck::Invalid, Some(body.clone())),
        Err(Error::Unauthorized)
    );
    assert_eq!(release_body(true, &SignatureCheck::Valid, None), Err(Error::BadRequest));
    assert_eq!(release_body(true, &SignatureCheck::Valid, Some(body.clone())), Ok(body));
}

#[test]
fn encrypted_flag_bit() {
    let mut p = MessagePayload { topic: None, flags: 0, blob: "x".to_string() };
    assert!(!p.is_encrypted());
    p.flags = ENCRYPTED_FLAG;
    assert!(p.is_encrypted());
    p.flags = ENCRYPTED_FLAG | 8;
    assert!(p.is_encrypted());
    p.flags = 8;
    assert!(!p.is_encrypted());
}

#[test]
fn did_prefix_stripping() {
    assert_eq!(strip_did_prefix("did:key:abc123"), "abc123");
    assert_eq!(strip_did_prefix("abc123"), "abc123");
    // Every leading occurrence is removed, as with repeated trimming.
    assert_eq!(strip_did_prefix("did:key:did:key:abc123"), "abc123");
    // The prefix in the middle stays.
    assert_eq!(strip_did_prefix("xdid:key:abc"), "xdid:key:abc");
    assert_eq!(strip_did_prefix(""), "");
    assert_eq!(strip_did_prefix("did:key:"), "");
}

#[test]
fn response_constructors() {
    let ok = Response::new_success(202);
    assert_eq!(ok.status, ResponseStatus::Success);
    assert_eq!(ok.status_code, 202);
    assert!(ok.errors.is_none());
    assert!(ok.fields.is_none());

    let default = Response::default();
    assert_eq!(default.status, ResponseStatus::Success);
    assert_eq!(default.status_code, 200);
}

#[test]
fn error_status_codes() {
    assert_eq!(Error::Unauthorized.status_code(), 401);
    assert_eq!(Error::BadRequest.status_code(), 400);
    assert_eq!(Error::ClientNotFound.status_code(), 404);
    assert_eq!(Error::InvalidTenantId("x".to_string()).status_code(), 404);
    assert_eq!(Error::ProviderNotAvailable("apns".to_string()).status_code(), 400);
    assert_eq!(Error::InvalidCredential.status_code(), 400);
    assert_eq!(Error::EmptyField("token".to_string()).status_code(), 400);
    assert_eq!(Error::InvalidConfiguration("x".to_string()).status_code(), 500);
    assert_eq!(Error::Store("x".to_string()).status_code(), 500);
    assert_eq!(Error::InternalUnsupportedOperation.status_code(), 500);
}

#[test]
fn error_envelope() {
    let r = Response::from_error(&Error::ClientNotFound);
    assert_eq!(r.status, ResponseStatus::Failure);
    assert_eq!(r.status_code, 404);
    let errors = r.errors.expect("errors missing");
    assert_eq!(errors.len(), 1);
    assert_eq!(errors[0].name, "client_not_found");
    assert_eq!(r.fields.expect("fields missing").len(), 0);
}
