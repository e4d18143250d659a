use http::header::{HeaderMap, HeaderValue, AUTHORIZATION};
use rbucket::constants::BEARER;
use rbucket::defined_error::Error;
use rbucket::handler::{
    authorization_token, authorize, bearer_token, file_response_path, handle_rejection, jwt_from_header,
    rejection_reply,
};
use rbucket::obj::Claims;
use warp::Filter;
use rbucket::text::{same_text, starts_with, utf8_text};

#[test]
fn bearer_prefix_is_removed() {
    assert_eq!(bearer_token("Bearer abc.def.ghi"), Ok("abc.def.ghi".to_string()));
}

#[test]
fn repeated_bearer_prefixes_are_all_removed() {
    assert_eq!(bearer_token("Bearer Bearer Bearer tok"), Ok("tok".to_string()));
}

#[test]
fn bearer_only_yields_empty_token() {
    assert_eq!(bearer_token("Bearer "), Ok(String::new()));
}

#[test]
fn other_schemes_are_invalid() {
    assert_eq!(bearer_token("Basic dXNlcjpwdw=="), Err(Error::InvalidAuthHeaderError));
    assert_eq!(bearer_token("bearer abc"), Err(Error::InvalidAuthHeaderError));
    assert_eq!(bearer_token("Bearer"), Err(Error::InvalidAuthHeaderError));
    assert_eq!(bearer_token(""), Err(Error::InvalidAuthHeaderError));
}

#[test]
fn bearer_constant_is_scheme_with_space() {
    assert_eq!(BEARER, "Bearer ");
}

#[test]
fn missing_header_value_is_no_auth() {
    assert_eq!(authorization_token(None), Err(Error::NoAuthHeaderError));
}

#[test]
fn non_utf8_header_value_is_no_auth() {
    let bytes: &[u8] = &[0x42, 0x65, 0xff, 0xfe];
    assert_eq!(authorization_token(Some(bytes)), Err(Error::NoAuthHeaderError));
}

#[test]
fn header_value_bytes_are_decoded() {
    assert_eq!(authorization_token(Some(b"Bearer xyz")), Ok("xyz".to_string()));
}

#[test]
fn jwt_from_header_reads_authorization() {
    let mut headers = HeaderMap::new();
    headers.insert(AUTHORIZATION, HeaderValue::from_static("Bearer token-123"));
    assert_eq!(jwt_from_header(&headers), Ok("token-123".to_string()));
}

#[test]
fn jwt_from_header_uses_first_value() {
    let mut headers = HeaderMap::new();
    headers.append(AUTHORIZATION, HeaderValue::from_static("Bearer first"));
    headers.append(AUTHORIZATION, HeaderValue::from_static("Bearer second"));
    assert_eq!(jwt_from_header(&headers), Ok("first".to_string()));
}

#[test]
fn jwt_from_header_without_authorization() {
    let mut headers = HeaderMap::new();
    headers.insert(http::header::HOST, HeaderValue::from_static("example.org"));
    assert_eq!(jwt_from_header(&headers), Err(Error::NoAuthHeaderError));
}

#[test]
fn jwt_from_header_non_utf8_value() {
    let mut headers = HeaderMap::new();
    headers.insert(AUTHORIZATION, HeaderValue::from_bytes(&[0x42, 0xff]).unwrap());
    assert_eq!(jwt_from_header(&headers), Err(Error::NoAuthHeaderError));
}

#[test]
fn jwt_from_header_wrong_scheme() {
    let mut headers = HeaderMap::new();
    headers.insert(AUTHORIZATION, HeaderValue::from_static("Token abc"));
    assert_eq!(jwt_from_header(&headers), Err(Error::InvalidAuthHeaderError));
}

#[test]
fn rejection_replies() {
    let r = rejection_reply(true, false);
    assert_eq!((r.code, r.message.as_str()), (404, "Not Found"));
    let r = rejection_reply(true, true);
    assert_eq!((r.code, r.message.as_str()), (404, "Not Found"));
    let r = rejection_reply(false, true);
    assert_eq!((r.code, r.message.as_str()), (400, "Payload too large"));
    let r = rejection_reply(false, false);
    assert_eq!((r.code, r.message.as_str()), (500, "Internal Server Error"));
}

#[derive(Debug)]
struct Refused;

#[derive(Debug)]
struct AuthFailure(#[allow(dead_code)] Error);

impl warp::reject::Reject for AuthFailure {}

impl warp::reject::Reject for Refused {}

#[test]
fn handle_rejection_not_found() {
    let r = handle_rejection(&warp::reject::not_found());
    assert_eq!((r.code, r.message.as_str()), (404, "Not Found"));
}

#[test]
fn handle_rejection_other_cause() {
    let r = handle_rejection(&warp::reject::custom(Refused));
    assert_eq!((r.code, r.message.as_str()), (500, "Internal Server Error"));
}

#[test]
fn file_response_path_is_under_output() {
    assert_eq!(file_response_path("abc.webm"), "./output/abc.webm");
    assert_eq!(file_response_path(""), "./output/");
}

#[test]
fn text_helpers() {
    assert!(same_text("héllo", "héllo"));
    assert!(!same_text("héllo", "hello"));
    assert!(!same_text("abc", "abcd"));
    assert!(starts_with("Bearer x", "Bearer "));
    assert!(!starts_with("Bear", "Bearer "));
    assert!(starts_with("anything", ""));
}

#[test]
fn utf8_text_decodes_or_refuses() {
    assert_eq!(utf8_text("ünïcode".as_bytes()), Some("ünïcode".to_string()));
    assert_eq!(utf8_text(&[0xc3, 0x28]), None);
    assert_eq!(utf8_text(&[]), Some(String::new()));
}

#[test]
fn handle_rejection_reject_is_not_found() {
    let r = handle_rejection(&warp::reject());
    assert_eq!((r.code, r.message.as_str()), (404, "Not Found"));
}

#[test]
fn handle_rejection_auth_error_is_internal() {
    let r = handle_rejection(&warp::reject::custom(AuthFailure(Error::JWTTokenError)));
    assert_eq!((r.code, r.message.as_str()), (500, "Internal Server Error"));
}

#[test]
fn handle_rejection_payload_too_large() {
    let runtime = tokio::runtime::Builder::new_current_thread().enable_all().build().unwrap();
    let filter = warp::body::content_length_limit(4).and(warp::body::bytes());
    let rejection = runtime
        .block_on(warp::test::request().body("far too long a body").filter(&filter))
        .err()
        .expect("oversized body is rejected");
    let r = handle_rejection(&rejection);
    assert_eq!((r.code, r.message.as_str()), (400, "Payload too large"));
}

#[test]
fn handle_rejection_same_reply_twice() {
    let err = warp::reject::not_found();
    let a = handle_rejection(&err);
    let b = handle_rejection(&err);
    assert_eq!((a.code, a.message), (b.code, b.message));
}

#[test]
fn authorize_outcomes() {
    let claims = Claims::new("user".to_string(), 99);
    let ok = authorize(Ok("tok".to_string()), Some(claims)).unwrap();
    assert_eq!((ok.sub().as_str(), ok.exp()), ("user", 99));
    assert_eq!(
        authorize(Ok("tok".to_string()), None).err(),
        Some(Error::JWTTokenError)
    );
    assert_eq!(
        authorize(Err(Error::InvalidAuthHeaderError), None).err(),
        Some(Error::InvalidAuthHeaderError)
    );
    assert_eq!(
        authorize(Err(Error::NoAuthHeaderError), Some(Claims::new("x".to_string(), 1))).err(),
        Some(Error::NoAuthHeaderError)
    );
}
