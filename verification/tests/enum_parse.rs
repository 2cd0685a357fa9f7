use base64::engine::general_purpose::STANDARD;
use base64::Engine;

use authorization::parse::{AuthorizationCredential, ParseError};

#[test]
fn parses_basic_header() {
    let credential = AuthorizationCredential::parse("Basic cm9vdDpwMnNzdzByZA==").unwrap();
    assert_eq!(
        credential,
        AuthorizationCredential::BasicCredential {
            username: "root".to_owned(),
            password: "p2ssw0rd".to_owned(),
        }
    );
}

#[test]
fn parses_bearer_header() {
    let credential = AuthorizationCredential::parse("Bearer abcdef123").unwrap();
    assert_eq!(
        credential,
        AuthorizationCredential::BearerToken("abcdef123".to_owned())
    );
}

#[test]
fn rejects_unknown_scheme() {
    let err = AuthorizationCredential::parse("Token abcdef123").unwrap_err();
    assert_eq!(err, ParseError::UnknownKind);
}

#[test]
fn rejects_single_token_header() {
    let err = AuthorizationCredential::parse("Basic").unwrap_err();
    assert_eq!(err, ParseError::InvalidHeader);
}

#[test]
fn absent_header_does_not_exist() {
    let err = AuthorizationCredential::from_header(None).unwrap_err();
    assert_eq!(err, ParseError::NotExists);
}

#[test]
fn only_an_absent_header_is_unauthorized() {
    assert_eq!(ParseError::NotExists.status(), 401);
    assert_eq!(ParseError::EmptyError.status(), 400);
    assert_eq!(ParseError::UnknownKind.status(), 400);
    assert_eq!(ParseError::InvalidHeader.status(), 400);
    assert_eq!(ParseError::UTFParseError.status(), 400);
    assert_eq!(ParseError::Base64DecodeError.status(), 400);
    assert_eq!(ParseError::NonColonPairError.status(), 400);
}

#[test]
fn present_header_is_parsed() {
    let credential = AuthorizationCredential::from_header(Some("Bearer tok")).unwrap();
    assert_eq!(
        credential,
        AuthorizationCredential::BearerToken("tok".to_owned())
    );
}

#[test]
fn classifies_bad_base64() {
    let err = AuthorizationCredential::basic_credentials_parse("====").unwrap_err();
    assert_eq!(err, ParseError::Base64DecodeError);
}

#[test]
fn classifies_bad_utf8() {
    let payload = STANDARD.encode([0xC3, 0x28]);
    let err = AuthorizationCredential::basic_credentials_parse(&payload).unwrap_err();
    assert_eq!(err, ParseError::UTFParseError);
}

#[test]
fn classifies_missing_colon() {
    let payload = STANDARD.encode("nocolon");
    let err = AuthorizationCredential::basic_credentials_parse(&payload).unwrap_err();
    assert_eq!(err, ParseError::NonColonPairError);
}

#[test]
fn classifies_empty_segment() {
    let payload = STANDARD.encode("user:  ");
    let err = AuthorizationCredential::basic_credentials_parse(&payload).unwrap_err();
    assert_eq!(err, ParseError::EmptyError);
}

#[test]
fn classifies_empty_bearer_token() {
    let err = AuthorizationCredential::bearer_token_parse("  ").unwrap_err();
    assert_eq!(err, ParseError::EmptyError);
}

#[test]
fn trims_bearer_token() {
    let credential = AuthorizationCredential::bearer_token_parse("  tok  ").unwrap();
    assert_eq!(
        credential,
        AuthorizationCredential::BearerToken("tok".to_owned())
    );
}
