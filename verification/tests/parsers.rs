use base64::engine::general_purpose::STANDARD;
use base64::Engine;

use authorization::basic::Basic;
use authorization::custom_auth::CustomAuth;
use authorization::oauth::OAuth;
use authorization::{AuthError, Authorization};

#[test]
fn scheme_constants() {
    assert_eq!(Basic::kind(), "Basic");
    assert_eq!(OAuth::kind(), "Bearer");
    assert_eq!(CustomAuth::kind(), "Custom");
}

#[test]
fn basic_round_trips_an_encoded_pair() {
    let payload = STANDARD.encode("alice:wonderland");
    let parsed = Basic::parse("Basic", &payload).unwrap();
    assert_eq!(parsed.username, "alice");
    assert_eq!(parsed.password, "wonderland");
}

#[test]
fn basic_trims_the_segments() {
    let payload = STANDARD.encode("  alice \t:  open sesame \n");
    let parsed = Basic::parse("Basic", &payload).unwrap();
    assert_eq!(parsed.username, "alice");
    assert_eq!(parsed.password, "open sesame");
}

#[test]
fn basic_rejects_invalid_base64() {
    let err = Basic::parse("Basic", "%%%").unwrap_err();
    assert_eq!(err, AuthError::Unprocessable("Base64 Decode Error".to_owned()));
}

#[test]
fn basic_rejects_invalid_utf8() {
    let payload = STANDARD.encode([0xFF, 0xFE, 0x80]);
    let err = Basic::parse("Basic", &payload).unwrap_err();
    assert_eq!(err, AuthError::Unprocessable("UTF8 Parse Error".to_owned()));
}

#[test]
fn basic_rejects_zero_colons() {
    let payload = STANDARD.encode("nocolon");
    let err = Basic::parse("Basic", &payload).unwrap_err();
    assert_eq!(err, AuthError::Unprocessable("Non-Colon Pair Given".to_owned()));
}

#[test]
fn basic_rejects_two_colons() {
    let payload = STANDARD.encode("a:b:c");
    let err = Basic::parse("Basic", &payload).unwrap_err();
    assert_eq!(err, AuthError::Unprocessable("Non-Colon Pair Given".to_owned()));
}

#[test]
fn basic_rejects_empty_username() {
    let payload = STANDARD.encode("  :secret");
    let err = Basic::parse("Basic", &payload).unwrap_err();
    assert_eq!(err, AuthError::Unprocessable("No Credentials Given".to_owned()));
}

#[test]
fn basic_rejects_empty_password() {
    let payload = STANDARD.encode("alice:   ");
    let err = Basic::parse("Basic", &payload).unwrap_err();
    assert_eq!(err, AuthError::Unprocessable("No Credentials Given".to_owned()));
}

#[test]
fn bearer_returns_trimmed_token() {
    let parsed = OAuth::parse("Bearer", " abcdef123 ").unwrap();
    assert_eq!(parsed.token, "abcdef123");
}

#[test]
fn bearer_rejects_empty_token_as_missing() {
    let err = OAuth::parse("Bearer", "   ").unwrap_err();
    assert_eq!(err, AuthError::HeaderMissing);
    assert_eq!(err.status(), 401);
}

#[test]
fn custom_parses_a_pair() {
    let parsed = CustomAuth::parse("Custom", " tenant : token ").unwrap();
    assert_eq!(parsed.slug, "tenant");
    assert_eq!(parsed.token, "token");
}

#[test]
fn custom_rejects_wrong_shape() {
    let err = CustomAuth::parse("Custom", "pairless").unwrap_err();
    assert_eq!(
        err,
        AuthError::Unprocessable("Invalid Key-Value Pair Format Error".to_owned())
    );
}

#[test]
fn custom_rejects_empty_segment_as_missing() {
    let err = CustomAuth::parse("Custom", "tenant: ").unwrap_err();
    assert_eq!(err, AuthError::HeaderMissing);
}

#[test]
fn error_statuses_follow_the_table() {
    assert_eq!(AuthError::HeaderMissing.status(), 401);
    assert_eq!(AuthError::HeaderMalformed.status(), 400);
    assert_eq!(AuthError::IncompatibleKind.status(), 401);
    assert_eq!(AuthError::Unprocessable("x".to_owned()).status(), 422);
    assert_eq!(AuthError::Unauthorized.status(), 401);
    assert_eq!(AuthError::Forbidden.status(), 403);
    assert_eq!(AuthError::PaymentRequired.status(), 402);
    assert_eq!(AuthError::Status(418).status(), 418);
}

#[test]
fn error_messages_name_the_failure() {
    assert_eq!(
        AuthError::HeaderMissing.message(),
        "Authorization header is missing."
    );
    assert_eq!(
        AuthError::HeaderMalformed.message(),
        "Authorization header is malformed."
    );
    assert_eq!(
        AuthError::IncompatibleKind.message(),
        "Authorization kind is incompatible."
    );
    assert_eq!(
        AuthError::Unprocessable("x".to_owned()).message(),
        "Authorization details could not be parsed."
    );
}
