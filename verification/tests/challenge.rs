use authorization::basic::Basic;
use authorization::oauth::OAuth;
use authorization::respond::request_authorization;
use authorization::response::RequestAuthorization;

#[test]
fn challenge_names_scheme_and_realm() {
    let challenge = request_authorization::<Basic>("Restricted Area");
    assert_eq!(challenge.status, 401);
    assert_eq!(
        challenge.www_authenticate,
        "Basic realm=\"Restricted Area\", charset=\"UTF-8\""
    );
}

#[test]
fn challenge_is_pure() {
    let first = request_authorization::<OAuth>("api");
    let second = request_authorization::<OAuth>("api");
    assert_eq!(first.www_authenticate, second.www_authenticate);
    assert_eq!(first.status, second.status);
}

#[test]
fn basic_responder_builds_the_header() {
    let response = RequestAuthorization::basic("vault").respond();
    assert_eq!(response.status, 401);
    assert_eq!(
        response.www_authenticate,
        "Basic realm=\"vault\", charset=\"UTF-8\""
    );
}

#[test]
fn bearer_responder_builds_the_header() {
    let response = RequestAuthorization::bearer("api").respond();
    assert_eq!(response.status, 401);
    assert_eq!(
        response.www_authenticate,
        "Bearer realm=\"api\", charset=\"UTF-8\""
    );
}

#[test]
fn responder_is_idempotent() {
    let builder = RequestAuthorization::bearer("api");
    assert_eq!(
        builder.respond().www_authenticate,
        builder.respond().www_authenticate
    );
}
