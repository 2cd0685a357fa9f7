//! Building the `401 Unauthorized` challenge that names the expected scheme
//! and realm.

use vstd::prelude::*;
use vstd::string::StringExecFns;

use crate::Authorization;

verus! {

/// The `WWW-Authenticate` header value for a scheme and a realm:
/// `<Scheme> realm="<realm>", charset="UTF-8"`.
pub open spec fn spec_challenge(kind: Seq<char>, realm: Seq<char>) -> Seq<char> {
    kind + " realm=\""@ + realm + "\", charset=\"UTF-8\""@
}

/// Challenge generation is a pure function of the scheme and the realm: any
/// two header values built for the same pair are identical.
pub proof fn lemma_challenge_deterministic(
    kind: Seq<char>,
    realm: Seq<char>,
    first: Seq<char>,
    second: Seq<char>,
)
    requires
        first == spec_challenge(kind, realm),
        second == spec_challenge(kind, realm),
    ensures
        first == second,
{
}

/// Builds the header value that [`spec_challenge`] describes.
pub fn challenge_header_value(kind: &str, realm: &str) -> (r: String)
    ensures
        r@ == spec_challenge(kind@, realm@),
{
    let mut value = kind.to_owned();
    value.append(" realm=\"");
    value.append(realm);
    value.append("\", charset=\"UTF-8\"");
    value
}

/// A `401 Unauthorized` response carrying a `WWW-Authenticate` challenge.
pub struct Challenge {
    pub status: u16,
    pub www_authenticate: String,
}

/// Builds the challenge prompting a client to authenticate with the given
/// scheme against the given realm: status 401, with the `WWW-Authenticate`
/// header value that [`spec_challenge`] describes.
pub fn request_authorization<AuthorizationType: Authorization>(realm: &str) -> (r: Challenge)
    ensures
        r.status == 401,
        r.www_authenticate@ == spec_challenge(AuthorizationType::spec_kind(), realm@),
{
    Challenge { status: 401, www_authenticate: challenge_header_value(
        AuthorizationType::kind(),
        realm,
    ) }
}

} // verus!
