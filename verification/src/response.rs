//! A ready-made challenge response for the two standard schemes.

use vstd::prelude::*;

use crate::respond::{challenge_header_value, spec_challenge, Challenge};

verus! {

/// The scheme a challenge names.
#[derive(Debug, Clone, PartialEq, Eq, Structural)]
pub enum AuthorizationKind {
    Basic,
    Bearer,
}

/// The scheme token each kind stands for.
pub open spec fn spec_kind_token(kind: AuthorizationKind) -> Seq<char> {
    match kind {
        AuthorizationKind::Basic => "Basic"@,
        AuthorizationKind::Bearer => "Bearer"@,
    }
}

/// A `401 Unauthorized` challenge response under construction, naming a
/// scheme and a realm.
#[derive(Debug, Clone, PartialEq)]
pub struct RequestAuthorization<'a> {
    kind: AuthorizationKind,
    realm: &'a str,
}

/// The mathematical image of a [`RequestAuthorization`].
pub struct RequestAuthorizationView {
    pub kind: AuthorizationKind,
    pub realm: Seq<char>,
}

impl<'a> View for RequestAuthorization<'a> {
    type V = RequestAuthorizationView;

    closed spec fn view(&self) -> RequestAuthorizationView {
        RequestAuthorizationView { kind: self.kind, realm: self.realm@ }
    }
}

impl<'a> RequestAuthorization<'a> {
    /// A challenge naming the `Basic` scheme.
    pub fn basic(realm: &'a str) -> (r: RequestAuthorization<'a>)
        ensures
            r@.kind == AuthorizationKind::Basic,
            r@.realm == realm@,
    {
        RequestAuthorization { kind: AuthorizationKind::Basic, realm }
    }

    /// A challenge naming the `Bearer` scheme.
    pub fn bearer(realm: &'a str) -> (r: RequestAuthorization<'a>)
        ensures
            r@.kind == AuthorizationKind::Bearer,
            r@.realm == realm@,
    {
        RequestAuthorization { kind: AuthorizationKind::Bearer, realm }
    }

    /// Renders the challenge: status 401, with the `WWW-Authenticate` header
    /// value that [`spec_challenge`] describes for this scheme and realm.
    pub fn respond(&self) -> (r: Challenge)
        ensures
            r.status == 401,
            r.www_authenticate@ == spec_challenge(spec_kind_token(self@.kind), self@.realm),
    {
        let token = match self.kind {
            AuthorizationKind::Basic => "Basic",
            AuthorizationKind::Bearer => "Bearer",
        };
        Challenge { status: 401, www_authenticate: challenge_header_value(token, self.realm) }
    }
}

} // verus!
