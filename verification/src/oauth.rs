//! The `Bearer` (OAuth) authorization scheme: a plain token.

use vstd::prelude::*;

use crate::chars::{trim_spec, trim_str};
use crate::{AuthError, AuthErrorView, Authorization};

verus! {

/// A bearer token extracted from a `Bearer` header, non-empty after trimming.
#[derive(Debug, Clone, PartialEq)]
pub struct OAuth {
    pub token: String,
}

/// The mathematical image of an [`OAuth`] credential.
pub struct OAuthView {
    pub token: Seq<char>,
}

impl View for OAuth {
    type V = OAuthView;

    open spec fn view(&self) -> OAuthView {
        OAuthView { token: self.token@ }
    }
}

/// What parsing a `Bearer` payload yields: the trimmed token, which must be
/// non-empty; an empty token reports the required value as absent.
pub open spec fn spec_parse_oauth(credential: Seq<char>) -> Result<OAuthView, AuthErrorView> {
    if trim_spec(credential).len() == 0 {
        Err(AuthErrorView::HeaderMissing)
    } else {
        Ok(OAuthView { token: trim_spec(credential) })
    }
}

/// For every token that is non-empty after trimming, `Bearer` parsing
/// succeeds and returns that trimmed token; for one that is empty after
/// trimming, it fails with `HeaderMissing`.
pub proof fn lemma_bearer_trimmed_token(credential: Seq<char>)
    ensures
        trim_spec(credential).len() > 0 ==> spec_parse_oauth(credential) == Ok::<
            OAuthView,
            AuthErrorView,
        >(OAuthView { token: trim_spec(credential) }),
        trim_spec(credential).len() == 0 ==> spec_parse_oauth(credential) == Err::<
            OAuthView,
            AuthErrorView,
        >(AuthErrorView::HeaderMissing),
{
}

impl Authorization for OAuth {
    open spec fn spec_kind() -> Seq<char> {
        "Bearer"@
    }

    open spec fn spec_parse(credential: Seq<char>) -> Result<OAuthView, AuthErrorView> {
        spec_parse_oauth(credential)
    }

    fn kind() -> (r: &'static str)
        ensures
            r@ == Self::spec_kind(),
    {
        "Bearer"
    }

    fn parse(kind: &str, credential: &str) -> (r: Result<Self, AuthError>) {
        let token_str = trim_str(credential);
        if token_str.is_empty() {
            return Err(AuthError::HeaderMissing);
        }
        Ok(OAuth { token: token_str.to_owned() })
    }
}

} // verus!
