//! An example custom authorization scheme: a plain `slug:token` pair.

use vstd::prelude::*;

use crate::chars::{count_char, first_index, split_once_char, trim_spec, trim_str};
use crate::{AuthError, AuthErrorView, Authorization};

verus! {

/// A slug and token extracted from a `Custom` header, both non-empty after
/// trimming.
#[derive(Debug)]
pub struct CustomAuth {
    pub slug: String,
    pub token: String,
}

/// The mathematical image of a [`CustomAuth`] credential.
pub struct CustomAuthView {
    pub slug: Seq<char>,
    pub token: Seq<char>,
}

impl View for CustomAuth {
    type V = CustomAuthView;

    open spec fn view(&self) -> CustomAuthView {
        CustomAuthView { slug: self.slug@, token: self.token@ }
    }
}

/// What parsing a `Custom` payload yields. The payload must hold exactly one
/// colon; the segments around it are trimmed. A wrong shape is
/// `Unprocessable`, while an empty segment reports a required value as
/// absent.
pub open spec fn spec_parse_custom(credential: Seq<char>) -> Result<CustomAuthView, AuthErrorView> {
    if count_char(credential, ':') != 1 {
        Err(AuthErrorView::Unprocessable("Invalid Key-Value Pair Format Error"@))
    } else {
        let cut = first_index(credential, ':');
        let slug = trim_spec(credential.subrange(0, cut));
        let token = trim_spec(credential.subrange(cut + 1, credential.len() as int));
        if slug.len() == 0 || token.len() == 0 {
            Err(AuthErrorView::HeaderMissing)
        } else {
            Ok(CustomAuthView { slug, token })
        }
    }
}

impl Authorization for CustomAuth {
    open spec fn spec_kind() -> Seq<char> {
        "Custom"@
    }

    open spec fn spec_parse(credential: Seq<char>) -> Result<CustomAuthView, AuthErrorView> {
        spec_parse_custom(credential)
    }

    fn kind() -> (r: &'static str)
        ensures
            r@ == Self::spec_kind(),
    {
        "Custom"
    }

    fn parse(kind: &str, credential: &str) -> (r: Result<Self, AuthError>) {
        let (before, after) = match split_once_char(credential, ':') {
            Some(parts) => parts,
            None => {
                return Err(
                    AuthError::Unprocessable("Invalid Key-Value Pair Format Error".to_owned()),
                );
            },
        };
        let slug = trim_str(before);
        let token = trim_str(after);
        if slug.is_empty() || token.is_empty() {
            return Err(AuthError::HeaderMissing);
        }
        Ok(CustomAuth { slug: slug.to_owned(), token: token.to_owned() })
    }
}

} // verus!
