//! The `Basic` authorization scheme: a Base64-encoded `username:password`
//! pair.

use vstd::prelude::*;
use vstd::utf8::{decode_utf8, valid_utf8};

use crate::chars::{count_char, first_index, split_once_char, trim_spec, trim_str};
use crate::codec::{b64_decode, base64_decode, utf8_to_string};
use crate::{AuthError, AuthErrorView, Authorization};

verus! {

/// A username and password extracted from a `Basic` header, both non-empty
/// after trimming.
#[derive(Debug, Clone, PartialEq)]
pub struct Basic {
    pub username: String,
    pub password: String,
}

/// The mathematical image of a [`Basic`] credential.
pub struct BasicView {
    pub username: Seq<char>,
    pub password: Seq<char>,
}

impl View for Basic {
    type V = BasicView;

    open spec fn view(&self) -> BasicView {
        BasicView { username: self.username@, password: self.password@ }
    }
}

/// What parsing a `Basic` payload yields. The payload must be Base64 whose
/// decoded bytes are UTF-8 text with exactly one colon; the segments around
/// the colon are trimmed and must both be non-empty. Every failure is
/// `Unprocessable`.
pub open spec fn spec_parse_basic(credential: Seq<char>) -> Result<BasicView, AuthErrorView> {
    match b64_decode(credential) {
        None => Err(AuthErrorView::Unprocessable("Base64 Decode Error"@)),
        Some(bytes) => {
            if !valid_utf8(bytes) {
                Err(AuthErrorView::Unprocessable("UTF8 Parse Error"@))
            } else {
                let text = decode_utf8(bytes);
                if count_char(text, ':') != 1 {
                    Err(AuthErrorView::Unprocessable("Non-Colon Pair Given"@))
                } else {
                    let cut = first_index(text, ':');
                    let username = trim_spec(text.subrange(0, cut));
                    let password = trim_spec(text.subrange(cut + 1, text.len() as int));
                    if username.len() == 0 || password.len() == 0 {
                        Err(AuthErrorView::Unprocessable("No Credentials Given"@))
                    } else {
                        Ok(BasicView { username, password })
                    }
                }
            }
        },
    }
}

/// For every payload that is valid Base64 of UTF-8 text holding exactly one
/// colon with both trimmed segments non-empty, `Basic` parsing succeeds and
/// returns exactly that trimmed username/password pair.
pub proof fn lemma_basic_accepts_valid_pair(credential: Seq<char>, bytes: Seq<u8>)
    ensures
        ({
            let text = decode_utf8(bytes);
            let cut = first_index(text, ':');
            let username = trim_spec(text.subrange(0, cut));
            let password = trim_spec(text.subrange(cut + 1, text.len() as int));
            b64_decode(credential) == Some(bytes) && valid_utf8(bytes) && count_char(text, ':')
                == 1 && username.len() > 0 && password.len() > 0 ==> spec_parse_basic(credential)
                == Ok::<BasicView, AuthErrorView>(BasicView { username, password })
        }),
{
}

/// For every payload that is not valid Base64, `Basic` parsing fails as
/// `Unprocessable`.
pub proof fn lemma_basic_rejects_invalid_base64(credential: Seq<char>)
    ensures
        b64_decode(credential) is None ==> spec_parse_basic(credential) == Err::<
            BasicView,
            AuthErrorView,
        >(AuthErrorView::Unprocessable("Base64 Decode Error"@)),
{
}

/// For every valid Base64 payload whose decoded text holds zero colons or
/// more than one, `Basic` parsing fails as `Unprocessable`.
pub proof fn lemma_basic_rejects_wrong_colon_count(credential: Seq<char>, bytes: Seq<u8>)
    ensures
        b64_decode(credential) == Some(bytes) && valid_utf8(bytes) && count_char(
            decode_utf8(bytes),
            ':',
        ) != 1 ==> spec_parse_basic(credential) == Err::<BasicView, AuthErrorView>(
            AuthErrorView::Unprocessable("Non-Colon Pair Given"@),
        ),
{
}

impl Authorization for Basic {
    open spec fn spec_kind() -> Seq<char> {
        "Basic"@
    }

    open spec fn spec_parse(credential: Seq<char>) -> Result<BasicView, AuthErrorView> {
        spec_parse_basic(credential)
    }

    fn kind() -> (r: &'static str)
        ensures
            r@ == Self::spec_kind(),
    {
        "Basic"
    }

    fn parse(kind: &str, credential: &str) -> (r: Result<Self, AuthError>) {
        let decoded_payload = match base64_decode(credential) {
            Some(bytes) => bytes,
            None => {
                return Err(AuthError::Unprocessable("Base64 Decode Error".to_owned()));
            },
        };
        let decoded_text = match utf8_to_string(decoded_payload) {
            Some(text) => text,
            None => {
                return Err(AuthError::Unprocessable("UTF8 Parse Error".to_owned()));
            },
        };
        let (before, after) = match split_once_char(decoded_text.as_str(), ':') {
            Some(parts) => parts,
            None => {
                return Err(AuthError::Unprocessable("Non-Colon Pair Given".to_owned()));
            },
        };
        let username = trim_str(before);
        let password = trim_str(after);
        if username.is_empty() || password.is_empty() {
            return Err(AuthError::Unprocessable("No Credentials Given".to_owned()));
        }
        Ok(Basic { username: username.to_owned(), password: password.to_owned() })
    }
}

} // verus!
