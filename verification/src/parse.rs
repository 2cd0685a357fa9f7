//! A self-contained, enum-based form of the extraction: one function takes
//! the whole header value and yields either a `Basic` pair or a `Bearer`
//! token, with a fine-grained error taxonomy.

use vstd::prelude::*;
use vstd::utf8::{decode_utf8, valid_utf8};

use crate::chars::{
    count_char,
    first_index,
    split_once_char,
    split_whitespace_str,
    split_ws,
    str_eq,
    trim_spec,
    trim_str,
};
use crate::codec::{b64_decode, base64_decode, utf8_to_string};

verus! {

/// The failures of the enum-based extraction.
#[derive(Debug, Clone, PartialEq, Eq, Structural)]
pub enum ParseError {
    /// No `Authorization` header was given.
    NotExists,
    /// A username, password or token was empty after trimming.
    EmptyError,
    /// The scheme token is neither `Basic` nor `Bearer`.
    UnknownKind,
    /// The header did not split into exactly two whitespace-separated tokens.
    InvalidHeader,
    /// The decoded payload was not UTF-8 text.
    UTFParseError,
    /// The payload was not valid Base64.
    Base64DecodeError,
    /// The decoded text did not hold exactly one colon.
    NonColonPairError,
}

/// The HTTP status each failure of the enum-based extraction surfaces with:
/// an absent header is unauthorized, every other failure a bad request.
pub open spec fn spec_parse_error_status(e: ParseError) -> int {
    match e {
        ParseError::NotExists => 401,
        _ => 400,
    }
}

impl ParseError {
    /// The HTTP status this failure surfaces with.
    pub fn status(&self) -> (r: u16)
        ensures
            r as int == spec_parse_error_status(*self),
    {
        match self {
            ParseError::NotExists => 401,
            _ => 400,
        }
    }
}

/// A credential parsed from an `Authorization` header: a `Basic`
/// username/password pair or a `Bearer` token.
#[derive(Debug, Clone, PartialEq)]
pub enum AuthorizationCredential {
    BasicCredential { username: String, password: String },
    BearerToken(String),
}

/// The mathematical image of an [`AuthorizationCredential`].
pub enum AuthorizationCredentialView {
    BasicCredential { username: Seq<char>, password: Seq<char> },
    BearerToken(Seq<char>),
}

impl View for AuthorizationCredential {
    type V = AuthorizationCredentialView;

    open spec fn view(&self) -> AuthorizationCredentialView {
        match self {
            AuthorizationCredential::BasicCredential { username, password } => {
                AuthorizationCredentialView::BasicCredential {
                    username: username@,
                    password: password@,
                }
            },
            AuthorizationCredential::BearerToken(token) => {
                AuthorizationCredentialView::BearerToken(token@)
            },
        }
    }
}

/// A parse result, seen through the view of its credential.
pub open spec fn credential_view(r: Result<AuthorizationCredential, ParseError>) -> Result<
    AuthorizationCredentialView,
    ParseError,
> {
    match r {
        Ok(credential) => Ok(credential@),
        Err(e) => Err(e),
    }
}

/// What parsing a `Basic` payload yields: Base64 whose decoded bytes are
/// UTF-8 text with exactly one colon, the trimmed segments around it both
/// non-empty, each failure classified on its own.
pub open spec fn spec_basic_credentials(credentials: Seq<char>) -> Result<
    AuthorizationCredentialView,
    ParseError,
> {
    match b64_decode(credentials) {
        None => Err(ParseError::Base64DecodeError),
        Some(bytes) => {
            if !valid_utf8(bytes) {
                Err(ParseError::UTFParseError)
            } else {
                let text = decode_utf8(bytes);
                if count_char(text, ':') != 1 {
                    Err(ParseError::NonColonPairError)
                } else {
                    let cut = first_index(text, ':');
                    let username = trim_spec(text.subrange(0, cut));
                    let password = trim_spec(text.subrange(cut + 1, text.len() as int));
                    if username.len() == 0 || password.len() == 0 {
                        Err(ParseError::EmptyError)
                    } else {
                        Ok(AuthorizationCredentialView::BasicCredential { username, password })
                    }
                }
            }
        },
    }
}

/// What parsing a `Bearer` payload yields: the trimmed token, non-empty.
pub open spec fn spec_bearer_token(credentials: Seq<char>) -> Result<
    AuthorizationCredentialView,
    ParseError,
> {
    if trim_spec(credentials).len() == 0 {
        Err(ParseError::EmptyError)
    } else {
        Ok(AuthorizationCredentialView::BearerToken(trim_spec(credentials)))
    }
}

/// What parsing a whole header value yields: two whitespace-separated tokens,
/// the first naming the scheme, the second parsed by that scheme's rule.
pub open spec fn spec_parse_header(authorization_header: Seq<char>) -> Result<
    AuthorizationCredentialView,
    ParseError,
> {
    let sections = split_ws(authorization_header);
    if sections.len() != 2 {
        Err(ParseError::InvalidHeader)
    } else if sections[0] == "Basic"@ {
        spec_basic_credentials(sections[1])
    } else if sections[0] == "Bearer"@ {
        spec_bearer_token(sections[1])
    } else {
        Err(ParseError::UnknownKind)
    }
}

/// What extraction from an optional header value yields: an absent header is
/// [`ParseError::NotExists`].
pub open spec fn spec_extract_header(header: Option<Seq<char>>) -> Result<
    AuthorizationCredentialView,
    ParseError,
> {
    match header {
        None => Err(ParseError::NotExists),
        Some(h) => spec_parse_header(h),
    }
}

impl AuthorizationCredential {
    /// Parses a `Basic` credential payload, exactly as
    /// [`spec_basic_credentials`] describes.
    pub fn basic_credentials_parse(credentials: &str) -> (r: Result<
        AuthorizationCredential,
        ParseError,
    >)
        ensures
            credential_view(r) == spec_basic_credentials(credentials@),
    {
        let decoded_payload = match base64_decode(credentials) {
            Some(bytes) => bytes,
            None => {
                return Err(ParseError::Base64DecodeError);
            },
        };
        let decoded_text = match utf8_to_string(decoded_payload) {
            Some(text) => text,
            None => {
                return Err(ParseError::UTFParseError);
            },
        };
        let (before, after) = match split_once_char(decoded_text.as_str(), ':') {
            Some(parts) => parts,
            None => {
                return Err(ParseError::NonColonPairError);
            },
        };
        let username = trim_str(before);
        let password = trim_str(after);
        if username.is_empty() || password.is_empty() {
            return Err(ParseError::EmptyError);
        }
        Ok(
            AuthorizationCredential::BasicCredential {
                username: username.to_owned(),
                password: password.to_owned(),
            },
        )
    }

    /// Parses a `Bearer` credential payload, exactly as [`spec_bearer_token`]
    /// describes.
    pub fn bearer_token_parse(credentials: &str) -> (r: Result<AuthorizationCredential, ParseError>)
        ensures
            credential_view(r) == spec_bearer_token(credentials@),
    {
        let token = trim_str(credentials);
        if token.is_empty() {
            return Err(ParseError::EmptyError);
        }
        Ok(AuthorizationCredential::BearerToken(token.to_owned()))
    }

    /// Parses a whole `Authorization` header value, exactly as
    /// [`spec_parse_header`] describes.
    pub fn parse(authorization_header: &str) -> (r: Result<AuthorizationCredential, ParseError>)
        ensures
            credential_view(r) == spec_parse_header(authorization_header@),
    {
        let header_sections = split_whitespace_str(authorization_header);
        proof {
            assert(header_sections.deep_view().len() == header_sections@.len());
        }
        if header_sections.len() != 2 {
            return Err(ParseError::InvalidHeader);
        }
        proof {
            assert(header_sections.deep_view()[0] == header_sections@[0]@);
            assert(header_sections.deep_view()[1] == header_sections@[1]@);
        }
        if str_eq(header_sections[0], "Basic") {
            Self::basic_credentials_parse(header_sections[1])
        } else if str_eq(header_sections[0], "Bearer") {
            Self::bearer_token_parse(header_sections[1])
        } else {
            Err(ParseError::UnknownKind)
        }
    }

    /// Extracts a credential from the raw value of the `Authorization`
    /// header, `None` standing for an absent header, exactly as
    /// [`spec_extract_header`] describes.
    pub fn from_header(header: Option<&str>) -> (r: Result<AuthorizationCredential, ParseError>)
        ensures
            credential_view(r) == spec_extract_header(crate::header_view(header)),
    {
        match header {
            None => Err(ParseError::NotExists),
            Some(authorization_header) => Self::parse(authorization_header),
        }
    }
}

} // verus!
