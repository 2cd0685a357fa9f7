//! Extraction and validation of HTTP `Authorization` header credentials.
//!
//! A raw header value such as `Basic cm9vdDpwMnNzdzByZA==` is split into a
//! scheme token and a credential payload; the payload is parsed by the
//! scheme's own rules (Base64 plus UTF-8 plus a colon-separated pair for
//! `Basic`, a trimmed non-empty token for `Bearer`) into a typed credential,
//! or into a classified [`AuthError`] bound to an HTTP status code.

use vstd::prelude::*;

pub mod basic;
pub mod chars;
pub mod codec;
pub mod custom_auth;
pub mod oauth;
pub mod parse;
pub mod respond;
pub mod response;
pub mod sysadmin;

use crate::chars::{split_whitespace_str, split_ws, str_eq};

verus! {

/// The classified failures of credential extraction. Each kind is bound to a
/// default HTTP status code by [`AuthError::status`].
#[derive(Clone, Debug, PartialEq)]
pub enum AuthError {
    /// No `Authorization` header, or a required sub-value was absent.
    HeaderMissing,
    /// The header did not split into exactly two whitespace-separated tokens.
    HeaderMalformed,
    /// The scheme token did not match the expected scheme.
    IncompatibleKind,
    /// The payload was present but failed decoding or format validation.
    Unprocessable(String),
    /// Reserved for parser-level authorization failure.
    Unauthorized,
    /// Reserved for parser-level access denial.
    Forbidden,
    /// Reserved extension point.
    PaymentRequired,
    /// Escape hatch for an arbitrary status code.
    Status(u16),
}

/// The mathematical image of an [`AuthError`]: the same taxonomy over
/// sequences of characters and unbounded integers.
pub enum AuthErrorView {
    HeaderMissing,
    HeaderMalformed,
    IncompatibleKind,
    Unprocessable(Seq<char>),
    Unauthorized,
    Forbidden,
    PaymentRequired,
    Status(int),
}

impl View for AuthError {
    type V = AuthErrorView;

    open spec fn view(&self) -> AuthErrorView {
        match self {
            AuthError::HeaderMissing => AuthErrorView::HeaderMissing,
            AuthError::HeaderMalformed => AuthErrorView::HeaderMalformed,
            AuthError::IncompatibleKind => AuthErrorView::IncompatibleKind,
            AuthError::Unprocessable(msg) => AuthErrorView::Unprocessable(msg@),
            AuthError::Unauthorized => AuthErrorView::Unauthorized,
            AuthError::Forbidden => AuthErrorView::Forbidden,
            AuthError::PaymentRequired => AuthErrorView::PaymentRequired,
            AuthError::Status(code) => AuthErrorView::Status(*code as int),
        }
    }
}

/// The default HTTP status code of each failure kind.
pub open spec fn spec_status(e: AuthErrorView) -> int {
    match e {
        AuthErrorView::HeaderMissing => 401,
        AuthErrorView::HeaderMalformed => 400,
        AuthErrorView::IncompatibleKind => 401,
        AuthErrorView::Unprocessable(_) => 422,
        AuthErrorView::Unauthorized => 401,
        AuthErrorView::Forbidden => 403,
        AuthErrorView::PaymentRequired => 402,
        AuthErrorView::Status(code) => code,
    }
}

/// The description of each failure kind.
pub open spec fn spec_message(e: AuthErrorView) -> Seq<char> {
    match e {
        AuthErrorView::HeaderMissing => "Authorization header is missing."@,
        AuthErrorView::HeaderMalformed => "Authorization header is malformed."@,
        AuthErrorView::IncompatibleKind => "Authorization kind is incompatible."@,
        AuthErrorView::Unprocessable(_) => "Authorization details could not be parsed."@,
        AuthErrorView::Unauthorized => "Access is unauthorized."@,
        AuthErrorView::Forbidden => "Provided credentials are forbidden."@,
        AuthErrorView::PaymentRequired => "Payment is required for access."@,
        AuthErrorView::Status(_) => "Status code was chosen by the caller."@,
    }
}

impl AuthError {
    /// The default HTTP status code for this failure.
    pub fn status(&self) -> (r: u16)
        ensures
            r as int == spec_status(self@),
    {
        match self {
            AuthError::HeaderMissing => 401,
            AuthError::HeaderMalformed => 400,
            AuthError::IncompatibleKind => 401,
            AuthError::Unprocessable(_) => 422,
            AuthError::Unauthorized => 401,
            AuthError::Forbidden => 403,
            AuthError::PaymentRequired => 402,
            AuthError::Status(code) => *code,
        }
    }

    /// A short description of this failure.
    pub fn message(&self) -> (r: &'static str)
        ensures
            r@ == spec_message(self@),
    {
        match self {
            AuthError::HeaderMissing => "Authorization header is missing.",
            AuthError::HeaderMalformed => "Authorization header is malformed.",
            AuthError::IncompatibleKind => "Authorization kind is incompatible.",
            AuthError::Unprocessable(_) => "Authorization details could not be parsed.",
            AuthError::Unauthorized => "Access is unauthorized.",
            AuthError::Forbidden => "Provided credentials are forbidden.",
            AuthError::PaymentRequired => "Payment is required for access.",
            AuthError::Status(_) => "Status code was chosen by the caller.",
        }
    }
}

/// A parse result, seen through the views of both of its sides.
pub open spec fn result_view<T: View>(r: Result<T, AuthError>) -> Result<T::V, AuthErrorView> {
    match r {
        Ok(value) => Ok(value@),
        Err(e) => Err(e@),
    }
}

/// An extraction outcome, seen through the views of both of its sides.
pub open spec fn outcome_view<T: View>(r: Result<T, (u16, AuthError)>) -> Result<
    T::V,
    (int, AuthErrorView),
> {
    match r {
        Ok(value) => Ok(value@),
        Err((status, e)) => Err((status as int, e@)),
    }
}

/// An optional raw header value, seen as an optional character sequence.
pub open spec fn header_view(header: Option<&str>) -> Option<Seq<char>> {
    match header {
        Some(h) => Some(h@),
        None => None,
    }
}

/// The capability of an authorization scheme: a scheme constant and a rule
/// that turns a credential payload into a typed value or a classified error.
pub trait Authorization: View + Sized {
    /// The scheme token this type answers to, e.g. `Basic`.
    spec fn spec_kind() -> Seq<char>;

    /// What parsing yields for each credential payload.
    spec fn spec_parse(credential: Seq<char>) -> Result<Self::V, AuthErrorView>;

    /// The scheme token this type answers to.
    fn kind() -> (r: &'static str)
        ensures
            r@ == Self::spec_kind(),
    ;

    /// Parses a credential payload into a typed value or a classified error,
    /// exactly as [`Authorization::spec_parse`] describes.
    fn parse(kind: &str, credential: &str) -> (r: Result<Self, AuthError>)
        ensures
            result_view(r) == Self::spec_parse(credential@),
    ;
}

/// A validated, typed credential extracted from an `Authorization` header.
#[derive(Clone, Debug, PartialEq)]
pub struct Credential<AuthorizationType>(pub AuthorizationType);

impl<AuthorizationType: View> View for Credential<AuthorizationType> {
    type V = AuthorizationType::V;

    open spec fn view(&self) -> Self::V {
        self.0@
    }
}

impl<AuthorizationType> Credential<AuthorizationType> {
    /// Unwraps the credential value.
    pub fn into_inner(self) -> (r: AuthorizationType)
        ensures
            r == self.0,
    {
        self.0
    }
}

/// The status code that a parser-reported failure surfaces with.
pub open spec fn parser_status(e: AuthErrorView) -> int {
    match e {
        AuthErrorView::HeaderMissing => 401,
        AuthErrorView::Unauthorized => 401,
        AuthErrorView::IncompatibleKind => 403,
        AuthErrorView::Forbidden => 403,
        AuthErrorView::PaymentRequired => 402,
        AuthErrorView::HeaderMalformed => 400,
        AuthErrorView::Unprocessable(_) => 422,
        AuthErrorView::Status(code) => code,
    }
}

fn parser_error_status(e: &AuthError) -> (r: u16)
    ensures
        r as int == parser_status(e@),
{
    match e {
        AuthError::HeaderMissing => 401,
        AuthError::Unauthorized => 401,
        AuthError::IncompatibleKind => 403,
        AuthError::Forbidden => 403,
        AuthError::PaymentRequired => 402,
        AuthError::HeaderMalformed => 400,
        AuthError::Unprocessable(_) => 422,
        AuthError::Status(code) => *code,
    }
}

/// What extracting a credential of scheme `T` from an optional raw header
/// value yields: the parsed value, or a classified error paired with the
/// HTTP status it surfaces with.
pub open spec fn spec_from_header<T: Authorization>(header: Option<Seq<char>>) -> Result<
    T::V,
    (int, AuthErrorView),
> {
    match header {
        None => Err((401int, AuthErrorView::HeaderMissing)),
        Some(h) => {
            let sections = split_ws(h);
            if sections.len() != 2 {
                Err((400int, AuthErrorView::HeaderMalformed))
            } else if sections[0] != T::spec_kind() {
                Err((401int, AuthErrorView::IncompatibleKind))
            } else {
                match T::spec_parse(sections[1]) {
                    Ok(value) => Ok(value),
                    Err(e) => Err((parser_status(e), e)),
                }
            }
        },
    }
}

/// [`spec_from_header`] without the status codes.
pub open spec fn spec_authorize<T: Authorization>(header: Option<Seq<char>>) -> Result<
    T::V,
    AuthErrorView,
> {
    match spec_from_header::<T>(header) {
        Ok(value) => Ok(value),
        Err((status, e)) => Err(e),
    }
}

impl<AuthorizationType: Authorization> Credential<AuthorizationType> {
    /// Extracts a credential of this scheme from the raw value of the
    /// `Authorization` header, `None` standing for an absent header. A
    /// failure comes with the HTTP status code it surfaces with: an absent
    /// header or a foreign scheme gives 401, a header that is not two
    /// whitespace-separated tokens gives 400, and a parser failure gives the
    /// status of [`parser_status`].
    pub fn from_header(header: Option<&str>) -> (r: Result<Self, (u16, AuthError)>)
        ensures
            outcome_view(r) == spec_from_header::<AuthorizationType>(header_view(header)),
    {
        let h = match header {
            Some(h) => h,
            None => {
                return Err((401, AuthError::HeaderMissing));
            },
        };
        let sections = split_whitespace_str(h);
        proof {
            assert(sections.deep_view().len() == sections@.len());
        }
        if sections.len() != 2 {
            return Err((400, AuthError::HeaderMalformed));
        }
        proof {
            assert(sections.deep_view()[0] == sections@[0]@);
            assert(sections.deep_view()[1] == sections@[1]@);
        }
        let kind = sections[0];
        let credential = sections[1];
        if !str_eq(kind, AuthorizationType::kind()) {
            return Err((401, AuthError::IncompatibleKind));
        }
        match AuthorizationType::parse(kind, credential) {
            Ok(value) => Ok(Credential(value)),
            Err(e) => {
                let status = parser_error_status(&e);
                Err((status, e))
            },
        }
    }
}

/// For every header value that does not split into exactly two
/// whitespace-separated tokens, dispatch fails with `HeaderMalformed`,
/// whatever the scheme's parser would say.
pub proof fn lemma_dispatch_rejects_malformed<T: Authorization>(h: Seq<char>)
    ensures
        split_ws(h).len() != 2 ==> spec_authorize::<T>(Some(h)) == Err::<T::V, AuthErrorView>(
            AuthErrorView::HeaderMalformed,
        ),
{
}

/// For every header value whose scheme token differs from the target type's
/// scheme constant, dispatch fails with `IncompatibleKind`, whatever the
/// scheme's parser would say.
pub proof fn lemma_dispatch_rejects_foreign_scheme<T: Authorization>(h: Seq<char>)
    ensures
        split_ws(h).len() == 2 && split_ws(h)[0] != T::spec_kind() ==> spec_authorize::<T>(Some(h))
            == Err::<T::V, AuthErrorView>(AuthErrorView::IncompatibleKind),
{
}

/// Extracts a credential of scheme `T` from the raw value of the
/// `Authorization` header, reporting a failure as the error value alone.
pub fn authorize<AuthorizationType: Authorization>(header: Option<&str>) -> (r: Result<
    Credential<AuthorizationType>,
    AuthError,
>)
    ensures
        result_view(r) == spec_authorize::<AuthorizationType>(header_view(header)),
{
    match Credential::<AuthorizationType>::from_header(header) {
        Ok(credential) => Ok(credential),
        Err((_, e)) => Err(e),
    }
}

} // verus!
