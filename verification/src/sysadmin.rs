//! An access guard built atop the `Basic` extractor: the extracted pair must
//! equal an expected administrator pair.

use vstd::prelude::*;

use crate::basic::Basic;
use crate::{header_view, spec_from_header, Credential};

verus! {

/// The administrator identity: the validated username.
#[derive(Debug)]
pub struct SysAdmin(pub String);

impl View for SysAdmin {
    type V = Seq<char>;

    open spec fn view(&self) -> Seq<char> {
        self.0@
    }
}

/// The expected administrator credentials, fixed once at startup and handed
/// to the guard by reference.
pub struct AdminConfig {
    pub username: String,
    pub password: String,
}

/// A guard outcome, seen through the views of both of its sides.
pub open spec fn admin_view(r: Result<SysAdmin, u16>) -> Result<Seq<char>, int> {
    match r {
        Ok(admin) => Ok(admin@),
        Err(status) => Err(status as int),
    }
}

/// What the guard yields: the `Basic` extraction must succeed and the
/// extracted pair must equal the expected pair, in which case the username is
/// the admin identity. Every failure — an unequal pair as much as an
/// underlying extraction failure, however specific — is collapsed into a
/// generic 401 denial.
pub open spec fn spec_sysadmin_check(
    header: Option<Seq<char>>,
    username: Seq<char>,
    password: Seq<char>,
) -> Result<Seq<char>, int> {
    match spec_from_header::<Basic>(header) {
        Err(_) => Err(401int),
        Ok(auth) => {
            if auth.username == username && auth.password == password {
                Ok(auth.username)
            } else {
                Err(401int)
            }
        },
    }
}

/// Runs the `Basic` extractor on the raw header value and admits only the
/// expected administrator pair, exactly as [`spec_sysadmin_check`] describes.
pub fn sysadmin_from_header(header: Option<&str>, expected: &AdminConfig) -> (r: Result<
    SysAdmin,
    u16,
>)
    ensures
        admin_view(r) == spec_sysadmin_check(
            header_view(header),
            expected.username@,
            expected.password@,
        ),
{
    let provided_auth = match Credential::<Basic>::from_header(header) {
        Ok(auth) => auth,
        Err(_) => {
            return Err(401);
        },
    };
    if provided_auth.0.username == expected.username && provided_auth.0.password
        == expected.password {
        Ok(SysAdmin(provided_auth.into_inner().username))
    } else {
        Err(401)
    }
}

} // verus!
