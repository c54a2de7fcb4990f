//! Authentication helpers: bearer-credential extraction and role checks.
//!
//! Credential *verification* is a pluggable external collaborator and is
//! not decided here; these helpers decide everything that can be decided
//! from the request alone: whether a credential is present and well-formed,
//! and whether a caller's role satisfies a required role.

use vstd::prelude::*;
use crate::service::ServiceError;
use crate::text::{str_eq, has_prefix};
use vstd::string::StrSliceExecFns;
use vstd::string::StringExecFns;

verus! {

/// Whether an authorization header value is a well-formed bearer
/// credential.
pub open spec fn spec_bearer(h: Seq<char>) -> bool {
    h.len() >= 7 && h.subrange(0, 7) == "Bearer "@
}

/// The token carried by a well-formed bearer credential.
pub open spec fn spec_bearer_token(h: Seq<char>) -> Seq<char> {
    h.skip(7)
}

/// Extracts the bearer token from an authorization header.  The request
/// fails as unauthenticated — before any rate-limit or business step —
/// exactly when the header is absent or does not carry a bearer
/// credential.
pub fn extract_token(authorization: Option<&str>) -> (r: Result<String, ServiceError>)
    ensures
        authorization is None ==> r == Err::<String, ServiceError>(ServiceError::Unauthenticated),
        authorization matches Some(h) ==> {
            &&& spec_bearer(h@) ==> r is Ok && r.unwrap()@ == spec_bearer_token(h@)
            &&& !spec_bearer(h@) ==> r == Err::<String, ServiceError>(
                ServiceError::Unauthenticated,
            )
        },
{
    proof {
        reveal_strlit("Bearer ");
    }
    match authorization {
        None => Err(ServiceError::Unauthenticated),
        Some(h) => {
            if has_prefix(h, "Bearer ") {
                let n = h.unicode_len();
                let token = h.substring_char(7, n);
                Ok(String::from_str(token))
            } else {
                Err(ServiceError::Unauthenticated)
            }
        },
    }
}

/// Screens an authorization header the way the connection interceptor
/// does: the header must be present and carry a bearer credential; actual
/// token verification is left to the external collaborator.
pub fn validate_auth_header(authorization: Option<&str>) -> (r: Result<(), ServiceError>)
    ensures
        authorization is None ==> r == Err::<(), ServiceError>(ServiceError::Unauthenticated),
        authorization matches Some(h) ==> {
            &&& spec_bearer(h@) ==> r is Ok
            &&& !spec_bearer(h@) ==> r == Err::<(), ServiceError>(ServiceError::Unauthenticated)
        },
{
    proof {
        reveal_strlit("Bearer ");
    }
    match authorization {
        None => Err(ServiceError::Unauthenticated),
        Some(h) => {
            if has_prefix(h, "Bearer ") {
                Ok(())
            } else {
                Err(ServiceError::Unauthenticated)
            }
        },
    }
}

/// Checks that a caller's role satisfies a required role: an "admin" role
/// satisfies any requirement, any other role only its exact match.
pub fn check_role(user_role: &str, required_role: &str) -> (r: Result<(), ServiceError>)
    ensures
        (user_role@ == "admin"@ || user_role@ == required_role@) <==> r is Ok,
        r is Err ==> r == Err::<(), ServiceError>(ServiceError::PermissionDenied),
{
    if str_eq(user_role, "admin") || str_eq(user_role, required_role) {
        Ok(())
    } else {
        Err(ServiceError::PermissionDenied)
    }
}

} // verus!
