//! Users and roles: who may log in, and which role a login token names.
use crate::error::{error_is, ApiError, ApiErrorKind};
use crate::model::UserStatus;
use vstd::prelude::*;

verus! {

/// The role a token names for a user without roles.
pub open spec fn default_role() -> Seq<char> {
    "user"@
}

/// The refusal of a login whose user is unknown or whose password is wrong;
/// both are answered alike.
pub fn invalid_login_error() -> (e: ApiError)
    ensures
        error_is(e, ApiErrorKind::Unauthorized, "invalid username or password"@),
{
    ApiError::unauthorized("invalid username or password")
}

/// A login may go on when the user exists and is active; an unknown user
/// and a wrong password are refused alike.
pub fn check_login_status(status: Option<UserStatus>) -> (r: Result<(), ApiError>)
    ensures
        match status {
            None => r matches Err(e) && error_is(
                e,
                ApiErrorKind::Unauthorized,
                "invalid username or password"@,
            ),
            Some(UserStatus::Active) => r is Ok,
            Some(UserStatus::Disabled) => r matches Err(e) && error_is(
                e,
                ApiErrorKind::Unauthorized,
                "user is disabled"@,
            ),
        },
{
    match status {
        None => Err(invalid_login_error()),
        Some(UserStatus::Active) => Ok(()),
        Some(UserStatus::Disabled) => Err(ApiError::unauthorized("user is disabled")),
    }
}

/// A login with a password that does not match is refused.
pub fn check_password(matches: bool) -> (r: Result<(), ApiError>)
    ensures
        matches ==> r is Ok,
        !matches ==> (r matches Err(e) && error_is(
            e,
            ApiErrorKind::Unauthorized,
            "invalid username or password"@,
        )),
{
    if !matches {
        return Err(invalid_login_error());
    }
    Ok(())
}

/// The role a login token names: the code of the user's first role (roles
/// ordered by code), or `user` when the user has none.
pub fn role_claim(role_codes: &Vec<String>) -> (r: String)
    ensures
        r@ == if role_codes@.len() > 0 {
            role_codes@[0]@
        } else {
            default_role()
        },
{
    if role_codes.len() > 0 {
        role_codes[0].clone()
    } else {
        String::from_str("user")
    }
}

/// The answer to a request for a bulk import, which is not offered yet.
pub fn reserve_import_job() -> (r: Result<(), ApiError>)
    ensures
        r matches Err(e) && error_is(
            e,
            ApiErrorKind::NotImplemented,
            "basic data import is reserved for a later phase"@,
        ),
{
    Err(ApiError::not_implemented("basic data import is reserved for a later phase"))
}

} // verus!
