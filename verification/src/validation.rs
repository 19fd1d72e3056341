//! The check that a required text field holds more than white space.
use crate::error::{error_is, ApiError, ApiErrorKind};
use crate::text::{concat2, is_blank, is_blank_seq};
use vstd::prelude::*;

verus! {

/// `e` reports that the field named `field` is empty.
pub open spec fn empty_field_error(e: ApiError, field: Seq<char>) -> bool {
    error_is(e, ApiErrorKind::BadRequest, field + " must not be empty"@)
}

/// Refuses a `value` that is empty or white space only, naming `field`.
pub fn validate_non_empty(value: &str, field: &str) -> (r: Result<(), ApiError>)
    ensures
        match r {
            Ok(()) => !is_blank_seq(value@),
            Err(e) => is_blank_seq(value@) && empty_field_error(e, field@),
        },
{
    if is_blank(value) {
        let message = concat2(field, " must not be empty");
        return Err(ApiError::bad_request(message.as_str()));
    }
    Ok(())
}

} // verus!
