//! The classes of response status that a route may declare. Which numbers
//! are status codes, and which class a code belongs to, is asked of
//! `actix_http::StatusCode`.

use vstd::prelude::*;

verus! {

/// Whether a number is a status code at all.
pub open spec fn is_status(code: u16) -> bool {
    100 <= code < 1000
}

/// Whether a status code reports success.
pub open spec fn is_success(code: u16) -> bool {
    200 <= code < 300
}

/// Whether a status code reports an error of the client.
pub open spec fn is_client_error(code: u16) -> bool {
    400 <= code < 500
}

/// `actix_http::StatusCode::from_u16`, which accepts the numbers from 100 to
/// 999 and no others.
#[verifier::external_body]
pub(crate) fn status_exists(code: u16) -> (known: bool)
    ensures
        known == is_status(code),
{
    actix_http::StatusCode::from_u16(code).is_ok()
}

/// `actix_http::StatusCode::is_success`, which holds of the codes from 200 to
/// 299. A number that is no status code is no success.
#[verifier::external_body]
pub(crate) fn status_is_success(code: u16) -> (yes: bool)
    ensures
        yes == is_success(code),
{
    match actix_http::StatusCode::from_u16(code) {
        Ok(status) => status.is_success(),
        Err(_) => false,
    }
}

/// `actix_http::StatusCode::is_client_error`, which holds of the codes from
/// 400 to 499. A number that is no status code is no client error.
#[verifier::external_body]
pub(crate) fn status_is_client_error(code: u16) -> (yes: bool)
    ensures
        yes == is_client_error(code),
{
    match actix_http::StatusCode::from_u16(code) {
        Ok(status) => status.is_client_error(),
        Err(_) => false,
    }
}

} // verus!
