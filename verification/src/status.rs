//! Classes of HTTP status codes.
use vstd::prelude::*;

verus! {

/// Whether `code` is a status code at all: three decimal digits, the first
/// of them not zero.
pub open spec fn is_status_code(code: u16) -> bool {
    100 <= code && code < 1000
}

/// `reqwest::StatusCode::is_client_error` on the status that
/// `StatusCode::from_u16` makes of `code`: whether the code lies in 400..=499.
/// Codes that are no status codes are left out, so the conversion succeeds.
#[verifier::external_body]
fn status_is_client_error(code: u16) -> (res: bool)
    requires
        is_status_code(code),
    ensures
        res == (400 <= code && code < 500),
{
    match reqwest::StatusCode::from_u16(code) {
        Ok(status) => status.is_client_error(),
        Err(_) => false,
    }
}

/// `reqwest::StatusCode::is_server_error` on the status that
/// `StatusCode::from_u16` makes of `code`: whether the code lies in 500..=599.
#[verifier::external_body]
fn status_is_server_error(code: u16) -> (res: bool)
    requires
        is_status_code(code),
    ensures
        res == (500 <= code && code < 600),
{
    match reqwest::StatusCode::from_u16(code) {
        Ok(status) => status.is_server_error(),
        Err(_) => false,
    }
}

/// `reqwest::StatusCode::is_success` on the status that
/// `StatusCode::from_u16` makes of `code`: whether the code lies in 200..=299.
#[verifier::external_body]
fn status_is_success(code: u16) -> (res: bool)
    requires
        is_status_code(code),
    ensures
        res == (200 <= code && code < 300),
{
    match reqwest::StatusCode::from_u16(code) {
        Ok(status) => status.is_success(),
        Err(_) => false,
    }
}

/// Whether `code` reports an error of the client.
pub fn is_client_error(code: u16) -> (res: bool)
    ensures
        res == (400 <= code && code <= 499),
{
    100 <= code && code < 1000 && status_is_client_error(code)
}

/// Whether `code` reports an error of the server.
pub fn is_server_error(code: u16) -> (res: bool)
    ensures
        res == (500 <= code && code <= 599),
{
    100 <= code && code < 1000 && status_is_server_error(code)
}

/// Whether `code` reports success.
pub fn is_success(code: u16) -> (res: bool)
    ensures
        res == (200 <= code && code <= 299),
{
    100 <= code && code < 1000 && status_is_success(code)
}

/// The status that asks the client to slow down.
pub const TOO_MANY_REQUESTS: u16 = 429;

} // verus!
