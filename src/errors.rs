use vstd::prelude::*;

verus! {

/// An error as the service reports it: the HTTP status to answer with, and the body
/// `{ error, code, message }`.
#[derive(Debug)]
pub struct HttpError {
    pub status: u16,
    pub error: bool,
    pub code: i16,
    pub message: String,
}

/// The HTTP status that answers an error code: 400, 401 and 404 stand as they are,
/// anything else is an internal error.
pub open spec fn status_for(code: i16) -> u16 {
    if code == 400 {
        400
    } else if code == 401 {
        401
    } else if code == 404 {
        404
    } else {
        500
    }
}

/// The error reply for `code` with `message`.
pub fn http_error(code: i16, message: String) -> (r: HttpError)
    ensures
        r.status == status_for(code),
        r.error,
        r.code == code,
        r.message@ == message@,
{
    let status: u16 = if code == 400 {
        400
    } else if code == 401 {
        401
    } else if code == 404 {
        404
    } else {
        500
    };
    HttpError { status, error: true, code, message }
}

/// The error reply of the controller layer, which knows only bad requests and internal
/// errors.
pub fn create_error(code: i16, message: String) -> (r: HttpError)
    ensures
        r.status == (if code == 400 { 400u16 } else { 500u16 }),
        r.error,
        r.code == code,
        r.message@ == message@,
{
    let status: u16 = if code == 400 {
        400
    } else {
        500
    };
    HttpError { status, error: true, code, message }
}

} // verus!
