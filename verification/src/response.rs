use vstd::prelude::*;

use crate::header::Header;
use crate::status::OK;

verus! {

/// A response as the proxy carries it back: the status code and the
/// header fields.
#[derive(Debug)]
pub struct Response {
    pub status_code: u16,
    pub headers: Vec<Header>,
}

impl Response {
    /// A response with the given status code and no header fields.
    pub fn from_status(status_code: u16) -> (r: Response)
        ensures
            r.status_code == status_code,
            r.headers@.len() == 0,
    {
        Response { status_code, headers: Vec::new() }
    }
}

impl Default for Response {
    fn default() -> (r: Response)
        ensures
            r.status_code == OK,
            r.headers@.len() == 0,
    {
        Response::from_status(OK)
    }
}

} // verus!
