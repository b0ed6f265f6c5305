//! The HTTP status codes that the proxy answers with on its own.
use vstd::prelude::*;

verus! {

pub const OK: u16 = 200;

pub const BAD_REQUEST: u16 = 400;

pub const METHOD_NOT_ALLOWED: u16 = 405;

pub const PAYLOAD_TOO_LARGE: u16 = 413;

pub const UNSUPPORTED_MEDIA_TYPE: u16 = 415;

pub const BAD_GATEWAY: u16 = 502;

pub const GATEWAY_TIMEOUT: u16 = 504;

} // verus!
