use vstd::prelude::*;
use vstd::utf8::{decode_utf8, decode_utf8_encode_utf8, encode_utf8, valid_utf8};

use crate::status::{PAYLOAD_TOO_LARGE, UNSUPPORTED_MEDIA_TYPE};

verus! {

/// The most bytes of a request body that the proxy reads, and of a datagram
/// that it receives.
pub const BUFFER_SIZE: usize = 65507;

/// The body of a proxied request: nothing, or a JSON document.
#[derive(Debug)]
pub enum Body {
    Empty,
    Json(String),
}

/// Reading a request body stopped because it was longer than `BUFFER_SIZE`.
#[derive(Debug, Clone, Copy)]
pub struct BodyTooLarge;

/// Whether `bytes` is one JSON document, surrounded by nothing but
/// whitespace, as `serde_json` reads it.
pub uninterp spec fn is_json_text(bytes: Seq<u8>) -> bool;

/// The text of `bytes` read as UTF-8, each invalid sequence replaced by
/// U+FFFD, as `String::from_utf8_lossy` reads it.
pub uninterp spec fn lossy_text(bytes: Seq<u8>) -> Seq<char>;

/// Calls `serde_json::from_slice::<serde_json::Value>` and reports whether
/// it succeeded. The contract claims that the answer depends on the bytes
/// alone (`from_slice` reads the slice and nothing else), and that accepted
/// bytes are valid UTF-8: outside strings the reader accepts only ASCII
/// tokens, and it checks every string's bytes with `str::from_utf8`. Which
/// byte strings are JSON is left to the name `is_json_text`.
#[verifier::external_body]
fn parses_as_json(bytes: &[u8]) -> (r: bool)
    ensures
        r == is_json_text(bytes@),
        r ==> valid_utf8(bytes@),
{
    serde_json::from_slice::<serde_json::Value>(bytes).is_ok()
}

/// Calls `String::from_utf8_lossy`. The contract claims that the text is a
/// function of the bytes and, as std documents, that valid UTF-8 is decoded
/// unchanged; what replaces invalid sequences is left to `lossy_text`.
#[verifier::external_body]
fn utf8_lossy(bytes: &[u8]) -> (s: String)
    ensures
        s@ == lossy_text(bytes@),
        valid_utf8(bytes@) ==> s@ == decode_utf8(bytes@),
{
    String::from_utf8_lossy(bytes).into_owned()
}

/// What the body is, from what reading it gave and from whether its bytes
/// are a JSON document: no bytes make an empty body, a JSON document makes a
/// JSON body holding its text; a body that did not fit is refused with 413
/// and one that is not JSON with 415.
pub open spec fn checked_outcome(
    received: Result<Vec<u8>, BodyTooLarge>,
    is_json: bool,
    r: Result<Body, u16>,
) -> bool {
    match received {
        Err(_) => r == Err::<Body, u16>(PAYLOAD_TOO_LARGE),
        Ok(bytes) => if bytes@.len() == 0 {
            r == Ok::<Body, u16>(Body::Empty)
        } else if is_json {
            &&& r matches Ok(Body::Json(text))
            &&& text@ == lossy_text(bytes@)
            &&& valid_utf8(bytes@) ==> text@ == decode_utf8(bytes@)
        } else {
            r == Err::<Body, u16>(UNSUPPORTED_MEDIA_TYPE)
        },
    }
}

/// What `Body::try_from` gives for what reading the body gave: no bytes
/// make an empty body; a JSON document makes a JSON body whose text is
/// exactly the received bytes, decoded; a body that did not fit is refused
/// with 413 and one that is not JSON (whitespace alone among them) with 415.
pub open spec fn body_outcome(received: Result<Vec<u8>, BodyTooLarge>, r: Result<Body, u16>) -> bool {
    match received {
        Err(_) => r == Err::<Body, u16>(PAYLOAD_TOO_LARGE),
        Ok(bytes) => if bytes@.len() == 0 {
            r == Ok::<Body, u16>(Body::Empty)
        } else if is_json_text(bytes@) {
            &&& r matches Ok(Body::Json(text))
            &&& valid_utf8(bytes@)
            &&& text@ == decode_utf8(bytes@)
            &&& encode_utf8(text@) == bytes@
        } else {
            r == Err::<Body, u16>(UNSUPPORTED_MEDIA_TYPE)
        },
    }
}

impl Body {
    /// The body of a request, from what reading it gave; whether the bytes
    /// are JSON is asked of `serde_json`.
    pub fn try_from(received: Result<Vec<u8>, BodyTooLarge>) -> (r: Result<Body, u16>)
        ensures
            body_outcome(received, r),
    {
        let is_json = match &received {
            Ok(bytes) => bytes.len() > 0 && parses_as_json(bytes.as_slice()),
            Err(_) => false,
        };
        proof {
            if let Ok(bytes) = &received {
                if bytes@.len() > 0 && is_json_text(bytes@) {
                    decode_utf8_encode_utf8(bytes@);
                }
            }
        }
        Body::from_checked(received, is_json)
    }

    /// The body of a request, from what reading it gave and from whether its
    /// bytes were found to be a JSON document.
    pub fn from_checked(received: Result<Vec<u8>, BodyTooLarge>, is_json: bool) -> (r: Result<
        Body,
        u16,
    >)
        ensures
            checked_outcome(received, is_json, r),
    {
        match received {
            Err(_) => Err(PAYLOAD_TOO_LARGE),
            Ok(bytes) => {
                if bytes.len() == 0 {
                    Ok(Body::Empty)
                } else if is_json {
                    Ok(Body::Json(utf8_lossy(bytes.as_slice())))
                } else {
                    Err(UNSUPPORTED_MEDIA_TYPE)
                }
            },
        }
    }

    /// The text that goes out as the body of the forwarded request, if any.
    pub fn into_text(self) -> (t: Option<String>)
        ensures
            match self {
                Body::Empty => t is None,
                Body::Json(text) => t == Some(text),
            },
    {
        match self {
            Body::Empty => None,
            Body::Json(text) => Some(text),
        }
    }
}

impl Default for Body {
    fn default() -> (b: Body)
        ensures
            b == Body::Empty,
    {
        Body::Empty
    }
}

} // verus!
