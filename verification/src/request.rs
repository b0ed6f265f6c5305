use vstd::prelude::*;

use crate::address::{address_text, TargetAddress};
use crate::body::{body_outcome, Body, BodyTooLarge};
use crate::header::Header;
use crate::method::{spec_from_name, Method};
use crate::status::METHOD_NOT_ALLOWED;

verus! {

/// A request as the proxy carries it from the sender to the receiver.
#[derive(Debug)]
pub struct Request {
    pub method: Method,
    pub path: String,
    pub headers: Vec<Header>,
    pub query: Option<String>,
    pub body: Body,
}

/// `http://`, the scheme part of a forwarded request's address.
pub open spec fn http_prefix() -> Seq<char> {
    seq!['h', 't', 't', 'p', ':', '/', '/']
}

/// `?` and the query, where there is one.
pub open spec fn query_text(query: Option<String>) -> Seq<char> {
    match query {
        Some(q) => seq!['?'] + q@,
        None => Seq::empty(),
    }
}

/// The address that a request with `path` and `query` goes to at `target`.
pub open spec fn url_text(target: TargetAddress, path: Seq<char>, query: Option<String>) -> Seq<char> {
    http_prefix() + address_text(target) + path + query_text(query)
}

impl Request {
    /// The request that the sender forwards, from the parts of the request
    /// it accepted: a method other than the seven carried ones is refused
    /// with 405; the body is then read as `Body::try_from` reads it, and a
    /// body it refuses refuses the request with the same code.
    pub fn from_request(
        method: &str,
        path: String,
        headers: Vec<Header>,
        query: Option<String>,
        body: Result<Vec<u8>, BodyTooLarge>,
    ) -> (r: Result<Request, u16>)
        ensures
            spec_from_name(method@) is None ==> r == Err::<Request, u16>(METHOD_NOT_ALLOWED),
            spec_from_name(method@) matches Some(m) ==> match r {
                Ok(req) => {
                    &&& req.method == m
                    &&& req.path == path
                    &&& req.headers == headers
                    &&& req.query == query
                    &&& body_outcome(body, Ok(req.body))
                },
                Err(code) => body_outcome(body, Err(code)),
            },
    {
        let method = match Method::try_from(method) {
            Ok(m) => m,
            Err(_) => return Err(METHOD_NOT_ALLOWED),
        };
        let body = match Body::try_from(body) {
            Ok(b) => b,
            Err(code) => return Err(code),
        };
        Ok(Request { method, path, headers, query, body })
    }

    /// The address of the request at `target`: `http://`, the target's
    /// address, the path, then `?` and the query where there is one.
    pub fn url_text(&self, target: &TargetAddress) -> (u: String)
        ensures
            u@ == url_text(*target, self.path@, self.query),
    {
        let mut u = String::from_str("http://");
        proof {
            reveal_strlit("http://");
        }
        target.push_text(&mut u);
        u.append(self.path.as_str());
        match &self.query {
            Some(q) => {
                u.append("?");
                proof {
                    reveal_strlit("?");
                }
                u.append(q.as_str());
            },
            None => {},
        }
        assert(u@ =~= url_text(*target, self.path@, self.query));
        u
    }
}

} // verus!
