//! Requests and the request-line parser.
//!
//! The transport layer reads at most one fixed-size buffer from the
//! connection and decodes it as text; this module takes that text apart.
//! The line is split on ASCII space: the first token must be exactly
//! `GET`, and the second token, when present, is the request target.

use vstd::prelude::*;

use crate::text::{lemma_token_end_at, token_end};

verus! {

/// A request method. Only `Get` is ever produced by the parser; the other
/// variants exist so that the model of the protocol is closed.
#[derive(Clone, Copy, Debug, PartialEq, Eq, Structural)]
pub enum Method {
    Get,
    Post,
    Put,
    Head,
    Delete,
    Patch,
    Options,
}

/// Why a buffer failed to parse as a request.
#[derive(Clone, Copy, Debug, PartialEq, Eq, Structural)]
pub enum RequestError {
    BadRequest,
    BadMethod,
}

/// One parsed request. Immutable once built.
#[derive(Debug)]
pub struct Request {
    pub method: Method,
    pub url: Option<String>,
    pub body: Option<String>,
}

impl Request {
    /// A `GET` request for the given target.
    pub fn get(url: &str) -> (r: Self)
        ensures
            r.method is Get,
            r.url matches Some(u) && u@ == url@,
            r.body is None,
    {
        Request { method: Method::Get, url: Some(url.to_owned()), body: None }
    }

    /// Parse the text of one request buffer.
    ///
    /// The first space-delimited token must be exactly `GET`; anything else
    /// is `BadMethod`. A lone `GET` with no second token is `BadRequest`.
    /// Otherwise the second token becomes the target of a `GET` request.
    pub fn parse(text: &str) -> (r: Result<Request, RequestError>)
        ensures
            ({
                let s = text@;
                let e = token_end(s, 0);
                &&& (s.subrange(0, e) == "GET"@ && e < s.len() ==> (r matches Ok(req)
                    && req.method is Get && req.body is None && (req.url matches Some(u)
                    && u@ == s.subrange(e + 1, token_end(s, e + 1)))))
                &&& (s.subrange(0, e) == "GET"@ && e >= s.len() ==> r == Err::<
                    Request,
                    RequestError,
                >(RequestError::BadRequest))
                &&& (s.subrange(0, e) != "GET"@ ==> r == Err::<Request, RequestError>(
                    RequestError::BadMethod,
                ))
            }),
    {
        let n = text.unicode_len();
        let mut i: usize = 0;
        while i < n && text.get_char(i) != ' '
            invariant
                n == text@.len(),
                i <= n,
                forall|j: int| 0 <= j < i ==> text@[j] != ' ',
            decreases n - i,
        {
            i += 1;
        }
        proof {
            lemma_token_end_at(text@, 0, i as int);
        }
        let first_is_get = i == 3 && text.get_char(0) == 'G' && text.get_char(1) == 'E'
            && text.get_char(2) == 'T';
        proof {
            reveal_strlit("GET");
            let tok = text@.subrange(0, i as int);
            if first_is_get {
                assert(tok =~= "GET"@);
            } else {
                assert(tok != "GET"@) by {
                    if tok == "GET"@ {
                        assert(tok.len() == 3);
                        assert(tok[0] == 'G' && tok[1] == 'E' && tok[2] == 'T');
                        assert(text@[0] == 'G' && text@[1] == 'E' && text@[2] == 'T');
                    }
                }
            }
        }
        if first_is_get {
            if i < n {
                let start = i + 1;
                let mut j: usize = start;
                while j < n && text.get_char(j) != ' '
                    invariant
                        n == text@.len(),
                        start <= j <= n,
                        forall|k: int| start <= k < j ==> text@[k] != ' ',
                    decreases n - j,
                {
                    j += 1;
                }
                proof {
                    lemma_token_end_at(text@, start as int, j as int);
                }
                let target = text.substring_char(start, j);
                Ok(Request::get(target))
            } else {
                Err(RequestError::BadRequest)
            }
        } else {
            Err(RequestError::BadMethod)
        }
    }
}

} // verus!
