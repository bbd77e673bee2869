//! Responses and their wire form.
//!
//! A response is a status and an optional body. On the wire it is exactly
//! `HTTP/1.1 <code> ERROR\r\n\r\n<body>`: the reason phrase is always the
//! literal word `ERROR`, and a response without a body carries the decimal
//! status code as its body text.

use vstd::prelude::*;

use crate::status::{code_digits, status_code, Status};
use crate::text::{lemma_token_end_at, token_end};

verus! {

/// One response. Built by the handler, serialized once, then discarded.
#[derive(Debug)]
pub struct Response {
    pub status_code: Status,
    pub body: Option<String>,
}

/// The body text a response carries on the wire: its own body if it has
/// one, else the decimal digits of its status code.
pub open spec fn body_text(r: Response) -> Seq<char> {
    match r.body {
        Some(b) => b@,
        None => code_digits(r.status_code),
    }
}

/// The exact wire form of a response.
pub open spec fn wire_text(r: Response) -> Seq<char> {
    "HTTP/1.1 "@ + code_digits(r.status_code) + " ERROR\r\n\r\n"@ + body_text(r)
}

/// The numeric value of a sequence of decimal digit characters.
pub open spec fn digits_value(ds: Seq<char>) -> int
    decreases ds.len(),
{
    if ds.len() == 0 {
        0
    } else {
        10 * digits_value(ds.drop_last()) + (ds.last() as int - '0' as int)
    }
}

/// The numeric code recovered by re-parsing a status line: the value of
/// its second space-delimited token read as decimal digits.
pub open spec fn parsed_status_code(w: Seq<char>) -> int {
    let e = token_end(w, 0);
    digits_value(w.subrange(e + 1, token_end(w, e + 1)))
}

impl Response {
    /// A response with the given status and body.
    pub fn new(status: Status, body: Option<String>) -> (r: Self)
        ensures
            r.status_code == status,
            r.body == body,
    {
        Response { status_code: status, body }
    }

    /// A successful response carrying the given body.
    pub fn ok(body: String) -> (r: Self)
        ensures
            r.status_code is Okay,
            r.body matches Some(b) && b == body,
    {
        Response { status_code: Status::Okay, body: Some(body) }
    }

    /// The response to a request whose method was recognized but not `GET`.
    pub fn bad_method() -> (r: Self)
        ensures
            r.status_code is BadMethod,
            r.body is None,
    {
        Response { status_code: Status::BadMethod, body: None }
    }

    /// The response to a malformed request line.
    pub fn bad_request() -> (r: Self)
        ensures
            r.status_code is BadRequest,
            r.body is None,
    {
        Response { status_code: Status::BadRequest, body: None }
    }

    /// The response to a target that names no file and no directory.
    pub fn not_found() -> (r: Self)
        ensures
            r.status_code is NotFound,
            r.body is None,
    {
        Response { status_code: Status::NotFound, body: None }
    }

    /// The response to a filesystem failure after the target was classified.
    pub fn server_error() -> (r: Self)
        ensures
            r.status_code is ServerError,
            r.body is None,
    {
        Response { status_code: Status::ServerError, body: None }
    }

    /// The terminal response for a parse failure: `BadMethod` and
    /// `BadRequest` map to the statuses of the same names.
    pub fn for_error(e: crate::request::RequestError) -> (r: Self)
        ensures
            e is BadMethod ==> r.status_code is BadMethod,
            e is BadRequest ==> r.status_code is BadRequest,
            r.body is None,
    {
        match e {
            crate::request::RequestError::BadMethod => Response::bad_method(),
            crate::request::RequestError::BadRequest => Response::bad_request(),
        }
    }

    /// Serialize this response to its exact wire form.
    pub fn serialize(self) -> (r: String)
        ensures
            r@ == wire_text(self),
    {
        let mut out = String::from_str("HTTP/1.1 ");
        out.append(self.status_code.code_str());
        out.append(" ERROR\r\n\r\n");
        match self.body {
            Some(b) => out.append(b.as_str()),
            None => out.append(self.status_code.code_str()),
        }
        proof {
            assert(out@ =~= wire_text(self));
        }
        out
    }
}

/// Law: re-parsing the status line of a serialized response recovers the
/// response's numeric status code exactly, whatever the body holds.
pub proof fn lemma_wire_round_trip(r: Response)
    ensures
        parsed_status_code(wire_text(r)) == status_code(r.status_code),
{
    reveal_strlit("HTTP/1.1 ");
    reveal_strlit(" ERROR\r\n\r\n");
    let w = wire_text(r);
    let cd = code_digits(r.status_code);
    assert(w.len() == 22 + body_text(r).len());
    assert forall|j: int| 0 <= j < 9 implies w[j] == "HTTP/1.1 "@[j] by {}
    assert(w[0] != ' ' && w[1] != ' ' && w[2] != ' ' && w[3] != ' ' && w[4] != ' ' && w[5] != ' '
        && w[6] != ' ' && w[7] != ' ');
    assert(w[8] == ' ');
    lemma_token_end_at(w, 0, 8);
    assert(w[9] == cd[0] && w[10] == cd[1] && w[11] == cd[2]);
    assert(cd[0] != ' ' && cd[1] != ' ' && cd[2] != ' ');
    assert(w[12] == " ERROR\r\n\r\n"@[0]);
    assert(w[12] == ' ');
    lemma_token_end_at(w, 9, 12);
    assert(w.subrange(9, 12) =~= cd);
    lemma_digits_value_of_code(r.status_code);
}

/// The digits of every status code read back as that code's value.
proof fn lemma_digits_value_of_code(s: Status)
    ensures
        digits_value(code_digits(s)) == status_code(s),
{
    reveal_with_fuel(digits_value, 4);
    let cd = code_digits(s);
    assert(cd.drop_last().drop_last().drop_last() =~= Seq::<char>::empty());
    assert(digits_value(cd) == 100 * (cd[0] as int - '0' as int) + 10 * (cd[1] as int
        - '0' as int) + (cd[2] as int - '0' as int));
}

/// Law: a `NotFound` response without a body has this exact wire form.
pub proof fn lemma_not_found_wire(r: Response)
    requires
        r.status_code is NotFound,
        r.body is None,
    ensures
        wire_text(r) == "HTTP/1.1 404 ERROR\r\n\r\n404"@,
{
    reveal_strlit("HTTP/1.1 ");
    reveal_strlit(" ERROR\r\n\r\n");
    reveal_strlit("HTTP/1.1 404 ERROR\r\n\r\n404");
    assert(wire_text(r) =~= "HTTP/1.1 404 ERROR\r\n\r\n404"@);
}

/// Law: a `BadMethod` response without a body has this exact wire form.
pub proof fn lemma_bad_method_wire(r: Response)
    requires
        r.status_code is BadMethod,
        r.body is None,
    ensures
        wire_text(r) == "HTTP/1.1 405 ERROR\r\n\r\n405"@,
{
    reveal_strlit("HTTP/1.1 ");
    reveal_strlit(" ERROR\r\n\r\n");
    reveal_strlit("HTTP/1.1 405 ERROR\r\n\r\n405");
    assert(wire_text(r) =~= "HTTP/1.1 405 ERROR\r\n\r\n405"@);
}

/// Law: a `BadRequest` response without a body has this exact wire form.
pub proof fn lemma_bad_request_wire(r: Response)
    requires
        r.status_code is BadRequest,
        r.body is None,
    ensures
        wire_text(r) == "HTTP/1.1 400 ERROR\r\n\r\n400"@,
{
    reveal_strlit("HTTP/1.1 ");
    reveal_strlit(" ERROR\r\n\r\n");
    reveal_strlit("HTTP/1.1 400 ERROR\r\n\r\n400");
    assert(wire_text(r) =~= "HTTP/1.1 400 ERROR\r\n\r\n400"@);
}

} // verus!
