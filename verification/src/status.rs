//! The closed set of response status codes and their numeric values.

use vstd::prelude::*;

verus! {

/// The status of a response. No other codes exist in this protocol subset.
#[derive(Clone, Copy, Debug, PartialEq, Eq, Structural)]
pub enum Status {
    Okay,
    BadRequest,
    NotFound,
    BadMethod,
    ServerError,
}

/// The numeric code of a status.
pub open spec fn status_code(s: Status) -> int {
    match s {
        Status::Okay => 200,
        Status::BadRequest => 400,
        Status::NotFound => 404,
        Status::BadMethod => 405,
        Status::ServerError => 500,
    }
}

/// The decimal digits of a status code, as they appear on the wire.
pub open spec fn code_digits(s: Status) -> Seq<char> {
    match s {
        Status::Okay => seq!['2', '0', '0'],
        Status::BadRequest => seq!['4', '0', '0'],
        Status::NotFound => seq!['4', '0', '4'],
        Status::BadMethod => seq!['4', '0', '5'],
        Status::ServerError => seq!['5', '0', '0'],
    }
}

/// The status, if any, that a numeric code denotes.
pub open spec fn status_of_code(c: int) -> Option<Status> {
    if c == 200 {
        Some(Status::Okay)
    } else if c == 400 {
        Some(Status::BadRequest)
    } else if c == 404 {
        Some(Status::NotFound)
    } else if c == 405 {
        Some(Status::BadMethod)
    } else if c == 500 {
        Some(Status::ServerError)
    } else {
        None
    }
}

impl Status {
    /// The numeric code of this status.
    pub fn code(&self) -> (c: u16)
        ensures
            c as int == status_code(*self),
    {
        match self {
            Status::Okay => 200,
            Status::BadRequest => 400,
            Status::NotFound => 404,
            Status::BadMethod => 405,
            Status::ServerError => 500,
        }
    }

    /// The decimal digits of this status's code.
    pub fn code_str(&self) -> (r: &'static str)
        ensures
            r@ == code_digits(*self),
    {
        proof {
            reveal_strlit("200");
            reveal_strlit("400");
            reveal_strlit("404");
            reveal_strlit("405");
            reveal_strlit("500");
            assert("200"@ =~= seq!['2', '0', '0']);
            assert("400"@ =~= seq!['4', '0', '0']);
            assert("404"@ =~= seq!['4', '0', '4']);
            assert("405"@ =~= seq!['4', '0', '5']);
            assert("500"@ =~= seq!['5', '0', '0']);
        }
        match self {
            Status::Okay => "200",
            Status::BadRequest => "400",
            Status::NotFound => "404",
            Status::BadMethod => "405",
            Status::ServerError => "500",
        }
    }

    /// The status denoted by a numeric code, if there is one.
    pub fn from_code(c: u16) -> (r: Option<Status>)
        ensures
            r == status_of_code(c as int),
    {
        if c == 200 {
            Some(Status::Okay)
        } else if c == 400 {
            Some(Status::BadRequest)
        } else if c == 404 {
            Some(Status::NotFound)
        } else if c == 405 {
            Some(Status::BadMethod)
        } else if c == 500 {
            Some(Status::ServerError)
        } else {
            None
        }
    }
}

/// Law: the numeric code of a status names that status and no other, so
/// mapping a status to its code and back recovers the status exactly.
pub proof fn lemma_status_code_round_trip(s: Status)
    ensures
        status_of_code(status_code(s)) == Some(s),
{
}

} // verus!
