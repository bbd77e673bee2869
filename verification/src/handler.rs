//! Routing a parsed request to a response.
//!
//! The filesystem is a capability the library does not own: the caller
//! resolves the request target against the serving root (`./` followed by
//! the target, with no normalization of `..` segments — a known,
//! documented exposure) and hands in what it found as a [`Resource`]. The
//! handler is verified against every possible value of that capability's
//! answer.

use vstd::prelude::*;

use crate::listing::{listing_text, render_listing};
use crate::request::{Method, Request};
use crate::response::Response;

verus! {

/// What the filesystem yielded for a resolved request target.
pub enum Resource {
    /// The target is a regular file and this is its text.
    FileContent(String),
    /// The target is a regular file whose contents could not be read
    /// (removed meanwhile, or not valid text).
    FileError,
    /// The target is a directory and these are the resolved paths of its
    /// entries, in enumeration order.
    DirectoryEntries(Vec<String>),
    /// The target is a directory that could not be enumerated.
    DirectoryError,
    /// The target names neither a regular file nor a directory.
    Absent,
}

/// The request target joined onto the serving root.
pub open spec fn resolved_path(target: Seq<char>) -> Seq<char> {
    "./"@ + target
}

/// The response owed to a `GET` request for `target` when the filesystem
/// yielded `res` — the file's text, a rendered listing, `NotFound`, or
/// `ServerError`, exactly as the dispatch table of the protocol says.
pub open spec fn routed_response(target: Seq<char>, res: Resource, resp: Response) -> bool {
    match res {
        Resource::FileContent(s) => resp.status_code is Okay && (resp.body matches Some(b)
            && b@ == s@),
        Resource::FileError => resp.status_code is ServerError && resp.body is None,
        Resource::DirectoryEntries(es) => resp.status_code is Okay && (resp.body matches Some(b)
            && b@ == listing_text(resolved_path(target), es.deep_view())),
        Resource::DirectoryError => resp.status_code is ServerError && resp.body is None,
        Resource::Absent => resp.status_code is NotFound && resp.body is None,
    }
}

/// A strategy for answering requests. Exactly one strategy exists today,
/// file serving; the contract is the dispatch table every strategy owes:
/// non-`GET` methods are rejected, a `GET` without a target is malformed,
/// and a `GET` with a target is answered from what the filesystem yielded.
pub trait RequestHandler: Sized {
    fn handle(self, req: Request, res: Resource) -> (resp: Response)
        ensures
            req.method !is Get ==> resp.status_code is BadMethod && resp.body is None,
            req.method is Get && req.url is None ==> resp.status_code is BadRequest
                && resp.body is None,
            req.method is Get ==> (req.url matches Some(u) ==> routed_response(u@, res, resp)),
    ;
}

/// The file-serving strategy.
#[derive(Clone, Copy)]
pub struct FileHandler;

impl FileHandler {
    pub fn new() -> Self {
        FileHandler {}
    }
}

impl RequestHandler for FileHandler {
    fn handle(self, req: Request, res: Resource) -> (resp: Response) {
        match req.method {
            Method::Get => match req.url {
                Some(url) => load_url(url.as_str(), res),
                None => Response::bad_request(),
            },
            _ => Response::bad_method(),
        }
    }
}

/// Answer a `GET` for `url` from what the filesystem yielded for it.
fn load_url(url: &str, res: Resource) -> (resp: Response)
    ensures
        routed_response(url@, res, resp),
{
    match res {
        Resource::FileContent(s) => Response::ok(s),
        Resource::FileError => Response::server_error(),
        Resource::DirectoryEntries(es) => {
            let mut path = String::from_str("./");
            path.append(url);
            Response::ok(render_listing(path.as_str(), &es))
        },
        Resource::DirectoryError => Response::server_error(),
        Resource::Absent => Response::not_found(),
    }
}

} // verus!
