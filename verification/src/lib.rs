//! A minimal HTTP file server core: request parsing, routing, directory
//! listings, and response serialization, each with a verified contract.
//! Transport and filesystem access live outside the library; they hand in
//! plain values (request text, file contents, directory entries) and carry
//! the serialized response back to the peer.

pub mod status;
pub mod handler;
pub mod listing;
pub mod request;
pub mod response;
pub mod text;

pub use handler::{FileHandler, RequestHandler, Resource};
pub use request::{Method, Request, RequestError};
pub use response::Response;
pub use status::Status;
