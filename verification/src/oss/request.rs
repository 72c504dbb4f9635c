//! The shape of a request to the object storage service.
use vstd::prelude::*;

verus! {

/// The scheme a request goes over.
#[derive(Debug, Clone, Copy, PartialEq, Eq)]
pub enum HttpProtocol {
    Http,
    Https,
}

/// A name and a value, as a query parameter or a header.
#[derive(Debug, Clone)]
pub struct Entry(pub String, pub String);

/// A request: where it goes, its query parameters and headers in order, and
/// an optional body.
#[derive(Debug, Clone)]
pub struct HttpRequest<T> {
    pub protocol: HttpProtocol,
    pub host: String,
    pub url: String,
    pub queries: Vec<Entry>,
    pub headers: Vec<Entry>,
    pub body: Option<T>,
}

} // verus!
