use crate::utils::serialization::{texts, TextField};
use vstd::prelude::*;

verus! {

/// The method of a request.
#[derive(Debug, Clone, Copy, PartialEq, Eq, Structural)]
pub enum Method {
    Get,
    Post,
    Put,
    Delete,
}

impl Method {
    /// The method's name as it goes over the wire.
    pub open spec fn name(self) -> Seq<char> {
        match self {
            Method::Get => "GET"@,
            Method::Post => "POST"@,
            Method::Put => "PUT"@,
            Method::Delete => "DELETE"@,
        }
    }

    /// The method's name as it goes over the wire.
    pub fn as_str(self) -> (name: &'static str)
        ensures
            name@ == self.name(),
    {
        match self {
            Method::Get => "GET",
            Method::Post => "POST",
            Method::Put => "PUT",
            Method::Delete => "DELETE",
        }
    }
}

/// A request as the client hands it to its transport.
#[derive(Debug, Clone, PartialEq, Eq)]
pub struct HttpRequest {
    /// The method
    pub method: Method,
    /// The full URL
    pub url: String,
    /// The headers, in the order in which they were set
    pub headers: Vec<TextField>,
    /// The body, as JSON text
    pub body: Option<String>,
}

/// A request as contracts see it.
pub struct HttpRequestView {
    pub method: Method,
    pub url: Seq<char>,
    pub headers: Seq<(Seq<char>, Seq<char>)>,
    pub body: Option<Seq<char>>,
}

impl View for HttpRequest {
    type V = HttpRequestView;

    open spec fn view(&self) -> HttpRequestView {
        HttpRequestView {
            method: self.method,
            url: self.url@,
            headers: texts(self.headers@),
            body: match self.body {
                Some(text) => Some(text@),
                None => None,
            },
        }
    }
}

/// Whether a status code reports success: 200 to 299.
pub open spec fn is_success(status: u16) -> bool {
    200 <= status < 300
}

/// Whether a status code reports success.
pub fn status_is_success(status: u16) -> (ok: bool)
    ensures
        ok == is_success(status),
{
    200 <= status && status < 300
}

} // verus!
