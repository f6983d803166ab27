use vstd::prelude::*;

verus! {

/// The HTTP method of a request.
#[derive(Clone, Copy, Debug, PartialEq, Eq, Structural)]
pub enum Method {
    Get,
    Post,
}

/// A request for the transport to send, fully prepared.
#[derive(Clone, Debug)]
pub struct Request {
    pub method: Method,
    pub url: String,
    /// The query parameters, name and value, to append to the URL.
    pub query: Vec<(String, String)>,
    /// The form fields, name and value, to send as the body.
    pub form: Vec<(String, String)>,
    /// The value of the `Authorization` header.
    pub authorization: Option<String>,
    /// The value of the `Cookie` header.
    pub cookie: Option<String>,
}

/// What the transport hands back of a response.
#[derive(Clone, Debug)]
pub struct Response {
    /// The `Location` header.
    pub location: Option<String>,
    /// The `Set-Cookie` headers, in order.
    pub set_cookie: Vec<String>,
    /// The body, as text.
    pub body: String,
}

} // verus!
