//! HTTP requests as plain values. The client says what is to be sent; the
//! caller's transport sends it.

use vstd::prelude::*;
use vstd::string::StringExecFns;

verus! {

/// The method of a request.
#[derive(Debug, Clone, Copy, PartialEq, Eq, Structural)]
pub enum Method {
    Get,
    Post,
}

/// One header line of a request.
#[derive(Debug)]
pub struct Header {
    pub name: String,
    pub value: String,
}

/// A header line as text.
pub struct HeaderView {
    pub name: Seq<char>,
    pub value: Seq<char>,
}

impl View for Header {
    type V = HeaderView;

    open spec fn view(&self) -> HeaderView {
        HeaderView { name: self.name@, value: self.value@ }
    }
}

/// A user name and password for HTTP Basic authentication.
#[derive(Debug)]
pub struct BasicAuth {
    pub username: String,
    pub password: String,
}

/// A user name and password as text.
pub struct BasicAuthView {
    pub username: Seq<char>,
    pub password: Seq<char>,
}

impl View for BasicAuth {
    type V = BasicAuthView;

    open spec fn view(&self) -> BasicAuthView {
        BasicAuthView { username: self.username@, password: self.password@ }
    }
}

/// One request: where it goes, what authenticates it, its header lines in
/// order, and its body if it has one.
#[derive(Debug)]
pub struct Request {
    pub method: Method,
    pub url: String,
    pub basic_auth: Option<BasicAuth>,
    pub headers: Vec<Header>,
    pub body: Option<Vec<u8>>,
}

/// A request as text and bytes.
pub struct RequestView {
    pub method: Method,
    pub url: Seq<char>,
    pub basic_auth: Option<BasicAuthView>,
    pub headers: Seq<HeaderView>,
    pub body: Option<Seq<u8>>,
}

impl View for Request {
    type V = RequestView;

    open spec fn view(&self) -> RequestView {
        RequestView {
            method: self.method,
            url: self.url@,
            basic_auth: match self.basic_auth {
                Some(auth) => Some(auth@),
                None => None,
            },
            headers: Seq::new(self.headers@.len(), |i: int| self.headers@[i]@),
            body: match self.body {
                Some(bytes) => Some(bytes@),
                None => None,
            },
        }
    }
}

/// The header line `name: value`.
pub open spec fn header_line(name: Seq<char>, value: Seq<char>) -> HeaderView {
    HeaderView { name, value }
}

impl Header {
    /// The header line `name: value`.
    pub fn new(name: &str, value: String) -> (header: Header)
        ensures
            header@ == header_line(name@, value@),
    {
        Header { name: String::from_str(name), value }
    }
}

} // verus!
