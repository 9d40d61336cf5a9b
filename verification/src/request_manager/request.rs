//! A request as the desktop client keeps it.

use crate::text::{same_text, uppercase, uppercase_text};
use vstd::prelude::*;

verus! {

/// The method of a client request.
#[derive(Clone, Copy, Debug, PartialEq, Eq, Structural)]
pub enum RequestType {
    GET,
    POST,
    PUT,
    DELETE,
}

/// The name of a method.
pub open spec fn request_type_text(method: RequestType) -> Seq<char> {
    match method {
        RequestType::GET => "GET"@,
        RequestType::POST => "POST"@,
        RequestType::PUT => "PUT"@,
        RequestType::DELETE => "DELETE"@,
    }
}

/// The method with the given upper-case name; `GET` for every other name.
pub open spec fn request_type_named(name: Seq<char>) -> RequestType {
    if name == "POST"@ {
        RequestType::POST
    } else if name == "PUT"@ {
        RequestType::PUT
    } else if name == "DELETE"@ {
        RequestType::DELETE
    } else {
        RequestType::GET
    }
}

impl RequestType {
    /// The name of the method.
    pub fn name(&self) -> (r: &'static str)
        ensures
            r@ == request_type_text(*self),
    {
        match self {
            RequestType::GET => "GET",
            RequestType::POST => "POST",
            RequestType::PUT => "PUT",
            RequestType::DELETE => "DELETE",
        }
    }
}

/// What a client request can tell about itself.
pub trait Request {
    fn get_name(&self) -> String;

    fn get_url(&self) -> String;

    fn get_method(&self) -> RequestType;

    fn get_body(&self) -> String;

    fn get_headers(&self) -> Vec<String>;
}

/// A client request.
#[derive(Debug)]
pub struct RequestImpl {
    name: String,
    url: String,
    method: RequestType,
    body: String,
    headers: Vec<String>,
}

/// The mathematical content of a [`RequestImpl`].
pub ghost struct RequestView {
    pub name: Seq<char>,
    pub url: Seq<char>,
    pub method: RequestType,
    pub body: Seq<char>,
    pub headers: Seq<Seq<char>>,
}

impl View for RequestImpl {
    type V = RequestView;

    closed spec fn view(&self) -> RequestView {
        RequestView {
            name: self.name@,
            url: self.url@,
            method: self.method,
            body: self.body@,
            headers: self.headers.deep_view(),
        }
    }
}

impl Default for RequestImpl {
    fn default() -> (r: Self)
        ensures
            r@ == (RequestView {
                name: "Default Request"@,
                url: "https://api.example.com"@,
                method: RequestType::GET,
                body: Seq::empty(),
                headers: Seq::empty(),
            }),
    {
        let r = RequestImpl {
            name: String::from_str("Default Request"),
            url: String::from_str("https://api.example.com"),
            method: RequestType::GET,
            body: String::new(),
            headers: Vec::new(),
        };
        assert(r.headers.deep_view() =~= Seq::<Seq<char>>::empty());
        r
    }
}

impl RequestImpl {
    /// A request without headers. The method is read from its name without
    /// regard to case; a name that is none of `GET`, `POST`, `PUT` and
    /// `DELETE` stands for `GET`.
    pub fn new(method_str: &str, url: &str, name: &str, body: &str) -> (r: Self)
        ensures
            r@ == (RequestView {
                name: name@,
                url: url@,
                method: request_type_named(uppercase_text(method_str@)),
                body: body@,
                headers: Seq::empty(),
            }),
    {
        let upper = uppercase(method_str);
        let method = if same_text(upper.as_str(), "POST") {
            RequestType::POST
        } else if same_text(upper.as_str(), "PUT") {
            RequestType::PUT
        } else if same_text(upper.as_str(), "DELETE") {
            RequestType::DELETE
        } else {
            RequestType::GET
        };
        RequestImpl::with_method(method, url, name, body)
    }

    /// A request without headers, with the method given as such.
    pub fn with_method(method: RequestType, url: &str, name: &str, body: &str) -> (r: Self)
        ensures
            r@ == (RequestView {
                name: name@,
                url: url@,
                method,
                body: body@,
                headers: Seq::empty(),
            }),
    {
        let r = RequestImpl {
            name: String::from_str(name),
            url: String::from_str(url),
            method,
            body: String::from_str(body),
            headers: Vec::new(),
        };
        assert(r.headers.deep_view() =~= Seq::<Seq<char>>::empty());
        r
    }
}

impl Request for RequestImpl {
    fn get_name(&self) -> (r: String)
        ensures
            r@ == self@.name,
    {
        self.name.clone()
    }

    fn get_url(&self) -> (r: String)
        ensures
            r@ == self@.url,
    {
        self.url.clone()
    }

    fn get_method(&self) -> (r: RequestType)
        ensures
            r == self@.method,
    {
        self.method
    }

    fn get_body(&self) -> (r: String)
        ensures
            r@ == self@.body,
    {
        self.body.clone()
    }

    fn get_headers(&self) -> (r: Vec<String>)
        ensures
            r.deep_view() == self@.headers,
    {
        let mut out: Vec<String> = Vec::new();
        let mut i: usize = 0;
        while i < self.headers.len()
            invariant
                i <= self.headers.len(),
                out@.len() == i,
                forall|j: int| 0 <= j < i ==> out@[j]@ == self.headers@[j]@,
            decreases self.headers.len() - i,
        {
            out.push(self.headers[i].clone());
            i = i + 1;
        }
        out
    }
}

} // verus!
