//! HTTP requests as plain values: the library says what is to be sent, the
//! program around it sends it.

use vstd::prelude::*;

verus! {

/// The HTTP method of a request.
#[derive(Debug, PartialEq, Eq, Clone, Copy)]
pub enum Method {
    Get,
    Post,
}

/// The body of a request as a mathematical value.
pub enum BodyModel {
    Empty,
    Form(Seq<(Seq<char>, Seq<char>)>),
    Json(Seq<char>),
}

/// The body of a request.
#[derive(Debug, PartialEq, Eq)]
pub enum Body {
    /// No body.
    Empty,
    /// Parameters to send form-encoded, as `application/x-www-form-urlencoded`.
    Form(Vec<(String, String)>),
    /// A JSON text to send as `application/json`.
    Json(String),
}

/// A request as a mathematical value.
pub struct RequestModel {
    pub method: Method,
    pub url: Seq<char>,
    pub authorization: Seq<char>,
    pub query: Seq<(Seq<char>, Seq<char>)>,
    pub body: BodyModel,
}

/// One HTTP request: where it goes, the value of its `Authorization` header,
/// its query parameters and its body.
#[derive(Debug, PartialEq, Eq)]
pub struct Request {
    pub method: Method,
    pub url: String,
    pub authorization: String,
    pub query: Vec<(String, String)>,
    pub body: Body,
}

/// The values of a list of named parameters, in order.
pub open spec fn pairs(v: Seq<(String, String)>) -> Seq<(Seq<char>, Seq<char>)> {
    Seq::new(v.len(), |i: int| (v[i].0@, v[i].1@))
}

impl View for Body {
    type V = BodyModel;

    open spec fn view(&self) -> BodyModel {
        match self {
            Body::Empty => BodyModel::Empty,
            Body::Form(params) => BodyModel::Form(pairs(params@)),
            Body::Json(text) => BodyModel::Json(text@),
        }
    }
}

impl View for Request {
    type V = RequestModel;

    open spec fn view(&self) -> RequestModel {
        RequestModel {
            method: self.method,
            url: self.url@,
            authorization: self.authorization@,
            query: pairs(self.query@),
            body: self.body@,
        }
    }
}

/// The content type under which a body is sent; none where there is no
/// body.
pub open spec fn content_type_of(body: BodyModel) -> Option<Seq<char>> {
    match body {
        BodyModel::Empty => None,
        BodyModel::Form(_) => Some("application/x-www-form-urlencoded"@),
        BodyModel::Json(_) => Some("application/json"@),
    }
}

impl Body {
    /// The value of the `Content-Type` header that goes with the body.
    pub fn content_type(&self) -> (r: Option<String>)
        ensures
            match r {
                Some(t) => content_type_of(self@) == Some(t@),
                None => content_type_of(self@).is_none(),
            },
    {
        match self {
            Body::Empty => None,
            Body::Form(_) => Some("application/x-www-form-urlencoded".to_owned()),
            Body::Json(_) => Some("application/json".to_owned()),
        }
    }
}

/// Whether an HTTP status reports success.
pub open spec fn is_success(status: u16) -> bool {
    200 <= status < 300
}

/// Tells whether an HTTP status reports success: 200 to 299.
pub fn status_ok(status: u16) -> (r: bool)
    ensures
        r == is_success(status),
{
    200 <= status && status < 300
}

/// One named parameter.
pub fn pair(name: &str, value: &str) -> (r: (String, String))
    ensures
        r.0@ == name@,
        r.1@ == value@,
{
    (name.to_owned(), value.to_owned())
}

} // verus!
