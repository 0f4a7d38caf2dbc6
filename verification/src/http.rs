//! What the flow client asks of the transport and what it is handed back.
//!
//! The client itself sends nothing. Each operation says which request is to
//! be sent next; whoever drives it performs the request (without following
//! redirects) and hands the reply back.

use vstd::prelude::*;
use crate::json::{Json, JsonValue};
use crate::text::{opt_text, texts};

verus! {

/// Seconds after which a request is abandoned.
pub const REQUEST_TIMEOUT_SECS: u64 = 30;

/// Seconds after which an attempt to connect is abandoned.
pub const CONNECT_TIMEOUT_SECS: u64 = 10;

/// Seconds after which an idle pooled connection is closed.
pub const POOL_IDLE_TIMEOUT_SECS: u64 = 90;

/// The most idle connections kept per host.
pub const POOL_MAX_IDLE_PER_HOST: usize = 10;

/// The method of a request.
#[derive(Clone, Copy, Debug, PartialEq, Eq, Structural)]
pub enum Method {
    Get,
    Post,
}

/// A request for the transport to send.
#[derive(Debug, PartialEq)]
pub struct HttpRequest {
    pub method: Method,
    pub url: String,
    /// The value of the `Cookie` header, if one is to be sent.
    pub cookie: Option<String>,
    /// The value of the `X-Session-Token` header, if one is to be sent.
    pub session_token: Option<String>,
    /// The JSON body, if one is to be sent (as `application/json`).
    pub body: Option<Json>,
}

/// The model of an [`HttpRequest`].
pub struct Request {
    pub method: Method,
    pub url: Seq<char>,
    pub cookie: Option<Seq<char>>,
    pub session_token: Option<Seq<char>>,
    pub body: Option<JsonValue>,
}

impl View for HttpRequest {
    type V = Request;

    open spec fn view(&self) -> Request {
        Request {
            method: self.method,
            url: self.url@,
            cookie: opt_text(self.cookie),
            session_token: opt_text(self.session_token),
            body: match self.body {
                Some(b) => Some(b@),
                None => None,
            },
        }
    }
}

/// A response as the transport received it.
#[derive(Debug, PartialEq)]
pub struct HttpResponse {
    pub status: u16,
    /// The values of the `Set-Cookie` headers, in the order of arrival.
    pub set_cookies: Vec<String>,
    /// The value of the `Location` header, if there is one.
    pub location: Option<String>,
    /// The body, as text.
    pub body: String,
}

/// The model of an [`HttpResponse`].
pub struct Response {
    pub status: u16,
    pub set_cookies: Seq<Seq<char>>,
    pub location: Option<Seq<char>>,
    pub body: Seq<char>,
}

impl View for HttpResponse {
    type V = Response;

    open spec fn view(&self) -> Response {
        Response {
            status: self.status,
            set_cookies: texts(self.set_cookies@),
            location: opt_text(self.location),
            body: self.body@,
        }
    }
}

/// What came of sending a request.
#[derive(Debug, PartialEq)]
pub enum Reply {
    /// The provider answered.
    Response(HttpResponse),
    /// No answer came; the text is the transport's message.
    Unreachable(String),
}

/// The model of a [`Reply`].
pub enum Answer {
    Response(Response),
    Unreachable(Seq<char>),
}

impl View for Reply {
    type V = Answer;

    open spec fn view(&self) -> Answer {
        match self {
            Reply::Response(r) => Answer::Response(r@),
            Reply::Unreachable(m) => Answer::Unreachable(m@),
        }
    }
}

/// A status of the success class.
pub open spec fn is_success(status: u16) -> bool {
    200 <= status <= 299
}

/// A status by which the provider sends the client on to a flow: 303 or 302.
pub open spec fn is_redirect(status: u16) -> bool {
    status == 303 || status == 302
}

impl HttpResponse {
    /// Whether the status is of the success class.
    pub fn is_success(&self) -> (r: bool)
        ensures
            r == is_success(self.status),
    {
        200 <= self.status && self.status <= 299
    }

    /// Whether the status sends the client on to a flow.
    pub fn is_redirect(&self) -> (r: bool)
        ensures
            r == is_redirect(self.status),
    {
        self.status == 303 || self.status == 302
    }
}

impl HttpRequest {
    /// A GET of `url` with the given `Cookie` header.
    pub fn get(url: String, cookie: Option<String>) -> (out: HttpRequest)
        ensures
            out@ == (Request {
                method: Method::Get,
                url: url@,
                cookie: opt_text(cookie),
                session_token: None,
                body: None,
            }),
    {
        HttpRequest { method: Method::Get, url, cookie, session_token: None, body: None }
    }

    /// A POST of `body` to `url` with the given `Cookie` header.
    pub fn post(url: String, cookie: Option<String>, body: Json) -> (out: HttpRequest)
        ensures
            out@ == (Request {
                method: Method::Post,
                url: url@,
                cookie: opt_text(cookie),
                session_token: None,
                body: Some(body@),
            }),
    {
        HttpRequest { method: Method::Post, url, cookie, session_token: None, body: Some(body) }
    }
}

} // verus!
