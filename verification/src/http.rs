//! What the client core asks of a transport, and what it takes back.
//!
//! The core never touches the network. It describes each exchange as an
//! [`HttpRequest`] and reads the outcome from an [`HttpReply`].

use vstd::prelude::*;
use crate::wire::{body_view, WireFieldView, WireObject};

verus! {

/// The HTTP method of a request.
#[derive(Debug, Clone, Copy, PartialEq, Eq, Structural)]
pub enum Method {
    Get,
    Post,
}

/// The credential that a request carries.
#[derive(Debug, Clone, PartialEq, Eq)]
pub enum Authorization {
    /// HTTP Basic credentials: the client's identifier and secret.
    Basic { username: String, password: String },
    /// A bearer token.
    Bearer { token: String },
}

/// The contents of an [`Authorization`].
pub enum AuthorizationView {
    Basic { username: Seq<char>, password: Seq<char> },
    Bearer { token: Seq<char> },
}

impl View for Authorization {
    type V = AuthorizationView;

    open spec fn view(&self) -> AuthorizationView {
        match self {
            Authorization::Basic { username, password } => AuthorizationView::Basic {
                username: username@,
                password: password@,
            },
            Authorization::Bearer { token } => AuthorizationView::Bearer { token: token@ },
        }
    }
}

/// One exchange for a transport to perform.
#[derive(Debug, Clone, PartialEq, Eq)]
pub struct HttpRequest {
    pub method: Method,
    /// The full URL: base URL and path.
    pub url: String,
    pub authorization: Authorization,
    /// The JSON body, if the request has one.
    pub body: Option<WireObject>,
}

/// The contents of an [`HttpRequest`].
pub struct HttpRequestView {
    pub method: Method,
    pub url: Seq<char>,
    pub authorization: AuthorizationView,
    pub body: Option<Seq<WireFieldView>>,
}

impl View for HttpRequest {
    type V = HttpRequestView;

    open spec fn view(&self) -> HttpRequestView {
        HttpRequestView {
            method: self.method,
            url: self.url@,
            authorization: self.authorization@,
            body: body_view(self.body),
        }
    }
}

/// How an exchange ended.
#[derive(Debug, Clone, PartialEq, Eq)]
pub enum HttpReply {
    /// No response arrived: connection refused, timeout, TLS failure.
    Failed { reason: String },
    /// A response arrived. `body` is `None` where the body is not a JSON
    /// object.
    Response { status: u16, body: Option<WireObject> },
}

/// The contents of an [`HttpReply`].
pub enum HttpReplyView {
    Failed { reason: Seq<char> },
    Response { status: u16, body: Option<Seq<WireFieldView>> },
}

impl View for HttpReply {
    type V = HttpReplyView;

    open spec fn view(&self) -> HttpReplyView {
        match self {
            HttpReply::Failed { reason } => HttpReplyView::Failed { reason: reason@ },
            HttpReply::Response { status, body } => HttpReplyView::Response {
                status: *status,
                body: body_view(*body),
            },
        }
    }
}

/// Whether `status` is a success status: 200 to 299.
pub open spec fn spec_is_success(status: u16) -> bool {
    200 <= status < 300
}

/// Whether `status` is a success status: 200 to 299.
#[verifier::when_used_as_spec(spec_is_success)]
pub fn is_success(status: u16) -> (success: bool)
    ensures
        success == spec_is_success(status),
{
    200 <= status && status < 300
}

} // verus!
