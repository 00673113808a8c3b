//! The session: a base URL plus the bearer credential used for every
//! request, and whether discarding the session owes the remote service a
//! sign-out.
//!
//! A session is an immutable value: signing in never mutates the caller's
//! session, it constructs a new, derived one.

use vstd::prelude::*;
use vstd::string::StringExecFns;
use crate::transport::Method;
use crate::transport::Request;
use crate::transport::RequestView;

verus! {

/// An authenticated session against one remote service.
pub struct Server {
    pub base_url: String,
    pub token: String,
    pub sign_out_required: bool,
}

pub ghost struct ServerView {
    pub base_url: Seq<char>,
    pub token: Seq<char>,
    pub sign_out_required: bool,
}

impl View for Server {
    type V = ServerView;

    open spec fn view(&self) -> ServerView {
        ServerView {
            base_url: self.base_url@,
            token: self.token@,
            sign_out_required: self.sign_out_required,
        }
    }
}

/// The absolute URL of an endpoint under a base URL.
pub open spec fn url_of(base: Seq<char>, endpoint: Seq<char>) -> Seq<char> {
    base + "/"@ + endpoint
}

/// The base URL a session built from `host` uses.
pub open spec fn base_url_of(host: Seq<char>) -> Seq<char> {
    "http://"@ + host + "/api/v1"@
}

impl Server {
    /// A root session: its credential was supplied from outside, so its
    /// teardown owes the remote service nothing.
    pub fn new(host: &str, token: &str) -> (r: Server)
        ensures
            r@ == (ServerView {
                base_url: base_url_of(host@),
                token: token@,
                sign_out_required: false,
            }),
    {
        Server {
            base_url: String::from_str("http://").concat(host).concat("/api/v1"),
            token: String::from_str(token),
            sign_out_required: false,
        }
    }

    /// The base URL every endpoint is resolved against.
    pub fn base_url(&self) -> (r: &str)
        ensures
            r@ == self@.base_url,
    {
        self.base_url.as_str()
    }

    /// The bearer credential attached to every request.
    pub fn token(&self) -> (r: &str)
        ensures
            r@ == self@.token,
    {
        self.token.as_str()
    }

    /// Whether this session is derived: created by a sign-in, so that
    /// discarding it owes the remote service a sign-out.
    pub fn is_derived(&self) -> (r: bool)
        ensures
            r == self@.sign_out_required,
    {
        self.sign_out_required
    }

    /// The absolute URL of an endpoint of this session.
    pub fn endpoint_url(&self, endpoint: &str) -> (r: String)
        ensures
            r@ == url_of(self@.base_url, endpoint@),
    {
        self.base_url.clone().concat("/").concat(endpoint)
    }

    /// The one exchange teardown owes: a derived session issues exactly
    /// one sign-out, a root session issues none.
    pub fn cleanup_request(&self) -> (r: Option<Request>)
        ensures
            r is Some <==> self@.sign_out_required,
            r matches Some(req) ==> req@ == (RequestView {
                method: Method::Post,
                url: url_of(self@.base_url, "auth/signout"@),
                body: None,
            }),
    {
        if self.sign_out_required {
            Some(
                Request {
                    method: Method::Post,
                    url: self.endpoint_url("auth/signout"),
                    body: None,
                },
            )
        } else {
            None
        }
    }
}

} // verus!
