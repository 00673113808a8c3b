//! Requests, responses, and the uniform error envelope.
//!
//! A `Request` is a fully determined description of one HTTP exchange:
//! verb, absolute URL, and an optional JSON body. The surrounding program
//! performs it (attaching the session's bearer credential and a JSON
//! content-type header) and hands back an `HttpResponse`; classification
//! of that response happens here.

use vstd::prelude::*;
use vstd::string::StringExecFns;
use crate::json::JsonValue;
use crate::json::JsonView;

verus! {

/// The HTTP verbs the client issues.
#[derive(Clone, Copy, PartialEq, Eq, Structural, Debug)]
pub enum Method {
    Get,
    Post,
    Patch,
    Delete,
}

/// One fully built HTTP exchange, ready to be performed.
#[derive(Debug, PartialEq)]
pub struct Request {
    pub method: Method,
    pub url: String,
    pub body: Option<JsonValue>,
}

/// The view of a request: verb, URL characters, body shape.
pub ghost struct RequestView {
    pub method: Method,
    pub url: Seq<char>,
    pub body: Option<JsonView>,
}

impl View for Request {
    type V = RequestView;

    open spec fn view(&self) -> RequestView {
        RequestView {
            method: self.method,
            url: self.url@,
            body: match self.body {
                Some(b) => Some(b@),
                None => None,
            },
        }
    }
}

/// What came back from one HTTP exchange: the status code and the raw
/// body text.
#[derive(Debug, PartialEq)]
pub struct HttpResponse {
    pub status: u16,
    pub body: String,
}

/// Every way a client operation can fail.
#[derive(Debug, PartialEq)]
pub enum ApiError {
    /// The remote service answered with a status outside 2xx; the raw
    /// body text is kept verbatim.
    Transport { status: u16, body: String },
    /// The response body does not match the expected schema.
    Decode,
    /// The caller's request is missing the `name` a mutating operation
    /// needs; detected before any request is built.
    MissingName,
    /// The exchange itself could not be carried out (no connection, a
    /// broken stream); the carrier's own description is kept verbatim.
    Network { detail: String },
}

pub ghost enum ApiErrorView {
    Transport { status: u16, body: Seq<char> },
    Decode,
    MissingName,
    Network { detail: Seq<char> },
}

impl View for ApiError {
    type V = ApiErrorView;

    open spec fn view(&self) -> ApiErrorView {
        match self {
            ApiError::Transport { status, body } => ApiErrorView::Transport {
                status: *status,
                body: body@,
            },
            ApiError::Decode => ApiErrorView::Decode,
            ApiError::MissingName => ApiErrorView::MissingName,
            ApiError::Network { detail } => ApiErrorView::Network { detail: detail@ },
        }
    }
}

/// The decimal digits of `n`, most significant first.
pub open spec fn dec_str(n: int) -> Seq<char>
    decreases n,
{
    if n < 10 {
        seq![dec_digit(n)]
    } else {
        dec_str(n / 10).push(dec_digit(n % 10))
    }
}

pub open spec fn dec_digit(d: int) -> char {
    if d == 0 {
        '0'
    } else if d == 1 {
        '1'
    } else if d == 2 {
        '2'
    } else if d == 3 {
        '3'
    } else if d == 4 {
        '4'
    } else if d == 5 {
        '5'
    } else if d == 6 {
        '6'
    } else if d == 7 {
        '7'
    } else if d == 8 {
        '8'
    } else {
        '9'
    }
}

fn append_digit(s: &mut String, d: u16)
    requires
        d < 10,
    ensures
        final(s)@ == old(s)@.push(dec_digit(d as int)),
{
    if d == 0 {
        s.append("0");
        proof {
            reveal_strlit("0");
            assert(s@ =~= old(s)@.push(dec_digit(d as int)));
        }
    } else if d == 1 {
        s.append("1");
        proof {
            reveal_strlit("1");
            assert(s@ =~= old(s)@.push(dec_digit(d as int)));
        }
    } else if d == 2 {
        s.append("2");
        proof {
            reveal_strlit("2");
            assert(s@ =~= old(s)@.push(dec_digit(d as int)));
        }
    } else if d == 3 {
        s.append("3");
        proof {
            reveal_strlit("3");
            assert(s@ =~= old(s)@.push(dec_digit(d as int)));
        }
    } else if d == 4 {
        s.append("4");
        proof {
            reveal_strlit("4");
            assert(s@ =~= old(s)@.push(dec_digit(d as int)));
        }
    } else if d == 5 {
        s.append("5");
        proof {
            reveal_strlit("5");
            assert(s@ =~= old(s)@.push(dec_digit(d as int)));
        }
    } else if d == 6 {
        s.append("6");
        proof {
            reveal_strlit("6");
            assert(s@ =~= old(s)@.push(dec_digit(d as int)));
        }
    } else if d == 7 {
        s.append("7");
        proof {
            reveal_strlit("7");
            assert(s@ =~= old(s)@.push(dec_digit(d as int)));
        }
    } else if d == 8 {
        s.append("8");
        proof {
            reveal_strlit("8");
            assert(s@ =~= old(s)@.push(dec_digit(d as int)));
        }
    } else {
        s.append("9");
        proof {
            reveal_strlit("9");
            assert(s@ =~= old(s)@.push(dec_digit(d as int)));
        }
    }
}

/// Renders a status code in decimal.
pub fn u16_string(n: u16) -> (r: String)
    ensures
        r@ == dec_str(n as int),
    decreases n,
{
    if n < 10 {
        let mut s = String::new();
        append_digit(&mut s, n);
        proof {
            assert(s@ =~= dec_str(n as int));
        }
        s
    } else {
        let mut s = u16_string(n / 10);
        append_digit(&mut s, n % 10);
        proof {
            assert(s@ =~= dec_str(n as int));
        }
        s
    }
}

/// The message an error carries to the caller: for a transport failure
/// `"Request failed: <status> - <body>"`, otherwise a fixed description.
/// It is never empty.
pub open spec fn message_of(e: ApiErrorView) -> Seq<char> {
    match e {
        ApiErrorView::Transport { status, body } => "Request failed: "@ + dec_str(status as int)
            + " - "@ + body,
        ApiErrorView::Decode => "Failed to decode response body"@,
        ApiErrorView::MissingName => "Missing required field: name"@,
        ApiErrorView::Network { detail } => if detail.len() == 0 {
            "Request failed"@
        } else {
            detail
        },
    }
}

/// Every error message is a non-empty string.
pub proof fn lemma_message_nonempty(e: ApiErrorView)
    ensures
        message_of(e).len() > 0,
{
    reveal_strlit("Request failed: ");
    reveal_strlit("Failed to decode response body");
    reveal_strlit("Missing required field: name");
    reveal_strlit("Request failed");
}

impl ApiError {
    /// The caller-visible description of this error.
    pub fn message(&self) -> (r: String)
        ensures
            r@ == message_of(self@),
    {
        match self {
            ApiError::Transport { status, body } => {
                let mut s = String::from_str("Request failed: ");
                s.append(u16_string(*status).as_str());
                s.append(" - ");
                s.append(body.as_str());
                s
            },
            ApiError::Decode => String::from_str("Failed to decode response body"),
            ApiError::MissingName => String::from_str("Missing required field: name"),
            ApiError::Network { detail } => {
                if detail.as_str().is_empty() {
                    String::from_str("Request failed")
                } else {
                    detail.clone()
                }
            },
        }
    }
}

/// Whether a status code counts as success.
pub open spec fn is_success_status(status: u16) -> bool {
    200 <= status < 300
}

/// Classifies a response: 2xx is success, anything else becomes a
/// transport failure carrying the status and the raw body text.
pub fn classify_response(rsp: HttpResponse) -> (r: Result<String, ApiError>)
    ensures
        r is Ok <==> is_success_status(rsp.status),
        r matches Ok(body) ==> body@ == rsp.body@,
        r matches Err(e) ==> e@ == (ApiErrorView::Transport {
            status: rsp.status,
            body: rsp.body@,
        }),
{
    if 200 <= rsp.status && rsp.status < 300 {
        Ok(rsp.body)
    } else {
        Err(ApiError::Transport { status: rsp.status, body: rsp.body })
    }
}

} // verus!
