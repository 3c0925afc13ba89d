//! Requests and responses as plain values.
//!
//! The library describes the request to send and judges what came back; the
//! caller's transport does the sending.

use vstd::prelude::*;

use crate::errors::{Error, ErrorView};

verus! {

/// An HTTP verb.
#[derive(Clone, Copy, Debug, PartialEq, Eq, Structural)]
pub enum Method {
    Get,
    Post,
    Put,
    Patch,
    Delete,
}

/// One request, ready to be sent: nothing in it is left to the transport to
/// decide but that the body is JSON.
#[derive(Debug, PartialEq, Eq)]
pub struct Request {
    pub url: String,
    pub method: Method,
    /// Header names and values, in the order in which they were set.
    pub headers: Vec<(String, String)>,
    /// The JSON text of the payload.
    pub body: String,
}

pub struct RequestView {
    pub url: Seq<char>,
    pub method: Method,
    pub headers: Seq<(Seq<char>, Seq<char>)>,
    pub body: Seq<char>,
}

impl View for Request {
    type V = RequestView;

    open spec fn view(&self) -> RequestView {
        RequestView {
            url: self.url@,
            method: self.method,
            headers: Seq::new(
                self.headers@.len(),
                |i: int| (self.headers@[i].0@, self.headers@[i].1@),
            ),
            body: self.body@,
        }
    }
}

/// What the server answered.
#[derive(Debug, PartialEq, Eq)]
pub struct Response {
    pub status: u16,
    /// The body as text; `None` where it could not be read.
    pub body: Option<String>,
}

pub struct ResponseView {
    pub status: u16,
    pub body: Option<Seq<char>>,
}

impl View for Response {
    type V = ResponseView;

    open spec fn view(&self) -> ResponseView {
        ResponseView {
            status: self.status,
            body: match self.body {
                Some(text) => Some(text@),
                None => None,
            },
        }
    }
}

/// What came of sending one request.
#[derive(Debug, PartialEq, Eq)]
pub enum Outcome {
    /// No response arrived (name resolution, connection, TLS, timeout).
    /// Carries the transport's reason.
    TransportFailure(String),
    Response(Response),
}

pub enum OutcomeView {
    TransportFailure(Seq<char>),
    Response(ResponseView),
}

impl View for Outcome {
    type V = OutcomeView;

    open spec fn view(&self) -> OutcomeView {
        match self {
            Outcome::TransportFailure(reason) => OutcomeView::TransportFailure(reason@),
            Outcome::Response(response) => OutcomeView::Response(response@),
        }
    }
}

/// A status in 200..=299.
pub open spec fn is_success(status: u16) -> bool {
    200 <= status < 300
}

/// The decimal digits of `n`, most significant first, without leading zeros.
pub open spec fn decimal(n: nat) -> Seq<char>
    decreases n,
{
    if n < 10 {
        seq!["0123456789"@[n as int]]
    } else {
        decimal(n / 10) + seq!["0123456789"@[(n % 10) as int]]
    }
}

/// The reason reported for a response whose status is not a success.
pub open spec fn status_message(status: u16) -> Seq<char> {
    "HTTP status "@ + decimal(status as nat)
}

impl OutcomeView {
    /// The body of a response that arrived with a success status; otherwise
    /// the failure the outcome stands for.
    pub open spec fn success_body(self) -> Result<Option<Seq<char>>, ErrorView> {
        match self {
            OutcomeView::TransportFailure(reason) => Err(ErrorView::RequestFailed(reason)),
            OutcomeView::Response(response) => if is_success(response.status) {
                Ok(response.body)
            } else {
                Err(ErrorView::RequestFailed(status_message(response.status)))
            },
        }
    }
}

/// Writes `n` in decimal.
pub fn decimal_string(n: u16) -> (r: String)
    ensures
        r@ == decimal(n as nat),
    decreases n,
{
    proof {
        reveal_strlit("0123456789");
    }
    let d: usize = (n % 10) as usize;
    let digit = "0123456789".substring_char(d, d + 1);
    if n < 10 {
        String::from_str(digit)
    } else {
        let mut digits = decimal_string(n / 10);
        digits.append(digit);
        digits
    }
}

/// The reason reported for a response with status `status`: the words
/// `HTTP status` and the number.
pub fn status_reason(status: u16) -> (r: String)
    ensures
        r@ == status_message(status),
{
    let mut reason = String::from_str("HTTP status ");
    let digits = decimal_string(status);
    reason.append(digits.as_str());
    reason
}

impl Outcome {
    /// Validates the outcome of one request. A transport failure and a
    /// status outside 200..=299 both become `RequestFailed`; otherwise the
    /// body is handed on (`None` where it could not be read).
    pub fn success_body(self) -> (r: Result<Option<String>, Error>)
        ensures
            match self@.success_body() {
                Ok(body) => r matches Ok(b) && b.deep_view() == body,
                Err(e) => r matches Err(x) && x@ == e,
            },
    {
        match self {
            Outcome::TransportFailure(reason) => Err(Error::RequestFailed(reason)),
            Outcome::Response(response) => {
                if 200 <= response.status && response.status < 300 {
                    Ok(response.body)
                } else {
                    Err(Error::RequestFailed(status_reason(response.status)))
                }
            },
        }
    }
}

} // verus!
