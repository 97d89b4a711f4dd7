//! HTTP responses: status, headers and body for each pipeline outcome.
use vstd::prelude::*;
use vstd::utf8::encode_utf8;
use crate::decimal::{decimal, decimal_string};
use crate::error::ProxyError;

verus! {

/// What a response reports.
#[derive(Debug, Clone, Copy, PartialEq, Eq, Structural)]
pub enum ResponseKind {
    /// a DNS answer fetched from the upstream resolver
    Answer,
    /// a DNS answer served from the cache
    CachedAnswer,
    /// the asked name is on the blocklist
    Blocked,
    /// the path is not served
    NotFound,
    /// the method is neither GET nor POST
    MethodNotAllowed,
    /// the request failed
    Rejected(ProxyError),
}


/// Body of the not-found page.
pub const NOT_FOUND_PAGE: &'static str = "<!DOCTYPE html>\n<html><head><title>404 Not Found</title></head><body><h1>404 Not Found</h1><p>Queries are served under /dns-query.</p></body></html>\n";

pub const METHOD_NOT_ALLOWED_TEXT: &'static str = "This method is not allowed\n";

pub const BAD_PARAMETER_TEXT: &'static str = "Malformed dns parameter\n";

pub const BAD_MESSAGE_TEXT: &'static str = "Malformed DNS message\n";

pub const UPSTREAM_FAILURE_TEXT: &'static str = "Upstream resolver failed\n";

pub const INTERNAL_FAILURE_TEXT: &'static str = "Internal error\n";

pub open spec fn status_of(kind: ResponseKind) -> u16 {
    match kind {
        ResponseKind::Answer => 200,
        ResponseKind::CachedAnswer => 200,
        ResponseKind::Blocked => 418,
        ResponseKind::NotFound => 404,
        ResponseKind::MethodNotAllowed => 405,
        ResponseKind::Rejected(e) => match e {
            ProxyError::Decode => 400,
            ProxyError::Parse => 400,
            ProxyError::Upstream => 502,
            _ => 500,
        },
    }
}

/// Whether a response carries a DNS answer.
pub open spec fn is_answer(kind: ResponseKind) -> bool {
    kind == ResponseKind::Answer || kind == ResponseKind::CachedAnswer
}

/// The text of a response that carries no DNS answer.
pub open spec fn fixed_text(kind: ResponseKind) -> Seq<char> {
    match kind {
        ResponseKind::Blocked => Seq::empty(),
        ResponseKind::NotFound => NOT_FOUND_PAGE@,
        ResponseKind::MethodNotAllowed => METHOD_NOT_ALLOWED_TEXT@,
        ResponseKind::Rejected(e) => match e {
            ProxyError::Decode => BAD_PARAMETER_TEXT@,
            ProxyError::Parse => BAD_MESSAGE_TEXT@,
            ProxyError::Upstream => UPSTREAM_FAILURE_TEXT@,
            _ => INTERNAL_FAILURE_TEXT@,
        },
        _ => Seq::empty(),
    }
}

/// The abstract value of a response.
pub struct ResponseView {
    pub kind: ResponseKind,
    pub body: Seq<u8>,
}

/// The response of a kind that carries no DNS answer.
pub open spec fn fixed_response(kind: ResponseKind) -> ResponseView {
    ResponseView { kind, body: encode_utf8(fixed_text(kind)) }
}

/// An answer response with the given body.
pub open spec fn answer_response(bytes: Seq<u8>, cached: bool) -> ResponseView {
    ResponseView {
        kind: if cached {
            ResponseKind::CachedAnswer
        } else {
            ResponseKind::Answer
        },
        body: bytes,
    }
}

pub open spec fn pair(name: &str, value: Seq<char>) -> (Seq<char>, Seq<char>) {
    (name@, value)
}

/// The headers of a response of `kind` whose body is `len` bytes long.
pub open spec fn headers_of(kind: ResponseKind, len: nat) -> Seq<(Seq<char>, Seq<char>)> {
    let length = pair("Content-Length", decimal(len));
    match kind {
        ResponseKind::Answer => seq![
            pair("Content-Type", "application/dns-message"@),
            pair("Cache-Control", "max-age=3709"@),
            length,
        ],
        ResponseKind::CachedAnswer => seq![
            pair("Content-Type", "application/dns-message"@),
            pair("Cache-Control", "max-age=3709"@),
            length,
        ],
        ResponseKind::Blocked => seq![
            pair("Content-Type", "BLOCKED"@),
            pair("Cache-Control", "max-age=0"@),
            length,
        ],
        ResponseKind::NotFound => seq![pair("Content-Type", "text/html; charset=utf-8"@), length],
        ResponseKind::MethodNotAllowed => seq![
            pair("Allow", "GET, POST"@),
            pair("Content-Type", "text/plain; charset=utf-8"@),
            length,
        ],
        ResponseKind::Rejected(_) => seq![
            pair("Content-Type", "text/plain; charset=utf-8"@),
            length,
        ],
    }
}

pub open spec fn header_views(h: Seq<(String, String)>) -> Seq<(Seq<char>, Seq<char>)> {
    h.map_values(|p: (String, String)| (p.0@, p.1@))
}

/// An HTTP response of the proxy.
#[derive(Debug, Clone)]
pub struct HttpResponse {
    pub kind: ResponseKind,
    pub body: Vec<u8>,
}

impl View for HttpResponse {
    type V = ResponseView;

    open spec fn view(&self) -> ResponseView {
        ResponseView { kind: self.kind, body: self.body@ }
    }
}

fn header(name: &str, value: String) -> (r: (String, String))
    ensures
        r.0@ == name@,
        r.1@ == value@,
{
    (String::from_str(name), value)
}

impl HttpResponse {
    /// The response of a kind that carries no DNS answer.
    pub fn fixed(kind: ResponseKind) -> (r: HttpResponse)
        requires
            !is_answer(kind),
        ensures
            r@ == fixed_response(kind),
    {
        let text: &str = match kind {
            ResponseKind::NotFound => NOT_FOUND_PAGE,
            ResponseKind::MethodNotAllowed => METHOD_NOT_ALLOWED_TEXT,
            ResponseKind::Rejected(e) => match e {
                ProxyError::Decode => BAD_PARAMETER_TEXT,
                ProxyError::Parse => BAD_MESSAGE_TEXT,
                ProxyError::Upstream => UPSTREAM_FAILURE_TEXT,
                _ => INTERNAL_FAILURE_TEXT,
            },
            _ => {
                proof { reveal_strlit(""); }
                ""
            },
        };
        HttpResponse { kind, body: text.as_bytes_vec() }
    }

    /// A response that carries a DNS answer.
    pub fn answer(bytes: Vec<u8>, cached: bool) -> (r: HttpResponse)
        ensures
            r@ == answer_response(bytes@, cached),
    {
        let kind = if cached {
            ResponseKind::CachedAnswer
        } else {
            ResponseKind::Answer
        };
        HttpResponse { kind, body: bytes }
    }

    /// The HTTP status code.
    pub fn status(&self) -> (r: u16)
        ensures
            r == status_of(self.kind),
    {
        match self.kind {
            ResponseKind::Answer => 200,
            ResponseKind::CachedAnswer => 200,
            ResponseKind::Blocked => 418,
            ResponseKind::NotFound => 404,
            ResponseKind::MethodNotAllowed => 405,
            ResponseKind::Rejected(e) => match e {
                ProxyError::Decode => 400,
                ProxyError::Parse => 400,
                ProxyError::Upstream => 502,
                _ => 500,
            },
        }
    }

    /// The headers, `Content-Length` always last and equal to the body length.
    pub fn headers(&self) -> (r: Vec<(String, String)>)
        ensures
            header_views(r@) == headers_of(self.kind, self.body@.len()),
    {
        let length = header("Content-Length", decimal_string(self.body.len() as u64));
        let mut r: Vec<(String, String)> = Vec::new();
        match self.kind {
            ResponseKind::Answer | ResponseKind::CachedAnswer => {
                r.push(header("Content-Type", String::from_str("application/dns-message")));
                r.push(header("Cache-Control", String::from_str("max-age=3709")));
            },
            ResponseKind::Blocked => {
                r.push(header("Content-Type", String::from_str("BLOCKED")));
                r.push(header("Cache-Control", String::from_str("max-age=0")));
            },
            ResponseKind::NotFound => {
                r.push(header("Content-Type", String::from_str("text/html; charset=utf-8")));
            },
            ResponseKind::MethodNotAllowed => {
                r.push(header("Allow", String::from_str("GET, POST")));
                r.push(header("Content-Type", String::from_str("text/plain; charset=utf-8")));
            },
            ResponseKind::Rejected(_) => {
                r.push(header("Content-Type", String::from_str("text/plain; charset=utf-8")));
            },
        }
        r.push(length);
        assert(header_views(r@) =~= headers_of(self.kind, self.body@.len()));
        r
    }
}

} // verus!
