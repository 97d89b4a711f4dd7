//! Routing of an HTTP request, extraction of the wire-format query, and its
//! first question.
use vstd::prelude::*;
use base64::Engine;
use crate::error::ProxyError;

verus! {

/// The HTTP method of an incoming request, as far as routing cares.
#[derive(Debug, Clone, Copy, PartialEq, Eq, Structural)]
pub enum Method {
    Get,
    Post,
    Other,
}

/// How a DNS query is carried.
#[derive(Debug, Clone, Copy, PartialEq, Eq, Structural)]
pub enum QueryMethod {
    /// base64url in the `dns` query parameter
    Get,
    /// raw wire format in the body
    Post,
}

/// Where a request goes.
#[derive(Debug, Clone, Copy, PartialEq, Eq, Structural)]
pub enum Route {
    Query(QueryMethod),
    NotFound,
    MethodNotAllowed,
}

/// The path prefix under which queries are served.
pub const QUERY_PATH: &'static str = "/dns-query";

pub open spec fn is_prefix(p: Seq<char>, s: Seq<char>) -> bool {
    p.len() <= s.len() && s.subrange(0, p.len() as int) == p
}

/// GET and POST on a path that starts with the query path are queries; any
/// other method is refused first, then any other path is unknown.
pub open spec fn route_of(method: Method, path: Seq<char>) -> Route {
    match method {
        Method::Other => Route::MethodNotAllowed,
        Method::Get => if is_prefix(QUERY_PATH@, path) {
            Route::Query(QueryMethod::Get)
        } else {
            Route::NotFound
        },
        Method::Post => if is_prefix(QUERY_PATH@, path) {
            Route::Query(QueryMethod::Post)
        } else {
            Route::NotFound
        },
    }
}

/// Whether `s` starts with `p`.
pub fn starts_with(s: &str, p: &str) -> (r: bool)
    ensures
        r == is_prefix(p@, s@),
{
    let n = s.unicode_len();
    let m = p.unicode_len();
    if m > n {
        return false;
    }
    let mut i: usize = 0;
    while i < m
        invariant
            m <= n,
            n == s@.len(),
            m == p@.len(),
            i <= m,
            forall|j: int| 0 <= j < i ==> s@[j] == p@[j],
        decreases m - i,
    {
        if s.get_char(i) != p.get_char(i) {
            return false;
        }
        i = i + 1;
    }
    assert(s@.subrange(0, m as int) =~= p@);
    true
}

/// Routes a request by method and path.
pub fn route(method: Method, path: &str) -> (r: Route)
    ensures
        r == route_of(method, path@),
{
    match method {
        Method::Other => Route::MethodNotAllowed,
        Method::Get => if starts_with(path, QUERY_PATH) {
            Route::Query(QueryMethod::Get)
        } else {
            Route::NotFound
        },
        Method::Post => if starts_with(path, QUERY_PATH) {
            Route::Query(QueryMethod::Post)
        } else {
            Route::NotFound
        },
    }
}

/// What base64url without padding decodes `s` to, if it is valid.
pub uninterp spec fn b64url_decoded(s: Seq<char>) -> Option<Seq<u8>>;

/// Relies on base64's `URL_SAFE_NO_PAD` engine `decode`: the result is a
/// function of the text alone, `Ok` exactly when it is valid base64url
/// without padding.
#[verifier::external_body]
fn decode_b64url(s: &str) -> (r: Result<Vec<u8>, base64::DecodeError>)
    ensures
        match r {
            Ok(v) => b64url_decoded(s@) == Some(v@),
            Err(_) => b64url_decoded(s@) is None,
        },
{
    base64::engine::general_purpose::URL_SAFE_NO_PAD.decode(s)
}

/// The wire-format query that a request carries: the decoded `dns`
/// parameter for GET, the body as it is for POST.
pub open spec fn wire_of(method: QueryMethod, dns_param: Option<Seq<char>>, body: Seq<u8>) -> Result<
    Seq<u8>,
    ProxyError,
> {
    match method {
        QueryMethod::Post => Ok(body),
        QueryMethod::Get => match dns_param {
            None => Err(ProxyError::Decode),
            Some(p) => match b64url_decoded(p) {
                Some(b) => Ok(b),
                None => Err(ProxyError::Decode),
            },
        },
    }
}

pub open spec fn param_view(p: &Option<String>) -> Option<Seq<char>> {
    match p {
        Some(s) => Some(s@),
        None => None,
    }
}

/// Extracts the wire-format query from a GET parameter or a POST body.
pub fn extract_wire(method: QueryMethod, dns_param: &Option<String>, body: &Vec<u8>) -> (r: Result<
    Vec<u8>,
    ProxyError,
>)
    ensures
        match wire_of(method, param_view(dns_param), body@) {
            Ok(b) => r is Ok && r->Ok_0@ == b,
            Err(e) => r == Err::<Vec<u8>, ProxyError>(e),
        },
{
    match method {
        QueryMethod::Post => Ok(body.clone()),
        QueryMethod::Get => match dns_param {
            None => Err(ProxyError::Decode),
            Some(p) => match decode_b64url(p.as_str()) {
                Ok(b) => Ok(b),
                Err(_) => Err(ProxyError::Decode),
            },
        },
    }
}

/// One question of a DNS message: its name in fully qualified form (with
/// the trailing root dot), its type and its class.
#[derive(Debug, Clone)]
pub struct Question {
    pub name: String,
    pub qtype: u16,
    pub qclass: u16,
}

/// The questions that dns_parser reads from a message, each as the name it
/// renders (labels joined by dots, no trailing dot), the type and the class.
pub uninterp spec fn dns_questions(b: Seq<u8>) -> Option<Seq<(Seq<char>, u16, u16)>>;

pub open spec fn question_views(v: Seq<(String, u16, u16)>) -> Seq<(Seq<char>, u16, u16)> {
    v.map_values(|q: (String, u16, u16)| (q.0@, q.1, q.2))
}

/// Relies on `dns_parser::Packet::parse` and the `Display` of its names: the
/// result is a function of the bytes alone, and a message shorter than the
/// 12-byte header is refused.
#[verifier::external_body]
fn parse_questions(b: &[u8]) -> (r: Result<Vec<(String, u16, u16)>, dns_parser::Error>)
    ensures
        match r {
            Ok(v) => dns_questions(b@) == Some(question_views(v@)),
            Err(_) => dns_questions(b@) is None,
        },
        b@.len() < 12 ==> r is Err,
{
    let packet = dns_parser::Packet::parse(b)?;
    Ok(packet.questions.iter().map(|q| (q.qname.to_string(), q.qtype as u16, q.qclass as u16)).collect())
}

/// The fully qualified form of a rendered name.
pub open spec fn fqdn(rendered: Seq<char>) -> Seq<char> {
    rendered + "."@
}

/// The first question of the list, in fully qualified form; a message
/// without questions is malformed.
pub open spec fn first_of(qs: Seq<(Seq<char>, u16, u16)>) -> Result<(Seq<char>, u16, u16), ProxyError> {
    if qs.len() == 0 {
        Err(ProxyError::Parse)
    } else {
        Ok((fqdn(qs[0].0), qs[0].1, qs[0].2))
    }
}

/// The question that a wire-format message asks first.
pub open spec fn first_question(wire: Seq<u8>) -> Result<(Seq<char>, u16, u16), ProxyError> {
    match dns_questions(wire) {
        None => Err(ProxyError::Parse),
        Some(qs) => first_of(qs),
    }
}

pub open spec fn question_matches(q: Question, v: (Seq<char>, u16, u16)) -> bool {
    q.name@ == v.0 && q.qtype == v.1 && q.qclass == v.2
}

/// Takes the first of the parsed questions; further ones are ignored.
pub fn first_question_of(questions: Vec<(String, u16, u16)>) -> (r: Result<Question, ProxyError>)
    ensures
        match first_of(question_views(questions@)) {
            Ok(v) => r is Ok && question_matches(r->Ok_0, v),
            Err(e) => r matches Err(x) && x == e,
        },
{
    if questions.len() == 0 {
        return Err(ProxyError::Parse);
    }
    let first = &questions[0];
    let name = first.0.clone().concat(".");
    Ok(Question { name, qtype: first.1, qclass: first.2 })
}

/// Parses a wire-format message and returns its first question.
pub fn parse_query(wire: &[u8]) -> (r: Result<Question, ProxyError>)
    ensures
        match first_question(wire@) {
            Ok(v) => r is Ok && question_matches(r->Ok_0, v),
            Err(e) => r matches Err(x) && x == e,
        },
        wire@.len() < 12 ==> r == Err::<Question, ProxyError>(ProxyError::Parse),
{
    match parse_questions(wire) {
        Ok(qs) => first_question_of(qs),
        Err(_) => Err(ProxyError::Parse),
    }
}

} // verus!
