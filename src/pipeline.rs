//! The resolution pipeline as a step machine. The host performs each
//! requested action (cache lookup, upstream fetch, cache store) and hands the
//! outcome back; every decision is taken here.
use vstd::prelude::*;
use crate::blocklist::{hash_name, name_hash, Blocklist};
use crate::decimal::{decimal, decimal_string};
use crate::error::ProxyError;
use crate::query::{
    extract_wire, first_question, parse_query, param_view, route, route_of, wire_of, Method,
    Question, Route,
};
use crate::response::{
    answer_response, fixed_response, HttpResponse, ResponseKind, ResponseView,
};

verus! {

/// The start of the upstream request URL; the name follows.
pub const UPSTREAM_BASE: &'static str = "https://dns.google/resolve?name=";

/// Asks the upstream for a wire-format answer.
pub const WIRE_FORMAT_MARKER: &'static str = "&ct=application/dns-message";

/// How long the cache store keeps an answer, in seconds (about 30 days).
pub const CACHE_TTL_SECS: u64 = 2628000;

/// An incoming HTTP request, as far as the pipeline reads it.
#[derive(Debug, Clone)]
pub struct DohRequest {
    pub method: Method,
    pub path: String,
    /// the `dns` query parameter, if present
    pub dns_param: Option<String>,
    pub body: Vec<u8>,
}

/// The cache key of a name: its hash in decimal.
pub open spec fn cache_key_of(name: Seq<char>) -> Seq<char> {
    decimal(name_hash(name) as nat)
}

/// The upstream request URL for a name.
pub open spec fn upstream_url_of(name: Seq<char>) -> Seq<char> {
    UPSTREAM_BASE@ + name + WIRE_FORMAT_MARKER@
}

/// Computes the cache key of a name.
pub fn cache_key(name: &String) -> (r: String)
    ensures
        r@ == cache_key_of(name@),
{
    decimal_string(hash_name(name.as_str()))
}

/// Builds the upstream request URL for a name.
pub fn upstream_url(name: &String) -> (r: String)
    ensures
        r@ == upstream_url_of(name@),
{
    String::from_str(UPSTREAM_BASE).concat(name.as_str()).concat(WIRE_FORMAT_MARKER)
}

/// A question that passed the blocklist and waits for the cache.
#[derive(Debug, Clone)]
pub struct Pending {
    pub question: Question,
    pub key: String,
}

/// What the first step decides.
pub enum Begin {
    /// answer the client now
    Done(HttpResponse),
    /// look the key up in the cache
    Lookup(Pending),
}

pub enum BeginView {
    Done(ResponseView),
    Lookup { name: Seq<char>, key: Seq<char> },
}

impl View for Begin {
    type V = BeginView;

    open spec fn view(&self) -> BeginView {
        match self {
            Begin::Done(r) => BeginView::Done(r@),
            Begin::Lookup(p) => BeginView::Lookup { name: p.question.name@, key: p.key@ },
        }
    }
}

/// After the question is known: blocked names are answered at once, others
/// go to the cache under their key. A parse failure is answered at once.
pub open spec fn screen_spec(q: Result<(Seq<char>, u16, u16), ProxyError>, blocked: Set<Seq<char>>) -> BeginView {
    match q {
        Err(e) => BeginView::Done(fixed_response(ResponseKind::Rejected(e))),
        Ok(q) => if blocked.contains(q.0) {
            BeginView::Done(fixed_response(ResponseKind::Blocked))
        } else {
            BeginView::Lookup { name: q.0, key: cache_key_of(q.0) }
        },
    }
}

/// The question that a routed query request asks, or why it has none.
pub open spec fn request_question(req: DohRequest) -> Result<(Seq<char>, u16, u16), ProxyError> {
    match route_of(req.method, req.path@) {
        Route::Query(m) => match wire_of(m, param_view(&req.dns_param), req.body@) {
            Err(e) => Err(e),
            Ok(w) => first_question(w),
        },
        _ => Err(ProxyError::Parse),
    }
}

/// The first step for a request.
pub open spec fn begin_spec(req: DohRequest, blocked: Set<Seq<char>>) -> BeginView {
    match route_of(req.method, req.path@) {
        Route::NotFound => BeginView::Done(fixed_response(ResponseKind::NotFound)),
        Route::MethodNotAllowed => BeginView::Done(fixed_response(ResponseKind::MethodNotAllowed)),
        Route::Query(_) => screen_spec(request_question(req), blocked),
    }
}

/// Screens a parsed question against the blocklist.
pub fn screen(question: Question, blocklist: &Blocklist) -> (r: Begin)
    ensures
        r@ == screen_spec(Ok((question.name@, question.qtype, question.qclass)), blocklist@),
{
    if blocklist.contains(&question.name) {
        Begin::Done(HttpResponse::fixed(ResponseKind::Blocked))
    } else {
        let key = cache_key(&question.name);
        Begin::Lookup(Pending { question, key })
    }
}

/// Parses a wire-format query and screens its first question.
pub fn begin_wire(wire: &[u8], blocklist: &Blocklist) -> (r: Begin)
    ensures
        r@ == screen_spec(first_question(wire@), blocklist@),
        wire@.len() < 12 ==> r@ == BeginView::Done(
            fixed_response(ResponseKind::Rejected(ProxyError::Parse)),
        ),
{
    match parse_query(wire) {
        Ok(q) => screen(q, blocklist),
        Err(e) => Begin::Done(HttpResponse::fixed(ResponseKind::Rejected(e))),
    }
}

/// The first step for a request: route, extract, parse, screen.
pub fn begin(req: &DohRequest, blocklist: &Blocklist) -> (r: Begin)
    ensures
        r@ == begin_spec(*req, blocklist@),
        route_of(req.method, req.path@) matches Route::Query(m) && wire_of(
            m,
            param_view(&req.dns_param),
            req.body@,
        ) matches Ok(w) && w.len() < 12 ==> r@ == BeginView::Done(
            fixed_response(ResponseKind::Rejected(ProxyError::Parse)),
        ),
{
    match route(req.method, req.path.as_str()) {
        Route::NotFound => Begin::Done(HttpResponse::fixed(ResponseKind::NotFound)),
        Route::MethodNotAllowed => Begin::Done(HttpResponse::fixed(ResponseKind::MethodNotAllowed)),
        Route::Query(m) => match extract_wire(m, &req.dns_param, &req.body) {
            Err(e) => Begin::Done(HttpResponse::fixed(ResponseKind::Rejected(e))),
            Ok(wire) => begin_wire(wire.as_slice(), blocklist),
        },
    }
}

/// What the cache store gave for a key.
pub enum CacheLookup {
    Hit(Vec<u8>),
    Miss,
    /// the store could not be read; treated as a miss
    Failed,
}

pub open spec fn cached_bytes(found: &CacheLookup) -> Option<Seq<u8>> {
    match found {
        CacheLookup::Hit(b) => Some(b@),
        _ => None,
    }
}

/// What follows a cache lookup.
pub enum AfterLookup {
    Done(HttpResponse),
    /// fetch this URL from the upstream resolver
    Fetch(String),
}

pub enum AfterLookupView {
    Done(ResponseView),
    Fetch(Seq<char>),
}

impl View for AfterLookup {
    type V = AfterLookupView;

    open spec fn view(&self) -> AfterLookupView {
        match self {
            AfterLookup::Done(r) => AfterLookupView::Done(r@),
            AfterLookup::Fetch(u) => AfterLookupView::Fetch(u@),
        }
    }
}

/// A hit is served as it is; otherwise the upstream is asked for the name.
pub open spec fn after_lookup_spec(name: Seq<char>, hit: Option<Seq<u8>>) -> AfterLookupView {
    match hit {
        Some(b) => AfterLookupView::Done(answer_response(b, true)),
        None => AfterLookupView::Fetch(upstream_url_of(name)),
    }
}

/// What the upstream resolver gave.
pub enum UpstreamReply {
    Received { status: u16, body: Vec<u8> },
    /// the call did not complete
    Failed,
}

pub open spec fn reply_view(reply: &UpstreamReply) -> Option<(u16, Seq<u8>)> {
    match reply {
        UpstreamReply::Received { status, body } => Some((*status, body@)),
        UpstreamReply::Failed => None,
    }
}

/// What follows the upstream call.
pub enum AfterFetch {
    /// offer the answer to the cache, then send `response`
    Store { key: String, bytes: Vec<u8>, ttl_secs: u64, response: HttpResponse },
    Done(HttpResponse),
}

pub enum AfterFetchView {
    Store { key: Seq<char>, bytes: Seq<u8>, ttl_secs: u64, response: ResponseView },
    Done(ResponseView),
}

impl View for AfterFetch {
    type V = AfterFetchView;

    open spec fn view(&self) -> AfterFetchView {
        match self {
            AfterFetch::Store { key, bytes, ttl_secs, response } => AfterFetchView::Store {
                key: key@,
                bytes: bytes@,
                ttl_secs: *ttl_secs,
                response: response@,
            },
            AfterFetch::Done(r) => AfterFetchView::Done(r@),
        }
    }
}

pub open spec fn is_success(status: u16) -> bool {
    200 <= status < 300
}

/// A success answer is stored and passed on unchanged; anything else fails
/// the request.
pub open spec fn after_fetch_spec(key: Seq<char>, reply: Option<(u16, Seq<u8>)>) -> AfterFetchView {
    match reply {
        Some((status, body)) => if is_success(status) {
            AfterFetchView::Store {
                key,
                bytes: body,
                ttl_secs: CACHE_TTL_SECS,
                response: answer_response(body, false),
            }
        } else {
            AfterFetchView::Done(fixed_response(ResponseKind::Rejected(ProxyError::Upstream)))
        },
        None => AfterFetchView::Done(fixed_response(ResponseKind::Rejected(ProxyError::Upstream))),
    }
}

impl Pending {
    /// Decides on the outcome of the cache lookup.
    pub fn on_lookup(&self, found: CacheLookup) -> (r: AfterLookup)
        ensures
            r@ == after_lookup_spec(self.question.name@, cached_bytes(&found)),
    {
        match found {
            CacheLookup::Hit(b) => AfterLookup::Done(HttpResponse::answer(b, true)),
            _ => AfterLookup::Fetch(upstream_url(&self.question.name)),
        }
    }

    /// Decides on the outcome of the upstream call.
    pub fn on_upstream(&self, reply: UpstreamReply) -> (r: AfterFetch)
        ensures
            r@ == after_fetch_spec(self.key@, reply_view(&reply)),
    {
        match reply {
            UpstreamReply::Received { status, body } => {
                if 200 <= status && status < 300 {
                    let response = HttpResponse::answer(body.clone(), false);
                    AfterFetch::Store { key: self.key.clone(), bytes: body, ttl_secs: CACHE_TTL_SECS, response }
                } else {
                    AfterFetch::Done(HttpResponse::fixed(ResponseKind::Rejected(ProxyError::Upstream)))
                }
            },
            UpstreamReply::Failed => AfterFetch::Done(
                HttpResponse::fixed(ResponseKind::Rejected(ProxyError::Upstream)),
            ),
        }
    }
}

} // verus!
