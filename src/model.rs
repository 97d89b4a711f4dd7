//! One request served end to end against an abstract cache store and
//! upstream resolver, and the laws that hold of it.
use vstd::prelude::*;
use crate::pipeline::{
    after_fetch_spec, after_lookup_spec, begin_spec, cache_key_of, is_success, request_question,
    upstream_url_of, AfterFetchView, AfterLookupView, BeginView, DohRequest,
};
use crate::query::{b64url_decoded, route_of, Method, QueryMethod, Route};
use crate::response::{answer_response, fixed_response, is_answer, ResponseKind, ResponseView};

verus! {

/// The outcome of serving one request: the response, the cache store after
/// it, and how many upstream calls were made.
pub struct Served {
    pub response: ResponseView,
    pub cache: Map<Seq<char>, Seq<u8>>,
    pub upstream_calls: nat,
}

/// What the cache store holds under `key`.
pub open spec fn lookup_in(cache: Map<Seq<char>, Seq<u8>>, key: Seq<char>) -> Option<Seq<u8>> {
    if cache.contains_key(key) {
        Some(cache[key])
    } else {
        None
    }
}

/// The store's get-or-set: the first value written under a key stays.
pub open spec fn get_or_set(cache: Map<Seq<char>, Seq<u8>>, key: Seq<char>, bytes: Seq<u8>) -> Map<
    Seq<char>,
    Seq<u8>,
> {
    if cache.contains_key(key) {
        cache
    } else {
        cache.insert(key, bytes)
    }
}

/// Runs the steps of the pipeline for `req`, with `cache` as the store's
/// content and `upstream` giving the upstream's reply (status and body, or
/// none on failure) for each URL.
pub open spec fn serve(
    req: DohRequest,
    blocked: Set<Seq<char>>,
    cache: Map<Seq<char>, Seq<u8>>,
    upstream: spec_fn(Seq<char>) -> Option<(u16, Seq<u8>)>,
) -> Served {
    match begin_spec(req, blocked) {
        BeginView::Done(r) => Served { response: r, cache, upstream_calls: 0 },
        BeginView::Lookup { name, key } => match after_lookup_spec(name, lookup_in(cache, key)) {
            AfterLookupView::Done(r) => Served { response: r, cache, upstream_calls: 0 },
            AfterLookupView::Fetch(url) => match after_fetch_spec(key, upstream(url)) {
                AfterFetchView::Done(r) => Served { response: r, cache, upstream_calls: 1 },
                AfterFetchView::Store { key, bytes, ttl_secs, response } => Served {
                    response,
                    cache: get_or_set(cache, key, bytes),
                    upstream_calls: 1,
                },
            },
        },
    }
}

/// A query for a name that is neither blocked nor cached makes exactly one
/// upstream call, for that name, and is answered with the bytes that the
/// upstream returned, which are then cached under the name's key.
pub proof fn uncached_name_gets_upstream_bytes(
    req: DohRequest,
    blocked: Set<Seq<char>>,
    cache: Map<Seq<char>, Seq<u8>>,
    upstream: spec_fn(Seq<char>) -> Option<(u16, Seq<u8>)>,
    name: Seq<char>,
    qtype: u16,
    qclass: u16,
    status: u16,
    answer: Seq<u8>,
)
    requires
        route_of(req.method, req.path@) is Query,
        request_question(req) == Ok::<(Seq<char>, u16, u16), crate::error::ProxyError>((name, qtype, qclass)),
        !blocked.contains(name),
        !cache.contains_key(cache_key_of(name)),
        upstream(upstream_url_of(name)) == Some((status, answer)),
        is_success(status),
    ensures
        serve(req, blocked, cache, upstream).response == answer_response(answer, false),
        serve(req, blocked, cache, upstream).upstream_calls == 1,
        serve(req, blocked, cache, upstream).cache == cache.insert(cache_key_of(name), answer),
{
}

/// A query for a blocked name is answered as blocked, with no upstream call
/// and the cache untouched, whatever the cache and the upstream hold.
pub proof fn blocked_name_never_goes_upstream(
    req: DohRequest,
    blocked: Set<Seq<char>>,
    cache: Map<Seq<char>, Seq<u8>>,
    upstream: spec_fn(Seq<char>) -> Option<(u16, Seq<u8>)>,
    name: Seq<char>,
    qtype: u16,
    qclass: u16,
)
    requires
        route_of(req.method, req.path@) is Query,
        request_question(req) == Ok::<(Seq<char>, u16, u16), crate::error::ProxyError>((name, qtype, qclass)),
        blocked.contains(name),
    ensures
        serve(req, blocked, cache, upstream).response == fixed_response(ResponseKind::Blocked),
        serve(req, blocked, cache, upstream).upstream_calls == 0,
        serve(req, blocked, cache, upstream).cache == cache,
{
}

/// A GET whose `dns` parameter decodes to the body of a POST on the same
/// path is the same query: both are served alike, against any cache and
/// upstream.
pub proof fn get_and_post_are_the_same_query(
    get: DohRequest,
    post: DohRequest,
    blocked: Set<Seq<char>>,
    cache: Map<Seq<char>, Seq<u8>>,
    upstream: spec_fn(Seq<char>) -> Option<(u16, Seq<u8>)>,
)
    requires
        get.method == Method::Get,
        post.method == Method::Post,
        get.path@ == post.path@,
        get.dns_param matches Some(p) && b64url_decoded(p@) == Some(post.body@),
    ensures
        request_question(get) == request_question(post),
        serve(get, blocked, cache, upstream) == serve(post, blocked, cache, upstream),
{
}

/// Serving a query a second time, against the cache as the first left it,
/// gives the same body with no upstream call and leaves the cache as it
/// was, provided the first was answered.
pub proof fn repeated_query_is_served_from_cache(
    req: DohRequest,
    blocked: Set<Seq<char>>,
    cache: Map<Seq<char>, Seq<u8>>,
    upstream: spec_fn(Seq<char>) -> Option<(u16, Seq<u8>)>,
)
    requires
        is_answer(serve(req, blocked, cache, upstream).response.kind),
    ensures
        ({
            let first = serve(req, blocked, cache, upstream);
            let second = serve(req, blocked, first.cache, upstream);
            &&& second.response.body == first.response.body
            &&& second.response.kind == ResponseKind::CachedAnswer
            &&& second.upstream_calls == 0
            &&& second.cache == first.cache
        }),
{
}

} // verus!
