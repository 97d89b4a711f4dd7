use base64::Engine;
use doh_filter::blocklist::Blocklist;
use doh_filter::error::ProxyError;
use doh_filter::logging::{outcome_note, Level, Note};
use doh_filter::pipeline::{
    begin, cache_key, AfterFetch, AfterLookup, Begin, CacheLookup, DohRequest, Pending,
    UpstreamReply, CACHE_TTL_SECS,
};
use doh_filter::query::Method;
use doh_filter::response::{HttpResponse, ResponseKind, NOT_FOUND_PAGE};
use std::collections::HashMap;

fn query_for(labels: &[&str]) -> Vec<u8> {
    let mut q = vec![0x12, 0x34, 0x01, 0x00, 0x00, 0x01, 0x00, 0x00, 0x00, 0x00, 0x00, 0x00];
    for l in labels {
        q.push(l.len() as u8);
        q.extend_from_slice(l.as_bytes());
    }
    q.push(0);
    q.extend_from_slice(&[0x00, 0x01, 0x00, 0x01]);
    q
}

fn get_request(path: &str, wire: &[u8]) -> DohRequest {
    DohRequest {
        method: Method::Get,
        path: path.to_string(),
        dns_param: Some(base64::engine::general_purpose::URL_SAFE_NO_PAD.encode(wire)),
        body: Vec::new(),
    }
}

fn post_request(path: &str, body: Vec<u8>) -> DohRequest {
    DohRequest { method: Method::Post, path: path.to_string(), dns_param: None, body }
}

fn empty_blocklist() -> Blocklist {
    Blocklist::from_json(b"[]").unwrap()
}

/// Serves a request against a simulated cache store and upstream, returning
/// the response and the number of upstream calls.
fn serve(
    req: &DohRequest,
    blocklist: &Blocklist,
    cache: &mut HashMap<String, Vec<u8>>,
    upstream: &dyn Fn(&str) -> UpstreamReply,
) -> (HttpResponse, usize) {
    let pending: Pending = match begin(req, blocklist) {
        Begin::Done(r) => return (r, 0),
        Begin::Lookup(p) => p,
    };
    let found = match cache.get(&pending.key) {
        Some(b) => CacheLookup::Hit(b.clone()),
        None => CacheLookup::Miss,
    };
    let url = match pending.on_lookup(found) {
        AfterLookup::Done(r) => return (r, 0),
        AfterLookup::Fetch(u) => u,
    };
    match pending.on_upstream(upstream(&url)) {
        AfterFetch::Done(r) => (r, 1),
        AfterFetch::Store { key, bytes, ttl_secs, response } => {
            assert_eq!(ttl_secs, CACHE_TTL_SECS);
            cache.entry(key).or_insert(bytes);
            (response, 1)
        }
    }
}

fn answer_bytes() -> Vec<u8> {
    let mut a = query_for(&["example", "com"]);
    a[2] = 0x81;
    a[3] = 0x80;
    a.extend_from_slice(&[0xc0, 0x0c, 0, 1, 0, 1, 0, 0, 0x0e, 0x10, 0, 4, 93, 184, 216, 34]);
    a
}

fn header<'a>(r: &'a [(String, String)], name: &str) -> Option<&'a str> {
    r.iter().find(|(k, _)| k == name).map(|(_, v)| v.as_str())
}

#[test]
fn get_query_goes_upstream_once_and_fills_cache() {
    let req = get_request("/dns-query", &query_for(&["example", "com"]));
    let mut cache = HashMap::new();
    let answer = answer_bytes();
    let calls = std::cell::Cell::new(0);
    let up = |url: &str| {
        calls.set(calls.get() + 1);
        assert_eq!(url, "https://dns.google/resolve?name=example.com.&ct=application/dns-message");
        UpstreamReply::Received { status: 200, body: answer_bytes() }
    };
    let (r, n) = serve(&req, &empty_blocklist(), &mut cache, &up);
    assert_eq!(n, 1);
    assert_eq!(calls.get(), 1);
    assert_eq!(r.status(), 200);
    assert_eq!(r.kind, ResponseKind::Answer);
    assert_eq!(r.body, answer);
    assert_eq!(cache.get(&cache_key(&"example.com.".to_string())), Some(&answer));
    let h = r.headers();
    assert_eq!(header(&h, "Content-Type"), Some("application/dns-message"));
    assert_eq!(header(&h, "Cache-Control"), Some("max-age=3709"));
    assert_eq!(header(&h, "Content-Length"), Some(answer.len().to_string().as_str()));
}

#[test]
fn repeated_query_is_a_cache_hit() {
    let req = get_request("/dns-query", &query_for(&["example", "com"]));
    let mut cache = HashMap::new();
    let calls = std::cell::Cell::new(0);
    let up = |_: &str| {
        calls.set(calls.get() + 1);
        UpstreamReply::Received { status: 200, body: answer_bytes() }
    };
    let bl = empty_blocklist();
    let (first, n1) = serve(&req, &bl, &mut cache, &up);
    let (second, n2) = serve(&req, &bl, &mut cache, &up);
    assert_eq!(n1, 1);
    assert_eq!(n2, 0);
    assert_eq!(calls.get(), 1);
    assert_eq!(second.status(), 200);
    assert_eq!(second.kind, ResponseKind::CachedAnswer);
    assert_eq!(second.body, first.body);
    assert_eq!(header(&second.headers(), "Cache-Control"), Some("max-age=3709"));
}

#[test]
fn blocked_name_gets_teapot() {
    let bl = Blocklist::from_json(br#"["ads.example.net.", "example.com."]"#).unwrap();
    let req = get_request("/dns-query", &query_for(&["example", "com"]));
    let mut cache = HashMap::new();
    let up = |_: &str| -> UpstreamReply { panic!("no upstream call for a blocked name") };
    let (r, n) = serve(&req, &bl, &mut cache, &up);
    assert_eq!(n, 0);
    assert_eq!(r.status(), 418);
    assert_eq!(r.kind, ResponseKind::Blocked);
    let h = r.headers();
    assert_eq!(header(&h, "Content-Type"), Some("BLOCKED"));
    assert_eq!(header(&h, "Cache-Control"), Some("max-age=0"));
    assert_eq!(header(&h, "Content-Length"), Some("0"));
    assert!(cache.is_empty());
    assert_eq!(outcome_note(r.kind), Note::Blocked);
}

#[test]
fn blocklist_matches_exact_names_only() {
    let bl = Blocklist::from_json(br#"["example.com."]"#).unwrap();
    assert!(bl.contains(&"example.com.".to_string()));
    assert!(!bl.contains(&"www.example.com.".to_string()));
    assert!(!bl.contains(&"example.com".to_string()));
    let req = post_request("/dns-query", query_for(&["www", "example", "com"]));
    match begin(&req, &bl) {
        Begin::Lookup(p) => assert_eq!(p.question.name, "www.example.com."),
        Begin::Done(_) => panic!("a subdomain is not blocked"),
    }
}

#[test]
fn short_post_body_is_a_client_error() {
    let req = post_request("/dns-query", vec![0x12, 0x34, 0x01]);
    let mut cache = HashMap::new();
    let up = |_: &str| -> UpstreamReply { panic!("no upstream call for a malformed query") };
    let (r, n) = serve(&req, &empty_blocklist(), &mut cache, &up);
    assert_eq!(n, 0);
    assert_eq!(r.status(), 400);
    assert_eq!(r.kind, ResponseKind::Rejected(ProxyError::Parse));
    let note = outcome_note(r.kind);
    assert_eq!(note, Note::MalformedQuery);
    assert_eq!(note.level(), Level::Error);
}

#[test]
fn empty_and_truncated_bodies_are_rejected() {
    let bl = empty_blocklist();
    let full = query_for(&["example", "com"]);
    for body in [Vec::new(), full[..11].to_vec(), full[..20].to_vec(), full[..full.len() - 2].to_vec()] {
        match begin(&post_request("/dns-query", body), &bl) {
            Begin::Done(r) => {
                assert_eq!(r.kind, ResponseKind::Rejected(ProxyError::Parse));
                assert_eq!(r.status(), 400);
            }
            Begin::Lookup(_) => panic!("a truncated message has no question"),
        }
    }
}

#[test]
fn message_without_questions_is_rejected() {
    let header_only = vec![0x12, 0x34, 0x01, 0x00, 0, 0, 0, 0, 0, 0, 0, 0];
    match begin(&post_request("/dns-query", header_only), &empty_blocklist()) {
        Begin::Done(r) => assert_eq!(r.kind, ResponseKind::Rejected(ProxyError::Parse)),
        Begin::Lookup(_) => panic!("no question to resolve"),
    }
}

#[test]
fn unknown_path_is_not_found() {
    let req = DohRequest { method: Method::Get, path: "/unknown-path".to_string(), dns_param: None, body: Vec::new() };
    match begin(&req, &empty_blocklist()) {
        Begin::Done(r) => {
            assert_eq!(r.status(), 404);
            assert_eq!(r.body, NOT_FOUND_PAGE.as_bytes());
            assert_eq!(header(&r.headers(), "Content-Type"), Some("text/html; charset=utf-8"));
        }
        Begin::Lookup(_) => panic!("not a query path"),
    }
}

#[test]
fn put_is_method_not_allowed() {
    let req = DohRequest { method: Method::Other, path: "/dns-query".to_string(), dns_param: None, body: Vec::new() };
    match begin(&req, &empty_blocklist()) {
        Begin::Done(r) => {
            assert_eq!(r.status(), 405);
            assert_eq!(header(&r.headers(), "Allow"), Some("GET, POST"));
            assert_eq!(r.body, b"This method is not allowed\n");
        }
        Begin::Lookup(_) => panic!("PUT is refused"),
    }
}

#[test]
fn get_and_post_carry_the_same_query() {
    let wire = query_for(&["example", "org"]);
    let bl = empty_blocklist();
    let g = begin(&get_request("/dns-query", &wire), &bl);
    let p = begin(&post_request("/dns-query", wire.clone()), &bl);
    match (g, p) {
        (Begin::Lookup(a), Begin::Lookup(b)) => {
            assert_eq!(a.question.name, "example.org.");
            assert_eq!(a.question.name, b.question.name);
            assert_eq!(a.question.qtype, 1);
            assert_eq!(a.question.qclass, 1);
            assert_eq!(a.key, b.key);
        }
        _ => panic!("both carry a valid query"),
    }
}

#[test]
fn missing_or_bad_dns_parameter_is_a_decode_error() {
    let bl = empty_blocklist();
    let missing = DohRequest { method: Method::Get, path: "/dns-query".to_string(), dns_param: None, body: Vec::new() };
    let bad = DohRequest { dns_param: Some("not base64!".to_string()), ..missing.clone() };
    let padded = DohRequest { dns_param: Some("AAAA==".to_string()), ..missing.clone() };
    for req in [missing, bad, padded] {
        match begin(&req, &bl) {
            Begin::Done(r) => {
                assert_eq!(r.kind, ResponseKind::Rejected(ProxyError::Decode));
                assert_eq!(r.status(), 400);
            }
            Begin::Lookup(_) => panic!("no query to resolve"),
        }
    }
}

#[test]
fn upstream_failure_is_a_server_error() {
    let bl = empty_blocklist();
    let req = post_request("/dns-query", query_for(&["example", "com"]));
    let mut cache = HashMap::new();
    let (r, n) = serve(&req, &bl, &mut cache, &|_: &str| UpstreamReply::Received { status: 503, body: vec![1, 2] });
    assert_eq!(n, 1);
    assert_eq!(r.status(), 502);
    assert_eq!(r.kind, ResponseKind::Rejected(ProxyError::Upstream));
    assert!(cache.is_empty());
    let (r, _) = serve(&req, &bl, &mut cache, &|_: &str| UpstreamReply::Failed);
    assert_eq!(r.status(), 502);
    assert_eq!(outcome_note(r.kind), Note::UpstreamFailed);
}

#[test]
fn failed_cache_read_falls_through_to_upstream() {
    let req = post_request("/dns-query", query_for(&["example", "com"]));
    let pending = match begin(&req, &empty_blocklist()) {
        Begin::Lookup(p) => p,
        Begin::Done(_) => panic!("a valid query"),
    };
    match pending.on_lookup(CacheLookup::Failed) {
        AfterLookup::Fetch(url) => assert_eq!(url, "https://dns.google/resolve?name=example.com.&ct=application/dns-message"),
        AfterLookup::Done(_) => panic!("a failed read is a miss"),
    }
}
