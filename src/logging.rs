//! Structured log events: what is logged at each step, and the event that
//! the host serialises and emits.
use vstd::prelude::*;
use crate::decimal::{parse_u32, parsed_u32};
use crate::error::ProxyError;
use crate::response::ResponseKind;

verus! {

/// Severity of a log event.
#[derive(Debug, Clone, Copy, PartialEq, Eq, Structural)]
pub enum Level {
    Info,
    Warn,
    Error,
}

pub open spec fn level_text(l: Level) -> Seq<char> {
    match l {
        Level::Info => "INFO"@,
        Level::Warn => "WARN"@,
        Level::Error => "ERROR"@,
    }
}

impl Level {
    /// The level as it appears in an event.
    pub fn as_str(&self) -> (r: &'static str)
        ensures
            r@ == level_text(*self),
    {
        match self {
            Level::Info => "INFO",
            Level::Warn => "WARN",
            Level::Error => "ERROR",
        }
    }
}

/// The notable steps of the pipeline.
#[derive(Debug, Clone, Copy, PartialEq, Eq, Structural)]
pub enum Note {
    IncomingRequest,
    Blocked,
    ServedFromCache,
    CacheLookupFailed,
    SentUpstream,
    UpstreamResponded,
    StoredInCache,
    CacheStoreFailed,
    SentResponse,
    UnknownPath,
    MethodRefused,
    MalformedQuery,
    UpstreamFailed,
    InternalFailure,
}

pub open spec fn note_level(n: Note) -> Level {
    match n {
        Note::CacheLookupFailed | Note::CacheStoreFailed | Note::UnknownPath
        | Note::MethodRefused => Level::Warn,
        Note::MalformedQuery | Note::UpstreamFailed | Note::InternalFailure => Level::Error,
        _ => Level::Info,
    }
}

pub open spec fn note_text(n: Note) -> Seq<char> {
    match n {
        Note::IncomingRequest => "Incoming DNS Request"@,
        Note::Blocked => "Blocked request"@,
        Note::ServedFromCache => "Sent URL from Cache"@,
        Note::CacheLookupFailed => "Error reading URL from Cache"@,
        Note::SentUpstream => "Request sent upstream"@,
        Note::UpstreamResponded => "Response from upstream"@,
        Note::StoredInCache => "Stored URL Into Cache"@,
        Note::CacheStoreFailed => "Error Storing URL into Cache"@,
        Note::SentResponse => "Sent Response to User"@,
        Note::UnknownPath => "bad url"@,
        Note::MethodRefused => "bad request method"@,
        Note::MalformedQuery => "Malformed DNS query"@,
        Note::UpstreamFailed => "Upstream resolver failed"@,
        Note::InternalFailure => "Internal failure"@,
    }
}

impl Note {
    pub fn level(&self) -> (r: Level)
        ensures
            r == note_level(*self),
    {
        match self {
            Note::CacheLookupFailed | Note::CacheStoreFailed | Note::UnknownPath
            | Note::MethodRefused => Level::Warn,
            Note::MalformedQuery | Note::UpstreamFailed | Note::InternalFailure => Level::Error,
            _ => Level::Info,
        }
    }

    pub fn message(&self) -> (r: &'static str)
        ensures
            r@ == note_text(*self),
    {
        match self {
            Note::IncomingRequest => "Incoming DNS Request",
            Note::Blocked => "Blocked request",
            Note::ServedFromCache => "Sent URL from Cache",
            Note::CacheLookupFailed => "Error reading URL from Cache",
            Note::SentUpstream => "Request sent upstream",
            Note::UpstreamResponded => "Response from upstream",
            Note::StoredInCache => "Stored URL Into Cache",
            Note::CacheStoreFailed => "Error Storing URL into Cache",
            Note::SentResponse => "Sent Response to User",
            Note::UnknownPath => "bad url",
            Note::MethodRefused => "bad request method",
            Note::MalformedQuery => "Malformed DNS query",
            Note::UpstreamFailed => "Upstream resolver failed",
            Note::InternalFailure => "Internal failure",
        }
    }
}

/// The one note that describes how a request ended.
pub open spec fn outcome_note_of(kind: ResponseKind) -> Note {
    match kind {
        ResponseKind::Answer => Note::SentResponse,
        ResponseKind::CachedAnswer => Note::ServedFromCache,
        ResponseKind::Blocked => Note::Blocked,
        ResponseKind::NotFound => Note::UnknownPath,
        ResponseKind::MethodNotAllowed => Note::MethodRefused,
        ResponseKind::Rejected(e) => match e {
            ProxyError::Decode | ProxyError::Parse => Note::MalformedQuery,
            ProxyError::Upstream => Note::UpstreamFailed,
            _ => Note::InternalFailure,
        },
    }
}

/// The note that describes how a request with this response ended.
pub fn outcome_note(kind: ResponseKind) -> (r: Note)
    ensures
        r == outcome_note_of(kind),
{
    match kind {
        ResponseKind::Answer => Note::SentResponse,
        ResponseKind::CachedAnswer => Note::ServedFromCache,
        ResponseKind::Blocked => Note::Blocked,
        ResponseKind::NotFound => Note::UnknownPath,
        ResponseKind::MethodNotAllowed => Note::MethodRefused,
        ResponseKind::Rejected(e) => match e {
            ProxyError::Decode | ProxyError::Parse => Note::MalformedQuery,
            ProxyError::Upstream => Note::UpstreamFailed,
            _ => Note::InternalFailure,
        },
    }
}

/// The service version that a version text gives: its number, or 0 when it
/// does not parse.
pub open spec fn service_version_of(text: Seq<char>) -> u32 {
    match parsed_u32(text) {
        Some(v) => v,
        None => 0,
    }
}

/// One structured log event.
#[derive(Debug, Clone)]
pub struct LogEvent {
    /// RFC 3339 timestamp
    pub time: String,
    pub trace_id: String,
    pub level: Level,
    pub service_version: u32,
    pub message: String,
    /// extra fields, flattened into the event; none are written when empty
    pub context: Vec<(String, String)>,
}

impl LogEvent {
    /// Composes the event for `note` from what the host read: the time, the
    /// trace identifier and the service version text.
    pub fn compose(
        time: String,
        trace_id: String,
        version_text: &str,
        note: Note,
        context: Vec<(String, String)>,
    ) -> (r: LogEvent)
        ensures
            r.time@ == time@,
            r.trace_id@ == trace_id@,
            r.level == note_level(note),
            r.service_version == service_version_of(version_text@),
            r.message@ == note_text(note),
            r.context@ == context@,
    {
        let service_version = match parse_u32(version_text) {
            Some(v) => v,
            None => 0,
        };
        LogEvent {
            time,
            trace_id,
            level: note.level(),
            service_version,
            message: String::from_str(note.message()),
            context,
        }
    }

    /// Whether the context fields are written at all.
    pub fn has_context(&self) -> (r: bool)
        ensures
            r == (self.context@.len() > 0),
    {
        self.context.len() > 0
    }
}

} // verus!
