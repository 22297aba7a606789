//! Fetch a remote file and store a copy in an object-storage bucket.
//!
//! The flow is a state machine: each state names the one piece of outside
//! work the caller performs next, and the caller reports the outcome back as
//! an `Event`. Every failure ends the flow with a message; a finished flow
//! ignores further events.
use vstd::prelude::*;
use crate::keys::{is_hyphenated_uuid, mime_subtype_of, new_object_key, object_key_of};

verus! {

/// Where stored objects live, and how their public URL is formed.
#[derive(Debug, Clone, PartialEq, Eq)]
pub struct StorageConfig {
    /// The bucket that receives the objects.
    pub bucket: String,
    /// An explicit public base URL; without it the URL is derived from the
    /// bucket name.
    pub public_base: Option<String>,
}

/// The outcome reported to the caller of an upload.
#[derive(Debug, Clone, PartialEq, Eq)]
pub enum UploadResult {
    /// The copy is stored and reachable at `file_url`.
    Uploaded { file_url: String },
    /// Nothing usable was stored; `message` says why.
    Failed { message: String },
}

/// Where a republish flow stands, and the outside work it waits for.
#[derive(Debug, Clone, PartialEq, Eq)]
pub enum Republish {
    /// Issue one HTTP GET to `url`.
    Fetch { url: String },
    /// The response was a success: read its whole body.
    ReadBody { url: String },
    /// Write `body` to the bucket under `key`, in one put.
    Store { key: String, body: Vec<u8> },
    /// The flow is over.
    Done { result: UploadResult },
}

/// What the outside work reported.
#[derive(Debug, Clone, PartialEq, Eq)]
pub enum Event {
    /// The server answered with this HTTP status code.
    Responded { status: u16 },
    /// The response body, in full.
    Received { body: Vec<u8> },
    /// The storage put succeeded.
    Stored,
    /// The outside work failed, with this message.
    Failed { message: String },
}

pub open spec fn has_http_prefix_spec(s: Seq<char>) -> bool {
    s.len() >= 4 && s.subrange(0, 4) == "http"@
}

/// A status code in the 2xx range.
pub open spec fn is_success_status_spec(status: u16) -> bool {
    200 <= status && status < 300
}

pub open spec fn invalid_url_message() -> Seq<char> {
    "Invalid URL"@
}

pub open spec fn download_failed_message() -> Seq<char> {
    "Failed to download file"@
}

/// The public URL of the object stored under `key`.
pub open spec fn public_url_of(config: StorageConfig, key: Seq<char>) -> Seq<char> {
    match config.public_base {
        Some(base) => base@ + "/"@ + key,
        None => "https://"@ + config.bucket@ + ".s3.amazonaws.com/"@ + key,
    }
}

/// `r` ends the flow with a failure carrying `message`.
pub open spec fn fails_with(r: Republish, message: Seq<char>) -> bool {
    r matches Republish::Done { result: UploadResult::Failed { message: m } } && m@ == message
}

/// `r` ends the flow with success at `file_url`.
pub open spec fn succeeds_at(r: Republish, file_url: Seq<char>) -> bool {
    r matches Republish::Done { result: UploadResult::Uploaded { file_url: u } } && u@ == file_url
}

/// `r` stores `body` under a fresh key whose extension is guessed from `url`.
pub open spec fn stores_copy(r: Republish, url: Seq<char>, body: Seq<u8>) -> bool {
    &&& r matches Republish::Store { key, body: b }
    &&& b@ == body
    &&& exists|id: Seq<char>|
        is_hyphenated_uuid(id) && key@ == object_key_of(id, mime_subtype_of(url))
}

/// The first state of a flow for the caller-supplied `url`.
pub open spec fn starts(url: Seq<char>, r: Republish) -> bool {
    if has_http_prefix_spec(url) {
        r matches Republish::Fetch { url: u } && u@ == url
    } else {
        fails_with(r, invalid_url_message())
    }
}

/// `t` is a state that may follow `s` once `e` is reported.
pub open spec fn advances(s: Republish, e: Event, config: StorageConfig, t: Republish) -> bool {
    match s {
        Republish::Done { .. } => t == s,
        _ => match e {
            Event::Failed { message } => fails_with(t, message@),
            Event::Responded { status } => match s {
                Republish::Fetch { url } => if is_success_status_spec(status) {
                    t matches Republish::ReadBody { url: u } && u@ == url@
                } else {
                    fails_with(t, download_failed_message())
                },
                _ => t == s,
            },
            Event::Received { body } => match s {
                Republish::ReadBody { url } => stores_copy(t, url@, body@),
                _ => t == s,
            },
            Event::Stored => match s {
                Republish::Store { key, .. } => succeeds_at(t, public_url_of(config, key@)),
                _ => t == s,
            },
        },
    }
}

/// Whether `url` begins with the HTTP scheme prefix `http`. Nothing else of
/// the URL is checked.
pub fn has_http_prefix(url: &str) -> (r: bool)
    ensures
        r == has_http_prefix_spec(url@),
{
    proof {
        reveal_strlit("http");
    }
    if url.unicode_len() < 4 {
        return false;
    }
    let r = url.get_char(0) == 'h' && url.get_char(1) == 't' && url.get_char(2) == 't'
        && url.get_char(3) == 'p';
    let ghost head = url@.subrange(0, 4);
    assert(r ==> head =~= "http"@);
    assert(head == "http"@ ==> head[0] == 'h' && head[1] == 't' && head[2] == 't' && head[3]
        == 'p');
    r
}

/// Whether an HTTP status code reports success.
pub fn is_success_status(status: u16) -> (r: bool)
    ensures
        r == is_success_status_spec(status),
{
    200 <= status && status < 300
}

/// The public URL of the object stored under `key`: the configured base and
/// the key, or else a URL derived from the bucket name.
pub fn public_url(config: &StorageConfig, key: &str) -> (r: String)
    ensures
        r@ == public_url_of(*config, key@),
{
    match &config.public_base {
        Some(base) => {
            let mut r = base.clone();
            r.append("/");
            r.append(key);
            r
        },
        None => {
            let mut r = String::from_str("https://");
            r.append(config.bucket.as_str());
            r.append(".s3.amazonaws.com/");
            r.append(key);
            r
        },
    }
}

fn failure(message: String) -> (r: Republish)
    ensures
        fails_with(r, message@),
{
    Republish::Done { result: UploadResult::Failed { message } }
}

/// Begins a flow for `url`. A URL without the HTTP prefix ends the flow at
/// once with "Invalid URL", before any network work; any other goes on to
/// the fetch.
pub fn start(url: String) -> (r: Republish)
    ensures
        starts(url@, r),
{
    if has_http_prefix(url.as_str()) {
        Republish::Fetch { url }
    } else {
        failure(String::from_str("Invalid URL"))
    }
}

/// The state that follows `state` once `event` is reported.
///
/// A failure ends the flow with its message. A response whose status is not
/// a success ends it with "Failed to download file"; a successful one leads
/// to reading the body. The body leads to storing exactly those bytes under
/// a fresh key, and a completed put ends the flow with the object's public
/// URL. An event the state does not wait for changes nothing, and a finished
/// flow stays as it is.
pub fn advance(state: Republish, event: Event, config: &StorageConfig) -> (r: Republish)
    ensures
        advances(state, event, *config, r),
{
    match state {
        Republish::Done { result } => Republish::Done { result },
        Republish::Fetch { url } => match event {
            Event::Failed { message } => failure(message),
            Event::Responded { status } => {
                if is_success_status(status) {
                    Republish::ReadBody { url }
                } else {
                    failure(String::from_str("Failed to download file"))
                }
            },
            _ => Republish::Fetch { url },
        },
        Republish::ReadBody { url } => match event {
            Event::Failed { message } => failure(message),
            Event::Received { body } => {
                let key = new_object_key(url.as_str());
                Republish::Store { key, body }
            },
            _ => Republish::ReadBody { url },
        },
        Republish::Store { key, body } => match event {
            Event::Failed { message } => failure(message),
            Event::Stored => {
                let file_url = public_url(config, key.as_str());
                Republish::Done { result: UploadResult::Uploaded { file_url } }
            },
            _ => Republish::Store { key, body },
        },
    }
}

/// A URL with the HTTP prefix, answered with a success status and then with
/// the bytes `body`, leads to a put of exactly those bytes; once the put
/// completes, the flow succeeds.
pub proof fn lemma_fetched_bytes_are_stored_exactly(
    url: Seq<char>,
    status: u16,
    body: Vec<u8>,
    config: StorageConfig,
    s0: Republish,
    s1: Republish,
    s2: Republish,
    s3: Republish,
)
    requires
        has_http_prefix_spec(url),
        is_success_status_spec(status),
        starts(url, s0),
        advances(s0, Event::Responded { status }, config, s1),
        advances(s1, Event::Received { body }, config, s2),
        advances(s2, Event::Stored, config, s3),
    ensures
        stores_copy(s2, url, body@),
        s3 matches Republish::Done { result: UploadResult::Uploaded { .. } },
        s2 matches Republish::Store { key, .. } && succeeds_at(s3, public_url_of(config, key@)),
{
}

/// A finished flow stays finished: no later event leads to a fetch or a put.
pub proof fn lemma_finished_flow_stays_finished(
    events: Seq<Event>,
    config: StorageConfig,
    states: Seq<Republish>,
)
    requires
        states.len() == events.len() + 1,
        states[0] is Done,
        forall|i: int| 0 <= i < events.len() ==> advances(states[i], events[i], config, #[trigger] states[i + 1]),
    ensures
        forall|i: int| 0 <= i < states.len() ==> #[trigger] states[i] == states[0],
    decreases events.len(),
{
    if events.len() > 0 {
        let rest_events = events.drop_last();
        let rest_states = states.drop_last();
        assert forall|i: int| 0 <= i < rest_events.len() implies advances(rest_states[i], rest_events[i], config, #[trigger] rest_states[i + 1]) by {
            assert(states[i + 1] == rest_states[i + 1]);
        }
        lemma_finished_flow_stays_finished(rest_events, config, rest_states);
        let n = events.len() - 1;
        assert(states[n] == rest_states[n]);
        assert(advances(states[n], events[n], config, states[n + 1]));
        assert forall|i: int| 0 <= i < states.len() implies #[trigger] states[i] == states[0] by {
            if i < states.len() - 1 {
                assert(states[i] == rest_states[i]);
            }
        }
    }
}

/// A response with a status that is not a success ends the flow with
/// "Failed to download file", and whatever is reported afterwards, nothing
/// is ever written to storage.
pub proof fn lemma_failed_download_stores_nothing(
    url: Seq<char>,
    status: u16,
    later: Seq<Event>,
    config: StorageConfig,
    s0: Republish,
    states: Seq<Republish>,
)
    requires
        has_http_prefix_spec(url),
        !is_success_status_spec(status),
        starts(url, s0),
        states.len() == later.len() + 1,
        advances(s0, Event::Responded { status }, config, states[0]),
        forall|i: int| 0 <= i < later.len() ==> advances(states[i], later[i], config, #[trigger] states[i + 1]),
    ensures
        fails_with(states[0], download_failed_message()),
        forall|i: int| 0 <= i < states.len() ==> !(#[trigger] states[i] is Store),
{
    lemma_finished_flow_stays_finished(later, config, states);
}

/// A URL without the HTTP prefix ends the flow with "Invalid URL" at once,
/// and whatever is reported afterwards, no fetch, read or put is ever asked
/// for.
pub proof fn lemma_invalid_url_makes_no_call(
    url: Seq<char>,
    later: Seq<Event>,
    config: StorageConfig,
    states: Seq<Republish>,
)
    requires
        !has_http_prefix_spec(url),
        starts(url, states[0]),
        states.len() == later.len() + 1,
        forall|i: int| 0 <= i < later.len() ==> advances(states[i], later[i], config, #[trigger] states[i + 1]),
    ensures
        forall|i: int| 0 <= i < states.len() ==> fails_with(#[trigger] states[i], invalid_url_message()),
{
    lemma_finished_flow_stays_finished(later, config, states);
}

} // verus!
