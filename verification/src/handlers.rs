//! The two request handlers: create and redirect.
//!
//! Each handler is a single linear pipeline over the capability set, with an
//! explicit failure exit at every step.  Outcomes are client-visible pairs of
//! an HTTP-style status and a message or body; capability failures are mapped
//! through the error taxonomy and propagated unmodified.

use vstd::prelude::*;

use crate::database::error::{database_error_message, database_error_status};
use crate::database::{Database, DatabaseError};
use crate::key_generator::KeyGenerationService;
use crate::state::AppState;
use crate::task_sender::TaskSender;
use crate::visit::{task_encoding, VisitEvent};

verus! {

/// The maximum size of a create request body, in bytes.
pub const MAX_PAYLOAD_SIZE: usize = 5 * 1024;

/// What the create request body decodes to: the string value of the `url`
/// member when the body is a JSON object carrying one, nothing otherwise.
pub uninterp spec fn url_field_of(body: Seq<u8>) -> Option<Seq<char>>;

/// Relies on serde_json::from_slice to parse the body as a JSON document and
/// on serde_json::Map::get to read its `url` member; the result is a function
/// of the bytes alone.
#[verifier::external_body]
fn parse_url_field(body: &Vec<u8>) -> (r: Option<String>)
    ensures
        r matches Some(u) ==> url_field_of(body@) == Some(u@),
        r is None ==> url_field_of(body@) is None,
{
    match serde_json::from_slice::<serde_json::Value>(body.as_slice()) {
        Ok(serde_json::Value::Object(members)) => match members.get("url") {
            Some(serde_json::Value::String(url)) => Some(url.clone()),
            _ => None,
        },
        _ => None,
    }
}

/// Relies on std::time::SystemTime::now and the Duration accessors: the
/// moment of the call as seconds and sub-second nanoseconds since the Unix
/// epoch (zero if the clock reads earlier than the epoch); the nanosecond
/// part is below one billion.
#[verifier::external_body]
fn now_since_epoch() -> (r: (u64, u32))
    ensures
        r.1 < 1_000_000_000,
{
    let elapsed = std::time::SystemTime::now().duration_since(
        std::time::SystemTime::UNIX_EPOCH,
    ).unwrap_or_default();
    (elapsed.as_secs(), elapsed.subsec_nanos())
}

/// The first step of the create pipeline: bounds the body's size and decodes
/// its `url` member.
///
/// A body over the cap or one that does not decode is rejected with status
/// 400, and only such a body is; an accepted body yields exactly the URL it
/// carries.
pub fn parse_create_body(body: &Vec<u8>) -> (r: Result<String, (u16, String)>)
    ensures
        r is Err <==> body@.len() > MAX_PAYLOAD_SIZE || url_field_of(body@) is None,
        r matches Err(e) ==> e.0 == 400,
        r matches Ok(u) ==> url_field_of(body@) == Some(u@),
{
    if body.len() > MAX_PAYLOAD_SIZE {
        return Err((400, String::from_str("request body too large")));
    }
    match parse_url_field(body) {
        Some(u) => Ok(u),
        None => Err((400, String::from_str("malformed request body"))),
    }
}

/// Builds the visit event for a redirect that was just served: the followed
/// key, stamped with the current time.
pub fn visit_event_now(url_key: &String) -> (r: VisitEvent)
    ensures
        r.tag@ == url_key@,
        0 <= r.nanos < 1_000_000_000,
{
    let now = now_since_epoch();
    VisitEvent { tag: url_key.clone(), seconds: now.0 as i64, nanos: now.1 as i32 }
}

/// The scheme a short URL is built with: the one observed on the inbound
/// request, or `http` when absent.
pub open spec fn scheme_or_default(scheme: Option<String>) -> Seq<char> {
    match scheme {
        Some(s) => s@,
        None => "http"@,
    }
}

/// The host a short URL is built with: the one observed on the inbound
/// request, or `localhost` when absent.
pub open spec fn host_or_default(host: Option<String>) -> Seq<char> {
    match host {
        Some(h) => h@,
        None => "localhost"@,
    }
}

/// The fully qualified short URL for a key.
pub open spec fn short_url(scheme: Seq<char>, host: Seq<char>, key: Seq<char>) -> Seq<char> {
    scheme + "://"@ + host + "/"@ + key
}

/// Builds the short URL `scheme://host/key`, with the documented fallbacks
/// for an absent scheme or host.
pub fn build_short_url(scheme: Option<String>, host: Option<String>, key: &String) -> (r: String)
    ensures
        r@ == short_url(scheme_or_default(scheme), host_or_default(host), key@),
{
    let mut out = match scheme {
        Some(s) => s,
        None => String::from_str("http"),
    };
    out.append("://");
    match host {
        Some(h) => out.append(h.as_str()),
        None => out.append("localhost"),
    }
    out.append("/");
    out.append(key.as_str());
    proof {
        assert(out@ =~= short_url(scheme_or_default(scheme), host_or_default(host), key@));
    }
    out
}

/// Handles a create request: decodes the body, obtains a fresh key, persists
/// the mapping and answers with the fully qualified short URL.
///
/// The contract walks the pipeline's exits: an oversized or undecodable body
/// is rejected with status 400 before any capability is consulted; a
/// capability failure is propagated as its mapped outcome and stores nothing;
/// on success a key that was never issued before now maps to the submitted
/// URL, and the response embeds exactly that key.  A create never dispatches
/// a visit event.
pub fn create_url<D: Database, K: KeyGenerationService, T: TaskSender>(
    state: &mut AppState<D, K, T>,
    scheme: Option<String>,
    host: Option<String>,
    body: &Vec<u8>,
) -> (r: Result<(u16, String), (u16, String)>)
    ensures
        final(state).task_sender.dispatched() == old(state).task_sender.dispatched(),
        r is Err ==> final(state).db_layer.db_model() == old(state).db_layer.db_model(),
        r matches Err(e) ==> (e.0 == 400 || e.0 == 403 || e.0 == 404 || e.0 == 500 || e.0 == 503),
        body@.len() > MAX_PAYLOAD_SIZE || url_field_of(body@) is None ==> (r matches Err(e)
            && e.0 == 400 && final(state).key_generator.issued() == old(
            state,
        ).key_generator.issued()),
        r matches Ok(resp) ==> body@.len() <= MAX_PAYLOAD_SIZE && resp.0 == 201 && (url_field_of(
            body@,
        ) matches Some(u) && (exists|key: Seq<char>|
            {
                &&& key.len() > 0
                &&& !old(state).key_generator.issued().contains(key)
                &&& final(state).key_generator.issued() == old(state).key_generator.issued().insert(
                    key,
                )
                &&& final(state).db_layer.db_model() == old(state).db_layer.db_model().insert(
                    key,
                    u,
                )
                &&& resp.1@ == short_url(scheme_or_default(scheme), host_or_default(host), key)
            })),
{
    let url = match parse_create_body(body) {
        Ok(u) => u,
        Err(rejected) => {
            return Err(rejected);
        },
    };
    let key = match state.key_generator.generate_key() {
        Ok(k) => k,
        Err(e) => {
            return Err(e.into_status());
        },
    };
    match state.db_layer.insert_key(key.clone(), url) {
        Ok(stored) => stored,
        Err(e) => {
            return Err(e.into_status());
        },
    }
    let location = build_short_url(scheme, host, &key);
    Ok((201, location))
}

/// The redirect decision: the client-visible response is a function of the
/// lookup outcome alone.  A hit is answered with a permanent redirect to the
/// stored URL; a failure is answered with its mapped outcome, unmodified.
/// Event dispatch plays no part in it.
pub fn redirect_outcome(lookup: Result<String, DatabaseError>) -> (r: Result<
    (u16, String),
    (u16, String),
>)
    ensures
        lookup matches Ok(url) ==> r matches Ok(resp) && resp.0 == 308 && resp.1@ == url@,
        lookup matches Err(e) ==> r matches Err(out) && out.0 == database_error_status(e)
            && out.1@ == database_error_message(e),
{
    match lookup {
        Ok(url) => Ok((308, url)),
        Err(e) => Err(e.into_status()),
    }
}

/// Handles a redirect request: looks the key up, answers with a permanent
/// redirect to the stored URL and dispatches a visit event, best effort.
///
/// The contract separates the two concerns.  The response is decided by the
/// lookup alone: a hit answers 308 with the stored URL whatever the
/// dispatcher does, a missing key is answered 404 carrying the key, and 404
/// is answered only for a missing key.  Dispatch happens only after a
/// successful lookup, carries this key, and at most one event; its failure
/// leaves no trace in the response.
pub fn get_url<D: Database, K: KeyGenerationService, T: TaskSender>(
    state: &mut AppState<D, K, T>,
    url_key: &String,
) -> (r: Result<(u16, String), (u16, String)>)
    ensures
        final(state).db_layer == old(state).db_layer,
        final(state).key_generator == old(state).key_generator,
        r matches Ok(resp) ==> old(state).db_layer.db_model().contains_key(url_key@) && resp.0
            == 308 && resp.1@ == old(state).db_layer.db_model()[url_key@],
        !old(state).db_layer.db_model().contains_key(url_key@) ==> r is Err,
        r matches Err(e) ==> final(state).task_sender.dispatched() == old(
            state,
        ).task_sender.dispatched() && (e.0 == 404 || e.0 == 500 || e.0 == 503) && (e.0 == 404
            ==> !old(state).db_layer.db_model().contains_key(url_key@) && e.1@ == url_key@),
        r is Ok ==> (final(state).task_sender.dispatched() == old(state).task_sender.dispatched()
            || (exists|seconds: i64, nanos: i32|
            final(state).task_sender.dispatched() == old(state).task_sender.dispatched().push(
                task_encoding(url_key@, seconds, nanos),
            ))),
{
    let lookup = state.db_layer.get_key_url(url_key);
    if lookup.is_ok() {
        let event = visit_event_now(url_key);
        let ghost seconds = event.seconds;
        let ghost nanos = event.nanos;
        match state.task_sender.send_task(event) {
            Ok(accepted) => accepted,
            Err(_ignored) => {
                // Best effort: a dispatch failure never alters the redirect.
            },
        }
    }
    redirect_outcome(lookup)
}

/// Law: creating then redirecting round-trips.  Once a create has stored a
/// mapping from a fresh key to the submitted URL, the lookup a redirect for
/// that key performs on the resulting store yields exactly that URL.
pub proof fn lemma_create_then_redirect(
    model: Map<Seq<char>, Seq<char>>,
    key: Seq<char>,
    url: Seq<char>,
)
    ensures
        model.insert(key, url).contains_key(key),
        model.insert(key, url)[key] == url,
{
}

} // verus!
