use vstd::prelude::*;
use vstd::string::*;

use crate::registry::SessionRegistry;
use crate::session::{hyphenated, is_random_v4, is_session_id, session_id};

verus! {

/// The path of the route that opens a session, unless configured otherwise.
pub const DEFAULT_SSE_PATH: &'static str = "/sse";

/// The path of the route that delivers client messages, unless configured
/// otherwise.
pub const DEFAULT_POST_PATH: &'static str = "/message";

/// The keep-alive interval of an event stream, in nanoseconds (fifteen
/// seconds), unless configured otherwise.
pub const DEFAULT_AUTO_PING_INTERVAL_NS: u64 = 15000000000;

/// What a gateway is configured with, besides its socket address and its
/// cancellation token.
pub struct SseServerConfig {
    /// The path of the route that opens a session.
    pub sse_path: String,
    /// The path of the route that delivers client messages; also the prefix
    /// announced in the `endpoint` event.
    pub post_path: String,
    /// The keep-alive interval of an event stream, in nanoseconds.
    pub sse_keep_alive: Option<u64>,
}

impl SseServerConfig {
    /// The default paths, `/sse` and `/message`, and no explicit keep-alive.
    pub fn with_default_paths() -> (r: Self)
        ensures
            r.sse_path@ == seq!['/', 's', 's', 'e'],
            r.post_path@ == seq!['/', 'm', 'e', 's', 's', 'a', 'g', 'e'],
            r.sse_keep_alive is None,
    {
        proof {
            reveal_strlit("/sse");
            reveal_strlit("/message");
        }
        SseServerConfig {
            sse_path: String::from_str(DEFAULT_SSE_PATH),
            post_path: String::from_str(DEFAULT_POST_PATH),
            sse_keep_alive: None,
        }
    }

    /// The keep-alive interval in force, in nanoseconds: the configured one,
    /// else fifteen seconds.
    pub fn keep_alive_interval_ns(&self) -> (r: u64)
        ensures
            r == match self.sse_keep_alive {
                Some(ns) => ns,
                None => DEFAULT_AUTO_PING_INTERVAL_NS,
            },
    {
        match self.sse_keep_alive {
            Some(ns) => ns,
            None => DEFAULT_AUTO_PING_INTERVAL_NS,
        }
    }
}

/// The query of a POST that delivers a client message: `?sessionId=...`.
pub struct PostEventQuery {
    pub session_id: String,
}

/// The text `?sessionId=`.
pub open spec fn session_query_key() -> Seq<char> {
    seq!['?', 's', 'e', 's', 's', 'i', 'o', 'n', 'I', 'd', '=']
}

/// The data of the `endpoint` event: the post path, then `?sessionId=`, then
/// the session identifier.
pub open spec fn endpoint_text(post_path: Seq<char>, id: Seq<char>) -> Seq<char> {
    post_path + session_query_key() + id
}

/// The data of the first event of a session's stream: the URL to which the
/// client posts its messages.
pub fn endpoint_data(post_path: &str, session_id: &str) -> (r: String)
    ensures
        r@ == endpoint_text(post_path@, session_id@),
{
    let mut r = String::from_str(post_path);
    proof {
        reveal_strlit("?sessionId=");
    }
    r.append("?sessionId=");
    r.append(session_id);
    r
}

/// Opens a session for a stream that is being served: registers `sender`
/// under `id` and returns the data of the stream's `endpoint` event. `None`
/// when `id` is registered already; the registry is then unchanged.
pub fn open_sse_session<S>(
    registry: &mut SessionRegistry<S>,
    post_path: &str,
    id: String,
    sender: S,
) -> (r: Option<String>)
    ensures
        r is Some <==> !old(registry)@.contains_key(id@),
        match r {
            Some(data) => {
                &&& final(registry)@ == old(registry)@.insert(id@, sender)
                &&& data@ == endpoint_text(post_path@, id@)
            },
            None => final(registry)@ == old(registry)@,
        },
{
    let data = endpoint_data(post_path, id.as_str());
    if registry.try_register(id, sender) {
        Some(data)
    } else {
        None
    }
}

/// Opens a session under a freshly minted identifier and returns that
/// identifier with the data of the `endpoint` event; `None`, with the registry
/// unchanged, when the minted identifier happens to be registered already.
pub fn open_fresh_sse_session<S>(registry: &mut SessionRegistry<S>, post_path: &str, sender: S) -> (r:
    Option<(String, String)>)
    ensures
        match r {
            Some((id, data)) => {
                &&& is_session_id(id@)
                &&& !old(registry)@.contains_key(id@)
                &&& final(registry)@ == old(registry)@.insert(id@, sender)
                &&& data@ == endpoint_text(post_path@, id@)
            },
            None => {
                &&& final(registry)@ == old(registry)@
                &&& exists|u: u128|
                    is_random_v4(u) && old(registry)@.contains_key(#[trigger] hyphenated(u))
            },
        },
{
    let id = session_id();
    let key = id.clone();
    match open_sse_session(registry, post_path, key, sender) {
        Some(data) => Some((id, data)),
        None => None,
    }
}

/// The failures that the gateway tells apart.
#[derive(Clone, Copy, Debug, PartialEq, Eq, Structural)]
pub enum GatewayError {
    /// A POST named a session that is not registered.
    NoSuchSession,
    /// The session of a POST no longer receives messages.
    SessionReceiverClosed,
    /// A new session could not be handed to the forwarders: the server is closed.
    QueueDisconnected,
    /// An outbound message could not be written as JSON.
    SerializationFailed,
    /// The child process of a session could not be started.
    FactoryFailed,
    /// A message could not be passed on between a client and its child.
    BridgeSendFailed,
    /// The listener could not be bound.
    BindFailed,
}

/// The HTTP status that answers a request that failed with `e`, for the
/// failures that answer a request.
pub open spec fn status_of(e: GatewayError) -> Option<u16> {
    match e {
        GatewayError::NoSuchSession => Some(404),
        GatewayError::SessionReceiverClosed => Some(410),
        GatewayError::QueueDisconnected => Some(500),
        _ => None,
    }
}

impl GatewayError {
    /// The HTTP status of the response that reports this failure; `None` for
    /// failures that end a session or the server instead of answering a request.
    pub fn status_code(&self) -> (r: Option<u16>)
        ensures
            r == status_of(*self),
    {
        match self {
            GatewayError::NoSuchSession => Some(404),
            GatewayError::SessionReceiverClosed => Some(410),
            GatewayError::QueueDisconnected => Some(500),
            _ => None,
        }
    }
}

/// The status of an accepted client message.
pub const ACCEPTED: u16 = 202;

/// The body of the response when a new session cannot be handed on.
pub fn queue_disconnected_body() -> (r: String)
    ensures
        r@ == "fail to send out transport, it seems server is closed"@,
{
    String::from_str("fail to send out transport, it seems server is closed")
}

/// The first step of a POST: the sender of the named session, or
/// `NoSuchSession` when it is not registered.
pub fn lookup_post<'a, S>(registry: &'a SessionRegistry<S>, query: &PostEventQuery) -> (r: Result<
    &'a S,
    GatewayError,
>)
    ensures
        match r {
            Ok(s) => registry@.contains_key(query.session_id@) && *s == registry@[query.session_id@],
            Err(e) => e == GatewayError::NoSuchSession && !registry@.contains_key(
                query.session_id@,
            ),
        },
{
    match registry.get(query.session_id.as_str()) {
        Some(s) => Ok(s),
        None => Err(GatewayError::NoSuchSession),
    }
}

/// The last step of a POST: `202 Accepted` when the message was handed to the
/// session, else `SessionReceiverClosed`.
pub fn delivery_status(delivered: bool) -> (r: Result<u16, GatewayError>)
    ensures
        delivered ==> r == Ok::<u16, GatewayError>(ACCEPTED),
        !delivered ==> r == Err::<u16, GatewayError>(GatewayError::SessionReceiverClosed),
{
    if delivered {
        Ok(ACCEPTED)
    } else {
        Err(GatewayError::SessionReceiverClosed)
    }
}

/// The status that answers a POST, from whether the session was found and,
/// if it was, whether the message was handed to it.
pub open spec fn post_status(found: bool, delivered: bool) -> u16 {
    if !found {
        404
    } else if !delivered {
        410
    } else {
        202
    }
}

/// A POST to a session that is no longer registered, or whose receiver has
/// closed, is answered `404` or `410` and never accepted.
pub proof fn lemma_closed_session_never_accepted(found: bool, delivered: bool)
    requires
        !found || !delivered,
    ensures
        post_status(found, delivered) == 404 || post_status(found, delivered) == 410,
        post_status(found, delivered) != ACCEPTED,
{
}

/// The status that answers a POST: `404` for an unknown session, `410` for
/// one that no longer receives messages, and `202` once the message was
/// handed to the session.
pub fn post_response_status(found: bool, delivered: bool) -> (r: u16)
    ensures
        r == post_status(found, delivered),
{
    let outcome = if found {
        delivery_status(delivered)
    } else {
        Err(GatewayError::NoSuchSession)
    };
    match outcome {
        Ok(code) => code,
        Err(e) => match e.status_code() {
            Some(code) => code,
            None => 500,
        },
    }
}

} // verus!
