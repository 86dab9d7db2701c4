//! The mathematical model of a client: what a client is, and what each
//! operation makes of it.

use crate::error::displayed;
use crate::error::materialized;
use crate::error::terminated;
use crate::error::ErrorView;
use crate::text::decoded;
use crate::text::sanitized;
use vstd::prelude::*;

verus! {

/// Status of an operation that did what it was asked.
pub const SUCCESS: i32 = 0;

/// Status of an operation that failed; the client then holds a description,
/// unless the handle itself was missing.
pub const FAILURE: i32 = 1;

/// Status of a request to which no reply came in time.
pub const TIMED_OUT: i32 = -1;

/// The linger period of every connection, in milliseconds: what was not
/// delivered when the connection closes is thrown away at once.
pub const ZERO_LINGER: i32 = 0;

/// The wait that asks a poll to block until a reply arrives.
pub const FOREVER: i64 = -1;

/// How far the request in hand has come. Each stage but `Idle` names the
/// action whose outcome the client is waiting for.
#[derive(Clone, Copy, Debug, PartialEq, Eq)]
pub enum Stage {
    /// No request is in hand.
    Idle,
    /// A socket is being created.
    Opening,
    /// The new socket's linger period is being set.
    Lingering,
    /// The new socket is being connected.
    Connecting,
    /// The request text is being parsed and encoded.
    Encoding,
    /// The encoded request is being sent.
    Sending,
    /// The client waits for the reply to become readable.
    Polling,
    /// The reply is being received.
    Receiving,
    /// The reply is being decoded and turned into text.
    Decoding,
    /// The socket is being discarded; the status is what the request ends in.
    Closing(i32),
}

/// The model of a configuration.
pub struct ConfigView {
    /// Where the service listens.
    pub connect_addr: Seq<char>,
    /// How long a request waits for its reply, in milliseconds; zero asks for
    /// an unbounded wait.
    pub timeout_ms: u64,
}

/// The model of a client.
pub struct ClientView {
    /// The endpoint of the live connection, if there is one.
    pub sock: Option<Seq<char>>,
    /// The configuration, once the client is initialized.
    pub config: Option<ConfigView>,
    /// The text of the last reply.
    pub reply: Option<Seq<char>>,
    /// The last error.
    pub last_error: Option<ErrorView>,
    /// The stage of the request in hand.
    pub stage: Stage,
    /// The request in hand: its text, or why its bytes are no text.
    pub text: Result<Seq<char>, Seq<char>>,
    /// Whether the reply to the request in hand is to be pretty-printed.
    pub pretty: bool,
}

/// The model of an event.
pub enum EventView {
    Request { text: Result<Seq<char>, Seq<char>>, pretty: bool },
    Done,
    Failed(Seq<char>),
    Frame(Seq<u8>),
    Polled(i16),
    Text(Seq<char>),
}

/// The model of an action.
pub enum ActionView {
    Open,
    Linger(i32),
    Connect(Seq<char>),
    Encode(Seq<char>),
    Send(Seq<u8>),
    Poll(i64),
    Receive,
    Decode(Seq<u8>, bool),
    Close,
    Finish(i32),
}

/// A client as it is created: nothing configured, nothing connected, nothing
/// remembered.
pub open spec fn fresh() -> ClientView {
    ClientView {
        sock: None,
        config: None,
        reply: None,
        last_error: None,
        stage: Stage::Idle,
        text: Ok(Seq::empty()),
        pretty: false,
    }
}

/// What creating makes of a handle, and the status it returns: the handle
/// holds a fresh client, whatever it held before.
pub open spec fn created(handle: Option<ClientView>) -> (Option<ClientView>, i32) {
    (Some(fresh()), SUCCESS)
}

/// What closing makes of a handle, and the status it returns: the handle is
/// empty, whether or not it held a client.
pub open spec fn closed(handle: Option<ClientView>) -> (Option<ClientView>, i32) {
    (None, SUCCESS)
}

/// The stages in which a connection is being set up.
pub open spec fn connecting(stage: Stage) -> bool {
    stage is Opening || stage is Lingering || stage is Connecting
}

/// The stages in which a request travels over the live connection.
pub open spec fn engaged(stage: Stage) -> bool {
    stage is Encoding || stage is Sending || stage is Polling || stage is Receiving
        || stage is Decoding
}

/// An error in foreign form is terminated.
pub open spec fn error_valid(e: ErrorView) -> bool {
    e matches ErrorView::Foreign(bytes) ==> terminated(bytes)
}

/// The invariant of a client: the configured address is not empty; a live
/// connection is one to the configured address; a connection is set up only
/// for a configured client that has none; a request travels only over a live
/// connection; a socket is discarded only where no connection is left, for a
/// request that failed or timed out; and a stored foreign error text is
/// terminated.
pub open spec fn wf(c: ClientView) -> bool {
    &&& c.config matches Some(cfg) ==> cfg.connect_addr.len() > 0
    &&& c.sock matches Some(peer) ==> c.config is Some && endpoint(c) == peer
    &&& connecting(c.stage) ==> c.config is Some && c.sock is None
    &&& engaged(c.stage) ==> c.sock is Some
    &&& c.stage matches Stage::Closing(status) ==> c.sock is None && (status == FAILURE || status
        == TIMED_OUT)
    &&& c.last_error matches Some(e) ==> error_valid(e)
}

/// The address that a configured client connects to.
pub open spec fn endpoint(c: ClientView) -> Seq<char> {
    match c.config {
        Some(cfg) => cfg.connect_addr,
        None => Seq::empty(),
    }
}

/// The wait handed to a poll: the configured timeout in milliseconds, or
/// [`FOREVER`] where the timeout is zero, does not fit, or is missing.
pub open spec fn poll_wait(config: Option<ConfigView>) -> i64 {
    match config {
        Some(cfg) => if cfg.timeout_ms == 0 || cfg.timeout_ms > i64::MAX {
            FOREVER
        } else {
            cfg.timeout_ms as i64
        },
        None => FOREVER,
    }
}

/// Whether the events that a poll reported say that a reply can be read: of
/// the three event bits, the one for reading is set and no other.
pub open spec fn reply_ready(revents: i16) -> bool {
    (revents & 7) == 1
}

/// What configuring makes of a client, and the status it returns. The
/// address comes as it was read: as text, or as the reason why it is none.
///
/// A configured client keeps its configuration and records that it is
/// initialized already. Otherwise the address has to be text and must not be
/// empty; then it is stored with the timeout. No connection is made.
pub open spec fn configured(
    c: ClientView,
    addr: Result<Seq<char>, Seq<char>>,
    timeout_ms: u64,
) -> (ClientView, i32) {
    if c.config is Some {
        (recorded(c, "already initialized"@), FAILURE)
    } else {
        match addr {
            Ok(text) => if text.len() == 0 {
                (recorded(c, "invalid zero length zmq address"@), FAILURE)
            } else {
                (
                    ClientView {
                        config: Some(ConfigView { connect_addr: text, timeout_ms }),
                        ..c
                    },
                    SUCCESS,
                )
            },
            Err(detail) => (recorded(c, "invalid zmq address: "@ + detail), FAILURE),
        }
    }
}

/// What initializing makes of a client, and the status it returns: the bytes
/// of the address are read as UTF-8, and the client is configured with what
/// came of it.
pub open spec fn initialized(c: ClientView, addr: Seq<u8>, timeout_ms: u64) -> (ClientView, i32) {
    configured(c, decoded(addr), timeout_ms)
}

/// The event that a caller's request makes: the bytes of its body are read
/// as UTF-8.
pub open spec fn requested(body: Seq<u8>, pretty: bool) -> EventView {
    EventView::Request { text: decoded(body), pretty }
}

/// The client with `message` as its last error.
pub open spec fn recorded(c: ClientView, message: Seq<char>) -> ClientView {
    ClientView { last_error: Some(ErrorView::Native(message)), ..c }
}

/// What asking for the last error makes of a client: the error, if there is
/// one, is brought into foreign form.
pub open spec fn surfaced(c: ClientView) -> ClientView {
    match c.last_error {
        Some(e) => ClientView { last_error: Some(materialized(e)), ..c },
        None => c,
    }
}

/// The bytes that asking for the last error hands out.
pub open spec fn error_text(c: ClientView) -> Option<Seq<u8>> {
    match c.last_error {
        Some(e) => Some(displayed(e)),
        None => None,
    }
}

/// The words that the driver gave for a failure; an event that does not
/// answer the pending action counts as its failure.
pub open spec fn detail_of(e: EventView) -> Seq<char> {
    match e {
        EventView::Failed(detail) => detail,
        _ => "unexpected event"@,
    }
}

/// The message for a failure of the action that `stage` waits for.
pub open spec fn failure_message(stage: Stage, endpoint: Seq<char>, detail: Seq<char>) -> Seq<
    char,
> {
    match stage {
        Stage::Opening => "zmq socket failed: "@ + detail,
        Stage::Lingering => "zmq zero linger failed: "@ + detail,
        Stage::Connecting => "zmq connect to "@ + endpoint + " failed: "@ + detail,
        Stage::Encoding => "request parse failed: "@ + detail,
        Stage::Sending => "zmq send failed: "@ + detail,
        Stage::Polling => "zmq poll failed: "@ + detail,
        Stage::Receiving => "zmq recv failed: "@ + detail,
        Stage::Decoding => "rep packet decoding fail: "@ + detail,
        _ => detail,
    }
}

/// The request ends as an error: the message is recorded, and the connection
/// stays as it is.
pub open spec fn failed(c: ClientView, message: Seq<char>) -> (ClientView, ActionView) {
    (ClientView { stage: Stage::Idle, ..recorded(c, message) }, ActionView::Finish(FAILURE))
}

/// The request ends as an error while a socket exists that is not yet
/// connected: the message is recorded and the socket is discarded first.
pub open spec fn abandoned(c: ClientView, message: Seq<char>) -> (ClientView, ActionView) {
    (ClientView { stage: Stage::Closing(FAILURE), ..recorded(c, message) }, ActionView::Close)
}

/// No reply came in time: this is recorded, and the connection is given up,
/// so that a late reply can never answer a later request.
pub open spec fn expired(c: ClientView) -> (ClientView, ActionView) {
    (
        ClientView { sock: None, stage: Stage::Closing(TIMED_OUT), ..recorded(c, "timed out"@) },
        ActionView::Close,
    )
}

/// The request is put on its way over the live connection: it must be text,
/// whose control characters are blanked before it is parsed.
pub open spec fn prepared(c: ClientView) -> (ClientView, ActionView) {
    match c.text {
        Ok(text) => (ClientView { stage: Stage::Encoding, ..c }, ActionView::Encode(sanitized(text))),
        Err(detail) => failed(c, "request utf8 error: "@ + detail),
    }
}

/// A request arrives at an idle client: over a live connection it is prepared
/// at once; without one a configured client first connects; a client that is
/// not configured refuses.
pub open spec fn begun(
    c: ClientView,
    text: Result<Seq<char>, Seq<char>>,
    pretty: bool,
) -> (ClientView, ActionView) {
    let c = ClientView { text, pretty, ..c };
    if c.sock is Some {
        prepared(c)
    } else if c.config is Some {
        (ClientView { stage: Stage::Opening, ..c }, ActionView::Open)
    } else {
        failed(c, "not initialized"@)
    }
}

/// The pending action failed.
pub open spec fn broken(c: ClientView, e: EventView) -> (ClientView, ActionView) {
    let message = failure_message(c.stage, endpoint(c), detail_of(e));
    if c.stage is Lingering || c.stage is Connecting {
        abandoned(c, message)
    } else {
        failed(c, message)
    }
}

/// One step of the request engine: what the client becomes on an event, and
/// what it asks its driver to do next.
pub open spec fn request_step(c: ClientView, e: EventView) -> (ClientView, ActionView) {
    match c.stage {
        Stage::Idle => match e {
            EventView::Request { text, pretty } => begun(c, text, pretty),
            _ => (c, ActionView::Finish(FAILURE)),
        },
        Stage::Opening => match e {
            EventView::Done => (
                ClientView { stage: Stage::Lingering, ..c },
                ActionView::Linger(ZERO_LINGER),
            ),
            _ => broken(c, e),
        },
        Stage::Lingering => match e {
            EventView::Done => (
                ClientView { stage: Stage::Connecting, ..c },
                ActionView::Connect(endpoint(c)),
            ),
            _ => broken(c, e),
        },
        Stage::Connecting => match e {
            EventView::Done => prepared(ClientView { sock: Some(endpoint(c)), ..c }),
            _ => broken(c, e),
        },
        Stage::Encoding => match e {
            EventView::Frame(frame) => (
                ClientView { stage: Stage::Sending, ..c },
                ActionView::Send(frame),
            ),
            _ => broken(c, e),
        },
        Stage::Sending => match e {
            EventView::Done => (
                ClientView { stage: Stage::Polling, ..c },
                ActionView::Poll(poll_wait(c.config)),
            ),
            _ => broken(c, e),
        },
        Stage::Polling => match e {
            EventView::Polled(revents) => if reply_ready(revents) {
                (ClientView { stage: Stage::Receiving, ..c }, ActionView::Receive)
            } else {
                expired(c)
            },
            _ => broken(c, e),
        },
        Stage::Receiving => match e {
            EventView::Frame(frame) => (
                ClientView { stage: Stage::Decoding, ..c },
                ActionView::Decode(frame, c.pretty),
            ),
            _ => broken(c, e),
        },
        Stage::Decoding => match e {
            EventView::Text(text) => (
                ClientView { reply: Some(text), stage: Stage::Idle, ..c },
                ActionView::Finish(SUCCESS),
            ),
            _ => broken(c, e),
        },
        Stage::Closing(status) => (ClientView { stage: Stage::Idle, ..c }, ActionView::Finish(status)),
    }
}

/// The step in which the connection comes to be: connecting has succeeded.
pub open spec fn connects(c: ClientView, e: EventView) -> bool {
    c.stage is Connecting && e is Done
}

/// The step in which the request times out: the poll has ended without a
/// readable reply.
pub open spec fn times_out(c: ClientView, e: EventView) -> bool {
    c.stage is Polling && e is Polled && !reply_ready(e->Polled_0)
}

/// How many steps a request at `stage` can still take, at most.
pub open spec fn steps_left(stage: Stage) -> nat {
    match stage {
        Stage::Idle => 0,
        Stage::Closing(_) => 1,
        Stage::Decoding => 1,
        Stage::Receiving => 2,
        Stage::Polling => 3,
        Stage::Sending => 4,
        Stage::Encoding => 5,
        Stage::Connecting => 6,
        Stage::Lingering => 7,
        Stage::Opening => 8,
    }
}

} // verus!
