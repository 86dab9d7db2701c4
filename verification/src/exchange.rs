//! What passes between the request engine and its driver: the events that the
//! driver reports, and the actions that the engine asks for.

use crate::model::reply_ready;
use crate::model::requested;
use crate::model::ActionView;
use crate::model::EventView;
use crate::text::decode;
use crate::text::reading_view;
use vstd::prelude::*;
use vstd::string::StringExecFns;

verus! {

/// What the driver reports to the engine.
#[derive(Debug, PartialEq, Eq)]
pub enum Event {
    /// A caller asks for a request to be made.
    Request {
        /// The request as structured text, or the reason why its bytes are
        /// no text.
        text: Result<String, String>,
        /// Whether the reply is to be pretty-printed.
        pretty: bool,
    },
    /// The pending action was carried out and has nothing to hand back.
    Done,
    /// The pending action failed; the text says why, in the words of the
    /// transport or the codec.
    Failed(String),
    /// The envelope that encoding or receiving gave.
    Frame(Vec<u8>),
    /// The poll came back; the number holds the events it reported.
    Polled(i16),
    /// The text that decoding gave.
    Text(String),
}

/// What the engine asks of its driver.
#[derive(Debug, PartialEq, Eq)]
pub enum Action {
    /// Create a request socket.
    Open,
    /// Set the socket's linger period, in milliseconds.
    Linger(i32),
    /// Connect the socket to the endpoint.
    Connect(String),
    /// Parse the text as a request and encode it as an envelope.
    Encode(String),
    /// Send the envelope.
    Send(Vec<u8>),
    /// Wait until a reply can be read, for so many milliseconds at most;
    /// a negative number asks for an unbounded wait.
    Poll(i64),
    /// Receive the reply.
    Receive,
    /// Decode the envelope as a reply and turn it into text, pretty-printed
    /// where the flag is set.
    Decode(Vec<u8>, bool),
    /// Discard the socket.
    Close,
    /// Nothing more: the request is over, with this status.
    Finish(i32),
}

impl View for Event {
    type V = EventView;

    open spec fn view(&self) -> EventView {
        match self {
            Event::Request { text, pretty } => EventView::Request {
                text: reading_view(*text),
                pretty: *pretty,
            },
            Event::Done => EventView::Done,
            Event::Failed(detail) => EventView::Failed(detail@),
            Event::Frame(frame) => EventView::Frame(frame@),
            Event::Polled(revents) => EventView::Polled(*revents),
            Event::Text(text) => EventView::Text(text@),
        }
    }
}

impl View for Action {
    type V = ActionView;

    open spec fn view(&self) -> ActionView {
        match self {
            Action::Open => ActionView::Open,
            Action::Linger(millis) => ActionView::Linger(*millis),
            Action::Connect(endpoint) => ActionView::Connect(endpoint@),
            Action::Encode(text) => ActionView::Encode(text@),
            Action::Send(frame) => ActionView::Send(frame@),
            Action::Poll(wait) => ActionView::Poll(*wait),
            Action::Receive => ActionView::Receive,
            Action::Decode(frame, pretty) => ActionView::Decode(frame@, *pretty),
            Action::Close => ActionView::Close,
            Action::Finish(status) => ActionView::Finish(*status),
        }
    }
}

impl Event {
    /// The event for a caller's request whose body comes as bytes.
    pub fn request(body: &[u8], pretty: bool) -> (event: Event)
        ensures
            event@ == requested(body@, pretty),
    {
        let text = match decode(body) {
            Ok(text) => Ok(String::from_str(text)),
            Err(detail) => Err(detail),
        };
        Event::Request { text, pretty }
    }
}

/// Trusted: `zmq::PollEvents::from_bits_truncate`, compared with
/// `zmq::POLLIN`.
///
/// The conversion keeps the three bits that the crate defines (reading 1,
/// writing 2, error 4) and drops the others; the comparison then holds
/// exactly when, of those three, the bit for reading is set alone.
#[verifier::external_body]
pub(crate) fn polled_in(revents: i16) -> (ready: bool)
    ensures
        ready == reply_ready(revents),
{
    zmq::PollEvents::from_bits_truncate(revents) == zmq::POLLIN
}

} // verus!
