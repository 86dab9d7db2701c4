//! The client and the five operations of its call surface.

use crate::error::ErrorMsg;
use crate::error::terminated;
use crate::exchange::Action;
use crate::exchange::Event;
use crate::exchange::polled_in;
use crate::laws::law_configured_is_well_formed;
use crate::laws::law_last_error_is_safe;
use crate::laws::law_step_is_well_formed;
use crate::model::abandoned;
use crate::model::ActionView;
use crate::model::begun;
use crate::model::broken;
use crate::model::ClientView;
use crate::model::closed;
use crate::model::configured;
use crate::model::ConfigView;
use crate::model::created;
use crate::model::endpoint;
use crate::model::error_text;
use crate::model::expired;
use crate::model::failed;
use crate::model::FAILURE;
use crate::model::failure_message;
use crate::model::FOREVER;
use crate::model::fresh;
use crate::model::initialized;
use crate::model::poll_wait;
use crate::model::prepared;
use crate::model::recorded;
use crate::model::request_step;
use crate::model::Stage;
use crate::model::SUCCESS;
use crate::model::surfaced;
use crate::model::TIMED_OUT;
use crate::model::wf;
use crate::model::ZERO_LINGER;
use crate::text::decode;
use crate::text::decoding_view;
use crate::text::join;
use crate::text::reading_view;
use crate::text::sanitize;
use vstd::prelude::*;
use vstd::string::StringExecFns;

verus! {

/// Where the service is, and how long to wait for it. A configuration does
/// not change once it is made.
pub struct Config {
    connect_addr: String,
    timeout_ms: u64,
}

impl View for Config {
    type V = ConfigView;

    closed spec fn view(&self) -> ConfigView {
        ConfigView { connect_addr: self.connect_addr@, timeout_ms: self.timeout_ms }
    }
}

impl Config {
    /// The address of the service.
    pub fn connect_addr(&self) -> (addr: &str)
        ensures
            addr@ == self@.connect_addr,
    {
        self.connect_addr.as_str()
    }

    /// The time that a request waits for its reply, in milliseconds.
    pub fn timeout_ms(&self) -> (millis: u64)
        ensures
            millis == self@.timeout_ms,
    {
        self.timeout_ms
    }
}

/// A client of the service: its configuration, its connection, the last reply
/// and the last error, and the request that is in hand.
pub struct DuplClient {
    sock: Option<String>,
    config: Option<Config>,
    reply: Option<String>,
    last_error: Option<ErrorMsg>,
    stage: Stage,
    text: Result<String, String>,
    pretty: bool,
}

impl View for DuplClient {
    type V = ClientView;

    closed spec fn view(&self) -> ClientView {
        ClientView {
            sock: match self.sock {
                Some(peer) => Some(peer@),
                None => None,
            },
            config: match self.config {
                Some(cfg) => Some(cfg@),
                None => None,
            },
            reply: match self.reply {
                Some(text) => Some(text@),
                None => None,
            },
            last_error: match self.last_error {
                Some(e) => Some(e@),
                None => None,
            },
            stage: self.stage,
            text: reading_view(self.text),
            pretty: self.pretty,
        }
    }
}

/// The model of a handle: of a client, or of none.
pub open spec fn handle_view(handle: Option<DuplClient>) -> Option<ClientView> {
    match handle {
        Some(client) => Some(client@),
        None => None,
    }
}

/// The view of a text handed out, if one is.
pub open spec fn text_view(text: Option<&str>) -> Option<Seq<char>> {
    match text {
        Some(t) => Some(t@),
        None => None,
    }
}

/// The view of bytes handed out, if any are.
pub open spec fn bytes_view(bytes: Option<&[u8]>) -> Option<Seq<u8>> {
    match bytes {
        Some(b) => Some(b@),
        None => None,
    }
}

impl DuplClient {
    fn new() -> (client: DuplClient)
        ensures
            client@ == fresh(),
    {
        DuplClient {
            sock: None,
            config: None,
            reply: None,
            last_error: None,
            stage: Stage::Idle,
            text: Ok(String::new()),
            pretty: false,
        }
    }

    /// The configuration, once the client is initialized.
    pub fn config(&self) -> (config: Option<&Config>)
        ensures
            config is Some <==> self@.config is Some,
            config matches Some(cfg) ==> Some(cfg@) == self@.config,
    {
        self.config.as_ref()
    }

    /// Whether the client holds a live connection.
    pub fn is_connected(&self) -> (connected: bool)
        ensures
            connected == self@.sock is Some,
    {
        self.sock.is_some()
    }

    /// How far the request in hand has come.
    pub fn stage(&self) -> (stage: Stage)
        ensures
            stage == self@.stage,
    {
        self.stage
    }

    /// The text of the last reply. It stays until the next request succeeds.
    pub fn reply(&self) -> (reply: Option<&str>)
        ensures
            text_view(reply) == self@.reply,
    {
        match &self.reply {
            Some(text) => Some(text.as_str()),
            None => None,
        }
    }

    /// The last error, in the form it has now.
    pub fn last_error(&self) -> (e: Option<&ErrorMsg>)
        ensures
            e is Some <==> self@.last_error is Some,
            e matches Some(found) ==> Some(found@) == self@.last_error,
    {
        self.last_error.as_ref()
    }

    /// Configures the client with an address that was read already: it
    /// comes as text, or as the reason why its bytes are no text.
    pub fn configure(&mut self, addr: Result<&str, String>, req_timeout_ms: u64) -> (status: i32)
        ensures
            (final(self)@, status) == configured(old(self)@, decoding_view(addr), req_timeout_ms),
            wf(old(self)@) ==> wf(final(self)@),
    {
        proof {
            if wf(self@) {
                law_configured_is_well_formed(self@, decoding_view(addr), req_timeout_ms);
            }
        }
        if self.config.is_some() {
            self.record(ErrorMsg::from_str("already initialized"));
            FAILURE
        } else {
            match addr {
                Ok(text) => {
                    if text.is_empty() {
                        self.record(ErrorMsg::from_str("invalid zero length zmq address"));
                        FAILURE
                    } else {
                        self.config = Some(
                            Config {
                                connect_addr: String::from_str(text),
                                timeout_ms: req_timeout_ms,
                            },
                        );
                        SUCCESS
                    }
                },
                Err(detail) => {
                    self.record(ErrorMsg::with_detail("invalid zmq address: ", detail.as_str()));
                    FAILURE
                },
            }
        }
    }

    fn record(&mut self, e: ErrorMsg)
        requires
            e is Native,
        ensures
            final(self)@ == recorded(old(self)@, e@->Native_0),
    {
        self.last_error = Some(e);
    }

    /// The address to connect to; empty for a client that is not configured.
    fn endpoint(&self) -> (addr: String)
        ensures
            addr@ == endpoint(self@),
    {
        match &self.config {
            Some(cfg) => cfg.connect_addr.clone(),
            None => String::new(),
        }
    }

    /// The wait for the next poll.
    fn poll_wait(&self) -> (wait: i64)
        ensures
            wait == poll_wait(self@.config),
    {
        match &self.config {
            Some(cfg) => {
                if cfg.timeout_ms == 0 || cfg.timeout_ms > 0x7fff_ffff_ffff_ffff {
                    FOREVER
                } else {
                    cfg.timeout_ms as i64
                }
            },
            None => FOREVER,
        }
    }

    /// Ends the request as an error.
    fn fail(&mut self, e: ErrorMsg) -> (action: Action)
        requires
            e is Native,
        ensures
            (final(self)@, action@) == failed(old(self)@, e@->Native_0),
    {
        self.last_error = Some(e);
        self.stage = Stage::Idle;
        Action::Finish(FAILURE)
    }

    /// Ends the request as an error, once the unconnected socket is gone.
    fn abandon(&mut self, e: ErrorMsg) -> (action: Action)
        requires
            e is Native,
        ensures
            (final(self)@, action@) == abandoned(old(self)@, e@->Native_0),
    {
        self.last_error = Some(e);
        self.stage = Stage::Closing(FAILURE);
        Action::Close
    }

    /// Ends the request as timed out, once the connection is gone.
    fn expire(&mut self) -> (action: Action)
        ensures
            (final(self)@, action@) == expired(old(self)@),
    {
        self.last_error = Some(ErrorMsg::from_str("timed out"));
        self.sock = None;
        self.stage = Stage::Closing(TIMED_OUT);
        Action::Close
    }

    /// Puts the request in hand on its way over the live connection.
    fn prepare(&mut self) -> (action: Action)
        ensures
            (final(self)@, action@) == prepared(old(self)@),
    {
        match &self.text {
            Ok(text) => {
                let clean = sanitize(text.as_str());
                self.stage = Stage::Encoding;
                Action::Encode(clean)
            },
            Err(detail) => {
                let e = ErrorMsg::with_detail("request utf8 error: ", detail.as_str());
                self.fail(e)
            },
        }
    }

    /// Takes a request in hand.
    fn begin(&mut self, text: Result<String, String>, pretty: bool) -> (action: Action)
        ensures
            (final(self)@, action@) == begun(old(self)@, reading_view(text), pretty),
    {
        self.text = text;
        self.pretty = pretty;
        if self.sock.is_some() {
            self.prepare()
        } else if self.config.is_some() {
            self.stage = Stage::Opening;
            Action::Open
        } else {
            self.fail(ErrorMsg::from_str("not initialized"))
        }
    }

    /// The error for a failure of the pending action.
    fn failure(&self, detail: &str) -> (e: ErrorMsg)
        ensures
            e is Native,
            e@->Native_0 == failure_message(self@.stage, endpoint(self@), detail@),
    {
        match self.stage {
            Stage::Opening => ErrorMsg::with_detail("zmq socket failed: ", detail),
            Stage::Lingering => ErrorMsg::with_detail("zmq zero linger failed: ", detail),
            Stage::Connecting => {
                let addr = self.endpoint();
                let head = join("zmq connect to ", addr.as_str());
                let head = join(head.as_str(), " failed: ");
                ErrorMsg::with_detail(head.as_str(), detail)
            },
            Stage::Encoding => ErrorMsg::with_detail("request parse failed: ", detail),
            Stage::Sending => ErrorMsg::with_detail("zmq send failed: ", detail),
            Stage::Polling => ErrorMsg::with_detail("zmq poll failed: ", detail),
            Stage::Receiving => ErrorMsg::with_detail("zmq recv failed: ", detail),
            Stage::Decoding => ErrorMsg::with_detail("rep packet decoding fail: ", detail),
            _ => ErrorMsg::from_str(detail),
        }
    }

    /// Handles an event that is not the success of the pending action.
    fn fault(&mut self, event: Event) -> (action: Action)
        ensures
            (final(self)@, action@) == broken(old(self)@, event@),
    {
        let detail = match event {
            Event::Failed(detail) => detail,
            _ => String::from_str("unexpected event"),
        };
        let e = self.failure(detail.as_str());
        match self.stage {
            Stage::Lingering | Stage::Connecting => self.abandon(e),
            _ => self.fail(e),
        }
    }

    /// One step of the request engine.
    fn native_request(&mut self, event: Event) -> (action: Action)
        ensures
            (final(self)@, action@) == request_step(old(self)@, event@),
    {
        match self.stage {
            Stage::Idle => match event {
                Event::Request { text, pretty } => self.begin(text, pretty),
                _ => Action::Finish(FAILURE),
            },
            Stage::Opening => match event {
                Event::Done => {
                    self.stage = Stage::Lingering;
                    Action::Linger(ZERO_LINGER)
                },
                other => self.fault(other),
            },
            Stage::Lingering => match event {
                Event::Done => {
                    let addr = self.endpoint();
                    self.stage = Stage::Connecting;
                    Action::Connect(addr)
                },
                other => self.fault(other),
            },
            Stage::Connecting => match event {
                Event::Done => {
                    let addr = self.endpoint();
                    self.sock = Some(addr);
                    self.prepare()
                },
                other => self.fault(other),
            },
            Stage::Encoding => match event {
                Event::Frame(frame) => {
                    self.stage = Stage::Sending;
                    Action::Send(frame)
                },
                other => self.fault(other),
            },
            Stage::Sending => match event {
                Event::Done => {
                    let wait = self.poll_wait();
                    self.stage = Stage::Polling;
                    Action::Poll(wait)
                },
                other => self.fault(other),
            },
            Stage::Polling => match event {
                Event::Polled(revents) => {
                    if polled_in(revents) {
                        self.stage = Stage::Receiving;
                        Action::Receive
                    } else {
                        self.expire()
                    }
                },
                other => self.fault(other),
            },
            Stage::Receiving => match event {
                Event::Frame(frame) => {
                    let pretty = self.pretty;
                    self.stage = Stage::Decoding;
                    Action::Decode(frame, pretty)
                },
                other => self.fault(other),
            },
            Stage::Decoding => match event {
                Event::Text(text) => {
                    self.reply = Some(text);
                    self.stage = Stage::Idle;
                    Action::Finish(SUCCESS)
                },
                other => self.fault(other),
            },
            Stage::Closing(status) => {
                self.stage = Stage::Idle;
                Action::Finish(status)
            },
        }
    }
}

/// Makes a new client in the caller's handle. The client is not configured
/// and not connected, and remembers neither a reply nor an error.
pub fn dupl_client_create(dcp: &mut Option<DuplClient>) -> (status: i32)
    ensures
        (handle_view(*final(dcp)), status) == created(handle_view(*old(dcp))),
{
    *dcp = Some(DuplClient::new());
    SUCCESS
}

/// Gives up the client in the caller's handle, with all it holds, and leaves
/// the handle empty. An empty handle stays empty.
pub fn dupl_client_close(dcp: &mut Option<DuplClient>) -> (status: i32)
    ensures
        (handle_view(*final(dcp)), status) == closed(handle_view(*old(dcp))),
{
    *dcp = None;
    SUCCESS
}

/// Configures the client with the address of the service and the time to
/// wait for a reply. The address comes as bytes, without a terminator. Makes
/// no connection.
pub fn dupl_client_init(
    dc: Option<&mut DuplClient>,
    zmq_connect_addr: &[u8],
    req_timeout_ms: u64,
) -> (status: i32)
    ensures
        dc is None ==> status == FAILURE,
        dc matches Some(c) ==> (final(c)@, status) == initialized(
            c@,
            zmq_connect_addr@,
            req_timeout_ms,
        ),
        dc matches Some(c) ==> (wf(c@) ==> wf(final(c)@)),
{
    match dc {
        None => FAILURE,
        Some(client) => client.configure(decode(zmq_connect_addr), req_timeout_ms),
    }
}

/// Takes the request engine one step further: the client takes in what its
/// driver reports, and says what is to be done next. A request starts with
/// [`Event::Request`] and is over with [`Action::Finish`], whose status is
/// that of the request.
pub fn dupl_client_request(dc: Option<&mut DuplClient>, event: Event) -> (action: Action)
    ensures
        dc is None ==> action@ == ActionView::Finish(FAILURE),
        dc matches Some(c) ==> (final(c)@, action@) == request_step(c@, event@),
        dc matches Some(c) ==> (wf(c@) ==> wf(final(c)@)),
{
    match dc {
        None => Action::Finish(FAILURE),
        Some(client) => {
            proof {
                if wf(client@) {
                    law_step_is_well_formed(client@, event@);
                }
            }
            client.native_request(event)
        },
    }
}

/// Hands out the text of the last error, in the form that a foreign caller
/// reads: bytes that end with a zero and hold no other. The first call after
/// an error brings the message into that form and keeps it so; a message that
/// holds a zero byte is replaced by [`CANNOT_DISPLAY`]. Without an error, and
/// without a client, there is nothing to hand out.
///
/// [`CANNOT_DISPLAY`]: crate::error::CANNOT_DISPLAY
pub fn dupl_client_last_error<'a>(dc: Option<&'a mut DuplClient>) -> (text: Option<&'a [u8]>)
    ensures
        dc is None ==> text is None,
        dc matches Some(c) ==> final(c)@ == surfaced(c@),
        dc matches Some(c) ==> bytes_view(text) == error_text(c@),
        dc matches Some(c) ==> (wf(c@) ==> wf(final(c)@)),
        text matches Some(bytes) ==> terminated(bytes@),
{
    match dc {
        None => None,
        Some(client) => {
            proof {
                if wf(client@) {
                    law_last_error_is_safe(client@);
                }
            }
            match client.last_error.take() {
                None => None,
                Some(e) => {
                    client.last_error = Some(e.materialize());
                    match &client.last_error {
                        Some(shown) => shown.bytes(),
                        None => None,
                    }
                },
            }
        },
    }
}

} // verus!
