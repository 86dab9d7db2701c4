//! What holds of the client's operations, whatever the client and whatever
//! the events: each law is proved from the model.

use crate::error::displayed;
use crate::error::foreign_form;
use crate::error::materialized;
use crate::error::terminated;
use crate::error::ErrorView;
use crate::error::CANNOT_DISPLAY;
use crate::model::closed;
use crate::model::configured;
use crate::model::connecting;
use crate::model::connects;
use crate::model::created;
use crate::model::endpoint;
use crate::model::engaged;
use crate::model::error_text;
use crate::model::error_valid;
use crate::model::fresh;
use crate::model::initialized;
use crate::model::poll_wait;
use crate::model::prepared;
use crate::model::recorded;
use crate::model::reply_ready;
use crate::model::request_step;
use crate::model::steps_left;
use crate::model::surfaced;
use crate::model::times_out;
use crate::model::wf;
use crate::model::ActionView;
use crate::model::ClientView;
use crate::model::EventView;
use crate::model::Stage;
use crate::model::FAILURE;
use crate::model::SUCCESS;
use crate::model::TIMED_OUT;
use crate::model::ZERO_LINGER;
use crate::text::decoded;
use crate::text::is_control;
use crate::text::sanitized;
use vstd::prelude::*;
use vstd::utf8::encode_utf8;

verus! {

/// Creating a client in a handle and closing that handle both succeed, and
/// the handle is empty afterwards, whatever it held at first.
pub proof fn law_create_then_close(handle: Option<ClientView>)
    ensures
        created(handle).1 == SUCCESS,
        created(handle).0 == Some(fresh()),
        closed(created(handle).0) == (None::<ClientView>, SUCCESS),
{
}

/// Closing an empty handle succeeds and leaves it empty, and closing a second
/// time does what closing once did.
pub proof fn law_close_is_idempotent(handle: Option<ClientView>)
    ensures
        closed(None) == (None::<ClientView>, SUCCESS),
        closed(closed(handle).0) == closed(handle),
{
}

/// A fresh client meets the invariant.
pub proof fn law_fresh_is_well_formed()
    ensures
        wf(fresh()),
{
}

/// Configuring keeps the invariant, and so does initializing.
pub proof fn law_configured_is_well_formed(
    c: ClientView,
    addr: Result<Seq<char>, Seq<char>>,
    timeout_ms: u64,
)
    requires
        wf(c),
    ensures
        wf(configured(c, addr, timeout_ms).0),
{
}

/// Initializing never connects, and touches neither the last reply nor the
/// request in hand.
pub proof fn law_initializing_connects_nothing(c: ClientView, addr: Seq<u8>, timeout_ms: u64)
    ensures
        initialized(c, addr, timeout_ms).0.sock == c.sock,
        initialized(c, addr, timeout_ms).0.reply == c.reply,
        initialized(c, addr, timeout_ms).0.stage == c.stage,
{
}

/// A client that is initialized refuses to be initialized again: the second
/// attempt fails, says so in the last error, and leaves the configuration
/// and all else as it was.
pub proof fn law_initialized_twice(
    c: ClientView,
    first_addr: Seq<u8>,
    first_timeout: u64,
    second_addr: Seq<u8>,
    second_timeout: u64,
)
    requires
        initialized(c, first_addr, first_timeout).1 == SUCCESS,
    ensures
        ({
            let once = initialized(c, first_addr, first_timeout).0;
            let (twice, status) = initialized(once, second_addr, second_timeout);
            &&& status == FAILURE
            &&& once.config is Some
            &&& twice.config == once.config
            &&& twice == recorded(once, "already initialized"@)
        }),
{
}

/// An empty address is refused: initializing with it fails and leaves the
/// configuration as it was. The reason is recorded (for a client that is
/// configured already, that it is), and asking for the last error then hands
/// out that very message with its terminator.
pub proof fn law_empty_address_is_refused(c: ClientView, timeout_ms: u64)
    ensures
        ({
            let (after, status) = initialized(c, Seq::<u8>::empty(), timeout_ms);
            let message = if c.config is Some {
                "already initialized"@
            } else {
                "invalid zero length zmq address"@
            };
            &&& status == FAILURE
            &&& after == recorded(c, message)
            &&& after.config == c.config
            &&& error_text(after) == Some(encode_utf8(message).push(0u8))
            &&& terminated(encode_utf8(message).push(0u8))
        }),
{
    reveal_strlit("already initialized");
    reveal_strlit("invalid zero length zmq address");
    assert(decoded(Seq::<u8>::empty()) == Ok::<Seq<char>, Seq<char>>(Seq::<char>::empty())) by {
        assert(vstd::utf8::valid_utf8(Seq::<u8>::empty()));
        assert(vstd::utf8::decode_utf8(Seq::<u8>::empty()) =~= Seq::<char>::empty());
    }
    lemma_ascii_text_has_foreign_form("already initialized"@);
    lemma_ascii_text_has_foreign_form("invalid zero length zmq address"@);
}

/// Text of ASCII characters other than the zero character has a foreign form.
pub proof fn lemma_ascii_text_has_foreign_form(text: Seq<char>)
    requires
        forall|i: int| 0 <= i < text.len() ==> '\0' < #[trigger] text[i] <= '\u{7f}',
    ensures
        foreign_form(text) == Some(encode_utf8(text).push(0u8)),
        terminated(encode_utf8(text).push(0u8)),
{
    assert(vstd::utf8::is_ascii_chars(text));
    vstd::utf8::is_ascii_chars_encode_utf8(text);
    let bytes = encode_utf8(text);
    assert forall|i: int| 0 <= i < bytes.len() implies bytes[i] != 0 by {
        assert(text[i] as u8 == bytes[i]);
        assert('\0' < text[i]);
    }
    assert(!bytes.contains(0u8));
}

/// Asking for the last error twice is asking once: the second call changes
/// nothing and hands out the same bytes. While no error is recorded there is
/// nothing to hand out, and asking changes nothing.
pub proof fn law_last_error_is_idempotent(c: ClientView)
    ensures
        surfaced(surfaced(c)) == surfaced(c),
        error_text(surfaced(c)) == error_text(c),
        c.last_error is None ==> error_text(c) is None && surfaced(c) == c,
        c.last_error is Some ==> error_text(c) is Some,
{
}

/// Asking for the last error changes nothing but the form of the error, keeps
/// the invariant, and what it hands out is terminated.
pub proof fn law_last_error_is_safe(c: ClientView)
    requires
        wf(c),
    ensures
        wf(surfaced(c)),
        surfaced(c) == (ClientView { last_error: surfaced(c).last_error, ..c }),
        error_text(c) matches Some(bytes) ==> terminated(bytes),
        surfaced(c).last_error matches Some(e) ==> !(e is Native),
{
    if let Some(e) = c.last_error {
        lemma_displayed_is_terminated(e);
    }
}

/// What is displayed of a valid error is terminated, and materializing a
/// valid error gives a valid one.
pub proof fn lemma_displayed_is_terminated(e: ErrorView)
    requires
        error_valid(e),
    ensures
        terminated(displayed(e)),
        error_valid(materialized(e)),
{
    assert(terminated(CANNOT_DISPLAY@));
}

/// Every step of the request engine keeps the invariant.
pub proof fn law_step_is_well_formed(c: ClientView, e: EventView)
    requires
        wf(c),
    ensures
        wf(request_step(c, e).0),
{
}

/// No step of the request engine touches the configuration: once set, it is
/// never replaced.
pub proof fn law_configuration_is_kept(c: ClientView, e: EventView)
    ensures
        request_step(c, e).0.config == c.config,
        surfaced(c).config == c.config,
{
}

/// A request that is under way comes to its end: every step but the first
/// moves to a stage from which fewer steps are left, and the engine says that
/// the request is over exactly when it has become idle. A request thus takes
/// nine steps at most.
pub proof fn law_request_terminates(c: ClientView, e: EventView)
    ensures
        !(c.stage is Idle) ==> steps_left(request_step(c, e).0.stage) < steps_left(c.stage),
        steps_left(request_step(c, e).0.stage) <= 8,
        request_step(c, e).1 is Finish <==> request_step(c, e).0.stage is Idle,
{
}

/// The status of a request is one of three: success, failure, or timed out.
pub proof fn law_three_statuses(c: ClientView, e: EventView)
    requires
        wf(c),
    ensures
        request_step(c, e).1 matches ActionView::Finish(status) ==> status == SUCCESS || status
            == FAILURE || status == TIMED_OUT,
{
}

/// A request succeeds exactly when the decoded reply arrives, and only then
/// does the stored reply change: it becomes that text.
pub proof fn law_reply_is_kept_until_success(c: ClientView, e: EventView)
    requires
        wf(c),
    ensures
        request_step(c, e).1 == ActionView::Finish(SUCCESS) <==> c.stage is Decoding && e is Text,
        (c.stage is Decoding && e is Text) ==> request_step(c, e).0.reply == Some(e->Text_0),
        !(c.stage is Decoding && e is Text) ==> request_step(c, e).0.reply == c.reply,
{
}

/// The connection changes in two steps only: it comes to be when connecting
/// succeeds, and it is given up when a poll ends without a readable reply.
/// Every other step, every failure among them, leaves it as it is.
pub proof fn law_connection_is_kept(c: ClientView, e: EventView)
    ensures
        connects(c, e) ==> request_step(c, e).0.sock is Some,
        times_out(c, e) ==> request_step(c, e).0.sock is None,
        !connects(c, e) && !times_out(c, e) ==> request_step(c, e).0.sock == c.sock,
{
}

/// A failure that the driver reports while the request travels over the live
/// connection ends the request with the failure status, records a message,
/// and leaves the connection in place.
pub proof fn law_failure_keeps_connection(c: ClientView, detail: Seq<char>)
    requires
        engaged(c.stage),
    ensures
        ({
            let (after, action) = request_step(c, EventView::Failed(detail));
            &&& action == ActionView::Finish(FAILURE)
            &&& after.sock == c.sock
            &&& after.stage is Idle
            &&& after.last_error matches Some(ErrorView::Native(_))
        }),
{
}

/// A failure while the connection is being set up leaves the client without
/// a connection, and the socket that was being set up is discarded before the
/// request ends.
pub proof fn law_failed_connection_is_discarded(c: ClientView, detail: Seq<char>, next: EventView)
    requires
        wf(c),
        connecting(c.stage),
    ensures
        ({
            let (after, action) = request_step(c, EventView::Failed(detail));
            let (last, end) = request_step(after, next);
            &&& after.sock is None
            &&& c.stage is Opening ==> action == ActionView::Finish(FAILURE)
            &&& !(c.stage is Opening) ==> action == ActionView::Close && end == ActionView::Finish(
                FAILURE,
            ) && last.sock is None
        }),
{
}

/// A poll that ends without a readable reply is a timeout: the connection is
/// given up and discarded, the request ends with the timeout status, and the
/// next request starts by setting up a connection from scratch.
pub proof fn law_timeout_reconnects(
    c: ClientView,
    revents: i16,
    closing: EventView,
    text: Result<Seq<char>, Seq<char>>,
    pretty: bool,
)
    requires
        wf(c),
        c.stage is Polling,
        !reply_ready(revents),
    ensures
        ({
            let (lost, first) = request_step(c, EventView::Polled(revents));
            let (idle, second) = request_step(lost, closing);
            let (again, third) = request_step(idle, EventView::Request { text, pretty });
            &&& first == ActionView::Close
            &&& lost.sock is None
            &&& lost.last_error == Some(ErrorView::Native("timed out"@))
            &&& second == ActionView::Finish(TIMED_OUT)
            &&& idle.stage is Idle
            &&& idle.sock is None
            &&& idle.config == c.config
            &&& third == ActionView::Open
            &&& again.stage is Opening
        }),
{
}

/// Blanking leaves no control character behind, keeps the length, and
/// touches nothing but control characters.
pub proof fn law_sanitized_has_no_control_character(text: Seq<char>)
    ensures
        sanitized(text).len() == text.len(),
        forall|i: int| 0 <= i < text.len() ==> !is_control(#[trigger] sanitized(text)[i]),
        forall|i: int|
            0 <= i < text.len() && !is_control(text[i]) ==> #[trigger] sanitized(text)[i]
                == text[i],
        forall|i: int|
            0 <= i < text.len() && is_control(text[i]) ==> #[trigger] sanitized(text)[i] == ' ',
{
}

/// Blanking twice changes nothing more.
pub proof fn law_sanitized_is_idempotent(text: Seq<char>)
    ensures
        sanitized(sanitized(text)) == sanitized(text),
{
    law_sanitized_has_no_control_character(text);
    assert(sanitized(sanitized(text)) =~= sanitized(text));
}

/// A request never reaches the parser with a control character in it: the
/// text handed over for encoding is the request's text with every control
/// character replaced by a space, and nothing else changed. A control
/// character is thus no reason to refuse a request.
pub proof fn law_parser_sees_no_control_character(c: ClientView)
    requires
        c.text is Ok,
    ensures
        prepared(c).1 == ActionView::Encode(sanitized(c.text->Ok_0)),
        prepared(c).0 == (ClientView { stage: Stage::Encoding, ..c }),
        forall|i: int|
            0 <= i < c.text->Ok_0.len() ==> !is_control(#[trigger] sanitized(c.text->Ok_0)[i]),
{
    law_sanitized_has_no_control_character(c.text->Ok_0);
}

/// A request whose bytes are no text is refused without being sent: the
/// request fails with the reason, and the connection stays.
pub proof fn law_malformed_text_is_refused(c: ClientView)
    requires
        c.text is Err,
    ensures
        prepared(c).1 == ActionView::Finish(FAILURE),
        prepared(c).0.sock == c.sock,
        prepared(c).0.last_error == Some(
            ErrorView::Native("request utf8 error: "@ + c.text->Err_0),
        ),
{
}

/// A request to a client that is neither connected nor configured fails at
/// once, and nothing is asked of the driver.
pub proof fn law_unconfigured_client_refuses(
    c: ClientView,
    text: Result<Seq<char>, Seq<char>>,
    pretty: bool,
)
    requires
        c.stage is Idle,
        c.sock is None,
        c.config is None,
    ensures
        request_step(c, EventView::Request { text, pretty }).1 == ActionView::Finish(FAILURE),
        request_step(c, EventView::Request { text, pretty }).0.last_error == Some(
            ErrorView::Native("not initialized"@),
        ),
{
}

/// A request that meets no failure runs its full course: a configured client
/// without a connection opens a socket, sets its linger period to zero,
/// connects to the configured address, has the blanked text encoded, sends
/// the very envelope that encoding gave, polls with the configured wait,
/// receives, has the very envelope decoded that was received, and ends in
/// success with the decoded text as its reply, connected and idle.
pub proof fn law_round_trip(
    c: ClientView,
    text: Seq<char>,
    pretty: bool,
    sent: Seq<u8>,
    revents: i16,
    received: Seq<u8>,
    reply: Seq<char>,
)
    requires
        wf(c),
        c.stage is Idle,
        c.sock is None,
        c.config is Some,
        reply_ready(revents),
    ensures
        ({
            let (c1, a1) = request_step(c, EventView::Request { text: Ok(text), pretty });
            let (c2, a2) = request_step(c1, EventView::Done);
            let (c3, a3) = request_step(c2, EventView::Done);
            let (c4, a4) = request_step(c3, EventView::Done);
            let (c5, a5) = request_step(c4, EventView::Frame(sent));
            let (c6, a6) = request_step(c5, EventView::Done);
            let (c7, a7) = request_step(c6, EventView::Polled(revents));
            let (c8, a8) = request_step(c7, EventView::Frame(received));
            let (c9, a9) = request_step(c8, EventView::Text(reply));
            &&& a1 == ActionView::Open
            &&& a2 == ActionView::Linger(ZERO_LINGER)
            &&& a3 == ActionView::Connect(endpoint(c))
            &&& a4 == ActionView::Encode(sanitized(text))
            &&& a5 == ActionView::Send(sent)
            &&& a6 == ActionView::Poll(poll_wait(c.config))
            &&& a7 == ActionView::Receive
            &&& a8 == ActionView::Decode(received, pretty)
            &&& a9 == ActionView::Finish(SUCCESS)
            &&& c9.reply == Some(reply)
            &&& c9.sock == Some(endpoint(c))
            &&& c9.stage is Idle
            &&& c9.config == c.config
            &&& c9.last_error == c.last_error
        }),
{
}

/// A client that holds a connection uses it: the next request is prepared at
/// once, and no socket is opened.
pub proof fn law_connection_is_reused(c: ClientView, text: Seq<char>, pretty: bool)
    requires
        c.stage is Idle,
        c.sock is Some,
    ensures
        ({
            let (after, action) = request_step(c, EventView::Request { text: Ok(text), pretty });
            &&& action == ActionView::Encode(sanitized(text))
            &&& after.sock == c.sock
            &&& after.stage is Encoding
        }),
{
}

} // verus!
