use dupl_client::dupl_client_create;
use dupl_client::dupl_client_init;
use dupl_client::dupl_client_last_error;
use dupl_client::dupl_client_request;
use dupl_client::Action;
use dupl_client::DuplClient;
use dupl_client::ErrorMsg;
use dupl_client::Event;
use dupl_client::Stage;

const ADDR: &str = "ipc:///tmp/sock_b";

fn configured(timeout: u64) -> Option<DuplClient> {
    let mut client: Option<DuplClient> = None;
    assert_eq!(dupl_client_create(&mut client), 0);
    assert_eq!(dupl_client_init(client.as_mut(), ADDR.as_bytes(), timeout), 0);
    client
}

fn step(client: &mut Option<DuplClient>, event: Event) -> Action {
    dupl_client_request(client.as_mut(), event)
}

fn ask(client: &mut Option<DuplClient>, body: &[u8], pretty: bool) -> Action {
    step(client, Event::request(body, pretty))
}

fn native_error(client: &Option<DuplClient>) -> String {
    match client.as_ref().unwrap().last_error() {
        Some(ErrorMsg::Native(message)) => message.clone(),
        _ => panic!("a native message is expected"),
    }
}

fn stage(client: &Option<DuplClient>) -> Stage {
    client.as_ref().unwrap().stage()
}

fn connected(client: &Option<DuplClient>) -> bool {
    client.as_ref().unwrap().is_connected()
}

/// Takes a configured client through a request up to the given stage.
fn at(target: Stage, timeout: u64) -> Option<DuplClient> {
    let mut client = configured(timeout);
    assert_eq!(ask(&mut client, b"{\"k\": 1}", false), Action::Open);
    let script = [
        (Stage::Opening, Event::Done),
        (Stage::Lingering, Event::Done),
        (Stage::Connecting, Event::Done),
        (Stage::Encoding, Event::Frame(vec![1, 2, 3])),
        (Stage::Sending, Event::Done),
        (Stage::Polling, Event::Polled(1)),
        (Stage::Receiving, Event::Frame(vec![4, 5])),
        (Stage::Decoding, Event::Text("never".to_string())),
    ];
    for (here, event) in script {
        assert_eq!(stage(&client), here);
        if here == target {
            return client;
        }
        step(&mut client, event);
    }
    panic!("no request is at that stage")
}

#[test]
fn request_runs_through_its_stages() {
    let mut client = configured(1000);
    assert_eq!(ask(&mut client, b"{\"text\": \"some text to lookup\"}", true), Action::Open);
    assert_eq!(stage(&client), Stage::Opening);
    assert!(!connected(&client));
    assert_eq!(step(&mut client, Event::Done), Action::Linger(0));
    assert_eq!(stage(&client), Stage::Lingering);
    assert!(!connected(&client));
    assert_eq!(step(&mut client, Event::Done), Action::Connect(ADDR.to_string()));
    assert_eq!(stage(&client), Stage::Connecting);
    assert!(!connected(&client));
    assert_eq!(
        step(&mut client, Event::Done),
        Action::Encode("{\"text\": \"some text to lookup\"}".to_string())
    );
    assert_eq!(stage(&client), Stage::Encoding);
    assert!(connected(&client));
    assert_eq!(step(&mut client, Event::Frame(vec![9, 8, 7])), Action::Send(vec![9, 8, 7]));
    assert_eq!(stage(&client), Stage::Sending);
    assert_eq!(step(&mut client, Event::Done), Action::Poll(1000));
    assert_eq!(stage(&client), Stage::Polling);
    assert_eq!(step(&mut client, Event::Polled(1)), Action::Receive);
    assert_eq!(stage(&client), Stage::Receiving);
    assert_eq!(step(&mut client, Event::Frame(vec![6, 5])), Action::Decode(vec![6, 5], true));
    assert_eq!(stage(&client), Stage::Decoding);
    assert_eq!(step(&mut client, Event::Text("{\"rep\": 177}".to_string())), Action::Finish(0));
    assert_eq!(stage(&client), Stage::Idle);
    assert!(connected(&client));
    assert_eq!(client.as_ref().unwrap().reply(), Some("{\"rep\": 177}"));
    assert!(client.as_ref().unwrap().last_error().is_none());
}

#[test]
fn second_request_reuses_the_connection() {
    let mut client = at(Stage::Decoding, 1000);
    assert_eq!(step(&mut client, Event::Text("first".to_string())), Action::Finish(0));
    assert_eq!(ask(&mut client, b"[2]", false), Action::Encode("[2]".to_string()));
    assert_eq!(step(&mut client, Event::Frame(vec![2])), Action::Send(vec![2]));
    assert_eq!(step(&mut client, Event::Done), Action::Poll(1000));
    assert_eq!(step(&mut client, Event::Polled(1)), Action::Receive);
    assert_eq!(step(&mut client, Event::Frame(vec![3])), Action::Decode(vec![3], false));
    assert_eq!(client.as_ref().unwrap().reply(), Some("first"));
    assert_eq!(step(&mut client, Event::Text("second".to_string())), Action::Finish(0));
    assert_eq!(client.as_ref().unwrap().reply(), Some("second"));
    assert!(connected(&client));
}

#[test]
fn request_needs_a_configuration() {
    let mut client: Option<DuplClient> = None;
    assert_eq!(dupl_client_create(&mut client), 0);
    assert_eq!(ask(&mut client, b"{}", false), Action::Finish(1));
    assert_eq!(native_error(&client), "not initialized");
    assert_eq!(stage(&client), Stage::Idle);
    assert!(!connected(&client));
    assert_eq!(dupl_client_last_error(client.as_mut()), Some(&b"not initialized\0"[..]));
}

#[test]
fn unconfigured_client_refuses_before_it_reads_the_request() {
    let mut client: Option<DuplClient> = None;
    assert_eq!(dupl_client_create(&mut client), 0);
    assert_eq!(ask(&mut client, &[0xff, 0xfe], false), Action::Finish(1));
    assert_eq!(native_error(&client), "not initialized");
}

#[test]
fn timeout_gives_up_the_connection() {
    let mut client = at(Stage::Polling, 50);
    assert!(connected(&client));
    assert_eq!(step(&mut client, Event::Polled(0)), Action::Close);
    assert!(!connected(&client));
    assert_eq!(stage(&client), Stage::Closing(-1));
    assert_eq!(native_error(&client), "timed out");
    assert_eq!(step(&mut client, Event::Done), Action::Finish(-1));
    assert_eq!(stage(&client), Stage::Idle);
    assert!(!connected(&client));
    assert!(client.as_ref().unwrap().reply().is_none());
    assert_eq!(dupl_client_last_error(client.as_mut()), Some(&b"timed out\0"[..]));
}

#[test]
fn request_after_timeout_connects_anew() {
    let mut client = at(Stage::Polling, 50);
    assert_eq!(step(&mut client, Event::Polled(0)), Action::Close);
    assert_eq!(step(&mut client, Event::Done), Action::Finish(-1));
    assert_eq!(ask(&mut client, b"{}", false), Action::Open);
    assert_eq!(step(&mut client, Event::Done), Action::Linger(0));
    assert_eq!(step(&mut client, Event::Done), Action::Connect(ADDR.to_string()));
    assert_eq!(step(&mut client, Event::Done), Action::Encode("{}".to_string()));
    assert!(connected(&client));
    assert_eq!(
        client.as_ref().unwrap().config().unwrap().connect_addr(),
        ADDR
    );
}

#[test]
fn timeout_keeps_the_earlier_reply() {
    let mut client = at(Stage::Decoding, 50);
    assert_eq!(step(&mut client, Event::Text("kept".to_string())), Action::Finish(0));
    assert_eq!(ask(&mut client, b"{}", false), Action::Encode("{}".to_string()));
    assert_eq!(step(&mut client, Event::Frame(vec![1])), Action::Send(vec![1]));
    assert_eq!(step(&mut client, Event::Done), Action::Poll(50));
    assert_eq!(step(&mut client, Event::Polled(0)), Action::Close);
    assert_eq!(step(&mut client, Event::Done), Action::Finish(-1));
    assert_eq!(client.as_ref().unwrap().reply(), Some("kept"));
}

#[test]
fn poll_waits_as_configured() {
    let cases: [(u64, i64); 7] = [
        (1, 1),
        (50, 50),
        (1000, 1000),
        (0x7fff_ffff_ffff_ffff, 0x7fff_ffff_ffff_ffff),
        (0, -1),
        (0x8000_0000_0000_0000, -1),
        (0xffff_ffff_ffff_ffff, -1),
    ];
    for (timeout, wait) in cases {
        let mut client = at(Stage::Sending, timeout);
        assert_eq!(step(&mut client, Event::Done), Action::Poll(wait));
    }
}

#[test]
fn reply_is_ready_when_reading_alone_is_signalled() {
    for revents in -64i16..64 {
        let mut client = at(Stage::Polling, 1000);
        let expected = if revents & 7 == 1 { Action::Receive } else { Action::Close };
        assert_eq!(step(&mut client, Event::Polled(revents)), expected);
    }
    let cases: [(i16, bool); 10] = [
        (0, false),
        (1, true),
        (2, false),
        (3, false),
        (4, false),
        (5, false),
        (7, false),
        (8, false),
        (9, true),
        (i16::MIN + 1, true),
    ];
    for (revents, ready) in cases {
        let mut client = at(Stage::Polling, 1000);
        let action = step(&mut client, Event::Polled(revents));
        assert_eq!(action == Action::Receive, ready);
        assert_eq!(action == Action::Close, !ready);
    }
}

#[test]
fn reading_bit_is_the_transport_s() {
    assert_eq!(zmq::POLLIN.bits(), 1);
    assert_eq!((zmq::POLLIN | zmq::POLLOUT | zmq::POLLERR).bits(), 7);
    assert_eq!(zmq::PollEvents::all().bits(), 7);
}

#[test]
fn failure_is_reported_with_the_name_of_the_action() {
    let cases = [
        (Stage::Opening, "zmq socket failed: boom", Action::Finish(1)),
        (Stage::Lingering, "zmq zero linger failed: boom", Action::Close),
        (Stage::Connecting, "zmq connect to ipc:///tmp/sock_b failed: boom", Action::Close),
        (Stage::Encoding, "request parse failed: boom", Action::Finish(1)),
        (Stage::Sending, "zmq send failed: boom", Action::Finish(1)),
        (Stage::Polling, "zmq poll failed: boom", Action::Finish(1)),
        (Stage::Receiving, "zmq recv failed: boom", Action::Finish(1)),
        (Stage::Decoding, "rep packet decoding fail: boom", Action::Finish(1)),
    ];
    for (here, message, action) in cases {
        let mut client = at(here, 1000);
        assert_eq!(step(&mut client, Event::Failed("boom".to_string())), action);
        assert_eq!(native_error(&client), message);
    }
}

#[test]
fn failure_over_the_connection_keeps_it() {
    let stages = [
        Stage::Encoding,
        Stage::Sending,
        Stage::Polling,
        Stage::Receiving,
        Stage::Decoding,
    ];
    for here in stages {
        let mut client = at(here, 1000);
        assert!(connected(&client));
        assert_eq!(step(&mut client, Event::Failed("boom".to_string())), Action::Finish(1));
        assert!(connected(&client));
        assert_eq!(stage(&client), Stage::Idle);
        assert!(client.as_ref().unwrap().reply().is_none());
        assert_eq!(ask(&mut client, b"{}", false), Action::Encode("{}".to_string()));
    }
}

#[test]
fn failure_to_open_ends_the_request() {
    let mut client = at(Stage::Opening, 1000);
    assert_eq!(step(&mut client, Event::Failed("boom".to_string())), Action::Finish(1));
    assert_eq!(stage(&client), Stage::Idle);
    assert!(!connected(&client));
    assert_eq!(ask(&mut client, b"{}", false), Action::Open);
}

#[test]
fn failure_to_connect_discards_the_socket() {
    for here in [Stage::Lingering, Stage::Connecting] {
        let mut client = at(here, 1000);
        assert_eq!(step(&mut client, Event::Failed("boom".to_string())), Action::Close);
        assert_eq!(stage(&client), Stage::Closing(1));
        assert!(!connected(&client));
        assert_eq!(step(&mut client, Event::Done), Action::Finish(1));
        assert_eq!(stage(&client), Stage::Idle);
        assert!(!connected(&client));
        assert_eq!(ask(&mut client, b"{}", false), Action::Open);
    }
}

#[test]
fn unexpected_event_counts_as_failure() {
    let mut client = at(Stage::Sending, 1000);
    assert_eq!(step(&mut client, Event::Frame(vec![1])), Action::Finish(1));
    assert_eq!(native_error(&client), "zmq send failed: unexpected event");
    assert!(connected(&client));

    let mut client = at(Stage::Polling, 1000);
    assert_eq!(ask(&mut client, b"{}", false), Action::Finish(1));
    assert_eq!(native_error(&client), "zmq poll failed: unexpected event");
    assert_eq!(stage(&client), Stage::Idle);

    let mut client = at(Stage::Connecting, 1000);
    assert_eq!(step(&mut client, Event::Polled(1)), Action::Close);
    assert_eq!(native_error(&client), "zmq connect to ipc:///tmp/sock_b failed: unexpected event");
    assert_eq!(step(&mut client, Event::Text("x".to_string())), Action::Finish(1));

    let mut client = at(Stage::Decoding, 1000);
    assert_eq!(step(&mut client, Event::Done), Action::Finish(1));
    assert_eq!(native_error(&client), "rep packet decoding fail: unexpected event");
    assert!(client.as_ref().unwrap().reply().is_none());
}

#[test]
fn stray_event_at_idle_client_changes_nothing() {
    let events = [
        Event::Done,
        Event::Failed("boom".to_string()),
        Event::Frame(vec![1]),
        Event::Polled(1),
        Event::Text("x".to_string()),
    ];
    for event in events {
        let mut client = configured(1000);
        assert_eq!(step(&mut client, event), Action::Finish(1));
        assert!(client.as_ref().unwrap().last_error().is_none());
        assert!(client.as_ref().unwrap().reply().is_none());
        assert_eq!(stage(&client), Stage::Idle);
        assert!(!connected(&client));
    }
}

#[test]
fn request_that_is_not_text_is_refused() {
    let body: [u8; 5] = [b'{', 0xff, b'"', b'}', b' '];
    let reason = match std::str::from_utf8(&body) {
        Ok(_) => panic!("the body is not UTF-8"),
        Err(e) => format!("{}", e),
    };
    let mut client = configured(1000);
    assert_eq!(ask(&mut client, &body, false), Action::Open);
    assert_eq!(step(&mut client, Event::Done), Action::Linger(0));
    assert_eq!(step(&mut client, Event::Done), Action::Connect(ADDR.to_string()));
    assert_eq!(step(&mut client, Event::Done), Action::Finish(1));
    assert_eq!(native_error(&client), format!("request utf8 error: {}", reason));
    assert_eq!(
        native_error(&client),
        "request utf8 error: invalid utf-8 sequence of 1 bytes from index 1"
    );
    assert!(connected(&client));
    assert_eq!(stage(&client), Stage::Idle);
    assert_eq!(ask(&mut client, &body, false), Action::Finish(1));
    assert!(connected(&client));
}

#[test]
fn request_that_ends_inside_a_character_is_refused() {
    let body: [u8; 3] = [b'"', 0xe2, 0x82];
    let mut client = at(Stage::Decoding, 1000);
    assert_eq!(step(&mut client, Event::Text("ok".to_string())), Action::Finish(0));
    assert_eq!(ask(&mut client, &body, false), Action::Finish(1));
    assert_eq!(
        native_error(&client),
        "request utf8 error: incomplete utf-8 byte sequence from index 1"
    );
    assert_eq!(client.as_ref().unwrap().reply(), Some("ok"));
}

#[test]
fn control_characters_are_blanked_before_parsing() {
    let mut client = at(Stage::Decoding, 1000);
    assert_eq!(step(&mut client, Event::Text("ok".to_string())), Action::Finish(0));
    let body = "{\"text\": \"line one\nline two\",\r\n\t\"n\": 1}\u{0}\u{1f}\u{7f}\u{85}\u{9f}\u{a0}";
    assert_eq!(
        ask(&mut client, body.as_bytes(), false),
        Action::Encode("{\"text\": \"line one line two\",   \"n\": 1}     \u{a0}".to_string())
    );
}

#[test]
fn parse_error_after_blanking_is_reported() {
    let mut client = at(Stage::Decoding, 1000);
    assert_eq!(step(&mut client, Event::Text("ok".to_string())), Action::Finish(0));
    assert_eq!(ask(&mut client, b"{\"a\"\n1}", false), Action::Encode("{\"a\" 1}".to_string()));
    assert_eq!(
        step(&mut client, Event::Failed("expected `:` at line 1 column 6".to_string())),
        Action::Finish(1)
    );
    assert_eq!(native_error(&client), "request parse failed: expected `:` at line 1 column 6");
    assert!(connected(&client));
}

#[test]
fn empty_request_is_handed_to_the_parser() {
    let mut client = at(Stage::Decoding, 1000);
    assert_eq!(step(&mut client, Event::Text("ok".to_string())), Action::Finish(0));
    assert_eq!(ask(&mut client, b"", false), Action::Encode(String::new()));
}

#[test]
fn pretty_flag_reaches_the_decoder() {
    for pretty in [false, true] {
        let mut client = configured(1000);
        assert_eq!(ask(&mut client, b"{}", pretty), Action::Open);
        step(&mut client, Event::Done);
        step(&mut client, Event::Done);
        step(&mut client, Event::Done);
        step(&mut client, Event::Frame(vec![1]));
        step(&mut client, Event::Done);
        step(&mut client, Event::Polled(1));
        assert_eq!(step(&mut client, Event::Frame(vec![7, 7])), Action::Decode(vec![7, 7], pretty));
    }
}

#[test]
fn error_is_overwritten_not_appended() {
    let mut client = at(Stage::Sending, 1000);
    assert_eq!(step(&mut client, Event::Failed("first".to_string())), Action::Finish(1));
    assert_eq!(native_error(&client), "zmq send failed: first");
    assert_eq!(ask(&mut client, b"{}", false), Action::Encode("{}".to_string()));
    assert_eq!(step(&mut client, Event::Failed("second".to_string())), Action::Finish(1));
    assert_eq!(native_error(&client), "request parse failed: second");
}

#[test]
fn success_leaves_the_last_error_in_place() {
    let mut client = at(Stage::Sending, 1000);
    assert_eq!(step(&mut client, Event::Failed("first".to_string())), Action::Finish(1));
    assert_eq!(ask(&mut client, b"{}", false), Action::Encode("{}".to_string()));
    step(&mut client, Event::Frame(vec![1]));
    step(&mut client, Event::Done);
    step(&mut client, Event::Polled(1));
    step(&mut client, Event::Frame(vec![1]));
    assert_eq!(step(&mut client, Event::Text("fine".to_string())), Action::Finish(0));
    assert_eq!(native_error(&client), "zmq send failed: first");
}

#[test]
fn request_takes_nine_steps_at_most() {
    let mut client = configured(1000);
    let mut action = ask(&mut client, b"{}", false);
    let mut steps = 1;
    while action != Action::Finish(1) {
        action = step(&mut client, Event::Failed("boom".to_string()));
        steps += 1;
        assert!(steps <= 9);
    }
    let mut client = configured(1000);
    let mut action = ask(&mut client, b"{}", false);
    let mut steps = 1;
    while action != Action::Finish(0) {
        let event = match action {
            Action::Encode(_) | Action::Receive => Event::Frame(vec![1]),
            Action::Poll(_) => Event::Polled(1),
            Action::Decode(_, _) => Event::Text("t".to_string()),
            _ => Event::Done,
        };
        action = step(&mut client, event);
        steps += 1;
        assert!(steps <= 9);
    }
    assert_eq!(steps, 9);
}

#[test]
fn request_event_reads_the_body() {
    assert_eq!(
        Event::request(b"{\"k\": 1}", true),
        Event::Request { text: Ok("{\"k\": 1}".to_string()), pretty: true }
    );
    assert_eq!(
        Event::request("\u{e9}\n".as_bytes(), false),
        Event::Request { text: Ok("\u{e9}\n".to_string()), pretty: false }
    );
    assert_eq!(
        Event::request(&[b'a', 0xff], false),
        Event::Request {
            text: Err("invalid utf-8 sequence of 1 bytes from index 1".to_string()),
            pretty: false
        }
    );
}

#[test]
fn request_that_could_not_be_read_fails_with_the_reason() {
    let mut client = at(Stage::Decoding, 1000);
    assert_eq!(step(&mut client, Event::Text("ok".to_string())), Action::Finish(0));
    let event = Event::Request { text: Err("no text at all".to_string()), pretty: false };
    assert_eq!(step(&mut client, event), Action::Finish(1));
    assert_eq!(native_error(&client), "request utf8 error: no text at all");
    assert!(connected(&client));
}

#[test]
fn request_that_could_not_be_read_still_connects_first() {
    let mut client = configured(1000);
    let event = Event::Request { text: Err("no text at all".to_string()), pretty: false };
    assert_eq!(step(&mut client, event), Action::Open);
    assert_eq!(step(&mut client, Event::Failed("boom".to_string())), Action::Finish(1));
    assert_eq!(native_error(&client), "zmq socket failed: boom");
}
