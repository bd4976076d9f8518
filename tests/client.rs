use chat_application::client::{ChatClient, RESEND_MILLIS};
use chat_application::event::{Address, Request, ResendTimer, Response};
use chat_application::log::{ChatCommand, ChatResponse};
use chat_application::message::{Message, Timestamp};

fn me() -> Address {
    Address { ip: 1, port: 8081 }
}

fn server() -> Address {
    Address { ip: 1, port: 8080 }
}

fn at(secs: i64) -> Timestamp {
    Timestamp { secs, nanos: 5 }
}

#[test]
fn submit_posts_under_the_clients_name() {
    let mut c = ChatClient::new(me(), server(), "ann".to_string());
    let out = c.submit("hi".to_string(), at(3)).expect("nothing in flight");
    assert_eq!(out.to, server());
    assert_eq!(out.timer, ResendTimer(1));
    assert_eq!(out.delay, RESEND_MILLIS);
    assert_eq!(
        out.request,
        Request {
            command: ChatCommand::Post(Message::with_time("ann".to_string(), "hi".to_string(), at(3))),
            sequence_number: 1,
            client: me(),
        }
    );
    assert!(c.is_waiting());
    assert_eq!(c.sequence_number(), 1);
}

#[test]
fn nothing_new_starts_while_waiting() {
    let mut c = ChatClient::new(me(), server(), "ann".to_string());
    assert!(c.poll().is_some());
    assert!(c.poll().is_none());
    assert!(c.submit("x".to_string(), at(1)).is_none());
    assert_eq!(c.sequence_number(), 1);
}

#[test]
fn poll_asks_since_latest_version() {
    let mut c = ChatClient::new(me(), server(), "ann".to_string());
    let out = c.poll().unwrap();
    assert_eq!(out.request.command, ChatCommand::GetLatest(0));
    let history = vec![Message::with_time("bob".to_string(), "yo".to_string(), at(2))];
    let shown = c.on_response(Response {
        result: ChatResponse::Latest(history.clone(), 4),
        sequence_number: 1,
    });
    assert_eq!(shown, Some(history));
    assert_eq!(c.latest_id(), 4);
    assert!(!c.is_waiting());
    let out = c.poll().unwrap();
    assert_eq!(out.request.command, ChatCommand::GetLatest(4));
    assert_eq!(out.request.sequence_number, 2);
}

#[test]
fn older_history_is_not_shown() {
    let mut c = ChatClient::new(me(), server(), "ann".to_string());
    c.poll().unwrap();
    c.on_response(Response { result: ChatResponse::Latest(vec![], 5), sequence_number: 1 });
    c.poll().unwrap();
    let shown = c.on_response(Response { result: ChatResponse::Latest(vec![], 3), sequence_number: 2 });
    assert_eq!(shown, None);
    assert_eq!(c.latest_id(), 5);
    assert!(!c.is_waiting());
}

#[test]
fn stale_response_is_ignored() {
    let mut c = ChatClient::new(me(), server(), "ann".to_string());
    c.poll().unwrap();
    let shown = c.on_response(Response { result: ChatResponse::NoUpdate, sequence_number: 7 });
    assert_eq!(shown, None);
    assert!(c.is_waiting());
    assert_eq!(c.on_response(Response { result: ChatResponse::NoUpdate, sequence_number: 1 }), None);
    assert!(!c.is_waiting());
}

#[test]
fn timer_resends_the_request_in_flight() {
    let mut c = ChatClient::new(me(), server(), "ann".to_string());
    let first = c.submit("again".to_string(), at(9)).unwrap();
    let again = c.on_timer(ResendTimer(1)).unwrap();
    assert_eq!(again.request, first.request);
    assert_eq!(again.timer, ResendTimer(1));
    assert_eq!(again.to, server());
    assert!(c.on_timer(ResendTimer(0)).is_none());
    c.on_response(Response { result: ChatResponse::PostOk, sequence_number: 1 });
    assert!(c.on_timer(ResendTimer(1)).is_none());
}
