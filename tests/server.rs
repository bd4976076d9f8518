use chat_application::event::{Address, Request};
use chat_application::log::{ChatApp, ChatCommand, ChatResponse};
use chat_application::message::{Message, Timestamp};
use chat_application::server::ChatServer;

fn post(text: &str, seq: u64, client: Address) -> Request {
    let m = Message::with_time("s".to_string(), text.to_string(), Timestamp { secs: 5, nanos: 0 });
    Request { command: ChatCommand::Post(m), sequence_number: seq, client }
}

#[test]
fn resent_post_runs_once() {
    let mut server = ChatServer::new(ChatApp::new());
    let c = Address { ip: 1, port: 9 };
    let (to, res) = server.handle(post("a", 1, c)).unwrap();
    assert_eq!(to, c);
    assert_eq!(res.result, ChatResponse::PostOk);
    let (_, again) = server.handle(post("a", 1, c)).unwrap();
    assert_eq!(again.result, ChatResponse::PostOk);
    assert_eq!(again.sequence_number, 1);
    assert_eq!(server.app().version(), 1);
    assert_eq!(server.app().len(), 1);
}

#[test]
fn older_request_is_dropped() {
    let mut server = ChatServer::new(ChatApp::new());
    let c = Address { ip: 1, port: 9 };
    server.handle(post("a", 1, c)).unwrap();
    server.handle(post("b", 2, c)).unwrap();
    assert!(server.handle(post("a", 1, c)).is_none());
    assert_eq!(server.app().version(), 2);
}

#[test]
fn repeated_query_gets_the_remembered_answer() {
    let mut server = ChatServer::new(ChatApp::new());
    let a = Address { ip: 1, port: 9 };
    let b = Address { ip: 2, port: 9 };
    server.handle(post("x", 1, a)).unwrap();
    let q = Request { command: ChatCommand::GetLatest(0), sequence_number: 1, client: b };
    let (_, first) = server.handle(q.clone()).unwrap();
    server.handle(post("y", 2, a)).unwrap();
    let (_, second) = server.handle(q).unwrap();
    assert_eq!(first, second);
    match second.result {
        ChatResponse::Latest(h, v) => {
            assert_eq!(v, 1);
            assert_eq!(h.len(), 1);
            assert_eq!(h[0].text, "x");
        }
        other => panic!("expected a snapshot, got {:?}", other),
    }
    assert_eq!(server.app().version(), 2);
}

#[test]
fn clients_are_kept_apart() {
    let mut server = ChatServer::new(ChatApp::new());
    let a = Address { ip: 1, port: 9 };
    let b = Address { ip: 1, port: 10 };
    server.handle(post("from a", 1, a)).unwrap();
    server.handle(post("from b", 1, b)).unwrap();
    assert_eq!(server.app().version(), 2);
}

#[test]
fn response_clone_keeps_history() {
    let m = Message::with_time("s".to_string(), "t".to_string(), Timestamp { secs: 1, nanos: 1 });
    let r = ChatResponse::Latest(vec![m], 3);
    assert_eq!(r.clone(), r);
}

#[test]
fn clock_reads_now() {
    let t = Timestamp::now();
    assert!(t.nanos < 1_000_000_000);
    assert!(t.secs > 1_500_000_000);
}
