use chat_application::event::{first_ipv6, serve_request, Address, Request};
use chat_application::frame::{fits_datagram, received_payload, MAX_DATAGRAM, RECEIVE_BUFFER};
use chat_application::log::{ChatApp, ChatCommand, ChatResponse};
use chat_application::message::{Message, Timestamp};

#[test]
fn server_answers_the_requesting_client() {
    let mut app = ChatApp::new();
    let client = Address { ip: 9, port: 4000 };
    let m = Message::with_time("s".to_string(), "t".to_string(), Timestamp { secs: 1, nanos: 2 });
    let (to, res) = serve_request(
        &mut app,
        Request { command: ChatCommand::Post(m.clone()), sequence_number: 3, client },
    );
    assert_eq!(to, client);
    assert_eq!(res.sequence_number, 3);
    assert_eq!(res.result, ChatResponse::PostOk);
    let (_, res) = serve_request(
        &mut app,
        Request { command: ChatCommand::GetLatest(0), sequence_number: 4, client },
    );
    assert_eq!(res.result, ChatResponse::Latest(vec![m], 1));
    assert_eq!(res.sequence_number, 4);
}

#[test]
fn first_ipv6_skips_other_families() {
    let a = Address { ip: 1, port: 80 };
    let b = Address { ip: 2, port: 81 };
    assert_eq!(first_ipv6(&vec![None, Some(a), Some(b)]), Some(a));
    assert_eq!(first_ipv6(&vec![None, None]), None);
    assert_eq!(first_ipv6(&vec![]), None);
}

#[test]
fn payload_is_the_received_prefix() {
    let mut buf: Vec<u8> = vec![0; 16];
    buf[0] = 7;
    buf[1] = 8;
    buf[2] = 9;
    assert_eq!(received_payload(&buf, 3), Some(vec![7, 8, 9]));
    assert_eq!(received_payload(&buf, 0), Some(vec![]));
    assert_eq!(received_payload(&buf, 16), None);
    assert_eq!(received_payload(&buf, 17), None);
}

#[test]
fn datagram_size_limit() {
    assert!(fits_datagram(&vec![0; MAX_DATAGRAM]));
    assert!(!fits_datagram(&vec![0; MAX_DATAGRAM + 1]));
    assert!(MAX_DATAGRAM < RECEIVE_BUFFER);
}
