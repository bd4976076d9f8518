use vstd::prelude::*;
use crate::event::{Address, Request, Response, ResendTimer};
use crate::log::{ChatCommand, ChatResponse};
use crate::message::{Message, Timestamp};

verus! {

/// How long a client waits for an answer before it sends a request again,
/// in milliseconds.
pub const RESEND_MILLIS: u64 = 100;

/// How often an idle client asks the server for news, in milliseconds.
pub const POLL_MILLIS: u64 = 500;

/// A request to put on the wire, with the timer to arm beside it.
#[derive(Debug)]
pub struct Outgoing {
    pub to: Address,
    pub request: Request,
    pub timer: ResendTimer,
    pub delay: u64,
}

/// The client side of the chat: at most one request in flight, numbered in
/// sequence and sent again each time its timer fires until the answer
/// comes, and the latest history version seen.
#[derive(Debug)]
pub struct ChatClient {
    me: Address,
    server: Address,
    name: String,
    sequence_number: u64,
    in_flight: Option<Request>,
    latest_id: usize,
}

/// What the client sends when it starts `command` with sequence number
/// `seq`.
pub open spec fn outgoing_for(
    me: Address,
    server: Address,
    command: ChatCommand,
    seq: u64,
) -> Outgoing {
    Outgoing {
        to: server,
        request: Request { command, sequence_number: seq, client: me },
        timer: ResendTimer(seq),
        delay: RESEND_MILLIS,
    }
}

/// `a` and `b` are the same client: same address, server and name.
pub open spec fn same_identity(a: ChatClient, b: ChatClient) -> bool {
    &&& a.spec_me() == b.spec_me()
    &&& a.spec_server() == b.spec_server()
    &&& a.spec_name() == b.spec_name()
}

impl ChatClient {
    pub closed spec fn spec_me(&self) -> Address {
        self.me
    }

    pub closed spec fn spec_server(&self) -> Address {
        self.server
    }

    pub closed spec fn spec_name(&self) -> String {
        self.name
    }

    /// The number of the last request started.
    pub closed spec fn spec_sequence_number(&self) -> u64 {
        self.sequence_number
    }

    /// The request still waiting for its answer, if any.
    pub closed spec fn spec_in_flight(&self) -> Option<Request> {
        self.in_flight
    }

    /// The latest history version received.
    pub closed spec fn spec_latest_id(&self) -> usize {
        self.latest_id
    }

    /// A client at `me`, called `name`, talking to the server at `server`,
    /// with nothing sent yet.
    pub fn new(me: Address, server: Address, name: String) -> (r: ChatClient)
        ensures
            r.spec_me() == me,
            r.spec_server() == server,
            r.spec_name() == name,
            r.spec_sequence_number() == 0,
            r.spec_in_flight() is None,
            r.spec_latest_id() == 0,
    {
        ChatClient { me, server, name, sequence_number: 0, in_flight: None, latest_id: 0 }
    }

    /// The number of the last request started.
    pub fn sequence_number(&self) -> (r: u64)
        ensures
            r == self.spec_sequence_number(),
    {
        self.sequence_number
    }

    /// Whether a request is waiting for its answer.
    pub fn is_waiting(&self) -> (r: bool)
        ensures
            r == self.spec_in_flight() is Some,
    {
        self.in_flight.is_some()
    }

    /// The latest history version received.
    pub fn latest_id(&self) -> (r: usize)
        ensures
            r == self.spec_latest_id(),
    {
        self.latest_id
    }

    /// Starts `command` under the next sequence number, when no request is
    /// in flight; otherwise changes nothing and sends nothing.
    fn start(&mut self, command: ChatCommand) -> (r: Option<Outgoing>)
        requires
            old(self).spec_sequence_number() < u64::MAX,
        ensures
            old(self).spec_in_flight() is Some ==> r is None && *final(self) == *old(self),
            old(self).spec_in_flight() is None ==> {
                let seq = (old(self).spec_sequence_number() + 1) as u64;
                let out = outgoing_for(old(self).spec_me(), old(self).spec_server(), command, seq);
                &&& r == Some(out)
                &&& final(self).spec_in_flight() == Some(out.request)
                &&& final(self).spec_sequence_number() == seq
                &&& final(self).spec_latest_id() == old(self).spec_latest_id()
                &&& same_identity(*old(self), *final(self))
            },
    {
        if self.in_flight.is_some() {
            return None;
        }
        self.sequence_number = self.sequence_number + 1;
        let request = Request {
            command,
            sequence_number: self.sequence_number,
            client: self.me,
        };
        self.in_flight = Some(request.clone());
        Some(
            Outgoing {
                to: self.server,
                request,
                timer: ResendTimer(self.sequence_number),
                delay: RESEND_MILLIS,
            },
        )
    }

    /// The user submitted `text` at `sent_time`: post it under the client's
    /// name, unless a request is still in flight.
    pub fn submit(&mut self, text: String, sent_time: Timestamp) -> (r: Option<Outgoing>)
        requires
            old(self).spec_sequence_number() < u64::MAX,
        ensures
            old(self).spec_in_flight() is Some ==> r is None && *final(self) == *old(self),
            old(self).spec_in_flight() is None ==> {
                let seq = (old(self).spec_sequence_number() + 1) as u64;
                let m = Message { text, sent_time, sender: old(self).spec_name() };
                let out = outgoing_for(
                    old(self).spec_me(),
                    old(self).spec_server(),
                    ChatCommand::Post(m),
                    seq,
                );
                &&& r == Some(out)
                &&& final(self).spec_in_flight() == Some(out.request)
                &&& final(self).spec_sequence_number() == seq
                &&& final(self).spec_latest_id() == old(self).spec_latest_id()
                &&& same_identity(*old(self), *final(self))
            },
    {
        let m = Message::with_time(self.name.clone(), text, sent_time);
        self.start(ChatCommand::Post(m))
    }

    /// The poll interval elapsed: ask for the history since the latest
    /// version seen, unless a request is still in flight.
    pub fn poll(&mut self) -> (r: Option<Outgoing>)
        requires
            old(self).spec_sequence_number() < u64::MAX,
        ensures
            old(self).spec_in_flight() is Some ==> r is None && *final(self) == *old(self),
            old(self).spec_in_flight() is None ==> {
                let seq = (old(self).spec_sequence_number() + 1) as u64;
                let out = outgoing_for(
                    old(self).spec_me(),
                    old(self).spec_server(),
                    ChatCommand::GetLatest(old(self).spec_latest_id()),
                    seq,
                );
                &&& r == Some(out)
                &&& final(self).spec_in_flight() == Some(out.request)
                &&& final(self).spec_sequence_number() == seq
                &&& final(self).spec_latest_id() == old(self).spec_latest_id()
                &&& same_identity(*old(self), *final(self))
            },
    {
        let known = self.latest_id;
        self.start(ChatCommand::GetLatest(known))
    }

    /// A response arrived. One that answers the request in flight ends it;
    /// when it carries a history newer than the latest seen, that history
    /// is handed back to be shown and its version becomes the latest.
    /// Any other response changes nothing.
    pub fn on_response(&mut self, response: Response) -> (r: Option<Vec<Message>>)
        ensures
            match old(self).spec_in_flight() {
                Some(req) if req.sequence_number == response.sequence_number => {
                    match response.result {
                        ChatResponse::Latest(h, id) if id > old(self).spec_latest_id() => {
                            &&& r == Some(h)
                            &&& final(self).spec_in_flight() is None
                            &&& final(self).spec_latest_id() == id
                            &&& final(self).spec_sequence_number()
                                == old(self).spec_sequence_number()
                            &&& same_identity(*old(self), *final(self))
                        },
                        _ => {
                            &&& r is None
                            &&& final(self).spec_in_flight() is None
                            &&& final(self).spec_latest_id() == old(self).spec_latest_id()
                            &&& final(self).spec_sequence_number()
                                == old(self).spec_sequence_number()
                            &&& same_identity(*old(self), *final(self))
                        },
                    }
                },
                _ => r is None && *final(self) == *old(self),
            },
    {
        let answers = match &self.in_flight {
            Some(req) => req.sequence_number == response.sequence_number,
            None => false,
        };
        if !answers {
            return None;
        }
        self.in_flight = None;
        match response.result {
            ChatResponse::Latest(h, id) => {
                if id > self.latest_id {
                    self.latest_id = id;
                    Some(h)
                } else {
                    None
                }
            },
            _ => None,
        }
    }

    /// A resend timer fired. If it belongs to the request in flight, that
    /// request goes out again with a fresh timer; a stale timer is ignored.
    pub fn on_timer(&self, timer: ResendTimer) -> (r: Option<Outgoing>)
        ensures
            match self.spec_in_flight() {
                Some(req) if req.sequence_number == timer.0 => r == Some(
                    Outgoing { to: self.spec_server(), request: req, timer, delay: RESEND_MILLIS },
                ),
                _ => r is None,
            },
    {
        match &self.in_flight {
            Some(req) => {
                if req.sequence_number == timer.0 {
                    Some(
                        Outgoing {
                            to: self.server,
                            request: req.clone(),
                            timer,
                            delay: RESEND_MILLIS,
                        },
                    )
                } else {
                    None
                }
            },
            None => None,
        }
    }
}

} // verus!
