use vstd::prelude::*;
use crate::log::{ChatApp, ChatCommand, ChatResponse, runs_command, same_result};

verus! {

/// A node's network address: an IPv6 address as one 128-bit number, and a
/// port.
#[derive(Clone, Copy, Debug, PartialEq, Eq, Structural, PartialOrd, Ord, Hash)]
pub struct Address {
    pub ip: u128,
    pub port: u16,
}

/// A command from a client, numbered by that client so that its answer can
/// be matched to it.
#[derive(Debug, PartialEq, Eq, PartialOrd, Ord, Hash)]
pub struct Request {
    pub command: ChatCommand,
    pub sequence_number: u64,
    pub client: Address,
}

impl Clone for Request {
    fn clone(&self) -> (r: Request)
        ensures
            r == *self,
    {
        Request {
            command: self.command.clone(),
            sequence_number: self.sequence_number,
            client: self.client,
        }
    }
}

/// The server's answer to the request with the same sequence number.
#[derive(Debug, PartialEq, Eq, PartialOrd, Ord, Hash)]
pub struct Response {
    pub result: ChatResponse,
    pub sequence_number: u64,
}

impl Clone for Response {
    fn clone(&self) -> (r: Response)
        ensures
            r.sequence_number == self.sequence_number,
            same_result(r.result, self.result),
    {
        Response { result: self.result.clone(), sequence_number: self.sequence_number }
    }
}

/// A timer that a client arms when it sends the request with this sequence
/// number, to send it again if no answer has come by then.
#[derive(Clone, Copy, Debug, PartialEq, Eq, Structural, PartialOrd, Ord, Hash)]
pub struct ResendTimer(pub u64);

/// What a node's event stream yields: a datagram from another node, or one
/// of its own timers firing.
#[derive(Clone, Debug, PartialEq, Eq, PartialOrd, Ord, Hash)]
pub enum Event {
    Request(Request),
    Response(Response),
    ResendTimer(ResendTimer),
}

/// The server's handling of one request: the command runs against the chat
/// log, and the answer goes back to the requesting client under the
/// request's sequence number.
pub fn serve_request(app: &mut ChatApp, request: Request) -> (r: (Address, Response))
    requires
        old(app).wf(),
        request.command is Post ==> old(app).spec_version() < usize::MAX,
    ensures
        final(app).wf(),
        r.0 == request.client,
        r.1.sequence_number == request.sequence_number,
        runs_command(*old(app), request.command, *final(app), r.1.result),
{
    let client = request.client;
    let sequence_number = request.sequence_number;
    let result = app.process(request.command);
    (client, Response { result, sequence_number })
}

/// The first IPv6 address among the resolved candidates; `None` stands for
/// a candidate of another address family.
pub fn first_ipv6(candidates: &Vec<Option<Address>>) -> (r: Option<Address>)
    ensures
        match r {
            Some(a) => exists|i: int|
                0 <= i < candidates@.len() && #[trigger] candidates@[i] == Some(a) && forall|
                    j: int,
                | 0 <= j < i ==> #[trigger] candidates@[j] is None,
            None => forall|j: int| 0 <= j < candidates@.len() ==> #[trigger] candidates@[j] is None,
        },
{
    let mut i: usize = 0;
    while i < candidates.len()
        invariant
            i <= candidates@.len(),
            forall|j: int| 0 <= j < i ==> #[trigger] candidates@[j] is None,
        decreases candidates@.len() - i,
    {
        if let Some(a) = candidates[i] {
            return Some(a);
        }
        i += 1;
    }
    None
}

} // verus!
