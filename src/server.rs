use vstd::prelude::*;
use crate::event::{Address, Request, Response, serve_request};
use crate::log::{ChatApp, ChatResponse, runs_command, same_result};

verus! {

/// What the server remembers of a client: its address, the sequence number
/// of the last request it ran for it, and the answer it gave.
pub type Executed = (Address, u64, ChatResponse);

/// The clients of `s` are pairwise distinct.
pub open spec fn clients_distinct(s: Seq<Executed>) -> bool {
    forall|i: int, j: int| 0 <= i < j < s.len() ==> #[trigger] s[i].0 != #[trigger] s[j].0
}

/// `request` runs against `before`, giving `after` and `answer`, sent back
/// to the requesting client under the request's sequence number.
pub open spec fn runs_request(
    before: ChatApp,
    request: Request,
    after: ChatApp,
    answer: Option<(Address, Response)>,
) -> bool {
    match answer {
        Some((to, res)) => {
            &&& to == request.client
            &&& res.sequence_number == request.sequence_number
            &&& runs_command(before, request.command, after, res.result)
        },
        None => false,
    }
}

/// The chat server: the chat log, and for each client the last request it
/// ran, so that a request sent again runs at most once.
pub struct ChatServer {
    app: ChatApp,
    executed: Vec<Executed>,
}

impl ChatServer {
    /// The chat log.
    pub closed spec fn spec_app(&self) -> ChatApp {
        self.app
    }

    /// The last request run for each client, one entry per client.
    pub closed spec fn spec_executed(&self) -> Seq<Executed> {
        self.executed@
    }

    /// The log is well formed and no client has two entries.
    pub open spec fn wf(&self) -> bool {
        &&& self.spec_app().wf()
        &&& clients_distinct(self.spec_executed())
    }

    /// A server over `app` that has run no request yet.
    pub fn new(app: ChatApp) -> (r: ChatServer)
        requires
            app.wf(),
        ensures
            r.wf(),
            r.spec_app() == app,
            r.spec_executed() == Seq::<Executed>::empty(),
    {
        ChatServer { app, executed: Vec::new() }
    }

    /// The chat log.
    pub fn app(&self) -> (r: &ChatApp)
        ensures
            *r == self.spec_app(),
    {
        &self.app
    }

    /// The index of `client`'s entry, if it has one.
    fn find_client(&self, client: Address) -> (r: Option<usize>)
        ensures
            match r {
                Some(i) => i < self.executed@.len() && self.executed@[i as int].0 == client,
                None => forall|j: int|
                    0 <= j < self.executed@.len() ==> #[trigger] self.executed@[j].0 != client,
            },
    {
        let mut i: usize = 0;
        while i < self.executed.len()
            invariant
                i <= self.executed@.len(),
                forall|j: int| 0 <= j < i ==> #[trigger] self.executed@[j].0 != client,
            decreases self.executed@.len() - i,
        {
            if self.executed[i].0 == client {
                return Some(i);
            }
            i += 1;
        }
        None
    }

    /// Handles one request. A request newer than the client's last one runs
    /// against the log and its answer is remembered; the client's last
    /// request, sent again, gets the remembered answer without running
    /// again; an older one is dropped unanswered.
    pub fn handle(&mut self, request: Request) -> (r: Option<(Address, Response)>)
        requires
            old(self).wf(),
            request.command is Post ==> old(self).spec_app().spec_version() < usize::MAX,
        ensures
            final(self).wf(),
            forall|i: int|
                0 <= i < old(self).spec_executed().len() && #[trigger] old(
                    self,
                ).spec_executed()[i].0 == request.client ==> {
                    let last = old(self).spec_executed()[i];
                    &&& request.sequence_number < last.1 ==> r is None && *final(self) == *old(self)
                    &&& request.sequence_number == last.1 ==> {
                        &&& *final(self) == *old(self)
                        &&& r matches Some((to, res)) && to == request.client
                            && res.sequence_number == request.sequence_number
                            && same_result(res.result, last.2)
                    }
                    &&& request.sequence_number > last.1 ==> {
                        &&& runs_request(old(self).spec_app(), request, final(self).spec_app(), r)
                        &&& r matches Some((_, res)) && final(self).spec_executed()
                            == old(self).spec_executed().update(
                            i,
                            (request.client, request.sequence_number, final(self).spec_executed()[i].2),
                        ) && same_result(final(self).spec_executed()[i].2, res.result)
                    }
                },
            (forall|i: int|
                0 <= i < old(self).spec_executed().len() ==> #[trigger] old(
                    self,
                ).spec_executed()[i].0 != request.client) ==> {
                &&& runs_request(old(self).spec_app(), request, final(self).spec_app(), r)
                &&& r matches Some((_, res)) && final(self).spec_executed()
                    == old(self).spec_executed().push(
                    (
                        request.client,
                        request.sequence_number,
                        final(self).spec_executed().last().2,
                    ),
                ) && same_result(final(self).spec_executed().last().2, res.result)
            },
    {
        match self.find_client(request.client) {
            Some(i) => {
                let last = self.executed[i].1;
                if request.sequence_number < last {
                    None
                } else if request.sequence_number == last {
                    let result = self.executed[i].2.clone();
                    Some((request.client, Response { result, sequence_number: last }))
                } else {
                    let (to, res) = serve_request(&mut self.app, request);
                    let kept = res.result.clone();
                    self.executed.set(i, (to, res.sequence_number, kept));
                    assert(clients_distinct(self.executed@)) by {
                        assert forall|a: int, b: int|
                            0 <= a < b < self.executed@.len() implies #[trigger] self.executed@[a].0
                            != #[trigger] self.executed@[b].0 by {
                            assert(old(self).executed@[a].0 != old(self).executed@[b].0);
                        }
                    }
                    Some((to, res))
                }
            },
            None => {
                let (to, res) = serve_request(&mut self.app, request);
                let kept = res.result.clone();
                self.executed.push((to, res.sequence_number, kept));
                assert(clients_distinct(self.executed@)) by {
                    assert forall|a: int, b: int|
                        0 <= a < b < self.executed@.len() implies #[trigger] self.executed@[a].0
                        != #[trigger] self.executed@[b].0 by {
                        if b < old(self).executed@.len() {
                            assert(old(self).executed@[a].0 != old(self).executed@[b].0);
                        } else {
                            assert(old(self).executed@[a].0 != to);
                        }
                    }
                }
                Some((to, res))
            },
        }
    }
}

} // verus!
