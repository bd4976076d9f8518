use vstd::prelude::*;
use std::collections::VecDeque;
use crate::message::Message;

verus! {

/// The number of chat messages a log keeps unless told otherwise.
pub const MAX_CHAT_MESSAGES: usize = 10;

/// The longest message body, in bytes, that the chat protocol carries.
pub const MAX_MESSAGE_SIZE: usize = 100;

/// The last `n` items of `s` (all of them when there are no more than `n`).
pub open spec fn keep_last(s: Seq<Message>, n: nat) -> Seq<Message> {
    if s.len() <= n {
        s
    } else {
        s.subrange(s.len() - n, s.len() as int)
    }
}

/// The history after `m` is appended to history `s` under capacity `cap`:
/// `m` goes last and the oldest messages beyond the capacity are dropped.
pub open spec fn appended(s: Seq<Message>, m: Message, cap: nat) -> Seq<Message> {
    keep_last(s.push(m), cap)
}

/// A command sent to the chat server.
#[derive(Debug, PartialEq, Eq, PartialOrd, Ord, Hash)]
pub enum ChatCommand {
    /// Post the given message in the chat.
    Post(Message),
    /// Ask for the history, passing the last version the caller has seen.
    /// The answer is `NoUpdate` when that is still the current version.
    GetLatest(usize),
}

impl Clone for ChatCommand {
    fn clone(&self) -> (r: ChatCommand)
        ensures
            r == *self,
    {
        match self {
            ChatCommand::Post(m) => ChatCommand::Post(m.clone()),
            ChatCommand::GetLatest(known) => ChatCommand::GetLatest(*known),
        }
    }
}

/// The chat server's answer to a command.
#[derive(Debug, PartialEq, Eq, PartialOrd, Ord, Hash)]
pub enum ChatResponse {
    /// The post was stored.
    PostOk,
    /// The whole current history, with the current version.
    Latest(Vec<Message>, usize),
    /// The history matches what the caller already has.
    NoUpdate,
}

/// `a` and `b` give the same answer: equal variants, with histories of equal
/// contents.
pub open spec fn same_result(a: ChatResponse, b: ChatResponse) -> bool {
    match (a, b) {
        (ChatResponse::Latest(v, i), ChatResponse::Latest(w, j)) => v@ == w@ && i == j,
        (ChatResponse::PostOk, ChatResponse::PostOk) => true,
        (ChatResponse::NoUpdate, ChatResponse::NoUpdate) => true,
        _ => false,
    }
}

impl Clone for ChatResponse {
    fn clone(&self) -> (r: ChatResponse)
        ensures
            same_result(r, *self),
    {
        match self {
            ChatResponse::PostOk => ChatResponse::PostOk,
            ChatResponse::Latest(v, id) => {
                let w = v.clone();
                assert(w@ =~= v@);
                ChatResponse::Latest(w, *id)
            },
            ChatResponse::NoUpdate => ChatResponse::NoUpdate,
        }
    }
}

/// Running `command` takes the log from `before` to `after` and answers
/// `result`: a post is appended and acknowledged, a history request leaves
/// the log alone and is answered as a "since version" query.
pub open spec fn runs_command(
    before: ChatApp,
    command: ChatCommand,
    after: ChatApp,
    result: ChatResponse,
) -> bool {
    match command {
        ChatCommand::Post(m) => append_step(before, m, after) && result == ChatResponse::PostOk,
        ChatCommand::GetLatest(known) => after == before && answers_query(
            before.spec_history(),
            before.spec_version(),
            known,
            result,
        ),
    }
}

/// What a "since version" query answers, given the log's history `h` and
/// version `version`, when the caller last saw version `known`.
pub open spec fn answers_query(
    h: Seq<Message>,
    version: nat,
    known: usize,
    r: ChatResponse,
) -> bool {
    match r {
        ChatResponse::NoUpdate => known == version,
        ChatResponse::Latest(v, id) => known != version && v@ == h && id == version,
        ChatResponse::PostOk => false,
    }
}

/// The server's chat state: a bounded history of messages, oldest first,
/// and a version counter that counts the appends.
#[derive(Debug, PartialEq, Eq, PartialOrd, Ord, Hash)]
pub struct ChatApp {
    messages: VecDeque<Message>,
    update_id: usize,
    capacity: usize,
}

/// `after` is `before` with one message `m` appended.
pub open spec fn append_step(before: ChatApp, m: Message, after: ChatApp) -> bool {
    &&& after.spec_capacity() == before.spec_capacity()
    &&& after.spec_history() == appended(before.spec_history(), m, before.spec_capacity())
    &&& after.spec_version() == before.spec_version() + 1
}

impl ChatApp {
    /// The stored messages, oldest first.
    pub closed spec fn spec_history(&self) -> Seq<Message> {
        self.messages@
    }

    /// The number of appends made so far.
    pub closed spec fn spec_version(&self) -> nat {
        self.update_id as nat
    }

    /// The most messages the log keeps.
    pub closed spec fn spec_capacity(&self) -> nat {
        self.capacity as nat
    }

    /// The log keeps at least one message and holds no more than it keeps.
    pub closed spec fn wf(&self) -> bool {
        &&& 1 <= self.capacity
        &&& self.messages@.len() <= self.capacity
    }

    /// An empty log that keeps up to `MAX_CHAT_MESSAGES` messages.
    pub fn new() -> (r: ChatApp)
        ensures
            r.wf(),
            r.spec_history() == Seq::<Message>::empty(),
            r.spec_version() == 0,
            r.spec_capacity() == MAX_CHAT_MESSAGES,
    {
        ChatApp::with_capacity(MAX_CHAT_MESSAGES)
    }

    /// An empty log that keeps up to `capacity` messages.
    pub fn with_capacity(capacity: usize) -> (r: ChatApp)
        requires
            capacity >= 1,
        ensures
            r.wf(),
            r.spec_history() == Seq::<Message>::empty(),
            r.spec_version() == 0,
            r.spec_capacity() == capacity,
    {
        ChatApp { messages: VecDeque::with_capacity(capacity), update_id: 0, capacity }
    }

    /// The number of appends made so far.
    pub fn version(&self) -> (r: usize)
        ensures
            r == self.spec_version(),
    {
        self.update_id
    }

    /// The most messages the log keeps.
    pub fn capacity(&self) -> (r: usize)
        ensures
            r == self.spec_capacity(),
    {
        self.capacity
    }

    /// The number of messages stored now.
    pub fn len(&self) -> (r: usize)
        ensures
            r == self.spec_history().len(),
            self.wf() ==> 1 <= self.spec_capacity() && r <= self.spec_capacity(),
    {
        self.messages.len()
    }

    /// A copy of the stored messages, oldest first.
    pub fn history(&self) -> (r: Vec<Message>)
        ensures
            r@ == self.spec_history(),
    {
        let mut out: Vec<Message> = Vec::with_capacity(self.messages.len());
        let mut i: usize = 0;
        while i < self.messages.len()
            invariant
                i <= self.messages@.len(),
                out@ == self.messages@.subrange(0, i as int),
            decreases self.messages@.len() - i,
        {
            out.push(self.messages[i].clone());
            i += 1;
        }
        assert(out@ =~= self.messages@);
        out
    }

    /// Stores `m` as the newest message, dropping the oldest one first when
    /// the log is full, and advances the version by one.
    pub fn append(&mut self, m: Message)
        requires
            old(self).wf(),
            old(self).spec_version() < usize::MAX,
        ensures
            final(self).wf(),
            final(self).spec_history().len() <= final(self).spec_capacity(),
            append_step(*old(self), m, *final(self)),
    {
        let ghost before = self.messages@;
        if self.messages.len() >= self.capacity {
            self.messages.pop_front();
        }
        self.messages.push_back(m);
        self.update_id += 1;
        assert(self.messages@ =~= appended(before, m, self.capacity as nat));
    }

    /// Answers "what changed since version `known`": `NoUpdate` when `known`
    /// is the current version, and otherwise the whole current history with
    /// the current version.
    pub fn get_since(&self, known: usize) -> (r: ChatResponse)
        ensures
            answers_query(self.spec_history(), self.spec_version(), known, r),
    {
        if known == self.update_id {
            ChatResponse::NoUpdate
        } else {
            ChatResponse::Latest(self.history(), self.update_id)
        }
    }

    /// Runs one command: a post is appended and acknowledged with `PostOk`;
    /// a history request is answered as `get_since` does.
    pub fn process(&mut self, request: ChatCommand) -> (r: ChatResponse)
        requires
            old(self).wf(),
            request is Post ==> old(self).spec_version() < usize::MAX,
        ensures
            final(self).wf(),
            final(self).spec_capacity() == old(self).spec_capacity(),
            final(self).spec_history().len() <= final(self).spec_capacity(),
            final(self).spec_version() == old(self).spec_version() + if request is Post {
                1int
            } else {
                0int
            },
            runs_command(*old(self), request, *final(self), r),
    {
        match request {
            ChatCommand::Post(post) => {
                self.append(post);
                ChatResponse::PostOk
            },
            ChatCommand::GetLatest(id) => self.get_since(id),
        }
    }
}

impl Default for ChatApp {
    fn default() -> (r: ChatApp)
        ensures
            r.wf(),
            r.spec_history() == Seq::<Message>::empty(),
            r.spec_version() == 0,
            r.spec_capacity() == MAX_CHAT_MESSAGES,
    {
        ChatApp::new()
    }
}

/// A well-formed log keeps at least one message and holds no more messages
/// than it keeps.
pub proof fn lemma_wf_bounds(log: ChatApp)
    requires
        log.wf(),
    ensures
        1 <= log.spec_capacity(),
        log.spec_history().len() <= log.spec_capacity(),
{
}

/// Appending to the last `cap` messages of a run gives the last `cap`
/// messages of the run extended by that message.
proof fn lemma_keep_last_push(t: Seq<Message>, m: Message, cap: nat)
    requires
        cap >= 1,
    ensures
        appended(keep_last(t, cap), m, cap) == keep_last(t.push(m), cap),
{
    if t.len() > cap {
        let k = t.subrange(t.len() - cap, t.len() as int);
        assert(keep_last(k.push(m), cap) =~= keep_last(t.push(m), cap));
    }
}

/// Over any run of appends that starts from an empty log at version 0, every
/// state holds exactly the last `capacity` messages appended so far, in the
/// order they came, never more than `capacity` of them, and its version is
/// the number of appends made.
pub proof fn lemma_append_run(logs: Seq<ChatApp>, ms: Seq<Message>)
    requires
        logs.len() == ms.len() + 1,
        logs[0].spec_history() == Seq::<Message>::empty(),
        logs[0].spec_version() == 0,
        logs[0].spec_capacity() >= 1,
        forall|i: int| 0 <= i < ms.len() ==> #[trigger] append_step(logs[i], ms[i], logs[i + 1]),
    ensures
        forall|i: int|
            0 <= i < logs.len() ==> {
                &&& #[trigger] logs[i].spec_capacity() == logs[0].spec_capacity()
                &&& logs[i].spec_history() == keep_last(ms.take(i), logs[0].spec_capacity())
                &&& logs[i].spec_history().len() <= logs[0].spec_capacity()
                &&& logs[i].spec_version() == i
            },
    decreases ms.len(),
{
    let cap = logs[0].spec_capacity();
    if ms.len() > 0 {
        let n = ms.len() - 1;
        let short_logs = logs.drop_last();
        let short_ms = ms.drop_last();
        assert forall|i: int| 0 <= i < short_ms.len() implies #[trigger] append_step(
            short_logs[i],
            short_ms[i],
            short_logs[i + 1],
        ) by {
            assert(append_step(logs[i], ms[i], logs[i + 1]));
        }
        lemma_append_run(short_logs, short_ms);
        assert(short_logs[n].spec_capacity() == cap);
        assert(append_step(logs[n], ms[n], logs[n + 1]));
        lemma_keep_last_push(ms.take(n), ms[n], cap);
        assert(ms.take(n).push(ms[n]) =~= ms.take(n + 1));
        assert forall|i: int| 0 <= i < logs.len() implies {
            &&& #[trigger] logs[i].spec_capacity() == cap
            &&& logs[i].spec_history() == keep_last(ms.take(i), cap)
            &&& logs[i].spec_history().len() <= cap
            &&& logs[i].spec_version() == i
        } by {
            if i < logs.len() - 1 {
                assert(short_logs[i] == logs[i]);
                assert(ms.take(i) =~= short_ms.take(i));
                assert(short_logs[i].spec_capacity() == cap);
            } else {
                assert(short_logs[n] == logs[n]);
                assert(ms.take(n) =~= short_ms.take(n));
            }
        }
    } else {
        assert(ms.take(0) =~= Seq::<Message>::empty());
    }
}

/// Appending one message more than the capacity to an empty log evicts
/// exactly the first one: the rest stay, in their original order.
pub proof fn lemma_eviction_order(logs: Seq<ChatApp>, ms: Seq<Message>)
    requires
        logs.len() == ms.len() + 1,
        logs[0].spec_history() == Seq::<Message>::empty(),
        logs[0].spec_version() == 0,
        logs[0].spec_capacity() >= 1,
        ms.len() == logs[0].spec_capacity() + 1,
        forall|i: int| 0 <= i < ms.len() ==> #[trigger] append_step(logs[i], ms[i], logs[i + 1]),
    ensures
        logs.last().spec_history() == ms.subrange(1, ms.len() as int),
        logs.last().spec_version() == ms.len(),
{
    lemma_append_run(logs, ms);
    let n = ms.len() as int;
    assert(logs[n].spec_capacity() == logs[0].spec_capacity());
    assert(ms.take(n) =~= ms);
    assert(keep_last(ms, logs[0].spec_capacity()) =~= ms.subrange(1, n));
}

/// Asking twice in a row with the same stale version gives two answers with
/// equal contents: the whole history and the current version.
pub proof fn lemma_stale_query_repeatable(
    h: Seq<Message>,
    version: nat,
    known: usize,
    first: ChatResponse,
    second: ChatResponse,
)
    requires
        known != version,
        answers_query(h, version, known, first),
        answers_query(h, version, known, second),
    ensures
        first is Latest,
        second is Latest,
        first->Latest_0@ == second->Latest_0@,
        first->Latest_0@ == h,
        first->Latest_1 == second->Latest_1,
        first->Latest_1 == version,
{
}

} // verus!
