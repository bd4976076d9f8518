use vstd::prelude::*;

verus! {

/// A point in time in UTC: whole seconds since the Unix epoch and the
/// nanoseconds past that second.
#[derive(Clone, Copy, Debug, PartialEq, Eq, Structural, PartialOrd, Ord, Hash)]
pub struct Timestamp {
    pub secs: i64,
    pub nanos: u32,
}

/// One chat message.
#[derive(Debug, PartialEq, Eq, PartialOrd, Ord, Hash)]
pub struct Message {
    pub text: String,
    pub sent_time: Timestamp,
    pub sender: String,
}

impl Clone for Message {
    fn clone(&self) -> (r: Message)
        ensures
            r == *self,
    {
        Message { text: self.text.clone(), sent_time: self.sent_time, sender: self.sender.clone() }
    }
}

/// Relies on chrono's `From<SystemTime> for DateTime<Utc>` (with
/// `DateTime::timestamp` and `DateTime::timestamp_subsec_nanos`) applied to
/// `SystemTime::now()`: the current UTC time. Clocks before the Unix epoch
/// are handled too; on both sides of it the sub-second part is below one
/// second.
#[verifier::external_body]
fn current_time() -> (r: Timestamp)
    ensures
        r.nanos < 1_000_000_000,
{
    let now = chrono::DateTime::<chrono::Utc>::from(std::time::SystemTime::now());
    Timestamp { secs: now.timestamp(), nanos: now.timestamp_subsec_nanos() }
}

impl Timestamp {
    /// The current UTC time.
    pub fn now() -> (r: Timestamp)
        ensures
            r.nanos < 1_000_000_000,
    {
        current_time()
    }
}

impl Message {
    /// A message from `sender` with body `text`, stamped with the current time.
    pub fn new(sender: String, text: String) -> (r: Message)
        ensures
            r.sender == sender,
            r.text == text,
            r.sent_time.nanos < 1_000_000_000,
    {
        Message { sender, text, sent_time: current_time() }
    }

    /// A message from `sender` with body `text`, stamped with `sent_time`.
    pub fn with_time(sender: String, text: String, sent_time: Timestamp) -> (r: Message)
        ensures
            r == (Message { text, sent_time, sender }),
    {
        Message { sender, text, sent_time }
    }
}

} // verus!
