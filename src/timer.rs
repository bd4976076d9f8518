use vstd::prelude::*;

verus! {

/// A pending timer: the instant it fires, in milliseconds on the caller's
/// clock, and the payload it hands back then.
pub type Armed<T> = (u64, T);

/// `i` is the timer of `s` that fires first: no timer has an earlier
/// deadline, and none before it in arming order has the same one.
pub open spec fn is_earliest<T>(s: Seq<Armed<T>>, i: int) -> bool {
    &&& 0 <= i < s.len()
    &&& forall|j: int| 0 <= j < s.len() ==> s[i].0 <= #[trigger] s[j].0
    &&& forall|j: int| 0 <= j < i ==> s[i].0 < #[trigger] s[j].0
}

/// Some timer of `s` has reached its deadline at time `now`.
pub open spec fn has_due<T>(s: Seq<Armed<T>>, now: u64) -> bool {
    exists|j: int| 0 <= j < s.len() && #[trigger] s[j].0 <= now
}

/// The set of armed timers that have not fired yet. Timers can be armed at
/// any moment, also between two polls; each one is handed back once, when
/// its deadline has passed, earliest deadline first.
pub struct TimerRegistry<T> {
    timers: Vec<Armed<T>>,
}

impl<T> TimerRegistry<T> {
    /// The pending timers, in the order they were armed.
    pub closed spec fn pending(&self) -> Seq<Armed<T>> {
        self.timers@
    }

    /// A registry with no pending timer.
    pub fn new() -> (r: TimerRegistry<T>)
        ensures
            r.pending() == Seq::<Armed<T>>::empty(),
    {
        TimerRegistry { timers: Vec::new() }
    }

    /// The number of pending timers.
    pub fn len(&self) -> (r: usize)
        ensures
            r == self.pending().len(),
    {
        self.timers.len()
    }

    /// Arms a timer at time `now` that fires `delay` milliseconds later with
    /// `payload`.
    pub fn arm(&mut self, payload: T, now: u64, delay: u64)
        requires
            now + delay <= u64::MAX,
        ensures
            final(self).pending() == old(self).pending().push(((now + delay) as u64, payload)),
    {
        self.timers.push((now + delay, payload));
    }

    /// The index of the timer that fires first, if any is pending.
    fn earliest(&self) -> (r: Option<usize>)
        ensures
            match r {
                Some(i) => is_earliest(self.pending(), i as int),
                None => self.pending().len() == 0,
            },
    {
        if self.timers.len() == 0 {
            return None;
        }
        let mut best: usize = 0;
        let mut i: usize = 1;
        while i < self.timers.len()
            invariant
                0 <= best < i <= self.timers@.len(),
                forall|j: int| 0 <= j < i ==> self.timers@[best as int].0 <= #[trigger] self.timers@[j].0,
                forall|j: int| 0 <= j < best ==> self.timers@[best as int].0 < #[trigger] self.timers@[j].0,
            decreases self.timers@.len() - i,
        {
            if self.timers[i].0 < self.timers[best].0 {
                best = i;
            }
            i += 1;
        }
        Some(best)
    }

    /// The deadline of the timer that fires first, if any is pending.
    pub fn next_deadline(&self) -> (r: Option<u64>)
        ensures
            match r {
                Some(d) => exists|i: int|
                    is_earliest(self.pending(), i) && #[trigger] self.pending()[i].0 == d,
                None => self.pending().len() == 0,
            },
    {
        match self.earliest() {
            Some(i) => Some(self.timers[i].0),
            None => None,
        }
    }

    /// At time `now`, removes and hands back the payload of the timer that
    /// fires first, if its deadline has passed; otherwise changes nothing.
    pub fn pop_due(&mut self, now: u64) -> (r: Option<T>)
        ensures
            r is Some <==> has_due(old(self).pending(), now),
            match r {
                Some(p) => exists|i: int|
                    is_earliest(old(self).pending(), i) && #[trigger] old(self).pending()[i].1 == p
                        && final(self).pending() == old(self).pending().remove(i),
                None => final(self).pending() == old(self).pending(),
            },
    {
        match self.earliest() {
            Some(i) => {
                if self.timers[i].0 <= now {
                    let ghost before = self.timers@;
                    let (_, payload) = self.timers.remove(i);
                    assert(before[i as int].1 == payload);
                    Some(payload)
                } else {
                    assert forall|j: int| 0 <= j < self.timers@.len() implies !(
                    #[trigger] self.timers@[j].0 <= now) by {
                        assert(self.timers@[i as int].0 <= self.timers@[j].0);
                    }
                    None
                }
            },
            None => None,
        }
    }
}

/// Once the first-firing timer is removed, every timer still pending has a
/// deadline no earlier than the removed one: timers come out in the order
/// of their deadlines.
pub proof fn lemma_fired_in_deadline_order<T>(s: Seq<Armed<T>>, i: int)
    requires
        is_earliest(s, i),
    ensures
        forall|j: int| 0 <= j < s.remove(i).len() ==> s[i].0 <= #[trigger] s.remove(i)[j].0,
{
    assert forall|j: int| 0 <= j < s.remove(i).len() implies s[i].0 <= #[trigger] s.remove(i)[j].0 by {
        if j < i {
            assert(s.remove(i)[j] == s[j]);
        } else {
            assert(s.remove(i)[j] == s[j + 1]);
        }
    }
}

/// A timer armed into an empty registry is due at every time from its
/// deadline on, and it is the one that the next poll hands back.
pub proof fn lemma_armed_timer_fires<T>(
    before: TimerRegistry<T>,
    after: TimerRegistry<T>,
    payload: T,
    now: u64,
    delay: u64,
    later: u64,
)
    requires
        before.pending().len() == 0,
        now + delay <= later,
        after.pending() == before.pending().push(((now + delay) as u64, payload)),
    ensures
        has_due(after.pending(), later),
        is_earliest(after.pending(), 0),
        after.pending()[0].1 == payload,
        after.pending().remove(0).len() == 0,
{
    assert(after.pending()[0].0 <= later);
}

} // verus!
