//! The stream of a collector: the queue between the receive path, which forwards
//! items, and the consumer, which takes them until the time is up.

use vstd::prelude::*;

verus! {

/// The state of a collector's stream, as a value.
pub struct StreamState<T> {
    /// The items forwarded and not yet taken, oldest first.
    pub queue: Seq<T>,
    /// Whether the consumer has dropped the stream.
    pub closed: bool,
    /// The time at which the stream ends; none where it has no time limit.
    pub deadline: Option<u64>,
    /// Whether the stream has reported its end.
    pub expired: bool,
}

/// What a poll of the stream gives.
#[derive(Debug, PartialEq, Eq)]
pub enum Polled<T> {
    /// The next item.
    Item(T),
    /// No item yet; more may come.
    Pending,
    /// The time is up: no item will come any more.
    Ended,
}

impl<T> StreamState<T> {
    /// The stream of a collector registered at time `registered_at` for `duration`;
    /// without a duration it has no time limit. The time runs from registration.
    pub open spec fn fresh(registered_at: u64, duration: Option<u64>) -> StreamState<T> {
        StreamState {
            queue: Seq::empty(),
            closed: false,
            deadline: match duration {
                Some(d) => Some(
                    if registered_at + d <= u64::MAX {
                        (registered_at + d) as u64
                    } else {
                        u64::MAX
                    },
                ),
                None => None,
            },
            expired: false,
        }
    }

    /// Whether the time is up at `now`.
    pub open spec fn due(self, now: u64) -> bool {
        self.expired || (self.deadline matches Some(d) && now >= d)
    }

    /// The stream after the receive path forwarded what it extracted from one
    /// event: an item goes to the end of the queue while the consumer is there.
    pub open spec fn forwarded(self, item: Option<T>) -> StreamState<T> {
        match item {
            Some(x) => if self.closed {
                self
            } else {
                StreamState { queue: self.queue.push(x), ..self }
            },
            None => self,
        }
    }

    /// Whether the collector stays registered after a forward: as long as the
    /// consumer has not dropped the stream.
    pub open spec fn kept(self) -> bool {
        !self.closed
    }

    /// The stream after a poll at `now`. The time limit is looked at first.
    pub open spec fn polled(self, now: u64) -> StreamState<T> {
        if self.due(now) {
            StreamState { expired: true, ..self }
        } else if self.queue.len() > 0 {
            StreamState { queue: self.queue.remove(0), ..self }
        } else {
            self
        }
    }

    /// What a poll at `now` gives.
    pub open spec fn poll_gives(self, now: u64) -> Polled<T> {
        if self.due(now) {
            Polled::Ended
        } else if self.queue.len() > 0 {
            Polled::Item(self.queue[0])
        } else {
            Polled::Pending
        }
    }

    /// The stream after the consumer dropped it.
    pub open spec fn dropped(self) -> StreamState<T> {
        StreamState { closed: true, ..self }
    }
}

/// The stream of a collector.
pub struct CollectorStream<T> {
    queue: Vec<T>,
    closed: bool,
    deadline: Option<u64>,
    expired: bool,
}

impl<T> View for CollectorStream<T> {
    type V = StreamState<T>;

    closed spec fn view(&self) -> StreamState<T> {
        StreamState {
            queue: self.queue@,
            closed: self.closed,
            deadline: self.deadline,
            expired: self.expired,
        }
    }
}

impl<T> CollectorStream<T> {
    /// The stream of a collector registered at time `registered_at` for `duration`,
    /// both in milliseconds; without a duration the stream has no time limit.
    pub fn new(registered_at: u64, duration: Option<u64>) -> (r: Self)
        ensures
            r@ == StreamState::<T>::fresh(registered_at, duration),
    {
        let deadline = match duration {
            Some(d) => Some(registered_at.saturating_add(d)),
            None => None,
        };
        CollectorStream { queue: Vec::new(), closed: false, deadline, expired: false }
    }

    /// Forwards what was extracted from one event, and tells whether the collector
    /// stays registered. Once the consumer has dropped the stream this answers no,
    /// whatever the event held, and keeps nothing.
    pub fn forward(&mut self, item: Option<T>) -> (keep: bool)
        ensures
            final(self)@ == old(self)@.forwarded(item),
            keep == old(self)@.kept(),
    {
        match item {
            Some(x) => {
                if self.closed {
                    false
                } else {
                    self.queue.push(x);
                    true
                }
            },
            None => !self.closed,
        }
    }

    /// Polls the stream at time `now`: the end if the time is up, else the oldest
    /// item that waits, else nothing yet.
    pub fn poll_next(&mut self, now: u64) -> (r: Polled<T>)
        ensures
            final(self)@ == old(self)@.polled(now),
            r == old(self)@.poll_gives(now),
    {
        let due = self.expired || match self.deadline {
            Some(d) => now >= d,
            None => false,
        };
        if due {
            self.expired = true;
            Polled::Ended
        } else if self.queue.len() > 0 {
            Polled::Item(self.queue.remove(0))
        } else {
            Polled::Pending
        }
    }

    /// Polls once for a consumer that wants one item only: whatever but `Pending`
    /// comes, the stream is dropped with it.
    pub fn poll_single(&mut self, now: u64) -> (r: Polled<T>)
        ensures
            r == old(self)@.poll_gives(now),
            final(self)@ == if r is Pending {
                old(self)@.polled(now)
            } else {
                old(self)@.polled(now).dropped()
            },
    {
        let r = self.poll_next(now);
        match r {
            Polled::Pending => {},
            _ => {
                self.closed = true;
            },
        }
        r
    }

    /// Drops the stream: the consumer takes nothing any more.
    pub fn close(&mut self)
        ensures
            final(self)@ == old(self)@.dropped(),
    {
        self.closed = true;
    }

    /// Whether the consumer has dropped the stream.
    pub fn is_closed(&self) -> (r: bool)
        ensures
            r == self@.closed,
    {
        self.closed
    }

    /// How many items wait to be taken.
    pub fn pending(&self) -> (r: usize)
        ensures
            r == self@.queue.len(),
    {
        self.queue.len()
    }
}

} // verus!
