//! What holds of a collector's stream whatever is forwarded and whenever it is polled.

use vstd::prelude::*;
use crate::collector::stream::{Polled, StreamState};

verus! {

/// One thing that happens to a stream.
pub enum Step<T> {
    /// The receive path forwards what it extracted from an event.
    Forward(Option<T>),
    /// The consumer polls at the given time.
    Poll(u64),
}

/// The stream after the steps.
pub open spec fn after<T>(s: StreamState<T>, steps: Seq<Step<T>>) -> StreamState<T>
    decreases steps.len(),
{
    if steps.len() == 0 {
        s
    } else {
        let before = after(s, steps.drop_last());
        match steps.last() {
            Step::Forward(item) => before.forwarded(item),
            Step::Poll(now) => before.polled(now),
        }
    }
}

/// The items that the consumer got in the steps, in the order it got them.
pub open spec fn yielded<T>(s: StreamState<T>, steps: Seq<Step<T>>) -> Seq<T>
    decreases steps.len(),
{
    if steps.len() == 0 {
        Seq::empty()
    } else {
        let before = after(s, steps.drop_last());
        let got = yielded(s, steps.drop_last());
        match steps.last() {
            Step::Forward(_) => got,
            Step::Poll(now) => match before.poll_gives(now) {
                Polled::Item(x) => got.push(x),
                _ => got,
            },
        }
    }
}

/// The items that were forwarded in the steps, in the order of the events.
pub open spec fn forwarded_items<T>(steps: Seq<Step<T>>) -> Seq<T>
    decreases steps.len(),
{
    if steps.len() == 0 {
        Seq::empty()
    } else {
        let before = forwarded_items(steps.drop_last());
        match steps.last() {
            Step::Forward(Some(x)) => before.push(x),
            _ => before,
        }
    }
}

/// Whether every poll of the steps comes before the time `deadline`.
pub open spec fn in_time<T>(deadline: Option<u64>, steps: Seq<Step<T>>) -> bool {
    forall|i: int|
        0 <= i < steps.len() ==> (#[trigger] steps[i] matches Step::Poll(now) ==> !(
        deadline matches Some(d) && now >= d))
}

/// While the time is not up and the consumer is there, nothing is lost and
/// nothing is reordered: what the consumer got, followed by what still waits, is
/// what was forwarded, in the order of the events.
pub proof fn lemma_collects_in_order<T>(s: StreamState<T>, steps: Seq<Step<T>>)
    requires
        s.queue.len() == 0,
        !s.closed,
        !s.expired,
        in_time(s.deadline, steps),
    ensures
        yielded(s, steps) + after(s, steps).queue == forwarded_items(steps),
        !after(s, steps).closed,
        !after(s, steps).expired,
        after(s, steps).deadline == s.deadline,
    decreases steps.len(),
{
    if steps.len() == 0 {
        assert(yielded(s, steps) + after(s, steps).queue =~= forwarded_items(steps));
    } else {
        let head = steps.drop_last();
        assert forall|i: int| 0 <= i < head.len() implies (#[trigger] head[i] matches Step::Poll(
            now,
        ) ==> !(s.deadline matches Some(d) && now >= d)) by {
            assert(head[i] == steps[i]);
        }
        lemma_collects_in_order(s, head);
        let before = after(s, head);
        assert(steps[steps.len() - 1] == steps.last());
        assert(yielded(s, steps) + after(s, steps).queue =~= forwarded_items(steps));
    }
}

/// With `k` items forwarded in time and all of them taken, the consumer has got
/// exactly those `k` items, in the order of their events.
pub proof fn lemma_collects_all<T>(s: StreamState<T>, steps: Seq<Step<T>>)
    requires
        s.queue.len() == 0,
        !s.closed,
        !s.expired,
        in_time(s.deadline, steps),
        after(s, steps).queue.len() == 0,
    ensures
        yielded(s, steps) == forwarded_items(steps),
{
    lemma_collects_in_order(s, steps);
    assert(yielded(s, steps) + after(s, steps).queue =~= yielded(s, steps));
}

/// A poll at or after the deadline ends the stream.
pub proof fn lemma_deadline_ends<T>(s: StreamState<T>, now: u64)
    requires
        s.deadline matches Some(d) && now >= d,
    ensures
        s.poll_gives(now) is Ended,
        s.polled(now).expired,
{
}

/// Once the stream has ended, the consumer gets nothing more, whatever is
/// forwarded and whenever it polls.
pub proof fn lemma_nothing_after_end<T>(s: StreamState<T>, steps: Seq<Step<T>>)
    requires
        s.expired,
    ensures
        yielded(s, steps).len() == 0,
        after(s, steps).expired,
    decreases steps.len(),
{
    if steps.len() != 0 {
        lemma_nothing_after_end(s, steps.drop_last());
    }
}

/// Once the consumer has dropped the stream, the collector's callback answers no
/// on its next call, and the stream keeps nothing of what is forwarded.
pub proof fn lemma_dropped_is_done<T>(s: StreamState<T>, item: Option<T>)
    ensures
        !s.dropped().kept(),
        s.dropped().forwarded(item) == s.dropped(),
{
}

} // verus!
