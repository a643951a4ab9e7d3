//! The registry of a shard: the callbacks of the collectors that are registered
//! with it. The receive path calls each of them with every event, and drops the
//! ones that answer that they are done.

use vstd::prelude::*;
use crate::collector::stream::CollectorStream;
use crate::model::event::Event;

verus! {

/// The callbacks that stay: those whose verdict is yes, in their order.
pub open spec fn retained<C>(callbacks: Seq<C>, verdicts: Seq<bool>) -> Seq<C>
    decreases callbacks.len(),
{
    if callbacks.len() == 0 || verdicts.len() != callbacks.len() {
        Seq::empty()
    } else {
        let before = retained(callbacks.drop_last(), verdicts.drop_last());
        if verdicts.last() {
            before.push(callbacks.last())
        } else {
            before
        }
    }
}

/// No more callbacks stay than there were.
pub proof fn lemma_retained_len<C>(callbacks: Seq<C>, verdicts: Seq<bool>)
    ensures
        retained(callbacks, verdicts).len() <= callbacks.len(),
    decreases callbacks.len(),
{
    if callbacks.len() != 0 && verdicts.len() == callbacks.len() {
        lemma_retained_len(callbacks.drop_last(), verdicts.drop_last());
    }
}

/// Where every verdict is no, no callback stays.
pub proof fn lemma_retained_none<C>(callbacks: Seq<C>, verdicts: Seq<bool>)
    requires
        verdicts.len() == callbacks.len(),
        forall|i: int| 0 <= i < verdicts.len() ==> !verdicts[i],
    ensures
        retained(callbacks, verdicts).len() == 0,
    decreases callbacks.len(),
{
    if callbacks.len() != 0 {
        lemma_retained_none(callbacks.drop_last(), verdicts.drop_last());
    }
}

/// A callback that stays had the verdict yes.
pub proof fn lemma_retained_said_yes<C>(callbacks: Seq<C>, verdicts: Seq<bool>, j: int)
    requires
        verdicts.len() == callbacks.len(),
        0 <= j < retained(callbacks, verdicts).len(),
    ensures
        exists|i: int|
            0 <= i < callbacks.len() && verdicts[i] && callbacks[i] == retained(
                callbacks,
                verdicts,
            )[j],
    decreases callbacks.len(),
{
    if callbacks.len() != 0 {
        let before = retained(callbacks.drop_last(), verdicts.drop_last());
        if j < before.len() {
            lemma_retained_said_yes(callbacks.drop_last(), verdicts.drop_last(), j);
            let i = choose|i: int|
                0 <= i < callbacks.drop_last().len() && verdicts.drop_last()[i]
                    && callbacks.drop_last()[i] == before[j];
            assert(verdicts[i] && callbacks[i] == retained(callbacks, verdicts)[j]);
        } else {
            let i = callbacks.len() - 1;
            assert(verdicts[i] && callbacks[i] == retained(callbacks, verdicts)[j]);
        }
    }
}

/// The callbacks of the collectors registered with one shard. A callback takes an
/// event and answers whether its collector is still interested.
pub struct Registry<C> {
    callbacks: Vec<C>,
}

impl<C> View for Registry<C> {
    type V = Seq<C>;

    closed spec fn view(&self) -> Seq<C> {
        self.callbacks@
    }
}

impl<C: Fn(&Event) -> bool> Registry<C> {
    /// Every callback can be called with every event.
    pub open spec fn wf(&self) -> bool {
        forall|i: int, e: &Event| 0 <= i < self@.len() ==> #[trigger] self@[i].requires((e,))
    }

    /// The registry with no callback.
    pub fn new() -> (r: Self)
        ensures
            r@ == Seq::<C>::empty(),
            r.wf(),
    {
        Registry { callbacks: Vec::new() }
    }

    /// Registers a callback, behind those that are registered.
    pub fn add_collector(&mut self, callback: C)
        requires
            old(self).wf(),
            forall|e: &Event| callback.requires((e,)),
        ensures
            final(self)@ == old(self)@.push(callback),
            final(self).wf(),
    {
        self.callbacks.push(callback);
        assert forall|i: int, e: &Event| 0 <= i < self@.len() implies #[trigger] self@[i].requires(
            (e,),
        ) by {
            if i < old(self)@.len() {
                assert(self@[i] == old(self)@[i]);
            }
        }
    }

    /// How many callbacks are registered.
    pub fn len(&self) -> (r: usize)
        ensures
            r == self@.len(),
    {
        self.callbacks.len()
    }

    /// Hands `event` to every callback, once each and in the order of registration,
    /// and drops each callback that answers no. Returns how many were dropped.
    pub fn notify(&mut self, event: &Event) -> (removed: usize)
        requires
            old(self).wf(),
        ensures
            final(self).wf(),
            removed == old(self)@.len() - final(self)@.len(),
            exists|verdicts: Seq<bool>|
                {
                    &&& verdicts.len() == old(self)@.len()
                    &&& forall|i: int|
                        0 <= i < verdicts.len() ==> old(self)@[i].ensures((event,), verdicts[i])
                    &&& final(self)@ == #[trigger] retained(old(self)@, verdicts)
                },
    {
        let ghost given = self@;
        let ghost mut verdicts: Seq<bool> = Seq::empty();
        let mut removed: usize = 0;
        let mut i: usize = 0;
        let count = self.callbacks.len();
        assert(given.len() == count);
        assert(self@ =~= retained(given.take(0), verdicts) + given.skip(0));
        while i < self.callbacks.len()
            invariant
                given == old(self)@,
                old(self).wf(),
                verdicts.len() == i + removed,
                i + removed <= given.len(),
                given.len() == count,
                i == retained(given.take(i + removed), verdicts).len(),
                self@ == retained(given.take(i + removed), verdicts) + given.skip(i + removed),
                forall|k: int|
                    0 <= k < verdicts.len() ==> given[k].ensures((event,), verdicts[k]),
            decreases given.len() - (i + removed),
        {
            let ghost n = (i + removed) as int;
            assert(self@[i as int] == given[n]);
            assert(given[n].requires((event,)));
            let keep = (self.callbacks[i])(event);
            proof {
                let next = given.take(n + 1);
                let next_verdicts = verdicts.push(keep);
                assert(next.drop_last() =~= given.take(n));
                assert(next_verdicts.drop_last() =~= verdicts);
                assert(next.last() == given[n]);
                verdicts = next_verdicts;
            }
            if keep {
                assert(self@ =~= retained(given.take(n + 1), verdicts) + given.skip(n + 1));
                i = i + 1;
            } else {
                let _ = self.callbacks.remove(i);
                assert(self@ =~= retained(given.take(n + 1), verdicts) + given.skip(n + 1));
                removed = removed + 1;
            }
        }
        proof {
            assert(given.take(given.len() as int) =~= given);
            assert(self@ =~= retained(given, verdicts));
            assert forall|k: int, e: &Event| 0 <= k < self@.len() implies #[trigger] self@[k]
                .requires((e,)) by {
                lemma_retained_said_yes(given, verdicts, k);
            }
        }
        removed
    }
}

/// The callback of a collector: forwards what `extractor` picks from `event` to
/// the collector's stream, and answers whether the collector stays registered.
/// The answer is no exactly when the consumer has dropped the stream.
pub fn collect<T, F: Fn(&Event) -> Option<T>>(
    stream: &mut CollectorStream<T>,
    extractor: &F,
    event: &Event,
) -> (keep: bool)
    requires
        extractor.requires((event,)),
    ensures
        keep == old(stream)@.kept(),
        exists|item: Option<T>|
            extractor.ensures((event,), item) && final(stream)@ == #[trigger] old(
                stream,
            )@.forwarded(item),
{
    let item = extractor(event);
    stream.forward(item)
}

} // verus!
