//! The size-or-timeout batch accumulator of the persistence sink.
//!
//! The consumer awaits an item, accumulates rows, and flushes: when the batch
//! is full, or when nothing arrived for the idle timeout and rows are
//! waiting. The driver blocks on the channel and writes to the store; what
//! happens to the rows is decided here.

use vstd::prelude::*;

verus! {

/// Where the consumer stands.
#[derive(Debug, Clone, Copy, PartialEq, Eq, Structural)]
pub enum Phase {
    /// No row is waiting; the consumer blocks on the channel.
    AwaitingItem,
    /// Rows are waiting for more rows or for the idle timeout.
    Accumulating,
    /// A batch is on its way to the store.
    Flushing,
}

/// One step of the accumulator under a configured batch size: `Some(row)`
/// is an item that arrived, `None` an idle timeout. The result is what
/// waits afterwards and the batch to flush, if the step ends in one.
///
/// An arrival flushes when it brings the waiting rows to the batch size. A
/// batch size of zero is never reached, so rows then leave on idle alone.
pub open spec fn step<T>(size: nat, pending: Seq<T>, event: Option<T>) -> (Seq<T>, Option<Seq<T>>) {
    match event {
        Some(row) => if pending.len() + 1 == size {
            (Seq::empty(), Some(pending.push(row)))
        } else {
            (pending.push(row), None)
        },
        None => if pending.len() > 0 {
            (Seq::empty(), Some(pending))
        } else {
            (pending, None)
        },
    }
}

/// The batches flushed while `events` are handled in order, oldest first,
/// and the rows that wait at the end.
pub open spec fn run<T>(limit: nat, pending: Seq<T>, events: Seq<Option<T>>) -> (
    Seq<Seq<T>>,
    Seq<T>,
)
    decreases events.len(),
{
    if events.len() == 0 {
        (Seq::empty(), pending)
    } else {
        let (batches, waiting) = run(limit, pending, events.drop_last());
        let (left, flushed) = step(limit, waiting, events.last());
        match flushed {
            Some(batch) => (batches.push(batch), left),
            None => (batches, left),
        }
    }
}

/// The rows that arrive in `events`, in order.
pub open spec fn arrivals<T>(events: Seq<Option<T>>) -> Seq<T>
    decreases events.len(),
{
    if events.len() == 0 {
        Seq::empty()
    } else {
        match events.last() {
            Some(row) => arrivals(events.drop_last()).push(row),
            None => arrivals(events.drop_last()),
        }
    }
}

/// Batches keep the arrival order, and no row is lost or repeated: the
/// flushed batches, one after another, followed by the rows that still
/// wait, are the rows that waited at first followed by those that arrived.
pub proof fn batches_keep_arrival_order<T>(limit: nat, pending: Seq<T>, events: Seq<Option<T>>)
    ensures
        run(limit, pending, events).0.flatten() + run(limit, pending, events).1 == pending
            + arrivals(events),
    decreases events.len(),
{
    if events.len() == 0 {
        assert(Seq::<Seq<T>>::empty().flatten() == Seq::<T>::empty());
        assert(Seq::<T>::empty() + pending == pending);
        assert(pending + Seq::<T>::empty() == pending);
    } else {
        let earlier = events.drop_last();
        batches_keep_arrival_order(limit, pending, earlier);
        let (batches, waiting) = run(limit, pending, earlier);
        let (left, flushed) = step(limit, waiting, events.last());
        match flushed {
            Some(batch) => {
                batches.lemma_flatten_push(batch);
                assert(batches.push(batch).flatten() + left == batches.flatten() + batch);
                match events.last() {
                    Some(row) => {
                        assert(batches.flatten() + waiting.push(row) == (batches.flatten()
                            + waiting).push(row));
                        assert(pending + arrivals(earlier).push(row) == (pending + arrivals(
                            earlier,
                        )).push(row));
                    },
                    None => {},
                }
            },
            None => {
                match events.last() {
                    Some(row) => {
                        assert(batches.flatten() + waiting.push(row) == (batches.flatten()
                            + waiting).push(row));
                        assert(pending + arrivals(earlier).push(row) == (pending + arrivals(
                            earlier,
                        )).push(row));
                    },
                    None => {},
                }
            },
        }
    }
}

/// Under a batch size of one or more, a batch never exceeds the size and is
/// never empty, and fewer rows than the size wait between steps.
pub proof fn batches_are_bounded<T>(limit: nat, pending: Seq<T>, events: Seq<Option<T>>)
    requires
        1 <= limit,
        pending.len() < limit,
    ensures
        run(limit, pending, events).1.len() < limit,
        forall|i: int|
            0 <= i < run(limit, pending, events).0.len() ==> 1 <= (#[trigger] run(
                limit,
                pending,
                events,
            ).0[i]).len() <= limit,
    decreases events.len(),
{
    if events.len() > 0 {
        batches_are_bounded(limit, pending, events.drop_last());
    }
}

/// Only an idle timeout flushes a partial batch: a batch that an arrival
/// flushes is full.
pub proof fn arrival_flushes_full_batch<T>(limit: nat, pending: Seq<T>, row: T)
    ensures
        step(limit, pending, Some(row)).1 matches Some(batch) ==> batch.len() == limit,
        step(limit, pending, Some(row)).1 is None ==> step(limit, pending, Some(row)).0.len()
            == pending.len() + 1,
{
}

/// Once the channel falls idle nothing waits any more: every row that
/// waited or arrived has been flushed.
pub proof fn idle_flushes_everything<T>(limit: nat, pending: Seq<T>, events: Seq<Option<T>>)
    ensures
        run(limit, pending, events.push(None)).1 == Seq::<T>::empty(),
        run(limit, pending, events.push(None)).0.flatten() == pending + arrivals(events),
{
    let all = events.push(None);
    assert(all.drop_last() == events);
    batches_keep_arrival_order(limit, pending, all);
    assert(run(limit, pending, all).1 == Seq::<T>::empty());
    assert(arrivals(all) == arrivals(events));
    assert(run(limit, pending, all).0.flatten() + Seq::<T>::empty() == run(
        limit,
        pending,
        all,
    ).0.flatten());
}

/// A write that failed stops nothing. The consumer stands after a flush as
/// it stands at the start, whatever became of the batch: the next item is
/// accepted, and it is flushed when the batch fills or the channel falls
/// idle, alone if nothing else arrived.
pub proof fn failed_write_stops_nothing<T>(limit: nat, row: T)
    ensures
        run(limit, Seq::empty(), seq![Some(row), None]) == (seq![seq![row]], Seq::<T>::empty()),
{
    let events = seq![Some(row), None];
    let first = events.drop_last();
    assert(first == seq![Some(row)]);
    assert(first.drop_last() == Seq::<Option<T>>::empty());
    assert(run(limit, Seq::<T>::empty(), first.drop_last()) == (
        Seq::<Seq<T>>::empty(),
        Seq::<T>::empty(),
    ));
    assert(Seq::<T>::empty().push(row) == seq![row]);
    assert(Seq::<Seq<T>>::empty().push(seq![row]) == seq![seq![row]]);
    if limit == 1 {
        assert(run(limit, Seq::<T>::empty(), first) == (seq![seq![row]], Seq::<T>::empty()));
    } else {
        assert(run(limit, Seq::<T>::empty(), first) == (Seq::<Seq<T>>::empty(), seq![row]));
    }
}

/// A batch is never empty: nothing is flushed where nothing waits.
pub proof fn batches_are_never_empty<T>(limit: nat, pending: Seq<T>, events: Seq<Option<T>>)
    ensures
        forall|i: int|
            0 <= i < run(limit, pending, events).0.len() ==> (#[trigger] run(
                limit,
                pending,
                events,
            ).0[i]).len() >= 1,
    decreases events.len(),
{
    if events.len() > 0 {
        batches_are_never_empty(limit, pending, events.drop_last());
        let (batches, waiting) = run(limit, pending, events.drop_last());
        let (left, flushed) = step(limit, waiting, events.last());
        match flushed {
            Some(batch) => {
                assert(batch.len() >= 1);
                assert(run(limit, pending, events).0 == batches.push(batch));
            },
            None => {
                assert(run(limit, pending, events).0 == batches);
            },
        }
    }
}

/// The rows that wait for the next flush. Under a batch size of one or more,
/// fewer rows than the size wait at any time.
pub struct Accumulator<T> {
    limit: usize,
    rows: Vec<T>,
}

/// A batch on its way to the store: at least one row, and at most the batch
/// size where that is one or more.
pub struct Flush<T> {
    limit: usize,
    rows: Vec<T>,
}

/// What the driver does next.
pub enum Next<T> {
    /// Block on the channel again.
    Receive(Accumulator<T>),
    /// Write the batch to the store, then report how it went.
    Write(Flush<T>),
}

impl<T> Accumulator<T> {
    #[verifier::type_invariant]
    spec fn well_formed(self) -> bool {
        self.limit >= 1 ==> self.rows@.len() < self.limit
    }

    /// The configured batch size.
    pub closed spec fn limit(self) -> nat {
        self.limit as nat
    }

    /// The rows that wait, in arrival order.
    pub closed spec fn pending(self) -> Seq<T> {
        self.rows@
    }

    /// The phase that the waiting rows put the consumer in.
    pub open spec fn spec_phase(&self) -> Phase {
        if self.pending().len() == 0 {
            Phase::AwaitingItem
        } else {
            Phase::Accumulating
        }
    }

    /// An accumulator with nothing waiting.
    pub fn new(batch_size: usize) -> (acc: Accumulator<T>)
        ensures
            acc.limit() == batch_size,
            acc.pending() == Seq::<T>::empty(),
            acc.spec_phase() == Phase::AwaitingItem,
    {
        Accumulator { limit: batch_size, rows: Vec::new() }
    }

    #[verifier::when_used_as_spec(spec_phase)]
    pub fn phase(&self) -> (phase: Phase)
        ensures
            phase == self.spec_phase(),
    {
        if self.rows.len() == 0 {
            Phase::AwaitingItem
        } else {
            Phase::Accumulating
        }
    }

    /// How many rows wait.
    pub fn len(&self) -> (n: usize)
        ensures
            n == self.pending().len(),
            self.limit() >= 1 ==> n < self.limit(),
    {
        proof {
            use_type_invariant(self);
        }
        self.rows.len()
    }

    /// An item arrived and was mapped to `row`. The row joins the waiting
    /// rows; if that fills the batch, the batch is flushed.
    pub fn on_item(self, row: T) -> (next: Next<T>)
        ensures
            next.limit() == self.limit(),
            (next.pending(), next.flushed()) == step(self.limit(), self.pending(), Some(row)),
    {
        proof {
            use_type_invariant(&self);
        }
        let Accumulator { limit, mut rows } = self;
        rows.push(row);
        if rows.len() == limit {
            Next::Write(Flush { limit, rows })
        } else {
            Next::Receive(Accumulator { limit, rows })
        }
    }

    /// Nothing arrived for the idle timeout. Rows that wait are flushed as
    /// a partial batch; without rows the consumer goes on waiting.
    pub fn on_idle(self) -> (next: Next<T>)
        ensures
            next.limit() == self.limit(),
            (next.pending(), next.flushed()) == step(self.limit(), self.pending(), None),
    {
        proof {
            use_type_invariant(&self);
        }
        if self.rows.len() > 0 {
            let Accumulator { limit, rows } = self;
            Next::Write(Flush { limit, rows })
        } else {
            Next::Receive(self)
        }
    }
}

impl<T> Flush<T> {
    #[verifier::type_invariant]
    spec fn well_formed(self) -> bool {
        1 <= self.rows@.len() && (self.limit >= 1 ==> self.rows@.len() <= self.limit)
    }

    /// The batch size of the accumulator that this batch came from.
    pub closed spec fn limit(self) -> nat {
        self.limit as nat
    }

    /// The rows of the batch, in arrival order.
    pub closed spec fn batch(self) -> Seq<T> {
        self.rows@
    }

    /// The rows to write, in arrival order.
    pub fn rows(&self) -> (rows: &Vec<T>)
        ensures
            rows@ == self.batch(),
            1 <= rows@.len(),
            self.limit() >= 1 ==> rows@.len() <= self.limit(),
    {
        proof {
            use_type_invariant(self);
        }
        &self.rows
    }

    /// The write ended. Whether it succeeded or failed, the batch is gone
    /// and the consumer awaits the next item with nothing waiting: a failed
    /// write is not retried and stops nothing.
    pub fn done(self, written: bool) -> (acc: Accumulator<T>)
        ensures
            acc.limit() == self.limit(),
            acc.pending() == Seq::<T>::empty(),
            acc.spec_phase() == Phase::AwaitingItem,
    {
        proof {
            use_type_invariant(&self);
        }
        Accumulator { limit: self.limit, rows: Vec::new() }
    }
}

impl<T> Next<T> {
    /// The limit that the step carried over.
    pub open spec fn limit(self) -> nat {
        match self {
            Next::Receive(acc) => acc.limit(),
            Next::Write(flush) => flush.limit(),
        }
    }

    /// The rows that wait after the step.
    pub open spec fn pending(self) -> Seq<T> {
        match self {
            Next::Receive(acc) => acc.pending(),
            Next::Write(_) => Seq::empty(),
        }
    }

    /// The batch that the step flushes, if it ends in a flush.
    pub open spec fn flushed(self) -> Option<Seq<T>> {
        match self {
            Next::Receive(_) => None,
            Next::Write(flush) => Some(flush.batch()),
        }
    }

    /// The phase after the step.
    pub open spec fn phase(self) -> Phase {
        match self {
            Next::Receive(acc) => acc.spec_phase(),
            Next::Write(_) => Phase::Flushing,
        }
    }
}

} // verus!
