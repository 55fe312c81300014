//! The sample store: one latency slot per request of the run, a completion
//! counter and an error counter, owned by a single aggregator.

use vstd::prelude::*;

verus! {

/// How one request ended.
#[derive(Clone, Copy, Debug, PartialEq, Eq, Structural)]
pub enum RequestOutcome {
    /// The request succeeded after this many nanoseconds.
    Success(u64),
    /// The request failed.
    Failure,
}

/// What a slot holds once its request has ended: the latency of a success,
/// and zero, the value of an unused slot, after a failure.
pub open spec fn slot_value(outcome: RequestOutcome) -> u64 {
    match outcome {
        RequestOutcome::Success(nanos) => nanos,
        RequestOutcome::Failure => 0,
    }
}

/// Number of failures among the outcomes.
pub open spec fn failures(log: Seq<RequestOutcome>) -> nat
    decreases log.len(),
{
    if log.len() == 0 {
        0
    } else {
        failures(log.drop_last()) + if log.last() == RequestOutcome::Failure {
            1nat
        } else {
            0nat
        }
    }
}

/// Number of successes among the outcomes.
pub open spec fn successes(log: Seq<RequestOutcome>) -> nat
    decreases log.len(),
{
    if log.len() == 0 {
        0
    } else {
        successes(log.drop_last()) + if log.last() == RequestOutcome::Failure {
            0nat
        } else {
            1nat
        }
    }
}

/// The slots of a store of the given capacity after the outcomes of `log`
/// were recorded in order: the `i`-th outcome fills slot `i`, outcomes beyond
/// the capacity fill none, and the other slots are zero.
pub open spec fn slots_after(capacity: nat, log: Seq<RequestOutcome>) -> Seq<u64> {
    Seq::new(
        capacity,
        |i: int|
            if i < log.len() {
                slot_value(log[i])
            } else {
                0u64
            },
    )
}

/// Whether a slot holds a sample.
pub open spec fn is_sample() -> spec_fn(u64) -> bool {
    |nanos: u64| nanos != 0
}

/// The effective samples: what the slots hold, in slot order, without the
/// zero slots.
pub open spec fn effective(slots: Seq<u64>) -> Seq<u64> {
    slots.filter(is_sample())
}

/// Every outcome is a success or a failure.
pub proof fn lemma_outcomes_partition(log: Seq<RequestOutcome>)
    ensures
        successes(log) + failures(log) == log.len(),
    decreases log.len(),
{
    if log.len() > 0 {
        lemma_outcomes_partition(log.drop_last());
    }
}

/// Fixed-capacity store of latency samples with its two counters.
pub struct SampleStore {
    slots: Vec<u64>,
    completed: usize,
    errors: usize,
    log: Ghost<Seq<RequestOutcome>>,
    handed_out: Ghost<Seq<usize>>,
}

impl SampleStore {
    /// The outcomes recorded so far, in the order of their recording.
    pub closed spec fn log(&self) -> Seq<RequestOutcome> {
        self.log@
    }

    /// The slot indices handed out so far, in the order of their handing out.
    pub closed spec fn handed_out(&self) -> Seq<usize> {
        self.handed_out@
    }

    /// Number of slots.
    pub closed spec fn spec_capacity(&self) -> nat {
        self.slots@.len()
    }

    /// What the slots hold: what the recorded outcomes put there.
    pub open spec fn slots(&self) -> Seq<u64> {
        slots_after(self.spec_capacity(), self.log())
    }

    /// Value of the completion counter: the number of outcomes recorded.
    pub open spec fn spec_completed(&self) -> nat {
        self.log().len()
    }

    /// Value of the error counter: the number of failures recorded.
    pub open spec fn spec_errors(&self) -> nat {
        failures(self.log())
    }

    /// The store is consistent: the completion counter counts the recorded
    /// outcomes, the error counter the failures among them, the `k`-th
    /// request was handed slot index `k`, and the slots hold exactly what the
    /// outcomes put there.
    pub closed spec fn wf(&self) -> bool {
        &&& self.completed == self.log@.len()
        &&& self.errors == failures(self.log@)
        &&& self.handed_out@.len() == self.log@.len()
        &&& forall|k: int| 0 <= k < self.handed_out@.len() ==> #[trigger] self.handed_out@[k] == k
        &&& self.slots@ == self.slots()
    }

    /// A store of `capacity` unused slots with both counters at zero.
    pub fn new(capacity: usize) -> (store: SampleStore)
        ensures
            store.wf(),
            store.spec_capacity() == capacity,
            store.log() == Seq::<RequestOutcome>::empty(),
            store.handed_out() == Seq::<usize>::empty(),
            store.spec_completed() == 0,
            store.spec_errors() == 0,
    {
        let mut slots: Vec<u64> = Vec::new();
        let mut i: usize = 0;
        while i < capacity
            invariant
                i <= capacity,
                slots@.len() == i,
                forall|k: int| 0 <= k < i ==> slots@[k] == 0,
            decreases capacity - i,
        {
            slots.push(0);
            i += 1;
        }
        let store = SampleStore {
            slots,
            completed: 0,
            errors: 0,
            log: Ghost(Seq::empty()),
            handed_out: Ghost(Seq::empty()),
        };
        assert(store.slots@ =~= slots_after(store.slots@.len(), store.log@));
        store
    }

    /// Number of slots.
    pub fn capacity(&self) -> (n: usize)
        ensures
            n == self.spec_capacity(),
    {
        self.slots.len()
    }

    /// Number of requests that have ended.
    pub fn completed(&self) -> (n: usize)
        requires
            self.wf(),
        ensures
            n == self.spec_completed(),
    {
        self.completed
    }

    /// Number of requests that have failed.
    pub fn errors(&self) -> (n: usize)
        requires
            self.wf(),
        ensures
            n == self.spec_errors(),
    {
        self.errors
    }

    /// Number of requests that have succeeded.
    pub fn successes(&self) -> (n: usize)
        requires
            self.wf(),
        ensures
            n == successes(self.log()),
            n + self.spec_errors() == self.spec_completed(),
    {
        proof {
            lemma_outcomes_partition(self.log@);
        }
        self.completed - self.errors
    }

    /// Whether every slot's request has ended.
    pub fn is_complete(&self) -> (done: bool)
        requires
            self.wf(),
        ensures
            done == (self.spec_completed() >= self.spec_capacity()),
    {
        self.completed >= self.slots.len()
    }

    /// What slot `index` holds.
    pub fn slot(&self, index: usize) -> (nanos: u64)
        requires
            self.wf(),
            index < self.spec_capacity(),
        ensures
            nanos == self.slots()[index as int],
    {
        self.slots[index]
    }

    /// Records how one request ended. The request is handed the value of the
    /// completion counter as its slot index, and the counter grows by one. A
    /// success stores its latency in that slot if the store has such a slot;
    /// a failure leaves the slots as they are and grows the error counter by
    /// one.
    pub fn record(&mut self, outcome: RequestOutcome) -> (index: usize)
        requires
            old(self).wf(),
            old(self).spec_completed() < usize::MAX,
        ensures
            final(self).wf(),
            index == old(self).spec_completed(),
            final(self).spec_capacity() == old(self).spec_capacity(),
            final(self).log() == old(self).log().push(outcome),
            final(self).handed_out() == old(self).handed_out().push(index),
            final(self).spec_completed() == old(self).spec_completed() + 1,
            final(self).spec_errors() == old(self).spec_errors() + if outcome
                == RequestOutcome::Failure {
                1nat
            } else {
                0nat
            },
            successes(final(self).log()) == successes(old(self).log()) + if outcome
                == RequestOutcome::Failure {
                0nat
            } else {
                1nat
            },
    {
        let index: usize = self.completed;
        let ghost before = self.log@;
        self.completed = self.completed + 1;
        match outcome {
            RequestOutcome::Success(nanos) => {
                if index < self.slots.len() {
                    self.slots[index] = nanos;
                }
            },
            RequestOutcome::Failure => {
                proof {
                    lemma_outcomes_partition(before);
                }
                self.errors = self.errors + 1;
            },
        }
        proof {
            self.log@ = before.push(outcome);
            self.handed_out@ = self.handed_out@.push(index);
            assert(self.log@.drop_last() =~= before);
            assert(self.slots@ =~= slots_after(self.slots@.len(), self.log@));
        }
        index
    }

    /// The effective samples, in slot order.
    pub fn effective_samples(&self) -> (samples: Vec<u64>)
        requires
            self.wf(),
        ensures
            samples@ == effective(self.slots()),
    {
        let mut samples: Vec<u64> = Vec::new();
        let mut i: usize = 0;
        proof {
            assert(self.slots@.take(0) =~= Seq::<u64>::empty());
            broadcast use vstd::seq_lib::group_filter_ensures;
        }
        while i < self.slots.len()
            invariant
                i <= self.slots@.len(),
                samples@ == effective(self.slots@.take(i as int)),
            decreases self.slots@.len() - i,
        {
            let nanos: u64 = self.slots[i];
            proof {
                assert(self.slots@.take(i + 1) =~= self.slots@.take(i as int).push(nanos));
                self.slots@.take(i as int).lemma_filter_push(nanos, is_sample());
            }
            if nanos != 0 {
                samples.push(nanos);
            }
            i += 1;
        }
        proof {
            assert(self.slots@.take(i as int) =~= self.slots@);
        }
        samples
    }
}

/// The counters agree: at every moment the completion counter is the number
/// of successes plus the number of failures recorded, and the error counter
/// is the number of failures.
pub proof fn lemma_counters_agree(store: SampleStore)
    requires
        store.wf(),
    ensures
        store.spec_completed() == successes(store.log()) + store.spec_errors(),
        store.spec_errors() <= store.spec_completed(),
{
    lemma_outcomes_partition(store.log());
}

/// A finished run: once as many outcomes are recorded as the store has
/// slots, the completion counter equals the number of requests of the run,
/// and successes and errors together make up that number.
pub proof fn lemma_finished_run(store: SampleStore)
    requires
        store.wf(),
        store.log().len() == store.spec_capacity(),
    ensures
        store.spec_completed() == store.spec_capacity(),
        successes(store.log()) + store.spec_errors() == store.spec_capacity(),
        store.handed_out().len() == store.spec_capacity(),
{
    lemma_outcomes_partition(store.log());
    lemma_slot_assignment_bijective(store);
}

/// Slot assignment is one to one: the requests recorded so far were handed
/// pairwise different indices, and these are exactly the indices below the
/// completion counter. Once the counter has reached the capacity, every slot
/// of the store has been handed out exactly once.
pub proof fn lemma_slot_assignment_bijective(store: SampleStore)
    requires
        store.wf(),
    ensures
        store.handed_out().len() == store.spec_completed(),
        forall|i: int, j: int|
            0 <= i < j < store.handed_out().len() ==> store.handed_out()[i]
                != store.handed_out()[j],
        forall|k: int|
            0 <= k < store.handed_out().len() ==> 0 <= #[trigger] store.handed_out()[k]
                < store.spec_completed(),
        forall|index: usize|
            index < store.spec_completed() ==> #[trigger] store.handed_out().contains(index),
{
    assert forall|index: usize| index < store.spec_completed() implies #[trigger] store.handed_out().contains(
        index,
    ) by {
        assert(store.handed_out()[index as int] == index);
    }
}

/// A slot is written at most once: after a further outcome is recorded,
/// every slot whose request had ended before holds what it held.
pub proof fn lemma_slots_written_once(
    capacity: nat,
    log: Seq<RequestOutcome>,
    outcome: RequestOutcome,
    index: int,
)
    requires
        0 <= index < capacity,
        index < log.len(),
    ensures
        slots_after(capacity, log.push(outcome))[index] == slots_after(capacity, log)[index],
{
}

/// A store without slots has no effective sample, whatever was recorded.
pub proof fn lemma_no_slots_no_samples(log: Seq<RequestOutcome>)
    ensures
        effective(slots_after(0, log)) == Seq::<u64>::empty(),
{
    assert(slots_after(0, log) =~= Seq::<u64>::empty());
    broadcast use vstd::seq_lib::group_filter_ensures;
    assert(effective(Seq::<u64>::empty()).len() <= 0);
    assert(effective(Seq::<u64>::empty()) =~= Seq::<u64>::empty());
}

/// Slots that are all zero hold no effective sample.
pub proof fn lemma_unused_slots_no_samples(slots: Seq<u64>)
    requires
        forall|i: int| 0 <= i < slots.len() ==> slots[i] == 0,
    ensures
        effective(slots) == Seq::<u64>::empty(),
    decreases slots.len(),
{
    if slots.len() == 0 {
        broadcast use vstd::seq_lib::group_filter_ensures;
        assert(effective(slots).len() <= 0);
        assert(effective(slots) =~= Seq::<u64>::empty());
    } else {
        let init = slots.drop_last();
        lemma_unused_slots_no_samples(init);
        init.lemma_filter_push(slots.last(), is_sample());
        assert(init.push(slots.last()) =~= slots);
    }
}

/// After failures only, every slot is unused and no sample is effective.
pub proof fn lemma_failures_leave_no_samples(capacity: nat, log: Seq<RequestOutcome>)
    requires
        forall|k: int| 0 <= k < log.len() ==> log[k] == RequestOutcome::Failure,
    ensures
        effective(slots_after(capacity, log)) == Seq::<u64>::empty(),
        failures(log) == log.len(),
        successes(log) == 0,
    decreases log.len(),
{
    lemma_unused_slots_no_samples(slots_after(capacity, log));
    if log.len() > 0 {
        lemma_failures_leave_no_samples(capacity, log.drop_last());
    }
}

} // verus!
