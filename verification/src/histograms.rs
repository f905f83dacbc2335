//! The store of rolling windows: one window per metric, all of one capacity.

use crate::error::Failure;
use crate::error::TelemetryError;
use crate::metric::Metric;
use crate::metric::Readings;
use crate::mibs::MIBs;
use crate::ring::appended;
use crate::ring::ring_capacity;
use crate::ring::ring_enqueue;
use crate::ring::ring_items;
use crate::ring::ring_limit;
use crate::ring::ring_new;
use crate::ring::ring_rebuilt;
use crate::ring::ring_values;
use crate::ring::ring_written;
use crate::ring::MAX_WINDOW_CAPACITY;
use ringbuffer::AllocRingBuffer;
use vstd::prelude::*;

verus! {

/// One window per metric. A tick appends one sample to every window; a full
/// window gives up its oldest sample for the new one.
pub struct Histograms {
    active: AllocRingBuffer<usize>,
    allocated: AllocRingBuffer<usize>,
    mapped: AllocRingBuffer<usize>,
    metadata: AllocRingBuffer<usize>,
    retained: AllocRingBuffer<usize>,
    /// No window has taken more writes than this since it was last built.
    writes: usize,
}

impl Histograms {
    /// The samples retained for `metric`, oldest first.
    pub closed spec fn window(&self, metric: Metric) -> Seq<usize> {
        match metric {
            Metric::Active => ring_items(&self.active),
            Metric::Allocated => ring_items(&self.allocated),
            Metric::Mapped => ring_items(&self.mapped),
            Metric::Metadata => ring_items(&self.metadata),
            Metric::Retained => ring_items(&self.retained),
        }
    }

    /// The capacity every window was created with.
    pub closed spec fn limit(&self) -> nat {
        ring_limit(&self.active)
    }

    spec fn ring_wf(&self, ring: &AllocRingBuffer<usize>) -> bool {
        &&& ring_limit(ring) == self.limit()
        &&& ring_items(ring).len() <= self.limit()
        &&& ring_written(ring) <= self.writes
    }

    /// The windows share one capacity, which is at least one, and none holds
    /// more samples than that.
    pub closed spec fn wf(&self) -> bool {
        &&& 0 < self.limit() <= MAX_WINDOW_CAPACITY
        &&& self.ring_wf(&self.active)
        &&& self.ring_wf(&self.allocated)
        &&& self.ring_wf(&self.mapped)
        &&& self.ring_wf(&self.metadata)
        &&& self.ring_wf(&self.retained)
    }

    /// Whether this store is `before` after one tick that read `readings`:
    /// the capacity is the same and every window took its metric's value.
    pub open spec fn follows(&self, before: &Self, readings: Readings) -> bool {
        &&& self.limit() == before.limit()
        &&& forall|metric: Metric| #[trigger]
            self.window(metric) == appended(
                before.window(metric),
                before.limit(),
                readings.of(metric),
            )
    }

    /// Whether every window can take another write.
    pub closed spec fn has_room(&self) -> bool {
        self.writes < usize::MAX
    }

    /// Whether this store holds what `before` holds.
    pub open spec fn same_as(&self, before: &Self) -> bool {
        &&& self.limit() == before.limit()
        &&& forall|metric: Metric| #[trigger] self.window(metric) == before.window(metric)
    }

    /// No window of a well-formed store holds more samples than its capacity.
    pub proof fn lemma_windows_bounded(&self, metric: Metric)
        requires
            self.wf(),
        ensures
            self.window(metric).len() <= self.limit(),
            self.limit() >= 1,
    {
    }

    /// Creates a store of empty windows of the given capacity; a capacity of
    /// zero is refused.
    pub fn with_capacity(capacity: usize) -> (result: Result<Self, TelemetryError>)
        requires
            capacity <= MAX_WINDOW_CAPACITY,
        ensures
            capacity == 0 <==> result is Err,
            result matches Err(error) ==> error == (TelemetryError {
                failure: Failure::InvalidCapacity,
                cause: None,
            }),
            result matches Ok(store) ==> {
                &&& store.wf()
                &&& store.limit() == capacity
                &&& forall|metric: Metric| #[trigger] store.window(metric) == Seq::<usize>::empty()
            },
    {
        if capacity == 0 {
            return Err(TelemetryError::plain(Failure::InvalidCapacity));
        }
        Ok(
            Self {
                active: ring_new(capacity),
                allocated: ring_new(capacity),
                mapped: ring_new(capacity),
                metadata: ring_new(capacity),
                retained: ring_new(capacity),
                writes: 0,
            },
        )
    }

    /// The capacity of every window.
    pub fn capacity(&self) -> (capacity: usize)
        requires
            self.wf(),
        ensures
            capacity == self.limit(),
            capacity >= 1,
    {
        ring_capacity(&self.active)
    }

    /// The window of `metric`.
    pub fn ring(&self, metric: Metric) -> (ring: &AllocRingBuffer<usize>)
        ensures
            ring_items(ring) == self.window(metric),
    {
        match metric {
            Metric::Active => &self.active,
            Metric::Allocated => &self.allocated,
            Metric::Mapped => &self.mapped,
            Metric::Metadata => &self.metadata,
            Metric::Retained => &self.retained,
        }
    }

    /// The samples retained for `metric`, oldest first.
    pub fn values(&self, metric: Metric) -> (values: Vec<usize>)
        ensures
            values@ == self.window(metric),
    {
        ring_values(self.ring(metric))
    }

    /// Builds every window anew with the samples it holds. The rings count
    /// their writes in a machine word; building them anew starts the count
    /// over, and `record` does so before the count runs out. Nothing a caller
    /// can observe changes.
    pub fn rebuild(&mut self)
        requires
            old(self).wf(),
        ensures
            final(self).wf(),
            final(self).same_as(old(self)),
            final(self).has_room(),
    {
        let active = ring_rebuilt(&self.active);
        let allocated = ring_rebuilt(&self.allocated);
        let mapped = ring_rebuilt(&self.mapped);
        let metadata = ring_rebuilt(&self.metadata);
        let retained = ring_rebuilt(&self.retained);
        // A rebuilt window has taken as many writes as it holds samples,
        // which is at most the capacity.
        self.active = active;
        self.allocated = allocated;
        self.mapped = mapped;
        self.metadata = metadata;
        self.retained = retained;
        self.writes = ring_capacity(&self.active);
    }

    /// Appends one sample per metric: the tick's readings.
    pub fn record(&mut self, readings: Readings)
        requires
            old(self).wf(),
        ensures
            final(self).wf(),
            final(self).follows(old(self), readings),
    {
        if self.writes == usize::MAX {
            self.rebuild();
        }
        let ghost rested = *self;
        ring_enqueue(&mut self.active, readings.active);
        ring_enqueue(&mut self.allocated, readings.allocated);
        ring_enqueue(&mut self.mapped, readings.mapped);
        ring_enqueue(&mut self.metadata, readings.metadata);
        ring_enqueue(&mut self.retained, readings.retained);
        self.writes = self.writes + 1;
        proof {
            assert forall|metric: Metric| #[trigger]
                self.window(metric) == appended(
                    old(self).window(metric),
                    old(self).limit(),
                    readings.of(metric),
                ) by {
                old(self).lemma_windows_bounded(metric);
                assert(rested.window(metric) == old(self).window(metric));
            }
        }
    }

    /// Ends a tick whose reads gave `outcome`: readings are appended, a
    /// failure is handed on and leaves every window as it was.
    pub fn commit(&mut self, outcome: Result<Readings, TelemetryError>) -> (result: Result<
        (),
        TelemetryError,
    >)
        requires
            old(self).wf(),
        ensures
            final(self).wf(),
            outcome matches Ok(readings) ==> result is Ok && final(self).follows(old(self), readings),
            outcome matches Err(error) ==> {
                &&& result == Err::<(), TelemetryError>(error)
                &&& final(self).same_as(old(self))
            },
    {
        match outcome {
            Ok(readings) => {
                self.record(readings);
                Ok(())
            },
            Err(error) => Err(error),
        }
    }

    /// One tick: reads every metric and, if all of them could be read,
    /// appends the values. A tick in which any read fails appends nothing.
    pub fn sample(&mut self, mibs: &MIBs) -> (result: Result<(), TelemetryError>)
        requires
            old(self).wf(),
        ensures
            final(self).wf(),
            result is Ok ==> exists|readings: Readings| #[trigger] final(self).follows(old(self), readings),
            result matches Err(error) ==> error.failure is Read && final(self).same_as(old(self)),
    {
        let outcome = mibs.read_all();
        self.commit(outcome)
    }
}

} // verus!
