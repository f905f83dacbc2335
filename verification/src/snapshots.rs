//! The plot series of a frame, derived from the windows.

use crate::histograms::Histograms;
use crate::metric::Metric;
use crate::ring::ring_items;
use crate::ring::ring_values;
use ringbuffer::AllocRingBuffer;
use vstd::prelude::*;

verus! {

/// One series of points per metric. A point is a sample's position in its
/// window, counted from the oldest retained sample, and the sample's value.
pub struct Snapshots {
    pub active: Vec<(usize, usize)>,
    pub allocated: Vec<(usize, usize)>,
    pub mapped: Vec<(usize, usize)>,
    pub metadata: Vec<(usize, usize)>,
    pub retained: Vec<(usize, usize)>,
}

/// The points of a window: one per sample, numbered from zero at the oldest.
pub open spec fn plot_points(window: Seq<usize>) -> Seq<(usize, usize)> {
    Seq::new(window.len(), |i: int| (i as usize, window[i]))
}

/// The plot of a window has one point per sample; the point at `i` is
/// numbered `i` and carries the window's `i`-th sample from the oldest end.
pub proof fn lemma_plot_points(window: Seq<usize>, i: int)
    requires
        window.len() <= usize::MAX,
    ensures
        plot_points(window).len() == window.len(),
        0 <= i < window.len() ==> {
            &&& plot_points(window)[i].0 == i
            &&& plot_points(window)[i].1 == window[i]
        },
{
}

/// Whether `peak` is the value of some point of `series` and no point of it
/// has a greater value.
pub open spec fn is_series_peak(series: Seq<(usize, usize)>, peak: usize) -> bool {
    &&& exists|i: int| 0 <= i < series.len() && (#[trigger] series[i]).1 == peak
    &&& forall|i: int| 0 <= i < series.len() ==> (#[trigger] series[i]).1 <= peak
}

/// The greatest value among the points of a series, if it has any point.
pub fn series_peak(series: &Vec<(usize, usize)>) -> (peak: Option<usize>)
    ensures
        peak is None <==> series@.len() == 0,
        peak matches Some(value) ==> is_series_peak(series@, value),
{
    if series.len() == 0 {
        return None;
    }
    let mut best: usize = series[0].1;
    let mut i: usize = 1;
    assert(series@.take(1)[0].1 == best);
    while i < series.len()
        invariant
            1 <= i <= series.len(),
            is_series_peak(series@.take(i as int), best),
        decreases series.len() - i,
    {
        let ghost seen = series@.take(i as int);
        let ghost next = series@.take(i + 1);
        let ghost at = choose|k: int| 0 <= k < seen.len() && (#[trigger] seen[k]).1 == best;
        if series[i].1 > best {
            best = series[i].1;
            assert(next[i as int].1 == best);
        } else {
            assert(next[at].1 == best);
        }
        assert forall|k: int| 0 <= k < next.len() implies (#[trigger] next[k]).1 <= best by {
            if k < i {
                assert(seen[k] == next[k]);
            }
        }
        i = i + 1;
    }
    assert(series@.take(series.len() as int) == series@);
    Some(best)
}

impl Snapshots {
    /// The series of `metric`.
    pub open spec fn series(&self, metric: Metric) -> Seq<(usize, usize)> {
        match metric {
            Metric::Active => self.active@,
            Metric::Allocated => self.allocated@,
            Metric::Mapped => self.mapped@,
            Metric::Metadata => self.metadata@,
            Metric::Retained => self.retained@,
        }
    }

    /// Whether no series has a point.
    pub open spec fn is_blank(&self) -> bool {
        forall|metric: Metric| (#[trigger] self.series(metric)).len() == 0
    }

    /// Whether `peak` is the greatest value among all points of all series,
    /// or zero where there is no point at all.
    pub open spec fn is_peak(&self, peak: usize) -> bool {
        &&& self.is_blank() ==> peak == 0
        &&& !self.is_blank() ==> exists|metric: Metric, i: int|
            0 <= i < self.series(metric).len() && (#[trigger] self.series(metric)[i]).1 == peak
        &&& forall|metric: Metric, i: int|
            0 <= i < self.series(metric).len() ==> (#[trigger] self.series(metric)[i]).1 <= peak
    }

    /// A snapshot has one peak: `is_peak` holds of one value only.
    pub proof fn lemma_peak_is_unique(&self, a: usize, b: usize)
        requires
            self.is_peak(a),
            self.is_peak(b),
        ensures
            a == b,
    {
    }

    /// Whether every series is the plot of its metric's window in `store`.
    pub open spec fn depicts(&self, store: &Histograms) -> bool {
        forall|metric: Metric| #[trigger] self.series(metric) == plot_points(store.window(metric))
    }

    /// Series without points.
    pub fn new() -> (snapshots: Self)
        ensures
            snapshots.is_blank(),
    {
        Self {
            active: Vec::new(),
            allocated: Vec::new(),
            mapped: Vec::new(),
            metadata: Vec::new(),
            retained: Vec::new(),
        }
    }

    /// The series of `metric`.
    pub fn points(&self, metric: Metric) -> (points: &Vec<(usize, usize)>)
        ensures
            points@ == self.series(metric),
    {
        match metric {
            Metric::Active => &self.active,
            Metric::Allocated => &self.allocated,
            Metric::Mapped => &self.mapped,
            Metric::Metadata => &self.metadata,
            Metric::Retained => &self.retained,
        }
    }

    /// The greatest value of any point of any series; zero where no series
    /// has a point.
    pub fn max(&self) -> (peak: usize)
        ensures
            self.is_peak(peak),
    {
        let metrics: [Metric; 5] = Metric::all();
        let mut peak: usize = 0;
        let mut found: bool = false;
        let mut n: usize = 0;
        while n < 5
            invariant
                n <= 5,
                metrics@ == Metric::order(),
                !found ==> peak == 0,
                !found ==> forall|k: int| 0 <= k < n ==> (#[trigger] self.series(metrics@[k])).len() == 0,
                found ==> exists|k: int, i: int|
                    0 <= k < n && 0 <= i < self.series(metrics@[k]).len() && (
                    #[trigger] self.series(metrics@[k])[i]).1 == peak,
                forall|k: int, i: int|
                    0 <= k < n && 0 <= i < self.series(metrics@[k]).len() ==> (
                    #[trigger] self.series(metrics@[k])[i]).1 <= peak,
            decreases 5 - n,
        {
            let metric: Metric = metrics[n];
            match series_peak(self.points(metric)) {
                Some(value) => {
                    let ghost at = choose|i: int|
                        0 <= i < self.series(metric).len() && (#[trigger] self.series(metric)[i]).1
                            == value;
                    if !found || value > peak {
                        peak = value;
                        found = true;
                        assert(self.series(metrics@[n as int])[at].1 == peak);
                    }
                },
                None => {},
            }
            n = n + 1;
        }
        proof {
            assert forall|metric: Metric, i: int| 0 <= i < self.series(metric).len() implies (
            #[trigger] self.series(metric)[i]).1 <= peak by {
                let k = Self::position(metric);
                assert(metrics@[k] == metric);
            }
            if found {
                let (k, i) = choose|k: int, i: int|
                    0 <= k < 5 && 0 <= i < self.series(metrics@[k]).len() && (
                    #[trigger] self.series(metrics@[k])[i]).1 == peak;
                assert(self.series(metrics@[k]).len() > 0);
                assert(!self.is_blank());
            } else {
                assert forall|metric: Metric| (#[trigger] self.series(metric)).len() == 0 by {
                    let k = Self::position(metric);
                    assert(metrics@[k] == metric);
                }
            }
        }
        peak
    }

    /// Where `metric` stands in the order of the metrics.
    pub open spec fn position(metric: Metric) -> int {
        match metric {
            Metric::Active => 0,
            Metric::Allocated => 1,
            Metric::Mapped => 2,
            Metric::Metadata => 3,
            Metric::Retained => 4,
        }
    }

    /// Rebuilds every series from its metric's window.
    pub fn snapshot_histograms(&mut self, histograms: &Histograms)
        ensures
            final(self).depicts(histograms),
    {
        Self::snapshot(&mut self.active, histograms.ring(Metric::Active));
        Self::snapshot(&mut self.allocated, histograms.ring(Metric::Allocated));
        Self::snapshot(&mut self.mapped, histograms.ring(Metric::Mapped));
        Self::snapshot(&mut self.metadata, histograms.ring(Metric::Metadata));
        Self::snapshot(&mut self.retained, histograms.ring(Metric::Retained));
    }

    /// Replaces `snapshot` by the plot of `histogram`.
    fn snapshot(snapshot: &mut Vec<(usize, usize)>, histogram: &AllocRingBuffer<usize>)
        ensures
            final(snapshot)@ == plot_points(ring_items(histogram)),
    {
        snapshot.clear();
        let values: Vec<usize> = ring_values(histogram);
        let mut i: usize = 0;
        while i < values.len()
            invariant
                i <= values.len(),
                values@ == ring_items(histogram),
                snapshot@ == plot_points(values@.take(i as int)),
            decreases values.len() - i,
        {
            snapshot.push((i, values[i]));
            assert(snapshot@ == plot_points(values@.take(i + 1)));
            i = i + 1;
        }
        assert(values@.take(values.len() as int) == values@);
    }
}

} // verus!
