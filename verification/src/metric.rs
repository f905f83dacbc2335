//! The five allocator statistics that are tracked.

use vstd::prelude::*;

verus! {

/// One tracked statistic. A metric is identified by its name.
#[derive(Clone, Copy, Debug, PartialEq, Eq, Structural)]
pub enum Metric {
    Active,
    Allocated,
    Mapped,
    Metadata,
    Retained,
}

/// The colour a metric's series is drawn in.
#[derive(Clone, Copy, Debug, PartialEq, Eq, Structural)]
pub enum SeriesColor {
    Red,
    Blue,
    Green,
    Magenta,
    Yellow,
}

/// One value per metric, as read in a single tick.
#[derive(Clone, Copy, Debug, PartialEq, Eq, Structural)]
pub struct Readings {
    pub active: usize,
    pub allocated: usize,
    pub mapped: usize,
    pub metadata: usize,
    pub retained: usize,
}

impl Metric {
    /// The name of the metric.
    pub open spec fn name_of(self) -> Seq<char> {
        match self {
            Metric::Active => "active"@,
            Metric::Allocated => "allocated"@,
            Metric::Mapped => "mapped"@,
            Metric::Metadata => "metadata"@,
            Metric::Retained => "retained"@,
        }
    }

    /// The colour of the metric's series.
    pub open spec fn color_of(self) -> SeriesColor {
        match self {
            Metric::Active => SeriesColor::Red,
            Metric::Allocated => SeriesColor::Blue,
            Metric::Mapped => SeriesColor::Green,
            Metric::Metadata => SeriesColor::Magenta,
            Metric::Retained => SeriesColor::Yellow,
        }
    }

    /// The tracked metrics in the order they are sampled and drawn.
    pub open spec fn order() -> Seq<Metric> {
        seq![
            Metric::Active,
            Metric::Allocated,
            Metric::Mapped,
            Metric::Metadata,
            Metric::Retained,
        ]
    }

    /// The name of the metric.
    pub fn name(self) -> (name: &'static str)
        ensures
            name@ == self.name_of(),
    {
        match self {
            Metric::Active => "active",
            Metric::Allocated => "allocated",
            Metric::Mapped => "mapped",
            Metric::Metadata => "metadata",
            Metric::Retained => "retained",
        }
    }

    /// The colour of the metric's series.
    pub fn color(self) -> (color: SeriesColor)
        ensures
            color == self.color_of(),
    {
        match self {
            Metric::Active => SeriesColor::Red,
            Metric::Allocated => SeriesColor::Blue,
            Metric::Mapped => SeriesColor::Green,
            Metric::Metadata => SeriesColor::Magenta,
            Metric::Retained => SeriesColor::Yellow,
        }
    }

    /// The tracked metrics in the order they are sampled and drawn.
    pub fn all() -> (metrics: [Metric; 5])
        ensures
            metrics@ == Metric::order(),
    {
        [Metric::Active, Metric::Allocated, Metric::Mapped, Metric::Metadata, Metric::Retained]
    }
}

impl Readings {
    /// The value read for `metric`.
    pub open spec fn of(self, metric: Metric) -> usize {
        match metric {
            Metric::Active => self.active,
            Metric::Allocated => self.allocated,
            Metric::Mapped => self.mapped,
            Metric::Metadata => self.metadata,
            Metric::Retained => self.retained,
        }
    }

    /// The value read for `metric`.
    pub fn get(&self, metric: Metric) -> (value: usize)
        ensures
            value == self.of(metric),
    {
        match metric {
            Metric::Active => self.active,
            Metric::Allocated => self.allocated,
            Metric::Mapped => self.mapped,
            Metric::Metadata => self.metadata,
            Metric::Retained => self.retained,
        }
    }
}

} // verus!
