//! Vertical-axis policy of the chart.
//!
//! The axis never ends below a floor of ten MiB, is sized in whole MiB, and
//! always ends one KiB above that so the peak never touches the frame.

use crate::metric::Metric;
use crate::snapshots::is_series_peak;
use crate::snapshots::series_peak;
use crate::snapshots::Snapshots;
use vstd::prelude::*;

verus! {

/// Bytes in one KiB.
pub const KIB: usize = 1024;

/// Bytes in one MiB.
pub const MIB: usize = 1048576;

/// Smallest extent of the vertical axis, in MiB.
pub const AXIS_FLOOR_MIB: usize = 10;

/// Headroom kept above the last whole MiB of the axis, in bytes.
pub const AXIS_MARGIN: usize = 1024;

/// Distance between two labelled ticks of the vertical axis, in MiB.
pub const TICK_STRIDE_MIB: usize = 2;

/// Number of whole MiB needed to hold `bytes`.
pub open spec fn mib_ceil(bytes: nat) -> nat {
    if bytes % (MIB as nat) == 0 {
        bytes / (MIB as nat)
    } else {
        bytes / (MIB as nat) + 1
    }
}

/// Extent of the vertical axis in MiB for a given peak value in bytes.
pub open spec fn axis_mib_of(peak: nat) -> nat {
    if mib_ceil(peak) < AXIS_FLOOR_MIB {
        AXIS_FLOOR_MIB as nat
    } else {
        mib_ceil(peak)
    }
}

/// Upper bound of the vertical axis in bytes for a given peak value in bytes.
pub open spec fn axis_bound_of(peak: nat) -> nat {
    axis_mib_of(peak) * (MIB as nat) + (AXIS_MARGIN as nat)
}

/// The labelled ticks of an axis of `extent` MiB: every second MiB from zero,
/// as long as it does not pass the extent.
pub open spec fn axis_ticks_of(extent: nat) -> Seq<usize> {
    Seq::new(extent / (TICK_STRIDE_MIB as nat) + 1, |i: int| (i * TICK_STRIDE_MIB) as usize)
}

/// `mib_ceil(bytes)` MiB hold `bytes`, and no smaller number `m` of MiB does.
pub proof fn lemma_mib_ceil_is_least(bytes: nat, m: nat)
    ensures
        mib_ceil(bytes) * MIB >= bytes,
        m * MIB >= bytes ==> m >= mib_ceil(bytes),
{
    let q = bytes / (MIB as nat);
    let r = bytes % (MIB as nat);
    assert(bytes == q * MIB + r) by (nonlinear_arith)
        requires
            q == bytes / (MIB as nat),
            r == bytes % (MIB as nat),
    ;
    if m < mib_ceil(bytes) {
        if r == 0 {
            assert(m * MIB <= (q - 1) * MIB) by (nonlinear_arith)
                requires
                    m <= q - 1,
            ;
        } else {
            assert(m * MIB <= q * MIB) by (nonlinear_arith)
                requires
                    m <= q,
            ;
        }
    }
}

/// The axis never ends below its floor and always ends at least the margin
/// above the peak.
pub proof fn lemma_axis_bound_clears_peak(peak: nat)
    ensures
        axis_bound_of(peak) >= peak + AXIS_MARGIN,
        axis_bound_of(peak) >= AXIS_FLOOR_MIB * MIB + AXIS_MARGIN,
        axis_mib_of(peak) >= AXIS_FLOOR_MIB,
{
    lemma_mib_ceil_is_least(peak, 0);
    let m = axis_mib_of(peak);
    assert(m * MIB >= mib_ceil(peak) * MIB) by (nonlinear_arith)
        requires
            m >= mib_ceil(peak),
    ;
    assert(m * MIB >= AXIS_FLOOR_MIB * MIB) by (nonlinear_arith)
        requires
            m >= AXIS_FLOOR_MIB,
    ;
}

/// Extent of the vertical axis, in MiB, for the peak value `peak` in bytes.
pub fn axis_mib(peak: usize) -> (extent: usize)
    ensures
        extent == axis_mib_of(peak as nat),
{
    let whole: usize = peak / MIB;
    let needed: usize = if peak % MIB == 0 {
        whole
    } else {
        whole + 1
    };
    if needed < AXIS_FLOOR_MIB {
        AXIS_FLOOR_MIB
    } else {
        needed
    }
}

/// Upper bound of the vertical axis, in bytes, for the peak value `peak`.
///
/// The result is wider than `usize`: a peak within one MiB of `usize::MAX`
/// rounds up past it.
pub fn axis_bound(peak: usize) -> (bound: u128)
    ensures
        bound == axis_bound_of(peak as nat),
{
    let extent: usize = axis_mib(peak);
    assert(extent <= usize::MAX);
    assert((extent as u128) * (MIB as u128) + (AXIS_MARGIN as u128) <= u128::MAX) by (nonlinear_arith)
        requires
            extent <= 0xffff_ffff_ffff_ffff,
            MIB == 1048576,
            AXIS_MARGIN == 1024,
    ;
    (extent as u128) * (MIB as u128) + (AXIS_MARGIN as u128)
}

/// The labelled ticks, in MiB, of an axis that extends to `extent` MiB.
pub fn axis_ticks(extent: usize) -> (ticks: Vec<usize>)
    ensures
        ticks@ == axis_ticks_of(extent as nat),
{
    let count: usize = extent / TICK_STRIDE_MIB;
    let mut ticks: Vec<usize> = Vec::new();
    let mut i: usize = 0;
    while i <= count
        invariant
            count == extent / TICK_STRIDE_MIB,
            i <= count + 1,
            ticks@ == Seq::new(i as nat, |k: int| (k * TICK_STRIDE_MIB) as usize),
        decreases count + 1 - i,
    {
        ticks.push(i * TICK_STRIDE_MIB);
        i = i + 1;
    }
    ticks
}

/// What a frame needs besides its series: the bounds of both axes, the
/// labelled ticks of the vertical one, and the two numbers of the title.
pub struct ChartLayout {
    /// Upper bound of the horizontal axis: the capacity of the windows.
    pub x_bound: usize,
    /// The greatest value of any point of the frame, zero without points.
    pub peak: usize,
    /// Extent of the vertical axis in MiB.
    pub y_extent: usize,
    /// Upper bound of the vertical axis in bytes.
    pub y_bound: u128,
    /// The labelled ticks of the vertical axis, in MiB.
    pub ticks: Vec<usize>,
    /// Number of points of the series `active`.
    pub samples: usize,
    /// The greatest value of the series `active`, if it has a point.
    pub active_peak: Option<usize>,
}

impl ChartLayout {
    /// Whether this is the layout of a frame that shows `snapshots` over
    /// windows of `capacity` samples.
    pub open spec fn fits(&self, snapshots: &Snapshots, capacity: usize) -> bool {
        &&& self.x_bound == capacity
        &&& snapshots.is_peak(self.peak)
        &&& self.y_extent == axis_mib_of(self.peak as nat)
        &&& self.y_bound == axis_bound_of(self.peak as nat)
        &&& self.ticks@ == axis_ticks_of(self.y_extent as nat)
        &&& self.samples == snapshots.series(Metric::Active).len()
        &&& self.active_peak is None <==> snapshots.series(Metric::Active).len() == 0
        &&& self.active_peak matches Some(value) ==> is_series_peak(
            snapshots.series(Metric::Active),
            value,
        )
    }
}

/// The layout of a frame that shows `snapshots` over windows of `capacity`
/// samples.
pub fn layout(snapshots: &Snapshots, capacity: usize) -> (layout: ChartLayout)
    ensures
        layout.fits(snapshots, capacity),
{
    let peak: usize = snapshots.max();
    let y_extent: usize = axis_mib(peak);
    ChartLayout {
        x_bound: capacity,
        peak,
        y_extent,
        y_bound: axis_bound(peak),
        ticks: axis_ticks(y_extent),
        samples: snapshots.active.len(),
        active_peak: series_peak(&snapshots.active),
    }
}

} // verus!
