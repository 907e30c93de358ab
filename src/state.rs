use vstd::prelude::*;

verus! {

/// Adds two counters, staying at the largest value instead of wrapping.
pub open spec fn sat_add(a: u64, b: u64) -> u64 {
    if a + b > u64::MAX {
        u64::MAX
    } else {
        (a + b) as u64
    }
}

/// The values captured during one interval, handed to one persistence transaction.
/// Mouse travel is held in micro-inches.
#[derive(Clone, Copy, Debug, PartialEq, Eq, Structural)]
pub struct MetricsData {
    pub keypresses: u64,
    pub mouse_clicks: u64,
    pub scroll_steps: u64,
    pub mouse_distance_micro_in: u64,
}

impl MetricsData {
    pub open spec fn zero_spec() -> MetricsData {
        MetricsData { keypresses: 0, mouse_clicks: 0, scroll_steps: 0, mouse_distance_micro_in: 0 }
    }

    pub open spec fn is_empty_spec(&self) -> bool {
        self.keypresses == 0 && self.mouse_clicks == 0 && self.scroll_steps == 0
            && self.mouse_distance_micro_in == 0
    }

    pub fn zero() -> (r: MetricsData)
        ensures
            r == MetricsData::zero_spec(),
    {
        MetricsData { keypresses: 0, mouse_clicks: 0, scroll_steps: 0, mouse_distance_micro_in: 0 }
    }

    /// True when nothing happened during the interval.
    pub fn is_empty(&self) -> (r: bool)
        ensures
            r == self.is_empty_spec(),
    {
        self.keypresses == 0 && self.mouse_clicks == 0 && self.scroll_steps == 0
            && self.mouse_distance_micro_in == 0
    }
}

/// Counters of the interval that is currently open.
#[derive(Clone, Copy, Debug, PartialEq, Eq, Structural)]
pub struct IntervalMetrics {
    pub keypresses: u64,
    pub mouse_clicks: u64,
    pub scroll_steps: u64,
    pub mouse_distance_micro_in: u64,
}

impl IntervalMetrics {
    pub open spec fn zero_spec() -> IntervalMetrics {
        IntervalMetrics { keypresses: 0, mouse_clicks: 0, scroll_steps: 0, mouse_distance_micro_in: 0 }
    }

    /// The snapshot that a reset hands out.
    pub open spec fn snapshot(&self) -> MetricsData {
        MetricsData {
            keypresses: self.keypresses,
            mouse_clicks: self.mouse_clicks,
            scroll_steps: self.scroll_steps,
            mouse_distance_micro_in: self.mouse_distance_micro_in,
        }
    }

    pub fn new() -> (r: IntervalMetrics)
        ensures
            r == IntervalMetrics::zero_spec(),
    {
        IntervalMetrics { keypresses: 0, mouse_clicks: 0, scroll_steps: 0, mouse_distance_micro_in: 0 }
    }

    pub fn record_keypress(&mut self)
        ensures
            *final(self) == (IntervalMetrics { keypresses: sat_add(old(self).keypresses, 1), ..*old(self) }),
    {
        self.keypresses = self.keypresses.saturating_add(1);
    }

    pub fn record_click(&mut self)
        ensures
            *final(self) == (IntervalMetrics { mouse_clicks: sat_add(old(self).mouse_clicks, 1), ..*old(self) }),
    {
        self.mouse_clicks = self.mouse_clicks.saturating_add(1);
    }

    pub fn record_scroll(&mut self, steps: u64)
        ensures
            *final(self) == (IntervalMetrics { scroll_steps: sat_add(old(self).scroll_steps, steps), ..*old(self) }),
    {
        self.scroll_steps = self.scroll_steps.saturating_add(steps);
    }

    pub fn record_distance(&mut self, micro_in: u64)
        ensures
            *final(self) == (IntervalMetrics {
                mouse_distance_micro_in: sat_add(old(self).mouse_distance_micro_in, micro_in),
                ..*old(self)
            }),
    {
        self.mouse_distance_micro_in = self.mouse_distance_micro_in.saturating_add(micro_in);
    }

    /// A reset: the snapshot handed out, and the counters left behind.
    pub open spec fn reset_spec(&self) -> (MetricsData, IntervalMetrics) {
        (self.snapshot(), IntervalMetrics::zero_spec())
    }

    /// Resets the interval counters to zero, returning the values captured during the interval.
    pub fn reset(&mut self) -> (r: MetricsData)
        ensures
            (r, *final(self)) == old(self).reset_spec(),
    {
        let r = MetricsData {
            keypresses: self.keypresses,
            mouse_clicks: self.mouse_clicks,
            scroll_steps: self.scroll_steps,
            mouse_distance_micro_in: self.mouse_distance_micro_in,
        };
        self.keypresses = 0;
        self.mouse_clicks = 0;
        self.scroll_steps = 0;
        self.mouse_distance_micro_in = 0;
        r
    }
}

/// Lifetime totals: seeded at startup, then advanced by each interval's delta.
#[derive(Clone, Copy, Debug, PartialEq, Eq, Structural)]
pub struct TotalMetrics {
    pub keypresses: u64,
    pub mouse_clicks: u64,
    pub scroll_steps: u64,
    pub mouse_distance_micro_in: u64,
}

impl TotalMetrics {
    pub open spec fn zero_spec() -> TotalMetrics {
        TotalMetrics { keypresses: 0, mouse_clicks: 0, scroll_steps: 0, mouse_distance_micro_in: 0 }
    }

    /// Totals after merging one delta.
    pub open spec fn merged(&self, d: MetricsData) -> TotalMetrics {
        TotalMetrics {
            keypresses: sat_add(self.keypresses, d.keypresses),
            mouse_clicks: sat_add(self.mouse_clicks, d.mouse_clicks),
            scroll_steps: sat_add(self.scroll_steps, d.scroll_steps),
            mouse_distance_micro_in: sat_add(self.mouse_distance_micro_in, d.mouse_distance_micro_in),
        }
    }

    pub fn new() -> (r: TotalMetrics)
        ensures
            r == TotalMetrics::zero_spec(),
    {
        TotalMetrics { keypresses: 0, mouse_clicks: 0, scroll_steps: 0, mouse_distance_micro_in: 0 }
    }

    /// Adds the values from a completed interval to the running totals.
    pub fn add_interval(&mut self, d: &MetricsData)
        ensures
            *final(self) == old(self).merged(*d),
    {
        self.keypresses = self.keypresses.saturating_add(d.keypresses);
        self.mouse_clicks = self.mouse_clicks.saturating_add(d.mouse_clicks);
        self.scroll_steps = self.scroll_steps.saturating_add(d.scroll_steps);
        self.mouse_distance_micro_in =
            self.mouse_distance_micro_in.saturating_add(d.mouse_distance_micro_in);
    }
}

/// Everything the aggregator and the persistence scheduler share.
#[derive(Clone, Copy, Debug, PartialEq, Eq, Structural)]
pub struct MetricsState {
    pub interval: IntervalMetrics,
    pub total: TotalMetrics,
    pub latest_mouse_x: i32,
    pub latest_mouse_y: i32,
    pub last_calc_mouse_x: i32,
    pub last_calc_mouse_y: i32,
}

impl MetricsState {
    pub fn new() -> (r: MetricsState)
        ensures
            r.interval == IntervalMetrics::zero_spec(),
            r.total == TotalMetrics::zero_spec(),
            r.latest_mouse_x == 0 && r.latest_mouse_y == 0,
            r.last_calc_mouse_x == 0 && r.last_calc_mouse_y == 0,
    {
        MetricsState {
            interval: IntervalMetrics::new(),
            total: TotalMetrics::new(),
            latest_mouse_x: 0,
            latest_mouse_y: 0,
            last_calc_mouse_x: 0,
            last_calc_mouse_y: 0,
        }
    }
}

/// A reset leaves the interval at zero, so a second reset with no writes in between
/// hands out an all-zero snapshot.
pub proof fn lemma_double_reset(m: IntervalMetrics)
    ensures
        m.reset_spec().1.reset_spec().0 == MetricsData::zero_spec(),
        m.reset_spec().1.reset_spec().0.is_empty_spec(),
{
}

/// Totals after merging the deltas in order.
pub open spec fn fold_totals(t: TotalMetrics, ds: Seq<MetricsData>) -> TotalMetrics
    decreases ds.len(),
{
    if ds.len() == 0 {
        t
    } else {
        fold_totals(t, ds.drop_last()).merged(ds.last())
    }
}

pub open spec fn sum_keypresses(ds: Seq<MetricsData>) -> int
    decreases ds.len(),
{
    if ds.len() == 0 { 0 } else { sum_keypresses(ds.drop_last()) + ds.last().keypresses }
}

pub open spec fn sum_clicks(ds: Seq<MetricsData>) -> int
    decreases ds.len(),
{
    if ds.len() == 0 { 0 } else { sum_clicks(ds.drop_last()) + ds.last().mouse_clicks }
}

pub open spec fn sum_scrolls(ds: Seq<MetricsData>) -> int
    decreases ds.len(),
{
    if ds.len() == 0 { 0 } else { sum_scrolls(ds.drop_last()) + ds.last().scroll_steps }
}

pub open spec fn sum_distance(ds: Seq<MetricsData>) -> int
    decreases ds.len(),
{
    if ds.len() == 0 { 0 } else { sum_distance(ds.drop_last()) + ds.last().mouse_distance_micro_in }
}

/// Totals after a run of deltas are the startup totals plus the sum of the deltas, field
/// by field, as long as the sums fit in the counters.
pub proof fn lemma_totals_accumulate(t0: TotalMetrics, ds: Seq<MetricsData>)
    requires
        t0.keypresses + sum_keypresses(ds) <= u64::MAX,
        t0.mouse_clicks + sum_clicks(ds) <= u64::MAX,
        t0.scroll_steps + sum_scrolls(ds) <= u64::MAX,
        t0.mouse_distance_micro_in + sum_distance(ds) <= u64::MAX,
    ensures
        fold_totals(t0, ds).keypresses == t0.keypresses + sum_keypresses(ds),
        fold_totals(t0, ds).mouse_clicks == t0.mouse_clicks + sum_clicks(ds),
        fold_totals(t0, ds).scroll_steps == t0.scroll_steps + sum_scrolls(ds),
        fold_totals(t0, ds).mouse_distance_micro_in == t0.mouse_distance_micro_in + sum_distance(ds),
    decreases ds.len(),
{
    if ds.len() > 0 {
        let init = ds.drop_last();
        lemma_sums_nonneg(init);
        lemma_totals_accumulate(t0, init);
    }
}

proof fn lemma_sums_nonneg(ds: Seq<MetricsData>)
    ensures
        sum_keypresses(ds) >= 0,
        sum_clicks(ds) >= 0,
        sum_scrolls(ds) >= 0,
        sum_distance(ds) >= 0,
    decreases ds.len(),
{
    if ds.len() > 0 {
        lemma_sums_nonneg(ds.drop_last());
    }
}

} // verus!
