use crate::geometry::{lemma_scaled_bounded, ChartPoint, Region};
use vstd::prelude::*;

verus! {

/// A full turn, in hundredths of a degree.
pub const FULL_TURN: u32 = 36000;

/// The used part of the ring: an arc that starts at 12 o'clock and runs clockwise,
/// with rounded ends. Angles are in hundredths of a degree, 0 pointing up.
#[derive(Clone, Copy, Debug, PartialEq, Eq, Structural)]
pub struct GaugeArc {
    pub start: u32,
    pub sweep: u32,
}

/// The memory gauge picture: a background ring (track) of `stroke_width` around
/// `center`, and the used arc on top of it when anything is used.
#[derive(Clone, Copy, Debug, PartialEq, Eq, Structural)]
pub struct GaugePlot {
    pub width: u32,
    pub height: u32,
    pub center: ChartPoint,
    pub radius: u64,
    pub stroke_width: u64,
    pub arc: Option<GaugeArc>,
}

pub open spec fn min_of(a: int, b: int) -> int {
    if a <= b {
        a
    } else {
        b
    }
}

/// Ring radius: nine tenths of half the shorter side.
pub open spec fn gauge_radius(region: Region) -> int {
    9 * min_of(region.width as int, region.height as int) / 20
}

/// Sweep of the used arc: `used / total` of a full turn, saturating at a full turn.
pub open spec fn gauge_sweep(used: int, total: int) -> int {
    min_of(used, total) * (FULL_TURN as int) / total
}

/// The used arc, absent when nothing is used or the total is zero.
pub open spec fn gauge_arc(used: u64, total: u64) -> Option<GaugeArc> {
    if used == 0 || total == 0 {
        None
    } else {
        Some(GaugeArc { start: 0, sweep: gauge_sweep(used as int, total as int) as u32 })
    }
}

/// The gauge picture for `used` of `total` bytes in `region`.
pub open spec fn gauge_plot(used: u64, total: u64, region: Region) -> GaugePlot {
    GaugePlot {
        width: region.width,
        height: region.height,
        center: ChartPoint { x: (region.width / 2) as u64, y: (region.height / 2) as u64 },
        radius: gauge_radius(region) as u64,
        stroke_width: (gauge_radius(region) / 5) as u64,
        arc: gauge_arc(used, total),
    }
}

/// Draws `used` of `total` bytes as a ring gauge in `region`.
pub fn render_gauge(used: u64, total: u64, region: Region) -> (r: GaugePlot)
    ensures
        r == gauge_plot(used, total, region),
{
    let side: u64 = if region.width <= region.height {
        region.width as u64
    } else {
        region.height as u64
    };
    let radius: u64 = 9 * side / 20;
    let arc = if used == 0 || total == 0 {
        None
    } else {
        let part: u64 = if used <= total {
            used
        } else {
            total
        };
        proof {
            lemma_scaled_bounded(part as int, total as int, FULL_TURN as int);
            assert((part as int) * (FULL_TURN as int) <= 0xffff_ffff_ffff_ffffu64 as int * 36000)
                by (nonlinear_arith)
                requires
                    0 <= part <= 0xffff_ffff_ffff_ffffu64,
            ;
        }
        let sweep = ((part as u128) * (FULL_TURN as u128) / (total as u128)) as u32;
        Some(GaugeArc { start: 0, sweep })
    };
    GaugePlot {
        width: region.width,
        height: region.height,
        center: ChartPoint { x: (region.width / 2) as u64, y: (region.height / 2) as u64 },
        radius,
        stroke_width: radius / 5,
        arc,
    }
}

/// A memory gauge: the latest usage figures and the picture last drawn from them.
pub struct MemoryUsageChart {
    used_memory: u64,
    total_memory: u64,
    cache: Option<GaugePlot>,
}

impl MemoryUsageChart {
    pub closed spec fn spec_used(&self) -> u64 {
        self.used_memory
    }

    pub closed spec fn spec_total(&self) -> u64 {
        self.total_memory
    }

    pub closed spec fn spec_cache(&self) -> Option<GaugePlot> {
        self.cache
    }

    /// The region the cached picture was drawn for; `None` when the cache is dirty.
    pub open spec fn cached_region(&self) -> Option<Region> {
        match self.spec_cache() {
            Some(p) => Some(Region { width: p.width, height: p.height }),
            None => None,
        }
    }

    pub open spec fn wf(&self) -> bool {
        match self.spec_cache() {
            Some(p) => p == gauge_plot(
                self.spec_used(),
                self.spec_total(),
                Region { width: p.width, height: p.height },
            ),
            None => true,
        }
    }

    /// A gauge for `used` of `total` bytes with nothing drawn yet.
    pub fn new(used: u64, total: u64) -> (r: Self)
        ensures
            r.wf(),
            r.spec_used() == used,
            r.spec_total() == total,
            r.spec_cache() is None,
    {
        MemoryUsageChart { used_memory: used, total_memory: total, cache: None }
    }

    /// Replaces the usage figures and marks the picture dirty.
    pub fn set_usage(&mut self, used: u64, total: u64)
        ensures
            update_post(*old(self), used, total, *final(self)),
    {
        self.used_memory = used;
        self.total_memory = total;
        self.cache = None;
    }

    /// Makes the picture for `region` available, drawing it only when the cache does
    /// not already hold it. Returns whether it was drawn anew.
    pub fn draw(&mut self, region: Region) -> (recomputed: bool)
        requires
            old(self).wf(),
        ensures
            gauge_draw_post(*old(self), region, *final(self), recomputed),
    {
        let hit = match &self.cache {
            Some(p) => p.width == region.width && p.height == region.height,
            None => false,
        };
        if hit {
            false
        } else {
            let p = render_gauge(self.used_memory, self.total_memory, region);
            self.cache = Some(p);
            true
        }
    }

    /// The picture last drawn, unless a change has made it dirty since.
    pub fn geometry(&self) -> (r: Option<GaugePlot>)
        ensures
            r == self.spec_cache(),
    {
        self.cache
    }

    pub fn used_memory(&self) -> (r: u64)
        ensures
            r == self.spec_used(),
    {
        self.used_memory
    }

    pub fn total_memory(&self) -> (r: u64)
        ensures
            r == self.spec_total(),
    {
        self.total_memory
    }
}

/// What `set_usage` does: the figures are replaced and the cache is emptied.
pub open spec fn update_post(before: MemoryUsageChart, used: u64, total: u64, after: MemoryUsageChart) -> bool {
    &&& after.wf()
    &&& after.spec_used() == used
    &&& after.spec_total() == total
    &&& after.spec_cache() is None
}

/// What `draw` does: the figures stay, the cache ends up holding their picture in
/// `region`, and it is redrawn exactly when it did not hold it before.
pub open spec fn gauge_draw_post(
    before: MemoryUsageChart,
    region: Region,
    after: MemoryUsageChart,
    recomputed: bool,
) -> bool {
    &&& after.wf()
    &&& after.spec_used() == before.spec_used()
    &&& after.spec_total() == before.spec_total()
    &&& after.spec_cache() == Some(gauge_plot(before.spec_used(), before.spec_total(), region))
    &&& recomputed == (before.cached_region() != Some(region))
}

/// Drawing the same figures into the same region twice, with no change in between,
/// reuses the cached picture the second time and hands back the same picture.
pub proof fn lemma_gauge_redraw_reuses_cache(
    c0: MemoryUsageChart,
    region: Region,
    c1: MemoryUsageChart,
    first: bool,
    c2: MemoryUsageChart,
    second: bool,
)
    requires
        c0.wf(),
        gauge_draw_post(c0, region, c1, first),
        gauge_draw_post(c1, region, c2, second),
    ensures
        !second,
        c2.spec_cache() == c1.spec_cache(),
{
}

/// After the figures are updated, the next draw recomputes the picture, even when
/// the new figures equal the old ones.
pub proof fn lemma_update_forces_redraw(
    c0: MemoryUsageChart,
    used: u64,
    total: u64,
    c1: MemoryUsageChart,
    region: Region,
    c2: MemoryUsageChart,
    recomputed: bool,
)
    requires
        update_post(c0, used, total, c1),
        gauge_draw_post(c1, region, c2, recomputed),
    ensures
        recomputed,
        c2.spec_cache() == Some(gauge_plot(used, total, region)),
{
}

/// With a total of zero there is no used arc, whatever is reported as used.
pub proof fn lemma_zero_total_draws_no_arc(used: u64, region: Region)
    ensures
        gauge_plot(used, 0, region).arc is None,
{
}

} // verus!
