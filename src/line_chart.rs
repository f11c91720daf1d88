use crate::geometry::{lemma_scaled_bounded, ChartPoint, Region};
use crate::history::{last_n, readings_in_range, HistoryBuffer, CPU_FULL_SCALE};
use vstd::prelude::*;

verus! {

/// Horizontal position of sample `i` of `n`: evenly spaced over `[0, width]`,
/// with a step of `width / max(n - 1, 1)`, rounded down to a whole unit.
pub open spec fn x_at(i: int, n: int, width: int) -> int {
    if n <= 1 {
        0
    } else {
        i * width / (n - 1)
    }
}

/// Vertical position of a reading: 0% at the bottom edge, 100% at the top edge,
/// rounded down to a whole unit.
pub open spec fn y_at(v: int, height: int) -> int {
    height * (CPU_FULL_SCALE - v) / (CPU_FULL_SCALE as int)
}

/// The polyline vertices for `data` drawn into `region`, oldest sample on the left.
pub open spec fn line_points(data: Seq<u32>, region: Region) -> Seq<ChartPoint> {
    Seq::new(
        data.len(),
        |i: int|
            ChartPoint {
                x: x_at(i, data.len() as int, region.width as int) as u64,
                y: y_at(data[i] as int, region.height as int) as u64,
            },
    )
}

/// The CPU trend picture: a background filling the region, then straight segments
/// joining `points` in order. Fewer than two points give no segment.
pub struct LinePlot {
    pub width: u32,
    pub height: u32,
    pub points: Vec<ChartPoint>,
}

/// `p` is the picture of `data` in `region`.
pub open spec fn plots(p: LinePlot, data: Seq<u32>, region: Region) -> bool {
    &&& p.width == region.width
    &&& p.height == region.height
    &&& p.points@ == line_points(data, region)
}

/// Maps a window of readings onto the vertices of its trend line in `region`.
pub fn render_line(data: &HistoryBuffer, region: Region) -> (r: LinePlot)
    requires
        data.wf(),
    ensures
        plots(r, data@, region),
{
    let n = data.len();
    let mut points: Vec<ChartPoint> = Vec::new();
    let mut i: usize = 0;
    while i < n
        invariant
            n == data@.len(),
            i <= n,
            readings_in_range(data@),
            points@ == line_points(data@, region).subrange(0, i as int),
        decreases n - i,
    {
        let x: u64 = if n <= 1 {
            0
        } else {
            proof {
                lemma_scaled_bounded(i as int, n - 1, region.width as int);
                assert((i as int) * (region.width as int) <= 0xffff_ffff_ffff_ffffu64 as int * 0xffff_ffffu32 as int)
                    by (nonlinear_arith)
                    requires
                        i <= 0xffff_ffff_ffff_ffffu64,
                        region.width <= 0xffff_ffffu32,
                ;
            }
            ((i as u128) * (region.width as u128) / ((n - 1) as u128)) as u64
        };
        let v = data.get(i);
        proof {
            let h = region.height as int;
            let f = (CPU_FULL_SCALE - v) as int;
            assert(h * f <= 0xffff_ffffu32 as int * 10000) by (nonlinear_arith)
                requires
                    0 <= h <= 0xffff_ffffu32,
                    0 <= f <= 10000,
            ;
        }
        let y: u64 = (region.height as u64) * ((CPU_FULL_SCALE - v) as u64) / (CPU_FULL_SCALE as u64);
        points.push(ChartPoint { x, y });
        i = i + 1;
        assert(points@ =~= line_points(data@, region).subrange(0, i as int));
    }
    assert(points@ =~= line_points(data@, region));
    LinePlot { width: region.width, height: region.height, points }
}

/// A CPU trend chart: the window it draws and the picture last drawn from it.
pub struct CpuUsageChart {
    data: HistoryBuffer,
    cache: Option<LinePlot>,
}

impl View for CpuUsageChart {
    type V = Seq<u32>;

    closed spec fn view(&self) -> Seq<u32> {
        self.data@
    }
}

impl CpuUsageChart {
    /// The cached picture, if one is held.
    pub closed spec fn spec_cache(&self) -> Option<LinePlot> {
        self.cache
    }

    /// The region the cached picture was drawn for; `None` when the cache is dirty.
    pub open spec fn cached_region(&self) -> Option<Region> {
        match self.spec_cache() {
            Some(p) => Some(Region { width: p.width, height: p.height }),
            None => None,
        }
    }

    pub closed spec fn spec_capacity(&self) -> nat {
        self.data.spec_capacity()
    }

    pub open spec fn wf(&self) -> bool {
        &&& self.spec_capacity() > 0
        &&& self@.len() <= self.spec_capacity()
        &&& readings_in_range(self@)
        &&& match self.spec_cache() {
            Some(p) => plots(p, self@, Region { width: p.width, height: p.height }),
            None => true,
        }
    }

    /// A chart over `data` with nothing drawn yet.
    pub fn new(data: HistoryBuffer) -> (r: Self)
        requires
            data.wf(),
        ensures
            r.wf(),
            r@ == data@,
            r.spec_capacity() == data.spec_capacity(),
            r.spec_cache() is None,
    {
        CpuUsageChart { data, cache: None }
    }

    /// Adds a reading to the window and marks the picture dirty.
    pub fn push(&mut self, value: u32)
        requires
            old(self).wf(),
            value <= CPU_FULL_SCALE,
        ensures
            push_post(*old(self), value, *final(self)),
    {
        self.data.push(value);
        self.cache = None;
    }

    /// Makes the picture for `region` available, drawing it only when the cache does
    /// not already hold it. Returns whether it was drawn anew.
    pub fn draw(&mut self, region: Region) -> (recomputed: bool)
        requires
            old(self).wf(),
        ensures
            draw_post(*old(self), region, *final(self), recomputed),
    {
        let hit = match &self.cache {
            Some(p) => p.width == region.width && p.height == region.height,
            None => false,
        };
        if hit {
            false
        } else {
            let p = render_line(&self.data, region);
            self.cache = Some(p);
            true
        }
    }

    /// The picture last drawn, unless a change has made it dirty since.
    pub fn geometry(&self) -> (r: Option<&LinePlot>)
        ensures
            match r {
                Some(p) => self.spec_cache() == Some(*p),
                None => self.spec_cache() is None,
            },
    {
        match &self.cache {
            Some(p) => Some(p),
            None => None,
        }
    }

    /// The readings the chart draws, oldest first.
    pub fn data(&self) -> (r: &HistoryBuffer)
        ensures
            r@ == self@,
            r.spec_capacity() == self.spec_capacity(),
    {
        &self.data
    }
}

/// What `push` does: the window takes the reading and the cache is emptied.
pub open spec fn push_post(before: CpuUsageChart, value: u32, after: CpuUsageChart) -> bool {
    &&& after.wf()
    &&& after.spec_capacity() == before.spec_capacity()
    &&& after@ == last_n(before@.push(value), before.spec_capacity())
    &&& after.spec_cache() is None
}

/// What `draw` does: the data stay, the cache ends up holding the picture of the
/// data in `region`, and it is redrawn exactly when it did not hold it before.
pub open spec fn draw_post(
    before: CpuUsageChart,
    region: Region,
    after: CpuUsageChart,
    recomputed: bool,
) -> bool {
    &&& after.wf()
    &&& after@ == before@
    &&& after.spec_capacity() == before.spec_capacity()
    &&& after.cached_region() == Some(region)
    &&& plots(after.spec_cache().unwrap(), after@, region)
    &&& recomputed == (before.cached_region() != Some(region))
    &&& !recomputed ==> after.spec_cache() == before.spec_cache()
}

/// Drawing the same data into the same region twice, with no change in between,
/// reuses the cached picture the second time and hands back the same picture.
pub proof fn lemma_redraw_reuses_cache(
    c0: CpuUsageChart,
    region: Region,
    c1: CpuUsageChart,
    first: bool,
    c2: CpuUsageChart,
    second: bool,
)
    requires
        c0.wf(),
        draw_post(c0, region, c1, first),
        draw_post(c1, region, c2, second),
    ensures
        !second,
        c2.spec_cache() == c1.spec_cache(),
        c2@ == c1@,
{
}

/// After a reading is pushed, the next draw recomputes the picture, whatever the region.
pub proof fn lemma_push_forces_redraw(
    c0: CpuUsageChart,
    value: u32,
    c1: CpuUsageChart,
    region: Region,
    c2: CpuUsageChart,
    recomputed: bool,
)
    requires
        c0.wf(),
        push_post(c0, value, c1),
        draw_post(c1, region, c2, recomputed),
    ensures
        recomputed,
        plots(c2.spec_cache().unwrap(), last_n(c0@.push(value), c0.spec_capacity()), region),
{
}

/// An empty window draws the background alone: its picture covers the region and
/// has no vertex, hence no segment.
pub proof fn lemma_empty_window_draws_background_only(data: Seq<u32>, region: Region, p: LinePlot)
    requires
        data.len() == 0,
        plots(p, data, region),
    ensures
        p.points@.len() == 0,
        p.width == region.width,
        p.height == region.height,
{
}

} // verus!
