use crate::gauge::{gauge_draw_post, GaugePlot, MemoryUsageChart};
use crate::geometry::Region;
use crate::history::{last_n, HistoryBuffer, CPU_FULL_SCALE, HISTORY_CAPACITY};
use crate::line_chart::{draw_post, CpuUsageChart, LinePlot};
use crate::sampler::Sample;
use vstd::prelude::*;

verus! {

/// Total memory the gauge assumes before the first sample arrives.
pub const INITIAL_TOTAL_MEMORY: u64 = 100;

/// The presentation side: the CPU window, the latest memory figures, and the
/// sequence number of the last sample taken in.
pub struct Monitor {
    cpu_chart: CpuUsageChart,
    memory_chart: MemoryUsageChart,
    last_seq: Option<u64>,
}

/// Whether a sample numbered `seq` is newer than everything taken in so far.
pub open spec fn is_newer(last: Option<u64>, seq: u64) -> bool {
    match last {
        Some(l) => seq > l,
        None => true,
    }
}

impl Monitor {
    pub closed spec fn spec_cpu_chart(&self) -> CpuUsageChart {
        self.cpu_chart
    }

    pub closed spec fn spec_memory_chart(&self) -> MemoryUsageChart {
        self.memory_chart
    }

    pub closed spec fn spec_last_seq(&self) -> Option<u64> {
        self.last_seq
    }

    pub open spec fn wf(&self) -> bool {
        &&& self.spec_cpu_chart().wf()
        &&& self.spec_memory_chart().wf()
    }

    /// A monitor whose CPU window is full of zeros and whose gauge shows nothing used.
    pub fn new() -> (r: Self)
        ensures
            r.wf(),
            r.spec_cpu_chart()@ == Seq::new(HISTORY_CAPACITY as nat, |i: int| 0u32),
            r.spec_cpu_chart().spec_capacity() == HISTORY_CAPACITY,
            r.spec_cpu_chart().spec_cache() is None,
            r.spec_memory_chart().spec_used() == 0,
            r.spec_memory_chart().spec_total() == INITIAL_TOTAL_MEMORY,
            r.spec_memory_chart().spec_cache() is None,
            r.spec_last_seq() is None,
    {
        Monitor {
            cpu_chart: CpuUsageChart::new(HistoryBuffer::new()),
            memory_chart: MemoryUsageChart::new(0, INITIAL_TOTAL_MEMORY),
            last_seq: None,
        }
    }

    /// Takes in a delivered sample. One that is not newer than the last taken in is
    /// ignored; a newer one goes into the CPU window, replaces the memory figures,
    /// and makes both pictures dirty. Returns whether it was taken in.
    pub fn on_sample(&mut self, sample: &Sample) -> (accepted: bool)
        requires
            old(self).wf(),
            sample.cpu <= CPU_FULL_SCALE,
        ensures
            on_sample_post(*old(self), *sample, *final(self), accepted),
    {
        let newer = match self.last_seq {
            Some(l) => sample.seq > l,
            None => true,
        };
        if newer {
            self.cpu_chart.push(sample.cpu);
            self.memory_chart.set_usage(sample.memory.used, sample.memory.total);
            self.last_seq = Some(sample.seq);
        }
        newer
    }

    /// Draws the CPU trend for `region` unless the cache holds it; returns whether it was drawn.
    pub fn draw_cpu(&mut self, region: Region) -> (recomputed: bool)
        requires
            old(self).wf(),
        ensures
            final(self).wf(),
            draw_post(old(self).spec_cpu_chart(), region, final(self).spec_cpu_chart(), recomputed),
            final(self).spec_memory_chart() == old(self).spec_memory_chart(),
            final(self).spec_last_seq() == old(self).spec_last_seq(),
    {
        self.cpu_chart.draw(region)
    }

    /// Draws the memory gauge for `region` unless the cache holds it; returns whether it was drawn.
    pub fn draw_memory(&mut self, region: Region) -> (recomputed: bool)
        requires
            old(self).wf(),
        ensures
            final(self).wf(),
            gauge_draw_post(old(self).spec_memory_chart(), region, final(self).spec_memory_chart(), recomputed),
            final(self).spec_cpu_chart() == old(self).spec_cpu_chart(),
            final(self).spec_last_seq() == old(self).spec_last_seq(),
    {
        self.memory_chart.draw(region)
    }

    /// The CPU trend chart.
    pub fn cpu_chart(&self) -> (r: &CpuUsageChart)
        ensures
            *r == self.spec_cpu_chart(),
    {
        &self.cpu_chart
    }

    /// The memory gauge.
    pub fn memory_chart(&self) -> (r: &MemoryUsageChart)
        ensures
            *r == self.spec_memory_chart(),
    {
        &self.memory_chart
    }

    /// The CPU trend picture last drawn, unless it has gone dirty since.
    pub fn cpu_geometry(&self) -> (r: Option<&LinePlot>)
        ensures
            match r {
                Some(p) => self.spec_cpu_chart().spec_cache() == Some(*p),
                None => self.spec_cpu_chart().spec_cache() is None,
            },
    {
        self.cpu_chart.geometry()
    }

    /// The memory gauge picture last drawn, unless it has gone dirty since.
    pub fn memory_geometry(&self) -> (r: Option<GaugePlot>)
        ensures
            r == self.spec_memory_chart().spec_cache(),
    {
        self.memory_chart.geometry()
    }

    /// Sequence number of the last sample taken in.
    pub fn last_seq(&self) -> (r: Option<u64>)
        ensures
            r == self.spec_last_seq(),
    {
        self.last_seq
    }
}

/// What `on_sample` does: a sample newer than the last one taken in goes into the
/// CPU window, replaces the memory figures and empties both caches; any other
/// sample leaves the monitor as it was.
pub open spec fn on_sample_post(before: Monitor, sample: Sample, after: Monitor, accepted: bool) -> bool {
    &&& after.wf()
    &&& accepted == is_newer(before.spec_last_seq(), sample.seq)
    &&& accepted ==> {
        &&& after.spec_cpu_chart()@ == last_n(
            before.spec_cpu_chart()@.push(sample.cpu),
            before.spec_cpu_chart().spec_capacity(),
        )
        &&& after.spec_cpu_chart().spec_capacity() == before.spec_cpu_chart().spec_capacity()
        &&& after.spec_cpu_chart().spec_cache() is None
        &&& after.spec_memory_chart().spec_used() == sample.memory.used
        &&& after.spec_memory_chart().spec_total() == sample.memory.total
        &&& after.spec_memory_chart().spec_cache() is None
        &&& after.spec_last_seq() == Some(sample.seq)
    }
    &&& !accepted ==> after == before
}

/// Once the monitor takes in a sample, the next draw of either chart recomputes its
/// picture, whatever the region and even if the figures did not change.
pub proof fn lemma_sample_forces_redraw(
    m0: Monitor,
    sample: Sample,
    m1: Monitor,
    region: Region,
    m2: Monitor,
    cpu_redrawn: bool,
    m3: Monitor,
    memory_redrawn: bool,
)
    requires
        on_sample_post(m0, sample, m1, true),
        draw_post(m1.spec_cpu_chart(), region, m2.spec_cpu_chart(), cpu_redrawn),
        m2.spec_memory_chart() == m1.spec_memory_chart(),
        gauge_draw_post(m2.spec_memory_chart(), region, m3.spec_memory_chart(), memory_redrawn),
    ensures
        cpu_redrawn,
        memory_redrawn,
{
}

/// Samples are taken in strictly in the order they were made: each one taken in is
/// newer than every one before it.
pub proof fn lemma_samples_taken_in_order(m0: Monitor, sample: Sample, m1: Monitor, accepted: bool)
    requires
        on_sample_post(m0, sample, m1, accepted),
        accepted,
        m0.spec_last_seq() is Some,
    ensures
        sample.seq > m0.spec_last_seq().unwrap(),
        m1.spec_last_seq() == Some(sample.seq),
{
}

/// The latest completed sample, shared between the two sides in the pull model
/// (the caller guards it with a lock). Holds no backlog: each sample replaces the last.
pub struct MetricsStore {
    latest: Option<Sample>,
}

impl MetricsStore {
    pub closed spec fn spec_latest(&self) -> Option<Sample> {
        self.latest
    }

    /// A store that has seen no sample yet.
    pub fn new() -> (r: Self)
        ensures
            r.spec_latest() is None,
    {
        MetricsStore { latest: None }
    }

    /// Replaces what the store holds with `sample`.
    pub fn publish(&mut self, sample: Sample)
        ensures
            final(self).spec_latest() == Some(sample),
    {
        self.latest = Some(sample);
    }

    /// The latest sample, if any was published.
    pub fn latest(&self) -> (r: Option<&Sample>)
        ensures
            match r {
                Some(s) => self.spec_latest() == Some(*s),
                None => self.spec_latest() is None,
            },
    {
        match &self.latest {
            Some(s) => Some(s),
            None => None,
        }
    }
}

} // verus!
