use crate::history::CPU_FULL_SCALE;
use vstd::prelude::*;

verus! {

/// Pause between two samples once warmed up, in milliseconds.
pub const TICK_MS: u64 = 1000;

/// Memory figures of one sample, in bytes.
#[derive(Clone, Copy, Debug, PartialEq, Eq, Structural)]
pub struct MemoryStats {
    pub total: u64,
    pub used: u64,
    pub free: u64,
    pub available: u64,
}

/// What one read of the metrics source gave; `None` marks a field that could not be read.
/// CPU usage is in hundredths of a percent.
pub struct Reading {
    pub cpu: Option<u32>,
    pub total: Option<u64>,
    pub used: Option<u64>,
    pub free: Option<u64>,
    pub available: Option<u64>,
    pub os_name: Option<String>,
    pub os_version: Option<String>,
    pub cpu_brand: Option<String>,
}

/// One delivered sample. `seq` is the position of the reading it was made from
/// among all readings the sampler took, counting from 0.
pub struct Sample {
    pub seq: u64,
    pub cpu: u32,
    pub memory: MemoryStats,
    pub platform: String,
    pub cpu_model: String,
}

/// What the sampler does after one reading: the sample to deliver, if any, and how
/// long to sleep before the next reading.
pub struct SamplerStep {
    pub sample: Option<Sample>,
    pub sleep_ms: u64,
}

/// Placeholder for a text field that could not be read.
pub open spec fn unknown_text() -> Seq<char> {
    seq!['U', 'n', 'k', 'n', 'o', 'w', 'n']
}

pub open spec fn text_or_unknown(s: Option<String>) -> Seq<char> {
    match s {
        Some(t) => t@,
        None => unknown_text(),
    }
}

pub open spec fn number_or_zero(v: Option<u64>) -> u64 {
    match v {
        Some(n) => n,
        None => 0,
    }
}

/// The platform label: operating system name and version, separated by a space.
pub open spec fn platform_label(r: Reading) -> Seq<char> {
    text_or_unknown(r.os_name) + seq![' '] + text_or_unknown(r.os_version)
}

/// The reading's CPU figure lies within 0% to 100% where it was read at all.
pub open spec fn reading_in_range(r: Reading) -> bool {
    match r.cpu {
        Some(c) => c <= CPU_FULL_SCALE,
        None => true,
    }
}

/// `s` is the sample made from reading `r`, number `seq`, with every missing
/// field replaced by zero or "Unknown".
pub open spec fn is_sample_of(s: Sample, r: Reading, seq: u64) -> bool {
    &&& s.seq == seq
    &&& s.cpu == match r.cpu {
        Some(c) => c,
        None => 0,
    }
    &&& s.memory == MemoryStats {
        total: number_or_zero(r.total),
        used: number_or_zero(r.used),
        free: number_or_zero(r.free),
        available: number_or_zero(r.available),
    }
    &&& s.platform@ == platform_label(r)
    &&& s.cpu_model@ == text_or_unknown(r.cpu_brand)
}

/// Relies on std's `format!`: two strings shown with `{}` and one space between them.
#[verifier::external_body]
fn join_with_space(a: &str, b: &str) -> (r: String)
    ensures
        r@ == a@ + seq![' '] + b@,
{
    format!("{} {}", a, b)
}

fn text_or_default(s: &Option<String>) -> (r: String)
    ensures
        r@ == text_or_unknown(*s),
{
    match s {
        Some(t) => t.clone(),
        None => {
            let u = "Unknown".to_owned();
            proof {
                reveal_strlit("Unknown");
                assert(u@ =~= unknown_text());
            }
            u
        },
    }
}

fn number_or_default(v: Option<u64>) -> (r: u64)
    ensures
        r == number_or_zero(v),
{
    match v {
        Some(n) => n,
        None => 0,
    }
}

/// Assembles the sample for reading `seq`, substituting zero or "Unknown" for any
/// field that could not be read.
pub fn make_sample(r: &Reading, seq: u64) -> (s: Sample)
    requires
        reading_in_range(*r),
    ensures
        is_sample_of(s, *r, seq),
        s.cpu <= CPU_FULL_SCALE,
{
    let cpu: u32 = match r.cpu {
        Some(c) => c,
        None => 0,
    };
    let name = text_or_default(&r.os_name);
    let version = text_or_default(&r.os_version);
    let platform = join_with_space(name.as_str(), version.as_str());
    Sample {
        seq,
        cpu,
        memory: MemoryStats {
            total: number_or_default(r.total),
            used: number_or_default(r.used),
            free: number_or_default(r.free),
            available: number_or_default(r.available),
        },
        platform,
        cpu_model: text_or_default(&r.cpu_brand),
    }
}

/// The sampling side's decisions: the first reading only sets a baseline and is
/// thrown away; each later one becomes a sample.
pub struct Sampler {
    taken: u64,
    warmup_ms: u64,
}

impl Sampler {
    /// Number of readings taken so far (saturating).
    pub closed spec fn spec_taken(&self) -> u64 {
        self.taken
    }

    pub closed spec fn spec_warmup_ms(&self) -> u64 {
        self.warmup_ms
    }

    /// A sampler that has taken no reading; `warmup_ms` is the shortest interval
    /// between two reads that gives a meaningful CPU figure.
    pub fn new(warmup_ms: u64) -> (r: Self)
        ensures
            r.spec_taken() == 0,
            r.spec_warmup_ms() == warmup_ms,
    {
        Sampler { taken: 0, warmup_ms }
    }

    /// Whether the baseline reading has been taken.
    pub fn is_warmed_up(&self) -> (r: bool)
        ensures
            r == (self.spec_taken() > 0),
    {
        self.taken > 0
    }

    /// Handles one reading of the metrics source.
    pub fn step(&mut self, reading: &Reading) -> (r: SamplerStep)
        requires
            reading_in_range(*reading),
        ensures
            step_post(*old(self), *reading, *final(self), r),
    {
        let seq = self.taken;
        self.taken = if self.taken < u64::MAX {
            self.taken + 1
        } else {
            u64::MAX
        };
        if seq == 0 {
            SamplerStep { sample: None, sleep_ms: self.warmup_ms }
        } else {
            SamplerStep { sample: Some(make_sample(reading, seq)), sleep_ms: TICK_MS }
        }
    }
}

/// What `step` does: the first reading is discarded and followed by the warm-up
/// pause; every later reading is delivered as a sample, followed by one tick.
pub open spec fn step_post(before: Sampler, reading: Reading, after: Sampler, r: SamplerStep) -> bool {
    &&& after.spec_warmup_ms() == before.spec_warmup_ms()
    &&& after.spec_taken() == if before.spec_taken() < u64::MAX {
        (before.spec_taken() + 1) as u64
    } else {
        u64::MAX
    }
    &&& if before.spec_taken() == 0 {
        &&& r.sample is None
        &&& r.sleep_ms == before.spec_warmup_ms()
    } else {
        &&& r.sample is Some
        &&& is_sample_of(r.sample.unwrap(), reading, before.spec_taken())
        &&& r.sample.unwrap().cpu <= CPU_FULL_SCALE
        &&& r.sleep_ms == TICK_MS
    }
}

/// The first reading a fresh sampler takes is never delivered, and every sample it
/// delivers comes from a later reading, after at least one discarded one.
pub proof fn lemma_warm_up_discards_first(
    s0: Sampler,
    reading: Reading,
    s1: Sampler,
    r: SamplerStep,
)
    requires
        step_post(s0, reading, s1, r),
    ensures
        s0.spec_taken() == 0 ==> r.sample is None,
        r.sample is Some ==> r.sample.unwrap().seq >= 1 && s0.spec_taken() >= 1,
{
}

} // verus!
