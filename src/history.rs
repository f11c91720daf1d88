use std::collections::VecDeque;
use vstd::prelude::*;

verus! {

/// Number of samples kept in the CPU trend window: one minute at one sample per second.
pub const HISTORY_CAPACITY: usize = 60;

/// A CPU reading of 100%, in hundredths of a percent.
pub const CPU_FULL_SCALE: u32 = 10000;

/// The last `min(n, s.len())` elements of `s`, in their order.
pub open spec fn last_n(s: Seq<u32>, n: nat) -> Seq<u32> {
    if s.len() <= n {
        s
    } else {
        s.subrange(s.len() - n, s.len() as int)
    }
}

/// The window contents after pushing each of `vals` in turn onto a window that holds `start`.
pub open spec fn pushed_all(start: Seq<u32>, vals: Seq<u32>, n: nat) -> Seq<u32>
    decreases vals.len(),
{
    if vals.len() == 0 {
        start
    } else {
        last_n(pushed_all(start, vals.drop_last(), n).push(vals.last()), n)
    }
}

/// Every reading lies between 0% and 100%.
pub open spec fn readings_in_range(s: Seq<u32>) -> bool {
    forall|i: int| 0 <= i < s.len() ==> s[i] <= CPU_FULL_SCALE
}

/// A fixed-capacity sliding window of CPU readings (hundredths of a percent), oldest first.
pub struct HistoryBuffer {
    values: VecDeque<u32>,
    capacity: usize,
}

impl View for HistoryBuffer {
    type V = Seq<u32>;

    closed spec fn view(&self) -> Seq<u32> {
        self.values@
    }
}

impl HistoryBuffer {
    pub closed spec fn spec_capacity(&self) -> nat {
        self.capacity as nat
    }

    pub open spec fn wf(&self) -> bool {
        &&& 0 < self.spec_capacity()
        &&& self@.len() <= self.spec_capacity()
        &&& readings_in_range(self@)
    }

    /// An empty window that keeps at most `capacity` readings.
    pub fn empty(capacity: usize) -> (r: Self)
        requires
            capacity > 0,
        ensures
            r.wf(),
            r@ == Seq::<u32>::empty(),
            r.spec_capacity() == capacity,
    {
        HistoryBuffer { values: VecDeque::new(), capacity }
    }

    /// A full window of `HISTORY_CAPACITY` zero readings, so that a chart has a
    /// full-width baseline from its first paint.
    pub fn new() -> (r: Self)
        ensures
            r.wf(),
            r@ == Seq::new(HISTORY_CAPACITY as nat, |i: int| 0u32),
            r.spec_capacity() == HISTORY_CAPACITY,
    {
        let mut values: VecDeque<u32> = VecDeque::new();
        let mut i: usize = 0;
        while i < HISTORY_CAPACITY
            invariant
                i <= HISTORY_CAPACITY,
                values@ == Seq::new(i as nat, |j: int| 0u32),
            decreases HISTORY_CAPACITY - i,
        {
            values.push_back(0);
            i = i + 1;
            assert(values@ =~= Seq::new(i as nat, |j: int| 0u32));
        }
        HistoryBuffer { values, capacity: HISTORY_CAPACITY }
    }

    /// Appends `value`; at capacity the oldest reading leaves first.
    pub fn push(&mut self, value: u32)
        requires
            old(self).wf(),
            value <= CPU_FULL_SCALE,
        ensures
            final(self).wf(),
            final(self).spec_capacity() == old(self).spec_capacity(),
            final(self)@ == last_n(old(self)@.push(value), old(self).spec_capacity()),
    {
        if self.values.len() >= self.capacity {
            self.values.pop_front();
        }
        self.values.push_back(value);
        proof {
            let s = old(self)@.push(value);
            if s.len() > self.capacity {
                assert(self@ =~= s.subrange(s.len() - self.capacity, s.len() as int));
            } else {
                assert(self@ =~= s);
            }
        }
    }

    /// Number of readings held.
    pub fn len(&self) -> (r: usize)
        ensures
            r == self@.len(),
    {
        self.values.len()
    }

    /// Most readings the window keeps.
    pub fn capacity(&self) -> (r: usize)
        ensures
            r == self.spec_capacity(),
    {
        self.capacity
    }

    /// The reading at position `i`, counted from the oldest.
    pub fn get(&self, i: usize) -> (r: u32)
        requires
            i < self@.len(),
        ensures
            r == self@[i as int],
    {
        self.values[i]
    }

    /// A copy of the readings, oldest first.
    pub fn to_vec(&self) -> (r: Vec<u32>)
        ensures
            r@ == self@,
    {
        let mut out: Vec<u32> = Vec::new();
        let mut i: usize = 0;
        while i < self.values.len()
            invariant
                i <= self@.len(),
                out@ == self@.subrange(0, i as int),
            decreases self@.len() - i,
        {
            out.push(self.values[i]);
            i = i + 1;
            assert(out@ =~= self@.subrange(0, i as int));
        }
        assert(out@ =~= self@);
        out
    }
}

proof fn lemma_last_n_push(s: Seq<u32>, v: u32, n: nat)
    requires
        n > 0,
    ensures
        last_n(last_n(s, n).push(v), n) == last_n(s.push(v), n),
{
    if s.len() > n {
        assert(last_n(last_n(s, n).push(v), n) =~= last_n(s.push(v), n));
    }
}

proof fn lemma_last_n_len(s: Seq<u32>, n: nat)
    ensures
        last_n(s, n).len() == if s.len() <= n { s.len() } else { n },
{
}

/// Pushing `k` readings, one by one, onto an empty window of capacity `n` leaves
/// exactly the last `min(k, n)` of them, in the order in which they arrived.
pub proof fn lemma_window_keeps_latest(vals: Seq<u32>, n: nat)
    requires
        n > 0,
    ensures
        pushed_all(Seq::empty(), vals, n) == last_n(vals, n),
        pushed_all(Seq::empty(), vals, n).len() == if vals.len() <= n { vals.len() } else { n },
    decreases vals.len(),
{
    if vals.len() > 0 {
        let init = vals.drop_last();
        lemma_window_keeps_latest(init, n);
        lemma_last_n_push(init, vals.last(), n);
        assert(init.push(vals.last()) =~= vals);
    }
    lemma_last_n_len(vals, n);
}

} // verus!
