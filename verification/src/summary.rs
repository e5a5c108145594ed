use crate::labels::TimingBucket;
use crate::ring::{is_sorted, MAX_CAPACITY};
use vstd::prelude::*;

verus! {

/// One percentile drawn from the sorted observations `s`: the entry at index
/// floor(len * num / 1000) — `num` is the percentile scaled by ten, so that
/// 99.9 is exact — and the zero value when nothing was recorded. For every
/// num < 1000 the index stays below len, so nothing past the last entry is
/// ever asked for.
pub open spec fn pct_of(s: Seq<i64>, num: int) -> i64 {
    if s.len() == 0 {
        0i64
    } else {
        s[s.len() * num / 1000]
    }
}

/// The summary of one drained interval: the percentile ladder over the sorted
/// observations `s`, their count and maximum, and the interval's lap and drop
/// accounting.
pub open spec fn summary_spec(s: Seq<i64>, wraps: usize, dropped: usize) -> Sample {
    Sample {
        dropped,
        wraps,
        p25: pct_of(s, 250),
        p50: pct_of(s, 500),
        p75: pct_of(s, 750),
        p90: pct_of(s, 900),
        p95: pct_of(s, 950),
        p99: pct_of(s, 990),
        p99p9: pct_of(s, 999),
        max: if s.len() == 0 {
            0i64
        } else {
            s.last()
        },
        count: s.len() as usize,
    }
}

/// The summary of an interval in which nothing was recorded and nothing was
/// dropped: every field zero.
pub open spec fn zero_summary() -> Sample {
    summary_spec(Seq::empty(), 0, 0)
}

/// An immutable snapshot of one sampled interval.
#[derive(Debug, PartialEq, Eq, Structural)]
pub struct Sample {
    /// Number of observations dropped because the window was locked.
    pub dropped: usize,
    /// Number of times the observation window wrapped around.
    pub wraps: usize,
    /// 25th percentile observation.
    pub p25: i64,
    /// 50th percentile observation.
    pub p50: i64,
    /// 75th percentile observation.
    pub p75: i64,
    /// 90th percentile observation.
    pub p90: i64,
    /// 95th percentile observation.
    pub p95: i64,
    /// 99th percentile observation.
    pub p99: i64,
    /// 99.9th percentile observation.
    pub p99p9: i64,
    /// Maximum observation.
    pub max: i64,
    /// Number of observations.
    pub count: usize,
}

/// The percentile edge policy: for every rung of the ladder — a percentile
/// below 100, scaled by ten to `num` — and every nonempty length, the index
/// floor(len · num / 1000) stays below the length, so a percentile never asks
/// past the last sorted entry. A new rung at or above 100 would break this
/// bound and must not be added without revisiting it.
pub proof fn lemma_percentile_index_in_range(len: int, num: int)
    requires
        1 <= len,
        0 <= num < 1000,
    ensures
        0 <= len * num / 1000 < len,
{
    assert(len * num / 1000 < len) by (nonlinear_arith)
        requires
            1 <= len,
            0 <= num < 1000,
    ;
    assert(len * num / 1000 >= 0) by (nonlinear_arith)
        requires
            1 <= len,
            0 <= num,
    ;
}

/// The entry of `sorted` at index floor(len * num / 1000), or zero when the
/// vector is empty.
fn percentile(sorted: &Vec<i64>, num: u64) -> (r: i64)
    requires
        num < 1000,
        sorted@.len() <= MAX_CAPACITY,
    ensures
        r == pct_of(sorted@, num as int),
{
    let len = sorted.len();
    if len == 0 {
        0
    } else {
        proof {
            lemma_percentile_index_in_range(len as int, num as int);
        }
        let idx = ((len as u64) * num / 1000) as usize;
        sorted[idx]
    }
}

impl Sample {
    /// Build the summary of one drained interval from its observations in
    /// ascending order, together with the interval's lap and drop counts.
    pub fn from_sorted(sorted: &Vec<i64>, wraps: usize, dropped: usize) -> (r: Sample)
        requires
            is_sorted(sorted@),
            sorted@.len() <= MAX_CAPACITY,
        ensures
            r == summary_spec(sorted@, wraps, dropped),
    {
        let count = sorted.len();
        let max = if count == 0 {
            0
        } else {
            sorted[count - 1]
        };
        Sample {
            dropped,
            wraps,
            p25: percentile(sorted, 250),
            p50: percentile(sorted, 500),
            p75: percentile(sorted, 750),
            p90: percentile(sorted, 900),
            p95: percentile(sorted, 950),
            p99: percentile(sorted, 990),
            p99p9: percentile(sorted, 999),
            max,
            count,
        }
    }

    /// Each distribution field of the summary along with its bucket label,
    /// every value given as an `i64`.
    pub fn as_bucket_pairs(&self) -> (r: Vec<(TimingBucket, i64)>)
        requires
            self.count <= i64::MAX as usize,
        ensures
            r@ == seq![
                (TimingBucket::P25, self.p25),
                (TimingBucket::P50, self.p50),
                (TimingBucket::P75, self.p75),
                (TimingBucket::P90, self.p90),
                (TimingBucket::P95, self.p95),
                (TimingBucket::P99, self.p99),
                (TimingBucket::P99P9, self.p99p9),
                (TimingBucket::Max, self.max),
                (TimingBucket::Count, self.count as i64),
            ],
    {
        let pairs = vec![
            (TimingBucket::P25, self.p25),
            (TimingBucket::P50, self.p50),
            (TimingBucket::P75, self.p75),
            (TimingBucket::P90, self.p90),
            (TimingBucket::P95, self.p95),
            (TimingBucket::P99, self.p99),
            (TimingBucket::P99P9, self.p99p9),
            (TimingBucket::Max, self.max),
            (TimingBucket::Count, self.count as i64),
        ];
        proof {
            assert(pairs@ =~= seq![
                (TimingBucket::P25, self.p25),
                (TimingBucket::P50, self.p50),
                (TimingBucket::P75, self.p75),
                (TimingBucket::P90, self.p90),
                (TimingBucket::P95, self.p95),
                (TimingBucket::P99, self.p99),
                (TimingBucket::P99P9, self.p99p9),
                (TimingBucket::Max, self.max),
                (TimingBucket::Count, self.count as i64),
            ]);
        }
        pairs
    }

    /// The number of observations dropped because the window's lock was held
    /// when they arrived.
    pub fn dropped(&self) -> (r: usize)
        ensures
            r == self.dropped,
    {
        self.dropped
    }

    /// The number of times the cursor lapped the window during the sampled
    /// interval.
    pub fn wraps(&self) -> (r: usize)
        ensures
            r == self.wraps,
    {
        self.wraps
    }
}

} // verus!
