use vstd::prelude::*;

verus! {

/// A sequence of label values handed to a labeled-metric sink.
pub type LabelValues<'a> = Vec<&'a str>;

/// Implemented by types that describe the labels of one metric: the fixed
/// label names, the values to seed the metric with before any event has been
/// recorded (so every bucket is discoverable at zero), and the values to emit
/// for one event, in the order of the names.
pub trait Labels {
    /// The names of the labels that the corresponding metric carries.
    fn label_names() -> Vec<&'static str>;

    /// Label values to pre-populate the metric with. They need not be
    /// exhaustive: events may emit values that are not listed here.
    fn possible_label_values() -> Vec<LabelValues<'static>>;

    /// The label values for one event, corresponding to `label_names`.
    fn label_values(&self) -> LabelValues<'_>;
}

/// The buckets of a `Sample`: one per percentile, one for the maximum and one
/// for the observation count.
#[derive(Clone, Copy, Debug, PartialEq, Eq, Structural)]
pub enum TimingBucket {
    P25,
    P50,
    P75,
    P90,
    P95,
    P99,
    P99P9,
    Max,
    Count,
}

/// The buckets in ladder order: the percentiles from lowest to highest, then
/// the maximum, then the count.
pub open spec fn bucket_ladder() -> Seq<TimingBucket> {
    seq![
        TimingBucket::P25,
        TimingBucket::P50,
        TimingBucket::P75,
        TimingBucket::P90,
        TimingBucket::P95,
        TimingBucket::P99,
        TimingBucket::P99P9,
        TimingBucket::Max,
        TimingBucket::Count,
    ]
}

/// Each bucket's name, used as its label value.
pub open spec fn bucket_name(b: TimingBucket) -> Seq<char> {
    match b {
        TimingBucket::P25 => "p25"@,
        TimingBucket::P50 => "p50"@,
        TimingBucket::P75 => "p75"@,
        TimingBucket::P90 => "p90"@,
        TimingBucket::P95 => "p95"@,
        TimingBucket::P99 => "p99"@,
        TimingBucket::P99P9 => "p99_p9"@,
        TimingBucket::Max => "max"@,
        TimingBucket::Count => "count"@,
    }
}

impl TimingBucket {
    /// The bucket's name, used as its label value.
    pub fn as_str(&self) -> (r: &'static str)
        ensures
            r@ == bucket_name(*self),
    {
        match self {
            TimingBucket::P25 => "p25",
            TimingBucket::P50 => "p50",
            TimingBucket::P75 => "p75",
            TimingBucket::P90 => "p90",
            TimingBucket::P95 => "p95",
            TimingBucket::P99 => "p99",
            TimingBucket::P99P9 => "p99_p9",
            TimingBucket::Max => "max",
            TimingBucket::Count => "count",
        }
    }

    /// One instance of every bucket, in ladder order.
    pub fn all_variants() -> (r: Vec<TimingBucket>)
        ensures
            r@ == bucket_ladder(),
    {
        let variants = vec![
            TimingBucket::P25,
            TimingBucket::P50,
            TimingBucket::P75,
            TimingBucket::P90,
            TimingBucket::P95,
            TimingBucket::P99,
            TimingBucket::P99P9,
            TimingBucket::Max,
            TimingBucket::Count,
        ];
        proof {
            assert(variants@ =~= bucket_ladder());
        }
        variants
    }
}

impl Labels for TimingBucket {
    /// The one label of a timing metric, named for the bucket it carries.
    fn label_names() -> (r: Vec<&'static str>)
        ensures
            r@.len() == 1,
            r@[0]@ == "bucket"@,
    {
        vec!["bucket"]
    }

    /// One singleton list per bucket, in ladder order: the label values to
    /// pre-register every bucket's series with before any data exists.
    fn possible_label_values() -> (r: Vec<LabelValues<'static>>)
        ensures
            r@.len() == bucket_ladder().len(),
            forall|i: int|
                0 <= i < r@.len() ==> (#[trigger] r@[i])@.len() == 1 && r@[i]@[0]@ == bucket_name(
                    bucket_ladder()[i],
                ),
    {
        let variants = TimingBucket::all_variants();
        let mut values: Vec<Vec<&'static str>> = Vec::new();
        let mut i: usize = 0;
        while i < variants.len()
            invariant
                i <= variants.len(),
                variants@ == bucket_ladder(),
                values@.len() == i,
                forall|j: int|
                    0 <= j < i ==> (#[trigger] values@[j])@.len() == 1 && values@[j]@[0]@
                        == bucket_name(bucket_ladder()[j]),
            decreases variants.len() - i,
        {
            let entry = vec![variants[i].as_str()];
            proof {
                assert(entry@.len() == 1);
            }
            values.push(entry);
            i += 1;
        }
        values
    }

    /// The one label value of this bucket: its name.
    fn label_values(&self) -> (r: LabelValues<'_>)
        ensures
            r@.len() == 1,
            r@[0]@ == bucket_name(*self),
    {
        vec![self.as_str()]
    }
}

} // verus!
