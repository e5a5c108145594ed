//! A concurrent, bounded-memory sampler for discrete numeric observations.
//!
//! Producers record observations into a fixed-capacity ring buffer behind a
//! lock whose every hold is constant-time: a producer that finds the buffer
//! busy drops its observation and bumps a loss counter rather than wait for a
//! drain. A single periodic consumer takes the buffer out, sorts what this
//! lap recorded with the lock released, and publishes a percentile summary
//! together with the loss accounting.

mod labels;
mod laws;
mod recorder;
mod ring;
mod summary;
mod windowing;

pub use labels::{bucket_ladder, bucket_name, LabelValues, Labels, TimingBucket};
pub use laws::{
    lemma_overflow_single_wrap, lemma_repeated_sample_stable, lemma_uncontended_interval,
    lemma_untouched_sample,
};
pub use recorder::Observations;
pub use ring::{
    add_model, ascending, clear_model, fresh_state, is_sorted, lemma_record_all_append,
    lemma_record_run, lemma_sorted_of_ensures, lemma_sorted_of_unique, record_all, sorted_of,
    ObservationSet, SetState, MAX_CAPACITY, WINDOW_SIZE,
};
pub use summary::{lemma_percentile_index_in_range, pct_of, summary_spec, zero_summary, Sample};
pub use windowing::{Windowing, SAMPLING_WINDOWS};
