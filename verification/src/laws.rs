use crate::ring::{
    clear_model, fresh_state, is_sorted, lemma_record_all_append, lemma_record_run,
    lemma_sorted_of_ensures, record_all, sorted_of, SetState,
};
use crate::summary::{summary_spec, zero_summary, Sample};
use vstd::prelude::*;

verus! {

/// Recording fewer observations than the window's capacity into a fresh
/// window completes no lap and leaves exactly those observations, in order,
/// before the cursor. The summary of that drained interval reports no drops,
/// no wraps, a count equal to the number recorded, and each percentile ladder
/// entry is the k-th smallest recorded observation for k equal to
/// floor(count·p/100) — the percentile p scaled by ten, so that 99.9 is
/// exact — with the maximum the greatest of them.
pub proof fn lemma_uncontended_interval(cap: nat, vs: Seq<i64>)
    requires
        1 <= cap <= crate::ring::MAX_CAPACITY,
        vs.len() < cap,
    ensures
        ({
            let t = record_all(fresh_state(cap), vs);
            let sorted = sorted_of(vs);
            let s = summary_spec(sorted, 0, 0);
            &&& t.laps == 0
            &&& t.cursor == vs.len()
            &&& t.window.subrange(0, vs.len() as int) == vs
            &&& is_sorted(sorted)
            &&& sorted.to_multiset() == vs.to_multiset()
            &&& s.dropped == 0
            &&& s.wraps == 0
            &&& s.count == vs.len()
            &&& vs.len() > 0 ==> {
                &&& s.p25 == sorted[vs.len() as int * 250 / 1000]
                &&& s.p50 == sorted[vs.len() as int * 500 / 1000]
                &&& s.p75 == sorted[vs.len() as int * 750 / 1000]
                &&& s.p90 == sorted[vs.len() as int * 900 / 1000]
                &&& s.p95 == sorted[vs.len() as int * 950 / 1000]
                &&& s.p99 == sorted[vs.len() as int * 990 / 1000]
                &&& s.p99p9 == sorted[vs.len() as int * 999 / 1000]
                &&& s.max == sorted[vs.len() as int - 1]
            }
        }),
{
    lemma_record_run(fresh_state(cap), vs);
    lemma_sorted_of_ensures(vs);
}

/// Sampling an untouched recorder: a fresh window has an empty drained
/// prefix and no completed lap, and the summary of no observations with no
/// losses is zero in every field.
pub proof fn lemma_untouched_sample(cap: nat)
    requires
        1 <= cap,
    ensures
        fresh_state(cap).cursor == 0,
        fresh_state(cap).laps == 0,
        fresh_state(cap).window.subrange(0, 0) == Seq::<i64>::empty(),
        zero_summary() == (Sample {
            dropped: 0,
            wraps: 0,
            p25: 0,
            p50: 0,
            p75: 0,
            p90: 0,
            p95: 0,
            p99: 0,
            p99p9: 0,
            max: 0,
            count: 0,
        }),
{
    assert(fresh_state(cap).window.subrange(0, 0) =~= Seq::<i64>::empty());
    assert(summary_spec(Seq::empty(), 0, 0) == (Sample {
        dropped: 0usize,
        wraps: 0usize,
        p25: 0i64,
        p50: 0i64,
        p75: 0i64,
        p90: 0i64,
        p95: 0i64,
        p99: 0i64,
        p99p9: 0i64,
        max: 0i64,
        count: 0usize,
    }));
}

/// Sampling leaves the window cleared, and clearing is idempotent: repeated
/// samples with no intervening records drain an empty prefix every time and
/// so yield the same all-zero summary.
pub proof fn lemma_repeated_sample_stable(s: SetState)
    ensures
        clear_model(s).cursor == 0,
        clear_model(s).laps == 0,
        clear_model(clear_model(s)) == clear_model(s),
        clear_model(s).window.subrange(0, 0) == Seq::<i64>::empty(),
        summary_spec(clear_model(s).window.subrange(0, 0), 0, 0) == zero_summary(),
{
    assert(clear_model(s).window.subrange(0, 0) =~= Seq::<i64>::empty());
}

/// Recording capacity-plus-k observations (0 < k < capacity) into a fresh
/// window completes exactly one lap: the overflow overwrites the window's
/// start, so the drained prefix holds exactly the first k values of the new
/// lap and none of the full history.
pub proof fn lemma_overflow_single_wrap(cap: nat, vs: Seq<i64>)
    requires
        1 <= cap,
        cap < vs.len(),
        vs.len() < 2 * cap,
    ensures
        ({
            let t = record_all(fresh_state(cap), vs);
            &&& t.laps == 1
            &&& t.cursor == vs.len() - cap
            &&& t.window.subrange(0, vs.len() - cap) == vs.subrange(cap as int, vs.len() as int)
        }),
{
    let first = vs.subrange(0, cap as int);
    let rest = vs.subrange(cap as int, vs.len() as int);
    assert(vs =~= first + rest);
    lemma_record_all_append(fresh_state(cap), first, rest);
    lemma_record_run(fresh_state(cap), first);
    let mid = record_all(fresh_state(cap), first);
    lemma_record_run(mid, rest);
}

} // verus!
