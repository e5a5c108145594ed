use crate::ring::{is_sorted, ObservationSet, MAX_CAPACITY, WINDOW_SIZE};
use crate::summary::{summary_spec, Sample};
use core::sync::atomic::{AtomicUsize, Ordering};
use vstd::prelude::*;

verus! {

/// Declaration of the lock type, so that it can stand in a field.
/// parking_lot's `Mutex` is an alias of `lock_api::Mutex`, which parking_lot
/// re-exports; the struct itself carries no trait bounds.
#[verifier::external_type_specification]
#[verifier::external_body]
#[verifier::reject_recursive_types(R)]
#[verifier::reject_recursive_types(T)]
pub struct ExMutex<R, T: ?Sized>(parking_lot::lock_api::Mutex<R, T>);

/// Declaration of parking_lot's raw lock, the first type argument of every
/// parking_lot mutex.
#[verifier::external_type_specification]
#[verifier::external_body]
pub struct ExRawMutex(parking_lot::RawMutex);

/// The shared window: a mutex that owns the window whenever no caller is
/// using it. A producer takes the window out only if the lock is free at that
/// instant; the sampler waits for it. While one caller holds the window,
/// every producer's attempt comes back empty and the observation is counted
/// as dropped instead.
struct WindowCell {
    cell: parking_lot::Mutex<Option<ObservationSet>>,
}

impl WindowCell {
    /// Relies on `lock_api::Mutex::new`: the new mutex is unlocked and owns
    /// exactly the given value.
    #[verifier::external_body]
    fn new(set: ObservationSet) -> WindowCell {
        WindowCell { cell: parking_lot::Mutex::new(Some(set)) }
    }

    /// Relies on `lock_api::Mutex::try_lock`: it returns a guard on the
    /// contents only when the lock was free at that instant, and `None`
    /// otherwise, never blocking. Whether the window comes back depends on
    /// concurrent callers, so nothing is promised of the outcome; on `None`
    /// the cell is left untouched.
    #[verifier::external_body]
    fn try_take(&self) -> Option<ObservationSet> {
        match self.cell.try_lock() {
            Some(mut guard) => guard.take(),
            None => None,
        }
    }

    /// Relies on `lock_api::Mutex::lock`: it blocks until the lock is free
    /// and returns a guard on the contents. The window is moved out and the
    /// lock released; `None` comes back only if a concurrent caller has the
    /// window out at that moment.
    #[verifier::external_body]
    fn take_blocking(&self) -> Option<ObservationSet> {
        self.cell.lock().take()
    }

    /// Relies on `lock_api::Mutex::lock`: it blocks until the lock is free;
    /// the window is then stored back into the cell.
    #[verifier::external_body]
    fn put(&self, set: ObservationSet) {
        *self.cell.lock() = Some(set);
    }
}

/// One more dropped observation, clamped at the counter's ceiling.
fn saturating_inc(d: usize) -> (r: usize)
    ensures
        d < usize::MAX ==> r == d + 1,
        d == usize::MAX ==> r == usize::MAX,
{
    d.saturating_add(1)
}

/// Relies on `AtomicUsize::fetch_update`: it applies the given closure to the
/// current value and stores the result, retrying on interference until the
/// store succeeds. The closure only calls `saturating_inc`, so one lost
/// observation raises the counter by exactly one, saturating.
#[verifier::external_body]
fn count_drop(drops: &AtomicUsize) {
    let _ = drops.fetch_update(Ordering::SeqCst, Ordering::SeqCst, |d| Some(saturating_inc(d)));
}

/// Collects observations from any number of concurrent producers and yields,
/// once per interval, the percentile summary of everything the window kept.
/// Recording never waits for a drain: a producer that finds the window busy
/// drops its observation and counts the loss instead, and the drain itself
/// runs with the window taken out and the lock released.
pub struct Observations {
    observations: WindowCell,
    drops: AtomicUsize,
    name: &'static str,
}

impl Observations {
    /// The name this recorder was created with.
    pub closed spec fn spec_name(&self) -> &'static str {
        self.name
    }

    /// Constructor, with the default window capacity. The `name` parameter
    /// has no semantic meaning, and is only exposed by `name()`.
    pub fn new(name: &'static str) -> (r: Self)
        ensures
            r.spec_name() == name,
    {
        Self::with_capacity(name, WINDOW_SIZE)
    }

    /// A recorder whose window keeps `capacity` observations per interval.
    pub fn with_capacity(name: &'static str, capacity: usize) -> (r: Self)
        requires
            1 <= capacity <= MAX_CAPACITY,
        ensures
            r.spec_name() == name,
    {
        Observations {
            observations: WindowCell::new(ObservationSet::with_capacity(capacity)),
            drops: AtomicUsize::new(0),
            name,
        }
    }

    /// Name associated with the observations, as provided in the constructor.
    pub fn name(&self) -> (r: &'static str)
        ensures
            r == self.spec_name(),
    {
        self.name
    }

    /// Attempt to record an observation. When the window is available the
    /// observation is appended at the cursor (once the window is full, this
    /// overwrites the oldest slot of the interval). When a concurrent caller
    /// has the window out, the observation is dropped, the window is left
    /// untouched, and the drop counter rises by exactly one, saturating.
    ///
    /// A producer never waits for a drain: the one acquisition that can pause
    /// at all is handing the window back, and every hold of the lock — here
    /// and in `sample` — is a constant-time take or store, never the drain
    /// itself, which runs with the lock released.
    pub fn record(&self, observation: i64) {
        match self.observations.try_take() {
            Some(mut set) => {
                set.add(observation);
                self.observations.put(set);
            },
            None => {
                count_drop(&self.drops);
            },
        }
    }

    /// Wait until the window is in the cell and take it out. Each attempt
    /// blocks on the lock, so the window is missed only in the instant a
    /// concurrent `record` has it out; the attempts are bounded only because
    /// every loop must terminate, and the bound is never reached in practice.
    fn take_window(&self) -> (r: Option<ObservationSet>) {
        let mut tries: usize = 0;
        loop
            decreases usize::MAX - tries,
        {
            match self.observations.take_blocking() {
                Some(set) => { return Some(set) },
                None => {
                    if tries == usize::MAX {
                        return None;
                    }
                    tries += 1;
                },
            }
        }
    }

    /// Take a sample of the observations: wait for the window, drain and sort
    /// what the current lap recorded, clear the window and put it back so
    /// that producers resume, and only then claim the drop counter for the
    /// interval that just ended — a record racing the hand-back is attributed
    /// to the next interval, never lost silently. The result is exactly the
    /// percentile summary of the drained, sorted observations together with
    /// that interval's lap and drop counts.
    pub fn sample(&self) -> (r: Sample)
        ensures
            exists|data: Seq<i64>, wraps: usize, dropped: usize|
                is_sorted(data) && data.len() <= MAX_CAPACITY && r == summary_spec(
                    data,
                    wraps,
                    dropped,
                ),
            r.count <= MAX_CAPACITY,
    {
        match self.take_window() {
            Some(mut set) => {
                let wraps = set.wraps();
                let sorted = set.sorted_data();
                set.clear();
                self.observations.put(set);
                let dropped = self.drops.swap(0, Ordering::SeqCst);
                let r = Sample::from_sorted(&sorted, wraps, dropped);
                proof {
                    assert(is_sorted(sorted@) && r == summary_spec(sorted@, wraps, dropped));
                }
                r
            },
            None => {
                // The window never became available; report the interval with
                // nothing recorded, claiming only the losses.
                let empty: Vec<i64> = Vec::new();
                let dropped = self.drops.swap(0, Ordering::SeqCst);
                let r = Sample::from_sorted(&empty, 0, dropped);
                proof {
                    assert(is_sorted(empty@) && r == summary_spec(empty@, 0, dropped));
                }
                r
            },
        }
    }
}

} // verus!
