use core::sync::atomic::{AtomicUsize, Ordering};
use vstd::prelude::*;

verus! {

/// Number of slots a `Windowing` ring rotates through. The code functions
/// with even a single slot, but any datapoint arriving while that slot is
/// being sampled would be lost. Two suffice to keep recording while the old
/// slot is drained; four additionally leave room to absorb races between a
/// reader and a rotation.
pub const SAMPLING_WINDOWS: usize = 4;

/// A mechanism for rotating between different observation collections. It
/// provides an accessor for the current collection and an operation that
/// makes the next slot of the ring current, returning the slot that was
/// current just before.
///
/// The guarantees are deliberately weak: the index is a single atomic with no
/// lock around it, so concurrent rotations race last-write-wins and a reader
/// may observe either the old or the new slot. Callers that need a stable
/// view must snapshot at once.
pub struct Windowing<P> {
    current_window: AtomicUsize,
    windows: [P; 4],
}

impl<P: Default> Windowing<P> {
    /// Constructor. Initializes its owned ring of `P`s using
    /// `Default::default()`.
    pub fn new() -> (r: Self)
        ensures
            r.spec_windows().len() == 4,
    {
        Windowing {
            current_window: AtomicUsize::new(0),
            windows: [P::default(), P::default(), P::default(), P::default()],
        }
    }
}

impl<P> Windowing<P> {
    /// The ring's slots, for specifications.
    pub closed spec fn spec_windows(&self) -> Seq<P> {
        self.windows@
    }

    /// Get the current collection. Which slot is current can change under a
    /// concurrent rotation, so no more is promised than that the reference
    /// points into the ring.
    pub fn current(&self) -> (r: &P)
        ensures
            exists|i: int| 0 <= i < 4 && *r == self.spec_windows()[i],
    {
        let i = self.current_window.load(Ordering::SeqCst) % SAMPLING_WINDOWS;
        let r = &self.windows[i];
        proof {
            assert(*r == self.spec_windows()[i as int]);
        }
        r
    }

    /// Cycle to the next window. Returns the window which was active before
    /// the call.
    pub fn cycle_windows(&self) -> (r: &P)
        ensures
            exists|i: int| 0 <= i < 4 && *r == self.spec_windows()[i],
    {
        let old_idx = self.current_window.load(Ordering::SeqCst) % SAMPLING_WINDOWS;
        self.current_window.store((old_idx + 1) % SAMPLING_WINDOWS, Ordering::SeqCst);
        let r = &self.windows[old_idx];
        proof {
            assert(*r == self.spec_windows()[old_idx as int]);
        }
        r
    }
}

} // verus!
