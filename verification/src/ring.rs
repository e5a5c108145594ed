use vstd::prelude::*;

verus! {

/// Number of slots in the default observation window. Together with the
/// cadence at which the window is drained, this bounds the sustainable
/// observation rate before the cursor wraps and older entries of the same
/// interval are overwritten.
pub const WINDOW_SIZE: usize = 65536;

/// Upper bound on a window's capacity. It keeps the percentile index
/// arithmetic (`len * 999`) comfortably inside `u64` on every architecture.
pub const MAX_CAPACITY: usize = 67108864;

/// A window's state as specifications see it: the stored slots, the write
/// cursor, and how many times the cursor has completed a lap since the last
/// clear. Slots at or past `cursor` hold stale data from an earlier lap.
pub ghost struct SetState {
    pub window: Seq<i64>,
    pub cursor: nat,
    pub laps: nat,
}

/// The state of a freshly constructed window of capacity `cap`: zeroed slots,
/// cursor at the start, no completed laps.
pub open spec fn fresh_state(cap: nat) -> SetState {
    SetState { window: Seq::new(cap, |i: int| 0i64), cursor: 0, laps: 0 }
}

/// One append: the observation lands at the cursor, the cursor advances
/// modulo the capacity, and a lap is counted (saturating) when the cursor
/// returns to the start.
pub open spec fn add_model(s: SetState, v: i64) -> SetState {
    let window = s.window.update(s.cursor as int, v);
    let cursor = (s.cursor + 1) % s.window.len();
    SetState {
        window,
        cursor,
        laps: if cursor == 0 {
            if s.laps >= usize::MAX {
                s.laps
            } else {
                s.laps + 1
            }
        } else {
            s.laps
        },
    }
}

/// Clearing resets the cursor and the lap count but leaves the slots as they
/// are; later appends overwrite them.
pub open spec fn clear_model(s: SetState) -> SetState {
    SetState { window: s.window, cursor: 0, laps: 0 }
}

/// The state reached by appending every element of `vs` in order, starting
/// from `s`.
pub open spec fn record_all(s: SetState, vs: Seq<i64>) -> SetState
    decreases vs.len(),
{
    if vs.len() == 0 {
        s
    } else {
        add_model(record_all(s, vs.drop_last()), vs.last())
    }
}

/// Recording a concatenation is recording the two parts in turn.
pub proof fn lemma_record_all_append(s: SetState, a: Seq<i64>, b: Seq<i64>)
    ensures
        record_all(s, a + b) == record_all(record_all(s, a), b),
    decreases b.len(),
{
    if b.len() == 0 {
        assert(a + b =~= a);
    } else {
        lemma_record_all_append(s, a, b.drop_last());
        assert((a + b).drop_last() =~= a + b.drop_last());
        assert((a + b).last() == b.last());
    }
}

/// A run of appends that fits between the cursor and the end of the window
/// writes the values contiguously at the cursor and leaves every other slot
/// alone; the cursor wraps, and a lap is counted, exactly when the run ends
/// flush with the window's end.
pub proof fn lemma_record_run(s: SetState, vs: Seq<i64>)
    requires
        s.cursor < s.window.len(),
        s.cursor + vs.len() <= s.window.len(),
        s.laps < usize::MAX,
    ensures
        ({
            let t = record_all(s, vs);
            &&& t.window.len() == s.window.len()
            &&& t.cursor == if s.cursor + vs.len() == s.window.len() {
                0
            } else {
                s.cursor + vs.len()
            }
            &&& t.laps == if s.cursor + vs.len() == s.window.len() {
                s.laps + 1
            } else {
                s.laps
            }
            &&& t.window.subrange(s.cursor as int, (s.cursor + vs.len()) as int) == vs
            &&& forall|j: int|
                0 <= j < s.window.len() && !(s.cursor <= j < s.cursor + vs.len())
                    ==> t.window[j] == s.window[j]
        }),
    decreases vs.len(),
{
    if vs.len() == 0 {
        assert(record_all(s, vs).window.subrange(s.cursor as int, s.cursor as int) =~= vs);
    } else {
        let prev = vs.drop_last();
        lemma_record_run(s, prev);
        let t0 = record_all(s, prev);
        let t = record_all(s, vs);
        assert(t == add_model(t0, vs.last()));
        let total = s.cursor + vs.len();
        if total == s.window.len() {
            vstd::arithmetic::div_mod::lemma_mod_self_0(s.window.len() as int);
        } else {
            vstd::arithmetic::div_mod::lemma_small_mod(total, s.window.len());
        }
        assert forall|j: int| 0 <= j < vs.len() implies t.window[s.cursor + j] == vs[j] by {
            if j < vs.len() - 1 {
                assert(t0.window[s.cursor + j] == prev[j]);
                assert(prev[j] == vs[j]);
            }
        }
        assert(t.window.subrange(s.cursor as int, (s.cursor + vs.len()) as int) =~= vs);
    }
}

/// Ascending order.
pub open spec fn is_sorted(s: Seq<i64>) -> bool {
    forall|i: int, j: int| 0 <= i <= j < s.len() ==> s[i] <= s[j]
}

/// The order the drain sorts by.
pub open spec fn ascending() -> spec_fn(i64, i64) -> bool {
    |a: i64, b: i64| a <= b
}

/// The canonical ascending form of a sequence of observations.
pub open spec fn sorted_of(vs: Seq<i64>) -> Seq<i64> {
    vs.sort_by(ascending())
}

/// The canonical ascending form has the same elements and length as the
/// sequence it sorts, and is ascending.
pub proof fn lemma_sorted_of_ensures(vs: Seq<i64>)
    ensures
        is_sorted(sorted_of(vs)),
        sorted_of(vs).to_multiset() == vs.to_multiset(),
        sorted_of(vs).len() == vs.len(),
{
    let leq = ascending();
    assert(vstd::relations::total_ordering(leq));
    vs.lemma_sort_by_ensures(leq);
    vs.to_multiset_ensures();
    sorted_of(vs).to_multiset_ensures();
    assert forall|i: int, j: int| 0 <= i <= j < sorted_of(vs).len() implies sorted_of(vs)[i]
        <= sorted_of(vs)[j] by {
        if i < j {
            assert(leq(sorted_of(vs)[i], sorted_of(vs)[j]));
        }
    }
}

/// Ascending order is canonical: any ascending sequence with the same
/// elements as `vs` is `sorted_of(vs)`.
pub proof fn lemma_sorted_of_unique(r: Seq<i64>, vs: Seq<i64>)
    requires
        is_sorted(r),
        r.to_multiset() == vs.to_multiset(),
    ensures
        r == sorted_of(vs),
{
    let leq = ascending();
    lemma_sorted_of_ensures(vs);
    assert(vstd::relations::sorted_by(r, leq));
    assert(vstd::relations::sorted_by(sorted_of(vs), leq));
    vstd::seq_lib::lemma_sorted_unique(r, sorted_of(vs), leq);
}

/// Relies on the standard library's `sort_unstable`: it reorders the vector's
/// elements in place into ascending order, so the result is a sorted
/// permutation of the input of the same length.
#[verifier::external_body]
fn sort_values(values: &mut Vec<i64>)
    ensures
        is_sorted(final(values)@),
        final(values)@.to_multiset() == old(values)@.to_multiset(),
        final(values)@.len() == old(values)@.len(),
{
    values.sort_unstable();
}

/// A fixed-capacity ring of observations with a write cursor and a lap
/// counter. Appending never fails and never grows the storage: once the
/// cursor wraps, new observations overwrite the oldest slots of the current
/// interval.
pub struct ObservationSet {
    idx: usize,
    wraps: usize,
    data: Vec<i64>,
}

impl View for ObservationSet {
    type V = SetState;

    closed spec fn view(&self) -> SetState {
        SetState { window: self.data@, cursor: self.idx as nat, laps: self.wraps as nat }
    }
}

impl ObservationSet {
    #[verifier::type_invariant]
    spec fn well_formed(self) -> bool {
        &&& 1 <= self.data@.len() <= MAX_CAPACITY
        &&& (self.idx as nat) < self.data@.len()
    }

    /// A window of the default capacity.
    pub fn new() -> (r: Self)
        ensures
            r@ == fresh_state(WINDOW_SIZE as nat),
    {
        Self::with_capacity(WINDOW_SIZE)
    }

    /// A window of the given capacity, every slot zeroed.
    pub fn with_capacity(capacity: usize) -> (r: Self)
        requires
            1 <= capacity <= MAX_CAPACITY,
        ensures
            r@ == fresh_state(capacity as nat),
    {
        let r = ObservationSet { idx: 0, wraps: 0, data: vec![0i64; capacity] };
        proof {
            assert(r@.window =~= fresh_state(capacity as nat).window);
        }
        r
    }

    /// Append an observation at the cursor, advancing it modulo the capacity
    /// and counting a lap (saturating) when it returns to the start. Once the
    /// window is full this overwrites the oldest slot of the interval: that is
    /// how the window rotates, not a failure.
    pub fn add(&mut self, observation: i64)
        ensures
            final(self)@ == add_model(old(self)@, observation),
    {
        proof {
            use_type_invariant(&*self);
        }
        let len = self.data.len();
        self.data[self.idx] = observation;
        self.idx = (self.idx + 1) % len;
        if self.idx == 0 {
            self.wraps = self.wraps.saturating_add(1);
        }
    }

    /// Completed laps since the last clear.
    pub fn wraps(&self) -> (r: usize)
        ensures
            r as nat == self@.laps,
    {
        self.wraps
    }

    /// Reset the cursor and the lap count. The stored values stay where they
    /// are but will not be visible again: later appends overwrite them.
    pub fn clear(&mut self)
        ensures
            final(self)@ == clear_model(old(self)@),
    {
        proof {
            use_type_invariant(&*self);
        }
        self.idx = 0;
        self.wraps = 0;
    }

    /// How many slots currently hold live data: the whole window once the
    /// cursor has wrapped, otherwise everything before the cursor.
    pub fn size(&self) -> (r: usize)
        ensures
            r as nat == if self@.laps > 0 {
                self@.window.len()
            } else {
                self@.cursor
            },
    {
        if self.wraps > 0 {
            self.data.len()
        } else {
            self.idx
        }
    }

    /// The observations of the current lap — the slots before the cursor — in
    /// ascending order. Slots at or past the cursor are excluded even when
    /// they hold genuine observations from before a wrap; that boundary is a
    /// documented limitation of the drain.
    pub fn sorted_data(&self) -> (r: Vec<i64>)
        ensures
            r@ == sorted_of(self@.window.subrange(0, self@.cursor as int)),
            is_sorted(r@),
            r@.to_multiset() == self@.window.subrange(0, self@.cursor as int).to_multiset(),
            r@.len() == self@.cursor,
            r@.len() <= MAX_CAPACITY,
    {
        proof {
            use_type_invariant(&*self);
        }
        let mut values: Vec<i64> = Vec::new();
        let mut i: usize = 0;
        while i < self.idx
            invariant
                i <= self.idx,
                self.well_formed(),
                values@ == self@.window.subrange(0, i as int),
            decreases self.idx - i,
        {
            values.push(self.data[i]);
            i += 1;
            proof {
                assert(values@ =~= self@.window.subrange(0, i as int));
            }
        }
        sort_values(&mut values);
        proof {
            lemma_sorted_of_unique(values@, self@.window.subrange(0, self@.cursor as int));
        }
        values
    }
}

} // verus!
