//! The multi-series windowed sample store.
//!
//! One series per token column. A parsed line appends one sample to each
//! series its tokens reach, creates the series a longer line calls for, and
//! trims every series to the visible window by discarding leading samples
//! older than the window's lower x-bound. Series are never destroyed, so the
//! series count only grows; a series left empty by trimming merely drops out
//! of the render set.
//!
//! Sample values are carried as opaque 64-bit patterns: the store orders and
//! trims by position only and never interprets a value.

use vstd::prelude::*;

verus! {

/// One observation of one series: the value's bit pattern, tagged with the
/// global line counter at ingestion time.
#[derive(PartialEq, Eq, Structural, Clone, Copy, Debug)]
pub struct Sample {
    /// Global line counter when the sample was ingested.
    pub position: u64,
    /// Bit pattern of the observed value, never interpreted by the store.
    pub value: u64,
}

/// Positions strictly increase along a series.
pub open spec fn positions_increasing(s: Seq<Sample>) -> bool {
    forall|i: int, j: int| 0 <= i < j < s.len() ==> s[i].position < s[j].position
}

/// Every position in the series lies below `p`.
pub open spec fn positions_lt(s: Seq<Sample>, p: int) -> bool {
    forall|i: int| 0 <= i < s.len() ==> s[i].position < p
}

/// The series after discarding its leading samples older than `x_min`.
pub open spec fn trim_spec(s: Seq<Sample>, x_min: u64) -> Seq<Sample>
    decreases s.len(),
{
    if s.len() > 0 && s[0].position < x_min {
        trim_spec(s.drop_first(), x_min)
    } else {
        s
    }
}

/// Series `j` of a store that a line of `values.len()` tokens grows to at
/// least `values.len()` series: the existing one, or a fresh empty one.
pub open spec fn padded_series(store: Seq<Seq<Sample>>, j: int) -> Seq<Sample> {
    if j < store.len() {
        store[j]
    } else {
        Seq::empty()
    }
}

/// Series `j` after the line's samples are appended: column `j`'s value at
/// `position` if the line reaches that column, else unchanged.
pub open spec fn appended_series(
    store: Seq<Seq<Sample>>,
    values: Seq<u64>,
    j: int,
    position: u64,
) -> Seq<Sample> {
    if j < values.len() {
        padded_series(store, j).push(Sample { position, value: values[j] })
    } else {
        padded_series(store, j)
    }
}

/// Number of series after a line of `values.len()` tokens.
pub open spec fn store_len_after(store: Seq<Seq<Sample>>, values: Seq<u64>) -> int {
    if values.len() > store.len() {
        values.len() as int
    } else {
        store.len() as int
    }
}

/// The whole store after one line: per column, append where the line supplies
/// a value, then trim to the window.
pub open spec fn apply_spec(
    store: Seq<Seq<Sample>>,
    values: Seq<u64>,
    position: u64,
    x_min: u64,
) -> Seq<Seq<Sample>> {
    Seq::new(
        store_len_after(store, values) as nat,
        |j: int| trim_spec(appended_series(store, values, j, position), x_min),
    )
}

/// Trimming keeps a suffix, so it removes nothing younger than what it keeps.
pub proof fn lemma_trim_keeps_recent(s: Seq<Sample>, x_min: u64, p: int)
    requires
        positions_lt(s, p),
    ensures
        positions_lt(trim_spec(s, x_min), p),
        trim_spec(s, x_min).len() <= s.len(),
    decreases s.len(),
{
    if s.len() > 0 && s[0].position < x_min {
        assert(positions_lt(s.drop_first(), p)) by {
            assert(forall|i: int|
                0 <= i < s.drop_first().len() ==> s.drop_first()[i] == s[i + 1]);
        }
        lemma_trim_keeps_recent(s.drop_first(), x_min, p);
    }
}

/// On a series with increasing positions, trimming leaves exactly samples at
/// or above `x_min`, still increasing.
pub proof fn lemma_trim_window(s: Seq<Sample>, x_min: u64)
    requires
        positions_increasing(s),
    ensures
        positions_increasing(trim_spec(s, x_min)),
        forall|k: int|
            0 <= k < trim_spec(s, x_min).len() ==> trim_spec(s, x_min)[k].position >= x_min,
    decreases s.len(),
{
    if s.len() > 0 && s[0].position < x_min {
        assert(forall|i: int|
            0 <= i < s.drop_first().len() ==> s.drop_first()[i] == s[i + 1]);
        lemma_trim_window(s.drop_first(), x_min);
    } else if s.len() > 0 {
        assert forall|k: int| 0 <= k < s.len() implies s[k].position >= x_min by {
            if k > 0 {
                assert(s[0].position < s[k].position);
            }
        }
    }
}

/// Appending a sample at a position above every existing one keeps positions
/// increasing and bounds them below `position + 1`.
pub proof fn lemma_append_in_order(
    store: Seq<Seq<Sample>>,
    values: Seq<u64>,
    j: int,
    position: u64,
)
    requires
        j < store.len() ==> positions_increasing(store[j]),
        j < store.len() ==> positions_lt(store[j], position as int),
    ensures
        positions_increasing(appended_series(store, values, j, position)),
        positions_lt(appended_series(store, values, j, position), position as int + 1),
{
    let base = padded_series(store, j);
    let a = appended_series(store, values, j, position);
    if j < values.len() {
        assert forall|x: int, y: int| 0 <= x < y < a.len() implies a[x].position < a[y].position by {
            if y < base.len() {
                assert(base[x].position < base[y].position);
            } else {
                assert(a[y] == Sample { position, value: values[j] });
            }
        }
    }
}

/// The ordered collection of series. Empty series persist: only the render
/// set skips them.
pub struct SeriesStore {
    /// The series, indexed by token column.
    pub series: Vec<Series>,
}

/// One series: the samples of a fixed token column inside the window, oldest
/// first.
#[derive(Debug)]
pub struct Series {
    /// The retained samples, positions strictly increasing.
    pub samples: Vec<Sample>,
}

impl View for Series {
    type V = Seq<Sample>;

    open spec fn view(&self) -> Seq<Sample> {
        self.samples@
    }
}

impl View for SeriesStore {
    type V = Seq<Seq<Sample>>;

    open spec fn view(&self) -> Seq<Seq<Sample>> {
        self.series@.map_values(|s: Series| s@)
    }
}

impl Series {
    /// The value of the newest retained sample, if any: the "current" reading
    /// of this series.
    pub fn current(&self) -> (v: Option<u64>)
        ensures
            self@.len() == 0 ==> v is None,
            self@.len() > 0 ==> v == Some(self@.last().value),
    {
        if self.samples.len() > 0 {
            Some(self.samples[self.samples.len() - 1].value)
        } else {
            None
        }
    }
}

impl SeriesStore {
    /// Positions strictly increase within every series.
    pub open spec fn wf(&self) -> bool {
        forall|j: int| 0 <= j < self@.len() ==> positions_increasing(#[trigger] self@[j])
    }

    /// Every stored position lies below `p`.
    pub open spec fn all_positions_lt(&self, p: int) -> bool {
        forall|j: int| 0 <= j < self@.len() ==> positions_lt(#[trigger] self@[j], p)
    }

    /// A store with no series.
    pub fn new() -> (s: SeriesStore)
        ensures
            s@.len() == 0,
    {
        SeriesStore { series: Vec::new() }
    }

    /// Number of series ever created.
    pub fn num_series(&self) -> (n: usize)
        ensures
            n == self@.len(),
    {
        self.series.len()
    }

    /// Ingest one parsed line: for each column the line reaches, append its
    /// value as a sample at `position` (creating the series if the line is
    /// the first to reach that column), then trim every series to the window
    /// starting at `x_min`. The series count never shrinks, and no retained
    /// sample is older than `x_min`.
    pub fn apply(&mut self, values: &Vec<u64>, position: u64, x_min: u64)
        requires
            old(self).wf(),
            old(self).all_positions_lt(position as int),
        ensures
            final(self)@ == apply_spec(old(self)@, values@, position, x_min),
            final(self).wf(),
            final(self).all_positions_lt(position as int + 1),
            final(self)@.len() >= old(self)@.len(),
            forall|j: int, k: int|
                0 <= j < final(self)@.len() && 0 <= k < final(self)@[j].len()
                    ==> final(self)@[j][k].position >= x_min,
    {
        let ghost prev = self@;
        let ghost vals = values@;

        // create the series a longer line calls for
        let target = if values.len() > self.series.len() {
            values.len()
        } else {
            self.series.len()
        };
        while self.series.len() < target
            invariant
                prev.len() <= self@.len() <= target,
                target == store_len_after(prev, vals),
                forall|j: int| 0 <= j < prev.len() ==> self@[j] == prev[j],
                forall|j: int| prev.len() <= j < self@.len() ==> self@[j].len() == 0,
            decreases target - self.series.len(),
        {
            let ghost before = self@;
            self.series.push(Series { samples: Vec::new() });
            proof {
                assert(self@ =~= before.push(Seq::empty()));
            }
        }

        // append the line's samples
        let mut i: usize = 0;
        while i < values.len()
            invariant
                i <= vals.len(),
                vals.len() <= self@.len() == target,
                target == store_len_after(prev, vals),
                values@ == vals,
                forall|j: int|
                    0 <= j < i ==> self@[j] == appended_series(prev, vals, j, position),
                forall|j: int| i <= j < prev.len() ==> self@[j] == prev[j],
                forall|j: int|
                    i <= j && prev.len() <= j < self@.len() ==> self@[j].len() == 0,
            decreases vals.len() - i,
        {
            let ghost before = self@;
            let smp = Sample { position, value: values[i] };
            self.series[i].samples.push(smp);
            proof {
                assert(self@ =~= before.update(i as int, before[i as int].push(smp)));
                assert(before[i as int] =~= padded_series(prev, i as int));
            }
            i = i + 1;
        }

        // trim every series to the window
        let mut t: usize = 0;
        while t < self.series.len()
            invariant
                t <= self@.len() == target,
                target == store_len_after(prev, vals),
                forall|j: int|
                    0 <= j < t
                        ==> self@[j] == trim_spec(appended_series(prev, vals, j, position), x_min),
                forall|j: int|
                    t <= j < self@.len() ==> self@[j] == appended_series(prev, vals, j, position),
            decreases self@.len() - t,
        {
            while self.series[t].samples.len() > 0 && self.series[t].samples[0].position < x_min
                invariant
                    t < self@.len() == target,
                    target == store_len_after(prev, vals),
                    trim_spec(self@[t as int], x_min)
                        == trim_spec(appended_series(prev, vals, t as int, position), x_min),
                    forall|j: int|
                        0 <= j < t
                            ==> self@[j]
                                == trim_spec(appended_series(prev, vals, j, position), x_min),
                    forall|j: int|
                        t < j < self@.len()
                            ==> self@[j] == appended_series(prev, vals, j, position),
                decreases self@[t as int].len(),
            {
                let ghost before = self@;
                self.series[t].samples.remove(0);
                proof {
                    assert(before[t as int].remove(0) =~= before[t as int].drop_first());
                    assert(self@ =~= before.update(t as int, before[t as int].drop_first()));
                }
            }
            t = t + 1;
        }

        proof {
            assert(self@ =~= apply_spec(prev, vals, position, x_min));
            assert forall|j: int| 0 <= j < self@.len() implies positions_increasing(#[trigger] self@[j])
                && positions_lt(self@[j], position as int + 1)
                && (forall|k: int| 0 <= k < self@[j].len() ==> self@[j][k].position >= x_min) by {
                lemma_append_in_order(prev, vals, j, position);
                let a = appended_series(prev, vals, j, position);
                lemma_trim_window(a, x_min);
                lemma_trim_keeps_recent(a, x_min, position as int + 1);
            }
        }
    }
}

} // verus!
