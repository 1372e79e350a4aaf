//! The pipeline state the main loop drives.
//!
//! The engine owns the line assembler, the series store and the running line
//! counter. The surrounding application polls its two byte sources, feeds
//! data bytes in one at a time, parses the tokens of a completed line into
//! values, and hands those back; the engine decides whether anything changed
//! and so whether a redraw is owed — exactly one per accepted, non-empty
//! line, strictly after that line's store mutation.

use vstd::prelude::*;
use crate::line::{tokens_of, views_of, LineAssembler, LINE_TERMINATOR};
use crate::store::{apply_spec, SeriesStore};
use crate::window::{x_min_spec, x_window};

verus! {

/// Line assembler, series store and line counter, advanced line by line.
pub struct Engine {
    /// Accumulates the data stream's bytes into lines.
    pub assembler: LineAssembler,
    /// The windowed per-column series.
    pub store: SeriesStore,
    /// Number of accepted, non-empty lines so far; the position the next
    /// samples are ingested at.
    pub count: u64,
}

impl Engine {
    /// The store is ordered and everything in it was ingested before the
    /// counter's current value.
    pub open spec fn wf(&self) -> bool {
        &&& self.store.wf()
        &&& self.store.all_positions_lt(self.count as int)
    }

    /// A fresh pipeline: empty buffer, no series, counter at zero.
    pub fn new() -> (e: Engine)
        ensures
            e.wf(),
            e.count == 0,
            e.store@.len() == 0,
            e.assembler@.len() == 0,
    {
        Engine { assembler: LineAssembler::new(), store: SeriesStore::new(), count: 0 }
    }

    /// Feed one data-stream byte. A line terminator closes the line and hands
    /// back its tokens; any other byte extends the open line. The store and
    /// the counter never change here.
    pub fn on_data_byte(&mut self, b: u8) -> (tokens: Option<Vec<Vec<u8>>>)
        requires
            old(self).wf(),
        ensures
            final(self).wf(),
            final(self).store == old(self).store,
            final(self).count == old(self).count,
            b == LINE_TERMINATOR ==> tokens is Some
                && views_of(tokens.unwrap()@) == tokens_of(old(self).assembler@)
                && final(self).assembler@.len() == 0,
            b != LINE_TERMINATOR ==> tokens is None
                && final(self).assembler@ == old(self).assembler@.push(b),
    {
        self.assembler.push_byte(b)
    }

    /// Consume the parsed values of one completed line. An empty list leaves
    /// the pipeline untouched and owes no redraw; otherwise each value is
    /// appended to its column's series at the current counter position, every
    /// series is trimmed to the window the counter and `width` define, the
    /// counter advances, and a redraw is owed. The series count never
    /// shrinks, and every retained sample sits inside this cycle's window.
    pub fn ingest(&mut self, values: &Vec<u64>, width: u64) -> (redraw: bool)
        requires
            old(self).wf(),
            old(self).count < u64::MAX,
        ensures
            final(self).wf(),
            redraw == (values@.len() > 0),
            final(self).assembler == old(self).assembler,
            final(self).store@.len() >= old(self).store@.len(),
            values@.len() == 0 ==> *final(self) == *old(self),
            values@.len() > 0 ==> final(self).count == old(self).count + 1
                && final(self).store@ == apply_spec(
                old(self).store@,
                values@,
                old(self).count,
                x_min_spec(old(self).count, width),
            ),
            values@.len() > 0 ==> forall|j: int, k: int|
                0 <= j < final(self).store@.len() && 0 <= k < final(self).store@[j].len()
                    ==> final(self).store@[j][k].position >= x_min_spec(old(self).count, width),
    {
        if values.len() == 0 {
            return false;
        }
        let w = x_window(self.count, width);
        self.store.apply(values, self.count, w.x_min);
        self.count = self.count + 1;
        true
    }
}

} // verus!
