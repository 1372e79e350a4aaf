//! Assembling the per-frame render set.
//!
//! A frame shows every series that still has samples in the window, in series
//! order, each with the palette color its index selects round-robin and with
//! its retained samples as the point list. Building the set reads the store
//! and never mutates it; statistics text and the drawing itself are the
//! rendering collaborator's business.

use vstd::prelude::*;
use crate::store::{Sample, SeriesStore};

verus! {

/// Number of colors in the fixed palette the renderer cycles through.
pub const PALETTE_LEN: usize = 7;

/// What the renderer needs for one visible series.
#[derive(Debug)]
pub struct RenderSeries {
    /// Which series this is, by token column.
    pub series_index: usize,
    /// Palette entry to draw it with: the series index modulo the palette
    /// length.
    pub color_index: usize,
    /// The samples to draw, oldest first.
    pub points: Vec<Sample>,
}

/// The view of one render entry: series index, color index, points.
pub open spec fn render_entry_view(r: RenderSeries) -> (int, int, Seq<Sample>) {
    (r.series_index as int, r.color_index as int, r.points@)
}

/// The expected render set of the first `n` series: one entry per non-empty
/// series, in series order, colored round-robin modulo `palette`.
pub open spec fn render_list(store: Seq<Seq<Sample>>, n: int, palette: int) -> Seq<
    (int, int, Seq<Sample>),
>
    decreases n,
{
    if n <= 0 {
        Seq::empty()
    } else {
        let pre = render_list(store, n - 1, palette);
        if store[n - 1].len() > 0 {
            pre.push((n - 1, (n - 1) % palette, store[n - 1]))
        } else {
            pre
        }
    }
}

/// Build the render set of the store: the non-empty series in order, each
/// with its round-robin palette color and its retained samples.
pub fn build_render_set(store: &SeriesStore) -> (out: Vec<RenderSeries>)
    ensures
        out@.map_values(|r: RenderSeries| render_entry_view(r))
            == render_list(store@, store@.len() as int, PALETTE_LEN as int),
{
    let mut out: Vec<RenderSeries> = Vec::new();
    let mut i: usize = 0;
    let n = store.num_series();
    while i < n
        invariant
            i <= n == store@.len(),
            out@.map_values(|r: RenderSeries| render_entry_view(r))
                == render_list(store@, i as int, PALETTE_LEN as int),
        decreases n - i,
    {
        let len_i = store.series[i].samples.len();
        if len_i > 0 {
            let mut points: Vec<Sample> = Vec::new();
            let mut k: usize = 0;
            while k < len_i
                invariant
                    i < store@.len(),
                    k <= len_i == store@[i as int].len(),
                    points@ == store@[i as int].take(k as int),
                decreases len_i - k,
            {
                let smp = store.series[i].samples[k];
                let ghost before = points@;
                points.push(smp);
                proof {
                    assert(points@ =~= store@[i as int].take(k as int + 1));
                }
                k = k + 1;
            }
            proof {
                assert(points@ =~= store@[i as int]);
            }
            let ghost done = out@.map_values(|r: RenderSeries| render_entry_view(r));
            let entry = RenderSeries { series_index: i, color_index: i % PALETTE_LEN, points };
            out.push(entry);
            proof {
                assert(out@.map_values(|r: RenderSeries| render_entry_view(r))
                    =~= done.push((i as int, (i as int) % (PALETTE_LEN as int), store@[i as int])));
            }
        }
        i = i + 1;
    }
    out
}

} // verus!
