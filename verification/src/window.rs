//! The visible x-range and its tick values.
//!
//! The window is derived from the running line counter and the effective
//! display width: it always spans exactly `width` positions, anchored at zero
//! until `width` lines have arrived and ending at the newest position after
//! that. Tick values sit at the quarters of the span, rounded to the nearest
//! integer with ties to even, as a fixed-precision renderer prints them.

use vstd::prelude::*;

verus! {

/// The visible x-range of the chart.
#[derive(PartialEq, Eq, Structural, Clone, Copy, Debug)]
pub struct XWindow {
    /// Oldest visible position.
    pub x_min: u64,
    /// Newest visible position.
    pub x_max: u64,
}

/// Lower x-bound for line counter `count` and display width `width`.
pub open spec fn x_min_spec(count: u64, width: u64) -> u64 {
    if count > width {
        (count - width) as u64
    } else {
        0
    }
}

/// Upper x-bound: the newest position, but never less than `width`.
pub open spec fn x_max_spec(count: u64, width: u64) -> u64 {
    if count > width {
        count
    } else {
        width
    }
}

/// `n` quarters, rounded to the nearest integer with ties to even.
pub open spec fn quarters_rounded(n: int) -> int {
    let q = n / 4;
    let r = n % 4;
    if r < 2 {
        q
    } else if r == 3 {
        q + 1
    } else if q % 2 == 0 {
        q
    } else {
        q + 1
    }
}

/// The i-th of the five tick values of `[x_min, x_max]`, in quarters: the
/// fraction i/4 of the span above the lower bound.
pub open spec fn x_tick_spec(x_min: u64, x_max: u64, i: int) -> int {
    quarters_rounded(4 * x_min + i * (x_max - x_min))
}

/// Compute the visible x-range: a full-width window even before `width`
/// samples exist, sliding once the counter passes the width.
pub fn x_window(count: u64, width: u64) -> (w: XWindow)
    ensures
        w.x_min == x_min_spec(count, width),
        w.x_max == x_max_spec(count, width),
        w.x_max - w.x_min == width,
        w.x_min <= count <= w.x_max,
{
    if count > width {
        XWindow { x_min: count - width, x_max: count }
    } else {
        XWindow { x_min: 0, x_max: width }
    }
}

/// The five x-axis tick values of the window, at the fractions 0, 1/4, 1/2,
/// 3/4 and 1 of the span; each lies within the window's bounds.
pub fn x_tick_values(w: &XWindow) -> (ticks: Vec<u64>)
    requires
        w.x_min <= w.x_max,
    ensures
        ticks@.len() == 5,
        forall|i: int| 0 <= i < 5 ==> ticks@[i] == x_tick_spec(w.x_min, w.x_max, i),
{
    let span = w.x_max - w.x_min;
    let mut ticks: Vec<u64> = Vec::new();
    let mut i: usize = 0;
    while i < 5
        invariant
            i <= 5,
            w.x_min <= w.x_max,
            span == w.x_max - w.x_min,
            ticks@.len() == i,
            forall|k: int| 0 <= k < i ==> ticks@[k] == x_tick_spec(w.x_min, w.x_max, k),
        decreases 5 - i,
    {
        proof {
            assert((i as u128) * (span as u128) <= 4 * (span as u128)) by (nonlinear_arith)
                requires
                    i < 5,
                    span >= 0,
            ;
        }
        let n: u128 = 4 * (w.x_min as u128) + (i as u128) * (span as u128);
        proof {
            assert(n <= 4 * (w.x_max as u128));
        }
        let q: u128 = n / 4;
        let r: u128 = n % 4;
        let tick: u128 = if r < 2 {
            q
        } else if r == 3 {
            q + 1
        } else if q % 2 == 0 {
            q
        } else {
            q + 1
        };
        proof {
            assert(q <= w.x_max);
            assert(r != 0 ==> n < 4 * (w.x_max as u128));
            assert(r != 0 ==> q < w.x_max);
            assert(tick <= w.x_max);
            assert(tick as int == x_tick_spec(w.x_min, w.x_max, i as int));
        }
        ticks.push(tick as u64);
        i = i + 1;
    }
    ticks
}

/// The decimal digits of `n`, most significant first, as ASCII bytes.
pub open spec fn dec_bytes(n: int) -> Seq<u8>
    decreases n,
{
    if n < 10 {
        seq![(0x30 + n) as u8]
    } else {
        dec_bytes(n / 10).push((0x30 + n % 10) as u8)
    }
}

/// Render `n` in decimal, most significant digit first.
pub fn u64_to_dec(n: u64) -> (s: Vec<u8>)
    ensures
        s@ == dec_bytes(n as int),
{
    let mut rev: Vec<u8> = Vec::new();
    let mut m: u64 = n;
    proof {
        assert(dec_bytes(n as int) =~= dec_bytes(m as int) + rev@.reverse());
    }
    while m >= 10
        invariant
            dec_bytes(n as int) == dec_bytes(m as int) + rev@.reverse(),
        decreases m,
    {
        let ghost rev_before = rev@;
        let d = (0x30 + m % 10) as u8;
        rev.push(d);
        proof {
            assert(rev@.reverse() =~= seq![d] + rev_before.reverse());
            assert(dec_bytes(m as int / 10) + (seq![d] + rev_before.reverse())
                =~= dec_bytes(m as int / 10).push(d) + rev_before.reverse());
        }
        m = m / 10;
    }
    let d = (0x30 + m) as u8;
    let ghost rev_before = rev@;
    rev.push(d);
    proof {
        assert(rev@.reverse() =~= seq![d] + rev_before.reverse());
        assert(dec_bytes(n as int) =~= rev@.reverse());
    }
    let mut s: Vec<u8> = Vec::new();
    let mut k: usize = rev.len();
    while k > 0
        invariant
            k <= rev@.len(),
            s@.len() == rev@.len() - k,
            forall|x: int| 0 <= x < s@.len() ==> s@[x] == rev@[rev@.len() - 1 - x],
        decreases k,
    {
        k = k - 1;
        s.push(rev[k]);
    }
    proof {
        assert(s@ =~= rev@.reverse());
    }
    s
}

/// The five x-axis tick labels: the tick values rendered as decimal integers.
pub fn x_tick_labels(w: &XWindow) -> (labels: Vec<Vec<u8>>)
    requires
        w.x_min <= w.x_max,
    ensures
        labels@.len() == 5,
        forall|i: int|
            0 <= i < 5 ==> (#[trigger] labels@[i])@ == dec_bytes(x_tick_spec(w.x_min, w.x_max, i)),
{
    let ticks = x_tick_values(w);
    let mut labels: Vec<Vec<u8>> = Vec::new();
    let mut i: usize = 0;
    while i < 5
        invariant
            i <= 5,
            ticks@.len() == 5,
            forall|k: int| 0 <= k < 5 ==> ticks@[k] == x_tick_spec(w.x_min, w.x_max, k),
            labels@.len() == i,
            forall|k: int|
                0 <= k < i ==> (#[trigger] labels@[k])@ == dec_bytes(x_tick_spec(w.x_min, w.x_max, k)),
        decreases 5 - i,
    {
        labels.push(u64_to_dec(ticks[i]));
        i = i + 1;
    }
    labels
}

} // verus!
