use streamplot::control::{decide, LoopDecision, CONTROL_SENTINEL};
use streamplot::engine::Engine;
use streamplot::render::build_render_set;
use streamplot::store::{Sample, SeriesStore};
use streamplot::window::{u64_to_dec, x_tick_labels, x_tick_values, x_window, XWindow};

/// What the application does with a completed line's tokens: parse each as a
/// 64-bit float, drop the failures, carry the successes as bit patterns.
fn parse_values(tokens: &[Vec<u8>]) -> Vec<u64> {
    tokens
        .iter()
        .filter_map(|t| std::str::from_utf8(t).ok())
        .filter_map(|s| s.parse::<f64>().ok())
        .map(f64::to_bits)
        .collect()
}

/// Drive one text line through the engine as the application would; returns
/// whether the line owed a redraw.
fn feed_line(e: &mut Engine, line: &str, width: u64) -> bool {
    let mut redraw = false;
    for &b in line.as_bytes() {
        if let Some(tokens) = e.on_data_byte(b) {
            let values = parse_values(&tokens);
            redraw = e.ingest(&values, width);
        }
    }
    redraw
}

fn positions(samples: &[Sample]) -> Vec<u64> {
    samples.iter().map(|s| s.position).collect()
}

fn values(samples: &[Sample]) -> Vec<f64> {
    samples.iter().map(|s| f64::from_bits(s.value)).collect()
}

#[test]
fn round_trip_two_lines() {
    let mut e = Engine::new();
    assert!(feed_line(&mut e, "1.0 2.0 3.0\n", 100));
    assert!(feed_line(&mut e, "4.0\n", 100));
    assert_eq!(e.store.series.len(), 3);
    assert_eq!(values(&e.store.series[0].samples), vec![1.0, 4.0]);
    assert_eq!(values(&e.store.series[1].samples), vec![2.0]);
    assert_eq!(values(&e.store.series[2].samples), vec![3.0]);
    assert_eq!(positions(&e.store.series[0].samples), vec![0, 1]);
    assert_eq!(positions(&e.store.series[1].samples), vec![0]);
    assert_eq!(positions(&e.store.series[2].samples), vec![0]);
}

#[test]
fn malformed_tokens_transparent() {
    let mut noisy = Engine::new();
    let mut clean = Engine::new();
    assert!(feed_line(&mut noisy, "abc 2.0 xyz\n", 100));
    assert!(feed_line(&mut clean, "2.0\n", 100));
    assert_eq!(noisy.count, clean.count);
    assert_eq!(noisy.store.series.len(), clean.store.series.len());
    assert_eq!(noisy.store.series[0].samples, clean.store.series[0].samples);
}

#[test]
fn all_malformed_line_is_skipped() {
    let mut e = Engine::new();
    assert!(!feed_line(&mut e, "abc xyz\n", 100));
    assert_eq!(e.count, 0);
    assert_eq!(e.store.series.len(), 0);
}

#[test]
fn empty_line_is_skipped() {
    let mut e = Engine::new();
    assert!(!feed_line(&mut e, "\n", 100));
    assert!(!feed_line(&mut e, "   \n", 100));
    assert_eq!(e.count, 0);
    assert_eq!(e.store.series.len(), 0);
}

#[test]
fn window_boundary() {
    let w = x_window(15, 10);
    assert_eq!(w, XWindow { x_min: 5, x_max: 15 });

    let mut store = SeriesStore::new();
    store.apply(&vec![1.5f64.to_bits()], 4, 0);
    store.apply(&vec![2.5f64.to_bits()], 5, 5);
    // the sample at position 4 was trimmed, the one at position 5 retained
    assert_eq!(positions(&store.series[0].samples), vec![5]);
}

#[test]
fn full_width_window_before_enough_samples() {
    let w = x_window(3, 10);
    assert_eq!(w, XWindow { x_min: 0, x_max: 10 });
}

#[test]
fn series_count_never_decreases() {
    let mut e = Engine::new();
    feed_line(&mut e, "1 2 3\n", 100);
    assert_eq!(e.store.series.len(), 3);
    feed_line(&mut e, "9\n", 100);
    assert_eq!(e.store.series.len(), 3);
    feed_line(&mut e, "1 2 3 4\n", 100);
    assert_eq!(e.store.series.len(), 4);
}

#[test]
fn trim_respects_window() {
    let mut e = Engine::new();
    for k in 0..5 {
        feed_line(&mut e, &format!("{}\n", k), 2);
    }
    // five lines at width 2: the last cycle ran at count 4, so x_min was 2
    assert_eq!(positions(&e.store.series[0].samples), vec![2, 3, 4]);
    for s in &e.store.series[0].samples {
        assert!(s.position >= 2);
    }
}

#[test]
fn control_sentinel_priority() {
    assert_eq!(decide(Some(CONTROL_SENTINEL), Some(b'1')), LoopDecision::Quit);
    assert_eq!(decide(Some(CONTROL_SENTINEL), None), LoopDecision::Quit);
    assert_eq!(decide(Some(0x01), Some(b'2')), LoopDecision::ProcessData(b'2'));
    assert_eq!(decide(None, Some(b'2')), LoopDecision::ProcessData(b'2'));
    assert_eq!(decide(Some(0x01), None), LoopDecision::Wait);
    assert_eq!(decide(None, None), LoopDecision::Wait);
}

#[test]
fn shutdown_skips_queued_data() {
    // the control queue holds the sentinel while data bytes are still queued:
    // the loop exits before any of them is processed and nothing is redrawn
    let mut e = Engine::new();
    let mut control: std::collections::VecDeque<u8> = vec![CONTROL_SENTINEL].into();
    let mut data: std::collections::VecDeque<u8> = b"1.0 2.0\n".to_vec().into();
    let mut redraws = 0;
    loop {
        match decide(control.pop_front(), data.pop_front()) {
            LoopDecision::Quit => break,
            LoopDecision::ProcessData(b) => {
                if let Some(tokens) = e.on_data_byte(b) {
                    let values = parse_values(&tokens);
                    if e.ingest(&values, 100) {
                        redraws += 1;
                    }
                }
            }
            LoopDecision::Wait => break,
        }
    }
    assert_eq!(redraws, 0);
    assert_eq!(e.count, 0);
    assert_eq!(e.store.series.len(), 0);
    assert!(!data.is_empty());
}

#[test]
fn tokenizer_splits_on_whitespace() {
    let mut e = Engine::new();
    for &b in b" a  bb\tc " {
        assert!(e.on_data_byte(b).is_none());
    }
    let tokens = e.on_data_byte(b'\n').unwrap();
    assert_eq!(tokens, vec![b"a".to_vec(), b"bb".to_vec(), b"c".to_vec()]);
    // the buffer was reset: the next line starts fresh
    let tokens = e.on_data_byte(b'\n').unwrap();
    assert!(tokens.is_empty());
}

#[test]
fn buffer_reset_even_without_tokens() {
    let mut e = Engine::new();
    for &b in b"abc" {
        e.on_data_byte(b);
    }
    let tokens = e.on_data_byte(b'\n').unwrap();
    assert_eq!(tokens, vec![b"abc".to_vec()]);
    // nothing of "abc" leaks into the next line
    for &b in b"2.0" {
        e.on_data_byte(b);
    }
    let tokens = e.on_data_byte(b'\n').unwrap();
    assert_eq!(tokens, vec![b"2.0".to_vec()]);
}

#[test]
fn tick_values_round_half_to_even() {
    let w = x_window(15, 10);
    assert_eq!(x_tick_values(&w), vec![5, 8, 10, 12, 15]);
    let w = x_window(0, 8);
    assert_eq!(x_tick_values(&w), vec![0, 2, 4, 6, 8]);
}

#[test]
fn tick_values_match_float_formatting() {
    for (count, width) in [(0u64, 8u64), (15, 10), (3, 7), (1000, 113), (9, 9)] {
        let w = x_window(count, width);
        let ticks = x_tick_values(&w);
        for i in 0..5 {
            let step = i as f64 * 0.25;
            let float_label =
                format!("{:.0}", step * (w.x_max as f64 - w.x_min as f64) + w.x_min as f64);
            assert_eq!(format!("{}", ticks[i]), float_label);
        }
    }
}

#[test]
fn tick_labels_are_decimal_ascii() {
    let w = x_window(15, 10);
    let labels = x_tick_labels(&w);
    let texts: Vec<String> = labels
        .iter()
        .map(|l| String::from_utf8(l.clone()).unwrap())
        .collect();
    assert_eq!(texts, vec!["5", "8", "10", "12", "15"]);
}

#[test]
fn decimal_rendering() {
    assert_eq!(u64_to_dec(0), b"0".to_vec());
    assert_eq!(u64_to_dec(7), b"7".to_vec());
    assert_eq!(u64_to_dec(10), b"10".to_vec());
    assert_eq!(u64_to_dec(18446744073709551615), b"18446744073709551615".to_vec());
}

#[test]
fn current_is_last_sample() {
    let mut e = Engine::new();
    feed_line(&mut e, "1.0\n", 100);
    feed_line(&mut e, "42.5\n", 100);
    let cur = e.store.series[0].current().unwrap();
    assert_eq!(f64::from_bits(cur), 42.5);
}

#[test]
fn current_of_empty_series_is_none() {
    let mut store = SeriesStore::new();
    store.apply(&vec![1.0f64.to_bits()], 0, 0);
    // everything ages out of the window
    store.apply(&vec![], 5, 5);
    assert!(store.series[0].current().is_none());
}

#[test]
fn render_set_skips_empty_series() {
    let mut store = SeriesStore::new();
    let a = 1.0f64.to_bits();
    let b = 2.0f64.to_bits();
    let c = 3.0f64.to_bits();
    store.apply(&vec![a, b], 0, 0);
    // the next line only reaches column 0, and trimming empties column 1
    store.apply(&vec![c], 5, 5);
    let out = build_render_set(&store);
    assert_eq!(out.len(), 1);
    assert_eq!(out[0].series_index, 0);
    assert_eq!(out[0].color_index, 0);
    assert_eq!(positions(&out[0].points), vec![5]);
    assert_eq!(values(&out[0].points), vec![3.0]);
}

#[test]
fn render_colors_cycle_round_robin() {
    let mut e = Engine::new();
    feed_line(&mut e, "1 2 3 4 5 6 7 8 9\n", 100);
    let out = build_render_set(&e.store);
    assert_eq!(out.len(), 9);
    for (i, r) in out.iter().enumerate() {
        assert_eq!(r.series_index, i);
        assert_eq!(r.color_index, i % 7);
    }
}

#[test]
fn window_at_extreme_counts() {
    let w = x_window(u64::MAX, 10);
    assert_eq!(w, XWindow { x_min: u64::MAX - 10, x_max: u64::MAX });
    let ticks = x_tick_values(&XWindow { x_min: u64::MAX - 4, x_max: u64::MAX });
    assert_eq!(
        ticks,
        vec![u64::MAX - 4, u64::MAX - 3, u64::MAX - 2, u64::MAX - 1, u64::MAX]
    );
}

#[test]
fn zero_width_window_keeps_newest_sample() {
    let w = x_window(5, 0);
    assert_eq!(w, XWindow { x_min: 5, x_max: 5 });
    let mut e = Engine::new();
    for k in 0..3 {
        feed_line(&mut e, &format!("{}\n", k), 0);
    }
    assert_eq!(positions(&e.store.series[0].samples), vec![2]);
}

#[test]
fn special_float_tokens_parse() {
    // parsing is the application's job; the store carries any bit pattern
    let mut e = Engine::new();
    feed_line(&mut e, "inf -0.0 NaN\n", 100);
    assert_eq!(e.store.series.len(), 3);
    let vals = values(&e.store.series[0].samples);
    assert_eq!(vals, vec![f64::INFINITY]);
    let v2 = values(&e.store.series[2].samples);
    assert!(v2[0].is_nan());
}
