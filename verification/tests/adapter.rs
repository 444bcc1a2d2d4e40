//! Tests of the progress adapter: configuration, production steps, and the
//! rendered frames.

use progress::adapter::Progress;
use progress::adapter::ProgressIteratorExt;
use progress::producer::Producer;
use progress::producer::VecProducer;

#[test]
fn new_starts_unbounded_at_zero() {
    let p = Progress::new(VecProducer::new(vec![1, 2, 3]));
    assert_eq!(p.i, 0);
    assert_eq!(p.bound.bar, "*");
}

#[test]
fn progress_call_matches_new() {
    let p = VecProducer::new(vec![7, 8]).progress();
    assert_eq!(p.i, 0);
    assert_eq!(p.bound.bar, "*");
}

#[test]
fn unbounded_frames_grow_one_glyph_per_step() {
    let mut p = VecProducer::new(vec![1, 2]).progress().with_bars_of("+");
    let (f0, i0) = p.next();
    let (f1, i1) = p.next();
    let (f2, i2) = p.next();
    assert_eq!(f0, "");
    assert_eq!(f1, "+");
    assert_eq!(f2, "++");
    assert_eq!(i0, Some(1));
    assert_eq!(i1, Some(2));
    assert_eq!(i2, None);
}

#[test]
fn unbounded_keeps_rendering_after_exhaustion() {
    let mut p = VecProducer::new(Vec::<i32>::new()).progress();
    let (f0, i0) = p.next();
    let (f1, i1) = p.next();
    assert_eq!(f0, "");
    assert_eq!(f1, "*");
    assert_eq!(i0, None);
    assert_eq!(i1, None);
    assert_eq!(p.i, 2);
}

#[test]
fn with_bound_takes_remaining_length() {
    let p = VecProducer::new(vec![1, 2, 3]).progress().with_bound();
    assert_eq!(p.bound.bound, 3);
    assert_eq!(p.bound.delims, ('[', ']'));
}

#[test]
fn with_bound_reflects_remaining_not_original_length() {
    let mut p = VecProducer::new(vec![1, 2, 3]).progress();
    let (_, first) = p.next();
    assert_eq!(first, Some(1));
    let b = p.with_bound();
    assert_eq!(b.bound.bound, 2);
    assert_eq!(b.i, 1);
}

#[test]
fn with_bound_keeps_fill_glyph() {
    let p = VecProducer::new(vec![1]).progress().with_bars_of("#").with_bound();
    assert_eq!(p.bound.bar, "#");
}

#[test]
fn fill_last_wins_unbounded() {
    let p = VecProducer::new(vec![1]).progress().with_bars_of("a").with_bars_of("b");
    assert_eq!(p.bound.bar, "b");
    assert_eq!(p.i, 0);
}

#[test]
fn fill_last_wins_bounded() {
    let p = VecProducer::new(vec![1]).progress().with_bound().with_bars_of("a").with_bars_of("b");
    assert_eq!(p.bound.bar, "b");
}

#[test]
fn delims_last_wins() {
    let p = VecProducer::new(vec![1])
        .progress()
        .with_bound()
        .with_delims(('(', ')'))
        .with_delims(('<', '>'));
    assert_eq!(p.bound.delims, ('<', '>'));
}

#[test]
fn positions_increase_by_one_per_step() {
    let mut p = VecProducer::new(vec![5, 6, 7]).progress();
    let mut seen = Vec::new();
    loop {
        seen.push(p.i);
        let (_, item) = p.next();
        if item.is_none() {
            break;
        }
    }
    assert_eq!(seen, vec![0, 1, 2, 3]);
    assert_eq!(p.i, 4);
}

#[test]
fn bounded_consume_renders_the_expected_frames() {
    let adapter = VecProducer::new(vec![10, 20, 30])
        .progress()
        .with_bound()
        .with_delims(('[', ']'))
        .with_bars_of("=");
    let (frames, items) = adapter.consume();
    assert_eq!(frames, vec!["[   ]", "[=  ]", "[== ]", "[===]"]);
    assert_eq!(items, vec![10, 20, 30]);
}

#[test]
fn bounded_consume_of_empty_producer() {
    let adapter = VecProducer::new(Vec::<i32>::new()).progress().with_bound();
    let (frames, items) = adapter.consume();
    assert_eq!(frames, vec!["[]"]);
    assert_eq!(items, Vec::<i32>::new());
}

#[test]
fn unbounded_consume_counts_every_step() {
    let adapter = VecProducer::new(vec![1, 2]).progress();
    let (frames, items) = adapter.consume();
    assert_eq!(frames, vec!["", "*", "**"]);
    assert_eq!(items, vec![1, 2]);
}

#[test]
fn vec_producer_hands_items_out_in_order() {
    let mut p = VecProducer::new(vec![4, 5]);
    assert_eq!(p.produce(), Some(4));
    assert_eq!(p.produce(), Some(5));
    assert_eq!(p.produce(), None);
    assert_eq!(p.produce(), None);
}
