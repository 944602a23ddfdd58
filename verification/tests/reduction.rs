//! The per-pixel pass and its reduction: the histogram law, the combine
//! laws on concrete values, and the parallel pass against the sequential
//! one.

use mandelscope::fixed::{FixVec, FIX_ONE};
use mandelscope::iterate::{IterationResult, MandelIterator, ESCAPE_RADIUS2_MIN};
use mandelscope::reduce::{compute_iterations, compute_iterations_seq, ParIterResult, MIN_SMOOTH_INIT};
use mandelscope::viewbox::{ScreenVec, ViewBox};

const ONE: i64 = FIX_ONE;

fn small_view() -> ViewBox {
    ViewBox::from_center_size(
        ScreenVec::new(4, 4),
        ScreenVec::new(8, 8),
        FixVec::new(-3 * ONE / 4, 0),
        FixVec::new(5 * ONE / 2, 5 * ONE / 2),
    )
}

#[test]
fn histogram_sum_stays_under_the_pixel_count() {
    let vb = small_view();
    let it = MandelIterator::new(50, ESCAPE_RADIUS2_MIN);
    let mut counts: Vec<u64> = vec![0; vb.pixel_count];
    let acc = compute_iterations_seq(&vb, &it, &mut counts);
    let sum: u64 = acc.histogram.iter().sum();
    assert!(sum <= 64);
    // the histogram misses exactly the budget-exhausted pixels
    let maxed = counts.iter().filter(|&&c| c >= 50 * (ONE as u64)).count() as u64;
    assert_eq!(sum + maxed, 64);
}

#[test]
fn histogram_sums_to_the_pixel_count_when_nothing_exhausts() {
    // a view fully outside the set: every pixel escapes
    let vb = ViewBox::from_center_size(
        ScreenVec::new(4, 4),
        ScreenVec::new(8, 8),
        FixVec::new(10 * ONE, 10 * ONE),
        FixVec::new(ONE, ONE),
    );
    let it = MandelIterator::new(50, ESCAPE_RADIUS2_MIN);
    let mut counts: Vec<u64> = vec![0; vb.pixel_count];
    let acc = compute_iterations_seq(&vb, &it, &mut counts);
    let sum: u64 = acc.histogram.iter().sum();
    assert_eq!(sum, 64);
}

fn result(iterations: usize, smooth: u64, computed: usize) -> IterationResult {
    IterationResult { iterations, smooth, computed }
}

#[test]
fn add_folds_one_outcome() {
    let acc = ParIterResult::new(10);
    let acc = acc.add(result(3, 7, 3));
    assert_eq!(acc.histogram[3], 1);
    assert_eq!(acc.min_smooth, 7);
    assert_eq!(acc.max_smooth, 7);
    assert_eq!(acc.computed_iteration_count, 3);
    // a budget-exhausted point stays out of the histogram and extremes
    let acc = acc.add(result(10, 0, 10));
    assert_eq!(acc.histogram.iter().sum::<u64>(), 1);
    assert_eq!(acc.min_smooth, 7);
    assert_eq!(acc.computed_iteration_count, 13);
}

fn sample_accs() -> (ParIterResult, ParIterResult, ParIterResult) {
    let a = ParIterResult::new(4).add(result(1, 5, 1)).add(result(2, 9, 2));
    let b = ParIterResult::new(4).add(result(1, 3, 1));
    let c = ParIterResult::new(4).add(result(3, 12, 3)).add(result(4, 0, 4));
    (a, b, c)
}

fn snapshot(p: &ParIterResult) -> (Vec<u64>, u64, u64, u64) {
    (p.histogram.clone(), p.min_smooth, p.max_smooth, p.computed_iteration_count)
}

#[test]
fn combine_is_commutative() {
    let (a, b, _) = sample_accs();
    let (a2, b2, _) = sample_accs();
    let ab = snapshot(&a.combine(&b));
    let ba = snapshot(&b2.combine(&a2));
    assert_eq!(ab, ba);
}

#[test]
fn combine_is_associative() {
    let (a, b, c) = sample_accs();
    let (a2, b2, c2) = sample_accs();
    let bc = b.combine(&c);
    let left = snapshot(&a.combine(&bc));
    let ab = a2.combine(&b2);
    let right = snapshot(&ab.combine(&c2));
    assert_eq!(left, right);
}

#[test]
fn combine_with_empty_is_identity() {
    let (a, _, _) = sample_accs();
    let before = snapshot(&a);
    let merged = a.combine(&ParIterResult::new(4));
    assert_eq!(snapshot(&merged), before);
    assert_eq!(merged.min_smooth < MIN_SMOOTH_INIT, true);
}

#[test]
fn parallel_pass_matches_sequential_pass() {
    let vb = small_view();
    let it = MandelIterator::new(80, ESCAPE_RADIUS2_MIN);
    let mut seq_counts: Vec<u64> = vec![0; vb.pixel_count];
    let seq = compute_iterations_seq(&vb, &it, &mut seq_counts);
    let mut par_counts: Vec<u64> = vec![0; vb.pixel_count];
    let par = compute_iterations(&vb, &it, &mut par_counts);
    // the parallel pass must fill the buffer (not hand it back untouched)
    assert!(par_counts.iter().any(|&c| c != 0));
    assert_eq!(seq_counts, par_counts);
    assert_eq!(seq.histogram, par.histogram);
    assert_eq!(seq.min_smooth, par.min_smooth);
    assert_eq!(seq.max_smooth, par.max_smooth);
    assert_eq!(seq.computed_iteration_count, par.computed_iteration_count);
}
