//! The per-pixel pass and its reduction.
//!
//! Every pixel of the view is iterated independently; the outcomes fold
//! into one accumulator: a histogram of escape times, the extremes of the
//! smooth corrections, and the total number of loop steps actually run.
//! Points that exhaust the budget stay out of the histogram.  The combine
//! operation on two accumulators is commutative and associative (proved
//! below), so a parallel reduction returns exactly what the sequential
//! fold returns, whatever the partition and order.

use vstd::prelude::*;

use rayon::iter::{IndexedParallelIterator, IntoParallelRefMutIterator, ParallelIterator};

verus! {

use crate::fixed::FIX_ONE;
use crate::iterate::{IterationResult, MandelIterator, iter_result_spec, lemma_iter_result_bounds, CYCLE_EPSILON, MAX_ITERATIONS_LIMIT};
use crate::viewbox::ViewBox;

/// The sentinel the smooth minimum starts from; every real smooth value
/// (at most one) is far below it.
pub const MIN_SMOOTH_INIT: u64 = 0x64_0000_0000;

/// The reduction state, in spec form: exact integers, no widths.
#[verifier::ext_equal]
pub ghost struct ParView {
    pub histogram: Seq<int>,
    pub min_smooth: int,
    pub max_smooth: int,
    pub computed: int,
}

/// A partial reduction result: the histogram of escape times, the extreme
/// smooth corrections seen, and the summed per-point work.
pub struct ParIterResult {
    pub histogram: Vec<u64>,
    pub min_smooth: u64,
    pub max_smooth: u64,
    pub computed_iteration_count: u64,
}

impl View for ParIterResult {
    type V = ParView;

    open spec fn view(&self) -> ParView {
        ParView {
            histogram: self.histogram@.map_values(|v: u64| v as int),
            min_smooth: self.min_smooth as int,
            max_smooth: self.max_smooth as int,
            computed: self.computed_iteration_count as int,
        }
    }
}

/// The accumulator every fold starts from: an all-zero histogram with one
/// bucket per possible escape time, extremes at their sentinels, no work.
pub open spec fn empty_par_view(max: nat) -> ParView {
    ParView {
        histogram: Seq::new(max, |k: int| 0),
        min_smooth: MIN_SMOOTH_INIT as int,
        max_smooth: 0,
        computed: 0,
    }
}

/// Folding one point into an accumulator.  A point that exhausted the
/// budget (its escape time equals the histogram length) is left out of the
/// histogram and of the smooth extremes; its work still counts.
pub open spec fn add_spec(a: ParView, r: IterationResult) -> ParView {
    let in_hist = (r.iterations as int) < a.histogram.len();
    ParView {
        histogram: if in_hist {
            a.histogram.update(r.iterations as int, a.histogram[r.iterations as int] + 1)
        } else {
            a.histogram
        },
        min_smooth: if in_hist && (r.smooth as int) < a.min_smooth {
            r.smooth as int
        } else {
            a.min_smooth
        },
        max_smooth: if in_hist && (r.smooth as int) > a.max_smooth {
            r.smooth as int
        } else {
            a.max_smooth
        },
        computed: a.computed + r.computed,
    }
}

/// Merging two accumulators: histograms sum elementwise, extremes take the
/// minimum and maximum, work sums.
pub open spec fn combine_spec(a: ParView, b: ParView) -> ParView {
    ParView {
        histogram: Seq::new(a.histogram.len(), |k: int| a.histogram[k] + b.histogram[k]),
        min_smooth: if b.min_smooth < a.min_smooth {
            b.min_smooth
        } else {
            a.min_smooth
        },
        max_smooth: if b.max_smooth > a.max_smooth {
            b.max_smooth
        } else {
            a.max_smooth
        },
        computed: a.computed + b.computed,
    }
}

/// Merging partial results is commutative, so the order in which workers
/// finish cannot change the reduction.
pub proof fn lemma_combine_commutative(a: ParView, b: ParView)
    requires
        a.histogram.len() == b.histogram.len(),
    ensures
        combine_spec(a, b) == combine_spec(b, a),
{
    assert(combine_spec(a, b).histogram =~= combine_spec(b, a).histogram);
    assert(combine_spec(a, b) =~= combine_spec(b, a));
}

/// Merging partial results is associative, so how the pixel range is
/// partitioned across workers cannot change the reduction.
pub proof fn lemma_combine_associative(a: ParView, b: ParView, c: ParView)
    requires
        a.histogram.len() == b.histogram.len(),
        b.histogram.len() == c.histogram.len(),
    ensures
        combine_spec(a, combine_spec(b, c)) == combine_spec(combine_spec(a, b), c),
{
    assert(combine_spec(a, combine_spec(b, c)).histogram =~= combine_spec(
        combine_spec(a, b),
        c,
    ).histogram);
    assert(combine_spec(a, combine_spec(b, c)) =~= combine_spec(combine_spec(a, b), c));
}

/// Merging with an empty accumulator changes nothing, so the per-worker
/// seed of a parallel fold is harmless.
pub proof fn lemma_combine_identity(a: ParView)
    requires
        forall|k: int| 0 <= k < a.histogram.len() ==> #[trigger] a.histogram[k] >= 0,
        0 <= a.min_smooth <= MIN_SMOOTH_INIT,
        0 <= a.max_smooth,
        0 <= a.computed,
    ensures
        combine_spec(a, empty_par_view(a.histogram.len() as nat)) == a,
        combine_spec(empty_par_view(a.histogram.len() as nat), a) == a,
{
    assert(combine_spec(a, empty_par_view(a.histogram.len() as nat)).histogram =~= a.histogram);
    assert(combine_spec(empty_par_view(a.histogram.len() as nat), a).histogram =~= a.histogram);
    assert(combine_spec(a, empty_par_view(a.histogram.len() as nat)) =~= a);
    assert(combine_spec(empty_par_view(a.histogram.len() as nat), a) =~= a);
}

impl ParIterResult {
    /// A fresh accumulator with one histogram bucket per escape time.
    pub fn new(max_iterations: usize) -> (r: ParIterResult)
        ensures
            r@ == empty_par_view(max_iterations as nat),
            r.histogram@.len() == max_iterations,
    {
        let mut histogram: Vec<u64> = Vec::new();
        let mut k: usize = 0;
        while k < max_iterations
            invariant
                k <= max_iterations,
                histogram@.len() == k,
                forall|j: int| 0 <= j < k ==> histogram@[j] == 0,
            decreases max_iterations - k,
        {
            histogram.push(0);
            k = k + 1;
        }
        let r = ParIterResult {
            histogram,
            min_smooth: MIN_SMOOTH_INIT,
            max_smooth: 0,
            computed_iteration_count: 0,
        };
        proof {
            assert(r@.histogram =~= empty_par_view(max_iterations as nat).histogram);
            assert(r@ =~= empty_par_view(max_iterations as nat));
        }
        r
    }

    /// Folds one per-point outcome into the accumulator.
    pub fn add(self, iter_res: IterationResult) -> (r: ParIterResult)
        requires
            self.computed_iteration_count + iter_res.computed <= u64::MAX,
            (iter_res.iterations as int) < self.histogram@.len() ==> self.histogram@[iter_res.iterations as int] < u64::MAX,
        ensures
            r@ == add_spec(self@, iter_res),
            r.histogram@.len() == self.histogram@.len(),
    {
        let mut acc = self;
        if iter_res.iterations < acc.histogram.len() {
            let prev = acc.histogram[iter_res.iterations];
            acc.histogram.set(iter_res.iterations, prev + 1);
            if iter_res.smooth > acc.max_smooth {
                acc.max_smooth = iter_res.smooth;
            }
            if iter_res.smooth < acc.min_smooth {
                acc.min_smooth = iter_res.smooth;
            }
        }
        acc.computed_iteration_count = acc.computed_iteration_count + (iter_res.computed as u64);
        proof {
            assert(acc@.histogram =~= add_spec(self@, iter_res).histogram);
            assert(acc@ =~= add_spec(self@, iter_res));
        }
        acc
    }

    /// Merges another partial result into this one.
    #[verifier::loop_isolation(false)]
    pub fn combine(self, other: &ParIterResult) -> (r: ParIterResult)
        requires
            self.histogram@.len() == other.histogram@.len(),
            forall|k: int| 0 <= k < self.histogram@.len()
                ==> #[trigger] self.histogram@[k] + other.histogram@[k] <= u64::MAX,
            self.computed_iteration_count + other.computed_iteration_count <= u64::MAX,
        ensures
            r@ == combine_spec(self@, other@),
            r.histogram@.len() == self.histogram@.len(),
    {
        let mut acc = self;
        let ghost orig = acc.histogram@;
        let mut i: usize = 0;
        while i < acc.histogram.len()
            invariant
                acc.histogram@.len() == orig.len(),
                orig.len() == other.histogram@.len(),
                i <= orig.len(),
                forall|k: int| 0 <= k < orig.len()
                    ==> #[trigger] orig[k] + other.histogram@[k] <= u64::MAX,
                forall|k: int| 0 <= k < i ==> acc.histogram@[k] == orig[k] + other.histogram@[k],
                forall|k: int| i <= k < orig.len() ==> acc.histogram@[k] == orig[k],
                acc.min_smooth == self.min_smooth,
                acc.max_smooth == self.max_smooth,
                acc.computed_iteration_count == self.computed_iteration_count,
            decreases orig.len() - i,
        {
            proof {
                assert(orig[i as int] + other.histogram@[i as int] <= u64::MAX);
            }
            let v = acc.histogram[i] + other.histogram[i];
            acc.histogram.set(i, v);
            i = i + 1;
        }
        if other.min_smooth < acc.min_smooth {
            acc.min_smooth = other.min_smooth;
        }
        if other.max_smooth > acc.max_smooth {
            acc.max_smooth = other.max_smooth;
        }
        acc.computed_iteration_count = acc.computed_iteration_count
            + other.computed_iteration_count;
        proof {
            assert(acc@.histogram =~= combine_spec(self@, other@).histogram);
            assert(acc@ =~= combine_spec(self@, other@));
        }
        acc
    }
}

/// The packed per-pixel iteration count: the integer escape time in the
/// high bits and the smooth fraction below, `iterations * 2^32 + smooth`.
pub open spec fn packed_count_spec(r: IterationResult) -> int {
    r.iterations * (FIX_ONE as int) + r.smooth
}

/// The packed form of one outcome.
pub fn packed_count(res: IterationResult) -> (r: u64)
    requires
        res.iterations <= MAX_ITERATIONS_LIMIT,
        res.smooth <= FIX_ONE,
    ensures
        r == packed_count_spec(res),
{
    proof {
        vstd::arithmetic::mul::lemma_mul_upper_bound(
            res.iterations as int,
            MAX_ITERATIONS_LIMIT as int,
            FIX_ONE as int,
            FIX_ONE as int,
        );
        vstd::arithmetic::mul::lemma_mul_nonnegative(res.iterations as int, FIX_ONE as int);
    }
    (res.iterations as u64) * (FIX_ONE as u64) + res.smooth
}

/// The outcome of the iterator on the plane point under pixel `i` of the
/// view.
pub open spec fn point_result_spec(vb: ViewBox, it: MandelIterator, i: int) -> IterationResult {
    iter_result_spec(
        vb.plane_x_spec(vb.pixel_x_for_index(i)),
        vb.plane_y_spec(vb.pixel_y_for_index(i)),
        it.escape_radius2 as int,
        CYCLE_EPSILON as int,
        it.max_iterations as nat,
    )
}

/// The packed counts buffer a recompute leaves behind.
pub open spec fn counts_spec(vb: ViewBox, it: MandelIterator) -> Seq<u64> {
    Seq::new(
        vb.pixel_count as nat,
        |i: int| packed_count_spec(point_result_spec(vb, it, i)) as u64,
    )
}

/// Every packed count stays under the renderer's cap.
pub proof fn lemma_counts_bounds(vb: ViewBox, it: MandelIterator)
    requires
        it.wf(),
    ensures
        forall|i: int| 0 <= i < vb.pixel_count ==> #[trigger] counts_spec(vb, it)[i]
            <= 0x20_0000_0000_0000u64,
        forall|i: int| 0 <= i < vb.pixel_count ==> #[trigger] counts_spec(vb, it)[i]
            == packed_count_spec(point_result_spec(vb, it, i)),
{
    assert forall|i: int| 0 <= i < vb.pixel_count implies #[trigger] counts_spec(vb, it)[i]
        <= 0x20_0000_0000_0000u64 && counts_spec(vb, it)[i] == packed_count_spec(
        point_result_spec(vb, it, i),
    ) by {
        lemma_iter_result_bounds(
            vb.plane_x_spec(vb.pixel_x_for_index(i)),
            vb.plane_y_spec(vb.pixel_y_for_index(i)),
            it.escape_radius2 as int,
            CYCLE_EPSILON as int,
            it.max_iterations as nat,
        );
        let p = point_result_spec(vb, it, i);
        vstd::arithmetic::mul::lemma_mul_upper_bound(
            p.iterations as int,
            MAX_ITERATIONS_LIMIT as int,
            FIX_ONE as int,
            FIX_ONE as int,
        );
        vstd::arithmetic::mul::lemma_mul_nonnegative(p.iterations as int, FIX_ONE as int);
    }
}

/// The sequential left fold of the first `n` pixels into the empty
/// accumulator: the reference that any reduction order must reproduce.
pub open spec fn reduce_spec(vb: ViewBox, it: MandelIterator, n: nat) -> ParView
    decreases n,
{
    if n == 0 {
        empty_par_view(it.max_iterations as nat)
    } else {
        add_spec(reduce_spec(vb, it, (n - 1) as nat), point_result_spec(vb, it, n - 1))
    }
}

/// Every field of the fold stays within plain bounds: histogram entries
/// count at most one hit per pixel, the work sum at most one budget per
/// pixel, and the smooth extremes stay between their sentinels.
pub proof fn lemma_reduce_bounds(vb: ViewBox, it: MandelIterator, n: nat)
    requires
        it.wf(),
    ensures
        ({
            let a = reduce_spec(vb, it, n);
            &&& a.histogram.len() == it.max_iterations
            &&& forall|k: int| 0 <= k < a.histogram.len() ==> 0 <= #[trigger] a.histogram[k] <= n
            &&& 0 <= a.computed <= n * (it.max_iterations as int)
            &&& 0 <= a.min_smooth <= MIN_SMOOTH_INIT
            &&& 0 <= a.max_smooth <= FIX_ONE
        }),
    decreases n,
{
    if n > 0 {
        lemma_reduce_bounds(vb, it, (n - 1) as nat);
        let p = point_result_spec(vb, it, n - 1);
        lemma_iter_result_bounds(
            vb.plane_x_spec(vb.pixel_x_for_index(n - 1)),
            vb.plane_y_spec(vb.pixel_y_for_index(n - 1)),
            it.escape_radius2 as int,
            CYCLE_EPSILON as int,
            it.max_iterations as nat,
        );
        assert((n - 1) * (it.max_iterations as int) + (it.max_iterations as int)
            == n * (it.max_iterations as int)) by (nonlinear_arith);
        assert(p.smooth <= FIX_ONE < MIN_SMOOTH_INIT);
    }
}

/// The sum of a histogram.
pub open spec fn seq_sum(s: Seq<int>) -> int
    decreases s.len(),
{
    if s.len() == 0 {
        0
    } else {
        s[0] + seq_sum(s.drop_first())
    }
}

/// Bumping one entry bumps the sum by the same amount.
pub proof fn lemma_seq_sum_update(s: Seq<int>, j: int, d: int)
    requires
        0 <= j < s.len(),
    ensures
        seq_sum(s.update(j, s[j] + d)) == seq_sum(s) + d,
    decreases s.len(),
{
    let t = s.update(j, s[j] + d);
    if j == 0 {
        assert(t.drop_first() =~= s.drop_first());
    } else {
        assert(t.drop_first() =~= s.drop_first().update(j - 1, s.drop_first()[j - 1] + d));
        lemma_seq_sum_update(s.drop_first(), j - 1, d);
    }
}

/// An all-zero histogram sums to zero.
pub proof fn lemma_seq_sum_zero(s: Seq<int>)
    requires
        forall|k: int| 0 <= k < s.len() ==> #[trigger] s[k] == 0,
    ensures
        seq_sum(s) == 0,
    decreases s.len(),
{
    if s.len() > 0 {
        lemma_seq_sum_zero(s.drop_first());
    }
}

/// How many of the first `n` pixels exhaust the iteration budget.
pub open spec fn count_maxed(vb: ViewBox, it: MandelIterator, n: nat) -> int
    decreases n,
{
    if n == 0 {
        0
    } else {
        count_maxed(vb, it, (n - 1) as nat) + if point_result_spec(vb, it, n - 1).iterations
            == it.max_iterations {
            1int
        } else {
            0int
        }
    }
}

/// Histogram law: the histogram counts exactly the pixels that escaped, so
/// its sum plus the number of budget-exhausted pixels is the pixel count.
/// In particular the sum never exceeds the pixel count, and equals it when
/// no pixel reached the full budget.
pub proof fn lemma_histogram_sum(vb: ViewBox, it: MandelIterator, n: nat)
    requires
        it.wf(),
    ensures
        seq_sum(reduce_spec(vb, it, n).histogram) + count_maxed(vb, it, n) == n,
        0 <= count_maxed(vb, it, n) <= n,
        seq_sum(reduce_spec(vb, it, n).histogram) <= n,
        count_maxed(vb, it, n) == 0 ==> seq_sum(reduce_spec(vb, it, n).histogram) == n,
    decreases n,
{
    if n == 0 {
        lemma_seq_sum_zero(empty_par_view(it.max_iterations as nat).histogram);
    } else {
        lemma_histogram_sum(vb, it, (n - 1) as nat);
        lemma_reduce_bounds(vb, it, (n - 1) as nat);
        let a = reduce_spec(vb, it, (n - 1) as nat);
        let p = point_result_spec(vb, it, n - 1);
        lemma_iter_result_bounds(
            vb.plane_x_spec(vb.pixel_x_for_index(n - 1)),
            vb.plane_y_spec(vb.pixel_y_for_index(n - 1)),
            it.escape_radius2 as int,
            CYCLE_EPSILON as int,
            it.max_iterations as nat,
        );
        if (p.iterations as int) < a.histogram.len() {
            lemma_seq_sum_update(a.histogram, p.iterations as int, 1);
        }
    }
}

/// The per-pixel pass, sequentially: iterates every pixel of the view,
/// stores each packed count, and folds the outcomes left to right.
#[verifier::loop_isolation(false)]
pub fn compute_iterations_seq(vb: &ViewBox, iterator: &MandelIterator, counts: &mut Vec<u64>) -> (r: ParIterResult)
    requires
        vb.wf(),
        iterator.wf(),
        old(counts)@.len() == vb.pixel_count,
    ensures
        final(counts)@.len() == vb.pixel_count,
        forall|i: int| 0 <= i < vb.pixel_count ==> final(counts)@[i] == packed_count_spec(
            #[trigger] point_result_spec(*vb, *iterator, i),
        ),
        r@ == reduce_spec(*vb, *iterator, vb.pixel_count as nat),
        r.histogram@.len() == iterator.max_iterations,
{
    let mut acc = ParIterResult::new(iterator.max_iterations);
    let mut i: usize = 0;
    while i < counts.len()
        invariant
            counts@.len() == vb.pixel_count,
            i <= vb.pixel_count,
            acc@ == reduce_spec(*vb, *iterator, i as nat),
            acc.histogram@.len() == iterator.max_iterations,
            forall|j: int| 0 <= j < i ==> counts@[j] == packed_count_spec(
                #[trigger] point_result_spec(*vb, *iterator, j),
            ),
        decreases counts@.len() - i,
    {
        let c = vb.mandel_point_from_index(i);
        let res = iterator.iter_to_divergence(c);
        proof {
            lemma_reduce_bounds(*vb, *iterator, i as nat);
            lemma_iter_result_bounds(
                vb.plane_x_spec(vb.pixel_x_for_index(i as int)),
                vb.plane_y_spec(vb.pixel_y_for_index(i as int)),
                iterator.escape_radius2 as int,
                CYCLE_EPSILON as int,
                iterator.max_iterations as nat,
            );
            vstd::arithmetic::mul::lemma_mul_upper_bound(
                vb.screen_size.x as int,
                16384,
                vb.screen_size.y as int,
                16384,
            );
            assert(acc@.computed <= (i as int) * (iterator.max_iterations as int));
            assert((i as int) * (iterator.max_iterations as int) + (iterator.max_iterations as int)
                <= 0x1000_0000 * (MAX_ITERATIONS_LIMIT as int)) by (nonlinear_arith)
                requires
                    i < 0x1000_0000,
                    iterator.max_iterations <= MAX_ITERATIONS_LIMIT,
            ;
            assert(acc@.histogram[res.iterations as int] <= i as int || res.iterations as int >= acc@.histogram.len());
        }
        counts.set(i, packed_count(res));
        acc = acc.add(res);
        i = i + 1;
    }
    acc
}

/// Relies on rayon's parallel iterator: `par_iter_mut` over the counts
/// buffer with `map`, `fold` and `reduce`.  Every pixel is computed
/// independently by the same pure per-point function of this crate; each
/// worker folds its share starting from the empty accumulator, and the
/// per-worker accumulators merge with `combine`.  The merge is commutative
/// and associative with the empty accumulator as identity
/// (`lemma_combine_commutative`, `lemma_combine_associative`,
/// `lemma_combine_identity`), so the reduction equals the sequential left
/// fold whatever rayon's partition and scheduling, and the buffer writes
/// are disjoint per pixel.
#[verifier::external_body]
pub fn compute_iterations(vb: &ViewBox, iterator: &MandelIterator, counts: &mut Vec<u64>) -> (r: ParIterResult)
    requires
        vb.wf(),
        iterator.wf(),
        old(counts)@.len() == vb.pixel_count,
    ensures
        final(counts)@.len() == vb.pixel_count,
        forall|i: int| 0 <= i < vb.pixel_count ==> final(counts)@[i] == packed_count_spec(
            #[trigger] point_result_spec(*vb, *iterator, i),
        ),
        r@ == reduce_spec(*vb, *iterator, vb.pixel_count as nat),
        r.histogram@.len() == iterator.max_iterations,
{
    counts
        .par_iter_mut()
        .enumerate()
        .map(|(i, slot)| {
            let res = iterator.iter_to_divergence(vb.mandel_point_from_index(i));
            *slot = packed_count(res);
            res
        })
        .fold(|| ParIterResult::new(iterator.max_iterations), |acc, elt| acc.add(elt))
        .reduce(|| ParIterResult::new(iterator.max_iterations), |acc, elt| acc.combine(&elt))
}

} // verus!
