//! Sums of products in an `i32` accumulator.
use crate::quantize::Quantized;
use vstd::prelude::*;

verus! {

/// Whether a sum can be held by the accumulator.
pub open spec fn fits(sum: int) -> bool {
    i32::MIN <= sum <= i32::MAX
}

/// The sum of the first `n` products of two sequences.
pub open spec fn dot(a: Seq<int>, b: Seq<int>, n: nat) -> int
    decreases n,
{
    if n == 0 {
        0
    } else {
        dot(a, b, (n - 1) as nat) + a[n - 1] * b[n - 1]
    }
}

/// Whether the accumulator can hold every partial sum when the first `n`
/// products of two sequences are added to `start` one by one.
pub open spec fn dot_fits(start: int, a: Seq<int>, b: Seq<int>, n: nat) -> bool {
    forall|k: nat| k <= n ==> fits(start + #[trigger] dot(a, b, k))
}

/// The sum of the first `n` values of a sequence.
pub open spec fn total(a: Seq<int>, n: nat) -> int
    decreases n,
{
    if n == 0 {
        0
    } else {
        total(a, (n - 1) as nat) + a[n - 1]
    }
}

/// Whether the accumulator can hold every partial sum when the first `n`
/// values of a sequence are added one by one.
pub open spec fn total_fits(a: Seq<int>, n: nat) -> bool {
    forall|k: nat| k <= n ==> fits(#[trigger] total(a, k))
}

/// The values of a row of elements, each less the zero point.
pub open spec fn centered<T: Quantized>(row: Seq<T>, zero_point: int) -> Seq<int> {
    Seq::new(row.len(), |c: int| row[c].value() - zero_point)
}

/// Adds the products of two rows, each centered at its zero point, to
/// `start`: `None` where the accumulator overflows on the way.
pub fn accumulate<T: Quantized, const CHANS: usize>(
    start: i32,
    samples: &[T; CHANS],
    samples_zero_point: T,
    weights: &[T; CHANS],
    weights_zero_point: T,
) -> (r: Option<i32>)
    ensures
        ({
            let a = centered(samples@, samples_zero_point.value());
            let b = centered(weights@, weights_zero_point.value());
            &&& r is Some <==> dot_fits(start as int, a, b, CHANS as nat)
            &&& r matches Some(sum) ==> sum == start + dot(a, b, CHANS as nat)
        }),
{
    let ghost a = centered(samples@, samples_zero_point.value());
    let ghost b = centered(weights@, weights_zero_point.value());
    let samples_zero: i32 = samples_zero_point.to_i32();
    let weights_zero: i32 = weights_zero_point.to_i32();
    let mut sum: i32 = start;
    let mut c: usize = 0;
    #[verifier::loop_isolation(false)]
    while c < CHANS
        invariant
            c <= CHANS,
            sum == start + dot(a, b, c as nat),
            dot_fits(start as int, a, b, c as nat),
        decreases CHANS - c,
    {
        let sample: i32 = samples[c].to_i32() - samples_zero;
        let weight: i32 = weights[c].to_i32() - weights_zero;
        assert(-150_000 <= sample * weight <= 150_000) by (nonlinear_arith)
            requires
                -383 <= sample <= 383,
                -383 <= weight <= 383,
        ;
        let product: i32 = sample * weight;
        assert(a[c as int] == sample && b[c as int] == weight);
        assert(dot(a, b, (c + 1) as nat) == dot(a, b, c as nat) + product);
        match sum.checked_add(product) {
            Some(next) => {
                sum = next;
            },
            None => {
                assert(!fits(start + dot(a, b, (c + 1) as nat)));
                return None;
            },
        }
        c += 1;
    }
    Some(sum)
}

/// The products with a row of zeros add up to nothing.
pub proof fn lemma_dot_zeros(a: Seq<int>, b: Seq<int>, n: nat)
    requires
        forall|i: int| 0 <= i < n ==> #[trigger] a[i] == 0,
    ensures
        dot(a, b, n) == 0,
    decreases n,
{
    if n > 0 {
        lemma_dot_zeros(a, b, (n - 1) as nat);
        assert(a[n - 1] * b[n - 1] == 0) by (nonlinear_arith)
            requires
                a[n - 1] == 0,
        ;
    }
}

/// The products of bounded values add up to a bounded sum.
pub proof fn lemma_dot_bound(a: Seq<int>, b: Seq<int>, bound: int, n: nat)
    requires
        forall|i: int| 0 <= i < n ==> -bound <= #[trigger] a[i] <= bound,
        forall|i: int| 0 <= i < n ==> -bound <= #[trigger] b[i] <= bound,
    ensures
        -(n * (bound * bound)) <= dot(a, b, n) <= n * (bound * bound),
    decreases n,
{
    if n > 0 {
        lemma_dot_bound(a, b, bound, (n - 1) as nat);
        let x = a[n - 1];
        let y = b[n - 1];
        assert(-(bound * bound) <= x * y <= bound * bound) by (nonlinear_arith)
            requires
                -bound <= x <= bound,
                -bound <= y <= bound,
        ;
        assert(n * (bound * bound) == (n - 1) * (bound * bound) + bound * bound)
            by (nonlinear_arith);
    }
}

} // verus!
