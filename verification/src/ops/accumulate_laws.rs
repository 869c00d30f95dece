//! What the accumulator holds, in plain sums.
use crate::ops::accumulate;
use crate::quantize::Quantized;
use crate::sums;
use vstd::prelude::*;

verus! {

/// A sum fits the accumulator where it lies between -2147483648 and
/// 2147483647.
pub proof fn law_accumulator_range(sum: int)
    ensures
        accumulate::fits(sum) <==> -0x8000_0000 <= sum < 0x8000_0000,
{
}

/// A dot product adds up the products of the elements at equal positions.
pub proof fn law_dot_is_the_sum_of_products(a: Seq<int>, b: Seq<int>, n: nat)
    ensures
        accumulate::dot(a, b, n) == sums::summed(|i: int| a[i] * b[i], n),
    decreases n,
{
    if n > 0 {
        law_dot_is_the_sum_of_products(a, b, (n - 1) as nat);
    }
}

/// The sum of the first `n` products of two sequences.
pub open spec fn products(a: Seq<int>, b: Seq<int>, n: nat) -> int {
    sums::summed(|i: int| a[i] * b[i], n)
}

/// The sum of the first `n` elements of a sequence.
pub open spec fn elements(a: Seq<int>, n: nat) -> int {
    sums::summed(|i: int| a[i], n)
}

/// A dot product fits where every partial sum lies in the range of the
/// accumulator.
pub proof fn law_dot_fits_by_partial_sums(start: int, a: Seq<int>, b: Seq<int>, n: nat)
    ensures
        accumulate::dot_fits(start, a, b, n) <==> forall|k: nat|
            k <= n ==> -0x8000_0000 <= start + #[trigger] products(a, b, k) < 0x8000_0000,
{
    if accumulate::dot_fits(start, a, b, n) {
        assert forall|k: nat| k <= n implies -0x8000_0000 <= start + #[trigger] products(a, b, k)
            < 0x8000_0000 by {
            law_dot_is_the_sum_of_products(a, b, k);
            assert(accumulate::fits(start + accumulate::dot(a, b, k)));
        }
    }
    if forall|k: nat|
        k <= n ==> -0x8000_0000 <= start + #[trigger] products(a, b, k) < 0x8000_0000 {
        assert forall|k: nat| k <= n implies accumulate::fits(
            start + #[trigger] accumulate::dot(a, b, k),
        ) by {
            law_dot_is_the_sum_of_products(a, b, k);
            assert(start + products(a, b, k) < 0x8000_0000);
        }
    }
}

/// A total adds up the elements.
pub proof fn law_total_is_the_sum(a: Seq<int>, n: nat)
    ensures
        accumulate::total(a, n) == sums::summed(|i: int| a[i], n),
    decreases n,
{
    if n > 0 {
        law_total_is_the_sum(a, (n - 1) as nat);
    }
}

/// A total fits where every partial sum lies in the range of the
/// accumulator.
pub proof fn law_total_fits_by_partial_sums(a: Seq<int>, n: nat)
    ensures
        accumulate::total_fits(a, n) <==> forall|k: nat|
            k <= n ==> -0x8000_0000 <= #[trigger] elements(a, k) < 0x8000_0000,
{
    if accumulate::total_fits(a, n) {
        assert forall|k: nat| k <= n implies -0x8000_0000 <= #[trigger] elements(a, k)
            < 0x8000_0000 by {
            law_total_is_the_sum(a, k);
            assert(accumulate::fits(accumulate::total(a, k)));
        }
    }
    if forall|k: nat| k <= n ==> -0x8000_0000 <= #[trigger] elements(a, k) < 0x8000_0000 {
        assert forall|k: nat| k <= n implies accumulate::fits(#[trigger] accumulate::total(a, k)) by {
            law_total_is_the_sum(a, k);
            assert(elements(a, k) < 0x8000_0000);
        }
    }
}

/// Centering takes the zero point off every element and keeps their order.
pub proof fn law_centered_values<T: Quantized>(row: Seq<T>, zero_point: int)
    ensures
        accumulate::centered(row, zero_point).len() == row.len(),
        forall|c: int|
            0 <= c < row.len() ==> #[trigger] accumulate::centered(row, zero_point)[c] + zero_point
                == row[c].value(),
{
}

} // verus!
