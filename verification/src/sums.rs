//! Sums and products over a range, the plain notions that the laws speak in.
use vstd::prelude::*;

verus! {

/// The sum of the terms at `0`, `1`, .. `n - 1`.
pub open spec fn summed(term: spec_fn(int) -> int, n: nat) -> int
    decreases n,
{
    if n == 0 {
        0
    } else {
        summed(term, (n - 1) as nat) + term(n - 1)
    }
}

/// The product of the factors at `0`, `1`, .. `n - 1`.
pub open spec fn multiplied(factor: spec_fn(int) -> int, n: nat) -> int
    decreases n,
{
    if n == 0 {
        1
    } else {
        multiplied(factor, (n - 1) as nat) * factor(n - 1)
    }
}

/// Sums of the same terms are the same.
pub proof fn lemma_same_sum(a: spec_fn(int) -> int, b: spec_fn(int) -> int, n: nat)
    requires
        forall|i: int| 0 <= i < n ==> #[trigger] a(i) == b(i),
    ensures
        summed(a, n) == summed(b, n),
    decreases n,
{
    if n > 0 {
        lemma_same_sum(a, b, (n - 1) as nat);
        assert(a(n - 1) == b(n - 1));
    }
}

/// Products of the same factors are the same.
pub proof fn lemma_same_product(a: spec_fn(int) -> int, b: spec_fn(int) -> int, n: nat)
    requires
        forall|i: int| 0 <= i < n ==> #[trigger] a(i) == b(i),
    ensures
        multiplied(a, n) == multiplied(b, n),
    decreases n,
{
    if n > 0 {
        lemma_same_product(a, b, (n - 1) as nat);
        assert(a(n - 1) == b(n - 1));
    }
}

/// Raising one term raises the sum by as much.
pub proof fn lemma_raised_sum(
    a: spec_fn(int) -> int,
    b: spec_fn(int) -> int,
    n: nat,
    at: int,
    by: int,
)
    requires
        forall|i: int|
            0 <= i < n ==> #[trigger] b(i) == a(i) + (if i == at {
                by
            } else {
                0
            }),
    ensures
        summed(b, n) == summed(a, n) + (if 0 <= at < n {
            by
        } else {
            0
        }),
    decreases n,
{
    if n > 0 {
        lemma_raised_sum(a, b, (n - 1) as nat, at, by);
        assert(b(n - 1) == a(n - 1) + (if n - 1 == at {
            by
        } else {
            0
        }));
    }
}

} // verus!
