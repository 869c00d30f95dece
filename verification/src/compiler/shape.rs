//! Arithmetic on tensor shapes: element counts, reshapes, axis insertion and
//! slices of shape vectors.
use crate::compiler::outcome;
use vstd::prelude::*;
use vstd::slice::slice_to_vec;

verus! {

// Element counts

/// Number of elements of a tensor of the given shape.
pub open spec fn count(shape: Seq<usize>) -> nat
    decreases shape.len(),
{
    if shape.len() == 0 {
        1
    } else {
        count(shape.drop_last()) * shape.last() as nat
    }
}

/// Multiplying the dimensions from left to right never leaves `usize`.
pub open spec fn count_fits(shape: Seq<usize>) -> bool {
    forall|n: int| 0 <= n <= shape.len() ==> #[trigger] count(shape.take(n)) <= usize::MAX
}

/// Number of elements of a tensor of the given shape, or `None` where the
/// left-to-right product overflows.
pub fn checked_product(shape: &[usize]) -> (product: Option<usize>)
    ensures
        product is Some <==> count_fits(shape@),
        product matches Some(p) ==> p == count(shape@),
{
    let mut product: usize = 1;
    let mut i: usize = 0;
    assert(shape@.take(0) =~= Seq::<usize>::empty());
    while i < shape.len()
        invariant
            i <= shape.len(),
            product == count(shape@.take(i as int)),
            forall|n: int| 0 <= n <= i ==> #[trigger] count(shape@.take(n)) <= usize::MAX,
        decreases shape.len() - i,
    {
        assert(shape@.take(i + 1).drop_last() =~= shape@.take(i as int));
        match product.checked_mul(shape[i]) {
            Some(next) => {
                product = next;
            },
            None => {
                assert(count(shape@.take(i + 1)) > usize::MAX);
                return None;
            },
        }
        i = i + 1;
    }
    assert(shape@.take(shape@.len() as int) =~= shape@);
    Some(product)
}

/// Number of elements of a tensor of the given shape.
pub fn product(shape: &[usize]) -> (product: usize)
    requires
        count_fits(shape@),
    ensures
        product == count(shape@),
{
    checked_product(shape).unwrap()
}

/// The element count of a concatenation is the product of the counts.
pub proof fn lemma_count_concat(a: Seq<usize>, b: Seq<usize>)
    ensures
        count(a + b) == count(a) * count(b),
    decreases b.len(),
{
    if b.len() == 0 {
        assert(a + b =~= a);
        assert(count(a) * 1 == count(a));
    } else {
        let front = b.drop_last();
        let last = b.last() as int;
        lemma_count_concat(a, front);
        assert((a + b).drop_last() =~= a + front);
        let x = count(a) as int;
        let y = count(front) as int;
        assert((x * y) * last == x * (y * last)) by (nonlinear_arith);
    }
}

/// The element count of a rank-1 shape.
pub proof fn lemma_count_1(shape: Seq<usize>)
    requires
        shape.len() == 1,
    ensures
        count(shape) == shape[0],
{
    let front = count(shape.drop_last());
    let last = shape.last() as nat;
    assert(front * last == last) by (nonlinear_arith)
        requires
            front == 1,
    ;
}

/// The element count of a rank-2 shape.
pub proof fn lemma_count_2(shape: Seq<usize>)
    requires
        shape.len() == 2,
    ensures
        count(shape) == shape[0] * shape[1],
{
    lemma_count_1(shape.drop_last());
}

/// A leading dimension of size 1 leaves the element count as it is.
pub proof fn lemma_count_leading_one(shape: Seq<usize>)
    requires
        shape.len() >= 1,
        shape[0] == 1,
    ensures
        count(shape) == count(shape.skip(1)),
{
    let one = shape.take(1);
    let rest = shape.skip(1);
    lemma_count_1(one);
    lemma_count_concat(one, rest);
    assert(one + rest =~= shape);
    assert(1 * count(rest) == count(rest));
}

/// A shape with a zero dimension holds no elements.
pub proof fn lemma_count_zero(shape: Seq<usize>, at: int)
    requires
        0 <= at < shape.len(),
        shape[at] == 0,
    ensures
        count(shape) == 0,
    decreases shape.len(),
{
    if at < shape.len() - 1 {
        lemma_count_zero(shape.drop_last(), at);
    }
    let front = count(shape.drop_last()) as int;
    assert(front * 0 == 0);
    assert(0 * shape.last() == 0);
}

// Reshape targets

/// Why a reshape target cannot be resolved.
#[derive(Debug, PartialEq, Eq)]
pub enum ResolveError<D> {
    /// More than one dimension is `-1`.
    ManyUnknowns,
    /// The known dimensions do not divide the element count.
    Indivisible { total: i64, known: i64 },
    /// A dimension is neither positive nor `-1`.
    InvalidDimension { dim: i64 },
    /// The resolved shape does not hold `total` elements.
    CountMismatch { resolved: D, count: i64, total: i64 },
}

impl View for ResolveError<Vec<i64>> {
    type V = ResolveError<Seq<i64>>;

    open spec fn view(&self) -> ResolveError<Seq<i64>> {
        match *self {
            ResolveError::ManyUnknowns => ResolveError::ManyUnknowns,
            ResolveError::Indivisible { total, known } => ResolveError::Indivisible {
                total,
                known,
            },
            ResolveError::InvalidDimension { dim } => ResolveError::InvalidDimension { dim },
            ResolveError::CountMismatch { resolved, count, total } => ResolveError::CountMismatch {
                resolved: resolved@,
                count,
                total,
            },
        }
    }
}

/// Number of `-1` entries.
pub open spec fn unknowns(dims: Seq<i64>) -> nat
    decreases dims.len(),
{
    if dims.len() == 0 {
        0
    } else {
        unknowns(dims.drop_last()) + if dims.last() == -1 {
            1nat
        } else {
            0nat
        }
    }
}

/// Product of the positive entries.
pub open spec fn known_product(dims: Seq<i64>) -> int
    decreases dims.len(),
{
    if dims.len() == 0 {
        1
    } else if dims.last() > 0 {
        known_product(dims.drop_last()) * dims.last()
    } else {
        known_product(dims.drop_last())
    }
}

/// Multiplying the positive entries from left to right never leaves `i64`.
pub open spec fn known_fits(dims: Seq<i64>) -> bool {
    forall|n: int| 0 <= n <= dims.len() ==> #[trigger] known_product(dims.take(n)) <= i64::MAX
}

/// Product of all entries.
pub open spec fn dims_product(dims: Seq<i64>) -> int
    decreases dims.len(),
{
    if dims.len() == 0 {
        1
    } else {
        dims_product(dims.drop_last()) * dims.last()
    }
}

/// Multiplying all entries from left to right never leaves `i64`.
pub open spec fn dims_fit(dims: Seq<i64>) -> bool {
    forall|n: int|
        0 <= n <= dims.len() ==> i64::MIN <= #[trigger] dims_product(dims.take(n)) <= i64::MAX
}

/// The size that one target dimension stands for.
pub open spec fn resolved_dim(dim: i64, total: i64, known: i64) -> Result<
    i64,
    ResolveError<Seq<i64>>,
> {
    if dim == -1 {
        if total as int % known as int != 0 {
            Err(ResolveError::Indivisible { total, known })
        } else {
            Ok((total as int / known as int) as i64)
        }
    } else if dim <= 0 {
        Err(ResolveError::InvalidDimension { dim })
    } else {
        Ok(dim)
    }
}

/// The sizes that the target dimensions stand for, or the first failure.
pub open spec fn resolved_dims(dims: Seq<i64>, total: i64, known: i64) -> Result<
    Seq<i64>,
    ResolveError<Seq<i64>>,
>
    decreases dims.len(),
{
    if dims.len() == 0 {
        Ok(Seq::empty())
    } else {
        match resolved_dims(dims.drop_last(), total, known) {
            Err(error) => Err(error),
            Ok(front) => match resolved_dim(dims.last(), total, known) {
                Err(error) => Err(error),
                Ok(dim) => Ok(front.push(dim)),
            },
        }
    }
}

/// Outcome of resolving the target `dims` for a tensor of `old_len` elements;
/// `None` where the arithmetic overflows.
pub open spec fn resolution(dims: Seq<i64>, old_len: usize) -> Option<
    Result<Seq<usize>, ResolveError<Seq<i64>>>,
> {
    let total = old_len as i64;
    if unknowns(dims) > 1 {
        Some(Err(ResolveError::ManyUnknowns))
    } else if !known_fits(dims) {
        None
    } else {
        match resolved_dims(dims, total, known_product(dims) as i64) {
            Err(error) => Some(Err(error)),
            Ok(resolved) => if !dims_fit(resolved) {
                None
            } else if dims_product(resolved) != total {
                Some(
                    Err(
                        ResolveError::CountMismatch {
                            resolved,
                            count: dims_product(resolved) as i64,
                            total,
                        },
                    ),
                )
            } else {
                Some(Ok(Seq::new(resolved.len(), |i: int| resolved[i] as usize)))
            },
        }
    }
}

/// The product of the positive entries is positive.
pub proof fn lemma_known_product_positive(dims: Seq<i64>)
    ensures
        known_product(dims) >= 1,
    decreases dims.len(),
{
    if dims.len() > 0 {
        lemma_known_product_positive(dims.drop_last());
        if dims.last() > 0 {
            let front = known_product(dims.drop_last());
            let last = dims.last() as int;
            assert(front * last >= 1) by (nonlinear_arith)
                requires
                    front >= 1,
                    last >= 1,
            ;
        }
    }
}

/// A failure on a prefix of the target is the failure on the whole target.
proof fn lemma_resolved_dims_failure(dims: Seq<i64>, n: int, total: i64, known: i64)
    requires
        0 <= n <= dims.len(),
        resolved_dims(dims.take(n), total, known) is Err,
    ensures
        resolved_dims(dims, total, known) == resolved_dims(dims.take(n), total, known),
    decreases dims.len() - n,
{
    if n == dims.len() {
        assert(dims.take(n) =~= dims);
    } else {
        assert(dims.take(n + 1).drop_last() =~= dims.take(n));
        lemma_resolved_dims_failure(dims, n + 1, total, known);
    }
}

/// Every dimension of a resolved shape is the size that its target stands for.
proof fn lemma_resolved_dims_entries(dims: Seq<i64>, total: i64, known: i64)
    requires
        resolved_dims(dims, total, known) is Ok,
    ensures
        ({
            let resolved = resolved_dims(dims, total, known)->Ok_0;
            &&& resolved.len() == dims.len()
            &&& forall|i: int|
                0 <= i < dims.len() ==> resolved_dim(dims[i], total, known) == Ok::<
                    i64,
                    ResolveError<Seq<i64>>,
                >(#[trigger] resolved[i])
        }),
    decreases dims.len(),
{
    if dims.len() > 0 {
        lemma_resolved_dims_entries(dims.drop_last(), total, known);
    }
}

/// The product of non-negative entries is non-negative, and no smaller than
/// any of them where it is positive.
proof fn lemma_dims_product_bounds(dims: Seq<i64>)
    requires
        forall|i: int| 0 <= i < dims.len() ==> #[trigger] dims[i] >= 0,
    ensures
        dims_product(dims) >= 0,
        dims_product(dims) > 0 ==> forall|i: int|
            0 <= i < dims.len() ==> #[trigger] dims[i] <= dims_product(dims),
        dims_product(dims) == 0 ==> exists|i: int| 0 <= i < dims.len() && #[trigger] dims[i] == 0,
    decreases dims.len(),
{
    if dims.len() > 0 {
        let front = dims.drop_last();
        lemma_dims_product_bounds(front);
        let x = dims_product(front);
        let y = dims.last() as int;
        assert(x * y >= 0) by (nonlinear_arith)
            requires
                x >= 0,
                y >= 0,
        ;
        if x * y > 0 {
            assert(x > 0 && y > 0 && x <= x * y && y <= x * y) by (nonlinear_arith)
                requires
                    x >= 0,
                    y >= 0,
                    x * y > 0,
            ;
            assert forall|i: int| 0 <= i < dims.len() implies #[trigger] dims[i] <= x * y by {
                if i < dims.len() - 1 {
                    assert(front[i] <= x);
                }
            }
        } else {
            assert(x == 0 || y == 0) by (nonlinear_arith)
                requires
                    x >= 0,
                    y >= 0,
                    x * y == 0,
            ;
            if y == 0 {
                assert(dims[dims.len() - 1] == 0);
            } else {
                let i = choose|i: int| 0 <= i < front.len() && #[trigger] front[i] == 0;
                assert(dims[i] == 0);
            }
        }
    }
}

/// Dimensions that fit in `usize` keep their product as sizes.
proof fn lemma_dims_product_is_count(dims: Seq<i64>, shape: Seq<usize>)
    requires
        shape.len() == dims.len(),
        forall|i: int| 0 <= i < dims.len() ==> #[trigger] shape[i] == dims[i],
    ensures
        dims_product(dims) == count(shape),
    decreases dims.len(),
{
    if dims.len() > 0 {
        lemma_dims_product_is_count(dims.drop_last(), shape.drop_last());
    }
}

/// A resolved reshape neither adds nor drops elements, keeps the rank of its
/// target and every dimension that the target fixes.
pub proof fn law_resolution_keeps_count(dims: Seq<i64>, old_len: usize)
    requires
        old_len <= i64::MAX,
        resolution(dims, old_len) matches Some(Ok(_)),
    ensures
        ({
            let shape = resolution(dims, old_len)->Some_0->Ok_0;
            &&& count(shape) == old_len
            &&& shape.len() == dims.len()
            &&& forall|i: int|
                0 <= i < dims.len() && dims[i] > 0 ==> #[trigger] shape[i] == dims[i] as usize
        }),
{
    let total = old_len as i64;
    let known = known_product(dims) as i64;
    let resolved = resolved_dims(dims, total, known)->Ok_0;
    let shape = resolution(dims, old_len)->Some_0->Ok_0;
    assert(dims.take(dims.len() as int) =~= dims);
    lemma_known_product_positive(dims);
    lemma_resolved_dims_entries(dims, total, known);
    assert forall|i: int| 0 <= i < resolved.len() implies #[trigger] resolved[i] >= 0 by {
        assert(resolved_dim(dims[i], total, known) == Ok::<i64, ResolveError<Seq<i64>>>(
            resolved[i],
        ));
        assert(0 <= total as int / known as int <= total) by (nonlinear_arith)
            requires
                known >= 1,
                total >= 0,
        ;
    }
    lemma_dims_product_bounds(resolved);
    if total > 0 {
        lemma_dims_product_is_count(resolved, shape);
    } else {
        let i = choose|i: int| 0 <= i < resolved.len() && #[trigger] resolved[i] == 0;
        lemma_count_zero(shape, i);
    }
    assert forall|i: int| 0 <= i < dims.len() && dims[i] > 0 implies #[trigger] shape[i]
        == dims[i] as usize by {
        assert(resolved_dim(dims[i], total, known) == Ok::<i64, ResolveError<Seq<i64>>>(
            resolved[i],
        ));
    }
}

/// The signed dimensions of a shape.
pub open spec fn as_dims(shape: Seq<usize>) -> Seq<i64> {
    Seq::new(shape.len(), |i: int| shape[i] as i64)
}

/// Positive dimensions resolve to themselves, and every product on the way
/// stays below the product of all.
proof fn lemma_positive_dims(shape: Seq<usize>, total: i64, known: i64)
    requires
        forall|i: int| 0 <= i < shape.len() ==> #[trigger] shape[i] > 0,
        count(shape) <= i64::MAX,
    ensures
        count(shape) >= 1,
        unknowns(as_dims(shape)) == 0,
        known_product(as_dims(shape)) == count(shape),
        dims_product(as_dims(shape)) == count(shape),
        resolved_dims(as_dims(shape), total, known) == Ok::<Seq<i64>, ResolveError<Seq<i64>>>(
            as_dims(shape),
        ),
        known_fits(as_dims(shape)),
        dims_fit(as_dims(shape)),
    decreases shape.len(),
{
    let dims = as_dims(shape);
    if shape.len() > 0 {
        let front = shape.drop_last();
        let x = count(front) as int;
        let y = shape.last() as int;
        lemma_count_positive(front);
        assert(x <= x * y && y <= x * y && x * y >= 1) by (nonlinear_arith)
            requires
                x >= 1,
                y >= 1,
        ;
        assert(dims.drop_last() =~= as_dims(front));
        lemma_positive_dims(front, total, known);
        assert(as_dims(front).push(dims.last()) =~= dims);
        assert forall|n: int| 0 <= n <= dims.len() implies #[trigger] known_product(dims.take(n))
            <= i64::MAX by {
            if n < dims.len() {
                assert(dims.take(n) =~= as_dims(front).take(n));
            } else {
                assert(dims.take(n) =~= dims);
            }
        }
        assert forall|n: int| 0 <= n <= dims.len() implies i64::MIN <= #[trigger] dims_product(
            dims.take(n),
        ) <= i64::MAX by {
            if n < dims.len() {
                assert(dims.take(n) =~= as_dims(front).take(n));
            } else {
                assert(dims.take(n) =~= dims);
            }
        }
    } else {
        assert(dims =~= Seq::<i64>::empty());
        assert forall|n: int| 0 <= n <= dims.len() implies #[trigger] dims.take(n) == dims by {}
    }
}

/// A shape of positive dimensions holds at least one element.
proof fn lemma_count_positive(shape: Seq<usize>)
    requires
        forall|i: int| 0 <= i < shape.len() ==> #[trigger] shape[i] > 0,
    ensures
        count(shape) >= 1,
    decreases shape.len(),
{
    if shape.len() > 0 {
        lemma_count_positive(shape.drop_last());
        let x = count(shape.drop_last()) as int;
        let y = shape.last() as int;
        assert(x * y >= 1) by (nonlinear_arith)
            requires
                x >= 1,
                y >= 1,
        ;
    }
}

/// A target without `-1` resolves exactly to itself, for every tensor that
/// holds that many elements.
pub proof fn law_fixed_target_resolves(shape: Seq<usize>, old_len: usize)
    requires
        forall|i: int| 0 <= i < shape.len() ==> #[trigger] shape[i] > 0,
        count(shape) == old_len,
        old_len <= i64::MAX,
    ensures
        resolution(as_dims(shape), old_len) == Some(
            Ok::<Seq<usize>, ResolveError<Seq<i64>>>(shape),
        ),
{
    let dims = as_dims(shape);
    lemma_positive_dims(shape, old_len as i64, known_product(dims) as i64);
    assert forall|i: int| 0 <= i < shape.len() implies #[trigger] shape[i] <= i64::MAX by {
        lemma_dim_within_count(shape, i);
    }
    assert(Seq::new(dims.len(), |i: int| dims[i] as usize) =~= shape);
}

/// No dimension of a shape of positive dimensions exceeds its element count.
proof fn lemma_dim_within_count(shape: Seq<usize>, at: int)
    requires
        forall|i: int| 0 <= i < shape.len() ==> #[trigger] shape[i] > 0,
        0 <= at < shape.len(),
    ensures
        shape[at] <= count(shape),
    decreases shape.len(),
{
    let front = shape.drop_last();
    let x = count(front) as int;
    let y = shape.last() as int;
    lemma_count_positive(front);
    assert(x <= x * y && y <= x * y) by (nonlinear_arith)
        requires
            x >= 1,
            y >= 1,
    ;
    if at < shape.len() - 1 {
        lemma_dim_within_count(front, at);
    }
}

/// Number of `-1` entries.
fn count_unknowns(dims: &[i64]) -> (found: usize)
    ensures
        found == unknowns(dims@),
{
    let mut found: usize = 0;
    let mut i: usize = 0;
    assert(dims@.take(0) =~= Seq::<i64>::empty());
    while i < dims.len()
        invariant
            i <= dims.len(),
            found <= i,
            found == unknowns(dims@.take(i as int)),
        decreases dims.len() - i,
    {
        assert(dims@.take(i + 1).drop_last() =~= dims@.take(i as int));
        if dims[i] == -1 {
            found = found + 1;
        }
        i = i + 1;
    }
    assert(dims@.take(dims@.len() as int) =~= dims@);
    found
}

/// Product of the positive entries, or `None` where it overflows.
fn checked_known_product(dims: &[i64]) -> (known: Option<i64>)
    ensures
        known is Some <==> known_fits(dims@),
        known matches Some(k) ==> k == known_product(dims@) && k >= 1,
{
    let mut known: i64 = 1;
    let mut i: usize = 0;
    assert(dims@.take(0) =~= Seq::<i64>::empty());
    while i < dims.len()
        invariant
            i <= dims.len(),
            known == known_product(dims@.take(i as int)),
            forall|n: int| 0 <= n <= i ==> #[trigger] known_product(dims@.take(n)) <= i64::MAX,
        decreases dims.len() - i,
    {
        assert(dims@.take(i + 1).drop_last() =~= dims@.take(i as int));
        if dims[i] > 0 {
            proof {
                lemma_known_product_positive(dims@.take(i as int));
                lemma_known_product_positive(dims@.take(i + 1));
            }
            match known.checked_mul(dims[i]) {
                Some(next) => {
                    known = next;
                },
                None => {
                    assert(known_product(dims@.take(i + 1)) > i64::MAX);
                    return None;
                },
            }
        }
        i = i + 1;
    }
    proof {
        assert(dims@.take(dims@.len() as int) =~= dims@);
        lemma_known_product_positive(dims@);
    }
    Some(known)
}

/// Product of all entries, or `None` where it overflows.
fn checked_dims_product(dims: &[i64]) -> (product: Option<i64>)
    ensures
        product is Some <==> dims_fit(dims@),
        product matches Some(p) ==> p == dims_product(dims@),
{
    let mut product: i64 = 1;
    let mut i: usize = 0;
    assert(dims@.take(0) =~= Seq::<i64>::empty());
    while i < dims.len()
        invariant
            i <= dims.len(),
            product == dims_product(dims@.take(i as int)),
            forall|n: int|
                0 <= n <= i ==> i64::MIN <= #[trigger] dims_product(dims@.take(n)) <= i64::MAX,
        decreases dims.len() - i,
    {
        assert(dims@.take(i + 1).drop_last() =~= dims@.take(i as int));
        match product.checked_mul(dims[i]) {
            Some(next) => {
                product = next;
            },
            None => {
                assert(!(i64::MIN <= dims_product(dims@.take(i + 1)) <= i64::MAX));
                return None;
            },
        }
        i = i + 1;
    }
    assert(dims@.take(dims@.len() as int) =~= dims@);
    Some(product)
}

/// Resolves one target dimension.
fn resolve_dim(dim: i64, total: i64, known: i64) -> (size: Result<i64, ResolveError<Vec<i64>>>)
    requires
        known >= 1,
    ensures
        match size {
            Ok(size) => resolved_dim(dim, total, known) == Ok::<i64, ResolveError<Seq<i64>>>(size),
            Err(error) => resolved_dim(dim, total, known) == Err::<i64, ResolveError<Seq<i64>>>(
                error@,
            ),
        },
{
    if dim == -1 {
        assert(i64::MIN <= total as int / known as int <= i64::MAX) by (nonlinear_arith)
            requires
                known >= 1,
        ;
        let remainder: Option<i64> = total.checked_rem_euclid(known);
        let quotient: Option<i64> = total.checked_div_euclid(known);
        match (remainder, quotient) {
            (Some(0), Some(size)) => Ok(size),
            _ => Err(ResolveError::Indivisible { total, known }),
        }
    } else if dim <= 0 {
        Err(ResolveError::InvalidDimension { dim })
    } else {
        Ok(dim)
    }
}

/// Resolves a target shape that may contain a single `-1` dimension, or
/// returns `None` where the arithmetic overflows.
pub fn checked_resolve_shape(dims: &[i64], old_len: usize) -> (shape: Option<
    Result<Vec<usize>, ResolveError<Vec<i64>>>,
>)
    ensures
        outcome::view_of(shape) == resolution(dims@, old_len),
{
    if count_unknowns(dims) > 1 {
        return Some(Err(ResolveError::ManyUnknowns));
    }
    let known: i64 = match checked_known_product(dims) {
        Some(known) => known,
        None => {
            return None;
        },
    };
    let total: i64 = old_len as i64;
    let mut resolved: Vec<i64> = Vec::new();
    let mut i: usize = 0;
    assert(dims@.take(0) =~= Seq::<i64>::empty());
    while i < dims.len()
        invariant
            i <= dims.len(),
            known >= 1,
            resolved_dims(dims@.take(i as int), total, known) == Ok::<
                Seq<i64>,
                ResolveError<Seq<i64>>,
            >(resolved@),
            unknowns(dims@) <= 1,
            known_fits(dims@),
            known == known_product(dims@),
            total == old_len as i64,
        decreases dims.len() - i,
    {
        assert(dims@.take(i + 1).drop_last() =~= dims@.take(i as int));
        match resolve_dim(dims[i], total, known) {
            Ok(size) => {
                resolved.push(size);
            },
            Err(error) => {
                proof {
                    lemma_resolved_dims_failure(dims@, i + 1, total, known);
                }
                return Some(Err(error));
            },
        }
        i = i + 1;
    }
    assert(dims@.take(dims@.len() as int) =~= dims@);
    let count: i64 = match checked_dims_product(&resolved) {
        Some(count) => count,
        None => {
            return None;
        },
    };
    if count != total {
        return Some(Err(ResolveError::CountMismatch { resolved, count, total }));
    }
    let mut shape: Vec<usize> = Vec::new();
    let mut k: usize = 0;
    while k < resolved.len()
        invariant
            k <= resolved.len(),
            shape@ =~= Seq::new(k as nat, |j: int| resolved@[j] as usize),
        decreases resolved.len() - k,
    {
        shape.push(resolved[k] as usize);
        k = k + 1;
    }
    Some(Ok(shape))
}

/// Resolves a target shape that may contain a single `-1` dimension.
pub fn resolve_shape(dims: &[i64], old_len: usize) -> (shape: Result<
    Vec<usize>,
    ResolveError<Vec<i64>>,
>)
    requires
        resolution(dims@, old_len) is Some,
    ensures
        outcome::view_of(Some(shape)) == resolution(dims@, old_len),
{
    checked_resolve_shape(dims, old_len).unwrap()
}

// Axis insertion

/// The axis is not a position of the expanded shape.
#[derive(Debug, Clone, Copy, PartialEq, Eq)]
pub struct AxisError {
    pub axis: i32,
    pub rank: i32,
}

impl View for AxisError {
    type V = AxisError;

    open spec fn view(&self) -> AxisError {
        *self
    }
}

/// Position that `axis` names in a shape of the given rank; a negative axis
/// counts from the end of the expanded shape.
pub open spec fn axis_position(axis: i32, rank: i32) -> int {
    if axis < 0 {
        axis + rank + 1
    } else {
        axis as int
    }
}

/// Outcome of inserting a size-1 axis; `None` where the axis arithmetic
/// overflows.
pub open spec fn expansion(shape: Seq<usize>, axis: i32) -> Option<Result<Seq<usize>, AxisError>> {
    let rank = shape.len() as i32;
    if axis < 0 && axis + rank < i32::MIN {
        None
    } else if 0 <= axis_position(axis, rank) <= rank <= shape.len() {
        Some(Ok(shape.insert(axis_position(axis, rank), 1)))
    } else {
        Some(Err(AxisError { axis, rank }))
    }
}

/// Inserting a size-1 axis adds one dimension and keeps the element count.
pub proof fn law_expansion_keeps_count(shape: Seq<usize>, axis: i32)
    requires
        expansion(shape, axis) matches Some(Ok(_)),
    ensures
        ({
            let expanded = expansion(shape, axis)->Some_0->Ok_0;
            &&& count(expanded) == count(shape)
            &&& expanded.len() == shape.len() + 1
        }),
{
    let rank = shape.len() as i32;
    let at = axis_position(axis, rank);
    let front = shape.take(at);
    let back = shape.skip(at);
    let one = seq![1usize];
    lemma_count_1(one);
    lemma_count_concat(front, back);
    lemma_count_concat(front, one);
    lemma_count_concat(front + one, back);
    assert(front + back =~= shape);
    assert(front + one + back =~= shape.insert(at, 1));
    assert(count(front) * 1 == count(front));
}

/// A negative axis names the position counted from the end of the expanded
/// shape: the same insertion as the position itself.
pub proof fn law_negative_axis_counts_from_the_end(shape: Seq<usize>, axis: i32)
    requires
        shape.len() < i32::MAX,
        -(shape.len() + 1) <= axis < 0,
    ensures
        expansion(shape, axis) == expansion(shape, (axis + shape.len() + 1) as i32),
        expansion(shape, axis) matches Some(Ok(_)),
{
}

/// Taking the inserted axis out again gives back the shape.
pub proof fn law_inserted_axis_has_size_one(shape: Seq<usize>, axis: i32)
    requires
        expansion(shape, axis) matches Some(Ok(_)),
    ensures
        ({
            let expanded = expansion(shape, axis)->Some_0->Ok_0;
            let at = axis_position(axis, shape.len() as i32);
            &&& expanded[at] == 1
            &&& expanded.remove(at) == shape
        }),
{
    let expanded = expansion(shape, axis)->Some_0->Ok_0;
    let at = axis_position(axis, shape.len() as i32);
    assert(expanded.remove(at) =~= shape);
}

/// Narrowing a length to `i32` never makes it larger.
proof fn lemma_narrowed_len(len: usize)
    ensures
        (len as i32) <= len,
{
    assert((len as i32) <= 0 || (len as i32) as usize <= len) by (bit_vector);
}

/// Inserts a size-1 axis (EXPAND_DIMS semantics), with negative-axis support,
/// or returns `None` where the axis arithmetic overflows.
pub fn checked_expand_shape(shape: &[usize], axis: i32) -> (expanded: Option<
    Result<Vec<usize>, AxisError>,
>)
    ensures
        outcome::view_of(expanded) == expansion(shape@, axis),
{
    let rank: i32 = shape.len() as i32;
    let position: i32 = if axis < 0 {
        match axis.checked_add(rank) {
            Some(from_end) => from_end + 1,
            None => {
                return None;
            },
        }
    } else {
        axis
    };
    proof {
        lemma_narrowed_len(shape.len());
    }
    if !(0 <= position && position <= rank) {
        return Some(Err(AxisError { axis, rank }));
    }
    let mut expanded: Vec<usize> = slice_to_vec(shape);
    expanded.insert(position as usize, 1);
    Some(Ok(expanded))
}

/// Inserts a size-1 axis (EXPAND_DIMS semantics), with negative-axis support.
pub fn expand_shape(shape: &[usize], axis: i32) -> (expanded: Result<Vec<usize>, AxisError>)
    requires
        expansion(shape@, axis) is Some,
    ensures
        outcome::view_of(Some(expanded)) == expansion(shape@, axis),
{
    checked_expand_shape(shape, axis).unwrap()
}

// Slices of shape vectors

/// Why a slice of a shape vector cannot be evaluated.
#[derive(Debug, Clone, Copy, PartialEq, Eq)]
pub enum SliceError {
    /// `begin`, `end` or `strides` does not have exactly one element.
    NotOneDimensional,
    /// The stride is zero.
    ZeroStride,
    /// A shrink-axis slice selects other than one element.
    NotOneElement { selected: usize },
}

impl View for SliceError {
    type V = SliceError;

    open spec fn view(&self) -> SliceError {
        *self
    }
}

/// A slice bound: negative bounds count from the end, and the result is
/// clamped to `0..=len`.
pub open spec fn slice_bound(bound: i32, len: i32) -> int {
    let from_start = if bound < 0 {
        bound + len
    } else {
        bound as int
    };
    if from_start < 0 {
        0
    } else if from_start > len {
        len as int
    } else {
        from_start
    }
}

/// The walk of a slice has not reached its end yet.
pub open spec fn slice_continues(i: int, end: int, stride: int) -> bool {
    (stride > 0 && i < end) || (stride < 0 && i > end)
}

/// Upper bound on the remaining steps of a walk.
pub open spec fn slice_distance(i: int, end: int, stride: int) -> nat {
    if !slice_continues(i, end, stride) {
        0
    } else if stride > 0 {
        (end - i) as nat
    } else {
        (i - end) as nat
    }
}

/// Elements that the walk from `i` to `end` selects: those at the visited
/// positions that lie inside the vector.
pub open spec fn slice_walk(dims: Seq<i64>, len: int, i: int, end: int, stride: int) -> Seq<i64>
    decreases slice_distance(i, end, stride),
{
    if slice_continues(i, end, stride) {
        let rest = slice_walk(dims, len, i + stride, end, stride);
        if 0 <= i < len {
            seq![dims[i]] + rest
        } else {
            rest
        }
    } else {
        Seq::empty()
    }
}

/// No step of the walk from `i` to `end` leaves `i32`.
pub open spec fn slice_walk_fits(i: int, end: int, stride: int) -> bool
    decreases slice_distance(i, end, stride),
{
    slice_continues(i, end, stride) ==> {
        &&& i32::MIN <= i + stride <= i32::MAX
        &&& slice_walk_fits(i + stride, end, stride)
    }
}

/// Outcome of a strided slice over a shape vector; `None` where the length
/// does not narrow to a non-negative `i32` or a step overflows.
pub open spec fn slice_selection(
    dims: Seq<i64>,
    begin: Seq<i32>,
    end: Seq<i32>,
    strides: Seq<i32>,
    shrink: bool,
) -> Option<Result<Seq<i64>, SliceError>> {
    if begin.len() != 1 || end.len() != 1 || strides.len() != 1 {
        Some(Err(SliceError::NotOneDimensional))
    } else if strides[0] == 0 {
        Some(Err(SliceError::ZeroStride))
    } else {
        let len = dims.len() as i32;
        let first = slice_bound(begin[0], len);
        let last = slice_bound(end[0], len);
        let selected = slice_walk(dims, len as int, first, last, strides[0] as int);
        if len < 0 || !slice_walk_fits(first, last, strides[0] as int) {
            None
        } else if shrink && selected.len() != 1 {
            Some(Err(SliceError::NotOneElement { selected: selected.len() as usize }))
        } else {
            Some(Ok(selected))
        }
    }
}

/// A walk with stride 1 visits the positions from `i` up to `end`.
proof fn lemma_unit_walk(dims: Seq<i64>, i: int, end: int)
    requires
        0 <= i <= end <= dims.len(),
        end <= i32::MAX,
    ensures
        slice_walk(dims, dims.len() as int, i, end, 1) == dims.subrange(i, end),
        slice_walk_fits(i, end, 1),
    decreases end - i,
{
    if i < end {
        lemma_unit_walk(dims, i + 1, end);
        assert(seq![dims[i]] + dims.subrange(i + 1, end) =~= dims.subrange(i, end));
    } else {
        assert(dims.subrange(i, end) =~= Seq::<i64>::empty());
    }
}

/// A slice with stride 1 and bounds inside the vector is the part of the
/// vector between them; with `shrink` it must be a single element.
pub proof fn law_unit_slice(dims: Seq<i64>, begin: i32, end: i32, shrink: bool)
    requires
        0 <= begin <= end <= dims.len(),
        dims.len() <= i32::MAX,
        shrink ==> end == begin + 1,
    ensures
        slice_selection(dims, seq![begin], seq![end], seq![1], shrink) == Some(
            Ok::<Seq<i64>, SliceError>(dims.subrange(begin as int, end as int)),
        ),
{
    lemma_unit_walk(dims, begin as int, end as int);
}

/// Resolves and clamps one slice bound.
fn clamp_bound(bound: i32, len: i32) -> (position: i32)
    requires
        len >= 0,
    ensures
        position == slice_bound(bound, len),
        0 <= position <= len,
{
    let from_start: i32 = if bound < 0 {
        bound + len
    } else {
        bound
    };
    if from_start < 0 {
        0
    } else if from_start > len {
        len
    } else {
        from_start
    }
}

/// Evaluates a 1-D strided slice over a statically-known shape vector, or
/// returns `None` where the arithmetic overflows. `shrink` selects a single
/// element (a scalar result), like the flatten chain's
/// `STRIDED_SLICE(shape, [0], [1], [1])`.
pub fn checked_strided_slice(
    dims: &[i64],
    begin: &[i32],
    end: &[i32],
    strides: &[i32],
    shrink: bool,
) -> (slice: Option<Result<Vec<i64>, SliceError>>)
    ensures
        outcome::view_of(slice) == slice_selection(dims@, begin@, end@, strides@, shrink),
{
    if begin.len() != 1 || end.len() != 1 || strides.len() != 1 {
        return Some(Err(SliceError::NotOneDimensional));
    }
    let len: i32 = dims.len() as i32;
    let stride: i32 = strides[0];
    if stride == 0 {
        return Some(Err(SliceError::ZeroStride));
    }
    if len < 0 {
        return None;
    }
    proof {
        lemma_narrowed_len(dims.len());
    }
    let first: i32 = clamp_bound(begin[0], len);
    let last: i32 = clamp_bound(end[0], len);
    let mut selected: Vec<i64> = Vec::new();
    let mut i: i32 = first;
    let ghost whole = slice_walk(dims@, len as int, first as int, last as int, stride as int);
    #[verifier::loop_isolation(false)]
    while (stride > 0 && i < last) || (stride < 0 && i > last)
        invariant
            whole == selected@ + slice_walk(dims@, len as int, i as int, last as int, stride as int),
            slice_walk_fits(first as int, last as int, stride as int) == slice_walk_fits(
                i as int,
                last as int,
                stride as int,
            ),
        decreases slice_distance(i as int, last as int, stride as int),
    {
        let ghost before = selected@;
        let ghost rest = slice_walk(dims@, len as int, i + stride, last as int, stride as int);
        if 0 <= i && i < len {
            selected.push(dims[i as usize]);
            assert(before + (seq![dims@[i as int]] + rest) =~= selected@ + rest);
        }
        match i.checked_add(stride) {
            Some(next) => {
                i = next;
            },
            None => {
                return None;
            },
        }
    }
    assert(whole =~= selected@);
    if shrink && selected.len() != 1 {
        return Some(Err(SliceError::NotOneElement { selected: selected.len() }));
    }
    Some(Ok(selected))
}

/// Evaluates a 1-D strided slice over a statically-known shape vector.
/// `shrink` selects a single element (a scalar result), like the flatten
/// chain's `STRIDED_SLICE(shape, [0], [1], [1])`.
pub fn strided_slice(
    dims: &[i64],
    begin: &[i32],
    end: &[i32],
    strides: &[i32],
    shrink: bool,
) -> (slice: Result<Vec<i64>, SliceError>)
    requires
        slice_selection(dims@, begin@, end@, strides@, shrink) is Some,
    ensures
        outcome::view_of(Some(slice)) == slice_selection(dims@, begin@, end@, strides@, shrink),
{
    checked_strided_slice(dims, begin, end, strides, shrink).unwrap()
}

} // verus!
