//! What the arithmetic on shapes gives, dimension by dimension.
use crate::compiler::shape;
use crate::compiler::shape::{AxisError, ResolveError, SliceError};
use crate::sums;
use vstd::prelude::*;

verus! {

// Element counts

/// The product of the first `n` dimensions.
pub open spec fn dimensions(shape: Seq<usize>, n: nat) -> int {
    sums::multiplied(|i: int| shape[i] as int, n)
}

/// The number of elements of a shape is the product of its dimensions.
pub proof fn law_count_is_the_product(shape: Seq<usize>)
    ensures
        shape::count(shape) == dimensions(shape, shape.len()),
    decreases shape.len(),
{
    if shape.len() > 0 {
        let front = shape.drop_last();
        law_count_is_the_product(front);
        let a = |i: int| front[i] as int;
        let b = |i: int| shape[i] as int;
        assert forall|i: int| 0 <= i < front.len() implies #[trigger] a(i) == b(i) by {}
        sums::lemma_same_product(a, b, front.len());
    }
}

/// A number of elements can be computed where the product of the dimensions
/// from the left never leaves the type.
pub proof fn law_count_fits_by_partial_products(shape: Seq<usize>)
    ensures
        shape::count_fits(shape) <==> forall|n: nat|
            n <= shape.len() ==> #[trigger] dimensions(shape, n) <= usize::MAX,
{
    if shape::count_fits(shape) {
        assert forall|n: nat| n <= shape.len() implies #[trigger] dimensions(shape, n)
            <= usize::MAX by {
            lemma_prefix_product(shape, n);
            assert(shape::count(shape.take(n as int)) <= usize::MAX);
        }
    }
    if forall|n: nat| n <= shape.len() ==> #[trigger] dimensions(shape, n) <= usize::MAX {
        assert forall|n: int| 0 <= n <= shape.len() implies #[trigger] shape::count(shape.take(n))
            <= usize::MAX by {
            lemma_prefix_product(shape, n as nat);
            assert(dimensions(shape, n as nat) <= usize::MAX);
        }
    }
}

/// The elements of the first dimensions are their product.
proof fn lemma_prefix_product(shape: Seq<usize>, n: nat)
    requires
        n <= shape.len(),
    ensures
        shape::count(shape.take(n as int)) == dimensions(shape, n),
{
    let front = shape.take(n as int);
    law_count_is_the_product(front);
    let a = |i: int| front[i] as int;
    let b = |i: int| shape[i] as int;
    assert forall|i: int| 0 <= i < n implies #[trigger] a(i) == b(i) by {}
    sums::lemma_same_product(a, b, n);
}

// Reshape targets

/// The product of the positive ones among the first `n` target dimensions.
pub open spec fn known(dims: Seq<i64>, n: nat) -> int {
    sums::multiplied(
        |i: int|
            if dims[i] > 0 {
                dims[i] as int
            } else {
                1
            },
        n,
    )
}

/// The product of the first `n` dimensions of a resolved target.
pub open spec fn product(dims: Seq<i64>, n: nat) -> int {
    sums::multiplied(|i: int| dims[i] as int, n)
}

/// Products over a prefix, as the compiler multiplies them.
proof fn lemma_prefix_products(dims: Seq<i64>, n: nat)
    requires
        n <= dims.len(),
    ensures
        shape::known_product(dims.take(n as int)) == known(dims, n),
        shape::dims_product(dims.take(n as int)) == product(dims, n),
    decreases n,
{
    if n > 0 {
        lemma_prefix_products(dims, (n - 1) as nat);
        assert(dims.take(n as int).drop_last() =~= dims.take(n - 1));
    }
}

/// There is more than one unknown dimension exactly where two are `-1`.
proof fn lemma_unknowns(dims: Seq<i64>)
    ensures
        shape::unknowns(dims) >= 1 <==> exists|i: int|
            0 <= i < dims.len() && #[trigger] dims[i] == -1,
        shape::unknowns(dims) > 1 <==> exists|i: int, j: int|
            0 <= i < j < dims.len() && #[trigger] dims[i] == -1 && #[trigger] dims[j] == -1,
    decreases dims.len(),
{
    if dims.len() > 0 {
        let front = dims.drop_last();
        let last = dims.len() - 1;
        lemma_unknowns(front);
        if shape::unknowns(front) >= 1 {
            let i = choose|i: int| 0 <= i < front.len() && #[trigger] front[i] == -1;
            assert(dims[i] == -1);
            if dims[last] == -1 {
                assert(0 <= i < last && dims[i] == -1 && dims[last] == -1);
            }
        }
        if shape::unknowns(front) > 1 {
            let (i, j) = choose|i: int, j: int|
                0 <= i < j < front.len() && #[trigger] front[i] == -1 && #[trigger] front[j] == -1;
            assert(dims[i] == -1 && dims[j] == -1);
        }
        assert forall|i: int| 0 <= i < last && #[trigger] dims[i] == -1 implies shape::unknowns(
            front,
        ) >= 1 by {
            assert(front[i] == -1);
        }
        assert forall|i: int, j: int|
            0 <= i < j < last && #[trigger] dims[i] == -1 && #[trigger] dims[j]
                == -1 implies shape::unknowns(front) > 1 by {
            assert(front[i] == -1 && front[j] == -1);
        }
        if dims[last] == -1 {
            assert(dims[last] == -1);
        }
    }
}

/// Whether dimension `i` of a target is the first that is not positive,
/// where a `-1` is passed over if the number of elements can be divided.
pub open spec fn first_invalid(dims: Seq<i64>, i: int, total: int, part: int) -> bool {
    let divides = total % part == 0;
    &&& 0 <= i < dims.len()
    &&& dims[i] <= 0 && !(dims[i] == -1 && divides)
    &&& forall|j: int| 0 <= j < i ==> #[trigger] dims[j] > 0 || (dims[j] == -1 && divides)
}

/// Whether a target dimension stands for a size.
pub open spec fn resolves(dim: i64, size: i64, total: i64, part: i64) -> bool {
    ||| dim > 0 && size == dim
    ||| dim == -1 && total as int % part as int == 0 && size == (total as int / part as int) as i64
}

/// The first invalid dimension of a prefix is that of the target.
proof fn lemma_first_invalid_stays(dims: Seq<i64>, i: int, total: int, part: int)
    requires
        dims.len() > 0,
        first_invalid(dims.drop_last(), i, total, part),
    ensures
        first_invalid(dims, i, total, part),
{
    let front = dims.drop_last();
    let divides = total % part == 0;
    assert forall|j: int| 0 <= j < i implies #[trigger] dims[j] > 0 || (dims[j] == -1
        && divides) by {
        assert(front[j] == dims[j]);
    }
}

/// What the first dimensions of a target resolve to.
proof fn lemma_resolved(dims: Seq<i64>, total: i64, factor: i64)
    ensures
        match shape::resolved_dims(dims, total, factor) {
            Ok(resolved) => {
                &&& resolved.len() == dims.len()
                &&& forall|i: int|
                    0 <= i < dims.len() ==> resolves(dims[i], #[trigger] resolved[i], total, factor)
            },
            Err(ResolveError::InvalidDimension { dim }) => dim <= 0 && dim != -1 && exists|i: int|
                #[trigger] first_invalid(dims, i, total as int, factor as int) && dims[i] == dim,
            Err(ResolveError::Indivisible { total: all, known: part }) => {
                &&& all == total && part == factor
                &&& total as int % factor as int != 0
                &&& exists|i: int|
                    #[trigger] first_invalid(dims, i, total as int, factor as int) && dims[i] == -1
            },
            Err(_) => false,
        },
    decreases dims.len(),
{
    if dims.len() > 0 {
        let front = dims.drop_last();
        let last = dims.len() - 1;
        lemma_resolved(front, total, factor);
        let divides = total as int % factor as int == 0;
        match shape::resolved_dims(front, total, factor) {
            Err(ResolveError::InvalidDimension { dim }) => {
                let i = choose|i: int|
                    #[trigger] first_invalid(front, i, total as int, factor as int) && front[i]
                        == dim;
                lemma_first_invalid_stays(dims, i, total as int, factor as int);
            },
            Err(ResolveError::Indivisible { .. }) => {
                let i = choose|i: int|
                    #[trigger] first_invalid(front, i, total as int, factor as int) && front[i]
                        == -1;
                lemma_first_invalid_stays(dims, i, total as int, factor as int);
            },
            Err(_) => {},
            Ok(resolved) => {
                assert(dims[last] == dims.last());
                if let Ok(all) = shape::resolved_dims(dims, total, factor) {
                    assert forall|i: int| 0 <= i < dims.len() implies resolves(
                        dims[i],
                        #[trigger] all[i],
                        total,
                        factor,
                    ) by {
                        if i < last {
                            assert(all[i] == resolved[i]);
                            assert(resolves(front[i], resolved[i], total, factor));
                        }
                    }
                } else {
                    assert forall|j: int| 0 <= j < last implies #[trigger] dims[j] > 0 || (dims[j]
                        == -1 && divides) by {
                        assert(resolves(front[j], resolved[j], total, factor));
                    }
                    assert(first_invalid(dims, last, total as int, factor as int));
                }
            },
        }
    }
}

/// A resolved target keeps every positive dimension, replaces at most one
/// `-1`, and holds as many elements as the data. Each refusal says something
/// true of the target: it has two `-1`; a dimension is neither positive nor
/// `-1`; the positive dimensions do not divide the number of elements, though
/// one is `-1`; or what it resolves to holds another number of elements.
/// Nothing is said only where a product leaves the type.
pub proof fn law_reshape_targets(dims: Seq<i64>, old_len: usize)
    ensures
        ({
            let total = old_len as i64;
            let many = exists|i: int, j: int|
                0 <= i < j < dims.len() && #[trigger] dims[i] == -1 && #[trigger] dims[j] == -1;
            match shape::resolution(dims, old_len) {
                Some(Ok(resolved)) => {
                    &&& !many
                    &&& resolved.len() == dims.len()
                    &&& forall|i: int|
                        0 <= i < dims.len() && #[trigger] dims[i] != -1 ==> dims[i] > 0
                            && resolved[i] == dims[i] as usize
                    &&& old_len <= i64::MAX ==> dimensions(resolved, resolved.len()) == old_len
                },
                Some(Err(ResolveError::ManyUnknowns)) => many,
                Some(Err(ResolveError::InvalidDimension { dim })) => {
                    &&& !many
                    &&& dim <= 0 && dim != -1
                    &&& exists|i: int|
                        #[trigger] first_invalid(
                            dims,
                            i,
                            total as int,
                            known(dims, dims.len()),
                        ) && dims[i] == dim
                },
                Some(Err(ResolveError::Indivisible { total: all, known: part })) => {
                    &&& !many
                    &&& all == total
                    &&& part == known(dims, dims.len())
                    &&& all as int % part as int != 0
                    &&& exists|i: int|
                        #[trigger] first_invalid(
                            dims,
                            i,
                            total as int,
                            known(dims, dims.len()),
                        ) && dims[i] == -1
                },
                Some(Err(ResolveError::CountMismatch { resolved, count, total: all })) => {
                    &&& !many
                    &&& resolved.len() == dims.len()
                    &&& forall|i: int|
                        0 <= i < dims.len() && #[trigger] dims[i] != -1 ==> dims[i] > 0
                            && resolved[i] == dims[i]
                    &&& count == product(resolved, resolved.len())
                    &&& all == total
                    &&& count != all
                },
                None => {
                    &&& !many
                    &&& {
                        ||| exists|n: nat|
                            n <= dims.len() && #[trigger] known(dims, n) > i64::MAX
                        ||| exists|resolved: Seq<i64>, n: nat|
                            {
                                &&& resolved.len() == dims.len()
                                &&& forall|i: int|
                                    0 <= i < dims.len() && dims[i] != -1 ==> #[trigger] resolved[i]
                                        == dims[i]
                                &&& n <= dims.len()
                                &&& !(i64::MIN <= #[trigger] product(resolved, n) <= i64::MAX)
                            }
                    }
                },
            }
        }),
{
    let total = old_len as i64;
    let len = dims.len();
    lemma_unknowns(dims);
    if shape::unknowns(dims) <= 1 {
        lemma_prefix_products(dims, len);
        assert(dims.take(len as int) =~= dims);
        if !shape::known_fits(dims) {
            let n = choose|n: int|
                0 <= n <= len && #[trigger] shape::known_product(dims.take(n)) > i64::MAX;
            lemma_prefix_products(dims, n as nat);
            assert(known(dims, n as nat) > i64::MAX);
        } else {
            assert(shape::known_product(dims.take(len as int)) <= i64::MAX);
            shape::lemma_known_product_positive(dims);
            let factor = shape::known_product(dims) as i64;
            lemma_resolved(dims, total, factor);
            if let Ok(resolved) = shape::resolved_dims(dims, total, factor) {
                lemma_prefix_products(resolved, len);
                assert(resolved.take(len as int) =~= resolved);
                assert forall|i: int| 0 <= i < len && #[trigger] dims[i] != -1 implies dims[i] > 0
                    && resolved[i] == dims[i] by {
                    assert(resolves(dims[i], resolved[i], total, factor));
                }
                if !shape::dims_fit(resolved) {
                    let n = choose|n: int|
                        0 <= n <= len && !(i64::MIN <= #[trigger] shape::dims_product(
                            resolved.take(n),
                        ) <= i64::MAX);
                    lemma_prefix_products(resolved, n as nat);
                    assert(!(i64::MIN <= product(resolved, n as nat) <= i64::MAX));
                } else if shape::dims_product(resolved) == total {
                    let sizes = shape::resolution(dims, old_len)->Some_0->Ok_0;
                    if old_len <= i64::MAX {
                        shape::law_resolution_keeps_count(dims, old_len);
                        law_count_is_the_product(sizes);
                    }
                }
            }
        }
    }
}

// Axis insertion

/// An inserted axis has size one and stands at its position, counted from the
/// start, or from the end of the expanded shape where it is negative; the
/// other dimensions keep their order. An axis outside the expanded shape is
/// refused with the rank.
pub proof fn law_inserted_axes(shape: Seq<usize>, axis: i32)
    requires
        shape.len() < i32::MAX,
    ensures
        ({
            let at = if axis < 0 {
                shape.len() + 1 + axis
            } else {
                axis as int
            };
            match shape::expansion(shape, axis) {
                Some(Ok(expanded)) => {
                    &&& 0 <= at <= shape.len()
                    &&& expanded.len() == shape.len() + 1
                    &&& expanded[at] == 1
                    &&& forall|i: int| 0 <= i < at ==> #[trigger] expanded[i] == shape[i]
                    &&& forall|i: int|
                        at < i < expanded.len() ==> #[trigger] expanded[i] == shape[i - 1]
                },
                Some(Err(AxisError { axis: asked, rank })) => {
                    &&& at < 0 || at > shape.len()
                    &&& asked == axis
                    &&& rank == shape.len()
                },
                None => false,
            }
        }),
{
}

// Slices of shape vectors

/// Where a bound of a slice lies: counted from the end where it is negative,
/// and moved into the vector.
pub open spec fn bound(asked: int, len: int) -> int {
    let at = if asked < 0 {
        asked + len
    } else {
        asked
    };
    if at < 0 {
        0
    } else if at > len {
        len
    } else {
        at
    }
}

/// Where the walk of a slice starts: at its bound, or at the first stride
/// from it where it walks backwards from behind the last element.
pub open spec fn first_position(asked: int, len: int, stride: int) -> int {
    if stride < 0 && bound(asked, len) == len {
        len + stride
    } else {
        bound(asked, len)
    }
}

/// Whether a walk with a stride has not reached its end at a position.
pub open spec fn before(at: int, end: int, stride: int) -> bool {
    if stride > 0 {
        at < end
    } else {
        at > end
    }
}

/// Whether entry `k` of a selection is the element `k` strides behind the
/// first position, which lies in the vector and before the end.
pub open spec fn is_kth(
    selected: Seq<i64>,
    dims: Seq<i64>,
    from: int,
    end: int,
    stride: int,
    k: int,
) -> bool {
    let at = from + k * stride;
    &&& 0 <= at < dims.len()
    &&& before(at, end, stride)
    &&& selected[k] == dims[at]
}

/// Whether a selection holds every stride-th element from a position on, and
/// ends where the walk does.
pub open spec fn is_selection(
    selected: Seq<i64>,
    dims: Seq<i64>,
    from: int,
    end: int,
    stride: int,
) -> bool {
    &&& forall|k: int|
        0 <= k < selected.len() ==> #[trigger] is_kth(selected, dims, from, end, stride, k)
    &&& !before(from + selected.len() * stride, end, stride)
}

/// What a walk inside the vector selects.
proof fn lemma_walk(dims: Seq<i64>, i: int, end: int, stride: int)
    requires
        stride != 0,
        0 <= end <= dims.len(),
        before(i, end, stride) ==> 0 <= i < dims.len(),
    ensures
        is_selection(
            shape::slice_walk(dims, dims.len() as int, i, end, stride),
            dims,
            i,
            end,
            stride,
        ),
    decreases shape::slice_distance(i, end, stride),
{
    let len = dims.len() as int;
    let selected = shape::slice_walk(dims, len, i, end, stride);
    if shape::slice_continues(i, end, stride) {
        let next = i + stride;
        lemma_walk(dims, next, end, stride);
        let rest = shape::slice_walk(dims, len, next, end, stride);
        let n = selected.len() as int;
        assert(selected =~= seq![dims[i]] + rest);
        assert forall|k: int| 0 <= k < n implies #[trigger] is_kth(
            selected,
            dims,
            i,
            end,
            stride,
            k,
        ) by {
            if k == 0 {
                assert(0 * stride == 0);
            } else {
                assert(is_kth(rest, dims, next, end, stride, k - 1));
                assert(next + (k - 1) * stride == i + k * stride) by (nonlinear_arith)
                    requires
                        next == i + stride,
                ;
            }
        }
        assert(next + (n - 1) * stride == i + n * stride) by (nonlinear_arith)
            requires
                next == i + stride,
        ;
    } else {
        assert(selected.len() == 0);
        assert(0 * stride == 0);
    }
}

/// A step of a walk leaves the type only where the stride does not fit behind
/// the vector.
proof fn lemma_walk_fits(i: int, end: int, stride: int, len: int)
    requires
        0 <= i <= len,
        0 <= end <= len <= i32::MAX,
        i32::MIN <= stride <= i32::MAX - len,
    ensures
        shape::slice_walk_fits(i, end, stride),
    decreases shape::slice_distance(i, end, stride),
{
    if shape::slice_continues(i, end, stride) {
        let next = i + stride;
        if stride > 0 && next <= len || stride < 0 && next >= 0 {
            lemma_walk_fits(next, end, stride, len);
        } else {
            assert(!shape::slice_continues(next, end, stride));
        }
    }
}

/// A slice selects every stride-th element of the vector, from the first
/// bound on (from the last element on, where it walks backwards from the
/// end) and before the second. With `shrink` it must select one element.
/// Bounds that are not single values, and a stride of zero, are refused.
pub proof fn law_slices(
    dims: Seq<i64>,
    begin: Seq<i32>,
    end: Seq<i32>,
    strides: Seq<i32>,
    shrink: bool,
)
    requires
        dims.len() <= i32::MAX,
    ensures
        ({
            let single = begin.len() == 1 && end.len() == 1 && strides.len() == 1;
            let len = dims.len() as int;
            let stride = strides[0] as int;
            let from = first_position(begin[0] as int, len, stride);
            let last = bound(end[0] as int, len);
            let outcome = shape::slice_selection(dims, begin, end, strides, shrink);
            &&& outcome == Some(
                Err::<Seq<i64>, SliceError>(SliceError::NotOneDimensional),
            ) <==> !single
            &&& outcome == Some(Err::<Seq<i64>, SliceError>(SliceError::ZeroStride)) <==> single
                && stride == 0
            &&& outcome is None ==> single && stride > i32::MAX - len
            &&& (match outcome {
                Some(Ok(selected)) => is_selection(selected, dims, from, last, stride) && (shrink
                    ==> selected.len() == 1),
                Some(Err(SliceError::NotOneElement { selected })) => shrink && selected != 1
                    && exists|found: Seq<i64>|
                    found.len() == selected && #[trigger] is_selection(
                        found,
                        dims,
                        from,
                        last,
                        stride,
                    ),
                _ => true,
            })
        }),
{
    if begin.len() == 1 && end.len() == 1 && strides.len() == 1 && strides[0] != 0 {
        let len = dims.len() as int;
        let stride = strides[0] as int;
        let first = bound(begin[0] as int, len);
        let last = bound(end[0] as int, len);
        assert(dims.len() as i32 == len);
        assert(shape::slice_bound(begin[0], len as i32) == first);
        assert(shape::slice_bound(end[0], len as i32) == last);
        if stride <= i32::MAX - len {
            lemma_walk_fits(first, last, stride, len);
        }
        let found = shape::slice_walk(dims, len, first, last, stride);
        lemma_walk_len(dims, len, first, last, stride);
        if stride < 0 && first == len {
            // The position behind the last element selects nothing.
            let next = first + stride;
            lemma_walk(dims, next, last, stride);
            if last < len {
                assert(found == shape::slice_walk(dims, len, next, last, stride));
            } else {
                assert(found =~= Seq::<i64>::empty());
                assert(shape::slice_walk(dims, len, next, last, stride) =~= Seq::<i64>::empty());
            }
            assert(is_selection(found, dims, next, last, stride));
        } else {
            lemma_walk(dims, first, last, stride);
        }
        assert(is_selection(
            found,
            dims,
            first_position(begin[0] as int, len, stride),
            bound(end[0] as int, len),
            stride,
        ));
    }
}

/// A walk selects no more elements than the vector holds positions for it.
proof fn lemma_walk_len(dims: Seq<i64>, len: int, i: int, end: int, stride: int)
    ensures
        shape::slice_walk(dims, len, i, end, stride).len() <= shape::slice_distance(
            i,
            end,
            stride,
        ),
    decreases shape::slice_distance(i, end, stride),
{
    if shape::slice_continues(i, end, stride) {
        lemma_walk_len(dims, len, i + stride, end, stride);
    }
}

} // verus!
