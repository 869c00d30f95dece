//! Conversions between two layers whose effective shapes differ.
use crate::compiler::outcome;
use crate::compiler::shape;
use crate::compiler::shape::checked_product;
use vstd::prelude::*;
use vstd::slice::slice_to_vec;

verus! {

/// Why data of one shape cannot be handed to a layer of another.
#[derive(Debug, PartialEq, Eq)]
pub enum ConversionError<S> {
    /// The shapes hold different numbers of elements.
    CountMismatch { from: S, to: S, from_count: usize, to_count: usize },
    /// The batch dimension is not preserved.
    Batch { from: S, to: S },
    /// The combination of ranks and shapes is not supported.
    Unsupported { from: S, to: S },
}

impl View for ConversionError<Vec<usize>> {
    type V = ConversionError<Seq<usize>>;

    open spec fn view(&self) -> ConversionError<Seq<usize>> {
        match *self {
            ConversionError::CountMismatch {
                from,
                to,
                from_count,
                to_count,
            } => ConversionError::CountMismatch { from: from@, to: to@, from_count, to_count },
            ConversionError::Batch { from, to } => ConversionError::Batch { from: from@, to: to@ },
            ConversionError::Unsupported { from, to } => ConversionError::Unsupported {
                from: from@,
                to: to@,
            },
        }
    }
}

/// The reshapes to perform one after the other, by their target shapes.
#[derive(Debug, PartialEq, Eq)]
pub struct Conversion {
    pub steps: Vec<Vec<usize>>,
}

impl View for Conversion {
    type V = Seq<Seq<usize>>;

    open spec fn view(&self) -> Seq<Seq<usize>> {
        Seq::new(self.steps@.len(), |i: int| self.steps@[i]@)
    }
}

/// The rank-2 form `(batch, rest)` of a shape.
pub open spec fn flattened(shape: Seq<usize>) -> Seq<usize> {
    seq![shape[0], (shape::count(shape) / shape[0] as nat) as usize]
}

/// The reshapes that turn data of shape `from` into shape `to`; `None` where
/// an element count overflows or a rank-4 batch dimension is zero.
pub open spec fn conversion(from: Seq<usize>, to: Seq<usize>) -> Option<
    Result<Seq<Seq<usize>>, ConversionError<Seq<usize>>>,
> {
    if from == to {
        Some(Ok(Seq::empty()))
    } else if !shape::count_fits(from) || !shape::count_fits(to) {
        None
    } else if shape::count(from) != shape::count(to) {
        Some(
            Err(
                ConversionError::CountMismatch {
                    from,
                    to,
                    from_count: shape::count(from) as usize,
                    to_count: shape::count(to) as usize,
                },
            ),
        )
    } else if from.len() == 4 && to.len() == 2 && to[0] != from[0] {
        Some(Err(ConversionError::Batch { from, to }))
    } else if from.len() == 4 && from[0] == 0 {
        None
    } else if from.len() == 4 && to.len() == 2 {
        Some(Ok(seq![to]))
    } else if (from.len() == 4 || from.len() == 2) && to.len() == 4 {
        if from[0] != to[0] {
            Some(Err(ConversionError::Batch { from, to }))
        } else if from.len() == 4 {
            Some(Ok(seq![flattened(from), to]))
        } else {
            Some(Ok(seq![to]))
        }
    } else {
        Some(Err(ConversionError::Unsupported { from, to }))
    }
}

/// Compares two shapes.
pub fn same_shape(a: &[usize], b: &[usize]) -> (same: bool)
    ensures
        same == (a@ == b@),
{
    if a.len() != b.len() {
        return false;
    }
    let mut i: usize = 0;
    while i < a.len()
        invariant
            i <= a.len(),
            a.len() == b.len(),
            forall|k: int| 0 <= k < i ==> a@[k] == b@[k],
        decreases a.len() - i,
    {
        if a[i] != b[i] {
            assert(a@ != b@);
            return false;
        }
        i = i + 1;
    }
    assert(a@ =~= b@);
    true
}

/// A rank-2 shape that keeps the batch dimension and the element count is the
/// flattened form.
proof fn lemma_flattened_target(from: Seq<usize>, to: Seq<usize>)
    requires
        from.len() >= 1,
        to.len() == 2,
        from[0] > 0,
        from[0] == to[0],
        shape::count(from) == shape::count(to),
    ensures
        flattened(from) == to,
{
    let batch = to[0] as int;
    let rest = to[1] as int;
    shape::lemma_count_2(to);
    assert((batch * rest) / batch == rest) by (nonlinear_arith)
        requires
            batch > 0,
    ;
    assert(flattened(from) =~= to);
}

/// Plans the conversion needed between two layers whose effective shapes
/// differ (a folded RESHAPE), or returns `None` where an element count
/// overflows or a rank-4 batch dimension is zero. A rank change is a single
/// reshape; a 4D -> 4D reshape hops through the flattened 2D form.
pub fn checked_conversion_steps(from: &[usize], to: &[usize]) -> (conversion: Option<
    Result<Conversion, ConversionError<Vec<usize>>>,
>)
    ensures
        outcome::view_of(conversion) == self::conversion(from@, to@),
{
    let mut steps: Vec<Vec<usize>> = Vec::new();
    if same_shape(from, to) {
        let conversion: Conversion = Conversion { steps };
        assert(conversion@ =~= Seq::<Seq<usize>>::empty());
        return Some(Ok(conversion));
    }
    let (from_count, to_count): (usize, usize) = match (checked_product(from), checked_product(to)) {
        (Some(from_count), Some(to_count)) => (from_count, to_count),
        _ => {
            return None;
        },
    };
    if from_count != to_count {
        return Some(
            Err(
                ConversionError::CountMismatch {
                    from: slice_to_vec(from),
                    to: slice_to_vec(to),
                    from_count,
                    to_count,
                },
            ),
        );
    }
    let mut current: Vec<usize> = slice_to_vec(from);
    if from.len() == 4 {
        if to.len() == 2 && to[0] != from[0] {
            return Some(
                Err(ConversionError::Batch { from: slice_to_vec(from), to: slice_to_vec(to) }),
            );
        }
        if from[0] == 0 {
            return None;
        }
        let flat: Vec<usize> = vec![from[0], from_count / from[0]];
        assert(flat@ =~= flattened(from@));
        steps.push(slice_to_vec(flat.as_slice()));
        current = flat;
        proof {
            if to.len() == 2 {
                lemma_flattened_target(from@, to@);
            }
        }
    }
    if to.len() == 4 && current.len() == 2 {
        if current[0] != to[0] {
            return Some(
                Err(ConversionError::Batch { from: slice_to_vec(from), to: slice_to_vec(to) }),
            );
        }
        steps.push(slice_to_vec(to));
        current = slice_to_vec(to);
    }
    if !same_shape(current.as_slice(), to) {
        return Some(
            Err(ConversionError::Unsupported { from: slice_to_vec(from), to: slice_to_vec(to) }),
        );
    }
    let conversion: Conversion = Conversion { steps };
    proof {
        if from.len() == 4 && to.len() == 4 {
            assert(conversion@ =~= seq![flattened(from@), to@]);
        } else {
            assert(conversion@ =~= seq![to@]);
        }
    }
    Some(Ok(conversion))
}

/// Plans the conversion needed between two layers whose effective shapes
/// differ (a folded RESHAPE). A rank change is a single reshape; a 4D -> 4D
/// reshape hops through the flattened 2D form.
pub fn conversion_steps(from: &[usize], to: &[usize]) -> (conversion: Result<
    Conversion,
    ConversionError<Vec<usize>>,
>)
    requires
        self::conversion(from@, to@) is Some,
    ensures
        outcome::view_of(Some(conversion)) == self::conversion(from@, to@),
{
    checked_conversion_steps(from, to).unwrap()
}

/// The rank-2 form of a shape holds as many elements.
proof fn lemma_flattened_count(shape: Seq<usize>)
    requires
        shape.len() >= 1,
        shape[0] > 0,
        shape::count_fits(shape),
    ensures
        shape::count(flattened(shape)) == shape::count(shape),
{
    let batch = shape[0] as int;
    let count = shape::count(shape) as int;
    let rest = shape::count(shape.skip(1)) as int;
    assert(shape =~= shape.take(1) + shape.skip(1));
    shape::lemma_count_concat(shape.take(1), shape.skip(1));
    shape::lemma_count_1(shape.take(1));
    assert(count == batch * rest);
    assert((batch * rest) / batch == rest) by (nonlinear_arith)
        requires
            batch > 0,
    ;
    assert(shape.take(shape.len() as int) =~= shape);
    assert(rest <= batch * rest) by (nonlinear_arith)
        requires
            batch > 0,
            rest >= 0,
    ;
    shape::lemma_count_2(flattened(shape));
}

/// A conversion hands the data on whole: every reshape keeps the element
/// count and the batch dimension, changes the rank between 2 and 4, and the
/// last one leaves the wanted shape. Nothing is done where the shapes are
/// equal.
pub proof fn law_conversion_keeps_data(from: Seq<usize>, to: Seq<usize>)
    requires
        conversion(from, to) matches Some(Ok(_)),
    ensures
        ({
            let steps = conversion(from, to)->Some_0->Ok_0;
            &&& steps.len() == 0 <==> from == to
            &&& steps.len() > 0 ==> steps.last() == to
            &&& forall|i: int|
                0 <= i < steps.len() ==> {
                    let before = if i == 0 {
                        from
                    } else {
                        steps[i - 1]
                    };
                    &&& shape::count(#[trigger] steps[i]) == shape::count(from)
                    &&& steps[i][0] == from[0]
                    &&& (before.len() == 2 && steps[i].len() == 4) || (before.len() == 4
                        && steps[i].len() == 2)
                }
        }),
{
    if from != to && from.len() == 4 && to.len() == 4 {
        lemma_flattened_count(from);
    }
}

/// Shapes of rank 2 or 4 that differ are converted exactly where they agree
/// on the element count and on a batch dimension above zero, and are not
/// both of rank 2.
pub proof fn law_agreeing_shapes_convert(from: Seq<usize>, to: Seq<usize>)
    requires
        from != to,
        from.len() == 2 || from.len() == 4,
        to.len() == 2 || to.len() == 4,
        from[0] > 0,
        shape::count_fits(from),
        shape::count_fits(to),
    ensures
        (conversion(from, to) matches Some(Ok(_))) <==> shape::count(from) == shape::count(to)
            && from[0] == to[0] && !(from.len() == 2 && to.len() == 2),
{
}

/// Each refusal of a conversion says something true of the two shapes: their
/// element counts differ, or they agree and the batch dimensions differ, or
/// both agree and the ranks are not among those that are supported.
pub proof fn law_refused_conversions(from: Seq<usize>, to: Seq<usize>)
    ensures
        ({
            let ranks = (from.len() == 4 && (to.len() == 2 || to.len() == 4)) || (from.len() == 2
                && to.len() == 4);
            match conversion(from, to) {
                None => !shape::count_fits(from) || !shape::count_fits(to) || (from.len() == 4
                    && from[0] == 0),
                Some(Ok(_)) => true,
                Some(
                    Err(
                        ConversionError::CountMismatch {
                            from: source,
                            to: target,
                            from_count,
                            to_count,
                        },
                    ),
                ) => {
                    &&& source == from && target == to
                    &&& from_count == shape::count(from)
                    &&& to_count == shape::count(to)
                    &&& from_count != to_count
                },
                Some(Err(ConversionError::Batch { from: source, to: target })) => {
                    &&& source == from && target == to
                    &&& shape::count(from) == shape::count(to)
                    &&& ranks
                    &&& from[0] != to[0]
                },
                Some(Err(ConversionError::Unsupported { from: source, to: target })) => {
                    &&& source == from && target == to
                    &&& from != to
                    &&& shape::count(from) == shape::count(to)
                    &&& !ranks
                },
            }
        }),
{
    assert(from.take(from.len() as int) =~= from);
    assert(to.take(to.len() as int) =~= to);
}

/// A conversion takes no reshape between equal shapes, one between shapes of
/// different rank, and two between shapes of rank 4.
pub proof fn law_conversions_are_short(from: Seq<usize>, to: Seq<usize>)
    requires
        conversion(from, to) matches Some(Ok(_)),
    ensures
        conversion(from, to)->Some_0->Ok_0.len() == (if from == to {
            0int
        } else if from.len() != to.len() {
            1
        } else {
            2
        }),
{
}

} // verus!
