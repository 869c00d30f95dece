//! Normalization of operator shapes to rank 2 or 4.
use crate::compiler::outcome;
use crate::compiler::schema::BuiltinOperator;
use crate::compiler::shape;
use crate::compiler::shape::checked_product;
use vstd::prelude::*;
use vstd::slice::slice_to_vec;

verus! {

/// A shape whose rank the engine does not support at some position.
#[derive(Debug, PartialEq, Eq)]
pub enum RankError<S> {
    /// The output of an operator.
    OperatorOutput { shape: S },
    /// The input of a windowed operator, which must have rank 4.
    WindowInput { shape: S },
    /// The input of an operator that is not windowed.
    OperatorInput { shape: S },
    /// The output of the model.
    ModelOutput { shape: S },
}

impl View for RankError<Vec<usize>> {
    type V = RankError<Seq<usize>>;

    open spec fn view(&self) -> RankError<Seq<usize>> {
        match *self {
            RankError::OperatorOutput { shape } => RankError::OperatorOutput { shape: shape@ },
            RankError::WindowInput { shape } => RankError::WindowInput { shape: shape@ },
            RankError::OperatorInput { shape } => RankError::OperatorInput { shape: shape@ },
            RankError::ModelOutput { shape } => RankError::ModelOutput { shape: shape@ },
        }
    }
}

/// The output shape of an operator, normalized to rank 2 or 4.
pub open spec fn normalized_output(kind: BuiltinOperator, raw: Seq<usize>) -> Result<
    Seq<usize>,
    RankError<Seq<usize>>,
> {
    if raw.len() == 1 {
        Ok(seq![1, raw[0]])
    } else if raw.len() == 2 || raw.len() == 4 {
        Ok(raw)
    } else if raw.len() == 3 && raw[0] == 1 && kind.is_conv_like() {
        Ok(seq![1, 1, raw[1], raw[2]])
    } else if raw.len() == 3 && raw[0] == 1 {
        Ok(seq![raw[1], raw[2]])
    } else {
        Err(RankError::OperatorOutput { shape: raw })
    }
}

/// The input shape of an operator, normalized to rank 2 or 4; `None` where
/// the element count of a flattened input overflows.
pub open spec fn normalized_input(kind: BuiltinOperator, raw: Seq<usize>) -> Option<
    Result<Seq<usize>, RankError<Seq<usize>>>,
> {
    if kind.is_conv_like() {
        if raw.len() == 4 {
            Some(Ok(raw))
        } else if raw.len() == 3 && raw[0] == 1 {
            Some(Ok(seq![1, 1, raw[1], raw[2]]))
        } else {
            Some(Err(RankError::WindowInput { shape: raw }))
        }
    } else if raw.len() == 0 {
        Some(Err(RankError::OperatorInput { shape: raw }))
    } else if raw.len() == 1 {
        Some(Ok(seq![1, raw[0]]))
    } else if raw.len() == 2 {
        Some(Ok(raw))
    } else if shape::count_fits(raw) {
        Some(Ok(seq![1, shape::count(raw) as usize]))
    } else {
        None
    }
}

/// The shape of the model output, normalized to rank 2 or 4; `None` where a
/// flattened size overflows.
pub open spec fn normalized_model_output(raw: Seq<usize>) -> Option<
    Result<Seq<usize>, RankError<Seq<usize>>>,
> {
    if raw.len() == 1 {
        Some(Ok(seq![1, raw[0]]))
    } else if raw.len() == 2 || raw.len() == 4 {
        Some(Ok(raw))
    } else if raw.len() == 3 && raw[0] == 1 {
        if raw[1] * raw[2] <= usize::MAX {
            Some(Ok(seq![1, (raw[1] * raw[2]) as usize]))
        } else {
            None
        }
    } else {
        Some(Err(RankError::ModelOutput { shape: raw }))
    }
}

/// The operator slides a window over its input.
fn conv_like(kind: BuiltinOperator) -> (yes: bool)
    ensures
        yes == kind.is_conv_like(),
{
    match kind {
        BuiltinOperator::CONV_2D
        | BuiltinOperator::DEPTHWISE_CONV_2D
        | BuiltinOperator::AVERAGE_POOL_2D => true,
        _ => false,
    }
}

/// Normalizes the output shape of a real operator to rank 2 or 4.
pub fn normalize_real_output(kind: BuiltinOperator, raw: Vec<usize>) -> (shape: Result<
    Vec<usize>,
    RankError<Vec<usize>>,
>)
    ensures
        outcome::view_of(Some(shape)) == Some(normalized_output(kind, raw@)),
{
    let rank: usize = raw.len();
    if rank == 1 {
        let shape: Vec<usize> = vec![1, raw[0]];
        assert(shape@ =~= seq![1, raw@[0]]);
        Ok(shape)
    } else if rank == 2 || rank == 4 {
        Ok(raw)
    } else if rank == 3 && raw[0] == 1 && conv_like(kind) {
        let shape: Vec<usize> = vec![1, 1, raw[1], raw[2]];
        assert(shape@ =~= seq![1, 1, raw@[1], raw@[2]]);
        Ok(shape)
    } else if rank == 3 && raw[0] == 1 {
        let shape: Vec<usize> = vec![raw[1], raw[2]];
        assert(shape@ =~= seq![raw@[1], raw@[2]]);
        Ok(shape)
    } else {
        Err(RankError::OperatorOutput { shape: raw })
    }
}

/// Normalizes the input shape of a real operator to rank 2 or 4, or returns
/// `None` where the element count of a flattened input overflows.
pub fn checked_normalize_real_input(kind: BuiltinOperator, raw: Vec<usize>) -> (shape: Option<
    Result<Vec<usize>, RankError<Vec<usize>>>,
>)
    ensures
        outcome::view_of(shape) == normalized_input(kind, raw@),
{
    let rank: usize = raw.len();
    if conv_like(kind) {
        if rank == 4 {
            Some(Ok(raw))
        } else if rank == 3 && raw[0] == 1 {
            let mut shape: Vec<usize> = slice_to_vec(raw.as_slice());
            shape.insert(1, 1);
            assert(shape@ =~= seq![1, 1, raw@[1], raw@[2]]);
            Some(Ok(shape))
        } else {
            Some(Err(RankError::WindowInput { shape: raw }))
        }
    } else if rank == 0 {
        Some(Err(RankError::OperatorInput { shape: raw }))
    } else if rank == 1 {
        let shape: Vec<usize> = vec![1, raw[0]];
        assert(shape@ =~= seq![1, raw@[0]]);
        Some(Ok(shape))
    } else if rank == 2 {
        Some(Ok(raw))
    } else {
        // A reshape chain may leave a higher-rank tensor at the boundary to a
        // fully connected or softmax layer: the data is flattened row-major,
        // as RESHAPE does.
        match checked_product(raw.as_slice()) {
            Some(flat) => {
                let shape: Vec<usize> = vec![1, flat];
                assert(shape@ =~= seq![1, flat]);
                Some(Ok(shape))
            },
            None => None,
        }
    }
}

/// Normalizes the input shape of a real operator to rank 2 or 4.
pub fn normalize_real_input(kind: BuiltinOperator, raw: Vec<usize>) -> (shape: Result<
    Vec<usize>,
    RankError<Vec<usize>>,
>)
    requires
        normalized_input(kind, raw@) is Some,
    ensures
        outcome::view_of(Some(shape)) == normalized_input(kind, raw@),
{
    checked_normalize_real_input(kind, raw).unwrap()
}

/// Normalizes the subgraph output shape (rank 2 or 4; a rank-3 `(1, a, b)`
/// output is presented to the user as the flattened `(1, a*b)`), or returns
/// `None` where the flattened size overflows.
pub fn checked_normalize_model_output(raw: &[usize]) -> (shape: Option<
    Result<Vec<usize>, RankError<Vec<usize>>>,
>)
    ensures
        outcome::view_of(shape) == normalized_model_output(raw@),
{
    let rank: usize = raw.len();
    if rank == 1 {
        let shape: Vec<usize> = vec![1, raw[0]];
        assert(shape@ =~= seq![1, raw@[0]]);
        Some(Ok(shape))
    } else if rank == 2 || rank == 4 {
        Some(Ok(slice_to_vec(raw)))
    } else if rank == 3 && raw[0] == 1 {
        match raw[1].checked_mul(raw[2]) {
            Some(flat) => {
                let shape: Vec<usize> = vec![1, flat];
                assert(shape@ =~= seq![1, flat]);
                Some(Ok(shape))
            },
            None => None,
        }
    } else {
        Some(Err(RankError::ModelOutput { shape: slice_to_vec(raw) }))
    }
}

/// Normalizes the subgraph output shape (rank 2 or 4; a rank-3 `(1, a, b)`
/// output is presented to the user as the flattened `(1, a*b)`).
pub fn normalize_model_output(raw: &[usize]) -> (shape: Result<Vec<usize>, RankError<Vec<usize>>>)
    requires
        normalized_model_output(raw@) is Some,
    ensures
        outcome::view_of(Some(shape)) == normalized_model_output(raw@),
{
    checked_normalize_model_output(raw).unwrap()
}

/// The shape has one of the two ranks that the engine works with.
pub open spec fn rank_supported(shape: Seq<usize>) -> bool {
    shape.len() == 2 || shape.len() == 4
}

/// Normalizing an operator output re-labels the data: the rank becomes 2 or 4
/// and the element count stays.
pub proof fn law_output_keeps_count(kind: BuiltinOperator, raw: Seq<usize>)
    requires
        normalized_output(kind, raw) is Ok,
    ensures
        rank_supported(normalized_output(kind, raw)->Ok_0),
        shape::count(normalized_output(kind, raw)->Ok_0) == shape::count(raw),
{
    let normalized = normalized_output(kind, raw)->Ok_0;
    if raw.len() == 1 || (raw.len() == 3 && kind.is_conv_like()) {
        shape::lemma_count_leading_one(normalized);
        assert(normalized.skip(1) =~= raw);
    } else if raw.len() == 3 {
        shape::lemma_count_leading_one(raw);
        assert(raw.skip(1) =~= normalized);
    }
}

/// Normalizing an operator input re-labels the data: the rank becomes 2 or 4
/// and the element count stays.
pub proof fn law_input_keeps_count(kind: BuiltinOperator, raw: Seq<usize>)
    requires
        normalized_input(kind, raw) matches Some(Ok(_)),
    ensures
        rank_supported(normalized_input(kind, raw)->Some_0->Ok_0),
        shape::count(normalized_input(kind, raw)->Some_0->Ok_0) == shape::count(raw),
{
    let normalized = normalized_input(kind, raw)->Some_0->Ok_0;
    if raw.len() == 1 || (raw.len() == 3 && kind.is_conv_like()) {
        shape::lemma_count_leading_one(normalized);
        assert(normalized.skip(1) =~= raw);
    } else if raw.len() > 2 && !kind.is_conv_like() {
        assert(raw.take(raw.len() as int) =~= raw);
        shape::lemma_count_leading_one(normalized);
        shape::lemma_count_1(normalized.skip(1));
    }
}

/// Normalizing the model output re-labels the data: the rank becomes 2 or 4
/// and the element count stays.
pub proof fn law_model_output_keeps_count(raw: Seq<usize>)
    requires
        normalized_model_output(raw) matches Some(Ok(_)),
    ensures
        rank_supported(normalized_model_output(raw)->Some_0->Ok_0),
        shape::count(normalized_model_output(raw)->Some_0->Ok_0) == shape::count(raw),
{
    let normalized = normalized_model_output(raw)->Some_0->Ok_0;
    if raw.len() == 1 {
        shape::lemma_count_leading_one(normalized);
        assert(normalized.skip(1) =~= raw);
    } else if raw.len() == 3 {
        shape::lemma_count_leading_one(raw);
        shape::lemma_count_2(raw.skip(1));
        shape::lemma_count_leading_one(normalized);
        shape::lemma_count_1(normalized.skip(1));
    }
}

} // verus!
