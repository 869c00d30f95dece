//! Which shapes normalization accepts, and what it makes of them.
use crate::compiler::normalize;
use crate::compiler::normalize::RankError;
use crate::compiler::schema::BuiltinOperator;
use crate::compiler::shape;
use vstd::prelude::*;

verus! {

/// Whether an operator slides a window over its input.
pub open spec fn slides_a_window(kind: BuiltinOperator) -> bool {
    kind is CONV_2D || kind is DEPTHWISE_CONV_2D || kind is AVERAGE_POOL_2D
}

/// Whether `longer` is `shorter` with leading dimensions of size one.
pub open spec fn leads_with_ones(longer: Seq<usize>, shorter: Seq<usize>) -> bool {
    &&& longer.len() >= shorter.len()
    &&& forall|i: int| 0 <= i < longer.len() - shorter.len() ==> #[trigger] longer[i] == 1
    &&& forall|i: int|
        longer.len() - shorter.len() <= i < longer.len() ==> #[trigger] longer[i] == shorter[i - (
        longer.len() - shorter.len())]
}

/// An operator output of rank 2 or 4 stays. One of rank 1 gets a leading
/// axis. One of rank 3 with a batch of one gets a row axis behind a window, and
/// loses its batch axis otherwise. Any other is refused with its shape.
pub proof fn law_normalized_outputs(kind: BuiltinOperator, raw: Seq<usize>)
    ensures
        match normalize::normalized_output(kind, raw) {
            Ok(shape) => {
                &&& raw.len() == 2 || raw.len() == 4 ==> shape == raw
                &&& raw.len() == 1 ==> shape.len() == 2 && leads_with_ones(shape, raw)
                &&& raw.len() == 3 ==> raw[0] == 1
                &&& raw.len() == 3 && slides_a_window(kind) ==> shape.len() == 4
                    && leads_with_ones(shape, raw)
                &&& raw.len() == 3 && !slides_a_window(kind) ==> shape.len() == 2
                    && leads_with_ones(raw, shape)
                &&& 1 <= raw.len() <= 4
            },
            Err(RankError::OperatorOutput { shape }) => {
                &&& shape == raw
                &&& raw.len() == 0 || raw.len() > 4 || (raw.len() == 3 && raw[0] != 1)
            },
            Err(_) => false,
        },
{
}

/// The input of a window of rank 4 stays, and one of rank 3 with a batch of
/// one gets a row axis. Any other operator takes rank 2 as it is, gives rank 1
/// a leading axis, and flattens what is of a higher rank into a single row.
/// What is left is refused with its shape.
pub proof fn law_normalized_inputs(kind: BuiltinOperator, raw: Seq<usize>)
    ensures
        match normalize::normalized_input(kind, raw) {
            None => !slides_a_window(kind) && raw.len() > 2 && !shape::count_fits(raw),
            Some(Ok(shape)) => {
                if slides_a_window(kind) {
                    &&& raw.len() == 4 ==> shape == raw
                    &&& raw.len() == 3 ==> raw[0] == 1 && shape.len() == 4 && leads_with_ones(
                        shape,
                        raw,
                    )
                    &&& raw.len() == 3 || raw.len() == 4
                } else {
                    &&& raw.len() == 2 ==> shape == raw
                    &&& raw.len() == 1 ==> shape.len() == 2 && leads_with_ones(shape, raw)
                    &&& raw.len() > 2 ==> shape.len() == 2 && shape[0] == 1 && shape[1]
                        == shape::count(raw)
                    &&& raw.len() > 0
                }
            },
            Some(Err(RankError::WindowInput { shape })) => {
                &&& shape == raw
                &&& slides_a_window(kind)
                &&& raw.len() != 4 && !(raw.len() == 3 && raw[0] == 1)
            },
            Some(Err(RankError::OperatorInput { shape })) => {
                &&& shape == raw
                &&& !slides_a_window(kind)
                &&& raw.len() == 0
            },
            Some(Err(_)) => false,
        },
{
    assert(raw.take(raw.len() as int) =~= raw);
}

/// A model output of rank 2 or 4 stays. One of rank 1 gets a leading axis.
/// One of rank 3 with a batch of one is flattened into a single row. Any other
/// is refused with its shape.
pub proof fn law_normalized_model_outputs(raw: Seq<usize>)
    ensures
        match normalize::normalized_model_output(raw) {
            None => raw.len() == 3 && raw[0] == 1 && raw[1] * raw[2] > usize::MAX,
            Some(Ok(shape)) => {
                &&& raw.len() == 2 || raw.len() == 4 ==> shape == raw
                &&& raw.len() == 1 ==> shape.len() == 2 && leads_with_ones(shape, raw)
                &&& raw.len() == 3 ==> raw[0] == 1 && shape.len() == 2 && shape[0] == 1 && shape[1]
                    == raw[1] * raw[2]
                &&& 1 <= raw.len() <= 4
            },
            Some(Err(RankError::ModelOutput { shape })) => {
                &&& shape == raw
                &&& raw.len() == 0 || raw.len() > 4 || (raw.len() == 3 && raw[0] != 1)
            },
            Some(Err(_)) => false,
        },
{
    if raw.len() == 3 {
        assert(raw[1] * raw[2] >= 0) by (nonlinear_arith)
            requires
                raw[1] >= 0,
                raw[2] >= 0,
        ;
    }
}

} // verus!
