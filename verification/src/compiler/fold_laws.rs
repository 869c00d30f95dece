//! What folding keeps: the order of the real operators, and the data that
//! flows between them.
use crate::compiler::fold;
use crate::compiler::fold::{
    FoldError, FoldErrorView, FoldStateView, FoldedOpView, Label, Value, ValueView,
};
use crate::compiler::normalize;
use crate::compiler::schema;
use crate::compiler::schema::{BuiltinOperator, Graph};
use crate::compiler::shape;
use vstd::prelude::*;

verus! {

/// The kind of the operator at `index`.
pub open spec fn kind_at(graph: Graph, index: int) -> BuiltinOperator {
    schema::resolved_kind(
        graph.operator_codes@[graph.operators@[index].opcode_index as int],
    )
}

/// The tensor that the operator at `index` writes.
pub open spec fn output_at(graph: Graph, index: int) -> int {
    fold::table_position(schema::entries(graph.operators@[index].outputs)[0])
}

/// The shape of the data that reaches the real operator at position `k`: that
/// of the model input, or the output of the real operator before it.
pub open spec fn incoming_shape(
    raw_input_shape: Seq<usize>,
    ops: Seq<FoldedOpView>,
    k: int,
) -> Seq<usize> {
    if k == 0 {
        raw_input_shape
    } else {
        ops[k - 1].output_shape
    }
}

/// `op` is the operator of the graph at its index, with a real kind, shapes
/// of rank 2 or 4, and the output shape that the file declares.
pub open spec fn kept_op(graph: Graph, op: FoldedOpView) -> bool {
    &&& op.index < graph.operators@.len()
    &&& op.kind == kind_at(graph, op.index as int)
    &&& op.kind.is_real()
    &&& normalize::rank_supported(op.input_shape)
    &&& normalize::rank_supported(op.output_shape)
    &&& output_at(graph, op.index as int) < graph.tensors@.len()
    &&& shape::count(op.output_shape) == shape::count(
        schema::shape_of(graph.tensors@[output_at(graph, op.index as int)]),
    )
}

/// `ops` are the real ones among the first `n` operators, in their order.
pub open spec fn kept_ops(graph: Graph, ops: Seq<FoldedOpView>, n: int) -> bool {
    &&& forall|k: int| 0 <= k < ops.len() ==> kept_op(graph, #[trigger] ops[k]) && ops[k].index < n
    &&& forall|j: int, k: int|
        0 <= j < k < ops.len() ==> (#[trigger] ops[j]).index < (#[trigger] ops[k]).index
    &&& forall|index: int|
        0 <= index < n && (#[trigger] kind_at(graph, index)).is_real() ==> exists|k: int|
            0 <= k < ops.len() && (#[trigger] ops[k]).index == index
}

/// One step keeps the real operators and nothing else.
proof fn lemma_step_keeps_ops(graph: Graph, state: FoldStateView, index: usize)
    requires
        index < graph.operators@.len(),
        kept_ops(graph, state.ops, index as int),
        fold::step(graph, state, index) matches Some(Ok(_)),
    ensures
        kept_ops(graph, fold::step(graph, state, index)->Some_0->Ok_0.ops, index + 1),
{
    let next = fold::step(graph, state, index)->Some_0->Ok_0;
    let kind = kind_at(graph, index as int);
    if kind.is_real() {
        let output = output_at(graph, index as int) as usize;
        let op = fold::real_op(graph, index, kind, state.values, state.current, output)->Some_0->Ok_0;
        let inputs = schema::entries(graph.operators@[index as int].inputs);
        let data = fold::data_of(fold::Label::RealOperator, index, inputs[0], state.values)->Ok_0;
        assert(next.ops == state.ops.push(op));
        normalize::law_input_keeps_count(kind, data.1);
        normalize::law_output_keeps_count(
            kind,
            schema::shape_of(graph.tensors@[output as int]),
        );
        assert(kept_op(graph, op));
        assert forall|k: int| 0 <= k < next.ops.len() implies kept_op(graph, #[trigger] next.ops[k])
            && next.ops[k].index < index + 1 by {
            if k < state.ops.len() {
                assert(next.ops[k] == state.ops[k]);
            }
        }
        assert forall|i: int|
            0 <= i < index + 1 && (#[trigger] kind_at(graph, i)).is_real() implies exists|k: int|
            0 <= k < next.ops.len() && (#[trigger] next.ops[k]).index == i by {
            if i < index {
                let k = choose|k: int| 0 <= k < state.ops.len() && (#[trigger] state.ops[k]).index == i;
                assert(next.ops[k] == state.ops[k]);
            } else {
                assert(next.ops[state.ops.len() as int].index == i);
            }
        }
    } else {
        assert(next.ops == state.ops);
    }
}

/// The first `n` operators leave the real ones among them.
proof fn lemma_state_keeps_ops(graph: Graph, start: FoldStateView, n: nat)
    requires
        n <= graph.operators@.len(),
        start.ops.len() == 0,
        fold::state_after(graph, start, n) matches Some(Ok(_)),
    ensures
        kept_ops(graph, fold::state_after(graph, start, n)->Some_0->Ok_0.ops, n as int),
    decreases n,
{
    if n > 0 {
        assert(n <= graph.operators.len());
        lemma_state_keeps_ops(graph, start, (n - 1) as nat);
        let state = fold::state_after(graph, start, (n - 1) as nat)->Some_0->Ok_0;
        lemma_step_keeps_ops(graph, state, (n - 1) as usize);
    }
}

/// Folding drops the shape operators and nothing else: what remains are the
/// real operators of the graph, all of them, in execution order, and every
/// effective shape has rank 2 or 4.
pub proof fn law_real_operators_remain(
    graph: Graph,
    input: usize,
    output: usize,
    raw_input_shape: Seq<usize>,
)
    requires
        fold::folded(graph, input, output, raw_input_shape) matches Some(Ok(_)),
    ensures
        ({
            let folded = fold::folded(graph, input, output, raw_input_shape)->Some_0->Ok_0;
            &&& kept_ops(graph, folded.ops, graph.operators@.len() as int)
            &&& normalize::rank_supported(folded.output_shape)
        }),
{
    let start = fold::initial_state(graph.tensors@.len(), input, raw_input_shape);
    let n = graph.operators@.len();
    lemma_state_keeps_ops(graph, start, n);
    let state = fold::state_after(graph, start, n)->Some_0->Ok_0;
    let shape = state.values[output as int]->Some_0->Data_shape;
    normalize::law_model_output_keeps_count(shape);
}

/// The number of elements that the file declares for a tensor.
pub open spec fn declared_count(graph: Graph, tensor: int) -> nat {
    shape::count(schema::shape_of(graph.tensors@[tensor]))
}

/// The model input and the outputs of the real operators are declared with at
/// most `i64::MAX` elements.
pub open spec fn counts_within_i64(graph: Graph, input: usize) -> bool {
    &&& declared_count(graph, input as int) <= i64::MAX
    &&& forall|i: int|
        0 <= i < graph.operators@.len() && (#[trigger] kind_at(graph, i)).is_real() && output_at(
            graph,
            i,
        ) < graph.tensors@.len() ==> declared_count(graph, output_at(graph, i)) <= i64::MAX
}

/// The tensor whose data the chain holds after some real operators.
pub open spec fn held_tensor(graph: Graph, input: usize, ops: Seq<FoldedOpView>) -> int {
    if ops.len() == 0 {
        input as int
    } else {
        output_at(graph, ops.last().index as int)
    }
}

/// Whatever is known as data holds as many elements as its origin declares,
/// and every real operator takes as many as the chain holds before it.
pub open spec fn data_kept(
    graph: Graph,
    input: usize,
    raw_input_shape: Seq<usize>,
    state: FoldStateView,
) -> bool {
    &&& state.current == held_tensor(graph, input, state.ops)
    &&& forall|p: int|
        0 <= p < state.values.len() ==> match #[trigger] state.values[p] {
            Some(Value::Data { origin, shape }) => {
                &&& shape::count(shape) == declared_count(graph, origin as int)
                &&& declared_count(graph, origin as int) <= i64::MAX
            },
            _ => true,
        }
    &&& forall|k: int|
        0 <= k < state.ops.len() ==> shape::count((#[trigger] state.ops[k]).input_shape)
            == shape::count(incoming_shape(raw_input_shape, state.ops, k))
}

/// A shape operator passes data on under its origin, with its element count.
pub proof fn law_shape_operators_keep_data(
    graph: Graph,
    index: usize,
    values: Seq<Option<ValueView>>,
)
    requires
        index < graph.operators@.len(),
    ensures
        ({
            let inputs = schema::entries(graph.operators@[index as int].inputs);
            let passes = |label: fold::Label, value: ValueView|
                {
                    let data = fold::data_of(label, index, inputs[0], values)->Ok_0;
                    &&& value->origin == data.0
                    &&& shape::count(data.1) <= i64::MAX ==> shape::count(value->shape)
                        == shape::count(data.1)
                };
            &&& fold::expand_dims_value(graph, index, values) matches Some(Ok(value)) ==> value
                is Data && passes(fold::Label::ExpandDims, value)
            &&& fold::reshape_value(graph, index, values) matches Some(Ok(value)) ==> value is Data
                && passes(fold::Label::Reshape, value)
        }),
{
    let inputs = schema::entries(graph.operators@[index as int].inputs);
    if fold::expand_dims_value(graph, index, values) matches Some(Ok(value)) {
        let (origin, from) = fold::data_of(
            fold::Label::ExpandDims,
            index,
            inputs[0],
            values,
        )->Ok_0;
        let axis = crate::compiler::constants::scalar_constant(
            graph.tensors@,
            graph.buffers@,
            inputs[1] as usize,
        )->Some_0->Ok_0;
        shape::law_expansion_keeps_count(from, axis);
    }
    if fold::reshape_value(graph, index, values) matches Some(Ok(value)) {
        let (origin, from) = fold::data_of(
            fold::Label::Reshape,
            index,
            inputs[0],
            values,
        )->Ok_0;
        let dims = fold::reshape_target(graph, index, values)->Some_0->Ok_0;
        assert(from.take(from.len() as int) =~= from);
        if shape::count(from) <= i64::MAX {
            shape::law_resolution_keeps_count(dims, shape::count(from) as usize);
        }
    }
}

/// A value that a shape operator records keeps what is known of the data.
proof fn lemma_recorded_keeps_data(
    graph: Graph,
    input: usize,
    raw_input_shape: Seq<usize>,
    state: FoldStateView,
    index: usize,
    output: usize,
    value: ValueView,
)
    requires
        index < graph.operators@.len(),
        output < state.values.len(),
        data_kept(graph, input, raw_input_shape, state),
        ({
            ||| fold::expand_dims_value(graph, index, state.values) == Some(
                Ok::<ValueView, fold::FoldErrorView>(value),
            )
            ||| fold::reshape_value(graph, index, state.values) == Some(
                Ok::<ValueView, fold::FoldErrorView>(value),
            )
            ||| value is Dims
        }),
    ensures
        data_kept(
            graph,
            input,
            raw_input_shape,
            FoldStateView {
                values: state.values.update(output as int, Some(value)),
                current: state.current,
                ops: state.ops,
            },
        ),
{
    law_shape_operators_keep_data(graph, index, state.values);
    let inputs = schema::entries(graph.operators@[index as int].inputs);
    let values = state.values.update(output as int, Some(value));
    if value is Data {
        let at = fold::table_position(inputs[0]);
        assert(state.values[at] matches Some(Value::Data { origin, shape }) && origin
            == value->origin);
    }
    assert forall|p: int| 0 <= p < values.len() implies match #[trigger] values[p] {
        Some(Value::Data { origin, shape }) => {
            &&& shape::count(shape) == declared_count(graph, origin as int)
            &&& declared_count(graph, origin as int) <= i64::MAX
        },
        _ => true,
    } by {
        if p != output {
            assert(values[p] == state.values[p]);
        }
    }
}

/// The data that the chain holds has as many elements as its tensor declares.
proof fn lemma_held_count(
    graph: Graph,
    input: usize,
    raw_input_shape: Seq<usize>,
    ops: Seq<FoldedOpView>,
    n: int,
)
    requires
        kept_ops(graph, ops, n),
        shape::count(raw_input_shape) == declared_count(graph, input as int),
    ensures
        shape::count(incoming_shape(raw_input_shape, ops, ops.len() as int)) == declared_count(
            graph,
            held_tensor(graph, input, ops),
        ),
{
    if ops.len() > 0 {
        assert(kept_op(graph, ops[ops.len() - 1]));
    }
}

/// One step keeps what is known of the data.
proof fn lemma_step_keeps_data(
    graph: Graph,
    input: usize,
    raw_input_shape: Seq<usize>,
    state: FoldStateView,
    index: usize,
)
    requires
        index < graph.operators@.len(),
        shape::count(raw_input_shape) == declared_count(graph, input as int),
        counts_within_i64(graph, input),
        kept_ops(graph, state.ops, index as int),
        data_kept(graph, input, raw_input_shape, state),
        fold::step(graph, state, index) matches Some(Ok(_)),
    ensures
        data_kept(
            graph,
            input,
            raw_input_shape,
            fold::step(graph, state, index)->Some_0->Ok_0,
        ),
{
    let next = fold::step(graph, state, index)->Some_0->Ok_0;
    let kind = kind_at(graph, index as int);
    let output = output_at(graph, index as int) as usize;
    if kind.is_real() {
        let op = fold::real_op(
            graph,
            index,
            kind,
            state.values,
            state.current,
            output,
        )->Some_0->Ok_0;
        let inputs = schema::entries(graph.operators@[index as int].inputs);
        let at = fold::table_position(inputs[0]);
        let data = fold::data_of(fold::Label::RealOperator, index, inputs[0], state.values)->Ok_0;
        assert(state.values[at] matches Some(Value::Data { origin, shape }) && origin
            == state.current && shape == data.1);
        lemma_held_count(graph, input, raw_input_shape, state.ops, index as int);
        normalize::law_input_keeps_count(kind, data.1);
        normalize::law_output_keeps_count(
            kind,
            schema::shape_of(graph.tensors@[output as int]),
        );
        assert(next.ops == state.ops.push(op));
        assert(next.ops[state.ops.len() as int] == op);
        assert forall|p: int| 0 <= p < next.values.len() implies match #[trigger] next.values[p] {
            Some(Value::Data { origin, shape }) => {
                &&& shape::count(shape) == declared_count(graph, origin as int)
                &&& declared_count(graph, origin as int) <= i64::MAX
            },
            _ => true,
        } by {
            if p != output {
                assert(next.values[p] == state.values[p]);
            }
        }
        assert forall|k: int| 0 <= k < next.ops.len() implies shape::count(
            (#[trigger] next.ops[k]).input_shape,
        ) == shape::count(incoming_shape(raw_input_shape, next.ops, k)) by {
            if k < state.ops.len() {
                assert(next.ops[k] == state.ops[k]);
                if k > 0 {
                    assert(next.ops[k - 1] == state.ops[k - 1]);
                }
            } else if k > 0 {
                assert(next.ops[k - 1] == state.ops[k - 1]);
            }
        }
    } else {
        let value = next.values[output as int]->Some_0;
        lemma_recorded_keeps_data(
            graph,
            input,
            raw_input_shape,
            state,
            index,
            output,
            value,
        );
    }
}

/// The first operators keep what is known of the data.
proof fn lemma_state_keeps_data(
    graph: Graph,
    input: usize,
    raw_input_shape: Seq<usize>,
    n: nat,
)
    requires
        input < graph.tensors@.len(),
        n <= graph.operators@.len(),
        shape::count(raw_input_shape) == declared_count(graph, input as int),
        counts_within_i64(graph, input),
        fold::state_after(
            graph,
            fold::initial_state(graph.tensors@.len(), input, raw_input_shape),
            n,
        ) matches Some(Ok(_)),
    ensures
        data_kept(
            graph,
            input,
            raw_input_shape,
            fold::state_after(
                graph,
                fold::initial_state(graph.tensors@.len(), input, raw_input_shape),
                n,
            )->Some_0->Ok_0,
        ),
    decreases n,
{
    let start = fold::initial_state(graph.tensors@.len(), input, raw_input_shape);
    if n > 0 {
        assert(n <= graph.operators.len());
        lemma_state_keeps_data(graph, input, raw_input_shape, (n - 1) as nat);
        lemma_state_keeps_ops(graph, start, (n - 1) as nat);
        let state = fold::state_after(graph, start, (n - 1) as nat)->Some_0->Ok_0;
        lemma_step_keeps_data(graph, input, raw_input_shape, state, (n - 1) as usize);
    }
}

/// The data reaches every real operator whole: its effective input shape
/// holds as many elements as the output of the real operator before it (the
/// first one: as the model input). So does the model output, where its data
/// comes from the last real operator. The input shape that folding starts
/// from holds as many elements as the file declares.
pub proof fn law_chain_keeps_count(
    graph: Graph,
    input: usize,
    output: usize,
    raw_input_shape: Seq<usize>,
)
    requires
        fold::folded(graph, input, output, raw_input_shape) matches Some(Ok(_)),
        shape::count(raw_input_shape) == declared_count(graph, input as int),
        counts_within_i64(graph, input),
    ensures
        ({
            let folded = fold::folded(graph, input, output, raw_input_shape)->Some_0->Ok_0;
            let last = fold::state_after(
                graph,
                fold::initial_state(graph.tensors@.len(), input, raw_input_shape),
                graph.operators@.len(),
            )->Some_0->Ok_0;
            &&& forall|k: int|
                0 <= k < folded.ops.len() ==> shape::count((#[trigger] folded.ops[k]).input_shape)
                    == shape::count(incoming_shape(raw_input_shape, folded.ops, k))
            &&& last.values[output as int]->Some_0->origin == last.current ==> shape::count(
                folded.output_shape,
            ) == shape::count(
                incoming_shape(raw_input_shape, folded.ops, folded.ops.len() as int),
            )
        }),
{
    let start = fold::initial_state(graph.tensors@.len(), input, raw_input_shape);
    let n = graph.operators@.len();
    lemma_state_keeps_data(graph, input, raw_input_shape, n);
    lemma_state_keeps_ops(graph, start, n);
    let last = fold::state_after(graph, start, n)->Some_0->Ok_0;
    lemma_held_count(graph, input, raw_input_shape, last.ops, n as int);
    assert(last.values[output as int] is Some);
    normalize::law_model_output_keeps_count(last.values[output as int]->Some_0->shape);
}

/// The position of the operator that an error speaks of; `None` where it
/// speaks of the model output.
pub open spec fn position(error: FoldErrorView) -> Option<usize> {
    match error {
        FoldError::ShapeTensor { index, .. } => Some(index),
        FoldError::NotProduced { index, .. } => Some(index),
        FoldError::MissingAxis { index } => Some(index),
        FoldError::OperatorConstant { index, .. } => Some(index),
        FoldError::Axis { index, .. } => Some(index),
        FoldError::MissingShape { index } => Some(index),
        FoldError::Resolve { index, .. } => Some(index),
        FoldError::MissingSliceInputs { index } => Some(index),
        FoldError::NotShapeTensor { index } => Some(index),
        FoldError::MissingSliceOptions { index } => Some(index),
        FoldError::UnsupportedMasks { index } => Some(index),
        FoldError::Slice { index, .. } => Some(index),
        FoldError::PackAxis { index, .. } => Some(index),
        FoldError::Branching { index, .. } => Some(index),
        FoldError::OperatorShape { index, .. } => Some(index),
        FoldError::Unsupported { index, .. } => Some(index),
        FoldError::OutputShape { .. } => None,
        FoldError::OutputNotProduced => None,
    }
}

/// Whether a label stands for operators of a kind.
pub open spec fn labels(label: Label, kind: BuiltinOperator) -> bool {
    match label {
        Label::ExpandDims => kind is EXPAND_DIMS,
        Label::Reshape => kind is RESHAPE,
        Label::Shape => kind is SHAPE,
        Label::StridedSlice => kind is STRIDED_SLICE,
        Label::Pack => kind is PACK,
        Label::RealOperator => kind.is_real(),
    }
}

/// Whether an error speaks of an operator of a kind.
pub open spec fn speaks_of(error: FoldErrorView, kind: BuiltinOperator) -> bool {
    match error {
        FoldError::ShapeTensor { label, .. } => labels(label, kind),
        FoldError::NotProduced { label, .. } => labels(label, kind),
        FoldError::OperatorConstant { label, .. } => labels(label, kind),
        FoldError::MissingAxis { .. } => kind is EXPAND_DIMS,
        FoldError::Axis { .. } => kind is EXPAND_DIMS,
        FoldError::MissingShape { .. } => kind is RESHAPE,
        FoldError::Resolve { .. } => kind is RESHAPE,
        FoldError::MissingSliceInputs { .. } => kind is STRIDED_SLICE,
        FoldError::NotShapeTensor { .. } => kind is STRIDED_SLICE,
        FoldError::MissingSliceOptions { .. } => kind is STRIDED_SLICE,
        FoldError::UnsupportedMasks { .. } => kind is STRIDED_SLICE,
        FoldError::Slice { .. } => kind is STRIDED_SLICE,
        FoldError::PackAxis { .. } => kind is PACK,
        FoldError::Branching { kind: named, .. } => named == kind,
        FoldError::OperatorShape { kind: named, .. } => named == kind,
        FoldError::Unsupported { kind: named, .. } => named == kind,
        FoldError::OutputShape { .. } => false,
        FoldError::OutputNotProduced => false,
    }
}

/// Whether an error speaks of an operator by its position and its kind.
pub open spec fn names(error: FoldErrorView, index: usize, kind: BuiltinOperator) -> bool {
    position(error) == Some(index) && speaks_of(error, kind)
}

/// An EXPAND_DIMS that fails names itself.
proof fn lemma_expand_dims_failure(
    graph: Graph,
    index: usize,
    values: Seq<Option<ValueView>>,
)
    ensures
        fold::expand_dims_value(graph, index, values) matches Some(Err(error)) ==> names(
            error,
            index,
            BuiltinOperator::EXPAND_DIMS,
        ),
{
}

/// A RESHAPE that fails names itself.
proof fn lemma_reshape_failure(
    graph: Graph,
    index: usize,
    values: Seq<Option<ValueView>>,
)
    ensures
        fold::reshape_value(graph, index, values) matches Some(Err(error)) ==> names(
            error,
            index,
            BuiltinOperator::RESHAPE,
        ),
{
}

/// A SHAPE that fails names itself.
proof fn lemma_shape_failure(
    graph: Graph,
    index: usize,
    values: Seq<Option<ValueView>>,
)
    ensures
        fold::shape_value(graph, index, values) matches Some(Err(error)) ==> names(
            error,
            index,
            BuiltinOperator::SHAPE,
        ),
{
}

/// A STRIDED_SLICE that fails names itself.
proof fn lemma_strided_slice_failure(
    graph: Graph,
    index: usize,
    values: Seq<Option<ValueView>>,
)
    ensures
        fold::strided_slice_value(graph, index, values) matches Some(Err(error)) ==> names(
            error,
            index,
            BuiltinOperator::STRIDED_SLICE,
        ),
{
}

/// A PACK that fails on an entry names itself.
proof fn lemma_packed_entries_failure(
    graph: Graph,
    index: usize,
    inputs: Seq<i32>,
    values: Seq<Option<ValueView>>,
)
    ensures
        fold::packed_entries(graph, index, inputs, values) matches Some(Err(error)) ==> names(
            error,
            index,
            BuiltinOperator::PACK,
        ),
    decreases inputs.len(),
{
    if inputs.len() > 0 {
        lemma_packed_entries_failure(graph, index, inputs.drop_last(), values);
    }
}

/// A real operator that fails names itself.
proof fn lemma_real_op_failure(
    graph: Graph,
    index: usize,
    kind: BuiltinOperator,
    values: Seq<Option<ValueView>>,
    current: usize,
    output: usize,
)
    requires
        kind.is_real(),
    ensures
        fold::real_op(graph, index, kind, values, current, output) matches Some(Err(error))
            ==> names(error, index, kind),
{
}

/// A step that fails names the operator.
proof fn lemma_step_failure(graph: Graph, state: FoldStateView, index: usize)
    requires
        fold::step(graph, state, index) matches Some(Err(_)),
    ensures
        names(
            fold::step(graph, state, index)->Some_0->Err_0,
            index,
            kind_at(graph, index as int),
        ),
{
    let kind = kind_at(graph, index as int);
    let values = state.values;
    match kind {
        BuiltinOperator::EXPAND_DIMS => {
            lemma_expand_dims_failure(graph, index, values);
        },
        BuiltinOperator::RESHAPE => {
            lemma_reshape_failure(graph, index, values);
        },
        BuiltinOperator::SHAPE => {
            lemma_shape_failure(graph, index, values);
        },
        BuiltinOperator::STRIDED_SLICE => {
            lemma_strided_slice_failure(graph, index, values);
        },
        BuiltinOperator::PACK => {
            lemma_packed_entries_failure(
                graph,
                index,
                schema::entries(graph.operators@[index as int].inputs),
                values,
            );
        },
        _ => {
            if kind.is_real() {
                lemma_real_op_failure(
                    graph,
                    index,
                    kind,
                    values,
                    state.current,
                    output_at(graph, index as int) as usize,
                );
            }
        },
    }
}

/// The first failure among some operators names the operator that does not
/// fold.
proof fn lemma_state_failure(graph: Graph, start: FoldStateView, n: nat)
    requires
        n <= graph.operators@.len(),
        fold::state_after(graph, start, n) matches Some(Err(_)),
    ensures
        ({
            let error = fold::state_after(graph, start, n)->Some_0->Err_0;
            &&& position(error) matches Some(k)
            &&& k < n
            &&& speaks_of(error, kind_at(graph, k as int))
            &&& fold::state_after(graph, start, k as nat) matches Some(Ok(_))
            &&& fold::state_after(graph, start, (k + 1) as nat) == Some(
                Err::<FoldStateView, FoldErrorView>(error),
            )
        }),
    decreases n,
{
    assert(n <= graph.operators.len());
    match fold::state_after(graph, start, (n - 1) as nat) {
        Some(Err(_)) => {
            lemma_state_failure(graph, start, (n - 1) as nat);
        },
        Some(Ok(state)) => {
            lemma_step_failure(graph, state, (n - 1) as usize);
        },
        None => {},
    }
}

/// Anything that does not fold names the operator at fault: the error holds
/// the kind and the position of the first operator that does not fold. Where
/// every operator folds, it speaks of the model output.
pub proof fn law_failures_name_the_operator(
    graph: Graph,
    input: usize,
    output: usize,
    raw_input_shape: Seq<usize>,
)
    requires
        fold::folded(graph, input, output, raw_input_shape) matches Some(Err(_)),
    ensures
        ({
            let error = fold::folded(graph, input, output, raw_input_shape)->Some_0->Err_0;
            let start = fold::initial_state(graph.tensors@.len(), input, raw_input_shape);
            match position(error) {
                Some(k) => {
                    &&& k < graph.operators@.len()
                    &&& speaks_of(error, kind_at(graph, k as int))
                    &&& fold::state_after(graph, start, k as nat) matches Some(Ok(_))
                    &&& fold::state_after(graph, start, (k + 1) as nat) == Some(
                        Err::<FoldStateView, FoldErrorView>(error),
                    )
                },
                None => {
                    &&& error is OutputShape || error is OutputNotProduced
                    &&& fold::state_after(graph, start, graph.operators@.len()) matches Some(Ok(_))
                },
            }
        }),
{
    let start = fold::initial_state(graph.tensors@.len(), input, raw_input_shape);
    let n = graph.operators@.len();
    if fold::state_after(graph, start, n) matches Some(Err(_)) {
        lemma_state_failure(graph, start, n);
    }
}

} // verus!
