//! What folding makes of each operator, and when it refuses one.
use crate::compiler::constants;
use crate::compiler::fold;
use crate::compiler::fold::{FoldError, FoldStateView, Label, Value, ValueView};
use crate::compiler::fold_laws;
use crate::compiler::normalize;
use crate::compiler::normalize::RankError;
use crate::compiler::schema;
use crate::compiler::schema::{BuiltinOperator, BuiltinOptions, Graph};
use crate::compiler::shape;
use vstd::prelude::*;

verus! {

/// The entry of the table that a tensor index reads: a negative index reads
/// the first one.
pub open spec fn entry(tensor: i32) -> int {
    if tensor < 0 {
        0
    } else {
        tensor as int
    }
}

/// Whether a tensor is known as data of an origin and a shape.
pub open spec fn is_data(
    values: Seq<Option<ValueView>>,
    tensor: i32,
    origin: usize,
    shape: Seq<usize>,
) -> bool {
    &&& entry(tensor) < values.len()
    &&& values[entry(tensor)] == Some(Value::<Seq<usize>, Seq<i64>>::Data { origin, shape })
}

/// Whether a tensor is known as data.
pub open spec fn holds_data(values: Seq<Option<ValueView>>, tensor: i32) -> bool {
    &&& entry(tensor) < values.len()
    &&& values[entry(tensor)] matches Some(Value::Data { .. })
}

/// Whether a tensor is known as a shape vector.
pub open spec fn is_dims(values: Seq<Option<ValueView>>, tensor: i32, dims: Seq<i64>) -> bool {
    &&& entry(tensor) < values.len()
    &&& values[entry(tensor)] == Some(Value::<Seq<usize>, Seq<i64>>::Dims(dims))
}

/// Whether an error says truly that a tensor is not known as data: it is a
/// shape vector, or nothing is known of it.
pub open spec fn is_data_error(
    error: fold::FoldErrorView,
    label: Label,
    index: usize,
    tensor: i32,
    values: Seq<Option<ValueView>>,
) -> bool {
    match error {
        FoldError::ShapeTensor { label: named, index: at } => {
            &&& named == label && at == index
            &&& exists|dims: Seq<i64>| is_dims(values, tensor, dims)
        },
        FoldError::NotProduced { label: named, index: at, tensor: missing } => {
            &&& named == label && at == index && missing == tensor
            &&& entry(tensor) >= values.len() || values[entry(tensor)] is None
        },
        _ => false,
    }
}

/// The data of an operator is what is known of its input.
pub proof fn law_data_inputs(
    label: Label,
    index: usize,
    tensor: i32,
    values: Seq<Option<ValueView>>,
)
    ensures
        match fold::data_of(label, index, tensor, values) {
            Ok((origin, shape)) => is_data(values, tensor, origin, shape),
            Err(error) => is_data_error(error, label, index, tensor, values),
        },
{
    if let Err(FoldError::ShapeTensor { .. }) = fold::data_of(label, index, tensor, values) {
        let dims = values[entry(tensor)]->Some_0->Dims_0;
        assert(is_dims(values, tensor, dims));
    }
}

/// An EXPAND_DIMS gives its data a new axis, the one that its second input
/// holds. It is refused where its first input is no data, where it has no
/// second input, or where that cannot be read or names no axis.
pub proof fn law_expand_dims(graph: Graph, index: usize, values: Seq<Option<ValueView>>)
    ensures
        ({
            let inputs = schema::entries(graph.operators@[index as int].inputs);
            let read = constants::scalar_constant(
                graph.tensors@,
                graph.buffers@,
                inputs[1] as usize,
            );
            match fold::expand_dims_value(graph, index, values) {
                None => inputs.len() == 0 || (inputs.len() >= 2 && (read is None || (read
                    matches Some(Ok(axis)) && exists|origin: usize, shape: Seq<usize>|
                    #[trigger] is_data(values, inputs[0], origin, shape) && shape::expansion(
                        shape,
                        axis,
                    ) is None))),
                Some(Ok(value)) => {
                    &&& inputs.len() >= 2 && inputs[1] >= 0
                    &&& value is Data
                    &&& read matches Some(Ok(axis))
                    &&& exists|shape: Seq<usize>|
                        #[trigger] is_data(values, inputs[0], value->origin, shape)
                            && shape::expansion(shape, axis) == Some(
                            Ok::<Seq<usize>, shape::AxisError>(value->shape),
                        )
                },
                Some(Err(FoldError::MissingAxis { index: at })) => at == index && (inputs.len() < 2
                    || inputs[1] < 0) && holds_data(values, inputs[0]),
                Some(Err(FoldError::OperatorConstant { label, index: at, error })) => {
                    &&& label is ExpandDims && at == index
                    &&& holds_data(values, inputs[0]) && inputs.len() >= 2 && inputs[1] >= 0
                    &&& read == Some(Err::<i32, constants::ConstantError>(error))
                },
                Some(Err(FoldError::Axis { index: at, error, shape })) => {
                    &&& at == index
                    &&& exists|origin: usize| is_data(values, inputs[0], origin, shape)
                    &&& read matches Some(Ok(axis))
                    &&& shape::expansion(shape, axis) == Some(
                        Err::<Seq<usize>, shape::AxisError>(error),
                    )
                },
                Some(Err(error)) => is_data_error(
                    error,
                    Label::ExpandDims,
                    index,
                    inputs[0],
                    values,
                ),
            }
        }),
{
    let inputs = schema::entries(graph.operators@[index as int].inputs);
    law_data_inputs(Label::ExpandDims, index, inputs[0], values);
    if let Ok((origin, shape)) = fold::data_of(Label::ExpandDims, index, inputs[0], values) {
        assert(is_data(values, inputs[0], origin, shape));
        if let Some(Ok(value)) = fold::expand_dims_value(graph, index, values) {
            let read = constants::scalar_constant(
                graph.tensors@,
                graph.buffers@,
                inputs[1] as usize,
            );
            assert(is_data(values, inputs[0], value->origin, shape));
            assert(shape::expansion(shape, read->Some_0->Ok_0)->Some_0->Ok_0 == value->shape);
        }
    }
}

/// The target of a RESHAPE is the shape vector that its second input is known
/// as, or else the one that it holds; without a second input it is the one of
/// the options.
pub proof fn law_reshape_targets_come_from(
    graph: Graph,
    index: usize,
    values: Seq<Option<ValueView>>,
)
    ensures
        ({
            let operator = graph.operators@[index as int];
            let inputs = schema::entries(operator.inputs);
            let has_input = inputs.len() > 1 && inputs[1] >= 0;
            let read = constants::constant(graph.tensors@, graph.buffers@, inputs[1] as usize);
            match fold::reshape_target(graph, index, values) {
                None => has_input && (inputs[1] >= values.len() || read is None),
                Some(Ok(dims)) => if has_input {
                    ||| is_dims(values, inputs[1], dims)
                    ||| {
                        &&& !(exists|known: Seq<i64>| is_dims(values, inputs[1], known))
                        &&& read matches Some(Ok(held))
                        &&& held.len() == dims.len()
                        &&& forall|i: int| 0 <= i < dims.len() ==> #[trigger] dims[i] == held[i]
                    }
                } else {
                    &&& operator.options matches BuiltinOptions::Reshape { new_shape: Some(held) }
                    &&& held@.len() == dims.len()
                    &&& forall|i: int| 0 <= i < dims.len() ==> #[trigger] dims[i] == held@[i]
                },
                Some(Err(FoldError::OperatorConstant { label, index: at, error })) => {
                    &&& label is Reshape && at == index && has_input
                    &&& read == Some(Err::<Seq<i32>, constants::ConstantError>(error))
                },
                Some(Err(FoldError::MissingShape { index: at })) => {
                    &&& at == index && !has_input
                    &&& !(operator.options matches BuiltinOptions::Reshape { new_shape: Some(_) })
                },
                Some(Err(_)) => false,
            }
        }),
{
}

/// A RESHAPE hands its data on under the shape that its target resolves to.
/// It is refused where its first input is no data, where it has no target, or
/// where the target does not resolve.
pub proof fn law_reshape(graph: Graph, index: usize, values: Seq<Option<ValueView>>)
    ensures
        ({
            let inputs = schema::entries(graph.operators@[index as int].inputs);
            let target = fold::reshape_target(graph, index, values);
            match fold::reshape_value(graph, index, values) {
                None => inputs.len() == 0 || target is None || exists|
                    origin: usize,
                    shape: Seq<usize>,
                |
                    {
                        &&& #[trigger] is_data(values, inputs[0], origin, shape)
                        &&& !shape::count_fits(shape) || (target matches Some(Ok(dims))
                            && shape::resolution(dims, shape::count(shape) as usize) is None)
                    },
                Some(Ok(value)) => {
                    &&& value is Data
                    &&& target matches Some(Ok(dims))
                    &&& exists|shape: Seq<usize>|
                        {
                            &&& is_data(values, inputs[0], value->origin, shape)
                            &&& shape::count_fits(shape)
                            &&& #[trigger] shape::resolution(dims, shape::count(shape) as usize)
                                == Some(
                                Ok::<Seq<usize>, shape::ResolveError<Seq<i64>>>(value->shape),
                            )
                        }
                },
                Some(Err(FoldError::Resolve { index: at, error, shape, dims })) => {
                    &&& at == index
                    &&& exists|origin: usize| is_data(values, inputs[0], origin, shape)
                    &&& target == Some(Ok::<Seq<i64>, fold::FoldErrorView>(dims))
                    &&& shape::resolution(dims, shape::count(shape) as usize) == Some(
                        Err::<Seq<usize>, shape::ResolveError<Seq<i64>>>(error),
                    )
                },
                Some(Err(error)) => {
                    ||| holds_data(values, inputs[0]) && target == Some(
                        Err::<Seq<i64>, fold::FoldErrorView>(error),
                    )
                    ||| is_data_error(error, Label::Reshape, index, inputs[0], values)
                },
            }
        }),
{
    let inputs = schema::entries(graph.operators@[index as int].inputs);
    law_data_inputs(Label::Reshape, index, inputs[0], values);
    if let Ok((origin, shape)) = fold::data_of(Label::Reshape, index, inputs[0], values) {
        assert(is_data(values, inputs[0], origin, shape));
    }
}

/// A SHAPE gives the dimensions of its data, in order.
pub proof fn law_shape(graph: Graph, index: usize, values: Seq<Option<ValueView>>)
    ensures
        ({
            let inputs = schema::entries(graph.operators@[index as int].inputs);
            match fold::shape_value(graph, index, values) {
                None => inputs.len() == 0,
                Some(Ok(value)) => {
                    &&& value matches Value::Dims(dims)
                    &&& exists|origin: usize, shape: Seq<usize>|
                        {
                            &&& #[trigger] is_data(values, inputs[0], origin, shape)
                            &&& dims.len() == shape.len()
                            &&& forall|i: int|
                                0 <= i < shape.len() ==> #[trigger] dims[i] == shape[i] as i64
                        }
                },
                Some(Err(error)) => is_data_error(error, Label::Shape, index, inputs[0], values),
            }
        }),
{
    let inputs = schema::entries(graph.operators@[index as int].inputs);
    law_data_inputs(Label::Shape, index, inputs[0], values);
    if let Ok((origin, shape)) = fold::data_of(Label::Shape, index, inputs[0], values) {
        assert(is_data(values, inputs[0], origin, shape));
    }
}

/// Whether an error is that of reading a constant input of a STRIDED_SLICE.
pub open spec fn is_bound_error(
    error: fold::FoldErrorView,
    graph: Graph,
    index: usize,
    tensor: i32,
) -> bool {
    &&& error matches FoldError::OperatorConstant { label, index: at, error: cause }
    &&& label is StridedSlice && at == index
    &&& constants::constant(graph.tensors@, graph.buffers@, tensor as usize) == Some(
        Err::<Seq<i32>, constants::ConstantError>(cause),
    )
}

/// A STRIDED_SLICE selects from the shape vector that its first input is
/// known as, with the bounds and the stride that its other inputs hold; only
/// the mask that shrinks the axis may be set. It is refused where an input is
/// left out, where the first is no shape vector, where a bound cannot be read,
/// where it has no options or other masks, or where the slice is refused.
pub proof fn law_strided_slice(graph: Graph, index: usize, values: Seq<Option<ValueView>>)
    ensures
        ({
            let operator = graph.operators@[index as int];
            let inputs = schema::entries(operator.inputs);
            let complete = inputs.len() >= 4 && inputs[0] >= 0 && inputs[1] >= 0 && inputs[2] >= 0
                && inputs[3] >= 0;
            let begin = constants::constant(graph.tensors@, graph.buffers@, inputs[1] as usize);
            let end = constants::constant(graph.tensors@, graph.buffers@, inputs[2] as usize);
            let strides = constants::constant(graph.tensors@, graph.buffers@, inputs[3] as usize);
            let read = complete && (begin matches Some(Ok(_))) && (end matches Some(Ok(_))) && (strides
                matches Some(Ok(_)));
            match fold::strided_slice_value(graph, index, values) {
                Some(Err(FoldError::MissingSliceInputs { index: at })) => at == index && !complete,
                Some(Err(FoldError::NotShapeTensor { index: at })) => at == index && complete
                    && !(exists|dims: Seq<i64>| is_dims(values, inputs[0], dims)),
                Some(Err(FoldError::MissingSliceOptions { index: at })) => at == index && read
                    && !(operator.options is StridedSlice),
                Some(Err(FoldError::UnsupportedMasks { index: at })) => {
                    &&& at == index && read
                    &&& operator.options matches BuiltinOptions::StridedSlice(masks)
                    &&& masks.begin_mask != 0 || masks.end_mask != 0 || masks.ellipsis_mask != 0
                        || masks.new_axis_mask != 0
                },
                Some(Err(FoldError::Slice { index: at, error, dims })) => {
                    &&& at == index && read
                    &&& is_dims(values, inputs[0], dims)
                    &&& operator.options matches BuiltinOptions::StridedSlice(masks)
                    &&& shape::slice_selection(
                        dims,
                        begin->Some_0->Ok_0,
                        end->Some_0->Ok_0,
                        strides->Some_0->Ok_0,
                        masks.shrink_axis_mask != 0,
                    ) == Some(Err::<Seq<i64>, shape::SliceError>(error))
                },
                Some(Err(error)) => {
                    &&& complete
                    &&& exists|dims: Seq<i64>| is_dims(values, inputs[0], dims)
                    &&& {
                        ||| is_bound_error(error, graph, index, inputs[1])
                        ||| (begin matches Some(Ok(_))) && is_bound_error(
                            error,
                            graph,
                            index,
                            inputs[2],
                        )
                        ||| (begin matches Some(Ok(_))) && (end matches Some(Ok(_)))
                            && is_bound_error(error, graph, index, inputs[3])
                    }
                },
                Some(Ok(value)) => {
                    &&& read
                    &&& value matches Value::Dims(selected)
                    &&& operator.options matches BuiltinOptions::StridedSlice(masks)
                    &&& masks.begin_mask == 0 && masks.end_mask == 0 && masks.ellipsis_mask == 0
                        && masks.new_axis_mask == 0
                    &&& exists|dims: Seq<i64>|
                        {
                            &&& #[trigger] is_dims(values, inputs[0], dims)
                            &&& shape::slice_selection(
                                dims,
                                begin->Some_0->Ok_0,
                                end->Some_0->Ok_0,
                                strides->Some_0->Ok_0,
                                masks.shrink_axis_mask != 0,
                            ) == Some(Ok::<Seq<i64>, shape::SliceError>(selected))
                        }
                },
                None => complete && (begin is None || end is None || strides is None || exists|
                    dims: Seq<i64>,
                    shrink: bool,
                |
                    {
                        &&& is_dims(values, inputs[0], dims)
                        &&& #[trigger] shape::slice_selection(
                            dims,
                            begin->Some_0->Ok_0,
                            end->Some_0->Ok_0,
                            strides->Some_0->Ok_0,
                            shrink,
                        ) is None
                    }),
            }
        }),
{
    let operator = graph.operators@[index as int];
    let inputs = schema::entries(operator.inputs);
    if inputs.len() >= 4 && inputs[0] >= 0 {
        if let Some(dims) = fold::dims_at(values, inputs[0] as int) {
            assert(is_dims(values, inputs[0], dims));
            if let BuiltinOptions::StridedSlice(masks) = operator.options {
                let selected = shape::slice_selection(
                    dims,
                    constants::constant(
                        graph.tensors@,
                        graph.buffers@,
                        inputs[1] as usize,
                    )->Some_0->Ok_0,
                    constants::constant(
                        graph.tensors@,
                        graph.buffers@,
                        inputs[2] as usize,
                    )->Some_0->Ok_0,
                    constants::constant(
                        graph.tensors@,
                        graph.buffers@,
                        inputs[3] as usize,
                    )->Some_0->Ok_0,
                    masks.shrink_axis_mask != 0,
                );
            }
        }
    }
}

/// Whether a value is what one input of a PACK stands for: the element of a
/// shape vector of one element, or else the first value that the tensor
/// holds.
pub open spec fn is_packed(
    graph: Graph,
    tensor: i32,
    values: Seq<Option<ValueView>>,
    value: i64,
) -> bool {
    ||| exists|dims: Seq<i64>| #[trigger] is_dims(values, tensor, dims) && dims == seq![value]
    ||| {
        &&& forall|dims: Seq<i64>| #[trigger] is_dims(values, tensor, dims) ==> dims.len() != 1
        &&& constants::scalar_constant(graph.tensors@, graph.buffers@, tensor as usize)
            matches Some(Ok(held))
        &&& value == held
    }
}

/// Whether one input of a PACK stands for a value.
pub open spec fn can_be_packed(
    graph: Graph,
    tensor: i32,
    values: Seq<Option<ValueView>>,
) -> bool {
    exists|value: i64| is_packed(graph, tensor, values, value)
}

/// One input of a PACK.
proof fn lemma_packed_entry(
    graph: Graph,
    index: usize,
    tensor: i32,
    values: Seq<Option<ValueView>>,
)
    ensures
        match fold::packed_entry(graph, index, tensor, values) {
            Some(Ok(value)) => is_packed(graph, tensor, values, value),
            Some(Err(error)) => {
                &&& error matches FoldError::OperatorConstant { label, index: at, error: cause }
                &&& label is Pack && at == index
                &&& constants::scalar_constant(graph.tensors@, graph.buffers@, tensor as usize)
                    == Some(Err::<i32, constants::ConstantError>(cause))
            },
            None => constants::scalar_constant(
                graph.tensors@,
                graph.buffers@,
                tensor as usize,
            ) is None,
        },
{
    if let Some(dims) = fold::dims_at(values, entry(tensor)) {
        assert(is_dims(values, tensor, dims));
        if dims.len() == 1 {
            assert(dims =~= seq![dims[0]]);
        }
    }
}

/// The inputs of a PACK, one by one.
proof fn lemma_packed_entries(
    graph: Graph,
    index: usize,
    inputs: Seq<i32>,
    values: Seq<Option<ValueView>>,
)
    ensures
        match fold::packed_entries(graph, index, inputs, values) {
            Some(Ok(packed)) => {
                &&& packed.len() == inputs.len()
                &&& forall|i: int|
                    0 <= i < inputs.len() ==> is_packed(
                        graph,
                        #[trigger] inputs[i],
                        values,
                        packed[i],
                    )
            },
            Some(Err(error)) => {
                &&& error matches FoldError::OperatorConstant { label, index: at, error: cause }
                &&& label is Pack && at == index
                &&& exists|i: int|
                    0 <= i < inputs.len() && constants::scalar_constant(
                        graph.tensors@,
                        graph.buffers@,
                        #[trigger] inputs[i] as usize,
                    ) == Some(Err::<i32, constants::ConstantError>(cause)) && forall|j: int|
                        0 <= j < i ==> can_be_packed(graph, #[trigger] inputs[j], values)
            },
            None => exists|i: int|
                0 <= i < inputs.len() && constants::scalar_constant(
                    graph.tensors@,
                    graph.buffers@,
                    #[trigger] inputs[i] as usize,
                ) is None,
        },
    decreases inputs.len(),
{
    if inputs.len() > 0 {
        let front = inputs.drop_last();
        let last = inputs.len() - 1;
        lemma_packed_entries(graph, index, front, values);
        lemma_packed_entry(graph, index, inputs.last(), values);
        assert(inputs[last] == inputs.last());
        match fold::packed_entries(graph, index, front, values) {
            None => {
                let i = choose|i: int|
                    0 <= i < front.len() && constants::scalar_constant(
                        graph.tensors@,
                        graph.buffers@,
                        #[trigger] front[i] as usize,
                    ) is None;
                assert(inputs[i] == front[i]);
            },
            Some(Err(FoldError::OperatorConstant { error: cause, .. })) => {
                let i = choose|i: int|
                    0 <= i < front.len() && constants::scalar_constant(
                        graph.tensors@,
                        graph.buffers@,
                        #[trigger] front[i] as usize,
                    ) == Some(Err::<i32, constants::ConstantError>(cause)) && forall|j: int|
                        0 <= j < i ==> can_be_packed(graph, #[trigger] front[j], values);
                assert(inputs[i] == front[i]);
                assert forall|j: int| 0 <= j < i implies can_be_packed(
                    graph,
                    #[trigger] inputs[j],
                    values,
                ) by {
                    assert(front[j] == inputs[j]);
                }
            },
            Some(Err(_)) => {},
            Some(Ok(packed)) => {
                assert forall|j: int| 0 <= j < last implies can_be_packed(
                    graph,
                    #[trigger] inputs[j],
                    values,
                ) by {
                    assert(front[j] == inputs[j]);
                    assert(is_packed(graph, front[j], values, packed[j]));
                }
                if let Some(Ok(all)) = fold::packed_entries(graph, index, inputs, values) {
                    assert forall|i: int| 0 <= i < inputs.len() implies is_packed(
                        graph,
                        #[trigger] inputs[i],
                        values,
                        all[i],
                    ) by {
                        if i < last {
                            assert(front[i] == inputs[i] && all[i] == packed[i]);
                        }
                    }
                }
            },
        }
    }
}

/// A PACK along axis 0 makes a shape vector of its inputs, in order. Another
/// axis is refused, and so is an input that is no shape vector of one element
/// and holds no value.
pub proof fn law_pack(graph: Graph, index: usize, values: Seq<Option<ValueView>>)
    ensures
        ({
            let operator = graph.operators@[index as int];
            let inputs = schema::entries(operator.inputs);
            let other_axis = operator.options matches BuiltinOptions::Pack { axis } && axis != 0;
            match fold::pack_value(graph, index, values) {
                Some(Ok(value)) => {
                    &&& !other_axis
                    &&& value matches Value::Dims(packed)
                    &&& packed.len() == inputs.len()
                    &&& forall|i: int|
                        0 <= i < inputs.len() ==> is_packed(
                            graph,
                            #[trigger] inputs[i],
                            values,
                            packed[i],
                        )
                },
                Some(Err(FoldError::PackAxis { index: at, axis: named })) => {
                    &&& at == index && named != 0
                    &&& operator.options matches BuiltinOptions::Pack { axis }
                    &&& axis == named
                },
                Some(Err(FoldError::OperatorConstant { label, index: at, error: cause })) => {
                    &&& !other_axis && label is Pack && at == index
                    &&& exists|i: int|
                        0 <= i < inputs.len() && constants::scalar_constant(
                            graph.tensors@,
                            graph.buffers@,
                            #[trigger] inputs[i] as usize,
                        ) == Some(Err::<i32, constants::ConstantError>(cause)) && forall|j: int|
                            0 <= j < i ==> can_be_packed(graph, #[trigger] inputs[j], values)
                },
                Some(Err(_)) => false,
                None => !other_axis && exists|i: int|
                    0 <= i < inputs.len() && constants::scalar_constant(
                        graph.tensors@,
                        graph.buffers@,
                        #[trigger] inputs[i] as usize,
                    ) is None,
            }
        }),
{
    lemma_packed_entries(
        graph,
        index,
        schema::entries(graph.operators@[index as int].inputs),
        values,
    );
}

/// A real operator is kept with its position, its kind, the normalized shape
/// of its data and the normalized shape that the file declares for its output.
/// It is refused where its first input is no data, where that is not the data
/// that the chain holds, or where a shape is not supported.
pub proof fn law_real_operators(
    graph: Graph,
    index: usize,
    kind: BuiltinOperator,
    values: Seq<Option<ValueView>>,
    current: usize,
    output: usize,
)
    ensures
        ({
            let inputs = schema::entries(graph.operators@[index as int].inputs);
            let declared = schema::shape_of(graph.tensors@[output as int]);
            match fold::real_op(graph, index, kind, values, current, output) {
                Some(Ok(op)) => {
                    &&& op.index == index
                    &&& op.kind == kind
                    &&& exists|shape: Seq<usize>|
                        {
                            &&& #[trigger] is_data(values, inputs[0], current, shape)
                            &&& normalize::normalized_input(kind, shape) == Some(
                                Ok::<Seq<usize>, RankError<Seq<usize>>>(op.input_shape),
                            )
                        }
                    &&& normalize::normalized_output(kind, declared) == Ok::<
                        Seq<usize>,
                        RankError<Seq<usize>>,
                    >(op.output_shape)
                },
                Some(Err(FoldError::Branching { kind: named, index: at })) => {
                    &&& named == kind && at == index
                    &&& exists|origin: usize, shape: Seq<usize>|
                        #[trigger] is_data(values, inputs[0], origin, shape) && origin != current
                },
                Some(Err(FoldError::OperatorShape { kind: named, index: at, error })) => {
                    &&& named == kind && at == index
                    &&& exists|shape: Seq<usize>|
                        {
                            &&& #[trigger] is_data(values, inputs[0], current, shape)
                            &&& {
                                ||| normalize::normalized_input(kind, shape) == Some(
                                    Err::<Seq<usize>, RankError<Seq<usize>>>(error),
                                )
                                ||| (normalize::normalized_input(kind, shape) matches Some(Ok(_)))
                                    && normalize::normalized_output(kind, declared) == Err::<
                                    Seq<usize>,
                                    RankError<Seq<usize>>,
                                >(error)
                            }
                        }
                },
                Some(Err(error)) => is_data_error(
                    error,
                    Label::RealOperator,
                    index,
                    inputs[0],
                    values,
                ),
                None => inputs.len() == 0 || output >= graph.tensors@.len() || exists|
                    shape: Seq<usize>,
                |
                    #[trigger] is_data(values, inputs[0], current, shape)
                        && normalize::normalized_input(kind, shape) is None,
            }
        }),
{
    let inputs = schema::entries(graph.operators@[index as int].inputs);
    law_data_inputs(Label::RealOperator, index, inputs[0], values);
    if let Ok((origin, shape)) = fold::data_of(Label::RealOperator, index, inputs[0], values) {
        assert(is_data(values, inputs[0], origin, shape));
    }
}

/// Whether a state is another with one more tensor known, and nothing else
/// changed.
pub open spec fn learns(
    before: FoldStateView,
    after: FoldStateView,
    tensor: int,
    value: ValueView,
) -> bool {
    &&& after.values.len() == before.values.len()
    &&& 0 <= tensor < before.values.len()
    &&& after.values[tensor] == Some(value)
    &&& forall|p: int|
        0 <= p < before.values.len() && p != tensor ==> #[trigger] after.values[p]
            == before.values[p]
    &&& after.current == before.current
    &&& after.ops == before.ops
}

/// Whether a state is another with one more real operator, whose output is
/// now the data that the chain holds.
pub open spec fn advances(
    before: FoldStateView,
    after: FoldStateView,
    tensor: int,
    op: fold::FoldedOpView,
) -> bool {
    &&& after.values.len() == before.values.len()
    &&& 0 <= tensor < before.values.len()
    &&& after.values[tensor] matches Some(Value::Data { origin, shape })
    &&& origin == tensor && shape == op.output_shape
    &&& forall|p: int|
        0 <= p < before.values.len() && p != tensor ==> #[trigger] after.values[p]
            == before.values[p]
    &&& after.current == tensor
    &&& after.ops.len() == before.ops.len() + 1
    &&& after.ops.last() == op
    &&& after.ops.drop_last() == before.ops
}

/// Each operator does what its kind says, to the tensor that it writes: a
/// shape operator makes that tensor known, a real operator is kept and its
/// output becomes the data that the chain holds. An operator of any other kind
/// is refused by its kind and position.
pub proof fn law_steps(graph: Graph, state: FoldStateView, index: usize)
    ensures
        ({
            let operator = graph.operators@[index as int];
            let outputs = schema::entries(operator.outputs);
            let kind = schema::resolved_kind(
                graph.operator_codes@[operator.opcode_index as int],
            );
            let tensor = entry(outputs[0]);
            let value = if kind is EXPAND_DIMS {
                fold::expand_dims_value(graph, index, state.values)
            } else if kind is RESHAPE {
                fold::reshape_value(graph, index, state.values)
            } else if kind is SHAPE {
                fold::shape_value(graph, index, state.values)
            } else if kind is STRIDED_SLICE {
                fold::strided_slice_value(graph, index, state.values)
            } else {
                fold::pack_value(graph, index, state.values)
            };
            let shape_operator = kind is EXPAND_DIMS || kind is RESHAPE || kind is SHAPE
                || kind is STRIDED_SLICE || kind is PACK;
            let kept_kind = kind is CONV_2D || kind is DEPTHWISE_CONV_2D || kind is AVERAGE_POOL_2D
                || kind is FULLY_CONNECTED || kind is SOFTMAX || kind is TRANSPOSE;
            let op = fold::real_op(
                graph,
                index,
                kind,
                state.values,
                state.current,
                tensor as usize,
            );
            let written = operator.opcode_index < graph.operator_codes@.len() && outputs.len() > 0;
            match fold::step(graph, state, index) {
                Some(Ok(next)) => {
                    &&& written
                    &&& shape_operator || kept_kind
                    &&& shape_operator ==> (value matches Some(Ok(known)) && learns(
                        state,
                        next,
                        tensor,
                        known,
                    ))
                    &&& kept_kind ==> (op matches Some(Ok(kept)) && advances(state, next, tensor, kept))
                },
                Some(Err(error)) => {
                    &&& written
                    &&& shape_operator ==> value == Some(
                        Err::<ValueView, fold::FoldErrorView>(error),
                    )
                    &&& kept_kind ==> op == Some(Err::<fold::FoldedOpView, fold::FoldErrorView>(error))
                    &&& !shape_operator && !kept_kind ==> error == (
                    FoldError::<Seq<usize>, Seq<i64>>::Unsupported { kind, index })
                },
                None => {
                    ||| !written
                    ||| shape_operator && (value is None || tensor >= state.values.len())
                    ||| kept_kind && (op is None || tensor >= state.values.len())
                },
            }
        }),
{
    let operator = graph.operators@[index as int];
    let kind = schema::resolved_kind(graph.operator_codes@[operator.opcode_index as int]);
    if let Some(Ok(next)) = fold::step(graph, state, index) {
        if kind.is_real() {
            assert(next.ops.drop_last() =~= state.ops);
        }
    }
}

/// Folding goes through the operators one by one and ends at the first that
/// fails. Before the first, only the model input is known, as data of its own
/// with the given shape.
pub proof fn law_operators_fold_in_order(
    graph: Graph,
    input: usize,
    raw_input_shape: Seq<usize>,
    n: nat,
)
    requires
        n < graph.operators@.len(),
        input < graph.tensors@.len(),
    ensures
        ({
            let start = fold::initial_state(graph.tensors@.len(), input, raw_input_shape);
            &&& start.values.len() == graph.tensors@.len()
            &&& start.current == input
            &&& start.ops.len() == 0
            &&& forall|p: int|
                0 <= p < start.values.len() ==> (#[trigger] start.values[p] is Some <==> p == input)
            &&& start.values[input as int] matches Some(Value::Data { origin, shape })
            &&& origin == input && shape == raw_input_shape
            &&& fold::state_after(graph, start, 0) == Some(
                Ok::<FoldStateView, fold::FoldErrorView>(start),
            )
            &&& (match fold::state_after(graph, start, n) {
                Some(Ok(state)) => fold::state_after(graph, start, n + 1) == fold::step(
                    graph,
                    state,
                    n as usize,
                ),
                failure => fold::state_after(graph, start, n + 1) == failure,
            })
        }),
{
}

/// A folded graph holds the real operators that were kept, and the normalized
/// shape of the data that the model output is known as. It is refused where
/// that shape is not supported, or where the output is known as no data.
pub proof fn law_folded_graphs(
    graph: Graph,
    input: usize,
    output: usize,
    raw_input_shape: Seq<usize>,
)
    ensures
        ({
            let start = fold::initial_state(graph.tensors@.len(), input, raw_input_shape);
            let last = fold::state_after(graph, start, graph.operators@.len());
            match fold::folded(graph, input, output, raw_input_shape) {
                Some(Ok(folded)) => {
                    &&& input < graph.tensors@.len()
                    &&& last matches Some(Ok(state))
                    &&& folded.ops == state.ops
                    &&& output < state.values.len()
                    &&& state.values[output as int] matches Some(Value::Data { shape, .. })
                    &&& normalize::normalized_model_output(shape) == Some(
                        Ok::<Seq<usize>, RankError<Seq<usize>>>(folded.output_shape),
                    )
                },
                Some(Err(error)) => {
                    &&& input < graph.tensors@.len()
                    &&& (match last {
                        None => false,
                        Some(Err(failure)) => error == failure,
                        Some(Ok(state)) => {
                            let known = output < state.values.len() && (state.values[output as int]
                                matches Some(Value::Data { .. }));
                            &&& error is OutputNotProduced <==> !known
                            &&& known ==> (error matches FoldError::OutputShape { error: cause }
                                && normalize::normalized_model_output(
                                state.values[output as int]->Some_0->shape,
                            ) == Some(Err::<Seq<usize>, RankError<Seq<usize>>>(cause)))
                        },
                    })
                },
                None => {
                    ||| input >= graph.tensors@.len()
                    ||| last is None
                    ||| (last matches Some(Ok(state)) && normalize::normalized_model_output(
                        state.values[output as int]->Some_0->shape,
                    ) is None)
                },
            }
        }),
{
}

/// Nothing but shape operators is dropped: where a graph folds, every one of
/// its operators is a shape operator or one of those that are kept.
pub proof fn law_every_operator_is_known(
    graph: Graph,
    input: usize,
    output: usize,
    raw_input_shape: Seq<usize>,
    index: int,
)
    requires
        fold::folded(graph, input, output, raw_input_shape) matches Some(Ok(_)),
        0 <= index < graph.operators@.len(),
    ensures
        ({
            let kind = fold_laws::kind_at(graph, index);
            ||| kind is CONV_2D || kind is DEPTHWISE_CONV_2D || kind is AVERAGE_POOL_2D
            ||| kind is FULLY_CONNECTED || kind is SOFTMAX || kind is TRANSPOSE
            ||| kind is EXPAND_DIMS || kind is RESHAPE || kind is SHAPE
            ||| kind is STRIDED_SLICE || kind is PACK
        }),
{
    let start = fold::initial_state(graph.tensors@.len(), input, raw_input_shape);
    assert(graph.operators@.len() == graph.operators.len());
    lemma_prefix_folds(graph, start, (index + 1) as nat, graph.operators@.len());
    let state = fold::state_after(graph, start, index as nat)->Some_0->Ok_0;
    law_steps(graph, state, index as usize);
}

/// Where some operators fold, so do the first of them.
proof fn lemma_prefix_folds(graph: Graph, start: FoldStateView, n: nat, m: nat)
    requires
        n <= m,
        fold::state_after(graph, start, m) matches Some(Ok(_)),
    ensures
        fold::state_after(graph, start, n) matches Some(Ok(_)),
    decreases m,
{
    if n < m {
        lemma_prefix_folds(graph, start, n, (m - 1) as nat);
    }
}

} // verus!
