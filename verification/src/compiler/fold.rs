//! Graph normalization for rank-3 (Keras `Conv1D`) models.
//!
//! A model file exported from TF 2.x wraps every 1-D block into shape
//! operators: `EXPAND_DIMS -> CONV_2D -> RESHAPE`, pools the same way, and
//! flattens via a dynamic `SHAPE -> STRIDED_SLICE -> PACK -> RESHAPE` chain.
//! None of them touch the data: they only re-label the shape. This pass walks
//! the operator list once, keeps a "tensor -> virtual shape" table, and:
//!
//! - folds `EXPAND_DIMS`/`RESHAPE` into virtual reshapes (no code emitted);
//! - evaluates the flatten chain statically and replaces it with a single
//!   virtual reshape;
//! - keeps the "real" operators (`CONV_2D`, `AVERAGE_POOL_2D`,
//!   `FULLY_CONNECTED`, `SOFTMAX`, `DEPTHWISE_CONV_2D`, `TRANSPOSE`) with
//!   effective input/output shapes derived from the table.
//!
//! Anything that does not fold produces an error. Where an operator is at
//! fault, the error says which one, by its kind and its position; where a
//! shape is what is not accepted, it holds that shape.
use crate::compiler::constants;
use crate::compiler::constants::{
    checked_read_i32_scalar, checked_read_i32s, ConstantError,
};
use crate::compiler::normalize;
use crate::compiler::normalize::{
    checked_normalize_model_output, checked_normalize_real_input, normalize_real_output, RankError,
};
use crate::compiler::outcome;
use crate::compiler::schema;
use crate::compiler::schema::{
    builtin_kind, entries_of, tensor_shape, BuiltinOperator, BuiltinOptions, Graph, Operator,
};
use crate::compiler::shape;
use crate::compiler::shape::{
    checked_expand_shape, checked_product, checked_resolve_shape, checked_strided_slice, AxisError,
    ResolveError, SliceError,
};
use vstd::prelude::*;
use vstd::slice::slice_to_vec;

verus! {

/// The operator that an error speaks of.
#[derive(Debug, Clone, Copy, PartialEq, Eq)]
pub enum Label {
    ExpandDims,
    Reshape,
    Shape,
    StridedSlice,
    Pack,
    RealOperator,
}

/// Why a graph cannot be folded. `index` is the position of the operator.
#[allow(inconsistent_fields)]
#[derive(Debug, PartialEq, Eq)]
pub enum FoldError<S, D> {
    /// The input is a shape tensor, but data was expected.
    ShapeTensor { label: Label, index: usize },
    /// The input tensor is not produced inside the folded chain.
    NotProduced { label: Label, index: usize, tensor: i32 },
    /// An EXPAND_DIMS has no axis input.
    MissingAxis { index: usize },
    /// A constant input of the operator cannot be read.
    OperatorConstant { label: Label, index: usize, error: ConstantError },
    /// The axis of an EXPAND_DIMS is out of range.
    Axis { index: usize, error: AxisError, shape: S },
    /// A RESHAPE has neither a shape input nor a `new_shape` option.
    MissingShape { index: usize },
    /// The target of a RESHAPE does not fit its input.
    Resolve { index: usize, error: ResolveError<D>, shape: S, dims: D },
    /// A STRIDED_SLICE lacks one of its four inputs.
    MissingSliceInputs { index: usize },
    /// The input of a STRIDED_SLICE is not a shape tensor.
    NotShapeTensor { index: usize },
    /// A STRIDED_SLICE has no options.
    MissingSliceOptions { index: usize },
    /// A STRIDED_SLICE sets a mask other than `shrink_axis_mask`.
    UnsupportedMasks { index: usize },
    /// A slice cannot be evaluated.
    Slice { index: usize, error: SliceError, dims: D },
    /// A PACK is not along axis 0.
    PackAxis { index: usize, axis: i32 },
    /// The input does not follow the output of the previous real operator.
    Branching { kind: BuiltinOperator, index: usize },
    /// An input or output shape of a real operator is not supported.
    OperatorShape { kind: BuiltinOperator, index: usize, error: RankError<S> },
    /// The operator is neither real nor foldable.
    Unsupported { kind: BuiltinOperator, index: usize },
    /// The shape of the model output is not supported.
    OutputShape { error: RankError<S> },
    /// The output tensor is not produced by the folded chain.
    OutputNotProduced,
}

/// What the folding pass knows about a tensor.
#[derive(Debug, PartialEq, Eq)]
pub enum Value<S, D> {
    /// Data produced by the real operator output `origin` (or by the model
    /// input), with the virtual shape accumulated across the folded shape
    /// operators.
    Data { origin: usize, shape: S },
    /// A statically-known shape vector (a result of the `SHAPE` chain).
    Dims(D),
}

/// A real (code-generating) operator with the shapes it sees after folding.
#[derive(Debug, PartialEq, Eq)]
pub struct FoldedOp {
    /// Index in the operator list (used for naming generated constants).
    pub index: usize,
    pub kind: BuiltinOperator,
    /// Effective shape of input tensor 0, normalized to rank 2 or 4.
    pub input_shape: Vec<usize>,
    /// Effective shape of output tensor 0, normalized to rank 2 or 4.
    pub output_shape: Vec<usize>,
}

/// The result of folding a subgraph.
#[derive(Debug, PartialEq, Eq)]
pub struct FoldedGraph {
    /// Real operators, in execution order.
    pub ops: Vec<FoldedOp>,
    /// Virtual shape of the subgraph output tensor, rank 2 or 4.
    pub output_shape: Vec<usize>,
}

// Views

/// An error, with its shapes as sequences.
pub type FoldErrorView = FoldError<Seq<usize>, Seq<i64>>;

/// What is known about a tensor, with its shapes as sequences.
pub type ValueView = Value<Seq<usize>, Seq<i64>>;

impl View for FoldError<Vec<usize>, Vec<i64>> {
    type V = FoldErrorView;

    open spec fn view(&self) -> FoldErrorView {
        match *self {
            FoldError::ShapeTensor { label, index } => FoldError::ShapeTensor { label, index },
            FoldError::NotProduced { label, index, tensor } => FoldError::NotProduced {
                label,
                index,
                tensor,
            },
            FoldError::MissingAxis { index } => FoldError::MissingAxis { index },
            FoldError::OperatorConstant { label, index, error } => FoldError::OperatorConstant {
                label,
                index,
                error,
            },
            FoldError::Axis { index, error, shape } => FoldError::Axis {
                index,
                error,
                shape: shape@,
            },
            FoldError::MissingShape { index } => FoldError::MissingShape { index },
            FoldError::Resolve { index, error, shape, dims } => FoldError::Resolve {
                index,
                error: error@,
                shape: shape@,
                dims: dims@,
            },
            FoldError::MissingSliceInputs { index } => FoldError::MissingSliceInputs { index },
            FoldError::NotShapeTensor { index } => FoldError::NotShapeTensor { index },
            FoldError::MissingSliceOptions { index } => FoldError::MissingSliceOptions { index },
            FoldError::UnsupportedMasks { index } => FoldError::UnsupportedMasks { index },
            FoldError::Slice { index, error, dims } => FoldError::Slice {
                index,
                error,
                dims: dims@,
            },
            FoldError::PackAxis { index, axis } => FoldError::PackAxis { index, axis },
            FoldError::Branching { kind, index } => FoldError::Branching { kind, index },
            FoldError::OperatorShape { kind, index, error } => FoldError::OperatorShape {
                kind,
                index,
                error: error@,
            },
            FoldError::Unsupported { kind, index } => FoldError::Unsupported { kind, index },
            FoldError::OutputShape { error } => FoldError::OutputShape { error: error@ },
            FoldError::OutputNotProduced => FoldError::OutputNotProduced,
        }
    }
}

impl View for Value<Vec<usize>, Vec<i64>> {
    type V = ValueView;

    open spec fn view(&self) -> ValueView {
        match *self {
            Value::Data { origin, shape } => Value::Data { origin, shape: shape@ },
            Value::Dims(dims) => Value::Dims(dims@),
        }
    }
}

/// The table of what is known about each tensor.
pub open spec fn table(values: Seq<Option<Value<Vec<usize>, Vec<i64>>>>) -> Seq<
    Option<ValueView>,
> {
    Seq::new(
        values.len(),
        |i: int|
            match values[i] {
                Some(value) => Some(value@),
                None => None,
            },
    )
}

/// A real operator, with its shapes as sequences.
pub struct FoldedOpView {
    pub index: usize,
    pub kind: BuiltinOperator,
    pub input_shape: Seq<usize>,
    pub output_shape: Seq<usize>,
}

impl View for FoldedOp {
    type V = FoldedOpView;

    open spec fn view(&self) -> FoldedOpView {
        FoldedOpView {
            index: self.index,
            kind: self.kind,
            input_shape: self.input_shape@,
            output_shape: self.output_shape@,
        }
    }
}

/// The views of a list of real operators.
pub open spec fn op_views(ops: Seq<FoldedOp>) -> Seq<FoldedOpView> {
    Seq::new(ops.len(), |i: int| ops[i]@)
}

/// A folded subgraph, by the views of its parts.
pub struct FoldedGraphView {
    pub ops: Seq<FoldedOpView>,
    pub output_shape: Seq<usize>,
}

impl View for FoldedGraph {
    type V = FoldedGraphView;

    open spec fn view(&self) -> FoldedGraphView {
        FoldedGraphView { ops: op_views(self.ops@), output_shape: self.output_shape@ }
    }
}

// The value that each operator gives its output

/// Position in the table that a tensor index names: a negative index names
/// the first entry.
pub open spec fn table_position(tensor: i32) -> int {
    if tensor < 0 {
        0
    } else {
        tensor as int
    }
}

/// The shape vector known at a position of the table.
pub open spec fn dims_at(values: Seq<Option<ValueView>>, at: int) -> Option<Seq<i64>> {
    if 0 <= at < values.len() {
        match values[at] {
            Some(Value::Dims(dims)) => Some(dims),
            _ => None,
        }
    } else {
        None
    }
}

/// The origin and virtual shape of the data input of an operator.
pub open spec fn data_of(
    label: Label,
    index: usize,
    tensor: i32,
    values: Seq<Option<ValueView>>,
) -> Result<(usize, Seq<usize>), FoldErrorView> {
    let at = table_position(tensor);
    if at < values.len() {
        match values[at] {
            Some(Value::Data { origin, shape }) => Ok((origin, shape)),
            Some(Value::Dims(_)) => Err(FoldError::ShapeTensor { label, index }),
            None => Err(FoldError::NotProduced { label, index, tensor }),
        }
    } else {
        Err(FoldError::NotProduced { label, index, tensor })
    }
}

/// The output of an EXPAND_DIMS: the data with a size-1 axis inserted.
pub open spec fn expand_dims_value(
    graph: Graph,
    index: usize,
    values: Seq<Option<ValueView>>,
) -> Option<Result<ValueView, FoldErrorView>> {
    let inputs = schema::entries(graph.operators@[index as int].inputs);
    if inputs.len() == 0 {
        None
    } else {
        match data_of(Label::ExpandDims, index, inputs[0], values) {
            Err(error) => Some(Err(error)),
            Ok((origin, shape)) => if inputs.len() < 2 || inputs[1] < 0 {
                Some(Err(FoldError::MissingAxis { index }))
            } else {
                match constants::scalar_constant(
                    graph.tensors@,
                    graph.buffers@,
                    inputs[1] as usize,
                ) {
                    None => None,
                    Some(Err(error)) => Some(
                        Err(FoldError::OperatorConstant { label: Label::ExpandDims, index, error }),
                    ),
                    Some(Ok(axis)) => match shape::expansion(shape, axis) {
                        None => None,
                        Some(Err(error)) => Some(Err(FoldError::Axis { index, error, shape })),
                        Some(Ok(expanded)) => Some(Ok(Value::Data { origin, shape: expanded })),
                    },
                }
            },
        }
    }
}

/// INT32 dimensions as wider integers.
pub open spec fn widened(dims: Seq<i32>) -> Seq<i64> {
    Seq::new(dims.len(), |i: int| dims[i] as i64)
}

/// The target of a RESHAPE: from the statically evaluated shape chain, from a
/// constant shape vector, or from the operator's options.
pub open spec fn reshape_target(
    graph: Graph,
    index: usize,
    values: Seq<Option<ValueView>>,
) -> Option<Result<Seq<i64>, FoldErrorView>> {
    let operator = graph.operators@[index as int];
    let inputs = schema::entries(operator.inputs);
    if inputs.len() > 1 && inputs[1] >= 0 {
        if inputs[1] >= values.len() {
            None
        } else {
            match values[inputs[1] as int] {
                Some(Value::Dims(dims)) => Some(Ok(dims)),
                _ => match constants::constant(
                    graph.tensors@,
                    graph.buffers@,
                    inputs[1] as usize,
                ) {
                    None => None,
                    Some(Err(error)) => Some(
                        Err(FoldError::OperatorConstant { label: Label::Reshape, index, error }),
                    ),
                    Some(Ok(dims)) => Some(Ok(widened(dims))),
                },
            }
        }
    } else {
        match operator.options {
            BuiltinOptions::Reshape { new_shape: Some(dims) } => Some(Ok(widened(dims@))),
            _ => Some(Err(FoldError::MissingShape { index })),
        }
    }
}

/// The output of a RESHAPE: the data under the resolved target shape.
pub open spec fn reshape_value(
    graph: Graph,
    index: usize,
    values: Seq<Option<ValueView>>,
) -> Option<Result<ValueView, FoldErrorView>> {
    let inputs = schema::entries(graph.operators@[index as int].inputs);
    if inputs.len() == 0 {
        None
    } else {
        match data_of(Label::Reshape, index, inputs[0], values) {
            Err(error) => Some(Err(error)),
            Ok((origin, shape)) => match reshape_target(graph, index, values) {
                None => None,
                Some(Err(error)) => Some(Err(error)),
                Some(Ok(dims)) => if !shape::count_fits(shape) {
                    None
                } else {
                    match shape::resolution(dims, shape::count(shape) as usize) {
                        None => None,
                        Some(Err(error)) => Some(
                            Err(FoldError::Resolve { index, error, shape, dims }),
                        ),
                        Some(Ok(resolved)) => Some(Ok(Value::Data { origin, shape: resolved })),
                    }
                },
            },
        }
    }
}

/// The output of a SHAPE: the virtual shape of its input.
pub open spec fn shape_value(
    graph: Graph,
    index: usize,
    values: Seq<Option<ValueView>>,
) -> Option<Result<ValueView, FoldErrorView>> {
    let inputs = schema::entries(graph.operators@[index as int].inputs);
    if inputs.len() == 0 {
        None
    } else {
        match data_of(Label::Shape, index, inputs[0], values) {
            Err(error) => Some(Err(error)),
            Ok((origin, shape)) => Some(Ok(Value::Dims(shape::as_dims(shape)))),
        }
    }
}

/// A constant input of a STRIDED_SLICE.
pub open spec fn slice_constant(graph: Graph, index: usize, tensor: i32) -> Option<
    Result<Seq<i32>, FoldErrorView>,
> {
    match constants::constant(graph.tensors@, graph.buffers@, tensor as usize) {
        None => None,
        Some(Err(error)) => Some(
            Err(FoldError::OperatorConstant { label: Label::StridedSlice, index, error }),
        ),
        Some(Ok(constant)) => Some(Ok(constant)),
    }
}

/// The slice of a shape vector by bounds that have been read.
pub open spec fn sliced_dims(
    options: BuiltinOptions,
    index: usize,
    dims: Seq<i64>,
    begin: Seq<i32>,
    end: Seq<i32>,
    strides: Seq<i32>,
) -> Option<Result<ValueView, FoldErrorView>> {
    match options {
        BuiltinOptions::StridedSlice(masks) => if masks.begin_mask != 0 || masks.end_mask != 0
            || masks.ellipsis_mask != 0 || masks.new_axis_mask != 0 {
            Some(Err(FoldError::UnsupportedMasks { index }))
        } else {
            match shape::slice_selection(dims, begin, end, strides, masks.shrink_axis_mask != 0) {
                None => None,
                Some(Err(error)) => Some(Err(FoldError::Slice { index, error, dims })),
                Some(Ok(selected)) => Some(Ok(Value::Dims(selected))),
            }
        },
        _ => Some(Err(FoldError::MissingSliceOptions { index })),
    }
}

/// The output of a STRIDED_SLICE: the selected part of a shape vector.
pub open spec fn strided_slice_value(
    graph: Graph,
    index: usize,
    values: Seq<Option<ValueView>>,
) -> Option<Result<ValueView, FoldErrorView>> {
    let operator = graph.operators@[index as int];
    let inputs = schema::entries(operator.inputs);
    if inputs.len() < 4 || inputs[0] < 0 || inputs[1] < 0 || inputs[2] < 0 || inputs[3] < 0 {
        Some(Err(FoldError::MissingSliceInputs { index }))
    } else {
        match dims_at(values, inputs[0] as int) {
            None => Some(Err(FoldError::NotShapeTensor { index })),
            Some(dims) => match slice_constant(graph, index, inputs[1]) {
                None => None,
                Some(Err(error)) => Some(Err(error)),
                Some(Ok(begin)) => match slice_constant(graph, index, inputs[2]) {
                    None => None,
                    Some(Err(error)) => Some(Err(error)),
                    Some(Ok(end)) => match slice_constant(graph, index, inputs[3]) {
                        None => None,
                        Some(Err(error)) => Some(Err(error)),
                        Some(Ok(strides)) => sliced_dims(
                            operator.options,
                            index,
                            dims,
                            begin,
                            end,
                            strides,
                        ),
                    },
                },
            },
        }
    }
}

/// One entry of a PACK: the element of a one-element shape vector, or else
/// the first value of a constant tensor.
pub open spec fn packed_entry(
    graph: Graph,
    index: usize,
    tensor: i32,
    values: Seq<Option<ValueView>>,
) -> Option<Result<i64, FoldErrorView>> {
    let dims = dims_at(values, table_position(tensor));
    if dims is Some && dims->0.len() == 1 {
        Some(Ok(dims->0[0]))
    } else {
        match constants::scalar_constant(graph.tensors@, graph.buffers@, tensor as usize) {
            None => None,
            Some(Err(error)) => Some(
                Err(FoldError::OperatorConstant { label: Label::Pack, index, error }),
            ),
            Some(Ok(value)) => Some(Ok(value as i64)),
        }
    }
}

/// The entries of a PACK, in order, or the first failure.
pub open spec fn packed_entries(
    graph: Graph,
    index: usize,
    inputs: Seq<i32>,
    values: Seq<Option<ValueView>>,
) -> Option<Result<Seq<i64>, FoldErrorView>>
    decreases inputs.len(),
{
    if inputs.len() == 0 {
        Some(Ok(Seq::empty()))
    } else {
        match packed_entries(graph, index, inputs.drop_last(), values) {
            None => None,
            Some(Err(error)) => Some(Err(error)),
            Some(Ok(front)) => match packed_entry(graph, index, inputs.last(), values) {
                None => None,
                Some(Err(error)) => Some(Err(error)),
                Some(Ok(entry)) => Some(Ok(front.push(entry))),
            },
        }
    }
}

/// The axis of a PACK.
pub open spec fn pack_axis(options: BuiltinOptions) -> i32 {
    match options {
        BuiltinOptions::Pack { axis } => axis,
        _ => 0,
    }
}

/// The output of a PACK: the shape vector made of its scalar inputs.
pub open spec fn pack_value(
    graph: Graph,
    index: usize,
    values: Seq<Option<ValueView>>,
) -> Option<Result<ValueView, FoldErrorView>> {
    let operator = graph.operators@[index as int];
    if pack_axis(operator.options) != 0 {
        Some(Err(FoldError::PackAxis { index, axis: pack_axis(operator.options) }))
    } else {
        match packed_entries(graph, index, schema::entries(operator.inputs), values) {
            None => None,
            Some(Err(error)) => Some(Err(error)),
            Some(Ok(packed)) => Some(Ok(Value::Dims(packed))),
        }
    }
}

/// A real operator with its effective shapes. `current` is the tensor whose
/// data the generated chain holds, `output` the one that the operator writes.
pub open spec fn real_op(
    graph: Graph,
    index: usize,
    kind: BuiltinOperator,
    values: Seq<Option<ValueView>>,
    current: usize,
    output: usize,
) -> Option<Result<FoldedOpView, FoldErrorView>> {
    let inputs = schema::entries(graph.operators@[index as int].inputs);
    if inputs.len() == 0 {
        None
    } else {
        match data_of(Label::RealOperator, index, inputs[0], values) {
            Err(error) => Some(Err(error)),
            Ok((origin, shape)) => if origin != current {
                Some(Err(FoldError::Branching { kind, index }))
            } else {
                match normalize::normalized_input(kind, shape) {
                    None => None,
                    Some(Err(error)) => Some(Err(FoldError::OperatorShape { kind, index, error })),
                    Some(Ok(input_shape)) => if output >= graph.tensors@.len() {
                        None
                    } else {
                        match normalize::normalized_output(
                            kind,
                            schema::shape_of(graph.tensors@[output as int]),
                        ) {
                            Err(error) => Some(
                                Err(FoldError::OperatorShape { kind, index, error }),
                            ),
                            Ok(output_shape) => Some(
                                Ok(FoldedOpView { index, kind, input_shape, output_shape }),
                            ),
                        }
                    },
                }
            },
        }
    }
}

// The pass

/// State of the pass between two operators.
pub struct FoldStateView {
    /// What is known about each tensor.
    pub values: Seq<Option<ValueView>>,
    /// The tensor whose data the generated chain variable currently holds.
    pub current: usize,
    /// The real operators so far.
    pub ops: Seq<FoldedOpView>,
}

/// The state with `value` known about the tensor `output`.
pub open spec fn recorded(
    state: FoldStateView,
    output: usize,
    value: Option<Result<ValueView, FoldErrorView>>,
) -> Option<Result<FoldStateView, FoldErrorView>> {
    match value {
        None => None,
        Some(Err(error)) => Some(Err(error)),
        Some(Ok(value)) => if output < state.values.len() {
            Some(
                Ok(
                    FoldStateView {
                        values: state.values.update(output as int, Some(value)),
                        current: state.current,
                        ops: state.ops,
                    },
                ),
            )
        } else {
            None
        },
    }
}

/// The state after a real operator that writes the tensor `output`.
pub open spec fn advanced(
    state: FoldStateView,
    output: usize,
    op: Option<Result<FoldedOpView, FoldErrorView>>,
) -> Option<Result<FoldStateView, FoldErrorView>> {
    match op {
        None => None,
        Some(Err(error)) => Some(Err(error)),
        Some(Ok(op)) => if output < state.values.len() {
            Some(
                Ok(
                    FoldStateView {
                        values: state.values.update(
                            output as int,
                            Some(Value::Data { origin: output, shape: op.output_shape }),
                        ),
                        current: output,
                        ops: state.ops.push(op),
                    },
                ),
            )
        } else {
            None
        },
    }
}

/// The state after the operator at `index`; `None` where the operator refers
/// to an entry that does not exist or its arithmetic overflows.
pub open spec fn step(graph: Graph, state: FoldStateView, index: usize) -> Option<
    Result<FoldStateView, FoldErrorView>,
> {
    let operator = graph.operators@[index as int];
    let outputs = schema::entries(operator.outputs);
    if operator.opcode_index >= graph.operator_codes@.len() || outputs.len() == 0 {
        None
    } else {
        let kind = schema::resolved_kind(
            graph.operator_codes@[operator.opcode_index as int],
        );
        let output = table_position(outputs[0]) as usize;
        match kind {
            BuiltinOperator::EXPAND_DIMS => recorded(
                state,
                output,
                expand_dims_value(graph, index, state.values),
            ),
            BuiltinOperator::RESHAPE => recorded(
                state,
                output,
                reshape_value(graph, index, state.values),
            ),
            BuiltinOperator::SHAPE => recorded(
                state,
                output,
                shape_value(graph, index, state.values),
            ),
            BuiltinOperator::STRIDED_SLICE => recorded(
                state,
                output,
                strided_slice_value(graph, index, state.values),
            ),
            BuiltinOperator::PACK => recorded(state, output, pack_value(graph, index, state.values)),
            _ => if kind.is_real() {
                advanced(
                    state,
                    output,
                    real_op(graph, index, kind, state.values, state.current, output),
                )
            } else {
                Some(Err(FoldError::Unsupported { kind, index }))
            },
        }
    }
}

/// The state before the first operator: only the model input is known.
pub open spec fn initial_state(tensors: nat, input: usize, raw_input_shape: Seq<usize>) -> FoldStateView {
    FoldStateView {
        values: Seq::new(tensors, |i: int| None::<ValueView>).update(
            input as int,
            Some(Value::Data { origin: input, shape: raw_input_shape }),
        ),
        current: input,
        ops: Seq::empty(),
    }
}

/// The state after the first `n` operators, or the first failure among them.
pub open spec fn state_after(graph: Graph, start: FoldStateView, n: nat) -> Option<
    Result<FoldStateView, FoldErrorView>,
>
    decreases n,
{
    if n == 0 {
        Some(Ok(start))
    } else {
        match state_after(graph, start, (n - 1) as nat) {
            None => None,
            Some(Err(error)) => Some(Err(error)),
            Some(Ok(state)) => step(graph, state, (n - 1) as usize),
        }
    }
}

/// The folded graph of a final state.
pub open spec fn finished(state: FoldStateView, output: usize) -> Option<
    Result<FoldedGraphView, FoldErrorView>,
> {
    if output >= state.values.len() {
        Some(Err(FoldError::OutputNotProduced))
    } else {
        match state.values[output as int] {
            Some(Value::Data { origin, shape }) => match normalize::normalized_model_output(shape) {
                None => None,
                Some(Err(error)) => Some(Err(FoldError::OutputShape { error })),
                Some(Ok(output_shape)) => Some(
                    Ok(FoldedGraphView { ops: state.ops, output_shape }),
                ),
            },
            _ => Some(Err(FoldError::OutputNotProduced)),
        }
    }
}

/// Outcome of folding a graph; `None` where an operator refers to an entry
/// that does not exist or its arithmetic overflows.
pub open spec fn folded(
    graph: Graph,
    input: usize,
    output: usize,
    raw_input_shape: Seq<usize>,
) -> Option<Result<FoldedGraphView, FoldErrorView>> {
    if input >= graph.tensors@.len() {
        None
    } else {
        match state_after(
            graph,
            initial_state(graph.tensors@.len(), input, raw_input_shape),
            graph.operators@.len(),
        ) {
            None => None,
            Some(Err(error)) => Some(Err(error)),
            Some(Ok(state)) => finished(state, output),
        }
    }
}

// Execution of the pass

/// An error, as the pass returns it.
pub type GraphError = FoldError<Vec<usize>, Vec<i64>>;

/// What the pass keeps about a tensor.
pub type TensorValue = Value<Vec<usize>, Vec<i64>>;

/// The data input of an operator: returns its origin and virtual shape.
pub fn data_input(
    label: Label,
    index: usize,
    tensor_index: i32,
    values: &[Option<TensorValue>],
) -> (data: Result<(usize, Vec<usize>), GraphError>)
    ensures
        match data {
            Ok((origin, shape)) => data_of(label, index, tensor_index, table(values@)) == Ok::<
                (usize, Seq<usize>),
                FoldErrorView,
            >((origin, shape@)),
            Err(error) => data_of(label, index, tensor_index, table(values@)) == Err::<
                (usize, Seq<usize>),
                FoldErrorView,
            >(error@),
        },
{
    let at: usize = if tensor_index < 0 {
        0
    } else {
        tensor_index as usize
    };
    if at < values.len() {
        assert(table(values@)[at as int] == match values@[at as int] {
            Some(value) => Some(value@),
            None => None,
        });
        match &values[at] {
            Some(Value::Data { origin, shape }) => Ok((*origin, slice_to_vec(shape.as_slice()))),
            Some(Value::Dims(_)) => Err(FoldError::ShapeTensor { label, index }),
            None => Err(FoldError::NotProduced { label, index, tensor: tensor_index }),
        }
    } else {
        Err(FoldError::NotProduced { label, index, tensor: tensor_index })
    }
}

/// The shape vector known at a position of the table.
fn known_dims(values: &[Option<TensorValue>], at: usize) -> (dims: Option<Vec<i64>>)
    ensures
        match dims {
            Some(dims) => dims_at(table(values@), at as int) == Some(dims@),
            None => dims_at(table(values@), at as int) is None,
        },
{
    if at < values.len() {
        assert(table(values@)[at as int] == match values@[at as int] {
            Some(value) => Some(value@),
            None => None,
        });
        match &values[at] {
            Some(Value::Dims(dims)) => Some(slice_to_vec(dims.as_slice())),
            _ => None,
        }
    } else {
        None
    }
}

/// Folds an EXPAND_DIMS.
fn expand_dims(graph: &Graph, index: usize, values: &[Option<TensorValue>]) -> (value: Option<
    Result<TensorValue, GraphError>,
>)
    requires
        index < graph.operators@.len(),
    ensures
        outcome::view_of(value) == expand_dims_value(*graph, index, table(values@)),
{
    let inputs: Vec<i32> = entries_of(&graph.operators[index].inputs);
    if inputs.len() == 0 {
        return None;
    }
    let (origin, shape): (usize, Vec<usize>) = match data_input(
        Label::ExpandDims,
        index,
        inputs[0],
        values,
    ) {
        Ok(data) => data,
        Err(error) => {
            return Some(Err(error));
        },
    };
    if inputs.len() < 2 || inputs[1] < 0 {
        return Some(Err(FoldError::MissingAxis { index }));
    }
    let axis: i32 = match checked_read_i32_scalar(
        graph.tensors.as_slice(),
        graph.buffers.as_slice(),
        inputs[1] as usize,
    ) {
        None => {
            return None;
        },
        Some(Err(error)) => {
            return Some(
                Err(FoldError::OperatorConstant { label: Label::ExpandDims, index, error }),
            );
        },
        Some(Ok(axis)) => axis,
    };
    match checked_expand_shape(shape.as_slice(), axis) {
        None => None,
        Some(Err(error)) => Some(Err(FoldError::Axis { index, error, shape })),
        Some(Ok(expanded)) => Some(Ok(Value::Data { origin, shape: expanded })),
    }
}

/// Converts INT32 dimensions to wider integers.
fn widen(dims: &[i32]) -> (wide: Vec<i64>)
    ensures
        wide@ == widened(dims@),
{
    let mut wide: Vec<i64> = Vec::new();
    let mut i: usize = 0;
    while i < dims.len()
        invariant
            i <= dims.len(),
            wide@ =~= widened(dims@).take(i as int),
        decreases dims.len() - i,
    {
        wide.push(dims[i] as i64);
        i = i + 1;
    }
    wide
}

/// Converts sizes to signed dimensions.
fn signed_dims(shape: &[usize]) -> (dims: Vec<i64>)
    ensures
        dims@ == shape::as_dims(shape@),
{
    let mut dims: Vec<i64> = Vec::new();
    let mut i: usize = 0;
    while i < shape.len()
        invariant
            i <= shape.len(),
            dims@ =~= shape::as_dims(shape@).take(i as int),
        decreases shape.len() - i,
    {
        dims.push(shape[i] as i64);
        i = i + 1;
    }
    dims
}

/// Finds the target of a RESHAPE.
fn find_reshape_target(graph: &Graph, index: usize, values: &[Option<TensorValue>]) -> (dims: Option<
    Result<Vec<i64>, GraphError>,
>)
    requires
        index < graph.operators@.len(),
    ensures
        outcome::view_of(dims) == reshape_target(*graph, index, table(values@)),
{
    let operator: &Operator = &graph.operators[index];
    let inputs: Vec<i32> = entries_of(&operator.inputs);
    if inputs.len() > 1 && inputs[1] >= 0 {
        let at: usize = inputs[1] as usize;
        if at >= values.len() {
            return None;
        }
        match known_dims(values, at) {
            Some(dims) => Some(Ok(dims)),
            None => match checked_read_i32s(
                graph.tensors.as_slice(),
                graph.buffers.as_slice(),
                at,
            ) {
                None => None,
                Some(Err(error)) => Some(
                    Err(FoldError::OperatorConstant { label: Label::Reshape, index, error }),
                ),
                Some(Ok(dims)) => Some(Ok(widen(dims.as_slice()))),
            },
        }
    } else {
        match &operator.options {
            BuiltinOptions::Reshape { new_shape: Some(dims) } => Some(Ok(widen(dims.as_slice()))),
            _ => Some(Err(FoldError::MissingShape { index })),
        }
    }
}

/// Folds a RESHAPE.
fn reshape(graph: &Graph, index: usize, values: &[Option<TensorValue>]) -> (value: Option<
    Result<TensorValue, GraphError>,
>)
    requires
        index < graph.operators@.len(),
    ensures
        outcome::view_of(value) == reshape_value(*graph, index, table(values@)),
{
    let inputs: Vec<i32> = entries_of(&graph.operators[index].inputs);
    if inputs.len() == 0 {
        return None;
    }
    let (origin, shape): (usize, Vec<usize>) = match data_input(
        Label::Reshape,
        index,
        inputs[0],
        values,
    ) {
        Ok(data) => data,
        Err(error) => {
            return Some(Err(error));
        },
    };
    let dims: Vec<i64> = match find_reshape_target(graph, index, values) {
        None => {
            return None;
        },
        Some(Err(error)) => {
            return Some(Err(error));
        },
        Some(Ok(dims)) => dims,
    };
    let count: usize = match checked_product(shape.as_slice()) {
        Some(count) => count,
        None => {
            return None;
        },
    };
    match checked_resolve_shape(dims.as_slice(), count) {
        None => None,
        Some(Err(error)) => Some(Err(FoldError::Resolve { index, error, shape, dims })),
        Some(Ok(resolved)) => Some(Ok(Value::Data { origin, shape: resolved })),
    }
}

/// Evaluates a SHAPE.
fn shape_vector(graph: &Graph, index: usize, values: &[Option<TensorValue>]) -> (value: Option<
    Result<TensorValue, GraphError>,
>)
    requires
        index < graph.operators@.len(),
    ensures
        outcome::view_of(value) == shape_value(*graph, index, table(values@)),
{
    let inputs: Vec<i32> = entries_of(&graph.operators[index].inputs);
    if inputs.len() == 0 {
        return None;
    }
    match data_input(Label::Shape, index, inputs[0], values) {
        Ok((_, shape)) => Some(Ok(Value::Dims(signed_dims(shape.as_slice())))),
        Err(error) => Some(Err(error)),
    }
}

/// Reads a constant input of a STRIDED_SLICE.
fn read_slice_constant(graph: &Graph, index: usize, tensor: i32) -> (values: Option<
    Result<Vec<i32>, GraphError>,
>)
    ensures
        outcome::view_of(values) == slice_constant(*graph, index, tensor),
{
    match checked_read_i32s(
        graph.tensors.as_slice(),
        graph.buffers.as_slice(),
        tensor as usize,
    ) {
        None => None,
        Some(Err(error)) => Some(
            Err(FoldError::OperatorConstant { label: Label::StridedSlice, index, error }),
        ),
        Some(Ok(values)) => Some(Ok(values)),
    }
}

/// Slices a shape vector by bounds that have been read.
fn slice_dims(
    options: &BuiltinOptions,
    index: usize,
    dims: Vec<i64>,
    begin: &[i32],
    end: &[i32],
    strides: &[i32],
) -> (value: Option<Result<TensorValue, GraphError>>)
    ensures
        outcome::view_of(value) == sliced_dims(*options, index, dims@, begin@, end@, strides@),
{
    match options {
        BuiltinOptions::StridedSlice(masks) => {
            if masks.begin_mask != 0 || masks.end_mask != 0 || masks.ellipsis_mask != 0
                || masks.new_axis_mask != 0 {
                return Some(Err(FoldError::UnsupportedMasks { index }));
            }
            match checked_strided_slice(
                dims.as_slice(),
                begin,
                end,
                strides,
                masks.shrink_axis_mask != 0,
            ) {
                None => None,
                Some(Err(error)) => Some(Err(FoldError::Slice { index, error, dims })),
                Some(Ok(selected)) => Some(Ok(Value::Dims(selected))),
            }
        },
        _ => Some(Err(FoldError::MissingSliceOptions { index })),
    }
}

/// Evaluates a STRIDED_SLICE.
fn slice_shape_vector(graph: &Graph, index: usize, values: &[Option<TensorValue>]) -> (value: Option<
    Result<TensorValue, GraphError>,
>)
    requires
        index < graph.operators@.len(),
    ensures
        outcome::view_of(value) == strided_slice_value(*graph, index, table(values@)),
{
    let operator: &Operator = &graph.operators[index];
    let inputs: Vec<i32> = entries_of(&operator.inputs);
    if inputs.len() < 4 || inputs[0] < 0 || inputs[1] < 0 || inputs[2] < 0 || inputs[3] < 0 {
        return Some(Err(FoldError::MissingSliceInputs { index }));
    }
    let dims: Vec<i64> = match known_dims(values, inputs[0] as usize) {
        Some(dims) => dims,
        None => {
            return Some(Err(FoldError::NotShapeTensor { index }));
        },
    };
    let begin: Vec<i32> = match read_slice_constant(graph, index, inputs[1]) {
        None => {
            return None;
        },
        Some(Err(error)) => {
            return Some(Err(error));
        },
        Some(Ok(begin)) => begin,
    };
    let end: Vec<i32> = match read_slice_constant(graph, index, inputs[2]) {
        None => {
            return None;
        },
        Some(Err(error)) => {
            return Some(Err(error));
        },
        Some(Ok(end)) => end,
    };
    let strides: Vec<i32> = match read_slice_constant(graph, index, inputs[3]) {
        None => {
            return None;
        },
        Some(Err(error)) => {
            return Some(Err(error));
        },
        Some(Ok(strides)) => strides,
    };
    slice_dims(
        &operator.options,
        index,
        dims,
        begin.as_slice(),
        end.as_slice(),
        strides.as_slice(),
    )
}

/// Reads one entry of a PACK.
fn pack_entry(graph: &Graph, index: usize, tensor: i32, values: &[Option<TensorValue>]) -> (entry:
    Option<Result<i64, GraphError>>)
    ensures
        outcome::view_of(entry) == packed_entry(*graph, index, tensor, table(values@)),
{
    let at: usize = if tensor < 0 {
        0
    } else {
        tensor as usize
    };
    match known_dims(values, at) {
        Some(dims) => {
            if dims.len() == 1 {
                return Some(Ok(dims[0]));
            }
        },
        None => {},
    }
    match checked_read_i32_scalar(
        graph.tensors.as_slice(),
        graph.buffers.as_slice(),
        tensor as usize,
    ) {
        None => None,
        Some(Err(error)) => Some(
            Err(FoldError::OperatorConstant { label: Label::Pack, index, error }),
        ),
        Some(Ok(value)) => Some(Ok(value as i64)),
    }
}

/// A failure on a prefix of the inputs is the failure on all of them.
proof fn lemma_packed_failure(
    graph: Graph,
    index: usize,
    inputs: Seq<i32>,
    n: int,
    values: Seq<Option<ValueView>>,
)
    requires
        0 <= n <= inputs.len(),
        !(packed_entries(graph, index, inputs.take(n), values) matches Some(Ok(_))),
    ensures
        packed_entries(graph, index, inputs, values) == packed_entries(
            graph,
            index,
            inputs.take(n),
            values,
        ),
    decreases inputs.len() - n,
{
    if n == inputs.len() {
        assert(inputs.take(n) =~= inputs);
    } else {
        assert(inputs.take(n + 1).drop_last() =~= inputs.take(n));
        lemma_packed_failure(graph, index, inputs, n + 1, values);
    }
}

/// Evaluates a PACK.
fn pack(graph: &Graph, index: usize, values: &[Option<TensorValue>]) -> (value: Option<
    Result<TensorValue, GraphError>,
>)
    requires
        index < graph.operators@.len(),
    ensures
        outcome::view_of(value) == pack_value(*graph, index, table(values@)),
{
    let operator: &Operator = &graph.operators[index];
    let axis: i32 = match &operator.options {
        BuiltinOptions::Pack { axis } => *axis,
        _ => 0,
    };
    if axis != 0 {
        return Some(Err(FoldError::PackAxis { index, axis }));
    }
    let inputs: Vec<i32> = entries_of(&operator.inputs);
    let mut packed: Vec<i64> = Vec::new();
    let mut i: usize = 0;
    assert(inputs@.take(0) =~= Seq::<i32>::empty());
    #[verifier::loop_isolation(false)]
    while i < inputs.len()
        invariant
            i <= inputs.len(),
            packed_entries(*graph, index, inputs@.take(i as int), table(values@)) == Some(
                Ok::<Seq<i64>, FoldErrorView>(packed@),
            ),
        decreases inputs.len() - i,
    {
        assert(inputs@.take(i + 1).drop_last() =~= inputs@.take(i as int));
        match pack_entry(graph, index, inputs[i], values) {
            None => {
                proof {
                    lemma_packed_failure(*graph, index, inputs@, i + 1, table(values@));
                }
                return None;
            },
            Some(Err(error)) => {
                proof {
                    lemma_packed_failure(*graph, index, inputs@, i + 1, table(values@));
                }
                return Some(Err(error));
            },
            Some(Ok(entry)) => {
                packed.push(entry);
            },
        }
        i = i + 1;
    }
    assert(inputs@.take(inputs@.len() as int) =~= inputs@);
    Some(Ok(Value::Dims(packed)))
}

/// Derives the effective shapes of a real operator.
fn keep_real_op(
    graph: &Graph,
    index: usize,
    kind: BuiltinOperator,
    values: &[Option<TensorValue>],
    current: usize,
    output: usize,
) -> (op: Option<Result<FoldedOp, GraphError>>)
    requires
        index < graph.operators@.len(),
    ensures
        outcome::view_of(op) == real_op(*graph, index, kind, table(values@), current, output),
{
    let inputs: Vec<i32> = entries_of(&graph.operators[index].inputs);
    if inputs.len() == 0 {
        return None;
    }
    let (origin, shape): (usize, Vec<usize>) = match data_input(
        Label::RealOperator,
        index,
        inputs[0],
        values,
    ) {
        Ok(data) => data,
        Err(error) => {
            return Some(Err(error));
        },
    };
    if origin != current {
        return Some(Err(FoldError::Branching { kind, index }));
    }
    let input_shape: Vec<usize> = match checked_normalize_real_input(kind, shape) {
        None => {
            return None;
        },
        Some(Err(error)) => {
            return Some(Err(FoldError::OperatorShape { kind, index, error }));
        },
        Some(Ok(input_shape)) => input_shape,
    };
    if output >= graph.tensors.len() {
        return None;
    }
    match normalize_real_output(kind, tensor_shape(&graph.tensors[output])) {
        Err(error) => Some(Err(FoldError::OperatorShape { kind, index, error })),
        Ok(output_shape) => Some(Ok(FoldedOp { index, kind, input_shape, output_shape })),
    }
}

/// State of the pass between two operators.
struct FoldState {
    values: Vec<Option<TensorValue>>,
    current: usize,
    ops: Vec<FoldedOp>,
}

impl View for FoldState {
    type V = FoldStateView;

    closed spec fn view(&self) -> FoldStateView {
        FoldStateView {
            values: table(self.values@),
            current: self.current,
            ops: op_views(self.ops@),
        }
    }
}

impl FoldState {
    /// Records what is known about the tensor `output`.
    fn record(
        self,
        output: usize,
        value: Option<Result<TensorValue, GraphError>>,
    ) -> (next: Option<Result<FoldState, GraphError>>)
        ensures
            outcome::view_of(next) == recorded(self@, output, outcome::view_of(value)),
    {
        match value {
            None => None,
            Some(Err(error)) => Some(Err(error)),
            Some(Ok(value)) => {
                if output >= self.values.len() {
                    return None;
                }
                let mut values: Vec<Option<TensorValue>> = self.values;
                values[output] = Some(value);
                assert(table(values@) =~= table(self.values@).update(
                    output as int,
                    Some(value@),
                ));
                Some(Ok(FoldState { values, current: self.current, ops: self.ops }))
            },
        }
    }

    /// Appends a real operator that writes the tensor `output`.
    fn advance(self, output: usize, op: Option<Result<FoldedOp, GraphError>>) -> (next: Option<
        Result<FoldState, GraphError>,
    >)
        ensures
            outcome::view_of(next) == advanced(self@, output, outcome::view_of(op)),
    {
        match op {
            None => None,
            Some(Err(error)) => Some(Err(error)),
            Some(Ok(op)) => {
                if output >= self.values.len() {
                    return None;
                }
                let mut values: Vec<Option<TensorValue>> = self.values;
                let mut ops: Vec<FoldedOp> = self.ops;
                let shape: Vec<usize> = slice_to_vec(op.output_shape.as_slice());
                let ghost value = ValueView::Data { origin: output, shape: op.output_shape@ };
                values[output] = Some(Value::Data { origin: output, shape });
                assert(table(values@) =~= table(self.values@).update(output as int, Some(value)));
                ops.push(op);
                assert(op_views(ops@) =~= op_views(self.ops@).push(op@));
                Some(Ok(FoldState { values, current: output, ops }))
            },
        }
    }

    /// Processes the operator at `index`.
    fn next(self, graph: &Graph, index: usize) -> (next: Option<Result<FoldState, GraphError>>)
        requires
            index < graph.operators@.len(),
        ensures
            outcome::view_of(next) == step(*graph, self@, index),
    {
        let operator: &Operator = &graph.operators[index];
        let outputs: Vec<i32> = entries_of(&operator.outputs);
        if operator.opcode_index as usize >= graph.operator_codes.len() || outputs.len() == 0 {
            return None;
        }
        let kind: BuiltinOperator = builtin_kind(graph.operator_codes.as_slice(), operator);
        let output: usize = if outputs[0] < 0 {
            0
        } else {
            outputs[0] as usize
        };
        match kind {
            BuiltinOperator::EXPAND_DIMS => {
                let value = expand_dims(graph, index, self.values.as_slice());
                self.record(output, value)
            },
            BuiltinOperator::RESHAPE => {
                let value = reshape(graph, index, self.values.as_slice());
                self.record(output, value)
            },
            BuiltinOperator::SHAPE => {
                let value = shape_vector(graph, index, self.values.as_slice());
                self.record(output, value)
            },
            BuiltinOperator::STRIDED_SLICE => {
                let value = slice_shape_vector(graph, index, self.values.as_slice());
                self.record(output, value)
            },
            BuiltinOperator::PACK => {
                let value = pack(graph, index, self.values.as_slice());
                self.record(output, value)
            },
            BuiltinOperator::CONV_2D
            | BuiltinOperator::DEPTHWISE_CONV_2D
            | BuiltinOperator::AVERAGE_POOL_2D
            | BuiltinOperator::FULLY_CONNECTED
            | BuiltinOperator::SOFTMAX
            | BuiltinOperator::TRANSPOSE => {
                let op = keep_real_op(
                    graph,
                    index,
                    kind,
                    self.values.as_slice(),
                    self.current,
                    output,
                );
                self.advance(output, op)
            },
            unsupported => Some(Err(FoldError::Unsupported { kind: unsupported, index })),
        }
    }

    /// The folded graph, once every operator has been processed.
    fn finish(self, output: usize) -> (graph: Option<Result<FoldedGraph, GraphError>>)
        ensures
            outcome::view_of(graph) == finished(self@, output),
    {
        if output >= self.values.len() {
            return Some(Err(FoldError::OutputNotProduced));
        }
        assert(table(self.values@)[output as int] == match self.values@[output as int] {
            Some(value) => Some(value@),
            None => None,
        });
        match &self.values[output] {
            Some(Value::Data { origin: _, shape }) => match checked_normalize_model_output(
                shape.as_slice(),
            ) {
                None => None,
                Some(Err(error)) => Some(Err(FoldError::OutputShape { error })),
                Some(Ok(output_shape)) => Some(Ok(FoldedGraph { ops: self.ops, output_shape })),
            },
            _ => Some(Err(FoldError::OutputNotProduced)),
        }
    }
}

/// A failure of the first operators is the failure of all of them.
proof fn lemma_state_failure(graph: Graph, start: FoldStateView, n: nat, m: nat)
    requires
        n <= m,
        !(state_after(graph, start, n) matches Some(Ok(_))),
    ensures
        state_after(graph, start, m) == state_after(graph, start, n),
    decreases m - n,
{
    if n < m {
        lemma_state_failure(graph, start, n + 1, m);
    }
}

/// Folds the shape operators of a subgraph away, or returns `None` where an
/// operator refers to an entry that does not exist or its arithmetic
/// overflows. The arguments are those of [`fold`].
pub fn checked_fold(
    graph: &Graph,
    input_tensor_index: usize,
    output_tensor_index: usize,
    raw_input_shape: &[usize],
) -> (result: Option<Result<FoldedGraph, GraphError>>)
    ensures
        outcome::view_of(result) == folded(
            *graph,
            input_tensor_index,
            output_tensor_index,
            raw_input_shape@,
        ),
{
    if input_tensor_index >= graph.tensors.len() {
        return None;
    }
    let ghost start = initial_state(graph.tensors@.len(), input_tensor_index, raw_input_shape@);
    let mut values: Vec<Option<TensorValue>> = Vec::new();
    let mut i: usize = 0;
    while i < graph.tensors.len()
        invariant
            i <= graph.tensors@.len(),
            values@.len() == i,
            forall|k: int| 0 <= k < i ==> #[trigger] values@[k] is None,
        decreases graph.tensors@.len() - i,
    {
        values.push(None);
        i = i + 1;
    }
    values[input_tensor_index] = Some(
        Value::Data { origin: input_tensor_index, shape: slice_to_vec(raw_input_shape) },
    );
    let mut state: FoldState = FoldState { values, current: input_tensor_index, ops: Vec::new() };
    assert(state@.values =~= start.values);
    assert(state@.ops =~= start.ops);
    let mut index: usize = 0;
    #[verifier::loop_isolation(false)]
    while index < graph.operators.len()
        invariant
            index <= graph.operators@.len(),
            state_after(*graph, start, index as nat) == Some(
                Ok::<FoldStateView, FoldErrorView>(state@),
            ),
        decreases graph.operators@.len() - index,
    {
        match state.next(graph, index) {
            None => {
                proof {
                    lemma_state_failure(
                        *graph,
                        start,
                        (index + 1) as nat,
                        graph.operators@.len(),
                    );
                }
                return None;
            },
            Some(Err(error)) => {
                proof {
                    lemma_state_failure(
                        *graph,
                        start,
                        (index + 1) as nat,
                        graph.operators@.len(),
                    );
                }
                return Some(Err(error));
            },
            Some(Ok(next)) => {
                state = next;
            },
        }
        index = index + 1;
    }
    state.finish(output_tensor_index)
}

/// Folds the shape operators of a subgraph away.
///
/// # Arguments
/// * `graph` - The subgraph operators and tensors, the model operator codes
///   (kind resolution) and the model buffers (constant shape vectors)
/// * `input_tensor_index` - Index of the subgraph input tensor
/// * `output_tensor_index` - Index of the subgraph output tensor
/// * `raw_input_shape` - The input shape as declared in the file
///   (normalization is applied by the caller, on the generated chain types)
///
pub fn fold(
    graph: &Graph,
    input_tensor_index: usize,
    output_tensor_index: usize,
    raw_input_shape: &[usize],
) -> (result: Result<FoldedGraph, GraphError>)
    requires
        folded(*graph, input_tensor_index, output_tensor_index, raw_input_shape@) is Some,
    ensures
        outcome::view_of(Some(result)) == folded(
            *graph,
            input_tensor_index,
            output_tensor_index,
            raw_input_shape@,
        ),
{
    checked_fold(graph, input_tensor_index, output_tensor_index, raw_input_shape).unwrap()
}

} // verus!
