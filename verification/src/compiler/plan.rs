//! The layers of a model, in the order in which code is generated for them.
use crate::compiler::conversion;
use crate::compiler::conversion::{checked_conversion_steps, Conversion, ConversionError};
use crate::compiler::fold;
use crate::compiler::fold::{FoldedGraph, FoldedOp, FoldedOpView};
use crate::compiler::outcome;
use crate::compiler::schema;
use crate::compiler::schema::{
    entries_of, tensor_shape, BuiltinOperator, BuiltinOptions, ElementType, Graph, Operator, Tensor,
    TensorType,
};
use vstd::prelude::*;
use vstd::slice::slice_to_vec;

verus! {

// Model input

/// Why the input of a model is not supported.
#[derive(Debug, PartialEq, Eq)]
pub enum InputError<D> {
    /// The elements are neither `INT8` nor `UINT8`.
    Type { type_: TensorType },
    /// The batch dimension of a rank-3 input is not 1.
    Batch { shape: D },
    /// The rank is not supported.
    Rank { shape: D },
}

impl View for InputError<Vec<usize>> {
    type V = InputError<Seq<usize>>;

    open spec fn view(&self) -> InputError<Seq<usize>> {
        match *self {
            InputError::Type { type_ } => InputError::Type { type_ },
            InputError::Batch { shape } => InputError::Batch { shape: shape@ },
            InputError::Rank { shape } => InputError::Rank { shape: shape@ },
        }
    }
}

/// The input of a model: its elements, the shape that the layers see, the
/// shape that the user hands over, and whether the two differ (a rank-3
/// input, whose batch axis does not enter the user's type).
#[derive(Debug, PartialEq, Eq)]
pub struct InputPlan<D> {
    pub element: ElementType,
    pub raw_shape: D,
    pub shape: D,
    pub user_shape: D,
    pub relabeled: bool,
}

impl View for InputPlan<Vec<usize>> {
    type V = InputPlan<Seq<usize>>;

    open spec fn view(&self) -> InputPlan<Seq<usize>> {
        InputPlan {
            element: self.element,
            raw_shape: self.raw_shape@,
            shape: self.shape@,
            user_shape: self.user_shape@,
            relabeled: self.relabeled,
        }
    }
}

/// The input of a model by its elements and its shape in the file.
pub open spec fn planned_shape(element: ElementType, raw: Seq<usize>) -> Result<
    InputPlan<Seq<usize>>,
    InputError<Seq<usize>>,
> {
    if raw.len() == 1 {
        let shape = seq![1usize, raw[0]];
        Ok(InputPlan { element, raw_shape: raw, shape, user_shape: shape, relabeled: false })
    } else if raw.len() == 2 || raw.len() == 4 {
        Ok(InputPlan { element, raw_shape: raw, shape: raw, user_shape: raw, relabeled: false })
    } else if raw.len() == 3 && raw[0] == 1 {
        Ok(
            InputPlan {
                element,
                raw_shape: raw,
                shape: seq![1usize, 1usize, raw[1], raw[2]],
                user_shape: seq![raw[1], raw[2]],
                relabeled: true,
            },
        )
    } else if raw.len() == 3 {
        Err(InputError::Batch { shape: raw })
    } else {
        Err(InputError::Rank { shape: raw })
    }
}

/// The input of a model, or why it is not supported; `None` where the tensor
/// or its shape is missing.
pub open spec fn planned_input(graph: Graph, input: usize) -> Option<
    Result<InputPlan<Seq<usize>>, InputError<Seq<usize>>>,
> {
    if input >= graph.tensors@.len() || graph.tensors@[input as int].shape is None {
        None
    } else {
        let tensor = graph.tensors@[input as int];
        match tensor.type_.element() {
            None => Some(Err(InputError::Type { type_: tensor.type_ })),
            Some(element) => Some(planned_shape(element, schema::shape_of(tensor))),
        }
    }
}

/// Plans the input of a model: a rank-1 input gets a batch axis, and a
/// rank-3 `(1, T, C)` input is normalized to `(1, 1, T, C)`, while the
/// user-facing type stays `(T, C)`. `None` where the tensor or its shape is
/// missing.
pub fn checked_plan_input(graph: &Graph, input: usize) -> (r: Option<
    Result<InputPlan<Vec<usize>>, InputError<Vec<usize>>>,
>)
    ensures
        outcome::view_of(r) == planned_input(*graph, input),
{
    if input >= graph.tensors.len() {
        return None;
    }
    let tensor: &Tensor = &graph.tensors[input];
    if tensor.shape.is_none() {
        return None;
    }
    let element: ElementType = match tensor.type_.quantized() {
        Ok(element) => element,
        Err(type_) => {
            return Some(Err(InputError::Type { type_ }));
        },
    };
    let raw_shape: Vec<usize> = tensor_shape(tensor);
    let rank: usize = raw_shape.len();
    let (shape, user_shape, relabeled): (Vec<usize>, Vec<usize>, bool) = if rank == 1 {
        (vec![1, raw_shape[0]], vec![1, raw_shape[0]], false)
    } else if rank == 2 || rank == 4 {
        (slice_to_vec(raw_shape.as_slice()), slice_to_vec(raw_shape.as_slice()), false)
    } else if rank == 3 && raw_shape[0] == 1 {
        (
            vec![1, 1, raw_shape[1], raw_shape[2]],
            vec![raw_shape[1], raw_shape[2]],
            true,
        )
    } else if rank == 3 {
        return Some(Err(InputError::Batch { shape: raw_shape }));
    } else {
        return Some(Err(InputError::Rank { shape: raw_shape }));
    };
    let plan: InputPlan<Vec<usize>> = InputPlan {
        element,
        raw_shape,
        shape,
        user_shape,
        relabeled,
    };
    proof {
        let expected = planned_shape(element, plan@.raw_shape)->Ok_0;
        assert(plan@.shape =~= expected.shape);
        assert(plan@.user_shape =~= expected.user_shape);
    }
    Some(Ok(plan))
}

/// The zero points of an `INT8` tensor.
pub fn zero_points_i8(zero_points: &[i64]) -> (r: Vec<i8>)
    ensures
        r@ == Seq::new(zero_points@.len(), |i: int| zero_points@[i] as i8),
{
    let mut r: Vec<i8> = Vec::new();
    let mut i: usize = 0;
    while i < zero_points.len()
        invariant
            i <= zero_points@.len(),
            r@ =~= Seq::new(i as nat, |k: int| zero_points@[k] as i8),
        decreases zero_points.len() - i,
    {
        r.push(
            #[verifier::truncate]
            (zero_points[i] as i8),
        );
        i += 1;
    }
    r
}

/// The zero points of a `UINT8` tensor.
pub fn zero_points_u8(zero_points: &[i64]) -> (r: Vec<u8>)
    ensures
        r@ == Seq::new(zero_points@.len(), |i: int| zero_points@[i] as u8),
{
    let mut r: Vec<u8> = Vec::new();
    let mut i: usize = 0;
    while i < zero_points.len()
        invariant
            i <= zero_points@.len(),
            r@ =~= Seq::new(i as nat, |k: int| zero_points@[k] as u8),
        decreases zero_points.len() - i,
    {
        r.push(
            #[verifier::truncate]
            (zero_points[i] as u8),
        );
        i += 1;
    }
    r
}

// Layers

/// The kernel that a layer calls.
#[derive(Debug, Clone, Copy, PartialEq, Eq, Structural)]
pub enum LayerKind {
    FullyConnected,
    DepthwiseConv2D,
    Conv1D,
    Conv2D,
    AveragePool2D,
    Softmax,
    Transpose,
}

/// A step of the generated code.
#[derive(Debug, PartialEq, Eq)]
pub enum Step<D> {
    /// The data is handed on under another shape.
    Reshape { shape: D },
    /// The kernel of operator `index` is called.
    Layer { kind: LayerKind, index: usize, input_shape: D, output_shape: D },
}

impl View for Step<Vec<usize>> {
    type V = Step<Seq<usize>>;

    open spec fn view(&self) -> Step<Seq<usize>> {
        match *self {
            Step::Reshape { shape } => Step::Reshape { shape: shape@ },
            Step::Layer { kind, index, input_shape, output_shape } => Step::Layer {
                kind,
                index,
                input_shape: input_shape@,
                output_shape: output_shape@,
            },
        }
    }
}

/// Why the generated code ends before the model output.
#[derive(Debug, PartialEq, Eq)]
pub enum Failure<D> {
    /// The data cannot be handed to the operator.
    Conversion { kind: BuiltinOperator, index: usize, error: ConversionError<D> },
    /// The element count of a shape overflows, or a batch dimension is zero.
    Count,
    /// The filters of the operator are not in the tensor table.
    Filters { index: usize },
    /// No kernel is known for the operator.
    Operator { kind: BuiltinOperator },
    /// The data cannot be handed out under the shape of the model output.
    Output { error: ConversionError<D> },
    /// The model output is not in the tensor table.
    OutputTensor,
    /// The elements of the output are neither `INT8` nor `UINT8`.
    OutputType { type_: TensorType },
    /// The rank of the output is neither 2 nor 4.
    OutputRank { rank: usize },
}

impl View for Failure<Vec<usize>> {
    type V = Failure<Seq<usize>>;

    open spec fn view(&self) -> Failure<Seq<usize>> {
        match *self {
            Failure::Conversion { kind, index, error } => Failure::Conversion {
                kind,
                index,
                error: error@,
            },
            Failure::Count => Failure::Count,
            Failure::Filters { index } => Failure::Filters { index },
            Failure::Operator { kind } => Failure::Operator { kind },
            Failure::Output { error } => Failure::Output { error: error@ },
            Failure::OutputTensor => Failure::OutputTensor,
            Failure::OutputType { type_ } => Failure::OutputType { type_ },
            Failure::OutputRank { rank } => Failure::OutputRank { rank },
        }
    }
}

/// Whether the filters of a tensor are one row high.
pub open spec fn one_row_high(tensor: Tensor) -> bool {
    tensor.shape matches Some(shape) && shape@.len() == 4 && shape@[1] == 1
}

/// Whether an operator is the 1-D case of a convolution: filters one row
/// high and no vertical stride. `None` where the filters are not in the
/// tensor table.
pub open spec fn strides_over_time(operator: Operator, tensors: Seq<Tensor>) -> Option<bool> {
    let inputs = schema::entries(operator.inputs);
    if inputs.len() < 2 || inputs[1] < 0 {
        Some(false)
    } else if inputs[1] >= tensors.len() {
        None
    } else {
        Some(
            one_row_high(tensors[inputs[1] as int]) && (match operator.options {
                BuiltinOptions::Conv2D(options) => options.stride_h == 1,
                _ => true,
            }),
        )
    }
}

/// Is this CONV_2D the 1-D case (filters with height 1 and no vertical
/// stride)? The input-height half of the check lives in the caller, which
/// sees the effective (folded) input shape. `None` where the filters are not
/// in the tensor table.
pub fn checked_is_conv_1d(operator: &Operator, tensors: &[Tensor]) -> (r: Option<bool>)
    ensures
        r == strides_over_time(*operator, tensors@),
{
    let inputs: Vec<i32> = entries_of(&operator.inputs);
    if inputs.len() < 2 || inputs[1] < 0 {
        return Some(false);
    }
    if inputs[1] as usize >= tensors.len() {
        return None;
    }
    let filters_height_1: bool = match &tensors[inputs[1] as usize].shape {
        Some(shape) => shape.len() == 4 && shape[1] == 1,
        None => false,
    };
    let stride_h_1: bool = match &operator.options {
        BuiltinOptions::Conv2D(options) => options.stride_h == 1,
        _ => true,
    };
    Some(filters_height_1 && stride_h_1)
}

/// Is this CONV_2D the 1-D case?
pub fn is_conv_1d(operator: &Operator, tensors: &[Tensor]) -> (r: bool)
    requires
        strides_over_time(*operator, tensors@) is Some,
    ensures
        Some(r) == strides_over_time(*operator, tensors@),
{
    checked_is_conv_1d(operator, tensors).unwrap()
}

/// The kernel of a folded operator, or why there is none. A CONV_2D over a
/// single row with filters one row high goes through the dedicated kernel,
/// unless `force_conv_2d` is set.
pub open spec fn route(graph: Graph, op: FoldedOpView, force_conv_2d: bool) -> Result<
    LayerKind,
    Failure<Seq<usize>>,
> {
    match op.kind {
        BuiltinOperator::FULLY_CONNECTED => Ok(LayerKind::FullyConnected),
        BuiltinOperator::DEPTHWISE_CONV_2D => Ok(LayerKind::DepthwiseConv2D),
        BuiltinOperator::CONV_2D => {
            if op.input_shape.len() == 4 && op.input_shape[1] == 1 {
                match strides_over_time(graph.operators@[op.index as int], graph.tensors@) {
                    None => Err(Failure::Filters { index: op.index }),
                    Some(one_d) => if one_d && !force_conv_2d {
                        Ok(LayerKind::Conv1D)
                    } else {
                        Ok(LayerKind::Conv2D)
                    },
                }
            } else {
                Ok(LayerKind::Conv2D)
            }
        },
        BuiltinOperator::AVERAGE_POOL_2D => Ok(LayerKind::AveragePool2D),
        BuiltinOperator::SOFTMAX => Ok(LayerKind::Softmax),
        BuiltinOperator::TRANSPOSE => Ok(LayerKind::Transpose),
        kind => Err(Failure::Operator { kind }),
    }
}

/// Picks the kernel of a folded operator.
pub fn layer_kind(graph: &Graph, op: &FoldedOp, force_conv_2d: bool) -> (r: Result<
    LayerKind,
    Failure<Vec<usize>>,
>)
    requires
        op.index < graph.operators@.len(),
    ensures
        match (r, route(*graph, op@, force_conv_2d)) {
            (Ok(kind), Ok(expected)) => kind == expected,
            (Err(failure), Err(expected)) => failure@ == expected,
            _ => false,
        },
{
    match op.kind {
        BuiltinOperator::FULLY_CONNECTED => Ok(LayerKind::FullyConnected),
        BuiltinOperator::DEPTHWISE_CONV_2D => Ok(LayerKind::DepthwiseConv2D),
        BuiltinOperator::CONV_2D => {
            let one_d_input: bool = op.input_shape.len() == 4 && op.input_shape[1] == 1;
            if !one_d_input {
                return Ok(LayerKind::Conv2D);
            }
            match checked_is_conv_1d(&graph.operators[op.index], graph.tensors.as_slice()) {
                None => Err(Failure::Filters { index: op.index }),
                Some(one_d) => if one_d && !force_conv_2d {
                    Ok(LayerKind::Conv1D)
                } else {
                    Ok(LayerKind::Conv2D)
                },
            }
        },
        BuiltinOperator::AVERAGE_POOL_2D => Ok(LayerKind::AveragePool2D),
        BuiltinOperator::SOFTMAX => Ok(LayerKind::Softmax),
        BuiltinOperator::TRANSPOSE => Ok(LayerKind::Transpose),
        kind => Err(Failure::Operator { kind }),
    }
}

/// How far the generated code has come: its steps, the shape of the data
/// after them, and why it goes no further, if it does not.
pub struct ProgressView {
    pub steps: Seq<Step<Seq<usize>>>,
    pub current: Seq<usize>,
    pub failure: Option<Failure<Seq<usize>>>,
}

/// Steps that hand the data on under each shape in turn.
pub open spec fn reshapes(shapes: Seq<Seq<usize>>) -> Seq<Step<Seq<usize>>> {
    Seq::new(shapes.len(), |i: int| Step::Reshape { shape: shapes[i] })
}

/// The progress after one more folded operator: a conversion where its input
/// shape differs from the current one, and the layer.
pub open spec fn with_layer(
    graph: Graph,
    before: ProgressView,
    op: FoldedOpView,
    force_conv_2d: bool,
) -> ProgressView {
    match conversion::conversion(before.current, op.input_shape) {
        None => ProgressView { failure: Some(Failure::Count), ..before },
        Some(Err(error)) => ProgressView {
            failure: Some(Failure::Conversion { kind: op.kind, index: op.index, error }),
            ..before
        },
        Some(Ok(shapes)) => {
            let converted = before.steps + reshapes(shapes);
            match route(graph, op, force_conv_2d) {
                Err(failure) => ProgressView {
                    steps: converted,
                    current: op.input_shape,
                    failure: Some(failure),
                },
                Ok(kind) => ProgressView {
                    steps: converted.push(
                        Step::Layer {
                            kind,
                            index: op.index,
                            input_shape: op.input_shape,
                            output_shape: op.output_shape,
                        },
                    ),
                    current: op.output_shape,
                    failure: None,
                },
            }
        },
    }
}

/// The progress after the first `n` folded operators.
pub open spec fn progress(
    graph: Graph,
    ops: Seq<FoldedOpView>,
    input_shape: Seq<usize>,
    force_conv_2d: bool,
    n: nat,
) -> ProgressView
    decreases n,
{
    if n == 0 {
        ProgressView { steps: Seq::empty(), current: input_shape, failure: None }
    } else {
        let before = progress(graph, ops, input_shape, force_conv_2d, (n - 1) as nat);
        if before.failure is Some {
            before
        } else {
            with_layer(graph, before, ops[n - 1], force_conv_2d)
        }
    }
}

/// The output of a model: its elements and its shape.
#[derive(Debug, PartialEq, Eq)]
pub struct OutputPlan<D> {
    pub element: ElementType,
    pub shape: D,
}

/// The generated code: its steps, and the model output or why it is not
/// reached. The steps before a failure are those that come before it.
#[derive(Debug, PartialEq, Eq)]
pub struct LayerPlan<P, D> {
    pub steps: P,
    pub ending: Result<OutputPlan<D>, Failure<D>>,
}

/// The views of a list of steps.
pub open spec fn step_views(steps: Seq<Step<Vec<usize>>>) -> Seq<Step<Seq<usize>>> {
    Seq::new(steps.len(), |i: int| steps[i]@)
}

impl View for LayerPlan<Vec<Step<Vec<usize>>>, Vec<usize>> {
    type V = LayerPlan<Seq<Step<Seq<usize>>>, Seq<usize>>;

    open spec fn view(&self) -> LayerPlan<Seq<Step<Seq<usize>>>, Seq<usize>> {
        LayerPlan {
            steps: step_views(self.steps@),
            ending: match self.ending {
                Ok(output) => Ok(OutputPlan { element: output.element, shape: output.shape@ }),
                Err(failure) => Err(failure@),
            },
        }
    }
}

/// How the generated code ends, once the data has the shape of the output.
pub open spec fn planned_output(graph: Graph, output: usize, shape: Seq<usize>) -> Result<
    OutputPlan<Seq<usize>>,
    Failure<Seq<usize>>,
> {
    if output >= graph.tensors@.len() {
        Err(Failure::OutputTensor)
    } else {
        let type_ = graph.tensors@[output as int].type_;
        match type_.element() {
            None => Err(Failure::OutputType { type_ }),
            Some(element) => if shape.len() == 2 || shape.len() == 4 {
                Ok(OutputPlan { element, shape })
            } else {
                Err(Failure::OutputRank { rank: shape.len() as usize })
            },
        }
    }
}

/// The generated code of a folded graph: the layers, and a conversion to the
/// shape of the model output where the last layer leaves another.
pub open spec fn planned_layers(
    graph: Graph,
    ops: Seq<FoldedOpView>,
    output_shape: Seq<usize>,
    output: usize,
    input_shape: Seq<usize>,
    force_conv_2d: bool,
) -> LayerPlan<Seq<Step<Seq<usize>>>, Seq<usize>> {
    let last = progress(graph, ops, input_shape, force_conv_2d, ops.len());
    if last.failure is Some {
        LayerPlan { steps: last.steps, ending: Err(last.failure->Some_0) }
    } else {
        match conversion::conversion(last.current, output_shape) {
            None => LayerPlan { steps: last.steps, ending: Err(Failure::Count) },
            Some(Err(error)) => LayerPlan {
                steps: last.steps,
                ending: Err(Failure::Output { error }),
            },
            Some(Ok(shapes)) => LayerPlan {
                steps: last.steps + reshapes(shapes),
                ending: planned_output(graph, output, output_shape),
            },
        }
    }
}

/// Appends the reshapes of a conversion.
fn push_reshapes(steps: &mut Vec<Step<Vec<usize>>>, conversion: Conversion)
    ensures
        step_views(final(steps)@) == step_views(old(steps)@) + reshapes(conversion@),
{
    let ghost shapes = conversion@;
    let ghost before = step_views(steps@);
    let count: usize = conversion.steps.len();
    let mut i: usize = 0;
    while i < count
        invariant
            i <= count,
            count == conversion.steps@.len(),
            shapes == conversion@,
            step_views(steps@) =~= before + reshapes(shapes.take(i as int)),
        decreases count - i,
    {
        let shape: Vec<usize> = slice_to_vec(conversion.steps[i].as_slice());
        let ghost taken = reshapes(shapes.take(i as int));
        let ghost prior = step_views(steps@);
        assert(shape@ == shapes[i as int]);
        steps.push(Step::Reshape { shape });
        assert(step_views(steps@) =~= prior.push(Step::Reshape { shape: shapes[i as int] }));
        assert(reshapes(shapes.take(i + 1)) =~= taken.push(Step::Reshape { shape: shapes[i as int] }));
        i += 1;
    }
    assert(shapes.take(count as int) =~= shapes);
}

/// Once the code goes no further, later operators change nothing.
proof fn lemma_failure_stays(
    graph: Graph,
    ops: Seq<FoldedOpView>,
    input_shape: Seq<usize>,
    force_conv_2d: bool,
    n: nat,
    m: nat,
)
    requires
        n <= m,
        progress(graph, ops, input_shape, force_conv_2d, n).failure is Some,
    ensures
        progress(graph, ops, input_shape, force_conv_2d, m) == progress(
            graph,
            ops,
            input_shape,
            force_conv_2d,
            n,
        ),
    decreases m,
{
    if n < m {
        lemma_failure_stays(graph, ops, input_shape, force_conv_2d, n, (m - 1) as nat);
    }
}

/// The output of a model.
fn plan_output(graph: &Graph, output: usize, shape: &[usize]) -> (r: Result<
    OutputPlan<Vec<usize>>,
    Failure<Vec<usize>>,
>)
    ensures
        match (r, planned_output(*graph, output, shape@)) {
            (Ok(plan), Ok(expected)) => plan.element == expected.element && plan.shape@
                == expected.shape,
            (Err(failure), Err(expected)) => failure@ == expected,
            _ => false,
        },
{
    if output >= graph.tensors.len() {
        return Err(Failure::OutputTensor);
    }
    match graph.tensors[output].type_.quantized() {
        Err(type_) => Err(Failure::OutputType { type_ }),
        Ok(element) => {
            if shape.len() == 2 || shape.len() == 4 {
                Ok(OutputPlan { element, shape: slice_to_vec(shape) })
            } else {
                Err(Failure::OutputRank { rank: shape.len() })
            }
        },
    }
}

/// Plans the code of a folded graph: one layer per operator, each preceded
/// by a conversion where a folded RESHAPE stands between two of them, and a
/// conversion to the shape of the model output at the end.
pub fn plan_layers(
    graph: &Graph,
    folded: &FoldedGraph,
    output_tensor_index: usize,
    input_shape: &[usize],
    force_conv_2d: bool,
) -> (plan: LayerPlan<Vec<Step<Vec<usize>>>, Vec<usize>>)
    requires
        forall|k: int|
            0 <= k < folded.ops@.len() ==> (#[trigger] folded.ops@[k]).index
                < graph.operators@.len(),
    ensures
        plan@ == planned_layers(
            *graph,
            fold::op_views(folded.ops@),
            folded.output_shape@,
            output_tensor_index,
            input_shape@,
            force_conv_2d,
        ),
{
    let ghost ops = fold::op_views(folded.ops@);
    let mut steps: Vec<Step<Vec<usize>>> = Vec::new();
    let mut current: Vec<usize> = slice_to_vec(input_shape);
    let mut n: usize = 0;
    assert(step_views(steps@) =~= Seq::empty());
    #[verifier::loop_isolation(false)]
    while n < folded.ops.len()
        invariant
            n <= folded.ops@.len(),
            progress(*graph, ops, input_shape@, force_conv_2d, n as nat) == (ProgressView {
                steps: step_views(steps@),
                current: current@,
                failure: None,
            }),
        decreases folded.ops@.len() - n,
    {
        let op: &FoldedOp = &folded.ops[n];
        let ghost before = progress(*graph, ops, input_shape@, force_conv_2d, n as nat);
        let ghost after = progress(*graph, ops, input_shape@, force_conv_2d, (n + 1) as nat);
        assert(after == with_layer(*graph, before, op@, force_conv_2d));
        proof {
            if after.failure is Some {
                lemma_failure_stays(
                    *graph,
                    ops,
                    input_shape@,
                    force_conv_2d,
                    (n + 1) as nat,
                    ops.len(),
                );
            }
        }
        match checked_conversion_steps(current.as_slice(), op.input_shape.as_slice()) {
            None => {
                return LayerPlan { steps, ending: Err(Failure::Count) };
            },
            Some(Err(error)) => {
                let failure: Failure<Vec<usize>> = Failure::Conversion {
                    kind: op.kind,
                    index: op.index,
                    error,
                };
                return LayerPlan { steps, ending: Err(failure) };
            },
            Some(Ok(conversion)) => {
                push_reshapes(&mut steps, conversion);
            },
        }
        match layer_kind(graph, op, force_conv_2d) {
            Err(failure) => {
                return LayerPlan { steps, ending: Err(failure) };
            },
            Ok(kind) => {
                let ghost converted = step_views(steps@);
                let layer: Step<Vec<usize>> = Step::Layer {
                    kind,
                    index: op.index,
                    input_shape: slice_to_vec(op.input_shape.as_slice()),
                    output_shape: slice_to_vec(op.output_shape.as_slice()),
                };
                let ghost view = layer@;
                steps.push(layer);
                assert(step_views(steps@) =~= converted.push(view));
            },
        }
        current = slice_to_vec(op.output_shape.as_slice());
        n += 1;
    }
    match checked_conversion_steps(current.as_slice(), folded.output_shape.as_slice()) {
        None => LayerPlan { steps, ending: Err(Failure::Count) },
        Some(Err(error)) => LayerPlan { steps, ending: Err(Failure::Output { error }) },
        Some(Ok(conversion)) => {
            push_reshapes(&mut steps, conversion);
            let ending = plan_output(graph, output_tensor_index, folded.output_shape.as_slice());
            LayerPlan { steps, ending }
        },
    }
}

} // verus!
